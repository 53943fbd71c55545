//! Platform-specific window models.
//!
//! The library targets two operating environments whose native window
//! facilities differ fundamentally: one hands out immutable property
//! snapshots captured at enumeration time, the other hands out live opaque
//! handles that must be queried on demand and may go stale.  The two models
//! are kept as explicit variants so that callers depend only on the shared
//! facade, never on the variant tag.

use vstd::prelude::*;

pub mod macos;
pub mod windows;

verus! {

use crate::platform_impl::macos::MacOSError;
use crate::platform_impl::macos::MacOSWindow;
use crate::platform_impl::windows::WindowsError;
use crate::platform_impl::windows::WindowsWindow;

/// A platform-specific window: a captured property snapshot on the
/// snapshot platform, a live opaque handle on the handle platform.
#[derive(Debug)]
pub enum PlatformWindow {
    MacOS(MacOSWindow),
    Windows(WindowsWindow),
}

impl Clone for PlatformWindow {
    fn clone(&self) -> (r: Self)
        ensures
            r == *self,
    {
        match self {
            PlatformWindow::MacOS(w) => PlatformWindow::MacOS(w.clone()),
            PlatformWindow::Windows(w) => PlatformWindow::Windows(*w),
        }
    }
}

/// A platform-specific low-level error, preserved verbatim inside
/// [`Error`](crate::Error) for diagnostic purposes.
#[derive(Clone, Copy, Debug, PartialEq, Eq, Structural)]
pub enum PlatformError {
    MacOS(MacOSError),
    Windows(WindowsError),
}

} // verus!
