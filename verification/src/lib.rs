//! A uniform, cross-platform query interface for enumerating on-screen
//! windows and reading their basic properties: identifier, title, bounding
//! rectangle and owning process.
//!
//! The library normalizes two structurally incompatible native window
//! models — a dictionary-keyed snapshot on one platform, a live opaque
//! handle on the other — into one small abstraction, and unifies their
//! failure signals into one error taxonomy.  The native calls themselves
//! are external collaborators: the embedding program performs them and
//! passes their raw outcomes in, and every function here states exactly
//! how those outcomes are interpreted.

use vstd::prelude::*;

mod bounds;
mod error;
pub mod platform_impl;
mod window;
mod window_id;

pub use crate::bounds::Bounds;
pub use crate::error::Error;
pub use crate::window::Window;
pub use crate::window_id::PlatformWindowId;
pub use crate::window_id::WindowId;

verus! {

use crate::error::error_of_windows;
use crate::platform_impl::macos;
use crate::platform_impl::macos::WindowInfo;
use crate::platform_impl::macos::find_window;
use crate::platform_impl::macos::mac_window;
use crate::platform_impl::macos::snapshot_windows;
use crate::platform_impl::windows;
use crate::platform_impl::windows::WindowsError;
use crate::platform_impl::windows::WindowsWindowId;
use crate::platform_impl::windows::handle_window;
use crate::platform_impl::windows::handle_windows;

/// What the native enumeration step handed back, on the platform the
/// embedding program runs on.  The two variants correspond to the two
/// platform adapters; the embedding program builds the one for its own
/// platform, selected at build time.
pub enum PlatformListing {
    /// Snapshot platform: the records decoded from the one-shot native
    /// listing, in captured order, or `None` when the native facility
    /// itself was unavailable.
    MacOS(Option<Vec<WindowInfo>>),
    /// Handle platform: the handles the native enumeration callback
    /// collected, in enumeration order, or the status the surrounding
    /// native call failed with.
    Windows(Result<Vec<WindowsWindowId>, i32>),
}

/// What the native lookup step handed back for one identifier.
pub enum PlatformLookup {
    /// Snapshot platform: the records decoded from the native listing run
    /// for the lookup, or `None` when the facility was unavailable.
    MacOS(Option<Vec<WindowInfo>>),
    /// Handle platform: whether the native liveness check found the
    /// handle named by the identifier to denote a live top-level window.
    Windows(bool),
}

/// Retrieves a window by its unique identifier.
///
/// # Platform-specific
/// - **Handle platform:** always returns [`Ok`]; an identifier that does
///   not denote a live window is a successful `None`.
/// - **Snapshot platform:** can fail with
///   [`Error::NoWindowEnvironment`], independent of whether the
///   identifier exists.
pub fn get_window(id: WindowId, lookup: PlatformLookup) -> (r: Result<Option<Window>, Error>)
    ensures
        lookup matches PlatformLookup::MacOS(None) ==> r == Err::<Option<Window>, Error>(
            Error::NoWindowEnvironment,
        ),
        lookup matches PlatformLookup::MacOS(Some(infos)) ==> r == Ok::<Option<Window>, Error>(
            match find_window(infos@, id.0) {
                Some(info) => Some(mac_window(info)),
                None => None::<Window>,
            },
        ),
        lookup matches PlatformLookup::Windows(alive) ==> r == Ok::<Option<Window>, Error>(
            if id.0 != 0 && alive {
                Some(handle_window(id.0 as u64))
            } else {
                None::<Window>
            },
        ),
        r matches Err(e) ==> e.wf(),
{
    match lookup {
        PlatformLookup::MacOS(listing) => macos::get_window(id.as_u32(), listing),
        PlatformLookup::Windows(alive) => Ok(windows::get_window(id.as_u32() as u64, alive)),
    }
}

/// Retrieves a list of all open windows on the system, in the native
/// enumeration order, which is platform-defined and never re-sorted.
pub fn get_windows(listing: PlatformListing) -> (r: Result<Vec<Window>, Error>)
    ensures
        listing matches PlatformListing::MacOS(None) ==> r == Err::<Vec<Window>, Error>(
            Error::NoWindowEnvironment,
        ),
        listing matches PlatformListing::MacOS(Some(infos)) ==> r matches Ok(ws) && ws@
            == snapshot_windows(infos@),
        listing matches PlatformListing::Windows(Ok(handles)) ==> r matches Ok(ws) && ws@
            == handle_windows(handles@),
        listing matches PlatformListing::Windows(Err(code)) ==> r == Err::<Vec<Window>, Error>(
            error_of_windows(WindowsError::Status(code)),
        ),
        r matches Err(e) ==> e.wf(),
{
    match listing {
        PlatformListing::MacOS(l) => macos::get_windows(l),
        PlatformListing::Windows(e) => windows::get_windows(e),
    }
}

/// Enumeration is deterministic in the native listing: two calls over the
/// same listing — no windows opened or closed in between — yield the same
/// windows in the same relative order, or the same error.
pub proof fn lemma_enumeration_order_stable(
    l1: PlatformListing,
    l2: PlatformListing,
    r1: Result<Vec<Window>, Error>,
    r2: Result<Vec<Window>, Error>,
)
    requires
        l1 == l2,
        call_ensures(get_windows, (l1,), r1),
        call_ensures(get_windows, (l2,), r2),
    ensures
        r1 is Ok <==> r2 is Ok,
        r1 matches Ok(w1) ==> r2 matches Ok(w2) && w1@ == w2@,
        r1 matches Err(e1) ==> r2 matches Err(e2) && e1 == e2,
{
}

/// A lookup never invents a failure: on the handle platform it always
/// succeeds — an absent identifier is `Ok(None)` — and on the snapshot
/// platform the only possible failure is the unavailable window
/// environment, independent of the identifier.
pub proof fn lemma_get_window_failure_modes(
    id: WindowId,
    lookup: PlatformLookup,
    r: Result<Option<Window>, Error>,
)
    requires
        call_ensures(get_window, (id, lookup), r),
    ensures
        lookup is Windows ==> r is Ok,
        r is Err ==> (r matches Err(e) && e == Error::NoWindowEnvironment && lookup matches
            PlatformLookup::MacOS(None)),
{
}

} // verus!
