//! The unified error taxonomy.

use vstd::prelude::*;

verus! {

use crate::platform_impl::PlatformError;
use crate::platform_impl::macos::MacOSError;
use crate::platform_impl::windows::E_ACCESSDENIED;
use crate::platform_impl::windows::WindowsError;

/// Error types for the window getter, unifying both platforms' failure
/// signals into one small closed set.
#[derive(Clone, Copy, Debug, PartialEq, Eq, Structural)]
pub enum Error {
    /// The window environment was not found: the native enumeration
    /// facility itself is unavailable, for example because no window
    /// server session is active.  Observed only on the snapshot platform.
    NoWindowEnvironment,
    /// A native call was refused because the caller lacks the required
    /// capability.  Observed only on the handle platform, and only ever
    /// produced from the one native access-denied status.
    PermissionDenied(PlatformError),
    /// Any other platform-specific failure, wrapped verbatim for
    /// diagnostic purposes and not interpreted further.
    PlatformSpecificError(PlatformError),
}

/// How a snapshot-platform failure is normalized: always the
/// platform-specific kind.
pub open spec fn error_of_macos(e: MacOSError) -> Error {
    Error::PlatformSpecificError(PlatformError::MacOS(e))
}

/// How a handle-platform failure is normalized: the access-denied status
/// becomes [`Error::PermissionDenied`]; every other failure collapses
/// into [`Error::PlatformSpecificError`].
pub open spec fn error_of_windows(e: WindowsError) -> Error {
    if e == WindowsError::Status(E_ACCESSDENIED) {
        Error::PermissionDenied(PlatformError::Windows(e))
    } else {
        Error::PlatformSpecificError(PlatformError::Windows(e))
    }
}

impl Error {
    /// The taxonomy invariant: `PermissionDenied` only ever wraps the one
    /// native access-denied status.
    pub open spec fn wf(&self) -> bool {
        self matches Error::PermissionDenied(p) ==> p == PlatformError::Windows(
            WindowsError::Status(E_ACCESSDENIED),
        )
    }
}

impl From<MacOSError> for Error {
    fn from(e: MacOSError) -> (r: Error) {
        Error::PlatformSpecificError(PlatformError::MacOS(e))
    }
}

impl vstd::std_specs::convert::FromSpecImpl<MacOSError> for Error {
    open spec fn obeys_from_spec() -> bool {
        true
    }

    open spec fn from_spec(e: MacOSError) -> Error {
        error_of_macos(e)
    }
}

impl From<WindowsError> for Error {
    fn from(e: WindowsError) -> (r: Error) {
        if e == WindowsError::Status(E_ACCESSDENIED) {
            Error::PermissionDenied(PlatformError::Windows(e))
        } else {
            Error::PlatformSpecificError(PlatformError::Windows(e))
        }
    }
}

impl vstd::std_specs::convert::FromSpecImpl<WindowsError> for Error {
    open spec fn obeys_from_spec() -> bool {
        true
    }

    open spec fn from_spec(e: WindowsError) -> Error {
        error_of_windows(e)
    }
}

/// Normalization respects the taxonomy: a handle-platform failure becomes
/// `PermissionDenied` exactly when it carries the native access-denied
/// status, a snapshot-platform failure never does, and both results are
/// well formed.
pub proof fn lemma_error_taxonomy(w: WindowsError, m: MacOSError)
    ensures
        error_of_windows(w) is PermissionDenied <==> w == WindowsError::Status(E_ACCESSDENIED),
        error_of_macos(m) is PlatformSpecificError,
        error_of_windows(w).wf(),
        error_of_macos(m).wf(),
{
}

} // verus!
