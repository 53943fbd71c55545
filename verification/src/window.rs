//! The platform-agnostic window facade.

use vstd::prelude::*;

verus! {

use crate::bounds::Bounds;
use crate::error::Error;
use crate::error::error_of_macos;
use crate::error::error_of_windows;
use crate::platform_impl::PlatformWindow;
use crate::platform_impl::macos::window_bounds_of;
use crate::platform_impl::windows::OwnerQuery;
use crate::platform_impl::windows::PidQuery;
use crate::platform_impl::windows::RectQuery;
use crate::platform_impl::windows::TextQuery;
use crate::platform_impl::windows::hwnd_low_bits;
use crate::platform_impl::windows::id_of_hwnd;
use crate::platform_impl::windows::owner_name_of;
use crate::platform_impl::windows::pid_of;
use crate::platform_impl::windows::query_bounds_of;
use crate::platform_impl::windows::title_of;
use crate::window_id::WindowId;

/// A wrapper around a platform-specific window.
///
/// This struct provides a cross-platform interface to window properties,
/// normalizing each platform's differing error and optionality shape into
/// one uniform signature.
///
/// On the snapshot platform every accessor answers from the captured
/// record.  On the handle platform every accessor is a fresh native query;
/// the embedding program performs that query and passes its raw outcome in
/// as the `live` argument, which must be present exactly when the window
/// is a handle-platform window.
#[derive(Debug)]
pub struct Window(pub PlatformWindow);

impl Clone for Window {
    fn clone(&self) -> (r: Self)
        ensures
            r == *self,
    {
        Window(self.0.clone())
    }
}

impl Window {
    /// The identifier this window reports: the captured window number on
    /// the snapshot platform, the native handle's normalized low bits on
    /// the handle platform.
    pub open spec fn id_spec(&self) -> WindowId {
        match self.0 {
            PlatformWindow::MacOS(m) => WindowId(m.0.number),
            PlatformWindow::Windows(w) => WindowId(id_of_hwnd(w.0)),
        }
    }

    /// What `title` returns: the captured title on the snapshot platform
    /// (absence is success, not an error), the interpreted text query on
    /// the handle platform, its failure normalized into [`Error`].
    pub open spec fn title_spec(&self, live: Option<TextQuery>) -> Result<Option<String>, Error> {
        match self.0 {
            PlatformWindow::MacOS(m) => Ok(m.0.name),
            PlatformWindow::Windows(_) => match title_of(live.unwrap()) {
                Ok(t) => Ok(t),
                Err(e) => Err(error_of_windows(e)),
            },
        }
    }

    /// What `bounds` returns: the captured rectangle's conversion on the
    /// snapshot platform, the interpreted extended-frame query on the
    /// handle platform, failures normalized into [`Error`].
    pub open spec fn bounds_spec(&self, live: Option<RectQuery>) -> Result<Bounds, Error> {
        match self.0 {
            PlatformWindow::MacOS(m) => match window_bounds_of(m.0) {
                Ok(b) => Ok(b),
                Err(e) => Err(error_of_macos(e)),
            },
            PlatformWindow::Windows(_) => match query_bounds_of(live.unwrap()) {
                Ok(b) => Ok(b),
                Err(e) => Err(error_of_windows(e)),
            },
        }
    }

    /// What `owner_pid` returns: the captured process id on the snapshot
    /// platform (infallible), the interpreted association query on the
    /// handle platform, its failure normalized into [`Error`].
    pub open spec fn owner_pid_spec(&self, live: Option<PidQuery>) -> Result<u32, Error> {
        match self.0 {
            PlatformWindow::MacOS(m) => Ok(m.0.owner_pid),
            PlatformWindow::Windows(_) => match pid_of(live.unwrap()) {
                Ok(p) => Ok(p),
                Err(e) => Err(error_of_windows(e)),
            },
        }
    }

    /// What `owner_name` returns: the captured owner name on the snapshot
    /// platform (infallible, possibly absent), the interpreted three-step
    /// chain on the handle platform, where success always carries a name.
    pub open spec fn owner_name_spec(&self, live: Option<OwnerQuery>) -> Result<
        Option<String>,
        Error,
    > {
        match self.0 {
            PlatformWindow::MacOS(m) => Ok(m.0.owner_name),
            PlatformWindow::Windows(_) => match owner_name_of(live.unwrap()) {
                Ok(n) => Ok(Some(n)),
                Err(e) => Err(error_of_windows(e)),
            },
        }
    }

    /// Creates a new [`Window`] instance from a platform-specific window.
    ///
    /// A `Window` is normally obtained from [`get_window`](crate::get_window)
    /// or [`get_windows`](crate::get_windows), so in most use cases it need
    /// not be created manually.
    pub fn new(inner: PlatformWindow) -> (r: Self)
        ensures
            r == (Window(inner)),
    {
        Window(inner)
    }

    /// Retrieves the underlying platform-specific window.
    pub fn platform_window(&self) -> (r: &PlatformWindow)
        ensures
            *r == self.0,
    {
        &self.0
    }

    /// Consumes the `Window` and returns the underlying platform-specific
    /// window.
    pub fn into_platform_window(self) -> (r: PlatformWindow)
        ensures
            r == self.0,
    {
        self.0
    }

    /// Returns the unique identifier of the window.
    pub fn id(&self) -> (r: WindowId)
        ensures
            r == self.id_spec(),
    {
        match &self.0 {
            PlatformWindow::MacOS(m) => WindowId(m.id()),
            PlatformWindow::Windows(w) => WindowId(hwnd_low_bits(w.hwnd())),
        }
    }

    /// Returns the title of the window.
    ///
    /// `live` is the raw outcome of the native window-text query, present
    /// exactly on the handle platform.  There, a refused query surfaces as
    /// [`Error::PermissionDenied`](crate::Error::PermissionDenied); on the
    /// snapshot platform the call always succeeds, returning `None` when no
    /// title was captured (which also happens while screen-capture access
    /// is not granted).
    pub fn title(&self, live: Option<TextQuery>) -> (r: Result<Option<String>, Error>)
        requires
            (self.0 is Windows) <==> (live is Some),
        ensures
            r == self.title_spec(live),
            r matches Err(e) ==> e.wf(),
    {
        match (&self.0, live) {
            (PlatformWindow::MacOS(m), _) => Ok(m.title()),
            (PlatformWindow::Windows(w), Some(query)) => match w.title(query) {
                Ok(t) => Ok(t),
                Err(e) => Err(Error::from(e)),
            },
            (PlatformWindow::Windows(_), None) => unreached(),
        }
    }

    /// Returns the bounds of the window.
    ///
    /// `live` is the raw outcome of the native extended-frame-bounds
    /// query, present exactly on the handle platform, where the visible
    /// frame is the canonical rectangle.  On the snapshot platform the
    /// captured rectangle is converted instead.
    pub fn bounds(&self, live: Option<RectQuery>) -> (r: Result<Bounds, Error>)
        requires
            (self.0 is Windows) <==> (live is Some),
        ensures
            r == self.bounds_spec(live),
            r matches Ok(b) ==> b.wf(),
            r matches Err(e) ==> e.wf(),
    {
        match (&self.0, live) {
            (PlatformWindow::MacOS(m), _) => match m.bounds() {
                Ok(b) => Ok(b),
                Err(e) => Err(Error::from(e)),
            },
            (PlatformWindow::Windows(w), Some(query)) => match w.visible_bounds(query) {
                Ok(b) => Ok(b),
                Err(e) => Err(Error::from(e)),
            },
            (PlatformWindow::Windows(_), None) => unreached(),
        }
    }

    /// Returns the process id of the window's owner.
    ///
    /// `live` is the raw outcome of the native thread/process association
    /// query, present exactly on the handle platform, where the query can
    /// fail if the window no longer exists.  On the snapshot platform the
    /// call always succeeds.  The id is normalized to an unsigned value,
    /// which both platforms' native process ids fit.
    pub fn owner_pid(&self, live: Option<PidQuery>) -> (r: Result<u32, Error>)
        requires
            (self.0 is Windows) <==> (live is Some),
        ensures
            r == self.owner_pid_spec(live),
            r matches Err(e) ==> e.wf(),
    {
        match (&self.0, live) {
            (PlatformWindow::MacOS(m), _) => Ok(m.owner_pid()),
            (PlatformWindow::Windows(w), Some(query)) => match w.owner_pid(query) {
                Ok(p) => Ok(p),
                Err(e) => Err(Error::from(e)),
            },
            (PlatformWindow::Windows(_), None) => unreached(),
        }
    }

    /// Returns the name of the process that owns the window.
    ///
    /// `live` is the raw outcome of the three-step owner-name chain,
    /// present exactly on the handle platform.  There a refused
    /// process-open surfaces as
    /// [`Error::PermissionDenied`](crate::Error::PermissionDenied), and a
    /// success always carries the executable's base name.  On the snapshot
    /// platform the call always succeeds with the captured name, if any.
    pub fn owner_name(&self, live: Option<OwnerQuery>) -> (r: Result<Option<String>, Error>)
        requires
            (self.0 is Windows) <==> (live is Some),
        ensures
            r == self.owner_name_spec(live),
            r matches Err(e) ==> e.wf(),
    {
        match (&self.0, live) {
            (PlatformWindow::MacOS(m), _) => Ok(m.owner_name()),
            (PlatformWindow::Windows(w), Some(query)) => match w.owner_name(query) {
                Ok(n) => Ok(Some(n)),
                Err(e) => Err(Error::from(e)),
            },
            (PlatformWindow::Windows(_), None) => unreached(),
        }
    }
}

/// The permission gate on the handle platform: while the capability is
/// denied, a title query on any window fails with
/// [`Error::PermissionDenied`]; once it is granted — the identical query
/// on the identical window now succeeding — the title is `Ok(Some(..))`
/// or `Ok(None)`, never `PermissionDenied` again.
pub proof fn lemma_title_permission_gate(w: Window, denied: TextQuery, granted: TextQuery)
    requires
        w.0 is Windows,
        denied.length == 0,
        denied.status == crate::platform_impl::windows::E_ACCESSDENIED,
        granted.status == crate::platform_impl::windows::S_OK,
    ensures
        w.title_spec(Some(denied)) == Err::<Option<String>, Error>(
            Error::PermissionDenied(
                crate::platform_impl::PlatformError::Windows(
                    crate::platform_impl::windows::WindowsError::Status(
                        crate::platform_impl::windows::E_ACCESSDENIED,
                    ),
                ),
            ),
        ),
        w.title_spec(Some(granted)) == Ok::<Option<String>, Error>(
            if granted.length == 0 {
                None
            } else {
                Some(granted.text)
            },
        ),
{
}

} // verus!
