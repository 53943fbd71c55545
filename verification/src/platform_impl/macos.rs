//! The snapshot platform's window model.
//!
//! The native facility returns an ordered collection of per-window property
//! dictionaries, captured in one shot.  Each dictionary is decoded once, at
//! wrap time, into a strongly-typed [`WindowInfo`] record of plain values;
//! queries against the record then always succeed or deterministically fail
//! based on what was captured, never racing live window state.

use vstd::prelude::*;

verus! {

use crate::bounds::Bounds;
use crate::bounds::bounds_of_macos_rect;
use crate::error::Error;
use crate::platform_impl::PlatformWindow;
use crate::window::Window;
use crate::window_id::PlatformWindowId;

/// Low-level errors that can occur when interacting with the snapshot
/// platform's native facility.
#[derive(Clone, Copy, Debug, PartialEq, Eq, Structural)]
pub enum MacOSError {
    /// The captured dictionary held no decodable window rectangle.
    InvalidWindowBounds,
}

/// A window rectangle as the snapshot platform's native facility reports
/// it: an origin and an extent, decoded to whole screen units when the
/// record is captured.  The extent is unvalidated here; a negative width or
/// height is rejected when the rectangle is converted to [`Bounds`].
#[derive(Clone, Copy, Debug, PartialEq, Eq, Structural)]
pub struct MacOSRect {
    pub x: i64,
    pub y: i64,
    pub width: i64,
    pub height: i64,
}

/// One window's information, decoded from the native property dictionary
/// at enumeration time.
///
/// The record keeps, as plain values, exactly the properties the library
/// reads: the window number, the optional title and owner name, the owner
/// process id, and the captured rectangle (`None` when the dictionary held
/// no decodable rectangle).  An absent title or owner name is a valid,
/// non-error outcome, distinct from a lookup failure.
#[derive(Debug)]
pub struct WindowInfo {
    pub number: PlatformWindowId,
    pub name: Option<String>,
    pub owner_name: Option<String>,
    pub owner_pid: u32,
    pub bounds: Option<MacOSRect>,
}

/// Clones an optional string, field for field.
fn clone_string_option(s: &Option<String>) -> (r: Option<String>)
    ensures
        r == *s,
{
    match s {
        None => None,
        Some(x) => Some(x.clone()),
    }
}

impl Clone for WindowInfo {
    fn clone(&self) -> (r: Self)
        ensures
            r == *self,
    {
        WindowInfo {
            number: self.number,
            name: clone_string_option(&self.name),
            owner_name: clone_string_option(&self.owner_name),
            owner_pid: self.owner_pid,
            bounds: self.bounds,
        }
    }
}

impl WindowInfo {
    /// Creates a new `WindowInfo` from the values decoded out of a native
    /// window dictionary.
    pub fn new(
        number: PlatformWindowId,
        name: Option<String>,
        owner_name: Option<String>,
        owner_pid: u32,
        bounds: Option<MacOSRect>,
    ) -> (r: Self)
        ensures
            r == (WindowInfo { number, name, owner_name, owner_pid, bounds }),
    {
        WindowInfo { number, name, owner_name, owner_pid, bounds }
    }

    /// Returns the window number.
    pub fn number(&self) -> (r: PlatformWindowId)
        ensures
            r == self.number,
    {
        self.number
    }

    /// Returns the captured window title, if one was present.
    pub fn name(&self) -> (r: Option<String>)
        ensures
            r == self.name,
    {
        clone_string_option(&self.name)
    }

    /// Returns the captured owner-process name, if one was present.
    pub fn owner_name(&self) -> (r: Option<String>)
        ensures
            r == self.owner_name,
    {
        clone_string_option(&self.owner_name)
    }

    /// Returns the captured owner process id.
    pub fn owner_pid(&self) -> (r: u32)
        ensures
            r == self.owner_pid,
    {
        self.owner_pid
    }

    /// Returns the captured window rectangle, if one could be decoded.
    pub fn bounds(&self) -> (r: Option<MacOSRect>)
        ensures
            r == self.bounds,
    {
        self.bounds
    }
}

/// A wrapper around a window's information [`WindowInfo`].
#[derive(Debug)]
pub struct MacOSWindow(pub WindowInfo);

impl Clone for MacOSWindow {
    fn clone(&self) -> (r: Self)
        ensures
            r == *self,
    {
        MacOSWindow(self.0.clone())
    }
}

/// What [`MacOSWindow::bounds`] returns: the captured rectangle converted
/// to [`Bounds`], or [`MacOSError::InvalidWindowBounds`] when no rectangle
/// was decodable or its extent is negative.
pub open spec fn window_bounds_of(info: WindowInfo) -> Result<Bounds, MacOSError> {
    match info.bounds {
        None => Err(MacOSError::InvalidWindowBounds),
        Some(r) => bounds_of_macos_rect(r),
    }
}

impl MacOSWindow {
    /// Creates a new [`MacOSWindow`] from a [`WindowInfo`].
    pub fn new(window_info: WindowInfo) -> (r: Self)
        ensures
            r == (MacOSWindow(window_info)),
    {
        MacOSWindow(window_info)
    }

    /// Returns the underlying [`WindowInfo`] record.
    pub fn window_info(&self) -> (r: &WindowInfo)
        ensures
            *r == self.0,
    {
        &self.0
    }

    /// Returns the window's unique identifier: the window number.
    pub fn id(&self) -> (r: PlatformWindowId)
        ensures
            r == self.0.number,
    {
        self.0.number
    }

    /// Returns the window's title.  `None` means the snapshot held no
    /// title, which also happens when screen-capture access was not
    /// granted; it is never a lookup failure.
    pub fn title(&self) -> (r: Option<String>)
        ensures
            r == self.0.name,
    {
        clone_string_option(&self.0.name)
    }

    /// Returns the bounds of the window as a [`Bounds`].
    pub fn bounds(&self) -> (r: Result<Bounds, MacOSError>)
        ensures
            r == window_bounds_of(self.0),
            r matches Ok(b) ==> b.wf(),
    {
        match self.0.bounds {
            None => Err(MacOSError::InvalidWindowBounds),
            Some(rect) => Bounds::from_macos_rect(&rect),
        }
    }

    /// Returns the process id of the window's owner.  The value is always
    /// present in the snapshot, so this cannot fail.
    pub fn owner_pid(&self) -> (r: u32)
        ensures
            r == self.0.owner_pid,
    {
        self.0.owner_pid
    }

    /// Returns the name of the process that owns the window, if the
    /// snapshot captured one.
    pub fn owner_name(&self) -> (r: Option<String>)
        ensures
            r == self.0.owner_name,
    {
        clone_string_option(&self.0.owner_name)
    }
}

/// The facade window wrapping one captured record.
pub open spec fn mac_window(info: WindowInfo) -> Window {
    Window(PlatformWindow::MacOS(MacOSWindow(info)))
}

/// The facade windows for a whole captured listing, in captured order.
pub open spec fn snapshot_windows(infos: Seq<WindowInfo>) -> Seq<Window> {
    infos.map_values(|info: WindowInfo| mac_window(info))
}

/// The first record at or after position `i` whose window number is `id`.
pub open spec fn find_from(infos: Seq<WindowInfo>, id: PlatformWindowId, i: int) -> Option<
    WindowInfo,
>
    decreases infos.len() - i,
{
    if i >= infos.len() {
        None
    } else if infos[i].number == id {
        Some(infos[i])
    } else {
        find_from(infos, id, i + 1)
    }
}

/// The first captured record carrying the given window number.
pub open spec fn find_window(infos: Seq<WindowInfo>, id: PlatformWindowId) -> Option<WindowInfo> {
    find_from(infos, id, 0)
}

/// Retrieves a window by its unique identifier, from the captured native
/// listing.
///
/// `listing` is what the native facility returned for the lookup: `None`
/// when the facility itself was unavailable, which is
/// [`Error::NoWindowEnvironment`] independent of whether the identifier
/// exists.  Otherwise the first captured record whose window number
/// matches is wrapped, and an absent identifier is a successful `None`.
#[verifier::loop_isolation(false)]
pub fn get_window(id: PlatformWindowId, listing: Option<Vec<WindowInfo>>) -> (r: Result<
    Option<Window>,
    Error,
>)
    ensures
        listing is None ==> r == Err::<Option<Window>, Error>(Error::NoWindowEnvironment),
        listing matches Some(infos) ==> r == Ok::<Option<Window>, Error>(
            match find_window(infos@, id) {
                Some(info) => Some(mac_window(info)),
                None => None::<Window>,
            },
        ),
{
    let infos = match listing {
        None => {
            return Err(Error::NoWindowEnvironment);
        },
        Some(v) => v,
    };
    let mut i: usize = 0;
    while i < infos.len()
        invariant
            i <= infos.len(),
            find_window(infos@, id) == find_from(infos@, id, i as int),
        decreases infos.len() - i,
    {
        if infos[i].number == id {
            let info = infos[i].clone();
            return Ok(Some(Window::new(PlatformWindow::MacOS(MacOSWindow::new(info)))));
        }
        i = i + 1;
    }
    Ok(None)
}

/// Retrieves a list of all open windows, from the captured native
/// listing.
///
/// `listing` is what the native facility returned: `None` when the
/// facility itself was unavailable ([`Error::NoWindowEnvironment`]);
/// otherwise every captured record is wrapped — regardless of property
/// completeness — in captured order, which must not be re-sorted.
#[verifier::loop_isolation(false)]
pub fn get_windows(listing: Option<Vec<WindowInfo>>) -> (r: Result<Vec<Window>, Error>)
    ensures
        listing is None ==> r == Err::<Vec<Window>, Error>(Error::NoWindowEnvironment),
        listing matches Some(infos) ==> r matches Ok(ws) && ws@ == snapshot_windows(infos@),
{
    let infos = match listing {
        None => {
            return Err(Error::NoWindowEnvironment);
        },
        Some(v) => v,
    };
    let mut out: Vec<Window> = Vec::new();
    let mut i: usize = 0;
    while i < infos.len()
        invariant
            i <= infos.len(),
            out@.len() == i as int,
            forall|j: int| 0 <= j < i ==> out@[j] == mac_window(infos@[j]),
        decreases infos.len() - i,
    {
        let info = infos[i].clone();
        out.push(Window::new(PlatformWindow::MacOS(MacOSWindow::new(info))));
        i = i + 1;
    }
    proof {
        assert(out@ =~= snapshot_windows(infos@));
    }
    Ok(out)
}

} // verus!
