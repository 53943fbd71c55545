//! The handle platform's window model.
//!
//! The native facility hands out live opaque window handles.  Every
//! property read is a fresh native query that races the real window's
//! current state, so each accessor here takes the outcome of that query as
//! an explicit argument and performs the platform's interpretation of it:
//! which outcomes mean success with a value, success with no value, or a
//! failure, and with which status.  The embedding program performs the
//! native call itself and passes its raw result in.

use vstd::prelude::*;

verus! {

use crate::bounds::Bounds;
use crate::bounds::bounds_of_windows_rect;
use crate::error::Error;
use crate::error::error_of_windows;
use crate::platform_impl::PlatformWindow;
use crate::window::Window;
use crate::window_id::PlatformWindowId;

/// The native success status.
pub const S_OK: i32 = 0;

/// The native access-control refusal status: HRESULT 0x80070005 read as a
/// signed 32-bit value.
pub const E_ACCESSDENIED: i32 = -2147024891;

/// Low-level errors that can occur when interacting with the handle
/// platform's native facility.
#[derive(Clone, Copy, Debug, PartialEq, Eq, Structural)]
pub enum WindowsError {
    /// A native call failed with this status code.
    Status(i32),
    /// A native rectangle query succeeded but reported a degenerate
    /// corner pair (right before left, or bottom before top).
    InvalidWindowBounds,
}

/// A window rectangle as the handle platform's native facility reports
/// it: a corner pair, not an origin and extent.  Width and height must be
/// computed as `right - left` and `bottom - top`.
#[derive(Clone, Copy, Debug, PartialEq, Eq, Structural)]
pub struct WindowsRect {
    pub left: i32,
    pub top: i32,
    pub right: i32,
    pub bottom: i32,
}

/// The handle platform's native rectangle type.
pub type WindowsBounds = WindowsRect;

/// The handle platform's native window identifier: the pointer-sized
/// handle, kept as its 64-bit pattern.  The null handle is `0`.
pub type WindowsWindowId = u64;

/// The outcome of a native text query (window title or module base name):
/// the number of units copied into the caller's buffer, the decoded text,
/// and the thread's status code at that point.
#[derive(Debug)]
pub struct TextQuery {
    pub length: u32,
    pub text: String,
    pub status: i32,
}

impl Clone for TextQuery {
    fn clone(&self) -> (r: Self)
        ensures
            r == *self,
    {
        TextQuery { length: self.length, text: self.text.clone(), status: self.status }
    }
}

/// The outcome of a native rectangle query: the call's status and, on
/// success, the rectangle it wrote.
#[derive(Clone, Copy, Debug, PartialEq, Eq, Structural)]
pub struct RectQuery {
    pub status: i32,
    pub rect: WindowsRect,
}

/// The outcome of the native thread/process association query: the thread
/// id it returned (`0` means the window no longer exists), the process id
/// it wrote, and the thread's status code at that point.
#[derive(Clone, Copy, Debug, PartialEq, Eq, Structural)]
pub struct PidQuery {
    pub thread: u32,
    pub pid: u32,
    pub status: i32,
}

/// The outcome of opening a limited-access handle to a process: the
/// call's status and, on success, the process handle's 64-bit pattern.
#[derive(Clone, Copy, Debug, PartialEq, Eq, Structural)]
pub struct OpenQuery {
    pub status: i32,
    pub handle: u64,
}

/// The outcomes of the three-step owner-name chain: resolve the owner
/// process id, open a limited-access handle to it, read its executable
/// base name.
#[derive(Debug)]
pub struct OwnerQuery {
    pub pid: PidQuery,
    pub process: OpenQuery,
    pub name: TextQuery,
}

impl Clone for OwnerQuery {
    fn clone(&self) -> (r: Self)
        ensures
            r == *self,
    {
        OwnerQuery { pid: self.pid, process: self.process, name: self.name.clone() }
    }
}

/// The normalized 32-bit projection of a native handle: its low 32 bits,
/// the only ones the native handle width actually uses.
pub open spec fn id_of_hwnd(hwnd: WindowsWindowId) -> PlatformWindowId {
    (hwnd % 0x1_0000_0000) as u32
}

/// Computes [`id_of_hwnd`].
pub fn hwnd_low_bits(hwnd: WindowsWindowId) -> (r: PlatformWindowId)
    ensures
        r == id_of_hwnd(hwnd),
{
    (hwnd % 0x1_0000_0000u64) as u32
}

/// What a window-text query outcome means: zero units copied with a
/// success status is a window with no title; zero units with any other
/// status is that failure; otherwise the text was read.
pub open spec fn title_of(query: TextQuery) -> Result<Option<String>, WindowsError> {
    if query.length == 0 {
        if query.status == S_OK {
            Ok(None)
        } else {
            Err(WindowsError::Status(query.status))
        }
    } else {
        Ok(Some(query.text))
    }
}

/// What a rectangle query outcome means: the rectangle on success, the
/// status as a failure otherwise.
pub open spec fn rect_of(query: RectQuery) -> Result<WindowsRect, WindowsError> {
    if query.status == S_OK {
        Ok(query.rect)
    } else {
        Err(WindowsError::Status(query.status))
    }
}

/// What a rectangle query yields once converted to [`Bounds`]: the query's
/// failure, the degenerate-rectangle failure, or the bounds.
pub open spec fn query_bounds_of(query: RectQuery) -> Result<Bounds, WindowsError> {
    match rect_of(query) {
        Ok(r) => bounds_of_windows_rect(r),
        Err(e) => Err(e),
    }
}

/// What a thread/process association outcome means: a zero thread id is a
/// failure with the reported status (the window is gone), otherwise the
/// process id exactly as the native facility reported it.
pub open spec fn pid_of(query: PidQuery) -> Result<u32, WindowsError> {
    if query.thread == 0 {
        Err(WindowsError::Status(query.status))
    } else {
        Ok(query.pid)
    }
}

/// What the process-open step yields, after a successful pid step.
pub open spec fn process_handle_of(pid_query: PidQuery, open_query: OpenQuery) -> Result<
    u64,
    WindowsError,
> {
    match pid_of(pid_query) {
        Err(e) => Err(e),
        Ok(_) => if open_query.status == S_OK {
            Ok(open_query.handle)
        } else {
            Err(WindowsError::Status(open_query.status))
        },
    }
}

/// What a module-base-name query outcome means: zero units copied is a
/// failure with the reported status; otherwise the name was read.  Unlike
/// a window title, a successful read always yields a name.
pub open spec fn module_name_of(query: TextQuery) -> Result<String, WindowsError> {
    if query.length == 0 {
        Err(WindowsError::Status(query.status))
    } else {
        Ok(query.text)
    }
}

/// What the three-step owner-name chain yields: the first failure among
/// the pid, open and read steps, or the executable base name.
pub open spec fn owner_name_of(query: OwnerQuery) -> Result<String, WindowsError> {
    match process_handle_of(query.pid, query.process) {
        Err(e) => Err(e),
        Ok(_) => module_name_of(query.name),
    }
}

/// Represents a window on the handle platform: a live opaque handle with
/// no cached state.
#[derive(Clone, Copy, Debug, PartialEq, Eq, Structural)]
pub struct WindowsWindow(pub WindowsWindowId);

impl WindowsWindow {
    /// Creates a new `WindowsWindow` from a raw native handle.
    ///
    /// Nothing validates here that the handle denotes a live window; an
    /// invalid handle surfaces later, as failed queries.
    pub fn new(hwnd: WindowsWindowId) -> (r: Self)
        ensures
            r == (WindowsWindow(hwnd)),
    {
        WindowsWindow(hwnd)
    }

    /// Returns the raw handle to the window.
    pub fn hwnd(&self) -> (r: WindowsWindowId)
        ensures
            r == self.0,
    {
        self.0
    }

    /// Interprets the outcome of the native window-text query for this
    /// window.  Success with zero length means the window has no title;
    /// a non-success status on zero length is the failure to propagate,
    /// commonly the access-control refusal.
    pub fn title(&self, query: TextQuery) -> (r: Result<Option<String>, WindowsError>)
        ensures
            r == title_of(query),
    {
        if query.length == 0 {
            if query.status == S_OK {
                Ok(None)
            } else {
                Err(WindowsError::Status(query.status))
            }
        } else {
            Ok(Some(query.text))
        }
    }

    /// Interprets the outcome of the raw window-rectangle query.  The raw
    /// rectangle includes the invisible resize borders, so it may not be
    /// the rectangle that is actually seen.
    pub fn rect(&self, query: RectQuery) -> (r: Result<WindowsRect, WindowsError>)
        ensures
            r == rect_of(query),
    {
        if query.status == S_OK {
            Ok(query.rect)
        } else {
            Err(WindowsError::Status(query.status))
        }
    }

    /// The [`rect`](Self::rect) outcome converted to [`Bounds`].
    pub fn bounds(&self, query: RectQuery) -> (r: Result<Bounds, WindowsError>)
        ensures
            r == query_bounds_of(query),
            r matches Ok(b) ==> b.wf(),
    {
        match self.rect(query) {
            Ok(rect) => Bounds::from_windows_rect(&rect),
            Err(e) => Err(e),
        }
    }

    /// Interprets the outcome of the extended-frame-bounds query: the
    /// compositor-aware rectangle of the window's visible extent, without
    /// the invisible resize-border padding of the raw rectangle.
    pub fn extended_frame_bounds(&self, query: RectQuery) -> (r: Result<WindowsRect, WindowsError>)
        ensures
            r == rect_of(query),
    {
        if query.status == S_OK {
            Ok(query.rect)
        } else {
            Err(WindowsError::Status(query.status))
        }
    }

    /// The [`extended_frame_bounds`](Self::extended_frame_bounds) outcome
    /// converted to [`Bounds`]: the canonical bounds of a window on this
    /// platform.
    pub fn visible_bounds(&self, query: RectQuery) -> (r: Result<Bounds, WindowsError>)
        ensures
            r == query_bounds_of(query),
            r matches Ok(b) ==> b.wf(),
    {
        match self.extended_frame_bounds(query) {
            Ok(rect) => Bounds::from_windows_rect(&rect),
            Err(e) => Err(e),
        }
    }

    /// Interprets the outcome of the native thread/process association
    /// query.  A zero thread id means the window no longer exists: that is
    /// surfaced as the reported failure, never as a fabricated process id.
    pub fn owner_pid(&self, query: PidQuery) -> (r: Result<u32, WindowsError>)
        ensures
            r == pid_of(query),
    {
        if query.thread == 0 {
            Err(WindowsError::Status(query.status))
        } else {
            Ok(query.pid)
        }
    }

    /// Interprets the pid and process-open outcomes: the handle to the
    /// process that owns this window, or the first failure of the chain.
    pub fn owner_process_handle(&self, pid_query: PidQuery, open_query: OpenQuery) -> (r: Result<
        u64,
        WindowsError,
    >)
        ensures
            r == process_handle_of(pid_query, open_query),
    {
        match self.owner_pid(pid_query) {
            Err(e) => Err(e),
            Ok(_) => if open_query.status == S_OK {
                Ok(open_query.handle)
            } else {
                Err(WindowsError::Status(open_query.status))
            },
        }
    }

    /// Interprets the three-step owner-name chain: resolve the owner
    /// process id, open a limited-access handle, read the executable base
    /// name.  Any step may fail — most notably with the access-control
    /// refusal on the open step — and success always yields a name.
    pub fn owner_name(&self, query: OwnerQuery) -> (r: Result<String, WindowsError>)
        ensures
            r == owner_name_of(query),
    {
        match self.owner_process_handle(query.pid, query.process) {
            Err(e) => Err(e),
            Ok(_) => {
                if query.name.length == 0 {
                    Err(WindowsError::Status(query.name.status))
                } else {
                    Ok(query.name.text)
                }
            },
        }
    }

    /// Checks whether this window is the foreground window, given the
    /// handle the native facility currently reports as foreground.
    pub fn is_foreground(&self, foreground: WindowsWindowId) -> (r: bool)
        ensures
            r == (self.0 == foreground),
    {
        self.0 == foreground
    }
}

/// The facade window wrapping one native handle.
pub open spec fn handle_window(hwnd: WindowsWindowId) -> Window {
    Window(PlatformWindow::Windows(WindowsWindow(hwnd)))
}

/// The facade windows for a collected enumeration, in enumeration order.
pub open spec fn handle_windows(handles: Seq<WindowsWindowId>) -> Seq<Window> {
    handles.map_values(|h: WindowsWindowId| handle_window(h))
}

/// Retrieves a window by its native handle, given the native liveness
/// check's answer for that handle.
///
/// A null handle, or one that no longer denotes a live top-level window,
/// yields `None`; this path cannot fail.
pub fn get_window(hwnd: WindowsWindowId, alive: bool) -> (r: Option<Window>)
    ensures
        r == (if hwnd != 0 && alive {
            Some(handle_window(hwnd))
        } else {
            None::<Window>
        }),
{
    if hwnd != 0 && alive {
        Some(Window::new(PlatformWindow::Windows(WindowsWindow::new(hwnd))))
    } else {
        None
    }
}

/// Retrieves a list of all windows, from the native enumeration's
/// outcome: either the handles the callback collected, in enumeration
/// order (which must not be re-sorted), or the status the surrounding
/// native call failed with, normalized into [`Error`].
#[verifier::loop_isolation(false)]
pub fn get_windows(enumeration: Result<Vec<WindowsWindowId>, i32>) -> (r: Result<
    Vec<Window>,
    Error,
>)
    ensures
        enumeration matches Ok(handles) ==> r matches Ok(ws) && ws@ == handle_windows(handles@),
        enumeration matches Err(code) ==> r == Err::<Vec<Window>, Error>(
            error_of_windows(WindowsError::Status(code)),
        ),
{
    let handles = match enumeration {
        Err(code) => {
            return Err(Error::from(WindowsError::Status(code)));
        },
        Ok(v) => v,
    };
    let mut out: Vec<Window> = Vec::new();
    let mut i: usize = 0;
    while i < handles.len()
        invariant
            i <= handles.len(),
            out@.len() == i as int,
            forall|j: int| 0 <= j < i ==> out@[j] == handle_window(handles@[j]),
        decreases handles.len() - i,
    {
        out.push(Window::new(PlatformWindow::Windows(WindowsWindow::new(handles[i]))));
        i = i + 1;
    }
    proof {
        assert(out@ =~= handle_windows(handles@));
    }
    Ok(out)
}

/// An owner process id is never fabricated: success of the association
/// query yields exactly the natively reported id, and a window gone stale
/// mid-enumeration (zero thread id) surfaces as the reported failure
/// instead of a made-up value.
pub proof fn lemma_owner_pid_not_fabricated(query: PidQuery)
    ensures
        pid_of(query) matches Ok(p) ==> p == query.pid && query.thread != 0,
        query.thread == 0 ==> pid_of(query) is Err,
{
}

/// A handle-based window's identifier keeps exactly the low 32 bits of
/// the native handle: the round trip through `u32` preserves the bits the
/// native handle width actually uses.
pub proof fn lemma_handle_id_low_bits(hwnd: WindowsWindowId)
    ensures
        id_of_hwnd(hwnd) == hwnd % 0x1_0000_0000,
{
}

} // verus!
