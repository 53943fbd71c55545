//! The shared rectangle type.

use vstd::prelude::*;

verus! {

use crate::platform_impl::macos::MacOSError;
use crate::platform_impl::macos::MacOSRect;
use crate::platform_impl::windows::WindowsError;
use crate::platform_impl::windows::WindowsRect;

/// Represents the bounds of a window, in whole screen units.
///
/// It can be converted from and to each platform's native rectangle
/// representation.  The origin convention follows the native platform's
/// coordinate system; callers must not assume a top-left origin uniformly.
/// A well-formed value never has a negative width or height: a degenerate
/// native rectangle is rejected during conversion instead.
#[derive(Clone, Copy, Debug, PartialEq, Eq, Structural)]
pub struct Bounds {
    pub x: i64,
    pub y: i64,
    pub width: i64,
    pub height: i64,
}

/// What converting the handle platform's corner-pair rectangle yields:
/// width and height are computed as `right - left` and `bottom - top`
/// (the native type never stores them directly), and a degenerate corner
/// pair is a defect to surface, never a negative extent.
pub open spec fn bounds_of_windows_rect(r: WindowsRect) -> Result<Bounds, WindowsError> {
    if r.left <= r.right && r.top <= r.bottom {
        Ok(
            Bounds {
                x: r.left as i64,
                y: r.top as i64,
                width: (r.right - r.left) as i64,
                height: (r.bottom - r.top) as i64,
            },
        )
    } else {
        Err(WindowsError::InvalidWindowBounds)
    }
}

/// What converting the snapshot platform's origin-extent rectangle
/// yields: the fields unchanged, with a negative extent surfaced as the
/// platform's invalid-bounds failure, never as negative dimensions.
pub open spec fn bounds_of_macos_rect(r: MacOSRect) -> Result<Bounds, MacOSError> {
    if r.width >= 0 && r.height >= 0 {
        Ok(Bounds { x: r.x, y: r.y, width: r.width, height: r.height })
    } else {
        Err(MacOSError::InvalidWindowBounds)
    }
}

impl Bounds {
    /// A well-formed rectangle has a non-negative extent.
    pub open spec fn wf(&self) -> bool {
        self.width >= 0 && self.height >= 0
    }

    /// Returns the horizontal position of the window's origin.
    pub fn x(&self) -> (r: i64)
        ensures
            r == self.x,
    {
        self.x
    }

    /// Returns the vertical position of the window's origin.
    pub fn y(&self) -> (r: i64)
        ensures
            r == self.y,
    {
        self.y
    }

    /// Returns the width of the window.
    pub fn width(&self) -> (r: i64)
        ensures
            r == self.width,
    {
        self.width
    }

    /// Returns the height of the window.
    pub fn height(&self) -> (r: i64)
        ensures
            r == self.height,
    {
        self.height
    }

    /// Converts the snapshot platform's native rectangle, rejecting a
    /// negative extent.
    pub fn from_macos_rect(r: &MacOSRect) -> (b: Result<Bounds, MacOSError>)
        ensures
            b == bounds_of_macos_rect(*r),
            b matches Ok(v) ==> v.wf(),
    {
        if r.width >= 0 && r.height >= 0 {
            Ok(Bounds { x: r.x, y: r.y, width: r.width, height: r.height })
        } else {
            Err(MacOSError::InvalidWindowBounds)
        }
    }

    /// Converts back to the snapshot platform's native rectangle shape.
    pub fn to_macos_rect(&self) -> (r: MacOSRect)
        ensures
            r == (MacOSRect { x: self.x, y: self.y, width: self.width, height: self.height }),
    {
        MacOSRect { x: self.x, y: self.y, width: self.width, height: self.height }
    }

    /// Converts the handle platform's corner-pair rectangle, rejecting a
    /// degenerate corner pair.
    pub fn from_windows_rect(r: &WindowsRect) -> (b: Result<Bounds, WindowsError>)
        ensures
            b == bounds_of_windows_rect(*r),
            b matches Ok(v) ==> v.wf(),
    {
        if r.left <= r.right && r.top <= r.bottom {
            let width: i64 = (r.right as i64) - (r.left as i64);
            let height: i64 = (r.bottom as i64) - (r.top as i64);
            Ok(Bounds { x: r.left as i64, y: r.top as i64, width, height })
        } else {
            Err(WindowsError::InvalidWindowBounds)
        }
    }

    /// Converts back to the handle platform's corner-pair rectangle.  The
    /// corners must fit the native 32-bit coordinate range.
    pub fn to_windows_rect(&self) -> (r: WindowsRect)
        requires
            self.wf(),
            -0x8000_0000 <= self.x,
            -0x8000_0000 <= self.y,
            self.x + self.width <= 0x7fff_ffff,
            self.y + self.height <= 0x7fff_ffff,
        ensures
            r == (WindowsRect {
                left: self.x as i32,
                top: self.y as i32,
                right: (self.x + self.width) as i32,
                bottom: (self.y + self.height) as i32,
            }),
    {
        WindowsRect {
            left: self.x as i32,
            top: self.y as i32,
            right: (self.x + self.width) as i32,
            bottom: (self.y + self.height) as i32,
        }
    }
}

impl Default for Bounds {
    /// The degenerate rectangle at the origin.
    fn default() -> (r: Self)
        ensures
            r == (Bounds { x: 0, y: 0, width: 0, height: 0 }),
    {
        Bounds { x: 0, y: 0, width: 0, height: 0 }
    }
}

/// A converted rectangle never carries a negative extent: a malformed
/// native rectangle surfaces as the platform's failure instead.
pub proof fn lemma_bounds_never_negative(wr: WindowsRect, mr: MacOSRect)
    ensures
        bounds_of_windows_rect(wr) matches Ok(b) ==> b.wf(),
        bounds_of_macos_rect(mr) matches Ok(b) ==> b.wf(),
        (wr.right < wr.left || wr.bottom < wr.top) ==> bounds_of_windows_rect(wr) is Err,
        (mr.width < 0 || mr.height < 0) ==> bounds_of_macos_rect(mr) is Err,
{
}

} // verus!
