//! Client-area geometry as the host reports it.

use vstd::prelude::*;

verus! {

/// The rectangle the host reports for a window's drawable region.
#[derive(Clone, Copy, Debug, PartialEq, Eq, Structural)]
pub struct ClientRect {
    pub left: i32,
    pub top: i32,
    pub right: i32,
    pub bottom: i32,
}

/// A rectangle given by its top-left corner and its extent.
#[derive(Clone, Copy, Debug, PartialEq, Eq, Structural)]
pub struct Rect {
    pub x: i32,
    pub y: i32,
    pub width: i32,
    pub height: i32,
}

/// Width and height of a window's drawable region, in pixels.
#[derive(Clone, Copy, Debug, PartialEq, Eq, Structural)]
pub struct WindowDimension {
    pub width: i32,
    pub height: i32,
}

/// The nearest `i32` to `v`.
pub open spec fn clamp_i32(v: int) -> int {
    if v < i32::MIN {
        i32::MIN as int
    } else if v > i32::MAX {
        i32::MAX as int
    } else {
        v
    }
}

fn clamped_extent(low: i32, high: i32) -> (extent: i32)
    ensures
        extent == clamp_i32(high - low),
{
    let wide: i64 = high as i64 - low as i64;
    if wide < i32::MIN as i64 {
        i32::MIN
    } else if wide > i32::MAX as i64 {
        i32::MAX
    } else {
        wide as i32
    }
}

/// Extent of `rect` along each axis. A difference that does not fit in an
/// `i32` is clamped to the nearest bound.
pub fn get_window_dimension(rect: ClientRect) -> (dim: WindowDimension)
    ensures
        dim.width == clamp_i32(rect.right - rect.left),
        dim.height == clamp_i32(rect.bottom - rect.top),
{
    WindowDimension {
        width: clamped_extent(rect.left, rect.right),
        height: clamped_extent(rect.top, rect.bottom),
    }
}

} // verus!
