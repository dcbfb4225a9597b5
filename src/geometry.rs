use vstd::prelude::*;

verus! {

/// The largest value of an `i32`, as a `u32`.
pub const I32_MAX_AS_U32: u32 = 0x7fff_ffff;

/// A rectangle in the parent window's client coordinates.
#[derive(Clone, Copy, Debug, PartialEq, Eq, Structural)]
pub struct Rect {
    pub x: i32,
    pub y: i32,
    pub width: i32,
    pub height: i32,
}

/// A request to the platform's window-positioning call: move `hwnd` to
/// `rect`, and show it if `show` holds.
#[derive(Clone, Copy, Debug, PartialEq, Eq, Structural)]
pub struct Placement {
    pub hwnd: isize,
    pub rect: Rect,
    pub show: bool,
}

/// The rectangle anchored at the parent's origin with the given extent.
pub open spec fn origin_rect(width: i32, height: i32) -> Rect {
    Rect { x: 0, y: 0, width, height }
}

/// The request that shows `hwnd` over `(0, 0)`-`(width, height)`.
pub open spec fn placement_of(hwnd: isize, width: i32, height: i32) -> Placement {
    Placement { hwnd, rect: origin_rect(width, height), show: true }
}

/// A pixel count read as a signed coordinate, as a two's-complement
/// reinterpretation of its 32 bits does.
pub open spec fn extent_of(v: u32) -> i32 {
    if v <= I32_MAX_AS_U32 {
        v as i32
    } else {
        (v as int - 0x1_0000_0000) as i32
    }
}

/// Reads a pixel count of the windowing toolkit as a coordinate of the
/// positioning call: counts above `i32::MAX` wrap to negative values.
pub fn extent(v: u32) -> (r: i32)
    ensures
        r == extent_of(v),
        v <= I32_MAX_AS_U32 ==> r as int == v as int,
        v > I32_MAX_AS_U32 ==> r as int == v as int - 0x1_0000_0000,
{
    if v <= I32_MAX_AS_U32 {
        v as i32
    } else {
        let low: i32 = (v - 0x8000_0000u32) as i32;
        low + i32::MIN
    }
}

/// Builds the request that shows `hwnd` over `(0, 0)`-`(width, height)`.
pub fn placement(hwnd: isize, width: i32, height: i32) -> (r: Placement)
    ensures
        r == placement_of(hwnd, width, height),
{
    Placement { hwnd, rect: Rect { x: 0, y: 0, width, height }, show: true }
}

} // verus!
