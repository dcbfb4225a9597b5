use vstd::prelude::*;
use crate::geometry::{extent, extent_of, origin_rect, placement, placement_of, Placement, Rect};

verus! {

/// What a bridge is, abstractly: the hosted window it positions and the
/// extent of the region it last gave that window.
pub struct IslandView {
    pub hwnd: isize,
    pub width: i32,
    pub height: i32,
}

impl IslandView {
    /// The hosted region: always anchored at the parent's origin.
    pub open spec fn region(self) -> Rect {
        origin_rect(self.width, self.height)
    }

    /// The request that puts the hosted window over its region.
    pub open spec fn placement(self) -> Placement {
        placement_of(self.hwnd, self.width, self.height)
    }
}

/// A bridge that hosts a UI tree in a child window of a native window.
///
/// A value exists only once the hosting object is attached: `attached` is
/// the one way to build it, from the child window that attachment produced.
pub struct XamlIsland {
    hwnd: isize,
    width: i32,
    height: i32,
}

impl View for XamlIsland {
    type V = IslandView;

    closed spec fn view(&self) -> IslandView {
        IslandView { hwnd: self.hwnd, width: self.width, height: self.height }
    }
}

impl XamlIsland {
    /// The bridge over the hosted child window `hwnd` of a parent window
    /// whose client area is `width` by `height` pixels. The hosted region
    /// starts out covering the whole client area; the caller hands
    /// `placement()` to the positioning call.
    pub fn attached(hwnd: isize, width: u32, height: u32) -> (r: XamlIsland)
        ensures
            r@.hwnd == hwnd,
            r@.width == extent_of(width),
            r@.height == extent_of(height),
    {
        XamlIsland { hwnd, width: extent(width), height: extent(height) }
    }

    /// Gives the hosted region the extent `(width, height)` and returns the
    /// request that moves the hosted window there and shows it. Only the
    /// hosted window is named: the parent's own bounds are left alone.
    pub fn resize(&mut self, width: i32, height: i32) -> (r: Placement)
        ensures
            final(self)@ == (IslandView { hwnd: old(self)@.hwnd, width, height }),
            r == placement_of(old(self)@.hwnd, width, height),
            r.hwnd == old(self)@.hwnd,
            r.rect == origin_rect(width, height),
            r.show,
    {
        self.width = width;
        self.height = height;
        placement(self.hwnd, width, height)
    }

    /// The request that puts the hosted window over the current region.
    pub fn placement(&self) -> (r: Placement)
        ensures
            r == self@.placement(),
    {
        placement(self.hwnd, self.width, self.height)
    }

    /// The hosted region.
    pub fn region(&self) -> (r: Rect)
        ensures
            r == self@.region(),
    {
        Rect { x: 0, y: 0, width: self.width, height: self.height }
    }

    /// The hosted child window.
    pub fn hwnd(&self) -> (r: isize)
        ensures
            r == self@.hwnd,
    {
        self.hwnd
    }
}

} // verus!
