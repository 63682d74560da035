//! Screen geometry in whole pixels.

use vstd::prelude::*;

verus! {

/// A point in screen space, in whole pixels from the top-left corner of the window.
#[derive(Clone, Copy, Debug, PartialEq, Eq, Structural)]
pub struct ScreenPt {
    pub x: u32,
    pub y: u32,
}

impl ScreenPt {
    pub fn new(x: u32, y: u32) -> (pt: ScreenPt)
        ensures
            pt.x == x,
            pt.y == y,
    {
        ScreenPt { x, y }
    }
}

/// A width and a height, in whole pixels.
#[derive(Clone, Copy, Debug, PartialEq, Eq, Structural)]
pub struct ScreenDims {
    pub width: u32,
    pub height: u32,
}

impl ScreenDims {
    pub fn new(width: u32, height: u32) -> (dims: ScreenDims)
        ensures
            dims.width == width,
            dims.height == height,
    {
        ScreenDims { width, height }
    }
}

/// An axis-aligned rectangle; its four edges belong to it.
#[derive(Clone, Copy, Debug, PartialEq, Eq, Structural)]
pub struct ScreenRectangle {
    pub x1: u64,
    pub y1: u64,
    pub x2: u64,
    pub y2: u64,
}

impl ScreenRectangle {
    /// Whether `pt` lies inside the rectangle or on one of its edges.
    pub open spec fn spec_contains(self, pt: ScreenPt) -> bool {
        self.x1 <= pt.x <= self.x2 && self.y1 <= pt.y <= self.y2
    }

    /// The rectangle of the given size whose top-left corner is `top_left`.
    pub open spec fn spec_top_left(top_left: ScreenPt, dims: ScreenDims) -> ScreenRectangle {
        ScreenRectangle {
            x1: top_left.x as u64,
            y1: top_left.y as u64,
            x2: (top_left.x + dims.width) as u64,
            y2: (top_left.y + dims.height) as u64,
        }
    }

    #[verifier::when_used_as_spec(spec_top_left)]
    pub fn top_left(top_left: ScreenPt, dims: ScreenDims) -> (rect: ScreenRectangle)
        ensures
            rect == ScreenRectangle::spec_top_left(top_left, dims),
    {
        let x1: u64 = top_left.x as u64;
        let y1: u64 = top_left.y as u64;
        ScreenRectangle { x1, y1, x2: x1 + dims.width as u64, y2: y1 + dims.height as u64 }
    }

    #[verifier::when_used_as_spec(spec_contains)]
    pub fn contains(self, pt: ScreenPt) -> (inside: bool)
        ensures
            inside == self.spec_contains(pt),
    {
        self.x1 <= pt.x as u64 && pt.x as u64 <= self.x2 && self.y1 <= pt.y as u64 && pt.y as u64
            <= self.y2
    }
}

/// Padding between a widget's edges and its contents, in whole pixels.
#[derive(Clone, Copy, Debug, PartialEq, Eq, Structural)]
pub struct EdgeInsets {
    pub top: u32,
    pub left: u32,
    pub bottom: u32,
    pub right: u32,
}

} // verus!
