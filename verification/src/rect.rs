//! Screen geometry: rectangles and points, with the coordinate bound that
//! every stored rectangle obeys so that layout arithmetic cannot overflow.

use vstd::prelude::*;

verus! {

/// Largest magnitude a stored coordinate may have. Small enough that sums
/// of a handful of coordinates and paddings stay well inside `i32`.
pub const COORD_LIMIT: i32 = 16_000_000;

/// Largest padding value a workspace may carry.
pub const PADDING_LIMIT: i32 = 65_536;

/// An axis-aligned rectangle in screen coordinates. `right` and `bottom`
/// are coordinates (not extents).
#[derive(Clone, Copy, Debug, PartialEq, Eq, Structural)]
pub struct Rect {
    pub left: i32,
    pub top: i32,
    pub right: i32,
    pub bottom: i32,
}

/// A cursor position in screen coordinates.
#[derive(Clone, Copy, Debug, PartialEq, Eq, Structural)]
pub struct Point {
    pub x: i32,
    pub y: i32,
}

impl Rect {
    /// Every coordinate within the bound that keeps layout sums inside `i32`.
    pub open spec fn bounded(self) -> bool {
        &&& -COORD_LIMIT <= self.left <= COORD_LIMIT
        &&& -COORD_LIMIT <= self.top <= COORD_LIMIT
        &&& -COORD_LIMIT <= self.right <= COORD_LIMIT
        &&& -COORD_LIMIT <= self.bottom <= COORD_LIMIT
    }

    pub open spec fn spec_contains(self, p: Point) -> bool {
        &&& self.left <= p.x < self.right
        &&& self.top <= p.y < self.bottom
    }

    /// Whether the point lies inside the rectangle (right and bottom edges
    /// excluded).
    pub fn contains(&self, p: Point) -> (r: bool)
        ensures
            r == self.spec_contains(p),
    {
        self.left <= p.x && p.x < self.right && self.top <= p.y && p.y < self.bottom
    }

    /// Checks the coordinate bound on a rectangle coming from outside the
    /// engine (a command argument, a loaded file).
    pub fn check_bounded(&self) -> (r: bool)
        ensures
            r == self.bounded(),
    {
        -COORD_LIMIT <= self.left && self.left <= COORD_LIMIT && -COORD_LIMIT <= self.top
            && self.top <= COORD_LIMIT && -COORD_LIMIT <= self.right && self.right <= COORD_LIMIT
            && -COORD_LIMIT <= self.bottom && self.bottom <= COORD_LIMIT
    }
}

/// An optional resize delta within the coordinate bound.
pub open spec fn delta_bounded(d: Option<Rect>) -> bool {
    match d {
        Some(r) => r.bounded(),
        None => true,
    }
}

} // verus!
