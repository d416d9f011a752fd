//! Arena bounds and grid cells.

use vstd::prelude::*;

verus! {

/// One cell of the arena, addressed by 0-based integer coordinates.
///
/// Coordinates are signed so that a step off the left or bottom edge is
/// representable (the head then sits at -1 and the wall check reports it).
#[derive(Clone, Copy, PartialEq, Eq, Structural, Debug)]
pub struct GridPosition {
    pub x: i32,
    pub y: i32,
}

/// Static arena bounds: `width` columns and `height` rows.
#[derive(Clone, Copy, PartialEq, Eq, Structural, Debug)]
pub struct Grid {
    pub width: u32,
    pub height: u32,
}

impl Grid {
    /// Bounds a session can run on: both dimensions positive, and small
    /// enough that every in-bounds coordinate fits an `i32`.
    pub open spec fn wf(self) -> bool {
        &&& 1 <= self.width <= i32::MAX
        &&& 1 <= self.height <= i32::MAX
    }

    /// The containment test: `p` names a cell of this arena.
    pub open spec fn spec_contains(self, p: GridPosition) -> bool {
        0 <= p.x < self.width && 0 <= p.y < self.height
    }

    /// Whether `p` lies within the arena bounds.
    pub fn contains(&self, p: GridPosition) -> (r: bool)
        ensures
            r == self.spec_contains(p),
    {
        p.x >= 0 && p.y >= 0 && (p.x as u32) < self.width && (p.y as u32) < self.height
    }
}

} // verus!
