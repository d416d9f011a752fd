//! Wall and self-collision checks against the body after a shift.

use vstd::prelude::*;

use crate::grid::Grid;
use crate::snake::SnakeBody;
use crate::grid::GridPosition;

verus! {

/// The two fatal outcomes of a movement step.
#[derive(Clone, Copy, PartialEq, Eq, Structural, Debug)]
pub enum CollisionKind {
    /// The head left the arena.
    WallCollision,
    /// The head landed on a trailing segment.
    SelfCollision,
}

/// The collision a body reports on `grid`: a wall collision when the head
/// is out of bounds, otherwise a self collision when the head cell equals
/// some strictly trailing segment's cell, otherwise none. The test is meant
/// for the positions after the shift and before growth, so the cell the
/// tail just vacated does not trigger it.
pub open spec fn spec_check(segs: Seq<GridPosition>, grid: Grid) -> Option<CollisionKind>
    recommends
        segs.len() >= 1,
{
    if !grid.spec_contains(segs[0]) {
        Some(CollisionKind::WallCollision)
    } else if exists|i: int| 1 <= i < segs.len() && #[trigger] segs[i] == segs[0] {
        Some(CollisionKind::SelfCollision)
    } else {
        None
    }
}

/// Check `body` against the arena bounds and against itself.
pub fn check(body: &SnakeBody, grid: &Grid) -> (r: Option<CollisionKind>)
    requires
        body.wf(),
    ensures
        r == spec_check(body.segments@, *grid),
{
    let head = body.segments[0];
    if !grid.contains(head) {
        return Some(CollisionKind::WallCollision);
    }
    let n = body.segments.len();
    let mut i: usize = 1;
    while i < n
        invariant
            1 <= i <= n,
            n == body.segments@.len(),
            head == body.segments@[0],
            grid.spec_contains(head),
            forall|j: int| 1 <= j < i ==> body.segments@[j] != head,
        decreases n - i,
    {
        if body.segments[i] == head {
            return Some(CollisionKind::SelfCollision);
        }
        i = i + 1;
    }
    None
}

} // verus!
