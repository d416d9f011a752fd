//! The snake: an ordered sequence of grid cells (head first) and the
//! current heading.

use vstd::prelude::*;

use crate::direction::Direction;
use crate::direction::DirectionInput;
use crate::direction::spec_heading_after;
use crate::grid::GridPosition;

verus! {

/// The cell one step away from `p` in direction `d`. The casts only matter
/// at the very edge of the `i32` range, which the sessions' bounds rule out.
pub open spec fn spec_moved(p: GridPosition, d: Direction) -> GridPosition {
    GridPosition { x: (p.x + d.dx()) as i32, y: (p.y + d.dy()) as i32 }
}

/// The body after one movement step with heading `d`: the head advances one
/// cell and every trailing segment moves into the cell its predecessor held.
pub open spec fn stepped_segments(segs: Seq<GridPosition>, d: Direction) -> Seq<GridPosition>
    recommends
        segs.len() >= 1,
{
    seq![spec_moved(segs[0], d)] + segs.drop_last()
}

/// The snake's body and heading. Segment 0 is the head.
#[derive(Clone, Debug)]
pub struct SnakeBody {
    pub segments: Vec<GridPosition>,
    pub heading: Direction,
}

impl SnakeBody {
    /// A body is well formed when it has at least a head.
    pub open spec fn wf(self) -> bool {
        self.segments@.len() >= 1
    }

    /// The head cell.
    pub open spec fn spec_head(self) -> GridPosition {
        self.segments@[0]
    }

    /// The initial two-segment snake: head at (3, 3), one trailing segment
    /// at (3, 2), heading up.
    pub fn spawned() -> (r: SnakeBody)
        ensures
            r.segments@ == initial_segments(),
            r.heading == Direction::Up,
    {
        let mut segments: Vec<GridPosition> = Vec::new();
        segments.push(GridPosition { x: 3, y: 3 });
        segments.push(GridPosition { x: 3, y: 2 });
        proof {
            assert(segments@ =~= initial_segments());
        }
        SnakeBody { segments, heading: Direction::Up }
    }

    /// Request a heading change; an instant 180-degree reversal is silently
    /// ignored, anything else is accepted.
    pub fn set_heading(&mut self, requested: Direction)
        ensures
            final(self).segments == old(self).segments,
            final(self).heading == spec_heading_after(old(self).heading, requested),
    {
        if !(requested == self.heading.opposite()) {
            self.heading = requested;
        }
    }

    /// Apply one frame's directional keys: resolve them with the fixed
    /// priority, then request the resolved heading.
    pub fn apply_input(&mut self, input: DirectionInput)
        ensures
            final(self).segments == old(self).segments,
            final(self).heading == spec_heading_after(
                old(self).heading,
                input.spec_requested(old(self).heading),
            ),
    {
        let requested = input.requested(self.heading);
        self.set_heading(requested);
    }

    /// One movement step: the head advances one cell in the current heading
    /// and each trailing segment shifts into its predecessor's old cell.
    /// Returns the cell the last segment held before the shift, the spot a
    /// growth queued this tick must fill.
    pub fn step(&mut self) -> (prev_tail: GridPosition)
        requires
            old(self).wf(),
            i32::MIN < old(self).spec_head().x < i32::MAX,
            i32::MIN < old(self).spec_head().y < i32::MAX,
        ensures
            final(self).heading == old(self).heading,
            final(self).segments@ == stepped_segments(old(self).segments@, old(self).heading),
            prev_tail == old(self).segments@.last(),
    {
        let head = self.segments[0];
        let new_head = match self.heading {
            Direction::Left => GridPosition { x: head.x - 1, y: head.y },
            Direction::Right => GridPosition { x: head.x + 1, y: head.y },
            Direction::Up => GridPosition { x: head.x, y: head.y + 1 },
            Direction::Down => GridPosition { x: head.x, y: head.y - 1 },
        };
        let n = self.segments.len();
        let prev_tail = self.segments[n - 1];
        let mut shifted: Vec<GridPosition> = Vec::new();
        shifted.push(new_head);
        let mut i: usize = 0;
        while i + 1 < n
            invariant
                n == self.segments@.len(),
                i + 1 <= n,
                new_head == spec_moved(self.segments@[0], self.heading),
                shifted@ == seq![new_head] + self.segments@.take(i as int),
            decreases n - i,
        {
            shifted.push(self.segments[i]);
            proof {
                assert(shifted@ =~= seq![new_head] + self.segments@.take(i + 1));
            }
            i = i + 1;
        }
        proof {
            assert(self.segments@.take(n - 1) =~= self.segments@.drop_last());
        }
        self.segments = shifted;
        prev_tail
    }

    /// Append a new segment at `at`, the growth applied after an eating
    /// event; `at` is meant to be the tail cell recorded before this tick's
    /// shift.
    pub fn grow(&mut self, at: GridPosition)
        ensures
            final(self).heading == old(self).heading,
            final(self).segments@ == old(self).segments@.push(at),
    {
        self.segments.push(at);
    }
}

/// The segment cells of a freshly spawned snake.
pub open spec fn initial_segments() -> Seq<GridPosition> {
    seq![GridPosition { x: 3, y: 3 }, GridPosition { x: 3, y: 2 }]
}

} // verus!
