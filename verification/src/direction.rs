//! Headings and per-frame directional input.

use vstd::prelude::*;

verus! {

/// The four headings the snake can move in.
#[derive(Clone, Copy, PartialEq, Eq, Structural, Debug)]
pub enum Direction {
    Left,
    Up,
    Right,
    Down,
}

impl Direction {
    /// The 180-degree reversal of a heading.
    pub open spec fn spec_opposite(self) -> Direction {
        match self {
            Direction::Left => Direction::Right,
            Direction::Right => Direction::Left,
            Direction::Up => Direction::Down,
            Direction::Down => Direction::Up,
        }
    }

    /// Horizontal displacement of one step in this direction.
    pub open spec fn dx(self) -> int {
        match self {
            Direction::Left => -1,
            Direction::Right => 1,
            Direction::Up => 0,
            Direction::Down => 0,
        }
    }

    /// Vertical displacement of one step in this direction.
    pub open spec fn dy(self) -> int {
        match self {
            Direction::Left => 0,
            Direction::Right => 0,
            Direction::Up => 1,
            Direction::Down => -1,
        }
    }

    /// The 180-degree reversal of a heading.
    #[verifier::when_used_as_spec(spec_opposite)]
    pub fn opposite(self) -> (r: Direction)
        ensures
            r == self.spec_opposite(),
    {
        match self {
            Direction::Left => Direction::Right,
            Direction::Right => Direction::Left,
            Direction::Up => Direction::Down,
            Direction::Down => Direction::Up,
        }
    }
}

/// The set of directional keys asserted during one frame, sampled once per
/// frame by the surrounding program.
#[derive(Clone, Copy, PartialEq, Eq, Structural, Debug)]
pub struct DirectionInput {
    pub left: bool,
    pub down: bool,
    pub right: bool,
    pub up: bool,
}

impl DirectionInput {
    /// The direction this frame's keys request. When several keys are
    /// asserted at once the tie-break is the fixed priority
    /// Left > Down > Right > Up; with no key asserted the current heading
    /// is kept.
    pub open spec fn spec_requested(self, current: Direction) -> Direction {
        if self.left {
            Direction::Left
        } else if self.down {
            Direction::Down
        } else if self.right {
            Direction::Right
        } else if self.up {
            Direction::Up
        } else {
            current
        }
    }

    /// Resolve this frame's keys to a requested direction.
    #[verifier::when_used_as_spec(spec_requested)]
    pub fn requested(self, current: Direction) -> (r: Direction)
        ensures
            r == self.spec_requested(current),
    {
        if self.left {
            Direction::Left
        } else if self.down {
            Direction::Down
        } else if self.right {
            Direction::Right
        } else if self.up {
            Direction::Up
        } else {
            current
        }
    }

    /// A frame in which no directional key is asserted.
    pub fn released() -> (r: DirectionInput)
        ensures
            r == (DirectionInput { left: false, down: false, right: false, up: false }),
    {
        DirectionInput { left: false, down: false, right: false, up: false }
    }
}

/// The heading after a request is applied: an instant 180-degree reversal is
/// rejected (the heading is kept), any other request is accepted.
pub open spec fn spec_heading_after(current: Direction, requested: Direction) -> Direction {
    if requested == current.spec_opposite() {
        current
    } else {
        requested
    }
}

} // verus!
