//! The library's general laws, stated over the same spec functions the
//! executable contracts use.

use vstd::prelude::*;

use crate::collision;
use crate::collision::CollisionKind;
use crate::direction::Direction;
use crate::direction::spec_heading_after;
use crate::grid::Grid;
use crate::grid::GridPosition;
use crate::session::SessionView;
use crate::snake::spec_moved;
use crate::snake::stepped_segments;

verus! {

/// Reversing twice is the identity: `opposite(opposite(d)) == d`.
pub proof fn lemma_opposite_involution(d: Direction)
    ensures
        d.spec_opposite().spec_opposite() == d,
{
}

/// Requesting the exact reversal of the current heading never changes it.
pub proof fn lemma_reversal_ignored(current: Direction)
    ensures
        spec_heading_after(current, current.spec_opposite()) == current,
{
}

/// Whatever is requested, the heading after it is never the instant
/// reversal of the one before: the premise of the straight-line law holds
/// for every sequence of inputs.
pub proof fn lemma_heading_never_reverses(current: Direction, requested: Direction)
    ensures
        spec_heading_after(current, requested) != current.spec_opposite(),
{
}

/// A wall collision is reported after a step exactly when the stepped head
/// lies outside the arena.
pub proof fn lemma_wall_collision_iff(segs: Seq<GridPosition>, grid: Grid)
    requires
        segs.len() >= 1,
    ensures
        collision::spec_check(segs, grid) == Some(CollisionKind::WallCollision) <==> !grid.spec_contains(
            segs[0],
        ),
{
}

/// After any movement step that reports a collision, the committed state is
/// the reset one: a fresh two-segment snake, no food, no queued growth, and
/// a session id one higher.
pub proof fn lemma_reset_invariant(v: SessionView)
    requires
        v.segments.len() >= 1,
        v.move_outcome() is Some,
    ensures
        v.moved().segments.len() == 2,
        v.moved().food is None,
        v.moved().pending_growth == 0,
        v.moved().session_id == v.session_id + 1,
{
}

/// One collision-free movement step grows the body by exactly one segment
/// on an eating event and keeps its length otherwise.
pub proof fn lemma_growth_per_step(v: SessionView)
    requires
        v.segments.len() >= 1,
        v.move_outcome() is None,
    ensures
        v.eats() ==> v.moved().segments.len() == v.segments.len() + 1,
        !v.eats() ==> v.moved().segments.len() == v.segments.len(),
        v.moved().session_id == v.session_id,
{
}

/// A food placement as the food phase performs it: when no food exists and
/// a spawn happens, the spawned cell appears; otherwise nothing changes.
pub open spec fn with_food(v: SessionView, spawn: Option<GridPosition>) -> SessionView {
    if v.food is None && spawn is Some {
        SessionView { food: spawn, ..v }
    } else {
        v
    }
}

/// The state after a run of movement ticks, each preceded by its food
/// placement from `plan` (the food phase of the frames between two
/// movement ticks).
pub open spec fn run_ticks(v: SessionView, plan: Seq<Option<GridPosition>>) -> SessionView
    decreases plan.len(),
{
    if plan.len() == 0 {
        v
    } else {
        run_ticks(with_food(v, plan[0]).moved(), plan.drop_first())
    }
}

/// Whether every movement tick of the run is collision free.
pub open spec fn run_collision_free(v: SessionView, plan: Seq<Option<GridPosition>>) -> bool
    decreases plan.len(),
{
    plan.len() == 0 || {
        &&& with_food(v, plan[0]).move_outcome() is None
        &&& run_collision_free(with_food(v, plan[0]).moved(), plan.drop_first())
    }
}

/// How many ticks of the run eat a food item.
pub open spec fn run_eat_count(v: SessionView, plan: Seq<Option<GridPosition>>) -> int
    decreases plan.len(),
{
    if plan.len() == 0 {
        0
    } else {
        (if with_food(v, plan[0]).eats() {
            1int
        } else {
            0int
        }) + run_eat_count(with_food(v, plan[0]).moved(), plan.drop_first())
    }
}

/// Growth invariant: across any run of movement ticks with no collision,
/// the body's length grows by exactly the number of eating events, whatever
/// food placements happen in between.
pub proof fn lemma_growth_invariant(v: SessionView, plan: Seq<Option<GridPosition>>)
    requires
        v.segments.len() >= 1,
        run_collision_free(v, plan),
    ensures
        run_ticks(v, plan).segments.len() == v.segments.len() + run_eat_count(v, plan),
    decreases plan.len(),
{
    if plan.len() > 0 {
        let v1 = with_food(v, plan[0]);
        lemma_growth_per_step(v1);
        lemma_growth_invariant(v1.moved(), plan.drop_first());
    }
}

/// A body lying in one straight line behind its head along direction `d`:
/// segment `i` sits `i` cells behind the head.
pub open spec fn straight_line(segs: Seq<GridPosition>, d: Direction) -> bool {
    forall|i: int|
        0 <= i < segs.len() ==> (#[trigger] segs[i]).x == segs[0].x - i * d.dx() && segs[i].y
            == segs[0].y - i * d.dy()
}

/// For every sequence of non-reversing inputs, a snake moving in a straight
/// line never collides with itself on the next step: after one step with
/// any heading that is not the instant reversal, the new head differs from
/// every trailing segment, so no self collision is reported on any arena.
pub proof fn lemma_straight_step_no_self_collision(
    segs: Seq<GridPosition>,
    d: Direction,
    d2: Direction,
    grid: Grid,
)
    requires
        1 <= segs.len(),
        straight_line(segs, d),
        d2 != d.spec_opposite(),
        i32::MIN < segs[0].x < i32::MAX,
        i32::MIN < segs[0].y < i32::MAX,
    ensures
        forall|i: int|
            1 <= i < stepped_segments(segs, d2).len() ==> #[trigger] stepped_segments(segs, d2)[i]
                != stepped_segments(segs, d2)[0],
        collision::spec_check(stepped_segments(segs, d2), grid) != Some(
            CollisionKind::SelfCollision,
        ),
{
    let stepped = stepped_segments(segs, d2);
    let nh = spec_moved(segs[0], d2);
    assert forall|i: int| 1 <= i < stepped.len() implies #[trigger] stepped[i] != stepped[0] by {
        let j = i - 1;
        assert(stepped[i] == segs[j]);
        assert(segs[j].x == segs[0].x - j * d.dx());
        assert(segs[j].y == segs[0].y - j * d.dy());
        assert(nh.x == segs[0].x + d2.dx());
        assert(nh.y == segs[0].y + d2.dy());
        if segs[j] == nh {
            assert(d2.dx() == -(j * d.dx()));
            assert(d2.dy() == -(j * d.dy()));
            lemma_no_unit_offset_cancels(d, d2, j);
            assert(false);
        }
    }
}

/// No step offset equals `j` backward steps of a non-reversed direction:
/// the helper case analysis behind the straight-line law.
proof fn lemma_no_unit_offset_cancels(d: Direction, d2: Direction, j: int)
    requires
        j >= 0,
        d2 != d.spec_opposite(),
    ensures
        !(d2.dx() == -(j * d.dx()) && d2.dy() == -(j * d.dy())),
{
    if d2.dx() == -(j * d.dx()) && d2.dy() == -(j * d.dy()) {
        match d {
            Direction::Left => {
                assert(d2.dy() == 0);
                assert(d2 == Direction::Left);
                assert(j == -1);
            },
            Direction::Right => {
                assert(d2.dy() == 0);
                assert(d2 == Direction::Right);
                assert(j == -1);
            },
            Direction::Up => {
                assert(d2.dx() == 0);
                assert(d2 == Direction::Up);
                assert(j == -1);
            },
            Direction::Down => {
                assert(d2.dx() == 0);
                assert(d2 == Direction::Down);
                assert(j == -1);
            },
        }
    }
}

} // verus!
