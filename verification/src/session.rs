//! The per-tick orchestration: input, movement, collision, eating, growth,
//! reset, and the independently paced food spawn.

use vstd::prelude::*;

use crate::collision;
use crate::collision::CollisionKind;
use crate::direction::Direction;
use crate::direction::DirectionInput;
use crate::direction::spec_heading_after;
use crate::food::FoodSpawner;
use crate::grid::Grid;
use crate::grid::GridPosition;
use crate::snake::SnakeBody;
use crate::snake::initial_segments;
use crate::snake::spec_moved;
use crate::snake::stepped_segments;
use crate::timer::IntervalTimer;
use crate::timer::TimerView;

verus! {

/// The options a session is built from. Arena dimensions count grid cells;
/// the intervals are in the same abstract time units as the `delta` handed
/// to [`GameSession::advance`].
#[derive(Clone, Copy, PartialEq, Eq, Structural, Debug)]
pub struct GameConfig {
    pub arena_width: u32,
    pub arena_height: u32,
    pub move_interval: u64,
    pub food_interval: u64,
}

impl GameConfig {
    /// The arena must hold the fixed spawn cells (3, 3) and (3, 2), so both
    /// dimensions must be at least 4, and every in-bounds coordinate must
    /// fit an `i32`.
    pub open spec fn arena_ok(self) -> bool {
        4 <= self.arena_width <= i32::MAX && 4 <= self.arena_height <= i32::MAX
    }

    /// Both timer periods must be positive.
    pub open spec fn intervals_ok(self) -> bool {
        1 <= self.move_interval && 1 <= self.food_interval
    }

    /// A session can be built exactly from a valid configuration.
    pub open spec fn valid(self) -> bool {
        self.arena_ok() && self.intervals_ok()
    }
}

/// The configuration errors reported at construction.
#[derive(Clone, Copy, PartialEq, Eq, Structural, Debug)]
pub enum ConfigError {
    /// An arena dimension is too small for the fixed spawn cells or too
    /// large for `i32` coordinates.
    InvalidArena,
    /// A timer interval is zero.
    InvalidInterval,
}

/// Mathematical model of a [`GameSession`].
pub struct SessionView {
    pub grid: Grid,
    pub segments: Seq<GridPosition>,
    pub heading: Direction,
    pub food: Option<GridPosition>,
    pub last_tail: Option<GridPosition>,
    pub pending_growth: int,
    pub session_id: int,
    pub move_timer: TimerView,
    pub food_timer: TimerView,
}

impl SessionView {
    /// The invariant every committed state satisfies: bounds sane, a snake
    /// of at least head and one segment entirely inside the arena, food and
    /// recorded tail cell (when present) inside the arena, no growth left
    /// queued between ticks, both timers well formed.
    pub open spec fn wf(self) -> bool {
        &&& self.grid.wf()
        &&& 4 <= self.grid.width && 4 <= self.grid.height
        &&& self.segments.len() >= 2
        &&& forall|i: int|
            0 <= i < self.segments.len() ==> self.grid.spec_contains(#[trigger] self.segments[i])
        &&& self.food matches Some(p) ==> self.grid.spec_contains(p)
        &&& self.last_tail matches Some(p) ==> self.grid.spec_contains(p)
        &&& self.pending_growth == 0
        &&& 0 <= self.session_id <= u64::MAX
        &&& self.move_timer.wf()
        &&& self.food_timer.wf()
    }

    /// The view after one frame's directional keys are applied.
    pub open spec fn with_input(self, input: DirectionInput) -> SessionView {
        SessionView {
            heading: spec_heading_after(self.heading, input.spec_requested(self.heading)),
            ..self
        }
    }

    /// The collision one movement step from this state would report.
    pub open spec fn move_outcome(self) -> Option<CollisionKind> {
        collision::spec_check(stepped_segments(self.segments, self.heading), self.grid)
    }

    /// Whether one movement step from this state eats the food item: no
    /// collision, and the stepped head lands on it.
    pub open spec fn eats(self) -> bool {
        self.move_outcome() is None && self.food == Some(
            spec_moved(self.segments[0], self.heading),
        )
    }

    /// The view after one committed movement step: shift the body, record
    /// the vacated tail cell; on a collision reset (respawn the snake,
    /// clear food and queued growth, bump the session id); otherwise on an
    /// eating event consume the food and grow at the recorded tail cell.
    pub open spec fn moved(self) -> SessionView {
        let new_segs = stepped_segments(self.segments, self.heading);
        let tail = Some(self.segments.last());
        if self.move_outcome() is Some {
            SessionView {
                segments: initial_segments(),
                heading: Direction::Up,
                food: None,
                last_tail: tail,
                pending_growth: 0,
                session_id: self.session_id + 1,
                ..self
            }
        } else if self.eats() {
            SessionView {
                segments: new_segs.push(self.segments.last()),
                food: None,
                last_tail: tail,
                ..self
            }
        } else {
            SessionView { segments: new_segs, last_tail: tail, ..self }
        }
    }

    /// The movement phase of one frame of `delta` time units: the movement
    /// timer always advances, and when it fires one movement step is
    /// committed.
    pub open spec fn frame_moved(self, delta: int) -> SessionView {
        let ticked = SessionView { move_timer: self.move_timer.ticked(delta), ..self };
        if self.move_timer.fires(delta) {
            ticked.moved()
        } else {
            ticked
        }
    }

    /// The collision one frame of `delta` time units reports: the movement
    /// step's outcome when the movement timer fires, none otherwise.
    pub open spec fn frame_outcome(self, delta: int) -> Option<CollisionKind> {
        if self.move_timer.fires(delta) {
            self.move_outcome()
        } else {
            None
        }
    }

    /// Whether the food phase of a frame spawns: its timer fires while no
    /// food exists (after the movement phase, which may just have consumed
    /// it).
    pub open spec fn spawns_food(self, delta: int) -> bool {
        self.food_timer.fires(delta) && self.food is None
    }

    /// `a` equals `b` on every field but the food item.
    pub open spec fn same_but_food(a: SessionView, b: SessionView) -> bool {
        a == SessionView { food: a.food, ..b }
    }
}

/// The whole simulation: arena, snake, food, growth bookkeeping and the two
/// independently paced timers. One `advance` call per host frame drives it.
#[derive(Clone, Debug)]
pub struct GameSession {
    pub grid: Grid,
    pub body: SnakeBody,
    pub food: Option<GridPosition>,
    pub last_tail: Option<GridPosition>,
    pub pending_growth: u32,
    pub session_id: u64,
    pub move_timer: IntervalTimer,
    pub food_spawner: FoodSpawner,
}

impl View for GameSession {
    type V = SessionView;

    open spec fn view(&self) -> SessionView {
        SessionView {
            grid: self.grid,
            segments: self.body.segments@,
            heading: self.body.heading,
            food: self.food,
            last_tail: self.last_tail,
            pending_growth: self.pending_growth as int,
            session_id: self.session_id as int,
            move_timer: self.move_timer@,
            food_timer: self.food_spawner.timer@,
        }
    }
}

impl GameSession {
    /// Shorthand for the invariant on the model.
    pub open spec fn wf(self) -> bool {
        self@.wf()
    }

    /// Build a session from `config`: a fresh two-segment snake, no food,
    /// nothing queued, session id 0, both timers starting from zero.
    pub fn new(config: GameConfig) -> (r: Result<GameSession, ConfigError>)
        ensures
            r is Ok <==> config.valid(),
            !config.arena_ok() ==> r == Result::<GameSession, ConfigError>::Err(
                ConfigError::InvalidArena,
            ),
            config.arena_ok() && !config.intervals_ok() ==> r == Result::<
                GameSession,
                ConfigError,
            >::Err(ConfigError::InvalidInterval),
            r matches Ok(s) ==> s.wf() && s@ == (SessionView {
                grid: Grid { width: config.arena_width, height: config.arena_height },
                segments: initial_segments(),
                heading: Direction::Up,
                food: None,
                last_tail: None,
                pending_growth: 0,
                session_id: 0,
                move_timer: TimerView { period: config.move_interval as int, elapsed: 0 },
                food_timer: TimerView { period: config.food_interval as int, elapsed: 0 },
            }),
    {
        if config.arena_width < 4 || config.arena_height < 4 || config.arena_width > i32::MAX
            as u32 || config.arena_height > i32::MAX as u32 {
            return Err(ConfigError::InvalidArena);
        }
        if config.move_interval == 0 || config.food_interval == 0 {
            return Err(ConfigError::InvalidInterval);
        }
        let grid = Grid { width: config.arena_width, height: config.arena_height };
        let session = GameSession {
            grid,
            body: SnakeBody::spawned(),
            food: None,
            last_tail: None,
            pending_growth: 0,
            session_id: 0,
            move_timer: IntervalTimer::new(config.move_interval),
            food_spawner: FoodSpawner::new(config.food_interval),
        };
        Ok(session)
    }

    /// Rebuild the initial snake, clear the food item and any queued
    /// growth, and bump the session id so external readers can tell that
    /// earlier entities are stale. The recorded tail cell and the timers
    /// keep their values.
    pub fn reset(&mut self)
        requires
            old(self).session_id < u64::MAX,
        ensures
            final(self)@ == (SessionView {
                segments: initial_segments(),
                heading: Direction::Up,
                food: None,
                pending_growth: 0,
                session_id: old(self)@.session_id + 1,
                ..old(self)@
            }),
    {
        self.body = SnakeBody::spawned();
        self.food = None;
        self.pending_growth = 0;
        self.session_id = self.session_id + 1;
    }

    /// Apply one frame's directional keys to the snake's heading.
    pub fn apply_input(&mut self, input: DirectionInput)
        ensures
            final(self)@ == old(self)@.with_input(input),
    {
        self.body.apply_input(input);
    }

    /// One committed movement tick: shift the body, record the vacated tail
    /// cell, then check collisions; on a collision report it and reset; on
    /// an eating event consume the food, queue one growth and drain the
    /// queue into a new tail segment. Returns the collision, the session's
    /// game-over signal.
    pub fn movement_step(&mut self) -> (r: Option<CollisionKind>)
        requires
            old(self).wf(),
            old(self).session_id < u64::MAX,
        ensures
            final(self).wf(),
            r == old(self)@.move_outcome(),
            final(self)@ == old(self)@.moved(),
    {
        let prev_tail = self.body.step();
        self.last_tail = Some(prev_tail);
        let outcome = collision::check(&self.body, &self.grid);
        match outcome {
            Some(kind) => {
                self.reset();
                Some(kind)
            },
            None => {
                let head = self.body.segments[0];
                let ate = match self.food {
                    Some(f) => f.x == head.x && f.y == head.y,
                    None => false,
                };
                if ate {
                    self.food = None;
                    self.pending_growth = self.pending_growth + 1;
                }
                if self.pending_growth > 0 {
                    self.body.grow(prev_tail);
                    self.pending_growth = 0;
                }
                None
            },
        }
    }

    /// Advance the whole simulation by one host frame of `delta` time
    /// units: apply the frame's keys, advance the movement timer and commit
    /// a movement tick when it fires, then advance the food-spawn timer and
    /// let it place food on a random cell when it fires while none exists.
    /// Returns the collision the frame reported, if any.
    pub fn advance(&mut self, delta: u64, input: DirectionInput) -> (r: Option<CollisionKind>)
        requires
            old(self).wf(),
            old(self).session_id < u64::MAX,
            delta <= u64::MAX - old(self).move_timer.elapsed,
            delta <= u64::MAX - old(self).food_spawner.timer.elapsed,
        ensures
            final(self).wf(),
            ({
                let after_keys = old(self)@.with_input(input);
                let after_move = after_keys.frame_moved(delta as int);
                let after_frame = SessionView {
                    food_timer: after_move.food_timer.ticked(delta as int),
                    ..after_move
                };
                &&& r == after_keys.frame_outcome(delta as int)
                &&& if after_move.spawns_food(delta as int) {
                    &&& SessionView::same_but_food(final(self)@, after_frame)
                    &&& final(self)@.food is Some
                } else {
                    final(self)@ == after_frame
                }
            }),
    {
        self.apply_input(input);
        let move_fired = self.move_timer.tick(delta);
        let outcome = if move_fired {
            self.movement_step()
        } else {
            None
        };
        self.food = self.food_spawner.tick(delta, &self.grid, self.food);
        outcome
    }

    /// Read access for external consumers: the committed segment cells,
    /// head first.
    pub fn segment_positions(&self) -> (r: &Vec<GridPosition>)
        ensures
            r@ == self@.segments,
    {
        &self.body.segments
    }

    /// Read access for external consumers: the committed food cell, if any.
    pub fn food_position(&self) -> (r: Option<GridPosition>)
        ensures
            r == self@.food,
    {
        self.food
    }

    /// Read access for external consumers: the session epoch, bumped on
    /// every reset so stale entities can be told apart.
    pub fn current_session_id(&self) -> (r: u64)
        ensures
            r as int == self@.session_id,
    {
        self.session_id
    }
}

} // verus!
