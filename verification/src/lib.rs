//! Core of a grid-based snake simulation: a snake moves on a fixed discrete
//! grid, grows when it eats spawned food, and the session resets when the
//! snake hits the arena boundary or its own body.
//!
//! The library holds the simulation state machine only; rendering and input
//! sampling are left to the surrounding program, which feeds plain values in
//! and reads committed state back out.

mod collision;
mod direction;
mod food;
mod grid;
mod laws;
mod rng;
mod session;
mod snake;
mod timer;

pub use collision::CollisionKind;
pub use collision::check;
pub use collision::spec_check;
pub use direction::Direction;
pub use direction::DirectionInput;
pub use direction::spec_heading_after;
pub use food::FoodSpawner;
pub use grid::Grid;
pub use grid::GridPosition;
pub use laws::lemma_growth_invariant;
pub use laws::lemma_growth_per_step;
pub use laws::lemma_heading_never_reverses;
pub use laws::lemma_opposite_involution;
pub use laws::lemma_reset_invariant;
pub use laws::lemma_reversal_ignored;
pub use laws::lemma_straight_step_no_self_collision;
pub use laws::lemma_wall_collision_iff;
pub use laws::run_collision_free;
pub use laws::run_eat_count;
pub use laws::run_ticks;
pub use laws::straight_line;
pub use laws::with_food;
pub use session::ConfigError;
pub use session::GameConfig;
pub use session::GameSession;
pub use session::SessionView;
pub use snake::SnakeBody;
pub use snake::initial_segments;
pub use snake::spec_moved;
pub use snake::stepped_segments;
pub use timer::IntervalTimer;
pub use timer::TimerView;
