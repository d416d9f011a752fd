use snake_core::CollisionKind;
use snake_core::ConfigError;
use snake_core::Direction;
use snake_core::DirectionInput;
use snake_core::GameConfig;
use snake_core::GameSession;
use snake_core::Grid;
use snake_core::GridPosition;
use snake_core::IntervalTimer;
use snake_core::SnakeBody;
use snake_core::check;

fn config_10x10() -> GameConfig {
    GameConfig {
        arena_width: 10,
        arena_height: 10,
        move_interval: 1,
        food_interval: 1_000_000,
    }
}

fn no_keys() -> DirectionInput {
    DirectionInput::released()
}

fn pos(x: i32, y: i32) -> GridPosition {
    GridPosition { x, y }
}

#[test]
fn scenario_a_three_ticks_straight_up() {
    let mut s = GameSession::new(config_10x10()).unwrap();
    assert_eq!(s.body.segments, vec![pos(3, 3), pos(3, 2)]);
    assert_eq!(s.body.heading, Direction::Up);

    assert_eq!(s.advance(1, no_keys()), None);
    assert_eq!(s.body.segments, vec![pos(3, 4), pos(3, 3)]);

    assert_eq!(s.advance(1, no_keys()), None);
    assert_eq!(s.body.segments, vec![pos(3, 5), pos(3, 4)]);

    assert_eq!(s.advance(1, no_keys()), None);
    assert_eq!(s.body.segments, vec![pos(3, 6), pos(3, 5)]);
}

#[test]
fn scenario_b_eating_grows_at_recorded_tail() {
    let mut s = GameSession::new(config_10x10()).unwrap();
    s.advance(1, no_keys());
    s.advance(1, no_keys());
    // Head is at (3, 5); the food sits where the third tick's step lands.
    s.food = Some(pos(3, 6));
    assert_eq!(s.advance(1, no_keys()), None);
    // The new segment fills the tail cell recorded just before the shift.
    assert_eq!(s.body.segments, vec![pos(3, 6), pos(3, 5), pos(3, 4)]);
    assert_eq!(s.body.segments.len(), 3);
    assert_eq!(s.food, None);
    assert_eq!(s.pending_growth, 0);
}

#[test]
fn scenario_c_wall_collision_resets() {
    let mut s = GameSession::new(config_10x10()).unwrap();
    s.body = SnakeBody {
        segments: vec![pos(0, 5), pos(1, 5)],
        heading: Direction::Left,
    };
    assert_eq!(s.advance(1, no_keys()), Some(CollisionKind::WallCollision));
    assert_eq!(s.body.segments, vec![pos(3, 3), pos(3, 2)]);
    assert_eq!(s.body.heading, Direction::Up);
    assert_eq!(s.food, None);
    assert_eq!(s.pending_growth, 0);
    assert_eq!(s.session_id, 1);
}

#[test]
fn scenario_d_simultaneous_keys_left_wins() {
    let mut s = GameSession::new(config_10x10()).unwrap();
    let both = DirectionInput { left: true, down: false, right: true, up: false };
    s.apply_input(both);
    assert_eq!(s.body.heading, Direction::Left);
}

#[test]
fn input_priority_order_is_left_down_right_up() {
    let all = DirectionInput { left: true, down: true, right: true, up: true };
    assert_eq!(all.requested(Direction::Up), Direction::Left);
    let no_left = DirectionInput { left: false, down: true, right: true, up: true };
    assert_eq!(no_left.requested(Direction::Up), Direction::Down);
    let right_up = DirectionInput { left: false, down: false, right: true, up: true };
    assert_eq!(right_up.requested(Direction::Down), Direction::Right);
    let up_only = DirectionInput { left: false, down: false, right: false, up: true };
    assert_eq!(up_only.requested(Direction::Down), Direction::Up);
    assert_eq!(no_keys().requested(Direction::Right), Direction::Right);
}

#[test]
fn reversal_is_ignored() {
    let mut body = SnakeBody {
        segments: vec![pos(3, 3), pos(3, 2)],
        heading: Direction::Up,
    };
    body.set_heading(Direction::Down);
    assert_eq!(body.heading, Direction::Up);
    body.set_heading(Direction::Left);
    assert_eq!(body.heading, Direction::Left);
    body.set_heading(Direction::Right);
    assert_eq!(body.heading, Direction::Left);
    // The reversal of whatever the current heading is, for all four.
    for d in [Direction::Left, Direction::Up, Direction::Right, Direction::Down] {
        let mut b = SnakeBody { segments: vec![pos(5, 5)], heading: d };
        b.set_heading(d.opposite());
        assert_eq!(b.heading, d);
    }
}

#[test]
fn opposite_is_an_involution() {
    for d in [Direction::Left, Direction::Up, Direction::Right, Direction::Down] {
        assert_eq!(d.opposite().opposite(), d);
    }
}

#[test]
fn growth_after_two_eating_events() {
    let mut s = GameSession::new(config_10x10()).unwrap();
    let initial_len = s.body.segments.len();
    s.food = Some(pos(3, 4));
    assert_eq!(s.advance(1, no_keys()), None);
    assert_eq!(s.body.segments.len(), initial_len + 1);
    s.food = Some(pos(3, 5));
    assert_eq!(s.advance(1, no_keys()), None);
    assert_eq!(s.body.segments.len(), initial_len + 2);
    assert_eq!(s.body.segments, vec![pos(3, 5), pos(3, 4), pos(3, 3), pos(3, 2)]);
}

#[test]
fn wall_reported_iff_head_out_of_bounds() {
    let grid = Grid { width: 10, height: 10 };
    let mk = |head: GridPosition| SnakeBody { segments: vec![head], heading: Direction::Up };
    assert_eq!(check(&mk(pos(-1, 5)), &grid), Some(CollisionKind::WallCollision));
    assert_eq!(check(&mk(pos(5, -1)), &grid), Some(CollisionKind::WallCollision));
    assert_eq!(check(&mk(pos(10, 5)), &grid), Some(CollisionKind::WallCollision));
    assert_eq!(check(&mk(pos(5, 10)), &grid), Some(CollisionKind::WallCollision));
    assert_eq!(check(&mk(pos(0, 0)), &grid), None);
    assert_eq!(check(&mk(pos(9, 9)), &grid), None);
}

#[test]
fn self_collision_detected_and_resets() {
    let grid = Grid { width: 10, height: 10 };
    // Head on a strictly trailing segment's cell.
    let colliding = SnakeBody {
        segments: vec![pos(2, 1), pos(1, 1), pos(1, 2), pos(2, 2), pos(2, 1), pos(3, 1)],
        heading: Direction::Right,
    };
    assert_eq!(check(&colliding, &grid), Some(CollisionKind::SelfCollision));

    // The same situation arising from a step inside a session.
    let mut s = GameSession::new(config_10x10()).unwrap();
    s.body = SnakeBody {
        segments: vec![pos(1, 1), pos(1, 2), pos(2, 2), pos(2, 1), pos(3, 1)],
        heading: Direction::Right,
    };
    assert_eq!(s.advance(1, no_keys()), Some(CollisionKind::SelfCollision));
    assert_eq!(s.body.segments, vec![pos(3, 3), pos(3, 2)]);
    assert_eq!(s.session_id, 1);
}

#[test]
fn vacated_tail_cell_does_not_collide() {
    // Stepping into the cell the tail vacates this tick is legal: after the
    // shift the head equals no strictly trailing segment.
    let mut s = GameSession::new(config_10x10()).unwrap();
    s.body = SnakeBody {
        segments: vec![pos(5, 5), pos(5, 4), pos(4, 4), pos(4, 5)],
        heading: Direction::Left,
    };
    // Head moves to (4, 5), the old tail cell.
    assert_eq!(s.advance(1, no_keys()), None);
    assert_eq!(s.body.segments, vec![pos(4, 5), pos(5, 5), pos(5, 4), pos(4, 4)]);
}

#[test]
fn config_errors_are_exact() {
    let mut c = config_10x10();
    c.arena_width = 3;
    assert_eq!(GameSession::new(c).err(), Some(ConfigError::InvalidArena));
    let mut c = config_10x10();
    c.arena_height = 0;
    assert_eq!(GameSession::new(c).err(), Some(ConfigError::InvalidArena));
    let mut c = config_10x10();
    c.move_interval = 0;
    assert_eq!(GameSession::new(c).err(), Some(ConfigError::InvalidInterval));
    let mut c = config_10x10();
    c.food_interval = 0;
    assert_eq!(GameSession::new(c).err(), Some(ConfigError::InvalidInterval));
    assert!(GameSession::new(config_10x10()).is_ok());
}

#[test]
fn fresh_session_state() {
    let s = GameSession::new(config_10x10()).unwrap();
    assert_eq!(s.grid, Grid { width: 10, height: 10 });
    assert_eq!(s.food, None);
    assert_eq!(s.last_tail, None);
    assert_eq!(s.pending_growth, 0);
    assert_eq!(s.session_id, 0);
    assert_eq!(s.move_timer.period, 1);
    assert_eq!(s.food_spawner.timer.period, 1_000_000);
}

#[test]
fn movement_timer_paces_steps() {
    let mut c = config_10x10();
    c.move_interval = 2;
    let mut s = GameSession::new(c).unwrap();
    s.advance(1, no_keys());
    assert_eq!(s.body.segments[0], pos(3, 3));
    s.advance(1, no_keys());
    assert_eq!(s.body.segments[0], pos(3, 4));
    s.advance(1, no_keys());
    assert_eq!(s.body.segments[0], pos(3, 4));
    s.advance(1, no_keys());
    assert_eq!(s.body.segments[0], pos(3, 5));
}

#[test]
fn interval_timer_fires_and_rearms() {
    let mut t = IntervalTimer::new(5);
    assert!(!t.tick(3));
    assert_eq!(t.elapsed, 3);
    assert!(t.tick(2));
    assert_eq!(t.elapsed, 0);
    // A long gap fires at most once per call and keeps the remainder.
    assert!(t.tick(7));
    assert_eq!(t.elapsed, 2);
    assert!(!t.tick(2));
    assert_eq!(t.elapsed, 4);
}

#[test]
fn food_spawns_in_bounds_and_persists() {
    let mut c = config_10x10();
    c.arena_width = 4;
    c.arena_height = 4;
    c.food_interval = 1;
    c.move_interval = 1_000_000;
    let mut s = GameSession::new(c).unwrap();
    for _ in 0..50 {
        s.food = None;
        s.advance(1, no_keys());
        let f = s.food.expect("the spawn timer fired with no food present");
        assert!(0 <= f.x && f.x < 4, "food x out of bounds: {}", f.x);
        assert!(0 <= f.y && f.y < 4, "food y out of bounds: {}", f.y);
    }
    // An existing food item is never replaced by a later fire.
    let placed = pos(2, 2);
    s.food = Some(placed);
    s.advance(1, no_keys());
    assert_eq!(s.food, Some(placed));
}

#[test]
fn no_food_spawn_before_timer_fires() {
    let mut c = config_10x10();
    c.food_interval = 10;
    let mut s = GameSession::new(c).unwrap();
    for _ in 0..9 {
        s.advance(1, no_keys());
        assert_eq!(s.food, None);
    }
    s.advance(1, no_keys());
    assert!(s.food.is_some());
}

#[test]
fn straight_snake_never_self_collides_on_a_turn() {
    // A straight five-segment snake heading up, turned each legal way.
    for (keys, expect_head) in [
        (DirectionInput { left: true, down: false, right: false, up: false }, pos(4, 5)),
        (DirectionInput { left: false, down: false, right: true, up: false }, pos(6, 5)),
        (DirectionInput { left: false, down: false, right: false, up: true }, pos(5, 6)),
        // Down is the instant reversal and is ignored, so the snake goes on up.
        (DirectionInput { left: false, down: true, right: false, up: false }, pos(5, 6)),
    ] {
        let mut s = GameSession::new(config_10x10()).unwrap();
        s.body = SnakeBody {
            segments: vec![pos(5, 5), pos(5, 4), pos(5, 3), pos(5, 2), pos(5, 1)],
            heading: Direction::Up,
        };
        assert_eq!(s.advance(1, keys), None);
        assert_eq!(s.body.segments[0], expect_head);
        assert_eq!(s.session_id, 0);
    }
}

#[test]
fn grid_containment() {
    let grid = Grid { width: 10, height: 8 };
    assert!(grid.contains(pos(0, 0)));
    assert!(grid.contains(pos(9, 7)));
    assert!(!grid.contains(pos(10, 0)));
    assert!(!grid.contains(pos(0, 8)));
    assert!(!grid.contains(pos(-1, 0)));
    assert!(!grid.contains(pos(0, -1)));
}
