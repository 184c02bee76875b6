use snake_game::controls::{Heading, KeySet};
use snake_game::geom::Pos;
use snake_game::snake::Snake;

fn no_keys() -> KeySet {
    KeySet { left: false, right: false, up: false, down: false }
}

// an 800 by 600 screen, in subunits
const W: u32 = 8000;
const H: u32 = 6000;

#[test]
fn moves_one_step_right() {
    let mut s = Snake::default();
    s.snake(&no_keys(), 1, 10, W, H);
    assert_eq!(s.x, 10);
    assert_eq!(s.y, 0);
    assert_eq!(s.direction, Heading::Right);
    assert!(s.is_alive);
    assert_eq!(s.positions, vec![Pos { x: 10, y: 0 }]);
}

#[test]
fn speed_boost_scales_the_step() {
    let mut s = Snake::default();
    s.snake(&no_keys(), 1, 13, W, H);
    assert_eq!(s.x, 13);
}

#[test]
fn wrap_at_right_edge_is_strict() {
    // head one unit before the right edge: landing exactly on the edge does
    // not wrap, one step further wraps to zero
    let mut s = Snake::default();
    s.x = W as i64 - 10;
    s.snake(&no_keys(), 1, 10, W, H);
    assert_eq!(s.x, W as i64);
    s.snake(&no_keys(), 1, 10, W, H);
    assert_eq!(s.x, 0);
}

#[test]
fn wrap_below_zero_needs_a_body_width() {
    let mut s = Snake::default();
    s.direction = Heading::Left;
    s.x = -95;
    s.snake(&no_keys(), 1, 10, W, H);
    assert_eq!(s.x, W as i64);

    let mut s2 = Snake::default();
    s2.direction = Heading::Left;
    s2.x = -85;
    s2.snake(&no_keys(), 1, 10, W, H);
    assert_eq!(s2.x, -95);
}

#[test]
fn wrap_at_bottom_edge() {
    let mut s = Snake::default();
    s.direction = Heading::Down;
    s.y = H as i64 - 5;
    s.snake(&no_keys(), 1, 10, W, H);
    assert_eq!(s.y, 0);
}

#[test]
fn trail_is_evicted_at_one_hundred_cells_per_score_point() {
    let mut s = Snake::default();
    for i in 0..99 {
        let before = s.positions.len();
        s.snake(&no_keys(), 1, 10, W, H);
        assert_eq!(s.positions.len(), before + 1);
        assert_eq!(s.positions.len(), i + 1);
    }
    // from now on each update appends one cell and evicts the oldest
    let oldest = s.positions[0];
    s.snake(&no_keys(), 1, 10, W, H);
    assert_eq!(s.positions.len(), 99);
    assert!(!s.positions.contains(&oldest));
    for _ in 0..50 {
        s.snake(&no_keys(), 1, 10, W, H);
        assert_eq!(s.positions.len(), 99);
    }
}

#[test]
fn self_collision_kills_and_still_appends_once() {
    let mut s = Snake::default();
    s.positions = vec![Pos { x: 10, y: 0 }];
    s.snake(&no_keys(), 1, 10, W, H);
    assert!(!s.is_alive);
    assert_eq!(s.positions, vec![Pos { x: 10, y: 0 }, Pos { x: 10, y: 0 }]);
    // death is terminal
    s.snake(&no_keys(), 1, 10, W, H);
    assert!(!s.is_alive);
}

#[test]
fn heading_change_applies_before_the_move() {
    let mut s = Snake::default();
    let up = KeySet { left: false, right: false, up: true, down: false };
    s.snake(&up, 1, 10, W, H);
    assert_eq!(s.direction, Heading::Up);
    assert_eq!(s.x, 0);
    assert_eq!(s.y, -10);
}
