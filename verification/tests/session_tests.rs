use snake_game::controls::{Heading, KeySet};
use snake_game::food::Food;
use snake_game::geom::Pos;
use snake_game::obstacle::Obstacle;
use snake_game::session::Session;
use snake_game::snake::Snake;

const W: u32 = 8000;
const H: u32 = 6000;

fn no_keys() -> KeySet {
    KeySet { left: false, right: false, up: false, down: false }
}

fn quiet_session() -> Session {
    // food already placed far away, no obstacles: the tick is deterministic
    let mut food = Food::default();
    food.x = 5000;
    food.y = 5000;
    food.is_alive = true;
    Session { snake: Snake::default(), food, obstacle: Obstacle::default() }
}

#[test]
fn a_fresh_session_has_its_obstacles() {
    let mut rng = rand::thread_rng();
    let s = Session::new(&mut rng, W, H);
    assert_eq!(s.obstacle.pos_list.len(), 21);
    assert!(s.snake.is_alive);
    assert_eq!(s.food.score, 1);
}

#[test]
fn one_quiet_tick_moves_the_snake_and_keeps_running() {
    let mut rng = rand::thread_rng();
    let mut s = quiet_session();
    let done = s.tick(&no_keys(), &mut rng, W, H);
    assert!(!done);
    assert!(s.snake.is_alive);
    assert_eq!(s.snake.x, 10);
    assert_eq!(s.snake.y, 0);
    assert_eq!(s.snake.positions, vec![Pos { x: 10, y: 0 }]);
    assert_eq!(s.food.score, 1);
    assert!(s.food.is_alive);
}

#[test]
fn keys_are_honoured_within_the_tick() {
    let mut rng = rand::thread_rng();
    let mut s = quiet_session();
    let up = KeySet { left: false, right: false, up: true, down: false };
    let done = s.tick(&up, &mut rng, W, H);
    assert!(!done);
    assert_eq!(s.snake.direction, Heading::Up);
    assert_eq!(s.snake.y, -10);
}

#[test]
fn self_collision_ends_the_session() {
    let mut rng = rand::thread_rng();
    let mut s = quiet_session();
    s.snake.positions = vec![Pos { x: 10, y: 0 }];
    let done = s.tick(&no_keys(), &mut rng, W, H);
    assert!(done);
    assert!(!s.snake.is_alive);
}

#[test]
fn an_obstacle_in_the_way_ends_the_session() {
    let mut rng = rand::thread_rng();
    let mut s = quiet_session();
    s.obstacle.pos_list = vec![Pos { x: 10, y: 0 }];
    let done = s.tick(&no_keys(), &mut rng, W, H);
    assert!(done);
    assert!(s.obstacle.is_hit);
    assert!(s.snake.is_alive);
}

#[test]
fn eating_within_a_tick_speeds_the_same_move() {
    // food sits right where the head stands; the snake moves with the speed
    // taken after the food update, so a special meal already boosts this move
    let mut rng = rand::thread_rng();
    let mut s = quiet_session();
    s.food.x = 0;
    s.food.y = 0;
    s.food.score = 10;
    let done = s.tick(&no_keys(), &mut rng, W, H);
    assert!(!done);
    assert_eq!(s.food.score, 15);
    assert_eq!(s.food.speed_boost, 13);
    assert!(!s.food.is_alive);
    assert_eq!(s.snake.x, 13);
}

#[test]
fn the_trail_bound_follows_the_updated_score() {
    let mut rng = rand::thread_rng();
    let mut s = quiet_session();
    for _ in 0..250 {
        let done = s.tick(&no_keys(), &mut rng, W, H);
        assert!(!done);
        assert!(s.snake.positions.len() < 100 * s.food.score as usize);
    }
}
