use snake_game::food::Food;
use snake_game::geom::Pos;
use snake_game::obstacle::Obstacle;
use snake_game::snake::Snake;

const W: u32 = 8000;
const H: u32 = 6000;

fn obstacle_at(cells: Vec<Pos>) -> Obstacle {
    Obstacle { pos_list: cells, is_hit: false, size_w: 100, size_h: 100 }
}

#[test]
fn generates_one_more_cell_than_the_count() {
    let mut rng = rand::thread_rng();
    let o = Obstacle::generate_obstacles(20, &mut rng, W, H);
    assert_eq!(o.pos_list.len(), 21);
    assert!(!o.is_hit);
    for p in &o.pos_list {
        assert!(0 <= p.x && p.x < W as i64);
        assert!(0 <= p.y && p.y < H as i64);
    }
}

#[test]
fn negative_count_generates_nothing() {
    let mut rng = rand::thread_rng();
    let o = Obstacle::generate_obstacles(-1, &mut rng, W, H);
    assert_eq!(o.pos_list.len(), 0);
}

#[test]
fn head_near_an_obstacle_sets_the_hit_flag() {
    let snake = Snake::default();
    let food = Food::default();

    // fifty subunits away: five units, inside the ten-unit window
    let mut near = obstacle_at(vec![Pos { x: 50, y: 0 }]);
    near.exist(&snake, &food);
    assert!(near.is_hit);

    // exactly ten units away: the window is inclusive
    let mut edge = obstacle_at(vec![Pos { x: 100, y: 0 }]);
    edge.exist(&snake, &food);
    assert!(edge.is_hit);

    // past the window on one axis
    let mut far = obstacle_at(vec![Pos { x: 101, y: 0 }]);
    far.exist(&snake, &food);
    assert!(!far.is_hit);
}

#[test]
fn hit_window_scales_with_the_speed_boost() {
    let snake = Snake::default();
    let mut food = Food::default();
    food.speed_boost = 13;

    let mut o = obstacle_at(vec![Pos { x: 120, y: 0 }]);
    o.exist(&snake, &food);
    assert!(o.is_hit);

    let mut p = obstacle_at(vec![Pos { x: 131, y: 0 }]);
    p.exist(&snake, &food);
    assert!(!p.is_hit);
}

#[test]
fn flag_clears_when_the_head_moves_away() {
    let mut snake = Snake::default();
    let food = Food::default();
    let mut o = obstacle_at(vec![Pos { x: 0, y: 0 }]);
    o.exist(&snake, &food);
    assert!(o.is_hit);

    snake.x = 5000;
    snake.y = 3000;
    o.exist(&snake, &food);
    assert!(!o.is_hit);
    assert_eq!(o.pos_list, vec![Pos { x: 0, y: 0 }]);
}

#[test]
fn empty_set_never_hits() {
    let snake = Snake::default();
    let food = Food::default();
    let mut o = Obstacle::default();
    o.exist(&snake, &food);
    assert!(!o.is_hit);
}
