use arcade::snake::{Direction, Snake, SnakeKey};
use arcade::InvalidViewport;

fn snake(body: Vec<(i64, i64)>, direction: Direction, food: (i64, i64)) -> Snake {
    Snake { body, direction, dead: false, food, cols: 10, rows: 8 }
}

fn distinct(body: &[(i64, i64)]) -> bool {
    let mut v = body.to_vec();
    v.sort();
    v.dedup();
    v.len() == body.len()
}

#[test]
fn new_snake_is_centered_and_idle() {
    let s = Snake::new(10, 8).unwrap();
    assert_eq!(s.body, vec![(5, 4)]);
    assert_eq!(s.direction, Direction::Idle);
    assert!(!s.dead);
    assert!(s.food != (5, 4));
    assert!(0 <= s.food.0 && s.food.0 < 10 && 0 <= s.food.1 && s.food.1 < 8);
}

#[test]
fn snake_empty_viewport_is_refused() {
    assert!(matches!(Snake::new(0, 8), Err(InvalidViewport)));
    assert!(matches!(Snake::new(8, 0), Err(InvalidViewport)));
}

#[test]
fn idle_step_keeps_body() {
    let mut s = snake(vec![(3, 3)], Direction::Idle, (0, 0));
    for _ in 0..5 {
        s.update();
    }
    assert_eq!(s.body, vec![(3, 3)]);
    assert!(!s.dead);
}

#[test]
fn reverse_direction_is_ignored() {
    let mut s = snake(vec![(3, 3), (4, 3)], Direction::Right, (0, 0));
    s.go(Direction::Left);
    assert_eq!(s.direction, Direction::Right);
    s.go(Direction::Up);
    assert_eq!(s.direction, Direction::Up);
    s.handle_key(SnakeKey::Down);
    assert_eq!(s.direction, Direction::Up);
    let mut idle = snake(vec![(3, 3)], Direction::Idle, (0, 0));
    idle.go(Direction::Left);
    assert_eq!(idle.direction, Direction::Left);
}

#[test]
fn moves_without_growing() {
    let mut s = snake(vec![(3, 3), (4, 3)], Direction::Right, (0, 0));
    s.update();
    assert_eq!(s.body, vec![(4, 3), (5, 3)]);
    s.go(Direction::Up);
    s.update();
    assert_eq!(s.body, vec![(5, 3), (5, 4)]);
    s.go(Direction::Left);
    s.update();
    assert_eq!(s.body, vec![(5, 4), (4, 4)]);
    s.go(Direction::Down);
    s.update();
    assert_eq!(s.body, vec![(4, 4), (4, 3)]);
    assert!(!s.dead);
}

#[test]
fn biting_itself_kills() {
    let body = vec![(2, 2), (3, 2), (3, 3), (2, 3), (1, 3), (1, 2)];
    let mut s = snake(body.clone(), Direction::Up, (8, 7));
    s.update();
    assert!(s.dead);
    assert_eq!(s.body, body);
    assert_eq!(s.body.len(), 6);
    s.update();
    assert_eq!(s.body, body);
}

#[test]
fn moving_onto_the_tail_kills() {
    let body = vec![(2, 2), (3, 2), (3, 3), (2, 3)];
    let mut s = snake(body.clone(), Direction::Down, (9, 7));
    s.update();
    assert!(s.dead);
    assert_eq!(s.body, body);
}

#[test]
fn leaving_the_board_kills() {
    let cases = [
        ((0, 4), Direction::Left),
        ((9, 4), Direction::Right),
        ((4, 7), Direction::Up),
        ((4, 0), Direction::Down),
    ];
    for (head, d) in cases {
        let mut s = snake(vec![head], d, (1, 1));
        s.update();
        assert!(s.dead, "{:?} from {:?}", d, head);
        assert_eq!(s.body, vec![head]);
    }
}

#[test]
fn eating_grows_and_moves_food() {
    let mut s = snake(vec![(3, 3), (4, 3)], Direction::Right, (5, 3));
    s.update();
    assert_eq!(s.body, vec![(3, 3), (4, 3), (5, 3)]);
    assert!(!s.body.contains(&s.food));
    assert!(0 <= s.food.0 && s.food.0 < 10 && 0 <= s.food.1 && s.food.1 < 8);
}

#[test]
fn food_lands_on_the_last_free_cell() {
    let mut s = Snake {
        body: vec![(0, 0), (1, 0), (2, 0), (2, 1), (1, 1)],
        direction: Direction::Left,
        dead: false,
        food: (0, 0),
        cols: 3,
        rows: 3,
    };
    s.summon_apple();
    assert!(!s.body.contains(&s.food));
    assert_eq!(s.free_cells().len(), 4);
    s.body = vec![(0, 0), (1, 0), (2, 0), (2, 1), (1, 1), (0, 1), (0, 2), (1, 2)];
    s.summon_apple();
    assert_eq!(s.food, (2, 2));
}

#[test]
fn body_stays_distinct_over_a_game() {
    let mut s = Snake::new(6, 5).unwrap();
    let keys = [SnakeKey::Right, SnakeKey::Up, SnakeKey::Left, SnakeKey::Down];
    for i in 0..200 {
        s.handle_key(keys[(i / 3) % 4]);
        s.update();
        assert!(distinct(&s.body));
        if s.dead {
            s.handle_key(SnakeKey::Reset);
            assert_eq!(s.body, vec![(3, 2)]);
        }
    }
}

#[test]
fn try_place_food_refuses_taken_cells() {
    let mut s = snake(vec![(3, 3), (4, 3)], Direction::Right, (0, 0));
    assert!(!s.try_place_food((4, 3)));
    assert!(!s.try_place_food((10, 3)));
    assert!(!s.try_place_food((-1, 3)));
    assert_eq!(s.food, (0, 0));
    assert!(s.try_place_food((6, 7)));
    assert_eq!(s.food, (6, 7));
}

#[test]
fn reset_and_quit_keys() {
    let mut s = snake(vec![(3, 3), (4, 3)], Direction::Right, (0, 0));
    s.dead = true;
    assert!(!s.handle_key(SnakeKey::Reset));
    assert_eq!(s.body, vec![(5, 4)]);
    assert!(!s.dead);
    assert_eq!(s.direction, Direction::Idle);
    assert!(s.handle_key(SnakeKey::Quit));
}
