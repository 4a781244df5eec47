use snake_game::grid::Direction;
use snake_game::snake::Snake;

#[test]
fn new_snake_keeps_cells_and_heading() {
    let snake = Snake::new(vec![(2, 2), (2, 3), (3, 3), (4, 3)], Direction::Up);
    assert_eq!(snake.body(), &vec![(2, 2), (2, 3), (3, 3), (4, 3)]);
    assert_eq!(snake.direction(), Direction::Up);
}

#[test]
fn head_is_the_last_cell() {
    let snake = Snake::new(vec![(2, 2), (2, 3), (3, 3), (4, 3)], Direction::Up);
    assert_eq!(snake.head(), (4, 3));
    let single = Snake::new(vec![(7, 9)], Direction::Left);
    assert_eq!(single.head(), (7, 9));
}

#[test]
fn take_step_drops_oldest_and_appends_head() {
    let mut snake = Snake::new(vec![(2, 2), (2, 3), (3, 3), (4, 3)], Direction::Up);
    snake.take_step((5, 3));
    assert_eq!(snake.body(), &vec![(2, 3), (3, 3), (4, 3), (5, 3)]);
    assert_eq!(snake.head(), (5, 3));
    assert_eq!(snake.direction(), Direction::Up);
}

#[test]
fn take_step_keeps_length() {
    let mut snake = Snake::new(vec![(1, 1), (1, 2)], Direction::Right);
    for col in 3..10 {
        snake.take_step((1, col));
        assert_eq!(snake.body().len(), 2);
    }
    assert_eq!(snake.body(), &vec![(1, 8), (1, 9)]);
}

#[test]
fn take_step_on_single_cell_replaces_it() {
    let mut snake = Snake::new(vec![(3, 3)], Direction::Down);
    snake.take_step((4, 3));
    assert_eq!(snake.body(), &vec![(4, 3)]);
}

#[test]
fn set_direction_overwrites_heading_only() {
    let mut snake = Snake::new(vec![(2, 2), (2, 3)], Direction::Up);
    snake.set_direction(Direction::Down);
    assert_eq!(snake.direction(), Direction::Down);
    assert_eq!(snake.body(), &vec![(2, 2), (2, 3)]);
    snake.set_direction(Direction::Left);
    assert_eq!(snake.direction(), Direction::Left);
    snake.set_direction(Direction::Right);
    assert_eq!(snake.direction(), Direction::Right);
    assert_eq!(snake.head(), (2, 3));
}

#[test]
fn occupies_finds_exactly_the_body_cells() {
    let snake = Snake::new(vec![(2, 2), (2, 3), (3, 3), (4, 3)], Direction::Up);
    assert!(snake.occupies((2, 2)));
    assert!(snake.occupies((2, 3)));
    assert!(snake.occupies((3, 3)));
    assert!(snake.occupies((4, 3)));
    assert!(!snake.occupies((3, 2)));
    assert!(!snake.occupies((2, 4)));
    assert!(!snake.occupies((3, 4)));
    assert!(!snake.occupies((0, 0)));
}

#[test]
fn occupies_nothing_when_empty() {
    let snake = Snake::new(Vec::new(), Direction::Up);
    assert!(!snake.occupies((0, 0)));
    assert!(snake.body().is_empty());
}
