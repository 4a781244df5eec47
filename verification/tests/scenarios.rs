use snake_game::game::{GameState, Outcome, Status};
use snake_game::grid::Direction;
use snake_game::input::{Key, KeyPress, Modifiers};

fn arrow(key: Key) -> KeyPress {
    KeyPress { key, modifiers: Modifiers::none() }
}

#[test]
fn right_from_the_start_on_20_by_30() {
    let mut game = GameState::new(20, 30);
    assert_eq!(game.snake().body(), &vec![(2, 2), (2, 3), (3, 3), (4, 3)]);
    assert_eq!(game.snake().direction(), Direction::Up);
    let status = game.process_keypress(arrow(Key::Right));
    assert_eq!(status, Status::Running);
    assert_eq!(game.snake().body(), &vec![(2, 3), (3, 3), (4, 3), (4, 4)]);
}

#[test]
fn up_from_the_start_moves_head_to_3_3() {
    let mut game = GameState::new(20, 30);
    assert_eq!(game.head(), (4, 3));
    assert_eq!(game.process_keypress(arrow(Key::Up)), Status::Running);
    assert_eq!(game.head(), (3, 3));
}

#[test]
fn up_from_the_first_row_is_game_over() {
    let mut game = GameState::new(20, 30);
    for _ in 0..3 {
        assert_eq!(game.process_keypress(arrow(Key::Up)), Status::Running);
    }
    assert_eq!(game.head(), (1, 3));
    let body = game.snake().body().clone();
    assert_eq!(body, vec![(4, 3), (3, 3), (2, 3), (1, 3)]);
    assert_eq!(game.propose_step(Direction::Up), Outcome::OutOfBounds);
    let status = game.process_keypress(arrow(Key::Up));
    assert_eq!(status, Status::GameOver);
    assert_eq!(game.snake().body(), &body);
}

#[test]
fn up_from_the_first_row_is_game_over_in_every_column() {
    let height = 9;
    let width = 12;
    for column in 1..=(width - 2) {
        let mut game = GameState::new(height, width);
        // Walk along row 4 to the column, then up to row 1.
        while game.head().1 < column {
            assert_eq!(game.process_keypress(arrow(Key::Right)), Status::Running);
        }
        while game.head().1 > column {
            assert_eq!(game.process_keypress(arrow(Key::Left)), Status::Running);
        }
        while game.head().0 > 1 {
            assert_eq!(game.process_keypress(arrow(Key::Up)), Status::Running);
        }
        assert_eq!(game.head(), (1, column));
        let body = game.snake().body().clone();
        assert_eq!(game.process_keypress(arrow(Key::Up)), Status::GameOver);
        assert_eq!(game.snake().body(), &body);
        assert_eq!(game.head(), (1, column));
    }
}

#[test]
fn quit_ends_at_once_and_says_nothing() {
    let mut game = GameState::new(20, 30);
    let frame = game.render();
    let quit = KeyPress { key: Key::Char('q'), modifiers: Modifiers::control() };
    let status = game.process_keypress(quit);
    assert_eq!(status, Status::Quit);
    assert!(status.is_over());
    assert_eq!(status.farewell(), None);
    assert_eq!(game.snake().body(), &vec![(2, 2), (2, 3), (3, 3), (4, 3)]);
    assert_eq!(game.snake().direction(), Direction::Up);
    assert_eq!(game.render(), frame);
}

#[test]
fn running_into_the_border_says_game_over() {
    let mut game = GameState::new(6, 5);
    let status = game.process_keypress(arrow(Key::Down));
    assert_eq!(status, Status::GameOver);
    assert!(status.is_over());
    assert_eq!(status.farewell(), Some("Game, Over!"));
}

#[test]
fn a_walk_to_each_border() {
    // Down to the bottom border of a 20 by 30 board.
    let mut game = GameState::new(20, 30);
    let mut steps = 0;
    loop {
        match game.process_keypress(arrow(Key::Down)) {
            Status::Running => steps += 1,
            status => {
                assert_eq!(status, Status::GameOver);
                break;
            }
        }
    }
    assert_eq!(steps, 14);
    assert_eq!(game.head(), (18, 3));

    // Right to the right border.
    let mut game = GameState::new(20, 30);
    let mut steps = 0;
    while game.process_keypress(arrow(Key::Right)) == Status::Running {
        steps += 1;
    }
    assert_eq!(steps, 25);
    assert_eq!(game.head(), (4, 28));

    // Left to the left border.
    let mut game = GameState::new(20, 30);
    let mut steps = 0;
    while game.process_keypress(arrow(Key::Left)) == Status::Running {
        steps += 1;
    }
    assert_eq!(steps, 2);
    assert_eq!(game.head(), (4, 1));
}
