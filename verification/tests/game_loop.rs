use snake_game::game::GameState;
use snake_game::game_loop::Next;
use snake_game::grid::Direction;
use snake_game::input::{Key, KeyPress, Modifiers};

fn arrow(key: Key) -> KeyPress {
    KeyPress { key, modifiers: Modifiers::none() }
}

fn quit() -> KeyPress {
    KeyPress { key: Key::Char('q'), modifiers: Modifiers::control() }
}

#[test]
fn tick_draws_the_new_state_after_a_step() {
    let mut game = GameState::new(7, 8);
    let next = game.tick(arrow(Key::Right));
    let expected = [
        "+------+", "|      |", "|  O   |", "|  O   |", "|  OX  |", "|      |", "+------+",
    ]
    .join("\r\n");
    assert_eq!(next, Next::Draw(expected));
    assert_eq!(game.snake().body(), &vec![(2, 3), (3, 3), (4, 3), (4, 4)]);
    assert_eq!(game.snake().direction(), Direction::Right);
}

#[test]
fn tick_draws_the_same_state_after_an_ignored_key() {
    let mut game = GameState::new(6, 5);
    let before = game.render();
    let next = game.tick(KeyPress { key: Key::Other, modifiers: Modifiers::none() });
    assert_eq!(next, Next::Draw(before));
    let next = game.tick(KeyPress { key: Key::Up, modifiers: Modifiers::control() });
    assert_eq!(next, Next::Draw(game.render()));
    assert_eq!(game.snake().body(), &vec![(2, 2), (2, 3), (3, 3), (4, 3)]);
}

#[test]
fn tick_leaves_without_a_word_on_quit() {
    let mut game = GameState::new(20, 30);
    assert_eq!(game.tick(quit()), Next::Leave(None));
    assert_eq!(game.snake().body(), &vec![(2, 2), (2, 3), (3, 3), (4, 3)]);
    assert_eq!(game.snake().direction(), Direction::Up);
}

#[test]
fn tick_leaves_without_a_word_on_quit_after_moves() {
    let mut game = GameState::new(20, 30);
    assert!(matches!(game.tick(arrow(Key::Down)), Next::Draw(_)));
    assert!(matches!(game.tick(arrow(Key::Left)), Next::Draw(_)));
    let body = game.snake().body().clone();
    assert_eq!(game.tick(quit()), Next::Leave(None));
    assert_eq!(game.snake().body(), &body);
}

#[test]
fn tick_leaves_with_game_over_at_the_border() {
    let mut game = GameState::new(6, 5);
    assert_eq!(game.tick(arrow(Key::Right)), Next::Leave(Some("Game, Over!")));
    assert_eq!(game.snake().body(), &vec![(2, 2), (2, 3), (3, 3), (4, 3)]);
    assert_eq!(game.snake().direction(), Direction::Right);
}

#[test]
fn tick_plays_a_whole_game() {
    let mut game = GameState::new(8, 8);
    let keys = [Key::Right, Key::Right, Key::Up, Key::Up, Key::Up];
    for key in keys {
        match game.tick(arrow(key)) {
            Next::Draw(frame) => assert_eq!(frame, game.render()),
            Next::Leave(_) => panic!("the game ended too early"),
        }
    }
    assert_eq!(game.head(), (1, 5));
    assert_eq!(game.tick(arrow(Key::Up)), Next::Leave(Some("Game, Over!")));
    assert_eq!(game.head(), (1, 5));
}
