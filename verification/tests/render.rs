use snake_game::game::{GameState, Status};
use snake_game::grid::Direction;
use snake_game::input::{Key, KeyPress, Modifiers};
use snake_game::render::Cell;

fn arrow(key: Key) -> KeyPress {
    KeyPress { key, modifiers: Modifiers::none() }
}

fn count(frame: &str, c: char) -> usize {
    frame.chars().filter(|x| *x == c).count()
}

#[test]
fn cell_strings_are_the_six_glyphs() {
    assert_eq!(Cell::Corner.as_str(), "+");
    assert_eq!(Cell::Horizontal.as_str(), "-");
    assert_eq!(Cell::Vertical.as_str(), "|");
    assert_eq!(Cell::Head.as_str(), "X");
    assert_eq!(Cell::Body.as_str(), "O");
    assert_eq!(Cell::Empty.as_str(), " ");
}

#[test]
fn cell_at_classifies_border_and_snake() {
    let game = GameState::new(6, 5);
    assert_eq!(game.cell_at(0, 0), Cell::Corner);
    assert_eq!(game.cell_at(0, 4), Cell::Corner);
    assert_eq!(game.cell_at(5, 0), Cell::Corner);
    assert_eq!(game.cell_at(5, 4), Cell::Corner);
    assert_eq!(game.cell_at(0, 1), Cell::Horizontal);
    assert_eq!(game.cell_at(5, 3), Cell::Horizontal);
    assert_eq!(game.cell_at(1, 0), Cell::Vertical);
    assert_eq!(game.cell_at(4, 4), Cell::Vertical);
    assert_eq!(game.cell_at(4, 3), Cell::Head);
    assert_eq!(game.cell_at(2, 2), Cell::Body);
    assert_eq!(game.cell_at(2, 3), Cell::Body);
    assert_eq!(game.cell_at(3, 3), Cell::Body);
    assert_eq!(game.cell_at(1, 1), Cell::Empty);
    assert_eq!(game.cell_at(3, 2), Cell::Empty);
    assert_eq!(game.cell_at(4, 1), Cell::Empty);
}

#[test]
fn board_matrix_of_smallest_board() {
    let (c, h, v) = (Cell::Corner, Cell::Horizontal, Cell::Vertical);
    let (x, b, e) = (Cell::Head, Cell::Body, Cell::Empty);
    let game = GameState::new(6, 5);
    let expected = vec![
        vec![c, h, h, h, c],
        vec![v, e, e, e, v],
        vec![v, e, b, b, v],
        vec![v, e, e, b, v],
        vec![v, e, e, x, v],
        vec![c, h, h, h, c],
    ];
    assert_eq!(game.board_matrix(), expected);
}

#[test]
fn board_matrix_has_board_dimensions() {
    let game = GameState::new(20, 30);
    let matrix = game.board_matrix();
    assert_eq!(matrix.len(), 20);
    for row in &matrix {
        assert_eq!(row.len(), 30);
    }
    for i in 0..20 {
        for j in 0..30 {
            assert_eq!(matrix[i][j], game.cell_at(i, j));
        }
    }
}

#[test]
fn render_smallest_board() {
    let game = GameState::new(6, 5);
    let expected = "+---+\r\n|   |\r\n| OO|\r\n|  O|\r\n|  X|\r\n+---+";
    assert_eq!(game.render(), expected);
}

#[test]
fn render_after_a_step() {
    let mut game = GameState::new(7, 8);
    assert_eq!(game.process_keypress(arrow(Key::Right)), Status::Running);
    let expected = [
        "+------+", "|      |", "|  O   |", "|  O   |", "|  OX  |", "|      |", "+------+",
    ]
    .join("\r\n");
    assert_eq!(game.render(), expected);
}

#[test]
fn render_starts_and_ends_without_line_break() {
    let frame = GameState::new(20, 30).render();
    assert!(frame.starts_with("+----------------------------+\r\n|"));
    assert!(frame.ends_with("|\r\n+----------------------------+"));
    assert_eq!(frame.split("\r\n").count(), 20);
    for line in frame.split("\r\n") {
        assert_eq!(line.chars().count(), 30);
    }
}

#[test]
fn render_counts_on_20_by_30() {
    let frame = GameState::new(20, 30).render();
    assert_eq!(frame.chars().count(), 20 * 30 + 2 * 19);
    assert_eq!(count(&frame, 'X'), 1);
    assert_eq!(count(&frame, 'O'), 3);
    assert_eq!(count(&frame, '+'), 4);
    assert_eq!(count(&frame, '-'), 2 * 28);
    assert_eq!(count(&frame, '|'), 2 * 18);
    assert_eq!(count(&frame, ' '), 18 * 28 - 4);
    assert_eq!(count(&frame, '\r'), 19);
    assert_eq!(count(&frame, '\n'), 19);
}

#[test]
fn render_puts_each_cell_at_its_place() {
    let game = GameState::new(9, 11);
    let frame: Vec<char> = game.render().chars().collect();
    let matrix = game.board_matrix();
    for i in 0..9 {
        for j in 0..11 {
            let expected = matrix[i][j].as_str().chars().next().unwrap();
            assert_eq!(frame[i * (11 + 2) + j], expected);
        }
        if i > 0 {
            assert_eq!(frame[i * (11 + 2) - 2], '\r');
            assert_eq!(frame[i * (11 + 2) - 1], '\n');
        }
    }
}

#[test]
fn render_is_the_same_for_the_same_state() {
    let mut first = GameState::new(20, 30);
    let mut second = GameState::new(20, 30);
    assert_eq!(first.render(), second.render());
    for key in [Key::Right, Key::Down, Key::Down, Key::Left] {
        first.process_keypress(arrow(key));
        second.process_keypress(arrow(key));
        assert_eq!(first.render(), second.render());
        assert_eq!(first.render(), first.render());
    }
}

#[test]
fn render_does_not_depend_on_the_heading() {
    let mut game = GameState::new(20, 30);
    let before = game.render();
    game.set_direction(Direction::Left);
    assert_eq!(game.render(), before);
}

#[test]
fn render_draws_head_over_body_when_the_snake_crosses_itself() {
    let mut game = GameState::new(6, 5);
    assert_eq!(game.process_keypress(arrow(Key::Up)), Status::Running);
    let frame = game.render();
    assert_eq!(frame, "+---+\r\n|   |\r\n|  O|\r\n|  X|\r\n|  O|\r\n+---+");
    assert_eq!(count(&frame, 'X'), 1);
    assert_eq!(count(&frame, 'O'), 2);
}

#[test]
fn render_draws_the_border_over_a_snake_put_on_it() {
    let mut game = GameState::new(6, 5);
    game.apply_step((5, 3));
    let frame = game.render();
    assert_eq!(frame, "+---+\r\n|   |\r\n|  O|\r\n|  O|\r\n|  O|\r\n+---+");
    assert_eq!(count(&frame, 'X'), 0);
}

#[test]
fn render_after_game_over_shows_the_last_position() {
    let mut game = GameState::new(6, 5);
    let before = game.render();
    assert_eq!(game.process_keypress(arrow(Key::Down)), Status::GameOver);
    assert_eq!(game.render(), before);
}
