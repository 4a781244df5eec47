//! The game state: a board, the snake on it, and the rules that move it.

use vstd::prelude::*;
use crate::grid::{in_interior, neighbour, on_board, pos, Direction};
use crate::input::{action_of, is_quit_chord, translate, Action, KeyPress};
use crate::snake::Snake;

verus! {

/// What a proposed step would lead to.
#[derive(Clone, Copy, Debug, PartialEq, Eq)]
pub enum Outcome {
    /// The step stays strictly inside the border; the cell is the new head.
    InBounds((usize, usize)),
    /// The step would land on the border or beyond it.
    OutOfBounds,
}

impl View for Outcome {
    type V = Option<(int, int)>;

    /// The new head as an integer pair, or `None` for a step out of bounds.
    open spec fn view(&self) -> Option<(int, int)> {
        match *self {
            Outcome::InBounds(cell) => Some(pos(cell)),
            Outcome::OutOfBounds => None,
        }
    }
}

/// How the game stands after a key press.
#[derive(Clone, Copy, Debug, PartialEq, Eq, Structural)]
pub enum Status {
    /// The game goes on.
    Running,
    /// The player has quit.
    Quit,
    /// The snake has run into the border.
    GameOver,
}

/// What is said to the player when the snake has run into the border.
pub open spec fn game_over_message() -> Seq<char> {
    "Game, Over!"@
}

impl Status {
    /// The game has ended, by the player's wish or at the border.
    pub open spec fn ended(self) -> bool {
        self != Status::Running
    }

    /// Whether the game has ended: no further key is to be read and no further
    /// frame drawn.
    pub fn is_over(&self) -> (over: bool)
        ensures
            over == self.ended(),
    {
        match self {
            Status::Running => false,
            Status::Quit => true,
            Status::GameOver => true,
        }
    }

    /// The parting words for the player. There are some only when the snake
    /// has run into the border: a player who quits is told nothing.
    pub fn farewell(&self) -> (message: Option<&'static str>)
        ensures
            *self == Status::GameOver ==> message is Some && message->0@ == game_over_message(),
            *self != Status::GameOver ==> message is None,
    {
        match self {
            Status::GameOver => Some("Game, Over!"),
            _ => None,
        }
    }
}

/// A board of `height` by `width` cells, border included, with a snake on it.
pub struct GameState {
    height: usize,
    width: usize,
    snake: Snake,
}

/// What a [`GameState`] stands for.
pub struct GameView {
    /// Rows of the board, the two border rows included.
    pub height: int,
    /// Columns of the board, the two border columns included.
    pub width: int,
    /// The snake's cells, oldest first; the last one is the head.
    pub body: Seq<(int, int)>,
    /// The direction of the last move asked for.
    pub heading: Direction,
}

/// The cells every game starts with, oldest first.
pub open spec fn initial_body() -> Seq<(int, int)> {
    seq![(2, 2), (2, 3), (3, 3), (4, 3)]
}

/// The state every game on a `height` by `width` board starts in.
pub open spec fn initial_view(height: int, width: int) -> GameView {
    GameView { height, width, body: initial_body(), heading: Direction::Up }
}

impl GameView {
    /// The board has cells inside its border, the snake has at least one cell,
    /// and every cell of the snake is a cell of the board.
    pub open spec fn wf(self) -> bool {
        &&& self.height >= 3
        &&& self.width >= 3
        &&& self.body.len() > 0
        &&& forall|i: int|
            0 <= i < self.body.len() ==> on_board(self.height, self.width, #[trigger] self.body[i])
    }

    /// Every cell of the snake lies strictly inside the border.
    pub open spec fn contained(self) -> bool {
        forall|i: int|
            0 <= i < self.body.len() ==> in_interior(
                self.height,
                self.width,
                #[trigger] self.body[i],
            )
    }

    /// The snake's head.
    pub open spec fn head(self) -> (int, int) {
        self.body.last()
    }

    /// The same state with heading `d`.
    pub open spec fn turn(self, d: Direction) -> GameView {
        GameView { heading: d, ..self }
    }

    /// Where a step in direction `d` would take the head: the neighbouring cell
    /// if it lies strictly inside the border, `None` if it does not.
    pub open spec fn propose(self, d: Direction) -> Option<(int, int)> {
        let target = neighbour(self.head(), d);
        if in_interior(self.height, self.width, target) {
            Some(target)
        } else {
            None
        }
    }

    /// The state after a step to `new_head`: the oldest cell is gone and
    /// `new_head` is the head.
    pub open spec fn apply(self, new_head: (int, int)) -> GameView {
        GameView { body: self.body.drop_first().push(new_head), ..self }
    }

    /// The state and status after a move in direction `d` is asked for. The
    /// heading becomes `d` in any case. If the step stays inside the border it
    /// is taken and the game goes on; if not, the body stays where it is and
    /// the game is over.
    pub open spec fn after_move(self, d: Direction) -> (GameView, Status) {
        let turned = self.turn(d);
        match turned.propose(d) {
            Some(new_head) => (turned.apply(new_head), Status::Running),
            None => (turned, Status::GameOver),
        }
    }

    /// The state and status after a key press.
    pub open spec fn after_key(self, press: KeyPress) -> (GameView, Status) {
        match action_of(press) {
            Action::Quit => (self, Status::Quit),
            Action::Move(d) => self.after_move(d),
            Action::Ignore => (self, Status::Running),
        }
    }
}

impl View for GameState {
    type V = GameView;

    closed spec fn view(&self) -> GameView {
        GameView {
            height: self.height as int,
            width: self.width as int,
            body: self.snake@.body,
            heading: self.snake@.heading,
        }
    }
}

impl GameState {
    /// A new game on a board of `height` by `width` cells. The snake starts on
    /// the cells `(2,2)`, `(2,3)`, `(3,3)`, `(4,3)`, the last being its head,
    /// and heads up. The board must be large enough to hold these cells inside
    /// its border.
    pub fn new(height: usize, width: usize) -> (game: GameState)
        requires
            height >= 6,
            width >= 5,
        ensures
            game@ == initial_view(height as int, width as int),
            game@.wf(),
            game@.contained(),
    {
        let mut body: Vec<(usize, usize)> = Vec::new();
        body.push((2, 2));
        body.push((2, 3));
        body.push((3, 3));
        body.push((4, 3));
        let snake = Snake::new(body, Direction::Up);
        assert(snake@.body =~= initial_body());
        GameState { height, width, snake }
    }

    /// Rows of the board, border included.
    pub fn height(&self) -> (height: usize)
        ensures
            height as int == self@.height,
    {
        self.height
    }

    /// Columns of the board, border included.
    pub fn width(&self) -> (width: usize)
        ensures
            width as int == self@.width,
    {
        self.width
    }

    /// The snake on the board.
    pub fn snake(&self) -> (snake: &Snake)
        ensures
            snake@.body == self@.body,
            snake@.heading == self@.heading,
    {
        &self.snake
    }

    /// Replaces the heading. The snake does not move.
    pub fn set_direction(&mut self, d: Direction)
        ensures
            final(self)@ == old(self)@.turn(d),
    {
        self.snake.set_direction(d);
    }

    /// The snake's head.
    pub fn head(&self) -> (head: (usize, usize))
        requires
            self@.body.len() > 0,
        ensures
            pos(head) == self@.head(),
    {
        self.snake.head()
    }

    /// Where a step in direction `d` would take the head. The state is not
    /// changed.
    pub fn propose_step(&self, d: Direction) -> (outcome: Outcome)
        requires
            self@.wf(),
        ensures
            outcome@ == self@.propose(d),
    {
        let (row, col) = self.snake.head();
        assert(on_board(self@.height, self@.width, self@.body[self@.body.len() - 1]));
        let target: (usize, usize) = match d {
            Direction::Up => {
                if row == 0 {
                    return Outcome::OutOfBounds;
                }
                (row - 1, col)
            },
            Direction::Down => (row + 1, col),
            Direction::Left => {
                if col == 0 {
                    return Outcome::OutOfBounds;
                }
                (row, col - 1)
            },
            Direction::Right => (row, col + 1),
        };
        let inside_rows: bool = 1 <= target.0 && target.0 <= self.height - 2;
        let inside_cols: bool = 1 <= target.1 && target.1 <= self.width - 2;
        if inside_rows && inside_cols {
            Outcome::InBounds(target)
        } else {
            Outcome::OutOfBounds
        }
    }

    /// Takes a step to `new_head`: the oldest cell is dropped and `new_head`
    /// becomes the head. The snake keeps its length.
    pub fn apply_step(&mut self, new_head: (usize, usize))
        requires
            old(self)@.wf(),
            on_board(old(self)@.height, old(self)@.width, pos(new_head)),
        ensures
            final(self)@ == old(self)@.apply(pos(new_head)),
            final(self)@.body.len() == old(self)@.body.len(),
            final(self)@.wf(),
            old(self)@.contained() && in_interior(
                old(self)@.height,
                old(self)@.width,
                pos(new_head),
            ) ==> final(self)@.contained(),
    {
        self.snake.take_step(new_head);
    }

    /// Handles one key press. The quit chord ends the game and changes nothing.
    /// An arrow key pressed alone sets the heading and asks for a step in that
    /// direction: the step is taken if it stays inside the border, and ends the
    /// game with the body unchanged if it does not. Any other key press changes
    /// nothing.
    pub fn process_keypress(&mut self, press: KeyPress) -> (status: Status)
        requires
            old(self)@.wf(),
        ensures
            (final(self)@, status) == old(self)@.after_key(press),
            final(self)@.wf(),
            old(self)@.contained() ==> final(self)@.contained(),
    {
        match translate(press) {
            Action::Quit => Status::Quit,
            Action::Move(d) => {
                self.set_direction(d);
                match self.propose_step(d) {
                    Outcome::InBounds(new_head) => {
                        self.apply_step(new_head);
                        Status::Running
                    },
                    Outcome::OutOfBounds => Status::GameOver,
                }
            },
            Action::Ignore => Status::Running,
        }
    }
}

/// Whether a step in direction `d` from `head` leaves the cells strictly inside
/// the border of a `height` by `width` board, given that `head` is one of them:
/// the head stands next to the border and the step goes towards it.
pub open spec fn steps_outward(height: int, width: int, head: (int, int), d: Direction) -> bool {
    match d {
        Direction::Up => head.0 == 1,
        Direction::Down => head.0 == height - 2,
        Direction::Left => head.1 == 1,
        Direction::Right => head.1 == width - 2,
    }
}

/// Two outcomes that stand for the same result are the same outcome.
pub proof fn lemma_outcome_view_injective(a: Outcome, b: Outcome)
    requires
        a@ == b@,
    ensures
        a == b,
{
}

/// The starting snake lies strictly inside the border exactly on boards of at
/// least 6 rows and 5 columns, and on those the starting state is well formed.
pub proof fn lemma_initial_view_contained(height: int, width: int)
    ensures
        initial_view(height, width).contained() <==> height >= 6 && width >= 5,
        height >= 6 && width >= 5 ==> initial_view(height, width).wf(),
{
    let g = initial_view(height, width);
    if g.contained() {
        assert(in_interior(height, width, g.body[3]));
        assert(in_interior(height, width, g.body[1]));
    }
}

/// What a proposed step leads to depends on the head, the direction and the
/// size of the board, and on nothing else: two states that agree on these get
/// the same answer.
pub proof fn lemma_propose_depends_on_head_and_board(a: GameView, b: GameView, d: Direction)
    requires
        a.head() == b.head(),
        a.height == b.height,
        a.width == b.width,
    ensures
        a.propose(d) == b.propose(d),
{
}

/// The border test is exact. From a head strictly inside the border, a step is
/// out of bounds exactly when the head stands next to the border and the step
/// goes towards it; every other step is in bounds and leads to the
/// neighbouring cell.
pub proof fn lemma_propose_exact(g: GameView, d: Direction)
    requires
        g.wf(),
        in_interior(g.height, g.width, g.head()),
    ensures
        g.propose(d) is None <==> steps_outward(g.height, g.width, g.head(), d),
        !steps_outward(g.height, g.width, g.head(), d) ==> g.propose(d) == Some(
            neighbour(g.head(), d),
        ),
{
}

/// A step keeps the length of the snake, shifts every cell but the oldest one
/// place towards the front, and makes `new_head` the head.
pub proof fn lemma_apply_keeps_length(g: GameView, new_head: (int, int))
    requires
        g.body.len() > 0,
    ensures
        g.apply(new_head).body.len() == g.body.len(),
        g.apply(new_head).head() == new_head,
        forall|i: int| 0 <= i < g.body.len() - 1 ==> g.apply(new_head).body[i] == g.body[i + 1],
{
}

/// A key press never changes the board or the length of the snake, and it
/// keeps a well-formed state well formed.
pub proof fn lemma_after_key_keeps_shape(g: GameView, press: KeyPress)
    requires
        g.wf(),
    ensures
        g.after_key(press).0.wf(),
        g.after_key(press).0.height == g.height,
        g.after_key(press).0.width == g.width,
        g.after_key(press).0.body.len() == g.body.len(),
{
}

/// A snake that lies strictly inside the border still does so after any key
/// press.
pub proof fn lemma_after_key_keeps_contained(g: GameView, press: KeyPress)
    requires
        g.wf(),
        g.contained(),
    ensures
        g.after_key(press).0.contained(),
{
}

/// How a key press ends the game: the player has quit exactly when the press
/// is the quit chord, and the game is over exactly when the press asks for a
/// step that is out of bounds. Either way the body has not changed.
pub proof fn lemma_after_key_status(g: GameView, press: KeyPress)
    ensures
        g.after_key(press).1 == Status::Quit <==> is_quit_chord(press),
        g.after_key(press).1 == Status::GameOver <==> (action_of(press) matches Action::Move(d)
            && g.propose(d) is None),
        g.after_key(press).1 != Status::Running ==> g.after_key(press).0.body == g.body,
{
}

/// With the head in the first row inside the border, asking for a step up
/// ends the game and leaves the body as it was.
pub proof fn lemma_up_from_first_row_ends_game(g: GameView, press: KeyPress)
    requires
        g.head().0 == 1,
        action_of(press) == Action::Move(Direction::Up),
    ensures
        g.propose(Direction::Up) is None,
        g.after_key(press).1 == Status::GameOver,
        g.after_key(press).0.body == g.body,
{
}

/// The quit chord ends the game at once, whatever the state: the state is left
/// as it was and the status is that of a player who quit, not that of a lost
/// game.
pub proof fn lemma_quit_changes_nothing(g: GameView, press: KeyPress)
    requires
        is_quit_chord(press),
    ensures
        g.after_key(press) == (g, Status::Quit),
        Status::Quit.ended(),
{
}

} // verus!
