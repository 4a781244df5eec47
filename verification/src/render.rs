//! Drawing a game state as a frame of characters.

use vstd::prelude::*;
use crate::game::{GameState, GameView};
use crate::grid::pos;

verus! {

/// What one cell of the board shows.
#[derive(Clone, Copy, Debug, PartialEq, Eq, Structural)]
pub enum Cell {
    /// One of the four corners of the border.
    Corner,
    /// A cell of the top or bottom border row that is no corner.
    Horizontal,
    /// A cell of the left or right border column that is no corner.
    Vertical,
    /// The snake's head.
    Head,
    /// A cell of the snake other than its head.
    Body,
    /// A cell inside the border that the snake does not cover.
    Empty,
}

impl Cell {
    /// The character a cell is drawn with.
    pub open spec fn glyph(self) -> char {
        match self {
            Cell::Corner => '+',
            Cell::Horizontal => '-',
            Cell::Vertical => '|',
            Cell::Head => 'X',
            Cell::Body => 'O',
            Cell::Empty => ' ',
        }
    }

    /// The character a cell is drawn with, as a string of length one.
    pub fn as_str(&self) -> (s: &'static str)
        ensures
            s@ == seq![self.glyph()],
    {
        proof {
            reveal_strlit("+");
            reveal_strlit("-");
            reveal_strlit("|");
            reveal_strlit("X");
            reveal_strlit("O");
            reveal_strlit(" ");
        }
        let s = match self {
            Cell::Corner => "+",
            Cell::Horizontal => "-",
            Cell::Vertical => "|",
            Cell::Head => "X",
            Cell::Body => "O",
            Cell::Empty => " ",
        };
        assert(s@ =~= seq![self.glyph()]);
        s
    }
}

/// What separates two rows of a frame: a carriage return and a line feed.
pub open spec fn line_break() -> Seq<char> {
    seq!['\r', '\n']
}

/// A grid of cells stored row by row, read as a sequence of rows.
pub open spec fn grid_of(stored: Seq<Vec<Cell>>) -> Seq<Seq<Cell>> {
    stored.map_values(|row: Vec<Cell>| row@)
}

impl GameView {
    /// What the cell in row `i` and column `j` shows. The border comes first:
    /// a cell of the border shows the border whatever the snake does. Inside
    /// the border the head comes before the rest of the body.
    pub open spec fn cell(self, i: int, j: int) -> Cell {
        let outer_row = i == 0 || i == self.height - 1;
        let outer_col = j == 0 || j == self.width - 1;
        if outer_row && outer_col {
            Cell::Corner
        } else if outer_row {
            Cell::Horizontal
        } else if outer_col {
            Cell::Vertical
        } else if (i, j) == self.head() {
            Cell::Head
        } else if self.body.contains((i, j)) {
            Cell::Body
        } else {
            Cell::Empty
        }
    }

    /// The board as a grid of cells: `height` rows of `width` cells each.
    pub open spec fn matrix(self) -> Seq<Seq<Cell>> {
        Seq::new(
            self.height as nat,
            |i: int| Seq::new(self.width as nat, |j: int| self.cell(i, j)),
        )
    }

    /// Row `i` of the board as characters, left to right.
    pub open spec fn row(self, i: int) -> Seq<char> {
        Seq::new(self.width as nat, |j: int| self.cell(i, j).glyph())
    }

    /// The first `n` rows of the board as characters, with a line break
    /// between each two rows and none before the first or after the last.
    pub open spec fn rows(self, n: nat) -> Seq<char>
        decreases n,
    {
        if n == 0 {
            Seq::empty()
        } else if n == 1 {
            self.row(0)
        } else {
            self.rows((n - 1) as nat) + line_break() + self.row(n - 1)
        }
    }

    /// The whole board as characters.
    pub open spec fn frame(self) -> Seq<char> {
        self.rows(self.height as nat)
    }
}

impl GameState {
    /// What the cell in row `i` and column `j` shows.
    pub fn cell_at(&self, i: usize, j: usize) -> (cell: Cell)
        requires
            self@.wf(),
            i < self@.height,
            j < self@.width,
        ensures
            cell == self@.cell(i as int, j as int),
    {
        let outer_row = i == 0 || i == self.height() - 1;
        let outer_col = j == 0 || j == self.width() - 1;
        if outer_row && outer_col {
            Cell::Corner
        } else if outer_row {
            Cell::Horizontal
        } else if outer_col {
            Cell::Vertical
        } else {
            let head = self.head();
            if head.0 == i && head.1 == j {
                Cell::Head
            } else if self.snake().occupies((i, j)) {
                Cell::Body
            } else {
                Cell::Empty
            }
        }
    }

    /// The board as a grid of cells, computed afresh from the board and the
    /// snake.
    pub fn board_matrix(&self) -> (matrix: Vec<Vec<Cell>>)
        requires
            self@.wf(),
        ensures
            grid_of(matrix@) == self@.matrix(),
    {
        let mut matrix: Vec<Vec<Cell>> = Vec::new();
        let mut i: usize = 0;
        while i < self.height()
            invariant
                self@.wf(),
                i <= self@.height,
                matrix@.len() == i,
                forall|k: int| 0 <= k < i ==> (#[trigger] matrix@[k])@ == self@.matrix()[k],
            decreases self@.height - i,
        {
            let mut row: Vec<Cell> = Vec::new();
            let mut j: usize = 0;
            while j < self.width()
                invariant
                    self@.wf(),
                    i < self@.height,
                    j <= self@.width,
                    row@.len() == j,
                    forall|k: int| 0 <= k < j ==> #[trigger] row@[k] == self@.cell(i as int, k),
                decreases self@.width - j,
            {
                row.push(self.cell_at(i, j));
                j += 1;
            }
            assert(row@ =~= self@.matrix()[i as int]);
            matrix.push(row);
            i += 1;
        }
        assert(grid_of(matrix@) =~= self@.matrix());
        matrix
    }

    /// Draws the board: one character for each cell, row by row, with a line
    /// break between each two rows. Corners are `+`, the top and bottom border
    /// `-`, the left and right border `|`, the head `X`, the rest of the snake
    /// `O`, and every other cell a blank.
    pub fn render(&self) -> (frame: String)
        requires
            self@.wf(),
        ensures
            frame@ == self@.frame(),
    {
        let matrix = self.board_matrix();
        let mut frame = String::new();
        let mut i: usize = 0;
        assert(matrix@.len() == grid_of(matrix@).len());
        while i < matrix.len()
            invariant
                i <= matrix@.len(),
                matrix@.len() == self@.height,
                grid_of(matrix@) == self@.matrix(),
                frame@ == self@.rows(i as nat),
            decreases matrix@.len() - i,
        {
            if i > 0 {
                proof {
                    reveal_strlit("\r\n");
                }
                frame.append("\r\n");
                assert(frame@ =~= self@.rows(i as nat) + line_break());
            }
            let ghost before = frame@;
            let row = &matrix[i];
            assert(row@ == grid_of(matrix@)[i as int]);
            let mut j: usize = 0;
            while j < row.len()
                invariant
                    j <= row@.len(),
                    i < self@.height,
                    row@ == self@.matrix()[i as int],
                    frame@ == before + self@.row(i as int).take(j as int),
                decreases row@.len() - j,
            {
                frame.append(row[j].as_str());
                assert(self@.row(i as int).take(j + 1) =~= self@.row(i as int).take(j as int).push(
                    self@.cell(i as int, j as int).glyph(),
                ));
                j += 1;
            }
            assert(self@.row(i as int).take(j as int) =~= self@.row(i as int));
            assert(frame@ == self@.rows((i + 1) as nat)) by {
                if i == 0 {
                    assert(before + self@.row(0) =~= self@.row(0));
                }
            }
            i += 1;
        }
        frame
    }
}

} // verus!
