//! Where each cell of the board stands in a drawn frame, and what a frame
//! depends on.

use vstd::prelude::*;
use vstd::arithmetic::div_mod::{lemma_fundamental_div_mod, lemma_mod_bound};
use vstd::arithmetic::mul::lemma_mul_is_commutative;
use crate::game::GameView;
use crate::grid::{in_interior, on_border, Direction};

verus! {

/// Where the cell in row `i` and column `j` stands in the frame of a board
/// `width` cells wide: every row before it takes `width` characters and a line
/// break of two.
pub open spec fn frame_index(width: int, i: int, j: int) -> int {
    i * (width + 2) + j
}

/// Multiplying one more, or one less, adds or takes away the other factor.
pub(crate) proof fn lemma_mul_step(a: int, b: int)
    ensures
        (a + 1) * b == a * b + b,
        (a - 1) * b == a * b - b,
{
    assert((a + 1) * b == a * b + b) by (nonlinear_arith);
    assert((a - 1) * b == a * b - b) by (nonlinear_arith);
}

/// Multiplying by a factor that is not negative keeps the order.
proof fn lemma_mul_monotone(a: int, b: int, c: int)
    requires
        a <= b,
        c >= 0,
    ensures
        a * c <= b * c,
{
    assert(a * c <= b * c) by (nonlinear_arith)
        requires
            a <= b,
            c >= 0,
    ;
}

/// The first `n` rows, drawn, take `width` characters each and a line break of
/// two between each two of them.
proof fn lemma_rows_len(g: GameView, n: nat)
    requires
        g.width >= 0,
        n >= 1,
    ensures
        g.rows(n).len() == n * (g.width + 2) - 2,
    decreases n,
{
    if n > 1 {
        lemma_rows_len(g, (n - 1) as nat);
        lemma_mul_step(n as int, g.width + 2);
    }
}

/// In the first `n` rows, drawn, the cell in row `i` and column `j` stands at
/// its frame index.
proof fn lemma_rows_index(g: GameView, n: nat, i: int, j: int)
    requires
        0 <= i < n,
        0 <= j < g.width,
    ensures
        0 <= frame_index(g.width, i, j) < g.rows(n).len(),
        g.rows(n)[frame_index(g.width, i, j)] == g.cell(i, j).glyph(),
    decreases n,
{
    let w = g.width + 2;
    lemma_rows_len(g, n);
    lemma_mul_monotone(0, i, w);
    lemma_mul_monotone(i + 1, n as int, w);
    lemma_mul_step(i, w);
    if n > 1 {
        let earlier = g.rows((n - 1) as nat);
        lemma_rows_len(g, (n - 1) as nat);
        lemma_mul_step(n as int, w);
        if i < n - 1 {
            lemma_rows_index(g, (n - 1) as nat, i, j);
        } else {
            assert(frame_index(g.width, i, j) == earlier.len() + 2 + j);
        }
    }
}

/// In the first `n` rows, drawn, a line break stands before every row but the
/// first.
proof fn lemma_rows_line_break(g: GameView, n: nat, i: int)
    requires
        g.width >= 0,
        1 <= i < n,
    ensures
        0 <= frame_index(g.width, i, 0) - 2,
        frame_index(g.width, i, 0) - 1 < g.rows(n).len(),
        g.rows(n)[frame_index(g.width, i, 0) - 2] == '\r',
        g.rows(n)[frame_index(g.width, i, 0) - 1] == '\n',
    decreases n,
{
    let w = g.width + 2;
    lemma_rows_len(g, n);
    lemma_rows_len(g, (n - 1) as nat);
    lemma_mul_monotone(1, i, w);
    lemma_mul_monotone(i, n - 1, w);
    lemma_mul_step(n as int, w);
    if i < n - 1 {
        lemma_rows_line_break(g, (n - 1) as nat, i);
        lemma_mul_monotone(i + 1, n - 1, w);
        lemma_mul_step(i, w);
    }
}

/// A frame is a rectangle: it has one character for each cell of the board and
/// a line break between each two rows, and the cell in row `i` and column `j`
/// is drawn at its frame index.
pub proof fn lemma_frame_layout(g: GameView, i: int, j: int)
    requires
        g.wf(),
        0 <= i < g.height,
        0 <= j < g.width,
    ensures
        g.frame().len() == g.height * g.width + 2 * (g.height - 1),
        0 <= frame_index(g.width, i, j) < g.frame().len(),
        g.frame()[frame_index(g.width, i, j)] == g.cell(i, j).glyph(),
{
    lemma_rows_len(g, g.height as nat);
    lemma_rows_index(g, g.height as nat, i, j);
    assert(g.height * (g.width + 2) == g.height * g.width + 2 * g.height) by (nonlinear_arith);
}

/// The two characters before every row of a frame but the first are a carriage
/// return and a line feed.
pub proof fn lemma_frame_line_breaks(g: GameView, i: int)
    requires
        g.wf(),
        1 <= i < g.height,
    ensures
        0 <= frame_index(g.width, i, 0) - 2,
        frame_index(g.width, i, 0) - 1 < g.frame().len(),
        g.frame()[frame_index(g.width, i, 0) - 2] == '\r',
        g.frame()[frame_index(g.width, i, 0) - 1] == '\n',
{
    lemma_rows_line_break(g, g.height as nat, i);
}

/// Every character of a frame is the drawing of a cell or part of a line
/// break: counting from the start in runs of `width + 2`, the first `width`
/// characters of a run are a row of the board and the last two a line break.
pub proof fn lemma_frame_char_at(g: GameView, k: int)
    requires
        g.wf(),
        0 <= k < g.frame().len(),
    ensures
        0 <= k / (g.width + 2) < g.height,
        0 <= k % (g.width + 2) < g.width + 2,
        k % (g.width + 2) < g.width ==> g.frame()[k] == g.cell(
            k / (g.width + 2),
            k % (g.width + 2),
        ).glyph(),
        k % (g.width + 2) == g.width ==> g.frame()[k] == '\r',
        k % (g.width + 2) == g.width + 1 ==> g.frame()[k] == '\n',
{
    let w = g.width + 2;
    let i = k / w;
    let j = k % w;
    lemma_rows_len(g, g.height as nat);
    lemma_fundamental_div_mod(k, w);
    lemma_mod_bound(k, w);
    assert(k == i * w + j) by {
        lemma_mul_is_commutative(w, i);
    }
    if i < 0 {
        lemma_mul_monotone(i, -1, w);
        lemma_mul_step(0, w);
    }
    if i >= g.height {
        lemma_mul_monotone(g.height, i, w);
    }
    if j < g.width {
        lemma_frame_layout(g, i, j);
    } else {
        lemma_mul_step(i, w);
        if i + 1 >= g.height {
            lemma_mul_monotone(g.height, i + 1, w);
        }
        lemma_frame_line_breaks(g, i + 1);
    }
}

/// What each cell of the board shows: the border is drawn on the border and
/// nowhere else, the head where the head is, the rest of the snake on its
/// other cells, and every other cell is blank.
pub proof fn lemma_cell_glyphs(g: GameView, i: int, j: int)
    requires
        g.wf(),
        0 <= i < g.height,
        0 <= j < g.width,
    ensures
        on_border(g.height, g.width, (i, j)) <==> (g.cell(i, j).glyph() == '+' || g.cell(
            i,
            j,
        ).glyph() == '-' || g.cell(i, j).glyph() == '|'),
        g.cell(i, j).glyph() == '+' <==> (i == 0 || i == g.height - 1) && (j == 0 || j == g.width
            - 1),
        g.cell(i, j).glyph() == '-' <==> (i == 0 || i == g.height - 1) && 0 < j < g.width - 1,
        g.cell(i, j).glyph() == '|' <==> 0 < i < g.height - 1 && (j == 0 || j == g.width - 1),
        g.cell(i, j).glyph() == 'X' <==> in_interior(g.height, g.width, (i, j)) && (i, j)
            == g.head(),
        g.cell(i, j).glyph() == 'O' <==> in_interior(g.height, g.width, (i, j)) && (i, j)
            != g.head() && g.body.contains((i, j)),
        g.cell(i, j).glyph() == ' ' <==> in_interior(g.height, g.width, (i, j))
            && !g.body.contains((i, j)),
{
    assert(g.body.contains(g.head())) by {
        assert(g.body[g.body.len() - 1] == g.head());
    }
}

/// A frame depends on the size of the board and on the cells of the snake, and
/// on nothing else: two states that agree on these are drawn alike.
pub proof fn lemma_frame_depends_on_board_and_body(a: GameView, b: GameView)
    requires
        a.height == b.height,
        a.width == b.width,
        a.body == b.body,
    ensures
        a.frame() == b.frame(),
{
    lemma_rows_agree(a, b, a.height as nat);
}

/// The first `n` rows of two states that agree on board and body are drawn
/// alike.
proof fn lemma_rows_agree(a: GameView, b: GameView, n: nat)
    requires
        a.height == b.height,
        a.width == b.width,
        a.body == b.body,
    ensures
        a.rows(n) == b.rows(n),
    decreases n,
{
    if n > 0 {
        lemma_rows_agree(a, b, (n - 1) as nat);
        assert(a.row(n - 1) =~= b.row(n - 1));
    }
}

/// Turning the snake does not change the frame.
pub proof fn lemma_frame_ignores_heading(g: GameView, d: Direction)
    ensures
        g.turn(d).frame() == g.frame(),
{
    lemma_frame_depends_on_board_and_body(g.turn(d), g);
}

} // verus!
