//! How often each character occurs in a drawn frame.

use vstd::prelude::*;
use vstd::seq_lib::{lemma_multiset_commutative, seq_to_set_is_finite, to_multiset_build};
use vstd::set_lib::{lemma_set_difference_len, lemma_set_disjoint_lens};
use crate::frame::lemma_mul_step;
use crate::game::GameView;
use crate::grid::in_interior;
use crate::render::{line_break, Cell};

verus! {

/// How often the character `c` occurs in `s`.
pub open spec fn occurrences(s: Seq<char>, c: char) -> nat {
    s.to_multiset().count(c)
}

/// The cells in rows `top` up to `bottom` and columns `left` up to `right`,
/// the upper bounds left out.
pub open spec fn block(top: int, bottom: int, left: int, right: int) -> Set<(int, int)> {
    Set::new(|p: (int, int)| top <= p.0 < bottom && left <= p.1 < right)
}

impl GameView {
    /// The cells in the first `n` rows of the board that are drawn as `c`.
    pub open spec fn drawn_as(self, c: char, n: int) -> Set<(int, int)> {
        Set::new(
            |p: (int, int)|
                0 <= p.0 < n && 0 <= p.1 < self.width && self.cell(p.0, p.1).glyph() == c,
        )
    }

    /// The cells in the first `m` columns of row `i` that are drawn as `c`.
    spec fn drawn_in_row(self, c: char, i: int, m: int) -> Set<(int, int)> {
        Set::new(|p: (int, int)| p.0 == i && 0 <= p.1 < m && self.cell(p.0, p.1).glyph() == c)
    }
}

/// Nothing occurs in the empty sequence.
proof fn lemma_empty_count(c: char)
    ensures
        occurrences(Seq::<char>::empty(), c) == 0,
{
    let nothing = Seq::<char>::empty();
    nothing.to_multiset_ensures();
    assert(nothing.to_multiset().count(c) <= nothing.to_multiset().len());
}

/// In the first `m` characters of row `i`, `c` occurs once for each cell that
/// is drawn as `c`.
proof fn lemma_row_count(g: GameView, c: char, i: int, m: nat)
    requires
        m <= g.width,
    ensures
        g.drawn_in_row(c, i, m as int).finite(),
        occurrences(g.row(i).take(m as int), c) == g.drawn_in_row(c, i, m as int).len(),
    decreases m,
{
    if m == 0 {
        lemma_empty_count(c);
        assert(g.row(i).take(0) =~= Seq::<char>::empty());
        assert(g.drawn_in_row(c, i, 0) =~= Set::<(int, int)>::empty());
    } else {
        let shorter = g.row(i).take(m - 1);
        let last = g.row(i)[m - 1];
        lemma_row_count(g, c, i, (m - 1) as nat);
        assert(g.row(i).take(m as int) =~= shorter.push(last));
        to_multiset_build(shorter, last);
        if last == c {
            assert(g.drawn_in_row(c, i, m as int) =~= g.drawn_in_row(c, i, m - 1).insert(
                (i, m - 1),
            ));
        } else {
            assert(g.drawn_in_row(c, i, m as int) =~= g.drawn_in_row(c, i, m - 1));
        }
    }
}

/// In the first `n` rows, drawn, a character other than those of the line
/// break occurs once for each cell that is drawn as it.
proof fn lemma_rows_count(g: GameView, c: char, n: nat)
    requires
        g.width >= 0,
        c != '\r',
        c != '\n',
    ensures
        g.drawn_as(c, n as int).finite(),
        occurrences(g.rows(n), c) == g.drawn_as(c, n as int).len(),
    decreases n,
{
    if n == 0 {
        lemma_empty_count(c);
        assert(g.drawn_as(c, 0) =~= Set::<(int, int)>::empty());
    } else {
        let earlier = g.drawn_as(c, n - 1);
        let last = g.drawn_in_row(c, n - 1, g.width);
        lemma_rows_count(g, c, (n - 1) as nat);
        lemma_row_count(g, c, n - 1, g.width as nat);
        assert(g.row(n - 1).take(g.width) =~= g.row(n - 1));
        assert(g.drawn_as(c, n as int) =~= earlier + last);
        assert(earlier.disjoint(last));
        lemma_set_disjoint_lens(earlier, last);
        if n == 1 {
            assert(earlier =~= Set::<(int, int)>::empty());
        } else {
            let above = g.rows((n - 1) as nat);
            lemma_multiset_commutative(above + line_break(), g.row(n - 1));
            lemma_multiset_commutative(above, line_break());
            assert(occurrences(line_break(), c) == 0) by {
                let cr = Seq::<char>::empty().push('\r');
                lemma_empty_count(c);
                assert(line_break() =~= cr.push('\n'));
                to_multiset_build(Seq::<char>::empty(), '\r');
                to_multiset_build(cr, '\n');
            }
        }
    }
}

/// In a frame, a character other than those of the line break occurs once for
/// each cell of the board that is drawn as it.
pub proof fn lemma_frame_count(g: GameView, c: char)
    requires
        g.wf(),
        c != '\r',
        c != '\n',
    ensures
        g.drawn_as(c, g.height).finite(),
        occurrences(g.frame(), c) == g.drawn_as(c, g.height).len(),
{
    lemma_rows_count(g, c, g.height as nat);
}

/// A frame shows the head exactly once if the head lies strictly inside the
/// border, and not at all if it lies on the border.
pub proof fn lemma_frame_shows_one_head(g: GameView)
    requires
        g.wf(),
    ensures
        in_interior(g.height, g.width, g.head()) ==> occurrences(g.frame(), Cell::Head.glyph())
            == 1,
        !in_interior(g.height, g.width, g.head()) ==> occurrences(g.frame(), Cell::Head.glyph())
            == 0,
{
    lemma_frame_count(g, 'X');
    if in_interior(g.height, g.width, g.head()) {
        assert(g.drawn_as('X', g.height) =~= Set::<(int, int)>::empty().insert(g.head()));
    } else {
        assert(g.drawn_as('X', g.height) =~= Set::<(int, int)>::empty());
    }
}

/// A frame of a snake that lies strictly inside the border shows as body, each
/// exactly once, the cells that the snake covers other than that of its head.
/// If the snake covers no cell twice, these are all its cells but one.
pub proof fn lemma_frame_shows_rest_of_body(g: GameView)
    requires
        g.wf(),
        g.contained(),
    ensures
        occurrences(g.frame(), Cell::Body.glyph()) == g.body.to_set().remove(g.head()).len(),
        g.body.no_duplicates() ==> occurrences(g.frame(), Cell::Body.glyph()) == g.body.len() - 1,
{
    lemma_frame_count(g, 'O');
    assert(g.body.contains(g.head())) by {
        assert(g.body[g.body.len() - 1] == g.head());
    }
    assert(g.drawn_as('O', g.height) =~= g.body.to_set().remove(g.head())) by {
        assert forall|p: (int, int)| g.body.contains(p) implies in_interior(
            g.height,
            g.width,
            p,
        ) by {
            let k = choose|k: int| 0 <= k < g.body.len() && g.body[k] == p;
            assert(in_interior(g.height, g.width, g.body[k]));
        }
    }
    if g.body.no_duplicates() {
        g.body.unique_seq_to_set();
    }
}

/// A stretch of one row has as many cells as it has columns.
proof fn lemma_stretch_len(row: int, left: int, right: int)
    requires
        left <= right,
    ensures
        block(row, row + 1, left, right).finite(),
        block(row, row + 1, left, right).len() == right - left,
    decreases right - left,
{
    if left < right {
        lemma_stretch_len(row, left, right - 1);
        assert(block(row, row + 1, left, right) =~= block(row, row + 1, left, right - 1).insert(
            (row, right - 1),
        ));
    } else {
        assert(block(row, row + 1, left, right) =~= Set::<(int, int)>::empty());
    }
}

/// A block has as many cells as its rows times its columns.
proof fn lemma_block_len(top: int, bottom: int, left: int, right: int)
    requires
        top <= bottom,
        left <= right,
    ensures
        block(top, bottom, left, right).finite(),
        block(top, bottom, left, right).len() == (bottom - top) * (right - left),
    decreases bottom - top,
{
    if top < bottom {
        let above = block(top, bottom - 1, left, right);
        let lowest = block(bottom - 1, bottom, left, right);
        lemma_block_len(top, bottom - 1, left, right);
        lemma_stretch_len(bottom - 1, left, right);
        assert(block(top, bottom, left, right) =~= above + lowest);
        assert(above.disjoint(lowest));
        lemma_set_disjoint_lens(above, lowest);
        lemma_mul_step(bottom - top, right - left);
    } else {
        assert(block(top, bottom, left, right) =~= Set::<(int, int)>::empty());
        lemma_mul_step(0, right - left);
    }
}

/// The border of a frame: four corners, the top and bottom row between them,
/// and the left and right column between them.
pub proof fn lemma_frame_border_count(g: GameView)
    requires
        g.wf(),
    ensures
        occurrences(g.frame(), Cell::Corner.glyph()) == 4,
        occurrences(g.frame(), Cell::Horizontal.glyph()) == 2 * (g.width - 2),
        occurrences(g.frame(), Cell::Vertical.glyph()) == 2 * (g.height - 2),
{
    let h = g.height;
    let w = g.width;
    lemma_frame_count(g, '+');
    assert(g.drawn_as('+', h) =~= Set::<(int, int)>::empty().insert((0, 0)).insert(
        (0, w - 1),
    ).insert((h - 1, 0)).insert((h - 1, w - 1)));

    let top = block(0, 1, 1, w - 1);
    let bottom = block(h - 1, h, 1, w - 1);
    lemma_frame_count(g, '-');
    lemma_stretch_len(0, 1, w - 1);
    lemma_stretch_len(h - 1, 1, w - 1);
    assert(g.drawn_as('-', h) =~= top + bottom);
    assert(top.disjoint(bottom));
    lemma_set_disjoint_lens(top, bottom);

    let left = block(1, h - 1, 0, 1);
    let right = block(1, h - 1, w - 1, w);
    lemma_frame_count(g, '|');
    lemma_block_len(1, h - 1, 0, 1);
    lemma_block_len(1, h - 1, w - 1, w);
    assert(g.drawn_as('|', h) =~= left + right);
    assert(left.disjoint(right));
    lemma_set_disjoint_lens(left, right);
}

/// The blanks of a frame are the cells inside the border that the snake does
/// not cover. With the snake strictly inside the border there are as many as
/// there are cells inside the border, less those the snake covers; if the
/// snake covers no cell twice, less its length.
pub proof fn lemma_frame_blank_count(g: GameView)
    requires
        g.wf(),
    ensures
        occurrences(g.frame(), Cell::Empty.glyph()) == block(
            1,
            g.height - 1,
            1,
            g.width - 1,
        ).difference(g.body.to_set()).len(),
        g.contained() ==> occurrences(g.frame(), Cell::Empty.glyph()) == (g.height - 2) * (g.width
            - 2) - g.body.to_set().len(),
        g.contained() && g.body.no_duplicates() ==> occurrences(g.frame(), Cell::Empty.glyph())
            == (g.height - 2) * (g.width - 2) - g.body.len(),
{
    let inside = block(1, g.height - 1, 1, g.width - 1);
    let covered = g.body.to_set();
    lemma_frame_count(g, ' ');
    assert(g.body.contains(g.head())) by {
        assert(g.body[g.body.len() - 1] == g.head());
    }
    assert(g.drawn_as(' ', g.height) =~= inside.difference(covered));
    if g.contained() {
        lemma_block_len(1, g.height - 1, 1, g.width - 1);
        seq_to_set_is_finite(g.body);
        lemma_set_difference_len(inside, covered);
        assert(inside.intersect(covered) =~= covered) by {
            assert forall|p: (int, int)| covered.contains(p) implies inside.contains(p) by {
                let k = choose|k: int| 0 <= k < g.body.len() && g.body[k] == p;
                assert(in_interior(g.height, g.width, g.body[k]));
            }
        }
        if g.body.no_duplicates() {
            g.body.unique_seq_to_set();
        }
    }
}

/// A frame holds one carriage return and one line feed for every row but the
/// first.
pub proof fn lemma_frame_line_break_count(g: GameView)
    requires
        g.wf(),
    ensures
        occurrences(g.frame(), '\r') == g.height - 1,
        occurrences(g.frame(), '\n') == g.height - 1,
{
    lemma_rows_line_break_count(g, g.height as nat);
}

/// The first `n` rows, drawn, hold one line break for every row but the first.
proof fn lemma_rows_line_break_count(g: GameView, n: nat)
    requires
        g.width >= 0,
        n >= 1,
    ensures
        occurrences(g.rows(n), '\r') == n - 1,
        occurrences(g.rows(n), '\n') == n - 1,
    decreases n,
{
    let last = g.row(n - 1);
    assert(last.take(g.width) =~= last);
    lemma_row_count(g, '\r', n - 1, g.width as nat);
    lemma_row_count(g, '\n', n - 1, g.width as nat);
    assert(g.drawn_in_row('\r', n - 1, g.width) =~= Set::<(int, int)>::empty());
    assert(g.drawn_in_row('\n', n - 1, g.width) =~= Set::<(int, int)>::empty());
    if n > 1 {
        let earlier = g.rows((n - 1) as nat);
        let cr = Seq::<char>::empty().push('\r');
        lemma_rows_line_break_count(g, (n - 1) as nat);
        lemma_multiset_commutative(earlier + line_break(), last);
        lemma_multiset_commutative(earlier, line_break());
        lemma_empty_count('\r');
        lemma_empty_count('\n');
        assert(line_break() =~= cr.push('\n'));
        to_multiset_build(Seq::<char>::empty(), '\r');
        to_multiset_build(cr, '\n');
    }
}

} // verus!
