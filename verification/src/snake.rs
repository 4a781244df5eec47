//! The snake: an ordered run of cells with a heading.

use vstd::prelude::*;
use crate::grid::{cells, pos, Direction};

verus! {

/// The snake's body, oldest cell first, and the direction it last took.
///
/// The last cell of the body is the head.
pub struct Snake {
    body: Vec<(usize, usize)>,
    direction: Direction,
}

/// What a [`Snake`] stands for: its cells as integer pairs, oldest first, and
/// its heading.
pub struct SnakeView {
    /// The cells, oldest first; the last one is the head.
    pub body: Seq<(int, int)>,
    /// The direction of the last move asked for.
    pub heading: Direction,
}

impl View for Snake {
    type V = SnakeView;

    closed spec fn view(&self) -> SnakeView {
        SnakeView { body: cells(self.body@), heading: self.direction }
    }
}

impl Snake {
    /// A snake with the given cells, oldest first, heading in `direction`.
    pub fn new(body: Vec<(usize, usize)>, direction: Direction) -> (snake: Snake)
        ensures
            snake@.body == cells(body@),
            snake@.heading == direction,
    {
        Snake { body, direction }
    }

    /// Moves the snake one cell: the oldest cell is dropped and `position`
    /// becomes the new head. The length stays the same.
    pub fn take_step(&mut self, position: (usize, usize))
        requires
            old(self)@.body.len() > 0,
        ensures
            final(self)@.body == old(self)@.body.drop_first().push(pos(position)),
            final(self)@.body.len() == old(self)@.body.len(),
            final(self)@.heading == old(self)@.heading,
    {
        self.body.remove(0);
        self.body.push(position);
        assert(cells(self.body@) =~= cells(old(self).body@).drop_first().push(pos(position)));
    }

    /// Replaces the heading. The body is left as it is.
    pub fn set_direction(&mut self, direction: Direction)
        ensures
            final(self)@.heading == direction,
            final(self)@.body == old(self)@.body,
    {
        self.direction = direction;
    }

    /// The head: the last cell of the body.
    pub fn head(&self) -> (head: (usize, usize))
        requires
            self@.body.len() > 0,
        ensures
            pos(head) == self@.body.last(),
    {
        self.body[self.body.len() - 1]
    }

    /// The snake's cells, oldest first.
    pub fn body(&self) -> (body: &Vec<(usize, usize)>)
        ensures
            cells(body@) == self@.body,
    {
        &self.body
    }

    /// The direction of the last move asked for.
    pub fn direction(&self) -> (direction: Direction)
        ensures
            direction == self@.heading,
    {
        self.direction
    }

    /// Whether `cell` is one of the snake's cells.
    pub fn occupies(&self, cell: (usize, usize)) -> (found: bool)
        ensures
            found == self@.body.contains(pos(cell)),
    {
        let mut k: usize = 0;
        while k < self.body.len()
            invariant
                k <= self.body.len(),
                forall|m: int| 0 <= m < k ==> pos(#[trigger] self.body@[m]) != pos(cell),
            decreases self.body.len() - k,
        {
            let c = self.body[k];
            if c.0 == cell.0 && c.1 == cell.1 {
                assert(cells(self.body@)[k as int] == pos(cell));
                return true;
            }
            k += 1;
        }
        false
    }
}

} // verus!
