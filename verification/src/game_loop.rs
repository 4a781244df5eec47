//! One turn of the game loop: from a key press to what is to be done next.

use vstd::prelude::*;
use crate::game::{game_over_message, GameState, GameView, Status};
use crate::input::{is_quit_chord, KeyPress};

verus! {

/// What the program that runs the game is to do after a key press.
#[derive(Debug, PartialEq, Eq)]
pub enum Next {
    /// Draw this frame, then wait for the next key press.
    Draw(String),
    /// Leave the game. If there are parting words, say them to the player.
    Leave(Option<&'static str>),
}

impl GameView {
    /// Whether `next` is what is to be done when a key press has led to this
    /// state with this status. While the game goes on, the frame of the state
    /// is drawn. When the player has quit, the game is left without a word and
    /// nothing is drawn. When the snake has run into the border, the game is
    /// left with the parting words and nothing is drawn.
    pub open spec fn calls_for(self, status: Status, next: Next) -> bool {
        match status {
            Status::Running => next matches Next::Draw(frame) && frame@ == self.frame(),
            Status::Quit => next matches Next::Leave(None),
            Status::GameOver => next matches Next::Leave(Some(words)) && words@
                == game_over_message(),
        }
    }
}

impl GameState {
    /// Plays one turn: handles the key press as [`GameState::process_keypress`]
    /// does, and says what is to be done next.
    pub fn tick(&mut self, press: KeyPress) -> (next: Next)
        requires
            old(self)@.wf(),
        ensures
            final(self)@ == old(self)@.after_key(press).0,
            final(self)@.calls_for(old(self)@.after_key(press).1, next),
            final(self)@.wf(),
            old(self)@.contained() ==> final(self)@.contained(),
    {
        let status = self.process_keypress(press);
        if status.is_over() {
            Next::Leave(status.farewell())
        } else {
            Next::Draw(self.render())
        }
    }
}

/// The quit chord ends the game at once, whatever the state: the state stays
/// as it was, nothing more is drawn, and the player is told nothing.
pub proof fn lemma_quit_leaves_without_a_word(g: GameView, press: KeyPress, next: Next)
    requires
        is_quit_chord(press),
        g.after_key(press).0.calls_for(g.after_key(press).1, next),
    ensures
        g.after_key(press).0 == g,
        next == Next::Leave(None),
{
}

/// A frame is drawn after a key press exactly when the game goes on, and the
/// parting words are said exactly when the snake has run into the border.
pub proof fn lemma_next_by_status(g: GameView, status: Status, next: Next)
    requires
        g.calls_for(status, next),
    ensures
        next is Draw <==> status == Status::Running,
        next is Leave <==> status.ended(),
        next matches Next::Leave(Some(_)) <==> status == Status::GameOver,
{
}

} // verus!
