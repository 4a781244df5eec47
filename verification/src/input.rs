//! From a key press to what the game does with it.

use vstd::prelude::*;
use crate::grid::Direction;

verus! {

/// The key of a key press, as far as the game tells keys apart.
#[derive(Clone, Copy, Debug, PartialEq, Eq, Structural)]
pub enum Key {
    /// A key that produces a character.
    Char(char),
    /// The up arrow.
    Up,
    /// The down arrow.
    Down,
    /// The left arrow.
    Left,
    /// The right arrow.
    Right,
    /// Any other key.
    Other,
}

/// The modifier keys held during a key press.
#[derive(Clone, Copy, Debug, PartialEq, Eq, Structural)]
pub struct Modifiers {
    pub shift: bool,
    pub control: bool,
    pub alt: bool,
    pub super_key: bool,
    pub hyper: bool,
    pub meta: bool,
}

/// One key press: a key and the modifiers held with it.
#[derive(Clone, Copy, Debug, PartialEq, Eq, Structural)]
pub struct KeyPress {
    pub key: Key,
    pub modifiers: Modifiers,
}

/// What the game does with a key press.
#[derive(Clone, Copy, Debug, PartialEq, Eq, Structural)]
pub enum Action {
    /// Leave the game at the player's wish.
    Quit,
    /// Turn to the direction and take one step.
    Move(Direction),
    /// Do nothing.
    Ignore,
}

impl Modifiers {
    /// No modifier key is held.
    pub open spec fn none_held(self) -> bool {
        !self.shift && !self.control && !self.alt && !self.super_key && !self.hyper && !self.meta
    }

    /// The control key is held and no other modifier key is.
    pub open spec fn only_control_held(self) -> bool {
        self.control && !self.shift && !self.alt && !self.super_key && !self.hyper && !self.meta
    }

    /// The modifiers of a key pressed alone.
    pub fn none() -> (m: Modifiers)
        ensures
            m.none_held(),
    {
        Modifiers {
            shift: false,
            control: false,
            alt: false,
            super_key: false,
            hyper: false,
            meta: false,
        }
    }

    /// The modifiers of a key pressed with the control key and nothing else.
    pub fn control() -> (m: Modifiers)
        ensures
            m.only_control_held(),
    {
        Modifiers {
            shift: false,
            control: true,
            alt: false,
            super_key: false,
            hyper: false,
            meta: false,
        }
    }

    /// Whether no modifier key is held.
    pub fn is_none(&self) -> (b: bool)
        ensures
            b == self.none_held(),
    {
        !self.shift && !self.control && !self.alt && !self.super_key && !self.hyper && !self.meta
    }

    /// Whether the control key is held and no other modifier key is.
    pub fn is_control_only(&self) -> (b: bool)
        ensures
            b == self.only_control_held(),
    {
        self.control && !self.shift && !self.alt && !self.super_key && !self.hyper && !self.meta
    }
}

/// The direction an arrow key stands for; `None` for every other key.
pub open spec fn arrow(key: Key) -> Option<Direction> {
    match key {
        Key::Up => Some(Direction::Up),
        Key::Down => Some(Direction::Down),
        Key::Left => Some(Direction::Left),
        Key::Right => Some(Direction::Right),
        _ => None,
    }
}

/// The quit chord: the character `q` with the control key and no other
/// modifier.
pub open spec fn is_quit_chord(press: KeyPress) -> bool {
    press.key == Key::Char('q') && press.modifiers.only_control_held()
}

/// The action a key press stands for. The quit chord quits, an arrow key
/// pressed alone moves, and everything else is ignored; an arrow key pressed
/// with a modifier is ignored too.
pub open spec fn action_of(press: KeyPress) -> Action {
    if is_quit_chord(press) {
        Action::Quit
    } else if press.modifiers.none_held() && arrow(press.key) is Some {
        Action::Move(arrow(press.key)->0)
    } else {
        Action::Ignore
    }
}

/// Which key presses stand for which action: only the quit chord quits, and
/// only an arrow key pressed with no modifier moves, in the arrow's direction.
pub proof fn lemma_action_of_exact(press: KeyPress, d: Direction)
    ensures
        action_of(press) == Action::Quit <==> is_quit_chord(press),
        action_of(press) == Action::Move(d) <==> press.modifiers.none_held() && arrow(press.key)
            == Some(d),
        action_of(press) == Action::Ignore <==> !is_quit_chord(press) && !(
        press.modifiers.none_held() && arrow(press.key) is Some),
{
}

/// Translates a key press into the action it stands for.
pub fn translate(press: KeyPress) -> (action: Action)
    ensures
        action == action_of(press),
{
    match press.key {
        Key::Char(c) => {
            if c == 'q' && press.modifiers.is_control_only() {
                Action::Quit
            } else {
                Action::Ignore
            }
        },
        Key::Up => move_if_unmodified(press.modifiers, Direction::Up),
        Key::Down => move_if_unmodified(press.modifiers, Direction::Down),
        Key::Left => move_if_unmodified(press.modifiers, Direction::Left),
        Key::Right => move_if_unmodified(press.modifiers, Direction::Right),
        Key::Other => Action::Ignore,
    }
}

/// A move in `direction` when no modifier is held, and nothing otherwise.
fn move_if_unmodified(modifiers: Modifiers, direction: Direction) -> (action: Action)
    ensures
        action == if modifiers.none_held() {
            Action::Move(direction)
        } else {
            Action::Ignore
        },
{
    if modifiers.is_none() {
        Action::Move(direction)
    } else {
        Action::Ignore
    }
}

} // verus!
