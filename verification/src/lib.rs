//! A turn-based snake game on a bordered grid.
//!
//! The crate holds the game's rules: how the snake is stored and moved, when a
//! move ends the game, how a key press becomes a move, and how a state is drawn
//! as a frame of characters. Reading keys and writing frames to a terminal is
//! left to the program that uses the crate.
//!
//! - [`grid`]: directions, cells, the border and what lies inside it.
//! - [`snake`]: the snake's cells and heading.
//! - [`input`]: key presses and the actions they stand for.
//! - [`game`]: the game state, steps, and what a key press does to it.
//! - [`render`]: the board as a grid of cells and as a frame of characters.
//! - [`game_loop`]: one turn, from a key press to what is to be done next.
//! - [`frame`]: where each cell stands in a frame.
//! - [`census`]: how often each character occurs in a frame.

pub mod census;
pub mod frame;
pub mod game;
pub mod game_loop;
pub mod grid;
pub mod input;
pub mod render;
pub mod snake;
