//! Tic-tac-toe on the standard 3×3 grid: the rules of play, the state of a
//! game, and a computer opponent with three levels of skill.
//!
//! The game itself is kept by the `open_ttt_lib` engine. Every fact this
//! crate states about a game is stated over a mathematical model of it, the
//! nine cells in row-major order and the status of play, and every function
//! here is verified against that model.

pub mod board;
pub mod cell;
pub mod engine;
pub mod error;
pub mod game;
pub mod laws;
pub mod opponent;
pub mod rules;
pub mod status;

pub use board::Board;
pub use cell::{player_char, Owner, Position};
pub use error::GameError;
pub use game::Game;
pub use opponent::Difficulty;
pub use status::{State, Status};
