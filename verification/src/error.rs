//! The ways a request to a game can be turned down.

use vstd::prelude::*;

verus! {

/// Why a request was turned down. None of these ends the game or changes
/// the board.
#[derive(Clone, Copy, Debug, PartialEq, Eq, Hash, Structural)]
pub enum GameError {
    /// The move names a place off the grid or a cell that is taken, or the
    /// game is over.
    InvalidMove,
    /// The difficulty selector is not one of the recognised values.
    InvalidDifficulty,
    /// The opponent was asked to move in a game that is over.
    NoMoveAvailable,
}

} // verus!
