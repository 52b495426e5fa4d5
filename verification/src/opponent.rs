//! The computer opponent: three levels of skill, the one-ply rules that the
//! upper two share, and the check that every move it offers is legal.
//!
//! Easy picks a free cell at random. Medium takes a win if one is on the
//! board, else blocks a win of the other player, else picks at random. Hard
//! does as Medium does where a win or a block is at hand and otherwise
//! searches the whole game. The random pick and the search are the engine's.

use vstd::prelude::*;
use crate::board::{first_completion_at, first_free_at, full, no_completion, Board};
use crate::cell::{Owner, Position};
use crate::engine::Search;
use crate::error::GameError;

verus! {

/// How well the opponent plays.
#[derive(Clone, Copy, Debug, PartialEq, Eq, Hash, Structural)]
pub enum Difficulty {
    Easy,
    Medium,
    Hard,
}

impl Difficulty {
    /// The difficulty that a selector stands for: 0 is Easy, 1 is Medium and
    /// 2 is Hard. No other value is recognised.
    pub open spec fn decode(selector: u8) -> Option<Difficulty> {
        if selector == 0 {
            Some(Difficulty::Easy)
        } else if selector == 1 {
            Some(Difficulty::Medium)
        } else if selector == 2 {
            Some(Difficulty::Hard)
        } else {
            None
        }
    }

    /// Whether this level looks one ply ahead for a win or a block before
    /// it does anything else.
    pub open spec fn heeds_threats(self) -> bool {
        self != Difficulty::Easy
    }

    /// The engine strategy that decides where the one-ply rules do not.
    pub open spec fn fallback(self) -> Search {
        if self == Difficulty::Hard {
            Search::Exhaustive
        } else {
            Search::Blind
        }
    }

    /// Read a difficulty from its selector; a value that is not recognised
    /// fails with `InvalidDifficulty`.
    pub fn from_selector(selector: u8) -> (outcome: Result<Difficulty, GameError>)
        ensures
            match outcome {
                Ok(difficulty) => Difficulty::decode(selector) == Some(difficulty),
                Err(error) => error == GameError::InvalidDifficulty && Difficulty::decode(selector)
                    is None,
            },
    {
        match selector {
            0 => Ok(Difficulty::Easy),
            1 => Ok(Difficulty::Medium),
            2 => Ok(Difficulty::Hard),
            _ => Err(GameError::InvalidDifficulty),
        }
    }

    /// Whether this level looks one ply ahead for a win or a block.
    pub fn looks_ahead(self) -> (heeds: bool)
        ensures
            heeds == self.heeds_threats(),
    {
        match self {
            Difficulty::Easy => false,
            _ => true,
        }
    }

    /// The engine strategy that decides where the one-ply rules do not.
    pub fn search(self) -> (search: Search)
        ensures
            search == self.fallback(),
    {
        match self {
            Difficulty::Hard => Search::Exhaustive,
            _ => Search::Blind,
        }
    }
}

/// Whether the one-ply rules send `who` to the cell at `index`: it is the
/// first cell that wins at once, or no cell wins at once and it is the first
/// cell in which the other player would win at once.
pub open spec fn urgent(cells: Seq<Owner>, who: Owner, index: int) -> bool {
    ||| first_completion_at(cells, who, index)
    ||| no_completion(cells, who) && first_completion_at(cells, who.rival(), index)
}

/// Whether the one-ply rules have nothing to say to `who`: neither player
/// can complete a line with one mark.
pub open spec fn calm(cells: Seq<Owner>, who: Owner) -> bool {
    no_completion(cells, who) && no_completion(cells, who.rival())
}

/// Whether `choice` names a free cell of the board.
pub open spec fn usable(cells: Seq<Owner>, choice: Option<Position>) -> bool {
    choice matches Some(position) && position.on_grid() && cells[position.index()] == Owner::Nobody
}

/// The move that the one-ply rules dictate to `who`: win at once where that
/// is possible, else stop the other player from winning at once. Among
/// several such cells the first in row-major order is taken.
pub fn urgent_move(board: &Board, who: Owner) -> (cell: Option<Position>)
    ensures
        match cell {
            Some(position) => position.on_grid() && urgent(board@, who, position.index()),
            None => calm(board@, who),
        },
{
    match board.completing_cell(who) {
        Some(position) => Some(position),
        None => board.completing_cell(who.opponent()),
    }
}

/// Settle on a cell, given what the engine proposed. A proposal that names
/// a free cell stands. Where the engine proposed nothing, or a cell that
/// cannot be played, the first free cell is taken in its place, so that a
/// board with a free cell always yields a move.
pub fn confirm(board: &Board, choice: Option<Position>) -> (cell: Option<Position>)
    ensures
        usable(board@, choice) ==> cell == choice,
        !usable(board@, choice) ==> match cell {
            Some(position) => position.on_grid() && first_free_at(board@, position.index()),
            None => full(board@),
        },
{
    if let Some(position) = choice {
        if let Some(owner) = board.get(position) {
            if owner == Owner::Nobody {
                return choice;
            }
        }
    }
    board.first_free()
}

} // verus!
