//! Where a game stands: whose turn it is, or how it ended.

use vstd::prelude::*;
use crate::board::held_cells;
use crate::cell::{Owner, Position};

verus! {

/// The five situations a game can be in.
#[derive(Clone, Copy, Debug, PartialEq, Eq, Hash, Structural)]
pub enum Status {
    PlayerXMove,
    PlayerOMove,
    PlayerXWin,
    PlayerOWin,
    Draw,
}

impl Status {
    /// Whether the game has ended.
    pub open spec fn is_over(self) -> bool {
        self != Status::PlayerXMove && self != Status::PlayerOMove
    }

    /// The player whose turn it is; `Nobody` once the game has ended.
    pub open spec fn mover(self) -> Owner {
        match self {
            Status::PlayerXMove => Owner::PlayerX,
            Status::PlayerOMove => Owner::PlayerO,
            _ => Owner::Nobody,
        }
    }

    /// The turn that follows this one while play goes on. A finished game
    /// stays as it is.
    pub open spec fn handed_over(self) -> Status {
        match self {
            Status::PlayerXMove => Status::PlayerOMove,
            Status::PlayerOMove => Status::PlayerXMove,
            _ => self,
        }
    }

    /// The words that announce this status.
    pub open spec fn text(self) -> Seq<char> {
        match self {
            Status::PlayerOMove => "Player O moves"@,
            Status::PlayerXMove => "Player X moves"@,
            Status::PlayerOWin => "Player O wins"@,
            Status::PlayerXWin => "Player X wins"@,
            Status::Draw => "Tie"@,
        }
    }

    /// Whether the game has ended.
    pub fn is_game_over(self) -> (over: bool)
        ensures
            over == self.is_over(),
    {
        match self {
            Status::PlayerOMove | Status::PlayerXMove => false,
            _ => true,
        }
    }

    /// The player whose turn it is, if the game is still running.
    pub fn player_to_move(self) -> (player: Option<Owner>)
        ensures
            self.is_over() ==> player is None,
            !self.is_over() ==> player == Some(self.mover()),
    {
        match self {
            Status::PlayerXMove => Some(Owner::PlayerX),
            Status::PlayerOMove => Some(Owner::PlayerO),
            _ => None,
        }
    }

    /// The status in words.
    pub fn describe(self) -> (words: String)
        ensures
            words@ == self.text(),
    {
        let words = match self {
            Status::PlayerOMove => "Player O moves",
            Status::PlayerXMove => "Player X moves",
            Status::PlayerOWin => "Player O wins",
            Status::PlayerXWin => "Player X wins",
            Status::Draw => "Tie",
        };
        words.to_string()
    }

    /// The status of a game that `who` has won.
    pub open spec fn won_by(who: Owner) -> Status {
        match who {
            Owner::PlayerX => Status::PlayerXWin,
            Owner::PlayerO => Status::PlayerOWin,
            Owner::Nobody => Status::Draw,
        }
    }
}

/// The state of a game as it is handed to callers: the status, and for a
/// game that was won the cells of the winning line in row-major order.
#[derive(Clone, Debug, PartialEq, Eq)]
pub enum State {
    PlayerXMove,
    PlayerOMove,
    PlayerXWin(Vec<Position>),
    PlayerOWin(Vec<Position>),
    Draw,
}

impl State {
    /// The status that this state carries.
    pub open spec fn status(&self) -> Status {
        match self {
            State::PlayerXMove => Status::PlayerXMove,
            State::PlayerOMove => Status::PlayerOMove,
            State::PlayerXWin(_) => Status::PlayerXWin,
            State::PlayerOWin(_) => Status::PlayerOWin,
            State::Draw => Status::Draw,
        }
    }

    /// The winning line that this state carries; empty unless a player won.
    pub open spec fn line(&self) -> Seq<Position> {
        match self {
            State::PlayerXWin(line) => line@,
            State::PlayerOWin(line) => line@,
            _ => Seq::empty(),
        }
    }

    /// Whether this state is the one that belongs to a game with the cells
    /// `cells` and the status `status`: it carries that status, and with a
    /// win the cells on the winner's lines.
    pub open spec fn reports(&self, cells: Seq<Owner>, status: Status) -> bool {
        &&& self.status() == status
        &&& self.line() == match status {
            Status::PlayerXWin => held_cells(cells, Owner::PlayerX),
            Status::PlayerOWin => held_cells(cells, Owner::PlayerO),
            _ => Seq::empty(),
        }
    }

    /// The status without the winning line.
    pub fn kind(&self) -> (status: Status)
        ensures
            status == self.status(),
    {
        match self {
            State::PlayerXMove => Status::PlayerXMove,
            State::PlayerOMove => Status::PlayerOMove,
            State::PlayerXWin(_) => Status::PlayerXWin,
            State::PlayerOWin(_) => Status::PlayerOWin,
            State::Draw => Status::Draw,
        }
    }

    /// Whether the game has ended.
    pub fn is_game_over(&self) -> (over: bool)
        ensures
            over == self.status().is_over(),
    {
        self.kind().is_game_over()
    }
}

} // verus!
