//! The owner of a cell and the position of a cell.

use vstd::prelude::*;

verus! {

/// Who holds a cell.
#[derive(Clone, Copy, Debug, PartialEq, Eq, Hash, Structural)]
pub enum Owner {
    /// Nobody: the cell is free.
    Nobody,
    /// The player who moves first.
    PlayerX,
    /// The player who moves second.
    PlayerO,
}

impl Owner {
    /// The player on the other side. A free cell has no opponent.
    pub open spec fn rival(self) -> Owner {
        match self {
            Owner::PlayerX => Owner::PlayerO,
            Owner::PlayerO => Owner::PlayerX,
            Owner::Nobody => Owner::Nobody,
        }
    }

    /// The player on the other side.
    pub fn opponent(self) -> (other: Owner)
        ensures
            other == self.rival(),
    {
        match self {
            Owner::PlayerX => Owner::PlayerO,
            Owner::PlayerO => Owner::PlayerX,
            Owner::Nobody => Owner::Nobody,
        }
    }
}

/// The character that stands for an owner wherever a board is written out.
pub open spec fn marker(owner: Owner) -> char {
    match owner {
        Owner::PlayerO => 'O',
        Owner::PlayerX => 'X',
        Owner::Nobody => '.',
    }
}

/// Return a character describing the player owning a particular board field.
pub fn player_char(owner: Owner) -> (c: char)
    ensures
        c == marker(owner),
{
    match owner {
        Owner::PlayerO => 'O',
        Owner::PlayerX => 'X',
        Owner::Nobody => '.',
    }
}

/// A coordinate pair. On the grid both coordinates lie in `0..3`; a value of
/// this type may name a place off the grid, which no cell answers to.
#[derive(Clone, Copy, Debug, PartialEq, Eq, PartialOrd, Ord, Hash, Structural)]
pub struct Position {
    pub row: i32,
    pub column: i32,
}

impl Position {
    /// Whether the position names one of the nine cells.
    pub open spec fn on_grid(self) -> bool {
        0 <= self.row < 3 && 0 <= self.column < 3
    }

    /// The place of the cell in row-major order.
    pub open spec fn index(self) -> int {
        self.row * 3 + self.column
    }

    /// The position of the cell that stands at `index` in row-major order.
    pub open spec fn at(index: int) -> Position {
        Position { row: (index / 3) as i32, column: (index % 3) as i32 }
    }

    /// The position at `row` and `column`.
    pub fn new(row: i32, column: i32) -> (position: Position)
        ensures
            position == (Position { row, column }),
    {
        Position { row, column }
    }

    /// The row-major index of the cell, for a position on the grid.
    pub fn cell_index(&self) -> (index: Option<usize>)
        ensures
            self.on_grid() ==> index == Some(self.index() as usize),
            !self.on_grid() ==> index is None,
    {
        if 0 <= self.row && self.row < 3 && 0 <= self.column && self.column < 3 {
            Some((self.row * 3 + self.column) as usize)
        } else {
            None
        }
    }

    /// The position of the cell at a row-major index below nine.
    pub fn from_index(index: usize) -> (position: Option<Position>)
        ensures
            index < 9 ==> position == Some(Position::at(index as int)),
            index >= 9 ==> position is None,
    {
        if index < 9 {
            Some(Position { row: (index / 3) as i32, column: (index % 3) as i32 })
        } else {
            None
        }
    }
}

} // verus!
