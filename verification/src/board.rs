//! The nine cells as a sequence in row-major order: the vocabulary for lines
//! of three, and a snapshot type that answers questions about one board.

use vstd::prelude::*;
use crate::cell::{marker, player_char, Owner, Position};

verus! {

/// Whether the three cells of row `row` all belong to `who`.
pub open spec fn row_held(cells: Seq<Owner>, who: Owner, row: int) -> bool {
    cells[3 * row] == who && cells[3 * row + 1] == who && cells[3 * row + 2] == who
}

/// Whether the three cells of column `column` all belong to `who`.
pub open spec fn column_held(cells: Seq<Owner>, who: Owner, column: int) -> bool {
    cells[column] == who && cells[column + 3] == who && cells[column + 6] == who
}

/// Whether the diagonal from the top left to the bottom right belongs to `who`.
pub open spec fn diagonal_held(cells: Seq<Owner>, who: Owner) -> bool {
    cells[0] == who && cells[4] == who && cells[8] == who
}

/// Whether the diagonal from the top right to the bottom left belongs to `who`.
pub open spec fn antidiagonal_held(cells: Seq<Owner>, who: Owner) -> bool {
    cells[2] == who && cells[4] == who && cells[6] == who
}

/// Whether one of the eight lines of three belongs to `who` entirely.
#[verifier::opaque]
pub open spec fn wins(cells: Seq<Owner>, who: Owner) -> bool {
    ||| row_held(cells, who, 0)
    ||| row_held(cells, who, 1)
    ||| row_held(cells, who, 2)
    ||| column_held(cells, who, 0)
    ||| column_held(cells, who, 1)
    ||| column_held(cells, who, 2)
    ||| diagonal_held(cells, who)
    ||| antidiagonal_held(cells, who)
}

/// One if the condition holds, zero if not.
pub open spec fn one_if(condition: bool) -> int {
    if condition {
        1
    } else {
        0
    }
}

/// How many of the eight lines of three belong to `who` entirely.
pub open spec fn held_lines(cells: Seq<Owner>, who: Owner) -> int {
    one_if(row_held(cells, who, 0)) + one_if(row_held(cells, who, 1))
        + one_if(row_held(cells, who, 2)) + one_if(column_held(cells, who, 0))
        + one_if(column_held(cells, who, 1)) + one_if(column_held(cells, who, 2))
        + one_if(diagonal_held(cells, who)) + one_if(antidiagonal_held(cells, who))
}

/// Whether the cell at `index` lies on a line that belongs to `who` entirely:
/// its row, its column, or a diagonal that passes through it.
pub open spec fn on_held_line(cells: Seq<Owner>, who: Owner, index: int) -> bool {
    &&& 0 <= index < 9
    &&& {
        ||| row_held(cells, who, index / 3)
        ||| column_held(cells, who, index % 3)
        ||| index / 3 == index % 3 && diagonal_held(cells, who)
        ||| index / 3 + index % 3 == 2 && antidiagonal_held(cells, who)
    }
}

/// Whether no cell is free.
pub open spec fn full(cells: Seq<Owner>) -> bool {
    forall|i: int| 0 <= i < 9 ==> cells[i] != Owner::Nobody
}

/// One if the cell at `index` belongs to `who`, zero if not.
pub open spec fn held(cells: Seq<Owner>, who: Owner, index: int) -> int {
    if cells[index] == who {
        1
    } else {
        0
    }
}

/// How many of the nine cells belong to `who`.
#[verifier::opaque]
pub open spec fn tally(cells: Seq<Owner>, who: Owner) -> int {
    held(cells, who, 0) + held(cells, who, 1) + held(cells, who, 2)
        + held(cells, who, 3) + held(cells, who, 4) + held(cells, who, 5)
        + held(cells, who, 6) + held(cells, who, 7) + held(cells, who, 8)
}

/// How many of the nine cells are taken.
pub open spec fn occupied(cells: Seq<Owner>) -> int {
    tally(cells, Owner::PlayerX) + tally(cells, Owner::PlayerO)
}

/// Whether the cell at `index` is free and a mark of `who` in it would
/// complete a line of three through it.
pub open spec fn completes(cells: Seq<Owner>, who: Owner, index: int) -> bool {
    &&& 0 <= index < 9
    &&& cells[index] == Owner::Nobody
    &&& on_held_line(cells.update(index, who), who, index)
}

/// Whether the cell at `index` is the first free cell in row-major order.
pub open spec fn first_free_at(cells: Seq<Owner>, index: int) -> bool {
    &&& 0 <= index < 9
    &&& cells[index] == Owner::Nobody
    &&& forall|i: int| 0 <= i < index ==> cells[i] != Owner::Nobody
}

/// Whether the cell at `index` is the first in row-major order in which a
/// mark of `who` would complete a line.
pub open spec fn first_completion_at(cells: Seq<Owner>, who: Owner, index: int) -> bool {
    &&& completes(cells, who, index)
    &&& forall|i: int| 0 <= i < index ==> !completes(cells, who, i)
}

/// Whether no cell would complete a line for `who`.
pub open spec fn no_completion(cells: Seq<Owner>, who: Owner) -> bool {
    forall|i: int| 0 <= i < 9 ==> !completes(cells, who, i)
}

/// The nine positions of the grid in row-major order.
pub open spec fn grid() -> Seq<Position> {
    Seq::new(9, |i: int| Position::at(i))
}

/// The positions of the cells that lie on a line held by `who`, in
/// row-major order.
pub open spec fn held_cells(cells: Seq<Owner>, who: Owner) -> Seq<Position> {
    grid().filter(|p: Position| on_held_line(cells, who, p.index()))
}

/// The position of the cell at a row-major index.
fn cell_at(index: usize) -> (position: Position)
    requires
        index < 9,
    ensures
        position == Position::at(index as int),
        position.on_grid(),
        position.index() == index,
{
    Position { row: (index / 3) as i32, column: (index % 3) as i32 }
}

/// A snapshot of the nine cells. Any nine owners make a board, whether or
/// not play can reach it.
#[derive(Clone, Copy, Debug, PartialEq, Eq)]
pub struct Board {
    /// The owners of the cells, row by row.
    pub cells: [Owner; 9],
}

impl View for Board {
    type V = Seq<Owner>;

    open spec fn view(&self) -> Seq<Owner> {
        self.cells@
    }
}

impl Board {
    /// The board on which every cell is free.
    pub fn empty() -> (board: Board)
        ensures
            board@ == Seq::new(9, |i: int| Owner::Nobody),
    {
        Board { cells: [Owner::Nobody; 9] }
    }

    /// The owner of the cell at `position`, if the position is on the grid.
    pub fn get(&self, position: Position) -> (owner: Option<Owner>)
        ensures
            position.on_grid() ==> owner == Some(self@[position.index()]),
            !position.on_grid() ==> owner is None,
    {
        match position.cell_index() {
            Some(index) => Some(self.cells[index]),
            None => None,
        }
    }

    /// Whether `who` holds row `row`.
    fn row_is(&self, who: Owner, row: usize) -> (b: bool)
        requires
            row < 3,
        ensures
            b == row_held(self@, who, row as int),
    {
        self.cells[3 * row] == who && self.cells[3 * row + 1] == who
            && self.cells[3 * row + 2] == who
    }

    /// Whether `who` holds column `column`.
    fn column_is(&self, who: Owner, column: usize) -> (b: bool)
        requires
            column < 3,
        ensures
            b == column_held(self@, who, column as int),
    {
        self.cells[column] == who && self.cells[column + 3] == who
            && self.cells[column + 6] == who
    }

    /// Whether `who` holds the diagonal from the top left.
    fn diagonal_is(&self, who: Owner) -> (b: bool)
        ensures
            b == diagonal_held(self@, who),
    {
        self.cells[0] == who && self.cells[4] == who && self.cells[8] == who
    }

    /// Whether `who` holds the diagonal from the top right.
    fn antidiagonal_is(&self, who: Owner) -> (b: bool)
        ensures
            b == antidiagonal_held(self@, who),
    {
        self.cells[2] == who && self.cells[4] == who && self.cells[6] == who
    }

    /// Whether `who` holds a line of three.
    pub fn has_line(&self, who: Owner) -> (b: bool)
        ensures
            b == wins(self@, who),
    {
        reveal(wins);
        self.row_is(who, 0) || self.row_is(who, 1) || self.row_is(who, 2)
            || self.column_is(who, 0) || self.column_is(who, 1) || self.column_is(who, 2)
            || self.diagonal_is(who) || self.antidiagonal_is(who)
    }

    /// Whether the cell at `index` lies on a line that `who` holds.
    pub fn line_through(&self, who: Owner, index: usize) -> (b: bool)
        ensures
            b == on_held_line(self@, who, index as int),
    {
        if index >= 9 {
            return false;
        }
        let row: usize = index / 3;
        let column: usize = index % 3;
        self.row_is(who, row) || self.column_is(who, column)
            || (row == column && self.diagonal_is(who))
            || (row + column == 2 && self.antidiagonal_is(who))
    }

    /// Whether no cell is free.
    pub fn is_full(&self) -> (b: bool)
        ensures
            b == full(self@),
    {
        let mut index: usize = 0;
        while index < 9
            invariant
                index <= 9,
                forall|i: int| 0 <= i < index ==> self@[i] != Owner::Nobody,
            decreases 9 - index,
        {
            if self.cells[index] == Owner::Nobody {
                return false;
            }
            index += 1;
        }
        true
    }

    /// One if `who` holds the cell at `index`, zero if not.
    fn held_at(&self, who: Owner, index: usize) -> (n: usize)
        requires
            index < 9,
        ensures
            n == held(self@, who, index as int),
    {
        if self.cells[index] == who {
            1
        } else {
            0
        }
    }

    /// How many cells belong to `who`.
    pub fn count(&self, who: Owner) -> (n: usize)
        ensures
            n == tally(self@, who),
    {
        reveal(tally);
        self.held_at(who, 0) + self.held_at(who, 1) + self.held_at(who, 2)
            + self.held_at(who, 3) + self.held_at(who, 4) + self.held_at(who, 5)
            + self.held_at(who, 6) + self.held_at(who, 7) + self.held_at(who, 8)
    }

    /// The cells on the lines that `who` holds, in row-major order: the
    /// winning line of a game that `who` has won.
    pub fn winning_line(&self, who: Owner) -> (line: Vec<Position>)
        ensures
            line@ == held_cells(self@, who),
    {
        let mut line: Vec<Position> = Vec::new();
        let mut index: usize = 0;
        let ghost on_line = |p: Position| on_held_line(self@, who, p.index());
        proof {
            reveal(Seq::filter);
            assert(grid().take(0) =~= Seq::<Position>::empty());
        }
        while index < 9
            invariant
                index <= 9,
                on_line == (|p: Position| on_held_line(self@, who, p.index())),
                line@ == grid().take(index as int).filter(on_line),
            decreases 9 - index,
        {
            proof {
                reveal(Seq::filter);
                let next = grid().take(index + 1);
                assert(next.drop_last() =~= grid().take(index as int));
                assert(next.last() == Position::at(index as int));
            }
            if self.line_through(who, index) {
                line.push(cell_at(index));
            }
            index += 1;
        }
        proof {
            assert(grid().take(9) =~= grid());
        }
        line
    }

    /// Whether the cell at `index` is free and a mark of `who` in it would
    /// complete a line of three.
    pub fn would_complete(&self, who: Owner, index: usize) -> (b: bool)
        ensures
            b == completes(self@, who, index as int),
    {
        if index >= 9 || self.cells[index] != Owner::Nobody {
            return false;
        }
        let mut marked: Board = *self;
        marked.cells[index] = who;
        marked.line_through(who, index)
    }

    /// The first cell in row-major order in which a mark of `who` would
    /// complete a line of three.
    pub fn completing_cell(&self, who: Owner) -> (cell: Option<Position>)
        ensures
            match cell {
                Some(position) => position.on_grid() && first_completion_at(
                    self@,
                    who,
                    position.index(),
                ),
                None => no_completion(self@, who),
            },
    {
        let mut index: usize = 0;
        while index < 9
            invariant
                index <= 9,
                forall|i: int| 0 <= i < index ==> !completes(self@, who, i),
            decreases 9 - index,
        {
            if self.would_complete(who, index) {
                return Some(cell_at(index));
            }
            index += 1;
        }
        None
    }

    /// The first free cell in row-major order.
    pub fn first_free(&self) -> (cell: Option<Position>)
        ensures
            match cell {
                Some(position) => position.on_grid() && first_free_at(self@, position.index()),
                None => full(self@),
            },
    {
        let mut index: usize = 0;
        while index < 9
            invariant
                index <= 9,
                forall|i: int| 0 <= i < index ==> self@[i] != Owner::Nobody,
            decreases 9 - index,
        {
            if self.cells[index] == Owner::Nobody {
                return Some(cell_at(index));
            }
            index += 1;
        }
        None
    }

    /// The board written out cell by cell in row-major order, each cell as
    /// the byte of its marker.
    pub fn to_bytes(&self) -> (bytes: Vec<u8>)
        ensures
            bytes@ == self@.map_values(|owner: Owner| marker(owner) as u8),
    {
        let mut bytes: Vec<u8> = Vec::new();
        let mut index: usize = 0;
        while index < 9
            invariant
                index <= 9,
                bytes@ == self@.take(index as int).map_values(|owner: Owner| marker(owner) as u8),
            decreases 9 - index,
        {
            bytes.push(player_char(self.cells[index]) as u8);
            proof {
                assert(bytes@ =~= self@.take(index + 1).map_values(
                    |owner: Owner| marker(owner) as u8,
                ));
            }
            index += 1;
        }
        proof {
            assert(self@.take(9) =~= self@);
        }
        bytes
    }

    /// Every cell with its position, in row-major order.
    pub fn entries(&self) -> (entries: Vec<(Position, Owner)>)
        ensures
            entries@ == Seq::new(9, |i: int| (Position::at(i), self@[i])),
    {
        let mut entries: Vec<(Position, Owner)> = Vec::new();
        let mut index: usize = 0;
        while index < 9
            invariant
                index <= 9,
                entries@ == Seq::new(index as nat, |i: int| (Position::at(i), self@[i])),
            decreases 9 - index,
        {
            entries.push((cell_at(index), self.cells[index]));
            proof {
                assert(entries@ =~= Seq::new(
                    (index + 1) as nat,
                    |i: int| (Position::at(i), self@[i]),
                ));
            }
            index += 1;
        }
        entries
    }
}

} // verus!
