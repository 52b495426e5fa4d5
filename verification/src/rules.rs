//! The game as a mathematical state machine.
//!
//! A game is its nine cells in row-major order together with its status. The
//! functions here say which moves are legal and what a move does; the
//! executable `Game` is specified against them.

use vstd::prelude::*;
use crate::board::{full, occupied, on_held_line, tally, wins};
use crate::cell::{Owner, Position};
use crate::status::Status;

verus! {

/// The model of a game.
pub struct GameView {
    /// The owners of the nine cells, row by row.
    pub cells: Seq<Owner>,
    /// Whose turn it is, or how the game ended.
    pub status: Status,
}

/// The game before the first move: nine free cells, X to move.
pub open spec fn opening() -> GameView {
    GameView { cells: Seq::new(9, |i: int| Owner::Nobody), status: Status::PlayerXMove }
}

/// Whether the player to move may mark the cell at `position`: the game is
/// still running, the position is on the grid, and the cell is free.
pub open spec fn legal(game: GameView, position: Position) -> bool {
    &&& !game.status.is_over()
    &&& position.on_grid()
    &&& game.cells[position.index()] == Owner::Nobody
}

/// The status of a board on which a move has just been made: a win for the
/// player who holds a line, a draw if no line is held and no cell is free,
/// and otherwise the turn `next`.
pub open spec fn verdict(cells: Seq<Owner>, next: Status) -> Status {
    if wins(cells, Owner::PlayerX) {
        Status::PlayerXWin
    } else if wins(cells, Owner::PlayerO) {
        Status::PlayerOWin
    } else if full(cells) {
        Status::Draw
    } else {
        next
    }
}

/// The game after `position` has been submitted. A legal move marks the cell
/// for the player to move and settles the new status; any other move leaves
/// the game as it was.
pub open spec fn step(game: GameView, position: Position) -> GameView {
    if legal(game, position) {
        let cells = game.cells.update(position.index(), game.status.mover());
        GameView { cells, status: verdict(cells, game.status.handed_over()) }
    } else {
        game
    }
}

/// The status that belongs to a board, read off the board alone: X is to
/// move when both players hold equally many cells, for X moves first.
pub open spec fn status_for(cells: Seq<Owner>) -> Status {
    verdict(
        cells,
        if tally(cells, Owner::PlayerX) == tally(cells, Owner::PlayerO) {
            Status::PlayerXMove
        } else {
            Status::PlayerOMove
        },
    )
}

/// What holds of every game that play can reach: the status is the one that
/// belongs to the board, at most one player holds a line, X has made as many
/// moves as O or one more, and whoever holds a line made the last move.
pub open spec fn consistent(game: GameView) -> bool {
    &&& game.cells.len() == 9
    &&& game.status == status_for(game.cells)
    &&& !(wins(game.cells, Owner::PlayerX) && wins(game.cells, Owner::PlayerO))
    &&& tally(game.cells, Owner::PlayerO) <= tally(game.cells, Owner::PlayerX) <= tally(
        game.cells,
        Owner::PlayerO,
    ) + 1
    &&& wins(game.cells, Owner::PlayerX) ==> tally(game.cells, Owner::PlayerX) == tally(
        game.cells,
        Owner::PlayerO,
    ) + 1
    &&& wins(game.cells, Owner::PlayerO) ==> tally(game.cells, Owner::PlayerX) == tally(
        game.cells,
        Owner::PlayerO,
    )
}

/// The game after the moves of `moves` have been submitted one after the
/// other, starting from the opening.
pub open spec fn replay(moves: Seq<Position>) -> GameView
    decreases moves.len(),
{
    if moves.len() == 0 {
        opening()
    } else {
        step(replay(moves.drop_last()), moves.last())
    }
}

/// Whether each move of `moves` was legal at the time it was submitted.
pub open spec fn all_legal(moves: Seq<Position>) -> bool
    decreases moves.len(),
{
    moves.len() == 0 || (all_legal(moves.drop_last()) && legal(
        replay(moves.drop_last()),
        moves.last(),
    ))
}

/// The opening position is consistent.
pub proof fn lemma_opening_consistent()
    ensures
        consistent(opening()),
        occupied(opening().cells) == 0,
{
    reveal(wins);
    reveal(tally);
}

/// Marking a free cell for a player adds one to that player's tally and
/// leaves the other player's tally and lines as they were.
pub proof fn lemma_mark(cells: Seq<Owner>, index: int, who: Owner)
    requires
        cells.len() == 9,
        0 <= index < 9,
        cells[index] == Owner::Nobody,
        who != Owner::Nobody,
    ensures
        tally(cells.update(index, who), who) == tally(cells, who) + 1,
        tally(cells.update(index, who), who.rival()) == tally(cells, who.rival()),
        wins(cells.update(index, who), who.rival()) == wins(cells, who.rival()),
        wins(cells, who) ==> wins(cells.update(index, who), who),
        !full(cells),
{
    reveal(wins);
    reveal(tally);
    lemma_marked_cells(cells, index, who);
}

/// A board with one more mark, cell by cell.
pub proof fn lemma_marked_cells(cells: Seq<Owner>, index: int, who: Owner)
    requires
        cells.len() == 9,
        0 <= index < 9,
    ensures
        cells.update(index, who).len() == 9,
        cells.update(index, who)[0] == if index == 0 { who } else { cells[0] },
        cells.update(index, who)[1] == if index == 1 { who } else { cells[1] },
        cells.update(index, who)[2] == if index == 2 { who } else { cells[2] },
        cells.update(index, who)[3] == if index == 3 { who } else { cells[3] },
        cells.update(index, who)[4] == if index == 4 { who } else { cells[4] },
        cells.update(index, who)[5] == if index == 5 { who } else { cells[5] },
        cells.update(index, who)[6] == if index == 6 { who } else { cells[6] },
        cells.update(index, who)[7] == if index == 7 { who } else { cells[7] },
        cells.update(index, who)[8] == if index == 8 { who } else { cells[8] },
{
}

/// A cell on a held line shows that a line is held.
pub proof fn lemma_line_through_wins(cells: Seq<Owner>, who: Owner, index: int)
    requires
        on_held_line(cells, who, index),
    ensures
        wins(cells, who),
{
    reveal(wins);
    if index == 0 {
    } else if index == 1 {
    } else if index == 2 {
    } else if index == 3 {
    } else if index == 4 {
    } else if index == 5 {
    } else if index == 6 {
    } else if index == 7 {
    } else {
    }
}

/// While a consistent game runs it is the turn of X exactly if an even
/// number of cells is taken.
pub proof fn lemma_turn_parity(game: GameView)
    requires
        consistent(game),
        !game.status.is_over(),
    ensures
        game.status == Status::PlayerXMove <==> occupied(game.cells) % 2 == 0,
{
    let x = tally(game.cells, Owner::PlayerX);
    let o = tally(game.cells, Owner::PlayerO);
    assert(occupied(game.cells) == x + o);
    assert(game.status == Status::PlayerXMove <==> x == o);
    assert(x == o || x == o + 1);
}

/// A move keeps a consistent game consistent, and takes exactly one more
/// cell if it is legal.
pub proof fn lemma_step_consistent(game: GameView, position: Position)
    requires
        consistent(game),
    ensures
        consistent(step(game, position)),
        legal(game, position) ==> occupied(step(game, position).cells) == occupied(game.cells) + 1,
        !legal(game, position) ==> step(game, position) == game,
{
    if legal(game, position) {
        let who = game.status.mover();
        lemma_mark(game.cells, position.index(), who);
    }
}

} // verus!
