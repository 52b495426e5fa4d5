//! The boundary to the `open_ttt_lib` engine.
//!
//! Nothing in this file is proved. Each function makes one call into the
//! engine, and its contract restates what the engine's source does in terms
//! of two names: the owners of the engine's nine squares, and the state it
//! keeps beside them. The rest of the crate is verified against these
//! contracts.

use vstd::prelude::*;
use crate::board::{full, wins};
use crate::cell::{Owner, Position};
use crate::status::Status;

verus! {

/// A game as the engine keeps it: a board of 3×3 squares and a state. The
/// verifier sees neither; what it knows of an engine it knows through
/// `cells_of` and `status_of`.
#[verifier::external_body]
pub struct Engine {
    inner: open_ttt_lib::game::Game,
}

/// `open_ttt_lib::game::Error`, the engine's reason for refusing a move. It
/// is carried through unread.
#[verifier::external_type_specification]
#[verifier::external_body]
pub struct ExEngineError(open_ttt_lib::game::Error);

/// The owners of the engine's nine squares, in row-major order.
pub uninterp spec fn cells_of(engine: Engine) -> Seq<Owner>;

/// The state that the engine keeps beside its board, without the set of
/// winning squares.
pub uninterp spec fn status_of(engine: Engine) -> Status;

/// Whether an engine with the squares `cells` and the state `status` takes
/// a move to the square at `row` and `column`: the state is a player's turn,
/// the square is on the board, and nobody owns it.
pub open spec fn accepts(cells: Seq<Owner>, status: Status, row: i32, column: i32) -> bool {
    &&& !status.is_over()
    &&& 0 <= row < 3
    &&& 0 <= column < 3
    &&& cells[row * 3 + column] == Owner::Nobody
}

/// How the engine chooses its state once a move is on the board `cells`,
/// `before` being the turn in which the move was made. A held line makes a
/// win for a player who holds one; with no line held, a board without a free
/// square is a draw, and any other board passes the turn on.
pub open spec fn settled(cells: Seq<Owner>, before: Status, after: Status) -> bool {
    if wins(cells, Owner::PlayerX) || wins(cells, Owner::PlayerO) {
        ||| after == Status::PlayerXWin && wins(cells, Owner::PlayerX)
        ||| after == Status::PlayerOWin && wins(cells, Owner::PlayerO)
    } else if full(cells) {
        after == Status::Draw
    } else {
        after == before.handed_over()
    }
}

/// Which of its strategies the engine's opponent plays.
#[derive(Clone, Copy, Debug, PartialEq, Eq, Structural)]
pub enum Search {
    /// Pick any free square, without looking at the board.
    Blind,
    /// Search every continuation to the end of the game.
    Exhaustive,
}

/// `open_ttt_lib::game::Game::new` makes a 3×3 board on which every square is
/// free, and gives the first turn to X.
#[verifier::external_body]
pub(crate) fn fresh() -> (engine: Engine)
    ensures
        cells_of(engine) == Seq::new(9, |i: int| Owner::Nobody),
        status_of(engine) == Status::PlayerXMove,
{
    Engine { inner: open_ttt_lib::game::Game::new() }
}

/// `open_ttt_lib::game::Game::do_move` refuses a move that it does not
/// accept and then changes nothing. A move that it accepts gives the square
/// to the player whose turn it was, touches no other square, and settles the
/// state from the board as it then stands.
#[verifier::external_body]
pub(crate) fn place(engine: &mut Engine, row: i32, column: i32) -> (outcome: Result<
    (),
    open_ttt_lib::game::Error,
>)
    ensures
        outcome is Ok <==> accepts(cells_of(*old(engine)), status_of(*old(engine)), row, column),
        outcome is Err ==> cells_of(*final(engine)) == cells_of(*old(engine)),
        outcome is Err ==> status_of(*final(engine)) == status_of(*old(engine)),
        outcome is Ok ==> cells_of(*final(engine)) == cells_of(*old(engine)).update(
            row * 3 + column,
            status_of(*old(engine)).mover(),
        ),
        outcome is Ok ==> settled(
            cells_of(*final(engine)),
            status_of(*old(engine)),
            status_of(*final(engine)),
        ),
{
    match engine.inner.do_move(open_ttt_lib::game::Position { row, column }) {
        Ok(_) => Ok(()),
        Err(error) => Err(error),
    }
}

/// `open_ttt_lib::game::Game::state` returns the state that the engine keeps.
#[verifier::external_body]
pub(crate) fn status(engine: &Engine) -> (status: Status)
    ensures
        status == status_of(*engine),
{
    match engine.inner.state() {
        open_ttt_lib::game::State::PlayerXMove => Status::PlayerXMove,
        open_ttt_lib::game::State::PlayerOMove => Status::PlayerOMove,
        open_ttt_lib::game::State::PlayerXWin(_) => Status::PlayerXWin,
        open_ttt_lib::game::State::PlayerOWin(_) => Status::PlayerOWin,
        open_ttt_lib::game::State::CatsGame => Status::Draw,
    }
}

/// `open_ttt_lib::board::Board::iter`, on the board that
/// `open_ttt_lib::game::Game::board` lends, walks the squares row by row
/// and yields each square's owner.
#[verifier::external_body]
pub(crate) fn squares(engine: &Engine) -> (cells: Vec<Owner>)
    ensures
        cells@ == cells_of(*engine),
{
    let mut cells = Vec::new();
    for (_, owner) in engine.inner.board().iter() {
        cells.push(
            match owner {
                open_ttt_lib::board::Owner::PlayerX => Owner::PlayerX,
                open_ttt_lib::board::Owner::PlayerO => Owner::PlayerO,
                open_ttt_lib::board::Owner::None => Owner::Nobody,
            },
        );
    }
    cells
}

/// `open_ttt_lib::ai::Opponent::get_move`, asked of an opponent that
/// `open_ttt_lib::ai::Opponent::new` makes for the strategy. It offers
/// nothing once the game is over, and never a square that the engine would
/// not accept. Which square it offers is left to chance, and nothing is
/// claimed of that.
#[verifier::external_body]
pub(crate) fn suggest(engine: &Engine, search: Search) -> (choice: Option<Position>)
    ensures
        status_of(*engine).is_over() ==> choice is None,
        choice is Some ==> accepts(
            cells_of(*engine),
            status_of(*engine),
            choice.unwrap().row,
            choice.unwrap().column,
        ),
{
    let difficulty = match search {
        Search::Blind => open_ttt_lib::ai::Difficulty::None,
        Search::Exhaustive => open_ttt_lib::ai::Difficulty::Unbeatable,
    };
    match open_ttt_lib::ai::Opponent::new(difficulty).get_move(&engine.inner) {
        Some(position) => Some(Position { row: position.row, column: position.column }),
        None => None,
    }
}

} // verus!
