//! What holds of every game, proved from the rules.

use vstd::prelude::*;
use crate::board::{completes, full, held_lines, no_completion, occupied, tally, wins};
use crate::cell::{Owner, Position};
use crate::opponent::{calm, urgent};
use crate::rules::{
    all_legal, consistent, legal, lemma_line_through_wins, lemma_mark, lemma_marked_cells,
    lemma_opening_consistent, lemma_step_consistent, lemma_turn_parity, replay, status_for, step,
    GameView,
};
use crate::status::Status;

verus! {

/// Whatever is submitted, in whatever order, the game stays one in which
/// the status belongs to the board and at most one player holds a line.
pub proof fn law_play_stays_consistent(moves: Seq<Position>)
    ensures
        consistent(replay(moves)),
    decreases moves.len(),
{
    if moves.len() == 0 {
        lemma_opening_consistent();
    } else {
        law_play_stays_consistent(moves.drop_last());
        lemma_step_consistent(replay(moves.drop_last()), moves.last());
    }
}

/// Turns alternate strictly, X first. After any number of legal moves from
/// the opening exactly that many cells are taken, and while the game runs
/// it is the turn of X after an even number of moves and of O after an odd
/// number.
pub proof fn law_turns_alternate(moves: Seq<Position>)
    requires
        all_legal(moves),
    ensures
        occupied(replay(moves).cells) == moves.len(),
        !replay(moves).status.is_over() ==> replay(moves).status == if moves.len() % 2 == 0 {
            Status::PlayerXMove
        } else {
            Status::PlayerOMove
        },
    decreases moves.len(),
{
    let game = replay(moves);
    assert(occupied(game.cells) == moves.len()) by {
        if moves.len() == 0 {
            lemma_opening_consistent();
        } else {
            let before = replay(moves.drop_last());
            law_turns_alternate(moves.drop_last());
            law_play_stays_consistent(moves.drop_last());
            lemma_step_consistent(before, moves.last());
            assert(game == step(before, moves.last()));
        }
    }
    if !game.status.is_over() {
        law_play_stays_consistent(moves);
        lemma_turn_parity(game);
    }
}

/// A submitted move never frees a cell: every cell that was taken keeps its
/// owner, and the number of taken cells does not go down.
pub proof fn law_cells_stay_taken(game: GameView, position: Position)
    requires
        game.cells.len() == 9,
    ensures
        forall|i: int|
            0 <= i < 9 && game.cells[i] != Owner::Nobody ==> step(game, position).cells[i]
                == game.cells[i],
        occupied(step(game, position).cells) >= occupied(game.cells),
{
    if legal(game, position) {
        lemma_mark(game.cells, position.index(), game.status.mover());
    }
}

/// A move to a cell that is taken is refused and changes nothing, however
/// often it is submitted.
pub proof fn law_taken_cell_is_refused(game: GameView, position: Position)
    requires
        position.on_grid(),
        game.cells[position.index()] != Owner::Nobody,
    ensures
        !legal(game, position),
        step(game, position) == game,
        step(step(game, position), position) == game,
{
}

/// Once the game is over every move is refused.
pub proof fn law_finished_game_refuses(game: GameView, position: Position)
    requires
        game.status.is_over(),
    ensures
        !legal(game, position),
        step(game, position) == game,
{
}

/// The status is read off the board, whatever moves were submitted to get
/// there. A player has won exactly if that player holds a line, and the two
/// never hold lines at once. The game is drawn exactly if every cell is
/// taken and nobody holds a line. Otherwise it is the turn of X if both
/// hold equally many cells, and of O if X holds one more.
pub proof fn law_status_follows_board(moves: Seq<Position>)
    ensures
        replay(moves).status == Status::PlayerXWin <==> wins(replay(moves).cells, Owner::PlayerX),
        replay(moves).status == Status::PlayerOWin <==> wins(replay(moves).cells, Owner::PlayerO),
        !(wins(replay(moves).cells, Owner::PlayerX) && wins(replay(moves).cells, Owner::PlayerO)),
        replay(moves).status == Status::Draw <==> full(replay(moves).cells) && !wins(
            replay(moves).cells,
            Owner::PlayerX,
        ) && !wins(replay(moves).cells, Owner::PlayerO),
        replay(moves).status == Status::PlayerXMove ==> tally(replay(moves).cells, Owner::PlayerX)
            == tally(replay(moves).cells, Owner::PlayerO),
        replay(moves).status == Status::PlayerOMove ==> tally(replay(moves).cells, Owner::PlayerX)
            == tally(replay(moves).cells, Owner::PlayerO) + 1,
        replay(moves).status == status_for(replay(moves).cells),
{
    law_play_stays_consistent(moves);
}

/// Where the board shows one held line at most, a player has won exactly
/// if it shows one. (A single move can complete two lines at once, so a
/// won game may show two lines of the winner.)
pub proof fn law_single_line_decides(moves: Seq<Position>)
    requires
        held_lines(replay(moves).cells, Owner::PlayerX) + held_lines(
            replay(moves).cells,
            Owner::PlayerO,
        ) <= 1,
    ensures
        replay(moves).status == Status::PlayerXWin || replay(moves).status == Status::PlayerOWin
            <==> held_lines(replay(moves).cells, Owner::PlayerX) + held_lines(
            replay(moves).cells,
            Owner::PlayerO,
        ) == 1,
        replay(moves).status == Status::PlayerXWin <==> held_lines(
            replay(moves).cells,
            Owner::PlayerX,
        ) == 1,
        replay(moves).status == Status::PlayerOWin <==> held_lines(
            replay(moves).cells,
            Owner::PlayerO,
        ) == 1,
{
    law_status_follows_board(moves);
    reveal(wins);
}

/// A mark that completes a line for the player to move is a legal move and
/// wins the game at once.
pub proof fn law_completion_wins(game: GameView, position: Position)
    requires
        consistent(game),
        !game.status.is_over(),
        position.on_grid(),
        completes(game.cells, game.status.mover(), position.index()),
    ensures
        legal(game, position),
        step(game, position).status == Status::won_by(game.status.mover()),
{
    let who = game.status.mover();
    let marked = game.cells.update(position.index(), who);
    assert(wins(marked, who)) by {
        lemma_line_through_wins(marked, who, position.index());
    }
    assert(!wins(marked, who.rival())) by {
        lemma_mark(game.cells, position.index(), who);
    }
}

/// The one-ply rules put winning before blocking. The cell they name wins
/// at once if any cell does; if none does, it is a cell in which the other
/// player would have won at once, and taking it closes that cell to them.
pub proof fn law_win_before_block(game: GameView, position: Position)
    requires
        consistent(game),
        !game.status.is_over(),
        position.on_grid(),
        urgent(game.cells, game.status.mover(), position.index()),
    ensures
        legal(game, position),
        !no_completion(game.cells, game.status.mover()) ==> step(game, position).status
            == Status::won_by(game.status.mover()),
        no_completion(game.cells, game.status.mover()) ==> {
            &&& completes(game.cells, game.status.mover().rival(), position.index())
            &&& !completes(
                step(game, position).cells,
                game.status.mover().rival(),
                position.index(),
            )
            &&& !step(game, position).status.is_over() || step(game, position).status
                == Status::Draw
        },
{
    let who = game.status.mover();
    lemma_mark(game.cells, position.index(), who);
    lemma_step_consistent(game, position);
    if !no_completion(game.cells, who) {
        law_completion_wins(game, position);
    } else {
        lemma_no_completion_no_win(game.cells, position.index(), who);
    }
}

/// A move by the one-ply rules hands the other player no win that could be
/// kept from them. If the other player could win at once in one cell at
/// most, and the move is the one that the rules name, or any legal move
/// where the rules name none, the mover has won after it or the other
/// player can win at once nowhere.
pub proof fn law_no_win_is_handed_over(game: GameView, position: Position)
    requires
        consistent(game),
        legal(game, position),
        urgent(game.cells, game.status.mover(), position.index()) || calm(
            game.cells,
            game.status.mover(),
        ),
        forall|i: int, j: int|
            completes(game.cells, game.status.mover().rival(), i) && completes(
                game.cells,
                game.status.mover().rival(),
                j,
            ) ==> i == j,
    ensures
        step(game, position).status == Status::won_by(game.status.mover()) || no_completion(
            step(game, position).cells,
            game.status.mover().rival(),
        ),
{
    let who = game.status.mover();
    let marked = step(game, position).cells;
    if completes(game.cells, who, position.index()) {
        law_completion_wins(game, position);
    } else {
        assert forall|i: int| 0 <= i < 9 implies !completes(marked, who.rival(), i) by {
            if completes(marked, who.rival(), i) {
                lemma_mark_opens_nothing(game.cells, position.index(), who, i);
            }
        }
    }
}

/// A mark of one player opens no cell to the other: where the other player
/// can complete a line after the mark, they could before it, and the
/// marked cell itself is closed to them.
pub proof fn lemma_mark_opens_nothing(cells: Seq<Owner>, index: int, who: Owner, other: int)
    requires
        cells.len() == 9,
        0 <= index < 9,
        0 <= other < 9,
        cells[index] == Owner::Nobody,
        who != Owner::Nobody,
        completes(cells.update(index, who), who.rival(), other),
    ensures
        completes(cells, who.rival(), other),
        other != index,
{
    let marked = cells.update(index, who);
    lemma_marked_cells(cells, index, who);
    lemma_marked_cells(marked, other, who.rival());
    lemma_marked_cells(cells, other, who.rival());
}

/// A mark in a cell that completes no line for a player gives that player
/// no line they did not hold before.
pub proof fn lemma_no_completion_no_win(cells: Seq<Owner>, index: int, who: Owner)
    requires
        cells.len() == 9,
        0 <= index < 9,
        cells[index] == Owner::Nobody,
        who != Owner::Nobody,
        !completes(cells, who, index),
        !wins(cells, who),
    ensures
        !wins(cells.update(index, who), who),
{
    reveal(wins);
    lemma_marked_cells(cells, index, who);
}

} // verus!
