//! The game: a board and a turn, changed by moves alone.

use vstd::prelude::*;
use crate::board::{completes, full, no_completion, occupied, wins, Board};
use crate::cell::{Owner, Position};
use crate::engine::{cells_of, fresh, place, settled, squares, status_of, suggest, Engine};
use crate::opponent::{calm, confirm, urgent, urgent_move, Difficulty};
use crate::error::GameError;
use crate::rules::{
    consistent, legal, lemma_mark, lemma_opening_consistent, lemma_step_consistent, opening, step,
    GameView,
};
use crate::status::{State, Status};

verus! {

/// A move that the engine accepted and settled is the step of the model.
proof fn lemma_accepted(before: GameView, position: Position, after: GameView)
    requires
        consistent(before),
        legal(before, position),
        after.cells == before.cells.update(position.index(), before.status.mover()),
        settled(after.cells, before.status, after.status),
    ensures
        after == step(before, position),
        consistent(after),
        occupied(after.cells) == occupied(before.cells) + 1,
{
    lemma_mark(before.cells, position.index(), before.status.mover());
    lemma_step_consistent(before, position);
}

/// A game of tic-tac-toe. It starts empty with X to move and changes only
/// through accepted moves.
pub struct Game {
    engine: Engine,
}

impl View for Game {
    type V = GameView;

    closed spec fn view(&self) -> GameView {
        GameView { cells: cells_of(self.engine), status: status_of(self.engine) }
    }
}

impl Game {
    /// The invariant of a game: it is one that play can reach. `new`
    /// establishes it and every method keeps it.
    pub open spec fn wf(&self) -> bool {
        consistent(self@)
    }

    /// Create a new instance: nine free cells, X to move.
    pub fn new() -> (game: Game)
        ensures
            game.wf(),
            game@ == opening(),
    {
        let game = Game { engine: fresh() };
        proof {
            lemma_opening_consistent();
        }
        game
    }

    /// Whether the player to move may mark the cell at `position`.
    pub fn can_move(&self, position: Position) -> (allowed: bool)
        requires
            self.wf(),
        ensures
            allowed == legal(self@, position),
    {
        if self.status().is_game_over() {
            return false;
        }
        match self.board().get(position) {
            Some(owner) => owner == Owner::Nobody,
            None => false,
        }
    }

    /// Submit a move for the player whose turn it is. A legal move marks the
    /// cell, passes the turn on or ends the game, and returns the new state.
    /// Any other move fails with `InvalidMove` and changes nothing.
    pub fn submit_move(&mut self, position: Position) -> (outcome: Result<State, GameError>)
        requires
            old(self).wf(),
        ensures
            final(self).wf(),
            final(self)@ == step(old(self)@, position),
            legal(old(self)@, position) ==> outcome is Ok && outcome->Ok_0.reports(
                final(self)@.cells,
                final(self)@.status,
            ),
            !legal(old(self)@, position) ==> outcome == Err::<State, GameError>(
                GameError::InvalidMove,
            ) && final(self)@ == old(self)@,
            legal(old(self)@, position) && !final(self)@.status.is_over() ==> final(self)@.status
                == old(self)@.status.handed_over(),
            occupied(final(self)@.cells) >= occupied(old(self)@.cells),
    {
        let ghost before = self@;
        match place(&mut self.engine, position.row, position.column) {
            Ok(()) => {
                proof {
                    lemma_accepted(before, position, self@);
                }
                Ok(self.state())
            },
            Err(_) => Err(GameError::InvalidMove),
        }
    }

    /// Place a marker for the current player on the (row, column) field.
    /// Returns whether the move was accepted; a move that is not accepted
    /// changes nothing.
    pub fn do_move(&mut self, row: i32, column: i32) -> (accepted: bool)
        requires
            old(self).wf(),
        ensures
            final(self).wf(),
            accepted == legal(old(self)@, Position { row, column }),
            final(self)@ == step(old(self)@, Position { row, column }),
            !accepted ==> final(self)@ == old(self)@,
            accepted && !final(self)@.status.is_over() ==> final(self)@.status
                == old(self)@.status.handed_over(),
            occupied(final(self)@.cells) >= occupied(old(self)@.cells),
    {
        let position = Position { row, column };
        self.submit_move(position).is_ok()
    }

    /// Whose turn it is, or how the game ended.
    pub fn status(&self) -> (status: Status)
        requires
            self.wf(),
        ensures
            status == self@.status,
            status == Status::PlayerXWin <==> wins(self@.cells, Owner::PlayerX),
            status == Status::PlayerOWin <==> wins(self@.cells, Owner::PlayerO),
            status == Status::Draw <==> full(self@.cells) && !wins(self@.cells, Owner::PlayerX)
                && !wins(self@.cells, Owner::PlayerO),
    {
        crate::engine::status(&self.engine)
    }

    /// The current state: the status, and with a win the winning line.
    pub fn state(&self) -> (state: State)
        requires
            self.wf(),
        ensures
            state.reports(self@.cells, self@.status),
            state is PlayerXWin <==> wins(self@.cells, Owner::PlayerX),
            state is PlayerOWin <==> wins(self@.cells, Owner::PlayerO),
            state is Draw <==> full(self@.cells) && !wins(self@.cells, Owner::PlayerX) && !wins(
                self@.cells,
                Owner::PlayerO,
            ),
    {
        match self.status() {
            Status::PlayerXMove => State::PlayerXMove,
            Status::PlayerOMove => State::PlayerOMove,
            Status::PlayerXWin => State::PlayerXWin(self.board().winning_line(Owner::PlayerX)),
            Status::PlayerOWin => State::PlayerOWin(self.board().winning_line(Owner::PlayerO)),
            Status::Draw => State::Draw,
        }
    }

    /// The move that an opponent of the given difficulty makes for the
    /// player whose turn it is, or `None` when the game is over. The move is
    /// always to a free cell. Above Easy, a cell that wins at once is taken
    /// where there is one, and else a cell in which the other player would
    /// win at once. The game itself is not changed.
    pub fn get_move(&self, difficulty: Difficulty) -> (choice: Option<Position>)
        requires
            self.wf(),
        ensures
            choice is None <==> self@.status.is_over(),
            match choice {
                Some(position) => {
                    &&& legal(self@, position)
                    &&& difficulty.heeds_threats() && !calm(self@.cells, self@.status.mover())
                        ==> urgent(self@.cells, self@.status.mover(), position.index())
                    &&& difficulty.heeds_threats() && !no_completion(
                        self@.cells,
                        self@.status.mover(),
                    ) ==> completes(self@.cells, self@.status.mover(), position.index())
                    &&& difficulty.heeds_threats() && no_completion(
                        self@.cells,
                        self@.status.mover(),
                    ) && !no_completion(self@.cells, self@.status.mover().rival()) ==> completes(
                        self@.cells,
                        self@.status.mover().rival(),
                        position.index(),
                    )
                },
                None => true,
            },
    {
        let player = match self.status().player_to_move() {
            Some(player) => player,
            None => { return None; },
        };
        let board = self.board();
        if difficulty.looks_ahead() {
            if let Some(position) = urgent_move(&board, player) {
                return Some(position);
            }
        }
        let choice = suggest(&self.engine, difficulty.search());
        confirm(&board, choice)
    }

    /// Let an opponent of the difficulty that `selector` stands for make
    /// the next move. The move made is returned. A selector that is not
    /// recognised fails with `InvalidDifficulty`, a game that is over with
    /// `NoMoveAvailable`; neither changes the game.
    pub fn ai_move(&mut self, selector: u8) -> (outcome: Result<Position, GameError>)
        requires
            old(self).wf(),
        ensures
            final(self).wf(),
            match outcome {
                Ok(position) => {
                    &&& Difficulty::decode(selector) is Some
                    &&& legal(old(self)@, position)
                    &&& final(self)@ == step(old(self)@, position)
                    &&& Difficulty::decode(selector).unwrap().heeds_threats() && !calm(
                        old(self)@.cells,
                        old(self)@.status.mover(),
                    ) ==> urgent(old(self)@.cells, old(self)@.status.mover(), position.index())
                },
                Err(error) => {
                    &&& final(self)@ == old(self)@
                    &&& error == if Difficulty::decode(selector) is None {
                        GameError::InvalidDifficulty
                    } else {
                        GameError::NoMoveAvailable
                    }
                    &&& Difficulty::decode(selector) is None || old(self)@.status.is_over()
                },
            },
            outcome is Ok <==> Difficulty::decode(selector) is Some && !old(self)@.status.is_over(),
    {
        let difficulty = match Difficulty::from_selector(selector) {
            Ok(difficulty) => difficulty,
            Err(error) => { return Err(error); },
        };
        match self.get_move(difficulty) {
            Some(position) => {
                let _ = self.submit_move(position);
                Ok(position)
            },
            None => Err(GameError::NoMoveAvailable),
        }
    }

    /// Choose a move with AI and place it on the board. `difficulty` is a
    /// byte that selects the level: 0, 1 or 2. Returns whether a move was
    /// made: none is made for any other byte, nor in a game that is over.
    pub fn do_ai_move(&mut self, difficulty: u8) -> (moved: bool)
        requires
            old(self).wf(),
        ensures
            final(self).wf(),
            moved == (difficulty <= 2 && !old(self)@.status.is_over()),
            !moved ==> final(self)@ == old(self)@,
            moved ==> exists|position: Position|
                {
                    &&& legal(old(self)@, position)
                    &&& final(self)@ == #[trigger] step(old(self)@, position)
                    &&& Difficulty::decode(difficulty).unwrap().heeds_threats() && !calm(
                        old(self)@.cells,
                        old(self)@.status.mover(),
                    ) ==> urgent(old(self)@.cells, old(self)@.status.mover(), position.index())
                },
            moved ==> occupied(final(self)@.cells) == occupied(old(self)@.cells) + 1,
    {
        let outcome = self.ai_move(difficulty);
        proof {
            if let Ok(position) = outcome {
                lemma_step_consistent(old(self)@, position);
            }
        }
        outcome.is_ok()
    }

    /// A snapshot of the nine cells.
    pub fn board(&self) -> (board: Board)
        requires
            self.wf(),
        ensures
            board@ == self@.cells,
    {
        let cells = squares(&self.engine);
        let mut board = Board::empty();
        let mut index: usize = 0;
        while index < 9
            invariant
                index <= 9,
                cells@.len() == 9,
                forall|i: int| 0 <= i < index ==> board@[i] == cells@[i],
            decreases 9 - index,
        {
            board.cells[index] = cells[index];
            index += 1;
        }
        assert(board@ =~= cells@);
        board
    }

    /// Every cell with its position, in row-major order.
    pub fn iterate_cells(&self) -> (entries: Vec<(Position, Owner)>)
        requires
            self.wf(),
        ensures
            entries@ == Seq::new(9, |i: int| (Position::at(i), self@.cells[i])),
    {
        self.board().entries()
    }

    /// Return a representation of the board as a vector of bytes: one byte
    /// for each cell in row-major order, `X`, `O`, or `.` for a free cell.
    pub fn get_board(&self) -> (bytes: Vec<u8>)
        requires
            self.wf(),
        ensures
            bytes@ == self@.cells.map_values(|owner: Owner| crate::cell::marker(owner) as u8),
    {
        self.board().to_bytes()
    }

    /// Return the current game state in words.
    pub fn get_state(&self) -> (words: String)
        requires
            self.wf(),
        ensures
            words@ == self@.status.text(),
    {
        self.status().describe()
    }

    /// Is the game over? (i.e. are there no moves possible)
    pub fn game_over(&self) -> (over: bool)
        requires
            self.wf(),
        ensures
            over == self@.status.is_over(),
            over <==> forall|position: Position| !legal(self@, position),
    {
        let over = self.status().is_game_over();
        proof {
            if !over {
                let i = choose|i: int| 0 <= i < 9 && self@.cells[i] == Owner::Nobody;
                assert(legal(self@, Position::at(i)));
            }
        }
        over
    }
}

} // verus!
