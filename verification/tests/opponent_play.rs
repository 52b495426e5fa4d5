use tictactoe::engine::Search;
use tictactoe::opponent::{confirm, urgent_move};
use tictactoe::{Board, Difficulty, Game, GameError, Owner, Position, Status};

const X: Owner = Owner::PlayerX;
const O: Owner = Owner::PlayerO;
const N: Owner = Owner::Nobody;

const LEVELS: [Difficulty; 3] = [Difficulty::Easy, Difficulty::Medium, Difficulty::Hard];

fn cell(row: i32, column: i32) -> Position {
    Position { row, column }
}

fn game_after(moves: &[(i32, i32)]) -> Game {
    let mut game = Game::new();
    for &(row, column) in moves {
        assert!(game.do_move(row, column), "move ({row}, {column}) was refused");
    }
    game
}

fn count_taken(game: &Game) -> usize {
    game.get_board().iter().filter(|&&byte| byte != b'.').count()
}

/// Plays one game between two levels and returns how it ended.
fn contest(x_level: u8, o_level: u8) -> Status {
    let mut game = Game::new();
    let mut moves = 0;
    while !game.game_over() {
        let level = if game.status() == Status::PlayerXMove { x_level } else { o_level };
        assert!(game.do_ai_move(level));
        moves += 1;
        assert_eq!(count_taken(&game), moves);
    }
    assert!(moves >= 5 && moves <= 9);
    game.status()
}

#[test]
fn selectors_zero_to_two_are_the_three_levels() {
    assert_eq!(Difficulty::from_selector(0), Ok(Difficulty::Easy));
    assert_eq!(Difficulty::from_selector(1), Ok(Difficulty::Medium));
    assert_eq!(Difficulty::from_selector(2), Ok(Difficulty::Hard));
}

#[test]
fn other_selectors_are_not_recognised() {
    for selector in 3..=255u8 {
        assert_eq!(Difficulty::from_selector(selector), Err(GameError::InvalidDifficulty));
    }
}

#[test]
fn levels_above_easy_look_ahead() {
    assert!(!Difficulty::Easy.looks_ahead());
    assert!(Difficulty::Medium.looks_ahead());
    assert!(Difficulty::Hard.looks_ahead());
}

#[test]
fn only_hard_searches_the_whole_game() {
    assert_eq!(Difficulty::Easy.search(), Search::Blind);
    assert_eq!(Difficulty::Medium.search(), Search::Blind);
    assert_eq!(Difficulty::Hard.search(), Search::Exhaustive);
}

#[test]
fn unrecognised_difficulty_fails_and_leaves_the_board() {
    let mut game = game_after(&[(1, 1), (0, 0)]);
    for selector in [3u8, 4, 100, 255] {
        assert!(!game.do_ai_move(selector));
        assert_eq!(game.ai_move(selector), Err(GameError::InvalidDifficulty));
        assert_eq!(game.get_board(), b"O...X....".to_vec());
        assert_eq!(game.get_state(), "Player X moves");
    }
}

#[test]
fn unrecognised_difficulty_is_told_apart_from_a_finished_game() {
    let mut game = game_after(&[(0, 0), (1, 1), (0, 1), (2, 1), (0, 2)]);
    assert_eq!(game.ai_move(9), Err(GameError::InvalidDifficulty));
    assert_eq!(game.ai_move(1), Err(GameError::NoMoveAvailable));
}

#[test]
fn no_move_is_offered_on_a_full_board() {
    let mut game = game_after(&[
        (0, 0),
        (0, 1),
        (0, 2),
        (1, 1),
        (1, 0),
        (1, 2),
        (2, 1),
        (2, 0),
        (2, 2),
    ]);
    assert_eq!(game.status(), Status::Draw);
    for level in LEVELS {
        assert_eq!(game.get_move(level), None);
    }
    for selector in 0..3u8 {
        assert!(!game.do_ai_move(selector));
        assert_eq!(game.ai_move(selector), Err(GameError::NoMoveAvailable));
    }
    assert_eq!(game.get_board(), b"XOXXOOOXX".to_vec());
}

#[test]
fn no_move_is_offered_after_a_win() {
    let mut game = game_after(&[(0, 0), (1, 1), (0, 1), (2, 1), (0, 2)]);
    for level in LEVELS {
        assert_eq!(game.get_move(level), None);
    }
    for selector in 0..3u8 {
        assert!(!game.do_ai_move(selector));
    }
    assert_eq!(game.get_board(), b"XXX.O..O.".to_vec());
}

#[test]
fn every_level_offers_a_free_cell() {
    let game = game_after(&[(1, 1), (0, 0), (2, 2)]);
    for level in LEVELS {
        for _ in 0..20 {
            let position = game.get_move(level).unwrap();
            assert!(game.can_move(position));
        }
    }
    assert_eq!(game.get_board(), b"O...X...X".to_vec());
}

#[test]
fn easy_opens_anywhere_on_the_grid() {
    let game = Game::new();
    for _ in 0..50 {
        let position = game.get_move(Difficulty::Easy).unwrap();
        assert!((0..3).contains(&position.row) && (0..3).contains(&position.column));
    }
}

#[test]
fn get_move_does_not_change_the_game() {
    let game = game_after(&[(0, 0)]);
    for level in LEVELS {
        let _ = game.get_move(level);
        assert_eq!(game.get_board(), b"X........".to_vec());
        assert_eq!(game.get_state(), "Player O moves");
    }
}

#[test]
fn ai_move_makes_exactly_one_move() {
    for selector in 0..3u8 {
        let mut game = game_after(&[(1, 1)]);
        let before = game.get_board();
        let position = game.ai_move(selector).unwrap();
        let after = game.get_board();
        let index = (position.row * 3 + position.column) as usize;
        assert_eq!(before[index], b'.');
        assert_eq!(after[index], b'O');
        for other in 0..9 {
            if other != index {
                assert_eq!(before[other], after[other]);
            }
        }
        assert_eq!(game.get_state(), "Player X moves");
    }
}

#[test]
fn do_ai_move_takes_one_more_cell() {
    for selector in 0..3u8 {
        let mut game = Game::new();
        assert!(game.do_ai_move(selector));
        assert_eq!(count_taken(&game), 1);
        assert_eq!(game.get_state(), "Player O moves");
        assert!(game.do_ai_move(selector));
        assert_eq!(count_taken(&game), 2);
        assert_eq!(game.get_state(), "Player X moves");
    }
}

#[test]
fn medium_takes_the_winning_cell() {
    // X X .
    // O O .
    // . . .
    let game = game_after(&[(0, 0), (1, 0), (0, 1), (1, 1)]);
    for _ in 0..30 {
        assert_eq!(game.get_move(Difficulty::Medium), Some(cell(0, 2)));
    }
    let mut game = game;
    assert_eq!(game.ai_move(1), Ok(cell(0, 2)));
    assert_eq!(game.status(), Status::PlayerXWin);
}

#[test]
fn medium_wins_as_o_too() {
    // X X .
    // O O .
    // X . .
    let mut game = game_after(&[(0, 0), (1, 0), (0, 1), (1, 1), (2, 0)]);
    assert_eq!(game.get_move(Difficulty::Medium), Some(cell(1, 2)));
    assert!(game.do_ai_move(1));
    assert_eq!(game.get_state(), "Player O wins");
}

#[test]
fn medium_blocks_when_it_cannot_win() {
    // X X .
    // . O .
    // . . .
    let mut game = game_after(&[(0, 0), (1, 1), (0, 1)]);
    for _ in 0..30 {
        assert_eq!(game.get_move(Difficulty::Medium), Some(cell(0, 2)));
    }
    assert_eq!(game.ai_move(1), Ok(cell(0, 2)));
    assert_eq!(game.get_board(), b"XXO.O....".to_vec());
    assert_eq!(game.status(), Status::PlayerXMove);
}

#[test]
fn medium_takes_the_first_of_two_winning_cells() {
    // X X .
    // X O O
    // . . O
    let game = game_after(&[(0, 0), (1, 1), (0, 1), (2, 2), (1, 0), (1, 2)]);
    for _ in 0..30 {
        assert_eq!(game.get_move(Difficulty::Medium), Some(cell(0, 2)));
    }
}

#[test]
fn medium_blocks_the_first_of_two_threats() {
    // X . X
    // . O .
    // X . O
    let game = game_after(&[(0, 0), (1, 1), (0, 2), (2, 2), (2, 0)]);
    for _ in 0..30 {
        assert_eq!(game.get_move(Difficulty::Medium), Some(cell(0, 1)));
    }
}

#[test]
fn hard_wins_and_blocks_as_medium_does() {
    let winning = game_after(&[(0, 0), (1, 0), (0, 1), (1, 1)]);
    let blocking = game_after(&[(0, 0), (1, 1), (0, 1)]);
    for _ in 0..5 {
        assert_eq!(winning.get_move(Difficulty::Hard), Some(cell(0, 2)));
        assert_eq!(blocking.get_move(Difficulty::Hard), Some(cell(0, 2)));
    }
}

#[test]
fn easy_may_miss_what_medium_sees() {
    // With a win on the board Easy still picks among all six free cells.
    let game = game_after(&[(0, 0), (1, 0), (0, 1)]);
    let mut seen = [false; 9];
    for _ in 0..400 {
        let position = game.get_move(Difficulty::Easy).unwrap();
        assert!(game.can_move(position));
        seen[(position.row * 3 + position.column) as usize] = true;
    }
    assert_eq!(seen.iter().filter(|&&hit| hit).count(), 6);
}

/// Lets the other side try every free cell in turn while Hard answers, and
/// checks at the end of every line of play that Hard has not lost.
fn hard_survives(moves: &mut Vec<(i32, i32)>, hard_plays: Status, lost: Status) {
    let game = game_after(moves);
    if game.game_over() {
        assert_ne!(game.status(), lost, "Hard lost after {moves:?}");
        return;
    }
    if game.status() == hard_plays {
        let position = game.get_move(Difficulty::Hard).unwrap();
        moves.push((position.row, position.column));
        hard_survives(moves, hard_plays, lost);
        moves.pop();
    } else {
        for row in 0..3 {
            for column in 0..3 {
                if game.can_move(cell(row, column)) {
                    moves.push((row, column));
                    hard_survives(moves, hard_plays, lost);
                    moves.pop();
                }
            }
        }
    }
}

#[test]
fn hard_as_o_loses_to_no_line_of_play() {
    hard_survives(&mut Vec::new(), Status::PlayerOMove, Status::PlayerXWin);
}

#[test]
fn hard_as_x_loses_to_no_line_of_play() {
    hard_survives(&mut Vec::new(), Status::PlayerXMove, Status::PlayerOWin);
}

#[test]
fn hard_against_hard_is_a_draw() {
    for _ in 0..20 {
        assert_eq!(contest(2, 2), Status::Draw);
    }
}

#[test]
fn hard_does_not_lose_to_easy() {
    for _ in 0..6 {
        assert_ne!(contest(2, 0), Status::PlayerOWin);
        assert_ne!(contest(0, 2), Status::PlayerXWin);
    }
}

#[test]
fn hard_does_not_lose_to_medium() {
    for _ in 0..4 {
        assert_ne!(contest(2, 1), Status::PlayerOWin);
        assert_ne!(contest(1, 2), Status::PlayerXWin);
    }
}

#[test]
fn hard_answers_a_corner_with_the_centre() {
    // Every answer to a corner opening but the centre loses against best play.
    let game = game_after(&[(0, 0)]);
    for _ in 0..3 {
        assert_eq!(game.get_move(Difficulty::Hard), Some(cell(1, 1)));
    }
}

#[test]
fn games_between_any_two_levels_end() {
    for x_level in 0..2u8 {
        for o_level in 0..2u8 {
            let status = contest(x_level, o_level);
            assert!(status.is_game_over());
        }
    }
}

fn threats(board: &Board, who: Owner) -> usize {
    (0..9).filter(|&index| board.would_complete(who, index)).count()
}

#[test]
fn above_easy_no_avoidable_win_is_handed_over() {
    for level in [1u8, 2] {
        for _ in 0..40 {
            let mut game = Game::new();
            while !game.game_over() {
                let mover = game.status().player_to_move().unwrap();
                let selector = if mover == X { 0 } else { level };
                let faced = threats(&game.board(), mover.opponent());
                assert!(game.do_ai_move(selector));
                if selector == level && faced <= 1 && !game.game_over() {
                    assert_eq!(game.board().completing_cell(mover.opponent()), None);
                }
            }
        }
    }
}

#[test]
fn urgent_move_wins_before_it_blocks() {
    let board = Board { cells: [X, X, N, O, O, N, N, N, N] };
    assert_eq!(urgent_move(&board, X), Some(cell(0, 2)));
    assert_eq!(urgent_move(&board, O), Some(cell(1, 2)));
}

#[test]
fn urgent_move_blocks_when_no_win_is_at_hand() {
    let board = Board { cells: [X, X, N, N, O, N, N, N, N] };
    assert_eq!(urgent_move(&board, O), Some(cell(0, 2)));
}

#[test]
fn urgent_move_is_silent_on_a_calm_board() {
    assert_eq!(urgent_move(&Board::empty(), X), None);
    let board = Board { cells: [X, N, N, N, O, N, N, N, N] };
    assert_eq!(urgent_move(&board, X), None);
    assert_eq!(urgent_move(&board, O), None);
    let full = Board { cells: [X, O, X, X, O, O, O, X, X] };
    assert_eq!(urgent_move(&full, X), None);
}

#[test]
fn confirm_keeps_a_proposal_that_names_a_free_cell() {
    let board = Board { cells: [X, N, N, N, O, N, N, N, N] };
    assert_eq!(confirm(&board, Some(cell(2, 2))), Some(cell(2, 2)));
    assert_eq!(confirm(&board, Some(cell(0, 1))), Some(cell(0, 1)));
}

#[test]
fn confirm_replaces_a_proposal_that_cannot_be_played() {
    let board = Board { cells: [X, N, N, N, O, N, N, N, N] };
    assert_eq!(confirm(&board, Some(cell(0, 0))), Some(cell(0, 1)));
    assert_eq!(confirm(&board, Some(cell(1, 1))), Some(cell(0, 1)));
    assert_eq!(confirm(&board, Some(cell(3, 0))), Some(cell(0, 1)));
    assert_eq!(confirm(&board, Some(cell(0, -1))), Some(cell(0, 1)));
    assert_eq!(confirm(&board, None), Some(cell(0, 1)));
}

#[test]
fn confirm_finds_nothing_on_a_full_board() {
    let full = Board { cells: [X, O, X, X, O, O, O, X, X] };
    assert_eq!(confirm(&full, None), None);
    assert_eq!(confirm(&full, Some(cell(1, 1))), None);
}
