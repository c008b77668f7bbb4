use t3elric::board::{Board, Cell, Player, TimeSetting};
use t3elric::state::BoardState;

use Cell::{Playable, Played};

#[test]
fn test_is_game_over() {
    let board = Board::new(vec![
        vec![Played(Player::X), Played(Player::X), Played(Player::X)],
        vec![Playable, Playable, Playable],
        vec![Playable, Playable, Playable],
    ]);
    let board_state = BoardState::new(Player::X, board, TimeSetting::Infinite, Some(3));
    assert!(board_state.is_game_over(), "Game should be over as Player X has won horizontally.");
}

#[test]
fn test_draw_no_winner() {
    let board = Board::new(vec![
        vec![Played(Player::X), Played(Player::O), Played(Player::X)],
        vec![Played(Player::O), Played(Player::X), Played(Player::O)],
        vec![Played(Player::O), Played(Player::X), Played(Player::O)],
    ]);
    let board_state = BoardState::new(Player::X, board, TimeSetting::Infinite, Some(3));
    assert!(board_state.is_game_over(), "Game should be over due to a full board with no winner.");
}

#[test]
fn test_game_ongoing_with_moves_remaining() {
    let board = Board::new(vec![
        vec![Playable, Playable, Playable],
        vec![Playable, Played(Player::X), Playable],
        vec![Playable, Playable, Playable],
    ]);
    let board_state = BoardState::new(Player::X, board, TimeSetting::Infinite, Some(3));
    assert!(!board_state.is_game_over(), "Game should not be over as there are possible moves and no winner.");
}

#[test]
fn test_get_winner_player_x_wins() {
    let board = Board::new(vec![
        vec![Played(Player::X), Played(Player::X), Played(Player::X)],
        vec![Playable, Playable, Playable],
        vec![Playable, Playable, Playable],
    ]);
    let mut board_state = BoardState::new(Player::X, board, TimeSetting::Infinite, Some(3));
    assert_eq!(board_state.get_winner(), Some(Player::X), "Player X should be the winner.");
}

#[test]
fn test_get_diagonal_winner_player_x_wins() {
    let board = Board::new(vec![
        vec![Played(Player::X), Played(Player::O), Played(Player::O)],
        vec![Playable, Played(Player::X), Playable],
        vec![Playable, Playable, Played(Player::X)],
    ]);
    let mut board_state = BoardState::new(Player::X, board, TimeSetting::Infinite, Some(3));
    assert_eq!(board_state.get_winner(), Some(Player::X), "Player X should be the winner.");
}

#[test]
fn test_get_winner_player_o_wins() {
    let board = Board::new(vec![
        vec![Played(Player::O), Playable, Playable],
        vec![Played(Player::O), Playable, Playable],
        vec![Played(Player::O), Playable, Playable],
    ]);
    let mut board_state = BoardState::new(Player::O, board, TimeSetting::Infinite, Some(3));
    assert_eq!(board_state.get_winner(), Some(Player::O), "Player O should be the winner.");
}

#[test]
fn test_get_winner_draw_no_winner() {
    let board = Board::new(vec![
        vec![Played(Player::X), Played(Player::O), Played(Player::X)],
        vec![Played(Player::O), Played(Player::X), Played(Player::O)],
        vec![Played(Player::O), Played(Player::X), Played(Player::O)],
    ]);
    let mut board_state = BoardState::new(Player::X, board, TimeSetting::Infinite, Some(3));
    assert_eq!(board_state.get_winner(), None, "There should be no winner in a draw.");
}

#[test]
fn test_get_winner_ongoing_game_no_winner() {
    let board = Board::new(vec![
        vec![Playable, Playable, Playable],
        vec![Playable, Played(Player::X), Playable],
        vec![Playable, Playable, Playable],
    ]);
    let mut board_state = BoardState::new(Player::X, board, TimeSetting::Infinite, Some(3));
    assert_eq!(board_state.get_winner(), None, "There should be no winner as the game is ongoing.");
}

#[test]
fn get_winner_twice_gives_the_cached_answer() {
    let board = Board::new(vec![
        vec![Played(Player::O), Playable, Playable],
        vec![Played(Player::O), Playable, Playable],
        vec![Played(Player::O), Playable, Playable],
    ]);
    let mut board_state = BoardState::new(Player::X, board, TimeSetting::Infinite, None);
    assert_eq!(board_state.winner, None);
    assert_eq!(board_state.get_winner(), Some(Player::O));
    assert_eq!(board_state.winner, Some(Player::O));
    assert_eq!(board_state.get_winner(), Some(Player::O));
}

#[test]
fn non_mover_is_asked_first_for_the_winner() {
    let board = Board::new(vec![
        vec![Played(Player::X), Played(Player::X), Played(Player::X)],
        vec![Played(Player::O), Played(Player::O), Played(Player::O)],
        vec![Playable, Playable, Playable],
    ]);
    let mut x_to_move = BoardState::new(Player::X, board.clone(), TimeSetting::Infinite, None);
    assert_eq!(x_to_move.get_winner(), Some(Player::O));
    let mut o_to_move = BoardState::new(Player::O, board, TimeSetting::Infinite, None);
    assert_eq!(o_to_move.get_winner(), Some(Player::X));
}

#[test]
fn check_win_finds_an_off_center_diagonal() {
    let mut rows = vec![vec![Playable; 5]; 5];
    rows[1][2] = Played(Player::O);
    rows[2][3] = Played(Player::O);
    rows[3][4] = Played(Player::O);
    let board = Board::new(rows);
    assert!(board.check_win(Player::O, 3));
    assert!(!board.check_win(Player::O, 4));
    assert!(!board.check_win(Player::X, 3));
}

#[test]
fn check_win_finds_an_off_center_anti_diagonal() {
    let mut rows = vec![vec![Playable; 5]; 5];
    rows[2][0] = Played(Player::X);
    rows[1][1] = Played(Player::X);
    rows[0][2] = Played(Player::X);
    let board = Board::new(rows);
    assert!(board.check_win(Player::X, 3));
    assert!(!board.check_win(Player::O, 1));
}

#[test]
fn check_win_in_a_column_and_a_row() {
    let mut rows = vec![vec![Playable; 4]; 4];
    rows[1][3] = Played(Player::X);
    rows[2][3] = Played(Player::X);
    rows[3][3] = Played(Player::X);
    rows[0][0] = Played(Player::O);
    rows[0][1] = Played(Player::O);
    let board = Board::new(rows);
    assert!(board.check_win(Player::X, 3));
    assert!(!board.check_win(Player::X, 4));
    assert!(board.check_win(Player::O, 2));
    assert!(!board.check_win(Player::O, 3));
}

#[test]
fn possible_moves_are_row_major() {
    let board = Board::new(vec![
        vec![Played(Player::X), Playable, Cell::NonPlayable],
        vec![Playable, Played(Player::O), Playable],
    ]);
    let state = BoardState::new(Player::X, board, TimeSetting::Infinite, None);
    let moves = state.get_possible_moves();
    let coords: Vec<(u32, u32)> = moves.iter().map(|m| (m.0, m.1)).collect();
    assert_eq!(coords, vec![(0, 1), (1, 0), (1, 2)]);
    assert_eq!(state.win_length, 2);
}

#[test]
fn apply_move_leaves_the_parent_and_clears_the_winner() {
    let board = Board::new(vec![
        vec![Played(Player::X), Played(Player::X), Played(Player::X)],
        vec![Playable, Playable, Playable],
        vec![Playable, Playable, Playable],
    ]);
    let mut parent = BoardState::new(Player::O, board, TimeSetting::Infinite, Some(3));
    assert_eq!(parent.get_winner(), Some(Player::X));
    let before = parent.clone();
    let child = parent.apply_move(&t3elric::board::BestMove::new(1, 1));
    assert_eq!(parent, before);
    assert_eq!(child.winner, None);
    assert_eq!(child.player_to_move, Player::X);
    assert_eq!(child.win_length, 3);
    assert_eq!(child.board.cell(1, 1), Played(Player::O));
    assert_eq!(parent.board.cell(1, 1), Playable);
}

#[test]
fn zero_win_length_is_met_by_any_mark() {
    let board = Board::new(vec![vec![Playable, Played(Player::O)]]);
    assert!(board.check_win(Player::O, 0));
    assert!(!board.check_win(Player::X, 0));
}
