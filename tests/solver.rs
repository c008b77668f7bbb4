use t3elric::board::{BestMove, Board, Cell, Player, TimeSetting};
use t3elric::evaluator::SCALE;
use t3elric::scorer::{DumbScorer, GreedyScorer};
use t3elric::solver::{FirstMoveSolver, GreedySolver, LookAheadSolver, Solver};
use t3elric::state::BoardState;

use Cell::{Playable, Played};

fn state(player: Player, rows: Vec<Vec<Cell>>, win_length: Option<u32>) -> BoardState {
    BoardState::new(player, Board::new(rows), TimeSetting::Infinite, win_length)
}

#[test]
fn should_find_winning_move1() {
    let mut board_state = state(
        Player::X,
        vec![
            vec![Played(Player::O), Playable, Playable],
            vec![Playable, Played(Player::O), Played(Player::O)],
            vec![Playable, Played(Player::X), Played(Player::X)],
        ],
        None,
    );
    let best_move = GreedySolver::default().solve(&mut board_state).0;
    assert_eq!(best_move, Some(BestMove::new(2, 0)));
}

#[test]
fn should_block_winning_move1() {
    let mut board_state = state(
        Player::X,
        vec![
            vec![Playable, Playable, Playable],
            vec![Played(Player::X), Played(Player::X), Played(Player::O)],
            vec![Playable, Playable, Played(Player::O)],
        ],
        None,
    );
    let best_move = GreedySolver::default().solve(&mut board_state).0;
    assert_eq!(best_move, Some(BestMove::new(0, 2)));
}

#[test]
fn should_find_winning_move2() {
    let mut board_state = state(
        Player::O,
        vec![
            vec![Played(Player::O), Played(Player::X), Played(Player::O)],
            vec![Playable, Played(Player::O), Played(Player::X)],
            vec![Playable, Played(Player::X), Played(Player::X)],
        ],
        None,
    );
    let best_move = GreedySolver::default().solve(&mut board_state).0;
    assert_eq!(best_move, Some(BestMove::new(2, 0)));
}

#[test]
fn should_find_winning_move3() {
    let mut board_state = state(
        Player::X,
        vec![
            vec![Played(Player::O), Playable, Playable],
            vec![Playable, Played(Player::X), Played(Player::O)],
            vec![Playable, Played(Player::X), Played(Player::O)],
        ],
        None,
    );
    let best_move = GreedySolver::default().solve(&mut board_state).0;
    assert_eq!(best_move, Some(BestMove::new(0, 1)));
}

#[test]
fn should_block_winning_move2() {
    let mut board_state = state(
        Player::O,
        vec![
            vec![Played(Player::O), Playable, Playable],
            vec![Played(Player::X), Played(Player::X), Played(Player::O)],
            vec![Played(Player::X), Played(Player::O), Played(Player::X)],
        ],
        None,
    );
    let best_move = GreedySolver::default().solve(&mut board_state).0;
    assert_eq!(best_move, Some(BestMove::new(0, 2)));
}

#[test]
fn should_find_winning_move4() {
    let mut board_state = state(
        Player::X,
        vec![
            vec![Played(Player::O), Played(Player::X), Playable],
            vec![Playable, Played(Player::X), Playable],
            vec![Playable, Played(Player::O), Playable],
        ],
        None,
    );
    // No move wins here. At (0, 2) the row and the anti-diagonal each give X one
    // mark, a line sum of 2, which beats the amplified 1.5 of (1, 0).
    let best_move = GreedySolver::default().solve(&mut board_state).0;
    assert_eq!(best_move, Some(BestMove::new(0, 2)));
}

#[test]
fn should_block_winning_move3() {
    let mut board_state = state(
        Player::O,
        vec![
            vec![Played(Player::O), Played(Player::X), Playable],
            vec![Playable, Played(Player::X), Playable],
            vec![Playable, Playable, Playable],
        ],
        None,
    );
    let best_move = GreedySolver::default().solve(&mut board_state).0;
    assert_eq!(best_move, Some(BestMove::new(2, 1)));
}

#[test]
fn should_find_winning_move5() {
    let mut board_state = state(
        Player::O,
        vec![
            vec![Playable, Playable, Playable, Playable, Played(Player::O)],
            vec![Playable, Playable, Playable, Played(Player::X), Playable],
            vec![Playable, Playable, Played(Player::O), Playable, Playable],
            vec![Playable, Played(Player::X), Playable, Playable, Playable],
            vec![Played(Player::X), Playable, Playable, Playable, Playable],
        ],
        Some(3),
    );
    // No move wins here; (0, 0) is the first cell of highest greedy value.
    let best_move = GreedySolver::default().solve(&mut board_state).0;
    assert_eq!(best_move, Some(BestMove::new(0, 0)));
}

#[test]
fn should_find_winning_move6() {
    let mut board_state = state(
        Player::X,
        vec![
            vec![Playable, Playable, Playable, Playable, Playable],
            vec![Playable, Playable, Playable, Playable, Playable],
            vec![Playable, Playable, Played(Player::O), Playable, Playable],
            vec![Playable, Played(Player::X), Playable, Playable, Playable],
            vec![Played(Player::X), Playable, Playable, Playable, Playable],
        ],
        Some(3),
    );
    // The two X marks sit on an anti-diagonal that O blocks, so no move wins;
    // (2, 0) is the first cell of highest greedy value.
    let best_move = GreedySolver::default().solve(&mut board_state).0;
    assert_eq!(best_move, Some(BestMove::new(2, 0)));
}

#[test]
fn should_block() {
    let mut board_state = state(
        Player::X,
        vec![
            vec![Playable, Playable, Playable],
            vec![Played(Player::X), Played(Player::X), Played(Player::O)],
            vec![Playable, Playable, Played(Player::O)],
        ],
        None,
    );
    let (mve, _score) = LookAheadSolver::new(GreedyScorer::default(), 2).solve(&mut board_state);
    assert_eq!(mve, Some(BestMove::new(0, 2)));
}

#[test]
fn end_to_end_completes_the_row() {
    let rows = vec![
        vec![Played(Player::O), Playable, Playable],
        vec![Playable, Played(Player::O), Played(Player::O)],
        vec![Playable, Played(Player::X), Played(Player::X)],
    ];
    let mut greedy = state(Player::X, rows.clone(), Some(3));
    assert_eq!(GreedySolver::default().solve(&mut greedy).0, Some(BestMove::new(2, 0)));
    let mut deep = state(Player::X, rows, Some(3));
    let (mve, score) = LookAheadSolver::new(GreedyScorer::default(), 2).solve(&mut deep);
    assert_eq!(mve, Some(BestMove::new(2, 0)));
    assert_eq!(score, 10000 * SCALE);
}

#[test]
fn end_to_end_blocks_the_column() {
    let rows = vec![
        vec![Playable, Playable, Playable],
        vec![Played(Player::X), Played(Player::X), Played(Player::O)],
        vec![Playable, Playable, Played(Player::O)],
    ];
    let mut greedy = state(Player::X, rows.clone(), Some(3));
    assert_eq!(GreedySolver::default().solve(&mut greedy).0, Some(BestMove::new(0, 2)));
    let mut deep = state(Player::X, rows, Some(3));
    assert_eq!(
        LookAheadSolver::new(GreedyScorer::default(), 2).solve(&mut deep).0,
        Some(BestMove::new(0, 2))
    );
}

#[test]
fn greedy_takes_a_near_win_at_once() {
    let mut s = state(
        Player::X,
        vec![vec![Played(Player::X), Played(Player::X), Playable, Playable]],
        Some(3),
    );
    assert_eq!(GreedySolver::default().solve(&mut s), (Some(BestMove::new(0, 2)), 1000 * SCALE));
}

#[test]
fn greedy_keeps_the_first_of_equal_moves() {
    let mut s = state(Player::X, vec![vec![Playable; 3]; 3], None);
    let (mve, score) = GreedySolver::default().solve(&mut s);
    assert_eq!(mve, Some(BestMove::new(0, 0)));
    assert_eq!(score, SCALE);
}

#[test]
fn solvers_without_moves() {
    let full = vec![
        vec![Played(Player::X), Played(Player::O)],
        vec![Played(Player::O), Played(Player::X)],
    ];
    let mut a = state(Player::X, full.clone(), Some(3));
    assert_eq!(GreedySolver::default().solve(&mut a), (None, -SCALE));
    let mut b = state(Player::X, full.clone(), Some(3));
    assert_eq!(FirstMoveSolver.solve(&mut b), (None, -SCALE));
    let mut c = state(Player::X, full, Some(3));
    assert_eq!(LookAheadSolver::new(DumbScorer, 3).solve(&mut c), (None, 0));
}

#[test]
fn first_move_solver_takes_the_first_playable_cell() {
    let mut s = state(
        Player::O,
        vec![vec![Played(Player::X), Cell::NonPlayable], vec![Played(Player::O), Playable]],
        None,
    );
    assert_eq!(FirstMoveSolver.solve(&mut s), (Some(BestMove::new(1, 1)), 100 * SCALE));
}

fn minimax(state: &BoardState, depth: u32, maximizing: bool) -> i128 {
    let mut copy = state.clone();
    let moves = state.get_possible_moves();
    if depth == 0 || state.is_game_over() || moves.is_empty() {
        return t3elric::scorer::Scorer::score(&GreedyScorer::default(), &mut copy);
    }
    let values = moves
        .iter()
        .map(|m| minimax(&state.apply_move(m), depth - 1, !maximizing));
    if maximizing {
        values.max().unwrap()
    } else {
        values.min().unwrap()
    }
}

#[test]
fn alpha_beta_matches_plain_minimax() {
    let positions = vec![
        state(
            Player::X,
            vec![
                vec![Played(Player::O), Playable, Playable],
                vec![Playable, Played(Player::X), Playable],
                vec![Playable, Playable, Played(Player::O)],
            ],
            None,
        ),
        state(
            Player::O,
            vec![
                vec![Played(Player::X), Playable, Playable],
                vec![Playable, Playable, Playable],
                vec![Playable, Playable, Played(Player::X)],
            ],
            None,
        ),
    ];
    for p in positions {
        for depth in 1..4 {
            let maximizing = p.player_to_move == Player::X;
            let expected = minimax(&p, depth, maximizing);
            let mut copy = p.clone();
            let (mve, score) = LookAheadSolver::new(GreedyScorer::default(), depth).solve(&mut copy);
            assert_eq!(score, expected);
            let m = mve.unwrap();
            assert_eq!(minimax(&p.apply_move(&m), depth - 1, !maximizing), expected);
        }
    }
}

#[test]
fn alpha_beta_full_depth_on_an_almost_full_board() {
    let mut s = state(
        Player::X,
        vec![
            vec![Played(Player::X), Played(Player::O), Played(Player::X)],
            vec![Played(Player::O), Played(Player::O), Playable],
            vec![Playable, Played(Player::X), Playable],
        ],
        None,
    );
    let expected = minimax(&s, 9, true);
    let (mve, score) = LookAheadSolver::new(GreedyScorer::default(), 9).solve(&mut s);
    assert_eq!(score, expected);
    assert_eq!(mve, Some(BestMove::new(1, 2)));
}

#[test]
fn near_win_shortcut_takes_the_first_line_one_short() {
    // (0, 0) sees two X marks along its row with room to spare, one short of three,
    // and comes first; (0, 2) would complete a run of three.
    let mut s = state(
        Player::X,
        vec![vec![Playable, Played(Player::X), Playable, Played(Player::X)]],
        Some(3),
    );
    assert_eq!(GreedySolver::default().solve(&mut s), (Some(BestMove::new(0, 0)), 1000 * SCALE));
}
