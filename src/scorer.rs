use vstd::prelude::*;

use crate::board::{width, Cell, Player, MAX_SIDE};
use crate::evaluator::{amplify_limit, greedy_value, Evaluator, GreedyEvaluator, SCALE};
use crate::state::{winner_of, BoardState, Position};

verus! {

/// The value of a decided position, in points, before the winner's sign.
pub const WIN_POINTS: i128 = 10000;

/// A bound on the magnitude of every score.
pub const SCORE_LIMIT: i128 = 1267650600228229401496703205376;

/// Scores a whole position: positive favours `X`, negative favours `O`.
pub trait Scorer {
    spec fn spec_score(&self, pos: Position) -> int;

    /// Scores the position; it may cache the winner in `state`, and changes nothing else.
    fn score(&self, state: &mut BoardState) -> (r: i128)
        requires
            old(state).wf(),
        ensures
            r == self.spec_score(old(state)@),
            -SCORE_LIMIT <= r <= SCORE_LIMIT,
            final(state).wf(),
            final(state)@ == old(state)@,
            final(state).time_setting == old(state).time_setting,
    ;
}

/// A scorer that has no opinion: every position is worth zero.
pub struct DumbScorer;

impl Scorer for DumbScorer {
    open spec fn spec_score(&self, pos: Position) -> int {
        0
    }

    fn score(&self, state: &mut BoardState) -> (r: i128) {
        0
    }
}

/// The greedy value of `(i, j)` for the mover, signed by the mover, when the cell
/// is playable; zero otherwise.
pub open spec fn cell_term(pos: Position, i: int, j: int) -> int {
    if pos.grid[i][j] == Cell::Playable {
        greedy_value(pos, i, j, pos.mover) * pos.mover.spec_sign()
    } else {
        0
    }
}

/// The cell terms of the first `j` cells of row `i`.
pub open spec fn row_sum(pos: Position, i: int, j: int) -> int
    decreases j,
{
    if j <= 0 {
        0
    } else {
        row_sum(pos, i, j - 1) + cell_term(pos, i, j - 1)
    }
}

/// The cell terms of the first `i` rows.
pub open spec fn grid_sum(pos: Position, i: int) -> int
    decreases i,
{
    if i <= 0 {
        0
    } else {
        grid_sum(pos, i - 1) + row_sum(pos, i - 1, width(pos.grid))
    }
}

/// The greedy score of a position: a decided position is worth `WIN_POINTS` for its
/// winner; any other is the sum of the cell terms over the board.
pub open spec fn greedy_score(pos: Position) -> int {
    match winner_of(pos) {
        Some(p) => WIN_POINTS * SCALE * p.spec_sign(),
        None => grid_sum(pos, pos.grid.len() as int),
    }
}

/// Sums the greedy evaluator over the playable cells of the board.
pub struct GreedyScorer {
    evaluator: GreedyEvaluator,
}

impl GreedyScorer {
    pub fn new() -> (r: Self) {
        GreedyScorer { evaluator: GreedyEvaluator::new() }
    }
}

impl Scorer for GreedyScorer {
    open spec fn spec_score(&self, pos: Position) -> int {
        greedy_score(pos)
    }

    fn score(&self, state: &mut BoardState) -> (r: i128) {
        if let Some(p) = state.get_winner() {
            return WIN_POINTS * SCALE * p.sign() as i128;
        }
        let ghost pos = state@;
        let l: i128 = 3 * 4294967295 * SCALE;
        assert(l == 3 * amplify_limit());
        let h = state.board.height();
        let w = state.board.width();
        let mover = state.player_to_move;
        let sign = mover.sign() as i128;
        let mut total: i128 = 0;
        let mut i: usize = 0;
        while i < h
            invariant
                state.wf(),
                pos == state@,
                h == pos.grid.len(),
                w == width(pos.grid),
                h <= MAX_SIDE,
                w <= MAX_SIDE,
                mover == pos.mover,
                sign == mover.spec_sign(),
                l == 3 * amplify_limit(),
                i <= h,
                total == grid_sum(pos, i as int),
                -(i * w * l) <= total <= i * w * l,
            decreases h - i,
        {
            let mut j: usize = 0;
            while j < w
                invariant
                    state.wf(),
                    pos == state@,
                    h == pos.grid.len(),
                    w == width(pos.grid),
                    h <= MAX_SIDE,
                    w <= MAX_SIDE,
                    mover == pos.mover,
                    sign == mover.spec_sign(),
                    l == 3 * amplify_limit(),
                    i < h,
                    j <= w,
                    total == grid_sum(pos, i as int) + row_sum(pos, i as int, j as int),
                    -(i * w * l + j * l) <= total <= i * w * l + j * l,
                decreases w - j,
            {
                assert((i * w + j + 1) * l <= MAX_SIDE * MAX_SIDE * l) by (nonlinear_arith)
                    requires
                        i < h,
                        j < w,
                        h <= MAX_SIDE,
                        w <= MAX_SIDE,
                        l >= 0,
                ;
                assert(i * w * l + j * l + l == (i * w + j + 1) * l) by (nonlinear_arith);
                assert((j + 1) * l == j * l + l) by (nonlinear_arith);
                if state.board.cell(i, j) == Cell::Playable {
                    let v = self.evaluator.score(state, i, j, mover);
                    assert(-l <= v * sign <= l) by (nonlinear_arith)
                        requires
                            -l <= v <= l,
                            sign == 1 || sign == -1,
                    ;
                    total = total + v * sign;
                }
                j += 1;
            }
            assert((i + 1) * w * l == i * w * l + w * l) by (nonlinear_arith);
            i += 1;
        }
        assert(h * w * l <= SCORE_LIMIT) by (nonlinear_arith)
            requires
                h <= MAX_SIDE,
                w <= MAX_SIDE,
                l == 3 * amplify_limit(),
        ;
        total
    }
}

impl Default for GreedyScorer {
    fn default() -> (r: Self) {
        GreedyScorer::new()
    }
}

/// How many cells of `line` are `c`.
pub open spec fn count_of(line: Seq<Cell>, c: Cell) -> int
    decreases line.len(),
{
    if line.len() == 0 {
        0
    } else {
        count_of(line.drop_last(), c) + if line.last() == c {
            1int
        } else {
            0int
        }
    }
}

/// Points for a line holding `mine` marks of a player and `theirs` of the opponent,
/// for win length `w`: full, one short, two short and single-mark lines of one side
/// only, with the sign of the side that holds them.
pub open spec fn line_points(mine: int, theirs: int, w: int) -> int {
    if theirs == 0 && mine == w {
        100
    } else if theirs == 0 && mine == w - 1 {
        50
    } else if theirs == 0 && mine == w - 2 {
        10
    } else if theirs == 0 && mine == 1 {
        1
    } else if mine == 0 && theirs == w {
        -100
    } else if mine == 0 && theirs == w - 1 {
        -50
    } else if mine == 0 && theirs == w - 2 {
        -10
    } else if mine == 0 && theirs == 1 {
        -1
    } else {
        0
    }
}

/// Scores one line for `player` by how many marks each side holds on it, in
/// fixed-point units.
pub fn evaluate_line(line: &[Cell], player: Player, win_length: usize) -> (r: i128)
    requires
        win_length >= 2,
    ensures
        r == line_points(
            count_of(line@, Cell::Played(player)),
            count_of(line@, Cell::Played(player.other())),
            win_length as int,
        ) * SCALE,
{
    let opponent = player.opponent();
    let mut mine: usize = 0;
    let mut theirs: usize = 0;
    let mut i: usize = 0;
    while i < line.len()
        invariant
            i <= line@.len(),
            opponent == player.other(),
            mine == count_of(line@.subrange(0, i as int), Cell::Played(player)),
            theirs == count_of(line@.subrange(0, i as int), Cell::Played(opponent)),
            mine + theirs <= i,
        decreases line@.len() - i,
    {
        assert(line@.subrange(0, i + 1).drop_last() =~= line@.subrange(0, i as int));
        if line[i] == Cell::Played(player) {
            mine += 1;
        } else if line[i] == Cell::Played(opponent) {
            theirs += 1;
        }
        i += 1;
    }
    assert(line@.subrange(0, line@.len() as int) =~= line@);
    let points: i128 = if theirs == 0 && mine == win_length {
        100
    } else if theirs == 0 && mine == win_length - 1 {
        50
    } else if theirs == 0 && mine == win_length - 2 {
        10
    } else if theirs == 0 && mine == 1 {
        1
    } else if mine == 0 && theirs == win_length {
        -100
    } else if mine == 0 && theirs == win_length - 1 {
        -50
    } else if mine == 0 && theirs == win_length - 2 {
        -10
    } else if mine == 0 && theirs == 1 {
        -1
    } else {
        0
    };
    points * SCALE
}

} // verus!
