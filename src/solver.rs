use vstd::prelude::*;

use crate::board::{moves_of, playable, BestMove, Player};
use crate::evaluator::{best_line_part, greedy_value, GreedyEvaluator, SCALE};
use crate::scorer::{Scorer, SCORE_LIMIT};
use crate::state::{game_over, play, BoardState, Position};

verus! {

/// Picks a move for the player to move, with a score for it.
pub trait Solver {
    /// The move, or `None` where the solver has none to give, and a score. `state`
    /// keeps its position; it may cache the winner.
    fn solve(&self, state: &mut BoardState) -> (r: (Option<BestMove>, i128))
        requires
            old(state).wf(),
        ensures
            final(state).wf(),
            final(state)@ == old(state)@,
            final(state).time_setting == old(state).time_setting,
            r.0 matches Some(m) ==> playable(old(state).board@, m.0 as int, m.1 as int),
    ;
}

/// Takes the first playable cell in row-major order.
pub struct FirstMoveSolver;

/// The score the first-move solver gives a move it found.
pub const FIRST_MOVE_POINTS: i128 = 100;

impl Solver for FirstMoveSolver {
    fn solve(&self, state: &mut BoardState) -> (r: (Option<BestMove>, i128))
        ensures
            moves_of(old(state).board@).len() == 0 ==> r.0 is None && r.1 == -SCALE,
            moves_of(old(state).board@).len() > 0 ==> r.0 == Some(moves_of(old(state).board@)[0])
                && r.1 == FIRST_MOVE_POINTS * SCALE,
    {
        let moves = state.get_possible_moves();
        if moves.len() == 0 {
            (None, -SCALE)
        } else {
            (Some(moves[0]), FIRST_MOVE_POINTS * SCALE)
        }
    }
}

/// The score the greedy solver gives a move that is one mark short of a win.
pub const NEAR_WIN_POINTS: i128 = 1000;

/// The mover's best line through `m` is one mark short of the win length.
pub open spec fn near_win(pos: Position, m: BestMove) -> bool {
    best_line_part(pos, m.0 as int, m.1 as int, pos.mover) == (pos.win_length - 1) * SCALE
}

/// What the greedy solver thinks of the mover taking `m`.
pub open spec fn greedy_move_value(pos: Position, m: BestMove) -> int {
    greedy_value(pos, m.0 as int, m.1 as int, pos.mover)
}

/// Looks one ply ahead with the greedy evaluator.
pub struct GreedySolver {
    evaluator: GreedyEvaluator,
}

impl GreedySolver {
    pub fn new() -> (r: Self) {
        GreedySolver { evaluator: GreedyEvaluator::new() }
    }
}

impl Solver for GreedySolver {
    /// Goes through the moves in row-major order. The first move that is one mark
    /// short of a win is taken at once; without one, the first move of highest
    /// greedy value is taken.
    fn solve(&self, state: &mut BoardState) -> (r: (Option<BestMove>, i128))
        ensures
            ({
                let pos = old(state)@;
                let ms = moves_of(pos.grid);
                &&& ms.len() == 0 ==> r.0 is None && r.1 == -SCALE
                &&& ms.len() > 0 ==> exists|i: int|
                    0 <= i < ms.len() && r.0 == Some(ms[i]) && (forall|j: int|
                        0 <= j < i ==> !#[trigger] near_win(pos, ms[j])) && ({
                        ||| near_win(pos, ms[i]) && r.1 == NEAR_WIN_POINTS * SCALE
                        ||| (forall|j: int| 0 <= j < ms.len() ==> !#[trigger] near_win(pos, ms[j]))
                            && r.1 == greedy_move_value(pos, ms[i]) && (forall|j: int|
                            0 <= j < ms.len() ==> #[trigger] greedy_move_value(pos, ms[j])
                                <= r.1) && (forall|j: int|
                            0 <= j < i ==> #[trigger] greedy_move_value(pos, ms[j]) < r.1)
                    })
            }),
    {
        let ghost pos = state@;
        let moves = state.get_possible_moves();
        let ghost ms = moves@;
        let mover = state.player_to_move;
        let target: i128 = (state.win_length as i128 - 1) * SCALE;
        let mut best_score: i128 = -SCALE;
        let mut best: usize = 0;
        let mut t: usize = 0;
        while t < moves.len()
            invariant
                state.wf(),
                pos == state@,
                ms == moves@,
                ms == moves_of(pos.grid),
                forall|k: int|
                    0 <= k < ms.len() ==> playable(pos.grid, #[trigger] ms[k].0 as int, ms[k].1 as int),
                mover == pos.mover,
                target == (pos.win_length - 1) * SCALE,
                t <= ms.len(),
                forall|j: int| 0 <= j < t ==> !#[trigger] near_win(pos, ms[j]),
                t == 0 ==> best_score == -SCALE,
                t > 0 ==> best < t && best_score == greedy_move_value(pos, ms[best as int]),
                forall|j: int| 0 <= j < t ==> #[trigger] greedy_move_value(pos, ms[j]) <= best_score,
                forall|j: int| 0 <= j < best ==> #[trigger] greedy_move_value(pos, ms[j]) < best_score,
            decreases ms.len() - t,
        {
            let m = moves[t];
            let (winning, blocking, line, sum) = self.evaluator.parts(
                state,
                m.0 as usize,
                m.1 as usize,
                mover,
            );
            if line == target {
                assert(near_win(pos, ms[t as int]));
                return (Some(m), NEAR_WIN_POINTS * SCALE);
            }
            let mut value: i128 = 0;
            if line > value {
                value = line;
            }
            if winning > value {
                value = winning;
            }
            if blocking > value {
                value = blocking;
            }
            if sum > value {
                value = sum;
            }
            assert(value == greedy_move_value(pos, m));
            if value > best_score {
                best_score = value;
                best = t;
            }
            t += 1;
        }
        if moves.len() == 0 {
            (None, -SCALE)
        } else {
            (Some(moves[best]), best_score)
        }
    }
}

pub open spec fn min2(a: int, b: int) -> int {
    if a <= b {
        a
    } else {
        b
    }
}

pub open spec fn max_of(a: int, b: int) -> int {
    if a >= b {
        a
    } else {
        b
    }
}

/// The largest of `vals` when `maximizing`, else the smallest.
pub open spec fn best_of(vals: Seq<int>, maximizing: bool) -> int
    decreases vals.len(),
{
    if vals.len() <= 1 {
        vals[0]
    } else if maximizing {
        max_of(best_of(vals.drop_last(), maximizing), vals.last())
    } else {
        min2(best_of(vals.drop_last(), maximizing), vals.last())
    }
}

/// Plain minimax with `sc` at the leaves: a position is a leaf at depth zero, when
/// it is over, or when no move is left.
pub open spec fn minimax<S: Scorer>(sc: S, pos: Position, depth: nat, maximizing: bool) -> int
    decreases depth, 1nat,
{
    if is_leaf(pos, depth) {
        sc.spec_score(pos)
    } else {
        best_of(child_values(sc, pos, depth, maximizing), maximizing)
    }
}

/// The minimax values of the moves of `pos`, in the order of `moves_of`.
pub open spec fn child_values<S: Scorer>(
    sc: S,
    pos: Position,
    depth: nat,
    maximizing: bool,
) -> Seq<int>
    decreases depth, 0nat,
{
    let ms = moves_of(pos.grid);
    if depth == 0 {
        seq![]
    } else {
        Seq::new(
            ms.len(),
            |i: int| minimax(sc, play(pos, ms[i]), (depth - 1) as nat, !maximizing),
        )
    }
}

pub open spec fn is_leaf(pos: Position, depth: nat) -> bool {
    depth == 0 || game_over(pos) || moves_of(pos.grid).len() == 0
}

proof fn lemma_best_of(vals: Seq<int>, maximizing: bool)
    requires
        vals.len() > 0,
    ensures
        exists|i: int| 0 <= i < vals.len() && vals[i] == best_of(vals, maximizing),
        maximizing ==> forall|i: int| 0 <= i < vals.len() ==> #[trigger] vals[i] <= best_of(vals, maximizing),
        !maximizing ==> forall|i: int| 0 <= i < vals.len() ==> #[trigger] vals[i] >= best_of(vals, maximizing),
    decreases vals.len(),
{
    if vals.len() > 1 {
        let d = vals.drop_last();
        lemma_best_of(d, maximizing);
        let i0 = choose|i: int| 0 <= i < d.len() && d[i] == best_of(d, maximizing);
        assert(vals[i0] == d[i0]);
        assert forall|i: int| 0 <= i < vals.len() - 1 implies vals[i] == #[trigger] d[i] by {}
        if maximizing {
            assert forall|i: int| 0 <= i < vals.len() implies #[trigger] vals[i] <= best_of(
                vals,
                maximizing,
            ) by {
                if i < vals.len() - 1 {
                    assert(vals[i] == d[i]);
                }
            }
        } else {
            assert forall|i: int| 0 <= i < vals.len() implies #[trigger] vals[i] >= best_of(
                vals,
                maximizing,
            ) by {
                if i < vals.len() - 1 {
                    assert(vals[i] == d[i]);
                }
            }
        }
        if best_of(vals, maximizing) == vals.last() {
            assert(vals[vals.len() - 1] == best_of(vals, maximizing));
        }
    } else {
        assert(vals[0] == best_of(vals, maximizing));
    }
}

/// Depth-limited minimax with alpha-beta pruning over a scorer.
pub struct LookAheadSolver<S> {
    scorer: S,
    depth: u32,
}

impl<S: Scorer> LookAheadSolver<S> {
    pub fn new(scorer: S, depth: u32) -> (r: Self)
        ensures
            r.spec_scorer() == scorer,
            r.spec_depth() == depth,
    {
        LookAheadSolver { scorer, depth }
    }

    pub closed spec fn spec_scorer(&self) -> S {
        self.scorer
    }

    pub closed spec fn spec_depth(&self) -> u32 {
        self.depth
    }

    /// Alpha-beta search in the window `(alpha, beta)`. A result inside the window is
    /// the minimax value, and its move is the first move that attains it; a result at
    /// or below `alpha` bounds the value from above, one at or above `beta` from below.
    fn alpha_beta(
        &self,
        state: &mut BoardState,
        depth: u32,
        alpha: i128,
        beta: i128,
        maximizing: bool,
    ) -> (r: (Option<BestMove>, i128))
        requires
            old(state).wf(),
            alpha < beta,
        ensures
            final(state).wf(),
            final(state)@ == old(state)@,
            final(state).time_setting == old(state).time_setting,
            -SCORE_LIMIT <= r.1 <= SCORE_LIMIT,
            r.0 matches Some(m) ==> playable(old(state).board@, m.0 as int, m.1 as int),
            ({
                let pos = old(state)@;
                let v = minimax(self.scorer, pos, depth as nat, maximizing);
                let ms = moves_of(pos.grid);
                let vals = child_values(self.scorer, pos, depth as nat, maximizing);
                &&& r.1 <= alpha ==> v <= r.1
                &&& r.1 >= beta ==> v >= r.1
                &&& alpha < r.1 < beta ==> v == r.1
                &&& is_leaf(pos, depth as nat) ==> r.0 is None
                &&& !is_leaf(pos, depth as nat) && alpha < r.1 < beta ==> exists|i: int|
                    0 <= i < ms.len() && r.0 == Some(ms[i]) && vals[i] == v && forall|j: int|
                        0 <= j < i ==> #[trigger] vals[j] != v
            }),
        decreases depth,
    {
        let ghost pos = state@;
        if depth == 0 || state.is_game_over() {
            let s = self.scorer.score(state);
            return (None, s);
        }
        let moves = state.get_possible_moves();
        if moves.len() == 0 {
            let s = self.scorer.score(state);
            return (None, s);
        }
        let ghost ms = moves@;
        let ghost vals = child_values(self.scorer, pos, depth as nat, maximizing);
        assert(minimax(self.scorer, pos, depth as nat, maximizing) == best_of(vals, maximizing));
        proof {
            lemma_best_of(vals, maximizing);
        }
        let ghost v = best_of(vals, maximizing);
        let n = moves.len();
        let mut best: usize = 0;
        let mut best_eval: i128 = if maximizing {
            i128::MIN
        } else {
            i128::MAX
        };
        let mut a = alpha;
        let mut b = beta;
        let mut t: usize = 0;
        while t < n
            invariant
                state.wf(),
                pos == state@,
                pos == old(state)@,
                old(state).time_setting == state.time_setting,
                ms == moves@,
                ms == moves_of(pos.grid),
                n == ms.len(),
                n > 0,
                depth > 0,
                vals == child_values(self.scorer, pos, depth as nat, maximizing),
                vals.len() == n,
                v == minimax(self.scorer, pos, depth as nat, maximizing),
                !is_leaf(pos, depth as nat),
                v == best_of(vals, maximizing),
                maximizing ==> forall|i: int| 0 <= i < n ==> #[trigger] vals[i] <= v,
                !maximizing ==> forall|i: int| 0 <= i < n ==> #[trigger] vals[i] >= v,
                alpha < beta,
                t <= n,
                forall|k: int|
                    0 <= k < ms.len() ==> playable(pos.grid, #[trigger] ms[k].0 as int, ms[k].1 as int),
                t == 0 ==> best_eval == (if maximizing {
                    i128::MIN
                } else {
                    i128::MAX
                }),
                t > 0 ==> -SCORE_LIMIT <= best_eval <= SCORE_LIMIT && best < t,
                maximizing ==> b == beta && a == (if best_eval > alpha {
                    best_eval
                } else {
                    alpha
                }) && best_eval < beta,
                !maximizing ==> a == alpha && b == (if best_eval < beta {
                    best_eval
                } else {
                    beta
                }) && best_eval > alpha,
                maximizing ==> forall|j: int| 0 <= j < t ==> #[trigger] vals[j] <= best_eval,
                !maximizing ==> forall|j: int| 0 <= j < t ==> #[trigger] vals[j] >= best_eval,
                maximizing && best_eval > alpha ==> vals[best as int] == best_eval && forall|j: int|
                    0 <= j < best ==> #[trigger] vals[j] < best_eval,
                !maximizing && best_eval < beta ==> vals[best as int] == best_eval && forall|j: int|
                    0 <= j < best ==> #[trigger] vals[j] > best_eval,
            decreases n - t,
        {
            let m = moves[t];
            let mut child = state.apply_move(&m);
            let (_, eval) = self.alpha_beta(&mut child, depth - 1, a, b, !maximizing);
            assert(vals[t as int] == minimax(
                self.scorer,
                play(pos, ms[t as int]),
                (depth - 1) as nat,
                !maximizing,
            ));
            if maximizing {
                if eval > best_eval {
                    best_eval = eval;
                    best = t;
                }
                if eval > a {
                    a = eval;
                }
                if b <= a {
                    assert(vals[t as int] >= eval);
                    return (Some(m), best_eval);
                }
            } else {
                if eval < best_eval {
                    best_eval = eval;
                    best = t;
                }
                if eval < b {
                    b = eval;
                }
                if b <= a {
                    assert(vals[t as int] <= eval);
                    return (Some(m), best_eval);
                }
            }
            t += 1;
        }
        (Some(moves[best]), best_eval)
    }
}

impl<S: Scorer> Solver for LookAheadSolver<S> {
    /// Searches `depth` plies; `X` maximizes the score and `O` minimizes it. The
    /// result is that of plain minimax: its value, and the first move that attains it.
    fn solve(&self, state: &mut BoardState) -> (r: (Option<BestMove>, i128))
        ensures
            ({
                let pos = old(state)@;
                let mx = pos.mover == Player::X;
                let d = self.spec_depth() as nat;
                let v = minimax(self.spec_scorer(), pos, d, mx);
                let ms = moves_of(pos.grid);
                let vals = child_values(self.spec_scorer(), pos, d, mx);
                &&& r.1 == v
                &&& is_leaf(pos, d) ==> r.0 is None
                &&& !is_leaf(pos, d) ==> exists|i: int|
                    0 <= i < ms.len() && r.0 == Some(ms[i]) && vals[i] == v && forall|j: int|
                        0 <= j < i ==> #[trigger] vals[j] != v
            }),
    {
        let maximizing = state.player_to_move == Player::X;
        let r = self.alpha_beta(state, self.depth, i128::MIN, i128::MAX, maximizing);
        assert(i128::MIN < r.1 < i128::MAX);
        assert(self.spec_scorer() == self.scorer);
        r
    }
}

impl Default for GreedySolver {
    fn default() -> (r: Self) {
        GreedySolver::new()
    }
}

} // verus!
