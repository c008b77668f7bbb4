use vstd::prelude::*;

use crate::board::{in_bounds, Player, MAX_SIDE};
use crate::lines::{line_score, line_value};
use crate::state::{BoardState, Position};

verus! {

/// Scores are fixed-point numbers with `SCALE` units to one point. `SCALE` is the
/// least common multiple of 1 to 16, so the winning amplifier is exact for every win
/// length up to 16.
pub const SCALE: i128 = 720720;

/// The largest magnitude an evaluator may reach; it keeps a sum over a whole board
/// inside `i128`.
pub const EVAL_LIMIT: i128 = 1237940039285380274899124224;

/// Scores a playable cell: how good it is for `player` to take `(x, y)`.
pub trait Evaluator {
    /// The score, in fixed-point units.
    spec fn spec_score(&self, pos: Position, x: int, y: int, player: Player) -> int;

    /// A bound on the magnitude of every score.
    spec fn limit(&self) -> int;

    fn score(&self, state: &BoardState, x: usize, y: usize, player: Player) -> (r: i128)
        requires
            state.wf(),
            in_bounds(state.board@, x as int, y as int),
            self.limit() <= EVAL_LIMIT,
        ensures
            r == self.spec_score(state@, x as int, y as int, player),
            -self.limit() <= r <= self.limit(),
    ;
}

/// The line along the row through the cell.
pub struct RowEvaluator;

/// The line along the column through the cell.
pub struct ColumnEvaluator;

/// The better of the two diagonal lines through the cell.
pub struct DiagonalEvaluator;

pub open spec fn row_value(pos: Position, x: int, y: int, p: Player) -> int {
    line_value(pos, x, y, 0, 1, p)
}

pub open spec fn column_value(pos: Position, x: int, y: int, p: Player) -> int {
    line_value(pos, x, y, 1, 0, p)
}

pub open spec fn diagonal_value(pos: Position, x: int, y: int, p: Player) -> int {
    let a = line_value(pos, x, y, 1, 1, p);
    let b = line_value(pos, x, y, 1, -1, p);
    if a >= b {
        a
    } else {
        b
    }
}

pub open spec fn axis_limit() -> int {
    2 * MAX_SIDE * SCALE
}

impl Evaluator for RowEvaluator {
    open spec fn spec_score(&self, pos: Position, x: int, y: int, player: Player) -> int {
        row_value(pos, x, y, player) * SCALE
    }

    open spec fn limit(&self) -> int {
        axis_limit()
    }

    fn score(&self, state: &BoardState, x: usize, y: usize, player: Player) -> (r: i128) {
        line_score(state, x, y, 0, 1, player) as i128 * SCALE
    }
}

impl Evaluator for ColumnEvaluator {
    open spec fn spec_score(&self, pos: Position, x: int, y: int, player: Player) -> int {
        column_value(pos, x, y, player) * SCALE
    }

    open spec fn limit(&self) -> int {
        axis_limit()
    }

    fn score(&self, state: &BoardState, x: usize, y: usize, player: Player) -> (r: i128) {
        line_score(state, x, y, 1, 0, player) as i128 * SCALE
    }
}

impl Evaluator for DiagonalEvaluator {
    open spec fn spec_score(&self, pos: Position, x: int, y: int, player: Player) -> int {
        diagonal_value(pos, x, y, player) * SCALE
    }

    open spec fn limit(&self) -> int {
        axis_limit()
    }

    fn score(&self, state: &BoardState, x: usize, y: usize, player: Player) -> (r: i128) {
        let a = line_score(state, x, y, 1, 1, player);
        let b = line_score(state, x, y, 1, -1, player);
        let m = if a >= b {
            a
        } else {
            b
        };
        m as i128 * SCALE
    }
}

/// One of the three axis evaluators, so that they can stand in one list.
pub enum AxisEvaluator {
    Row,
    Column,
    Diagonal,
}

pub open spec fn axis_value(axis: AxisEvaluator, pos: Position, x: int, y: int, p: Player) -> int {
    match axis {
        AxisEvaluator::Row => row_value(pos, x, y, p),
        AxisEvaluator::Column => column_value(pos, x, y, p),
        AxisEvaluator::Diagonal => diagonal_value(pos, x, y, p),
    }
}

impl Evaluator for AxisEvaluator {
    open spec fn spec_score(&self, pos: Position, x: int, y: int, player: Player) -> int {
        axis_value(*self, pos, x, y, player) * SCALE
    }

    open spec fn limit(&self) -> int {
        axis_limit()
    }

    fn score(&self, state: &BoardState, x: usize, y: usize, player: Player) -> (r: i128) {
        match self {
            AxisEvaluator::Row => RowEvaluator.score(state, x, y, player),
            AxisEvaluator::Column => ColumnEvaluator.score(state, x, y, player),
            AxisEvaluator::Diagonal => DiagonalEvaluator.score(state, x, y, player),
        }
    }
}

/// Scores the cell as if the opponent of `player` took it.
pub struct OpponentEvaluator<E> {
    pub evaluator: E,
}

impl<E: Evaluator> OpponentEvaluator<E> {
    pub fn new(evaluator: E) -> (r: Self)
        ensures
            r.evaluator == evaluator,
    {
        OpponentEvaluator { evaluator }
    }
}

impl<E: Evaluator> Evaluator for OpponentEvaluator<E> {
    open spec fn spec_score(&self, pos: Position, x: int, y: int, player: Player) -> int {
        self.evaluator.spec_score(pos, x, y, player.other())
    }

    open spec fn limit(&self) -> int {
        self.evaluator.limit()
    }

    fn score(&self, state: &BoardState, x: usize, y: usize, player: Player) -> (r: i128) {
        self.evaluator.score(state, x, y, player.opponent())
    }
}

/// The winning amplifier on fixed-point values: for a raw score `s` and win length
/// `k`, `k / max(k - s, 1)`.
pub open spec fn amplify(k: int, s: int) -> int {
    let d = k * SCALE - s;
    (k * SCALE * SCALE) / (if d > SCALE {
        d
    } else {
        SCALE as int
    })
}

pub open spec fn amplify_limit() -> int {
    u32::MAX * SCALE
}

/// Turns a score that is close to the win length into a large one: `k - 1` becomes
/// `k`, and `0` becomes `1`.
pub struct WinningEvaluator<E> {
    pub evaluator: E,
}

impl<E: Evaluator> WinningEvaluator<E> {
    pub fn new(evaluator: E) -> (r: Self)
        ensures
            r.evaluator == evaluator,
    {
        WinningEvaluator { evaluator }
    }
}

/// `amplify(k, s)` for a win length `k` and an inner score `s`.
pub fn amplified(k: u32, s: i128) -> (r: i128)
    requires
        -EVAL_LIMIT <= s <= EVAL_LIMIT,
    ensures
        r == amplify(k as int, s as int),
        0 <= r <= k * SCALE,
{
    let num: i128 = k as i128 * SCALE * SCALE;
    let d: i128 = k as i128 * SCALE - s;
    let den: i128 = if d > SCALE {
        d
    } else {
        SCALE
    };
    proof {
        assert(0 <= num) by (nonlinear_arith)
            requires
                num == k * SCALE * SCALE,
                0 <= k,
        ;
        assert(num / den <= k * SCALE) by (nonlinear_arith)
            requires
                num == k * SCALE * SCALE,
                den >= SCALE,
                SCALE > 0,
                0 <= k,
        {
            assert(num / den <= num / SCALE) by {
                vstd::arithmetic::div_mod::lemma_div_is_ordered_by_denominator(
                    num as int,
                    SCALE as int,
                    den as int,
                );
            }
            assert(num / SCALE == k * SCALE) by {
                vstd::arithmetic::div_mod::lemma_div_multiples_vanish(k * SCALE, SCALE as int);
            }
        }
        assert(0 <= num / den) by (nonlinear_arith)
            requires
                num >= 0,
                den > 0,
        ;
    }
    num / den
}

impl<E: Evaluator> Evaluator for WinningEvaluator<E> {
    open spec fn spec_score(&self, pos: Position, x: int, y: int, player: Player) -> int {
        amplify(pos.win_length, self.evaluator.spec_score(pos, x, y, player))
    }

    open spec fn limit(&self) -> int {
        if self.evaluator.limit() > amplify_limit() {
            self.evaluator.limit()
        } else {
            amplify_limit()
        }
    }

    fn score(&self, state: &BoardState, x: usize, y: usize, player: Player) -> (r: i128) {
        let s = self.evaluator.score(state, x, y, player);
        amplified(state.win_length, s)
    }
}

} // verus!

verus! {

/// Scales the inner score by an integer factor.
pub struct MapEvaluator<E> {
    pub evaluator: E,
    pub factor: i32,
}

impl<E: Evaluator> MapEvaluator<E> {
    pub fn new(evaluator: E, factor: i32) -> (r: Self)
        ensures
            r.evaluator == evaluator,
            r.factor == factor,
    {
        MapEvaluator { evaluator, factor }
    }
}

pub open spec fn magnitude(f: int) -> int {
    if f < -1 {
        -f
    } else if f > 1 {
        f
    } else {
        1
    }
}

impl<E: Evaluator> Evaluator for MapEvaluator<E> {
    open spec fn spec_score(&self, pos: Position, x: int, y: int, player: Player) -> int {
        self.factor * self.evaluator.spec_score(pos, x, y, player)
    }

    open spec fn limit(&self) -> int {
        magnitude(self.factor as int) * self.evaluator.limit()
    }

    fn score(&self, state: &BoardState, x: usize, y: usize, player: Player) -> (r: i128) {
        let ghost l = self.evaluator.limit();
        let ghost m = magnitude(self.factor as int);
        assert(l <= EVAL_LIMIT) by (nonlinear_arith)
            requires
                m * l <= EVAL_LIMIT,
                m >= 1,
        ;
        let s = self.evaluator.score(state, x, y, player);
        let f = self.factor as i128;
        assert(-(m * l) <= f * s <= m * l) by (nonlinear_arith)
            requires
                -l <= s <= l,
                m >= 1,
                -m <= f <= m,
        ;
        f * s
    }
}

/// How a `ReduceEvaluator` folds its scores, starting from zero.
#[derive(Debug, Clone, Copy, PartialEq, Eq, Structural)]
pub enum Combiner {
    Max,
    Sum,
}

pub open spec fn combine(c: Combiner, a: int, b: int) -> int {
    match c {
        Combiner::Max => if a >= b {
            a
        } else {
            b
        },
        Combiner::Sum => a + b,
    }
}

/// The scores of `es`, left to right, folded with `c` from zero.
pub open spec fn fold_scores<E: Evaluator>(
    es: Seq<E>,
    c: Combiner,
    pos: Position,
    x: int,
    y: int,
    p: Player,
) -> int
    decreases es.len(),
{
    if es.len() == 0 {
        0
    } else {
        combine(c, fold_scores(es.drop_last(), c, pos, x, y, p), es.last().spec_score(pos, x, y, p))
    }
}

/// The largest limit among `es`, and zero.
pub open spec fn max_limit<E: Evaluator>(es: Seq<E>) -> int
    decreases es.len(),
{
    if es.len() == 0 {
        0
    } else if max_limit(es.drop_last()) >= es.last().limit() {
        max_limit(es.drop_last())
    } else {
        es.last().limit()
    }
}

proof fn lemma_max_limit<E: Evaluator>(es: Seq<E>)
    ensures
        0 <= max_limit(es),
        forall|i: int| 0 <= i < es.len() ==> #[trigger] es[i].limit() <= max_limit(es),
    decreases es.len(),
{
    if es.len() > 0 {
        lemma_max_limit(es.drop_last());
        assert forall|i: int| 0 <= i < es.len() implies #[trigger] es[i].limit() <= max_limit(es) by {
            if i < es.len() - 1 {
                assert(es[i] == es.drop_last()[i]);
            }
        }
    }
}

/// Evaluates every evaluator of a list at the same cell and folds the scores.
pub struct ReduceEvaluator<E> {
    pub evaluators: Vec<E>,
    pub combiner: Combiner,
}

impl<E: Evaluator> ReduceEvaluator<E> {
    pub fn new(evaluators: Vec<E>, combiner: Combiner) -> (r: Self)
        ensures
            r.evaluators == evaluators,
            r.combiner == combiner,
    {
        ReduceEvaluator { evaluators, combiner }
    }
}

impl<E: Evaluator> Evaluator for ReduceEvaluator<E> {
    open spec fn spec_score(&self, pos: Position, x: int, y: int, player: Player) -> int {
        fold_scores(self.evaluators@, self.combiner, pos, x, y, player)
    }

    open spec fn limit(&self) -> int {
        self.evaluators@.len() * max_limit(self.evaluators@)
    }

    fn score(&self, state: &BoardState, x: usize, y: usize, player: Player) -> (r: i128) {
        let ghost es = self.evaluators@;
        let ghost m = max_limit(es);
        let ghost pos = state@;
        proof {
            lemma_max_limit(es);
        }
        let n = self.evaluators.len();
        let mut acc: i128 = 0;
        let mut i: usize = 0;
        assert(es.subrange(0, 0).len() == 0);
        while i < n
            invariant
                state.wf(),
                pos == state@,
                in_bounds(state.board@, x as int, y as int),
                es == self.evaluators@,
                n == es.len(),
                m == max_limit(es),
                0 <= m,
                n * m <= EVAL_LIMIT,
                forall|k: int| 0 <= k < es.len() ==> #[trigger] es[k].limit() <= m,
                i <= n,
                acc == fold_scores(es.subrange(0, i as int), self.combiner, pos, x as int, y as int, player),
                -(i * m) <= acc <= i * m,
            decreases n - i,
        {
            assert(m <= n * m) by (nonlinear_arith)
                requires
                    i < n,
                    0 <= m,
            ;
            let v = self.evaluators[i].score(state, x, y, player);
            assert(es.subrange(0, i + 1).drop_last() =~= es.subrange(0, i as int));
            assert((i + 1) * m <= n * m) by (nonlinear_arith)
                requires
                    i < n,
                    0 <= m,
            ;
            assert((i + 1) * m == i * m + m) by (nonlinear_arith);
            acc = match self.combiner {
                Combiner::Max => if acc >= v {
                    acc
                } else {
                    v
                },
                Combiner::Sum => acc + v,
            };
            i += 1;
        }
        assert(es.subrange(0, n as int) =~= es);
        acc
    }
}

} // verus!

verus! {

pub open spec fn max2(a: int, b: int) -> int {
    if a >= b {
        a
    } else {
        b
    }
}

/// How close taking the cell brings `p` to a win, amplified, best of the three axes.
pub open spec fn winning_part(pos: Position, x: int, y: int, p: Player) -> int {
    let k = pos.win_length;
    max2(
        max2(
            max2(0, amplify(k, column_value(pos, x, y, p) * SCALE)),
            amplify(k, row_value(pos, x, y, p) * SCALE),
        ),
        amplify(k, diagonal_value(pos, x, y, p) * SCALE),
    )
}

/// How much taking the cell blocks the opponent of `p`, amplified, best of the axes.
pub open spec fn blocking_part(pos: Position, x: int, y: int, p: Player) -> int {
    winning_part(pos, x, y, p.other())
}

/// The best raw line score of `p` through the cell.
pub open spec fn best_line_part(pos: Position, x: int, y: int, p: Player) -> int {
    max2(
        max2(max2(0, column_value(pos, x, y, p) * SCALE), row_value(pos, x, y, p) * SCALE),
        diagonal_value(pos, x, y, p) * SCALE,
    )
}

/// The sum of the raw line scores of `p` through the cell.
pub open spec fn line_sum_part(pos: Position, x: int, y: int, p: Player) -> int {
    column_value(pos, x, y, p) * SCALE + row_value(pos, x, y, p) * SCALE + diagonal_value(
        pos,
        x,
        y,
        p,
    ) * SCALE
}

/// The greedy evaluator: the largest of its four parts, and zero.
pub open spec fn greedy_value(pos: Position, x: int, y: int, p: Player) -> int {
    max2(
        max2(
            max2(max2(0, winning_part(pos, x, y, p)), blocking_part(pos, x, y, p)),
            best_line_part(pos, x, y, p),
        ),
        line_sum_part(pos, x, y, p),
    )
}

/// The four scores the greedy evaluator combines, as a `ReduceEvaluator` with
/// `Combiner::Max` over them would.
pub struct GreedyEvaluator {
    winning: ReduceEvaluator<WinningEvaluator<AxisEvaluator>>,
    losing: MapEvaluator<ReduceEvaluator<WinningEvaluator<OpponentEvaluator<AxisEvaluator>>>>,
    best_line: ReduceEvaluator<AxisEvaluator>,
    line_sum: ReduceEvaluator<AxisEvaluator>,
}

impl GreedyEvaluator {
    #[verifier::type_invariant]
    spec fn composed(&self) -> bool {
        &&& self.winning.combiner == Combiner::Max
        &&& self.winning.evaluators@ == seq![
            WinningEvaluator { evaluator: AxisEvaluator::Column },
            WinningEvaluator { evaluator: AxisEvaluator::Row },
            WinningEvaluator { evaluator: AxisEvaluator::Diagonal },
        ]
        &&& self.losing.factor == 1
        &&& self.losing.evaluator.combiner == Combiner::Max
        &&& self.losing.evaluator.evaluators@ == seq![
            WinningEvaluator { evaluator: OpponentEvaluator { evaluator: AxisEvaluator::Column } },
            WinningEvaluator { evaluator: OpponentEvaluator { evaluator: AxisEvaluator::Row } },
            WinningEvaluator { evaluator: OpponentEvaluator { evaluator: AxisEvaluator::Diagonal } },
        ]
        &&& self.best_line.combiner == Combiner::Max
        &&& self.best_line.evaluators@ == seq![
            AxisEvaluator::Column,
            AxisEvaluator::Row,
            AxisEvaluator::Diagonal,
        ]
        &&& self.line_sum.combiner == Combiner::Sum
        &&& self.line_sum.evaluators@ == seq![
            AxisEvaluator::Column,
            AxisEvaluator::Row,
            AxisEvaluator::Diagonal,
        ]
    }

    pub fn new() -> (r: Self) {
        let winning = ReduceEvaluator::new(
            vec![
                WinningEvaluator::new(AxisEvaluator::Column),
                WinningEvaluator::new(AxisEvaluator::Row),
                WinningEvaluator::new(AxisEvaluator::Diagonal),
            ],
            Combiner::Max,
        );
        let losing = MapEvaluator::new(
            ReduceEvaluator::new(
                vec![
                    WinningEvaluator::new(OpponentEvaluator::new(AxisEvaluator::Column)),
                    WinningEvaluator::new(OpponentEvaluator::new(AxisEvaluator::Row)),
                    WinningEvaluator::new(OpponentEvaluator::new(AxisEvaluator::Diagonal)),
                ],
                Combiner::Max,
            ),
            1,
        );
        let best_line = ReduceEvaluator::new(
            vec![AxisEvaluator::Column, AxisEvaluator::Row, AxisEvaluator::Diagonal],
            Combiner::Max,
        );
        let line_sum = ReduceEvaluator::new(
            vec![AxisEvaluator::Column, AxisEvaluator::Row, AxisEvaluator::Diagonal],
            Combiner::Sum,
        );
        GreedyEvaluator { winning, losing, best_line, line_sum }
    }

    /// The four parts at `(x, y)` for `player`: winning, blocking, best line, line sum.
    pub fn parts(&self, state: &BoardState, x: usize, y: usize, player: Player) -> (r: (
        i128,
        i128,
        i128,
        i128,
    ))
        requires
            state.wf(),
            in_bounds(state.board@, x as int, y as int),
        ensures
            r.0 == winning_part(state@, x as int, y as int, player),
            r.1 == blocking_part(state@, x as int, y as int, player),
            r.2 == best_line_part(state@, x as int, y as int, player),
            r.3 == line_sum_part(state@, x as int, y as int, player),
            -3 * amplify_limit() <= r.0 <= 3 * amplify_limit(),
            -3 * amplify_limit() <= r.1 <= 3 * amplify_limit(),
            -3 * amplify_limit() <= r.2 <= 3 * amplify_limit(),
            -3 * amplify_limit() <= r.3 <= 3 * amplify_limit(),
    {
        proof {
            use_type_invariant(self);
            reveal_with_fuel(fold_scores, 4);
            reveal_with_fuel(max_limit, 4);
            let w = self.winning.evaluators@;
            let l = self.losing.evaluator.evaluators@;
            let a = self.best_line.evaluators@;
            assert(w.drop_last() =~= seq![w[0], w[1]]);
            assert(w.drop_last().drop_last() =~= seq![w[0]]);
            assert(w.drop_last().drop_last().drop_last() =~= Seq::<
                WinningEvaluator<AxisEvaluator>,
            >::empty());
            assert(l.drop_last() =~= seq![l[0], l[1]]);
            assert(l.drop_last().drop_last() =~= seq![l[0]]);
            assert(l.drop_last().drop_last().drop_last() =~= Seq::<
                WinningEvaluator<OpponentEvaluator<AxisEvaluator>>,
            >::empty());
            assert(a.drop_last() =~= seq![a[0], a[1]]);
            assert(a.drop_last().drop_last() =~= seq![a[0]]);
            assert(a.drop_last().drop_last().drop_last() =~= Seq::<AxisEvaluator>::empty());
            assert(self.line_sum.evaluators@ == a);
        }
        let s0 = self.winning.score(state, x, y, player);
        let s1 = self.losing.score(state, x, y, player);
        let s2 = self.best_line.score(state, x, y, player);
        let s3 = self.line_sum.score(state, x, y, player);
        (s0, s1, s2, s3)
    }
}

impl Evaluator for GreedyEvaluator {
    open spec fn spec_score(&self, pos: Position, x: int, y: int, player: Player) -> int {
        greedy_value(pos, x, y, player)
    }

    open spec fn limit(&self) -> int {
        3 * amplify_limit()
    }

    fn score(&self, state: &BoardState, x: usize, y: usize, player: Player) -> (r: i128) {
        let (a, b, c, d) = self.parts(state, x, y, player);
        let mut best: i128 = 0;
        if a > best {
            best = a;
        }
        if b > best {
            best = b;
        }
        if c > best {
            best = c;
        }
        if d > best {
            best = d;
        }
        best
    }
}

} // verus!

verus! {

/// The winning amplifier with win length `k >= 1`: an inner score of `k - 1` becomes
/// exactly `k`, and an inner score of `0` becomes exactly `1`.
pub proof fn winning_amplifier_law<E: Evaluator>(
    w: WinningEvaluator<E>,
    pos: Position,
    x: int,
    y: int,
    p: Player,
)
    requires
        pos.win_length >= 1,
    ensures
        w.evaluator.spec_score(pos, x, y, p) == (pos.win_length - 1) * SCALE ==> w.spec_score(
            pos,
            x,
            y,
            p,
        ) == pos.win_length * SCALE,
        w.evaluator.spec_score(pos, x, y, p) == 0 ==> w.spec_score(pos, x, y, p) == SCALE,
{
    let k = pos.win_length;
    assert((k * SCALE * SCALE) / (SCALE as int) == k * SCALE) by {
        vstd::arithmetic::div_mod::lemma_div_multiples_vanish(k * SCALE, SCALE as int);
    }
    assert(k * SCALE - (k - 1) * SCALE == SCALE) by (nonlinear_arith);
    assert(k * SCALE >= SCALE) by (nonlinear_arith)
        requires
            k >= 1,
    ;
    if k * SCALE > SCALE {
        assert((k * SCALE * SCALE) / (k * SCALE) == SCALE) by {
            vstd::arithmetic::div_mod::lemma_div_multiples_vanish(SCALE as int, k * SCALE);
            assert(k * SCALE * SCALE == SCALE * (k * SCALE)) by (nonlinear_arith);
        }
    }
}

impl Default for GreedyEvaluator {
    fn default() -> (r: Self) {
        GreedyEvaluator::new()
    }
}

} // verus!
