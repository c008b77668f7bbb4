use vstd::prelude::*;

use crate::board::{in_bounds, width, Cell, Grid, Player, MAX_SIDE};
use crate::state::{BoardState, Position};

verus! {

/// `x` moved `i` steps in direction `d`, which is `-1`, `0` or `1`.
pub open spec fn step(x: int, i: int, d: int) -> int {
    if d > 0 {
        x + i
    } else if d < 0 {
        x - i
    } else {
        x
    }
}

/// How many steps fit from `x` in direction `d` on an axis of `n` cells.
pub open spec fn reach(n: int, x: int, d: int) -> int {
    if d > 0 {
        n - 1 - x
    } else if d < 0 {
        x
    } else {
        MAX_SIDE as int
    }
}

pub open spec fn ray_len(g: Grid, x: int, y: int, dx: int, dy: int) -> int {
    let a = reach(g.len() as int, x, dx);
    let b = reach(width(g), y, dy);
    if a < b {
        a
    } else {
        b
    }
}

/// The cells met walking from `(x, y)` in direction `(dx, dy)` up to the edge,
/// the start cell left out.
pub open spec fn ray(g: Grid, x: int, y: int, dx: int, dy: int) -> Seq<Cell> {
    Seq::new(ray_len(g, x, y, dx, dy) as nat, |i: int| g[step(x, i + 1, dx)][step(y, i + 1, dy)])
}

/// Walking along `cells` for `p`: the marks of `p` and the empty cells met before
/// the first cell that is neither.
pub open spec fn scan(cells: Seq<Cell>, p: Player) -> (int, int)
    decreases cells.len(),
{
    if cells.len() == 0 {
        (0, 0)
    } else {
        let rest = scan(cells.drop_first(), p);
        if cells[0] == Cell::Playable {
            (rest.0, rest.1 + 1)
        } else if cells[0] == Cell::Played(p) {
            (rest.0 + 1, rest.1)
        } else {
            (0, 0)
        }
    }
}

/// The value for `p` of taking `(x, y)` along the line of direction `(dx, dy)`: the
/// marks of `p` met both ways, or `0` when those marks, the empty cells met and the
/// cell itself fall short of the win length.
pub open spec fn line_value(pos: Position, x: int, y: int, dx: int, dy: int, p: Player) -> int {
    let a = scan(ray(pos.grid, x, y, dx, dy), p);
    let b = scan(ray(pos.grid, x, y, -dx, -dy), p);
    let own = a.0 + b.0;
    let room = 1 + a.1 + b.1;
    if own + room < pos.win_length {
        0
    } else {
        own
    }
}

fn step_exec(x: usize, i: usize, d: i8) -> (r: usize)
    requires
        -1 <= d <= 1,
        0 <= step(x as int, i as int, d as int) <= usize::MAX,
    ensures
        r as int == step(x as int, i as int, d as int),
{
    if d > 0 {
        x + i
    } else if d < 0 {
        x - i
    } else {
        x
    }
}

fn reach_exec(n: usize, x: usize, d: i8) -> (r: usize)
    requires
        -1 <= d <= 1,
        x < n,
    ensures
        r as int == reach(n as int, x as int, d as int),
{
    if d > 0 {
        n - 1 - x
    } else if d < 0 {
        x
    } else {
        MAX_SIDE
    }
}

/// The marks of `p` and the empty cells met from `(x, y)` in direction `(dx, dy)`.
fn scan_ray(state: &BoardState, x: usize, y: usize, dx: i8, dy: i8, p: Player) -> (res: (
    usize,
    usize,
))
    requires
        state.wf(),
        in_bounds(state.board@, x as int, y as int),
        -1 <= dx <= 1,
        -1 <= dy <= 1,
    ensures
        res.0 as int == scan(ray(state.board@, x as int, y as int, dx as int, dy as int), p).0,
        res.1 as int == scan(ray(state.board@, x as int, y as int, dx as int, dy as int), p).1,
        res.0 + res.1 <= MAX_SIDE,
{
    let ghost g = state.board@;
    let a = reach_exec(state.board.height(), x, dx);
    let b = reach_exec(state.board.width(), y, dy);
    let n = if a < b {
        a
    } else {
        b
    };
    let ghost r = ray(g, x as int, y as int, dx as int, dy as int);
    assert(r.len() == n);
    assert(r.subrange(0, n as int) =~= r);
    let mut own: usize = 0;
    let mut empty: usize = 0;
    let mut i: usize = 0;
    while i < n
        invariant
            state.wf(),
            g == state.board@,
            in_bounds(g, x as int, y as int),
            -1 <= dx <= 1,
            -1 <= dy <= 1,
            r == ray(g, x as int, y as int, dx as int, dy as int),
            r.len() == n,
            n <= MAX_SIDE,
            i <= n,
            own + empty <= i,
            scan(r, p) == (own + scan(r.subrange(i as int, n as int), p).0, empty + scan(
                r.subrange(i as int, n as int),
                p,
            ).1),
        decreases n - i,
    {
        let rr = step_exec(x, i + 1, dx);
        let cc = step_exec(y, i + 1, dy);
        let c = state.board.cell(rr, cc);
        assert(r[i as int] == c);
        let ghost sub = r.subrange(i as int, n as int);
        assert(sub.drop_first() =~= r.subrange(i + 1, n as int));
        assert(sub[0] == c);
        if c == Cell::Playable {
            empty += 1;
        } else if c == Cell::Played(p) {
            own += 1;
        } else {
            return (own, empty);
        }
        i += 1;
    }
    assert(r.subrange(n as int, n as int).len() == 0);
    (own, empty)
}

/// `line_value` of `(x, y)` for `p` along direction `(dx, dy)`.
pub fn line_score(state: &BoardState, x: usize, y: usize, dx: i8, dy: i8, p: Player) -> (v: usize)
    requires
        state.wf(),
        in_bounds(state.board@, x as int, y as int),
        -1 <= dx <= 1,
        -1 <= dy <= 1,
    ensures
        v as int == line_value(state@, x as int, y as int, dx as int, dy as int, p),
        v <= 2 * MAX_SIDE,
{
    let a = scan_ray(state, x, y, dx, dy, p);
    let b = scan_ray(state, x, y, -dx, -dy, p);
    let own = a.0 + b.0;
    let room = 1 + a.1 + b.1;
    if ((own + room) as u64) < state.win_length as u64 {
        0
    } else {
        own
    }
}

} // verus!
