use vstd::prelude::*;

use crate::number::{push_char, Number};

verus! {

/// Largest number of rows, and of columns, that a board may have. It keeps every
/// whole-board score sum well inside `i128`.
pub const MAX_SIDE: usize = 65536;

/// One of the two players. `X` counts as `+1` in scores, `O` as `-1`.
#[derive(Debug, Clone, Copy, PartialEq, Eq, Structural, Hash)]
pub enum Player {
    X,
    O,
}

impl Player {
    pub open spec fn other(self) -> Player {
        match self {
            Player::X => Player::O,
            Player::O => Player::X,
        }
    }

    pub open spec fn spec_sign(self) -> int {
        match self {
            Player::X => 1,
            Player::O => -1,
        }
    }

    pub fn opponent(&self) -> (r: Player)
        ensures
            r == self.other(),
    {
        match *self {
            Player::X => Player::O,
            Player::O => Player::X,
        }
    }

    /// The player's numeric sign: `1` for `X`, `-1` for `O`.
    pub fn sign(&self) -> (r: i8)
        ensures
            r as int == self.spec_sign(),
    {
        match *self {
            Player::X => 1,
            Player::O => -1,
        }
    }
}

#[derive(Debug, Clone, Copy, PartialEq, Eq, Structural)]
pub enum Cell {
    Playable,
    NonPlayable,
    Played(Player),
}

/// A grid as rows of cells.
pub type Grid = Seq<Seq<Cell>>;

pub open spec fn width(g: Grid) -> int {
    if g.len() == 0 {
        0
    } else {
        g[0].len() as int
    }
}

pub open spec fn rectangular(g: Grid) -> bool {
    forall|i: int| 0 <= i < g.len() ==> #[trigger] g[i].len() == width(g)
}

pub open spec fn grid_wf(g: Grid) -> bool {
    &&& rectangular(g)
    &&& g.len() <= MAX_SIDE
    &&& width(g) <= MAX_SIDE
}

pub open spec fn in_bounds(g: Grid, r: int, c: int) -> bool {
    0 <= r < g.len() && 0 <= c < width(g)
}

pub open spec fn playable(g: Grid, r: int, c: int) -> bool {
    in_bounds(g, r, c) && g[r][c] == Cell::Playable
}

/// The cell `i` steps from `(r, c)` in direction `d`: `0` along the row, `1` down the
/// column, `2` down-right, `3` down-left.
pub open spec fn along(d: int, r: int, c: int, i: int) -> (int, int) {
    if d == 0 {
        (r, c + i)
    } else if d == 1 {
        (r + i, c)
    } else if d == 2 {
        (r + i, c + i)
    } else {
        (r + i, c - i)
    }
}

pub open spec fn marked(g: Grid, p: Player, pos: (int, int)) -> bool {
    in_bounds(g, pos.0, pos.1) && g[pos.0][pos.1] == Cell::Played(p)
}

/// `n` cells marked by `p`, from `(r, c)` on in direction `d`.
pub open spec fn run_at(g: Grid, p: Player, r: int, c: int, d: int, n: int) -> bool {
    forall|i: int| 0 <= i < n ==> #[trigger] marked(g, p, along(d, r, c, i))
}

/// The number of marks in a row that wins with win length `k`; a win length of
/// zero is met by any single mark.
pub open spec fn run_needed(k: int) -> int {
    if k <= 0 {
        1
    } else {
        k
    }
}

/// `p` has a run of at least `k` marks along some row, column or diagonal.
pub open spec fn has_run(g: Grid, p: Player, k: int) -> bool {
    exists|r: int, c: int, d: int| 0 <= d < 4 && #[trigger] run_at(g, p, r, c, d, run_needed(k))
}

pub open spec fn has_playable(g: Grid) -> bool {
    exists|r: int, c: int| #[trigger] playable(g, r, c)
}

/// The moves of row `i` among its first `j` cells, left to right.
pub open spec fn row_moves(g: Grid, i: int, j: int) -> Seq<BestMove>
    decreases j,
{
    if j <= 0 {
        seq![]
    } else if g[i][j - 1] == Cell::Playable {
        row_moves(g, i, j - 1).push(BestMove(i as u32, (j - 1) as u32))
    } else {
        row_moves(g, i, j - 1)
    }
}

/// The moves of the first `i` rows, in row-major order.
pub open spec fn grid_moves(g: Grid, i: int) -> Seq<BestMove>
    decreases i,
{
    if i <= 0 {
        seq![]
    } else {
        grid_moves(g, i - 1) + row_moves(g, i - 1, width(g))
    }
}

/// Every playable coordinate of the grid, in row-major order.
pub open spec fn moves_of(g: Grid) -> Seq<BestMove> {
    grid_moves(g, g.len() as int)
}

pub open spec fn grid_after(g: Grid, r: int, c: int, p: Player) -> Grid {
    g.update(r, g[r].update(c, Cell::Played(p)))
}

/// A move: a zero-based `(row, column)` coordinate.
#[derive(PartialEq, Eq, Debug, Clone, Copy, Structural)]
pub struct BestMove(pub u32, pub u32);

pub open spec fn letter(d: int) -> char {
    ((97 + d) as u8) as char
}

/// The column label: `0 -> a`, `25 -> z`, `26 -> aa`, `27 -> ab`, and so on.
pub open spec fn column_label(n: nat) -> Seq<char>
    decreases n,
{
    if n < 26 {
        seq![letter(n as int)]
    } else {
        column_label((n / 26 - 1) as nat).push(letter((n % 26) as int))
    }
}

fn label_of(n: u32) -> (s: String)
    ensures
        s@ == column_label(n as nat),
    decreases n,
{
    if n < 26 {
        let mut s = String::new();
        push_char(&mut s, (97u8 + n as u8) as char);
        s
    } else {
        let mut s = label_of(n / 26 - 1);
        push_char(&mut s, (97u8 + (n % 26) as u8) as char);
        s
    }
}

impl BestMove {
    pub fn new(x: u32, y: u32) -> (r: Self)
        ensures
            r == BestMove(x, y),
    {
        BestMove(x, y)
    }

    /// The column in letters, base 26 without a zero digit.
    pub fn get_column_notation(&self) -> (s: String)
        ensures
            s@ == column_label(self.1 as nat),
    {
        label_of(self.1)
    }

    /// The row, counted from one.
    pub fn get_row_notation(&self) -> (r: u32)
        requires
            self.0 < u32::MAX,
        ensures
            r == self.0 + 1,
    {
        self.0 + 1
    }
}

/// A rectangular grid of cells, addressed `(row, column)` from zero.
#[derive(Debug, PartialEq, Eq, Clone)]
pub struct Board {
    rows: Vec<Vec<Cell>>,
}

impl View for Board {
    type V = Grid;

    closed spec fn view(&self) -> Grid {
        self.rows@.map_values(|r: Vec<Cell>| r@)
    }
}

impl Board {
    pub open spec fn wf(&self) -> bool {
        grid_wf(self@)
    }

    pub fn new(rows: Vec<Vec<Cell>>) -> (b: Self)
        requires
            grid_wf(rows@.map_values(|r: Vec<Cell>| r@)),
        ensures
            b@ == rows@.map_values(|r: Vec<Cell>| r@),
            b.wf(),
    {
        let b = Board { rows };
        assert(b@ == b.rows@.map_values(|r: Vec<Cell>| r@));
        b
    }

    pub fn height(&self) -> (n: usize)
        ensures
            n == self@.len(),
    {
        self.rows.len()
    }

    /// The number of columns.
    pub fn width(&self) -> (n: usize)
        requires
            self.wf(),
        ensures
            n == width(self@),
    {
        if self.rows.len() == 0 {
            0
        } else {
            self.rows[0].len()
        }
    }

    pub fn cell(&self, r: usize, c: usize) -> (x: Cell)
        requires
            self.wf(),
            in_bounds(self@, r as int, c as int),
        ensures
            x == self@[r as int][c as int],
    {
        self.rows[r][c]
    }

    /// A copy of the rows.
    pub fn get_rows(&self) -> (rows: Vec<Vec<Cell>>)
        ensures
            rows@.map_values(|r: Vec<Cell>| r@) == self@,
    {
        let mut rows: Vec<Vec<Cell>> = Vec::new();
        let mut i: usize = 0;
        while i < self.rows.len()
            invariant
                i <= self.rows@.len(),
                rows@.len() == i,
                forall|k: int| 0 <= k < i ==> #[trigger] rows@[k]@ == self.rows@[k]@,
            decreases self.rows@.len() - i,
        {
            rows.push(copy_row(&self.rows[i]));
            i += 1;
        }
        assert(rows@.map_values(|r: Vec<Cell>| r@) =~= self@);
        rows
    }

    /// Marks `(x, y)` as played by `player`; the cell must be playable.
    pub fn play_move(&mut self, x: u32, y: u32, player: Player)
        requires
            old(self).wf(),
            playable(old(self)@, x as int, y as int),
        ensures
            final(self).wf(),
            final(self)@ == grid_after(old(self)@, x as int, y as int, player),
    {
        let mut row = copy_row(&self.rows[x as usize]);
        row.set(y as usize, Cell::Played(player));
        self.rows.set(x as usize, row);
        assert(self@ =~= grid_after(old(self)@, x as int, y as int, player));
    }

    fn run_from(&self, player: Player, r: usize, c: usize, d: u8, n: u32) -> (b: bool)
        requires
            self.wf(),
            in_bounds(self@, r as int, c as int),
            d < 4,
        ensures
            b == run_at(self@, player, r as int, c as int, d as int, n as int),
    {
        let h = self.height();
        let w = self.width();
        let mut i: u32 = 0;
        while i < n
            invariant
                self.wf(),
                h == self@.len(),
                w == width(self@),
                d < 4,
                i <= n,
                r < MAX_SIDE,
                c < MAX_SIDE,
                forall|t: int|
                    0 <= t < i ==> #[trigger] marked(
                        self@,
                        player,
                        along(d as int, r as int, c as int, t),
                    ),
            decreases n - i,
        {
            let rr: i64 = if d == 0 {
                r as i64
            } else {
                r as i64 + i as i64
            };
            let cc: i64 = if d == 0 || d == 2 {
                c as i64 + i as i64
            } else if d == 1 {
                c as i64
            } else {
                c as i64 - i as i64
            };
            assert(along(d as int, r as int, c as int, i as int) == (rr as int, cc as int));
            if rr < 0 || rr >= h as i64 || cc < 0 || cc >= w as i64 {
                assert(!marked(self@, player, along(d as int, r as int, c as int, i as int)));
                return false;
            }
            if self.rows[rr as usize][cc as usize] != Cell::Played(player) {
                assert(!marked(self@, player, along(d as int, r as int, c as int, i as int)));
                return false;
            }
            i += 1;
        }
        true
    }

    /// Whether `player` has a run of at least `win_length` marks along any row, any
    /// column, or any diagonal in either direction, starting anywhere on the board.
    pub fn check_win(&self, player: Player, win_length: u32) -> (b: bool)
        requires
            self.wf(),
        ensures
            b == has_run(self@, player, win_length as int),
    {
        let need: u32 = if win_length == 0 {
            1
        } else {
            win_length
        };
        let h = self.height();
        let w = self.width();
        let mut i: usize = 0;
        while i < h
            invariant
                self.wf(),
                h == self@.len(),
                w == width(self@),
                need as int == run_needed(win_length as int),
                i <= h,
                forall|r: int, c: int, d: int|
                    0 <= r < i && 0 <= d < 4 ==> !#[trigger] run_at(self@, player, r, c, d, need as int),
            decreases h - i,
        {
            let mut j: usize = 0;
            while j < w
                invariant
                    self.wf(),
                    h == self@.len(),
                    w == width(self@),
                    need as int == run_needed(win_length as int),
                    i < h,
                    j <= w,
                    forall|r: int, c: int, d: int|
                        ((0 <= r < i) || (r == i && 0 <= c < j)) && 0 <= d < 4 ==> !#[trigger] run_at(
                            self@,
                            player,
                            r,
                            c,
                            d,
                            need as int,
                        ),
                decreases w - j,
            {
                let mut d: u8 = 0;
                while d < 4
                    invariant
                        self.wf(),
                        h == self@.len(),
                        w == width(self@),
                        need as int == run_needed(win_length as int),
                        i < h,
                        j < w,
                        d <= 4,
                        forall|r: int, c: int, e: int|
                            ((0 <= r < i) || (r == i && 0 <= c < j) || (r == i && c == j && 0 <= e
                                < d)) && 0 <= e < 4 ==> !#[trigger] run_at(
                                self@,
                                player,
                                r,
                                c,
                                e,
                                need as int,
                            ),
                    decreases 4 - d,
                {
                    if self.run_from(player, i, j, d, need) {
                        assert(run_at(self@, player, i as int, j as int, d as int, need as int));
                        return true;
                    }
                    d += 1;
                }
                j += 1;
            }
            proof {
                assert forall|r: int, c: int, d: int|
                    0 <= r <= i && 0 <= d < 4 implies !#[trigger] run_at(self@, player, r, c, d, need as int) by {
                    if r == i && !(0 <= c < j) && run_at(self@, player, r, c, d, need as int) {
                        assert(marked(self@, player, along(d, r, c, 0)));
                    }
                }
            }
            i += 1;
        }
        proof {
            assert forall|r: int, c: int, d: int|
                0 <= d < 4 implies !#[trigger] run_at(self@, player, r, c, d, need as int) by {
                if run_at(self@, player, r, c, d, need as int) {
                    assert(marked(self@, player, along(d, r, c, 0)));
                }
            }
        }
        false
    }
}

fn copy_row(row: &Vec<Cell>) -> (out: Vec<Cell>)
    ensures
        out@ == row@,
{
    let mut out: Vec<Cell> = Vec::new();
    let mut j: usize = 0;
    while j < row.len()
        invariant
            j <= row@.len(),
            out@ == row@.subrange(0, j as int),
        decreases row@.len() - j,
    {
        out.push(row[j]);
        j += 1;
        assert(out@ =~= row@.subrange(0, j as int));
    }
    assert(out@ =~= row@);
    out
}

/// How much time the engine was given; carried along, not consulted by the search.
#[derive(PartialEq, Eq, Debug, Clone, Copy, Structural)]
pub enum TimeSetting {
    TotalTime(Number),
    TimeRemaining(Number),
    Infinite,
}

} // verus!
