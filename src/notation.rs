use vstd::prelude::*;
use vstd::string::*;

use crate::board::{grid_wf, Board, Cell, Grid, Player, MAX_SIDE};
use crate::number::{digit_prefix_len, number_spec, push_char, Number};
use crate::parser::{count_digits, ParseResult, Parser, SpecResult};

verus! {

/// The cell a character stands for: `_` playable, `.` blocked, `x` and `o` played.
pub open spec fn cell_of(c: char) -> Option<Cell> {
    if c == '_' {
        Some(Cell::Playable)
    } else if c == '.' {
        Some(Cell::NonPlayable)
    } else if c == 'x' {
        Some(Cell::Played(Player::X))
    } else if c == 'o' {
        Some(Cell::Played(Player::O))
    } else {
        None
    }
}

pub open spec fn invalid_cell(c: char) -> Seq<char> {
    "Invalid cell representation: "@.push(c)
}

pub open spec fn trailing_count() -> Seq<char> {
    "Invalid row, row can't end with a number"@
}

pub open spec fn count_too_large() -> Seq<char> {
    "Invalid row, count too large"@
}

/// `p` in front of a parsed row; an error stays as it is.
pub open spec fn prepend(p: Seq<Cell>, r: Result<Seq<Cell>, Seq<char>>) -> Result<
    Seq<Cell>,
    Seq<char>,
> {
    match r {
        Ok(v) => Ok(p + v),
        Err(e) => Err(e),
    }
}

/// A row of the board notation: symbols, each of which may carry a decimal count
/// that repeats it; a count starts with a digit from 1 to 9.
pub open spec fn row_spec(s: Seq<char>) -> Result<Seq<Cell>, Seq<char>>
    decreases s.len(),
{
    if s.len() == 0 {
        Ok(seq![])
    } else if '1' <= s[0] && s[0] <= '9' {
        let n = digit_prefix_len(s);
        if n <= 0 || n > s.len() {
            Err(trailing_count())
        } else {
            match number_spec(s.subrange(0, n)) {
                Err(e) => Err(e),
                Ok(count) => if count > MAX_SIDE {
                    Err(count_too_large())
                } else if n == s.len() {
                    Err(trailing_count())
                } else {
                    match cell_of(s[n]) {
                        None => Err(invalid_cell(s[n])),
                        Some(c) => prepend(
                            Seq::new(count as nat, |k: int| c),
                            row_spec(s.subrange(n + 1, s.len() as int)),
                        ),
                    }
                },
            }
        }
    } else {
        match cell_of(s[0]) {
            None => Err(invalid_cell(s[0])),
            Some(c) => prepend(seq![c], row_spec(s.drop_first())),
        }
    }
}

pub open spec fn row_view(r: Result<Vec<Cell>, String>) -> Result<Seq<Cell>, Seq<char>> {
    match r {
        Ok(v) => Ok(v@),
        Err(e) => Err(e@),
    }
}

proof fn lemma_prepend(a: Seq<Cell>, b: Seq<Cell>, r: Result<Seq<Cell>, Seq<char>>)
    ensures
        prepend(a, prepend(b, r)) == prepend(a + b, r),
{
    if let Ok(v) = r {
        assert(a + (b + v) =~= (a + b) + v);
    }
}

proof fn lemma_digit_prefix_bound(s: Seq<char>)
    ensures
        0 <= digit_prefix_len(s) <= s.len(),
    decreases s.len(),
{
    if s.len() > 0 {
        lemma_digit_prefix_bound(s.drop_first());
    }
}

impl Cell {
    /// The cell that `c` stands for.
    pub fn from_char(c: char) -> (r: Result<Cell, String>)
        ensures
            match cell_of(c) {
                Some(cell) => r == Ok::<Cell, String>(cell),
                None => r matches Err(e) && e@ == invalid_cell(c),
            },
    {
        if c == '_' {
            Ok(Cell::Playable)
        } else if c == '.' {
            Ok(Cell::NonPlayable)
        } else if c == 'x' {
            Ok(Cell::Played(Player::X))
        } else if c == 'o' {
            Ok(Cell::Played(Player::O))
        } else {
            let mut e = String::from_str("Invalid cell representation: ");
            push_char(&mut e, c);
            Err(e)
        }
    }

    /// Reads one row of the board notation, such as `3_.x`.
    pub fn from_row(row: &str) -> (r: Result<Vec<Cell>, String>)
        ensures
            row_view(r) == row_spec(row@),
    {
        let len = row.unicode_len();
        let mut out: Vec<Cell> = Vec::new();
        let mut i: usize = 0;
        assert(row@.subrange(0, len as int) =~= row@);
        while i < len
            invariant
                len == row@.len(),
                i <= len,
                row_spec(row@) == prepend(out@, row_spec(row@.subrange(i as int, len as int))),
            decreases len - i,
        {
            let ghost t = row@.subrange(i as int, len as int);
            let c = row.get_char(i);
            assert(t[0] == c);
            if '1' <= c && c <= '9' {
                let rest = row.substring_char(i, len);
                let n = count_digits(rest);
                proof {
                    lemma_digit_prefix_bound(t);
                    lemma_digit_prefix_bound(t.drop_first());
                    assert(rest@ == t);
                }
                let digits = String::from_str(rest.substring_char(0, n));
                assert(digits@ == t.subrange(0, n as int));
                let count = match Number::try_from(&digits) {
                    Ok(number) => number.0,
                    Err(e) => {
                        return Err(e);
                    },
                };
                if count as usize > MAX_SIDE {
                    return Err(String::from_str("Invalid row, count too large"));
                }
                if i + n == len {
                    return Err(String::from_str("Invalid row, row can't end with a number"));
                }
                let sym = row.get_char(i + n);
                assert(t[n as int] == sym);
                let cell = match Cell::from_char(sym) {
                    Ok(cell) => cell,
                    Err(e) => {
                        return Err(e);
                    },
                };
                let ghost before = out@;
                let mut k: u32 = 0;
                while k < count
                    invariant
                        k <= count,
                        out@ == before + Seq::new(k as nat, |j: int| cell),
                    decreases count - k,
                {
                    out.push(cell);
                    k += 1;
                    assert(out@ =~= before + Seq::new(k as nat, |j: int| cell));
                }
                assert(t.subrange(n + 1, t.len() as int) =~= row@.subrange(
                    (i + n + 1) as int,
                    len as int,
                ));
                assert(row_spec(t) == prepend(
                    Seq::new(count as nat, |j: int| cell),
                    row_spec(row@.subrange((i + n + 1) as int, len as int)),
                )) by {
                    assert(Seq::new(count as nat, |j: int| cell) =~= Seq::new(
                        count as nat,
                        |q: int| cell,
                    ));
                }
                proof {
                    lemma_prepend(
                        before,
                        Seq::new(count as nat, |j: int| cell),
                        row_spec(row@.subrange((i + n + 1) as int, len as int)),
                    );
                }
                i = i + n + 1;
            } else {
                let cell = match Cell::from_char(c) {
                    Ok(cell) => cell,
                    Err(e) => {
                        return Err(e);
                    },
                };
                let ghost before = out@;
                out.push(cell);
                assert(out@ =~= before + seq![cell]);
                assert(t.drop_first() =~= row@.subrange(i + 1, len as int));
                proof {
                    lemma_prepend(before, seq![cell], row_spec(row@.subrange(i + 1, len as int)));
                }
                i = i + 1;
            }
        }
        assert(row@.subrange(len as int, len as int).len() == 0);
        assert(out@ + Seq::<Cell>::empty() =~= out@);
        Ok(out)
    }
}

/// The index of the first `sep` in `s`, or the length of `s` when there is none.
pub open spec fn sep_index(s: Seq<char>, sep: char) -> int
    decreases s.len(),
{
    if s.len() == 0 || s[0] == sep {
        0
    } else {
        1 + sep_index(s.drop_first(), sep)
    }
}

proof fn lemma_sep_index(s: Seq<char>, sep: char, i: int)
    requires
        0 <= i <= s.len(),
        forall|j: int| 0 <= j < i ==> #[trigger] s[j] != sep,
    ensures
        sep_index(s, sep) == i + sep_index(s.subrange(i, s.len() as int), sep),
    decreases i,
{
    if i > 0 {
        let d = s.drop_first();
        assert forall|j: int| 0 <= j < i - 1 implies #[trigger] d[j] != sep by {
            assert(d[j] == s[j + 1]);
        }
        lemma_sep_index(d, sep, i - 1);
        assert(d.subrange(i - 1, d.len() as int) =~= s.subrange(i, s.len() as int));
    } else {
        assert(s.subrange(0, s.len() as int) =~= s);
    }
}

/// The index of the first `sep` in `s`, or the length of `s`.
fn find_sep(s: &str, sep: char) -> (k: usize)
    ensures
        k == sep_index(s@, sep),
        k <= s@.len(),
{
    let len = s.unicode_len();
    let mut i: usize = 0;
    while i < len
        invariant
            len == s@.len(),
            i <= len,
            forall|j: int| 0 <= j < i ==> #[trigger] s@[j] != sep,
        decreases len - i,
    {
        if s.get_char(i) == sep {
            proof {
                lemma_sep_index(s@, sep, i as int);
            }
            return i;
        }
        i += 1;
    }
    proof {
        lemma_sep_index(s@, sep, len as int);
    }
    len
}

/// The rows of the board notation, separated by `/`; the first bad row decides the
/// error.
pub open spec fn rows_spec(s: Seq<char>) -> Result<Grid, Seq<char>>
    decreases s.len(),
{
    let k = sep_index(s, '/');
    if k < 0 || k >= s.len() {
        match row_spec(s) {
            Ok(r) => Ok(seq![r]),
            Err(e) => Err(e),
        }
    } else {
        match row_spec(s.subrange(0, k)) {
            Err(e) => Err(e),
            Ok(r) => match rows_spec(s.subrange(k + 1, s.len() as int)) {
                Ok(rs) => Ok(seq![r] + rs),
                Err(e) => Err(e),
            },
        }
    }
}

pub open spec fn bad_shape() -> Seq<char> {
    "Invalid board, rows differ in length or exceed the size limit"@
}

/// A board in the notation: its rows, when they are well formed and rectangular.
pub open spec fn board_spec(s: Seq<char>) -> Result<Grid, Seq<char>> {
    match rows_spec(s) {
        Err(e) => Err(e),
        Ok(g) => if grid_wf(g) {
            Ok(g)
        } else {
            Err(bad_shape())
        },
    }
}

pub open spec fn prepend_rows(p: Grid, r: Result<Grid, Seq<char>>) -> Result<Grid, Seq<char>> {
    match r {
        Ok(v) => Ok(p + v),
        Err(e) => Err(e),
    }
}

/// Whether the rows make a well-formed board.
fn well_shaped(rows: &Vec<Vec<Cell>>) -> (b: bool)
    ensures
        b == grid_wf(rows@.map_values(|r: Vec<Cell>| r@)),
{
    let ghost g = rows@.map_values(|r: Vec<Cell>| r@);
    if rows.len() > MAX_SIDE {
        return false;
    }
    if rows.len() == 0 {
        return true;
    }
    let w = rows[0].len();
    if w > MAX_SIDE {
        return false;
    }
    let mut i: usize = 0;
    while i < rows.len()
        invariant
            g == rows@.map_values(|r: Vec<Cell>| r@),
            rows@.len() > 0,
            w == rows@[0]@.len(),
            i <= rows@.len(),
            forall|j: int| 0 <= j < i ==> #[trigger] g[j].len() == w,
        decreases rows@.len() - i,
    {
        if rows[i].len() != w {
            assert(g[i as int].len() != crate::board::width(g));
            return false;
        }
        i += 1;
    }
    true
}

impl Board {
    /// Reads a board in the notation, rows separated by `/`, such as `3_/_x_/3_`.
    pub fn from_str(s: &str) -> (r: Result<Board, String>)
        ensures
            match r {
                Ok(b) => board_spec(s@) == Ok::<Grid, Seq<char>>(b@) && b.wf(),
                Err(e) => board_spec(s@) == Err::<Grid, Seq<char>>(e@),
            },
    {
        let len = s.unicode_len();
        let mut rows: Vec<Vec<Cell>> = Vec::new();
        let mut i: usize = 0;
        assert(s@.subrange(0, len as int) =~= s@);
        loop
            invariant_except_break
                len == s@.len(),
                i <= len,
                rows_spec(s@) == prepend_rows(
                    rows@.map_values(|r: Vec<Cell>| r@),
                    rows_spec(s@.subrange(i as int, len as int)),
                ),
            ensures
                rows_spec(s@) == Ok::<Grid, Seq<char>>(rows@.map_values(|r: Vec<Cell>| r@)),
            decreases len - i,
        {
            let rest = s.substring_char(i, len);
            let ghost t = rest@;
            let k = find_sep(rest, '/');
            let part = rest.substring_char(0, k);
            assert(k >= t.len() ==> t.subrange(0, k as int) =~= t);
            let row = match Cell::from_row(part) {
                Ok(row) => row,
                Err(e) => {
                    return Err(e);
                },
            };
            let ghost before = rows@.map_values(|r: Vec<Cell>| r@);
            rows.push(row);
            assert(rows@.map_values(|r: Vec<Cell>| r@) =~= before + seq![row@]);
            if k == rest.unicode_len() {
                assert(t.subrange(0, k as int) =~= t);
                assert(before + seq![row@] + Seq::<Seq<Cell>>::empty() =~= before + seq![row@]);
                break ;
            }
            proof {
                let tail = rows_spec(t.subrange(k + 1, t.len() as int));
                if let Ok(v) = tail {
                    assert(before + (seq![row@] + v) =~= (before + seq![row@]) + v);
                }
            }
            assert(t.subrange(k + 1, t.len() as int) =~= s@.subrange(
                (i + k + 1) as int,
                len as int,
            ));
            i = i + k + 1;
        }
        if !well_shaped(&rows) {
            return Err(String::from_str("Invalid board, rows differ in length or exceed the size limit"));
        }
        Ok(Board::new(rows))
    }
}

impl View for Player {
    type V = Player;

    open spec fn view(&self) -> Player {
        *self
    }
}

impl Player {
    /// The player that `s` names: `x` or `o`.
    pub fn from_str(s: &str) -> (r: Result<Player, String>)
        ensures
            s@ == "x"@ ==> r == Ok::<Player, String>(Player::X),
            s@ == "o"@ ==> r == Ok::<Player, String>(Player::O),
            s@ != "x"@ && s@ != "o"@ ==> (r matches Err(e) && e@ == s@ + " is not a valid player."@),
    {
        proof {
            reveal_strlit("x");
            reveal_strlit("o");
            assert("x"@[0] != "o"@[0]);
        }
        let v = String::from_str(s);
        if v == String::from_str("x") {
            Ok(Player::X)
        } else if v == String::from_str("o") {
            Ok(Player::O)
        } else {
            let mut e = String::from_str(s);
            e.append(" is not a valid player.");
            Err(e)
        }
    }
}

pub open spec fn player_of(c: char) -> Option<Player> {
    if c == 'x' {
        Some(Player::X)
    } else if c == 'o' {
        Some(Player::O)
    } else {
        None
    }
}

/// Reads the player to move: `x` or `o`.
pub struct PlayerParser;

impl Parser<Player> for PlayerParser {
    open spec fn spec_parse(val: Seq<char>) -> SpecResult<Player> {
        if val.len() == 0 {
            Err("Expected a non empty string"@)
        } else {
            match player_of(val[0]) {
                Some(p) => Ok((p, val.drop_first())),
                None => Err(seq![val[0]] + " is not a valid player."@),
            }
        }
    }

    fn parse_from(val: &String) -> (r: ParseResult<Player>) {
        let s = val.as_str();
        let len = s.unicode_len();
        if len == 0 {
            return Err(String::from_str("Expected a non empty string"));
        }
        let c = s.get_char(0);
        let rest = String::from_str(s.substring_char(1, len));
        assert(rest@ =~= val@.drop_first());
        if c == 'x' {
            Ok((Player::X, rest))
        } else if c == 'o' {
            Ok((Player::O, rest))
        } else {
            let mut e = String::new();
            push_char(&mut e, c);
            e.append(" is not a valid player.");
            assert(e@ =~= seq![c] + " is not a valid player."@);
            Err(e)
        }
    }
}

/// Reads the board, up to the first space.
pub struct BoardParser;

impl Parser<Board> for BoardParser {
    open spec fn spec_parse(val: Seq<char>) -> SpecResult<Grid> {
        let k = sep_index(val, ' ');
        if k >= val.len() {
            Err("Invalid T3N notation"@)
        } else {
            match board_spec(val.subrange(0, k)) {
                Ok(g) => Ok((g, val.subrange(k + 1, val.len() as int))),
                Err(e) => Err(e),
            }
        }
    }

    fn parse_from(val: &String) -> (r: ParseResult<Board>) {
        let s = val.as_str();
        let len = s.unicode_len();
        let k = find_sep(s, ' ');
        if k >= len {
            return Err(String::from_str("Invalid T3N notation"));
        }
        match Board::from_str(s.substring_char(0, k)) {
            Ok(board) => Ok((board, String::from_str(s.substring_char(k + 1, len)))),
            Err(e) => Err(e),
        }
    }
}

} // verus!
