use vstd::prelude::*;

use crate::board::{
    grid_after, grid_moves, has_playable, has_run, moves_of, playable, row_moves, width, BestMove,
    Board, Cell, Grid, Player, TimeSetting,
};

verus! {

/// What a position is, apart from its cached winner and its time budget.
pub struct Position {
    pub grid: Grid,
    pub mover: Player,
    pub win_length: int,
}

/// The winner of a position: the player who just moved is asked first, then the mover.
pub open spec fn winner_of(pos: Position) -> Option<Player> {
    if has_run(pos.grid, pos.mover.other(), pos.win_length) {
        Some(pos.mover.other())
    } else if has_run(pos.grid, pos.mover, pos.win_length) {
        Some(pos.mover)
    } else {
        None
    }
}

/// A position is over when either player has a winning run or no cell is playable.
pub open spec fn game_over(pos: Position) -> bool {
    has_run(pos.grid, pos.mover.other(), pos.win_length) || has_run(
        pos.grid,
        pos.mover,
        pos.win_length,
    ) || !has_playable(pos.grid)
}

/// The position after the mover takes `m`.
pub open spec fn play(pos: Position, m: BestMove) -> Position {
    Position {
        grid: grid_after(pos.grid, m.0 as int, m.1 as int, pos.mover),
        mover: pos.mover.other(),
        win_length: pos.win_length,
    }
}

/// A position as the search sees it: board, player to move, win length, time budget,
/// and a cached winner.
#[derive(PartialEq, Eq, Debug, Clone)]
pub struct BoardState {
    pub player_to_move: Player,
    pub board: Board,
    pub time_setting: TimeSetting,
    pub win_length: u32,
    pub winner: Option<Player>,
}

impl View for BoardState {
    type V = Position;

    open spec fn view(&self) -> Position {
        Position { grid: self.board@, mover: self.player_to_move, win_length: self.win_length as int }
    }
}

impl BoardState {
    /// The board is well formed, and a cached winner is the true one.
    pub open spec fn wf(&self) -> bool {
        &&& self.board.wf()
        &&& (self.winner.is_none() || self.winner == winner_of(self@))
    }

    /// A fresh position; the win length defaults to the number of rows.
    pub fn new(
        player_to_move: Player,
        board: Board,
        time_setting: TimeSetting,
        win_length: Option<u32>,
    ) -> (s: Self)
        requires
            board.wf(),
        ensures
            s.wf(),
            s.player_to_move == player_to_move,
            s.board == board,
            s.time_setting == time_setting,
            s.win_length == match win_length {
                Some(k) => k,
                None => board@.len() as u32,
            },
            s.winner.is_none(),
    {
        let default_win_length = board.height() as u32;
        let k = match win_length {
            Some(k) => k,
            None => default_win_length,
        };
        BoardState { player_to_move, board, time_setting, win_length: k, winner: None }
    }

    pub fn is_game_over(&self) -> (b: bool)
        requires
            self.wf(),
        ensures
            b == game_over(self@),
    {
        self.board.check_win(self.player_to_move.opponent(), self.win_length)
            || self.board.check_win(self.player_to_move, self.win_length)
            || self.get_possible_moves().len() == 0
    }

    /// The winner, read from the cache when it holds one, else computed and cached.
    pub fn get_winner(&mut self) -> (r: Option<Player>)
        requires
            old(self).wf(),
        ensures
            r == winner_of(old(self)@),
            old(self).winner.is_some() ==> r == old(self).winner,
            final(self).winner == r,
            final(self).player_to_move == old(self).player_to_move,
            final(self).board == old(self).board,
            final(self).time_setting == old(self).time_setting,
            final(self).win_length == old(self).win_length,
            final(self).wf(),
    {
        if self.winner.is_some() {
            return self.winner;
        }
        let other = self.player_to_move.opponent();
        if self.board.check_win(other, self.win_length) {
            self.winner = Some(other);
            return self.winner;
        }
        if self.board.check_win(self.player_to_move, self.win_length) {
            self.winner = Some(self.player_to_move);
            return self.winner;
        }
        None
    }

    /// Every playable coordinate, in row-major order.
    pub fn get_possible_moves(&self) -> (ms: Vec<BestMove>)
        requires
            self.wf(),
        ensures
            ms@ == moves_of(self.board@),
            forall|k: int|
                0 <= k < ms@.len() ==> playable(self.board@, #[trigger] ms@[k].0 as int, ms@[k].1 as int),
            ms@.len() == 0 <==> !has_playable(self.board@),
    {
        let ghost g = self.board@;
        let h = self.board.height();
        let w = self.board.width();
        let mut moves: Vec<BestMove> = Vec::new();
        let mut i: usize = 0;
        while i < h
            invariant
                self.wf(),
                g == self.board@,
                h == g.len(),
                w == width(g),
                i <= h,
                moves@ == grid_moves(g, i as int),
                forall|k: int|
                    0 <= k < moves@.len() ==> playable(g, #[trigger] moves@[k].0 as int, moves@[k].1 as int),
                moves@.len() == 0 ==> forall|r: int, c: int| 0 <= r < i ==> !#[trigger] playable(g, r, c),
                moves@.len() > 0 ==> has_playable(g),
            decreases h - i,
        {
            let mut j: usize = 0;
            while j < w
                invariant
                    self.wf(),
                    g == self.board@,
                    h == g.len(),
                    w == width(g),
                    i < h,
                    j <= w,
                    moves@ == grid_moves(g, i as int) + row_moves(g, i as int, j as int),
                    forall|k: int|
                        0 <= k < moves@.len() ==> playable(g, #[trigger] moves@[k].0 as int, moves@[k].1 as int),
                    moves@.len() == 0 ==> forall|r: int, c: int|
                        (0 <= r < i || (r == i && c < j)) ==> !#[trigger] playable(g, r, c),
                    moves@.len() > 0 ==> has_playable(g),
                decreases w - j,
            {
                if self.board.cell(i, j) == Cell::Playable {
                    moves.push(BestMove::new(i as u32, j as u32));
                    assert(playable(g, i as int, j as int));
                    assert(moves@ =~= grid_moves(g, i as int) + row_moves(g, i as int, j + 1));
                } else {
                    assert(moves@ =~= grid_moves(g, i as int) + row_moves(g, i as int, j + 1));
                }
                j += 1;
            }
            assert(grid_moves(g, i + 1) == grid_moves(g, i as int) + row_moves(g, i as int, w as int));
            i += 1;
        }
        moves
    }

    /// The position after the mover takes `mv`; `self` is left as it is, and the new
    /// position has no cached winner.
    pub fn apply_move(&self, mv: &BestMove) -> (s: BoardState)
        requires
            self.wf(),
            playable(self.board@, mv.0 as int, mv.1 as int),
        ensures
            s.wf(),
            s@ == play(self@, *mv),
            s.winner.is_none(),
            s.time_setting == self.time_setting,
    {
        let mut new_board = Board::new(self.board.get_rows());
        new_board.play_move(mv.0, mv.1, self.player_to_move);
        BoardState {
            player_to_move: self.player_to_move.opponent(),
            board: new_board,
            time_setting: self.time_setting,
            win_length: self.win_length,
            winner: None,
        }
    }
}

/// Asking for the winner twice gives the same answer: after the first call the state
/// is still well formed, its winner is unchanged, and a decided winner sits in the
/// cache, where the second call reads it without scanning the board.
pub proof fn get_winner_is_idempotent(s: BoardState, t: BoardState)
    requires
        s.wf(),
        t.player_to_move == s.player_to_move,
        t.board == s.board,
        t.win_length == s.win_length,
        t.winner == winner_of(s@),
    ensures
        t.wf(),
        winner_of(t@) == winner_of(s@),
        winner_of(s@).is_some() ==> t.winner == winner_of(t@),
{
}

} // verus!
