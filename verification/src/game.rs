//! The game engine: one board, one falling piece, timers, score and the
//! game-over flag, with every transition of the state machine specified.

use vstd::prelude::*;

use crate::FALL_SPEED_MS;
use crate::RESTART_TIME_MS;
use crate::block::TetrisBlock;
use crate::board::TetrisBoard;
use crate::grid::burn_grid;
use crate::grid::compact_grid;
use crate::grid::empty_grid;
use crate::grid::keep_rows;
use crate::grid::lemma_keep_rows_props;
use crate::grid::lemma_rot_cw_props;
use crate::grid::lemma_rot_inverse;
use crate::grid::rot_ccw;
use crate::grid::rot_cw;
use crate::grid::row_full;
use crate::grid::row_occupied;
use crate::grid::col_occupied;
use crate::grid::score_bonus;
use crate::grid::tight;
use crate::grid::valid_at;
use crate::piece::TetrisPiece;
use crate::piece::lemma_shape_props;
use crate::piece::shape_grid;
use crate::piece::shape_width;

verus! {

/// The whole game state. While the game is running, the falling piece's
/// occupied cells always lie inside the board over `EMPTY` cells.
pub struct TetrisGame {
    pub board: TetrisBoard,
    pub falling_piece: TetrisPiece,
    pub waiting_time_ms: u64,
    pub game_over: bool,
    pub score: u64,
}

/// The falling piece of `g`, placed at `(px, py)`, would be valid.
pub open spec fn piece_valid_at(g: TetrisGame, px: int, py: int) -> bool {
    valid_at(g.board@, g.board.width as int, g.falling_piece@, px, py)
}

/// The falling piece is valid where it stands.
pub open spec fn falling_ok(g: TetrisGame) -> bool {
    piece_valid_at(g, g.falling_piece.x as int, g.falling_piece.y as int)
}

/// The two games hold the same board contents and dimensions.
pub open spec fn same_board(a: TetrisBoard, b: TetrisBoard) -> bool {
    &&& a@ == b@
    &&& a.width == b.width
    &&& a.height == b.height
}

/// The two pieces hold the same shape grid and anchor.
pub open spec fn same_piece(a: TetrisPiece, b: TetrisPiece) -> bool {
    &&& a@ == b@
    &&& a.x == b.x
    &&& a.y == b.y
}

/// The two games are observably identical.
pub open spec fn same_state(a: TetrisGame, b: TetrisGame) -> bool {
    &&& same_board(a.board, b.board)
    &&& same_piece(a.falling_piece, b.falling_piece)
    &&& a.waiting_time_ms == b.waiting_time_ms
    &&& a.game_over == b.game_over
    &&& a.score == b.score
}

/// Where a fresh piece spawns: the column that centers it, top row.
pub open spec fn spawn_x(pre: TetrisGame) -> int {
    pre.board.width as int / 2 - 1
}

/// Addition clamped to `u64`.
pub open spec fn sat_add64(a: int, b: int) -> int {
    if a + b <= u64::MAX {
        a + b
    } else {
        u64::MAX as int
    }
}

/// `g` with the falling piece moved to row `y`.
pub open spec fn with_y(g: TetrisGame, y: int) -> TetrisGame {
    TetrisGame { falling_piece: TetrisPiece { y: y as usize, ..g.falling_piece }, ..g }
}

/// `g` with the descent timer set to `wt`.
pub open spec fn with_waiting(g: TetrisGame, wt: int) -> TetrisGame {
    TetrisGame { waiting_time_ms: wt as u64, ..g }
}

/// The piece locks where it stands: its cells burn into the board, full
/// rows are cleared and scored, and a fresh piece of kind `k` spawns; the
/// game ends if the spawn position is blocked.
pub open spec fn lock_step(pre: TetrisGame, post: TetrisGame, k: TetrisBlock) -> bool {
    let burned = burn_grid(
        pre.board@,
        pre.falling_piece@,
        pre.falling_piece.x as int,
        pre.falling_piece.y as int,
    );
    let cleared = compact_grid(burned, pre.board.width as int);
    let n = pre.board.height - keep_rows(burned, 0).len();
    &&& post.board.width == pre.board.width
    &&& post.board.height == pre.board.height
    &&& post.board@ == cleared
    &&& post.score == sat_add64(pre.score as int, score_bonus(n))
    &&& post.falling_piece@ == shape_grid(k)
    &&& post.falling_piece.x == spawn_x(pre)
    &&& post.falling_piece.y == 0
    &&& post.waiting_time_ms == 0
    &&& post.game_over == !valid_at(cleared, pre.board.width as int, shape_grid(k), spawn_x(pre), 0)
}

/// One downward step: a no-op when the game is over; a one-row descent
/// when the row below is free; otherwise a lock with respawn kind `k`.
pub open spec fn step_down(pre: TetrisGame, post: TetrisGame, k: TetrisBlock) -> bool {
    if pre.game_over {
        same_state(post, pre)
    } else if piece_valid_at(pre, pre.falling_piece.x as int, pre.falling_piece.y + 1) {
        &&& same_board(post.board, pre.board)
        &&& post.falling_piece@ == pre.falling_piece@
        &&& post.falling_piece.x == pre.falling_piece.x
        &&& post.falling_piece.y == pre.falling_piece.y + 1
        &&& post.waiting_time_ms == 0
        &&& post.score == pre.score
        &&& post.game_over == false
    } else {
        lock_step(pre, post, k)
    }
}

/// One horizontal step by `d` columns: applied only when the moved piece
/// stays within the board and over free cells; otherwise nothing changes.
pub open spec fn step_horiz(pre: TetrisGame, post: TetrisGame, d: int) -> bool {
    let cand = pre.falling_piece.x + d;
    if !pre.game_over && 0 <= cand && cand + pre.falling_piece.pwidth() <= pre.board.width
        && piece_valid_at(pre, cand, pre.falling_piece.y as int) {
        &&& same_board(post.board, pre.board)
        &&& post.falling_piece@ == pre.falling_piece@
        &&& post.falling_piece.x == cand
        &&& post.falling_piece.y == pre.falling_piece.y
        &&& post.waiting_time_ms == pre.waiting_time_ms
        &&& post.score == pre.score
        &&& post.game_over == pre.game_over
    } else {
        same_state(post, pre)
    }
}

/// One rotation step: the quarter turn is kept only if the turned piece
/// is valid in place; otherwise it is turned straight back.
pub open spec fn step_rotate(pre: TetrisGame, post: TetrisGame, clockwise: bool) -> bool {
    let rot = if clockwise {
        rot_cw(pre.falling_piece@)
    } else {
        rot_ccw(pre.falling_piece@)
    };
    if valid_at(
        pre.board@,
        pre.board.width as int,
        rot,
        pre.falling_piece.x as int,
        pre.falling_piece.y as int,
    ) {
        &&& same_board(post.board, pre.board)
        &&& post.falling_piece@ == rot
        &&& post.falling_piece.x == pre.falling_piece.x
        &&& post.falling_piece.y == pre.falling_piece.y
        &&& post.waiting_time_ms == pre.waiting_time_ms
        &&& post.score == pre.score
        &&& post.game_over == pre.game_over
    } else {
        same_state(post, pre)
    }
}

/// Row `r` is where the falling piece of `pre` comes to rest: every row
/// from its own down to `r` is valid, and `r + 1` is not.
pub open spec fn rest_row(pre: TetrisGame, r: int) -> bool {
    &&& pre.falling_piece.y <= r
    &&& forall|j: int|
        pre.falling_piece.y <= j <= r ==> piece_valid_at(pre, pre.falling_piece.x as int, j)
    &&& !piece_valid_at(pre, pre.falling_piece.x as int, r + 1)
}

/// A hard drop: a no-op when the game is over; otherwise the piece falls
/// to its rest row and locks there with respawn kind `k`.
pub open spec fn step_smash(pre: TetrisGame, post: TetrisGame, k: TetrisBlock) -> bool {
    if pre.game_over {
        same_state(post, pre)
    } else {
        exists|r: int| #[trigger] rest_row(pre, r) && step_down(with_y(pre, r), post, k)
    }
}

/// A restart: same dimensions, empty board, fresh piece of kind `k` at
/// the spawn position, timer reset; the score is kept.
pub open spec fn is_restart(pre: TetrisGame, post: TetrisGame, k: TetrisBlock) -> bool {
    &&& post.board.width == pre.board.width
    &&& post.board.height == pre.board.height
    &&& post.board@ == empty_grid(pre.board.width as int, pre.board.height as int)
    &&& post.falling_piece@ == shape_grid(k)
    &&& post.falling_piece.x == spawn_x(pre)
    &&& post.falling_piece.y == 0
    &&& post.waiting_time_ms == 0
    &&& !post.game_over
    &&& post.score == pre.score
}

/// One timed update by `delta` milliseconds: the timer accumulates; past
/// `RESTART_TIME_MS` a finished game restarts, past `FALL_SPEED_MS` a
/// running game descends one step.
pub open spec fn step_update(pre: TetrisGame, post: TetrisGame, delta: int, k: TetrisBlock) -> bool {
    let w2 = sat_add64(pre.waiting_time_ms as int, delta);
    if pre.game_over {
        if w2 > RESTART_TIME_MS {
            is_restart(pre, post, k)
        } else {
            &&& same_board(post.board, pre.board)
            &&& same_piece(post.falling_piece, pre.falling_piece)
            &&& post.waiting_time_ms == w2
            &&& post.game_over
            &&& post.score == pre.score
        }
    } else if w2 > FALL_SPEED_MS {
        step_down(with_waiting(pre, w2), post, k)
    } else {
        &&& same_board(post.board, pre.board)
        &&& same_piece(post.falling_piece, pre.falling_piece)
        &&& post.waiting_time_ms == w2
        &&& !post.game_over
        &&& post.score == pre.score
    }
}

/// The cell an external renderer should draw at `(x, y)`: the falling
/// piece's cell where it covers the position with an occupied cell, else
/// the board's cell.
pub open spec fn render_cell(g: TetrisGame, x: int, y: int) -> TetrisBlock {
    let p = g.falling_piece;
    if p.x <= x < p.x + p.pwidth() && p.y <= y < p.y + p.pheight() && p@[y - p.y][x - p.x]
        != TetrisBlock::EMPTY {
        p@[y - p.y][x - p.x]
    } else {
        g.board@[y][x]
    }
}

/// Board dimensions leave headroom for the small offsets the engine adds.
proof fn lemma_dims_room(w: int, h: int, len: int) by (nonlinear_arith)
    requires
        w * h == len,
        0 <= len <= usize::MAX,
        3 <= w,
        4 <= h,
    ensures
        4 * w <= usize::MAX,
        3 * h <= usize::MAX,
        w + 4 <= usize::MAX,
        h + 5 <= usize::MAX,
{
}

/// The spawn column is at least one and leaves two columns to the right.
proof fn lemma_half(w: int)
    requires
        3 <= w,
    ensures
        1 <= w / 2,
        w / 2 + 2 <= w,
{
    vstd::arithmetic::div_mod::lemma_fundamental_div_mod(w, 2);
    vstd::arithmetic::div_mod::lemma_mod_bound(w, 2);
}

/// A tight piece that stands valid on a board fits inside it, bounding
/// box and all.
pub proof fn lemma_valid_bbox(g: TetrisGame)
    requires
        g.falling_piece.wf(),
        tight(g.falling_piece@, g.falling_piece.pwidth()),
        falling_ok(g),
    ensures
        g.falling_piece.x + g.falling_piece.pwidth() <= g.board.width,
        g.falling_piece.y + g.falling_piece.pheight() <= g.board@.len(),
{
    let p = g.falling_piece@;
    let pw = g.falling_piece.pwidth();
    let ph = g.falling_piece.pheight();
    assert(col_occupied(p, pw - 1));
    let ri = choose|ri: int| 0 <= ri < p.len() && p[ri][pw - 1] != TetrisBlock::EMPTY;
    assert(p[ri][pw - 1] != TetrisBlock::EMPTY);
    let last = p[ph - 1];
    assert(row_occupied(last));
    let ci = choose|ci: int| 0 <= ci < last.len() && last[ci] != TetrisBlock::EMPTY;
    assert(p[ph - 1][ci] != TetrisBlock::EMPTY);
}

/// The spawn position of any non-empty shape is valid on an empty board
/// at least three wide and four tall.
pub proof fn lemma_spawn_fits_empty(w: int, h: int, kind: TetrisBlock)
    requires
        3 <= w,
        4 <= h,
        kind != TetrisBlock::EMPTY,
    ensures
        valid_at(empty_grid(w, h), w, shape_grid(kind), w / 2 - 1, 0),
        1 <= w / 2,
        w / 2 - 1 + shape_width(kind) <= w,
{
    lemma_shape_props(kind);
    lemma_half(w);
    let g = shape_grid(kind);
    let px = w / 2 - 1;
    assert forall|r: int, c: int|
        0 <= r < g.len() && 0 <= c < g[r].len() && #[trigger] g[r][c] != TetrisBlock::EMPTY implies {
        &&& 0 <= px + c < w
        &&& 0 <= 0 + r < empty_grid(w, h).len()
        &&& empty_grid(w, h)[0 + r][px + c] == TetrisBlock::EMPTY
    } by {
        assert(g[r].len() == shape_width(kind));
        assert(empty_grid(w, h)[r][px + c] == TetrisBlock::EMPTY);
    }
}

/// The rest row of a piece is unique: two hard drops of the same piece
/// from the same position land on the same row.
pub proof fn lemma_rest_row_unique(pre: TetrisGame, r1: int, r2: int)
    requires
        rest_row(pre, r1),
        rest_row(pre, r2),
    ensures
        r1 == r2,
{
    if r1 < r2 {
        assert(piece_valid_at(pre, pre.falling_piece.x as int, r1 + 1));
    }
    if r2 < r1 {
        assert(piece_valid_at(pre, pre.falling_piece.x as int, r2 + 1));
    }
}

/// When every board cell under the spawn piece's footprint is occupied,
/// the lock that spawns it flips the game to over.
pub proof fn lemma_blocked_spawn_game_over(pre: TetrisGame, post: TetrisGame, k: TetrisBlock)
    requires
        lock_step(pre, post, k),
        k != TetrisBlock::EMPTY,
        ({
            let cleared = compact_grid(
                burn_grid(
                    pre.board@,
                    pre.falling_piece@,
                    pre.falling_piece.x as int,
                    pre.falling_piece.y as int,
                ),
                pre.board.width as int,
            );
            forall|r: int, c: int|
                0 <= r < shape_grid(k).len() && 0 <= c < shape_grid(k)[r].len() && 0 <= r
                    < cleared.len() && 0 <= spawn_x(pre) + c < pre.board.width
                    ==> #[trigger] cleared[r][spawn_x(pre) + c] != TetrisBlock::EMPTY
        }),
    ensures
        post.game_over,
{
    lemma_shape_props(k);
    let g = shape_grid(k);
    let cleared = compact_grid(
        burn_grid(
            pre.board@,
            pre.falling_piece@,
            pre.falling_piece.x as int,
            pre.falling_piece.y as int,
        ),
        pre.board.width as int,
    );
    if valid_at(cleared, pre.board.width as int, g, spawn_x(pre), 0) {
        assert(row_occupied(g[0]));
        let ci = choose|ci: int| 0 <= ci < g[0].len() && g[0][ci] != TetrisBlock::EMPTY;
        assert(g[0][ci] != TetrisBlock::EMPTY);
        assert(0 <= 0int + 0int < cleared.len() && 0 <= spawn_x(pre) + ci < pre.board.width
            && cleared[0int + 0int][spawn_x(pre) + ci] == TetrisBlock::EMPTY);
        assert(cleared[0][spawn_x(pre) + ci] != TetrisBlock::EMPTY);
    }
}

/// A horizontal move that would put any occupied cell of the piece
/// outside the board's columns leaves the piece exactly where it was.
pub proof fn lemma_move_past_edge(pre: TetrisGame, post: TetrisGame, d: int, r: int, c: int)
    requires
        pre.falling_piece.wf(),
        step_horiz(pre, post, d),
        0 <= r < pre.falling_piece@.len(),
        0 <= c < pre.falling_piece@[r].len(),
        pre.falling_piece@[r][c] != TetrisBlock::EMPTY,
        pre.falling_piece.x + d + c < 0 || pre.falling_piece.x + d + c >= pre.board.width,
    ensures
        same_state(post, pre),
{
    let cand = pre.falling_piece.x + d;
    let pw = pre.falling_piece.pwidth();
    if !pre.game_over && 0 <= cand && cand + pw <= pre.board.width && piece_valid_at(
        pre,
        cand,
        pre.falling_piece.y as int,
    ) {
        assert(pre.falling_piece@[r].len() == pw);
        assert(0 <= cand + c < pre.board.width);
        assert(false);
    }
}

impl TetrisGame {
    /// The engine's invariant: a well-formed board of workable size, a
    /// well-formed, tight piece anchored on it, and — while the game is
    /// running — a falling piece whose occupied cells all sit inside the
    /// board over `EMPTY` cells.
    pub open spec fn inv(&self) -> bool {
        &&& self.board.wf()
        &&& 3 <= self.board.width
        &&& 4 <= self.board.height
        &&& self.falling_piece.wf()
        &&& tight(self.falling_piece@, self.falling_piece.pwidth())
        &&& self.falling_piece.x <= self.board.width
        &&& self.falling_piece.y <= self.board.height
        &&& (!self.game_over ==> falling_ok(*self))
    }

    /// Bounds usable from the invariant's board dimensions.
    proof fn lemma_room(&self)
        requires
            self.board.wf(),
            3 <= self.board.width,
            4 <= self.board.height,
        ensures
            self.board.width + 4 <= usize::MAX,
            self.board.height + 5 <= usize::MAX,
            4 * (self.board.width as int) <= usize::MAX,
    {
        assert(self.board.cells.len() == self.board.cells@.len());
        lemma_dims_room(
            self.board.width as int,
            self.board.height as int,
            self.board.cells@.len() as int,
        );
    }

    /// A fresh game with the given board size and first piece kind: empty
    /// board, piece at the spawn position, zero score, running.
    pub fn new_with_kind(width: usize, height: usize, kind: TetrisBlock) -> (g: TetrisGame)
        requires
            3 <= width,
            4 <= height,
            width * height <= usize::MAX,
            kind != TetrisBlock::EMPTY,
        ensures
            g.inv(),
            g.board.width == width,
            g.board.height == height,
            g.board@ == empty_grid(width as int, height as int),
            g.falling_piece@ == shape_grid(kind),
            g.falling_piece.x == width as int / 2 - 1,
            g.falling_piece.y == 0,
            g.waiting_time_ms == 0,
            !g.game_over,
            g.score == 0,
    {
        proof {
            lemma_half(width as int);
        }
        let board = TetrisBoard::new(width, height);
        let falling_piece = TetrisPiece::new(width / 2 - 1, 0, kind);
        let g = TetrisGame { board, falling_piece, waiting_time_ms: 0, game_over: false, score: 0 };
        proof {
            lemma_shape_props(kind);
            lemma_spawn_fits_empty(width as int, height as int, kind);
        }
        g
    }

    /// A fresh game with a randomly chosen first piece.
    pub fn new(width: usize, height: usize) -> (g: TetrisGame)
        requires
            3 <= width,
            4 <= height,
            width * height <= usize::MAX,
        ensures
            g.inv(),
            g.board.width == width,
            g.board.height == height,
            g.board@ == empty_grid(width as int, height as int),
            g.falling_piece.x == width as int / 2 - 1,
            g.falling_piece.y == 0,
            g.waiting_time_ms == 0,
            !g.game_over,
            g.score == 0,
            exists|k: TetrisBlock| k != TetrisBlock::EMPTY && g.falling_piece@ == shape_grid(k),
    {
        let kind = TetrisBlock::random();
        let g = TetrisGame::new_with_kind(width, height, kind);
        proof {
            assert(kind != TetrisBlock::EMPTY && g.falling_piece@ == shape_grid(kind));
        }
        g
    }

    /// True iff the falling piece placed at `(px, py)` would be valid.
    fn check_valid(&self, px: usize, py: usize) -> (r: bool)
        requires
            self.board.wf(),
            self.falling_piece.wf(),
            3 <= self.board.width,
            4 <= self.board.height,
            px <= self.board.width,
            py <= self.board.height + 1,
        ensures
            r == valid_at(self.board@, self.board.width as int, self.falling_piece@, px as int, py as int),
    {
        proof {
            self.lemma_room();
        }
        let (board_width, board_height) = self.board.size();
        let (falling_width, falling_height) = self.falling_piece.size();
        let mut x: usize = 0;
        while x < falling_width
            invariant
                self.board.wf(),
                self.falling_piece.wf(),
                3 <= self.board.width,
                4 <= self.board.height,
                px <= self.board.width,
                py <= self.board.height + 1,
                self.board.width + 4 <= usize::MAX,
                self.board.height + 5 <= usize::MAX,
                board_width == self.board.width,
                board_height == self.board.height,
                falling_width == self.falling_piece.pwidth(),
                falling_height == self.falling_piece.pheight(),
                x <= falling_width,
                forall|r: int, c: int|
                    0 <= r < self.falling_piece@.len() && 0 <= c < x
                        && #[trigger] self.falling_piece@[r][c] != TetrisBlock::EMPTY ==> {
                        &&& px + c < self.board.width
                        &&& py + r < self.board.height
                        &&& self.board@[py + r][px + c] == TetrisBlock::EMPTY
                    },
            decreases falling_width - x,
        {
            let mut y: usize = 0;
            while y < falling_height
                invariant
                    self.board.wf(),
                    self.falling_piece.wf(),
                    3 <= self.board.width,
                    4 <= self.board.height,
                    px <= self.board.width,
                    py <= self.board.height + 1,
                    self.board.width + 4 <= usize::MAX,
                    self.board.height + 5 <= usize::MAX,
                    board_width == self.board.width,
                    board_height == self.board.height,
                    falling_width == self.falling_piece.pwidth(),
                    falling_height == self.falling_piece.pheight(),
                    x < falling_width,
                    y <= falling_height,
                    forall|r: int, c: int|
                        0 <= r < self.falling_piece@.len() && 0 <= c < x
                            && #[trigger] self.falling_piece@[r][c] != TetrisBlock::EMPTY ==> {
                            &&& px + c < self.board.width
                            &&& py + r < self.board.height
                            &&& self.board@[py + r][px + c] == TetrisBlock::EMPTY
                        },
                    forall|r: int|
                        0 <= r < y && #[trigger] self.falling_piece@[r][x as int]
                            != TetrisBlock::EMPTY ==> {
                            &&& px + x < self.board.width
                            &&& py + r < self.board.height
                            &&& self.board@[py + r][px + x] == TetrisBlock::EMPTY
                        },
                decreases falling_height - y,
            {
                let block = self.falling_piece.get(x, y);
                if block != TetrisBlock::EMPTY {
                    if px + x >= board_width || py + y >= board_height {
                        return false;
                    } else if self.board.get(px + x, py + y) != TetrisBlock::EMPTY {
                        return false;
                    }
                }
                y = y + 1;
            }
            x = x + 1;
        }
        true
    }

    /// True iff the falling piece is valid where it stands: the single
    /// source of truth for movement, rotation and spawn legality.
    fn falling_valid(&self) -> (r: bool)
        requires
            self.board.wf(),
            self.falling_piece.wf(),
            3 <= self.board.width,
            4 <= self.board.height,
            self.falling_piece.x <= self.board.width,
            self.falling_piece.y <= self.board.height,
        ensures
            r == falling_ok(*self),
    {
        self.check_valid(self.falling_piece.x, self.falling_piece.y)
    }

    /// Replaces the falling piece with a fresh one of kind `kind` at the
    /// spawn position.
    fn new_falling_piece_with(&mut self, kind: TetrisBlock)
        requires
            old(self).board.wf(),
            3 <= old(self).board.width,
            4 <= old(self).board.height,
        ensures
            final(self).board == old(self).board,
            final(self).waiting_time_ms == old(self).waiting_time_ms,
            final(self).game_over == old(self).game_over,
            final(self).score == old(self).score,
            final(self).falling_piece@ == shape_grid(kind),
            final(self).falling_piece.x == spawn_x(*old(self)),
            final(self).falling_piece.y == 0,
            final(self).falling_piece.wf(),
    {
        proof {
            lemma_half(self.board.width as int);
        }
        let (width, _) = self.board.size();
        self.falling_piece = TetrisPiece::new(width / 2 - 1, 0, kind);
    }

    /// Burns the piece in place, clears and scores full rows, and spawns
    /// a piece of kind `next`; the game ends if that spawn is blocked.
    fn lock_and_respawn(&mut self, next: TetrisBlock)
        requires
            old(self).inv(),
            !old(self).game_over,
            old(self).waiting_time_ms == 0,
            next != TetrisBlock::EMPTY,
        ensures
            final(self).inv(),
            lock_step(*old(self), *final(self), next),
    {
        proof {
            self.lemma_room();
            lemma_valid_bbox(*self);
        }
        self.falling_piece.burn_into(&mut self.board);
        self.gather_score();
        self.new_falling_piece_with(next);
        proof {
            lemma_shape_props(next);
            lemma_half(self.board.width as int);
        }
        if !self.falling_valid() {
            self.game_over = true;
        }
    }

    /// Scans the board bottom to top, sinks every surviving row past the
    /// full rows below it, empties the top rows, and adds the score
    /// bonus for the number of rows cleared.
    fn gather_score(&mut self)
        requires
            old(self).board.wf(),
            3 <= old(self).board.width,
            4 <= old(self).board.height,
        ensures
            final(self).board.wf(),
            final(self).board.width == old(self).board.width,
            final(self).board.height == old(self).board.height,
            final(self).board@ == compact_grid(old(self).board@, old(self).board.width as int),
            final(self).score == sat_add64(
                old(self).score as int,
                score_bonus(old(self).board.height - keep_rows(old(self).board@, 0).len()),
            ),
            final(self).falling_piece == old(self).falling_piece,
            final(self).waiting_time_ms == old(self).waiting_time_ms,
            final(self).game_over == old(self).game_over,
    {
        let ghost g0 = self.board@;
        let (board_width, board_height) = self.board.size();
        let mut full_rows: usize = 0;
        let mut r: usize = board_height;
        proof {
            lemma_keep_rows_props(g0, board_height as int);
        }
        while r > 0
            invariant
                self.board.wf(),
                self.board.width == board_width,
                self.board.height == board_height,
                3 <= board_width,
                4 <= board_height,
                g0.len() == board_height,
                forall|t: int| 0 <= t < board_height ==> (#[trigger] g0[t]).len() == board_width,
                r <= board_height,
                full_rows + keep_rows(g0, r as int).len() == board_height - r,
                forall|t: int| 0 <= t < r ==> #[trigger] self.board@[t] == g0[t],
                forall|t: int|
                    r + full_rows <= t < board_height ==> #[trigger] self.board@[t] == g0[keep_rows(
                        g0,
                        r as int,
                    )[t - (r + full_rows)]],
                self.falling_piece == old(self).falling_piece,
                self.score == old(self).score,
                self.waiting_time_ms == old(self).waiting_time_ms,
                self.game_over == old(self).game_over,
            decreases r,
        {
            proof {
                lemma_keep_rows_props(g0, r as int);
                lemma_keep_rows_props(g0, r as int - 1);
            }
            r = r - 1;
            let target = r + full_rows;
            let ghost entry = self.board@;
            let mut c: usize = 0;
            while c < board_width
                invariant
                    self.board.wf(),
                    self.board.width == board_width,
                    self.board.height == board_height,
                    r < board_height,
                    target < board_height,
                    target == r + full_rows,
                    c <= board_width,
                    entry.len() == board_height,
                    entry[r as int] == g0[r as int],
                    g0[r as int].len() == board_width,
                    forall|t: int|
                        0 <= t < board_height && t != target ==> #[trigger] self.board@[t]
                            == entry[t],
                    forall|cc: int|
                        0 <= cc < c ==> #[trigger] self.board@[target as int][cc] == g0[r as int][cc],
                    forall|cc: int|
                        c <= cc < board_width ==> #[trigger] self.board@[target as int][cc]
                            == entry[target as int][cc],
                    self.falling_piece == old(self).falling_piece,
                    self.score == old(self).score,
                    self.waiting_time_ms == old(self).waiting_time_ms,
                    self.game_over == old(self).game_over,
                decreases board_width - c,
            {
                let v = self.board.get(c, r);
                proof {
                    if target == r {
                        assert(self.board@[r as int][c as int] == g0[r as int][c as int]);
                    }
                }
                self.board.set(c, target, v);
                c = c + 1;
            }
            proof {
                assert(self.board@[target as int] =~= g0[r as int]);
            }
            let mut full: bool = true;
            let mut c2: usize = 0;
            while c2 < board_width && full
                invariant
                    self.board.wf(),
                    self.board.width == board_width,
                    self.board.height == board_height,
                    r < board_height,
                    c2 <= board_width,
                    g0[r as int].len() == board_width,
                    self.board@[r as int] == g0[r as int],
                    full <==> (forall|cc: int|
                        0 <= cc < c2 ==> #[trigger] g0[r as int][cc] != TetrisBlock::EMPTY),
                decreases board_width - c2,
            {
                if self.board.get(c2, r) == TetrisBlock::EMPTY {
                    full = false;
                }
                c2 = c2 + 1;
            }
            proof {
                if full {
                    assert(row_full(g0[r as int]));
                } else {
                    assert(!row_full(g0[r as int]));
                }
            }
            if full {
                full_rows = full_rows + 1;
            } else {
                proof {
                    assert(keep_rows(g0, r as int) == seq![r as int] + keep_rows(g0, r as int + 1));
                    assert forall|t: int| r + full_rows <= t < board_height implies
                        #[trigger] self.board@[t] == g0[keep_rows(g0, r as int)[t - (r
                        + full_rows)]] by {
                        if t == r + full_rows {
                            assert(keep_rows(g0, r as int)[0] == r as int);
                        } else {
                            assert(keep_rows(g0, r as int)[t - (r + full_rows)] == keep_rows(
                                g0,
                                r as int + 1,
                            )[t - (r + 1 + full_rows)]);
                        }
                    }
                }
            }
        }
        let ghost kept = keep_rows(g0, 0);
        let ghost n = board_height - kept.len();
        proof {
            lemma_keep_rows_props(g0, 0);
            assert(full_rows == n);
        }
        let ghost scanned = self.board@;
        let mut t: usize = 0;
        while t < full_rows
            invariant
                self.board.wf(),
                self.board.width == board_width,
                self.board.height == board_height,
                full_rows <= board_height,
                t <= full_rows,
                scanned.len() == board_height,
                forall|tt: int|
                    t <= tt < board_height ==> #[trigger] self.board@[tt] == scanned[tt],
                forall|tt: int, cc: int|
                    0 <= tt < t && 0 <= cc < board_width ==> #[trigger] self.board@[tt][cc]
                        == TetrisBlock::EMPTY,
                self.falling_piece == old(self).falling_piece,
                self.score == old(self).score,
                self.waiting_time_ms == old(self).waiting_time_ms,
                self.game_over == old(self).game_over,
            decreases full_rows - t,
        {
            let ghost centry = self.board@;
            let mut c3: usize = 0;
            while c3 < board_width
                invariant
                    self.board.wf(),
                    self.board.width == board_width,
                    self.board.height == board_height,
                    t < board_height,
                    c3 <= board_width,
                    centry.len() == board_height,
                    forall|tt: int|
                        0 <= tt < board_height && tt != t ==> #[trigger] self.board@[tt]
                            == centry[tt],
                    forall|cc: int|
                        0 <= cc < c3 ==> #[trigger] self.board@[t as int][cc] == TetrisBlock::EMPTY,
                    forall|cc: int|
                        c3 <= cc < board_width ==> #[trigger] self.board@[t as int][cc]
                            == centry[t as int][cc],
                    self.falling_piece == old(self).falling_piece,
                    self.score == old(self).score,
                    self.waiting_time_ms == old(self).waiting_time_ms,
                    self.game_over == old(self).game_over,
                decreases board_width - c3,
            {
                self.board.set(c3, t, TetrisBlock::EMPTY);
                c3 = c3 + 1;
            }
            t = t + 1;
        }
        proof {
            let target = compact_grid(g0, board_width as int);
            assert forall|tt: int| 0 <= tt < board_height implies self.board@[tt] =~= target[tt] by {
                if tt < n {
                    assert forall|cc: int| 0 <= cc < board_width implies self.board@[tt][cc]
                        == TetrisBlock::EMPTY by {}
                } else {
                    assert(self.board@[tt] == scanned[tt]);
                    assert(scanned[tt] == g0[kept[tt - n]]);
                }
            }
            assert(self.board@ =~~= target);
        }
        if full_rows > 0 {
            let fr = full_rows as u64;
            let bonus = match fr.checked_mul(fr) {
                Some(sq) => match sq.checked_mul(50) {
                    Some(b) => b,
                    None => u64::MAX,
                },
                None => u64::MAX,
            };
            proof {
                let ni = full_rows as int;
                if ni * ni > u64::MAX {
                    assert(ni * ni * 50 >= ni * ni) by (nonlinear_arith)
                        requires
                            ni >= 0,
                    ;
                }
            }
            self.score = self.score.saturating_add(bonus);
        }
    }

    /// Moves the falling piece one row down, or locks it if the row
    /// below is blocked; the respawn kind is `next`. No-op when the game
    /// is over. Resets the descent timer.
    pub fn move_falling_down_with(&mut self, next: TetrisBlock)
        requires
            old(self).inv(),
            next != TetrisBlock::EMPTY,
        ensures
            final(self).inv(),
            step_down(*old(self), *final(self), next),
    {
        if self.game_over {
            return ;
        }
        proof {
            self.lemma_room();
        }
        let can = self.check_valid(self.falling_piece.x, self.falling_piece.y + 1);
        self.waiting_time_ms = 0;
        if can {
            proof {
                let p = self.falling_piece@;
                assert(row_occupied(p[0]));
                let ci = choose|ci: int| 0 <= ci < p[0].len() && p[0][ci] != TetrisBlock::EMPTY;
                assert(p[0][ci] != TetrisBlock::EMPTY);
            }
            self.falling_piece.y = self.falling_piece.y + 1;
        } else {
            self.lock_and_respawn(next);
        }
    }

    /// Moves the falling piece one row down with a random respawn kind.
    pub fn move_falling_down(&mut self)
        requires
            old(self).inv(),
        ensures
            final(self).inv(),
            exists|k: TetrisBlock| k != TetrisBlock::EMPTY && step_down(
                *old(self),
                *final(self),
                k,
            ),
    {
        let k = TetrisBlock::random();
        self.move_falling_down_with(k);
    }

    /// Moves the falling piece `distance` columns sideways if every
    /// occupied cell stays inside the board and over free cells;
    /// otherwise leaves it where it is. No-op when the game is over.
    pub fn move_falling_horizontal(&mut self, distance: isize)
        requires
            old(self).inv(),
        ensures
            final(self).inv(),
            step_horiz(*old(self), *final(self), distance as int),
    {
        if self.game_over {
            return ;
        }
        proof {
            self.lemma_room();
            lemma_valid_bbox(*self);
        }
        let (board_width, _) = self.board.size();
        let (falling_width, _) = self.falling_piece.size();
        let old_x = self.falling_piece.x;
        if let Some(moved_x) = old_x.checked_add_signed(distance) {
            if moved_x <= board_width - falling_width {
                self.falling_piece.x = moved_x;
                if !self.falling_valid() {
                    self.falling_piece.x = old_x;
                }
            }
        }
    }

    /// Turns the falling piece a quarter turn; if the turned piece is
    /// not valid in place it is immediately turned back.
    pub fn rotate_falling(&mut self, clockwise: bool)
        requires
            old(self).inv(),
        ensures
            final(self).inv(),
            step_rotate(*old(self), *final(self), clockwise),
    {
        proof {
            self.lemma_room();
            let p = self.falling_piece@;
            let pw = self.falling_piece.pwidth();
            let ph = self.falling_piece.pheight();
            lemma_rot_cw_props(p, pw, ph);
            lemma_rot_cw_props(rot_cw(p), ph, pw);
            lemma_rot_cw_props(rot_cw(rot_cw(p)), pw, ph);
        }
        let ghost pre = *self;
        self.falling_piece.rotate(clockwise);
        if !self.falling_valid() {
            self.falling_piece.rotate(!clockwise);
            proof {
                lemma_rot_inverse(
                    pre.falling_piece@,
                    pre.falling_piece.pwidth(),
                    pre.falling_piece.pheight(),
                );
            }
        }
    }

    /// Drops the falling piece to its rest row and locks it there; the
    /// respawn kind is `next`. No-op when the game is over. Resets the
    /// descent timer.
    pub fn smash_down_falling_with(&mut self, next: TetrisBlock)
        requires
            old(self).inv(),
            next != TetrisBlock::EMPTY,
        ensures
            final(self).inv(),
            step_smash(*old(self), *final(self), next),
    {
        if self.game_over {
            return ;
        }
        proof {
            self.lemma_room();
        }
        while self.check_valid(self.falling_piece.x, self.falling_piece.y + 1)
            invariant
                self.inv(),
                !self.game_over,
                self.board == old(self).board,
                self.falling_piece@ == old(self).falling_piece@,
                self.falling_piece.x == old(self).falling_piece.x,
                self.falling_piece.piece == old(self).falling_piece.piece,
                self.waiting_time_ms == old(self).waiting_time_ms,
                self.score == old(self).score,
                self.board.width + 4 <= usize::MAX,
                self.board.height + 5 <= usize::MAX,
                old(self).falling_piece.y <= self.falling_piece.y,
                forall|j: int|
                    old(self).falling_piece.y <= j <= self.falling_piece.y ==> piece_valid_at(
                        *old(self),
                        old(self).falling_piece.x as int,
                        j,
                    ),
            decreases self.board.height - self.falling_piece.y,
        {
            proof {
                let p = self.falling_piece@;
                assert(row_occupied(p[0]));
                let ci = choose|ci: int| 0 <= ci < p[0].len() && p[0][ci] != TetrisBlock::EMPTY;
                assert(p[0][ci] != TetrisBlock::EMPTY);
            }
            self.falling_piece.y = self.falling_piece.y + 1;
        }
        let ghost restr = self.falling_piece.y as int;
        let ghost mid = *self;
        proof {
            assert(rest_row(*old(self), restr));
            assert(mid == with_y(*old(self), restr));
        }
        self.move_falling_down_with(next);
        proof {
            assert(rest_row(*old(self), restr) && step_down(with_y(*old(self), restr), *self, next));
        }
    }

    /// Drops the falling piece to its rest row with a random respawn
    /// kind.
    pub fn smash_down_falling(&mut self)
        requires
            old(self).inv(),
        ensures
            final(self).inv(),
            exists|k: TetrisBlock| k != TetrisBlock::EMPTY && step_smash(
                *old(self),
                *final(self),
                k,
            ),
    {
        let k = TetrisBlock::random();
        self.smash_down_falling_with(k);
    }

    /// Restarts after a game over: empty board of the same size, fresh
    /// piece of kind `k`, timer reset; the score carries over.
    fn restart_with(&mut self, k: TetrisBlock)
        requires
            old(self).inv(),
            k != TetrisBlock::EMPTY,
        ensures
            final(self).inv(),
            is_restart(*old(self), *final(self), k),
    {
        proof {
            assert(self.board.cells.len() == self.board.cells@.len());
        }
        let (width, height) = self.board.size();
        self.game_over = false;
        self.board = TetrisBoard::new(width, height);
        self.new_falling_piece_with(k);
        self.waiting_time_ms = 0;
        proof {
            lemma_shape_props(k);
            lemma_half(width as int);
            lemma_spawn_fits_empty(width as int, height as int, k);
        }
    }

    /// Accumulates `delta_ms` on the timer; past `RESTART_TIME_MS` a
    /// finished game restarts, past `FALL_SPEED_MS` a running game
    /// descends one step. The respawn kind, where one is needed, is `k`.
    pub fn update_with(&mut self, delta_ms: u64, k: TetrisBlock)
        requires
            old(self).inv(),
            k != TetrisBlock::EMPTY,
        ensures
            final(self).inv(),
            step_update(*old(self), *final(self), delta_ms as int, k),
    {
        self.waiting_time_ms = self.waiting_time_ms.saturating_add(delta_ms);
        if self.game_over {
            if self.waiting_time_ms > RESTART_TIME_MS {
                self.restart_with(k);
            }
            return ;
        }
        if self.waiting_time_ms > FALL_SPEED_MS {
            self.move_falling_down_with(k);
        }
    }

    /// One timed update with a random respawn kind.
    pub fn update(&mut self, delta_ms: u64)
        requires
            old(self).inv(),
        ensures
            final(self).inv(),
            exists|k: TetrisBlock| k != TetrisBlock::EMPTY && step_update(
                *old(self),
                *final(self),
                delta_ms as int,
                k,
            ),
    {
        let k = TetrisBlock::random();
        self.update_with(delta_ms, k);
    }

    /// The accumulated score.
    pub fn score(&self) -> (s: u64)
        ensures
            s == self.score,
    {
        self.score
    }

    /// Whether the game-over overlay should be shown.
    pub fn is_game_over(&self) -> (b: bool)
        ensures
            b == self.game_over,
    {
        self.game_over
    }

    /// The cell to draw at board position `(x, y)`: the falling piece's
    /// occupied cells take priority over the board's.
    pub fn cell_to_draw(&self, x: usize, y: usize) -> (r: TetrisBlock)
        requires
            self.board.wf(),
            self.falling_piece.wf(),
            x < self.board.width,
            y < self.board.height,
        ensures
            r == render_cell(*self, x as int, y as int),
    {
        let (falling_width, falling_height) = self.falling_piece.size();
        let px = self.falling_piece.x;
        let py = self.falling_piece.y;
        if x >= px && y >= py && x - px < falling_width && y - py < falling_height {
            let b = self.falling_piece.get(x - px, y - py);
            if b != TetrisBlock::EMPTY {
                return b;
            }
        }
        self.board.get(x, y)
    }
}

} // verus!

