//! The mathematical model of piece and board contents: a grid is a
//! sequence of rows, each row a sequence of cells. All spec functions and
//! lemmas about shapes, rotation, placement validity, burning a piece into
//! a board, and row compaction live here.

use vstd::prelude::*;

use crate::block::TetrisBlock;

verus! {

pub type Grid = Seq<Seq<TetrisBlock>>;

/// Every row has length `w`, and there are `h` rows.
pub open spec fn grid_wf(g: Grid, w: int, h: int) -> bool {
    &&& g.len() == h
    &&& forall|r: int| 0 <= r < h ==> (#[trigger] g[r]).len() == w
}

/// A `h` by `w` grid of `EMPTY` cells.
pub open spec fn empty_grid(w: int, h: int) -> Grid {
    Seq::new(h as nat, |r: int| Seq::new(w as nat, |c: int| TetrisBlock::EMPTY))
}

/// One clockwise quarter turn: an `h` by `w` grid becomes a `w` by `h`
/// grid with `new[r][c] == old[h - 1 - c][r]`.
pub open spec fn rot_cw(g: Grid) -> Grid {
    let h = g.len() as int;
    let w = if h == 0 { 0int } else { g[0].len() as int };
    Seq::new(w as nat, |r: int| Seq::new(h as nat, |c: int| g[h - 1 - c][r]))
}

/// One counter-clockwise quarter turn, as three clockwise turns.
pub open spec fn rot_ccw(g: Grid) -> Grid {
    rot_cw(rot_cw(rot_cw(g)))
}

/// Some cell of the row is occupied.
pub open spec fn row_occupied(row: Seq<TetrisBlock>) -> bool {
    exists|c: int| 0 <= c < row.len() && row[c] != TetrisBlock::EMPTY
}

/// Some cell of column `c` is occupied.
pub open spec fn col_occupied(g: Grid, c: int) -> bool {
    exists|r: int| 0 <= r < g.len() && g[r][c] != TetrisBlock::EMPTY
}

/// Every row and every column of the grid holds at least one occupied
/// cell: the grid's bounding box is tight around its occupied cells.
pub open spec fn tight(g: Grid, w: int) -> bool {
    &&& forall|r: int| 0 <= r < g.len() ==> #[trigger] row_occupied(g[r])
    &&& forall|c: int| 0 <= c < w ==> #[trigger] col_occupied(g, c)
}

/// Every cell of the row is occupied.
pub open spec fn row_full(row: Seq<TetrisBlock>) -> bool {
    forall|c: int| 0 <= c < row.len() ==> row[c] != TetrisBlock::EMPTY
}

/// A piece grid `p` placed with its top-left corner at `(px, py)` on a
/// board `board` of width `bw` is valid: every occupied piece cell lies
/// within the board and over an `EMPTY` board cell.
pub open spec fn valid_at(board: Grid, bw: int, p: Grid, px: int, py: int) -> bool {
    forall|r: int, c: int|
        0 <= r < p.len() && 0 <= c < p[r].len() && #[trigger] p[r][c] != TetrisBlock::EMPTY ==> {
            &&& 0 <= px + c < bw
            &&& 0 <= py + r < board.len()
            &&& board[py + r][px + c] == TetrisBlock::EMPTY
        }
}

/// Every occupied cell of `p` placed at `(px, py)` lies within a board of
/// `bw` columns and `bh` rows (says nothing about overlap).
pub open spec fn fits(bw: int, bh: int, p: Grid, px: int, py: int) -> bool {
    forall|r: int, c: int|
        0 <= r < p.len() && 0 <= c < p[r].len() && #[trigger] p[r][c] != TetrisBlock::EMPTY ==> {
            &&& 0 <= px + c < bw
            &&& 0 <= py + r < bh
        }
}

/// The board after the piece's occupied cells are written into it.
pub open spec fn burn_grid(board: Grid, p: Grid, px: int, py: int) -> Grid {
    Seq::new(
        board.len(),
        |br: int|
            Seq::new(
                board[br].len(),
                |bc: int|
                    {
                        let r = br - py;
                        let c = bc - px;
                        if 0 <= r < p.len() && 0 <= c < p[r].len() && p[r][c]
                            != TetrisBlock::EMPTY {
                            p[r][c]
                        } else {
                            board[br][bc]
                        }
                    },
            ),
    )
}

/// The indices, in increasing order, of the rows at or below row `y` that
/// are not full and therefore survive a row clear.
pub open spec fn keep_rows(g: Grid, y: int) -> Seq<int>
    decreases g.len() - y,
{
    if y < 0 || y >= g.len() {
        Seq::empty()
    } else if row_full(g[y]) {
        keep_rows(g, y + 1)
    } else {
        seq![y] + keep_rows(g, y + 1)
    }
}

/// How many rows at or below row `y` are full.
pub open spec fn full_count(g: Grid, y: int) -> int
    decreases g.len() - y,
{
    if y < 0 || y >= g.len() {
        0
    } else if row_full(g[y]) {
        1 + full_count(g, y + 1)
    } else {
        full_count(g, y + 1)
    }
}

/// The board after a row clear: the surviving rows keep their order and
/// sink to the bottom, and as many empty rows as were cleared appear on
/// top.
pub open spec fn compact_grid(g: Grid, w: int) -> Grid {
    let kept = keep_rows(g, 0);
    let n = g.len() - kept.len();
    Seq::new(
        g.len(),
        |t: int|
            if t < n {
                Seq::new(w as nat, |c: int| TetrisBlock::EMPTY)
            } else {
                g[kept[t - n]]
            },
    )
}

/// Points awarded for clearing `n` rows at once.
pub open spec fn score_bonus(n: int) -> int {
    n * n * 50
}

/// Occupied cells in one row.
pub open spec fn row_occ_count(row: Seq<TetrisBlock>) -> int
    decreases row.len(),
{
    if row.len() == 0 {
        0
    } else {
        row_occ_count(row.drop_last()) + if row.last() != TetrisBlock::EMPTY {
            1int
        } else {
            0int
        }
    }
}

/// Occupied cells in the rows from `y` down.
pub open spec fn occ_from(g: Grid, y: int) -> int
    decreases g.len() - y,
{
    if y < 0 || y >= g.len() {
        0
    } else {
        row_occ_count(g[y]) + occ_from(g, y + 1)
    }
}

/// Occupied cells in the whole grid.
pub open spec fn grid_occ(g: Grid) -> int {
    occ_from(g, 0)
}

/// Occupied cells in the rows a list of indices names.
pub open spec fn occ_rows(g: Grid, idxs: Seq<int>) -> int
    decreases idxs.len(),
{
    if idxs.len() == 0 {
        0
    } else {
        row_occ_count(g[idxs[0]]) + occ_rows(g, idxs.drop_first())
    }
}

/// A full row's occupied count is its length.
pub proof fn lemma_full_row_occ(row: Seq<TetrisBlock>)
    requires
        row_full(row),
    ensures
        row_occ_count(row) == row.len(),
    decreases row.len(),
{
    if row.len() > 0 {
        assert(row[row.len() - 1] != TetrisBlock::EMPTY);
        assert(row_full(row.drop_last()));
        lemma_full_row_occ(row.drop_last());
    }
}

/// An all-empty row's occupied count is zero.
pub proof fn lemma_empty_row_occ(row: Seq<TetrisBlock>)
    requires
        forall|c: int| 0 <= c < row.len() ==> row[c] == TetrisBlock::EMPTY,
    ensures
        row_occ_count(row) == 0,
    decreases row.len(),
{
    if row.len() > 0 {
        lemma_empty_row_occ(row.drop_last());
    }
}

/// The kept rows carry every occupied cell except those of the full
/// rows, and a full row of width `w` carries exactly `w`.
pub proof fn lemma_keep_rows_occ(g: Grid, y: int, w: int)
    requires
        0 <= y <= g.len(),
        forall|r: int| 0 <= r < g.len() ==> (#[trigger] g[r]).len() == w,
    ensures
        occ_rows(g, keep_rows(g, y)) + full_count(g, y) * w == occ_from(g, y),
    decreases g.len() - y,
{
    if y < g.len() {
        lemma_keep_rows_occ(g, y + 1, w);
        if row_full(g[y]) {
            lemma_full_row_occ(g[y]);
            assert(full_count(g, y) * w == full_count(g, y + 1) * w + w) by (nonlinear_arith)
                requires
                    full_count(g, y) == 1 + full_count(g, y + 1),
            ;
        } else {
            let rest = keep_rows(g, y + 1);
            let whole = seq![y] + rest;
            assert(keep_rows(g, y) == whole);
            assert(whole[0] == y);
            assert(whole.drop_first() =~= rest);
            assert(occ_rows(g, whole) == row_occ_count(g[y]) + occ_rows(g, rest));
        }
    }
}

/// Below the cleared rows the compacted grid holds exactly the kept
/// rows' occupied cells.
proof fn lemma_compact_occ_suffix(g: Grid, w: int, t: int)
    requires
        forall|r: int| 0 <= r < g.len() ==> (#[trigger] g[r]).len() == w,
        g.len() - keep_rows(g, 0).len() <= t <= g.len(),
    ensures
        occ_from(compact_grid(g, w), t) == occ_rows(g, keep_rows(g, 0).skip(t - (g.len()
            - keep_rows(g, 0).len()))),
    decreases g.len() - t,
{
    lemma_keep_rows_props(g, 0);
    let kept = keep_rows(g, 0);
    let n = g.len() - kept.len();
    let cg = compact_grid(g, w);
    if t == g.len() {
        assert(kept.skip(t - n) =~= Seq::<int>::empty());
    } else {
        lemma_compact_occ_suffix(g, w, t + 1);
        let tail = kept.skip(t - n);
        assert(tail[0] == kept[t - n]);
        assert(tail.drop_first() =~= kept.skip(t + 1 - n));
        assert(cg[t] == g[kept[t - n]]);
        assert(occ_rows(g, tail) == row_occ_count(g[kept[t - n]]) + occ_rows(
            g,
            kept.skip(t + 1 - n),
        ));
    }
}

/// The cleared top rows of the compacted grid hold no occupied cell.
proof fn lemma_compact_occ_top(g: Grid, w: int, t: int)
    requires
        forall|r: int| 0 <= r < g.len() ==> (#[trigger] g[r]).len() == w,
        0 <= t <= g.len() - keep_rows(g, 0).len(),
    ensures
        occ_from(compact_grid(g, w), t) == occ_from(
            compact_grid(g, w),
            g.len() - keep_rows(g, 0).len(),
        ),
    decreases g.len() - t,
{
    lemma_keep_rows_props(g, 0);
    let n = g.len() - keep_rows(g, 0).len();
    let cg = compact_grid(g, w);
    if t < n {
        lemma_compact_occ_top(g, w, t + 1);
        lemma_empty_row_occ(cg[t]);
    }
}

/// A row clear neither invents nor loses occupied cells: it removes
/// exactly the `n` cleared rows' worth, `n` times the board width.
pub proof fn lemma_compact_occupancy(g: Grid, w: int)
    requires
        0 <= w,
        forall|r: int| 0 <= r < g.len() ==> (#[trigger] g[r]).len() == w,
    ensures
        grid_occ(compact_grid(g, w)) + (g.len() - keep_rows(g, 0).len()) * w == grid_occ(g),
{
    lemma_keep_rows_props(g, 0);
    let kept = keep_rows(g, 0);
    let n = g.len() - kept.len();
    lemma_keep_rows_occ(g, 0, w);
    lemma_compact_occ_suffix(g, w, n);
    lemma_compact_occ_top(g, w, 0);
    assert(kept.skip(0) =~= kept);
    assert(full_count(g, 0) == n);
}

/// After compaction the top `n` rows are entirely empty, and every
/// surviving row sinks by exactly the number of full rows below it.
pub proof fn lemma_compact_shift(g: Grid, w: int)
    requires
        forall|r: int| 0 <= r < g.len() ==> (#[trigger] g[r]).len() == w,
    ensures
        0 <= g.len() - keep_rows(g, 0).len() <= g.len(),
        forall|t: int, c: int|
            0 <= t < g.len() - keep_rows(g, 0).len() && 0 <= c < w ==> #[trigger] compact_grid(
                g,
                w,
            )[t][c] == TetrisBlock::EMPTY,
        forall|r: int|
            0 <= r < g.len() && !row_full(#[trigger] g[r]) ==> compact_grid(g, w)[r + full_count(
                g,
                r + 1,
            )] == g[r],
{
    lemma_keep_rows_props(g, 0);
    let kept = keep_rows(g, 0);
    let n = g.len() - kept.len();
    assert forall|r: int| 0 <= r < g.len() && !row_full(#[trigger] g[r]) implies compact_grid(
        g,
        w,
    )[r + full_count(g, r + 1)] == g[r] by {
        lemma_keep_rows_find(g, 0, r);
        lemma_keep_rows_props(g, r);
        let idx = r - (full_count(g, 0) - full_count(g, r));
        assert(full_count(g, r) == full_count(g, r + 1));
        assert(n == full_count(g, 0));
        assert(compact_grid(g, w)[n + idx] == g[kept[idx]]);
    }
}

/// A clockwise turn swaps the grid's dimensions, reads cells by
/// `rot_cw(g)[r][c] == g[h - 1 - c][r]`, and keeps the bounding box tight.
pub proof fn lemma_rot_cw_props(g: Grid, w: int, h: int)
    requires
        grid_wf(g, w, h),
        1 <= h,
        1 <= w,
    ensures
        grid_wf(rot_cw(g), h, w),
        forall|r: int, c: int| 0 <= r < w && 0 <= c < h ==> #[trigger] rot_cw(g)[r][c] == g[h - 1
            - c][r],
        tight(g, w) ==> tight(rot_cw(g), h),
{
    let rg = rot_cw(g);
    assert(g[0].len() == w);
    if tight(g, w) {
        assert forall|r: int| 0 <= r < rg.len() implies #[trigger] row_occupied(rg[r]) by {
            assert(col_occupied(g, r));
            let ri = choose|ri: int| 0 <= ri < g.len() && g[ri][r] != TetrisBlock::EMPTY;
            assert(rg[r][h - 1 - ri] == g[ri][r]);
            assert(rg[r][h - 1 - ri] != TetrisBlock::EMPTY);
        }
        assert forall|c: int| 0 <= c < h implies #[trigger] col_occupied(rg, c) by {
            assert(row_occupied(g[h - 1 - c]));
            let row = g[h - 1 - c];
            let ci = choose|ci: int| 0 <= ci < row.len() && row[ci] != TetrisBlock::EMPTY;
            assert(rg[ci][c] == g[h - 1 - c][ci]);
            assert(rg[ci][c] != TetrisBlock::EMPTY);
        }
    }
}

/// Four clockwise quarter turns restore the grid exactly.
pub proof fn lemma_rot_cw_four(g: Grid, w: int, h: int)
    requires
        grid_wf(g, w, h),
        1 <= h,
        1 <= w,
    ensures
        rot_cw(rot_cw(rot_cw(rot_cw(g)))) == g,
{
    let g1 = rot_cw(g);
    let g2 = rot_cw(g1);
    let g3 = rot_cw(g2);
    let g4 = rot_cw(g3);
    lemma_rot_cw_props(g, w, h);
    lemma_rot_cw_props(g1, h, w);
    lemma_rot_cw_props(g2, w, h);
    lemma_rot_cw_props(g3, h, w);
    assert forall|r: int| 0 <= r < h implies g4[r] =~= g[r] by {
        assert forall|c: int| 0 <= c < w implies g4[r][c] == g[r][c] by {
            assert(g4[r][c] == g3[w - 1 - c][r]);
            assert(g3[w - 1 - c][r] == g2[h - 1 - r][w - 1 - c]);
            assert(g2[h - 1 - r][w - 1 - c] == g1[c][h - 1 - r]);
            assert(g1[c][h - 1 - r] == g[r][c]);
        }
    }
    assert(g4 =~~= g);
}

/// A counter-clockwise turn undoes a clockwise turn, and the other way
/// round.
pub proof fn lemma_rot_inverse(g: Grid, w: int, h: int)
    requires
        grid_wf(g, w, h),
        1 <= h,
        1 <= w,
    ensures
        rot_ccw(rot_cw(g)) == g,
        rot_cw(rot_ccw(g)) == g,
{
    lemma_rot_cw_four(g, w, h);
}

/// Four counter-clockwise quarter turns restore the grid exactly.
pub proof fn lemma_rot_ccw_four(g: Grid, w: int, h: int)
    requires
        grid_wf(g, w, h),
        1 <= h,
        1 <= w,
    ensures
        rot_ccw(rot_ccw(rot_ccw(rot_ccw(g)))) == g,
{
    lemma_rot_cw_four(g, w, h);
    let g4 = rot_cw(rot_cw(rot_cw(rot_cw(g))));
    lemma_rot_cw_four(g4, w, h);
    let g8 = rot_cw(rot_cw(rot_cw(rot_cw(g4))));
    lemma_rot_cw_four(g8, w, h);
}

/// `keep_rows` and `full_count` together count every row, and the kept
/// indices are increasing, in range, and name exactly the non-full rows.
pub proof fn lemma_keep_rows_props(g: Grid, y: int)
    requires
        0 <= y <= g.len(),
    ensures
        keep_rows(g, y).len() + full_count(g, y) == g.len() - y,
        0 <= full_count(g, y),
        forall|i: int|
            0 <= i < keep_rows(g, y).len() ==> y <= #[trigger] keep_rows(g, y)[i] < g.len()
                && !row_full(g[keep_rows(g, y)[i]]),
        forall|i: int, j: int|
            0 <= i < j < keep_rows(g, y).len() ==> #[trigger] keep_rows(g, y)[i]
                < #[trigger] keep_rows(g, y)[j],
    decreases g.len() - y,
{
    if y < g.len() {
        lemma_keep_rows_props(g, y + 1);
        if !row_full(g[y]) {
            let rest = keep_rows(g, y + 1);
            assert(keep_rows(g, y) == seq![y] + rest);
            assert forall|i: int| 0 <= i < keep_rows(g, y).len() implies y
                <= #[trigger] keep_rows(g, y)[i] < g.len() && !row_full(
                g[keep_rows(g, y)[i]],
            ) by {
                if i == 0 {
                    assert(keep_rows(g, y)[0] == y);
                } else {
                    assert(keep_rows(g, y)[i] == rest[i - 1]);
                }
            }
            assert forall|i: int, j: int| 0 <= i < j < keep_rows(g, y).len() implies
                #[trigger] keep_rows(g, y)[i] < #[trigger] keep_rows(g, y)[j] by {
                if i == 0 {
                    assert(keep_rows(g, y)[j] == rest[j - 1]);
                    assert(y + 1 <= rest[j - 1]);
                } else {
                    assert(keep_rows(g, y)[i] == rest[i - 1]);
                    assert(keep_rows(g, y)[j] == rest[j - 1]);
                }
            }
        }
    }
}

/// Where a surviving row lands: row `r`, not full, appears in
/// `keep_rows(g, y)` at the index given by the non-full rows before it.
pub proof fn lemma_keep_rows_find(g: Grid, y: int, r: int)
    requires
        0 <= y <= r < g.len(),
        !row_full(g[r]),
    ensures
        0 <= (r - y) - (full_count(g, y) - full_count(g, r)) < keep_rows(g, y).len(),
        keep_rows(g, y)[(r - y) - (full_count(g, y) - full_count(g, r))] == r,
    decreases r - y,
{
    lemma_keep_rows_props(g, y);
    lemma_keep_rows_props(g, r);
    if y == r {
        assert(keep_rows(g, y) == seq![y] + keep_rows(g, y + 1));
        assert(keep_rows(g, y)[0] == y);
    } else {
        lemma_keep_rows_find(g, y + 1, r);
        let i = (r - (y + 1)) - (full_count(g, y + 1) - full_count(g, r));
        if row_full(g[y]) {
            assert(keep_rows(g, y) == keep_rows(g, y + 1));
            assert(full_count(g, y) == 1 + full_count(g, y + 1));
        } else {
            assert(keep_rows(g, y) == seq![y] + keep_rows(g, y + 1));
            assert(full_count(g, y) == full_count(g, y + 1));
            assert(keep_rows(g, y)[i + 1] == keep_rows(g, y + 1)[i]);
        }
    }
}

} // verus!
