//! The playing field: a fixed-size grid of cells, stored flat and viewed
//! as a sequence of rows.

use vstd::prelude::*;

use crate::block::TetrisBlock;
use crate::grid::Grid;
use crate::grid::empty_grid;

verus! {

/// A `width` by `height` field of cells; `EMPTY` means unoccupied. The
/// size is fixed at construction.
pub struct TetrisBoard {
    pub cells: Vec<TetrisBlock>,
    pub width: usize,
    pub height: usize,
}

impl View for TetrisBoard {
    type V = Grid;

    open spec fn view(&self) -> Grid {
        Seq::new(
            self.height as nat,
            |r: int| Seq::new(self.width as nat, |c: int| self.cells@[r * self.width + c]),
        )
    }
}

/// Row-major flat indices stay inside the grid.
pub proof fn lemma_flat_index(w: int, h: int, r: int, c: int) by (nonlinear_arith)
    requires
        0 <= r < h,
        0 <= c < w,
    ensures
        0 <= r * w + c < h * w,
        0 <= r * w + c < w * h,
{
}

/// Distinct cell coordinates have distinct flat indices.
pub proof fn lemma_flat_index_injective(w: int, r1: int, c1: int, r2: int, c2: int) by (nonlinear_arith)
    requires
        0 <= c1 < w,
        0 <= c2 < w,
        0 <= r1,
        0 <= r2,
        r1 * w + c1 == r2 * w + c2,
    ensures
        r1 == r2 && c1 == c2,
{
}

impl TetrisBoard {
    /// The flat storage holds exactly one cell per grid position.
    pub open spec fn wf(&self) -> bool {
        self.cells@.len() == self.width * self.height
    }

    /// A board with every cell `EMPTY`.
    pub fn new(width: usize, height: usize) -> (b: TetrisBoard)
        requires
            width * height <= usize::MAX,
        ensures
            b.wf(),
            b.width == width,
            b.height == height,
            b@ == empty_grid(width as int, height as int),
    {
        let cells = vec![TetrisBlock::EMPTY; width * height];
        let b = TetrisBoard { cells, width, height };
        proof {
            assert forall|r: int| 0 <= r < height implies b@[r] =~= empty_grid(
                width as int,
                height as int,
            )[r] by {
                assert forall|c: int| 0 <= c < width implies b@[r][c] == TetrisBlock::EMPTY by {
                    lemma_flat_index(width as int, height as int, r, c);
                }
            }
            assert(b@ =~~= empty_grid(width as int, height as int));
        }
        b
    }

    /// The cell at `(x, y)`; coordinates must be in range.
    pub fn get(&self, x: usize, y: usize) -> (r: TetrisBlock)
        requires
            self.wf(),
            x < self.width,
            y < self.height,
        ensures
            r == self@[y as int][x as int],
    {
        proof {
            lemma_flat_index(self.width as int, self.height as int, y as int, x as int);
            assert(self.cells.len() == self.cells@.len());
        }
        self.cells[y * self.width + x]
    }

    /// Writes `block` at `(x, y)`; coordinates must be in range.
    pub fn set(&mut self, x: usize, y: usize, block: TetrisBlock)
        requires
            old(self).wf(),
            x < old(self).width,
            y < old(self).height,
        ensures
            final(self).wf(),
            final(self).width == old(self).width,
            final(self).height == old(self).height,
            final(self)@ == old(self)@.update(
                y as int,
                old(self)@[y as int].update(x as int, block),
            ),
    {
        proof {
            lemma_flat_index(self.width as int, self.height as int, y as int, x as int);
            assert(self.cells.len() == self.cells@.len());
        }
        let ghost pre = *self;
        self.cells[y * self.width + x] = block;
        proof {
            let target = pre@.update(y as int, pre@[y as int].update(x as int, block));
            assert forall|r: int| 0 <= r < self.height implies self@[r] =~= target[r] by {
                assert forall|c: int| 0 <= c < self.width implies self@[r][c] == target[r][c] by {
                    lemma_flat_index(self.width as int, self.height as int, r, c);
                    if r * self.width + c == y as int * self.width + x as int {
                        lemma_flat_index_injective(
                            self.width as int,
                            r,
                            c,
                            y as int,
                            x as int,
                        );
                    }
                }
            }
            assert(self@ =~~= target);
        }
    }

    /// The board's `(width, height)`; a board with no rows reports `(0, 0)`.
    pub fn size(&self) -> (s: (usize, usize))
        ensures
            s == if self.height == 0 {
                (0usize, 0usize)
            } else {
                (self.width, self.height)
            },
    {
        if self.height == 0 {
            (0, 0)
        } else {
            (self.width, self.height)
        }
    }
}

} // verus!
