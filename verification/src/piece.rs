//! The falling piece: a small grid of cells with a board-relative anchor,
//! built from one of seven canonical shapes and rotated in place.

use vstd::prelude::*;

use crate::block::TetrisBlock;
use crate::board::TetrisBoard;
use crate::grid::Grid;
use crate::grid::burn_grid;
use crate::grid::col_occupied;
use crate::grid::fits;
use crate::grid::grid_wf;
use crate::grid::rot_ccw;
use crate::grid::rot_cw;
use crate::grid::row_occupied;
use crate::grid::tight;

verus! {

/// The canonical shape grid of each kind; `EMPTY` yields a one-cell empty
/// grid.
pub open spec fn shape_grid(kind: TetrisBlock) -> Grid {
    let e = TetrisBlock::EMPTY;
    match kind {
        TetrisBlock::I => seq![
            seq![TetrisBlock::I],
            seq![TetrisBlock::I],
            seq![TetrisBlock::I],
            seq![TetrisBlock::I],
        ],
        TetrisBlock::L => seq![
            seq![TetrisBlock::L, e],
            seq![TetrisBlock::L, e],
            seq![TetrisBlock::L, TetrisBlock::L],
        ],
        TetrisBlock::J => seq![
            seq![e, TetrisBlock::J],
            seq![e, TetrisBlock::J],
            seq![TetrisBlock::J, TetrisBlock::J],
        ],
        TetrisBlock::S => seq![
            seq![e, TetrisBlock::S, TetrisBlock::S],
            seq![TetrisBlock::S, TetrisBlock::S, e],
        ],
        TetrisBlock::Z => seq![
            seq![TetrisBlock::Z, TetrisBlock::Z, e],
            seq![e, TetrisBlock::Z, TetrisBlock::Z],
        ],
        TetrisBlock::T => seq![
            seq![e, TetrisBlock::T, e],
            seq![TetrisBlock::T, TetrisBlock::T, TetrisBlock::T],
        ],
        TetrisBlock::O => seq![
            seq![TetrisBlock::O, TetrisBlock::O],
            seq![TetrisBlock::O, TetrisBlock::O],
        ],
        TetrisBlock::EMPTY => seq![seq![e]],
    }
}

/// Width of the canonical shape of a kind.
pub open spec fn shape_width(kind: TetrisBlock) -> int {
    match kind {
        TetrisBlock::I => 1,
        TetrisBlock::L => 2,
        TetrisBlock::J => 2,
        TetrisBlock::S => 3,
        TetrisBlock::Z => 3,
        TetrisBlock::T => 3,
        TetrisBlock::O => 2,
        TetrisBlock::EMPTY => 1,
    }
}

/// Height of the canonical shape of a kind.
pub open spec fn shape_height(kind: TetrisBlock) -> int {
    match kind {
        TetrisBlock::I => 4,
        TetrisBlock::L => 3,
        TetrisBlock::J => 3,
        TetrisBlock::S => 2,
        TetrisBlock::Z => 2,
        TetrisBlock::T => 2,
        TetrisBlock::O => 2,
        TetrisBlock::EMPTY => 1,
    }
}

/// Every canonical shape is rectangular, at most three cells wide and
/// four tall, and — for the seven real kinds — tight: every row and
/// every column holds an occupied cell.
pub proof fn lemma_shape_props(kind: TetrisBlock)
    ensures
        grid_wf(shape_grid(kind), shape_width(kind), shape_height(kind)),
        1 <= shape_width(kind) <= 3,
        1 <= shape_height(kind) <= 4,
        kind != TetrisBlock::EMPTY ==> tight(shape_grid(kind), shape_width(kind)),
{
    let g = shape_grid(kind);
    let w = shape_width(kind);
    match kind {
        TetrisBlock::I => {
            assert(g[0][0] != TetrisBlock::EMPTY);
            assert(g[1][0] != TetrisBlock::EMPTY);
            assert(g[2][0] != TetrisBlock::EMPTY);
            assert(g[3][0] != TetrisBlock::EMPTY);
            assert(row_occupied(g[0]) && row_occupied(g[1]) && row_occupied(g[2]) && row_occupied(
                g[3],
            ));
            assert(col_occupied(g, 0));
        },
        TetrisBlock::L => {
            assert(g[0][0] != TetrisBlock::EMPTY);
            assert(g[1][0] != TetrisBlock::EMPTY);
            assert(g[2][0] != TetrisBlock::EMPTY);
            assert(g[2][1] != TetrisBlock::EMPTY);
            assert(row_occupied(g[0]) && row_occupied(g[1]) && row_occupied(g[2]));
            assert(col_occupied(g, 0) && col_occupied(g, 1));
        },
        TetrisBlock::J => {
            assert(g[0][1] != TetrisBlock::EMPTY);
            assert(g[1][1] != TetrisBlock::EMPTY);
            assert(g[2][0] != TetrisBlock::EMPTY);
            assert(g[2][1] != TetrisBlock::EMPTY);
            assert(row_occupied(g[0]) && row_occupied(g[1]) && row_occupied(g[2]));
            assert(col_occupied(g, 0) && col_occupied(g, 1));
        },
        TetrisBlock::S => {
            assert(g[0][1] != TetrisBlock::EMPTY);
            assert(g[0][2] != TetrisBlock::EMPTY);
            assert(g[1][0] != TetrisBlock::EMPTY);
            assert(row_occupied(g[0]) && row_occupied(g[1]));
            assert(col_occupied(g, 0) && col_occupied(g, 1) && col_occupied(g, 2));
        },
        TetrisBlock::Z => {
            assert(g[0][0] != TetrisBlock::EMPTY);
            assert(g[0][1] != TetrisBlock::EMPTY);
            assert(g[1][2] != TetrisBlock::EMPTY);
            assert(row_occupied(g[0]) && row_occupied(g[1]));
            assert(col_occupied(g, 0) && col_occupied(g, 1) && col_occupied(g, 2));
        },
        TetrisBlock::T => {
            assert(g[0][1] != TetrisBlock::EMPTY);
            assert(g[1][0] != TetrisBlock::EMPTY);
            assert(g[1][2] != TetrisBlock::EMPTY);
            assert(row_occupied(g[0]) && row_occupied(g[1]));
            assert(col_occupied(g, 0) && col_occupied(g, 1) && col_occupied(g, 2));
        },
        TetrisBlock::O => {
            assert(g[0][0] != TetrisBlock::EMPTY);
            assert(g[0][1] != TetrisBlock::EMPTY);
            assert(g[1][0] != TetrisBlock::EMPTY);
            assert(g[1][1] != TetrisBlock::EMPTY);
            assert(row_occupied(g[0]) && row_occupied(g[1]));
            assert(col_occupied(g, 0) && col_occupied(g, 1));
        },
        TetrisBlock::EMPTY => {
        },
    }
}

/// A falling piece: its local shape grid and the board coordinates of the
/// grid's top-left corner.
pub struct TetrisPiece {
    pub piece: Vec<Vec<TetrisBlock>>,
    pub x: usize,
    pub y: usize,
}

impl View for TetrisPiece {
    type V = Grid;

    open spec fn view(&self) -> Grid {
        Seq::new(self.piece@.len(), |r: int| self.piece@[r]@)
    }
}

impl TetrisPiece {
    /// The shape grid is rectangular (no jagged rows) and at most four
    /// cells in either direction.
    pub open spec fn wf(&self) -> bool {
        &&& 1 <= self@.len() <= 4
        &&& 1 <= self@[0].len() <= 4
        &&& forall|r: int| 0 <= r < self@.len() ==> (#[trigger] self@[r]).len() == self@[0].len()
    }

    /// Shape width, the length of the first row.
    pub open spec fn pwidth(&self) -> int {
        self@[0].len() as int
    }

    /// Shape height, the number of rows.
    pub open spec fn pheight(&self) -> int {
        self@.len() as int
    }

    /// A piece with the canonical shape of `kind`, anchored at `(x, y)`.
    pub fn new(x: usize, y: usize, block: TetrisBlock) -> (p: TetrisPiece)
        ensures
            p.wf(),
            p@ == shape_grid(block),
            p.x == x,
            p.y == y,
            p.pwidth() == shape_width(block),
            p.pheight() == shape_height(block),
    {
        let mut piece: Vec<Vec<TetrisBlock>> = Vec::new();
        match block {
            TetrisBlock::I => {
                piece.push(vec![TetrisBlock::I; 1]);
                piece.push(vec![TetrisBlock::I; 1]);
                piece.push(vec![TetrisBlock::I; 1]);
                piece.push(vec![TetrisBlock::I; 1]);
            },
            TetrisBlock::L => {
                let mut r0: Vec<TetrisBlock> = Vec::new();
                r0.push(TetrisBlock::L);
                r0.push(TetrisBlock::EMPTY);
                let mut r1: Vec<TetrisBlock> = Vec::new();
                r1.push(TetrisBlock::L);
                r1.push(TetrisBlock::EMPTY);
                let mut r2: Vec<TetrisBlock> = Vec::new();
                r2.push(TetrisBlock::L);
                r2.push(TetrisBlock::L);
                piece.push(r0);
                piece.push(r1);
                piece.push(r2);
            },
            TetrisBlock::J => {
                let mut r0: Vec<TetrisBlock> = Vec::new();
                r0.push(TetrisBlock::EMPTY);
                r0.push(TetrisBlock::J);
                let mut r1: Vec<TetrisBlock> = Vec::new();
                r1.push(TetrisBlock::EMPTY);
                r1.push(TetrisBlock::J);
                let mut r2: Vec<TetrisBlock> = Vec::new();
                r2.push(TetrisBlock::J);
                r2.push(TetrisBlock::J);
                piece.push(r0);
                piece.push(r1);
                piece.push(r2);
            },
            TetrisBlock::S => {
                let mut r0: Vec<TetrisBlock> = Vec::new();
                r0.push(TetrisBlock::EMPTY);
                r0.push(TetrisBlock::S);
                r0.push(TetrisBlock::S);
                let mut r1: Vec<TetrisBlock> = Vec::new();
                r1.push(TetrisBlock::S);
                r1.push(TetrisBlock::S);
                r1.push(TetrisBlock::EMPTY);
                piece.push(r0);
                piece.push(r1);
            },
            TetrisBlock::Z => {
                let mut r0: Vec<TetrisBlock> = Vec::new();
                r0.push(TetrisBlock::Z);
                r0.push(TetrisBlock::Z);
                r0.push(TetrisBlock::EMPTY);
                let mut r1: Vec<TetrisBlock> = Vec::new();
                r1.push(TetrisBlock::EMPTY);
                r1.push(TetrisBlock::Z);
                r1.push(TetrisBlock::Z);
                piece.push(r0);
                piece.push(r1);
            },
            TetrisBlock::T => {
                let mut r0: Vec<TetrisBlock> = Vec::new();
                r0.push(TetrisBlock::EMPTY);
                r0.push(TetrisBlock::T);
                r0.push(TetrisBlock::EMPTY);
                let mut r1: Vec<TetrisBlock> = Vec::new();
                r1.push(TetrisBlock::T);
                r1.push(TetrisBlock::T);
                r1.push(TetrisBlock::T);
                piece.push(r0);
                piece.push(r1);
            },
            TetrisBlock::O => {
                let mut r0: Vec<TetrisBlock> = Vec::new();
                r0.push(TetrisBlock::O);
                r0.push(TetrisBlock::O);
                let mut r1: Vec<TetrisBlock> = Vec::new();
                r1.push(TetrisBlock::O);
                r1.push(TetrisBlock::O);
                piece.push(r0);
                piece.push(r1);
            },
            TetrisBlock::EMPTY => {
                piece.push(vec![TetrisBlock::EMPTY; 1]);
            },
        }
        let p = TetrisPiece { piece, x, y };
        proof {
            assert forall|r: int| 0 <= r < p@.len() implies p@[r] =~= shape_grid(block)[r] by {}
            assert(p@ =~~= shape_grid(block));
        }
        p
    }

    /// The cell at local coordinates `(x, y)`; both must lie within the
    /// shape's extent.
    pub fn get(&self, x: usize, y: usize) -> (r: TetrisBlock)
        requires
            self.wf(),
            x < self.pwidth(),
            y < self.pheight(),
        ensures
            r == self@[y as int][x as int],
    {
        self.piece[y][x]
    }

    /// The shape's `(width, height)`.
    pub fn size(&self) -> (s: (usize, usize))
        requires
            self.wf(),
        ensures
            s.0 == self.pwidth(),
            s.1 == self.pheight(),
    {
        (self.piece[0].len(), self.piece.len())
    }

    /// Writes every occupied cell into the board at the piece's anchor
    /// offset. The caller must have validated bounds beforehand.
    pub fn burn_into(&self, board: &mut TetrisBoard)
        requires
            self.wf(),
            old(board).wf(),
            self.x + self.pwidth() <= usize::MAX,
            self.y + self.pheight() <= usize::MAX,
            fits(
                old(board).width as int,
                old(board).height as int,
                self@,
                self.x as int,
                self.y as int,
            ),
        ensures
            final(board).wf(),
            final(board).width == old(board).width,
            final(board).height == old(board).height,
            final(board)@ == burn_grid(old(board)@, self@, self.x as int, self.y as int),
    {
        let ghost b0 = *board;
        let (width, height) = self.size();
        let mut lx: usize = 0;
        while lx < width
            invariant
                self.wf(),
                width == self.pwidth(),
                height == self.pheight(),
                lx <= width,
                self.x + width <= usize::MAX,
                self.y + height <= usize::MAX,
                fits(b0.width as int, b0.height as int, self@, self.x as int, self.y as int),
                board.wf(),
                board.width == b0.width,
                board.height == b0.height,
                forall|br: int, bc: int|
                    0 <= br < b0.height && 0 <= bc < b0.width ==> #[trigger] board@[br][bc] == {
                        let r = br - self.y;
                        let c = bc - self.x;
                        if 0 <= r < self@.len() && 0 <= c < lx && self@[r][c]
                            != TetrisBlock::EMPTY {
                            self@[r][c]
                        } else {
                            b0@[br][bc]
                        }
                    },
            decreases width - lx,
        {
            let mut ly: usize = 0;
            while ly < height
                invariant
                    self.wf(),
                    width == self.pwidth(),
                    height == self.pheight(),
                    lx < width,
                    ly <= height,
                    self.x + width <= usize::MAX,
                    self.y + height <= usize::MAX,
                    fits(b0.width as int, b0.height as int, self@, self.x as int, self.y as int),
                    board.wf(),
                    board.width == b0.width,
                    board.height == b0.height,
                    forall|br: int, bc: int|
                        0 <= br < b0.height && 0 <= bc < b0.width ==> #[trigger] board@[br][bc]
                            == {
                            let r = br - self.y;
                            let c = bc - self.x;
                            if 0 <= r < self@.len() && 0 <= c < self@[0].len() && (c < lx || (c
                                == lx && r < ly)) && self@[r][c] != TetrisBlock::EMPTY {
                                self@[r][c]
                            } else {
                                b0@[br][bc]
                            }
                        },
                decreases height - ly,
            {
                let block = self.get(lx, ly);
                if block != TetrisBlock::EMPTY {
                    board.set(self.x + lx, self.y + ly, block);
                }
                ly = ly + 1;
            }
            lx = lx + 1;
        }
        proof {
            let target = burn_grid(b0@, self@, self.x as int, self.y as int);
            assert forall|br: int| 0 <= br < board.height implies board@[br] =~= target[br] by {
                assert forall|bc: int| 0 <= bc < board.width implies board@[br][bc]
                    == target[br][bc] by {}
            }
            assert(board@ =~~= target);
        }
    }

    /// Replaces the shape grid with its quarter-turn rotation: clockwise
    /// directly, counter-clockwise as three clockwise turns. The anchor is
    /// unchanged.
    pub fn rotate(&mut self, clockwise: bool)
        requires
            old(self).wf(),
        ensures
            final(self).wf(),
            final(self).x == old(self).x,
            final(self).y == old(self).y,
            final(self)@ == if clockwise {
                rot_cw(old(self)@)
            } else {
                rot_ccw(old(self)@)
            },
    {
        if clockwise {
            self.rotate_cw();
        } else {
            self.rotate_cw();
            self.rotate_cw();
            self.rotate_cw();
        }
    }

    /// One clockwise quarter turn of the shape grid.
    fn rotate_cw(&mut self)
        requires
            old(self).wf(),
        ensures
            final(self).wf(),
            final(self).x == old(self).x,
            final(self).y == old(self).y,
            final(self)@ == rot_cw(old(self)@),
    {
        let ghost g0 = self@;
        let (width, height) = self.size();
        let mut new_piece: Vec<Vec<TetrisBlock>> = Vec::new();
        let mut i: usize = 0;
        while i < width
            invariant
                self.wf(),
                g0 == self@,
                width == self.pwidth(),
                height == self.pheight(),
                i <= width,
                new_piece@.len() == i,
                forall|r: int|
                    0 <= r < i ==> (#[trigger] new_piece@[r])@ =~= Seq::new(
                        height as nat,
                        |c: int| g0[height - 1 - c][r],
                    ),
            decreases width - i,
        {
            let mut row: Vec<TetrisBlock> = Vec::new();
            let mut j: usize = 0;
            while j < height
                invariant
                    self.wf(),
                    g0 == self@,
                    width == self.pwidth(),
                    height == self.pheight(),
                    i < width,
                    j <= height,
                    row@.len() == j,
                    forall|c: int| 0 <= c < j ==> row@[c] == g0[height - 1 - c][i as int],
                decreases height - j,
            {
                row.push(self.get(i, height - 1 - j));
                j = j + 1;
            }
            new_piece.push(row);
            i = i + 1;
        }
        self.piece = new_piece;
        proof {
            assert forall|r: int| 0 <= r < self@.len() implies self@[r] =~= rot_cw(g0)[r] by {}
            assert(self@ =~~= rot_cw(g0));
        }
    }
}

} // verus!
