//! The cell value: seven tetromino kinds plus the empty marker.

use vstd::prelude::*;

verus! {

/// One board or piece cell: a tetromino kind, or `EMPTY` for no block.
#[derive(Clone, Copy, PartialEq, Eq, Structural, Debug)]
pub enum TetrisBlock {
    L,
    T,
    S,
    I,
    O,
    Z,
    J,
    EMPTY,
}

/// The fixed display color of each kind, as an RGBA quadruple with every
/// channel in tenths of the unit range (10 stands for 1.0).
pub open spec fn color_spec(b: TetrisBlock) -> (u8, u8, u8, u8) {
    match b {
        TetrisBlock::L => (2, 10, 10, 10),
        TetrisBlock::T => (8, 0, 5, 10),
        TetrisBlock::I => (3, 3, 8, 10),
        TetrisBlock::J => (0, 0, 9, 10),
        TetrisBlock::O => (0, 9, 9, 10),
        TetrisBlock::S => (0, 8, 0, 10),
        TetrisBlock::Z => (8, 0, 0, 10),
        TetrisBlock::EMPTY => (0, 0, 0, 0),
    }
}

/// The kind that a random draw in `0 ..= 6` stands for; anything else is
/// `EMPTY`.
pub open spec fn kind_of_index(i: int) -> TetrisBlock {
    if i == 0 {
        TetrisBlock::L
    } else if i == 1 {
        TetrisBlock::T
    } else if i == 2 {
        TetrisBlock::I
    } else if i == 3 {
        TetrisBlock::J
    } else if i == 4 {
        TetrisBlock::O
    } else if i == 5 {
        TetrisBlock::S
    } else if i == 6 {
        TetrisBlock::Z
    } else {
        TetrisBlock::EMPTY
    }
}

/// Relies on `rand::Rng::gen_range` (rand 0.8): returns a value of the
/// given inclusive range, here `0 ..= 6`, drawn from the thread-local
/// generator. Nothing more can be promised of a random draw.
#[verifier::external_body]
fn random_index() -> (r: usize)
    ensures
        r <= 6,
{
    rand::Rng::gen_range(&mut rand::thread_rng(), 0..=6)
}

impl TetrisBlock {
    /// RGBA display color of this kind, channels in tenths of the unit
    /// range; `EMPTY` is fully transparent.
    pub fn color(&self) -> (c: (u8, u8, u8, u8))
        ensures
            c == color_spec(*self),
    {
        match *self {
            TetrisBlock::L => (2, 10, 10, 10),
            TetrisBlock::T => (8, 0, 5, 10),
            TetrisBlock::I => (3, 3, 8, 10),
            TetrisBlock::J => (0, 0, 9, 10),
            TetrisBlock::O => (0, 9, 9, 10),
            TetrisBlock::S => (0, 8, 0, 10),
            TetrisBlock::Z => (8, 0, 0, 10),
            TetrisBlock::EMPTY => (0, 0, 0, 0),
        }
    }

    /// A kind chosen uniformly among the seven non-empty variants.
    pub fn random() -> (r: TetrisBlock)
        ensures
            r != TetrisBlock::EMPTY,
    {
        TetrisBlock::get(random_index())
    }

    /// The kind a draw index stands for.
    pub fn get(i: usize) -> (r: TetrisBlock)
        ensures
            r == kind_of_index(i as int),
    {
        match i {
            0 => TetrisBlock::L,
            1 => TetrisBlock::T,
            2 => TetrisBlock::I,
            3 => TetrisBlock::J,
            4 => TetrisBlock::O,
            5 => TetrisBlock::S,
            6 => TetrisBlock::Z,
            _ => TetrisBlock::EMPTY,
        }
    }
}

} // verus!
