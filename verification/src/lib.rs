//! Game-state engine for a falling-block puzzle game: a rectangular board
//! of colored cells, a falling tetromino piece, collision checks, rotation,
//! row clearing with scoring, and a timing-driven update loop.

use vstd::prelude::*;

pub mod block;
pub mod board;
pub mod game;
pub mod grid;
pub mod piece;

verus! {

/// Screen size of one cell, in pixels, for an external renderer.
pub const BLOCK_SIZE: usize = 32;

/// Milliseconds between automatic descents of the falling piece.
pub const FALL_SPEED_MS: u64 = 500;

/// Milliseconds the game-over overlay stays before an automatic restart.
pub const RESTART_TIME_MS: u64 = 4000;

/// Board coordinate to pixel coordinate.
pub fn to_coord(val: usize) -> (r: usize)
    requires
        val * BLOCK_SIZE <= usize::MAX,
    ensures
        r == val * BLOCK_SIZE,
{
    val * BLOCK_SIZE
}

} // verus!
