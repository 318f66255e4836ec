//! A single map cell: passability, opacity, and the monotonic
//! exploration flag.

use vstd::prelude::*;

verus! {

/// One cell of the dungeon grid.
///
/// `explored` is monotonic: once a tile has been seen it stays explored
/// for the rest of the run (see `fov::update_explored`).
#[derive(Clone, Copy, PartialEq, Eq, Structural, Debug)]
pub struct Tile {
    /// Movement into this cell is impossible when set.
    pub blocked: bool,
    /// Sight through this cell is impossible when set.
    pub block_sight: bool,
    /// Whether the player has ever seen this cell.
    pub explored: bool,
}

impl DeepView for Tile {
    type V = Tile;

    open spec fn deep_view(&self) -> Tile {
        *self
    }
}

impl Tile {
    /// An open floor cell, not yet explored.
    pub fn empty() -> (t: Tile)
        ensures
            t == (Tile { blocked: false, block_sight: false, explored: false }),
    {
        Tile { blocked: false, block_sight: false, explored: false }
    }

    /// A solid wall cell, not yet explored.
    pub fn wall() -> (t: Tile)
        ensures
            t == (Tile { blocked: true, block_sight: true, explored: false }),
    {
        Tile { blocked: true, block_sight: true, explored: false }
    }
}

} // verus!
