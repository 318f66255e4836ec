//! Turn-based dungeon simulation core.
//!
//! A grid map of tiles, a collection of actors (the player and monsters),
//! a visibility overlay, a combat resolver, an AI decision engine and a
//! strict turn scheduler.  Rendering, input polling, field-of-view
//! computation and procedural map generation are external collaborators:
//! they hand plain values to this crate and take plain values back.

use vstd::prelude::*;

pub mod tile;
pub mod maps;
pub mod object;
pub mod text;
pub mod structs;
pub mod combat;
pub mod fov;
pub mod ai;
pub mod g_input;
pub mod turn;

verus! {

/// The player always occupies this slot in the actor collection.
pub const PLAYER: usize = 0;

} // verus!
