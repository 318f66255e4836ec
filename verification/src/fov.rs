//! The visibility overlay.  Computing a field of view is the job of an
//! external collaborator; it hands the result over as a plain grid of
//! booleans.  This module consumes such an overlay: it answers
//! visibility queries and marks every visible cell of the map as
//! explored.

use vstd::prelude::*;
use crate::maps::map_wf;
use crate::maps::in_bounds;
use crate::maps::map_height;
use crate::structs::Game;
use crate::tile::Tile;

verus! {

/// A computed set of visible cells, as a grid: `visible[x][y]` says
/// whether `(x, y)` is currently in view.
pub struct Fov {
    pub visible: Vec<Vec<bool>>,
}

/// Whether the overlay marks `(x, y)` visible.  Total: cells outside
/// the overlay are not visible.
pub open spec fn spec_visible(f: Seq<Vec<bool>>, x: int, y: int) -> bool {
    0 <= x < f.len() && 0 <= y < f[x]@.len() && f[x]@[y]
}

impl Fov {
    /// Whether `(x, y)` is currently in view.
    pub fn is_visible(&self, x: i32, y: i32) -> (r: bool)
        ensures
            r == spec_visible(self.visible@, x as int, y as int),
    {
        if x >= 0 && (x as usize) < self.visible.len() {
            let col = &self.visible[x as usize];
            if y >= 0 && (y as usize) < col.len() {
                col[y as usize]
            } else {
                false
            }
        } else {
            false
        }
    }
}

/// Mark every currently visible cell of the map as explored.  This is
/// the only operation of the whole crate that writes to the map, and
/// it only ever turns `explored` on: exploration is monotonic, a tile
/// once explored never reverts.
pub fn update_explored(game: &mut Game, fov: &Fov)
    requires
        map_wf(old(game).map@),
    ensures
        map_wf(final(game).map@),
        final(game).map@.len() == old(game).map@.len(),
        map_height(final(game).map@) == map_height(old(game).map@),
        forall|x: int, y: int|
            in_bounds(old(game).map@, x, y) ==> final(game).map@[x]@[y] == (Tile {
                explored: old(game).map@[x]@[y].explored || spec_visible(fov.visible@, x, y),
                ..old(game).map@[x]@[y]
            }),
        forall|x: int, y: int|
            in_bounds(old(game).map@, x, y) && old(game).map@[x]@[y].explored
                ==> final(game).map@[x]@[y].explored,
        final(game).messages == old(game).messages,
{
    let ghost m0 = old(game).map@;
    let w = game.map.len();
    let mut x: usize = 0;
    while x < w
        invariant
            x <= w,
            w == m0.len(),
            map_wf(m0),
            game.map@.len() == m0.len(),
            game.messages == old(game).messages,
            forall|i: int| x as int <= i < m0.len() ==> game.map@[i] == m0[i],
            forall|i: int| 0 <= i < x as int ==> (#[trigger] game.map@[i])@.len() == m0[i]@.len(),
            forall|i: int, j: int|
                0 <= i < x as int && 0 <= j < m0[i]@.len() ==> game.map@[i]@[j] == (Tile {
                    explored: m0[i]@[j].explored || spec_visible(fov.visible@, i, j),
                    ..m0[i]@[j]
                }),
        decreases w - x,
    {
        let h = game.map[x].len();
        let mut y: usize = 0;
        while y < h
            invariant
                y <= h,
                x < w,
                w == m0.len(),
                map_wf(m0),
                h == m0[x as int]@.len(),
                game.map@.len() == m0.len(),
                game.messages == old(game).messages,
                forall|i: int| (x as int) < i < m0.len() ==> game.map@[i] == m0[i],
                forall|i: int| 0 <= i < x as int ==> (#[trigger] game.map@[i])@.len() == m0[i]@.len(),
                forall|i: int, j: int|
                    0 <= i < x as int && 0 <= j < m0[i]@.len() ==> game.map@[i]@[j] == (Tile {
                        explored: m0[i]@[j].explored || spec_visible(fov.visible@, i, j),
                        ..m0[i]@[j]
                    }),
                game.map@[x as int]@.len() == m0[x as int]@.len(),
                forall|j: int| y as int <= j < m0[x as int]@.len() ==> game.map@[x as int]@[j]
                    == m0[x as int]@[j],
                forall|j: int|
                    0 <= j < y as int ==> game.map@[x as int]@[j] == (Tile {
                        explored: m0[x as int]@[j].explored || spec_visible(
                            fov.visible@,
                            x as int,
                            j,
                        ),
                        ..m0[x as int]@[j]
                    }),
            decreases h - y,
        {
            assert(x < 0x7fff_ffff && y < 0x7fff_ffff) by {
                assert(map_height(m0) == m0[x as int]@.len());
            }
            if fov.is_visible(x as i32, y as i32) {
                game.map[x][y].explored = true;
            }
            y += 1;
        }
        x += 1;
    }
}

} // verus!
