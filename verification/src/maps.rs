//! The dungeon map: a fixed-size grid of tiles addressed by `(x, y)`,
//! created once at game start and afterwards mutated only through the
//! `explored` flags.

use vstd::prelude::*;
use crate::tile::Tile;

verus! {

/// The map is a rectangular grid of tiles, indexed `map[x][y]`.
pub type GameMap = Vec<Vec<Tile>>;

/// Width of a map (number of columns).
pub open spec fn map_width(m: Seq<Vec<Tile>>) -> int {
    m.len() as int
}

/// Height of a map (length of each column).
pub open spec fn map_height(m: Seq<Vec<Tile>>) -> int {
    if m.len() == 0 {
        0
    } else {
        m[0]@.len() as int
    }
}

/// A well-formed map is rectangular and its dimensions fit in `i32`,
/// so that every in-bounds cell has an `i32` address.
pub open spec fn map_wf(m: Seq<Vec<Tile>>) -> bool {
    &&& map_width(m) <= 0x7fff_ffff
    &&& map_height(m) <= 0x7fff_ffff
    &&& forall|x: int| 0 <= x < m.len() ==> (#[trigger] m[x])@.len() == map_height(m)
}

/// Whether `(x, y)` addresses a cell of the map.
pub open spec fn in_bounds(m: Seq<Vec<Tile>>, x: int, y: int) -> bool {
    0 <= x < map_width(m) && 0 <= y < map_height(m)
}

/// The tile at an in-bounds position.
pub open spec fn spec_tile_at(m: Seq<Vec<Tile>>, x: int, y: int) -> Tile {
    m[x]@[y]
}

/// Terrain-level passability: the cell exists and is not a wall.
pub open spec fn spec_passable(m: Seq<Vec<Tile>>, x: int, y: int) -> bool {
    in_bounds(m, x, y) && !spec_tile_at(m, x, y).blocked
}

/// Pure lookup of the tile at `(x, y)`; callers guarantee the position
/// is in bounds.
pub fn tile_at(map: &GameMap, x: i32, y: i32) -> (t: Tile)
    requires
        map_wf(map@),
        in_bounds(map@, x as int, y as int),
    ensures
        t == spec_tile_at(map@, x as int, y as int),
{
    map[x as usize][y as usize]
}

/// Whether the terrain at `(x, y)` can be walked on.  Total: positions
/// outside the map count as impassable.
pub fn is_passable(map: &GameMap, x: i32, y: i32) -> (r: bool)
    requires
        map_wf(map@),
    ensures
        r == spec_passable(map@, x as int, y as int),
{
    if x >= 0 && (x as usize) < map.len() {
        let col = &map[x as usize];
        if y >= 0 && (y as usize) < col.len() {
            !col[y as usize].blocked
        } else {
            false
        }
    } else {
        false
    }
}

/// The initial dungeon: an open field of the requested dimensions with
/// two free-standing wall pillars.
pub fn make_map(map_height: i32, map_width: i32) -> (m: GameMap)
    requires
        22 < map_height,
        50 < map_width,
    ensures
        map_wf(m@),
        crate::maps::map_width(m@) == map_width as int,
        crate::maps::map_height(m@) == map_height as int,
        forall|x: int, y: int|
            in_bounds(m@, x, y) ==> spec_tile_at(m@, x, y) == (if (x == 30 || x == 50) && y == 22 {
                Tile { blocked: true, block_sight: true, explored: false }
            } else {
                Tile { blocked: false, block_sight: false, explored: false }
            }),
{
    let w = map_width as usize;
    let h = map_height as usize;
    let mut map: GameMap = Vec::new();
    let mut x: usize = 0;
    while x < w
        invariant
            x <= w,
            22 < map_height,
            50 < map_width,
            w == map_width as int,
            h == map_height as int,
            map@.len() == x as int,
            forall|i: int| 0 <= i < x as int ==> (#[trigger] map@[i])@.len() == h as int,
            forall|i: int, j: int|
                0 <= i < x as int && 0 <= j < h as int ==> map@[i]@[j] == (Tile {
                    blocked: false,
                    block_sight: false,
                    explored: false,
                }),
        decreases w - x,
    {
        let mut col: Vec<Tile> = Vec::new();
        let mut y: usize = 0;
        while y < h
            invariant
                y <= h,
                col@.len() == y as int,
                forall|j: int| 0 <= j < y as int ==> col@[j] == (Tile {
                    blocked: false,
                    block_sight: false,
                    explored: false,
                }),
            decreases h - y,
        {
            col.push(Tile::empty());
            y += 1;
        }
        map.push(col);
        x += 1;
    }
    map[30][22] = Tile::wall();
    map[50][22] = Tile::wall();
    map
}

} // verus!
