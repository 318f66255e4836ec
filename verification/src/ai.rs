//! The AI decision engine.  A monster's behavior state is re-derived
//! every turn from visibility and distance: out of sight it idles, at
//! arm's length it attacks the player, otherwise it chases with one
//! greedy step.

use vstd::prelude::*;
use crate::PLAYER;
use crate::combat::attack;
use crate::combat::attack_model;
use crate::combat::lemma_attack_model_preserves;
use crate::fov::Fov;
use crate::fov::spec_visible;
use crate::maps::map_wf;
use crate::object::Object;
use crate::object::ObjV;
use crate::object::Color;
use crate::object::ov;
use crate::object::obj_ok;
use crate::object::move_by_model;
use crate::object::lemma_move_by_model_preserves;
use crate::object::objs_ok;
use crate::object::lemma_ov_len;
use crate::object::lemma_ov_index;
use crate::structs::Game;
use crate::structs::mv;
use crate::tile::Tile;

verus! {

/// Absolute value.
pub open spec fn abs_int(a: int) -> int {
    if a < 0 {
        -a
    } else {
        a
    }
}

/// The sign of a number: `-1`, `0` or `1`.
pub open spec fn sign(a: int) -> int {
    if a > 0 {
        1
    } else if a < 0 {
        -1
    } else {
        0
    }
}

/// Chebyshev distance between two cells: the number of steps a king
/// would need.
pub open spec fn chebyshev(x1: int, y1: int, x2: int, y2: int) -> int {
    let dx = abs_int(x1 - x2);
    let dy = abs_int(y1 - y2);
    if dx > dy {
        dx
    } else {
        dy
    }
}

/// The greedy chasing step strictly approaches its target: stepping by
/// the sign of each coordinate difference reduces the Chebyshev
/// distance by exactly one (when it is committed; a blocked step is a
/// no-op).
pub proof fn lemma_chase_step_closes_in(mx: int, my: int, px: int, py: int)
    requires
        chebyshev(mx, my, px, py) >= 1,
    ensures
        chebyshev(mx + sign(px - mx), my + sign(py - my), px, py) == chebyshev(mx, my, px, py) - 1,
{
}

/// What one monster's turn does to the world, evaluated on the live
/// state.  In this order: the player's cell outside the monster's
/// view means idling; within a Chebyshev distance of 1 the monster
/// attacks; otherwise it takes one greedy step toward the player.
pub open spec fn ai_step_model(
    m: Seq<Vec<Tile>>,
    f: Seq<Vec<bool>>,
    objs: Seq<ObjV>,
    msgs: Seq<(Seq<char>, Color)>,
    id: int,
) -> (Seq<ObjV>, Seq<(Seq<char>, Color)>) {
    let mon = objs[id];
    let player = objs[PLAYER as int];
    if !spec_visible(f, mon.x, mon.y) {
        (objs, msgs)
    } else if chebyshev(mon.x, mon.y, player.x, player.y) <= 1 {
        attack_model(objs, msgs, id, PLAYER as int)
    } else {
        (move_by_model(m, objs, id, sign(player.x - mon.x), sign(player.y - mon.y)), msgs)
    }
}

/// One monster's turn keeps the collection's length, every actor's
/// invariant, the player's lack of an AI, and the player's life status
/// when it merely moves or idles.
pub proof fn lemma_ai_step_preserves(
    m: Seq<Vec<Tile>>,
    f: Seq<Vec<bool>>,
    objs: Seq<ObjV>,
    msgs: Seq<(Seq<char>, Color)>,
    id: int,
)
    requires
        0 < objs.len(),
        0 <= id < objs.len(),
        id != PLAYER as int,
        objs_ok(objs),
        objs[PLAYER as int].ai is None,
    ensures
        ai_step_model(m, f, objs, msgs, id).0.len() == objs.len(),
        objs_ok(ai_step_model(m, f, objs, msgs, id).0),
        ai_step_model(m, f, objs, msgs, id).0[PLAYER as int].ai is None,
{
    let mon = objs[id];
    let player = objs[PLAYER as int];
    if !spec_visible(f, mon.x, mon.y) {
    } else if chebyshev(mon.x, mon.y, player.x, player.y) <= 1 {
        lemma_attack_model_preserves(objs, msgs, id, PLAYER as int);
    } else {
        lemma_move_by_model_preserves(
            m,
            objs,
            id,
            sign(player.x - mon.x),
            sign(player.y - mon.y),
        );
    }
}

/// Run one monster's turn.  The decision consumes the live game state
/// and mutates it directly: an earlier monster's movement this turn is
/// visible here.
pub fn ai_take_turn(monster_id: usize, fov: &Fov, game: &mut Game, objects: &mut Vec<Object>)
    requires
        map_wf(old(game).map@),
        monster_id < old(objects)@.len(),
        monster_id != PLAYER,
        obj_ok(ov(old(objects)@)[monster_id as int]),
        obj_ok(ov(old(objects)@)[PLAYER as int]),
    ensures
        (ov(final(objects)@), mv(final(game).messages.messages@)) == ai_step_model(
            old(game).map@,
            fov.visible@,
            ov(old(objects)@),
            mv(old(game).messages.messages@),
            monster_id as int,
        ),
        final(game).map == old(game).map,
        final(objects)@.len() == old(objects)@.len(),
{
    broadcast use lemma_ov_len, lemma_ov_index;

    let mx = objects[monster_id].x;
    let my = objects[monster_id].y;
    if fov.is_visible(mx, my) {
        let px = objects[PLAYER].x;
        let py = objects[PLAYER].y;
        let ddx: i64 = px as i64 - mx as i64;
        let ddy: i64 = py as i64 - my as i64;
        let adx: i64 = if ddx < 0 {
            -ddx
        } else {
            ddx
        };
        let ady: i64 = if ddy < 0 {
            -ddy
        } else {
            ddy
        };
        let dist: i64 = if adx > ady {
            adx
        } else {
            ady
        };
        if dist <= 1 {
            attack(monster_id, PLAYER, objects, &mut game.messages);
        } else {
            let sx: i32 = if ddx > 0 {
                1
            } else if ddx < 0 {
                -1
            } else {
                0
            };
            let sy: i32 = if ddy > 0 {
                1
            } else if ddy < 0 {
                -1
            } else {
                0
            };
            Object::move_by(monster_id, sx, sy, &game.map, objects);
        }
    }
}

} // verus!
