//! Actors: the player and the monsters.  An actor has a position, a
//! renderable glyph and color, a blocking flag, an alive flag, optional
//! combat stats and an optional AI behavior tag.

use vstd::prelude::*;
use crate::maps::GameMap;
use crate::maps::map_wf;
use crate::maps::spec_passable;
use crate::tile::Tile;

verus! {

/// An RGB color, carried through to the rendering collaborator.
#[derive(Clone, Copy, PartialEq, Eq, Structural, Debug)]
pub struct Color {
    pub r: u8,
    pub g: u8,
    pub b: u8,
}

/// What happens when an actor's hit points reach zero.
#[derive(Clone, Copy, PartialEq, Eq, Structural, Debug)]
pub enum DeathCallback {
    /// The run is over; the orchestrator reads `alive == false`.
    Player,
    /// The actor is converted into inert remains.
    Monster,
}

/// The AI behavior tag carried by monsters.
#[derive(Clone, Copy, PartialEq, Eq, Structural, Debug)]
pub enum Ai {
    Basic,
}

/// Combat statistics of an actor that can fight.
#[derive(Clone, Copy, PartialEq, Eq, Structural, Debug)]
pub struct Fighter {
    pub max_hp: i32,
    pub hp: i32,
    pub defense: i32,
    pub power: i32,
    pub on_death: DeathCallback,
}

/// The fighter invariant: hit points stay within `0 ..= max_hp` and the
/// stats are non-negative.
pub open spec fn fighter_ok(f: Fighter) -> bool {
    0 <= f.hp <= f.max_hp && f.power >= 0 && f.defense >= 0
}

/// An actor in the dungeon.
pub struct Object {
    pub x: i32,
    pub y: i32,
    pub char: char,
    pub color: Color,
    pub name: String,
    pub blocks: bool,
    pub alive: bool,
    pub attack_message: String,
    pub fighter: Option<Fighter>,
    pub ai: Option<Ai>,
}

/// The mathematical view of an actor: positions as unbounded integers,
/// strings as character sequences.
#[verifier::ext_equal]
pub struct ObjV {
    pub x: int,
    pub y: int,
    pub char: char,
    pub color: Color,
    pub name: Seq<char>,
    pub blocks: bool,
    pub alive: bool,
    pub attack_message: Seq<char>,
    pub fighter: Option<Fighter>,
    pub ai: Option<Ai>,
}

impl View for Object {
    type V = ObjV;

    open spec fn view(&self) -> ObjV {
        ObjV {
            x: self.x as int,
            y: self.y as int,
            char: self.char,
            color: self.color,
            name: self.name@,
            blocks: self.blocks,
            alive: self.alive,
            attack_message: self.attack_message@,
            fighter: self.fighter,
            ai: self.ai,
        }
    }
}

/// The view of a whole actor collection.
pub open spec fn ov(objs: Seq<Object>) -> Seq<ObjV> {
    Seq::new(objs.len(), |i: int| objs[i]@)
}

pub broadcast proof fn lemma_ov_len(objs: Seq<Object>)
    ensures
        (#[trigger] ov(objs)).len() == objs.len(),
{
}

pub broadcast proof fn lemma_ov_index(objs: Seq<Object>, i: int)
    requires
        0 <= i < objs.len(),
    ensures
        #[trigger] ov(objs)[i] == objs[i]@,
{
}

pub broadcast proof fn lemma_ov_update(objs: Seq<Object>, i: int, o: Object)
    requires
        0 <= i < objs.len(),
    ensures
        #[trigger] ov(objs.update(i, o)) == ov(objs).update(i, o@),
{
    assert(ov(objs.update(i, o)) =~= ov(objs).update(i, o@));
}

/// An actor's invariant: if it has combat stats, they are well formed.
pub open spec fn obj_ok(o: ObjV) -> bool {
    o.fighter is Some ==> fighter_ok(o.fighter->0)
}

/// Every actor of the collection satisfies its invariant.
pub open spec fn objs_ok(objs: Seq<ObjV>) -> bool {
    forall|i: int| 0 <= i < objs.len() ==> obj_ok(#[trigger] objs[i])
}

/// Whether some blocking actor stands on `(x, y)`.
pub open spec fn occupied_blocking(objs: Seq<ObjV>, x: int, y: int) -> bool {
    exists|i: int|
        0 <= i < objs.len() && (#[trigger] objs[i]).blocks && objs[i].x == x && objs[i].y == y
}

/// The unified movement query: a cell is blocked when the terrain is
/// impassable (walls and out-of-bounds positions alike) or a blocking
/// actor occupies it.  Player movement and AI movement consult exactly
/// this predicate.
pub open spec fn spec_blocked(m: Seq<Vec<Tile>>, objs: Seq<ObjV>, x: int, y: int) -> bool {
    !spec_passable(m, x, y) || occupied_blocking(objs, x, y)
}

/// The same actor, standing at `(x, y)`.
pub open spec fn moved(o: ObjV, x: int, y: int) -> ObjV {
    ObjV { x, y, ..o }
}

/// What `Object::move_by` does to the collection: if the target cell is
/// free, actor `id` commits the step; otherwise nothing changes.
pub open spec fn move_by_model(
    m: Seq<Vec<Tile>>,
    objs: Seq<ObjV>,
    id: int,
    dx: int,
    dy: int,
) -> Seq<ObjV> {
    let tx = objs[id].x + dx;
    let ty = objs[id].y + dy;
    if spec_blocked(m, objs, tx, ty) {
        objs
    } else {
        objs.update(id, moved(objs[id], tx, ty))
    }
}

/// Movement safety law: for every actor and delta, after a move the
/// actor's tile is passable (provided it stood on a passable tile
/// before), and if the target was blocked the position is unchanged.
pub proof fn lemma_movement_safety(
    m: Seq<Vec<Tile>>,
    objs: Seq<ObjV>,
    id: int,
    dx: int,
    dy: int,
)
    requires
        0 <= id < objs.len(),
        spec_passable(m, objs[id].x, objs[id].y),
    ensures
        ({
            let r = move_by_model(m, objs, id, dx, dy);
            &&& spec_passable(m, r[id].x, r[id].y)
            &&& spec_blocked(m, objs, objs[id].x + dx, objs[id].y + dy) ==> r == objs
        }),
{
}

/// A movement never touches any other actor, never changes the length
/// of the collection, and preserves every actor's invariant.
pub proof fn lemma_move_by_model_preserves(
    m: Seq<Vec<Tile>>,
    objs: Seq<ObjV>,
    id: int,
    dx: int,
    dy: int,
)
    requires
        0 <= id < objs.len(),
    ensures
        move_by_model(m, objs, id, dx, dy).len() == objs.len(),
        forall|i: int|
            0 <= i < objs.len() && i != id ==> move_by_model(m, objs, id, dx, dy)[i] == objs[i],
        objs_ok(objs) ==> objs_ok(move_by_model(m, objs, id, dx, dy)),
        move_by_model(m, objs, id, dx, dy)[id].ai == objs[id].ai,
        move_by_model(m, objs, id, dx, dy)[id].alive == objs[id].alive,
{
    let r = move_by_model(m, objs, id, dx, dy);
    assert forall|i: int| 0 <= i < objs.len() && objs_ok(objs) implies obj_ok(#[trigger] r[i]) by {
        assert(obj_ok(objs[i]));
    }
}

/// Whether movement into `(x, y)` is blocked, by terrain or by a
/// blocking occupant.  Total: out-of-bounds cells are blocked.
pub fn is_blocked(x: i32, y: i32, map: &GameMap, objects: &Vec<Object>) -> (b: bool)
    requires
        map_wf(map@),
    ensures
        b == spec_blocked(map@, ov(objects@), x as int, y as int),
{
    broadcast use lemma_ov_len, lemma_ov_index;

    if !crate::maps::is_passable(map, x, y) {
        return true;
    }
    let mut i: usize = 0;
    while i < objects.len()
        invariant
            i <= objects@.len(),
            forall|j: int|
                0 <= j < i as int ==> !((#[trigger] ov(objects@)[j]).blocks && ov(objects@)[j].x
                    == x as int && ov(objects@)[j].y == y as int),
        decreases objects@.len() - i,
    {
        let o = &objects[i];
        if o.blocks && o.x == x && o.y == y {
            assert(ov(objects@)[i as int].blocks && ov(objects@)[i as int].x == x as int && ov(
                objects@,
            )[i as int].y == y as int);
            return true;
        }
        i += 1;
    }
    false
}

impl Object {
    /// A fresh actor at `(x, y)`: not yet alive, with no combat stats
    /// and no AI.
    pub fn new(x: i32, y: i32, char: char, name: &str, color: Color, blocks: bool) -> (o: Object)
        ensures
            o@ == (ObjV {
                x: x as int,
                y: y as int,
                char,
                color,
                name: name@,
                blocks,
                alive: false,
                attack_message: "attack"@,
                fighter: None,
                ai: None,
            }),
    {
        Object {
            x,
            y,
            char,
            color,
            name: name.to_owned(),
            blocks,
            alive: false,
            attack_message: "attack".to_owned(),
            fighter: None,
            ai: None,
        }
    }

    /// The actor's position.
    pub fn pos(&self) -> (p: (i32, i32))
        ensures
            p.0 == self.x,
            p.1 == self.y,
    {
        (self.x, self.y)
    }

    /// Place the actor at `(x, y)`.
    pub fn set_pos(&mut self, x: i32, y: i32)
        ensures
            final(self)@ == moved(old(self)@, x as int, y as int),
    {
        self.x = x;
        self.y = y;
    }

    /// Move actor `id` by the given delta if the target cell is free;
    /// otherwise the move is silently a no-op.  After the call the
    /// actor never stands on blocked terrain it did not already stand
    /// on: a committed step always lands on a passable cell.
    pub fn move_by(id: usize, dx: i32, dy: i32, map: &GameMap, objects: &mut Vec<Object>)
        requires
            map_wf(map@),
            id < old(objects)@.len(),
        ensures
            ov(final(objects)@) == move_by_model(
                map@,
                ov(old(objects)@),
                id as int,
                dx as int,
                dy as int,
            ),
            spec_blocked(
                map@,
                ov(old(objects)@),
                old(objects)@[id as int]@.x + dx,
                old(objects)@[id as int]@.y + dy,
            ) ==> final(objects)@ == old(objects)@,
            !spec_blocked(
                map@,
                ov(old(objects)@),
                old(objects)@[id as int]@.x + dx,
                old(objects)@[id as int]@.y + dy,
            ) ==> spec_passable(map@, final(objects)@[id as int]@.x, final(objects)@[id as int]@.y),
    {
        broadcast use lemma_ov_len, lemma_ov_index, lemma_ov_update;

        let ox = objects[id].x;
        let oy = objects[id].y;
        let txl: i64 = ox as i64 + dx as i64;
        let tyl: i64 = oy as i64 + dy as i64;
        if txl >= -2147483648i64 && txl <= 2147483647i64 && tyl >= -2147483648i64 && tyl
            <= 2147483647i64 {
            let tx = txl as i32;
            let ty = tyl as i32;
            if !is_blocked(tx, ty, map, objects) {
                let o = &mut objects[id];
                o.set_pos(tx, ty);
                assert(ov(objects@) =~= move_by_model(
                    map@,
                    ov(old(objects)@),
                    id as int,
                    dx as int,
                    dy as int,
                ));
            }
        } else {
            assert(!crate::maps::in_bounds(map@, txl as int, tyl as int));
        }
    }
}

} // verus!
