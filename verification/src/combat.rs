//! The combat resolver: damage computation, hit-point mutation and
//! death dispatch.

use vstd::prelude::*;
use crate::object::Object;
use crate::object::ObjV;
use crate::object::Color;
use crate::object::Fighter;
use crate::object::DeathCallback;
use crate::object::ov;
use crate::object::obj_ok;
use crate::object::objs_ok;
use crate::object::fighter_ok;
use crate::object::lemma_ov_len;
use crate::object::lemma_ov_index;
use crate::object::lemma_ov_update;
use crate::structs::Messages;
use crate::structs::mv;
use crate::structs::lemma_mv_push;
use crate::text::attack_text;
use crate::text::monster_death_text;
use crate::text::remains_name;
use crate::text::attack_message_text;
use crate::text::monster_death_message_text;
use crate::text::remains_name_text;

verus! {

/// Color of combat narration.
pub open spec fn white() -> Color {
    Color { r: 255, g: 255, b: 255 }
}

/// Color of the player's death announcement.
pub open spec fn red() -> Color {
    Color { r: 255, g: 0, b: 0 }
}

/// Color of a monster's death announcement.
pub open spec fn orange() -> Color {
    Color { r: 255, g: 127, b: 0 }
}

/// Color of a corpse glyph.
pub open spec fn dark_red() -> Color {
    Color { r: 191, g: 0, b: 0 }
}

/// The attacking power of an actor: its fighter's power, or none at
/// all.
pub open spec fn spec_power(o: ObjV) -> int {
    match o.fighter {
        Some(f) => f.power as int,
        None => 0,
    }
}

/// The defense of an actor: its fighter's defense, or none at all.
pub open spec fn spec_defense(o: ObjV) -> int {
    match o.fighter {
        Some(f) => f.defense as int,
        None => 0,
    }
}

/// Damage dealt by one attack: power minus defense, never negative.
pub open spec fn spec_damage(att: ObjV, def: ObjV) -> int {
    if spec_power(att) > spec_defense(def) {
        spec_power(att) - spec_defense(def)
    } else {
        0
    }
}

/// Hit points after taking `amount` damage: clamped at a floor of
/// zero, and untouched unless there were hit points to lose and the
/// damage is positive.
pub open spec fn damaged_hp(hp: int, amount: int) -> int {
    if amount > 0 && hp > 0 {
        if amount >= hp {
            0
        } else {
            hp - amount
        }
    } else {
        hp
    }
}

/// What `Object::take_damage` does to an actor: pure hit-point
/// mutation; nothing else of the actor changes.
pub open spec fn take_damage_model(o: ObjV, amount: int) -> ObjV {
    match o.fighter {
        Some(f) => ObjV {
            fighter: Some(Fighter { hp: damaged_hp(f.hp as int, amount) as i32, ..f }),
            ..o
        },
        None => o,
    }
}

/// Whether taking `amount` damage kills the actor: it had hit points
/// and loses the last of them.
pub open spec fn spec_death_occurred(o: ObjV, amount: int) -> bool {
    match o.fighter {
        Some(f) => f.hp > 0 && damaged_hp(f.hp as int, amount) == 0,
        None => false,
    }
}

/// What death dispatch does to an actor.  A dead or fighterless actor
/// is left untouched, so dispatching death twice is a no-op.  A player
/// death only marks the run as over; a monster is converted into inert
/// remains: non-blocking, stripped of its fighter and AI, renamed.
pub open spec fn death_resolved(o: ObjV) -> ObjV {
    if o.alive && o.fighter is Some {
        match o.fighter->0.on_death {
            DeathCallback::Player => ObjV { alive: false, char: '%', color: dark_red(), ..o },
            DeathCallback::Monster => ObjV {
                alive: false,
                char: '%',
                color: dark_red(),
                blocks: false,
                fighter: None,
                ai: None,
                name: remains_name(o.name),
                ..o
            },
        }
    } else {
        o
    }
}

/// The announcement that death dispatch appends, if any.
pub open spec fn death_message(o: ObjV) -> Option<(Seq<char>, Color)> {
    if o.alive && o.fighter is Some {
        match o.fighter->0.on_death {
            DeathCallback::Player => Some(("You died!"@, red())),
            DeathCallback::Monster => Some((monster_death_text(o.name), orange())),
        }
    } else {
        None
    }
}

/// A message log with one more entry, when there is one to add.
pub open spec fn push_opt(
    msgs: Seq<(Seq<char>, Color)>,
    m: Option<(Seq<char>, Color)>,
) -> Seq<(Seq<char>, Color)> {
    match m {
        Some(msg) => msgs.push(msg),
        None => msgs,
    }
}

/// What `attack` does to the world: the combat narration is appended,
/// the defender takes the damage, and a killed defender's death is
/// dispatched at once.
pub open spec fn attack_model(
    objs: Seq<ObjV>,
    msgs: Seq<(Seq<char>, Color)>,
    att: int,
    def: int,
) -> (Seq<ObjV>, Seq<(Seq<char>, Color)>) {
    let a = objs[att];
    let d = objs[def];
    let dmg = spec_damage(a, d);
    let msgs1 = msgs.push((attack_text(a.name, a.attack_message, d.name, dmg), white()));
    let d1 = take_damage_model(d, dmg);
    if spec_death_occurred(d, dmg) {
        (objs.update(def, death_resolved(d1)), push_opt(msgs1, death_message(d1)))
    } else {
        (objs.update(def, d1), msgs1)
    }
}

/// Combat arithmetic law: one attack deals exactly
/// `max(0, power - defense)` damage, the defender's hit points drop by
/// exactly that amount, clamped at a floor of zero — they never go
/// negative.
pub proof fn lemma_combat_arithmetic(att: ObjV, def: ObjV)
    requires
        def.fighter is Some,
        fighter_ok(def.fighter->0),
        def.fighter->0.hp > 0,
    ensures
        ({
            let hp0 = def.fighter->0.hp as int;
            let dmg = spec_damage(att, def);
            let hp1 = take_damage_model(def, dmg).fighter->0.hp as int;
            &&& dmg == (if spec_power(att) > spec_defense(def) {
                spec_power(att) - spec_defense(def)
            } else {
                0
            })
            &&& hp1 == (if hp0 - dmg > 0 {
                hp0 - dmg
            } else {
                0
            })
            &&& hp1 >= 0
        }),
{
}

/// Death idempotence law: dispatching death a second time changes
/// nothing and announces nothing; a dispatched death leaves the actor
/// not alive; and a dead monster is non-blocking and has lost its
/// fighter and AI components.
pub proof fn lemma_death_idempotent(o: ObjV)
    ensures
        death_resolved(death_resolved(o)) == death_resolved(o),
        death_message(death_resolved(o)) is None,
        o.alive && o.fighter is Some ==> !death_resolved(o).alive,
        o.alive && o.fighter is Some && o.fighter->0.on_death == DeathCallback::Monster
            ==> !death_resolved(o).blocks && death_resolved(o).fighter is None && death_resolved(
            o,
        ).ai is None,
{
}

/// Taking damage preserves the fighter invariant: hit points never
/// leave `0 ..= max_hp`, whatever the damage.
pub proof fn lemma_take_damage_ok(o: ObjV, amount: int)
    requires
        obj_ok(o),
    ensures
        obj_ok(take_damage_model(o, amount)),
        take_damage_model(o, amount).ai == o.ai,
{
}

/// Death dispatch preserves the actor invariant, never grants an AI,
/// and never moves the actor.
pub proof fn lemma_death_resolved_ok(o: ObjV)
    requires
        obj_ok(o),
    ensures
        obj_ok(death_resolved(o)),
        o.ai is None ==> death_resolved(o).ai is None,
        death_resolved(o).x == o.x,
        death_resolved(o).y == o.y,
{
}

/// An attack touches nobody but the defender, keeps the collection's
/// length, and preserves every actor's invariant; a defender without
/// an AI never gains one.
pub proof fn lemma_attack_model_preserves(
    objs: Seq<ObjV>,
    msgs: Seq<(Seq<char>, Color)>,
    att: int,
    def: int,
)
    requires
        0 <= att < objs.len(),
        0 <= def < objs.len(),
        objs_ok(objs),
    ensures
        attack_model(objs, msgs, att, def).0.len() == objs.len(),
        forall|i: int|
            0 <= i < objs.len() && i != def ==> attack_model(objs, msgs, att, def).0[i] == objs[i],
        objs_ok(attack_model(objs, msgs, att, def).0),
        objs[def].ai is None ==> attack_model(objs, msgs, att, def).0[def].ai is None,
{
    let d = objs[def];
    let dmg = spec_damage(objs[att], d);
    lemma_take_damage_ok(d, dmg);
    lemma_death_resolved_ok(take_damage_model(d, dmg));
    let r = attack_model(objs, msgs, att, def).0;
    assert forall|i: int| 0 <= i < objs.len() implies obj_ok(#[trigger] r[i]) by {
        assert(obj_ok(objs[i]));
    }
}

impl Object {
    /// Apply `amount` damage to this actor's hit points, clamped at a
    /// floor of zero.  Returns whether this reduced the last hit
    /// points to zero — death itself is dispatched by the caller, so
    /// combat state and narration stay independently testable.
    pub fn take_damage(&mut self, amount: i32) -> (dead: bool)
        ensures
            final(self)@ == take_damage_model(old(self)@, amount as int),
            dead == spec_death_occurred(old(self)@, amount as int),
            old(self)@.fighter is Some && fighter_ok(old(self)@.fighter->0) ==> final(self)@.fighter is Some
                && fighter_ok(final(self)@.fighter->0),
    {
        let mut dead = false;
        match self.fighter {
            Some(f) => {
                if amount > 0 && f.hp > 0 {
                    let nh = if amount >= f.hp {
                        0
                    } else {
                        f.hp - amount
                    };
                    self.fighter = Some(Fighter { hp: nh, ..f });
                    if nh == 0 {
                        dead = true;
                    }
                }
                assert(self@ =~= take_damage_model(old(self)@, amount as int));
            },
            None => {
                assert(self@ =~= take_damage_model(old(self)@, amount as int));
            },
        }
        dead
    }
}

/// Dispatch an actor's death.  Re-invoking this on an already dead (or
/// fighterless) actor is a no-op: the actor and the log are returned
/// exactly as they were.
pub fn resolve_death(actor: &mut Object, messages: &mut Messages)
    ensures
        final(actor)@ == death_resolved(old(actor)@),
        mv(final(messages).messages@) == push_opt(
            mv(old(messages).messages@),
            death_message(old(actor)@),
        ),
        !(old(actor)@.alive && old(actor)@.fighter is Some) ==> *final(actor) == *old(actor)
            && *final(messages) == *old(messages),
{
    broadcast use lemma_mv_push;

    if actor.alive {
        match actor.fighter {
            Some(f) => {
                match f.on_death {
                    DeathCallback::Player => {
                        messages.add("You died!".to_owned(), Color { r: 255, g: 0, b: 0 });
                        actor.alive = false;
                        actor.char = '%';
                        actor.color = Color { r: 191, g: 0, b: 0 };
                        assert(actor@ =~= death_resolved(old(actor)@));
                    },
                    DeathCallback::Monster => {
                        let announcement = monster_death_message_text(actor.name.as_str());
                        messages.add(announcement, Color { r: 255, g: 127, b: 0 });
                        let new_name = remains_name_text(actor.name.as_str());
                        actor.alive = false;
                        actor.char = '%';
                        actor.color = Color { r: 191, g: 0, b: 0 };
                        actor.blocks = false;
                        actor.fighter = None;
                        actor.ai = None;
                        actor.name = new_name;
                        assert(actor@ =~= death_resolved(old(actor)@));
                    },
                }
            },
            None => {},
        }
    }
}

/// One attack of actor `attacker_id` on actor `defender_id`: computes
/// the damage, narrates it, applies it, and dispatches the defender's
/// death when the last hit points go.
pub fn attack(attacker_id: usize, defender_id: usize, objects: &mut Vec<Object>, messages: &mut Messages)
    requires
        attacker_id < old(objects)@.len(),
        defender_id < old(objects)@.len(),
        attacker_id != defender_id,
        obj_ok(ov(old(objects)@)[attacker_id as int]),
        obj_ok(ov(old(objects)@)[defender_id as int]),
    ensures
        (ov(final(objects)@), mv(final(messages).messages@)) == attack_model(
            ov(old(objects)@),
            mv(old(messages).messages@),
            attacker_id as int,
            defender_id as int,
        ),
        final(objects)@.len() == old(objects)@.len(),
        obj_ok(ov(final(objects)@)[defender_id as int]),
        forall|i: int|
            0 <= i < old(objects)@.len() && i != defender_id as int ==> final(objects)@[i] == old(
                objects,
            )@[i],
{
    broadcast use lemma_ov_len, lemma_ov_index, lemma_ov_update, lemma_mv_push;

    let a_name = objects[attacker_id].name.clone();
    let a_verb = objects[attacker_id].attack_message.clone();
    let d_name = objects[defender_id].name.clone();
    let power = match objects[attacker_id].fighter {
        Some(f) => f.power,
        None => 0,
    };
    let defense = match objects[defender_id].fighter {
        Some(f) => f.defense,
        None => 0,
    };
    let dmg = if power > defense {
        power - defense
    } else {
        0
    };
    let narration = attack_message_text(
        a_name.as_str(),
        a_verb.as_str(),
        d_name.as_str(),
        dmg,
    );
    messages.add(narration, Color { r: 255, g: 255, b: 255 });
    let defender = &mut objects[defender_id];
    let dead = defender.take_damage(dmg);
    if dead {
        resolve_death(defender, messages);
    }
}

} // verus!
