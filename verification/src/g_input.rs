//! Classification of player input and the player's own action.  The
//! input source (a blocking keyboard wait) is an external
//! collaborator; it hands one discrete event over as a plain value.

use vstd::prelude::*;
use crate::PLAYER;
use crate::combat::attack;
use crate::combat::attack_model;
use crate::maps::map_wf;
use crate::object::Object;
use crate::object::ObjV;
use crate::object::Color;
use crate::object::ov;
use crate::object::objs_ok;
use crate::object::move_by_model;
use crate::object::lemma_ov_len;
use crate::object::lemma_ov_index;
use crate::structs::Game;
use crate::structs::mv;
use crate::tile::Tile;

verus! {

/// How the turn scheduler classifies one player input.
#[derive(Clone, Copy, PartialEq, Eq, Structural, Debug)]
pub enum PlayerAction {
    /// A command that changed, or attempted to change, world state.
    TookTurn,
    /// A display-only or unrecognized command; the world does not
    /// advance.
    DidntTakeTurn,
    /// The explicit quit command; the loop terminates at once.
    Exit,
}

/// One discrete input event, as delivered by the input collaborator.
#[derive(Clone, Copy, PartialEq, Eq, Structural, Debug)]
pub enum InputEvent {
    Up,
    Down,
    Left,
    Right,
    /// A display toggle; the collaborator performs it itself.
    ToggleFullscreen,
    Quit,
    /// Any key the game does not recognize.
    Other,
}

/// The smallest index of an actor with combat stats standing on
/// `(x, y)`, searching from index `i` upward.
pub open spec fn find_fighter_at_from(objs: Seq<ObjV>, x: int, y: int, i: int) -> Option<int>
    decreases objs.len() - i,
{
    if i >= objs.len() {
        None
    } else if objs[i].fighter is Some && objs[i].x == x && objs[i].y == y {
        Some(i)
    } else {
        find_fighter_at_from(objs, x, y, i + 1)
    }
}

/// The smallest index of an actor with combat stats standing on
/// `(x, y)`.
pub open spec fn find_fighter_at(objs: Seq<ObjV>, x: int, y: int) -> Option<int> {
    find_fighter_at_from(objs, x, y, 0)
}

proof fn lemma_find_none(objs: Seq<ObjV>, x: int, y: int, i: int)
    requires
        forall|j: int|
            i <= j < objs.len() ==> !((#[trigger] objs[j]).fighter is Some && objs[j].x == x
                && objs[j].y == y),
    ensures
        find_fighter_at_from(objs, x, y, i) is None,
    decreases objs.len() - i,
{
    if i < objs.len() {
        lemma_find_none(objs, x, y, i + 1);
    }
}

/// A found target is a valid index and really stands on the cell with
/// combat stats.
pub proof fn lemma_find_some(objs: Seq<ObjV>, x: int, y: int, i: int)
    ensures
        match find_fighter_at_from(objs, x, y, i) {
            Some(t) => i <= t < objs.len() && objs[t].fighter is Some && objs[t].x == x && objs[t].y
                == y,
            None => true,
        },
    decreases objs.len() - i,
{
    if i < objs.len() {
        if !(objs[i].fighter is Some && objs[i].x == x && objs[i].y == y) {
            lemma_find_some(objs, x, y, i + 1);
        }
    }
}

/// What the player's action does to the world: an attack on the first
/// actor with combat stats at the target cell, or otherwise a step
/// (which silently no-ops when the cell is blocked).
pub open spec fn pmoa_model(
    m: Seq<Vec<Tile>>,
    objs: Seq<ObjV>,
    msgs: Seq<(Seq<char>, Color)>,
    dx: int,
    dy: int,
) -> (Seq<ObjV>, Seq<(Seq<char>, Color)>) {
    let tx = objs[PLAYER as int].x + dx;
    let ty = objs[PLAYER as int].y + dy;
    match find_fighter_at(objs, tx, ty) {
        Some(tid) => attack_model(objs, msgs, PLAYER as int, tid),
        None => (move_by_model(m, objs, PLAYER as int, dx, dy), msgs),
    }
}

/// The player either attacks the first actor with combat stats at the
/// target cell, or moves toward it.
pub fn player_move_or_attack(dx: i32, dy: i32, game: &mut Game, objects: &mut Vec<Object>)
    requires
        map_wf(old(game).map@),
        old(objects)@.len() >= 1,
        !(dx == 0 && dy == 0),
        objs_ok(ov(old(objects)@)),
    ensures
        (ov(final(objects)@), mv(final(game).messages.messages@)) == pmoa_model(
            old(game).map@,
            ov(old(objects)@),
            mv(old(game).messages.messages@),
            dx as int,
            dy as int,
        ),
        final(game).map == old(game).map,
        final(objects)@.len() == old(objects)@.len(),
{
    broadcast use lemma_ov_len, lemma_ov_index;

    let px = objects[PLAYER].x;
    let py = objects[PLAYER].y;
    let txl: i64 = px as i64 + dx as i64;
    let tyl: i64 = py as i64 + dy as i64;
    let ghost gobjs = ov(objects@);
    let ghost tx = px as int + dx as int;
    let ghost ty = py as int + dy as int;

    let mut target: Option<usize> = None;
    if txl >= -2147483648i64 && txl <= 2147483647i64 && tyl >= -2147483648i64 && tyl
        <= 2147483647i64 {
        let txi = txl as i32;
        let tyi = tyl as i32;
        let mut i: usize = 0;
        while i < objects.len()
            invariant_except_break
                target is None,
                find_fighter_at_from(gobjs, tx, ty, 0) == find_fighter_at_from(
                    gobjs,
                    tx,
                    ty,
                    i as int,
                ),
            invariant
                i <= gobjs.len(),
                gobjs == ov(objects@),
                txi as int == tx,
                tyi as int == ty,
            ensures
                gobjs == ov(objects@),
                match target {
                    Some(t) => 0 <= t < gobjs.len() && find_fighter_at(gobjs, tx, ty) == Some(
                        t as int,
                    ) && gobjs[t as int].x == tx && gobjs[t as int].y == ty,
                    None => find_fighter_at(gobjs, tx, ty) is None,
                },
            decreases gobjs.len() - i,
        {
            let o = &objects[i];
            if o.fighter.is_some() && o.x == txi && o.y == tyi {
                target = Some(i);
                break ;
            }
            i += 1;
        }
    } else {
        proof {
            lemma_find_none(gobjs, tx, ty, 0);
        }
    }
    match target {
        Some(target_id) => {
            assert(find_fighter_at(gobjs, tx, ty) == Some(target_id as int));
            assert(gobjs[target_id as int].x == tx && gobjs[target_id as int].y == ty);
            assert(target_id != PLAYER) by {
                assert(gobjs[PLAYER as int].x == px as int && gobjs[PLAYER as int].y == py as int);
            }
            attack(PLAYER, target_id, objects, &mut game.messages);
        },
        None => {
            assert(find_fighter_at(gobjs, tx, ty) is None);
            Object::move_by(PLAYER, dx, dy, &game.map, objects);
        },
    }
}

/// Which step a directional event asks for; every other event asks for
/// none.
pub open spec fn event_delta(event: InputEvent) -> (int, int) {
    match event {
        InputEvent::Up => (0, -1),
        InputEvent::Down => (0, 1),
        InputEvent::Left => (-1, 0),
        InputEvent::Right => (1, 0),
        _ => (0, 0),
    }
}

/// How one input event is classified: quitting is `Exit`, a
/// directional command from a live player is `TookTurn` (whether or
/// not the attempted step turns out to be blocked), and everything
/// else — a display toggle, an unrecognized key, or a move command
/// while the player is dead — is `DidntTakeTurn`.
pub open spec fn classify(event: InputEvent, objs: Seq<ObjV>) -> PlayerAction {
    match event {
        InputEvent::Quit => PlayerAction::Exit,
        InputEvent::Up | InputEvent::Down | InputEvent::Left | InputEvent::Right => {
            if objs[PLAYER as int].alive {
                PlayerAction::TookTurn
            } else {
                PlayerAction::DidntTakeTurn
            }
        },
        _ => PlayerAction::DidntTakeTurn,
    }
}

/// What handling one input event does to the world: only a `TookTurn`
/// classification touches it.
pub open spec fn input_model(
    m: Seq<Vec<Tile>>,
    objs: Seq<ObjV>,
    msgs: Seq<(Seq<char>, Color)>,
    event: InputEvent,
) -> (Seq<ObjV>, Seq<(Seq<char>, Color)>) {
    if classify(event, objs) == PlayerAction::TookTurn {
        pmoa_model(m, objs, msgs, event_delta(event).0, event_delta(event).1)
    } else {
        (objs, msgs)
    }
}

/// Handling one input event keeps the collection's length and every
/// actor's invariant, and never changes the player's AI slot or life
/// status: the player cannot be hurt by its own action.
pub proof fn lemma_input_model_preserves(
    m: Seq<Vec<Tile>>,
    objs: Seq<ObjV>,
    msgs: Seq<(Seq<char>, Color)>,
    event: InputEvent,
)
    requires
        objs.len() >= 1,
        objs_ok(objs),
    ensures
        input_model(m, objs, msgs, event).0.len() == objs.len(),
        objs_ok(input_model(m, objs, msgs, event).0),
        input_model(m, objs, msgs, event).0[PLAYER as int].ai == objs[PLAYER as int].ai,
        input_model(m, objs, msgs, event).0[PLAYER as int].alive == objs[PLAYER as int].alive,
{
    if classify(event, objs) == PlayerAction::TookTurn {
        let dx = event_delta(event).0;
        let dy = event_delta(event).1;
        assert(!(dx == 0 && dy == 0));
        let tx = objs[PLAYER as int].x + dx;
        let ty = objs[PLAYER as int].y + dy;
        lemma_find_some(objs, tx, ty, 0);
        match find_fighter_at(objs, tx, ty) {
            Some(tid) => {
                assert(tid != PLAYER as int);
                crate::combat::lemma_attack_model_preserves(objs, msgs, PLAYER as int, tid);
            },
            None => {
                crate::object::lemma_move_by_model_preserves(m, objs, PLAYER as int, dx, dy);
            },
        }
    }
}

/// Classify one input event and carry out the player's part of the
/// turn.  A quit or display-only event leaves the world exactly as it
/// was.
pub fn handle_input(event: InputEvent, game: &mut Game, objects: &mut Vec<Object>) -> (action:
    PlayerAction)
    requires
        map_wf(old(game).map@),
        old(objects)@.len() >= 1,
        objs_ok(ov(old(objects)@)),
    ensures
        action == classify(event, ov(old(objects)@)),
        (ov(final(objects)@), mv(final(game).messages.messages@)) == input_model(
            old(game).map@,
            ov(old(objects)@),
            mv(old(game).messages.messages@),
            event,
        ),
        final(game).map == old(game).map,
        final(objects)@.len() == old(objects)@.len(),
        action != PlayerAction::TookTurn ==> final(objects)@ == old(objects)@ && *final(game)
            == *old(game),
{
    broadcast use lemma_ov_len, lemma_ov_index;

    match event {
        InputEvent::Quit => PlayerAction::Exit,
        InputEvent::ToggleFullscreen => PlayerAction::DidntTakeTurn,
        InputEvent::Other => PlayerAction::DidntTakeTurn,
        InputEvent::Up => {
            if objects[PLAYER].alive {
                player_move_or_attack(0, -1, game, objects);
                PlayerAction::TookTurn
            } else {
                PlayerAction::DidntTakeTurn
            }
        },
        InputEvent::Down => {
            if objects[PLAYER].alive {
                player_move_or_attack(0, 1, game, objects);
                PlayerAction::TookTurn
            } else {
                PlayerAction::DidntTakeTurn
            }
        },
        InputEvent::Left => {
            if objects[PLAYER].alive {
                player_move_or_attack(-1, 0, game, objects);
                PlayerAction::TookTurn
            } else {
                PlayerAction::DidntTakeTurn
            }
        },
        InputEvent::Right => {
            if objects[PLAYER].alive {
                player_move_or_attack(1, 0, game, objects);
                PlayerAction::TookTurn
            } else {
                PlayerAction::DidntTakeTurn
            }
        },
    }
}

} // verus!
