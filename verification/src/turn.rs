//! The turn scheduler: one player input is classified, the player's
//! action is carried out, and — only when a turn was really taken by a
//! live player — every AI-bearing actor reacts once, in the fixed
//! order of the collection, each seeing the effects of those before
//! it.

use vstd::prelude::*;
use crate::PLAYER;
use crate::ai::ai_step_model;
use crate::ai::ai_take_turn;
use crate::ai::lemma_ai_step_preserves;
use crate::fov::Fov;
use crate::g_input::InputEvent;
use crate::g_input::PlayerAction;
use crate::g_input::classify;
use crate::g_input::input_model;
use crate::g_input::handle_input;
use crate::g_input::lemma_input_model_preserves;
use crate::maps::map_wf;
use crate::object::Object;
use crate::object::ObjV;
use crate::object::Color;
use crate::object::ov;
use crate::object::obj_ok;
use crate::object::objs_ok;
use crate::object::lemma_ov_len;
use crate::object::lemma_ov_index;
use crate::structs::Game;
use crate::structs::mv;
use crate::tile::Tile;

verus! {

/// The AI reaction pass, folded from actor `i` up to (but excluding)
/// actor `n`: each actor that carries an AI acts on the state left by
/// the actors before it.
pub open spec fn ai_phase_model(
    m: Seq<Vec<Tile>>,
    f: Seq<Vec<bool>>,
    objs: Seq<ObjV>,
    msgs: Seq<(Seq<char>, Color)>,
    i: int,
    n: int,
) -> (Seq<ObjV>, Seq<(Seq<char>, Color)>)
    decreases n - i,
{
    if i >= n {
        (objs, msgs)
    } else {
        let st = if 0 <= i < objs.len() && objs[i].ai is Some {
            ai_step_model(m, f, objs, msgs, i)
        } else {
            (objs, msgs)
        };
        ai_phase_model(m, f, st.0, st.1, i + 1, n)
    }
}

/// What one whole scheduler iteration does: classify the event, carry
/// out the player's part, and run the AI pass only after a `TookTurn`
/// by a player still alive.  `Exit` and `DidntTakeTurn` leave the
/// world untouched.
pub open spec fn turn_model(
    m: Seq<Vec<Tile>>,
    f: Seq<Vec<bool>>,
    objs: Seq<ObjV>,
    msgs: Seq<(Seq<char>, Color)>,
    event: InputEvent,
) -> (PlayerAction, Seq<ObjV>, Seq<(Seq<char>, Color)>) {
    let action = classify(event, objs);
    let st = input_model(m, objs, msgs, event);
    if action == PlayerAction::TookTurn && st.0[PLAYER as int].alive {
        let st2 = ai_phase_model(m, f, st.0, st.1, 0, st.0.len() as int);
        (action, st2.0, st2.1)
    } else {
        (action, st.0, st.1)
    }
}

/// Live-state ordering law: during the AI phase, each acting monster
/// consumes the state already updated by the monsters before it — not
/// a snapshot from the start of the turn.
pub proof fn lemma_ai_live_state(
    m: Seq<Vec<Tile>>,
    f: Seq<Vec<bool>>,
    objs: Seq<ObjV>,
    msgs: Seq<(Seq<char>, Color)>,
    i: int,
    n: int,
)
    requires
        0 <= i < n,
        i < objs.len(),
        objs[i].ai is Some,
    ensures
        ai_phase_model(m, f, objs, msgs, i, n) == ({
            let st = ai_step_model(m, f, objs, msgs, i);
            ai_phase_model(m, f, st.0, st.1, i + 1, n)
        }),
{
}

/// Turn classification law: a quit input yields `Exit` and the world
/// is untouched — no AI phase runs; a display-only or unrecognized
/// input yields `DidntTakeTurn` and neither positions nor hit points
/// change; a directional input from a live player yields `TookTurn`
/// and triggers exactly one AI pass over the state the player's action
/// left behind.
pub proof fn lemma_turn_classification(
    m: Seq<Vec<Tile>>,
    f: Seq<Vec<bool>>,
    objs: Seq<ObjV>,
    msgs: Seq<(Seq<char>, Color)>,
    event: InputEvent,
)
    requires
        objs.len() >= 1,
        objs_ok(objs),
    ensures
        event == InputEvent::Quit ==> turn_model(m, f, objs, msgs, event) == (
            PlayerAction::Exit,
            objs,
            msgs,
        ),
        event == InputEvent::ToggleFullscreen || event == InputEvent::Other ==> turn_model(
            m,
            f,
            objs,
            msgs,
            event,
        ) == (PlayerAction::DidntTakeTurn, objs, msgs),
        (event == InputEvent::Up || event == InputEvent::Down || event == InputEvent::Left || event
            == InputEvent::Right) && objs[PLAYER as int].alive ==> turn_model(
            m,
            f,
            objs,
            msgs,
            event,
        ) == ({
            let st = input_model(m, objs, msgs, event);
            let st2 = ai_phase_model(m, f, st.0, st.1, 0, st.0.len() as int);
            (PlayerAction::TookTurn, st2.0, st2.1)
        }),
{
    lemma_input_model_preserves(m, objs, msgs, event);
}

/// Run one full scheduler iteration on one input event.  The
/// visibility overlay is the one most recently computed by the
/// external collaborator; the AI decisions consult it.
pub fn advance_turn(event: InputEvent, fov: &Fov, game: &mut Game, objects: &mut Vec<Object>) -> (action: PlayerAction)
    requires
        map_wf(old(game).map@),
        old(objects)@.len() >= 1,
        objs_ok(ov(old(objects)@)),
        ov(old(objects)@)[PLAYER as int].ai is None,
    ensures
        (action, ov(final(objects)@), mv(final(game).messages.messages@)) == turn_model(
            old(game).map@,
            fov.visible@,
            ov(old(objects)@),
            mv(old(game).messages.messages@),
            event,
        ),
        final(game).map == old(game).map,
        final(objects)@.len() == old(objects)@.len(),
{
    broadcast use lemma_ov_len, lemma_ov_index;

    let ghost m = old(game).map@;
    let ghost fv = fov.visible@;
    let ghost objs0 = ov(old(objects)@);
    let ghost msgs0 = mv(old(game).messages.messages@);

    let action = handle_input(event, game, objects);
    proof {
        lemma_input_model_preserves(m, objs0, msgs0, event);
    }
    let ghost objs1 = ov(objects@);
    let ghost msgs1 = mv(game.messages.messages@);

    if action == PlayerAction::TookTurn && objects[PLAYER].alive {
        let n = objects.len();
        let mut id: usize = 0;
        while id < n
            invariant
                id <= n,
                n == objects@.len(),
                n == objs1.len(),
                m == old(game).map@,
                fv == fov.visible@,
                map_wf(game.map@),
                game.map == old(game).map,
                objs_ok(ov(objects@)),
                ov(objects@)[PLAYER as int].ai is None,
                ai_phase_model(m, fv, objs1, msgs1, 0, n as int) == ai_phase_model(
                    m,
                    fv,
                    ov(objects@),
                    mv(game.messages.messages@),
                    id as int,
                    n as int,
                ),
            decreases n - id,
        {
            let ghost cur_o = ov(objects@);
            let ghost cur_m = mv(game.messages.messages@);
            if objects[id].ai.is_some() {
                proof {
                    assert(cur_o[id as int].ai is Some);
                    assert(id != PLAYER);
                    assert(obj_ok(cur_o[id as int]));
                    assert(obj_ok(cur_o[PLAYER as int]));
                }
                ai_take_turn(id, fov, game, objects);
                proof {
                    lemma_ai_step_preserves(m, fv, cur_o, cur_m, id as int);
                    let st = ai_step_model(m, fv, cur_o, cur_m, id as int);
                    assert((ov(objects@), mv(game.messages.messages@)) == st);
                    assert(ai_phase_model(m, fv, cur_o, cur_m, id as int, n as int)
                        == ai_phase_model(m, fv, st.0, st.1, id as int + 1, n as int));
                }
            } else {
                proof {
                    assert(!(cur_o[id as int].ai is Some));
                    assert(ai_phase_model(m, fv, cur_o, cur_m, id as int, n as int)
                        == ai_phase_model(m, fv, cur_o, cur_m, id as int + 1, n as int));
                }
            }
            id += 1;
        }
    }
    action
}

/// The scheduler's per-iteration context: the player's position at the
/// start of the previous iteration.  Recomputing the field of view is
/// the most expensive per-turn operation, so it is gated on the player
/// having actually moved.
pub struct TurnContext {
    pub previous_player_position: (i32, i32),
}

impl TurnContext {
    /// A fresh context.  The sentinel position lies outside any map,
    /// so the first iteration always recomputes the field of view.
    pub fn new() -> (c: TurnContext)
        ensures
            c.previous_player_position.0 == -1,
            c.previous_player_position.1 == -1,
    {
        TurnContext { previous_player_position: (-1, -1) }
    }

    /// Whether the field of view must be recomputed: exactly when the
    /// player no longer stands where the previous iteration saw it.
    pub fn fov_recompute_needed(&self, objects: &Vec<Object>) -> (r: bool)
        requires
            objects@.len() >= 1,
        ensures
            r == !(self.previous_player_position.0 == objects@[PLAYER as int].x
                && self.previous_player_position.1 == objects@[PLAYER as int].y),
    {
        let p = objects[PLAYER].pos();
        !(self.previous_player_position.0 == p.0 && self.previous_player_position.1 == p.1)
    }

    /// Remember where the player stands as this iteration begins.
    pub fn record_player_position(&mut self, objects: &Vec<Object>)
        requires
            objects@.len() >= 1,
        ensures
            final(self).previous_player_position.0 == objects@[PLAYER as int].x,
            final(self).previous_player_position.1 == objects@[PLAYER as int].y,
    {
        self.previous_player_position = objects[PLAYER].pos();
    }
}

} // verus!
