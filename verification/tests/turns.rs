//! Tests for combat, death, the AI decision engine and the turn
//! scheduler.

use aeros::PLAYER;
use aeros::tile::Tile;
use aeros::object::Object;
use aeros::object::Color;
use aeros::object::Fighter;
use aeros::object::DeathCallback;
use aeros::object::Ai;
use aeros::combat::attack;
use aeros::combat::resolve_death;
use aeros::fov::Fov;
use aeros::g_input::InputEvent;
use aeros::g_input::PlayerAction;
use aeros::g_input::handle_input;
use aeros::structs::Game;
use aeros::structs::Messages;
use aeros::turn::advance_turn;

fn open_map(w: usize, h: usize) -> Vec<Vec<Tile>> {
    vec![vec![Tile::empty(); h]; w]
}

fn full_overlay(w: usize, h: usize) -> Fov {
    Fov { visible: vec![vec![true; h]; w] }
}

fn dark_overlay(w: usize, h: usize) -> Fov {
    Fov { visible: vec![vec![false; h]; w] }
}

fn player_at(x: i32, y: i32) -> Object {
    let mut p = Object::new(x, y, '@', "You", Color { r: 0, g: 255, b: 0 }, true);
    p.alive = true;
    p.fighter = Some(Fighter {
        max_hp: 30,
        hp: 30,
        defense: 2,
        power: 5,
        on_death: DeathCallback::Player,
    });
    p
}

fn orc_at(x: i32, y: i32) -> Object {
    let mut m = Object::new(x, y, 'o', "Orc", Color { r: 0, g: 128, b: 0 }, true);
    m.alive = true;
    m.fighter = Some(Fighter {
        max_hp: 10,
        hp: 10,
        defense: 0,
        power: 3,
        on_death: DeathCallback::Monster,
    });
    m.ai = Some(Ai::Basic);
    m
}

#[test]
fn attack_reduces_hp_by_power_minus_defense() {
    let mut objects = vec![player_at(4, 5), orc_at(5, 5)];
    objects[1].fighter = Some(Fighter {
        max_hp: 30,
        hp: 30,
        defense: 2,
        power: 5,
        on_death: DeathCallback::Monster,
    });
    let mut messages = Messages::new();
    attack(0, 1, &mut objects, &mut messages);
    assert_eq!(objects[1].fighter.unwrap().hp, 27);
    attack(0, 1, &mut objects, &mut messages);
    assert_eq!(objects[1].fighter.unwrap().hp, 24);
    assert_eq!(messages.iter().len(), 2);
    assert_eq!(messages.iter()[0].0, "You attacks Orc for 3 hit points.");
    assert_eq!(messages.iter()[0].1, Color { r: 255, g: 255, b: 255 });
}

#[test]
fn attack_never_drops_hp_below_zero() {
    let mut objects = vec![player_at(4, 5), orc_at(5, 5)];
    objects[1].fighter = Some(Fighter {
        max_hp: 10,
        hp: 2,
        defense: 0,
        power: 3,
        on_death: DeathCallback::Monster,
    });
    let mut messages = Messages::new();
    attack(0, 1, &mut objects, &mut messages);
    assert!(!objects[1].alive);
    assert!(objects[1].fighter.is_none());
}

#[test]
fn attack_with_no_net_damage() {
    let mut objects = vec![player_at(4, 5), orc_at(5, 5)];
    objects[1].fighter = Some(Fighter {
        max_hp: 10,
        hp: 10,
        defense: 9,
        power: 3,
        on_death: DeathCallback::Monster,
    });
    let mut messages = Messages::new();
    attack(0, 1, &mut objects, &mut messages);
    assert_eq!(objects[1].fighter.unwrap().hp, 10);
    assert!(objects[1].alive);
    assert_eq!(messages.iter()[0].0, "You attacks Orc for 0 hit points.");
}

#[test]
fn monster_death_leaves_remains() {
    let mut objects = vec![player_at(4, 5), orc_at(5, 5)];
    objects[1].fighter = Some(Fighter {
        max_hp: 10,
        hp: 3,
        defense: 0,
        power: 3,
        on_death: DeathCallback::Monster,
    });
    let mut messages = Messages::new();
    attack(0, 1, &mut objects, &mut messages);
    let corpse = &objects[1];
    assert!(!corpse.alive);
    assert!(!corpse.blocks);
    assert!(corpse.fighter.is_none());
    assert!(corpse.ai.is_none());
    assert_eq!(corpse.char, '%');
    assert_eq!(corpse.name, "remains of Orc");
    assert_eq!(messages.iter().len(), 2);
    assert_eq!(messages.iter()[0].0, "You attacks Orc for 5 hit points.");
    assert_eq!(messages.iter()[1].0, "Orc is dead!");
}

#[test]
fn player_death_marks_run_over() {
    let mut p = player_at(4, 5);
    p.fighter = Some(Fighter {
        max_hp: 30,
        hp: 0,
        defense: 2,
        power: 5,
        on_death: DeathCallback::Player,
    });
    let mut messages = Messages::new();
    resolve_death(&mut p, &mut messages);
    assert!(!p.alive);
    assert!(p.fighter.is_some());
    assert_eq!(p.name, "You");
    assert_eq!(p.char, '%');
    assert_eq!(messages.iter().len(), 1);
    assert_eq!(messages.iter()[0].0, "You died!");
}

#[test]
fn take_damage_reports_death_exactly_once() {
    let mut m = orc_at(5, 5);
    assert!(!m.take_damage(4));
    assert_eq!(m.fighter.unwrap().hp, 6);
    assert!(m.take_damage(6));
    assert_eq!(m.fighter.unwrap().hp, 0);
    assert!(!m.take_damage(5));
    assert_eq!(m.fighter.unwrap().hp, 0);
}

#[test]
fn death_dispatch_is_idempotent() {
    let mut m = orc_at(5, 5);
    m.take_damage(10);
    let mut messages = Messages::new();
    resolve_death(&mut m, &mut messages);
    assert!(!m.alive);
    assert_eq!(m.name, "remains of Orc");
    assert_eq!(messages.iter().len(), 1);
    resolve_death(&mut m, &mut messages);
    assert!(!m.alive);
    assert_eq!(m.name, "remains of Orc");
    assert_eq!(messages.iter().len(), 1);
}

#[test]
fn quit_yields_exit_and_no_ai_phase() {
    let mut game = Game { map: open_map(10, 10), messages: Messages::new() };
    let fov = full_overlay(10, 10);
    let mut objects = vec![player_at(4, 5), orc_at(8, 5)];
    let action = advance_turn(InputEvent::Quit, &fov, &mut game, &mut objects);
    assert_eq!(action, PlayerAction::Exit);
    assert_eq!(objects[0].pos(), (4, 5));
    assert_eq!(objects[1].pos(), (8, 5));
    assert_eq!(objects[0].fighter.unwrap().hp, 30);
    assert_eq!(game.messages.iter().len(), 0);
}

#[test]
fn unrecognized_input_changes_nothing() {
    let mut game = Game { map: open_map(10, 10), messages: Messages::new() };
    let fov = full_overlay(10, 10);
    let mut objects = vec![player_at(4, 5), orc_at(8, 5)];
    let action = advance_turn(InputEvent::Other, &fov, &mut game, &mut objects);
    assert_eq!(action, PlayerAction::DidntTakeTurn);
    let toggled = advance_turn(InputEvent::ToggleFullscreen, &fov, &mut game, &mut objects);
    assert_eq!(toggled, PlayerAction::DidntTakeTurn);
    assert_eq!(objects[0].pos(), (4, 5));
    assert_eq!(objects[1].pos(), (8, 5));
    assert_eq!(objects[0].fighter.unwrap().hp, 30);
    assert_eq!(objects[1].fighter.unwrap().hp, 10);
    assert_eq!(game.messages.iter().len(), 0);
}

#[test]
fn directional_input_takes_turn_and_runs_ai_once() {
    let mut game = Game { map: open_map(10, 10), messages: Messages::new() };
    let fov = full_overlay(10, 10);
    let mut objects = vec![player_at(2, 5), orc_at(8, 5)];
    let action = advance_turn(InputEvent::Right, &fov, &mut game, &mut objects);
    assert_eq!(action, PlayerAction::TookTurn);
    assert_eq!(objects[0].pos(), (3, 5));
    // The monster reacted exactly once: one greedy step toward the player.
    assert_eq!(objects[1].pos(), (7, 5));
}

#[test]
fn dead_player_direction_is_didnt_take_turn() {
    let mut game = Game { map: open_map(10, 10), messages: Messages::new() };
    let fov = full_overlay(10, 10);
    let mut objects = vec![player_at(4, 5), orc_at(8, 5)];
    objects[0].alive = false;
    let action = advance_turn(InputEvent::Right, &fov, &mut game, &mut objects);
    assert_eq!(action, PlayerAction::DidntTakeTurn);
    assert_eq!(objects[0].pos(), (4, 5));
    assert_eq!(objects[1].pos(), (8, 5));
}

#[test]
fn handle_input_moves_in_each_direction() {
    let mut game = Game { map: open_map(10, 10), messages: Messages::new() };
    let mut objects = vec![player_at(4, 5)];
    assert_eq!(handle_input(InputEvent::Up, &mut game, &mut objects), PlayerAction::TookTurn);
    assert_eq!(objects[0].pos(), (4, 4));
    assert_eq!(handle_input(InputEvent::Down, &mut game, &mut objects), PlayerAction::TookTurn);
    assert_eq!(objects[0].pos(), (4, 5));
    assert_eq!(handle_input(InputEvent::Left, &mut game, &mut objects), PlayerAction::TookTurn);
    assert_eq!(objects[0].pos(), (3, 5));
    assert_eq!(handle_input(InputEvent::Right, &mut game, &mut objects), PlayerAction::TookTurn);
    assert_eq!(objects[0].pos(), (4, 5));
}

#[test]
fn player_bumping_into_monster_attacks_it() {
    let mut game = Game { map: open_map(10, 10), messages: Messages::new() };
    let mut objects = vec![player_at(4, 5), orc_at(5, 5)];
    let action = handle_input(InputEvent::Right, &mut game, &mut objects);
    assert_eq!(action, PlayerAction::TookTurn);
    // Power 5 against defense 0: 5 damage, and the player stays put.
    assert_eq!(objects[0].pos(), (4, 5));
    assert_eq!(objects[1].fighter.unwrap().hp, 5);
    assert_eq!(game.messages.iter()[0].0, "You attacks Orc for 5 hit points.");
}

#[test]
fn ai_idles_when_out_of_sight() {
    let mut game = Game { map: open_map(10, 10), messages: Messages::new() };
    let fov = dark_overlay(10, 10);
    let mut objects = vec![player_at(2, 5), orc_at(8, 5)];
    advance_turn(InputEvent::Right, &fov, &mut game, &mut objects);
    assert_eq!(objects[1].pos(), (8, 5));
}

#[test]
fn ai_chases_diagonally() {
    let mut game = Game { map: open_map(10, 10), messages: Messages::new() };
    let fov = full_overlay(10, 10);
    let mut objects = vec![player_at(1, 8), orc_at(8, 2)];
    advance_turn(InputEvent::Up, &fov, &mut game, &mut objects);
    // One greedy step: one cell along each axis toward the player.
    assert_eq!(objects[1].pos(), (7, 3));
}

#[test]
fn ai_attacks_adjacent_player() {
    let mut game = Game { map: open_map(10, 10), messages: Messages::new() };
    let fov = full_overlay(10, 10);
    let mut objects = vec![player_at(4, 5), orc_at(5, 6)];
    let action = advance_turn(InputEvent::Up, &fov, &mut game, &mut objects);
    assert_eq!(action, PlayerAction::TookTurn);
    // The player stepped to (4, 4); the orc chased.  Put them truly
    // adjacent instead: rerun with a blocked player move.
    let mut game2 = Game { map: open_map(10, 10), messages: Messages::new() };
    let mut objects2 = vec![player_at(4, 5), orc_at(4, 6)];
    objects2[0].alive = true;
    advance_turn(InputEvent::Down, &fov, &mut game2, &mut objects2);
    // The player attacked the orc below; the orc, adjacent, hit back:
    // power 3 against defense 2 costs the player 1 hit point.
    assert_eq!(objects2[0].fighter.unwrap().hp, 29);
}

#[test]
fn live_state_ai_ordering() {
    let mut game = Game { map: open_map(10, 10), messages: Messages::new() };
    let fov = full_overlay(10, 10);
    // AI actors in collection order [a, b, c]: a stands between the
    // player and c's path; a's step this turn vacates (2, 0), and c's
    // decision must see that vacated cell, not a turn-start snapshot.
    let player = player_at(0, 0);
    let a = {
        let mut m = orc_at(2, 0);
        m.name = "a".to_string();
        m
    };
    let b = {
        let mut m = orc_at(9, 9);
        m.name = "b".to_string();
        m
    };
    let c = {
        let mut m = orc_at(3, 0);
        m.name = "c".to_string();
        m
    };
    let mut objects = vec![player, a, b, c];
    advance_turn(InputEvent::Up, &fov, &mut game, &mut objects);
    // The player moved to (0, 0) -> blocked upward, so it stays; a
    // stepped to (1, 0); c observed the vacated (2, 0) and moved in.
    assert_eq!(objects[1].pos(), (1, 0));
    assert_eq!(objects[3].pos(), (2, 0));
}

#[test]
fn ai_step_blocked_by_other_monster() {
    let mut game = Game { map: open_map(10, 10), messages: Messages::new() };
    let fov = full_overlay(10, 10);
    // The front orc is adjacent and attacks; the back orc's greedy
    // step into the front orc's cell is blocked, so it stays put.
    let mut objects = vec![player_at(0, 0), orc_at(1, 0), orc_at(2, 0)];
    objects[0].alive = true;
    advance_turn(InputEvent::Up, &fov, &mut game, &mut objects);
    assert_eq!(objects[1].pos(), (1, 0));
    assert_eq!(objects[2].pos(), (2, 0));
    // Power 3 against defense 2: the adjacent orc cost the player 1 hp.
    assert_eq!(objects[0].fighter.unwrap().hp, 29);
}

#[test]
fn blocked_move_still_consumes_turn() {
    // A 10 by 10 open map with a single wall pillar at (5, 5); the
    // player at (4, 5) tries to step onto it.  The move is a no-op,
    // and the policy fixed here is that the blocked attempt still
    // consumes the turn.
    let mut map = open_map(10, 10);
    map[5][5] = Tile::wall();
    let mut game = Game { map, messages: Messages::new() };
    let fov = full_overlay(10, 10);
    let mut objects = vec![player_at(4, 5)];
    let action = advance_turn(InputEvent::Right, &fov, &mut game, &mut objects);
    assert_eq!(action, PlayerAction::TookTurn);
    assert_eq!(objects[0].pos(), (4, 5));
}
