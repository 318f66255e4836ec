//! Tests for the map, tiles, movement, visibility and the message log.

use aeros::PLAYER;
use aeros::tile::Tile;
use aeros::maps::make_map;
use aeros::maps::tile_at;
use aeros::maps::is_passable;
use aeros::object::Object;
use aeros::object::Color;
use aeros::object::Fighter;
use aeros::object::DeathCallback;
use aeros::object::is_blocked;
use aeros::fov::Fov;
use aeros::fov::update_explored;
use aeros::structs::Game;
use aeros::structs::Messages;
use aeros::text::i32_text;
use aeros::text::attack_message_text;
use aeros::turn::TurnContext;

fn open_map(w: usize, h: usize) -> Vec<Vec<Tile>> {
    vec![vec![Tile::empty(); h]; w]
}

fn player_at(x: i32, y: i32) -> Object {
    let mut p = Object::new(x, y, '@', "You", Color { r: 0, g: 255, b: 0 }, true);
    p.alive = true;
    p.fighter = Some(Fighter {
        max_hp: 30,
        hp: 30,
        defense: 2,
        power: 5,
        on_death: DeathCallback::Player,
    });
    p
}

#[test]
fn tile_constructors() {
    let e = Tile::empty();
    assert!(!e.blocked && !e.block_sight && !e.explored);
    let w = Tile::wall();
    assert!(w.blocked && w.block_sight && !w.explored);
}

#[test]
fn make_map_dimensions_and_pillars() {
    let map = make_map(43, 80);
    assert_eq!(map.len(), 80);
    for col in &map {
        assert_eq!(col.len(), 43);
    }
    assert!(map[30][22].blocked);
    assert!(map[50][22].blocked);
    assert!(!map[31][22].blocked);
    assert!(!map[0][0].blocked);
}

#[test]
fn tile_at_and_is_passable() {
    let map = make_map(43, 80);
    assert!(tile_at(&map, 30, 22).blocked);
    assert!(!tile_at(&map, 0, 0).blocked);
    assert!(!is_passable(&map, 30, 22));
    assert!(is_passable(&map, 0, 0));
    assert!(!is_passable(&map, -1, 0));
    assert!(!is_passable(&map, 0, -1));
    assert!(!is_passable(&map, 80, 0));
    assert!(!is_passable(&map, 0, 43));
}

#[test]
fn move_by_commits_free_step() {
    let map = open_map(10, 10);
    let mut objects = vec![player_at(4, 5)];
    Object::move_by(PLAYER, 1, 0, &map, &mut objects);
    assert_eq!(objects[0].pos(), (5, 5));
}

#[test]
fn move_by_wall_is_no_op() {
    let mut map = open_map(10, 10);
    map[5][5] = Tile::wall();
    let mut objects = vec![player_at(4, 5)];
    Object::move_by(PLAYER, 1, 0, &map, &mut objects);
    assert_eq!(objects[0].pos(), (4, 5));
}

#[test]
fn move_by_out_of_bounds_is_no_op() {
    let map = open_map(10, 10);
    let mut objects = vec![player_at(0, 0)];
    Object::move_by(PLAYER, -1, 0, &map, &mut objects);
    assert_eq!(objects[0].pos(), (0, 0));
    Object::move_by(PLAYER, 0, -1, &map, &mut objects);
    assert_eq!(objects[0].pos(), (0, 0));
}

#[test]
fn move_by_blocking_actor_is_no_op() {
    let map = open_map(10, 10);
    let mut blocker = Object::new(5, 5, 'o', "Orc", Color { r: 0, g: 128, b: 0 }, true);
    blocker.alive = true;
    let mut objects = vec![player_at(4, 5), blocker];
    Object::move_by(PLAYER, 1, 0, &map, &mut objects);
    assert_eq!(objects[0].pos(), (4, 5));
    objects[1].blocks = false;
    Object::move_by(PLAYER, 1, 0, &map, &mut objects);
    assert_eq!(objects[0].pos(), (5, 5));
}

#[test]
fn is_blocked_unifies_terrain_and_occupants() {
    let mut map = open_map(10, 10);
    map[2][2] = Tile::wall();
    let objects = vec![player_at(4, 5)];
    assert!(is_blocked(2, 2, &map, &objects));
    assert!(is_blocked(4, 5, &map, &objects));
    assert!(is_blocked(-3, 0, &map, &objects));
    assert!(!is_blocked(3, 3, &map, &objects));
}

#[test]
fn object_new_defaults() {
    let o = Object::new(7, 9, 'T', "Troll", Color { r: 1, g: 2, b: 3 }, true);
    assert_eq!(o.pos(), (7, 9));
    assert_eq!(o.char, 'T');
    assert_eq!(o.name, "Troll");
    assert_eq!(o.color, Color { r: 1, g: 2, b: 3 });
    assert!(o.blocks);
    assert!(!o.alive);
    assert!(o.fighter.is_none());
    assert!(o.ai.is_none());
}

#[test]
fn fov_is_visible_bounds() {
    let mut fov = Fov { visible: vec![vec![false; 3]; 3] };
    fov.visible[1][2] = true;
    assert!(fov.is_visible(1, 2));
    assert!(!fov.is_visible(0, 0));
    assert!(!fov.is_visible(-1, 0));
    assert!(!fov.is_visible(3, 0));
    assert!(!fov.is_visible(0, 3));
}

#[test]
fn update_explored_marks_visible_cells() {
    let mut game = Game { map: open_map(4, 4), messages: Messages::new() };
    let mut fov = Fov { visible: vec![vec![false; 4]; 4] };
    fov.visible[1][3] = true;
    fov.visible[2][0] = true;
    update_explored(&mut game, &fov);
    assert!(game.map[1][3].explored);
    assert!(game.map[2][0].explored);
    assert!(!game.map[0][0].explored);
    assert!(!game.map[1][3].blocked && !game.map[1][3].block_sight);
}

#[test]
fn explored_stays_set_without_visibility() {
    let mut game = Game { map: open_map(4, 4), messages: Messages::new() };
    let lit = Fov { visible: vec![vec![true; 4]; 4] };
    update_explored(&mut game, &lit);
    assert!(game.map[3][3].explored);
    let dark = Fov { visible: vec![vec![false; 4]; 4] };
    update_explored(&mut game, &dark);
    for x in 0..4 {
        for y in 0..4 {
            assert!(game.map[x][y].explored);
        }
    }
}

#[test]
fn messages_append_in_order() {
    let mut messages = Messages::new();
    assert_eq!(messages.iter().len(), 0);
    messages.add("first".to_string(), Color { r: 255, g: 0, b: 0 });
    messages.add("second".to_string(), Color { r: 0, g: 0, b: 255 });
    let logged = messages.iter();
    assert_eq!(logged.len(), 2);
    assert_eq!(logged[0], ("first".to_string(), Color { r: 255, g: 0, b: 0 }));
    assert_eq!(logged[1], ("second".to_string(), Color { r: 0, g: 0, b: 255 }));
}

#[test]
fn decimal_rendering() {
    assert_eq!(i32_text(0), "0");
    assert_eq!(i32_text(9), "9");
    assert_eq!(i32_text(10), "10");
    assert_eq!(i32_text(42), "42");
    assert_eq!(i32_text(-17), "-17");
    assert_eq!(i32_text(2147483647), "2147483647");
    assert_eq!(i32_text(-2147483648), "-2147483648");
}

#[test]
fn attack_narration_text() {
    let s = attack_message_text("You", "attack", "Orc", 3);
    assert_eq!(s, "You attacks Orc for 3 hit points.");
}

#[test]
fn fov_recompute_gate() {
    let map = open_map(10, 10);
    let mut objects = vec![player_at(4, 5)];
    let mut ctx = TurnContext::new();
    assert!(ctx.fov_recompute_needed(&objects));
    ctx.record_player_position(&objects);
    assert!(!ctx.fov_recompute_needed(&objects));
    Object::move_by(PLAYER, 1, 0, &map, &mut objects);
    assert!(ctx.fov_recompute_needed(&objects));
}
