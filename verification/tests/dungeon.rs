use dungeon_engine::color::ColorCode;
use dungeon_engine::fov::FovData;
use dungeon_engine::game::Game;
use dungeon_engine::geometry::{distance_sq, Rect};
use dungeon_engine::log::MessageLog;
use dungeon_engine::map::{GameMap, Tile};
use dungeon_engine::mapgen::{make_map, Tunnel};
use dungeon_engine::object::{DeathCallback, Fighter, Object};
use dungeon_engine::rng::RandomSource;
use dungeon_engine::text::i32_to_dec;
use dungeon_engine::world::{is_blocked, move_by, move_towards, names_at};

fn player_object() -> Object {
    let mut o = Object::new(0, 0, '@', "player", ColorCode::White, true);
    o.alive = true;
    o.fighter = Some(Fighter { max_hp: 8, hp: 8, defense: 1, power: 2, on_death: DeathCallback::Player });
    o
}

fn on_tunnel_rt(t: &Tunnel, x: i32, y: i32) -> bool {
    match *t {
        Tunnel::H { x1, x2, y: ty } => y == ty && x >= x1.min(x2) && x <= x1.max(x2),
        Tunnel::V { y1, y2, x: tx } => x == tx && y >= y1.min(y2) && y <= y1.max(y2),
    }
}

#[test]
fn generated_rooms_never_intersect() {
    let mut objects = vec![player_object()];
    let mut rng = RandomSource::Fixed {
        values: vec![7, 3, 11, 28, 5, 9, 2, 41, 13, 6, 8, 19, 23, 4, 17, 31, 1, 12],
        next: 0,
    };
    let level = make_map(80, 43, 30, 6, 10, &mut objects, &mut rng);
    for i in 0..level.rooms.len() {
        for j in 0..level.rooms.len() {
            if i != j {
                assert!(!level.rooms[i].intersects_with(&level.rooms[j]));
            }
        }
    }
    assert!(level.rooms.len() >= 1);
}

#[test]
fn generated_floor_is_exactly_rooms_and_corridors() {
    let mut objects = vec![player_object()];
    let mut rng = RandomSource::Fixed {
        values: vec![9, 1, 22, 35, 4, 14, 3, 27, 16, 2, 7, 30, 11, 5, 20, 8],
        next: 0,
    };
    let level = make_map(80, 43, 30, 6, 10, &mut objects, &mut rng);
    for x in 0..80 {
        for y in 0..43 {
            let mut cov = false;
            for r in level.rooms.iter() {
                if r.x1 < x && x < r.x2 && r.y1 < y && y < r.y2 {
                    cov = true;
                }
            }
            for t in level.tunnels.iter() {
                if on_tunnel_rt(t, x, y) {
                    cov = true;
                }
            }
            assert_eq!(level.map.get(x, y).blocked, !cov);
            assert_eq!(level.map.get(x, y).block_sight, !cov);
            assert!(!level.map.get(x, y).explored);
        }
    }
}

#[test]
fn player_spawns_at_first_room_center() {
    let mut objects = vec![player_object()];
    let mut rng = RandomSource::Fixed { values: vec![3, 8, 15, 21, 6, 2, 9, 33], next: 0 };
    let level = make_map(80, 43, 30, 6, 10, &mut objects, &mut rng);
    let (cx, cy) = level.rooms[0].center();
    assert_eq!((objects[0].x, objects[0].y), (cx, cy));
}

#[test]
fn zero_rooms_leaves_solid_rock() {
    let mut objects = vec![player_object()];
    let mut rng = RandomSource::Fixed { values: vec![1, 2, 3], next: 0 };
    let level = make_map(80, 43, 0, 6, 10, &mut objects, &mut rng);
    assert_eq!(level.rooms.len(), 0);
    assert_eq!(level.tunnels.len(), 0);
    assert_eq!(objects.len(), 1);
    assert!(level.map.get(40, 20).blocked);
}

#[test]
fn spawned_entities_stand_on_free_room_tiles() {
    let mut objects = vec![player_object()];
    let mut rng = RandomSource::Fixed {
        values: vec![5, 13, 2, 29, 8, 3, 17, 42, 6, 11, 1, 24, 9, 4, 19, 36, 7, 15],
        next: 0,
    };
    let level = make_map(80, 43, 30, 6, 10, &mut objects, &mut rng);
    for j in 1..objects.len() {
        let o = &objects[j];
        assert!(!level.map.get(o.x, o.y).blocked);
        let mut inside = false;
        for r in level.rooms.iter() {
            if r.x1 < o.x && o.x < r.x2 && r.y1 < o.y && o.y < r.y2 {
                inside = true;
            }
        }
        assert!(inside);
        // two blocking spawns never share a tile
        if o.blocks {
            for k in 1..objects.len() {
                if k != j && objects[k].blocks {
                    assert!((objects[k].x, objects[k].y) != (o.x, o.y));
                }
            }
        }
    }
}

#[test]
fn fixed_random_source_is_deterministic() {
    let mut rng = RandomSource::Fixed { values: vec![5, 12, 102], next: 0 };
    assert_eq!(rng.range(0, 10), 5);
    assert_eq!(rng.range(0, 10), 2);
    assert_eq!(rng.range(0, 10), 2);
    // the script cycles
    assert_eq!(rng.range(0, 10), 5);
    let mut coin = RandomSource::Fixed { values: vec![4, 7], next: 0 };
    assert!(coin.coin());
    assert!(!coin.coin());
}

#[test]
fn system_random_source_stays_in_range() {
    let mut rng = RandomSource::System;
    for _ in 0..50 {
        let v = rng.range(-3, 4);
        assert!(-3 <= v && v < 4);
        let _ = rng.coin();
    }
}

#[test]
fn decimal_rendering_matches() {
    assert_eq!(i32_to_dec(0).as_str(), "0");
    assert_eq!(i32_to_dec(7).as_str(), "7");
    assert_eq!(i32_to_dec(10).as_str(), "10");
    assert_eq!(i32_to_dec(12345).as_str(), "12345");
    assert_eq!(i32_to_dec(1000000).as_str(), "1000000");
}

#[test]
fn squared_distance_is_exact() {
    assert_eq!(distance_sq(0, 0, 3, 4), 25);
    assert_eq!(distance_sq(2, 2, 2, 2), 0);
    assert_eq!(distance_sq(-5, 1, 1, -7), 100);
}

#[test]
fn rect_center_and_intersection() {
    let r = Rect::new(10, 20, 6, 8);
    assert_eq!((r.x1, r.y1, r.x2, r.y2), (10, 20, 16, 28));
    assert_eq!(r.center(), (13, 24));
    let touching = Rect::new(16, 20, 4, 4);
    // touching bounding edges count as intersecting
    assert!(r.intersects_with(&touching));
    let clear = Rect::new(17, 20, 4, 4);
    assert!(!r.intersects_with(&clear));
}

#[test]
fn tiles_have_the_expected_flags() {
    let e = Tile::empty();
    assert!(!e.blocked && !e.block_sight && !e.explored);
    let w = Tile::wall();
    assert!(w.blocked && w.block_sight && !w.explored);
}

#[test]
fn exploration_is_monotonic() {
    let mut map = GameMap::new_walls(10, 10);
    let mut fov = FovData::new_uniform(10, 10, false);
    fov.set_visible(3, 4, true);
    map.update_explored(&fov);
    assert!(map.get(3, 4).explored);
    assert!(!map.get(2, 4).explored);
    // once seen, a tile stays explored even after it leaves the view
    fov.set_visible(3, 4, false);
    map.update_explored(&fov);
    assert!(map.get(3, 4).explored);
}

#[test]
fn blocked_by_terrain_and_entities() {
    let mut map = GameMap::new_walls(10, 10);
    map.set(2, 2, Tile::empty());
    map.set(3, 2, Tile::empty());
    let blocker = player_object();
    let mut objects = vec![blocker];
    objects[0].x = 3;
    objects[0].y = 2;
    assert!(is_blocked(1, 1, &map, &objects));
    assert!(!is_blocked(2, 2, &map, &objects));
    assert!(is_blocked(3, 2, &map, &objects));
}

#[test]
fn move_by_steps_only_onto_free_tiles() {
    let mut map = GameMap::new_walls(10, 10);
    map.set(2, 2, Tile::empty());
    map.set(3, 2, Tile::empty());
    let game = Game { map, log: MessageLog::new(), inventory: Vec::new() };
    let mut objects = vec![player_object()];
    objects[0].x = 2;
    objects[0].y = 2;
    move_by(0, 1, 0, &game, &mut objects);
    assert_eq!((objects[0].x, objects[0].y), (3, 2));
    // into the rock: a silent no-op
    move_by(0, 0, 1, &game, &mut objects);
    assert_eq!((objects[0].x, objects[0].y), (3, 2));
}

#[test]
fn move_towards_normalizes_per_axis() {
    let mut map = GameMap::new_walls(12, 12);
    for x in 1..11 {
        for y in 1..11 {
            map.set(x, y, Tile::empty());
        }
    }
    let game = Game { map, log: MessageLog::new(), inventory: Vec::new() };
    let mut objects = vec![player_object()];
    objects[0].x = 2;
    objects[0].y = 2;
    // mostly horizontal: the vertical component rounds away
    move_towards(0, 7, 4, &game, &mut objects);
    assert_eq!((objects[0].x, objects[0].y), (3, 2));
    // diagonal: both axes step
    move_towards(0, 6, 5, &game, &mut objects);
    assert_eq!((objects[0].x, objects[0].y), (4, 3));
}

#[test]
fn names_under_cursor_follow_visibility() {
    let mut fov = FovData::new_uniform(10, 10, false);
    let mut a = Object::new(4, 4, 'o', "orc", ColorCode::DesaturatedGreen, true);
    a.alive = true;
    let b = Object::new(4, 4, '!', "healing potion", ColorCode::Violet, false);
    let c = Object::new(5, 4, 'T', "troll", ColorCode::DarkerGreen, true);
    let objects = vec![a, b, c];
    assert!(names_at(4, 4, &objects, &fov).is_empty());
    fov.set_visible(4, 4, true);
    let names = names_at(4, 4, &objects, &fov);
    assert_eq!(names.len(), 2);
    assert_eq!(names[0].as_str(), "orc");
    assert_eq!(names[1].as_str(), "healing potion");
}
