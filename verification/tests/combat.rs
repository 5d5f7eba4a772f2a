use dungeon_engine::color::ColorCode;
use dungeon_engine::game::Game;
use dungeon_engine::log::MessageLog;
use dungeon_engine::map::GameMap;
use dungeon_engine::object::{Ai, DeathCallback, Fighter, Object};
use dungeon_engine::world::player_move_or_attack;

fn open_map(width: i32, height: i32) -> GameMap {
    let mut map = GameMap::new_walls(width, height);
    let mut x = 1;
    while x < width - 1 {
        let mut y = 1;
        while y < height - 1 {
            map.set(x, y, dungeon_engine::map::Tile::empty());
            y += 1;
        }
        x += 1;
    }
    map
}

fn empty_game(width: i32, height: i32) -> Game {
    Game { map: open_map(width, height), log: MessageLog::new(), inventory: Vec::new() }
}

fn fighter_object(x: i32, y: i32, name: &str, hp: i32, max_hp: i32, defense: i32, power: i32, role: DeathCallback) -> Object {
    let mut o = Object::new(x, y, '@', name, ColorCode::White, true);
    o.alive = true;
    o.fighter = Some(Fighter { max_hp, hp, defense, power, on_death: role });
    o
}

#[test]
fn attack_applies_power_minus_defense() {
    // attacker power 2, defender defense 0: 2 damage lands on hp
    let mut game = empty_game(20, 20);
    let attacker = fighter_object(1, 1, "player", 8, 8, 1, 2, DeathCallback::Player);
    let mut defender = fighter_object(2, 1, "orc", 4, 4, 0, 2, DeathCallback::Monster);
    attacker.attack(&mut defender, &mut game);
    assert_eq!(defender.fighter.as_ref().unwrap().hp, 2);
    assert_eq!(game.log.len(), 1);
    assert_eq!(game.log.text_at(0).as_str(), "player attacks orc for 2 hit points.");
}

#[test]
fn attack_with_no_effect_leaves_hp_and_logs() {
    // attacker power 2, defender defense 3: no damage, a "no effect" entry
    let mut game = empty_game(20, 20);
    let attacker = fighter_object(1, 1, "player", 8, 8, 1, 2, DeathCallback::Player);
    let mut defender = fighter_object(2, 1, "troll", 5, 5, 3, 2, DeathCallback::Monster);
    attacker.attack(&mut defender, &mut game);
    assert_eq!(defender.fighter.as_ref().unwrap().hp, 5);
    assert_eq!(game.log.len(), 1);
    assert_eq!(game.log.text_at(0).as_str(), "player attacks troll but it has no effect!");
}

#[test]
fn heal_never_exceeds_max_hp() {
    // hp 6 of 8, healing 4 stops at 8
    let mut o = fighter_object(1, 1, "player", 6, 8, 1, 2, DeathCallback::Player);
    o.heal(4);
    assert_eq!(o.fighter.as_ref().unwrap().hp, 8);
}

#[test]
fn heal_below_cap_adds_exactly() {
    let mut o = fighter_object(1, 1, "player", 2, 8, 1, 2, DeathCallback::Player);
    o.heal(4);
    assert_eq!(o.fighter.as_ref().unwrap().hp, 6);
}

#[test]
fn monster_death_strips_components() {
    let mut game = empty_game(20, 20);
    let mut orc = fighter_object(2, 1, "orc", 1, 4, 0, 2, DeathCallback::Monster);
    orc.ai = Some(Ai::Basic);
    orc.take_damage(3, &mut game);
    assert!(!orc.alive);
    assert!(orc.fighter.is_none());
    assert!(orc.ai.is_none());
    assert!(!orc.blocks);
    assert_eq!(orc.glyph, '%');
    assert_eq!(orc.name.as_str(), "remains of orc");
    assert_eq!(game.log.text_at(0).as_str(), "orc is dead!");
}

#[test]
fn player_death_reports_and_clamps() {
    let mut game = empty_game(20, 20);
    let mut player = fighter_object(1, 1, "player", 2, 8, 1, 2, DeathCallback::Player);
    player.take_damage(5, &mut game);
    assert!(!player.alive);
    assert_eq!(player.glyph, '%');
    // the fighter stays, with the outward hit points clamped at zero
    assert_eq!(player.fighter.as_ref().unwrap().hp, 0);
    assert_eq!(game.log.text_at(0).as_str(), "You died!");
}

#[test]
fn take_damage_without_fighter_is_inert() {
    let mut game = empty_game(20, 20);
    let mut scenery = Object::new(3, 3, '!', "healing potion", ColorCode::Violet, false);
    scenery.take_damage(5, &mut game);
    assert!(scenery.fighter.is_none());
    assert_eq!(game.log.len(), 0);
}

#[test]
fn orc_dies_after_two_player_attacks() {
    // the end-to-end scenario: player (power 2, defense 1, hp 8) walks into
    // an orc (power 2, defense 0, hp 4) twice
    let mut game = empty_game(20, 20);
    let player = fighter_object(1, 1, "player", 8, 8, 1, 2, DeathCallback::Player);
    let mut orc = fighter_object(2, 1, "orc", 4, 4, 0, 2, DeathCallback::Monster);
    orc.ai = Some(Ai::Basic);
    orc.glyph = 'o';
    let mut objects = vec![player, orc];

    player_move_or_attack(1, 0, &mut game, &mut objects);
    assert_eq!(objects[1].fighter.as_ref().unwrap().hp, 2);
    assert!(objects[1].alive);

    player_move_or_attack(1, 0, &mut game, &mut objects);
    assert!(objects[1].fighter.is_none());
    assert!(objects[1].ai.is_none());
    assert!(!objects[1].alive);
    assert!(!objects[1].blocks);
    assert_eq!(objects[1].name.as_str(), "remains of orc");
    // the player never moved: both commands resolved as attacks
    assert_eq!((objects[0].x, objects[0].y), (1, 1));
}

#[test]
fn walking_into_remains_moves_instead_of_attacking() {
    let mut game = empty_game(20, 20);
    let player = fighter_object(1, 1, "player", 8, 8, 1, 2, DeathCallback::Player);
    let mut remains = Object::new(2, 1, '%', "remains of orc", ColorCode::DarkRed, false);
    remains.alive = false;
    let mut objects = vec![player, remains];
    player_move_or_attack(1, 0, &mut game, &mut objects);
    // no fighter on the tile, so the player steps onto it
    assert_eq!((objects[0].x, objects[0].y), (2, 1));
}
