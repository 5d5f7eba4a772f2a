use dungeon_engine::ai::{ai_take_turn, run_ai_phase};
use dungeon_engine::color::ColorCode;
use dungeon_engine::fov::FovData;
use dungeon_engine::game::{Game, PlayerAction, UseResult};
use dungeon_engine::items::{
    cast_fireball, closest_monster, drop_item, monster_at, pick_item_up, target_tile_step,
    targeting_needed, use_item, TargetChoice, TargetRequest, TargetStep,
};
use dungeon_engine::log::{message, MessageLog};
use dungeon_engine::map::{GameMap, Tile};
use dungeon_engine::object::{Ai, DeathCallback, Fighter, Item, Object};
use dungeon_engine::rng::RandomSource;
use dungeon_engine::scheduler::{apply_command, Command};

fn open_map(width: i32, height: i32) -> GameMap {
    let mut map = GameMap::new_walls(width, height);
    let mut x = 1;
    while x < width - 1 {
        let mut y = 1;
        while y < height - 1 {
            map.set(x, y, Tile::empty());
            y += 1;
        }
        x += 1;
    }
    map
}

fn empty_game(width: i32, height: i32) -> Game {
    Game { map: open_map(width, height), log: MessageLog::new(), inventory: Vec::new() }
}

fn player_at(x: i32, y: i32, hp: i32, max_hp: i32) -> Object {
    let mut o = Object::new(x, y, '@', "player", ColorCode::White, true);
    o.alive = true;
    o.fighter = Some(Fighter { max_hp, hp, defense: 1, power: 2, on_death: DeathCallback::Player });
    o
}

fn monster_at_pos(x: i32, y: i32, name: &str, hp: i32) -> Object {
    let mut o = Object::new(x, y, 'o', name, ColorCode::DesaturatedGreen, true);
    o.alive = true;
    o.fighter = Some(Fighter { max_hp: hp, hp, defense: 0, power: 2, on_death: DeathCallback::Monster });
    o.ai = Some(Ai::Basic);
    o
}

fn item_entity(x: i32, y: i32, name: &str, kind: Item) -> Object {
    let mut o = Object::new(x, y, '!', name, ColorCode::Violet, false);
    o.item = Some(kind);
    o
}

#[test]
fn log_evicts_oldest_at_capacity() {
    let mut log = MessageLog::new();
    for i in 0..6 {
        message(&mut log, format!("entry {}", i), ColorCode::White);
    }
    assert_eq!(log.len(), 6);
    // the seventh push evicts entry 0
    message(&mut log, "entry 6".to_string(), ColorCode::White);
    assert_eq!(log.len(), 6);
    assert_eq!(log.text_at(0).as_str(), "entry 1");
    assert_eq!(log.text_at(5).as_str(), "entry 6");
}

#[test]
fn inventory_transfer_fails_when_full() {
    let mut game = empty_game(20, 20);
    for i in 0..26 {
        game.inventory.push(item_entity(0, 0, &format!("potion {}", i), Item::Heal));
    }
    let mut objects = vec![player_at(2, 2, 8, 8), item_entity(2, 2, "scroll of lightning", Item::Lightning)];
    pick_item_up(1, &mut objects, &mut game);
    // the entity stays in the world, the inventory stays at 26
    assert_eq!(objects.len(), 2);
    assert_eq!(game.inventory.len(), 26);
    assert_eq!(
        game.log.text_at(game.log.len() - 1).as_str(),
        "Your inventory is full, cannot pick up scroll of lightning"
    );
}

#[test]
fn inventory_transfer_succeeds_below_capacity() {
    let mut game = empty_game(20, 20);
    let mut objects = vec![player_at(2, 2, 8, 8), item_entity(2, 2, "healing potion", Item::Heal)];
    pick_item_up(1, &mut objects, &mut game);
    assert_eq!(objects.len(), 1);
    assert_eq!(game.inventory.len(), 1);
    assert_eq!(game.inventory[0].name.as_str(), "healing potion");
    assert_eq!(game.log.text_at(0).as_str(), "You picked up healing potion!");
}

#[test]
fn dropped_item_lands_at_player_feet() {
    let mut game = empty_game(20, 20);
    game.inventory.push(item_entity(0, 0, "scroll of fireball", Item::Fireball));
    let mut objects = vec![player_at(5, 7, 8, 8)];
    drop_item(0, &mut game, &mut objects);
    assert_eq!(game.inventory.len(), 0);
    assert_eq!(objects.len(), 2);
    assert_eq!((objects[1].x, objects[1].y), (5, 7));
    assert_eq!(game.log.text_at(0).as_str(), "You dropped a scroll of fireball");
}

#[test]
fn fireball_burns_inside_radius_only() {
    // radius 3 around (10, 10), damage 5; distances 0, 3, sqrt(8) burn,
    // sqrt(10) and beyond do not — the player included
    let mut game = empty_game(30, 30);
    let mut objects = vec![
        player_at(10, 10, 20, 20),
        monster_at_pos(13, 10, "edge orc", 20),
        monster_at_pos(12, 12, "near orc", 20),
        monster_at_pos(13, 11, "outside orc", 20),
        monster_at_pos(20, 20, "far orc", 20),
    ];
    let r = cast_fireball(Some((10, 10)), &mut game, &mut objects);
    assert!(matches!(r, UseResult::UsedUp));
    assert_eq!(objects[0].fighter.as_ref().unwrap().hp, 15);
    assert_eq!(objects[1].fighter.as_ref().unwrap().hp, 15);
    assert_eq!(objects[2].fighter.as_ref().unwrap().hp, 15);
    assert_eq!(objects[3].fighter.as_ref().unwrap().hp, 20);
    assert_eq!(objects[4].fighter.as_ref().unwrap().hp, 20);
    assert_eq!(game.log.text_at(0).as_str(), "The fireball explodes burning everyting within 3 tiles!");
}

#[test]
fn fireball_without_target_keeps_item() {
    let mut game = empty_game(20, 20);
    game.inventory.push(item_entity(0, 0, "scroll of fireball", Item::Fireball));
    let fov = FovData::new_uniform(20, 20, true);
    let mut objects = vec![player_at(2, 2, 8, 8)];
    let r = use_item(0, TargetChoice::Cancelled, &mut game, &mut objects, &fov);
    assert!(matches!(r, UseResult::Cancelled));
    assert_eq!(game.inventory.len(), 1);
    assert_eq!(game.log.text_at(game.log.len() - 1).as_str(), "Cancelled");
}

#[test]
fn confusion_wraps_and_expires_after_counter_runs_out() {
    // a Confused state with 4 turns left, advanced 6 turns with no
    // re-application, reverts to its wrapped state exactly once
    let mut game = empty_game(20, 20);
    let mut orc = monster_at_pos(5, 5, "orc", 4);
    orc.ai = Some(Ai::Confused { previous_ai: Box::new(Ai::Basic), num_turns: 4 });
    let mut objects = vec![player_at(2, 2, 8, 8), orc];
    // nothing is visible, so a restored basic AI would hold still
    let fov = FovData::new_uniform(20, 20, false);
    let mut rng = RandomSource::Fixed { values: vec![1, 2, 0, 2, 1, 0, 2, 2, 1, 1, 0, 0], next: 0 };
    for turn in 0..6 {
        match objects[1].ai.as_ref().unwrap() {
            Ai::Confused { num_turns, .. } => assert_eq!(*num_turns, 4 - turn),
            _ => panic!("reverted too early"),
        }
        ai_take_turn(1, &mut game, &mut objects, &fov, &mut rng);
    }
    assert!(matches!(objects[1].ai.as_ref().unwrap(), Ai::Basic));
    assert_eq!(
        game.log.text_at(game.log.len() - 1).as_str(),
        "The orc is no longer confused!"
    );
    // only the expiry was logged
    assert_eq!(game.log.len(), 1);
}

#[test]
fn confusion_scroll_wraps_current_state() {
    let mut game = empty_game(20, 20);
    game.inventory.push(item_entity(0, 0, "scroll of confusion", Item::Confusion));
    let fov = FovData::new_uniform(20, 20, true);
    let mut objects = vec![player_at(2, 2, 8, 8), monster_at_pos(4, 2, "orc", 4)];
    let r = use_item(0, TargetChoice::Monster { id: 1 }, &mut game, &mut objects, &fov);
    assert!(matches!(r, UseResult::UsedUp));
    assert_eq!(game.inventory.len(), 0);
    match objects[1].ai.as_ref().unwrap() {
        Ai::Confused { previous_ai, num_turns } => {
            assert_eq!(*num_turns, 4);
            assert!(matches!(**previous_ai, Ai::Basic));
        },
        _ => panic!("expected a confused state"),
    }
    assert_eq!(game.log.text_at(0).as_str(), "The orc is confused, he wanders around!");
}

#[test]
fn heal_at_full_health_cancels() {
    let mut game = empty_game(20, 20);
    game.inventory.push(item_entity(0, 0, "healing potion", Item::Heal));
    let fov = FovData::new_uniform(20, 20, true);
    let mut objects = vec![player_at(2, 2, 8, 8)];
    let r = use_item(0, TargetChoice::Untargeted, &mut game, &mut objects, &fov);
    assert!(matches!(r, UseResult::Cancelled));
    assert_eq!(game.inventory.len(), 1);
    assert_eq!(game.log.text_at(0).as_str(), "You are already at full health");
    assert_eq!(game.log.text_at(1).as_str(), "Cancelled");
}

#[test]
fn heal_potion_is_spent_and_caps() {
    let mut game = empty_game(20, 20);
    game.inventory.push(item_entity(0, 0, "healing potion", Item::Heal));
    let fov = FovData::new_uniform(20, 20, true);
    let mut objects = vec![player_at(2, 2, 6, 8)];
    let r = use_item(0, TargetChoice::Untargeted, &mut game, &mut objects, &fov);
    assert!(matches!(r, UseResult::UsedUp));
    assert_eq!(game.inventory.len(), 0);
    assert_eq!(objects[0].fighter.as_ref().unwrap().hp, 8);
    assert_eq!(game.log.text_at(0).as_str(), "Your wounds start to feel better!");
}

#[test]
fn lightning_strikes_the_closest_visible_enemy() {
    let mut game = empty_game(30, 30);
    game.inventory.push(item_entity(0, 0, "scroll of lightning", Item::Lightning));
    let mut fov = FovData::new_uniform(30, 30, true);
    fov.set_visible(6, 2, false);
    let mut objects = vec![
        player_at(2, 2, 8, 8),
        monster_at_pos(6, 2, "hidden orc", 20),  // closer but not visible
        monster_at_pos(7, 2, "near orc", 20),
        monster_at_pos(2, 9, "far orc", 20),
    ];
    let r = use_item(0, TargetChoice::Untargeted, &mut game, &mut objects, &fov);
    assert!(matches!(r, UseResult::UsedUp));
    assert_eq!(objects[1].fighter.as_ref().unwrap().hp, 20);
    assert_eq!(objects[2].fighter.as_ref().unwrap().hp, 15);
    assert_eq!(objects[3].fighter.as_ref().unwrap().hp, 20);
    assert_eq!(
        game.log.text_at(0).as_str(),
        "A lightning bolt strikes near orc with a loud thunder! The damage is 5 hit points."
    );
}

#[test]
fn lightning_with_no_enemy_in_reach_cancels() {
    let mut game = empty_game(30, 30);
    game.inventory.push(item_entity(0, 0, "scroll of lightning", Item::Lightning));
    let fov = FovData::new_uniform(30, 30, true);
    // reach cuts off past a distance of five tiles
    let mut objects = vec![player_at(2, 2, 8, 8), monster_at_pos(2, 9, "far orc", 20)];
    let r = use_item(0, TargetChoice::Untargeted, &mut game, &mut objects, &fov);
    assert!(matches!(r, UseResult::Cancelled));
    assert_eq!(game.inventory.len(), 1);
    assert_eq!(game.log.text_at(0).as_str(), "No enemy is close enough to strike.");
    assert_eq!(game.log.text_at(1).as_str(), "Cancelled");
}

#[test]
fn lightning_reach_boundary_is_exact() {
    let fov = FovData::new_uniform(30, 30, true);
    // an enemy at distance sqrt(26), just past five tiles, is out of reach
    let objects = vec![player_at(10, 10, 8, 8), monster_at_pos(15, 11, "edge orc", 20)];
    assert_eq!(closest_monster(&fov, 5, &objects), None);
    // an enemy at exactly five tiles is in reach
    let objects = vec![player_at(10, 10, 8, 8), monster_at_pos(15, 10, "edge orc", 20)];
    assert_eq!(closest_monster(&fov, 5, &objects), Some(1));
}

#[test]
fn closest_monster_breaks_ties_by_order() {
    let fov = FovData::new_uniform(30, 30, true);
    let objects = vec![
        player_at(10, 10, 8, 8),
        monster_at_pos(12, 10, "first", 4),
        monster_at_pos(8, 10, "second", 4),
    ];
    assert_eq!(closest_monster(&fov, 5, &objects), Some(1));
}

#[test]
fn entity_without_item_component_cannot_be_used() {
    let mut game = empty_game(20, 20);
    game.inventory.push(Object::new(0, 0, '%', "strange rock", ColorCode::White, false));
    let fov = FovData::new_uniform(20, 20, true);
    let mut objects = vec![player_at(2, 2, 8, 8)];
    let r = use_item(0, TargetChoice::Untargeted, &mut game, &mut objects, &fov);
    assert!(matches!(r, UseResult::Cancelled));
    assert_eq!(game.log.text_at(0).as_str(), "The strange rock cannot be used.");
}

#[test]
fn targeting_requests_match_item_kinds() {
    assert!(targeting_needed(Item::Heal).is_none());
    assert!(targeting_needed(Item::Lightning).is_none());
    assert!(matches!(targeting_needed(Item::Fireball), Some(TargetRequest::VisibleTile)));
    assert!(matches!(
        targeting_needed(Item::Confusion),
        Some(TargetRequest::FighterWithin { range: 7 })
    ));
}

#[test]
fn target_selection_confirms_cancels_and_waits() {
    let mut fov = FovData::new_uniform(20, 20, false);
    fov.set_visible(5, 5, true);
    let objects = vec![player_at(4, 4, 8, 8)];
    // a left click on a visible tile in range confirms
    let r = target_tile_step(5, 5, true, false, false, &fov, &objects, Some(7));
    assert!(matches!(r, TargetStep::Confirm { x: 5, y: 5 }));
    // a left click outside the view keeps waiting
    let r = target_tile_step(6, 6, true, false, false, &fov, &objects, Some(7));
    assert!(matches!(r, TargetStep::Pending));
    // a visible tile beyond the range bound keeps waiting
    fov.set_visible(13, 4, true);
    let r = target_tile_step(13, 4, true, false, false, &fov, &objects, Some(7));
    assert!(matches!(r, TargetStep::Pending));
    // without a range bound the same click confirms
    let r = target_tile_step(13, 4, true, false, false, &fov, &objects, None);
    assert!(matches!(r, TargetStep::Confirm { x: 13, y: 4 }));
    // a right click or the cancel key abandons the selection
    let r = target_tile_step(6, 6, false, true, false, &fov, &objects, Some(7));
    assert!(matches!(r, TargetStep::Cancel));
    let r = target_tile_step(6, 6, false, false, true, &fov, &objects, Some(7));
    assert!(matches!(r, TargetStep::Cancel));
}

#[test]
fn monster_filter_skips_the_player() {
    let objects = vec![player_at(4, 4, 8, 8), monster_at_pos(4, 4, "orc", 4)];
    assert_eq!(monster_at(4, 4, &objects), Some(1));
    assert_eq!(monster_at(9, 9, &objects), None);
}

#[test]
fn commands_consume_turns_as_specified() {
    let mut game = empty_game(20, 20);
    let mut objects = vec![player_at(2, 2, 8, 8)];
    assert!(matches!(apply_command(Command::Other, &mut game, &mut objects), PlayerAction::DidntTakeTurn));
    assert!(matches!(apply_command(Command::Exit, &mut game, &mut objects), PlayerAction::Exit));
    assert!(matches!(
        apply_command(Command::Move { dx: 1, dy: 0 }, &mut game, &mut objects),
        PlayerAction::TookTurn
    ));
    assert_eq!((objects[0].x, objects[0].y), (3, 2));
    // a successful pickup consumes the turn
    objects.push(item_entity(3, 2, "healing potion", Item::Heal));
    assert!(matches!(apply_command(Command::PickUp, &mut game, &mut objects), PlayerAction::TookTurn));
    assert_eq!(game.inventory.len(), 1);
    // with nothing underfoot, the attempt costs nothing
    assert!(matches!(apply_command(Command::PickUp, &mut game, &mut objects), PlayerAction::DidntTakeTurn));
    // a dead player can only exit
    objects[0].alive = false;
    assert!(matches!(
        apply_command(Command::Move { dx: 1, dy: 0 }, &mut game, &mut objects),
        PlayerAction::DidntTakeTurn
    ));
    assert_eq!((objects[0].x, objects[0].y), (3, 2));
}

#[test]
fn basic_ai_chases_and_attacks() {
    let mut game = empty_game(20, 20);
    let fov = FovData::new_uniform(20, 20, true);
    let mut rng = RandomSource::Fixed { values: vec![0], next: 0 };
    let mut objects = vec![player_at(2, 2, 8, 8), monster_at_pos(6, 2, "orc", 4)];
    // four tiles away: the monster closes in
    run_ai_phase(&mut game, &mut objects, &fov, &mut rng);
    assert_eq!((objects[1].x, objects[1].y), (5, 2));
    run_ai_phase(&mut game, &mut objects, &fov, &mut rng);
    run_ai_phase(&mut game, &mut objects, &fov, &mut rng);
    assert_eq!((objects[1].x, objects[1].y), (3, 2));
    // adjacent now: it attacks for power 2 against defense 1
    run_ai_phase(&mut game, &mut objects, &fov, &mut rng);
    assert_eq!(objects[0].fighter.as_ref().unwrap().hp, 7);
    assert_eq!((objects[1].x, objects[1].y), (3, 2));
    assert_eq!(
        game.log.text_at(game.log.len() - 1).as_str(),
        "orc attacks player for 1 hit points."
    );
}

#[test]
fn unseen_basic_ai_holds_still() {
    let mut game = empty_game(20, 20);
    let fov = FovData::new_uniform(20, 20, false);
    let mut rng = RandomSource::Fixed { values: vec![0], next: 0 };
    let mut objects = vec![player_at(2, 2, 8, 8), monster_at_pos(6, 2, "orc", 4)];
    run_ai_phase(&mut game, &mut objects, &fov, &mut rng);
    assert_eq!((objects[1].x, objects[1].y), (6, 2));
    assert_eq!(game.log.len(), 0);
}
