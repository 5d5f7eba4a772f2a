//! Inventory and the item effect system.
//!
//! Entities with an `Item` component move between the world and the player's
//! inventory (never belonging to both), and dispatch by item kind when used.
//! Effects that need a target receive it as a value: the interactive
//! selection loop lives with the front end, which feeds each of its events
//! through `target_tile_step` and `monster_at` and only then calls
//! `use_item`.  A use either consumes the item (`UsedUp`) or leaves the
//! inventory untouched (`Cancelled`) with a log entry explaining why.

use vstd::prelude::*;
use vstd::string::StringExecFns;

use crate::color::ColorCode;
use crate::fov::FovData;
use crate::game::Game;
use crate::game::UseResult;
use crate::geometry::dist_sq;
use crate::log::pushed;
use crate::log::Message;
use crate::object::ai_wf;
use crate::object::damaged_obj;
use crate::object::damage_log;
use crate::object::take_damage_post;
use crate::object::Ai;
use crate::object::Fighter;
use crate::object::Item;
use crate::object::Object;
use crate::text::i32_to_dec;
use crate::text::spec_dec;
use crate::world::fighter_at;
use crate::world::objects_wf;
use crate::world::obj_wf;
use crate::CONFUSE_NUM_TURNS;
use crate::CONFUSE_RANGE;
use crate::FIREBALL_DAMAGE;
use crate::FIREBALL_RADIUS;
use crate::HEAL_AMOUNT;
use crate::INVENTORY_CAPACITY;
use crate::LIGHTNING_DAMAGE;
use crate::LIGHTNING_RANGE;
use crate::PLAYER;

verus! {

/// What kind of interactive selection an item needs before it can be used.
#[derive(Clone, Copy, Debug, PartialEq, Eq, Structural)]
pub enum TargetRequest {
    /// A visible tile, anywhere in the field of view.
    VisibleTile,
    /// A fighter-bearing entity within this many tiles of the player.
    FighterWithin { range: i32 },
}

/// The selection the front end hands to `use_item`.
#[derive(Clone, Copy, Debug, PartialEq, Eq, Structural)]
pub enum TargetChoice {
    /// The item needs no target.
    Untargeted,
    /// A confirmed tile.
    Tile { x: i32, y: i32 },
    /// A confirmed entity.
    Monster { id: usize },
    /// The selection was cancelled; the item is retained.
    Cancelled,
}

/// What one polled event does to a pending tile selection.
#[derive(Clone, Copy, Debug, PartialEq, Eq, Structural)]
pub enum TargetStep {
    Confirm { x: i32, y: i32 },
    Cancel,
    Pending,
}

/// Which selection, if any, each item kind asks for.
pub fn targeting_needed(item: Item) -> (r: Option<TargetRequest>)
    ensures
        item == Item::Heal ==> r is None,
        item == Item::Lightning ==> r is None,
        item == Item::Fireball ==> r == Some(TargetRequest::VisibleTile),
        item == Item::Confusion ==> r == Some(
            TargetRequest::FighterWithin { range: CONFUSE_RANGE },
        ),
{
    match item {
        Item::Heal => None,
        Item::Lightning => None,
        Item::Fireball => Some(TargetRequest::VisibleTile),
        Item::Confusion => Some(TargetRequest::FighterWithin { range: CONFUSE_RANGE }),
    }
}

/// Logs the instruction that opens an interactive selection.
pub fn targeting_prompt(item: Item, game: &mut Game)
    requires
        old(game).log.wf(),
    ensures
        final(game).log.wf(),
        final(game).map == old(game).map,
        final(game).inventory == old(game).inventory,
        item == Item::Fireball ==> pushed(
            old(game).log@,
            final(game).log@,
            "Left-click a target tile for the fireball, or right-click to cancel."@,
            ColorCode::LightCyan,
        ),
        item == Item::Confusion ==> pushed(
            old(game).log@,
            final(game).log@,
            "Left-click an enemy to confuse it, or right-click to cancel."@,
            ColorCode::LightCyan,
        ),
        item == Item::Heal || item == Item::Lightning ==> final(game).log == old(game).log,
{
    match item {
        Item::Fireball => {
            crate::log::message(
                &mut game.log,
                "Left-click a target tile for the fireball, or right-click to cancel.".to_owned(),
                ColorCode::LightCyan,
            );
        },
        Item::Confusion => {
            crate::log::message(
                &mut game.log,
                "Left-click an enemy to confuse it, or right-click to cancel.".to_owned(),
                ColorCode::LightCyan,
            );
        },
        _ => {},
    }
}

/// What one polled targeting event resolves to: a left click confirms a
/// visible tile inside the range bound, otherwise a right click or the
/// cancel key abandons the selection, and anything else keeps it pending.
pub open spec fn target_step_spec(
    objs: Seq<Object>,
    fov: FovData,
    x: int,
    y: int,
    lbutton: bool,
    rbutton: bool,
    escape: bool,
    max_range: Option<i32>,
) -> TargetStep {
    let in_fov = fov.vis_at(x, y);
    let in_range = match max_range {
        Some(mr) => dist_sq(
            objs[PLAYER as int].x as int,
            objs[PLAYER as int].y as int,
            x,
            y,
        ) <= mr * mr,
        None => true,
    };
    if lbutton && in_fov && in_range {
        TargetStep::Confirm { x: x as i32, y: y as i32 }
    } else if rbutton || escape {
        TargetStep::Cancel
    } else {
        TargetStep::Pending
    }
}

/// Resolves one event of the interactive tile selection.
pub fn target_tile_step(
    x: i32,
    y: i32,
    lbutton: bool,
    rbutton: bool,
    escape: bool,
    fov: &FovData,
    objects: &Vec<Object>,
    max_range: Option<i32>,
) -> (r: TargetStep)
    requires
        objects@.len() >= 1,
        fov.wf(),
        -1000 <= objects@[PLAYER as int].x <= 1000,
        -1000 <= objects@[PLAYER as int].y <= 1000,
        -1000 <= x <= 1000,
        -1000 <= y <= 1000,
        max_range matches Some(mr) ==> 0 <= mr <= 1000,
    ensures
        r == target_step_spec(
            objects@,
            *fov,
            x as int,
            y as int,
            lbutton,
            rbutton,
            escape,
            max_range,
        ),
{
    let in_fov = fov.is_visible(x, y);
    let in_range = match max_range {
        Some(mr) => {
            let d = objects[PLAYER].distance_sq_from(x, y);
            let mrl: i64 = mr as i64;
            proof {
                assert(0 <= mrl * mrl <= 1000 * 1000) by (nonlinear_arith)
                    requires
                        0 <= mrl <= 1000,
                ;
            }
            d <= mrl * mrl
        },
        None => true,
    };
    if lbutton && in_fov && in_range {
        TargetStep::Confirm { x, y }
    } else if rbutton || escape {
        TargetStep::Cancel
    } else {
        TargetStep::Pending
    }
}

/// The first entity other than the player that bears a fighter component and
/// stands on the tile, if any; the inner filter of monster targeting.
pub fn monster_at(x: i32, y: i32, objects: &Vec<Object>) -> (r: Option<usize>)
    ensures
        r matches Some(id) ==> id != PLAYER && fighter_at(objects@, id as int, x as int, y as int)
            && (forall|j: int|
            0 <= j < id && j != PLAYER ==> !fighter_at(objects@, j, x as int, y as int)),
        r is None ==> forall|j: int|
            0 <= j < objects@.len() && j != PLAYER ==> !fighter_at(objects@, j, x as int, y as int),
{
    let mut found: Option<usize> = None;
    let mut k: usize = 0;
    while k < objects.len()
        invariant
            0 <= k <= objects@.len(),
            found matches Some(id) ==> id < k && id != PLAYER && fighter_at(
                objects@,
                id as int,
                x as int,
                y as int,
            ) && (forall|j: int|
                0 <= j < id && j != PLAYER ==> !fighter_at(objects@, j, x as int, y as int)),
            found is None ==> forall|j: int|
                0 <= j < k && j != PLAYER ==> !fighter_at(objects@, j, x as int, y as int),
        decreases objects@.len() - k,
    {
        let o = &objects[k];
        if found.is_none() && k != PLAYER && o.fighter.is_some() && o.x == x && o.y == y {
            found = Some(k);
        }
        k = k + 1;
    }
    found
}

/// Everything one pickup attempt leaves behind: a full inventory refuses and
/// changes nothing but the log; otherwise the entity leaves the world
/// collection (the last entity taking over its slot) and joins the end of
/// the inventory.
pub open spec fn pick_item_up_post(
    objs0: Seq<Object>,
    objs1: Seq<Object>,
    inv0: Seq<Object>,
    inv1: Seq<Object>,
    log0: Seq<Message>,
    log1: Seq<Message>,
    object_id: int,
) -> bool {
    if inv0.len() >= INVENTORY_CAPACITY {
        &&& objs1 == objs0
        &&& inv1 == inv0
        &&& pushed(
            log0,
            log1,
            "Your inventory is full, cannot pick up "@ + objs0[object_id].name@,
            ColorCode::Red,
        )
    } else {
        &&& objs1 == objs0.update(object_id, objs0.last()).drop_last()
        &&& inv1 == inv0.push(objs0[object_id])
        &&& pushed(
            log0,
            log1,
            "You picked up "@ + objs0[object_id].name@ + "!"@,
            ColorCode::Green,
        )
    }
}

/// Moves a world entity into the player's inventory, unless the inventory is
/// already full, in which case everything stays put and the log says so.
pub fn pick_item_up(object_id: usize, objects: &mut Vec<Object>, game: &mut Game)
    requires
        object_id < old(objects)@.len(),
        old(game).wf(),
        objects_wf(old(objects)@, old(game).map),
    ensures
        final(game).map == old(game).map,
        final(game).wf(),
        objects_wf(final(objects)@, final(game).map),
        pick_item_up_post(
            old(objects)@,
            final(objects)@,
            old(game).inventory@,
            final(game).inventory@,
            old(game).log@,
            final(game).log@,
            object_id as int,
        ),
{
    if game.inventory.len() >= INVENTORY_CAPACITY {
        let text = "Your inventory is full, cannot pick up ".to_owned().concat(
            objects[object_id].name.as_str(),
        );
        crate::log::message(&mut game.log, text, ColorCode::Red);
    } else {
        let item = objects.swap_remove(object_id);
        let text = "You picked up ".to_owned().concat(item.name.as_str()).concat("!");
        crate::log::message(&mut game.log, text, ColorCode::Green);
        game.inventory.push(item);
        proof {
            assert(obj_wf(old(objects)@[object_id as int], old(game).map));
            assert forall|k: int|
                0 <= k < objects@.len() implies obj_wf(#[trigger] objects@[k], game.map) by {
                assert(obj_wf(old(objects)@[k], old(game).map));
                assert(obj_wf(old(objects)@.last(), old(game).map));
            }
        }
    }
}

/// Moves an inventory entry back into the world at the player's feet.
pub fn drop_item(inventory_id: usize, game: &mut Game, objects: &mut Vec<Object>)
    requires
        inventory_id < old(game).inventory@.len(),
        old(objects)@.len() >= 1,
        old(game).wf(),
        objects_wf(old(objects)@, old(game).map),
    ensures
        final(game).map == old(game).map,
        final(game).wf(),
        objects_wf(final(objects)@, final(game).map),
        final(game).inventory@ == old(game).inventory@.remove(inventory_id as int),
        final(objects)@ == old(objects)@.push(
            Object {
                x: old(objects)@[PLAYER as int].x,
                y: old(objects)@[PLAYER as int].y,
                ..old(game).inventory@[inventory_id as int]
            },
        ),
        pushed(
            old(game).log@,
            final(game).log@,
            "You dropped a "@ + old(game).inventory@[inventory_id as int].name@,
            ColorCode::Yellow,
        ),
{
    let mut item = game.inventory.remove(inventory_id);
    let px = objects[PLAYER].x;
    let py = objects[PLAYER].y;
    item.set_pos(px, py);
    let text = "You dropped a ".to_owned().concat(item.name.as_str());
    crate::log::message(&mut game.log, text, ColorCode::Yellow);
    objects.push(item);
    proof {
        assert(obj_wf(old(objects)@[PLAYER as int], old(game).map));
    }
}

/// Entity `k` is a valid lightning victim: an AI-bearing fighter other than
/// the player, visible, and within the strike's reach of the player —
/// Euclidean distance at most `max_range`, compared exactly on squares.
pub open spec fn lightning_candidate(
    objs: Seq<Object>,
    fov: FovData,
    k: int,
    max_range: int,
) -> bool {
    &&& 0 <= k < objs.len()
    &&& k != PLAYER
    &&& objs[k].fighter is Some
    &&& objs[k].ai is Some
    &&& fov.vis_at(objs[k].x as int, objs[k].y as int)
    &&& player_dist_sq(objs, k) <= max_range * max_range
}

/// The squared distance from the player to entity `k`.
pub open spec fn player_dist_sq(objs: Seq<Object>, k: int) -> int {
    dist_sq(
        objs[PLAYER as int].x as int,
        objs[PLAYER as int].y as int,
        objs[k].x as int,
        objs[k].y as int,
    )
}

/// Finds the closest lightning victim: strictly smallest distance to the
/// player wins, a tie keeps the earlier entity in collection order.
pub fn closest_monster(fov: &FovData, max_range: i32, objects: &Vec<Object>) -> (r: Option<usize>)
    requires
        objects@.len() >= 1,
        fov.wf(),
        0 <= max_range <= 1000,
        forall|k: int|
            0 <= k < objects@.len() ==> -1000 <= (#[trigger] objects@[k]).x <= 1000 && -1000
                <= objects@[k].y <= 1000,
    ensures
        r matches Some(t) ==> {
            &&& lightning_candidate(objects@, *fov, t as int, max_range as int)
            &&& forall|j: int|
                lightning_candidate(objects@, *fov, j, max_range as int) ==> player_dist_sq(
                    objects@,
                    t as int,
                ) <= player_dist_sq(objects@, j)
            &&& forall|j: int|
                0 <= j < t && lightning_candidate(objects@, *fov, j, max_range as int)
                    ==> player_dist_sq(objects@, j) > player_dist_sq(objects@, t as int)
        },
        r is None ==> forall|j: int| !lightning_candidate(objects@, *fov, j, max_range as int),
{
    let mut closest_enemy: Option<usize> = None;
    // start just past the maximum reach
    let mrl: i64 = max_range as i64;
    proof {
        assert(0 <= mrl * mrl <= 1000 * 1000) by (nonlinear_arith)
            requires
                0 <= mrl <= 1000,
        ;
    }
    let mut closest_dist: i64 = mrl * mrl + 1;
    let mut k: usize = 0;
    while k < objects.len()
        invariant
            0 <= k <= objects@.len(),
            closest_enemy matches Some(t) ==> {
                &&& t < k
                &&& lightning_candidate(objects@, *fov, t as int, max_range as int)
                &&& closest_dist == player_dist_sq(objects@, t as int)
                &&& forall|j: int|
                    0 <= j < k && lightning_candidate(objects@, *fov, j, max_range as int)
                        ==> player_dist_sq(objects@, j) >= closest_dist
                &&& forall|j: int|
                    0 <= j < t && lightning_candidate(objects@, *fov, j, max_range as int)
                        ==> player_dist_sq(objects@, j) > closest_dist
            },
            closest_enemy is None ==> closest_dist == max_range * max_range + 1 && forall|
                j: int,
            | 0 <= j < k ==> !lightning_candidate(objects@, *fov, j, max_range as int),
        decreases objects@.len() - k,
    {
        let o = &objects[k];
        if k != PLAYER && o.fighter.is_some() && o.ai.is_some() && fov.is_visible(o.x, o.y) {
            // distance between the player and this object
            let dist = objects[PLAYER].distance_sq_to(o);
            if dist < closest_dist {
                // it's closer, so remember it
                closest_enemy = Some(k);
                closest_dist = dist;
            }
        }
        k = k + 1;
    }
    closest_enemy
}

/// What casting a healing potion leaves behind: at full health nothing but a
/// refusal in the log; otherwise the player is healed by `HEAL_AMOUNT`,
/// capped at the maximum.  A player without combat statistics cannot drink.
pub open spec fn heal_cast_post(
    objs0: Seq<Object>,
    objs1: Seq<Object>,
    log0: Seq<Message>,
    log1: Seq<Message>,
    r: UseResult,
) -> bool {
    let p = objs0[PLAYER as int];
    match p.fighter {
        Option::None => r == UseResult::Cancelled && objs1 == objs0 && log1 == log0,
        Option::Some(f) => if f.hp == f.max_hp {
            &&& r == UseResult::Cancelled
            &&& objs1 == objs0
            &&& pushed(log0, log1, "You are already at full health"@, ColorCode::Red)
        } else {
            &&& r == UseResult::UsedUp
            &&& objs1 == objs0.update(
                PLAYER as int,
                Object {
                    fighter: Some(
                        Fighter {
                            hp: (if f.hp + HEAL_AMOUNT > f.max_hp {
                                f.max_hp as int
                            } else {
                                f.hp + HEAL_AMOUNT
                            }) as i32,
                            ..f
                        },
                    ),
                    ..p
                },
            )
            &&& pushed(log0, log1, "Your wounds start to feel better!"@, ColorCode::LightViolet)
        },
    }
}

/// Heals the player.
pub fn cast_heal(game: &mut Game, objects: &mut Vec<Object>) -> (r: UseResult)
    requires
        old(objects)@.len() >= 1,
        old(game).map.wf(),
        old(game).log.wf(),
        objects_wf(old(objects)@, old(game).map),
    ensures
        final(game).map == old(game).map,
        final(game).inventory == old(game).inventory,
        final(game).log.wf(),
        objects_wf(final(objects)@, final(game).map),
        final(objects)@.len() == old(objects)@.len(),
        heal_cast_post(old(objects)@, final(objects)@, old(game).log@, final(game).log@, r),
{
    proof {
        assert(obj_wf(objects@[PLAYER as int], game.map));
    }
    if let Some(fighter) = objects[PLAYER].fighter {
        if fighter.hp == fighter.max_hp {
            crate::log::message(
                &mut game.log,
                "You are already at full health".to_owned(),
                ColorCode::Red,
            );
            return UseResult::Cancelled;
        }
        crate::log::message(
            &mut game.log,
            "Your wounds start to feel better!".to_owned(),
            ColorCode::LightViolet,
        );
        let p = &mut objects[PLAYER];
        p.heal(HEAL_AMOUNT);
        return UseResult::UsedUp;
    }
    UseResult::Cancelled
}

/// What casting a lightning scroll leaves behind: the closest victim in
/// reach takes the strike's damage, or the log reports that nothing was in
/// range and the scroll is retained.
pub open spec fn lightning_cast_post(
    objs0: Seq<Object>,
    objs1: Seq<Object>,
    log0: Seq<Message>,
    log1: Seq<Message>,
    fov: FovData,
    r: UseResult,
) -> bool {
    if exists|k: int| lightning_candidate(objs0, fov, k, LIGHTNING_RANGE as int) {
        exists|t: int|
            #![auto]
            {
                &&& lightning_candidate(objs0, fov, t, LIGHTNING_RANGE as int)
                &&& forall|j: int|
                    lightning_candidate(objs0, fov, j, LIGHTNING_RANGE as int) ==> player_dist_sq(
                        objs0,
                        t,
                    ) <= player_dist_sq(objs0, j)
                &&& forall|j: int|
                    0 <= j < t && lightning_candidate(objs0, fov, j, LIGHTNING_RANGE as int)
                        ==> player_dist_sq(objs0, j) > player_dist_sq(objs0, t)
                &&& r == UseResult::UsedUp
                &&& objs1 == objs0.update(t, objs1[t])
                &&& exists|mid: Seq<Message>|
                    #![auto]
                    pushed(
                        log0,
                        mid,
                        "A lightning bolt strikes "@ + objs0[t].name@
                            + " with a loud thunder! The damage is "@ + spec_dec(
                            LIGHTNING_DAMAGE as int,
                        ) + " hit points."@,
                        ColorCode::LightBlue,
                    ) && take_damage_post(objs0[t], LIGHTNING_DAMAGE as int, objs1[t], mid, log1)
            }
    } else {
        &&& r == UseResult::Cancelled
        &&& objs1 == objs0
        &&& pushed(log0, log1, "No enemy is close enough to strike."@, ColorCode::Red)
    }
}

/// Damages the nearest visible enemy within the strike's reach.
pub fn cast_lightning(game: &mut Game, objects: &mut Vec<Object>, fov: &FovData) -> (r: UseResult)
    requires
        old(objects)@.len() >= 1,
        old(game).map.wf(),
        old(game).log.wf(),
        objects_wf(old(objects)@, old(game).map),
        fov.wf(),
    ensures
        final(game).map == old(game).map,
        final(game).inventory == old(game).inventory,
        final(game).log.wf(),
        objects_wf(final(objects)@, final(game).map),
        final(objects)@.len() == old(objects)@.len(),
        lightning_cast_post(
            old(objects)@,
            final(objects)@,
            old(game).log@,
            final(game).log@,
            *fov,
            r,
        ),
{
    // find the closest enemy inside a maximum range
    let monster_id = closest_monster(fov, LIGHTNING_RANGE, objects);
    if let Some(t) = monster_id {
        // zap it!
        let amount = i32_to_dec(LIGHTNING_DAMAGE);
        let text = "A lightning bolt strikes ".to_owned().concat(objects[t].name.as_str()).concat(
            " with a loud thunder! The damage is ",
        ).concat(amount.as_str()).concat(" hit points.");
        crate::log::message(&mut game.log, text, ColorCode::LightBlue);
        let ghost mid = game.log@;
        proof {
            assert(obj_wf(objects@[t as int], game.map));
        }
        let o = &mut objects[t];
        o.take_damage(LIGHTNING_DAMAGE, game);
        UseResult::UsedUp
    } else {
        // no enemy found within the maximum range
        crate::log::message(
            &mut game.log,
            "No enemy is close enough to strike.".to_owned(),
            ColorCode::Red,
        );
        UseResult::Cancelled
    }
}

/// The entity stands close enough to the blast's center to be burned.
pub open spec fn in_blast(o: Object, x: int, y: int) -> bool {
    o.fighter is Some && dist_sq(o.x as int, o.y as int, x, y) <= FIREBALL_RADIUS * FIREBALL_RADIUS
}

/// What the blast leaves of the entity collection: every fighter within the
/// radius of the center — the player included — takes the blast's damage,
/// and nothing farther is touched.
pub open spec fn fireball_objs_post(
    objs0: Seq<Object>,
    objs1: Seq<Object>,
    x: int,
    y: int,
) -> bool {
    &&& objs1.len() == objs0.len()
    &&& forall|k: int|
        0 <= k < objs0.len() && in_blast(#[trigger] objs0[k], x, y) ==> damaged_obj(
            objs0[k],
            FIREBALL_DAMAGE as int,
            objs1[k],
        )
    &&& forall|k: int|
        0 <= k < objs0.len() && !in_blast(#[trigger] objs0[k], x, y) ==> objs1[k] == objs0[k]
}

/// What one entity adds to the log as the blast passes it: a victim gets its
/// burn entry, followed by whatever its damage application reports; anything
/// out of the blast leaves the log alone.
pub open spec fn burn_log_step(
    o: Object,
    x: int,
    y: int,
    log0: Seq<Message>,
    log1: Seq<Message>,
) -> bool {
    if in_blast(o, x, y) {
        exists|log_m: Seq<Message>|
            #![auto]
            pushed(
                log0,
                log_m,
                "The "@ + o.name@ + " gets burned for "@ + spec_dec(FIREBALL_DAMAGE as int)
                    + " hit points."@,
                ColorCode::Orange,
            ) && damage_log(o, FIREBALL_DAMAGE as int, log_m, log1)
    } else {
        log1 == log0
    }
}

/// The burn reports of the blast passing slots `0..k` in collection order: a
/// chain of intermediate logs, each consecutive pair related by one entity's
/// report.
pub open spec fn burn_log_upto(
    objs0: Seq<Object>,
    x: int,
    y: int,
    k: int,
    log0: Seq<Message>,
    log1: Seq<Message>,
) -> bool
    decreases k,
{
    if k <= 0 {
        log1 == log0
    } else {
        exists|log_m: Seq<Message>|
            burn_log_upto(objs0, x, y, k - 1, log0, log_m) && #[trigger] burn_log_step(
                objs0[k - 1],
                x,
                y,
                log_m,
                log1,
            )
    }
}

/// Burns everything with combat statistics within the blast radius of the
/// chosen tile; without a confirmed tile the scroll is retained.
#[verifier::rlimit(30)]
pub fn cast_fireball(
    target: Option<(i32, i32)>,
    game: &mut Game,
    objects: &mut Vec<Object>,
) -> (r: UseResult)
    requires
        old(game).map.wf(),
        old(game).log.wf(),
        objects_wf(old(objects)@, old(game).map),
        target matches Some(t) ==> -1000 <= t.0 <= 1000 && -1000 <= t.1 <= 1000,
    ensures
        final(game).map == old(game).map,
        final(game).inventory == old(game).inventory,
        final(game).log.wf(),
        objects_wf(final(objects)@, final(game).map),
        final(objects)@.len() == old(objects)@.len(),
        target is None ==> r == UseResult::Cancelled && final(objects)@ == old(objects)@
            && final(game).log == old(game).log,
        target matches Some(t) ==> r == UseResult::UsedUp && fireball_objs_post(
            old(objects)@,
            final(objects)@,
            t.0 as int,
            t.1 as int,
        ) && exists|log_e: Seq<Message>|
            #![auto]
            pushed(
                old(game).log@,
                log_e,
                "The fireball explodes burning everyting within "@ + spec_dec(
                    FIREBALL_RADIUS as int,
                ) + " tiles!"@,
                ColorCode::Orange,
            ) && burn_log_upto(
                old(objects)@,
                t.0 as int,
                t.1 as int,
                old(objects)@.len() as int,
                log_e,
                final(game).log@,
            ),
{
    let (x, y) = match target {
        Some(tile_pos) => tile_pos,
        None => { return UseResult::Cancelled },
    };
    let radius_text = i32_to_dec(FIREBALL_RADIUS);
    let text = "The fireball explodes burning everyting within ".to_owned().concat(
        radius_text.as_str(),
    ).concat(" tiles!");
    crate::log::message(&mut game.log, text, ColorCode::Orange);
    let ghost log_e = game.log@;

    proof {
        assert(0 <= (FIREBALL_RADIUS as i64) * (FIREBALL_RADIUS as i64) < 100) by (nonlinear_arith)
            requires
                FIREBALL_RADIUS == 3,
        ;
    }
    let radius_sq: i64 = (FIREBALL_RADIUS as i64) * (FIREBALL_RADIUS as i64);
    let mut k: usize = 0;
    while k < objects.len()
        invariant
            0 <= k <= objects@.len(),
            game.map == old(game).map,
            game.inventory == old(game).inventory,
            game.log.wf(),
            objects_wf(objects@, game.map),
            objects@.len() == old(objects)@.len(),
            forall|j: int| k <= j < objects@.len() ==> objects@[j] == old(objects)@[j],
            forall|j: int|
                0 <= j < k && in_blast(#[trigger] old(objects)@[j], x as int, y as int)
                    ==> damaged_obj(old(objects)@[j], FIREBALL_DAMAGE as int, objects@[j]),
            forall|j: int|
                0 <= j < k && !in_blast(#[trigger] old(objects)@[j], x as int, y as int)
                    ==> objects@[j] == old(objects)@[j],
            burn_log_upto(old(objects)@, x as int, y as int, k as int, log_e, game.log@),
        decreases objects@.len() - k,
    {
        proof {
            assert(obj_wf(objects@[k as int], game.map));
        }
        let ghost log_pre = game.log@;
        let d = objects[k].distance_sq_from(x, y);
        let has_fighter = objects[k].fighter.is_some();
        if d <= radius_sq && has_fighter {
            let amount = i32_to_dec(FIREBALL_DAMAGE);
            let text = "The ".to_owned().concat(objects[k].name.as_str()).concat(
                " gets burned for ",
            ).concat(amount.as_str()).concat(" hit points.");
            crate::log::message(&mut game.log, text, ColorCode::Orange);
            let ghost log_m = game.log@;
            let o = &mut objects[k];
            o.take_damage(FIREBALL_DAMAGE, game);
            proof {
                assert(pushed(
                    log_pre,
                    log_m,
                    "The "@ + old(objects)@[k as int].name@ + " gets burned for "@ + spec_dec(
                        FIREBALL_DAMAGE as int,
                    ) + " hit points."@,
                    ColorCode::Orange,
                ) && damage_log(old(objects)@[k as int], FIREBALL_DAMAGE as int, log_m, game.log@));
            }
        }
        proof {
            let k1: int = k as int + 1;
            assert(burn_log_step(old(objects)@[k1 - 1], x as int, y as int, log_pre, game.log@));
            assert(burn_log_upto(old(objects)@, x as int, y as int, k1 - 1, log_e, log_pre));
            assert(burn_log_upto(old(objects)@, x as int, y as int, k1, log_e, game.log@));
        }
        k = k + 1;
    }
    UseResult::UsedUp
}

/// What casting a confusion scroll leaves behind: the chosen monster's AI is
/// wrapped in a fresh confusion (a missing AI counts as basic), or the log
/// reports that nothing was in reach and the scroll is retained.
pub open spec fn confuse_cast_post(
    objs0: Seq<Object>,
    objs1: Seq<Object>,
    log0: Seq<Message>,
    log1: Seq<Message>,
    target: Option<usize>,
    r: UseResult,
) -> bool {
    match target {
        Option::None => {
            &&& r == UseResult::Cancelled
            &&& objs1 == objs0
            &&& pushed(log0, log1, "No enemy is close enough"@, ColorCode::Red)
        },
        Option::Some(id) => {
            let prev = match objs0[id as int].ai {
                Option::Some(a) => a,
                Option::None => Ai::Basic,
            };
            &&& r == UseResult::UsedUp
            &&& objs1 == objs0.update(
                id as int,
                Object {
                    ai: Some(
                        Ai::Confused {
                            previous_ai: Box::new(prev),
                            num_turns: CONFUSE_NUM_TURNS,
                        },
                    ),
                    ..objs0[id as int]
                },
            )
            &&& pushed(
                log0,
                log1,
                "The "@ + objs0[id as int].name@ + " is confused, he wanders around!"@,
                ColorCode::LightGreen,
            )
        },
    }
}

/// Replaces the chosen monster's AI with a confusion that wraps — and will
/// later restore — its current state.
pub fn cast_confuse(target: Option<usize>, game: &mut Game, objects: &mut Vec<Object>) -> (r:
    UseResult)
    requires
        old(game).map.wf(),
        old(game).log.wf(),
        objects_wf(old(objects)@, old(game).map),
        target matches Some(id) ==> id < old(objects)@.len(),
    ensures
        final(game).map == old(game).map,
        final(game).inventory == old(game).inventory,
        final(game).log.wf(),
        objects_wf(final(objects)@, final(game).map),
        final(objects)@.len() == old(objects)@.len(),
        confuse_cast_post(
            old(objects)@,
            final(objects)@,
            old(game).log@,
            final(game).log@,
            target,
            r,
        ),
{
    if let Some(id) = target {
        let ghost prev0: Ai = match objects@[id as int].ai {
            Option::Some(a) => a,
            Option::None => Ai::Basic,
        };
        proof {
            assert(obj_wf(objects@[id as int], game.map));
            assert(ai_wf(prev0));
        }
        let e = &mut objects[id];
        let old_ai = e.ai.take();
        let prev = match old_ai {
            Some(a) => a,
            None => Ai::Basic,
        };
        // replace the monster's AI with a confused one; after some turns the
        // prior state is restored
        e.ai = Some(Ai::Confused { previous_ai: Box::new(prev), num_turns: CONFUSE_NUM_TURNS });
        proof {
            assert(objects@[id as int].ai == Some(
                Ai::Confused { previous_ai: Box::new(prev0), num_turns: CONFUSE_NUM_TURNS },
            ));
            assert(ai_wf(
                Ai::Confused { previous_ai: Box::new(prev0), num_turns: CONFUSE_NUM_TURNS },
            ));
        }
        let text = "The ".to_owned().concat(objects[id].name.as_str()).concat(
            " is confused, he wanders around!",
        );
        crate::log::message(&mut game.log, text, ColorCode::LightGreen);
        UseResult::UsedUp
    } else {
        // no enemy found within the maximum range
        crate::log::message(&mut game.log, "No enemy is close enough".to_owned(), ColorCode::Red);
        UseResult::Cancelled
    }
}

/// How a use resolves against the inventory and the log once its effect has
/// run: a spent item leaves the inventory, a cancelled use leaves it in
/// place and notes the cancellation.
pub open spec fn use_outcome(
    inv0: Seq<Object>,
    inv1: Seq<Object>,
    mid: Seq<Message>,
    log1: Seq<Message>,
    idx: int,
    r: UseResult,
) -> bool {
    match r {
        UseResult::UsedUp => inv1 == inv0.remove(idx) && log1 == mid,
        UseResult::Cancelled => inv1 == inv0 && pushed(mid, log1, "Cancelled"@, ColorCode::White),
    }
}

/// Uses one inventory entry: dispatches on its item kind, removes it from
/// the inventory when it is spent, and otherwise logs the cancellation and
/// retains it.  An entry without an item component cannot be used at all.
pub fn use_item(
    inventory_id: usize,
    target: TargetChoice,
    game: &mut Game,
    objects: &mut Vec<Object>,
    fov: &FovData,
) -> (r: UseResult)
    requires
        inventory_id < old(game).inventory@.len(),
        old(objects)@.len() >= 1,
        old(game).wf(),
        objects_wf(old(objects)@, old(game).map),
        fov.wf(),
        match old(game).inventory@[inventory_id as int].item {
            Option::Some(Item::Fireball) => (target matches TargetChoice::Tile { x, y } && -1000
                <= x <= 1000 && -1000 <= y <= 1000) || target is Cancelled,
            Option::Some(Item::Confusion) => (target matches TargetChoice::Monster { id } && id
                < old(objects)@.len() && id != PLAYER && old(objects)@[id as int].fighter is Some)
                || target is Cancelled,
            _ => target is Untargeted,
        },
    ensures
        final(game).map == old(game).map,
        final(game).wf(),
        objects_wf(final(objects)@, final(game).map),
        final(objects)@.len() == old(objects)@.len(),
        ({
            let it = old(game).inventory@[inventory_id as int].item;
            &&& (it is None ==> final(objects)@ == old(objects)@ && final(game).inventory == old(
                game,
            ).inventory && r == UseResult::Cancelled && pushed(
                old(game).log@,
                final(game).log@,
                "The "@ + old(game).inventory@[inventory_id as int].name@ + " cannot be used."@,
                ColorCode::White,
            ))
            &&& (it == Some(Item::Heal) ==> exists|mid: Seq<Message>|
                #![auto]
                heal_cast_post(old(objects)@, final(objects)@, old(game).log@, mid, r)
                    && use_outcome(
                    old(game).inventory@,
                    final(game).inventory@,
                    mid,
                    final(game).log@,
                    inventory_id as int,
                    r,
                ))
            &&& (it == Some(Item::Lightning) ==> exists|mid: Seq<Message>|
                #![auto]
                lightning_cast_post(old(objects)@, final(objects)@, old(game).log@, mid, *fov, r)
                    && use_outcome(
                    old(game).inventory@,
                    final(game).inventory@,
                    mid,
                    final(game).log@,
                    inventory_id as int,
                    r,
                ))
            &&& (it == Some(Item::Fireball) ==> match target {
                TargetChoice::Tile { x, y } => r == UseResult::UsedUp && fireball_objs_post(
                    old(objects)@,
                    final(objects)@,
                    x as int,
                    y as int,
                ) && final(game).inventory@ == old(game).inventory@.remove(inventory_id as int),
                _ => r == UseResult::Cancelled && final(objects)@ == old(objects)@
                    && final(game).inventory == old(game).inventory && pushed(
                    old(game).log@,
                    final(game).log@,
                    "Cancelled"@,
                    ColorCode::White,
                ),
            })
            &&& (it == Some(Item::Confusion) ==> exists|mid: Seq<Message>|
                #![auto]
                confuse_cast_post(
                    old(objects)@,
                    final(objects)@,
                    old(game).log@,
                    mid,
                    match target {
                        TargetChoice::Monster { id } => Some(id),
                        _ => None,
                    },
                    r,
                ) && use_outcome(
                    old(game).inventory@,
                    final(game).inventory@,
                    mid,
                    final(game).log@,
                    inventory_id as int,
                    r,
                ))
        }),
{
    let item_opt = game.inventory[inventory_id].item;
    match item_opt {
        None => {
            let text = "The ".to_owned().concat(game.inventory[inventory_id].name.as_str()).concat(
                " cannot be used.",
            );
            crate::log::message(&mut game.log, text, ColorCode::White);
            UseResult::Cancelled
        },
        Some(item) => {
            let result = match item {
                Item::Heal => cast_heal(game, objects),
                Item::Lightning => cast_lightning(game, objects, fov),
                Item::Fireball => {
                    let t = match target {
                        TargetChoice::Tile { x, y } => Some((x, y)),
                        _ => None,
                    };
                    cast_fireball(t, game, objects)
                },
                Item::Confusion => {
                    let t = match target {
                        TargetChoice::Monster { id } => Some(id),
                        _ => None,
                    };
                    cast_confuse(t, game, objects)
                },
            };
            let ghost mid = game.log@;
            proof {
                if item == Item::Confusion {
                    let t_opt = match target {
                        TargetChoice::Monster { id } => Some(id),
                        _ => None::<usize>,
                    };
                    assert(confuse_cast_post(
                        old(objects)@,
                        objects@,
                        old(game).log@,
                        mid,
                        t_opt,
                        result,
                    ));
                }
            }
            match result {
                UseResult::UsedUp => {
                    // destroy after use
                    let _used = game.inventory.remove(inventory_id);
                    proof {
                        assert(use_outcome(
                            old(game).inventory@,
                            game.inventory@,
                            mid,
                            game.log@,
                            inventory_id as int,
                            UseResult::UsedUp,
                        ));
                    }
                    UseResult::UsedUp
                },
                UseResult::Cancelled => {
                    crate::log::message(&mut game.log, "Cancelled".to_owned(), ColorCode::White);
                    proof {
                        assert(use_outcome(
                            old(game).inventory@,
                            game.inventory@,
                            mid,
                            game.log@,
                            inventory_id as int,
                            UseResult::Cancelled,
                        ));
                    }
                    UseResult::Cancelled
                },
            }
        },
    }
}

} // verus!
