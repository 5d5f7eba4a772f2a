//! The turn scheduler's command dispatch.
//!
//! Each cycle the front end reads exactly one input event, classifies it
//! into a `Command`, and hands it here.  A directional command while the
//! player lives resolves as movement or an attack and consumes the turn;
//! everything else leaves the turn unconsumed.  After a consumed turn with
//! the player still alive, the front end drives the AI phase and returns to
//! waiting for input; an `Exit` command ends the session.  Commands that
//! need further interaction — the inventory menus and targeting — stay with
//! the front end, which calls the item operations directly.

use vstd::prelude::*;

use crate::game::Game;
use crate::game::PlayerAction;
use crate::items::pick_item_up;
use crate::items::pick_item_up_post;
use crate::object::Object;
use crate::world::move_or_attack_post;
use crate::world::objects_wf;
use crate::world::obj_wf;
use crate::world::player_move_or_attack;
use crate::INVENTORY_CAPACITY;
use crate::PLAYER;

verus! {

/// One classified input event, as far as the engine is concerned.
#[derive(Clone, Copy, Debug, PartialEq, Eq, Structural)]
pub enum Command {
    /// End the session.
    Exit,
    /// Step or attack one tile in this direction.
    Move { dx: i32, dy: i32 },
    /// Pick up an item under the player.
    PickUp,
    /// Anything that the engine has no say in (an unbound key, a toggle
    /// handled by the front end).
    Other,
}

/// Entity `k` bears an item component and stands on `(x, y)`.
pub open spec fn item_at(objs: Seq<Object>, k: int, x: int, y: int) -> bool {
    0 <= k < objs.len() && objs[k].item is Some && objs[k].x == x && objs[k].y == y
}

/// Resolves one classified player command against the world, reporting
/// whether it consumed the turn.  While the player is dead only `Exit` does
/// anything.  A successful pickup consumes the turn; a pickup that finds
/// nothing underfoot or meets a full inventory does not.
pub fn apply_command(cmd: Command, game: &mut Game, objects: &mut Vec<Object>) -> (action:
    PlayerAction)
    requires
        old(objects)@.len() >= 1,
        old(game).wf(),
        objects_wf(old(objects)@, old(game).map),
        cmd matches Command::Move { dx, dy } ==> -1 <= dx <= 1 && -1 <= dy <= 1 && !(dx == 0 && dy
            == 0),
    ensures
        final(game).map == old(game).map,
        final(game).wf(),
        objects_wf(final(objects)@, final(game).map),
        cmd == Command::Exit ==> action == PlayerAction::Exit && final(objects)@ == old(objects)@
            && final(game).inventory == old(game).inventory && final(game).log == old(game).log,
        cmd matches Command::Move { dx, dy } ==> (if old(objects)@[PLAYER as int].alive {
            &&& action == PlayerAction::TookTurn
            &&& final(game).inventory == old(game).inventory
            &&& move_or_attack_post(
                old(game).map,
                old(objects)@,
                final(objects)@,
                old(game).log@,
                final(game).log@,
                dx as int,
                dy as int,
            )
        } else {
            &&& action == PlayerAction::DidntTakeTurn
            &&& final(objects)@ == old(objects)@
            &&& final(game).inventory == old(game).inventory
            &&& final(game).log == old(game).log
        }),
        cmd == Command::PickUp ==> ({
            let px = old(objects)@[PLAYER as int].x as int;
            let py = old(objects)@[PLAYER as int].y as int;
            if old(objects)@[PLAYER as int].alive && (exists|k: int|
                item_at(old(objects)@, k, px, py)) {
                &&& action == (if old(game).inventory@.len() < INVENTORY_CAPACITY {
                    PlayerAction::TookTurn
                } else {
                    PlayerAction::DidntTakeTurn
                })
                &&& exists|t: int|
                    #![auto]
                    {
                        &&& item_at(old(objects)@, t, px, py)
                        &&& forall|j: int| 0 <= j < t ==> !item_at(old(objects)@, j, px, py)
                        &&& pick_item_up_post(
                            old(objects)@,
                            final(objects)@,
                            old(game).inventory@,
                            final(game).inventory@,
                            old(game).log@,
                            final(game).log@,
                            t,
                        )
                    }
            } else {
                &&& action == PlayerAction::DidntTakeTurn
                &&& final(objects)@ == old(objects)@
                &&& final(game).inventory == old(game).inventory
                &&& final(game).log == old(game).log
            }
        }),
        cmd == Command::Other ==> action == PlayerAction::DidntTakeTurn && final(objects)@ == old(
            objects,
        )@ && final(game).inventory == old(game).inventory && final(game).log == old(game).log,
{
    match cmd {
        Command::Exit => PlayerAction::Exit,
        Command::Move { dx, dy } => {
            if objects[PLAYER].alive {
                proof {
                    assert(obj_wf(objects@[PLAYER as int], game.map));
                }
                player_move_or_attack(dx, dy, game, objects);
                PlayerAction::TookTurn
            } else {
                PlayerAction::DidntTakeTurn
            }
        },
        Command::PickUp => {
            if objects[PLAYER].alive {
                let px = objects[PLAYER].x;
                let py = objects[PLAYER].y;
                // find an item entity under the player
                let mut item_id: Option<usize> = None;
                let mut k: usize = 0;
                while k < objects.len()
                    invariant
                        0 <= k <= objects@.len(),
                        item_id matches Some(t) ==> t < k && item_at(
                            objects@,
                            t as int,
                            px as int,
                            py as int,
                        ) && (forall|j: int|
                            0 <= j < t ==> !item_at(objects@, j, px as int, py as int)),
                        item_id is None ==> forall|j: int|
                            0 <= j < k ==> !item_at(objects@, j, px as int, py as int),
                    decreases objects@.len() - k,
                {
                    let o = &objects[k];
                    if item_id.is_none() && o.item.is_some() && o.x == px && o.y == py {
                        item_id = Some(k);
                    }
                    k = k + 1;
                }
                if let Some(t) = item_id {
                    let had_room = game.inventory.len() < INVENTORY_CAPACITY;
                    pick_item_up(t, objects, game);
                    if had_room {
                        // a successful transfer consumes the turn
                        return PlayerAction::TookTurn;
                    }
                }
            }
            PlayerAction::DidntTakeTurn
        },
        Command::Other => PlayerAction::DidntTakeTurn,
    }
}

} // verus!
