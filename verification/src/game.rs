//! The session record.
//!
//! One `Game` bundles everything a session owns besides the entity
//! collection: the tile grid, the bounded message log, and the player's
//! inventory.  Entities move between the world's collection and the
//! inventory, never belonging to both at once.

use vstd::prelude::*;

use crate::log::MessageLog;
use crate::map::GameMap;
use crate::object::Object;
use crate::INVENTORY_CAPACITY;

verus! {

/// How a player command resolved: whether it consumed the turn, or ended the
/// session.
#[derive(Clone, Copy, Debug, PartialEq, Eq, Structural)]
pub enum PlayerAction {
    TookTurn,
    DidntTakeTurn,
    Exit,
}

/// Whether an item use spent the item.
#[derive(Clone, Copy, Debug, PartialEq, Eq, Structural)]
pub enum UseResult {
    UsedUp,
    Cancelled,
}

/// The mutable session state shared by every component operation.
pub struct Game {
    pub map: GameMap,
    pub log: MessageLog,
    pub inventory: Vec<Object>,
}

impl Game {
    pub open spec fn wf(self) -> bool {
        &&& self.map.wf()
        &&& self.log.wf()
        &&& self.inventory@.len() <= INVENTORY_CAPACITY
        &&& forall|k: int|
            0 <= k < self.inventory@.len() ==> (#[trigger] self.inventory@[k]).components_wf()
    }
}

} // verus!
