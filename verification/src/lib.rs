//! A turn-based dungeon simulation engine.
//!
//! The crate generates a randomized level, keeps a population of interacting
//! entities (the player, monsters, items), and resolves one discrete turn per
//! player command into deterministic world mutations: movement, combat, AI
//! reactions and item effects.  Rendering, raw input and field-of-view
//! computation are external collaborators: the engine only consumes a
//! visibility grid and emits world state for a front end to draw.

#![verifier::loop_isolation(false)]

use vstd::prelude::*;

pub mod ai;
pub mod color;
pub mod fov;
pub mod game;
pub mod geometry;
pub mod items;
pub mod log;
pub mod map;
pub mod mapgen;
pub mod object;
pub mod rng;
pub mod scheduler;
pub mod text;
pub mod world;

verus! {

/// Width of the tile grid, in tiles.
pub const MAP_WIDTH: i32 = 80;

/// Height of the tile grid, in tiles.
pub const MAP_HEIGHT: i32 = 43;

/// Largest width or height a generated room may have.
pub const ROOM_MAX_SIZE: i32 = 10;

/// Smallest width or height a generated room may have.
pub const ROOM_MIN_SIZE: i32 = 6;

/// Number of room candidates the generator draws for one level.
pub const MAX_ROOMS: i32 = 30;

/// Largest number of monsters spawned into one room.
pub const MAX_ROOM_MONSTERS: i32 = 3;

/// Largest number of items spawned into one room.
pub const MAX_ROOM_ITEMS: i32 = 2;

/// Index of the player in the entity collection.
pub const PLAYER: usize = 0;

/// Bound on the message log: one line fewer than the message panel is tall.
pub const LOG_CAPACITY: usize = 6;

/// How many entries the inventory can hold.
pub const INVENTORY_CAPACITY: usize = 26;

/// Hit points restored by a healing potion.
pub const HEAL_AMOUNT: i32 = 4;

/// Damage dealt by a lightning bolt scroll.
pub const LIGHTNING_DAMAGE: i32 = 5;

/// Reach of a lightning bolt scroll, in tiles.
pub const LIGHTNING_RANGE: i32 = 5;

/// Reach of a confusion scroll, in tiles.
pub const CONFUSE_RANGE: i32 = 7;

/// Turns a freshly confused monster spends wandering.
pub const CONFUSE_NUM_TURNS: i32 = 4;

/// Blast radius of a fireball, in tiles.
pub const FIREBALL_RADIUS: i32 = 3;

/// Damage dealt by a fireball to everything in its blast.
pub const FIREBALL_DAMAGE: i32 = 5;

/// Bound on combat statistics (hit points, power, defense), generous enough
/// for any play session while keeping every damage computation inside `i32`.
pub const STAT_LIMIT: i32 = 1000000;

} // verus!
