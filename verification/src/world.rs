//! Movement and world queries on the entity collection.
//!
//! Entities are addressed by their stable index into one shared collection;
//! index `PLAYER` is reserved for the player.  A move succeeds only onto an
//! unblocked tile free of blocking entities, and otherwise is a silent
//! no-op.  Walking into a fighter resolves as an attack on it instead.

use vstd::prelude::*;

use crate::fov::FovData;
use crate::game::Game;
use crate::map::GameMap;
use crate::object::attack_post;
use crate::object::Object;
use crate::PLAYER;

verus! {

/// The entity sits on the grid, its statistics are well-formed, and any AI
/// state it carries is too.
pub open spec fn obj_wf(o: Object, map: GameMap) -> bool {
    &&& 0 <= o.x < map.width
    &&& 0 <= o.y < map.height
    &&& o.components_wf()
}

/// Every entity of the collection is well-formed for this grid.
pub open spec fn objects_wf(objs: Seq<Object>, map: GameMap) -> bool {
    forall|k: int| 0 <= k < objs.len() ==> obj_wf(#[trigger] objs[k], map)
}

/// The tile is solid rock, or some blocking entity stands on it.
pub open spec fn spec_blocked(map: GameMap, objs: Seq<Object>, x: int, y: int) -> bool {
    map.tile_at(x, y).blocked || exists|k: int|
        0 <= k < objs.len() && (#[trigger] objs[k]).blocks && objs[k].x == x && objs[k].y == y
}

/// Entity `k` bears a fighter component and stands on `(x, y)`.
pub open spec fn fighter_at(objs: Seq<Object>, k: int, x: int, y: int) -> bool {
    0 <= k < objs.len() && objs[k].fighter is Some && objs[k].x == x && objs[k].y == y
}

/// Whether anything forbids standing on the tile `(x, y)`.
pub fn is_blocked(x: i32, y: i32, map: &GameMap, objects: &Vec<Object>) -> (b: bool)
    requires
        map.wf(),
        map.in_bounds(x as int, y as int),
    ensures
        b == spec_blocked(*map, objects@, x as int, y as int),
{
    // first test the map tile
    if map.get(x, y).blocked {
        return true;
    }
    // now check for any blocking objects
    let mut k: usize = 0;
    while k < objects.len()
        invariant
            0 <= k <= objects@.len(),
            forall|i: int|
                0 <= i < k ==> !((#[trigger] objects@[i]).blocks && objects@[i].x == x as int
                    && objects@[i].y == y as int),
        decreases objects@.len() - k,
    {
        let o = &objects[k];
        if o.blocks && o.x == x && o.y == y {
            return true;
        }
        k = k + 1;
    }
    false
}

/// Everything one attempted move leaves behind: onto a free in-bounds tile
/// the entity steps; anywhere else nothing happens at all.
pub open spec fn move_by_post(
    map: GameMap,
    objs0: Seq<Object>,
    objs1: Seq<Object>,
    id: int,
    dx: int,
    dy: int,
) -> bool {
    let nx = objs0[id].x + dx;
    let ny = objs0[id].y + dy;
    if map.in_bounds(nx, ny) && !spec_blocked(map, objs0, nx, ny) {
        objs1 == objs0.update(id, Object { x: nx as i32, y: ny as i32, ..objs0[id] })
    } else {
        objs1 == objs0
    }
}

/// Moves an entity by the given amount when the target tile is free, and
/// otherwise silently leaves everything unchanged.  A target beyond the
/// grid's edge counts as blocked; in play the edge is solid rock anyway.
pub fn move_by(id: usize, dx: i32, dy: i32, game: &Game, objects: &mut Vec<Object>)
    requires
        id < old(objects)@.len(),
        game.map.wf(),
        objects_wf(old(objects)@, game.map),
        i32::MIN <= old(objects)@[id as int].x + dx <= i32::MAX,
        i32::MIN <= old(objects)@[id as int].y + dy <= i32::MAX,
    ensures
        move_by_post(game.map, old(objects)@, final(objects)@, id as int, dx as int, dy as int),
        objects_wf(final(objects)@, game.map),
        final(objects)@.len() == old(objects)@.len(),
{
    let x = objects[id].x;
    let y = objects[id].y;
    let nx = x + dx;
    let ny = y + dy;
    if 0 <= nx && nx < game.map.width && 0 <= ny && ny < game.map.height {
        if !is_blocked(nx, ny, &game.map, objects) {
            let o = &mut objects[id];
            o.set_pos(nx, ny);
        }
    }
}

/// The unit step a normalized-and-rounded approach takes along one axis:
/// the offset `delta` is divided by the distance and rounded to the nearest
/// integer, which in exact arithmetic compares three times its square
/// against the other axis' square.
pub open spec fn step_toward(delta: int, other: int) -> int {
    if 3 * delta * delta >= other * other {
        if delta > 0 {
            1
        } else if delta < 0 {
            -1
        } else {
            0
        }
    } else {
        0
    }
}

/// Steps an entity one tile toward a target: the offset vector is normalized
/// to unit length and rounded per axis, so movement stays grid-aligned.
pub fn move_towards(
    id: usize,
    target_x: i32,
    target_y: i32,
    game: &Game,
    objects: &mut Vec<Object>,
)
    requires
        id < old(objects)@.len(),
        game.map.wf(),
        objects_wf(old(objects)@, game.map),
        -1000 <= target_x <= 1000,
        -1000 <= target_y <= 1000,
    ensures
        move_by_post(
            game.map,
            old(objects)@,
            final(objects)@,
            id as int,
            step_toward(
                target_x - old(objects)@[id as int].x,
                target_y - old(objects)@[id as int].y,
            ),
            step_toward(
                target_y - old(objects)@[id as int].y,
                target_x - old(objects)@[id as int].x,
            ),
        ),
        objects_wf(final(objects)@, game.map),
        final(objects)@.len() == old(objects)@.len(),
{
    // vector from this object to the target
    proof {
        assert(obj_wf(objects@[id as int], game.map));
    }
    let dx: i64 = (target_x as i64) - (objects[id].x as i64);
    let dy: i64 = (target_y as i64) - (objects[id].y as i64);
    proof {
        assert(0 <= dx * dx <= 2000 * 2000) by (nonlinear_arith)
            requires
                -2000 <= dx <= 2000,
        ;
        assert(0 <= dy * dy <= 2000 * 2000) by (nonlinear_arith)
            requires
                -2000 <= dy <= 2000,
        ;
    }
    let dx2: i64 = dx * dx;
    let dy2: i64 = dy * dy;
    // normalize it to length 1 (preserving direction), then round per axis so
    // the movement is restricted to the map grid
    let sx: i32 = if 3 * dx2 >= dy2 {
        if dx > 0 {
            1
        } else if dx < 0 {
            -1
        } else {
            0
        }
    } else {
        0
    };
    let sy: i32 = if 3 * dy2 >= dx2 {
        if dy > 0 {
            1
        } else if dy < 0 {
            -1
        } else {
            0
        }
    } else {
        0
    };
    proof {
        let dxi = dx as int;
        let dyi = dy as int;
        assert(3 * dxi * dxi == 3 * (dxi * dxi)) by (nonlinear_arith);
        assert(3 * dyi * dyi == 3 * (dyi * dyi)) by (nonlinear_arith);
        assert(sx == step_toward(dxi, dyi));
        assert(sy == step_toward(dyi, dxi));
    }
    move_by(id, sx, sy, game, objects);
}

/// Everything the player's directional command leaves behind: the first
/// fighter in collection order on the target tile, if any, is attacked and
/// nothing moves; otherwise the player steps onto the tile when it is free.
pub open spec fn move_or_attack_post(
    map: GameMap,
    objs0: Seq<Object>,
    objs1: Seq<Object>,
    log0: Seq<crate::log::Message>,
    log1: Seq<crate::log::Message>,
    dx: int,
    dy: int,
) -> bool {
    let nx = objs0[PLAYER as int].x + dx;
    let ny = objs0[PLAYER as int].y + dy;
    if exists|k: int| fighter_at(objs0, k, nx, ny) {
        exists|t: int|
            #![auto]
            {
                &&& fighter_at(objs0, t, nx, ny)
                &&& forall|j: int| 0 <= j < t ==> !fighter_at(objs0, j, nx, ny)
                &&& objs1 == objs0.update(t, objs1[t])
                &&& attack_post(objs0[PLAYER as int], objs0[t], objs1[t], log0, log1)
            }
    } else {
        &&& move_by_post(map, objs0, objs1, PLAYER as int, dx, dy)
        &&& log1 == log0
    }
}

/// The views of a sequence of strings.
pub open spec fn views_of(ss: Seq<String>) -> Seq<Seq<char>> {
    ss.map_values(|s: String| s@)
}

/// The names of the first `n` entities that stand on the tile `(x, y)`
/// while it is visible, in collection order.
pub open spec fn names_prefix(objs: Seq<Object>, fov: FovData, x: int, y: int, n: int) -> Seq<
    Seq<char>,
>
    decreases n,
{
    if n <= 0 {
        Seq::empty()
    } else {
        names_prefix(objs, fov, x, y, n - 1) + (if objs[n - 1].x == x && objs[n - 1].y == y
            && fov.vis_at(x, y) {
            seq![objs[n - 1].name@]
        } else {
            Seq::empty()
        })
    }
}

/// The names of every entity standing on a visible tile, in collection
/// order; what the renderer prints for the tile under the cursor.
pub fn names_at(x: i32, y: i32, objects: &Vec<Object>, fov: &FovData) -> (r: Vec<String>)
    requires
        fov.wf(),
    ensures
        views_of(r@) == names_prefix(objects@, *fov, x as int, y as int, objects@.len() as int),
{
    let mut names: Vec<String> = Vec::new();
    let mut k: usize = 0;
    while k < objects.len()
        invariant
            0 <= k <= objects@.len(),
            views_of(names@) == names_prefix(objects@, *fov, x as int, y as int, k as int),
        decreases objects@.len() - k,
    {
        let o = &objects[k];
        let ghost names_pre = names@;
        if o.x == x && o.y == y && fov.is_visible(x, y) {
            names.push(o.name.clone());
        }
        proof {
            assert(views_of(names@) =~= names_prefix(
                objects@,
                *fov,
                x as int,
                y as int,
                k + 1,
            ));
        }
        k = k + 1;
    }
    names
}

/// Resolves the player's directional command: a fighter on the target tile
/// is attacked (the first such entity in collection order), an empty tile is
/// stepped onto when free.
pub fn player_move_or_attack(dx: i32, dy: i32, game: &mut Game, objects: &mut Vec<Object>)
    requires
        old(objects)@.len() >= 1,
        old(game).map.wf(),
        old(game).log.wf(),
        objects_wf(old(objects)@, old(game).map),
        !(dx == 0 && dy == 0),
        i32::MIN <= old(objects)@[PLAYER as int].x + dx <= i32::MAX,
        i32::MIN <= old(objects)@[PLAYER as int].y + dy <= i32::MAX,
    ensures
        final(game).map == old(game).map,
        final(game).inventory == old(game).inventory,
        final(game).log.wf(),
        objects_wf(final(objects)@, final(game).map),
        final(objects)@.len() == old(objects)@.len(),
        move_or_attack_post(
            old(game).map,
            old(objects)@,
            final(objects)@,
            old(game).log@,
            final(game).log@,
            dx as int,
            dy as int,
        ),
{
    // the tile the player is moving to or attacking
    let x = objects[PLAYER].x + dx;
    let y = objects[PLAYER].y + dy;

    // try to find an attackable object there
    let mut target_id: Option<usize> = None;
    let mut k: usize = 0;
    while k < objects.len()
        invariant
            0 <= k <= objects@.len(),
            target_id matches Some(t) ==> t < k && fighter_at(objects@, t as int, x as int, y as int)
                && (forall|j: int| 0 <= j < t ==> !fighter_at(objects@, j, x as int, y as int)),
            target_id is None ==> forall|j: int|
                0 <= j < k ==> !fighter_at(objects@, j, x as int, y as int),
        decreases objects@.len() - k,
    {
        let o = &objects[k];
        if target_id.is_none() && o.fighter.is_some() && o.x == x && o.y == y {
            target_id = Some(k);
        }
        k = k + 1;
    }

    // attack if there is a target; otherwise move
    match target_id {
        Some(t) => {
            let player = objects[PLAYER].clone();
            let target = &mut objects[t];
            player.attack(target, game);
        },
        None => {
            move_by(PLAYER, dx, dy, game, objects);
        },
    }
}

} // verus!
