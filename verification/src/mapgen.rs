//! The dungeon generator.
//!
//! A level is built by drawing up to `max_rooms` room candidates: a candidate
//! that overlaps an accepted room is rejected silently, an accepted one is
//! carved out of the rock, populated with monsters and items from weighted
//! tables, and connected to the previous room's center by an L-shaped
//! corridor whose bend order is a coin flip.  The first accepted room's
//! center becomes the player's spawn position.  A tile ends up unblocked
//! exactly when some accepted room's interior or some corridor covers it.

use vstd::prelude::*;

use crate::color::ColorCode;
use crate::geometry::Rect;
use crate::map::GameMap;
use crate::map::Tile;
use crate::object::Ai;
use crate::object::DeathCallback;
use crate::object::Fighter;
use crate::object::Item;
use crate::object::Object;
use crate::rng::RandomSource;
use crate::world::is_blocked;
use crate::world::objects_wf;
use crate::world::obj_wf;
use crate::world::spec_blocked;
use crate::MAX_ROOM_ITEMS;
use crate::MAX_ROOM_MONSTERS;
use crate::PLAYER;

verus! {

/// One axis-aligned carved corridor segment.
#[derive(Clone, Copy, Debug, PartialEq, Eq, Structural)]
pub enum Tunnel {
    /// A horizontal run of floor tiles between two columns, ends included.
    H { x1: i32, x2: i32, y: i32 },
    /// A vertical run of floor tiles between two rows, ends included.
    V { y1: i32, y2: i32, x: i32 },
}

/// A generated level: its tile grid together with the accepted rooms and the
/// corridors that were carved, which between them account for every floor
/// tile.
pub struct Level {
    pub map: GameMap,
    pub rooms: Vec<Rect>,
    pub tunnels: Vec<Tunnel>,
}

/// The tile `(x, y)` lies on this corridor segment.
pub open spec fn on_tunnel(t: Tunnel, x: int, y: int) -> bool {
    match t {
        Tunnel::H { x1, x2, y: ty } => y == ty && (if x1 <= x2 {
            x1 <= x <= x2
        } else {
            x2 <= x <= x1
        }),
        Tunnel::V { y1, y2, x: tx } => x == tx && (if y1 <= y2 {
            y1 <= y <= y2
        } else {
            y2 <= y <= y1
        }),
    }
}

/// Some accepted room's interior or some corridor covers the tile.
pub open spec fn covered(rooms: Seq<Rect>, tunnels: Seq<Tunnel>, x: int, y: int) -> bool {
    (exists|i: int| 0 <= i < rooms.len() && (#[trigger] rooms[i]).interior(x, y)) || (exists|j: int|
        0 <= j < tunnels.len() && on_tunnel(#[trigger] tunnels[j], x, y))
}

/// Every tile interior to an accepted room or on a corridor is floor, and
/// every other tile is still solid rock.
pub open spec fn carved_map(map: GameMap, rooms: Seq<Rect>, tunnels: Seq<Tunnel>) -> bool {
    forall|x: int, y: int|
        map.in_bounds(x, y) ==> #[trigger] map.tile_at(x, y) == (if covered(rooms, tunnels, x, y) {
            Tile::empty_spec()
        } else {
            Tile::wall_spec()
        })
}

/// The two segments form an L-shaped corridor between the two room centers,
/// bending either horizontally first or vertically first.
pub open spec fn connects(prev: Rect, new: Rect, t1: Tunnel, t2: Tunnel) -> bool {
    let px = prev.center_x() as i32;
    let py = prev.center_y() as i32;
    let nx = new.center_x() as i32;
    let ny = new.center_y() as i32;
    ||| (t1 == (Tunnel::H { x1: px, x2: nx, y: py }) && t2 == (Tunnel::V {
        y1: py,
        y2: ny,
        x: nx,
    }))
    ||| (t1 == (Tunnel::V { y1: py, y2: ny, x: px }) && t2 == (Tunnel::H {
        x1: px,
        x2: nx,
        y: ny,
    }))
}

/// Each accepted room after the first is connected to its predecessor's
/// center by the corresponding pair of corridor segments.
pub open spec fn tunnels_connect(rooms: Seq<Rect>, tunnels: Seq<Tunnel>) -> bool {
    &&& tunnels.len() == (if rooms.len() == 0 {
        0int
    } else {
        2 * (rooms.len() - 1)
    })
    &&& forall|i: int|
        1 <= i < rooms.len() ==> connects(
            #[trigger] rooms[i - 1],
            rooms[i],
            tunnels[2 * (i - 1)],
            tunnels[2 * (i - 1) + 1],
        )
}

/// Extending the room list extends cover by exactly the new room's interior.
proof fn lemma_covered_push_room(rooms: Seq<Rect>, tunnels: Seq<Tunnel>, rm: Rect, x: int, y: int)
    ensures
        covered(rooms.push(rm), tunnels, x, y) <==> (covered(rooms, tunnels, x, y) || rm.interior(
            x,
            y,
        )),
{
    if covered(rooms.push(rm), tunnels, x, y) {
        if exists|i: int|
            0 <= i < rooms.push(rm).len() && (#[trigger] rooms.push(rm)[i]).interior(x, y) {
            let i = choose|i: int|
                0 <= i < rooms.push(rm).len() && (#[trigger] rooms.push(rm)[i]).interior(x, y);
            if i < rooms.len() {
                assert(rooms[i].interior(x, y));
            } else {
                assert(rm.interior(x, y));
            }
        }
    }
    if covered(rooms, tunnels, x, y) {
        if exists|i: int| 0 <= i < rooms.len() && (#[trigger] rooms[i]).interior(x, y) {
            let i = choose|i: int| 0 <= i < rooms.len() && (#[trigger] rooms[i]).interior(x, y);
            assert(rooms.push(rm)[i].interior(x, y));
        }
    }
    if rm.interior(x, y) {
        assert(rooms.push(rm)[rooms.len() as int].interior(x, y));
    }
}

/// Extending the corridor list extends cover by exactly the new segment.
proof fn lemma_covered_push_tunnel(
    rooms: Seq<Rect>,
    tunnels: Seq<Tunnel>,
    t: Tunnel,
    x: int,
    y: int,
)
    ensures
        covered(rooms, tunnels.push(t), x, y) <==> (covered(rooms, tunnels, x, y) || on_tunnel(
            t,
            x,
            y,
        )),
{
    if covered(rooms, tunnels.push(t), x, y) {
        if exists|j: int|
            0 <= j < tunnels.push(t).len() && on_tunnel(#[trigger] tunnels.push(t)[j], x, y) {
            let j = choose|j: int|
                0 <= j < tunnels.push(t).len() && on_tunnel(#[trigger] tunnels.push(t)[j], x, y);
            if j < tunnels.len() {
                assert(on_tunnel(tunnels[j], x, y));
            } else {
                assert(on_tunnel(t, x, y));
            }
        }
    }
    if covered(rooms, tunnels, x, y) {
        if exists|j: int| 0 <= j < tunnels.len() && on_tunnel(#[trigger] tunnels[j], x, y) {
            let j = choose|j: int| 0 <= j < tunnels.len() && on_tunnel(#[trigger] tunnels[j], x, y);
            assert(on_tunnel(tunnels.push(t)[j], x, y));
        }
    }
    if on_tunnel(t, x, y) {
        assert(on_tunnel(tunnels.push(t)[tunnels.len() as int], x, y));
    }
}

/// A freshly spawned orc, four hit points of melee nuisance.
pub open spec fn is_orc(o: Object) -> bool {
    &&& o.name@ == "orc"@
    &&& o.glyph == 'o'
    &&& o.color == ColorCode::DesaturatedGreen
    &&& o.blocks
    &&& o.alive
    &&& o.fighter == Some(
        Fighter { max_hp: 4, hp: 4, defense: 0, power: 2, on_death: DeathCallback::Monster },
    )
    &&& o.ai == Some(Ai::Basic)
    &&& o.item is None
}

/// A freshly spawned troll, a little tougher than an orc.
pub open spec fn is_troll(o: Object) -> bool {
    &&& o.name@ == "troll"@
    &&& o.glyph == 'T'
    &&& o.color == ColorCode::DarkerGreen
    &&& o.blocks
    &&& o.alive
    &&& o.fighter == Some(
        Fighter { max_hp: 5, hp: 5, defense: 0, power: 2, on_death: DeathCallback::Monster },
    )
    &&& o.ai == Some(Ai::Basic)
    &&& o.item is None
}

/// A freshly spawned item entity: inert scenery carrying an item component.
pub open spec fn is_spawned_item(o: Object, name: Seq<char>, glyph: char, color: ColorCode, kind: Item) -> bool {
    &&& o.name@ == name
    &&& o.glyph == glyph
    &&& o.color == color
    &&& !o.blocks
    &&& !o.alive
    &&& o.fighter is None
    &&& o.ai is None
    &&& o.item == Some(kind)
}

/// A monster from the weighted spawn table.
pub open spec fn spawned_monster(o: Object) -> bool {
    is_orc(o) || is_troll(o)
}

/// An item entity from the weighted spawn table.
pub open spec fn spawned_item_form(o: Object) -> bool {
    ||| is_spawned_item(o, "healing potion"@, '!', ColorCode::Violet, Item::Heal)
    ||| is_spawned_item(o, "scroll of lightning"@, '#', ColorCode::LightYellow, Item::Lightning)
    ||| is_spawned_item(o, "scroll of fireball"@, 'F', ColorCode::LightYellow, Item::Fireball)
    ||| is_spawned_item(o, "scroll of confusion"@, 'C', ColorCode::LightOrange, Item::Confusion)
}

/// Anything the generator may drop into a room.
pub open spec fn spawned(o: Object) -> bool {
    spawned_monster(o) || spawned_item_form(o)
}

/// The run appended to a populated collection splits at `mid`: at most
/// `MAX_ROOM_MONSTERS` monsters first, then at most `MAX_ROOM_ITEMS` items.
pub open spec fn split_spawned(objs0: Seq<Object>, objs1: Seq<Object>, mid: int) -> bool {
    &&& objs0.len() <= mid <= objs0.len() + MAX_ROOM_MONSTERS
    &&& mid <= objs1.len() <= mid + MAX_ROOM_ITEMS
    &&& forall|j: int| objs0.len() <= j < mid ==> spawned_monster(#[trigger] objs1[j])
    &&& forall|j: int| mid <= j < objs1.len() ==> spawned_item_form(#[trigger] objs1[j])
}

/// Entity `j` was placed legally into this room: it is one of the spawn
/// forms, it stands on an unblocked interior tile, and no blocking entity
/// earlier in the collection already stood there when it was placed.
pub open spec fn placed_ok(objs: Seq<Object>, j: int, room: Rect, map: GameMap) -> bool {
    &&& spawned(objs[j])
    &&& room.interior(objs[j].x as int, objs[j].y as int)
    &&& !map.tile_at(objs[j].x as int, objs[j].y as int).blocked
    &&& forall|k: int|
        0 <= k < j && (#[trigger] objs[k]).blocks ==> !(objs[k].x == objs[j].x && objs[k].y
            == objs[j].y)
}

/// Appending a legally drawn spawn onto a collection keeps every placement
/// legal: earlier placements are untouched, and the new one stands spawned
/// on an unblocked interior tile that no blocking entity occupied.
proof fn lemma_placement_extends(
    pre: Seq<Object>,
    post: Seq<Object>,
    len0: int,
    room: Rect,
    map: GameMap,
    x: int,
    y: int,
)
    requires
        0 <= len0 <= pre.len(),
        post.len() == pre.len() + 1,
        post == pre.push(post.last()),
        forall|j: int| len0 <= j < pre.len() ==> placed_ok(pre, j, room, map),
        spawned(post.last()),
        post.last().x == x,
        post.last().y == y,
        room.interior(x, y),
        !spec_blocked(map, pre, x, y),
    ensures
        forall|j: int| len0 <= j < post.len() ==> placed_ok(post, j, room, map),
{
    assert forall|j: int| len0 <= j < post.len() implies placed_ok(post, j, room, map) by {
        if j < pre.len() {
            assert(placed_ok(pre, j, room, map));
            assert(post[j] == pre[j]);
            assert forall|k: int|
                0 <= k < j && (#[trigger] post[k]).blocks implies !(post[k].x == post[j].x
                && post[k].y == post[j].y) by {
                assert(post[k] == pre[k]);
            }
        } else {
            assert(post[j] == post.last());
            assert(!map.tile_at(x, y).blocked);
            assert forall|k: int|
                0 <= k < j && (#[trigger] post[k]).blocks implies !(post[k].x == post[j].x
                && post[k].y == post[j].y) by {
                assert(post[k] == pre[k]);
                if post[k].x == x && post[k].y == y {
                    assert(spec_blocked(map, pre, x, y));
                }
            }
        }
    }
}

/// Populates a carved room with a random number of monsters and items from
/// the weighted spawn tables, dropping any draw that lands on a tile already
/// blocked by terrain or by a blocking entity.
pub fn place_objects(
    room: Rect,
    map: &GameMap,
    objects: &mut Vec<Object>,
    rng: &mut RandomSource,
)
    requires
        map.wf(),
        room.in_grid(map.width as int, map.height as int),
        objects_wf(old(objects)@, *map),
    ensures
        objects_wf(final(objects)@, *map),
        old(objects)@.len() <= final(objects)@.len() <= old(objects)@.len() + MAX_ROOM_MONSTERS
            + MAX_ROOM_ITEMS,
        forall|k: int| 0 <= k < old(objects)@.len() ==> final(objects)@[k] == old(objects)@[k],
        forall|j: int|
            old(objects)@.len() <= j < final(objects)@.len() ==> placed_ok(
                final(objects)@,
                j,
                room,
                *map,
            ),
        // the appended run is monsters first, items after, each within its
        // own per-room budget
        exists|mid: int| #[trigger] split_spawned(old(objects)@, final(objects)@, mid),
{
    let ghost len0 = objects@.len();
    // choose a random number of monsters
    let num_monsters = rng.range(0, MAX_ROOM_MONSTERS + 1);
    let mut m: i32 = 0;
    while m < num_monsters
        invariant
            0 <= m <= num_monsters <= MAX_ROOM_MONSTERS,
            objects_wf(objects@, *map),
            len0 <= objects@.len() <= len0 + m,
            forall|k: int| 0 <= k < len0 ==> objects@[k] == old(objects)@[k],
            forall|j: int| len0 <= j < objects@.len() ==> placed_ok(objects@, j, room, *map),
            forall|j: int|
                len0 <= j < objects@.len() ==> spawned_monster(#[trigger] objects@[j]),
        decreases num_monsters - m,
    {
        // choose a random spot for this monster
        let x = rng.range(room.x1 + 1, room.x2);
        let y = rng.range(room.y1 + 1, room.y2);

        // only place it if the tile is not blocked
        if !is_blocked(x, y, map, objects) {
            let mut monster = if rng.range(0, 100) < 80 {
                // 80% chance of an orc
                let mut orc = Object::new(x, y, 'o', "orc", ColorCode::DesaturatedGreen, true);
                orc.fighter = Some(
                    Fighter { max_hp: 4, hp: 4, defense: 0, power: 2, on_death: DeathCallback::Monster },
                );
                orc.ai = Some(Ai::Basic);
                orc
            } else {
                let mut troll = Object::new(x, y, 'T', "troll", ColorCode::DarkerGreen, true);
                troll.fighter = Some(
                    Fighter { max_hp: 5, hp: 5, defense: 0, power: 2, on_death: DeathCallback::Monster },
                );
                troll.ai = Some(Ai::Basic);
                troll
            };
            monster.alive = true;
            let ghost pre = objects@;
            objects.push(monster);
            proof {
                lemma_placement_extends(pre, objects@, len0 as int, room, *map, x as int, y as int);
            }
        }
        m = m + 1;
    }

    // choose a random number of items
    let ghost mid_len = objects@.len() as int;
    let num_items = rng.range(0, MAX_ROOM_ITEMS + 1);
    let mut it: i32 = 0;
    while it < num_items
        invariant
            0 <= it <= num_items <= MAX_ROOM_ITEMS,
            objects_wf(objects@, *map),
            len0 <= mid_len <= len0 + MAX_ROOM_MONSTERS,
            mid_len <= objects@.len() <= mid_len + it,
            forall|k: int| 0 <= k < len0 ==> objects@[k] == old(objects)@[k],
            forall|j: int| len0 <= j < objects@.len() ==> placed_ok(objects@, j, room, *map),
            forall|j: int| len0 <= j < mid_len ==> spawned_monster(#[trigger] objects@[j]),
            forall|j: int|
                mid_len <= j < objects@.len() ==> spawned_item_form(#[trigger] objects@[j]),
        decreases num_items - it,
    {
        // choose a random spot for this item
        let x = rng.range(room.x1 + 1, room.x2);
        let y = rng.range(room.y1 + 1, room.y2);

        // only place it if the tile is not blocked
        if !is_blocked(x, y, map, objects) {
            let dice = rng.range(0, 100);
            let item = if dice < 40 {
                // healing potion (40% chance)
                let mut object = Object::new(x, y, '!', "healing potion", ColorCode::Violet, false);
                object.item = Some(Item::Heal);
                object
            } else if dice < 60 {
                // lightning bolt scroll (20% chance)
                let mut object = Object::new(
                    x,
                    y,
                    '#',
                    "scroll of lightning",
                    ColorCode::LightYellow,
                    false,
                );
                object.item = Some(Item::Lightning);
                object
            } else if dice < 80 {
                // fireball scroll (20% chance)
                let mut object = Object::new(
                    x,
                    y,
                    'F',
                    "scroll of fireball",
                    ColorCode::LightYellow,
                    false,
                );
                object.item = Some(Item::Fireball);
                object
            } else {
                // confusion scroll (20% chance)
                let mut object = Object::new(
                    x,
                    y,
                    'C',
                    "scroll of confusion",
                    ColorCode::LightOrange,
                    false,
                );
                object.item = Some(Item::Confusion);
                object
            };
            let ghost pre = objects@;
            objects.push(item);
            proof {
                lemma_placement_extends(pre, objects@, len0 as int, room, *map, x as int, y as int);
            }
        }
        it = it + 1;
    }
    proof {
        assert(split_spawned(old(objects)@, objects@, mid_len));
    }
}

/// Carves the interior of a room — everything strictly inside its bounding
/// edge — to floor tiles, leaving every other tile untouched.
pub fn create_room(room: Rect, map: &mut GameMap)
    requires
        old(map).wf(),
        0 <= room.x1 <= room.x2 <= old(map).width - 1,
        0 <= room.y1 <= room.y2 <= old(map).height - 1,
    ensures
        final(map).wf(),
        final(map).width == old(map).width,
        final(map).height == old(map).height,
        forall|i: int, j: int|
            old(map).in_bounds(i, j) ==> final(map).tile_at(i, j) == (if room.interior(i, j) {
                Tile::empty_spec()
            } else {
                old(map).tile_at(i, j)
            }),
{
    let mut x = room.x1 + 1;
    while x < room.x2
        invariant
            room.x1 + 1 <= x,
            x <= room.x2 || x == room.x1 + 1,
            map.wf(),
            map.width == old(map).width,
            map.height == old(map).height,
            forall|i: int, j: int|
                old(map).in_bounds(i, j) ==> map.tile_at(i, j) == (if (room.x1 < i < x && room.y1
                    < j < room.y2) {
                    Tile::empty_spec()
                } else {
                    old(map).tile_at(i, j)
                }),
        decreases room.x2 - x,
    {
        let mut y = room.y1 + 1;
        while y < room.y2
            invariant
                room.x1 + 1 <= x < room.x2,
                room.y1 + 1 <= y,
                y <= room.y2 || y == room.y1 + 1,
                map.wf(),
                map.width == old(map).width,
                map.height == old(map).height,
                forall|i: int, j: int|
                    old(map).in_bounds(i, j) ==> map.tile_at(i, j) == (if ((room.x1 < i < x
                        && room.y1 < j < room.y2) || (i == x && room.y1 < j < y)) {
                        Tile::empty_spec()
                    } else {
                        old(map).tile_at(i, j)
                    }),
            decreases room.y2 - y,
        {
            map.set(x, y, Tile::empty());
            y = y + 1;
        }
        x = x + 1;
    }
}

/// Entity `j`, added by the generator, is a legal spawn for this level: one
/// of the spawn forms, standing on an unblocked tile interior to some
/// accepted room, sharing its tile with no earlier blocking entity other
/// than possibly the player, whose spawn position is fixed only afterwards.
pub open spec fn added_ok(objs: Seq<Object>, j: int, rooms: Seq<Rect>, map: GameMap) -> bool {
    &&& spawned(objs[j])
    &&& exists|i: int|
        0 <= i < rooms.len() && (#[trigger] rooms[i]).interior(objs[j].x as int, objs[j].y as int)
    &&& !map.tile_at(objs[j].x as int, objs[j].y as int).blocked
    &&& forall|k: int|
        0 < k < j && (#[trigger] objs[k]).blocks ==> !(objs[k].x == objs[j].x && objs[k].y
            == objs[j].y)
}

/// Generates a level: up to `max_rooms` non-overlapping rooms carved out of
/// solid rock, populated with spawns, connected in order by L-shaped
/// corridors, with the player moved to the first room's center.
pub fn make_map(
    width: i32,
    height: i32,
    max_rooms: i32,
    room_min: i32,
    room_max: i32,
    objects: &mut Vec<Object>,
    rng: &mut RandomSource,
) -> (level: Level)
    requires
        4 <= width <= 1000,
        4 <= height <= 1000,
        2 <= room_min <= room_max,
        room_max <= width - 2,
        room_max <= height - 2,
        0 <= max_rooms,
        old(objects)@.len() >= 1,
        forall|k: int|
            0 <= k < old(objects)@.len() ==> 0 <= (#[trigger] old(objects)@[k]).x < width && 0
                <= old(objects)@[k].y < height && old(objects)@[k].components_wf(),
    ensures
        level.map.wf(),
        level.map.width == width,
        level.map.height == height,
        level.rooms@.len() <= max_rooms,
        // the first candidate faces no intersection test, so one draw is
        // enough to guarantee a room — and with it the player's spawn
        max_rooms >= 1 ==> level.rooms@.len() >= 1,
        forall|i: int|
            0 <= i < level.rooms@.len() ==> (#[trigger] level.rooms@[i]).in_grid(
                width as int,
                height as int,
            ),
        forall|i: int, j: int|
            #![trigger level.rooms@[i], level.rooms@[j]]
            0 <= i < j < level.rooms@.len() ==> !level.rooms@[i].spec_intersects(level.rooms@[j]),
        carved_map(level.map, level.rooms@, level.tunnels@),
        tunnels_connect(level.rooms@, level.tunnels@),
        final(objects)@.len() >= old(objects)@.len(),
        forall|k: int| 0 < k < old(objects)@.len() ==> final(objects)@[k] == old(objects)@[k],
        level.rooms@.len() > 0 ==> final(objects)@[0] == (Object {
            x: level.rooms@[0].center_x() as i32,
            y: level.rooms@[0].center_y() as i32,
            ..old(objects)@[0]
        }),
        level.rooms@.len() == 0 ==> final(objects)@ == old(objects)@,
        forall|j: int|
            old(objects)@.len() <= j < final(objects)@.len() ==> added_ok(
                final(objects)@,
                j,
                level.rooms@,
                level.map,
            ),
        objects_wf(final(objects)@, level.map),
{
    let mut map = GameMap::new_walls(width, height);
    let mut rooms: Vec<Rect> = Vec::new();
    let mut tunnels: Vec<Tunnel> = Vec::new();
    let ghost len0 = objects@.len();

    let mut r: i32 = 0;
    while r < max_rooms
        invariant
            0 <= r <= max_rooms,
            map.wf(),
            map.width == width,
            map.height == height,
            rooms@.len() <= r,
            r >= 1 ==> rooms@.len() >= 1,
            forall|i: int|
                0 <= i < rooms@.len() ==> (#[trigger] rooms@[i]).in_grid(
                    width as int,
                    height as int,
                ),
            forall|i: int, j: int|
                #![trigger rooms@[i], rooms@[j]]
                0 <= i < j < rooms@.len() ==> !rooms@[i].spec_intersects(rooms@[j]),
            carved_map(map, rooms@, tunnels@),
            tunnels_connect(rooms@, tunnels@),
            objects@.len() >= len0 >= 1,
            forall|k: int| 0 < k < len0 ==> objects@[k] == old(objects)@[k],
            rooms@.len() > 0 ==> objects@[0] == (Object {
                x: rooms@[0].center_x() as i32,
                y: rooms@[0].center_y() as i32,
                ..old(objects)@[0]
            }),
            rooms@.len() == 0 ==> objects@ == old(objects)@,
            forall|j: int| len0 <= j < objects@.len() ==> added_ok(objects@, j, rooms@, map),
            objects_wf(objects@, map),
        decreases max_rooms - r,
    {
        // random width and height
        let w = rng.range(room_min, room_max + 1);
        let h = rng.range(room_min, room_max + 1);
        // random position without leaving the boundary of the map
        let x = rng.range(0, width - w);
        let y = rng.range(0, height - h);

        let new_room = Rect::new(x, y, w, h);

        // run through the other rooms and see if they intersect with this one
        let mut failed = false;
        let mut ri: usize = 0;
        while ri < rooms.len()
            invariant
                0 <= ri <= rooms@.len(),
                failed <==> exists|i: int|
                    0 <= i < ri && new_room.spec_intersects(#[trigger] rooms@[i]),
            decreases rooms@.len() - ri,
        {
            if new_room.intersects_with(&rooms[ri]) {
                failed = true;
            }
            ri = ri + 1;
        }

        if !failed {
            // no intersections, so this room is valid
            let ghost map0 = map;
            let ghost rooms0 = rooms@;
            let ghost tunnels0 = tunnels@;
            let ghost objs0 = objects@;

            // "paint" it to the map's tiles
            create_room(new_room, &mut map);
            let ghost map1 = map;

            // add some content to this room, such as monsters
            place_objects(new_room, &map, objects, rng);

            // center coordinates of the new room
            let (new_x, new_y) = new_room.center();
            proof {
                new_room.lemma_center_in_interior();
            }

            let ghost objs1 = objects@;

            if rooms.len() == 0 {
                // this is the first room, where the player starts at
                let p = &mut objects[PLAYER];
                p.set_pos(new_x, new_y);
            } else {
                // connect it to the previous room with a tunnel
                let prev_room = rooms[rooms.len() - 1];
                let (prev_x, prev_y) = prev_room.center();
                proof {
                    prev_room.lemma_center_in_interior();
                }
                let ghost n = tunnels0.len() as int;

                // flip a coin for the bend order
                if rng.coin() {
                    // first move horizontally, then vertically
                    create_h_tunnel(prev_x, new_x, prev_y, &mut map);
                    create_v_tunnel(prev_y, new_y, new_x, &mut map);
                    tunnels.push(Tunnel::H { x1: prev_x, x2: new_x, y: prev_y });
                    tunnels.push(Tunnel::V { y1: prev_y, y2: new_y, x: new_x });
                } else {
                    // first move vertically, then horizontally
                    create_v_tunnel(prev_y, new_y, prev_x, &mut map);
                    create_h_tunnel(prev_x, new_x, new_y, &mut map);
                    tunnels.push(Tunnel::V { y1: prev_y, y2: new_y, x: prev_x });
                    tunnels.push(Tunnel::H { x1: prev_x, x2: new_x, y: new_y });
                }
                proof {
                    assert(tunnels@ == tunnels0.push(tunnels@[n]).push(tunnels@[n + 1]));
                    assert(connects(prev_room, new_room, tunnels@[n], tunnels@[n + 1]));
                    assert forall|i: int, j: int|
                        map0.in_bounds(i, j) implies map.tile_at(i, j) == (if (covered(
                        rooms0,
                        tunnels0,
                        i,
                        j,
                    ) || new_room.interior(i, j) || on_tunnel(tunnels@[n], i, j) || on_tunnel(
                        tunnels@[n + 1],
                        i,
                        j,
                    )) {
                        Tile::empty_spec()
                    } else {
                        Tile::wall_spec()
                    }) by {
                        assert(map0.tile_at(i, j) == (if covered(rooms0, tunnels0, i, j) {
                            Tile::empty_spec()
                        } else {
                            Tile::wall_spec()
                        }));
                    }
                }
            }

            // finally, append the new room to the list
            rooms.push(new_room);

            proof {
                assert(rooms@ == rooms0.push(new_room));
                // the grid is carved exactly where the accepted rooms and
                // corridors cover it
                assert forall|i: int, j: int|
                    map.in_bounds(i, j) implies #[trigger] map.tile_at(i, j) == (if covered(
                    rooms@,
                    tunnels@,
                    i,
                    j,
                ) {
                    Tile::empty_spec()
                } else {
                    Tile::wall_spec()
                }) by {
                    lemma_covered_push_room(rooms0, tunnels@, new_room, i, j);
                    if tunnels@.len() > tunnels0.len() {
                        let n = tunnels0.len() as int;
                        lemma_covered_push_tunnel(rooms0, tunnels0.push(tunnels@[n]), tunnels@[n + 1], i, j);
                        lemma_covered_push_tunnel(rooms0, tunnels0, tunnels@[n], i, j);
                    }
                    assert(map0.tile_at(i, j) == (if covered(rooms0, tunnels0, i, j) {
                        Tile::empty_spec()
                    } else {
                        Tile::wall_spec()
                    }));
                }
                // the corridor pairing extends to the new room
                assert(tunnels_connect(rooms@, tunnels@)) by {
                    if rooms0.len() > 0 {
                        let i0 = rooms0.len() as int;
                        assert(rooms@[i0 - 1] == rooms0[i0 - 1]);
                        assert(rooms@[i0] == new_room);
                        assert forall|i: int| 1 <= i < rooms@.len() implies connects(
                            #[trigger] rooms@[i - 1],
                            rooms@[i],
                            tunnels@[2 * (i - 1)],
                            tunnels@[2 * (i - 1) + 1],
                        ) by {
                            if i < i0 {
                                assert(connects(
                                    rooms0[i - 1],
                                    rooms0[i],
                                    tunnels0[2 * (i - 1)],
                                    tunnels0[2 * (i - 1) + 1],
                                ));
                            }
                        }
                    }
                }
                // rooms stay pairwise disjoint
                assert forall|i: int, j: int|
                    #![trigger rooms@[i], rooms@[j]]
                    0 <= i < j < rooms@.len() implies !rooms@[i].spec_intersects(rooms@[j]) by {
                    if j == rooms0.len() {
                        assert(new_room.spec_intersects(rooms0[i]) ==> false);
                    } else {
                        assert(!rooms0[i].spec_intersects(rooms0[j]));
                    }
                }
                // every placement so far stays legal on the extended level
                assert forall|j: int|
                    len0 <= j < objects@.len() implies added_ok(objects@, j, rooms@, map) by {
                    assert(objects@[j] == objs1[j]);
                    if j < objs0.len() {
                        // placed by an earlier iteration: its room is still
                        // in the list and carving never re-blocks its tile
                        assert(added_ok(objs0, j, rooms0, map0));
                        let i = choose|i: int|
                            0 <= i < rooms0.len() && (#[trigger] rooms0[i]).interior(
                                objs0[j].x as int,
                                objs0[j].y as int,
                            );
                        assert(rooms@[i].interior(objects@[j].x as int, objects@[j].y as int));
                        assert(map.in_bounds(objs0[j].x as int, objs0[j].y as int));
                        assert(!map.tile_at(objects@[j].x as int, objects@[j].y as int).blocked);
                        assert forall|k: int|
                            0 < k < j && (#[trigger] objects@[k]).blocks implies !(objects@[k].x
                            == objects@[j].x && objects@[k].y == objects@[j].y) by {
                            assert(objects@[k] == objs0[k]);
                        }
                    } else {
                        // placed into the new room just now
                        assert(placed_ok(objs1, j, new_room, map1));
                        assert(rooms@[rooms0.len() as int] == new_room);
                        assert(rooms@[rooms0.len() as int].interior(
                            objects@[j].x as int,
                            objects@[j].y as int,
                        ));
                        assert(map.in_bounds(objs1[j].x as int, objs1[j].y as int));
                        assert(!map.tile_at(objects@[j].x as int, objects@[j].y as int).blocked);
                        assert forall|k: int|
                            0 < k < j && (#[trigger] objects@[k]).blocks implies !(objects@[k].x
                            == objects@[j].x && objects@[k].y == objects@[j].y) by {
                            assert(objects@[k] == objs1[k]);
                        }
                    }
                }
                // all entities remain on the grid with sound components
                assert forall|k: int|
                    0 <= k < objects@.len() implies obj_wf(#[trigger] objects@[k], map) by {
                    if k < objs1.len() {
                        assert(obj_wf(objs1[k], map1));
                    }
                }
            }
        }
        r = r + 1;
    }

    Level { map, rooms, tunnels }
}

/// Carves a horizontal corridor segment, ends included.
pub fn create_h_tunnel(x1: i32, x2: i32, y: i32, map: &mut GameMap)
    requires
        old(map).wf(),
        0 <= x1 <= old(map).width - 1,
        0 <= x2 <= old(map).width - 1,
        0 <= y <= old(map).height - 1,
    ensures
        final(map).wf(),
        final(map).width == old(map).width,
        final(map).height == old(map).height,
        forall|i: int, j: int|
            old(map).in_bounds(i, j) ==> final(map).tile_at(i, j) == (if on_tunnel(
                Tunnel::H { x1, x2, y },
                i,
                j,
            ) {
                Tile::empty_spec()
            } else {
                old(map).tile_at(i, j)
            }),
{
    let lo = if x1 <= x2 {
        x1
    } else {
        x2
    };
    let hi = if x1 <= x2 {
        x2
    } else {
        x1
    };
    let mut x = lo;
    while x <= hi
        invariant
            lo <= x <= hi + 1,
            map.wf(),
            map.width == old(map).width,
            map.height == old(map).height,
            forall|i: int, j: int|
                old(map).in_bounds(i, j) ==> map.tile_at(i, j) == (if (j == y && lo <= i < x) {
                    Tile::empty_spec()
                } else {
                    old(map).tile_at(i, j)
                }),
        decreases hi + 1 - x,
    {
        map.set(x, y, Tile::empty());
        x = x + 1;
    }
}

/// Carves a vertical corridor segment, ends included.
pub fn create_v_tunnel(y1: i32, y2: i32, x: i32, map: &mut GameMap)
    requires
        old(map).wf(),
        0 <= y1 <= old(map).height - 1,
        0 <= y2 <= old(map).height - 1,
        0 <= x <= old(map).width - 1,
    ensures
        final(map).wf(),
        final(map).width == old(map).width,
        final(map).height == old(map).height,
        forall|i: int, j: int|
            old(map).in_bounds(i, j) ==> final(map).tile_at(i, j) == (if on_tunnel(
                Tunnel::V { y1, y2, x },
                i,
                j,
            ) {
                Tile::empty_spec()
            } else {
                old(map).tile_at(i, j)
            }),
{
    let lo = if y1 <= y2 {
        y1
    } else {
        y2
    };
    let hi = if y1 <= y2 {
        y2
    } else {
        y1
    };
    let mut y = lo;
    while y <= hi
        invariant
            lo <= y <= hi + 1,
            map.wf(),
            map.width == old(map).width,
            map.height == old(map).height,
            forall|i: int, j: int|
                old(map).in_bounds(i, j) ==> map.tile_at(i, j) == (if (i == x && lo <= j < y) {
                    Tile::empty_spec()
                } else {
                    old(map).tile_at(i, j)
                }),
        decreases hi + 1 - y,
    {
        map.set(x, y, Tile::empty());
        y = y + 1;
    }
}

} // verus!
