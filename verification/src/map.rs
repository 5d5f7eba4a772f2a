//! The tile grid.
//!
//! A level is a fixed-size grid of tiles, indexed column-first like the room
//! carving routines expect.  A tile starts as solid rock and is carved to
//! floor by the generator; its `explored` flag only ever moves from `false`
//! to `true`.

use vstd::prelude::*;

use crate::fov::FovData;

verus! {

/// One grid cell.
#[derive(Clone, Copy, Debug, PartialEq, Eq, Structural)]
pub struct Tile {
    pub blocked: bool,
    pub explored: bool,
    pub block_sight: bool,
}

impl Tile {
    /// A freshly carved floor tile.
    pub open spec fn empty_spec() -> Tile {
        Tile { blocked: false, explored: false, block_sight: false }
    }

    /// A solid rock tile.
    pub open spec fn wall_spec() -> Tile {
        Tile { blocked: true, explored: false, block_sight: true }
    }

    pub fn empty() -> (t: Tile)
        ensures
            t == Tile::empty_spec(),
    {
        Tile { blocked: false, explored: false, block_sight: false }
    }

    pub fn wall() -> (t: Tile)
        ensures
            t == Tile::wall_spec(),
    {
        Tile { blocked: true, explored: false, block_sight: true }
    }
}

/// The level's tile grid, owned by one game session for its whole lifetime.
pub struct GameMap {
    pub width: i32,
    pub height: i32,
    pub tiles: Vec<Vec<Tile>>,
}

impl GameMap {
    pub open spec fn wf(self) -> bool {
        &&& 1 <= self.width <= 1000
        &&& 1 <= self.height <= 1000
        &&& self.tiles@.len() == self.width
        &&& forall|x: int|
            0 <= x < self.width ==> (#[trigger] self.tiles@[x])@.len() == self.height
    }

    pub open spec fn in_bounds(self, x: int, y: int) -> bool {
        0 <= x < self.width && 0 <= y < self.height
    }

    pub open spec fn tile_at(self, x: int, y: int) -> Tile {
        self.tiles@[x]@[y]
    }

    /// A grid of the given size made entirely of solid rock.
    pub fn new_walls(width: i32, height: i32) -> (m: GameMap)
        requires
            1 <= width <= 1000,
            1 <= height <= 1000,
        ensures
            m.wf(),
            m.width == width,
            m.height == height,
            forall|x: int, y: int| m.in_bounds(x, y) ==> m.tile_at(x, y) == Tile::wall_spec(),
    {
        let mut tiles: Vec<Vec<Tile>> = Vec::new();
        let mut x: i32 = 0;
        while x < width
            invariant
                0 <= x <= width,
                1 <= width <= 1000,
                1 <= height <= 1000,
                tiles@.len() == x,
                forall|i: int| 0 <= i < x ==> (#[trigger] tiles@[i])@.len() == height,
                forall|i: int, j: int|
                    0 <= i < x && 0 <= j < height ==> #[trigger] tiles@[i]@[j]
                        == Tile::wall_spec(),
            decreases width - x,
        {
            let mut column: Vec<Tile> = Vec::new();
            let mut y: i32 = 0;
            while y < height
                invariant
                    0 <= y <= height,
                    column@.len() == y,
                    forall|j: int| 0 <= j < y ==> column@[j] == Tile::wall_spec(),
                decreases height - y,
            {
                column.push(Tile::wall());
                y = y + 1;
            }
            tiles.push(column);
            x = x + 1;
        }
        GameMap { width, height, tiles }
    }

    pub fn get(&self, x: i32, y: i32) -> (t: Tile)
        requires
            self.wf(),
            self.in_bounds(x as int, y as int),
        ensures
            t == self.tile_at(x as int, y as int),
    {
        self.tiles[x as usize][y as usize]
    }

    /// Replaces one tile; every other tile and the grid's size stay as they were.
    pub fn set(&mut self, x: i32, y: i32, t: Tile)
        requires
            old(self).wf(),
            old(self).in_bounds(x as int, y as int),
        ensures
            final(self).wf(),
            final(self).width == old(self).width,
            final(self).height == old(self).height,
            final(self).tile_at(x as int, y as int) == t,
            forall|i: int, j: int|
                old(self).in_bounds(i, j) && !(i == x as int && j == y as int)
                    ==> final(self).tile_at(i, j) == old(self).tile_at(i, j),
    {
        let column = &mut self.tiles[x as usize];
        column.set(y as usize, t);
    }

    /// Marks every currently visible tile as explored.  Exploration is
    /// monotonic: no tile ever loses its `explored` flag, and nothing else
    /// about a tile changes.
    pub fn update_explored(&mut self, fov: &FovData)
        requires
            old(self).wf(),
            fov.wf(),
        ensures
            final(self).wf(),
            final(self).width == old(self).width,
            final(self).height == old(self).height,
            forall|x: int, y: int|
                old(self).in_bounds(x, y) ==> final(self).tile_at(x, y) == (Tile {
                    explored: old(self).tile_at(x, y).explored || fov.vis_at(x, y),
                    ..old(self).tile_at(x, y)
                }),
    {
        let width = self.width;
        let height = self.height;
        let mut x: i32 = 0;
        while x < width
            invariant
                0 <= x <= width,
                self.wf(),
                self.width == width,
                self.height == height,
                forall|i: int, j: int|
                    old(self).in_bounds(i, j) && i < x ==> self.tile_at(i, j) == (Tile {
                        explored: old(self).tile_at(i, j).explored || fov.vis_at(i, j),
                        ..old(self).tile_at(i, j)
                    }),
                forall|i: int, j: int|
                    old(self).in_bounds(i, j) && i >= x ==> self.tile_at(i, j) == old(
                        self,
                    ).tile_at(i, j),
            decreases width - x,
        {
            let mut y: i32 = 0;
            while y < height
                invariant
                    0 <= x < width,
                    0 <= y <= height,
                    self.wf(),
                    self.width == width,
                    self.height == height,
                    forall|i: int, j: int|
                        old(self).in_bounds(i, j) && i < x ==> self.tile_at(i, j) == (Tile {
                            explored: old(self).tile_at(i, j).explored || fov.vis_at(i, j),
                            ..old(self).tile_at(i, j)
                        }),
                    forall|i: int, j: int|
                        old(self).in_bounds(i, j) && i == x && j < y ==> self.tile_at(i, j)
                            == (Tile {
                            explored: old(self).tile_at(i, j).explored || fov.vis_at(i, j),
                            ..old(self).tile_at(i, j)
                        }),
                    forall|i: int, j: int|
                        old(self).in_bounds(i, j) && (i > x || (i == x && j >= y))
                            ==> self.tile_at(i, j) == old(self).tile_at(i, j),
                decreases height - y,
            {
                proof {
                    assert(self.tile_at(x as int, y as int) == old(self).tile_at(
                        x as int,
                        y as int,
                    ));
                }
                if fov.is_visible(x, y) {
                    let t = self.get(x, y);
                    self.set(x, y, Tile { explored: true, ..t });
                }
                y = y + 1;
            }
            x = x + 1;
        }
    }
}

} // verus!
