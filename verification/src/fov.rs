//! Visibility data handed in by the field-of-view collaborator.
//!
//! The engine never computes visibility itself: the front end recomputes its
//! field of view whenever the player moves and hands the result over as a
//! plain grid of booleans, which every rule in the engine then queries.

use vstd::prelude::*;

verus! {

/// One visibility flag per tile of the level grid, row-major.
pub struct FovData {
    pub width: i32,
    pub height: i32,
    pub visible: Vec<bool>,
}

impl FovData {
    pub open spec fn wf(self) -> bool {
        &&& 1 <= self.width <= 1000
        &&& 1 <= self.height <= 1000
        &&& self.visible@.len() == self.width * self.height
    }

    /// Whether the tile `(x, y)` is visible; everything outside the grid is not.
    pub open spec fn vis_at(self, x: int, y: int) -> bool {
        0 <= x < self.width && 0 <= y < self.height && self.visible@[y * self.width + x]
    }

    /// A visibility grid of the given size with every tile set the same way.
    pub fn new_uniform(width: i32, height: i32, v: bool) -> (fov: FovData)
        requires
            1 <= width <= 1000,
            1 <= height <= 1000,
        ensures
            fov.wf(),
            fov.width == width,
            fov.height == height,
            forall|x: int, y: int| 0 <= x < width && 0 <= y < height ==> fov.vis_at(x, y) == v,
    {
        proof {
            lemma_grid_index_bounds(width as int, height as int, 0, 0);
        }
        let mut visible: Vec<bool> = Vec::new();
        let total: usize = (width as usize) * (height as usize);
        let mut k: usize = 0;
        while k < total
            invariant
                0 <= k <= total,
                visible@.len() == k,
                forall|i: int| 0 <= i < k ==> visible@[i] == v,
            decreases total - k,
        {
            visible.push(v);
            k = k + 1;
        }
        let fov = FovData { width, height, visible };
        proof {
            assert forall|x: int, y: int|
                0 <= x < width && 0 <= y < height implies fov.vis_at(x, y) == v by {
                lemma_grid_index_bounds(width as int, height as int, x, y);
            }
        }
        fov
    }

    /// Flags one tile of the grid.
    pub fn set_visible(&mut self, x: i32, y: i32, v: bool)
        requires
            old(self).wf(),
            0 <= x < old(self).width,
            0 <= y < old(self).height,
        ensures
            final(self).wf(),
            final(self).width == old(self).width,
            final(self).height == old(self).height,
            final(self).vis_at(x as int, y as int) == v,
            forall|i: int, j: int|
                !(i == x as int && j == y as int) ==> final(self).vis_at(i, j) == old(
                    self,
                ).vis_at(i, j),
    {
        proof {
            lemma_grid_index_bounds(self.width as int, self.height as int, x as int, y as int);
        }
        let idx: usize = (y as usize) * (self.width as usize) + (x as usize);
        self.visible.set(idx, v);
        proof {
            assert forall|i: int, j: int|
                !(i == x as int && j == y as int) implies self.vis_at(i, j) == old(self).vis_at(
                i,
                j,
            ) by {
                if 0 <= i < self.width && 0 <= j < self.height {
                    lemma_grid_index_bounds(self.width as int, self.height as int, i, j);
                    if j * self.width + i == y * self.width + x {
                        lemma_grid_index_injective(self.width as int, i, j, x as int, y as int);
                    }
                }
            }
        }
    }

    /// Queries one tile; tiles outside the grid report as not visible.
    pub fn is_visible(&self, x: i32, y: i32) -> (b: bool)
        requires
            self.wf(),
        ensures
            b == self.vis_at(x as int, y as int),
    {
        if x < 0 || x >= self.width || y < 0 || y >= self.height {
            return false;
        }
        proof {
            lemma_grid_index_bounds(self.width as int, self.height as int, x as int, y as int);
        }
        let idx: usize = (y as usize) * (self.width as usize) + (x as usize);
        self.visible[idx]
    }
}

/// A row-major index stays inside the grid's backing vector.
proof fn lemma_grid_index_bounds(width: int, height: int, x: int, y: int)
    requires
        1 <= width <= 1000,
        1 <= height <= 1000,
        0 <= x < width,
        0 <= y < height,
    ensures
        0 <= y * width + x < width * height,
        width * height <= 1000000,
{
    assert(0 <= y * width + x < width * height && width * height <= 1000000) by (nonlinear_arith)
        requires
            1 <= width <= 1000,
            1 <= height <= 1000,
            0 <= x < width,
            0 <= y < height,
    ;
}

/// Distinct tiles get distinct row-major indices.
proof fn lemma_grid_index_injective(width: int, x1: int, y1: int, x2: int, y2: int)
    requires
        1 <= width,
        0 <= x1 < width,
        0 <= x2 < width,
        y1 * width + x1 == y2 * width + x2,
    ensures
        x1 == x2 && y1 == y2,
{
    assert(x1 == x2 && y1 == y2) by (nonlinear_arith)
        requires
            1 <= width,
            0 <= x1 < width,
            0 <= x2 < width,
            y1 * width + x1 == y2 * width + x2,
    ;
}

} // verus!
