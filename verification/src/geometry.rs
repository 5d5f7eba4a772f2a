//! Rooms and grid geometry.
//!
//! A `Rect` describes a room candidate by its two corners; two rooms count as
//! intersecting as soon as both coordinate intervals overlap inclusively, so
//! accepted rooms always keep at least their bounding edges apart.  Distances
//! between tiles are compared through their squares, which keeps every
//! comparison exact integer arithmetic.

use vstd::prelude::*;

verus! {

/// Bound on any grid coordinate handed to the distance helpers; the tile grid
/// itself is far smaller, this only keeps the squares inside `i64`.
pub const COORD_LIMIT: i32 = 32768;

/// The squared Euclidean distance between two grid points.
pub open spec fn dist_sq(x1: int, y1: int, x2: int, y2: int) -> int {
    (x2 - x1) * (x2 - x1) + (y2 - y1) * (y2 - y1)
}

/// Computes the squared Euclidean distance between two grid points.
pub fn distance_sq(x1: i32, y1: i32, x2: i32, y2: i32) -> (d: i64)
    requires
        -COORD_LIMIT <= x1 <= COORD_LIMIT,
        -COORD_LIMIT <= y1 <= COORD_LIMIT,
        -COORD_LIMIT <= x2 <= COORD_LIMIT,
        -COORD_LIMIT <= y2 <= COORD_LIMIT,
    ensures
        d == dist_sq(x1 as int, y1 as int, x2 as int, y2 as int),
        0 <= d,
{
    let dx: i64 = (x2 as i64) - (x1 as i64);
    let dy: i64 = (y2 as i64) - (y1 as i64);
    proof {
        lemma_square_bound(dx as int, 2 * COORD_LIMIT as int);
        lemma_square_bound(dy as int, 2 * COORD_LIMIT as int);
    }
    dx * dx + dy * dy
}

/// A square of a number bounded in magnitude is bounded and non-negative.
proof fn lemma_square_bound(v: int, bound: int)
    requires
        -bound <= v <= bound,
    ensures
        0 <= v * v <= bound * bound,
{
    assert(0 <= v * v <= bound * bound) by (nonlinear_arith)
        requires
            -bound <= v <= bound,
    ;
}

/// An axis-aligned room descriptor: `(x1, y1)` and `(x2, y2)` are the corners
/// of its bounding edge; the carved interior excludes that edge.
#[derive(Clone, Copy, Debug, PartialEq, Eq, Structural)]
pub struct Rect {
    pub x1: i32,
    pub y1: i32,
    pub x2: i32,
    pub y2: i32,
}

impl Rect {
    /// Both coordinate intervals of the two rooms overlap inclusively.
    pub open spec fn spec_intersects(self, other: Rect) -> bool {
        self.x1 <= other.x2 && self.x2 >= other.x1 && self.y1 <= other.y2 && self.y2 >= other.y1
    }

    /// The tile `(x, y)` lies strictly inside the room's bounding edge.
    pub open spec fn interior(self, x: int, y: int) -> bool {
        self.x1 < x < self.x2 && self.y1 < y < self.y2
    }

    pub open spec fn center_x(self) -> int {
        (self.x1 + self.x2) / 2
    }

    pub open spec fn center_y(self) -> int {
        (self.y1 + self.y2) / 2
    }

    /// The room sits inside a `width` by `height` grid without touching the
    /// outermost rows and columns with its interior, and its interior holds
    /// at least one tile.
    pub open spec fn in_grid(self, width: int, height: int) -> bool {
        &&& 0 <= self.x1
        &&& self.x1 + 2 <= self.x2 <= width - 1
        &&& 0 <= self.y1
        &&& self.y1 + 2 <= self.y2 <= height - 1
    }

    pub fn new(x: i32, y: i32, w: i32, h: i32) -> (r: Rect)
        requires
            0 <= x,
            0 <= y,
            0 <= w,
            0 <= h,
            x + w <= i32::MAX,
            y + h <= i32::MAX,
        ensures
            r == (Rect { x1: x, y1: y, x2: (x + w) as i32, y2: (y + h) as i32 }),
    {
        Rect { x1: x, y1: y, x2: x + w, y2: y + h }
    }

    pub fn center(&self) -> (c: (i32, i32))
        requires
            0 <= self.x1 <= self.x2,
            0 <= self.y1 <= self.y2,
            self.x1 + self.x2 <= i32::MAX,
            self.y1 + self.y2 <= i32::MAX,
        ensures
            c.0 == self.center_x(),
            c.1 == self.center_y(),
    {
        let center_x = (self.x1 + self.x2) / 2;
        let center_y = (self.y1 + self.y2) / 2;
        (center_x, center_y)
    }

    pub fn intersects_with(&self, other: &Rect) -> (r: bool)
        ensures
            r == self.spec_intersects(*other),
    {
        (self.x1 <= other.x2) && (self.x2 >= other.x1) && (self.y1 <= other.y2)
            && (self.y2 >= other.y1)
    }

    /// The center of a room with a non-empty interior lies in that interior.
    pub proof fn lemma_center_in_interior(self)
        requires
            self.x1 + 2 <= self.x2,
            self.y1 + 2 <= self.y2,
            0 <= self.x1,
            0 <= self.y1,
        ensures
            self.interior(self.center_x(), self.center_y()),
    {
    }
}

} // verus!
