//! A placed tile and the test that holds a point against it.

use vstd::prelude::*;
use crate::block::Block;
use crate::units::Vector;

verus! {

/// One cell of a level, fixed once it is placed: what it is, where its
/// centre lies and half the side of its square.
#[derive(Clone, Copy, Debug, PartialEq, Eq, Structural)]
pub struct Tile {
    pub kind: Block,
    pub center: Vector,
    pub half_extent: i32,
}

/// Whether the point `(x, y)` lies strictly inside the rectangle between
/// `left` and `right` and between `bottom` and `top`.
pub open spec fn inside_rect(x: int, y: int, left: int, bottom: int, right: int, top: int)
    -> bool {
    left < x < right && bottom < y < top
}

/// Tests whether the point `(x, y)` lies strictly inside the rectangle
/// between `left` and `right` and between `bottom` and `top`.
pub fn point_in_rect(x: i128, y: i128, left: i128, bottom: i128, right: i128, top: i128) -> (inside:
    bool)
    ensures
        inside == inside_rect(
            x as int,
            y as int,
            left as int,
            bottom as int,
            right as int,
            top as int,
        ),
{
    x > left && x < right && y > bottom && y < top
}

impl Tile {
    /// Whether this tile stops the player.
    pub open spec fn blocks(self) -> bool {
        self.kind.blocks()
    }

    /// Whether a body of half-extent `half` whose centre is `at`, once moved
    /// by `(dx, dy)`, overlaps this tile: its centre then lies strictly
    /// inside the tile's square grown by `half` on every side.
    pub open spec fn spec_collides(self, at: Vector, half: i32, dx: int, dy: int) -> bool {
        let reach = half + self.half_extent;
        inside_rect(
            at.x + dx,
            at.y + dy,
            self.center.x - reach,
            self.center.y - reach,
            self.center.x + reach,
            self.center.y + reach,
        )
    }

    /// Whether this tile stops the player.
    pub fn is_blocking(&self) -> (b: bool)
        ensures
            b == self.blocks(),
    {
        self.kind.is_blocking()
    }

    /// Tests a body of half-extent `half` centred at `at` and moved by
    /// `(dx, dy)` against this tile. Touching edges do not collide.
    pub fn collides(&self, at: Vector, half: i32, dx: i64, dy: i64) -> (hit: bool)
        ensures
            hit == self.spec_collides(at, half, dx as int, dy as int),
    {
        let reach: i128 = half as i128 + self.half_extent as i128;
        let cx: i128 = self.center.x as i128;
        let cy: i128 = self.center.y as i128;
        point_in_rect(
            at.x as i128 + dx as i128,
            at.y as i128 + dy as i128,
            cx - reach,
            cy - reach,
            cx + reach,
            cy + reach,
        )
    }
}

} // verus!
