//! The player.

use vstd::prelude::*;
use crate::units::{Vector, COORD_MAX};

verus! {

/// Half the side of the player's square: 32 world units.
pub const HALF_EXTENT: i32 = 32_000_000;

/// The player: where it stands, how far it moved in the last tick and half
/// the side of its square.
#[derive(Clone, Copy, Debug, PartialEq, Eq, Structural)]
pub struct Bomberman {
    pub position: Vector,
    pub velocity: Vector,
    pub half_extent: i32,
}

impl Bomberman {
    /// Whether each coordinate of the position is at most `COORD_MAX` in
    /// magnitude, so that one more move cannot leave `i64`.
    pub open spec fn in_range(self) -> bool {
        self.position.in_range()
    }

    /// A player at rest at `position`, with the usual half-extent.
    pub fn new(position: Vector) -> (player: Bomberman)
        ensures
            player == (Bomberman {
                position,
                velocity: Vector { x: 0, y: 0 },
                half_extent: HALF_EXTENT,
            }),
    {
        Bomberman { position, velocity: Vector { x: 0, y: 0 }, half_extent: HALF_EXTENT }
    }

    /// Tests `in_range`.
    pub fn is_in_range(&self) -> (ok: bool)
        ensures
            ok == self.in_range(),
    {
        -COORD_MAX <= self.position.x && self.position.x <= COORD_MAX && -COORD_MAX
            <= self.position.y && self.position.y <= COORD_MAX
    }
}

impl Default for Bomberman {
    /// A player at rest at the origin.
    fn default() -> (player: Bomberman)
        ensures
            player == (Bomberman {
                position: Vector { x: 0, y: 0 },
                velocity: Vector { x: 0, y: 0 },
                half_extent: HALF_EXTENT,
            }),
    {
        Bomberman::new(Vector { x: 0, y: 0 })
    }
}

} // verus!
