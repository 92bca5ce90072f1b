//! Fixed-point numbers and plane vectors.

use vstd::prelude::*;

verus! {

/// How many steps make one: a length of one world unit, a fully deflected
/// axis and a duration of one second are each this many.
pub const ONE: i64 = 1_000_000;

/// The largest magnitude of a coordinate that can still be moved by a
/// velocity of that magnitude without leaving `i64`.
pub const COORD_MAX: i64 = 0x3fff_ffff_ffff_ffff;

/// A point or a displacement in the plane, as the mathematical integers.
pub struct Shift {
    pub x: int,
    pub y: int,
}

/// A point or a displacement in the plane, in millionths of a world unit.
#[derive(Clone, Copy, Debug, PartialEq, Eq, Structural)]
pub struct Vector {
    pub x: i64,
    pub y: i64,
}

impl Vector {
    /// Whether both coordinates are at most `COORD_MAX` in magnitude.
    pub open spec fn in_range(self) -> bool {
        &&& -COORD_MAX <= self.x <= COORD_MAX
        &&& -COORD_MAX <= self.y <= COORD_MAX
    }
}

impl View for Vector {
    type V = Shift;

    open spec fn view(&self) -> Shift {
        Shift { x: self.x as int, y: self.y as int }
    }
}

/// The quotient of `n` by `ONE`, rounded toward zero.
pub open spec fn whole_part(n: int) -> int {
    if n >= 0 {
        n / (ONE as int)
    } else {
        -((-n) / (ONE as int))
    }
}

/// The product of two fixed-point numbers, rounded toward zero.
pub open spec fn scaled(a: int, b: int) -> int {
    whole_part(a * b)
}

} // verus!
