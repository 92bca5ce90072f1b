//! Movement: how the tiles that block bend the player's wish to move.
//!
//! The two axes are tested apart, so that a player who runs into a wall on
//! one axis keeps moving on the other. A player who pushes straight against
//! a tile whose centre lies more than `SLIDE_THRESHOLD` to one side is
//! nudged to the other side, round the tile's corner.
//!
//! Every blocking tile has its turn, in placement order. Each one is tested
//! with the velocity that the input asked for, and changes the velocity that
//! the tiles before it left. So a later tile may stop an axis that an
//! earlier one nudged, and of two tiles that nudge opposite ways the later
//! one wins. The position changes only when all tiles have had their turn.

use vstd::prelude::*;
use crate::bomberman::Bomberman;
use crate::tile::Tile;
use crate::units::{scaled, Shift, Vector, COORD_MAX, ONE};
use crate::world::CollisionWorld;

verus! {

/// World units that a fully deflected axis moves the player in one second.
pub const BASE_SPEED: i64 = 300;

/// How far to one side a tile's centre must lie before the player is nudged
/// round it: 30 world units.
pub const SLIDE_THRESHOLD: i64 = 30_000_000;

/// The distance that a fully deflected axis covers in a tick of `dt`
/// millionths of a second.
pub open spec fn tick_speed(dt: u32) -> int {
    BASE_SPEED * dt
}

/// The velocity that the two axis values ask for at the given speed, before
/// any tile is looked at.
pub open spec fn raw_velocity(axis_x: i64, axis_y: i64, speed: int) -> Shift {
    Shift { x: scaled(axis_x as int, speed), y: scaled(axis_y as int, speed) }
}

/// The velocity on the idle axis after a slide nudge was tried. `gap` is the
/// coordinate of the tile's centre less the player's on that axis. The
/// player is sent away from the centre at full speed if a step that way is
/// free: `free_plus` says so of the step by `speed`, `free_minus` of the
/// step by `-speed`. Else the velocity stays as it is.
pub open spec fn nudged(current: int, gap: int, free_plus: bool, free_minus: bool, speed: int)
    -> int {
    if gap < -SLIDE_THRESHOLD && free_plus {
        speed
    } else if gap > SLIDE_THRESHOLD && free_minus {
        -speed
    } else {
        current
    }
}

/// What one blocking tile makes of the velocity `v` that the tiles before it
/// left, for a body of half-extent `half` centred at `at` that asked for the
/// velocity `raw`.
///
/// If the raw move along x alone would enter the tile, x is stopped, and if
/// no move along y was asked for, a nudge along y is tried. Then the same
/// with the axes exchanged.
pub open spec fn after_tile(
    v: Shift,
    tile: Tile,
    at: Vector,
    half: i32,
    raw: Shift,
    speed: int,
) -> Shift {
    let a = if tile.spec_collides(at, half, raw.x, 0) {
        Shift {
            x: 0,
            y: if raw.y == 0 {
                nudged(
                    v.y,
                    tile.center.y - at.y,
                    !tile.spec_collides(at, half, 0, speed),
                    !tile.spec_collides(at, half, 0, -speed),
                    speed,
                )
            } else {
                v.y
            },
        }
    } else {
        v
    };
    if tile.spec_collides(at, half, 0, raw.y) {
        Shift {
            x: if raw.x == 0 {
                nudged(
                    a.x,
                    tile.center.x - at.x,
                    !tile.spec_collides(at, half, speed, 0),
                    !tile.spec_collides(at, half, -speed, 0),
                    speed,
                )
            } else {
                a.x
            },
            y: 0,
        }
    } else {
        a
    }
}

/// The velocity that is left of `raw` once every tile of `tiles` has had its
/// turn, first to last.
pub open spec fn resolve(tiles: Seq<Tile>, at: Vector, half: i32, raw: Shift, speed: int)
    -> Shift
    decreases tiles.len(),
{
    if tiles.len() == 0 {
        raw
    } else {
        after_tile(
            resolve(tiles.drop_last(), at, half, raw, speed),
            tiles.last(),
            at,
            half,
            raw,
            speed,
        )
    }
}

/// Whether a move by `(dx, dy)` would take the body into some tile of
/// `tiles`.
pub open spec fn enters_any(tiles: Seq<Tile>, at: Vector, half: i32, dx: int, dy: int) -> bool {
    exists|k: int| 0 <= k < tiles.len() && (#[trigger] tiles[k]).spec_collides(at, half, dx, dy)
}

/// Where no tile stands in the way, the raw velocity is kept as it is.
pub proof fn lemma_open_field(at: Vector, half: i32, raw: Shift, speed: int)
    ensures
        resolve(Seq::<Tile>::empty(), at, half, raw, speed) == raw,
{
}

/// An axis on which the player steers is never nudged: it keeps its raw
/// velocity if that takes the player into no tile, and is stopped if it
/// takes the player into any, in whatever order the tiles stand.
pub proof fn lemma_steered_axes(tiles: Seq<Tile>, at: Vector, half: i32, raw: Shift, speed: int)
    ensures
        raw.x != 0 ==> resolve(tiles, at, half, raw, speed).x == (if enters_any(
            tiles,
            at,
            half,
            raw.x,
            0,
        ) {
            0
        } else {
            raw.x
        }),
        raw.y != 0 ==> resolve(tiles, at, half, raw, speed).y == (if enters_any(
            tiles,
            at,
            half,
            0,
            raw.y,
        ) {
            0
        } else {
            raw.y
        }),
    decreases tiles.len(),
{
    if tiles.len() > 0 {
        lemma_steered_axes(tiles.drop_last(), at, half, raw, speed);
        lemma_enters_any_last(tiles, at, half, raw.x, 0);
        lemma_enters_any_last(tiles, at, half, 0, raw.y);
    }
}

proof fn lemma_enters_any_last(tiles: Seq<Tile>, at: Vector, half: i32, dx: int, dy: int)
    requires
        tiles.len() > 0,
    ensures
        enters_any(tiles, at, half, dx, dy) <==> enters_any(tiles.drop_last(), at, half, dx, dy)
            || tiles.last().spec_collides(at, half, dx, dy),
{
    let init = tiles.drop_last();
    if enters_any(tiles, at, half, dx, dy) {
        let k = choose|k: int|
            0 <= k < tiles.len() && (#[trigger] tiles[k]).spec_collides(at, half, dx, dy);
        if k < init.len() {
            assert(init[k].spec_collides(at, half, dx, dy));
        }
    }
    if enters_any(init, at, half, dx, dy) {
        let k = choose|k: int|
            0 <= k < init.len() && (#[trigger] init[k]).spec_collides(at, half, dx, dy);
        assert(tiles[k].spec_collides(at, half, dx, dy));
    }
    if tiles.last().spec_collides(at, half, dx, dy) {
        assert(tiles[tiles.len() - 1].spec_collides(at, half, dx, dy));
    }
}

/// A player who steers only sideways into a single tile, and does not
/// stand in it, is stopped sideways and nudged up or down as `nudged` says:
/// away from the tile's centre where that lies more than `SLIDE_THRESHOLD`
/// off and the way is free.
pub proof fn lemma_vertical_nudge(tile: Tile, at: Vector, half: i32, raw_x: int, speed: int)
    requires
        tile.spec_collides(at, half, raw_x, 0),
        !tile.spec_collides(at, half, 0, 0),
    ensures
        resolve(seq![tile], at, half, Shift { x: raw_x, y: 0 }, speed) == (Shift {
            x: 0,
            y: nudged(
                0,
                tile.center.y - at.y,
                !tile.spec_collides(at, half, 0, speed),
                !tile.spec_collides(at, half, 0, -speed),
                speed,
            ),
        }),
{
    reveal_with_fuel(resolve, 2);
    assert(seq![tile].drop_last() =~= Seq::<Tile>::empty());
}

/// A player who steers only up or down into a single tile, and does not
/// stand in it, is stopped on that axis and nudged left or right as
/// `nudged` says.
pub proof fn lemma_horizontal_nudge(tile: Tile, at: Vector, half: i32, raw_y: int, speed: int)
    requires
        tile.spec_collides(at, half, 0, raw_y),
        !tile.spec_collides(at, half, 0, 0),
    ensures
        resolve(seq![tile], at, half, Shift { x: 0, y: raw_y }, speed) == (Shift {
            x: nudged(
                0,
                tile.center.x - at.x,
                !tile.spec_collides(at, half, speed, 0),
                !tile.spec_collides(at, half, -speed, 0),
                speed,
            ),
            y: 0,
        }),
{
    reveal_with_fuel(resolve, 2);
    assert(seq![tile].drop_last() =~= Seq::<Tile>::empty());
}

/// Each axis of a resolved velocity is the raw one, zero, or full speed one
/// way or the other.
pub proof fn lemma_resolve_values(tiles: Seq<Tile>, at: Vector, half: i32, raw: Shift, speed: int)
    ensures
        ({
            let v = resolve(tiles, at, half, raw, speed);
            &&& v.x == raw.x || v.x == 0 || v.x == speed || v.x == -speed
            &&& v.y == raw.y || v.y == 0 || v.y == speed || v.y == -speed
        }),
    decreases tiles.len(),
{
    if tiles.len() > 0 {
        lemma_resolve_values(tiles.drop_last(), at, half, raw, speed);
    }
}

/// The share `axis` of `speed`, rounded toward zero.
fn scale(axis: i64, speed: i64) -> (v: i64)
    requires
        -ONE <= axis <= ONE,
        0 <= speed <= BASE_SPEED * u32::MAX,
    ensures
        v == scaled(axis as int, speed as int),
        -speed <= v <= speed,
{
    assert(-1_000_000 * speed <= axis * speed <= 1_000_000 * speed) by (nonlinear_arith)
        requires
            -1_000_000 <= axis <= 1_000_000,
            0 <= speed,
    ;
    (axis * speed) / ONE
}

/// The system that moves the player once per tick.
#[derive(Clone, Copy, Debug, Default)]
pub struct BombermanSystem;

/// Tries a slide nudge past `tile` along the axis on which `(dx, dy)`, a
/// step of `speed`, lies.
fn nudge(
    tile: &Tile,
    at: Vector,
    half: i32,
    current: i64,
    gap: i128,
    dx: i64,
    dy: i64,
    speed: i64,
) -> (v: i64)
    requires
        speed > i64::MIN,
        dx == 0 && dy == speed || dx == speed && dy == 0,
    ensures
        v == nudged(
            current as int,
            gap as int,
            !tile.spec_collides(at, half, dx as int, dy as int),
            !tile.spec_collides(at, half, -dx, -dy),
            speed as int,
        ),
{
    if gap < -(SLIDE_THRESHOLD as i128) && !tile.collides(at, half, dx, dy) {
        speed
    } else if gap > SLIDE_THRESHOLD as i128 && !tile.collides(at, half, -dx, -dy) {
        -speed
    } else {
        current
    }
}

/// Gives one blocking tile its turn.
fn slide(tile: &Tile, at: Vector, half: i32, raw: Vector, speed: i64, v: Vector) -> (out: Vector)
    requires
        speed > i64::MIN,
    ensures
        out@ == after_tile(v@, *tile, at, half, raw@, speed as int),
{
    let mut out = v;
    if tile.collides(at, half, raw.x, 0) {
        out.x = 0;
        if raw.y == 0 {
            let gap: i128 = tile.center.y as i128 - at.y as i128;
            out.y = nudge(tile, at, half, out.y, gap, 0, speed, speed);
        }
    }
    if tile.collides(at, half, 0, raw.y) {
        out.y = 0;
        if raw.x == 0 {
            let gap: i128 = tile.center.x as i128 - at.x as i128;
            out.x = nudge(tile, at, half, out.x, gap, speed, 0, speed);
        }
    }
    out
}

impl BombermanSystem {
    /// Holds the raw velocity against every blocking tile of `world`, in
    /// placement order, for a body of half-extent `half` centred at `at`.
    /// A slide nudge moves the body by `speed`.
    pub fn resolve(
        &self,
        world: &CollisionWorld,
        at: Vector,
        half: i32,
        raw: Vector,
        speed: i64,
    ) -> (v: Vector)
        requires
            speed > i64::MIN,
        ensures
            v@ == resolve(world.blocking(), at, half, raw@, speed as int),
    {
        let tiles = world.blocking_tiles();
        let mut v = raw;
        let mut i: usize = 0;
        assert(tiles@.take(0) =~= Seq::<Tile>::empty());
        while i < tiles.len()
            invariant
                i <= tiles.len(),
                speed > i64::MIN,
                v@ == resolve(tiles@.take(i as int), at, half, raw@, speed as int),
            decreases tiles.len() - i,
        {
            proof {
                assert(tiles@.take(i + 1).drop_last() =~= tiles@.take(i as int));
            }
            v = slide(&tiles[i], at, half, raw, speed, v);
            i = i + 1;
        }
        assert(tiles@.take(tiles.len() as int) =~= tiles@);
        v
    }

    /// Moves the player for one tick in which it asks for the velocity
    /// `raw` and a slide nudge would move it by `speed`: the velocity that
    /// the blocking tiles leave is stored, then added to the position.
    pub fn step(&self, world: &CollisionWorld, player: &mut Bomberman, raw: Vector, speed: i64)
        requires
            old(player).in_range(),
            raw.in_range(),
            -COORD_MAX <= speed <= COORD_MAX,
        ensures
            final(player).velocity@ == resolve(
                world.blocking(),
                old(player).position,
                old(player).half_extent,
                raw@,
                speed as int,
            ),
            final(player).position.x == old(player).position.x + final(player).velocity.x,
            final(player).position.y == old(player).position.y + final(player).velocity.y,
            final(player).half_extent == old(player).half_extent,
            world.blocking().len() == 0 ==> {
                &&& final(player).velocity == raw
                &&& final(player).position.x == old(player).position.x + raw.x
                &&& final(player).position.y == old(player).position.y + raw.y
            },
    {
        let v = self.resolve(world, player.position, player.half_extent, raw, speed);
        proof {
            lemma_resolve_values(
                world.blocking(),
                player.position,
                player.half_extent,
                raw@,
                speed as int,
            );
        }
        player.velocity = v;
        player.position = Vector { x: player.position.x + v.x, y: player.position.y + v.y };
    }

    /// Moves the player for one tick of `dt` millionths of a second, in
    /// which the two input axes stand at `axis_x` and `axis_y`, each from
    /// `-ONE` to `ONE`.
    pub fn run(
        &self,
        world: &CollisionWorld,
        player: &mut Bomberman,
        axis_x: i64,
        axis_y: i64,
        dt: u32,
    )
        requires
            old(player).in_range(),
            -ONE <= axis_x <= ONE,
            -ONE <= axis_y <= ONE,
        ensures
            final(player).velocity@ == resolve(
                world.blocking(),
                old(player).position,
                old(player).half_extent,
                raw_velocity(axis_x, axis_y, tick_speed(dt)),
                tick_speed(dt),
            ),
            final(player).position.x == old(player).position.x + final(player).velocity.x,
            final(player).position.y == old(player).position.y + final(player).velocity.y,
            final(player).half_extent == old(player).half_extent,
            world.blocking().len() == 0 ==> {
                let raw = raw_velocity(axis_x, axis_y, tick_speed(dt));
                &&& final(player).velocity@ == raw
                &&& final(player).position.x == old(player).position.x + raw.x
                &&& final(player).position.y == old(player).position.y + raw.y
            },
    {
        let speed: i64 = BASE_SPEED * (dt as i64);
        let raw = Vector { x: scale(axis_x, speed), y: scale(axis_y, speed) };
        self.step(world, player, raw, speed);
    }
}

} // verus!
