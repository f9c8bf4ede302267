//! Fixed-point grid, tuning constants, and the shared arithmetic helpers.

use vstd::prelude::*;

verus! {

/// One world unit (and one second) spans this many steps of the fixed-point
/// grid: every position, velocity and time in the crate is a count of
/// thousandths.
pub const SCALE: i64 = 1000;

/// Length of one road segment, 1.8 units.
pub const LEN_SEG: i64 = 1800;

/// Road scroll speed, 1.0 unit per second.
pub const ROAD_VEL: i64 = 1000;

/// Player speed, 1.0 unit per second.
pub const PLAYER_VEL: i64 = 1000;

/// Cooldown between two shots of one gun, 0.5 seconds.
pub const GUN_PERIOD: i64 = 500;

/// Bullet speed, 50.0 units per second.
pub const BULLET_VEL: i64 = 50_000;

/// Edge of an enemy cube, 0.3 units; half of it is the lateral hit tolerance.
pub const ENEMY_SIZE: i64 = 300;

/// Enemy speed, 0.5 units per second.
pub const ENEMY_VEL: i64 = 500;

/// Largest frame delta a tick accepts, in thousandths of a second.
pub const MAX_DELTA: i64 = 1_000_000_000;

/// Largest clock reading (elapsed simulation time) the gun accepts.
pub const MAX_TIME: i64 = 1_000_000_000_000;

/// Largest coordinate magnitude the fixed-point arithmetic admits without
/// overflowing an `i64` in any per-tick computation.
pub const MAX_COORD: i64 = 100_000_000_000_000;

/// A coordinate the arithmetic of one tick can take without overflow.
pub open spec fn coord_ok(v: int) -> bool {
    -MAX_COORD <= v <= MAX_COORD
}

/// `v` forced into `[lo, hi]`.
pub open spec fn clamped(v: int, lo: int, hi: int) -> int {
    if v < lo {
        lo
    } else if v > hi {
        hi
    } else {
        v
    }
}

/// Displacement covered in `delta` thousandths of a second at `vel`
/// thousandths of a unit per second, truncated back onto the grid.
pub open spec fn scaled(vel: int, delta: int) -> int {
    vel * delta / (SCALE as int)
}

/// Remainder of `z` by the segment length, its sign following the dividend,
/// as the engine's floating-point remainder behaves.
pub open spec fn seg_rem(z: int) -> int {
    if z >= 0 {
        z % (LEN_SEG as int)
    } else {
        -((-z) % (LEN_SEG as int))
    }
}

/// The segment remainder stays strictly inside one segment either way.
pub proof fn lemma_seg_rem_bounds(z: int)
    ensures
        -(LEN_SEG as int) < seg_rem(z) < LEN_SEG as int,
        z >= 0 ==> seg_rem(z) >= 0,
        z < 0 ==> seg_rem(z) <= 0,
{
}

/// A displacement of a nonnegative velocity over a nonnegative delta is
/// nonnegative and no larger than the raw product.
pub proof fn lemma_scaled_bounds(vel: int, delta: int)
    requires
        0 <= vel,
        0 <= delta,
    ensures
        0 <= scaled(vel, delta),
        scaled(vel, delta) <= vel * delta,
{
    vstd::arithmetic::mul::lemma_mul_nonnegative(vel, delta);
    vstd::arithmetic::div_mod::lemma_div_nonincreasing(vel * delta, SCALE as int);
    vstd::arithmetic::div_mod::lemma_div_pos_is_pos(vel * delta, SCALE as int);
}

/// Displacements grow with the delta.
pub proof fn lemma_scaled_monotonic(vel: int, d1: int, d2: int)
    requires
        0 <= vel,
        0 <= d1 <= d2,
    ensures
        scaled(vel, d1) <= scaled(vel, d2),
{
    vstd::arithmetic::mul::lemma_mul_inequality(d1, d2, vel);
    vstd::arithmetic::div_mod::lemma_div_is_ordered(vel * d1, vel * d2, SCALE as int);
}

/// The distance covered in one tick: `vel * delta`, scaled back to the grid.
pub fn scale_disp(vel: i64, delta: i64) -> (d: i64)
    requires
        0 <= vel <= BULLET_VEL,
        0 <= delta <= MAX_DELTA,
    ensures
        d as int == scaled(vel as int, delta as int),
        0 <= d as int <= scaled(BULLET_VEL as int, MAX_DELTA as int),
{
    proof {
        lemma_scaled_bounds(vel as int, delta as int);
        vstd::arithmetic::mul::lemma_mul_upper_bound(
            vel as int,
            BULLET_VEL as int,
            delta as int,
            MAX_DELTA as int,
        );
        vstd::arithmetic::div_mod::lemma_div_is_ordered(
            vel as int * delta as int,
            BULLET_VEL as int * MAX_DELTA as int,
            SCALE as int,
        );
    }
    (vel * delta) / SCALE
}

} // verus!
