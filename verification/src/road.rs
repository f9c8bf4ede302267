//! The road scroller: the road's parent offset slides backward each tick and
//! periodically jumps forward by the visible segment count, giving an
//! endless road without a visible pop.

use vstd::prelude::*;
use crate::units::{
    coord_ok, scaled, seg_rem, lemma_scaled_bounds, lemma_seg_rem_bounds, scale_disp, LEN_SEG,
    MAX_DELTA, ROAD_VEL,
};

verus! {

/// Threshold the offset must pass (in magnitude) before a wrap is considered:
/// 1.0 unit.
pub const WRAP_MIN: i64 = 1000;

/// Remainder window in which the wrap fires: 0.01 units. The narrow window
/// is a deliberate threshold, not a tolerance to widen.
pub const WRAP_EPS: i64 = 10;

/// Forward jump of one wrap: ten segment lengths, 18.0 units, matching the
/// visible child-segment count.
pub const WRAP_JUMP: i64 = 18_000;

/// The road's parent entity: only its z offset moves; the child segments are
/// static relative to it.
#[derive(Clone, Copy, PartialEq, Eq, Debug)]
pub struct Road {
    pub z: i64,
}

/// Where the offset lands before any wrap is considered.
pub open spec fn road_moved(z: int, delta: int) -> int {
    z - scaled(ROAD_VEL as int, delta)
}

/// Whether the wrap rule fires on offset `z`: past the threshold in
/// magnitude, with the segment remainder inside the window.
pub open spec fn road_wraps(z: int) -> bool {
    vstd::math::abs(z) > WRAP_MIN && seg_rem(z) < WRAP_EPS
}

/// One tick of the road scroller: scroll backward, then wrap forward by ten
/// segments when the wrap rule fires, keeping the remainder.
pub open spec fn road_step(z: int, delta: int) -> int {
    let moved = road_moved(z, delta);
    if road_wraps(moved) {
        seg_rem(moved) + WRAP_JUMP
    } else {
        moved
    }
}

/// Offsets the scroller keeps returning to: one wrap band around the start
/// offset, plus the stretch down to the wrap threshold.
pub open spec fn road_in_band(z: int) -> bool {
    -WRAP_MIN <= z <= WRAP_JUMP + WRAP_EPS
}

impl Road {
    /// One tick: `z -= delta * ROAD_VEL`, then the wrap rule.
    pub fn scroll(&mut self, delta: i64)
        requires
            0 <= delta <= MAX_DELTA,
            coord_ok(old(self).z as int),
        ensures
            final(self).z as int == road_step(old(self).z as int, delta as int),
    {
        let disp = scale_disp(ROAD_VEL, delta);
        let moved = self.z - disp;
        let magnitude = if moved < 0 {
            -moved
        } else {
            moved
        };
        let rem = if moved >= 0 {
            moved % LEN_SEG
        } else {
            -((-moved) % LEN_SEG)
        };
        if magnitude > WRAP_MIN && rem < WRAP_EPS {
            self.z = rem + WRAP_JUMP;
        } else {
            self.z = moved;
        }
    }
}

/// The wrap rule in one sentence: whenever the scrolled offset passes the
/// threshold with its remainder in the window, the new offset is exactly
/// that remainder plus ten segment lengths (18.0 units).
pub proof fn lemma_road_wrap(z: int, delta: int)
    requires
        road_wraps(road_moved(z, delta)),
    ensures
        road_step(z, delta) == seg_rem(road_moved(z, delta)) + WRAP_JUMP,
{
}

/// A tick with a zero delta leaves the offset alone, for every offset except
/// those the scroller itself never produces twice: offsets on which the wrap
/// rule fires without being at its own fixed point.
pub proof fn lemma_road_zero_delta(z: int)
    requires
        road_wraps(z) ==> z == seg_rem(z) + WRAP_JUMP,
    ensures
        road_step(z, 0) == z,
{
    assert(scaled(ROAD_VEL as int, 0) == 0);
}

/// The scroller never leaves the band: starting inside it, every tick lands
/// inside it again, which is the endless-road illusion stated as an
/// invariant.
pub proof fn lemma_road_step_in_band(z: int, delta: int)
    requires
        road_in_band(z),
        0 <= delta,
    ensures
        road_in_band(road_step(z, delta)),
{
    lemma_scaled_bounds(ROAD_VEL as int, delta);
    let moved = road_moved(z, delta);
    lemma_seg_rem_bounds(moved);
    if road_wraps(moved) {
    } else {
        if moved < -(WRAP_MIN as int) {
            lemma_seg_rem_bounds(moved);
            assert(seg_rem(moved) <= 0);
            assert(road_wraps(moved));
        }
    }
}

} // verus!
