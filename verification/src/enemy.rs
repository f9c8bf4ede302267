//! The enemy controller: each enemy drifts toward the player each tick, but
//! its z is capped at the player's z, so it can never advance past the
//! player. Integration and commit are two separate operations, so whether a
//! computed position is actually stored is an explicit, testable choice.

use vstd::prelude::*;
use crate::units::{coord_ok, scaled, scale_disp, ENEMY_VEL, MAX_DELTA};

verus! {

/// An enemy's position; only z moves, x is where the scene placed it.
#[derive(Clone, Copy, PartialEq, Eq, Debug)]
pub struct Enemy {
    pub x: i64,
    pub z: i64,
}

/// One tick of enemy motion: integrate `z -= delta * ENEMY_VEL`, then cap
/// the result at the player's z.
pub open spec fn enemy_next_z(z: int, player_z: int, delta: int) -> int {
    vstd::math::min(z - scaled(ENEMY_VEL as int, delta), player_z)
}

impl Enemy {
    /// Integrate-and-cap only: computes where this enemy would be after the
    /// tick, given the player's current z, without touching the stored
    /// position.
    pub fn step(&self, player_z: i64, delta: i64) -> (nz: i64)
        requires
            0 <= delta <= MAX_DELTA,
            coord_ok(self.z as int),
            coord_ok(player_z as int),
        ensures
            nz as int == enemy_next_z(self.z as int, player_z as int, delta as int),
    {
        let moved = self.z - scale_disp(ENEMY_VEL, delta);
        if moved < player_z {
            moved
        } else {
            player_z
        }
    }

    /// Commit a computed z to the stored position.
    pub fn commit(&mut self, nz: i64)
        ensures
            final(self).x == old(self).x,
            final(self).z == nz,
    {
        self.z = nz;
    }
}

} // verus!
