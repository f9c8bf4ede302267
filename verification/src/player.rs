//! The player's avatar: exactly one exists, resolved once at world-build
//! time, and its position is integrated from the movement intent and then
//! clamped to the play area every tick.

use vstd::prelude::*;
use crate::input::{decode_move, x_intent, z_intent, InputState};
use crate::units::{clamped, coord_ok, scaled, MAX_DELTA, PLAYER_VEL};

verus! {

/// Half-width of the play area: x stays in [-1.8, 1.8] units.
pub const PLAYER_X_LIMIT: i64 = 1800;

/// Near edge of the play area: z stays at or above 0.
pub const PLAYER_Z_MIN: i64 = 0;

/// Far edge of the play area: z stays at or below 5.0 units.
pub const PLAYER_Z_MAX: i64 = 5000;

/// The player's position; only x and z move, the height is fixed by the
/// scene and not simulated.
#[derive(Clone, Copy, PartialEq, Eq, Debug)]
pub struct Player {
    pub x: i64,
    pub z: i64,
}

/// The play-area invariant: x in [-1.8, 1.8] and z in [0, 5] units.
pub open spec fn player_in_bounds(p: Player) -> bool {
    &&& -PLAYER_X_LIMIT <= p.x <= PLAYER_X_LIMIT
    &&& PLAYER_Z_MIN <= p.z <= PLAYER_Z_MAX
}

impl Player {
    /// One tick of the player controller: add the decoded displacement,
    /// then clamp each axis to the play area. The clamp makes the bounds
    /// hold after every tick, whatever the keys and whatever the position
    /// was before.
    pub fn advance(&mut self, input: &InputState, delta: i64)
        requires
            0 <= delta <= MAX_DELTA,
            coord_ok(old(self).x as int),
            coord_ok(old(self).z as int),
        ensures
            final(self).x as int == clamped(
                old(self).x + x_intent(*input) * scaled(PLAYER_VEL as int, delta as int),
                -PLAYER_X_LIMIT as int,
                PLAYER_X_LIMIT as int,
            ),
            final(self).z as int == clamped(
                old(self).z + z_intent(*input) * scaled(PLAYER_VEL as int, delta as int),
                PLAYER_Z_MIN as int,
                PLAYER_Z_MAX as int,
            ),
            player_in_bounds(*final(self)),
    {
        let (dx, dz) = decode_move(input, delta);
        let x = self.x + dx;
        let z = self.z + dz;
        self.x = if x < -PLAYER_X_LIMIT {
            -PLAYER_X_LIMIT
        } else if x > PLAYER_X_LIMIT {
            PLAYER_X_LIMIT
        } else {
            x
        };
        self.z = if z < PLAYER_Z_MIN {
            PLAYER_Z_MIN
        } else if z > PLAYER_Z_MAX {
            PLAYER_Z_MAX
        } else {
            z
        };
    }
}

} // verus!
