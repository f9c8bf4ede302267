//! The four directional key states a tick reads, and their decoding into a
//! movement intent. Opposing keys resolve by an explicit priority: right
//! beats left, down beats up.

use vstd::prelude::*;
use crate::units::{scaled, scale_disp, MAX_DELTA, PLAYER_VEL};

verus! {

/// The pressed-state of the four movement keys for one tick, as the external
/// input provider reports them.
#[derive(Clone, Copy, PartialEq, Eq, Debug)]
pub struct InputState {
    pub left: bool,
    pub right: bool,
    pub up: bool,
    pub down: bool,
}

/// Sideways intent: +1 toward positive x when right is pressed (right beats
/// left), -1 when only left is, else 0.
pub open spec fn x_intent(input: InputState) -> int {
    if input.right {
        1
    } else if input.left {
        -1
    } else {
        0
    }
}

/// Depth intent: +1 toward positive z when down is pressed (down beats up),
/// -1 when only up is, else 0.
pub open spec fn z_intent(input: InputState) -> int {
    if input.down {
        1
    } else if input.up {
        -1
    } else {
        0
    }
}

/// Desired (x, z) displacement for this tick: the intent of each axis times
/// the player speed, over the frame delta.
pub fn decode_move(input: &InputState, delta: i64) -> (d: (i64, i64))
    requires
        0 <= delta <= MAX_DELTA,
    ensures
        d.0 as int == x_intent(*input) * scaled(PLAYER_VEL as int, delta as int),
        d.1 as int == z_intent(*input) * scaled(PLAYER_VEL as int, delta as int),
{
    let step = scale_disp(PLAYER_VEL, delta);
    let mut x: i64 = 0;
    let mut z: i64 = 0;
    if input.left {
        x = -step;
    }
    if input.right {
        x = step;
    }
    if input.up {
        z = -step;
    }
    if input.down {
        z = step;
    }
    proof {
        let s = scaled(PLAYER_VEL as int, delta as int);
        assert(0int * s == 0) by (nonlinear_arith);
        assert(1int * s == s) by (nonlinear_arith);
        assert((-1int) * s == -s) by (nonlinear_arith);
    }
    (x, z)
}

} // verus!
