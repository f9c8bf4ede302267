//! The gun: a cooldown-gated trigger and a lazily filled cache of the two
//! opaque visual-asset handles every bullet shares.

use vstd::prelude::*;
use crate::units::{GUN_PERIOD, MAX_TIME};

verus! {

/// The pair of opaque tokens standing for the bullet's mesh and material
/// handles. The simulation never looks inside them; the external asset
/// provider mints them and the renderer resolves them.
#[derive(Clone, Copy, PartialEq, Eq, Debug)]
pub struct AssetHandles {
    pub mesh: u64,
    pub material: u64,
}

/// The firing component: when it last fired, and the cached asset pair,
/// created once on the first shot and shared by every later one.
#[derive(Clone, Copy, PartialEq, Eq, Debug)]
pub struct Gun {
    pub last_fired: i64,
    pub handles: Option<AssetHandles>,
}

/// The cooldown rule: an attempt at `now` fires exactly when more than the
/// gun period has passed since the last shot. Firing is edge-free: however
/// far past the threshold the clock is, one attempt is one shot.
pub open spec fn fire_due(last_fired: int, now: int) -> bool {
    now - last_fired > GUN_PERIOD
}

impl Gun {
    /// A fresh gun: never fired, nothing cached.
    pub fn new() -> (g: Gun)
        ensures
            g.last_fired == 0,
            g.handles is None,
    {
        Gun { last_fired: 0, handles: None }
    }

    /// One fire attempt at clock `now`: fires exactly when the cooldown rule
    /// says so, and then stamps `now`; otherwise the gun is untouched.
    pub fn try_fire(&mut self, now: i64) -> (fired: bool)
        requires
            -MAX_TIME <= now <= MAX_TIME,
            -MAX_TIME <= old(self).last_fired <= MAX_TIME,
        ensures
            fired == fire_due(old(self).last_fired as int, now as int),
            final(self).last_fired == if fired {
                now
            } else {
                old(self).last_fired
            },
            final(self).handles == old(self).handles,
    {
        if now - self.last_fired > GUN_PERIOD {
            self.last_fired = now;
            true
        } else {
            false
        }
    }

    /// Whether the first shot still has to mint the asset pair.
    pub fn needs_handles(&self) -> (missing: bool)
        ensures
            missing == (self.handles is None),
    {
        self.handles.is_none()
    }

    /// The asset pair for a shot: the cached pair when there is one, else
    /// `fresh` is cached now and used. After the call the cache is filled,
    /// and a filled cache is never replaced.
    pub fn obtain_handles(&mut self, fresh: AssetHandles) -> (h: AssetHandles)
        ensures
            final(self).handles == Some(h),
            final(self).last_fired == old(self).last_fired,
            old(self).handles is Some ==> old(self).handles == Some(h),
            old(self).handles is None ==> h == fresh,
    {
        match self.handles {
            Some(cached) => cached,
            None => {
                self.handles = Some(fresh);
                fresh
            },
        }
    }
}

/// The cooldown law over two attempts: once a shot lands at `t1`, a second
/// attempt at `t2` is blocked when the two are at most one gun period apart,
/// and fires when they are further apart — so attempts no more than the
/// period apart yield exactly one shot, and attempts further apart each
/// yield one.
pub proof fn lemma_cooldown(t1: int, t2: int)
    ensures
        t2 - t1 <= GUN_PERIOD ==> !fire_due(t1, t2),
        t2 - t1 > GUN_PERIOD ==> fire_due(t1, t2),
{
}

} // verus!
