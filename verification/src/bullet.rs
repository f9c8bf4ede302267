//! Bullets: straight-line motion toward negative z, an out-of-range mark,
//! and a crossing-based collision test against enemies. The crossing test
//! asks whether the interval a bullet sweeps in one tick straddles the
//! enemy's z plane, so a fast bullet cannot tunnel through a thin enemy; it
//! deliberately ignores enemy depth and the y axis.

use vstd::prelude::*;
use crate::enemy::Enemy;
use crate::units::{
    coord_ok, scaled, scale_disp, BULLET_VEL, ENEMY_SIZE, MAX_COORD, MAX_DELTA,
};

verus! {

/// Magnitude of z beyond which a bullet is out of range: 100.0 units.
pub const BULLET_RANGE: i64 = 100_000;

/// A bullet's position. The visual asset pair it carries is shared from the
/// gun's cache and is no part of the simulated state.
#[derive(Clone, Copy, PartialEq, Eq, Debug)]
pub struct Bullet {
    pub x: i64,
    pub z: i64,
}

/// Where a bullet's z lands after one tick: `z -= delta * BULLET_VEL`.
pub open spec fn bullet_moved_z(z: int, delta: int) -> int {
    z - scaled(BULLET_VEL as int, delta)
}

/// Whether a bullet at `z` is out of range and due for despawn this tick.
pub open spec fn out_of_range(z: int) -> bool {
    vstd::math::abs(z) > BULLET_RANGE
}

/// The collision test of one bullet against one enemy for one tick: the
/// bullet's sweep from its old z down to its new z straddles the enemy's z
/// plane, and the lateral offset is within half an enemy width.
pub open spec fn crossing_hit(b: Bullet, e: Enemy, delta: int) -> bool {
    &&& b.z >= e.z
    &&& bullet_moved_z(b.z as int, delta) <= e.z
    &&& vstd::math::abs(b.x - e.x) <= ENEMY_SIZE as int / 2
}

/// First enemy index at or after `k` that the bullet hits this tick.
pub open spec fn first_hit_from(b: Bullet, es: Seq<Enemy>, delta: int, k: int) -> Option<int>
    decreases es.len() - k,
{
    if k < 0 || k >= es.len() {
        None
    } else if crossing_hit(b, es[k], delta) {
        Some(k)
    } else {
        first_hit_from(b, es, delta, k + 1)
    }
}

/// The enemy this bullet kills this tick, if any: the first one it hits, in
/// store order. The scan stops at the first match.
pub open spec fn hit_of(b: Bullet, es: Seq<Enemy>, delta: int) -> Option<int> {
    first_hit_from(b, es, delta, 0)
}

/// What the first-match scan returns, spelled out: a miss means no enemy
/// from `k` on is hit, and a match is a hit index with only misses before
/// it.
pub proof fn lemma_first_hit_from(b: Bullet, es: Seq<Enemy>, delta: int, k: int)
    requires
        0 <= k <= es.len(),
    ensures
        first_hit_from(b, es, delta, k) is None <==> (forall|j: int|
            k <= j < es.len() ==> !crossing_hit(b, es[j], delta)),
        first_hit_from(b, es, delta, k) matches Some(i) ==> {
            &&& k <= i < es.len()
            &&& crossing_hit(b, es[i], delta)
            &&& forall|j: int| k <= j < i ==> !crossing_hit(b, es[j], delta)
        },
    decreases es.len() - k,
{
    if k < es.len() && !crossing_hit(b, es[k], delta) {
        lemma_first_hit_from(b, es, delta, k + 1);
    }
}

/// At most one enemy dies per bullet per tick: even when several enemies
/// satisfy the crossing-and-lateral test, the bullet's kill is exactly the
/// first of them in store order, and no other.
pub proof fn lemma_single_kill(b: Bullet, es: Seq<Enemy>, delta: int)
    ensures
        hit_of(b, es, delta) is Some <==> (exists|j: int|
            0 <= j < es.len() && crossing_hit(b, es[j], delta)),
        hit_of(b, es, delta) matches Some(i) ==> {
            &&& 0 <= i < es.len()
            &&& crossing_hit(b, es[i], delta)
            &&& forall|j: int| 0 <= j < i ==> !crossing_hit(b, es[j], delta)
            &&& forall|j: int| 0 <= j < es.len() && j != i ==> hit_of(b, es, delta) != Some(j)
        },
{
    lemma_first_hit_from(b, es, delta, 0);
}

/// The first-match scan of one bullet over the enemy store: returns the
/// index of the enemy this bullet kills this tick, if any.
pub fn bullet_hit_scan(b: &Bullet, enemies: &Vec<Enemy>, delta: i64) -> (hit: Option<usize>)
    requires
        0 <= delta <= MAX_DELTA,
        coord_ok(b.x as int),
        coord_ok(b.z as int),
        forall|j: int|
            0 <= j < enemies@.len() ==> coord_ok(#[trigger] enemies@[j].x as int) && coord_ok(
                enemies@[j].z as int,
            ),
    ensures
        match hit {
            Some(i) => i < enemies@.len() && hit_of(*b, enemies@, delta as int) == Some(i as int),
            None => hit_of(*b, enemies@, delta as int) is None,
        },
{
    let new_z = b.z - scale_disp(BULLET_VEL, delta);
    let mut i: usize = 0;
    while i < enemies.len()
        invariant
            0 <= i <= enemies@.len(),
            0 <= delta <= MAX_DELTA,
            coord_ok(b.x as int),
            coord_ok(b.z as int),
            forall|j: int|
                0 <= j < enemies@.len() ==> coord_ok(#[trigger] enemies@[j].x as int) && coord_ok(
                    enemies@[j].z as int,
                ),
            new_z as int == bullet_moved_z(b.z as int, delta as int),
            forall|j: int| 0 <= j < i ==> !crossing_hit(*b, enemies@[j], delta as int),
        decreases enemies@.len() - i,
    {
        let e = enemies[i];
        if b.z >= e.z && new_z <= e.z {
            let dx = b.x - e.x;
            let lateral = if dx < 0 {
                -dx
            } else {
                dx
            };
            if lateral <= ENEMY_SIZE / 2 {
                proof {
                    lemma_first_hit_from(*b, enemies@, delta as int, 0);
                    assert(crossing_hit(*b, enemies@[i as int], delta as int));
                    lemma_hit_prefix_misses(*b, enemies@, delta as int, i as int);
                }
                return Some(i);
            }
        }
        i = i + 1;
    }
    proof {
        lemma_first_hit_from(*b, enemies@, delta as int, 0);
    }
    None
}

/// When every index below `i` misses and `i` hits, the scan's answer is `i`.
proof fn lemma_hit_prefix_misses(b: Bullet, es: Seq<Enemy>, delta: int, i: int)
    requires
        0 <= i < es.len(),
        crossing_hit(b, es[i], delta),
        forall|j: int| 0 <= j < i ==> !crossing_hit(b, es[j], delta),
    ensures
        hit_of(b, es, delta) == Some(i),
{
    lemma_hit_from_prefix(b, es, delta, 0, i);
}

/// Stepping the scan's start over misses does not change its answer.
proof fn lemma_hit_from_prefix(b: Bullet, es: Seq<Enemy>, delta: int, k: int, i: int)
    requires
        0 <= k <= i < es.len(),
        crossing_hit(b, es[i], delta),
        forall|j: int| k <= j < i ==> !crossing_hit(b, es[j], delta),
    ensures
        first_hit_from(b, es, delta, k) == Some(i),
    decreases i - k,
{
    if k < i {
        lemma_hit_from_prefix(b, es, delta, k + 1, i);
    }
}

} // verus!
