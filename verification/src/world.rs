//! The shared store and the frame tick: five systems run in a fixed order
//! over one `World`, structural changes are collected as despawn marks and a
//! buffered spawn during the tick, and one flush point at the end of the
//! tick applies them. A despawn marked mid-tick is therefore still visible
//! to every system of the same tick, and a bullet spawned this tick is first
//! processed on the next one.

use vstd::prelude::*;
use crate::bullet::{
    bullet_hit_scan, bullet_moved_z, hit_of, out_of_range, Bullet, BULLET_RANGE,
};
use crate::enemy::{enemy_next_z, Enemy};
use crate::gun::{fire_due, AssetHandles, Gun};
use crate::input::{x_intent, z_intent, InputState};
use crate::player::{
    player_in_bounds, Player, PLAYER_X_LIMIT, PLAYER_Z_MAX, PLAYER_Z_MIN,
};
use crate::road::{road_in_band, road_step, Road, WRAP_JUMP};
use crate::units::{
    clamped, coord_ok, scale_disp, scaled, BULLET_VEL, MAX_DELTA, MAX_TIME, PLAYER_VEL,
};

verus! {

/// A bullet whose coordinates the tick arithmetic can take.
pub open spec fn bullet_ok(b: Bullet) -> bool {
    coord_ok(b.x as int) && coord_ok(b.z as int)
}

/// An enemy whose coordinates the tick arithmetic can take.
pub open spec fn enemy_ok(e: Enemy) -> bool {
    coord_ok(e.x as int) && coord_ok(e.z as int)
}

/// `s` with the elements under a `true` mark removed, order kept.
pub open spec fn discard_marked<T>(s: Seq<T>, m: Seq<bool>) -> Seq<T>
    decreases s.len(),
{
    if s.len() == 0 {
        Seq::empty()
    } else {
        let front = discard_marked(s.drop_last(), m.drop_last());
        if m[s.len() - 1] {
            front
        } else {
            front.push(s.last())
        }
    }
}

/// Every element that survives the discard is an element of the starting
/// sequence under a `false` mark.
pub proof fn lemma_discard_marked_elements<T>(s: Seq<T>, m: Seq<bool>)
    requires
        s.len() == m.len(),
    ensures
        discard_marked(s, m).len() <= s.len(),
        forall|k: int|
            0 <= k < discard_marked(s, m).len() ==> (exists|i: int|
                0 <= i < s.len() && !m[i] && #[trigger] discard_marked(s, m)[k] == s[i]),
    decreases s.len(),
{
    if s.len() > 0 {
        lemma_discard_marked_elements(s.drop_last(), m.drop_last());
        let r = discard_marked(s, m);
        let front = discard_marked(s.drop_last(), m.drop_last());
        assert forall|k: int| 0 <= k < r.len() implies (exists|i: int|
            0 <= i < s.len() && !m[i] && #[trigger] r[k] == s[i]) by {
            if k < front.len() {
                let i = choose|i: int|
                    0 <= i < s.drop_last().len() && !m.drop_last()[i] && front[k] == s.drop_last()[i];
                assert(0 <= i < s.len() && !m[i] && r[k] == s[i]);
            } else {
                assert(!m[s.len() - 1] && r[k] == s[s.len() - 1]);
            }
        }
    }
}

/// The flush point's keep step: the elements of `v` whose mark is `false`,
/// in order.
pub fn retain_unmarked<T: Copy>(v: &Vec<T>, marks: &Vec<bool>) -> (r: Vec<T>)
    requires
        v@.len() == marks@.len(),
    ensures
        r@ == discard_marked(v@, marks@),
{
    let mut r: Vec<T> = Vec::new();
    let mut i: usize = 0;
    while i < v.len()
        invariant
            0 <= i <= v@.len(),
            v@.len() == marks@.len(),
            r@ == discard_marked(v@.take(i as int), marks@.take(i as int)),
        decreases v@.len() - i,
    {
        proof {
            let s1 = v@.take(i as int + 1);
            let m1 = marks@.take(i as int + 1);
            assert(s1.drop_last() =~= v@.take(i as int));
            assert(m1.drop_last() =~= marks@.take(i as int));
        }
        if !marks[i] {
            r.push(v[i]);
        }
        i = i + 1;
    }
    proof {
        assert(v@.take(v@.len() as int) =~= v@);
        assert(marks@.take(marks@.len() as int) =~= marks@);
    }
    r
}

/// Where each bullet stands after its move, with a killing bullet's position
/// left as it was: its update is superseded by its own despawn.
pub open spec fn moved_bullets(bs: Seq<Bullet>, es: Seq<Enemy>, delta: int) -> Seq<Bullet> {
    Seq::new(
        bs.len(),
        |i: int|
            Bullet {
                x: bs[i].x,
                z: if hit_of(bs[i], es, delta) is Some {
                    bs[i].z
                } else {
                    bullet_moved_z(bs[i].z as int, delta) as i64
                },
            },
    )
}

/// Which bullets the flush removes: the out-of-range ones and the ones that
/// killed. Out-of-range marking is independent of the collision outcome —
/// a bullet far out of range is marked even when it also kills this tick.
pub open spec fn bullet_despawn_marks(bs: Seq<Bullet>, es: Seq<Enemy>, delta: int) -> Seq<bool> {
    Seq::new(
        bs.len(),
        |i: int| out_of_range(bs[i].z as int) || hit_of(bs[i], es, delta) is Some,
    )
}

/// An out-of-range bullet is marked for despawn the very tick it is seen,
/// whatever its collision scan came to.
pub proof fn lemma_out_of_range_despawned(bs: Seq<Bullet>, es: Seq<Enemy>, delta: int, i: int)
    requires
        0 <= i < bs.len(),
        out_of_range(bs[i].z as int),
    ensures
        bullet_despawn_marks(bs, es, delta)[i],
{
}

/// Which enemies the flush removes: those some bullet's first-match scan
/// landed on this tick.
pub open spec fn enemy_kill_marks(bs: Seq<Bullet>, es: Seq<Enemy>, delta: int) -> Seq<bool> {
    Seq::new(
        es.len(),
        |j: int|
            exists|i: int| 0 <= i < bs.len() && hit_of(bs[i], es, delta) == Some(j),
    )
}

/// Where each enemy stands after its move: integrated toward the player and
/// capped at the player's z.
pub open spec fn moved_enemies(es: Seq<Enemy>, player_z: int, delta: int) -> Seq<Enemy> {
    Seq::new(
        es.len(),
        |j: int| Enemy { x: es[j].x, z: enemy_next_z(es[j].z as int, player_z, delta) as i64 },
    )
}

/// The bullet system's pass over the store: moves every bullet, runs the
/// first-match collision scan of each against the (not yet moved) enemies,
/// and collects the despawn marks for the flush point. Nothing is removed
/// here: despawns become visible only when the flush applies them.
pub fn bullet_pass(bullets: &Vec<Bullet>, enemies: &Vec<Enemy>, delta: i64) -> (r: (
    Vec<Bullet>,
    Vec<bool>,
    Vec<bool>,
))
    requires
        0 <= delta <= MAX_DELTA,
        forall|i: int| 0 <= i < bullets@.len() ==> bullet_ok(#[trigger] bullets@[i]),
        forall|j: int| 0 <= j < enemies@.len() ==> enemy_ok(#[trigger] enemies@[j]),
    ensures
        r.0@ == moved_bullets(bullets@, enemies@, delta as int),
        r.1@ == bullet_despawn_marks(bullets@, enemies@, delta as int),
        r.2@ == enemy_kill_marks(bullets@, enemies@, delta as int),
{
    let ghost bs = bullets@;
    let ghost es = enemies@;
    let mut moved: Vec<Bullet> = Vec::new();
    let mut bmarks: Vec<bool> = Vec::new();
    let mut emarks: Vec<bool> = Vec::new();
    let mut j: usize = 0;
    while j < enemies.len()
        invariant
            0 <= j <= es.len(),
            es == enemies@,
            emarks@.len() == j,
            forall|k: int| 0 <= k < j ==> !(#[trigger] emarks@[k]),
        decreases es.len() - j,
    {
        emarks.push(false);
        j = j + 1;
    }
    let mut i: usize = 0;
    while i < bullets.len()
        invariant
            0 <= i <= bs.len(),
            bs == bullets@,
            es == enemies@,
            0 <= delta <= MAX_DELTA,
            forall|k: int| 0 <= k < bs.len() ==> bullet_ok(#[trigger] bs[k]),
            forall|k: int| 0 <= k < es.len() ==> enemy_ok(#[trigger] es[k]),
            moved@.len() == i,
            bmarks@.len() == i,
            emarks@.len() == es.len(),
            forall|k: int|
                0 <= k < i ==> #[trigger] moved@[k] == moved_bullets(bs, es, delta as int)[k],
            forall|k: int|
                0 <= k < i ==> #[trigger] bmarks@[k] == bullet_despawn_marks(
                    bs,
                    es,
                    delta as int,
                )[k],
            forall|k: int|
                0 <= k < es.len() ==> #[trigger] emarks@[k] == (exists|i2: int|
                    0 <= i2 < i && hit_of(bs[i2], es, delta as int) == Some(k)),
        decreases bs.len() - i,
    {
        let b = bullets[i];
        let magnitude = if b.z < 0 {
            -b.z
        } else {
            b.z
        };
        let range_out = magnitude > BULLET_RANGE;
        let hit = bullet_hit_scan(&b, enemies, delta);
        match hit {
            Some(target) => {
                moved.push(b);
                bmarks.push(true);
                emarks[target] = true;
                proof {
                    assert forall|k: int| 0 <= k < es.len() implies #[trigger] emarks@[k] == (
                    exists|i2: int|
                        0 <= i2 < i + 1 && hit_of(bs[i2], es, delta as int) == Some(k)) by {
                        if k == target {
                            assert(hit_of(bs[i as int], es, delta as int) == Some(k));
                        } else {
                            if exists|i2: int|
                                0 <= i2 < i + 1 && hit_of(bs[i2], es, delta as int) == Some(k) {
                                let w = choose|i2: int|
                                    0 <= i2 < i + 1 && hit_of(bs[i2], es, delta as int) == Some(
                                        k,
                                    );
                                assert(w < i);
                            }
                        }
                    }
                }
            },
            None => {
                let new_z = b.z - scale_disp(BULLET_VEL, delta);
                moved.push(Bullet { x: b.x, z: new_z });
                bmarks.push(range_out);
                proof {
                    assert forall|k: int| 0 <= k < es.len() implies #[trigger] emarks@[k] == (
                    exists|i2: int|
                        0 <= i2 < i + 1 && hit_of(bs[i2], es, delta as int) == Some(k)) by {
                        if exists|i2: int|
                            0 <= i2 < i + 1 && hit_of(bs[i2], es, delta as int) == Some(k) {
                            let w = choose|i2: int|
                                0 <= i2 < i + 1 && hit_of(bs[i2], es, delta as int) == Some(k);
                            assert(w < i);
                        }
                    }
                }
            },
        }
        i = i + 1;
    }
    proof {
        assert(moved@ =~= moved_bullets(bs, es, delta as int));
        assert(bmarks@ =~= bullet_despawn_marks(bs, es, delta as int));
        assert(emarks@ =~= enemy_kill_marks(bs, es, delta as int));
    }
    (moved, bmarks, emarks)
}

/// The enemy controller's pass: computes and commits every enemy's next
/// position. The player's position is handed in as the resolved unique
/// player — the store is built with exactly one.
pub fn enemy_pass(enemies: &Vec<Enemy>, player_z: i64, delta: i64) -> (r: Vec<Enemy>)
    requires
        0 <= delta <= MAX_DELTA,
        coord_ok(player_z as int),
        forall|j: int| 0 <= j < enemies@.len() ==> enemy_ok(#[trigger] enemies@[j]),
    ensures
        r@ == moved_enemies(enemies@, player_z as int, delta as int),
{
    let ghost es = enemies@;
    let mut r: Vec<Enemy> = Vec::new();
    let mut j: usize = 0;
    while j < enemies.len()
        invariant
            0 <= j <= es.len(),
            es == enemies@,
            0 <= delta <= MAX_DELTA,
            coord_ok(player_z as int),
            forall|k: int| 0 <= k < es.len() ==> enemy_ok(#[trigger] es[k]),
            r@.len() == j,
            forall|k: int|
                0 <= k < j ==> #[trigger] r@[k] == moved_enemies(es, player_z as int, delta as int)[k],
        decreases es.len() - j,
    {
        let e = enemies[j];
        let mut moved = e;
        let nz = e.step(player_z, delta);
        moved.commit(nz);
        r.push(moved);
        j = j + 1;
    }
    proof {
        assert(r@ =~= moved_enemies(es, player_z as int, delta as int));
    }
    r
}

/// The entity store the five systems share: the road's parent offset, the
/// one player (resolved at world-build time — there is exactly one, by
/// construction), the player's gun, and the live bullets and enemies.
pub struct World {
    pub road: Road,
    pub player: Player,
    pub gun: Gun,
    pub bullets: Vec<Bullet>,
    pub enemies: Vec<Enemy>,
}

impl World {
    /// Well-formedness the tick preserves: the player inside the play area,
    /// the road offset inside its wrap band, the gun clock inside the
    /// admitted range, and every live bullet's coordinates inside the
    /// arithmetic's range.
    pub open spec fn wf(self) -> bool {
        &&& player_in_bounds(self.player)
        &&& road_in_band(self.road.z as int)
        &&& -MAX_TIME <= self.gun.last_fired <= MAX_TIME
        &&& forall|i: int| 0 <= i < self.bullets@.len() ==> bullet_ok(#[trigger] self.bullets@[i])
    }

    /// The world as the scene builder leaves it: the road parent ten
    /// segments out, the player with its gun at the origin of the play
    /// area, no bullets, and one enemy five units out.
    pub fn new() -> (w: World)
        ensures
            w.wf(),
            w.road.z == WRAP_JUMP,
            w.player == (Player { x: 0, z: 0 }),
            w.gun.last_fired == 0,
            w.gun.handles is None,
            w.bullets@ == Seq::<Bullet>::empty(),
            w.enemies@ == seq![(Enemy { x: 0, z: -5000i64 })],
    {
        let mut enemies: Vec<Enemy> = Vec::new();
        enemies.push(Enemy { x: 0, z: -5000i64 });
        proof {
            assert(enemies@ =~= seq![(Enemy { x: 0, z: -5000i64 })]);
        }
        World {
            road: Road { z: WRAP_JUMP },
            player: Player { x: 0, z: 0 },
            gun: Gun::new(),
            bullets: Vec::new(),
            enemies,
        }
    }

    /// One frame: the five systems in their fixed order — road scroll,
    /// player move, gun, bullets, enemies — then the flush point applies
    /// the buffered spawn and despawns. Returns the asset pair of the shot
    /// when one was fired this tick, `None` otherwise.
    pub fn tick(
        &mut self,
        input: &InputState,
        delta: i64,
        now: i64,
        fresh: AssetHandles,
    ) -> (shot: Option<AssetHandles>)
        requires
            old(self).wf(),
            0 <= delta <= MAX_DELTA,
            -MAX_TIME <= now <= MAX_TIME,
            forall|j: int|
                0 <= j < old(self).enemies@.len() ==> enemy_ok(#[trigger] old(self).enemies@[j]),
        ensures
            final(self).wf(),
            // the road scrolled and possibly wrapped
            final(self).road.z as int == road_step(old(self).road.z as int, delta as int),
            // the player integrated and clamped
            final(self).player == player_step(old(self).player, *input, delta as int),
            // the gun fired exactly when the cooldown rule said so
            (shot is Some) == fire_due(old(self).gun.last_fired as int, now as int),
            final(self).gun.last_fired == if shot is Some {
                now
            } else {
                old(self).gun.last_fired
            },
            // the asset pair: cached once, then shared
            shot matches Some(h) ==> {
                &&& final(self).gun.handles == Some(h)
                &&& (old(self).gun.handles is Some ==> old(self).gun.handles == Some(h))
                &&& (old(self).gun.handles is None ==> h == fresh)
            },
            shot is None ==> final(self).gun.handles == old(self).gun.handles,
            // the flush: surviving moved bullets, then the buffered spawn at
            // the gun's (player's) position
            final(self).bullets@ == discard_marked(
                moved_bullets(old(self).bullets@, old(self).enemies@, delta as int),
                bullet_despawn_marks(old(self).bullets@, old(self).enemies@, delta as int),
            ) + spawn_of(shot, player_step(old(self).player, *input, delta as int)),
            // the flush: surviving moved enemies, killed ones removed
            final(self).enemies@ == discard_marked(
                moved_enemies(
                    old(self).enemies@,
                    player_step(old(self).player, *input, delta as int).z as int,
                    delta as int,
                ),
                enemy_kill_marks(old(self).bullets@, old(self).enemies@, delta as int),
            ),
    {
        self.road.scroll(delta);
        self.player.advance(input, delta);
        let fired = self.gun.try_fire(now);
        let shot = if fired {
            Some(self.gun.obtain_handles(fresh))
        } else {
            None
        };
        let (moved, bmarks, emarks) = bullet_pass(&self.bullets, &self.enemies, delta);
        let moved_es = enemy_pass(&self.enemies, self.player.z, delta);
        let mut kept = retain_unmarked(&moved, &bmarks);
        proof {
            lemma_discard_marked_elements(moved@, bmarks@);
        }
        if fired {
            kept.push(Bullet { x: self.player.x, z: self.player.z });
        }
        self.bullets = kept;
        self.enemies = retain_unmarked(&moved_es, &emarks);
        proof {
            let bs = old(self).bullets@;
            let es = old(self).enemies@;
            let d = delta as int;
            let surv = discard_marked(moved_bullets(bs, es, d), bullet_despawn_marks(bs, es, d));
            assert forall|k: int| 0 <= k < surv.len() implies bullet_ok(#[trigger] surv[k]) by {
                let i = choose|i: int|
                    0 <= i < moved_bullets(bs, es, d).len() && !bullet_despawn_marks(bs, es, d)[i]
                        && surv[k] == moved_bullets(bs, es, d)[i];
                crate::units::lemma_scaled_bounds(BULLET_VEL as int, d);
                crate::units::lemma_scaled_monotonic(BULLET_VEL as int, d, MAX_DELTA as int);
            }
            assert(self.bullets@ =~= surv + spawn_of(
                shot,
                player_step(old(self).player, *input, d),
            ));
        }
        shot
    }
}

/// Where the player controller leaves the player for this tick.
pub open spec fn player_step(p: Player, input: InputState, delta: int) -> Player {
    Player {
        x: clamped(
            p.x + x_intent(input) * scaled(PLAYER_VEL as int, delta),
            -PLAYER_X_LIMIT as int,
            PLAYER_X_LIMIT as int,
        ) as i64,
        z: clamped(
            p.z + z_intent(input) * scaled(PLAYER_VEL as int, delta),
            PLAYER_Z_MIN as int,
            PLAYER_Z_MAX as int,
        ) as i64,
    }
}

/// What the flush appends: the one bullet of this tick's shot, spawned at
/// the gun's position, or nothing.
pub open spec fn spawn_of(shot: Option<AssetHandles>, p: Player) -> Seq<Bullet> {
    if shot is Some {
        seq![(Bullet { x: p.x, z: p.z })]
    } else {
        Seq::empty()
    }
}

} // verus!
