//! Whole-tick scenarios: collisions, despawns, spawns at the flush point,
//! and the invariants the tick keeps over many frames.

use rail_shooter::bullet::Bullet;
use rail_shooter::enemy::Enemy;
use rail_shooter::gun::{AssetHandles, Gun};
use rail_shooter::input::InputState;
use rail_shooter::player::Player;
use rail_shooter::road::Road;
use rail_shooter::world::{bullet_pass, enemy_pass, World};

fn no_keys() -> InputState {
    InputState { left: false, right: false, up: false, down: false }
}

fn tokens(n: u64) -> AssetHandles {
    AssetHandles { mesh: n, material: n + 1 }
}

fn world_with(bullets: Vec<Bullet>, enemies: Vec<Enemy>) -> World {
    World {
        road: Road { z: 18_000 },
        player: Player { x: 0, z: 0 },
        gun: Gun::new(),
        bullets,
        enemies,
    }
}

#[test]
fn build_state() {
    let w = World::new();
    assert_eq!(w.road.z, 18_000);
    assert_eq!(w.player, Player { x: 0, z: 0 });
    assert_eq!(w.gun.last_fired, 0);
    assert_eq!(w.gun.handles, None);
    assert!(w.bullets.is_empty());
    assert_eq!(w.enemies, vec![Enemy { x: 0, z: -5000 }]);
}

#[test]
fn collision_within_tolerance_kills_once() {
    // Bullet sweeps 1.0 -> -1.0 across the enemy plane at 0.0; lateral
    // offset 0.1 is within the 0.15 tolerance: one kill, both marked.
    let (moved, bullet_marks, kill_marks) =
        bullet_pass(&vec![Bullet { x: 100, z: 1000 }], &vec![Enemy { x: 0, z: 0 }], 40);
    assert_eq!(bullet_marks, vec![true]);
    assert_eq!(kill_marks, vec![true]);
    // The killing bullet's position update is superseded by its despawn.
    assert_eq!(moved, vec![Bullet { x: 100, z: 1000 }]);
}

#[test]
fn collision_outside_tolerance_misses() {
    // Lateral offset 0.2 is beyond the 0.15 tolerance: no kill, and the
    // bullet's position commits to -1.0.
    let (moved, bullet_marks, kill_marks) =
        bullet_pass(&vec![Bullet { x: 200, z: 1000 }], &vec![Enemy { x: 0, z: 0 }], 40);
    assert_eq!(bullet_marks, vec![false]);
    assert_eq!(kill_marks, vec![false]);
    assert_eq!(moved, vec![Bullet { x: 200, z: -1000 }]);
}

#[test]
fn collision_through_world_tick() {
    let mut w = world_with(vec![Bullet { x: 100, z: 1000 }], vec![Enemy { x: 0, z: 0 }]);
    let shot = w.tick(&no_keys(), 40, 0, tokens(1));
    assert_eq!(shot, None);
    assert!(w.bullets.is_empty());
    assert!(w.enemies.is_empty());
}

#[test]
fn out_of_range_marked_regardless_of_collision() {
    // A bullet at 150.0 is out of range and is marked that very tick.
    let (_, bullet_marks, kill_marks) =
        bullet_pass(&vec![Bullet { x: 0, z: 150_000 }], &vec![Enemy { x: 0, z: -200_000 }], 0);
    assert_eq!(bullet_marks, vec![true]);
    assert_eq!(kill_marks, vec![false]);
    // Despawn destruction is deferred to the flush, so the same bullet can
    // still land a same-tick kill on its way out; it is marked either way.
    let (_, bullet_marks, kill_marks) =
        bullet_pass(&vec![Bullet { x: 0, z: 150_000 }], &vec![Enemy { x: 0, z: 100_000 }], 2000);
    assert_eq!(bullet_marks, vec![true]);
    assert_eq!(kill_marks, vec![true]);
}

#[test]
fn out_of_range_bullet_gone_after_tick() {
    let mut w = world_with(vec![Bullet { x: 0, z: 150_000 }], vec![]);
    w.tick(&no_keys(), 0, 0, tokens(1));
    assert!(w.bullets.is_empty());
}

#[test]
fn first_match_wins_single_kill() {
    // Both enemies satisfy the crossing and lateral tests; only the first
    // in store order dies.
    let enemies = vec![Enemy { x: 0, z: -100 }, Enemy { x: 10, z: -50 }];
    let (_, bullet_marks, kill_marks) =
        bullet_pass(&vec![Bullet { x: 0, z: 1000 }], &enemies, 40);
    assert_eq!(bullet_marks, vec![true]);
    assert_eq!(kill_marks, vec![true, false]);

    let mut w = world_with(vec![Bullet { x: 0, z: 1000 }], enemies);
    w.tick(&no_keys(), 40, 0, tokens(1));
    assert_eq!(w.enemies.len(), 1);
    assert_eq!(w.enemies[0].x, 10);
}

#[test]
fn gun_fires_and_spawns_at_flush() {
    let mut w = World::new();
    // 1.0s after the build the cooldown has long passed: the shot fires,
    // and its bullet appears at the gun's position at the flush point.
    let shot = w.tick(&no_keys(), 0, 1000, tokens(1));
    assert_eq!(shot, Some(tokens(1)));
    assert_eq!(w.gun.last_fired, 1000);
    assert_eq!(w.bullets, vec![Bullet { x: 0, z: 0 }]);
    // 0.4s later the gun is cooling; the bullet count stays.
    let shot = w.tick(&no_keys(), 0, 1400, tokens(2));
    assert_eq!(shot, None);
    assert_eq!(w.gun.last_fired, 1000);
    assert_eq!(w.bullets.len(), 1);
    // 0.6s after the first shot the gun fires again — and hands out the
    // pair cached on the first shot, not the fresh one.
    let shot = w.tick(&no_keys(), 0, 1600, tokens(3));
    assert_eq!(shot, Some(tokens(1)));
    assert_eq!(w.gun.last_fired, 1600);
    assert_eq!(w.bullets.len(), 2);
    assert_eq!(w.gun.handles, Some(tokens(1)));
}

#[test]
fn spawned_bullet_first_moves_next_tick() {
    let mut w = world_with(vec![], vec![]);
    w.tick(&no_keys(), 40, 1000, tokens(1));
    // Spawned at the flush: untouched by this tick's bullet movement.
    assert_eq!(w.bullets, vec![Bullet { x: 0, z: 0 }]);
    w.tick(&no_keys(), 40, 1040, tokens(1));
    // Next tick it moves: 50 u/s for 0.04s is 2.0 units.
    assert_eq!(w.bullets, vec![Bullet { x: 0, z: -2000 }]);
}

#[test]
fn enemy_pass_commits_motion() {
    let moved = enemy_pass(&vec![Enemy { x: 5, z: -5000 }], 2000, 1000);
    assert_eq!(moved, vec![Enemy { x: 5, z: -5500 }]);
    // The cap binds when the enemy would pass the player.
    let capped = enemy_pass(&vec![Enemy { x: 5, z: 2100 }], 0, 1000);
    assert_eq!(capped, vec![Enemy { x: 5, z: 0 }]);
}

#[test]
fn player_bounds_hold_over_many_ticks() {
    let mut w = World::new();
    let push = InputState { left: false, right: true, up: false, down: true };
    let pull = InputState { left: true, right: false, up: true, down: false };
    for t in 0..200i64 {
        let input = if t % 3 == 0 { pull } else { push };
        w.tick(&input, 7_000, t * 1000, tokens(4));
        assert!(-1800 <= w.player.x && w.player.x <= 1800);
        assert!(0 <= w.player.z && w.player.z <= 5000);
        // The road offset stays inside its wrap band: the endless road.
        assert!(-1000 <= w.road.z && w.road.z <= 18_010);
    }
}

#[test]
fn road_zero_delta_tick_keeps_offset() {
    let mut w = World::new();
    w.tick(&no_keys(), 0, 0, tokens(1));
    assert_eq!(w.road.z, 18_000);
}
