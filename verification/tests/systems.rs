//! Per-system checks: road wrap, input decoding, player clamping, gun
//! cooldown and caching, and enemy stepping. All values are fixed-point
//! thousandths of a unit or of a second.

use rail_shooter::enemy::Enemy;
use rail_shooter::gun::{AssetHandles, Gun};
use rail_shooter::input::{decode_move, InputState};
use rail_shooter::player::Player;
use rail_shooter::road::Road;

fn keys(left: bool, right: bool, up: bool, down: bool) -> InputState {
    InputState { left, right, up, down }
}

#[test]
fn road_wrap_crossing_threshold() {
    // After scrolling one second at 1.0 u/s, 2.805 lands on 1.805: past the
    // 1.0 threshold with remainder 0.005 < 0.01, so z becomes rem + 18.0.
    let mut road = Road { z: 2805 };
    road.scroll(1000);
    assert_eq!(road.z, 5 + 18_000);
}

#[test]
fn road_scroll_without_wrap() {
    // 18.0 scrolls to 17.0; remainder 0.8 is outside the window: no wrap.
    let mut road = Road { z: 18_000 };
    road.scroll(1000);
    assert_eq!(road.z, 17_000);
}

#[test]
fn road_zero_delta_keeps_position() {
    let mut road = Road { z: 17_000 };
    road.scroll(0);
    assert_eq!(road.z, 17_000);
    // The start offset 18.0 is the wrap rule's own fixed point: the wrap
    // fires and lands exactly where it started.
    let mut at_start = Road { z: 18_000 };
    at_start.scroll(0);
    assert_eq!(at_start.z, 18_000);
}

#[test]
fn decode_move_per_axis() {
    // One second at player speed 1.0 u/s: one unit of displacement.
    assert_eq!(decode_move(&keys(false, true, false, false), 1000), (1000, 0));
    assert_eq!(decode_move(&keys(true, false, false, false), 1000), (-1000, 0));
    assert_eq!(decode_move(&keys(false, false, true, false), 1000), (0, -1000));
    assert_eq!(decode_move(&keys(false, false, false, true), 1000), (0, 1000));
    assert_eq!(decode_move(&keys(false, false, false, false), 1000), (0, 0));
}

#[test]
fn decode_move_opposing_keys_priority() {
    // Right beats left, down beats up.
    assert_eq!(decode_move(&keys(true, true, false, false), 1000), (1000, 0));
    assert_eq!(decode_move(&keys(false, false, true, true), 1000), (0, 1000));
}

#[test]
fn player_clamped_to_play_area() {
    // Ten seconds to the right and up drives the player to the area's edge.
    let mut p = Player { x: 0, z: 2500 };
    p.advance(&keys(false, true, true, false), 10_000);
    assert_eq!(p.x, 1800);
    assert_eq!(p.z, 0);
    let mut q = Player { x: 0, z: 2500 };
    q.advance(&keys(true, false, false, true), 10_000);
    assert_eq!(q.x, -1800);
    assert_eq!(q.z, 5000);
}

#[test]
fn player_small_step_unclamped() {
    let mut p = Player { x: 0, z: 1000 };
    p.advance(&keys(false, true, false, true), 500);
    assert_eq!(p.x, 500);
    assert_eq!(p.z, 1500);
}

#[test]
fn gun_cooldown_two_attempts() {
    // A shot lands at t=0; 0.4s later the gun is still cooling, 0.6s later
    // it fires again.
    let mut gun = Gun { last_fired: -1000, handles: None };
    assert!(gun.try_fire(0));
    assert_eq!(gun.last_fired, 0);
    assert!(!gun.try_fire(400));
    assert_eq!(gun.last_fired, 0);
    assert!(gun.try_fire(600));
    assert_eq!(gun.last_fired, 600);
}

#[test]
fn gun_cooldown_boundary_is_strict() {
    // Exactly one period apart does not fire: the rule is strictly greater.
    let mut gun = Gun { last_fired: 1000, handles: None };
    assert!(!gun.try_fire(1500));
    assert!(gun.try_fire(1501));
}

#[test]
fn guns_cool_down_independently() {
    let mut a = Gun::new();
    let mut b = Gun::new();
    assert!(a.try_fire(1000));
    // b never fired yet: its own clock alone decides.
    assert!(b.try_fire(1200));
    // a is still cooling while b is too, each against its own last shot.
    assert!(!a.try_fire(1400));
    assert!(!b.try_fire(1400));
    assert!(a.try_fire(1600));
    assert!(!b.try_fire(1600));
}

#[test]
fn gun_handles_cached_once() {
    let first = AssetHandles { mesh: 7, material: 8 };
    let second = AssetHandles { mesh: 9, material: 10 };
    let mut gun = Gun::new();
    assert!(gun.needs_handles());
    assert_eq!(gun.obtain_handles(first), first);
    assert!(!gun.needs_handles());
    // A filled cache is shared, never replaced by a fresh pair.
    assert_eq!(gun.obtain_handles(second), first);
    assert_eq!(gun.handles, Some(first));
}

#[test]
fn enemy_step_integrates_and_caps() {
    // One second at 0.5 u/s moves 1.0 -> 0.5; the player at 0.4 caps it.
    let e = Enemy { x: 0, z: 1000 };
    assert_eq!(e.step(400, 1000), 400);
    // Far behind the player, the cap does not bind.
    let far = Enemy { x: 0, z: -5000 };
    assert_eq!(far.step(400, 1000), -5500);
}

#[test]
fn enemy_step_does_not_commit() {
    // Integration alone leaves the stored position untouched; commit is the
    // separate, explicit write.
    let mut e = Enemy { x: 3, z: 1000 };
    let nz = e.step(0, 1000);
    assert_eq!(e.z, 1000);
    e.commit(nz);
    assert_eq!(e.z, 0);
    assert_eq!(e.x, 3);
}
