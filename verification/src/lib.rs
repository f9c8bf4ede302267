//! Simulation core of a small rail shooter.
//!
//! Each tick the library scrolls an endless road, moves a player inside a
//! clamped play area, fires a cooldown-gated gun, advances bullets with a
//! crossing-based collision test against enemies, and moves the enemies,
//! bounded by the player. Structural changes (bullet spawns, despawns) are
//! buffered during the tick and applied at a single flush point, so they
//! become visible only on the following tick.
//!
//! All positions, velocities and times are fixed-point values held in
//! thousandths of a world unit or of a second, so that every rule is exact
//! integer arithmetic.

pub mod units;
pub mod road;
pub mod input;
pub mod player;
pub mod gun;
pub mod enemy;
pub mod bullet;
pub mod world;
