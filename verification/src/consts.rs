//! The fixed configuration of the game.
//!
//! Distances are measured in milli-units: one thousandth of a world unit.
//! Time is measured in milliseconds.  With those scales a velocity of one
//! world unit per second is exactly one milli-unit per millisecond, and an
//! acceleration of one thousand world units per second squared is exactly one
//! milli-unit per millisecond squared, so gravity, jumping and scrolling all
//! integrate without rounding.

use vstd::prelude::*;

verus! {

/// Horizontal scroll speed of obstacles, in milli-units per millisecond
/// (400 world units per second).
pub const GAME_SPEED: i64 = 400;

/// Vertical velocity set by an accepted jump, in milli-units per millisecond
/// (1000 world units per second).
pub const JUMP_FORCE: i64 = 1000;

/// Gravitational acceleration, in milli-units per millisecond squared
/// (-4000 world units per second squared).
pub const GRAVITY: i64 = -4;

/// Fixed horizontal position of the controllable entity, in milli-units.
pub const PLAYER_X: i64 = -300_000;

/// Width of the controllable entity, in milli-units (30 world units).
pub const PLAYER_WIDTH: i64 = 30_000;

/// Height of the controllable entity, in milli-units (50 world units).
pub const PLAYER_HEIGHT: i64 = 50_000;

/// Period of the obstacle spawn timer, in milliseconds.
pub const SPAWN_INTERVAL: i64 = 1000;

/// Vertical position of the ground, in milli-units (-100 world units).
pub const GROUND_LEVEL: i64 = -100_000;

/// Half the width of the ground span, in milli-units.  Obstacles appear at
/// `GROUND_EDGE` and are reaped once they pass `-GROUND_EDGE`.
pub const GROUND_EDGE: i64 = 400_000;

/// Width of an obstacle, in milli-units (30 world units).
pub const OBSTACLE_WIDTH: i64 = 30_000;

/// Height of an obstacle, in milli-units (30 world units).
pub const OBSTACLE_HEIGHT: i64 = 30_000;

/// Largest vertical spawn offset above ground level, in milli-units.  A spawn
/// draws a whole number of world units in `0 .. 50`.
pub const MAX_SPAWN_OFFSET: i64 = 49_000;

/// Health of a fresh session.
pub const START_HEALTH: u32 = 3;

/// Largest frame delta a tick accepts, in milliseconds (about a day).  The
/// bound keeps every intermediate product of the integration inside `i64`.
pub const MAX_DT: i64 = 100_000_000;

/// Greatest height above ground the entity can reach, in milli-units.  A jump
/// starts at `JUMP_FORCE` milli-units per millisecond and loses `-GRAVITY`
/// per millisecond, so the rise is bounded by
/// `JUMP_FORCE * JUMP_FORCE / (2 * -GRAVITY)`.
pub const MAX_RISE: i64 = 125_000;

/// Largest vertical speed (either sign) the integrator can produce within one
/// frame, in milli-units per millisecond: a jump impulse (`JUMP_FORCE`) plus
/// one full frame of gravity (`-GRAVITY * MAX_DT`).
pub const MAX_FALL_SPEED: i64 = 400_001_000;

} // verus!
