//! Fixed-point units of the simulation.
//!
//! Time is counted in microseconds. A speed is counted in millionths of a
//! world unit per tick-second, so one second of gravity removes exactly
//! `GRAVITY_ACCEL` from a speed for every microsecond. A position is counted
//! in trillionths of a world unit: a speed times a time in microseconds
//! times `DISTANCE_SCALE` is then an exact displacement.
use vstd::prelude::*;

verus! {

/// Steps of speed in one world unit of speed.
pub const SPEED_SCALE: i64 = 1_000_000;

/// Steps of position in one world unit.
pub const POSITION_SCALE: i64 = 1_000_000_000_000;

/// Horizontal speed while a direction key is held (3.5 units).
pub const MOVEMENT_SPEED: i64 = 3_500_000;

/// Vertical speed given by a jump (5 units).
pub const JUMP_FORCE: i64 = 5_000_000;

/// Speed lost to gravity per microsecond (10 units per second).
pub const GRAVITY_ACCEL: i64 = 10;

/// The lowest vertical speed a fall reaches (-10 units).
pub const TERMINAL_FALL_SPEED: i64 = -10_000_000;

/// Factor from speed times time to distance.
pub const DISTANCE_SCALE: i64 = 100;

/// Half the side of the actor's square, and of every obstacle's (25 units).
pub const HALF_EXTENT: i64 = 25 * POSITION_SCALE;

/// Bound on each component of the actor's velocity.
pub const MAX_SPEED: i64 = 10_000_000;

/// Bound on each coordinate of an obstacle (a million world units).
pub const OBSTACLE_LIMIT: i64 = 1_000_000 * POSITION_SCALE;

/// Bound on each coordinate of the actor.
pub const ACTOR_LIMIT: i64 = 2 * OBSTACLE_LIMIT;

/// The default ground row holds the obstacles from `-GROUND_RANGE` up to
/// `GROUND_RANGE - 1` times the spacing.
pub const GROUND_RANGE: i64 = 10;

/// The largest ground range whose obstacles stay within `OBSTACLE_LIMIT`.
pub const MAX_GROUND_RANGE: i64 = 10_000;

/// Distance between neighbouring ground obstacles (50 units).
pub const GROUND_SPACING: i64 = 50 * POSITION_SCALE;

/// Height of the ground row's centres (-100 units).
pub const GROUND_OFFSET_Y: i64 = -100 * POSITION_SCALE;

} // verus!
