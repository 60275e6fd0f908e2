//! Fixed-point units and saturating arithmetic.
//!
//! Positions and depths are stored in micro-units (one world unit is
//! 1_000_000), velocities in milli-units per second (one unit per second is
//! 1_000), and time in milliseconds.  With these scales one integration
//! step is exact: `position += velocity * dt` multiplies milli-units/s by
//! milliseconds and lands on micro-units with no division.
//!
//! Every integration saturates at the `i64` range instead of wrapping, so
//! the step functions are total and never panic.

use vstd::prelude::*;

verus! {

/// One world unit of position, in micro-units.
pub const UNIT_MICRO: i64 = 1_000_000;

/// Upward velocity given to the player on a jump edge, milli-units/s.
pub const JUMP_VELOCITY_MILLI: i64 = 150_000;

/// Gravity rate: the accumulator loses this many milli-units/s per
/// millisecond of elapsed time (5 units/s^2).
pub const GRAVITY_RATE: i64 = 5;

/// Minimum pause between two obstacle spawns, milliseconds.
pub const SPAWN_INTERVAL_MS: i64 = 5_000;

/// Vertical gap between the two members of an obstacle pair, micro-units.
pub const PIPE_GAP_MICRO: i64 = 175_000_000;

/// Height of one obstacle, micro-units.
pub const PIPE_HEIGHT_MICRO: i64 = 670_000_000;

/// Width of one obstacle, micro-units.
pub const PIPE_WIDTH_MICRO: i64 = 100_000_000;

/// Horizontal position where a fresh obstacle pair appears, micro-units.
pub const PIPE_SPAWN_X_MICRO: i64 = 800_000_000;

/// An obstacle whose x falls below this threshold is removed, micro-units.
pub const PIPE_DESPAWN_X_MICRO: i64 = -800_000_000;

/// Horizontal velocity of every obstacle, milli-units/s (leftward).
pub const PIPE_SPEED_MILLI: i64 = -100_000;

/// Distance from the gap center to an obstacle member's center:
/// half the gap plus half the obstacle height, micro-units.
pub const PIPE_OFFSET_MICRO: i64 = 422_500_000;

/// Lowest gap center the spawner may draw, micro-units (inclusive).
pub const GAP_CENTER_MIN_MICRO: i64 = -200_000_000;

/// Highest gap center the spawner may draw, micro-units (exclusive).
pub const GAP_CENTER_MAX_MICRO: i64 = 200_000_000;

/// Leftward scroll speed of the far decorative layer, milli-units/s.
pub const CLOUD_SPEED_MILLI: i64 = 100_000;

/// The far layer wraps when x drops below this bound, micro-units.
pub const CLOUD_WRAP_MIN_MICRO: i64 = -670_000_000;

/// Where a wrapped far-layer entity re-enters, micro-units.
pub const CLOUD_WRAP_MAX_MICRO: i64 = 670_000_000;

/// Leftward scroll speed of the near decorative layer, milli-units/s.
pub const BUILDING_SPEED_MILLI: i64 = 50_000;

/// The near layer wraps when x drops below this bound, micro-units.
pub const BUILDING_WRAP_MIN_MICRO: i64 = -800_000_000;

/// Where a wrapped near-layer entity re-enters, micro-units.
pub const BUILDING_WRAP_MAX_MICRO: i64 = 800_000_000;

/// How many far-layer entities a fresh run places.
pub const CLOUD_COUNT: usize = 100;

/// Lowest x a far-layer entity is placed at, micro-units (inclusive).
pub const CLOUD_SPAWN_X_MIN_MICRO: i64 = -670_000_000;

/// Highest x a far-layer entity is placed at, micro-units (exclusive).
pub const CLOUD_SPAWN_X_MAX_MICRO: i64 = 670_000_000;

/// Lowest y a far-layer entity is placed at, micro-units (inclusive).
pub const CLOUD_SPAWN_Y_MIN_MICRO: i64 = 350_000_000;

/// Highest y a far-layer entity is placed at, micro-units (exclusive).
pub const CLOUD_SPAWN_Y_MAX_MICRO: i64 = 400_000_000;

/// Lowest depth of a far-layer entity, micro-units (inclusive).
pub const CLOUD_DEPTH_MIN_MICRO: i64 = 1_000_000;

/// Highest depth of a far-layer entity, micro-units (exclusive).
pub const CLOUD_DEPTH_MAX_MICRO: i64 = 1_500_000;

/// How many near-layer entities a fresh run places.
pub const BUILDING_COUNT: usize = 20;

/// Lowest x a near-layer entity is placed at, micro-units (inclusive).
pub const BUILDING_SPAWN_X_MIN_MICRO: i64 = -640_000_000;

/// Highest x a near-layer entity is placed at, micro-units (exclusive).
pub const BUILDING_SPAWN_X_MAX_MICRO: i64 = 640_000_000;

/// The y every near-layer entity is placed at, micro-units.
pub const BUILDING_SPAWN_Y_MICRO: i64 = -375_000_000;

/// Lowest depth of a near-layer entity, micro-units (inclusive).
pub const BUILDING_DEPTH_MIN_MICRO: i64 = 0;

/// Highest depth of a near-layer entity, micro-units (exclusive).
pub const BUILDING_DEPTH_MAX_MICRO: i64 = 500_000;

/// Where the player starts a run, micro-units.
pub const BIRD_START_X_MICRO: i64 = -100_000_000;

/// The player's starting height, micro-units.
pub const BIRD_START_Y_MICRO: i64 = 0;

/// The player's rendering depth, micro-units.
pub const BIRD_DEPTH_MICRO: i64 = 2_000_000;

/// Rendering depth of an obstacle, micro-units.
pub const PIPE_DEPTH_MICRO: i64 = 1_000_000;

/// Saturation of a mathematical integer into the `i64` range.
pub open spec fn sat64(x: int) -> int {
    if x > i64::MAX as int {
        i64::MAX as int
    } else if x < i64::MIN as int {
        i64::MIN as int
    } else {
        x
    }
}

/// Saturation of a mathematical integer into the `i32` range.
pub open spec fn sat32(x: int) -> int {
    if x > i32::MAX as int {
        i32::MAX as int
    } else if x < i32::MIN as int {
        i32::MIN as int
    } else {
        x
    }
}

/// Saturating addition on `i64`.
pub fn sat_add64(a: i64, b: i64) -> (r: i64)
    ensures
        r as int == sat64(a + b),
{
    let s: i128 = a as i128 + b as i128;
    if s > i64::MAX as i128 {
        i64::MAX
    } else if s < i64::MIN as i128 {
        i64::MIN
    } else {
        s as i64
    }
}

/// One saturating integration step: `base + rate * dt`, clamped to `i64`.
pub fn sat_mul_add64(base: i64, rate: i64, dt: i64) -> (r: i64)
    ensures
        r as int == sat64(base + rate * dt),
{
    proof {
        let ra = rate as int;
        let d = dt as int;
        assert(ra * d <= 0x8000_0000_0000_0000 * 0x8000_0000_0000_0000
            && ra * d >= -(0x8000_0000_0000_0000 * 0x8000_0000_0000_0000)) by (nonlinear_arith)
            requires
                -0x8000_0000_0000_0000 <= ra <= 0x8000_0000_0000_0000,
                -0x8000_0000_0000_0000 <= d <= 0x8000_0000_0000_0000,
        ;
    }
    let p: i128 = (rate as i128) * (dt as i128);
    let s: i128 = base as i128 + p;
    if s > i64::MAX as i128 {
        i64::MAX
    } else if s < i64::MIN as i128 {
        i64::MIN
    } else {
        s as i64
    }
}

/// Saturating increment on `i32`.
pub fn sat_inc32(a: i32) -> (r: i32)
    ensures
        r as int == sat32(a + 1),
{
    if a == i32::MAX {
        a
    } else {
        a + 1
    }
}

} // verus!
