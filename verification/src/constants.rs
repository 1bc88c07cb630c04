//! Fixed configuration of the arena, the bodies and the physics step.
//!
//! Lengths are in pixels unless the name says `_MILLI`; `_MILLI` values are in
//! milli-pixels (one pixel = 1000) or, for rates, milli-units per second.

use vstd::prelude::*;

verus! {

/// One fixed physics tick, in milliseconds (50 Hz).
pub const TIME_STEP_MS: u32 = 20;

/// Pixels per metre: converts aim speed (m/s) into pixel velocity.
pub const PIXEL_STEP_SIZE: i64 = 20;

/// Width of the whole playfield, in pixels.
pub const SCREEN_WIDTH: u32 = 1280;

/// Height of the whole playfield, in pixels.
pub const SCREEN_HEIGHT: u32 = 720;

/// Width of one building, in pixels.
pub const BUILDING_WIDTH: u32 = 160;

/// Width of one destructible brick, in pixels.
pub const BUILDING_BRICK_WIDTH: u32 = 32;

/// Height of one destructible brick, in pixels.
pub const BUILDING_BRICK_HEIGHT: u32 = 8;

/// Projectile footprint, in pixels.
pub const BANANA_WIDTH: u32 = 32;

/// Projectile footprint, in pixels.
pub const BANANA_HEIGHT: u32 = 32;

/// Gorilla footprint, in pixels.
pub const GORILLA_WIDTH: u32 = 32;

/// Gorilla footprint, in pixels.
pub const GORILLA_HEIGHT: u32 = 64;

/// Radius of a freshly spawned explosion, in pixels.
pub const EXPLOSION_START_RADIUS: u32 = 16;

/// Diameter of a freshly spawned explosion, in pixels.
pub const EXPLOSION_START_DIAMETER: u32 = 32;

/// An explosion is removed once its scale factor exceeds this (milli).
pub const EXPLOSION_MAX_SCALE_MILLI: u32 = 3000;

/// Per-tick growth of the explosion scale, in milli (scale *= 1.256).
pub const EXPLOSION_GROWTH_MILLI: u32 = 256;

/// Downward gravity, in milli-pixels per second per second
/// (9.8 m/s^2 scaled by `PIXEL_STEP_SIZE`).
pub const GRAVITY_Y_ACCEL_MILLI: i64 = -196000;

/// Smallest per-tick opacity loss of a debris brick, in milli.
pub const BRICK_A_STEP_MIN_MILLI: u32 = 2;

/// One past the largest per-tick opacity loss of a debris brick, in milli.
pub const BRICK_A_STEP_MAX_MILLI: u32 = 8;

/// Lower bound of a debris brick's horizontal scatter velocity, milli-px/s.
pub const BRICK_EXPLODE_VEL_X_MIN_MILLI: i64 = -100000;

/// Upper bound (exclusive) of a debris brick's horizontal scatter velocity.
pub const BRICK_EXPLODE_VEL_X_MAX_MILLI: i64 = 100000;

/// Lower bound of a debris brick's upward scatter velocity, milli-px/s.
pub const BRICK_EXPLODE_VEL_Y_MIN_MILLI: i64 = 100000;

/// Upper bound (exclusive) of a debris brick's upward scatter velocity.
pub const BRICK_EXPLODE_VEL_Y_MAX_MILLI: i64 = 400000;

/// Cosmetic spin of the projectile, in milli-degrees per physics tick
/// (minus pi radians per second at the 50 Hz step).
pub const BANANA_SPIN_MILLI_DEG: i64 = -3600;

/// A projectile farther than this from its thrower is "in flight" (pixels).
pub const WATCH_DISTANCE: i64 = 50;

/// The same threshold squared, in milli-pixels: (50 * 1000)^2.
pub const WATCH_DISTANCE_SQ_MILLI: i128 = 2500000000;

/// Milliseconds an aim key must be held before its step auto-repeats.
pub const AIM_REPEAT_DELAY_MS: u32 = 150;

/// A fully opaque brick, in milli.
pub const OPACITY_FULL_MILLI: u32 = 1000;

/// Number of colors in the fixed building palette.
pub const PALETTE_SIZE: u32 = 3;

/// Positions and velocities are kept within this many milli-pixels of zero,
/// so that every arithmetic step below fits comfortably in an `i64`.
pub const COORD_LIMIT_MILLI: i64 = 0x1000_0000_0000;

} // verus!
