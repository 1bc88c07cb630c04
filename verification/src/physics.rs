//! Fixed-timestep integrator for every moving body (projectile, debris).
//!
//! Each body keeps two settled positions: the one after the previous physics
//! tick and the one after the current tick.  Rendering interpolates linearly
//! between them with the scheduler's overstep fraction, so display motion is
//! smooth although the physics step is coarse.
//!
//! All quantities are fixed-point: positions in milli-pixels, velocities in
//! milli-pixels per second, accelerations in milli-pixels per second squared,
//! the overstep fraction and opacity values in milli (0..=1000).

use vstd::prelude::*;
use vstd::arithmetic::div_mod::{
    lemma_fundamental_div_mod, lemma_fundamental_div_mod_converse, lemma_div_multiples_vanish,
    lemma_div_is_ordered, lemma_div_of0,
};
use crate::constants::{COORD_LIMIT_MILLI, GRAVITY_Y_ACCEL_MILLI};

verus! {

/// A two-dimensional point or vector in milli-pixel units.
#[derive(Clone, Copy, Debug, PartialEq, Eq, Structural)]
pub struct Vec2i {
    pub x: i64,
    pub y: i64,
}

impl Vec2i {
    /// True when both components are within the library's coordinate range.
    pub open spec fn in_range(self) -> bool {
        -COORD_LIMIT_MILLI <= self.x <= COORD_LIMIT_MILLI
            && -COORD_LIMIT_MILLI <= self.y <= COORD_LIMIT_MILLI
    }
}

/// Velocity of a moving body, in milli-pixels per second.
#[derive(Clone, Copy, Debug, PartialEq, Eq, Structural)]
pub struct Velocity(pub Vec2i);

/// A world-wide acceleration source (gravity, wind), milli-pixels/s^2.
#[derive(Clone, Copy, Debug, PartialEq, Eq, Structural)]
pub struct GlobalWorldAcceleration(pub Vec2i);

/// Cosmetic per-tick spin of a body, in milli-degrees per tick.
#[derive(Clone, Copy, Debug, PartialEq, Eq, Structural)]
pub struct Rotation(pub i64);

/// The two settled positions a moving body carries between physics ticks.
#[derive(Clone, Copy, Debug, PartialEq, Eq, Structural)]
pub struct MovementState {
    pub old_position: Vec2i,
    pub cur_position: Vec2i,
}

impl MovementState {
    /// A body that has not moved yet: both settled positions coincide.
    pub fn new(current_position: Vec2i) -> (m: MovementState)
        ensures
            m.old_position == current_position,
            m.cur_position == current_position,
    {
        MovementState { old_position: current_position, cur_position: current_position }
    }
}

/// `(a * b) / d` in exact integer arithmetic, rounding toward negative
/// infinity (Euclidean division by the positive `d`).
pub open spec fn mul_div(a: int, b: int, d: int) -> int {
    (a * b) / d
}

/// The displacement a velocity component contributes in one step of
/// `dt_ms` milliseconds.
pub open spec fn step_scaled(v: int, dt_ms: int) -> int {
    mul_div(v, dt_ms, 1000)
}

/// Linear interpolation between `a` and `b` at milli-fraction `f`.
pub open spec fn lerp_milli(a: int, b: int, f: int) -> int {
    a + mul_div(b - a, f, 1000)
}

/// Floor division of a product by a positive divisor: `(a * b) / d` with the
/// quotient rounded toward negative infinity, matching the spec-level `/`.
pub(crate) fn mul_div_floor(a: i64, b: i64, d: u64) -> (q: i64)
    requires
        1 <= d <= 0x4000_0000_0000_0000,
        -0x4000_0000_0000_0000 <= a * b <= 0x4000_0000_0000_0000,
    ensures
        q == mul_div(a as int, b as int, d as int),
{
    let p: i64 = a * b;
    if p >= 0 {
        let qu: u64 = (p as u64) / d;
        proof {
            assert(p as u64 == p as int);
            assert(qu <= p as u64) by {
                assert((p as u64) / d <= p as u64) by (nonlinear_arith)
                    requires d >= 1;
            }
        }
        qu as i64
    } else {
        let m: u64 = (-p) as u64;
        proof {
            assert(m == -(p as int));
            assert(m <= 0x4000_0000_0000_0000);
        }
        let qu: u64 = (m + (d - 1)) / d;
        proof {
            let mi = m as int;
            let di = d as int;
            lemma_fundamental_div_mod(mi, di);
            let q0 = mi / di;
            let r0 = mi % di;
            assert(mi == di * q0 + r0);
            assert(qu == (mi + di - 1) / di);
            if r0 == 0 {
                assert(mi + di - 1 == q0 * di + (di - 1)) by (nonlinear_arith)
                    requires mi == di * q0;
                lemma_fundamental_div_mod_converse(mi + di - 1, di, q0, di - 1);
                assert(-mi == (-q0) * di + 0) by (nonlinear_arith)
                    requires mi == di * q0;
                lemma_fundamental_div_mod_converse(-mi, di, -q0, 0);
            } else {
                assert(mi + di - 1 == (q0 + 1) * di + (r0 - 1)) by (nonlinear_arith)
                    requires mi == di * q0 + r0;
                lemma_fundamental_div_mod_converse(mi + di - 1, di, q0 + 1, r0 - 1);
                assert(-mi == (-(q0 + 1)) * di + (di - r0)) by (nonlinear_arith)
                    requires mi == di * q0 + r0;
                lemma_fundamental_div_mod_converse(-mi, di, -(q0 + 1), di - r0);
            }
            assert(qu <= mi) by (nonlinear_arith)
                requires mi >= 1 && di >= 1 && qu == (mi + di - 1) / di;
            assert((-mi) / di == -(qu as int));
            assert(p as int == a as int * b as int);
        }
        -(qu as i64)
    }
}

/// Builds the world's constant gravity source: straight down at
/// 9.8 m/s^2, expressed in milli-pixels per second squared.
pub fn setup_gravity() -> (g: GlobalWorldAcceleration)
    ensures
        g.0.x == 0,
        g.0.y == GRAVITY_Y_ACCEL_MILLI,
{
    GlobalWorldAcceleration(Vec2i { x: 0, y: GRAVITY_Y_ACCEL_MILLI })
}

/// One acceleration step of the fixed tick: `v += a * dt`.
pub fn apply_acceleration(velocity: &mut Velocity, acc: &GlobalWorldAcceleration, dt_ms: u32)
    requires
        1 <= dt_ms <= 1000,
        old(velocity).0.in_range(),
        acc.0.in_range(),
    ensures
        final(velocity).0.x == old(velocity).0.x + step_scaled(acc.0.x as int, dt_ms as int),
        final(velocity).0.y == old(velocity).0.y + step_scaled(acc.0.y as int, dt_ms as int),
{
    proof {
        lemma_step_scaled_bounded(acc.0.x as int, dt_ms as int);
        lemma_step_scaled_bounded(acc.0.y as int, dt_ms as int);
    }
    let dx: i64 = mul_div_floor(acc.0.x, dt_ms as i64, 1000);
    let dy: i64 = mul_div_floor(acc.0.y, dt_ms as i64, 1000);
    velocity.0.x = velocity.0.x + dx;
    velocity.0.y = velocity.0.y + dy;
}

/// One position step of the fixed tick: the current settled position becomes
/// the previous one, and the new current position adds `v * dt`.
pub fn apply_velocity(movement: &mut MovementState, velocity: &Velocity, dt_ms: u32)
    requires
        1 <= dt_ms <= 1000,
        old(movement).cur_position.in_range(),
        velocity.0.in_range(),
    ensures
        final(movement).old_position == old(movement).cur_position,
        final(movement).cur_position.x == old(movement).cur_position.x + step_scaled(
            velocity.0.x as int,
            dt_ms as int,
        ),
        final(movement).cur_position.y == old(movement).cur_position.y + step_scaled(
            velocity.0.y as int,
            dt_ms as int,
        ),
{
    proof {
        lemma_step_scaled_bounded(velocity.0.x as int, dt_ms as int);
        lemma_step_scaled_bounded(velocity.0.y as int, dt_ms as int);
    }
    let dx: i64 = mul_div_floor(velocity.0.x, dt_ms as i64, 1000);
    let dy: i64 = mul_div_floor(velocity.0.y, dt_ms as i64, 1000);
    movement.old_position = movement.cur_position;
    movement.cur_position = Vec2i {
        x: movement.cur_position.x + dx,
        y: movement.cur_position.y + dy,
    };
}

/// The rendered position between two fixed ticks: linear interpolation from
/// the previous settled position to the current one at the scheduler's
/// overstep fraction (in milli).  At fraction 0 it is exactly the previous
/// settled position; at fraction 1000 exactly the current one.
pub fn lerp_velocity(movement: &MovementState, overstep_milli: u32) -> (p: Vec2i)
    requires
        overstep_milli <= 1000,
        movement.old_position.in_range(),
        movement.cur_position.in_range(),
    ensures
        p.x == lerp_milli(
            movement.old_position.x as int,
            movement.cur_position.x as int,
            overstep_milli as int,
        ),
        p.y == lerp_milli(
            movement.old_position.y as int,
            movement.cur_position.y as int,
            overstep_milli as int,
        ),
        overstep_milli == 0 ==> p == movement.old_position,
        overstep_milli == 1000 ==> p == movement.cur_position,
{
    proof {
        lemma_lerp_milli_boundary(movement.old_position.x as int, movement.cur_position.x as int);
        lemma_lerp_milli_boundary(movement.old_position.y as int, movement.cur_position.y as int);
        lemma_lerp_milli_in_between(
            movement.old_position.x as int,
            movement.cur_position.x as int,
            overstep_milli as int,
        );
        lemma_lerp_milli_in_between(
            movement.old_position.y as int,
            movement.cur_position.y as int,
            overstep_milli as int,
        );
    }
    let dx: i64 = mul_div_floor(
        movement.cur_position.x - movement.old_position.x,
        overstep_milli as i64,
        1000,
    );
    let dy: i64 = mul_div_floor(
        movement.cur_position.y - movement.old_position.y,
        overstep_milli as i64,
        1000,
    );
    Vec2i { x: movement.old_position.x + dx, y: movement.old_position.y + dy }
}

/// One cosmetic spin step: the body's display angle advances by its per-tick
/// increment, normalized back into [0, 360000) milli-degrees.
pub fn apply_rotation(angle_milli_deg: &mut i64, rotation: &Rotation)
    requires
        0 <= *old(angle_milli_deg) < 360000,
        -360000 < rotation.0 < 360000,
    ensures
        0 <= *final(angle_milli_deg) < 360000,
        *final(angle_milli_deg) == norm_360(*old(angle_milli_deg) + rotation.0),
{
    let s: i64 = *angle_milli_deg + rotation.0;
    if s < 0 {
        *angle_milli_deg = s + 360000;
    } else if s >= 360000 {
        *angle_milli_deg = s - 360000;
    } else {
        *angle_milli_deg = s;
    }
}

/// Angle normalization into [0, 360000) milli-degrees, for sums of one
/// in-range angle and one increment of magnitude below a full turn.
pub open spec fn norm_360(s: int) -> int {
    if s < 0 {
        s + 360000
    } else if s >= 360000 {
        s - 360000
    } else {
        s
    }
}

/// The per-step displacement never exceeds the velocity's own magnitude,
/// since `dt_ms <= 1000` milli.
proof fn lemma_step_scaled_bounded(v: int, dt_ms: int)
    requires
        -COORD_LIMIT_MILLI <= v <= COORD_LIMIT_MILLI,
        1 <= dt_ms <= 1000,
    ensures
        -COORD_LIMIT_MILLI <= step_scaled(v, dt_ms) <= COORD_LIMIT_MILLI,
        -0x4000_0000_0000_0000 <= v * dt_ms <= 0x4000_0000_0000_0000,
{
    assert(-COORD_LIMIT_MILLI * 1000 <= v * dt_ms <= COORD_LIMIT_MILLI * 1000)
        by (nonlinear_arith)
        requires
            -COORD_LIMIT_MILLI <= v <= COORD_LIMIT_MILLI,
            1 <= dt_ms <= 1000,
    ;
    lemma_div_is_ordered(-COORD_LIMIT_MILLI * 1000, v * dt_ms, 1000);
    lemma_div_is_ordered(v * dt_ms, COORD_LIMIT_MILLI * 1000, 1000);
}

/// Interpolation is exact at both ends of the tick window.
pub proof fn lemma_lerp_milli_boundary(a: int, b: int)
    ensures
        lerp_milli(a, b, 0) == a,
        lerp_milli(a, b, 1000) == b,
{
    assert((b - a) * 0 == 0) by (nonlinear_arith);
    lemma_div_of0(1000);
    assert((b - a) * 1000 == 1000 * (b - a)) by (nonlinear_arith);
    lemma_div_multiples_vanish(b - a, 1000);
}

/// The interpolated component stays within the coordinate range whenever both
/// endpoints do.
proof fn lemma_lerp_milli_in_between(a: int, b: int, f: int)
    requires
        -COORD_LIMIT_MILLI <= a <= COORD_LIMIT_MILLI,
        -COORD_LIMIT_MILLI <= b <= COORD_LIMIT_MILLI,
        0 <= f <= 1000,
    ensures
        -0x4000_0000_0000_0000 <= (b - a) * f <= 0x4000_0000_0000_0000,
        -COORD_LIMIT_MILLI <= a + ((b - a) * f) / 1000 <= COORD_LIMIT_MILLI,
{
    let d = b - a;
    assert(-2 * COORD_LIMIT_MILLI * 1000 <= d * f <= 2 * COORD_LIMIT_MILLI * 1000)
        by (nonlinear_arith)
        requires
            -2 * COORD_LIMIT_MILLI <= d <= 2 * COORD_LIMIT_MILLI,
            0 <= f <= 1000,
    ;
    assert(d * 1000 == 1000 * d) by (nonlinear_arith);
    lemma_div_multiples_vanish(d, 1000);
    lemma_div_of0(1000);
    if d >= 0 {
        assert(0 <= d * f <= d * 1000) by (nonlinear_arith)
            requires
                0 <= d,
                0 <= f <= 1000,
        ;
        lemma_div_is_ordered(0, d * f, 1000);
        lemma_div_is_ordered(d * f, d * 1000, 1000);
    } else {
        assert(d * 1000 <= d * f <= 0) by (nonlinear_arith)
            requires
                d < 0,
                0 <= f <= 1000,
        ;
        lemma_div_is_ordered(d * 1000, d * f, 1000);
        lemma_div_is_ordered(d * f, 0, 1000);
    }
}

/// A coordinate forced back into the library's range.  Physics results are
/// clamped with this after every step, so the fixed-point state stays well
/// inside `i64`; the limit is far beyond anything an on-screen body reaches,
/// so in play the clamp never engages.
pub open spec fn clamp_coord(x: int) -> int {
    if x < -COORD_LIMIT_MILLI {
        -COORD_LIMIT_MILLI as int
    } else if x > COORD_LIMIT_MILLI {
        COORD_LIMIT_MILLI as int
    } else {
        x
    }
}

/// Clamps both components of a vector into the coordinate range.
pub fn clamp_vec(v: &mut Vec2i)
    ensures
        final(v).x == clamp_coord(old(v).x as int),
        final(v).y == clamp_coord(old(v).y as int),
        final(v).in_range(),
{
    if v.x < -COORD_LIMIT_MILLI {
        v.x = -COORD_LIMIT_MILLI;
    } else if v.x > COORD_LIMIT_MILLI {
        v.x = COORD_LIMIT_MILLI;
    }
    if v.y < -COORD_LIMIT_MILLI {
        v.y = -COORD_LIMIT_MILLI;
    } else if v.y > COORD_LIMIT_MILLI {
        v.y = COORD_LIMIT_MILLI;
    }
}

/// One velocity component after gravity and wind have acted for one tick,
/// each contribution clamped into range as it is applied.
pub open spec fn vel_component_stepped(v: int, g: int, w: int, dt: int) -> int {
    clamp_coord(clamp_coord(v + step_scaled(g, dt)) + step_scaled(w, dt))
}

/// A body's settled positions after one tick at the given velocity: the
/// current position becomes the previous one and advances by `v * dt`,
/// clamped into range.
pub open spec fn movement_stepped(m: MovementState, v: Vec2i, dt: int) -> MovementState {
    MovementState {
        old_position: m.cur_position,
        cur_position: Vec2i {
            x: clamp_coord(m.cur_position.x + step_scaled(v.x as int, dt)) as i64,
            y: clamp_coord(m.cur_position.y + step_scaled(v.y as int, dt)) as i64,
        },
    }
}

/// Applies gravity then wind to a velocity for one tick, clamped into range.
pub fn step_velocity(
    velocity: &mut Velocity,
    gravity: &GlobalWorldAcceleration,
    wind: &GlobalWorldAcceleration,
    dt_ms: u32,
)
    requires
        1 <= dt_ms <= 1000,
        old(velocity).0.in_range(),
        gravity.0.in_range(),
        wind.0.in_range(),
    ensures
        final(velocity).0.x == vel_component_stepped(
            old(velocity).0.x as int,
            gravity.0.x as int,
            wind.0.x as int,
            dt_ms as int,
        ),
        final(velocity).0.y == vel_component_stepped(
            old(velocity).0.y as int,
            gravity.0.y as int,
            wind.0.y as int,
            dt_ms as int,
        ),
        final(velocity).0.in_range(),
{
    apply_acceleration(velocity, gravity, dt_ms);
    clamp_vec(&mut velocity.0);
    apply_acceleration(velocity, wind, dt_ms);
    clamp_vec(&mut velocity.0);
}

/// Advances a body's settled positions one tick at its velocity, clamped
/// into range.
pub fn step_movement(movement: &mut MovementState, velocity: &Velocity, dt_ms: u32)
    requires
        1 <= dt_ms <= 1000,
        old(movement).cur_position.in_range(),
        velocity.0.in_range(),
    ensures
        *final(movement) == movement_stepped(*old(movement), velocity.0, dt_ms as int),
        final(movement).old_position.in_range(),
        final(movement).cur_position.in_range(),
{
    apply_velocity(movement, velocity, dt_ms);
    clamp_vec(&mut movement.cur_position);
}

} // verus!
