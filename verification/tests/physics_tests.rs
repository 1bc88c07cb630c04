//! Fixed-point physics: integration, interpolation, rotation, trigonometry.

use gorillas::banana::{compute_throw_velocity, spawn_banana};
use gorillas::constants::COORD_LIMIT_MILLI;
use gorillas::game::AngleSpeed;
use gorillas::physics::{
    apply_acceleration, apply_rotation, apply_velocity, clamp_vec, lerp_velocity, setup_gravity,
    GlobalWorldAcceleration, MovementState, Rotation, Vec2i, Velocity,
};
use gorillas::players::Player;
use gorillas::trig::{cos_lookup, sin_lookup};

#[test]
fn movement_state_starts_settled() {
    let m = MovementState::new(Vec2i { x: 123, y: -456 });
    assert_eq!(m.old_position, Vec2i { x: 123, y: -456 });
    assert_eq!(m.cur_position, Vec2i { x: 123, y: -456 });
}

#[test]
fn gravity_is_constant_downward() {
    let g = setup_gravity();
    assert_eq!(g.0.x, 0);
    assert_eq!(g.0.y, -196000);
}

#[test]
fn acceleration_one_tick_of_gravity() {
    let mut v = Velocity(Vec2i { x: 0, y: 0 });
    let g = setup_gravity();
    apply_acceleration(&mut v, &g, 20);
    assert_eq!(v.0.x, 0);
    assert_eq!(v.0.y, -3920);
}

#[test]
fn velocity_advances_settled_positions() {
    let mut m = MovementState::new(Vec2i { x: 10000, y: 20000 });
    let v = Velocity(Vec2i { x: 1500, y: -2500 });
    apply_velocity(&mut m, &v, 20);
    assert_eq!(m.old_position, Vec2i { x: 10000, y: 20000 });
    assert_eq!(m.cur_position, Vec2i { x: 10030, y: 19950 });
}

#[test]
fn velocity_step_rounds_toward_negative_infinity() {
    let mut m = MovementState::new(Vec2i { x: 0, y: 0 });
    let v = Velocity(Vec2i { x: 999, y: -999 });
    apply_velocity(&mut m, &v, 20);
    assert_eq!(m.cur_position, Vec2i { x: 19, y: -20 });
}

#[test]
fn lerp_at_zero_is_previous_position() {
    let m = MovementState {
        old_position: Vec2i { x: 1000, y: 2000 },
        cur_position: Vec2i { x: 5000, y: 9000 },
    };
    assert_eq!(lerp_velocity(&m, 0), Vec2i { x: 1000, y: 2000 });
}

#[test]
fn lerp_at_one_is_current_position() {
    let m = MovementState {
        old_position: Vec2i { x: 1000, y: 2000 },
        cur_position: Vec2i { x: 5000, y: 9000 },
    };
    assert_eq!(lerp_velocity(&m, 1000), Vec2i { x: 5000, y: 9000 });
}

#[test]
fn lerp_midway_is_halfway() {
    let m = MovementState {
        old_position: Vec2i { x: 1000, y: 2000 },
        cur_position: Vec2i { x: 5000, y: 9000 },
    };
    assert_eq!(lerp_velocity(&m, 500), Vec2i { x: 3000, y: 5500 });
}

#[test]
fn lerp_works_backwards_too() {
    let m = MovementState {
        old_position: Vec2i { x: 5000, y: 0 },
        cur_position: Vec2i { x: 1000, y: 0 },
    };
    assert_eq!(lerp_velocity(&m, 250), Vec2i { x: 4000, y: 0 });
}

#[test]
fn rotation_accumulates_and_wraps() {
    let mut angle: i64 = 100;
    apply_rotation(&mut angle, &Rotation(-3600));
    assert_eq!(angle, 356500);
    let mut angle2: i64 = 359000;
    apply_rotation(&mut angle2, &Rotation(2000));
    assert_eq!(angle2, 1000);
}

#[test]
fn clamp_restores_coordinate_range() {
    let mut v = Vec2i { x: COORD_LIMIT_MILLI + 5, y: -(COORD_LIMIT_MILLI + 5) };
    clamp_vec(&mut v);
    assert_eq!(v.x, COORD_LIMIT_MILLI);
    assert_eq!(v.y, -COORD_LIMIT_MILLI);
}

#[test]
fn quarter_table_and_reflections() {
    assert_eq!(sin_lookup(0), 0);
    assert_eq!(sin_lookup(45), 707);
    assert_eq!(sin_lookup(90), 1000);
    assert_eq!(sin_lookup(-90), -1000);
    assert_eq!(sin_lookup(135), 707);
    assert_eq!(cos_lookup(0), 1000);
    assert_eq!(cos_lookup(60), 500);
    assert_eq!(cos_lookup(120), -500);
    assert_eq!(cos_lookup(-140), -766);
}

#[test]
fn throw_at_ninety_is_purely_vertical() {
    let v = compute_throw_velocity(Player::One, &AngleSpeed { angle: 90, speed: 50 });
    assert_eq!(v.x, 0);
    assert_eq!(v.y, 666666);
    assert!(v.y > 0);
}

#[test]
fn throw_at_zero_is_purely_horizontal() {
    let v = compute_throw_velocity(Player::One, &AngleSpeed { angle: 0, speed: 30 });
    assert_eq!(v.x, 400000);
    assert_eq!(v.y, 0);
}

#[test]
fn throw_at_fortyfive_splits_evenly() {
    let v = compute_throw_velocity(Player::One, &AngleSpeed { angle: 45, speed: 30 });
    assert_eq!(v.x, 282800);
    assert_eq!(v.y, 282800);
}

#[test]
fn player_two_throw_mirrors_player_one() {
    let one = compute_throw_velocity(Player::One, &AngleSpeed { angle: 60, speed: 75 });
    let two = compute_throw_velocity(Player::Two, &AngleSpeed { angle: 60, speed: 75 });
    assert_eq!(two.x, -one.x);
    assert_eq!(two.y, one.y);
}

#[test]
fn spawned_banana_starts_at_thrower() {
    let b = spawn_banana(
        Player::Two,
        Vec2i { x: 560000, y: -100000 },
        Vec2i { x: -282800, y: 282800 },
    );
    assert!(matches!(b.thrown_by, Player::Two));
    assert_eq!(b.movement.old_position, Vec2i { x: 560000, y: -100000 });
    assert_eq!(b.movement.cur_position, Vec2i { x: 560000, y: -100000 });
    assert_eq!(b.velocity.0, Vec2i { x: -282800, y: 282800 });
    assert_eq!(b.angle_milli_deg, 0);
    assert_eq!(b.rotation.0, -3600);
}

#[test]
fn wind_acceleration_moves_a_body_horizontally() {
    let mut v = Velocity(Vec2i { x: 0, y: 0 });
    let wind = GlobalWorldAcceleration(Vec2i { x: 15000, y: 0 });
    apply_acceleration(&mut v, &wind, 20);
    assert_eq!(v.0.x, 300);
    assert_eq!(v.0.y, 0);
}
