//! The projectile: spawned from the active player's aim, tracked until it
//! collides, leaves the screen, or is replaced by an explosion.

use vstd::prelude::*;
use vstd::arithmetic::div_mod::{lemma_div_is_ordered, lemma_div_of0};
use crate::constants::{BANANA_SPIN_MILLI_DEG, WATCH_DISTANCE_SQ_MILLI};
use crate::game::{next_player_system, Action, AngleSpeed, GameState};
use crate::physics::{
    movement_stepped, mul_div, mul_div_floor, norm_360, vel_component_stepped, MovementState,
    Rotation, Vec2i, Velocity,
};
use crate::players::{other_player, Player};
use crate::trig::{cos_lookup, cos_mdeg, lemma_table_norm_bounds, sin_lookup, sin_mdeg, sin_table};

verus! {

/// The in-flight projectile.  At most one exists at a time.
#[derive(Clone, Copy, Debug)]
pub struct Banana {
    /// Who threw it; "distance from thrower" is measured to this player's
    /// gorilla alone.
    pub thrown_by: Player,
    /// Settled positions for the fixed-tick integrator.
    pub movement: MovementState,
    /// Current velocity, milli-pixels per second.
    pub velocity: Velocity,
    /// Display angle, milli-degrees in [0, 360000).
    pub angle_milli_deg: i64,
    /// Cosmetic per-tick spin.
    pub rotation: Rotation,
}

impl Banana {
    /// Positions and velocity within coordinate range, display angle
    /// normalized, the spin at its constant rate.
    pub open spec fn wf(self) -> bool {
        &&& self.movement.old_position.in_range()
        &&& self.movement.cur_position.in_range()
        &&& self.velocity.0.in_range()
        &&& 0 <= self.angle_milli_deg < 360000
        &&& self.rotation.0 == BANANA_SPIN_MILLI_DEG
    }
}

/// Horizontal throw direction in milli units: the aim compass is turned so
/// that 90 degrees points straight up, so the direction is the sine and
/// cosine of `90 - angle` degrees.
pub open spec fn throw_dir_x(angle: int) -> int {
    sin_mdeg(90 - angle)
}

/// Vertical throw direction in milli units.
pub open spec fn throw_dir_y(angle: int) -> int {
    cos_mdeg(90 - angle)
}

/// A direction-times-speed component scaled from aim units into
/// milli-pixels per second: 20 pixels per metre divided by 1.5.
pub open spec fn throw_scaled(u: int) -> int {
    mul_div(u, 40, 3)
}

/// The x-velocity of a fresh throw; mirrored for Player Two so both players
/// throw forward from their own side under the same angle convention.
pub open spec fn throw_vel_x(player: Player, angle: int, speed: int) -> int {
    let base = throw_scaled(throw_dir_x(angle) * speed);
    if player == Player::Two {
        -base
    } else {
        base
    }
}

/// The y-velocity of a fresh throw, identical for both players.
pub open spec fn throw_vel_y(angle: int, speed: int) -> int {
    throw_scaled(throw_dir_y(angle) * speed)
}

/// Converts the active player's aim into the projectile's initial velocity.
pub fn compute_throw_velocity(player: Player, aim: &AngleSpeed) -> (v: Vec2i)
    requires
        aim.wf(),
    ensures
        v.x == throw_vel_x(player, aim.angle as int, aim.speed as int),
        v.y == throw_vel_y(aim.angle as int, aim.speed as int),
        v.in_range(),
{
    let d: i32 = 90 - aim.angle as i32;
    let s: i64 = sin_lookup(d);
    let c: i64 = cos_lookup(d);
    proof {
        assert(-200000 <= s as int * aim.speed as int <= 200000) by (nonlinear_arith)
            requires
                -1000 <= s as int <= 1000,
                0 <= aim.speed as int <= 200,
        ;
        assert(-200000 <= c as int * aim.speed as int <= 200000) by (nonlinear_arith)
            requires
                -1000 <= c as int <= 1000,
                0 <= aim.speed as int <= 200,
        ;
        lemma_throw_scaled_bounded(s as int * aim.speed as int);
        lemma_throw_scaled_bounded(c as int * aim.speed as int);
    }
    let base_x: i64 = mul_div_floor(s * aim.speed as i64, 40, 3);
    let vy: i64 = mul_div_floor(c * aim.speed as i64, 40, 3);
    let vx: i64 = match player {
        Player::Two => -base_x,
        Player::One => base_x,
    };
    Vec2i { x: vx, y: vy }
}

/// A scaled direction-times-speed component stays far inside the
/// coordinate range.
proof fn lemma_throw_scaled_bounded(u: int)
    requires
        -200000 <= u <= 200000,
    ensures
        -0x4000_0000_0000_0000 <= u * 40 <= 0x4000_0000_0000_0000,
        -2666667 <= throw_scaled(u) <= 2666667,
{
    assert(-8000000 <= u * 40 <= 8000000) by (nonlinear_arith)
        requires
            -200000 <= u <= 200000,
    ;
    lemma_div_is_ordered(-8000000, u * 40, 3);
    lemma_div_is_ordered(u * 40, 8000000, 3);
}

/// Builds the projectile entity exactly as thrown: at the thrower's
/// position, with the given initial velocity and the constant spin.
pub fn spawn_banana(player: Player, g_pos: Vec2i, initial_velocity: Vec2i) -> (b: Banana)
    requires
        g_pos.in_range(),
        initial_velocity.in_range(),
    ensures
        b.thrown_by == player,
        b.movement.old_position == g_pos,
        b.movement.cur_position == g_pos,
        b.velocity.0 == initial_velocity,
        b.angle_milli_deg == 0,
        b.wf(),
{
    Banana {
        thrown_by: player,
        movement: MovementState::new(g_pos),
        velocity: Velocity(initial_velocity),
        angle_milli_deg: 0,
        rotation: Rotation(BANANA_SPIN_MILLI_DEG),
    }
}

/// Spawns the projectile from the current player's aim and opens the
/// `Throwing` phase: the velocity follows the angle-to-velocity conversion
/// exactly, mirrored for Player Two, and the projectile starts at the
/// throwing gorilla's position.
pub fn throw_banana(state: &mut GameState)
    requires
        old(state).wf(),
        old(state).action is Enter,
    ensures
        final(state).wf(),
        ({
            let g = old(state).gorilla_of(old(state).player);
            final(state).banana == Some(
                Banana {
                    thrown_by: old(state).player,
                    movement: MovementState { old_position: g.pos, cur_position: g.pos },
                    velocity: Velocity(
                        Vec2i {
                            x: throw_vel_x(
                                old(state).player,
                                g.aim.angle as int,
                                g.aim.speed as int,
                            ) as i64,
                            y: throw_vel_y(g.aim.angle as int, g.aim.speed as int) as i64,
                        },
                    ),
                    angle_milli_deg: 0,
                    rotation: Rotation(BANANA_SPIN_MILLI_DEG),
                },
            )
        }),
        final(state).action is Throwing,
        final(state).player == old(state).player,
        final(state).winner == old(state).winner,
        final(state).same_arena(*old(state)),
        final(state).bricks == old(state).bricks,
        final(state).explosion == old(state).explosion,
        final(state).indicator_live == old(state).indicator_live,
        final(state).move_arrow == old(state).move_arrow,
        final(state).collision_sounds_pending == old(state).collision_sounds_pending,
{
    let (pos, aim) = if matches!(state.player, Player::One) {
        (state.gorilla_one.pos, state.gorilla_one.aim)
    } else {
        (state.gorilla_two.pos, state.gorilla_two.aim)
    };
    let v = compute_throw_velocity(state.player, &aim);
    let b = spawn_banana(state.player, pos, v);
    state.banana = Some(b);
    state.action = Action::Throwing;
}

/// Squared distance between two points, in milli-pixels.
pub open spec fn dist_sq(a: Vec2i, b: Vec2i) -> int {
    (a.x - b.x) * (a.x - b.x) + (a.y - b.y) * (a.y - b.y)
}

/// Once the projectile has moved far enough from the gorilla that threw it
/// — farther than the watch threshold, measured to the thrower's gorilla
/// only — the phase advances from `Throwing` to `Watching` and the throw
/// indicator leaves the screen.
pub fn transition_to_watching_banana(state: &mut GameState)
    requires
        old(state).wf(),
        old(state).action is Throwing,
    ensures
        final(state).wf(),
        match old(state).banana {
            None => *final(state) == *old(state),
            Some(b) => {
                if dist_sq(
                    b.movement.cur_position,
                    old(state).gorilla_of(b.thrown_by).pos,
                ) > WATCH_DISTANCE_SQ_MILLI {
                    &&& final(state).action is Watching
                    &&& final(state).indicator_live == false
                    &&& final(state).player == old(state).player
                    &&& final(state).winner == old(state).winner
                    &&& final(state).same_arena(*old(state))
                    &&& final(state).bricks == old(state).bricks
                    &&& final(state).banana == old(state).banana
                    &&& final(state).explosion == old(state).explosion
                    &&& final(state).move_arrow == old(state).move_arrow
                    &&& final(state).collision_sounds_pending == old(
                        state,
                    ).collision_sounds_pending
                } else {
                    *final(state) == *old(state)
                }
            },
        },
{
    let (center, thrown_by) = match state.banana {
        None => {
            return ;
        },
        Some(b) => (b.movement.cur_position, b.thrown_by),
    };
    let g_pos = if matches!(thrown_by, Player::One) {
        state.gorilla_one.pos
    } else {
        state.gorilla_two.pos
    };
    let dx: i128 = (center.x - g_pos.x) as i128;
    let dy: i128 = (center.y - g_pos.y) as i128;
    proof {
        assert(dx * dx <= 0x1000_0000_0000_0000_0000_0000 && dx * dx >= 0) by (nonlinear_arith)
            requires
                -0x4000_0000_0000 <= dx <= 0x4000_0000_0000,
        ;
        assert(dy * dy <= 0x1000_0000_0000_0000_0000_0000 && dy * dy >= 0) by (nonlinear_arith)
            requires
                -0x4000_0000_0000 <= dy <= 0x4000_0000_0000,
        ;
    }
    let d2: i128 = dx * dx + dy * dy;
    if d2 > WATCH_DISTANCE_SQ_MILLI {
        state.action = Action::Watching;
        state.indicator_live = false;
    }
}

/// True when the projectile has left the playfield: horizontally beyond
/// half the screen width to either side, or below the bottom edge.
pub open spec fn off_screen(pos: Vec2i, screen_width: int, screen_height: int) -> bool {
    ||| pos.x <= -(screen_width / 2) * 1000
    ||| pos.x >= (screen_width / 2) * 1000
    ||| pos.y <= -(screen_height / 2) * 1000
}

/// A projectile that leaves the screen is a miss: it is removed and the
/// turn passes to the other player, phase back at the setup step that
/// reopens aiming, with no collision signalled.
pub fn check_banana_off_screen(state: &mut GameState)
    requires
        old(state).wf(),
        old(state).action is Watching,
    ensures
        final(state).wf(),
        match old(state).banana {
            None => *final(state) == *old(state),
            Some(b) => {
                if off_screen(
                    b.movement.cur_position,
                    old(state).config.screen_width as int,
                    old(state).config.screen_height as int,
                ) {
                    &&& final(state).banana is None
                    &&& final(state).action is PreEnter
                    &&& final(state).player == other_player(old(state).player)
                    &&& final(state).winner == old(state).winner
                    &&& final(state).same_arena(*old(state))
                    &&& final(state).bricks == old(state).bricks
                    &&& final(state).explosion == old(state).explosion
                    &&& final(state).indicator_live == old(state).indicator_live
                    &&& final(state).move_arrow == old(state).move_arrow
                    &&& final(state).collision_sounds_pending == old(
                        state,
                    ).collision_sounds_pending
                } else {
                    *final(state) == *old(state)
                }
            },
        },
{
    let pos = match state.banana {
        None => {
            return ;
        },
        Some(b) => b.movement.cur_position,
    };
    let half_w: i64 = (state.config.screen_width / 2) as i64 * 1000;
    let half_h: i64 = (state.config.screen_height / 2) as i64 * 1000;
    if pos.x <= -half_w || pos.x >= half_w || pos.y <= -half_h {
        state.banana = None;
        next_player_system(state, Action::PreEnter);
    }
}

/// For one aim, Player Two's throw velocity is the exact mirror of Player
/// One's: the x-component negated, the y-component identical.  Wind plays
/// no part in the initial velocity; it acts only during flight.
pub proof fn lemma_throw_mirrored(angle: int, speed: int)
    ensures
        throw_vel_x(Player::Two, angle, speed) == -throw_vel_x(Player::One, angle, speed),
{
}

/// At ninety degrees the throw is purely vertical and upward: the
/// x-component is exactly zero and the y-component is the aim speed under
/// the fixed unit scaling, for either player.
pub proof fn lemma_throw_vertical_at_90(player: Player, speed: int)
    requires
        10 <= speed <= 200,
    ensures
        throw_dir_x(90) == 0,
        throw_dir_y(90) == 1000,
        throw_vel_x(player, 90, speed) == 0,
        throw_vel_y(90, speed) == mul_div(1000 * speed, 40, 3),
        throw_vel_y(90, speed) > 0,
{
    assert(sin_mdeg(0) == 0);
    assert(cos_mdeg(0) == 1000);
    assert(0 * speed == 0) by (nonlinear_arith);
    assert(0int * 40 == 0) by (nonlinear_arith);
    lemma_div_of0(3);
    assert(10000 <= 1000 * speed * 40) by (nonlinear_arith)
        requires
            10 <= speed,
    ;
    lemma_div_is_ordered(10000, 1000 * speed * 40, 3);
}

/// At the axis angles the quantized direction is an exact milli unit
/// vector, so the throw magnitude before unit scaling is exactly the aim
/// speed: the squared direction-times-speed vector equals `(1000 * s)^2`.
/// At other angles the table's rounding makes the magnitude only
/// approximately the speed.
pub proof fn lemma_throw_magnitude_axis(angle: int, speed: int)
    requires
        angle == 0 || angle == 90 || angle == 180,
        10 <= speed <= 200,
    ensures
        throw_dir_x(angle) * throw_dir_x(angle) + throw_dir_y(angle) * throw_dir_y(angle)
            == 1000000,
        (throw_dir_x(angle) * speed) * (throw_dir_x(angle) * speed) + (throw_dir_y(angle) * speed)
            * (throw_dir_y(angle) * speed) == (1000 * speed) * (1000 * speed),
{
    let dx = throw_dir_x(angle);
    let dy = throw_dir_y(angle);
    if angle == 0 {
        assert(dx == 1000 && dy == 0);
    } else if angle == 90 {
        assert(dx == 0 && dy == 1000);
    } else {
        assert(dx == -1000 && dy == 0);
    }
    assert((dx * speed) * (dx * speed) + (dy * speed) * (dy * speed) == (1000 * speed) * (1000
        * speed)) by (nonlinear_arith)
        requires
            dx * dx + dy * dy == 1000000,
    ;
}

/// The quantized throw direction stays within table rounding of the milli
/// unit circle at every aim angle: its squared norm differs from 1000^2 by
/// at most 1200.
pub proof fn lemma_throw_direction_norm(angle: int)
    requires
        0 <= angle <= 230,
    ensures
        999200 <= throw_dir_x(angle) * throw_dir_x(angle) + throw_dir_y(angle) * throw_dir_y(
            angle,
        ) <= 1001192,
{
    let d = 90 - angle;
    let dx = throw_dir_x(angle);
    let dy = throw_dir_y(angle);
    if d >= 0 {
        lemma_table_norm_bounds(d);
        assert(dx == sin_table(d) && dy == sin_table(90 - d));
    } else if d >= -90 {
        lemma_table_norm_bounds(-d);
        assert(dx == -sin_table(-d) && dy == sin_table(90 - (-d)));
        assert(dx * dx == sin_table(-d) * sin_table(-d)) by (nonlinear_arith)
            requires
                dx == -sin_table(-d),
        ;
    } else {
        lemma_table_norm_bounds(-d - 90);
        assert(dx == -sin_table(90 - (-d - 90)) && dy == -sin_table(-d - 90));
        assert(dx * dx == sin_table(90 - (-d - 90)) * sin_table(90 - (-d - 90)) && dy * dy
            == sin_table(-d - 90) * sin_table(-d - 90)) by (nonlinear_arith)
            requires
                dx == -sin_table(90 - (-d - 90)),
                dy == -sin_table(-d - 90),
        ;
    }
}

/// For every aim the library accepts, the squared magnitude of the throw
/// vector before unit scaling lies within 0.09 percent of the aim speed in
/// milli units, squared — the direction is a unit vector scaled by the
/// speed, up to the table's rounding.  It is exact at the axis angles.
pub proof fn lemma_throw_magnitude(angle: int, speed: int)
    requires
        0 <= angle <= 230,
        10 <= speed <= 200,
    ensures
        999200 * (speed * speed) <= (throw_dir_x(angle) * speed) * (throw_dir_x(angle) * speed)
            + (throw_dir_y(angle) * speed) * (throw_dir_y(angle) * speed),
        (throw_dir_x(angle) * speed) * (throw_dir_x(angle) * speed) + (throw_dir_y(angle) * speed)
            * (throw_dir_y(angle) * speed) <= 1001192 * (speed * speed),
{
    lemma_throw_direction_norm(angle);
    let dx = throw_dir_x(angle);
    let dy = throw_dir_y(angle);
    assert(speed * speed > 0) by (nonlinear_arith)
        requires
            speed >= 10,
    ;
    assert((dx * speed) * (dx * speed) + (dy * speed) * (dy * speed) == (dx * dx + dy * dy) * (
    speed * speed)) by (nonlinear_arith);
    assert(999200 * (speed * speed) <= (dx * dx + dy * dy) * (speed * speed) <= 1001192 * (speed
        * speed)) by (nonlinear_arith)
        requires
            999200 <= dx * dx + dy * dy <= 1001192,
            speed * speed > 0,
    ;
}

/// The projectile after one fixed physics tick under gravity and wind:
/// velocity first, then position from the new velocity, then the cosmetic
/// spin.
pub open spec fn banana_stepped(b: Banana, g: Vec2i, w: Vec2i, dt: int) -> Banana {
    let vel = Vec2i {
        x: vel_component_stepped(b.velocity.0.x as int, g.x as int, w.x as int, dt) as i64,
        y: vel_component_stepped(b.velocity.0.y as int, g.y as int, w.y as int, dt) as i64,
    };
    Banana {
        thrown_by: b.thrown_by,
        movement: movement_stepped(b.movement, vel, dt),
        velocity: Velocity(vel),
        angle_milli_deg: norm_360(b.angle_milli_deg + b.rotation.0) as i64,
        rotation: b.rotation,
    }
}

} // verus!
