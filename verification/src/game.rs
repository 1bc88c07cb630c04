//! The turn/phase state machine and the per-turn aim state, and the whole
//! game state that the per-tick systems act on in a fixed order: input,
//! spawn, physics, collision, phase transition.

use vstd::prelude::*;
use crate::arena::{arena_bricks, gorilla_pos, setup_arena, SimConfig};
use crate::banana::{banana_stepped, Banana};
use crate::collision::{debris_stepped, BrickKind, BuildingBrick, Explosion};
use crate::constants::GRAVITY_Y_ACCEL_MILLI;
use crate::physics::{setup_gravity, step_movement, step_velocity, apply_rotation, GlobalWorldAcceleration, Vec2i};
use crate::players::{other_player, GorillaState, Player};
use crate::wind::{setup_wind, Wind};

verus! {

/// The phase of the current turn.  `PreEnter` is the short setup step that
/// respawns the throw indicator; `Winner` is terminal until external reset.
#[derive(Clone, Copy, Debug, PartialEq, Eq, Structural, Hash)]
pub enum Action {
    PreEnter,
    Enter,
    Throwing,
    Watching,
    Winner,
}

/// One player's aim: angle in degrees, speed in m/s-equivalent units.
#[derive(Clone, Copy, Debug, PartialEq, Eq, Structural)]
pub struct AngleSpeed {
    pub angle: u8,
    pub speed: u8,
}

impl AngleSpeed {
    /// The documented hard ranges: angle in [0, 230], speed in [10, 200].
    pub open spec fn wf(self) -> bool {
        self.angle <= 230 && 10 <= self.speed <= 200
    }
}

impl Default for AngleSpeed {
    /// A fresh gorilla aims at 45 degrees with speed 30.
    fn default() -> (a: AngleSpeed)
        ensures
            a.angle == 45,
            a.speed == 30,
            a.wf(),
    {
        AngleSpeed { angle: 45, speed: 30 }
    }
}

/// Which aim keys are currently active.
#[derive(Clone, Copy, Debug, PartialEq, Eq, Structural)]
pub struct AimInput {
    pub up: bool,
    pub down: bool,
    pub left: bool,
    pub right: bool,
}

impl AimInput {
    /// True when any aim key is active.
    pub open spec fn any(self) -> bool {
        self.up || self.down || self.left || self.right
    }
}

/// The angle after one input step: up raises toward 230, down lowers
/// toward 0, each clamped, down applied after up as the input handler does.
pub open spec fn angle_stepped(angle: int, input: AimInput) -> int {
    let raised = if input.up {
        if angle + 1 <= 230 {
            angle + 1
        } else {
            230
        }
    } else {
        angle
    };
    if input.down {
        if raised - 1 >= 0 {
            raised - 1
        } else {
            0
        }
    } else {
        raised
    }
}

/// The speed after one input step: right raises toward 200, left lowers
/// toward 10, each clamped, left applied after right.
pub open spec fn speed_stepped(speed: int, input: AimInput) -> int {
    let raised = if input.right {
        if speed + 1 <= 200 {
            speed + 1
        } else {
            200
        }
    } else {
        speed
    };
    if input.left {
        if raised - 1 >= 10 {
            raised - 1
        } else {
            10
        }
    } else {
        raised
    }
}

/// The whole aim state after one input step.
pub open spec fn aim_stepped(a: AngleSpeed, input: AimInput) -> AngleSpeed {
    AngleSpeed {
        angle: angle_stepped(a.angle as int, input) as u8,
        speed: speed_stepped(a.speed as int, input) as u8,
    }
}

/// Applies one step of aim input, clamping angle to [0, 230] and speed to
/// [10, 200]; out-of-range accumulation is clamped silently, never an error.
pub fn mutate_speed_angle(a: &mut AngleSpeed, input: &AimInput)
    requires
        old(a).wf(),
    ensures
        *final(a) == aim_stepped(*old(a), *input),
        final(a).wf(),
{
    if input.up {
        a.angle = if a.angle + 1 <= 230 {
            a.angle + 1
        } else {
            230
        };
    }
    if input.down {
        a.angle = if a.angle >= 1 {
            a.angle - 1
        } else {
            0
        };
    }
    if input.right {
        a.speed = if a.speed + 1 <= 200 {
            a.speed + 1
        } else {
            200
        };
    }
    if input.left {
        a.speed = if a.speed >= 11 {
            a.speed - 1
        } else {
            10
        };
    }
}

/// The auto-repeat delay timer for held aim keys.
#[derive(Clone, Copy, Debug, PartialEq, Eq, Structural)]
pub struct MoveArrowState {
    /// Milliseconds accumulated since the last key press.
    pub elapsed_ms: u32,
}

impl Default for MoveArrowState {
    /// A fresh timer has accumulated nothing.
    fn default() -> (s: MoveArrowState)
        ensures
            s.elapsed_ms == 0,
    {
        MoveArrowState { elapsed_ms: 0 }
    }
}

/// The timer value after accumulating one frame, saturating at the top.
pub open spec fn timer_ticked(elapsed: int, delta: int) -> int {
    if elapsed + delta <= u32::MAX {
        elapsed + delta
    } else {
        u32::MAX as int
    }
}

/// Handles the aim keys for one frame while the current player is aiming:
/// a fresh key press steps the aim at once and resets the repeat timer; a
/// held key keeps stepping only after the repeat delay has accumulated.
pub fn change_action(
    a: &mut AngleSpeed,
    timer: &mut MoveArrowState,
    input: &AimInput,
    just_pressed: bool,
    delta_ms: u32,
)
    requires
        old(a).wf(),
    ensures
        final(a).wf(),
        ({
            let after_press = if just_pressed {
                aim_stepped(*old(a), *input)
            } else {
                *old(a)
            };
            let base_elapsed = if just_pressed {
                0int
            } else {
                old(timer).elapsed_ms as int
            };
            let new_elapsed = if input.any() {
                timer_ticked(base_elapsed, delta_ms as int)
            } else {
                base_elapsed
            };
            &&& final(timer).elapsed_ms == new_elapsed
            &&& *final(a) == if input.any() && new_elapsed >= crate::constants::AIM_REPEAT_DELAY_MS {
                aim_stepped(after_press, *input)
            } else {
                after_press
            }
        }),
{
    if just_pressed {
        timer.elapsed_ms = 0;
        mutate_speed_angle(a, input);
    }
    if input.up || input.down || input.left || input.right {
        timer.elapsed_ms = if timer.elapsed_ms <= u32::MAX - delta_ms {
            timer.elapsed_ms + delta_ms
        } else {
            u32::MAX
        };
        if timer.elapsed_ms >= crate::constants::AIM_REPEAT_DELAY_MS {
            mutate_speed_angle(a, input);
        }
    }
}

/// The whole simulation state, owned by the core and handed by reference to
/// each system.  Mutated only through the verified systems, in the fixed
/// per-tick order.
pub struct GameState {
    /// The validated startup configuration.
    pub config: SimConfig,
    /// The current phase of the turn.
    pub action: Action,
    /// Whose turn it is.
    pub player: Player,
    /// The recorded winner; present exactly in the `Winner` phase.
    pub winner: Option<Player>,
    /// Player One's gorilla, on the first building.
    pub gorilla_one: GorillaState,
    /// Player Two's gorilla, on the last building.
    pub gorilla_two: GorillaState,
    /// Every brick still in the world, solid or debris.
    pub bricks: Vec<BuildingBrick>,
    /// The in-flight projectile, at most one.
    pub banana: Option<Banana>,
    /// The live shockwave, at most one.
    pub explosion: Option<Explosion>,
    /// The current wind.
    pub wind: Wind,
    /// Constant downward gravity.
    pub gravity: GlobalWorldAcceleration,
    /// Whether the throw indicator arrow is on screen.
    pub indicator_live: bool,
    /// The aim-key auto-repeat timer.
    pub move_arrow: MoveArrowState,
    /// Fire-and-forget collision signals not yet consumed by the audio
    /// layer.
    pub collision_sounds_pending: u32,
    /// The drawn height of each building, in pixels.
    pub building_heights: Vec<u32>,
    /// The drawn palette index of each building.
    pub building_colors: Vec<u8>,
}

impl GameState {
    /// The gorilla belonging to a player.
    pub open spec fn gorilla_of(self, p: Player) -> GorillaState {
        if p is One {
            self.gorilla_one
        } else {
            self.gorilla_two
        }
    }

    /// The state invariant every system preserves.
    pub open spec fn wf(self) -> bool {
        &&& self.config.valid()
        &&& self.gorilla_one.wf()
        &&& self.gorilla_one.gorilla.player is One
        &&& self.gorilla_two.wf()
        &&& self.gorilla_two.gorilla.player is Two
        &&& forall|j: int| 0 <= j < self.bricks@.len() ==> (#[trigger] self.bricks@[j]).wf()
        &&& match self.banana {
            Some(b) => b.wf(),
            None => true,
        }
        &&& match self.explosion {
            Some(e) => e.wf(),
            None => true,
        }
        &&& self.wind.wf()
        &&& self.gravity.0.x == 0
        &&& self.gravity.0.y == GRAVITY_Y_ACCEL_MILLI
        &&& (self.winner is Some <==> self.action is Winner)
    }

    /// The read-only snapshot the HUD presents each frame: the current
    /// player's name, the phase, and the current aim.  Formatting is the
    /// presentation layer's business.
    pub fn hud_snapshot(&self) -> (r: (String, Action, u8, u8))
        ensures
            r.0@ == self.gorilla_of(self.player).gorilla.name@,
            r.1 == self.action,
            r.2 == self.gorilla_of(self.player).aim.angle,
            r.3 == self.gorilla_of(self.player).aim.speed,
    {
        let g = if matches!(self.player, Player::One) {
            &self.gorilla_one
        } else {
            &self.gorilla_two
        };
        (g.gorilla.name.clone(), self.action, g.aim.angle, g.aim.speed)
    }

    /// All fields that identify the static world and configuration, for
    /// stating that a system leaves them alone.
    pub open spec fn same_arena(self, o: GameState) -> bool {
        &&& self.config == o.config
        &&& self.gorilla_one == o.gorilla_one
        &&& self.gorilla_two == o.gorilla_two
        &&& self.building_heights == o.building_heights
        &&& self.building_colors == o.building_colors
        &&& self.wind == o.wind
        &&& self.gravity == o.gravity
    }
}

/// Builds the initial game state: the generated arena, a first wind, the
/// constant gravity, Player One to move, and the setup phase that spawns
/// the throw indicator before aiming begins.  Called once at startup, after
/// the configuration has been validated.
pub fn setup(rng: &mut rand::rngs::ThreadRng, config: &SimConfig) -> (s: GameState)
    requires
        config.valid(),
    ensures
        s.config == *config,
        s.action is PreEnter,
        s.player is One,
        s.winner is None,
        s.banana is None,
        s.explosion is None,
        s.indicator_live == false,
        s.move_arrow.elapsed_ms == 0,
        s.collision_sounds_pending == 0,
        s.building_heights@.len() == config.num_buildings(),
        s.bricks@ == arena_bricks(
            s.building_heights@,
            s.building_colors@,
            config.screen_width as int,
            config.screen_height as int,
            config.building_width as int,
        ),
        s.gorilla_one.pos == gorilla_pos(
            config.screen_width as int,
            config.screen_height as int,
            config.building_width as int,
            0,
            s.building_heights@[0] as int,
        ),
        s.gorilla_two.pos == gorilla_pos(
            config.screen_width as int,
            config.screen_height as int,
            config.building_width as int,
            config.num_buildings() - 1,
            s.building_heights@[config.num_buildings() - 1] as int,
        ),
        s.gorilla_one.gorilla.name@ == "Player 1"@,
        s.gorilla_two.gorilla.name@ == "Player 2"@,
        s.gorilla_one.aim == (AngleSpeed { angle: 45, speed: 30 }),
        s.gorilla_two.aim == (AngleSpeed { angle: 45, speed: 30 }),
        s.wf(),
{
    let arena = setup_arena(rng, config);
    let wind = setup_wind(rng);
    let gravity = setup_gravity();
    GameState {
        config: *config,
        action: Action::PreEnter,
        player: Player::One,
        winner: None,
        gorilla_one: arena.gorilla_one,
        gorilla_two: arena.gorilla_two,
        bricks: arena.bricks,
        banana: None,
        explosion: None,
        wind,
        gravity,
        indicator_live: false,
        move_arrow: MoveArrowState { elapsed_ms: 0 },
        collision_sounds_pending: 0,
        building_heights: arena.heights,
        building_colors: arena.colors,
    }
}

/// Passes the turn: unless the round is already decided, the other player
/// becomes current and the phase is set as requested; when the requested
/// phase is `Winner`, the player the turn passes to is recorded as the
/// winner.  In the `Winner` phase this does nothing — the phase is
/// terminal.
pub fn next_player_system(state: &mut GameState, set_next_action: Action)
    requires
        old(state).wf(),
    ensures
        final(state).wf(),
        old(state).action is Winner ==> *final(state) == *old(state),
        !(old(state).action is Winner) ==> {
            &&& final(state).player == other_player(old(state).player)
            &&& final(state).action == set_next_action
            &&& final(state).winner == (if set_next_action is Winner {
                Some(other_player(old(state).player))
            } else {
                old(state).winner
            })
            &&& final(state).same_arena(*old(state))
            &&& final(state).bricks == old(state).bricks
            &&& final(state).banana == old(state).banana
            &&& final(state).explosion == old(state).explosion
            &&& final(state).indicator_live == old(state).indicator_live
            &&& final(state).move_arrow == old(state).move_arrow
            &&& final(state).collision_sounds_pending == old(state).collision_sounds_pending
        },
{
    if !matches!(state.action, Action::Winner) {
        state.player = state.player.other();
        if matches!(set_next_action, Action::Winner) {
            state.winner = Some(state.player);
        }
        state.action = set_next_action;
    }
}

/// The pose the throw indicator presents while the current player aims:
/// anchored at the gorilla, rotated to the aim angle — mirrored for Player
/// Two — and stretched with the aim speed (a speed of 30 is length one).
#[derive(Clone, Copy, Debug, PartialEq, Eq, Structural)]
pub struct IndicatorPose {
    /// The owning gorilla's position, milli-pixels.
    pub pos: Vec2i,
    /// Rotation in milli-degrees; Player One shows the angle itself,
    /// Player Two its mirror image.
    pub angle_milli_deg: i64,
    /// Horizontal stretch in milli: `speed / 30`.
    pub scale_x_milli: u32,
}

/// The indicator pose for a given gorilla and player.
pub open spec fn indicator_pose_of(g: GorillaState, p: Player) -> IndicatorPose {
    IndicatorPose {
        pos: g.pos,
        angle_milli_deg: (if p is One {
            1000 * g.aim.angle as int
        } else {
            1000 * (180 - g.aim.angle as int)
        }) as i64,
        scale_x_milli: ((g.aim.speed as int * 1000) / 30) as u32,
    }
}

/// Drives the throw indicator: in the setup phase it spawns the indicator
/// and opens the aiming phase; while aiming it reports the pose the
/// indicator must take for the current player; otherwise it does nothing.
pub fn throw_indicator(state: &mut GameState) -> (pose: Option<IndicatorPose>)
    requires
        old(state).wf(),
    ensures
        final(state).wf(),
        old(state).indicator_live && old(state).action is Enter ==> {
            &&& *final(state) == *old(state)
            &&& pose == Some(indicator_pose_of(old(state).gorilla_of(old(state).player), old(state).player))
        },
        !old(state).indicator_live && old(state).action is PreEnter ==> {
            &&& pose is None
            &&& final(state).indicator_live
            &&& final(state).action is Enter
            &&& final(state).player == old(state).player
            &&& final(state).winner == old(state).winner
            &&& final(state).same_arena(*old(state))
            &&& final(state).bricks == old(state).bricks
            &&& final(state).banana == old(state).banana
            &&& final(state).explosion == old(state).explosion
            &&& final(state).move_arrow == old(state).move_arrow
            &&& final(state).collision_sounds_pending == old(state).collision_sounds_pending
        },
        !(old(state).indicator_live && old(state).action is Enter) && !(!old(state).indicator_live
            && old(state).action is PreEnter) ==> {
            &&& *final(state) == *old(state)
            &&& pose is None
        },
{
    if state.indicator_live {
        if matches!(state.action, Action::Enter) {
            let g = if matches!(state.player, Player::One) {
                &state.gorilla_one
            } else {
                &state.gorilla_two
            };
            let angle_milli_deg: i64 = if matches!(state.player, Player::One) {
                1000 * (g.aim.angle as i64)
            } else {
                1000 * (180 - g.aim.angle as i64)
            };
            let scale_x_milli: u32 = (g.aim.speed as u32 * 1000) / 30;
            Some(IndicatorPose { pos: g.pos, angle_milli_deg, scale_x_milli })
        } else {
            None
        }
    } else {
        if matches!(state.action, Action::PreEnter) {
            state.indicator_live = true;
            state.action = Action::Enter;
        }
        None
    }
}

/// One fixed physics tick over every moving body: the projectile and every
/// debris brick accelerate under gravity and wind, advance their settled
/// positions, and the projectile spins; solid bricks, gorillas and the rest
/// of the state are untouched.
pub fn physics_step(state: &mut GameState)
    requires
        old(state).wf(),
    ensures
        final(state).wf(),
        final(state).bricks@.len() == old(state).bricks@.len(),
        forall|j: int| 0 <= j < old(state).bricks@.len() ==> #[trigger] final(state).bricks@[j]
            == debris_stepped(
            old(state).bricks@[j],
            old(state).gravity.0,
            old(state).wind.accel.0,
            old(state).config.dt_ms as int,
        ),
        final(state).banana == match old(state).banana {
            None => None::<Banana>,
            Some(b) => Some(
                banana_stepped(
                    b,
                    old(state).gravity.0,
                    old(state).wind.accel.0,
                    old(state).config.dt_ms as int,
                ),
            ),
        },
        final(state).action == old(state).action,
        final(state).player == old(state).player,
        final(state).winner == old(state).winner,
        final(state).same_arena(*old(state)),
        final(state).explosion == old(state).explosion,
        final(state).indicator_live == old(state).indicator_live,
        final(state).move_arrow == old(state).move_arrow,
        final(state).collision_sounds_pending == old(state).collision_sounds_pending,
{
    let gravity = state.gravity;
    let wind_accel = state.wind.accel;
    let dt = state.config.dt_ms;

    match state.banana {
        None => {},
        Some(b) => {
            let mut vel = b.velocity;
            step_velocity(&mut vel, &gravity, &wind_accel, dt);
            let mut movement = b.movement;
            step_movement(&mut movement, &vel, dt);
            let mut angle = b.angle_milli_deg;
            apply_rotation(&mut angle, &b.rotation);
            state.banana = Some(
                Banana {
                    thrown_by: b.thrown_by,
                    movement,
                    velocity: vel,
                    angle_milli_deg: angle,
                    rotation: b.rotation,
                },
            );
        },
    }

    let ghost orig = state.bricks@;
    let ghost mid = *state;
    let n = state.bricks.len();
    let mut i: usize = 0;
    while i < n
        invariant
            n == orig.len(),
            state.bricks@.len() == orig.len(),
            i <= n,
            1 <= dt <= 1000,
            gravity.0.in_range(),
            wind_accel.0.in_range(),
            state.banana == mid.banana,
            state.action == mid.action,
            state.player == mid.player,
            state.winner == mid.winner,
            state.explosion == mid.explosion,
            state.indicator_live == mid.indicator_live,
            state.move_arrow == mid.move_arrow,
            state.collision_sounds_pending == mid.collision_sounds_pending,
            state.same_arena(mid),
            forall|j: int| 0 <= j < orig.len() ==> (#[trigger] orig[j]).wf(),
            forall|j: int| i <= j < orig.len() ==> #[trigger] state.bricks@[j] == orig[j],
            forall|j: int| 0 <= j < i ==> #[trigger] state.bricks@[j] == debris_stepped(
                orig[j],
                gravity.0,
                wind_accel.0,
                dt as int,
            ),
            forall|j: int| 0 <= j < state.bricks@.len() ==> (#[trigger] state.bricks@[j]).wf(),
        decreases n - i,
    {
        proof {
            assert(state.bricks@[i as int] == orig[i as int]);
            assert(orig[i as int].wf());
        }
        let b = state.bricks[i];
        if matches!(b.kind, BrickKind::Debris) {
            let mut vel = b.velocity;
            step_velocity(&mut vel, &gravity, &wind_accel, dt);
            let mut movement = b.movement;
            step_movement(&mut movement, &vel, dt);
            let stepped = BuildingBrick {
                kind: b.kind,
                movement,
                velocity: vel,
                opacity_milli: b.opacity_milli,
                a_step_milli: b.a_step_milli,
                color: b.color,
            };
            state.bricks[i] = stepped;
        }
        i = i + 1;
    }
}

} // verus!
