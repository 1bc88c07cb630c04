//! Axis-aligned collision resolution against the destructible world.
//!
//! A moving footprint (projectile or explosion shockwave) is tested against
//! every active collider: the solid building bricks and the two gorillas.
//! A solid brick that is hit turns into debris — it stops being a collider,
//! receives a randomized outward velocity and decay step, and fades out over
//! the following ticks until its opacity reaches exactly zero, at which
//! point it is removed.

use vstd::prelude::*;
use crate::constants::{
    BRICK_A_STEP_MAX_MILLI, BRICK_A_STEP_MIN_MILLI, BRICK_EXPLODE_VEL_X_MAX_MILLI,
    BRICK_EXPLODE_VEL_X_MIN_MILLI, BRICK_EXPLODE_VEL_Y_MAX_MILLI, BRICK_EXPLODE_VEL_Y_MIN_MILLI,
    EXPLOSION_GROWTH_MILLI, EXPLOSION_MAX_SCALE_MILLI, OPACITY_FULL_MILLI, PALETTE_SIZE,
};
use crate::physics::{
    movement_stepped, vel_component_stepped, MovementState, Vec2i, Velocity,
};
use crate::game::{next_player_system, Action, GameState};
use crate::players::{other_player, GorillaState, Player};
use crate::rng::random_in_range;

verus! {

/// Whether a brick is still a solid collider or already falling debris.
/// The transition is one-way.
#[derive(Clone, Copy, Debug, PartialEq, Eq, Structural)]
pub enum BrickKind {
    Solid,
    Debris,
}

/// One destructible cell of a building.
#[derive(Clone, Copy, Debug)]
pub struct BuildingBrick {
    pub kind: BrickKind,
    /// Settled positions of the brick's center; static while solid.
    pub movement: MovementState,
    /// Scatter velocity; zero while solid.
    pub velocity: Velocity,
    /// Fill opacity in milli: 1000 while solid, fading once debris.
    pub opacity_milli: u32,
    /// Per-tick opacity loss in milli, drawn once at conversion.
    pub a_step_milli: u32,
    /// Index into the fixed building palette.
    pub color: u8,
}

impl BuildingBrick {
    /// A brick is either a pristine solid collider or decaying debris with
    /// its decay step inside the documented range.
    pub open spec fn wf(self) -> bool {
        &&& self.movement.old_position.in_range()
        &&& self.movement.cur_position.in_range()
        &&& self.velocity.0.in_range()
        &&& self.opacity_milli <= OPACITY_FULL_MILLI
        &&& self.color < PALETTE_SIZE
        &&& self.kind == BrickKind::Solid ==> {
            &&& self.opacity_milli == OPACITY_FULL_MILLI
            &&& self.velocity.0.x == 0
            &&& self.velocity.0.y == 0
            &&& self.a_step_milli == 0
        }
        &&& self.kind == BrickKind::Debris ==> BRICK_A_STEP_MIN_MILLI <= self.a_step_milli
            < BRICK_A_STEP_MAX_MILLI
    }
}

/// A growing circular shockwave, spawned at the projectile's impact point.
#[derive(Clone, Copy, Debug, PartialEq, Eq, Structural)]
pub struct Explosion {
    pub pos: Vec2i,
    /// Current scale factor in milli; 1000 at spawn.
    pub scale_milli: u32,
}

impl Explosion {
    /// Position within range and scale between spawn size and one growth
    /// step past the removal threshold.
    pub open spec fn wf(self) -> bool {
        &&& self.pos.in_range()
        &&& 1000 <= self.scale_milli <= 5000
    }
}

/// Closed-interval overlap of two axis-aligned boxes given by center and
/// half extents, on both axes; touching edges count as a collision.
pub open spec fn aabb_intersects(c1: Vec2i, h1: Vec2i, c2: Vec2i, h2: Vec2i) -> bool {
    &&& c1.x - h1.x <= c2.x + h2.x
    &&& c2.x - h2.x <= c1.x + h1.x
    &&& c1.y - h1.y <= c2.y + h2.y
    &&& c2.y - h2.y <= c1.y + h1.y
}

/// Half extents small enough that box edges stay within `i64` arithmetic.
pub open spec fn half_in_range(h: Vec2i) -> bool {
    0 <= h.x <= 0x4000_0000 && 0 <= h.y <= 0x4000_0000
}

/// Executable axis-aligned box intersection test.
pub fn aabb_check(c1: Vec2i, h1: Vec2i, c2: Vec2i, h2: Vec2i) -> (r: bool)
    requires
        c1.in_range(),
        c2.in_range(),
        half_in_range(h1),
        half_in_range(h2),
    ensures
        r == aabb_intersects(c1, h1, c2, h2),
{
    c1.x - h1.x <= c2.x + h2.x && c2.x - h2.x <= c1.x + h1.x && c1.y - h1.y <= c2.y + h2.y
        && c2.y - h2.y <= c1.y + h1.y
}

/// Half extents of a solid brick's collider footprint, in milli-pixels.
pub fn brick_half_extents() -> (h: Vec2i)
    ensures
        h == brick_half_spec(),
{
    Vec2i { x: 16000, y: 4000 }
}

/// Half extents of a brick: half of 32 by 8 pixels.
pub open spec fn brick_half_spec() -> Vec2i {
    Vec2i { x: 16000, y: 4000 }
}

/// Half extents of a gorilla's collider footprint, in milli-pixels.
pub fn gorilla_half_extents() -> (h: Vec2i)
    ensures
        h == gorilla_half_spec(),
{
    Vec2i { x: 16000, y: 32000 }
}

/// Half extents of a gorilla: half of 32 by 64 pixels.
pub open spec fn gorilla_half_spec() -> Vec2i {
    Vec2i { x: 16000, y: 32000 }
}

/// Half extents of the projectile's footprint, in milli-pixels.
pub fn banana_half_extents() -> (h: Vec2i)
    ensures
        h == banana_half_spec(),
{
    Vec2i { x: 16000, y: 16000 }
}

/// Half extents of the projectile: half of 32 by 32 pixels.
pub open spec fn banana_half_spec() -> Vec2i {
    Vec2i { x: 16000, y: 16000 }
}

/// True when the moving footprint hits this brick as a collider: only solid
/// bricks collide, at their settled position.
pub open spec fn brick_hit(b: BuildingBrick, center: Vec2i, half: Vec2i) -> bool {
    b.kind == BrickKind::Solid && aabb_intersects(
        center,
        half,
        b.movement.cur_position,
        brick_half_spec(),
    )
}

/// True when the moving footprint hits this gorilla's bounding box.
pub open spec fn gorilla_hit(g: GorillaState, center: Vec2i, half: Vec2i) -> bool {
    aabb_intersects(center, half, g.pos, gorilla_half_spec())
}

/// Relation between a hit solid brick and its freshly converted debris: the
/// collider flag is gone, the position is kept and re-settled, the scatter
/// velocity and decay step are inside their documented ranges, and opacity
/// and color are untouched.
pub open spec fn debris_conversion(b: BuildingBrick, d: BuildingBrick) -> bool {
    &&& d.kind == BrickKind::Debris
    &&& d.movement.old_position == b.movement.cur_position
    &&& d.movement.cur_position == b.movement.cur_position
    &&& BRICK_A_STEP_MIN_MILLI <= d.a_step_milli < BRICK_A_STEP_MAX_MILLI
    &&& BRICK_EXPLODE_VEL_X_MIN_MILLI <= d.velocity.0.x < BRICK_EXPLODE_VEL_X_MAX_MILLI
    &&& BRICK_EXPLODE_VEL_Y_MIN_MILLI <= d.velocity.0.y < BRICK_EXPLODE_VEL_Y_MAX_MILLI
    &&& d.opacity_milli == b.opacity_milli
    &&& d.color == b.color
}

/// How one brick looks after a collision pass of the given footprint: a hit
/// solid brick has become debris, every other brick is untouched.
pub open spec fn brick_resolved(
    b: BuildingBrick,
    after: BuildingBrick,
    center: Vec2i,
    half: Vec2i,
) -> bool {
    if brick_hit(b, center, half) {
        debris_conversion(b, after)
    } else {
        after == b
    }
}

/// Tests a moving footprint against every active collider.  Every solid
/// brick it overlaps becomes debris on the spot; the result reports whether
/// anything was hit and, if a gorilla was, whose — when both overlap at
/// once, Player Two's gorilla is the one reported.
pub fn check_if_did_collide(
    bricks: &mut Vec<BuildingBrick>,
    gorilla_one: &GorillaState,
    gorilla_two: &GorillaState,
    center: Vec2i,
    half: Vec2i,
    rng: &mut rand::rngs::ThreadRng,
) -> (r: (bool, Option<Player>))
    requires
        forall|j: int| 0 <= j < old(bricks)@.len() ==> #[trigger] old(bricks)@[j].wf(),
        gorilla_one.wf(),
        gorilla_two.wf(),
        center.in_range(),
        half_in_range(half),
    ensures
        final(bricks)@.len() == old(bricks)@.len(),
        forall|j: int| 0 <= j < old(bricks)@.len() ==> brick_resolved(
            old(bricks)@[j],
            #[trigger] final(bricks)@[j],
            center,
            half,
        ),
        forall|j: int| 0 <= j < final(bricks)@.len() ==> #[trigger] final(bricks)@[j].wf(),
        r.0 == ((exists|j: int| 0 <= j < old(bricks)@.len() && brick_hit(
            #[trigger] old(bricks)@[j],
            center,
            half,
        )) || gorilla_hit(*gorilla_one, center, half) || gorilla_hit(*gorilla_two, center, half)),
        r.1 == (if gorilla_hit(*gorilla_two, center, half) {
            Some(Player::Two)
        } else if gorilla_hit(*gorilla_one, center, half) {
            Some(Player::One)
        } else {
            None::<Player>
        }),
{
    let ghost orig = bricks@;
    let mut did_collide_brick = false;
    let n = bricks.len();
    let brick_half = brick_half_extents();
    let mut i: usize = 0;
    while i < n
        invariant
            n == orig.len(),
            bricks@.len() == orig.len(),
            i <= n,
            center.in_range(),
            half_in_range(half),
            forall|j: int| 0 <= j < orig.len() ==> #[trigger] orig[j].wf(),
            brick_half == brick_half_spec(),
            forall|j: int| i <= j < orig.len() ==> #[trigger] bricks@[j] == orig[j],
            forall|j: int| 0 <= j < i ==> brick_resolved(orig[j], #[trigger] bricks@[j], center, half),
            forall|j: int| 0 <= j < i ==> #[trigger] bricks@[j].wf(),
            did_collide_brick == (exists|j: int| 0 <= j < i && brick_hit(
                #[trigger] orig[j],
                center,
                half,
            )),
        decreases n - i,
    {
        proof {
            assert(bricks@[i as int] == orig[i as int]);
            assert(orig[i as int].wf());
        }
        let solid = matches!(bricks[i].kind, BrickKind::Solid);
        if solid && aabb_check(center, half, bricks[i].movement.cur_position, brick_half) {
            did_collide_brick = true;
            let a_step = random_in_range(rng, BRICK_A_STEP_MIN_MILLI as i64, BRICK_A_STEP_MAX_MILLI as i64);
            let vx = random_in_range(rng, BRICK_EXPLODE_VEL_X_MIN_MILLI, BRICK_EXPLODE_VEL_X_MAX_MILLI);
            let vy = random_in_range(rng, BRICK_EXPLODE_VEL_Y_MIN_MILLI, BRICK_EXPLODE_VEL_Y_MAX_MILLI);
            let pos = bricks[i].movement.cur_position;
            let converted = BuildingBrick {
                kind: BrickKind::Debris,
                movement: MovementState::new(pos),
                velocity: Velocity(Vec2i { x: vx, y: vy }),
                opacity_milli: bricks[i].opacity_milli,
                a_step_milli: a_step as u32,
                color: bricks[i].color,
            };
            bricks[i] = converted;
            assert(brick_hit(orig[i as int], center, half));
        }
        i = i + 1;
    }
    let hit_one = aabb_check(center, half, gorilla_one.pos, gorilla_half_extents());
    let hit_two = aabb_check(center, half, gorilla_two.pos, gorilla_half_extents());
    let who = if hit_two {
        Some(Player::Two)
    } else if hit_one {
        Some(Player::One)
    } else {
        None
    };
    (did_collide_brick || hit_one || hit_two, who)
}

/// One decay step of a single brick: debris loses its decay step's worth of
/// opacity, clamped at zero; a solid brick is untouched.
pub open spec fn decay_brick(b: BuildingBrick) -> BuildingBrick {
    if b.kind == BrickKind::Debris {
        BuildingBrick {
            kind: b.kind,
            movement: b.movement,
            velocity: b.velocity,
            opacity_milli: if b.a_step_milli <= b.opacity_milli {
                (b.opacity_milli - b.a_step_milli) as u32
            } else {
                0u32
            },
            a_step_milli: b.a_step_milli,
            color: b.color,
        }
    } else {
        b
    }
}

/// A fully decayed debris brick, due for removal.
pub open spec fn brick_done(b: BuildingBrick) -> bool {
    b.kind == BrickKind::Debris && b.opacity_milli == 0
}

/// The whole brick list after one decay tick: every brick decays one step
/// and exactly the fully decayed debris bricks are removed, order kept.
pub open spec fn decay_sweep(s: Seq<BuildingBrick>) -> Seq<BuildingBrick>
    decreases s.len(),
{
    if s.len() == 0 {
        Seq::empty()
    } else {
        let rest = decay_sweep(s.drop_last());
        let stepped = decay_brick(s.last());
        if brick_done(stepped) {
            rest
        } else {
            rest.push(stepped)
        }
    }
}

/// Opacity never rises in a decay step, and never goes below zero: debris
/// fades monotonically, clamped at exactly zero.
pub proof fn lemma_debris_opacity_monotonic(b: BuildingBrick)
    ensures
        decay_brick(b).opacity_milli <= b.opacity_milli,
        decay_brick(b).opacity_milli >= 0,
{
}

/// Runs one decay tick over the brick list: debris bricks fade by their own
/// step, and a brick is removed exactly when its opacity has reached zero —
/// so every surviving brick is either solid or still visible.
pub fn decr_and_despawn_brick(bricks: &mut Vec<BuildingBrick>)
    requires
        forall|j: int| 0 <= j < old(bricks)@.len() ==> #[trigger] old(bricks)@[j].wf(),
    ensures
        final(bricks)@ == decay_sweep(old(bricks)@),
        forall|j: int| 0 <= j < final(bricks)@.len() ==> #[trigger] final(bricks)@[j].wf(),
        forall|j: int| 0 <= j < final(bricks)@.len() ==> !brick_done(#[trigger] final(bricks)@[j]),
{
    let ghost orig = bricks@;
    let n = bricks.len();
    let mut out: Vec<BuildingBrick> = Vec::new();
    let mut i: usize = 0;
    while i < n
        invariant
            n == orig.len(),
            bricks@ == orig,
            i <= n,
            forall|j: int| 0 <= j < orig.len() ==> #[trigger] orig[j].wf(),
            out@ == decay_sweep(orig.take(i as int)),
            forall|j: int| 0 <= j < out@.len() ==> #[trigger] out@[j].wf(),
            forall|j: int| 0 <= j < out@.len() ==> !brick_done(#[trigger] out@[j]),
        decreases n - i,
    {
        let b = bricks[i];
        let stepped = BuildingBrick {
            kind: b.kind,
            movement: b.movement,
            velocity: b.velocity,
            opacity_milli: if matches!(b.kind, BrickKind::Debris) {
                if b.a_step_milli <= b.opacity_milli {
                    b.opacity_milli - b.a_step_milli
                } else {
                    0
                }
            } else {
                b.opacity_milli
            },
            a_step_milli: b.a_step_milli,
            color: b.color,
        };
        proof {
            assert(orig[i as int].wf());
            assert(stepped == decay_brick(orig[i as int]));
            assert(stepped.wf());
            assert(orig.take(i as int + 1).drop_last() =~= orig.take(i as int));
            assert(orig.take(i as int + 1).last() == orig[i as int]);
        }
        let keep = !(matches!(stepped.kind, BrickKind::Debris) && stepped.opacity_milli == 0);
        if keep {
            out.push(stepped);
        }
        i = i + 1;
    }
    proof {
        assert(orig.take(n as int) =~= orig);
    }
    *bricks = out;
}

/// The footprint half extents of an explosion at a given scale: the
/// shockwave is presented at the start diameter, so each half extent is
/// sixteen pixels times the scale.
pub open spec fn explosion_half_spec(scale_milli: int) -> Vec2i {
    Vec2i { x: (16 * scale_milli) as i64, y: (16 * scale_milli) as i64 }
}

/// A saturating count of collision signals.
pub open spec fn sound_bumped(n: int) -> int {
    if n < u32::MAX {
        n + 1
    } else {
        n
    }
}

/// Resolves the projectile against the world while the phase is
/// `Watching`.  On any collision the projectile is replaced by an explosion
/// at its impact position, a collision signal is emitted, and every solid
/// brick it overlapped starts its debris decay; a gorilla hit ends the
/// round at once — the player opposing the hit gorilla's owner is recorded
/// as winner, whatever bricks were struck in the same tick — while a plain
/// brick hit passes the turn to the other player instead.
pub fn check_for_collisions_banana(state: &mut GameState, rng: &mut rand::rngs::ThreadRng)
    requires
        old(state).wf(),
        old(state).action is Watching,
    ensures
        final(state).wf(),
        old(state).banana is None ==> *final(state) == *old(state),
        match old(state).banana {
            None => true,
            Some(b) => {
                let center = b.movement.cur_position;
                let hit_brick = exists|j: int| 0 <= j < old(state).bricks@.len() && brick_hit(
                    #[trigger] old(state).bricks@[j],
                    center,
                    banana_half_spec(),
                );
                let hit_one = gorilla_hit(old(state).gorilla_one, center, banana_half_spec());
                let hit_two = gorilla_hit(old(state).gorilla_two, center, banana_half_spec());
                &&& final(state).bricks@.len() == old(state).bricks@.len()
                &&& forall|j: int| 0 <= j < old(state).bricks@.len() ==> brick_resolved(
                    old(state).bricks@[j],
                    #[trigger] final(state).bricks@[j],
                    center,
                    banana_half_spec(),
                )
                &&& (!(hit_brick || hit_one || hit_two) ==> {
                    &&& final(state).banana == old(state).banana
                    &&& final(state).explosion == old(state).explosion
                    &&& final(state).action == old(state).action
                    &&& final(state).player == old(state).player
                    &&& final(state).winner == old(state).winner
                    &&& final(state).collision_sounds_pending == old(
                        state,
                    ).collision_sounds_pending
                })
                &&& ((hit_brick || hit_one || hit_two) ==> {
                    &&& final(state).banana is None
                    &&& final(state).explosion == Some(
                        Explosion { pos: center, scale_milli: 1000 },
                    )
                    &&& final(state).collision_sounds_pending == sound_bumped(
                        old(state).collision_sounds_pending as int,
                    )
                    &&& (hit_two ==> {
                        &&& final(state).action is Winner
                        &&& final(state).winner == Some(Player::One)
                        &&& final(state).player is One
                    })
                    &&& (!hit_two && hit_one ==> {
                        &&& final(state).action is Winner
                        &&& final(state).winner == Some(Player::Two)
                        &&& final(state).player is Two
                    })
                    &&& (!hit_two && !hit_one ==> {
                        &&& final(state).action is PreEnter
                        &&& final(state).player == other_player(old(state).player)
                        &&& final(state).winner is None
                    })
                })
                &&& final(state).same_arena(*old(state))
                &&& final(state).indicator_live == old(state).indicator_live
                &&& final(state).move_arrow == old(state).move_arrow
            },
        },
{
    let center = match state.banana {
        None => {
            return ;
        },
        Some(b) => b.movement.cur_position,
    };
    let (did_collide, who) = check_if_did_collide(
        &mut state.bricks,
        &state.gorilla_one,
        &state.gorilla_two,
        center,
        banana_half_extents(),
        rng,
    );
    if did_collide {
        state.explosion = Some(spawn_explosion(center));
        state.banana = None;
        state.collision_sounds_pending = if state.collision_sounds_pending < u32::MAX {
            state.collision_sounds_pending + 1
        } else {
            state.collision_sounds_pending
        };
        match who {
            Some(p) => {
                let w = p.other();
                state.winner = Some(w);
                state.player = w;
                state.action = Action::Winner;
            },
            None => {
                next_player_system(state, Action::PreEnter);
            },
        }
    }
}

/// Resolves the growing shockwave against the world on every tick it is
/// alive, independently of the direct projectile hit: solid bricks within
/// its current footprint crumble into debris, and a gorilla within it ends
/// the round for the opposing player even when the projectile itself
/// missed.  Runs in every phase but `Winner`.
pub fn check_for_collisions_explosion_gorilla(
    state: &mut GameState,
    rng: &mut rand::rngs::ThreadRng,
)
    requires
        old(state).wf(),
        !(old(state).action is Winner),
    ensures
        final(state).wf(),
        old(state).explosion is None ==> *final(state) == *old(state),
        match old(state).explosion {
            None => true,
            Some(e) => {
                let half = explosion_half_spec(e.scale_milli as int);
                let hit_one = gorilla_hit(old(state).gorilla_one, e.pos, half);
                let hit_two = gorilla_hit(old(state).gorilla_two, e.pos, half);
                &&& final(state).bricks@.len() == old(state).bricks@.len()
                &&& forall|j: int| 0 <= j < old(state).bricks@.len() ==> brick_resolved(
                    old(state).bricks@[j],
                    #[trigger] final(state).bricks@[j],
                    e.pos,
                    half,
                )
                &&& (hit_two ==> {
                    &&& final(state).action is Winner
                    &&& final(state).winner == Some(Player::One)
                    &&& final(state).player is One
                })
                &&& (!hit_two && hit_one ==> {
                    &&& final(state).action is Winner
                    &&& final(state).winner == Some(Player::Two)
                    &&& final(state).player is Two
                })
                &&& (!hit_two && !hit_one ==> {
                    &&& final(state).action == old(state).action
                    &&& final(state).player == old(state).player
                    &&& final(state).winner == old(state).winner
                })
                &&& final(state).banana == old(state).banana
                &&& final(state).explosion == old(state).explosion
                &&& final(state).collision_sounds_pending == old(state).collision_sounds_pending
                &&& final(state).indicator_live == old(state).indicator_live
                &&& final(state).move_arrow == old(state).move_arrow
                &&& final(state).same_arena(*old(state))
            },
        },
{
    let (center, scale) = match state.explosion {
        None => {
            return ;
        },
        Some(e) => (e.pos, e.scale_milli),
    };
    let half = Vec2i { x: 16 * scale as i64, y: 16 * scale as i64 };
    let (_, who) = check_if_did_collide(
        &mut state.bricks,
        &state.gorilla_one,
        &state.gorilla_two,
        center,
        half,
        rng,
    );
    match who {
        Some(p) => {
            let w = p.other();
            state.winner = Some(w);
            state.player = w;
            state.action = Action::Winner;
        },
        None => {},
    }
}

/// A brick after one fixed physics tick: debris drifts under gravity and
/// wind like any moving body; a solid brick does not move.
pub open spec fn debris_stepped(b: BuildingBrick, g: Vec2i, w: Vec2i, dt: int) -> BuildingBrick {
    if b.kind == BrickKind::Debris {
        let vel = Vec2i {
            x: vel_component_stepped(b.velocity.0.x as int, g.x as int, w.x as int, dt) as i64,
            y: vel_component_stepped(b.velocity.0.y as int, g.y as int, w.y as int, dt) as i64,
        };
        BuildingBrick {
            kind: b.kind,
            movement: movement_stepped(b.movement, vel, dt),
            velocity: Velocity(vel),
            opacity_milli: b.opacity_milli,
            a_step_milli: b.a_step_milli,
            color: b.color,
        }
    } else {
        b
    }
}

/// Builds a fresh shockwave at the projectile's impact position, at its
/// initial scale.
pub fn spawn_explosion(pos: Vec2i) -> (e: Explosion)
    requires
        pos.in_range(),
    ensures
        e.pos == pos,
        e.scale_milli == 1000,
        e.wf(),
{
    Explosion { pos, scale_milli: 1000 }
}

/// An explosion after one growth tick.
pub open spec fn explosion_grown(e: Explosion) -> Explosion {
    Explosion { pos: e.pos, scale_milli: ((e.scale_milli * (1000 + EXPLOSION_GROWTH_MILLI)) / 1000) as u32 }
}

/// One animation tick of the shockwave: past the size threshold it is
/// removed, otherwise its scale grows by the fixed per-tick factor.
pub fn animate_explosion(explosion: &mut Option<Explosion>)
    requires
        match *old(explosion) {
            Some(e) => e.wf(),
            None => true,
        },
    ensures
        match *old(explosion) {
            None => *final(explosion) is None,
            Some(e) => {
                if e.scale_milli > EXPLOSION_MAX_SCALE_MILLI {
                    *final(explosion) is None
                } else {
                    *final(explosion) == Some(explosion_grown(e)) && explosion_grown(e).wf()
                }
            },
        },
{
    let cur = *explosion;
    match cur {
        None => {},
        Some(e) => {
            if e.scale_milli > EXPLOSION_MAX_SCALE_MILLI {
                *explosion = None;
            } else {
                proof {
                    assert(EXPLOSION_GROWTH_MILLI == 256);
                    assert(EXPLOSION_MAX_SCALE_MILLI == 3000);
                    assert(e.scale_milli * (1000 + EXPLOSION_GROWTH_MILLI) <= 3768000)
                        by (nonlinear_arith)
                        requires
                            e.scale_milli <= 3000,
                            EXPLOSION_GROWTH_MILLI == 256,
                    ;
                }
                let grown = (e.scale_milli * (1000 + EXPLOSION_GROWTH_MILLI)) / 1000;
                *explosion = Some(Explosion { pos: e.pos, scale_milli: grown });
            }
        },
    }
}

} // verus!
