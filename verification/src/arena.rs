//! World generation: a row of buildings of random quantized height, each
//! decomposed into a destructible brick grid, plus the two gorillas resting
//! on the end buildings.

use vstd::prelude::*;
use vstd::arithmetic::div_mod::{
    lemma_div_is_ordered, lemma_fundamental_div_mod, lemma_mod_bound,
};
use vstd::arithmetic::mul::lemma_mul_is_commutative;
use crate::collision::{BrickKind, BuildingBrick};
use crate::constants::{
    BUILDING_BRICK_HEIGHT, BUILDING_BRICK_WIDTH, BUILDING_WIDTH, GORILLA_HEIGHT,
    OPACITY_FULL_MILLI, PALETTE_SIZE, SCREEN_HEIGHT, SCREEN_WIDTH, TIME_STEP_MS,
};
use crate::game::AngleSpeed;
use crate::physics::{MovementState, Vec2i, Velocity};
use crate::players::{Gorilla, GorillaState};
use crate::rng::{next_random_u32, random_in_range};
use vstd::string::StringExecFns;

verus! {

/// Startup configuration of the simulation.
#[derive(Clone, Copy, Debug, PartialEq, Eq, Structural)]
pub struct SimConfig {
    /// Playfield width in pixels.
    pub screen_width: u32,
    /// Playfield height in pixels.
    pub screen_height: u32,
    /// Width of one building in pixels.
    pub building_width: u32,
    /// Fixed physics tick in milliseconds.
    pub dt_ms: u32,
}

/// A violated configuration invariant; fatal at startup, before the
/// simulation loop may be entered.
#[derive(Clone, Copy, Debug, PartialEq, Eq, Structural)]
pub enum ConfigError {
    /// The buildings would not tile the screen width exactly.
    ArenaNotTiled,
    /// Fewer than two buildings: no end buildings for the two gorillas.
    TooFewBuildings,
    /// A building's width would not decompose into whole bricks.
    BuildingNotBrickAligned,
    /// The screen height must be even and large enough to hold a building.
    BadScreenHeight,
    /// Dimensions past what the fixed-point arithmetic is sized for.
    ScreenTooLarge,
    /// A zero or over-long physics tick.
    BadTimeStep,
}

impl SimConfig {
    /// All configuration invariants at once.
    pub open spec fn valid(self) -> bool {
        &&& 0 < self.building_width
        &&& self.screen_width % self.building_width == 0
        &&& self.screen_width / self.building_width >= 2
        &&& self.building_width % BUILDING_BRICK_WIDTH == 0
        &&& self.screen_height % 2 == 0
        &&& 16 <= self.screen_height
        &&& self.screen_width <= 100000
        &&& self.screen_height <= 100000
        &&& 1 <= self.dt_ms <= 1000
    }

    /// The number of buildings the screen holds.
    pub open spec fn num_buildings(self) -> int {
        self.screen_width as int / self.building_width as int
    }

    /// The standard arena: a 1280 by 720 screen of 160-pixel buildings at a
    /// 50 Hz physics step.
    pub fn standard() -> (c: SimConfig)
        ensures
            c == (SimConfig {
                screen_width: 1280,
                screen_height: 720,
                building_width: 160,
                dt_ms: 20,
            }),
            c.valid(),
    {
        SimConfig {
            screen_width: SCREEN_WIDTH,
            screen_height: SCREEN_HEIGHT,
            building_width: BUILDING_WIDTH,
            dt_ms: TIME_STEP_MS,
        }
    }
}

/// Checks every configuration invariant, reporting the first violation in
/// the order they are documented; `Ok` exactly when the configuration is
/// valid.
pub fn validate_config(c: &SimConfig) -> (r: Result<(), ConfigError>)
    ensures
        r is Ok <==> c.valid(),
        r == (if c.building_width == 0 || c.screen_width % c.building_width != 0 {
            Err::<(), ConfigError>(ConfigError::ArenaNotTiled)
        } else if c.screen_width / c.building_width < 2 {
            Err::<(), ConfigError>(ConfigError::TooFewBuildings)
        } else if c.building_width % BUILDING_BRICK_WIDTH != 0 {
            Err::<(), ConfigError>(ConfigError::BuildingNotBrickAligned)
        } else if c.screen_height % 2 != 0 || c.screen_height < 16 {
            Err::<(), ConfigError>(ConfigError::BadScreenHeight)
        } else if c.screen_width > 100000 || c.screen_height > 100000 {
            Err::<(), ConfigError>(ConfigError::ScreenTooLarge)
        } else if c.dt_ms == 0 || c.dt_ms > 1000 {
            Err::<(), ConfigError>(ConfigError::BadTimeStep)
        } else {
            Ok::<(), ConfigError>(())
        }),
{
    if c.building_width == 0 || c.screen_width % c.building_width != 0 {
        Err(ConfigError::ArenaNotTiled)
    } else if c.screen_width / c.building_width < 2 {
        Err(ConfigError::TooFewBuildings)
    } else if c.building_width % BUILDING_BRICK_WIDTH != 0 {
        Err(ConfigError::BuildingNotBrickAligned)
    } else if c.screen_height % 2 != 0 || c.screen_height < 16 {
        Err(ConfigError::BadScreenHeight)
    } else if c.screen_width > 100000 || c.screen_height > 100000 {
        Err(ConfigError::ScreenTooLarge)
    } else if c.dt_ms == 0 || c.dt_ms > 1000 {
        Err(ConfigError::BadTimeStep)
    } else {
        Ok(())
    }
}

/// The brick in row `k / cols`, column `k % cols` of a building whose
/// horizontal center is `x_center_px` and whose base sits at `bottom_px`:
/// solid, fully opaque, anchored at the building's bottom-left.
pub open spec fn brick_at(
    x_center_px: int,
    bottom_px: int,
    width_px: int,
    color: u8,
    cols: int,
    k: int,
) -> BuildingBrick {
    let r = k / cols;
    let c = k % cols;
    let px = x_center_px - width_px / 2 + BUILDING_BRICK_WIDTH / 2 + BUILDING_BRICK_WIDTH * c;
    let py = bottom_px + BUILDING_BRICK_HEIGHT / 2 + BUILDING_BRICK_HEIGHT * r;
    BuildingBrick {
        kind: BrickKind::Solid,
        movement: MovementState {
            old_position: Vec2i { x: (1000 * px) as i64, y: (1000 * py) as i64 },
            cur_position: Vec2i { x: (1000 * px) as i64, y: (1000 * py) as i64 },
        },
        velocity: Velocity(Vec2i { x: 0, y: 0 }),
        opacity_milli: OPACITY_FULL_MILLI,
        a_step_milli: 0,
        color,
    }
}

/// The full brick grid of one building, row-major from the bottom-left.
pub open spec fn building_bricks(
    x_center_px: int,
    bottom_px: int,
    width_px: int,
    height_px: int,
    color: u8,
) -> Seq<BuildingBrick> {
    let cols = width_px / BUILDING_BRICK_WIDTH as int;
    let rows = height_px / BUILDING_BRICK_HEIGHT as int;
    Seq::new((rows * cols) as nat, |k: int| brick_at(x_center_px, bottom_px, width_px, color, cols, k))
}

/// Decomposes one building into its brick grid, appending the bricks in
/// row-major order to the world's brick list.
pub fn spawn_building(
    bricks: &mut Vec<BuildingBrick>,
    x_center_px: i64,
    bottom_px: i64,
    width_px: u32,
    height_px: u32,
    color: u8,
)
    requires
        width_px % BUILDING_BRICK_WIDTH == 0,
        0 < width_px <= 100000,
        height_px % BUILDING_BRICK_HEIGHT == 0,
        height_px <= 100000,
        -200000 <= x_center_px <= 200000,
        -200000 <= bottom_px <= 200000,
        color < PALETTE_SIZE,
    ensures
        final(bricks)@ == old(bricks)@ + building_bricks(
            x_center_px as int,
            bottom_px as int,
            width_px as int,
            height_px as int,
            color,
        ),
        forall|j: int| old(bricks)@.len() <= j < final(bricks)@.len()
            ==> (#[trigger] final(bricks)@[j]).wf() && final(bricks)@[j].kind == BrickKind::Solid,
{
    let ghost orig = bricks@;
    let cols: u32 = width_px / BUILDING_BRICK_WIDTH;
    let rows: u32 = height_px / BUILDING_BRICK_HEIGHT;
    proof {
        lemma_div_is_ordered(width_px as int, 100000, BUILDING_BRICK_WIDTH as int);
        lemma_div_is_ordered(height_px as int, 100000, BUILDING_BRICK_HEIGHT as int);
        lemma_div_is_ordered(BUILDING_BRICK_WIDTH as int, width_px as int, BUILDING_BRICK_WIDTH as int);
        assert(0 < cols <= 3125);
        assert(rows <= 12500);
        assert(rows * cols <= 39062500) by (nonlinear_arith)
            requires
                cols <= 3125,
                rows <= 12500,
        ;
    }
    let total: u32 = rows * cols;
    let ghost bb = building_bricks(
        x_center_px as int,
        bottom_px as int,
        width_px as int,
        height_px as int,
        color,
    );
    let mut k: u32 = 0;
    while k < total
        invariant
            total == rows * cols,
            cols == width_px as int / BUILDING_BRICK_WIDTH as int,
            rows == height_px as int / BUILDING_BRICK_HEIGHT as int,
            cols <= 3125,
            rows <= 12500,
            0 < width_px <= 100000,
            -200000 <= x_center_px <= 200000,
            -200000 <= bottom_px <= 200000,
            color < PALETTE_SIZE,
            k <= total,
            bb == building_bricks(
                x_center_px as int,
                bottom_px as int,
                width_px as int,
                height_px as int,
                color,
            ),
            0 < cols,
            bb.len() == total,
            bricks@ == orig + bb.take(k as int),
            forall|j: int| orig.len() <= j < bricks@.len() ==> (#[trigger] bricks@[j]).wf()
                && bricks@[j].kind == BrickKind::Solid,
        decreases total - k,
    {
        let r: u32 = k / cols;
        let c: u32 = k % cols;
        proof {
            lemma_mod_bound(k as int, cols as int);
            assert(r <= 12500) by (nonlinear_arith)
                requires
                    r == k as int / cols as int,
                    k < rows * cols,
                    0 < cols,
                    rows <= 12500,
            ;
            assert(0 <= BUILDING_BRICK_WIDTH as int * (c as int) <= 100000) by (nonlinear_arith)
                requires
                    0 <= c as int <= 3125,
                    BUILDING_BRICK_WIDTH == 32,
            ;
            assert(0 <= BUILDING_BRICK_HEIGHT as int * (r as int) <= 100000) by (nonlinear_arith)
                requires
                    0 <= r as int <= 12500,
                    BUILDING_BRICK_HEIGHT == 8,
            ;
        }
        let px: i64 = x_center_px - (width_px / 2) as i64 + (BUILDING_BRICK_WIDTH / 2) as i64
            + (BUILDING_BRICK_WIDTH as i64) * (c as i64);
        let py: i64 = bottom_px + (BUILDING_BRICK_HEIGHT / 2) as i64 + (BUILDING_BRICK_HEIGHT
            as i64) * (r as i64);
        let brick = BuildingBrick {
            kind: BrickKind::Solid,
            movement: MovementState::new(Vec2i { x: 1000 * px, y: 1000 * py }),
            velocity: Velocity(Vec2i { x: 0, y: 0 }),
            opacity_milli: OPACITY_FULL_MILLI,
            a_step_milli: 0,
            color,
        };
        proof {
            assert(brick == bb[k as int]);
            assert(bb.take(k as int + 1) =~= bb.take(k as int).push(bb[k as int]));
        }
        bricks.push(brick);
        proof {
            assert(bricks@ =~= orig + bb.take(k as int + 1));
        }
        k = k + 1;
    }
    proof {
        assert(bb.take(total as int) =~= bb);
    }
}

/// The horizontal center of building `i`, in pixels from the screen center.
pub open spec fn building_center_x(sw: int, bw: int, i: int) -> int {
    -(sw / 2) + bw / 2 + bw * i
}

/// The brick grids of the first `heights.len()` buildings, concatenated in
/// building order.
pub open spec fn arena_bricks(
    heights: Seq<u32>,
    colors: Seq<u8>,
    sw: int,
    sh: int,
    bw: int,
) -> Seq<BuildingBrick>
    decreases heights.len(),
{
    if heights.len() == 0 {
        Seq::empty()
    } else {
        let i = heights.len() - 1;
        arena_bricks(heights.drop_last(), colors.take(i as int), sw, sh, bw) + building_bricks(
            building_center_x(sw, bw, i as int),
            -(sh / 2),
            bw,
            heights.last() as int,
            colors[i as int] as u8,
        )
    }
}

/// A building height rounded to the nearest multiple of the brick height.
pub open spec fn quantize8(raw: int) -> int {
    ((raw + 4) / 8) * 8
}

/// The building height a 32-bit draw determines: the draw wrapped into the
/// band `[sh/8, sh/8 + sh/2)` of raw heights, then rounded to whole bricks.
pub fn height_from_draw(draw: u32, screen_height: u32) -> (h: u32)
    requires
        16 <= screen_height <= 100000,
    ensures
        h == quantize8(
            draw as int % (screen_height as int / 2) + screen_height as int / 8,
        ),
        h % 8 == 0,
        h <= screen_height / 2 + screen_height / 8 + 4,
        h + 3 >= screen_height / 8,
{
    let band: u32 = screen_height / 2;
    let base: u32 = screen_height / 8;
    proof {
        lemma_mod_bound(draw as int, band as int);
    }
    let raw: u32 = draw % band + base;
    let h: u32 = ((raw + 4) / 8) * 8;
    proof {
        assert(h % 8 == 0) by (nonlinear_arith)
            requires
                h == ((raw + 4) as int / 8) * 8,
        ;
        assert(h <= raw + 4) by (nonlinear_arith)
            requires
                h == ((raw + 4) as int / 8) * 8,
                raw >= 0,
        ;
        lemma_fundamental_div_mod(raw as int + 4, 8);
        lemma_mod_bound(raw as int + 4, 8);
        assert(h >= raw - 3) by (nonlinear_arith)
            requires
                h == ((raw + 4) as int / 8) * 8,
                raw as int + 4 == 8 * ((raw as int + 4) / 8) + (raw as int + 4) % 8,
                (raw as int + 4) % 8 < 8,
        ;
    }
    h
}

/// The whole static world as generated at startup.
pub struct Arena {
    /// Every brick of every building, in building-then-row-major order.
    pub bricks: Vec<BuildingBrick>,
    /// Player One's gorilla, on the first building.
    pub gorilla_one: GorillaState,
    /// Player Two's gorilla, on the last building.
    pub gorilla_two: GorillaState,
    /// The drawn building heights, in pixels, one per building.
    pub heights: Vec<u32>,
    /// The drawn palette index of each building.
    pub colors: Vec<u8>,
}

/// The gorilla resting position on top of building `i`: centered
/// horizontally, standing on the building's roof (milli-pixels).
pub open spec fn gorilla_pos(sw: int, sh: int, bw: int, i: int, height: int) -> Vec2i {
    Vec2i {
        x: (1000 * building_center_x(sw, bw, i)) as i64,
        y: (1000 * (-(sh / 2) + height + GORILLA_HEIGHT as int / 2)) as i64,
    }
}

/// Generates the whole arena: `screen_width / building_width` buildings of
/// random height — each quantized to whole bricks and clamped to the
/// documented band — with a random palette color, decomposed into brick
/// grids, and the two gorillas centered on the first and last building with
/// the default aim.  Called once at startup.
pub fn setup_arena(rng: &mut rand::rngs::ThreadRng, config: &SimConfig) -> (a: Arena)
    requires
        config.valid(),
    ensures
        a.heights@.len() == config.num_buildings(),
        a.colors@.len() == config.num_buildings(),
        forall|i: int| 0 <= i < a.heights@.len() ==> #[trigger] a.heights@[i] % 8 == 0,
        forall|i: int| 0 <= i < a.heights@.len() ==> #[trigger] a.heights@[i]
            <= config.screen_height / 2 + config.screen_height / 8 + 4,
        forall|i: int| 0 <= i < a.heights@.len() ==> #[trigger] a.heights@[i] + 3
            >= config.screen_height / 8,
        forall|i: int| 0 <= i < a.colors@.len() ==> #[trigger] a.colors@[i] < PALETTE_SIZE,
        a.bricks@ == arena_bricks(
            a.heights@,
            a.colors@,
            config.screen_width as int,
            config.screen_height as int,
            config.building_width as int,
        ),
        forall|j: int| 0 <= j < a.bricks@.len() ==> (#[trigger] a.bricks@[j]).wf()
            && a.bricks@[j].kind == BrickKind::Solid,
        a.gorilla_one.gorilla.player is One,
        a.gorilla_two.gorilla.player is Two,
        a.gorilla_one.gorilla.name@ == "Player 1"@,
        a.gorilla_two.gorilla.name@ == "Player 2"@,
        a.gorilla_one.pos == gorilla_pos(
            config.screen_width as int,
            config.screen_height as int,
            config.building_width as int,
            0,
            a.heights@[0] as int,
        ),
        a.gorilla_two.pos == gorilla_pos(
            config.screen_width as int,
            config.screen_height as int,
            config.building_width as int,
            config.num_buildings() - 1,
            a.heights@[config.num_buildings() - 1] as int,
        ),
        a.gorilla_one.aim == (AngleSpeed { angle: 45, speed: 30 }),
        a.gorilla_two.aim == (AngleSpeed { angle: 45, speed: 30 }),
        a.gorilla_one.wf(),
        a.gorilla_two.wf(),
{
    let sw = config.screen_width;
    let sh = config.screen_height;
    let bw = config.building_width;
    let n: u32 = sw / bw;

    let mut heights: Vec<u32> = Vec::new();
    let mut colors: Vec<u8> = Vec::new();
    let mut i: u32 = 0;
    while i < n
        invariant
            heights@.len() == i,
            colors@.len() == i,
            i <= n,
            16 <= sh <= 100000,
            forall|j: int| 0 <= j < heights@.len() ==> #[trigger] heights@[j] % 8 == 0,
            forall|j: int| 0 <= j < heights@.len() ==> #[trigger] heights@[j] <= sh / 2 + sh / 8
                + 4,
            forall|j: int| 0 <= j < heights@.len() ==> #[trigger] heights@[j] + 3 >= sh / 8,
            forall|j: int| 0 <= j < colors@.len() ==> #[trigger] colors@[j] < PALETTE_SIZE,
        decreases n - i,
    {
        let draw = next_random_u32(rng);
        let h: u32 = height_from_draw(draw, sh);
        let color = random_in_range(rng, 0, PALETTE_SIZE as i64) as u8;
        heights.push(h);
        colors.push(color);
        i = i + 1;
    }

    let bottom: i64 = -((sh / 2) as i64);
    proof {
        lemma_fundamental_div_mod(sw as int, bw as int);
        lemma_mul_is_commutative(bw as int, n as int);
        lemma_mod_bound(sw as int, bw as int);
        assert(n * bw <= sw);
        assert(bw * 2 <= bw * (n as int)) by (nonlinear_arith)
            requires
                2 <= n as int,
                0 < bw,
        ;
        assert(bw <= sw);
    }
    let mut bricks: Vec<BuildingBrick> = Vec::new();
    let mut b: u32 = 0;
    while b < n
        invariant
            heights@.len() == n,
            colors@.len() == n,
            b <= n,
            0 < bw <= 100000,
            sw <= 100000,
            16 <= sh <= 100000,
            bw % BUILDING_BRICK_WIDTH == 0,
            n == sw as int / bw as int,
            n * bw <= sw,
            bottom == -(sh as int / 2),
            forall|j: int| 0 <= j < heights@.len() ==> #[trigger] heights@[j] % 8 == 0,
            forall|j: int| 0 <= j < heights@.len() ==> #[trigger] heights@[j] <= sh / 2 + sh / 8
                + 4,
            forall|j: int| 0 <= j < colors@.len() ==> #[trigger] colors@[j] < PALETTE_SIZE,
            bricks@ == arena_bricks(
                heights@.take(b as int),
                colors@.take(b as int),
                sw as int,
                sh as int,
                bw as int,
            ),
            forall|j: int| 0 <= j < bricks@.len() ==> (#[trigger] bricks@[j]).wf()
                && bricks@[j].kind == BrickKind::Solid,
        decreases n - b,
    {
        proof {
            assert(0 <= bw * (b as int) && bw * (b as int) <= n * bw) by (nonlinear_arith)
                requires
                    0 <= b as int,
                    (b as int) < n as int,
                    0 < bw,
                    n * bw == (n as int) * (bw as int),
            ;
        }
        let x_center: i64 = -((sw / 2) as i64) + (bw / 2) as i64 + (bw as i64) * (b as i64);
        spawn_building(&mut bricks, x_center, bottom, bw, heights[b as usize], colors[b as usize]);
        proof {
            let hs = heights@;
            let cs = colors@;
            assert(hs.take(b as int + 1).drop_last() =~= hs.take(b as int));
            assert(cs.take(b as int + 1).take(b as int) =~= cs.take(b as int));
            assert(hs.take(b as int + 1).last() == hs[b as int]);
            assert(cs.take(b as int + 1)[b as int] == cs[b as int]);
        }
        b = b + 1;
    }
    proof {
        assert(heights@.take(n as int) =~= heights@);
        assert(colors@.take(n as int) =~= colors@);
    }

    let h_first: u32 = heights[0];
    let h_last: u32 = heights[(n - 1) as usize];
    let x_first: i64 = -((sw / 2) as i64) + (bw / 2) as i64;
    proof {
        assert(0 <= bw * (n as int - 1) && bw * (n as int - 1) < sw) by (nonlinear_arith)
            requires
                2 <= n as int,
                0 < bw,
                (n as int) * (bw as int) <= sw as int,
        ;
    }
    let x_last: i64 = -((sw / 2) as i64) + (bw / 2) as i64 + (bw as i64) * ((n - 1) as i64);
    let gorilla_one = GorillaState {
        gorilla: Gorilla::one(String::from_str("Player 1")),
        pos: Vec2i {
            x: 1000 * x_first,
            y: 1000 * (bottom + h_first as i64 + (GORILLA_HEIGHT / 2) as i64),
        },
        aim: AngleSpeed { angle: 45, speed: 30 },
    };
    let gorilla_two = GorillaState {
        gorilla: Gorilla::two(String::from_str("Player 2")),
        pos: Vec2i {
            x: 1000 * x_last,
            y: 1000 * (bottom + h_last as i64 + (GORILLA_HEIGHT / 2) as i64),
        },
        aim: AngleSpeed { angle: 45, speed: 30 },
    };
    Arena { bricks, gorilla_one, gorilla_two, heights, colors }
}

} // verus!
