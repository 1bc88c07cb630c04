//! World generation: configuration validation, building grids, gorilla
//! placement and wind.

use gorillas::arena::{
    height_from_draw, setup_arena, spawn_building, validate_config, ConfigError, SimConfig,
};
use gorillas::collision::BrickKind;
use gorillas::physics::Vec2i;
use gorillas::players::Player;

use gorillas::wind::{setup_wind, spawn_wind_wth_accel, wind_changer, wind_from_draw};

#[test]
fn standard_config_is_valid() {
    assert_eq!(validate_config(&SimConfig::standard()), Ok(()));
}

#[test]
fn untiled_arena_is_fatal() {
    let c = SimConfig { screen_width: 1281, screen_height: 720, building_width: 160, dt_ms: 20 };
    assert_eq!(validate_config(&c), Err(ConfigError::ArenaNotTiled));
}

#[test]
fn one_building_is_too_few() {
    let c = SimConfig { screen_width: 160, screen_height: 720, building_width: 160, dt_ms: 20 };
    assert_eq!(validate_config(&c), Err(ConfigError::TooFewBuildings));
}

#[test]
fn building_width_must_hold_whole_bricks() {
    let c = SimConfig { screen_width: 1280, screen_height: 720, building_width: 80, dt_ms: 20 };
    assert_eq!(validate_config(&c), Err(ConfigError::BuildingNotBrickAligned));
}

#[test]
fn odd_screen_height_is_rejected() {
    let c = SimConfig { screen_width: 1280, screen_height: 715, building_width: 160, dt_ms: 20 };
    assert_eq!(validate_config(&c), Err(ConfigError::BadScreenHeight));
}

#[test]
fn oversized_screen_is_rejected() {
    let c = SimConfig { screen_width: 200000, screen_height: 720, building_width: 160, dt_ms: 20 };
    assert_eq!(validate_config(&c), Err(ConfigError::ScreenTooLarge));
}

#[test]
fn zero_tick_is_rejected() {
    let c = SimConfig { screen_width: 1280, screen_height: 720, building_width: 160, dt_ms: 0 };
    assert_eq!(validate_config(&c), Err(ConfigError::BadTimeStep));
}

#[test]
fn standard_arena_has_eight_buildings() {
    let mut rng = rand::thread_rng();
    let a = setup_arena(&mut rng, &SimConfig::standard());
    assert_eq!(a.heights.len(), 8);
    assert_eq!(a.colors.len(), 8);
    for &h in a.heights.iter() {
        assert_eq!(h % 8, 0);
        assert!(h >= 88, "height {} below the band", h);
        assert!(h <= 448, "height {} above the band", h);
    }
    for &c in a.colors.iter() {
        assert!(c < 3);
    }
}

#[test]
fn gorillas_stand_on_the_end_buildings() {
    let mut rng = rand::thread_rng();
    let a = setup_arena(&mut rng, &SimConfig::standard());
    assert!(matches!(a.gorilla_one.gorilla.player, Player::One));
    assert!(matches!(a.gorilla_two.gorilla.player, Player::Two));
    assert_eq!(a.gorilla_one.gorilla.name, "Player 1");
    assert_eq!(a.gorilla_two.gorilla.name, "Player 2");
    // Centered on building 0 and building 7, resting on the roofs.
    assert_eq!(a.gorilla_one.pos.x, -560000);
    assert_eq!(a.gorilla_two.pos.x, 560000);
    assert_eq!(a.gorilla_one.pos.y, (-360 + a.heights[0] as i64 + 32) * 1000);
    assert_eq!(a.gorilla_two.pos.y, (-360 + a.heights[7] as i64 + 32) * 1000);
    assert_eq!(a.gorilla_one.aim.angle, 45);
    assert_eq!(a.gorilla_one.aim.speed, 30);
    assert_eq!(a.gorilla_two.aim.angle, 45);
    assert_eq!(a.gorilla_two.aim.speed, 30);
}

#[test]
fn arena_bricks_cover_every_building() {
    let mut rng = rand::thread_rng();
    let a = setup_arena(&mut rng, &SimConfig::standard());
    let expected: usize = a.heights.iter().map(|&h| 5 * (h as usize / 8)).sum();
    assert_eq!(a.bricks.len(), expected);
    for b in a.bricks.iter() {
        assert!(matches!(b.kind, BrickKind::Solid));
        assert_eq!(b.opacity_milli, 1000);
        assert_eq!(b.velocity.0, Vec2i { x: 0, y: 0 });
    }
    // The first brick sits at the bottom-left of building 0.
    assert_eq!(a.bricks[0].movement.cur_position, Vec2i { x: -624000, y: -356000 });
}

#[test]
fn one_building_grid_is_row_major() {
    let mut bricks = Vec::new();
    spawn_building(&mut bricks, 0, 0, 32, 16, 0);
    assert_eq!(bricks.len(), 2);
    assert_eq!(bricks[0].movement.cur_position, Vec2i { x: 0, y: 4000 });
    assert_eq!(bricks[1].movement.cur_position, Vec2i { x: 0, y: 12000 });
}

#[test]
fn each_draw_determines_its_building_height() {
    // Screen height 720: raw heights lie in [90, 450), rounded to bricks.
    assert_eq!(height_from_draw(0, 720), 88);
    assert_eq!(height_from_draw(271, 720), 360);
    assert_eq!(height_from_draw(359, 720), 448);
    assert_eq!(height_from_draw(360, 720), 88, "the draw wraps at the band");
}

#[test]
fn each_draw_determines_its_wind() {
    let w = wind_from_draw(0);
    assert_eq!(w.wind_px, -20);
    assert_eq!(w.accel.0.x, -20000);
    assert_eq!(w.accel.0.y, 0);
    assert_eq!(w.indicator_length, -200);
    assert_eq!(wind_from_draw(39).wind_px, 19);
    assert_eq!(wind_from_draw(40).wind_px, -20, "the draw wraps modulo forty");
    assert_eq!(wind_from_draw(u32::MAX).wind_px, -5);
}

#[test]
fn wind_stays_in_its_documented_band() {
    let mut rng = rand::thread_rng();
    for _ in 0..50 {
        let w = spawn_wind_wth_accel(&mut rng);
        assert!(w.wind_px >= -20 && w.wind_px < 20);
        assert_eq!(w.accel.0.x, w.wind_px * 1000);
        assert_eq!(w.accel.0.y, 0);
        assert_eq!(w.indicator_length, w.wind_px * 10);
    }
    let first = setup_wind(&mut rng);
    assert!(first.wind_px >= -20 && first.wind_px < 20);
    let changed = wind_changer(&mut rng);
    assert!(changed.wind_px >= -20 && changed.wind_px < 20);
    assert_eq!(changed.accel.0.x, changed.wind_px * 1000);
}
