//! The turn/phase state machine, collision outcomes and brick decay.

use gorillas::arena::SimConfig;
use gorillas::banana::{
    check_banana_off_screen, spawn_banana, throw_banana, transition_to_watching_banana,
};
use gorillas::collision::{
    animate_explosion, check_for_collisions_banana, check_for_collisions_explosion_gorilla,
    decr_and_despawn_brick, spawn_explosion, BrickKind, BuildingBrick,
};
use gorillas::game::{
    change_action, mutate_speed_angle, next_player_system, physics_step, setup, throw_indicator,
    Action, AimInput, AngleSpeed, GameState, MoveArrowState,
};
use gorillas::physics::{
    setup_gravity, GlobalWorldAcceleration, MovementState, Vec2i, Velocity,
};
use gorillas::players::{Gorilla, GorillaState, Player};

use gorillas::wind::Wind;

fn calm_wind() -> Wind {
    Wind {
        wind_px: 0,
        accel: GlobalWorldAcceleration(Vec2i { x: 0, y: 0 }),
        indicator_length: 0,
    }
}

fn solid_brick_at(x: i64, y: i64) -> BuildingBrick {
    BuildingBrick {
        kind: BrickKind::Solid,
        movement: MovementState::new(Vec2i { x, y }),
        velocity: Velocity(Vec2i { x: 0, y: 0 }),
        opacity_milli: 1000,
        a_step_milli: 0,
        color: 0,
    }
}

fn debris_brick(opacity_milli: u32, a_step_milli: u32) -> BuildingBrick {
    BuildingBrick {
        kind: BrickKind::Debris,
        movement: MovementState::new(Vec2i { x: 0, y: 0 }),
        velocity: Velocity(Vec2i { x: 0, y: 0 }),
        opacity_milli,
        a_step_milli,
        color: 1,
    }
}

fn base_state() -> GameState {
    GameState {
        config: SimConfig::standard(),
        action: Action::Enter,
        player: Player::One,
        winner: None,
        gorilla_one: GorillaState {
            gorilla: Gorilla::one("Player 1".to_string()),
            pos: Vec2i { x: -560000, y: -100000 },
            aim: AngleSpeed { angle: 45, speed: 30 },
        },
        gorilla_two: GorillaState {
            gorilla: Gorilla::two("Player 2".to_string()),
            pos: Vec2i { x: 560000, y: -100000 },
            aim: AngleSpeed { angle: 45, speed: 30 },
        },
        bricks: Vec::new(),
        banana: None,
        explosion: None,
        wind: calm_wind(),
        gravity: setup_gravity(),
        indicator_live: true,
        move_arrow: MoveArrowState { elapsed_ms: 0 },
        collision_sounds_pending: 0,
        building_heights: Vec::new(),
        building_colors: Vec::new(),
    }
}

#[test]
fn default_aim_is_fortyfive_at_thirty() {
    let a = AngleSpeed::default();
    assert_eq!(a.angle, 45);
    assert_eq!(a.speed, 30);
}

#[test]
fn aim_steps_are_clamped() {
    let mut a = AngleSpeed { angle: 230, speed: 200 };
    mutate_speed_angle(&mut a, &AimInput { up: true, down: false, left: false, right: true });
    assert_eq!(a.angle, 230);
    assert_eq!(a.speed, 200);
    let mut b = AngleSpeed { angle: 0, speed: 10 };
    mutate_speed_angle(&mut b, &AimInput { up: false, down: true, left: true, right: false });
    assert_eq!(b.angle, 0);
    assert_eq!(b.speed, 10);
    let mut c = AngleSpeed { angle: 45, speed: 30 };
    mutate_speed_angle(&mut c, &AimInput { up: true, down: false, left: false, right: false });
    assert_eq!(c.angle, 46);
    assert_eq!(c.speed, 30);
}

#[test]
fn fresh_press_steps_once_and_resets_the_timer() {
    let mut a = AngleSpeed { angle: 45, speed: 30 };
    let mut t = MoveArrowState { elapsed_ms: 140 };
    let keys = AimInput { up: true, down: false, left: false, right: false };
    change_action(&mut a, &mut t, &keys, true, 16);
    assert_eq!(a.angle, 46);
    assert_eq!(t.elapsed_ms, 16);
}

#[test]
fn held_key_repeats_only_after_the_delay() {
    let mut a = AngleSpeed { angle: 46, speed: 30 };
    let mut t = MoveArrowState { elapsed_ms: 16 };
    let keys = AimInput { up: true, down: false, left: false, right: false };
    change_action(&mut a, &mut t, &keys, false, 100);
    assert_eq!(a.angle, 46, "still inside the repeat delay");
    change_action(&mut a, &mut t, &keys, false, 100);
    assert_eq!(a.angle, 47, "past the repeat delay");
    assert_eq!(t.elapsed_ms, 216);
}

#[test]
fn setup_starts_in_the_setup_phase() {
    let mut rng = rand::thread_rng();
    let s = setup(&mut rng, &SimConfig::standard());
    assert!(matches!(s.action, Action::PreEnter));
    assert!(matches!(s.player, Player::One));
    assert!(s.winner.is_none());
    assert!(s.banana.is_none());
    assert!(s.explosion.is_none());
    assert!(!s.indicator_live);
    assert_eq!(s.collision_sounds_pending, 0);
    assert_eq!(s.building_heights.len(), 8);
}

#[test]
fn indicator_spawns_and_opens_aiming() {
    let mut s = base_state();
    s.action = Action::PreEnter;
    s.indicator_live = false;
    let pose = throw_indicator(&mut s);
    assert!(pose.is_none());
    assert!(s.indicator_live);
    assert!(matches!(s.action, Action::Enter));
}

#[test]
fn indicator_pose_follows_the_current_player() {
    let mut s = base_state();
    let pose = throw_indicator(&mut s).expect("aiming pose");
    assert_eq!(pose.pos, Vec2i { x: -560000, y: -100000 });
    assert_eq!(pose.angle_milli_deg, 45000);
    assert_eq!(pose.scale_x_milli, 1000);
    s.player = Player::Two;
    let pose2 = throw_indicator(&mut s).expect("aiming pose");
    assert_eq!(pose2.pos, Vec2i { x: 560000, y: -100000 });
    assert_eq!(pose2.angle_milli_deg, 135000);
}

#[test]
fn throwing_spawns_the_banana_from_the_aim() {
    let mut s = base_state();
    throw_banana(&mut s);
    assert!(matches!(s.action, Action::Throwing));
    let b = s.banana.expect("banana in flight");
    assert!(matches!(b.thrown_by, Player::One));
    assert_eq!(b.movement.cur_position, Vec2i { x: -560000, y: -100000 });
    assert_eq!(b.velocity.0, Vec2i { x: 282800, y: 282800 });
}

#[test]
fn near_banana_keeps_the_throwing_phase() {
    let mut s = base_state();
    s.action = Action::Throwing;
    s.banana = Some(spawn_banana(
        Player::One,
        Vec2i { x: -560000, y: -100000 },
        Vec2i { x: 0, y: 0 },
    ));
    transition_to_watching_banana(&mut s);
    assert!(matches!(s.action, Action::Throwing));
    assert!(s.indicator_live);
}

#[test]
fn distant_banana_enters_watching_and_hides_the_indicator() {
    let mut s = base_state();
    s.action = Action::Throwing;
    let mut b = spawn_banana(Player::One, Vec2i { x: -560000, y: -100000 }, Vec2i { x: 0, y: 0 });
    b.movement.cur_position = Vec2i { x: -500000, y: -100000 };
    s.banana = Some(b);
    transition_to_watching_banana(&mut s);
    assert!(matches!(s.action, Action::Watching));
    assert!(!s.indicator_live);
}

#[test]
fn banana_leaving_the_screen_passes_the_turn() {
    let mut s = base_state();
    s.action = Action::Watching;
    s.indicator_live = false;
    s.banana = Some(spawn_banana(
        Player::One,
        Vec2i { x: 641000, y: 0 },
        Vec2i { x: 100, y: 0 },
    ));
    check_banana_off_screen(&mut s);
    assert!(s.banana.is_none());
    assert!(matches!(s.action, Action::PreEnter));
    assert!(matches!(s.player, Player::Two));
    assert!(s.winner.is_none());
    // The setup step then reopens aiming for the other player.
    let pose = throw_indicator(&mut s);
    assert!(pose.is_none());
    assert!(matches!(s.action, Action::Enter));
    assert!(s.indicator_live);
}

#[test]
fn watch_threshold_is_strict() {
    // Exactly at the threshold distance the projectile still counts as
    // "just left the hand".
    let mut s = base_state();
    s.action = Action::Throwing;
    let mut b = spawn_banana(Player::One, Vec2i { x: -560000, y: -100000 }, Vec2i { x: 0, y: 0 });
    b.movement.cur_position = Vec2i { x: -510000, y: -100000 };
    s.banana = Some(b);
    transition_to_watching_banana(&mut s);
    assert!(matches!(s.action, Action::Throwing));
    // One milli-pixel farther crosses it.
    let mut s2 = base_state();
    s2.action = Action::Throwing;
    let mut b2 = spawn_banana(Player::One, Vec2i { x: -560000, y: -100000 }, Vec2i { x: 0, y: 0 });
    b2.movement.cur_position = Vec2i { x: -509999, y: -100000 };
    s2.banana = Some(b2);
    transition_to_watching_banana(&mut s2);
    assert!(matches!(s2.action, Action::Watching));
}

#[test]
fn player_two_throws_toward_player_one() {
    let mut s = base_state();
    s.player = Player::Two;
    throw_banana(&mut s);
    let b = s.banana.expect("banana in flight");
    assert!(matches!(b.thrown_by, Player::Two));
    assert_eq!(b.movement.cur_position, Vec2i { x: 560000, y: -100000 });
    assert_eq!(b.velocity.0, Vec2i { x: -282800, y: 282800 });
}

#[test]
fn banana_below_the_bottom_edge_is_gone() {
    let mut s = base_state();
    s.action = Action::Watching;
    s.banana = Some(spawn_banana(
        Player::One,
        Vec2i { x: 0, y: -360000 },
        Vec2i { x: 100, y: 0 },
    ));
    check_banana_off_screen(&mut s);
    assert!(s.banana.is_none());
    assert!(matches!(s.action, Action::PreEnter));
}

#[test]
fn touching_boxes_count_as_a_collision() {
    let mut rng = rand::thread_rng();
    let mut s = base_state();
    s.action = Action::Watching;
    // Banana half extent 16000 plus brick half extent 16000: edges touch.
    s.bricks.push(solid_brick_at(32000, 0));
    s.banana = Some(spawn_banana(Player::One, Vec2i { x: 0, y: 0 }, Vec2i { x: 100, y: 0 }));
    check_for_collisions_banana(&mut s, &mut rng);
    assert!(matches!(s.bricks[0].kind, BrickKind::Debris));
    assert!(s.banana.is_none());
}

#[test]
fn no_explosion_means_no_explosion_collisions() {
    let mut rng = rand::thread_rng();
    let mut s = base_state();
    s.action = Action::Watching;
    s.bricks.push(solid_brick_at(0, 0));
    check_for_collisions_explosion_gorilla(&mut s, &mut rng);
    assert!(matches!(s.bricks[0].kind, BrickKind::Solid));
    assert!(matches!(s.action, Action::Watching));
}

#[test]
fn banana_inside_the_screen_stays() {
    let mut s = base_state();
    s.action = Action::Watching;
    s.banana = Some(spawn_banana(Player::One, Vec2i { x: 0, y: 0 }, Vec2i { x: 100, y: 0 }));
    check_banana_off_screen(&mut s);
    assert!(s.banana.is_some());
    assert!(matches!(s.action, Action::Watching));
}

#[test]
fn banana_hitting_a_brick_starts_debris_and_passes_the_turn() {
    let mut rng = rand::thread_rng();
    let mut s = base_state();
    s.action = Action::Watching;
    s.bricks.push(solid_brick_at(0, 0));
    s.banana = Some(spawn_banana(Player::One, Vec2i { x: 0, y: 0 }, Vec2i { x: 100, y: 0 }));
    check_for_collisions_banana(&mut s, &mut rng);
    assert_eq!(s.bricks.len(), 1);
    let b = &s.bricks[0];
    assert!(matches!(b.kind, BrickKind::Debris), "collider flag removed");
    assert!(b.a_step_milli >= 2 && b.a_step_milli < 8);
    assert!(b.velocity.0.x >= -100000 && b.velocity.0.x < 100000);
    assert!(b.velocity.0.y >= 100000 && b.velocity.0.y < 400000);
    assert_eq!(b.opacity_milli, 1000, "opacity fades only later");
    assert!(s.banana.is_none());
    let e = s.explosion.expect("explosion spawned at impact");
    assert_eq!(e.pos, Vec2i { x: 0, y: 0 });
    assert_eq!(e.scale_milli, 1000);
    assert_eq!(s.collision_sounds_pending, 1);
    assert!(matches!(s.action, Action::PreEnter));
    assert!(matches!(s.player, Player::Two));
    assert!(s.winner.is_none());
}

#[test]
fn banana_missing_everything_changes_nothing() {
    let mut rng = rand::thread_rng();
    let mut s = base_state();
    s.action = Action::Watching;
    s.bricks.push(solid_brick_at(100000, 0));
    s.banana = Some(spawn_banana(Player::One, Vec2i { x: 0, y: 0 }, Vec2i { x: 100, y: 0 }));
    check_for_collisions_banana(&mut s, &mut rng);
    assert!(matches!(s.bricks[0].kind, BrickKind::Solid));
    assert!(s.banana.is_some());
    assert!(s.explosion.is_none());
    assert!(matches!(s.action, Action::Watching));
}

#[test]
fn gorilla_hit_wins_for_the_opposing_player() {
    let mut rng = rand::thread_rng();
    let mut s = base_state();
    s.action = Action::Watching;
    // A brick struck in the same tick does not change the outcome.
    s.bricks.push(solid_brick_at(560000, -100000));
    s.banana = Some(spawn_banana(
        Player::One,
        Vec2i { x: 560000, y: -100000 },
        Vec2i { x: 100, y: 0 },
    ));
    check_for_collisions_banana(&mut s, &mut rng);
    assert!(matches!(s.action, Action::Winner));
    assert_eq!(s.winner, Some(Player::One));
    assert!(matches!(s.player, Player::One));
    assert!(matches!(s.bricks[0].kind, BrickKind::Debris));
    assert!(s.banana.is_none());
    assert!(s.explosion.is_some());
}

#[test]
fn explosion_near_a_gorilla_also_ends_the_round() {
    let mut rng = rand::thread_rng();
    let mut s = base_state();
    s.action = Action::Watching;
    s.explosion = Some(spawn_explosion(Vec2i { x: -560000, y: -100000 }));
    check_for_collisions_explosion_gorilla(&mut s, &mut rng);
    assert!(matches!(s.action, Action::Winner));
    assert_eq!(s.winner, Some(Player::Two));
    assert!(matches!(s.player, Player::Two));
}

#[test]
fn explosion_crumbles_bricks_within_its_reach() {
    let mut rng = rand::thread_rng();
    let mut s = base_state();
    s.action = Action::Watching;
    s.explosion = Some(spawn_explosion(Vec2i { x: 0, y: 0 }));
    s.bricks.push(solid_brick_at(30000, 0));
    s.bricks.push(solid_brick_at(33000, 0));
    check_for_collisions_explosion_gorilla(&mut s, &mut rng);
    assert!(matches!(s.bricks[0].kind, BrickKind::Debris), "inside the shockwave");
    assert!(matches!(s.bricks[1].kind, BrickKind::Solid), "outside the shockwave");
    assert!(s.explosion.is_some(), "the shockwave keeps growing");
    assert!(matches!(s.action, Action::Watching));
}

#[test]
fn explosion_grows_then_disappears() {
    let mut e = Some(spawn_explosion(Vec2i { x: 0, y: 0 }));
    animate_explosion(&mut e);
    assert_eq!(e.unwrap().scale_milli, 1256);
    animate_explosion(&mut e);
    assert_eq!(e.unwrap().scale_milli, 1577);
    let mut big = Some(gorillas::collision::Explosion {
        pos: Vec2i { x: 0, y: 0 },
        scale_milli: 3000,
    });
    animate_explosion(&mut big);
    assert_eq!(big.unwrap().scale_milli, 3768);
    animate_explosion(&mut big);
    assert!(big.is_none(), "past the size threshold");
    let mut none: Option<gorillas::collision::Explosion> = None;
    animate_explosion(&mut none);
    assert!(none.is_none());
}

#[test]
fn debris_fades_monotonically_and_leaves_at_exactly_zero() {
    let mut bricks = vec![
        solid_brick_at(0, 0),
        debris_brick(1000, 4),
        debris_brick(3, 7),
    ];
    decr_and_despawn_brick(&mut bricks);
    assert_eq!(bricks.len(), 2, "fully faded debris is removed");
    assert!(matches!(bricks[0].kind, BrickKind::Solid));
    assert_eq!(bricks[0].opacity_milli, 1000, "solid bricks do not fade");
    assert_eq!(bricks[1].opacity_milli, 996);
    let mut last = bricks[1].opacity_milli;
    for _ in 0..300 {
        decr_and_despawn_brick(&mut bricks);
        if bricks.len() < 2 {
            break;
        }
        let o = bricks[1].opacity_milli;
        assert!(o <= last, "opacity never rises");
        last = o;
    }
    assert_eq!(bricks.len(), 1, "the debris brick decayed away");
}

#[test]
fn turn_passes_unless_the_round_is_over() {
    let mut s = base_state();
    next_player_system(&mut s, Action::PreEnter);
    assert!(matches!(s.player, Player::Two));
    assert!(matches!(s.action, Action::PreEnter));
    assert!(s.winner.is_none());
    s.action = Action::Winner;
    s.winner = Some(Player::Two);
    next_player_system(&mut s, Action::PreEnter);
    assert!(matches!(s.player, Player::Two), "winner phase is terminal");
    assert!(matches!(s.action, Action::Winner));
}

#[test]
fn requesting_the_winner_phase_records_the_toggled_player() {
    let mut s = base_state();
    next_player_system(&mut s, Action::Winner);
    assert!(matches!(s.action, Action::Winner));
    assert!(matches!(s.player, Player::Two));
    assert_eq!(s.winner, Some(Player::Two));
    // Terminal from here on.
    next_player_system(&mut s, Action::PreEnter);
    assert!(matches!(s.action, Action::Winner));
    assert_eq!(s.winner, Some(Player::Two));
}

#[test]
fn physics_tick_integrates_gravity_and_spin() {
    let mut s = base_state();
    s.banana = Some(spawn_banana(Player::One, Vec2i { x: 0, y: 0 }, Vec2i { x: 0, y: 0 }));
    physics_step(&mut s);
    let b = s.banana.expect("banana still simulated");
    assert_eq!(b.velocity.0, Vec2i { x: 0, y: -3920 });
    assert_eq!(b.movement.old_position, Vec2i { x: 0, y: 0 });
    assert_eq!(b.movement.cur_position, Vec2i { x: 0, y: -79 });
    assert_eq!(b.angle_milli_deg, 356400);
}

#[test]
fn physics_tick_drifts_debris_but_not_solid_bricks() {
    let mut s = base_state();
    let mut d = debris_brick(500, 4);
    d.velocity = Velocity(Vec2i { x: 100000, y: 0 });
    s.bricks.push(d);
    s.bricks.push(solid_brick_at(10000, 10000));
    physics_step(&mut s);
    assert_eq!(s.bricks[0].velocity.0, Vec2i { x: 100000, y: -3920 });
    assert_eq!(s.bricks[0].movement.cur_position, Vec2i { x: 2000, y: -79 });
    assert_eq!(s.bricks[1].movement.cur_position, Vec2i { x: 10000, y: 10000 });
    assert_eq!(s.bricks[1].velocity.0, Vec2i { x: 0, y: 0 });
}

#[test]
fn arrow_path_matches_its_layout() {
    let s = gorillas::arrow::arrow_path(&60, 30);
    assert_eq!(s, "M 30 15h 60 v -6 l 8 8 l -8 8 v -6 h -60 v -4");
    let t = gorillas::arrow::arrow_path(&600, 30);
    assert_eq!(t, "M 300 15h 600 v -6 l 8 8 l -8 8 v -6 h -600 v -4");
}

#[test]
fn hud_snapshot_follows_the_current_player() {
    let mut s = base_state();
    let (name, action, angle, speed) = s.hud_snapshot();
    assert_eq!(name, "Player 1");
    assert!(matches!(action, Action::Enter));
    assert_eq!(angle, 45);
    assert_eq!(speed, 30);
    s.player = Player::Two;
    s.gorilla_two.aim = AngleSpeed { angle: 100, speed: 80 };
    let (name2, _, angle2, speed2) = s.hud_snapshot();
    assert_eq!(name2, "Player 2");
    assert_eq!(angle2, 100);
    assert_eq!(speed2, 80);
}

#[test]
fn players_alternate() {
    assert!(matches!(Player::One.other(), Player::Two));
    assert!(matches!(Player::Two.other(), Player::One));
    let g = Gorilla::one("Kong".to_string());
    assert!(matches!(g.player, Player::One));
    assert_eq!(g.name, "Kong");
}
