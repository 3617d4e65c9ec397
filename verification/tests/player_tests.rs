use rustiarti::camera_util::camera_follow;
use rustiarti::geometry::{Vec2, Vec3};
use rustiarti::input::InputState;
use rustiarti::map::TileCollider;
use rustiarti::player::{player_movement, spawn_tank_player, update_aim_position, Player, PlayerAim};

fn hold_right() -> InputState {
    InputState { move_left: false, move_right: true, aim_up: false, aim_down: false, fire: false }
}

fn aim_level() -> Vec2 {
    Vec2 { x: 1_000, y: 0 }
}

#[test]
fn spawn_values() {
    let (player, aim, translation) = spawn_tank_player();
    assert_eq!(player.speed, 5_000);
    assert!(!player.just_moved);
    assert!(!player.ground_contact);
    assert_eq!(player.vertical_velocity, 10_000);
    assert_eq!(aim.angle, 5_000);
    assert_eq!(translation, Vec3 { x: -400_000, y: -358_000, z: 151_000 });
}

#[test]
fn one_second_of_held_right_moves_a_hundred_units() {
    // Player at (-400, y0), speed 5, tile size 20: holding move-right for
    // one second of simulated time with no colliders in range moves the
    // player 5 * 20 * 1 = 100 units right; the vertical fall is applied
    // independently.
    let (mut player, _aim, mut transform) = spawn_tank_player();
    let mut crosshair = Vec3 { x: 0, y: -20_000_000, z: 151_000 };
    let walls: Vec<TileCollider> = Vec::new();
    for _ in 0..10 {
        player_movement(
            &mut player,
            aim_level(),
            &mut transform,
            &mut crosshair,
            &walls,
            hold_right(),
            100,
        );
    }
    assert_eq!(transform.x, -300_000);
    // The independent fall: the vertical velocity starts at 10 and loses
    // 6 units per 100 ms tick; the summed displacement is -23 units.
    assert_eq!(player.vertical_velocity, 10_000 - 10 * 6_000);
    assert_eq!(transform.y, -358_000 - 23_000);
    assert!(player.just_moved);
    assert!(!player.ground_contact);
}

#[test]
fn both_movement_keys_cancel() {
    let (mut player, _aim, mut transform) = spawn_tank_player();
    let mut crosshair = Vec3 { x: 0, y: 0, z: 0 };
    let walls: Vec<TileCollider> = Vec::new();
    let both = InputState { move_left: true, move_right: true, aim_up: false, aim_down: false, fire: false };
    player_movement(&mut player, aim_level(), &mut transform, &mut crosshair, &walls, both, 100);
    assert_eq!(transform.x, -400_000);
    // The vertical fall still moved the player, so the tick counts as a move.
    assert!(player.just_moved);
}

#[test]
fn blocked_horizontal_move_is_silently_rejected() {
    let (mut player, _aim, mut transform) = spawn_tank_player();
    transform = Vec3 { x: 0, y: 0, z: 151_000 };
    player.vertical_velocity = 0;
    let mut crosshair = Vec3 { x: 7, y: 8, z: 9 };
    // A wall one tile to the right blocks the move; a wall below blocks
    // the fall, so nothing at all moves this tick.
    let walls = vec![
        TileCollider { translation: Vec3 { x: 20_000, y: 0, z: 0 } },
        TileCollider { translation: Vec3 { x: 0, y: -20_000, z: 0 } },
    ];
    player_movement(&mut player, aim_level(), &mut transform, &mut crosshair, &walls, hold_right(), 100);
    assert_eq!(transform, Vec3 { x: 0, y: 0, z: 151_000 });
    assert!(!player.just_moved);
    // The blocked fall is the landing rule.
    assert!(player.ground_contact);
    assert_eq!(player.vertical_velocity, 0);
    // Neither axis committed, so the crosshair was never touched.
    assert_eq!(crosshair, Vec3 { x: 7, y: 8, z: 9 });
}

#[test]
fn landing_zeroes_vertical_velocity() {
    let (mut player, _aim, mut transform) = spawn_tank_player();
    transform = Vec3 { x: 0, y: 0, z: 151_000 };
    player.vertical_velocity = -50_000;
    let mut crosshair = Vec3 { x: 0, y: 0, z: 0 };
    let walls = vec![TileCollider { translation: Vec3 { x: 0, y: -25_000, z: 0 } }];
    player_movement(
        &mut player,
        aim_level(),
        &mut transform,
        &mut crosshair,
        &walls,
        InputState { move_left: false, move_right: false, aim_up: false, aim_down: false, fire: false },
        100,
    );
    assert!(player.ground_contact);
    assert_eq!(player.vertical_velocity, 0);
    assert_eq!(transform.y, 0);
}

#[test]
fn crosshair_follows_aim_direction() {
    let (mut player, _aim, mut transform) = spawn_tank_player();
    player.vertical_velocity = 0;
    let mut crosshair = Vec3 { x: 0, y: 0, z: 0 };
    let walls: Vec<TileCollider> = Vec::new();
    // Unit direction for a 5 degree aim, in fixed-point components.
    let dir = Vec2 {
        x: ((5.0_f64).to_radians().cos() * 1000.0) as i64,
        y: ((5.0_f64).to_radians().sin() * 1000.0) as i64,
    };
    assert_eq!(dir, Vec2 { x: 996, y: 87 });
    player_movement(
        &mut player,
        dir,
        &mut transform,
        &mut crosshair,
        &walls,
        InputState { move_left: false, move_right: false, aim_up: false, aim_down: false, fire: false },
        0,
    );
    // The crosshair sits CH_RADIUS = 60 units from the player along the
    // aim direction: offsets 60 * 0.996 and 60 * 0.087.
    assert_eq!(crosshair.x, transform.x + 59_760);
    assert_eq!(crosshair.y, transform.y + 5_220);
    assert_eq!(crosshair.z, transform.z);
}

#[test]
fn aim_angle_accumulates_per_held_tick() {
    let mut aim = PlayerAim { angle: 5_000 };
    update_aim_position(&mut aim, true, false);
    assert_eq!(aim.angle, 5_070);
    update_aim_position(&mut aim, false, true);
    assert_eq!(aim.angle, 5_000);
    // Both keys held cancel; no key held changes nothing.
    update_aim_position(&mut aim, true, true);
    assert_eq!(aim.angle, 5_000);
    update_aim_position(&mut aim, false, false);
    assert_eq!(aim.angle, 5_000);
}

#[test]
fn camera_follows_with_fixed_offset() {
    let mut camera = Vec3 { x: 0, y: 0, z: 999_900 };
    camera_follow(&mut camera, Vec3 { x: -300_000, y: -381_000, z: 151_000 });
    assert_eq!(camera, Vec3 { x: -50_000, y: -231_000, z: 999_900 });
}

#[test]
fn speed_is_never_changed_by_movement() {
    let (mut player, _aim, mut transform) = spawn_tank_player();
    let mut crosshair = Vec3 { x: 0, y: 0, z: 0 };
    let walls: Vec<TileCollider> = Vec::new();
    player_movement(&mut player, aim_level(), &mut transform, &mut crosshair, &walls, hold_right(), 250);
    assert_eq!(player.speed, 5_000);
    let expected = Player { speed: 5_000, ..player };
    assert_eq!(player, expected);
}
