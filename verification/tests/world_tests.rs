use rustiarti::explosion::{Explosion, ExplosionEntity};
use rustiarti::geometry::{Vec2, Vec3};
use rustiarti::input::InputState;
use rustiarti::map::TileCollider;
use rustiarti::state::{MainGameState, ProjectilePresent};
use rustiarti::world::{tick, GameWorld};

fn fire_held() -> InputState {
    InputState { move_left: false, move_right: false, aim_up: false, aim_down: false, fire: true }
}

fn aim_five_degrees() -> Vec2 {
    Vec2 {
        x: ((5.0_f64).to_radians().cos() * 1000.0) as i64,
        y: ((5.0_f64).to_radians().sin() * 1000.0) as i64,
    }
}

#[test]
fn startup_world() {
    let world = GameWorld::new(Vec::new());
    assert_eq!(world.main_game_state, MainGameState::COMBAT);
    assert_eq!(world.projectile_state, ProjectilePresent::NA);
    assert!(world.projectile.is_none());
    assert!(world.explosions.is_empty());
    assert_eq!(world.player_transform, Vec3 { x: -400_000, y: -358_000, z: 151_000 });
    assert_eq!(world.aim.angle, 5_000);
}

#[test]
fn held_fire_keeps_exactly_one_projectile() {
    // With the fire key held over many ticks, exactly one projectile is
    // ever live: the first eligible tick fires, later ticks spawn nothing.
    let mut world = GameWorld::new(Vec::new());
    tick(&mut world, fire_held(), aim_five_degrees(), 100);
    assert_eq!(world.projectile_state, ProjectilePresent::PRESENT);
    let first = world.projectile.expect("fired on the first tick");
    for _ in 0..5 {
        tick(&mut world, fire_held(), aim_five_degrees(), 100);
        assert_eq!(world.projectile_state, ProjectilePresent::PRESENT);
        assert!(world.projectile.is_some());
    }
    // Still the round fired first: it moved, but its variant and the
    // single-slot discipline are intact.
    assert_eq!(world.projectile.unwrap().projectile.variant, first.projectile.variant);
}

#[test]
fn fired_round_first_flies_on_the_next_tick() {
    // The motion system's gate reads the firing state as the tick began,
    // so a round fired this tick has not moved yet.
    let mut world = GameWorld::new(Vec::new());
    tick(&mut world, fire_held(), aim_five_degrees(), 100);
    let spawned = world.projectile.unwrap();
    assert_eq!(spawned.projectile.speed_vector, Vec2 { x: 219_120, y: 19_140 });
    assert_eq!(spawned.translation.x, world.player_transform.x);
    tick(&mut world, fire_held(), aim_five_degrees(), 100);
    let moved = world.projectile.unwrap();
    assert!(moved.translation.x > spawned.translation.x);
    assert_eq!(moved.projectile.speed_vector, Vec2 { x: 219_033, y: 13_140 });
}

#[test]
fn impact_frees_the_gate_and_a_new_round_can_fire() {
    // The firing state's sole escape from PRESENT: it returns to NA when
    // the projectile is removed on impact, so the tank can fire again.
    let walls = vec![TileCollider { translation: Vec3 { x: -360_000, y: -358_000, z: 100_000 } }];
    let mut world = GameWorld::new(walls);
    // Keep the player from falling forever so the scenario stays simple:
    // it stands on nothing here, which does not matter for the shot.
    tick(&mut world, fire_held(), aim_five_degrees(), 100);
    assert_eq!(world.projectile_state, ProjectilePresent::PRESENT);
    let mut impacted_at: Option<usize> = None;
    for step in 0..10 {
        tick(&mut world, fire_held(), aim_five_degrees(), 100);
        if !world.explosions.is_empty() && impacted_at.is_none() {
            impacted_at = Some(step);
            // Removed on the impact tick itself, and an explosion stands
            // at the last committed position on frame 0.
            assert_eq!(world.projectile_state, ProjectilePresent::NA);
            assert!(world.projectile.is_none());
            assert_eq!(world.explosions[0].explosion.frame_index, 0);
            // Once more eligible, the held key fires again next tick.
            tick(&mut world, fire_held(), aim_five_degrees(), 100);
            assert_eq!(world.projectile_state, ProjectilePresent::PRESENT);
            assert!(world.projectile.is_some());
            break;
        }
    }
    assert!(impacted_at.is_some(), "the shot must hit the wall in range");
}

#[test]
fn menu_mode_only_animates_explosions() {
    let mut world = GameWorld::new(Vec::new());
    world.main_game_state = MainGameState::MENU;
    world.explosions.push(ExplosionEntity {
        explosion: Explosion { elapsed_ms: 0, frame_index: 2 },
        translation: Vec3 { x: 0, y: 0, z: 200_000 },
    });
    let player_before = world.player;
    let transform_before = world.player_transform;
    tick(&mut world, fire_held(), aim_five_degrees(), 70);
    assert_eq!(world.player, player_before);
    assert_eq!(world.player_transform, transform_before);
    assert!(world.projectile.is_none());
    assert_eq!(world.projectile_state, ProjectilePresent::NA);
    assert_eq!(world.explosions[0].explosion.frame_index, 3);
}

#[test]
fn tick_order_camera_follows_moved_player() {
    let mut world = GameWorld::new(Vec::new());
    let input = InputState {
        move_left: false,
        move_right: true,
        aim_up: false,
        aim_down: false,
        fire: false,
    };
    tick(&mut world, input, aim_five_degrees(), 100);
    assert_eq!(world.camera.x, world.player_transform.x + 250_000);
    assert_eq!(world.camera.y, world.player_transform.y + 150_000);
}
