use vstd::prelude::*;

use crate::ballistics::{apply_drag_spec, apply_gravity_spec, position_delta_spec};
use crate::camera_util::camera_follow;
use crate::collision::{any_wall_collision_at, walls_in_collision_range};
use crate::configuration_properties::{
    AIM_ANGLE_STEP, ANGLE_LIMIT, CAMERA_OFFSET_X, CAMERA_OFFSET_Y, CH_RADIUS, DRAG_NUMERATOR,
    DT_LIMIT, MAP_GRAVITY, PLAYER_MOVE_SPEED, PROJECTILE_MUZZLE_VELOCITY, Z_PLAYER, Z_PROJECTILE,
};
use crate::explosion::{animate_frames, animate_all_spec, explosions_wf, Explosion, ExplosionEntity};
use crate::fixed::{mul_milli_spec, MILLI};
use crate::geometry::{Vec2, Vec3};
use crate::input::InputState;
use crate::map::TileCollider;
use crate::player::{
    dir_in_range, player_movement, pos_in_range, update_aim_position, x_delta_spec, Player,
    PlayerAim,
};
use crate::projectile::{
    fire, movement_handler, movement_state_validator, ProjectileEntity, ProjectileType,
};
use crate::state::{MainGameState, ProjectilePresent};

verus! {

/// The whole simulation state, passed explicitly into each tick: the two
/// state machines, the player entity with its aim and crosshair, the
/// camera, the single optional projectile slot, the live explosions, and
/// the immutable terrain collider set.
pub struct GameWorld {
    pub main_game_state: MainGameState,
    pub projectile_state: ProjectilePresent,
    pub player: Player,
    pub player_transform: Vec3,
    pub aim: PlayerAim,
    pub crosshair: Vec3,
    pub camera: Vec3,
    pub projectile: Option<ProjectileEntity>,
    pub explosions: Vec<ExplosionEntity>,
    pub walls: Vec<TileCollider>,
}

impl GameWorld {
    /// Well-formedness: every stored quantity is within the simulation's
    /// working range, a projectile exists exactly while the firing state
    /// says one is present, and every explosion timer is sound.
    pub open spec fn wf(self) -> bool {
        &&& self.player.wf()
        &&& pos_in_range(self.player_transform)
        &&& -ANGLE_LIMIT <= self.aim.angle <= ANGLE_LIMIT
        &&& walls_in_collision_range(self.walls@)
        &&& (self.projectile_state == ProjectilePresent::PRESENT <==> self.projectile.is_some())
        &&& (self.projectile.is_some() ==> self.projectile.unwrap().wf())
        &&& explosions_wf(self.explosions@)
    }

    /// The world at startup: combat mode, no projectile, no explosions,
    /// the player tank and its crosshair at their spawn positions, the
    /// camera at the origin on its default depth.
    pub fn new(walls: Vec<TileCollider>) -> (r: GameWorld)
        requires
            walls_in_collision_range(walls@),
        ensures
            r.wf(),
            r.main_game_state == MainGameState::COMBAT,
            r.projectile_state == ProjectilePresent::NA,
            r.projectile.is_none(),
            r.explosions@ =~= Seq::<ExplosionEntity>::empty(),
            r.walls@ == walls@,
            r.player == (Player {
                speed: PLAYER_MOVE_SPEED,
                just_moved: false,
                ground_contact: false,
                vertical_velocity: 10_000,
            }),
            r.aim == (PlayerAim { angle: 5_000 }),
            r.player_transform.x == -400_000,
            r.player_transform.y == -358_000,
            r.player_transform.z == Z_PLAYER + 1_000,
            r.crosshair.x == 0,
            r.crosshair.y == -20_000_000,
            r.crosshair.z == Z_PLAYER + 1_000,
            r.camera.x == 0,
            r.camera.y == 0,
    {
        let player = Player {
            speed: PLAYER_MOVE_SPEED,
            just_moved: false,
            ground_contact: false,
            vertical_velocity: 10_000,
        };
        let world = GameWorld {
            main_game_state: MainGameState::COMBAT,
            projectile_state: ProjectilePresent::NA,
            player,
            player_transform: Vec3 { x: -400_000, y: -358_000, z: Z_PLAYER + 1_000 },
            aim: PlayerAim { angle: 5_000 },
            crosshair: Vec3 { x: 0, y: -20_000_000, z: Z_PLAYER + 1_000 },
            camera: Vec3 { x: 0, y: 0, z: 999_900 },
            projectile: None,
            explosions: Vec::new(),
            walls,
        };
        world
    }
}

/// One simulation tick of `dt` milliseconds, under the held keys of
/// `input` and the unit direction `aim_dir` of the current aim angle (its
/// cosine and sine, which the caller computes). In combat the tick runs,
/// in order: the aim-angle bookkeeping, the player controller, the camera
/// follow (strictly after the player has moved), the explosion timers,
/// then the fire gate and the projectile motion system. The fire gate and
/// the motion system's run gate both read the firing state as it stood
/// when the tick began, as the host scheduler applies state transitions
/// between ticks: a round fired this tick first flies next tick, and an
/// explosion spawned by this tick's impact first animates next tick. In
/// menu mode only the explosion timers advance.
///
/// At most one projectile is ever live: the world holds projectiles in a
/// single optional slot, the slot is full exactly while the firing state
/// reads present — this tick preserves that — and a fire attempt while
/// one is present changes nothing.
pub fn tick(world: &mut GameWorld, input: InputState, aim_dir: Vec2, dt: i64)
    requires
        old(world).wf(),
        dir_in_range(aim_dir),
        0 <= dt <= DT_LIMIT,
    ensures
        final(world).main_game_state == old(world).main_game_state,
        final(world).walls@ == old(world).walls@,
        final(world).player.speed == old(world).player.speed,
        (final(world).projectile_state == ProjectilePresent::PRESENT <==> final(world).projectile.is_some()),
        explosions_wf(final(world).explosions@),
        old(world).main_game_state == MainGameState::MENU ==> ({
            &&& final(world).player == old(world).player
            &&& final(world).player_transform == old(world).player_transform
            &&& final(world).aim == old(world).aim
            &&& final(world).crosshair == old(world).crosshair
            &&& final(world).camera == old(world).camera
            &&& final(world).projectile == old(world).projectile
            &&& final(world).projectile_state == old(world).projectile_state
            &&& final(world).explosions@ == animate_all_spec(old(world).explosions@, dt as int)
        }),
        old(world).main_game_state == MainGameState::COMBAT ==> ({
            let w = *old(world);
            let vy1 = apply_gravity_spec(
                w.player.vertical_velocity as int,
                MAP_GRAVITY as int,
                dt as int,
            );
            let yd = position_delta_spec(vy1, dt as int);
            let xd = x_delta_spec(w.player.speed as int, input.move_left, input.move_right, dt as int);
            let x_blocked = any_wall_collision_at(
                w.walls@,
                w.player_transform.x + xd,
                w.player_transform.y as int,
            );
            let x1 = if x_blocked {
                w.player_transform.x as int
            } else {
                w.player_transform.x + xd
            };
            let y_blocked = any_wall_collision_at(w.walls@, x1, w.player_transform.y + yd);
            let y1 = if y_blocked {
                w.player_transform.y as int
            } else {
                w.player_transform.y + yd
            };
            let chx = mul_milli_spec(CH_RADIUS as int, aim_dir.x as int);
            let chy = mul_milli_spec(CH_RADIUS as int, aim_dir.y as int);
            &&& final(world).aim.angle == w.aim.angle + (if input.aim_up {
                AIM_ANGLE_STEP as int
            } else {
                0int
            }) - (if input.aim_down {
                AIM_ANGLE_STEP as int
            } else {
                0int
            })
            &&& final(world).player_transform.x == x1
            &&& final(world).player_transform.y == y1
            &&& final(world).player_transform.z == w.player_transform.z
            &&& final(world).player.vertical_velocity == (if y_blocked {
                0int
            } else {
                vy1
            })
            &&& final(world).player.ground_contact == y_blocked
            &&& final(world).player.just_moved == ((!x_blocked && xd != 0) || (!y_blocked && yd
                != 0))
            &&& (if x_blocked && y_blocked {
                final(world).crosshair == w.crosshair
            } else {
                &&& final(world).crosshair.x == x1 + chx
                &&& final(world).crosshair.y == y1 + chy
                &&& final(world).crosshair.z == w.player_transform.z
            })
            &&& final(world).camera.x == x1 + CAMERA_OFFSET_X
            &&& final(world).camera.y == y1 + CAMERA_OFFSET_Y
            &&& final(world).camera.z == w.camera.z
            &&& (if w.projectile_state == ProjectilePresent::NA {
                if input.fire {
                    &&& final(world).projectile_state == ProjectilePresent::PRESENT
                    &&& final(world).projectile.is_some()
                    &&& final(world).projectile.unwrap().projectile.variant == ProjectileType::HE
                    &&& final(world).projectile.unwrap().projectile.speed_vector.x
                        == mul_milli_spec(aim_dir.x as int, PROJECTILE_MUZZLE_VELOCITY as int)
                    &&& final(world).projectile.unwrap().projectile.speed_vector.y
                        == mul_milli_spec(aim_dir.y as int, PROJECTILE_MUZZLE_VELOCITY as int)
                    &&& final(world).projectile.unwrap().translation.x == x1
                    &&& final(world).projectile.unwrap().translation.y == y1
                    &&& final(world).projectile.unwrap().translation.z == Z_PROJECTILE
                    &&& final(world).projectile.unwrap().facing == (Vec2 { x: 0, y: MILLI })
                    &&& final(world).explosions@ == animate_all_spec(w.explosions@, dt as int)
                } else {
                    &&& final(world).projectile_state == ProjectilePresent::NA
                    &&& final(world).projectile == w.projectile
                    &&& final(world).explosions@ == animate_all_spec(w.explosions@, dt as int)
                }
            } else {
                let e = w.projectile.unwrap();
                let vpx = apply_drag_spec(
                    e.projectile.speed_vector.x as int,
                    DRAG_NUMERATOR as int,
                );
                let vpy = apply_gravity_spec(
                    e.projectile.speed_vector.y as int,
                    MAP_GRAVITY as int,
                    dt as int,
                );
                let tx = e.translation.x + position_delta_spec(vpx, dt as int);
                let ty = e.translation.y + position_delta_spec(vpy, dt as int);
                if !any_wall_collision_at(w.walls@, tx, ty) {
                    &&& final(world).projectile_state == ProjectilePresent::PRESENT
                    &&& final(world).projectile.is_some()
                    &&& final(world).projectile.unwrap().projectile.speed_vector.x == vpx
                    &&& final(world).projectile.unwrap().projectile.speed_vector.y == vpy
                    &&& final(world).projectile.unwrap().projectile.variant
                        == e.projectile.variant
                    &&& final(world).projectile.unwrap().translation.x == tx
                    &&& final(world).projectile.unwrap().translation.y == ty
                    &&& final(world).projectile.unwrap().translation.z == e.translation.z
                    &&& final(world).projectile.unwrap().facing.x == vpx
                    &&& final(world).projectile.unwrap().facing.y == vpy
                    &&& final(world).explosions@ == animate_all_spec(w.explosions@, dt as int)
                } else {
                    &&& final(world).projectile_state == ProjectilePresent::NA
                    &&& final(world).projectile.is_none()
                    &&& final(world).explosions@ == animate_all_spec(
                        w.explosions@,
                        dt as int,
                    ).push(
                        ExplosionEntity {
                            explosion: Explosion { elapsed_ms: 0, frame_index: 0 },
                            translation: Vec3 {
                                x: e.translation.x,
                                y: e.translation.y,
                                z: Z_PROJECTILE,
                            },
                        },
                    )
                }
            })
        }),
{
    if world.main_game_state == MainGameState::MENU {
        animate_frames(&mut world.explosions, dt);
        return ;
    }

    let run_movement = movement_state_validator(world.main_game_state, world.projectile_state);

    update_aim_position(&mut world.aim, input.aim_up, input.aim_down);
    player_movement(
        &mut world.player,
        aim_dir,
        &mut world.player_transform,
        &mut world.crosshair,
        &world.walls,
        input,
        dt,
    );
    camera_follow(&mut world.camera, world.player_transform);
    animate_frames(&mut world.explosions, dt);
    fire(
        &mut world.projectile_state,
        &mut world.projectile,
        input.fire,
        aim_dir,
        world.player_transform,
    );
    if run_movement {
        movement_handler(
            &mut world.projectile,
            &mut world.projectile_state,
            &mut world.explosions,
            &world.walls,
            dt,
        );
    }
}

} // verus!
