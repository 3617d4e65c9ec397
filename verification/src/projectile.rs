use vstd::prelude::*;

use crate::ballistics::{
    apply_drag, apply_drag_spec, apply_gravity, apply_gravity_spec, position_delta,
    position_delta_spec,
};
use crate::collision::{any_wall_collision, any_wall_collision_at, walls_in_collision_range};
use crate::configuration_properties::{
    DRAG_NUMERATOR, DT_LIMIT, MAP_GRAVITY, PROJECTILE_MUZZLE_VELOCITY, VEL_LIMIT, Z_PROJECTILE,
};
use crate::explosion::{Explosion, ExplosionEntity};
use crate::fixed::{lemma_mul_milli_spec_bound, mul_milli, mul_milli_spec, MILLI};
use crate::geometry::{Vec2, Vec3};
use crate::map::TileCollider;
use crate::player::{dir_in_range, pos_in_range};
use crate::state::{MainGameState, ProjectilePresent};

verus! {

/// Warhead variants a projectile can carry.
#[derive(Clone, Copy, Debug, PartialEq, Eq, Structural)]
pub enum ProjectileType {
    HE,
    AP,
}

/// The in-flight projectile's component: its velocity and its variant.
#[derive(Clone, Copy, Debug, PartialEq, Eq, Structural)]
pub struct Projectile {
    pub speed_vector: Vec2,
    pub variant: ProjectileType,
}

/// The single live projectile entity: component, transform translation,
/// and the velocity vector its sprite was last rotated to. The renderer
/// turns `facing` into a z rotation of `atan2(y, x) - 90`degrees; the
/// initial value points straight up, the sprite's unrotated pose.
#[derive(Clone, Copy, Debug, PartialEq, Eq, Structural)]
pub struct ProjectileEntity {
    pub projectile: Projectile,
    pub translation: Vec3,
    pub facing: Vec2,
}

impl ProjectileEntity {
    pub open spec fn wf(self) -> bool {
        &&& pos_in_range(self.translation)
        &&& -VEL_LIMIT <= self.projectile.speed_vector.x <= VEL_LIMIT
        &&& -VEL_LIMIT <= self.projectile.speed_vector.y <= VEL_LIMIT
    }
}

/// Run-eligibility of the projectile motion system: it may run only in
/// combat and only while a projectile is live.
pub fn movement_state_validator(
    main_game_state: MainGameState,
    projectile_state: ProjectilePresent,
) -> (r: bool)
    ensures
        r == (main_game_state == MainGameState::COMBAT && projectile_state
            == ProjectilePresent::PRESENT),
{
    main_game_state == MainGameState::COMBAT && projectile_state == ProjectilePresent::PRESENT
}

/// The muzzle velocity vector for a shot along the unit direction
/// `aim_dir`: the direction scaled by the muzzle speed. The direction is
/// the cosine and sine of the aim angle, computed by the caller.
pub fn produce_initial_speed_vector(aim_dir: Vec2) -> (r: Vec2)
    requires
        dir_in_range(aim_dir),
    ensures
        r.x == mul_milli_spec(aim_dir.x as int, PROJECTILE_MUZZLE_VELOCITY as int),
        r.y == mul_milli_spec(aim_dir.y as int, PROJECTILE_MUZZLE_VELOCITY as int),
{
    Vec2 {
        x: mul_milli(aim_dir.x, PROJECTILE_MUZZLE_VELOCITY),
        y: mul_milli(aim_dir.y, PROJECTILE_MUZZLE_VELOCITY),
    }
}

/// A projectile entity at rest at `initial_position`, on the projectile
/// depth layer, not yet rotated, carrying a high-explosive round.
pub fn produce_projectile(initial_position: Vec2) -> (r: ProjectileEntity)
    ensures
        r.projectile.speed_vector == (Vec2 { x: 0, y: 0 }),
        r.projectile.variant == ProjectileType::HE,
        r.translation.x == initial_position.x,
        r.translation.y == initial_position.y,
        r.translation.z == Z_PROJECTILE,
        r.facing == (Vec2 { x: 0, y: MILLI }),
{
    ProjectileEntity {
        projectile: Projectile { speed_vector: Vec2 { x: 0, y: 0 }, variant: ProjectileType::HE },
        translation: Vec3 { x: initial_position.x, y: initial_position.y, z: Z_PROJECTILE },
        facing: Vec2 { x: 0, y: MILLI },
    }
}

/// The firing transition: with the fire key held and no projectile live,
/// a new round appears at the player's position with the muzzle velocity
/// along the aim direction and the state moves to present; on any other
/// input the state and the slot are untouched. Meaningful for unit aim
/// directions, whose scaled components stay in range.
pub open spec fn fire_spec(
    state: ProjectilePresent,
    slot: Option<ProjectileEntity>,
    fire_key: bool,
    aim_dir: Vec2,
    player_translation: Vec3,
) -> (ProjectilePresent, Option<ProjectileEntity>) {
    if fire_key && state == ProjectilePresent::NA {
        (
            ProjectilePresent::PRESENT,
            Some(
                ProjectileEntity {
                    projectile: Projectile {
                        speed_vector: Vec2 {
                            x: mul_milli_spec(
                                aim_dir.x as int,
                                PROJECTILE_MUZZLE_VELOCITY as int,
                            ) as i64,
                            y: mul_milli_spec(
                                aim_dir.y as int,
                                PROJECTILE_MUZZLE_VELOCITY as int,
                            ) as i64,
                        },
                        variant: ProjectileType::HE,
                    },
                    translation: Vec3 {
                        x: player_translation.x,
                        y: player_translation.y,
                        z: Z_PROJECTILE,
                    },
                    facing: Vec2 { x: 0, y: MILLI },
                },
            ),
        )
    } else {
        (state, slot)
    }
}

/// At most one projectile is ever live: a fire attempt while one is
/// present changes neither the firing state nor the projectile slot, so
/// no second entity can ever be spawned.
pub proof fn lemma_fire_while_present_spawns_nothing(
    slot: Option<ProjectileEntity>,
    fire_key: bool,
    aim_dir: Vec2,
    player_translation: Vec3,
)
    ensures
        fire_spec(ProjectilePresent::PRESENT, slot, fire_key, aim_dir, player_translation) == (
            ProjectilePresent::PRESENT,
            slot,
        ),
{
}

/// Fire a new round if the fire key is held and no projectile is live:
/// spawn a projectile at the player's position with the muzzle velocity
/// along the aim direction, and mark one as present. Held fire while a
/// projectile is live does nothing — a level-triggered gate, so holding
/// the key does not refire until the live round is gone.
pub fn fire(
    projectile_state: &mut ProjectilePresent,
    projectile: &mut Option<ProjectileEntity>,
    fire_key: bool,
    aim_dir: Vec2,
    player_translation: Vec3,
)
    requires
        dir_in_range(aim_dir),
    ensures
        (*final(projectile_state), *final(projectile)) == fire_spec(
            *old(projectile_state),
            *old(projectile),
            fire_key,
            aim_dir,
            player_translation,
        ),
        if fire_key && *old(projectile_state) == ProjectilePresent::NA {
            &&& *final(projectile_state) == ProjectilePresent::PRESENT
            &&& final(projectile).is_some()
            &&& final(projectile).unwrap().projectile.variant == ProjectileType::HE
            &&& final(projectile).unwrap().projectile.speed_vector.x == mul_milli_spec(
                aim_dir.x as int,
                PROJECTILE_MUZZLE_VELOCITY as int,
            )
            &&& final(projectile).unwrap().projectile.speed_vector.y == mul_milli_spec(
                aim_dir.y as int,
                PROJECTILE_MUZZLE_VELOCITY as int,
            )
            &&& final(projectile).unwrap().translation.x == player_translation.x
            &&& final(projectile).unwrap().translation.y == player_translation.y
            &&& final(projectile).unwrap().translation.z == Z_PROJECTILE
            &&& final(projectile).unwrap().facing == (Vec2 { x: 0, y: MILLI })
        } else {
            &&& *final(projectile_state) == *old(projectile_state)
            &&& *final(projectile) == *old(projectile)
        },
{
    if fire_key && *projectile_state == ProjectilePresent::NA {
        let mut entity = produce_projectile(
            Vec2 { x: player_translation.x, y: player_translation.y },
        );
        entity.projectile = Projectile {
            speed_vector: produce_initial_speed_vector(aim_dir),
            variant: ProjectileType::HE,
        };
        *projectile = Some(entity);
        *projectile_state = ProjectilePresent::PRESENT;
    }
}

/// Zero a projectile's velocity.
pub fn stop_movement(projectile: &mut Projectile)
    ensures
        final(projectile).speed_vector == (Vec2 { x: 0, y: 0 }),
        final(projectile).variant == old(projectile).variant,
{
    projectile.speed_vector = Vec2 { x: 0, y: 0 };
}

/// Rotate the projectile sprite to its flight direction; the renderer
/// derives the z rotation from the stored vector.
pub fn point_to_flight_direction(entity: &mut ProjectileEntity, velocity: Vec2)
    ensures
        final(entity).facing == velocity,
        final(entity).projectile == old(entity).projectile,
        final(entity).translation == old(entity).translation,
{
    entity.facing = velocity;
}

/// Remove the live projectile and spawn an explosion animation, on frame
/// zero with a fresh timer, at the projectile's last committed position
/// on the projectile depth layer; the firing state returns to `NA`, so a
/// new round may be fired.
pub fn explode_remove(
    projectile: &mut Option<ProjectileEntity>,
    projectile_state: &mut ProjectilePresent,
    explosions: &mut Vec<ExplosionEntity>,
)
    requires
        old(projectile).is_some(),
    ensures
        final(projectile).is_none(),
        *final(projectile_state) == ProjectilePresent::NA,
        final(explosions)@ == old(explosions)@.push(
            ExplosionEntity {
                explosion: Explosion { elapsed_ms: 0, frame_index: 0 },
                translation: Vec3 {
                    x: old(projectile).unwrap().translation.x,
                    y: old(projectile).unwrap().translation.y,
                    z: Z_PROJECTILE,
                },
            },
        ),
{
    let position = match projectile {
        Some(entity) => Vec3 { x: entity.translation.x, y: entity.translation.y, z: Z_PROJECTILE },
        None => Vec3 { x: 0, y: 0, z: Z_PROJECTILE },
    };
    *projectile = None;
    *projectile_state = ProjectilePresent::NA;
    spawn_animation(explosions, position);
}

/// Append a fresh explosion animation at `position`.
pub fn spawn_animation(explosions: &mut Vec<ExplosionEntity>, position: Vec3)
    ensures
        final(explosions)@ == old(explosions)@.push(
            ExplosionEntity {
                explosion: Explosion { elapsed_ms: 0, frame_index: 0 },
                translation: position,
            },
        ),
{
    explosions.push(
        ExplosionEntity {
            explosion: Explosion { elapsed_ms: 0, frame_index: 0 },
            translation: position,
        },
    );
}

/// One tick of the projectile motion system, for the single live
/// projectile if there is one. The velocity is integrated — gravity on
/// the vertical axis, one tick of drag on the horizontal — and the moved
/// actor box is tested against every terrain collider. A clear move
/// commits the position and rotates the sprite to the flight direction; a
/// hit stops the projectile, removes it, spawns an explosion at its last
/// committed position, and frees the firing gate.
pub fn movement_handler(
    projectile: &mut Option<ProjectileEntity>,
    projectile_state: &mut ProjectilePresent,
    explosions: &mut Vec<ExplosionEntity>,
    walls: &Vec<TileCollider>,
    dt: i64,
)
    requires
        old(projectile).is_some() ==> old(projectile).unwrap().wf(),
        walls_in_collision_range(walls@),
        0 <= dt <= DT_LIMIT,
    ensures
        old(projectile).is_none() ==> {
            &&& *final(projectile) == *old(projectile)
            &&& *final(projectile_state) == *old(projectile_state)
            &&& final(explosions)@ == old(explosions)@
        },
        old(projectile).is_some() ==> ({
            let e = old(projectile).unwrap();
            let vx1 = apply_drag_spec(e.projectile.speed_vector.x as int, DRAG_NUMERATOR as int);
            let vy1 = apply_gravity_spec(
                e.projectile.speed_vector.y as int,
                MAP_GRAVITY as int,
                dt as int,
            );
            let tx = e.translation.x + position_delta_spec(vx1, dt as int);
            let ty = e.translation.y + position_delta_spec(vy1, dt as int);
            if !any_wall_collision_at(walls@, tx, ty) {
                &&& final(projectile).is_some()
                &&& final(projectile).unwrap().projectile.speed_vector.x == vx1
                &&& final(projectile).unwrap().projectile.speed_vector.y == vy1
                &&& final(projectile).unwrap().projectile.variant == e.projectile.variant
                &&& final(projectile).unwrap().translation.x == tx
                &&& final(projectile).unwrap().translation.y == ty
                &&& final(projectile).unwrap().translation.z == e.translation.z
                &&& final(projectile).unwrap().facing.x == vx1
                &&& final(projectile).unwrap().facing.y == vy1
                &&& *final(projectile_state) == *old(projectile_state)
                &&& final(explosions)@ == old(explosions)@
            } else {
                &&& final(projectile).is_none()
                &&& *final(projectile_state) == ProjectilePresent::NA
                &&& final(explosions)@ == old(explosions)@.push(
                    ExplosionEntity {
                        explosion: Explosion { elapsed_ms: 0, frame_index: 0 },
                        translation: Vec3 { x: e.translation.x, y: e.translation.y, z: Z_PROJECTILE },
                    },
                )
            }
        }),
{
    let entity = match projectile {
        Some(entity) => *entity,
        None => {
            return ;
        },
    };

    let vx1 = apply_drag(entity.projectile.speed_vector.x, DRAG_NUMERATOR);
    let vy1 = apply_gravity(entity.projectile.speed_vector.y, MAP_GRAVITY, dt);
    proof {
        lemma_mul_milli_spec_bound(MAP_GRAVITY as int, dt as int, 60_000_000_000);
        assert(vx1 * dt <= 2_000_000_000_000_000 && vx1 * dt >= -2_000_000_000_000_000
            && vy1 * dt <= 2_000_000_000_000_000 && vy1 * dt >= -2_000_000_000_000_000)
            by (nonlinear_arith)
            requires
                -2_000_000_000 <= vx1 <= 2_000_000_000,
                -2_000_000_000 <= vy1 <= 2_000_000_000,
                0 <= dt <= 1_000_000,
        ;
        lemma_mul_milli_spec_bound(vx1 as int, dt as int, 2_000_000_000_000_000);
        lemma_mul_milli_spec_bound(vy1 as int, dt as int, 2_000_000_000_000_000);
    }
    let delta_x = position_delta(vx1, dt);
    let delta_y = position_delta(vy1, dt);

    let target = Vec3 {
        x: entity.translation.x + delta_x,
        y: entity.translation.y + delta_y,
        z: entity.translation.z,
    };
    if !any_wall_collision(walls, target) {
        let mut moved = entity;
        moved.projectile = Projectile {
            speed_vector: Vec2 { x: vx1, y: vy1 },
            variant: entity.projectile.variant,
        };
        point_to_flight_direction(&mut moved, Vec2 { x: vx1, y: vy1 });
        moved.translation = target;
        *projectile = Some(moved);
    } else {
        let mut stopped = entity.projectile;
        stop_movement(&mut stopped);
        explode_remove(projectile, projectile_state, explosions);
    }
}

} // verus!
