use vstd::prelude::*;

use crate::ballistics::{apply_gravity, apply_gravity_spec, position_delta, position_delta_spec};
use crate::collision::{any_wall_collision, any_wall_collision_at, walls_in_collision_range};
use crate::configuration_properties::{
    AIM_ANGLE_STEP, ANGLE_LIMIT, CH_RADIUS, DIR_LIMIT, DT_LIMIT, MAP_GRAVITY, MAP_TILE_SIZE,
    PLAYER_MOVE_SPEED, POS_LIMIT, SPEED_LIMIT, VEL_LIMIT, Z_PLAYER,
};
use crate::fixed::{lemma_mul_milli_spec_bound, mul_milli, mul_milli_spec};
use crate::geometry::{Vec2, Vec3};
use crate::input::InputState;
use crate::map::TileCollider;

verus! {

/// The player tank's simulation state.
#[derive(Clone, Copy, Debug, PartialEq, Eq, Structural)]
pub struct Player {
    /// Horizontal speed in tiles per second.
    pub speed: i64,
    /// Whether the most recent tick moved the player on either axis.
    pub just_moved: bool,
    /// Whether the most recent vertical move was blocked by terrain.
    pub ground_contact: bool,
    /// Current vertical velocity, integrated under gravity each tick.
    pub vertical_velocity: i64,
}

impl Player {
    pub open spec fn wf(self) -> bool {
        &&& -SPEED_LIMIT <= self.speed <= SPEED_LIMIT
        &&& -VEL_LIMIT <= self.vertical_velocity <= VEL_LIMIT
    }
}

/// The turret's aim state: an angle in fixed-point degrees, unbounded by
/// design — it accumulates while an aim key is held, with no wraparound.
#[derive(Clone, Copy, Debug, PartialEq, Eq, Structural)]
pub struct PlayerAim {
    pub angle: i64,
}

/// A position within the range the player systems accept.
pub open spec fn pos_in_range(v: Vec3) -> bool {
    &&& -POS_LIMIT <= v.x <= POS_LIMIT
    &&& -POS_LIMIT <= v.y <= POS_LIMIT
}

/// A unit-length aim direction, in fixed-point components.
pub open spec fn dir_in_range(v: Vec2) -> bool {
    &&& -DIR_LIMIT <= v.x <= DIR_LIMIT
    &&& -DIR_LIMIT <= v.y <= DIR_LIMIT
}

/// Raise the aim angle while the up key is held and lower it while the
/// down key is held, by a fixed step per tick.
pub fn update_aim_position(aim: &mut PlayerAim, aim_up: bool, aim_down: bool)
    requires
        -ANGLE_LIMIT <= old(aim).angle <= ANGLE_LIMIT,
    ensures
        final(aim).angle == old(aim).angle + (if aim_up {
            AIM_ANGLE_STEP as int
        } else {
            0int
        }) - (if aim_down {
            AIM_ANGLE_STEP as int
        } else {
            0int
        }),
{
    if aim_up {
        aim.angle = aim.angle + AIM_ANGLE_STEP;
    }
    if aim_down {
        aim.angle = aim.angle - AIM_ANGLE_STEP;
    }
}

/// The horizontal distance one tick's held movement keys ask for: the
/// player speed scaled by the tile size and the tick duration; both keys
/// held cancel out.
pub open spec fn x_delta_spec(speed: int, move_left: bool, move_right: bool, dt: int) -> int {
    (if move_right {
        mul_milli_spec(mul_milli_spec(speed, MAP_TILE_SIZE as int), dt)
    } else {
        0int
    }) - (if move_left {
        mul_milli_spec(mul_milli_spec(speed, MAP_TILE_SIZE as int), dt)
    } else {
        0int
    })
}

/// One tick of the player controller. Gravity is integrated into the
/// vertical velocity first; the horizontal move demanded by the held keys
/// and the vertical fall are then attempted one axis at a time, each
/// committed only if the moved actor box overlaps no terrain collider. A
/// blocked horizontal move is silently rejected; a blocked vertical move
/// lands the player: it sets ground contact and zeroes the vertical
/// velocity. Every committed move drags the aim crosshair along, offset
/// from the player by `CH_RADIUS` in the aim direction.
pub fn player_movement(
    player: &mut Player,
    aim_dir: Vec2,
    transform: &mut Vec3,
    crosshair: &mut Vec3,
    walls: &Vec<TileCollider>,
    input: InputState,
    dt: i64,
)
    requires
        old(player).wf(),
        pos_in_range(*old(transform)),
        walls_in_collision_range(walls@),
        dir_in_range(aim_dir),
        0 <= dt <= DT_LIMIT,
    ensures
        final(player).speed == old(player).speed,
        -2_100_000_000_000 <= final(transform).x - old(transform).x <= 2_100_000_000_000,
        -2_100_000_000_000 <= final(transform).y - old(transform).y <= 2_100_000_000_000,
        ({
            let vy1 = apply_gravity_spec(
                old(player).vertical_velocity as int,
                MAP_GRAVITY as int,
                dt as int,
            );
            let yd = position_delta_spec(vy1, dt as int);
            let xd = x_delta_spec(old(player).speed as int, input.move_left, input.move_right, dt as int);
            let x_blocked = any_wall_collision_at(
                walls@,
                old(transform).x + xd,
                old(transform).y as int,
            );
            let x1 = if x_blocked {
                old(transform).x as int
            } else {
                old(transform).x + xd
            };
            let y_blocked = any_wall_collision_at(walls@, x1, old(transform).y + yd);
            let y1 = if y_blocked {
                old(transform).y as int
            } else {
                old(transform).y + yd
            };
            let chx = mul_milli_spec(CH_RADIUS as int, aim_dir.x as int);
            let chy = mul_milli_spec(CH_RADIUS as int, aim_dir.y as int);
            &&& final(transform).x == x1
            &&& final(transform).y == y1
            &&& final(transform).z == old(transform).z
            &&& final(player).vertical_velocity == (if y_blocked {
                0int
            } else {
                vy1
            })
            &&& final(player).ground_contact == y_blocked
            &&& final(player).just_moved == ((!x_blocked && xd != 0) || (!y_blocked && yd != 0))
            &&& (if x_blocked && y_blocked {
                *final(crosshair) == *old(crosshair)
            } else {
                &&& final(crosshair).x == x1 + chx
                &&& final(crosshair).y == y1 + chy
                &&& final(crosshair).z == old(transform).z
            })
        }),
{
    player.just_moved = false;

    let vy1 = apply_gravity(player.vertical_velocity, MAP_GRAVITY, dt);
    player.vertical_velocity = vy1;
    proof {
        lemma_mul_milli_spec_bound(MAP_GRAVITY as int, dt as int, 60_000_000_000);
        assert(vy1 * dt <= 2_000_000_000_000_000 && vy1 * dt >= -2_000_000_000_000_000)
            by (nonlinear_arith)
            requires
                -2_000_000_000 <= vy1 <= 2_000_000_000,
                0 <= dt <= 1_000_000,
        ;
        lemma_mul_milli_spec_bound(vy1 as int, dt as int, 2_000_000_000_000_000);
    }
    let y_delta = position_delta(vy1, dt);

    let speed_tiles = mul_milli(player.speed, MAP_TILE_SIZE);
    proof {
        lemma_mul_milli_spec_bound(player.speed as int, MAP_TILE_SIZE as int, 20_000_000_000);
        assert(speed_tiles * dt <= 20_000_000_000_000 && speed_tiles * dt >= -20_000_000_000_000)
            by (nonlinear_arith)
            requires
                -20_000_000 <= speed_tiles <= 20_000_000,
                0 <= dt <= 1_000_000,
        ;
        lemma_mul_milli_spec_bound(speed_tiles as int, dt as int, 20_000_000_000_000);
    }
    let step = mul_milli(speed_tiles, dt);
    let mut x_delta: i64 = 0;
    if input.move_left {
        x_delta = x_delta - step;
    }
    if input.move_right {
        x_delta = x_delta + step;
    }

    let ch_x = mul_milli(CH_RADIUS, aim_dir.x);
    let ch_y = mul_milli(CH_RADIUS, aim_dir.y);

    let target = Vec3 { x: transform.x + x_delta, y: transform.y, z: transform.z };
    if !any_wall_collision(walls, target) {
        if x_delta != 0 {
            player.just_moved = true;
        }
        *crosshair = Vec3 { x: target.x + ch_x, y: target.y + ch_y, z: target.z };
        *transform = target;
    }

    let target = Vec3 { x: transform.x, y: transform.y + y_delta, z: transform.z };
    if !any_wall_collision(walls, target) {
        if y_delta != 0 {
            player.just_moved = true;
        }
        player.ground_contact = false;
        *crosshair = Vec3 { x: target.x + ch_x, y: target.y + ch_y, z: target.z };
        *transform = target;
    } else {
        player.ground_contact = true;
        player.vertical_velocity = 0;
    }
}

/// The player entity's state at startup: the tank at the left edge of the
/// map on the ground line, aiming slightly upward, with a small initial
/// vertical velocity; returns the player, the aim state and the
/// transform's translation.
pub fn spawn_tank_player() -> (r: (Player, PlayerAim, Vec3))
    ensures
        r.0 == (Player {
            speed: PLAYER_MOVE_SPEED,
            just_moved: false,
            ground_contact: false,
            vertical_velocity: 10_000,
        }),
        r.1 == (PlayerAim { angle: 5_000 }),
        r.2.x == -400_000,
        r.2.y == -358_000,
        r.2.z == Z_PLAYER + 1_000,
{
    let player = Player {
        speed: PLAYER_MOVE_SPEED,
        just_moved: false,
        ground_contact: false,
        vertical_velocity: 10_000,
    };
    let aim = PlayerAim { angle: 5_000 };
    let translation = Vec3 { x: -400_000, y: -358_000, z: Z_PLAYER + 1_000 };
    (player, aim, translation)
}

} // verus!
