use vstd::prelude::*;

verus! {

/// Side length of one solid map tile, in fixed-point world units.
pub const MAP_TILE_SIZE: i64 = 20_000;

/// Horizontal player speed, in tiles per second (fixed-point scalar).
pub const PLAYER_MOVE_SPEED: i64 = 5_000;

/// Downward acceleration, in world units per second squared; kept relative
/// to the tile size.
pub const MAP_GRAVITY: i64 = 3 * MAP_TILE_SIZE;

/// Speed magnitude given to a projectile at the instant of firing, in world
/// units per second.
pub const PROJECTILE_MUZZLE_VELOCITY: i64 = 220_000;

/// Depth-ordering coordinates of the three entity layers.
pub const Z_MAP: i64 = 100_000;

pub const Z_PLAYER: i64 = 150_000;

pub const Z_PROJECTILE: i64 = 200_000;

/// Distance from the player at which the aim crosshair is drawn.
pub const CH_RADIUS: i64 = 60_000;

/// Change of the aim angle per tick a turret key is held, in fixed-point
/// degrees (0.07 degrees).
pub const AIM_ANGLE_STEP: i64 = 70;

/// Horizontal air resistance: each tick the projectile loses
/// `DRAG_NUMERATOR / DRAG_DENOMINATOR` of its horizontal velocity. The loss
/// is per tick, not scaled by the tick's duration.
pub const DRAG_NUMERATOR: i64 = 4;

pub const DRAG_DENOMINATOR: i64 = 10_000;

/// Period of the explosion animation timer, in milliseconds (0.07 seconds).
pub const EXPLOSION_FRAME_PERIOD: i64 = 70;

/// Index of the last explosion animation frame.
pub const LAST_EXPLOSION_FRAME: u16 = 7;

/// World x coordinate of the leftmost map column: half a window width to
/// the left of the origin (the window is 800 units tall with a 16:9 ratio,
/// so this is -(16/9 * 800) / 2, truncated to the fixed-point scale).
pub const MAP_ORIGIN_X: i64 = -711_111;

/// Camera offset relative to the player.
pub const CAMERA_OFFSET_X: i64 = 250_000;

pub const CAMERA_OFFSET_Y: i64 = 150_000;

/// Half extent of a moving actor's collision box: the box is shrunk to 95%
/// of the tile size to avoid false positives when grazing an edge.
pub const ACTOR_HALF_EXTENT: i64 = 9_500;

/// Half extent of a static terrain collider: the full tile size.
pub const TILE_HALF_EXTENT: i64 = 10_000;

/// Bound on the magnitude of any position coordinate held in game state.
pub const POS_LIMIT: i64 = 1_000_000_000_000;

/// Bound on the magnitude of any position handed to the collision detector;
/// wide enough for a bounded position moved by one bounded tick.
pub const COLLISION_POS_LIMIT: i64 = 4_000_000_000_000;

/// Bound on the magnitude of a velocity component.
pub const VEL_LIMIT: i64 = 1_000_000_000;

/// Bound on the gravity constant.
pub const GRAVITY_LIMIT: i64 = 1_000_000;

/// Bound on the player speed scalar.
pub const SPEED_LIMIT: i64 = 1_000_000;

/// Bound on one tick's duration: at most 1000 seconds of simulated time.
pub const DT_LIMIT: i64 = 1_000_000;

/// Bound on the magnitude of an aim direction component; a unit vector
/// component is at most `MILLI`.
pub const DIR_LIMIT: i64 = 1_000;

/// Bound on the magnitude of the accumulated aim angle.
pub const ANGLE_LIMIT: i64 = 1_000_000_000_000;

} // verus!
