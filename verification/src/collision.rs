use vstd::prelude::*;

use crate::configuration_properties::{ACTOR_HALF_EXTENT, COLLISION_POS_LIMIT, TILE_HALF_EXTENT};
use crate::geometry::{Vec2, Vec3};
use crate::map::TileCollider;

verus! {

/// A coordinate the collision detector accepts without overflow.
pub open spec fn in_collision_range(x: int) -> bool {
    -COLLISION_POS_LIMIT <= x <= COLLISION_POS_LIMIT
}

pub open spec fn vec2_in_collision_range(v: Vec2) -> bool {
    in_collision_range(v.x as int) && in_collision_range(v.y as int)
}

pub open spec fn vec3_in_collision_range(v: Vec3) -> bool {
    in_collision_range(v.x as int) && in_collision_range(v.y as int)
}

/// A half extent the collision detector accepts: nonnegative and small
/// against the coordinate range.
pub open spec fn valid_half_extent(h: int) -> bool {
    0 <= h <= 1_000_000_000
}

/// Strict interval overlap on one axis: the open intervals
/// `(ac - ah, ac + ah)` and `(bc - bh, bc + bh)` intersect. Boxes that
/// merely touch do not overlap.
pub open spec fn axis_overlap(ac: int, ah: int, bc: int, bh: int) -> bool {
    ac - ah < bc + bh && ac + ah > bc - bh
}

/// Axis-aligned box overlap: simultaneous strict overlap on both axes.
pub open spec fn overlaps_spec(
    target_center: Vec2,
    target_half: Vec2,
    collider_center: Vec2,
    collider_half: Vec2,
) -> bool {
    &&& axis_overlap(target_center.x as int, target_half.x as int, collider_center.x as int, collider_half.x as int)
    &&& axis_overlap(target_center.y as int, target_half.y as int, collider_center.y as int, collider_half.y as int)
}

/// Stateless overlap test between a moving actor's box and one static box.
pub fn overlaps(
    target_center: Vec2,
    target_half: Vec2,
    collider_center: Vec2,
    collider_half: Vec2,
) -> (r: bool)
    requires
        vec2_in_collision_range(target_center),
        vec2_in_collision_range(collider_center),
        valid_half_extent(target_half.x as int),
        valid_half_extent(target_half.y as int),
        valid_half_extent(collider_half.x as int),
        valid_half_extent(collider_half.y as int),
    ensures
        r == overlaps_spec(target_center, target_half, collider_center, collider_half),
{
    target_center.x - target_half.x < collider_center.x + collider_half.x
        && target_center.x + target_half.x > collider_center.x - collider_half.x
        && target_center.y - target_half.y < collider_center.y + collider_half.y
        && target_center.y + target_half.y > collider_center.y - collider_half.y
}

/// Overlap between an actor box centered at `(tx, ty)` (shrunk to 95% of
/// the tile size) and the full-size tile centered at `(wx, wy)`.
pub open spec fn wall_collision_at(wx: int, wy: int, tx: int, ty: int) -> bool {
    &&& axis_overlap(tx, ACTOR_HALF_EXTENT as int, wx, TILE_HALF_EXTENT as int)
    &&& axis_overlap(ty, ACTOR_HALF_EXTENT as int, wy, TILE_HALF_EXTENT as int)
}

/// Overlap between an actor box at `target_pos` (shrunk to 95% of the tile
/// size) and the full-size tile at `wall_translation`; depth coordinates
/// are ignored.
pub open spec fn wall_collision_spec(wall_translation: Vec3, target_pos: Vec3) -> bool {
    wall_collision_at(
        wall_translation.x as int,
        wall_translation.y as int,
        target_pos.x as int,
        target_pos.y as int,
    )
}

/// Whether the actor box at `target_player_pos` collides with the solid
/// tile at `wall_translation`.
pub fn wall_collision_check(wall_translation: Vec3, target_player_pos: Vec3) -> (r: bool)
    requires
        vec3_in_collision_range(wall_translation),
        vec3_in_collision_range(target_player_pos),
    ensures
        r == wall_collision_spec(wall_translation, target_player_pos),
{
    overlaps(
        Vec2 { x: target_player_pos.x, y: target_player_pos.y },
        Vec2 { x: ACTOR_HALF_EXTENT, y: ACTOR_HALF_EXTENT },
        Vec2 { x: wall_translation.x, y: wall_translation.y },
        Vec2 { x: TILE_HALF_EXTENT, y: TILE_HALF_EXTENT },
    )
}

/// Whether the actor box centered at `(tx, ty)` collides with at least one
/// collider of the set.
pub open spec fn any_wall_collision_at(walls: Seq<TileCollider>, tx: int, ty: int) -> bool {
    exists|i: int|
        #![trigger walls[i]]
        0 <= i < walls.len() && wall_collision_at(
            walls[i].translation.x as int,
            walls[i].translation.y as int,
            tx,
            ty,
        )
}

/// Whether the actor box at `target` collides with at least one collider
/// of the set.
pub open spec fn any_wall_collision_spec(walls: Seq<TileCollider>, target: Vec3) -> bool {
    any_wall_collision_at(walls, target.x as int, target.y as int)
}

/// Every collider position is within the detector's coordinate range.
pub open spec fn walls_in_collision_range(walls: Seq<TileCollider>) -> bool {
    forall|i: int| 0 <= i < walls.len() ==> vec3_in_collision_range(#[trigger] walls[i].translation)
}

/// Test the actor box at `target` against every collider of the set,
/// stopping at the first hit.
pub fn any_wall_collision(walls: &Vec<TileCollider>, target: Vec3) -> (r: bool)
    requires
        walls_in_collision_range(walls@),
        vec3_in_collision_range(target),
    ensures
        r == any_wall_collision_spec(walls@, target),
{
    let mut i: usize = 0;
    while i < walls.len()
        invariant
            0 <= i <= walls@.len(),
            walls_in_collision_range(walls@),
            vec3_in_collision_range(target),
            forall|j: int| 0 <= j < i ==> !wall_collision_spec(#[trigger] walls@[j].translation, target),
        decreases walls@.len() - i,
    {
        if wall_collision_check(walls[i].translation, target) {
            return true;
        }
        i = i + 1;
    }
    false
}

/// The collision detector rejects every collider that the actor box
/// overlaps none of, and reports a hit for a box placed exactly at a
/// collider's center.
pub proof fn lemma_collision_detector_faithful(walls: Seq<TileCollider>, target: Vec3)
    ensures
        (forall|i: int|
            0 <= i < walls.len() ==> !wall_collision_spec(#[trigger] walls[i].translation, target))
            ==> !any_wall_collision_spec(walls, target),
        forall|i: int|
            0 <= i < walls.len() && walls[i].translation.x == target.x
                && walls[i].translation.y == target.y ==> any_wall_collision_spec(walls, target),
{
}

/// The collision detector is a pure function: any two results obtained
/// from identical arguments are identical.
pub proof fn lemma_collision_detector_idempotent(
    r1: bool,
    r2: bool,
    wall_translation: Vec3,
    target_pos: Vec3,
)
    requires
        r1 == wall_collision_spec(wall_translation, target_pos),
        r2 == wall_collision_spec(wall_translation, target_pos),
    ensures
        r1 == r2,
{
}

} // verus!
