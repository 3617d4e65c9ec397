use vstd::prelude::*;

use crate::collision::vec3_in_collision_range;
use crate::configuration_properties::{CAMERA_OFFSET_X, CAMERA_OFFSET_Y};
use crate::geometry::Vec3;

verus! {

/// Keep the camera a fixed offset ahead of and above the player; the
/// camera's own depth coordinate is untouched. Declared to run strictly
/// after the player movement of the same tick.
pub fn camera_follow(camera_transform: &mut Vec3, player_translation: Vec3)
    requires
        vec3_in_collision_range(player_translation),
    ensures
        final(camera_transform).x == player_translation.x + CAMERA_OFFSET_X,
        final(camera_transform).y == player_translation.y + CAMERA_OFFSET_Y,
        final(camera_transform).z == old(camera_transform).z,
{
    camera_transform.x = player_translation.x + CAMERA_OFFSET_X;
    camera_transform.y = player_translation.y + CAMERA_OFFSET_Y;
}

} // verus!
