use rustiarti::collision::{any_wall_collision, overlaps, wall_collision_check};
use rustiarti::geometry::{Vec2, Vec3};
use rustiarti::map::TileCollider;

fn v3(x: i64, y: i64, z: i64) -> Vec3 {
    Vec3 { x, y, z }
}

#[test]
fn overlap_requires_both_axes() {
    let half = Vec2 { x: 500, y: 500 };
    // Overlapping on x only is no hit; overlapping on both is.
    assert!(!overlaps(Vec2 { x: 100, y: 5000 }, half, Vec2 { x: 0, y: 0 }, half));
    assert!(!overlaps(Vec2 { x: 5000, y: 100 }, half, Vec2 { x: 0, y: 0 }, half));
    assert!(overlaps(Vec2 { x: 100, y: 100 }, half, Vec2 { x: 0, y: 0 }, half));
}

#[test]
fn touching_boxes_do_not_overlap() {
    let half = Vec2 { x: 500, y: 500 };
    // Boxes that exactly share an edge merely touch.
    assert!(!overlaps(Vec2 { x: 1000, y: 0 }, half, Vec2 { x: 0, y: 0 }, half));
    assert!(overlaps(Vec2 { x: 999, y: 0 }, half, Vec2 { x: 0, y: 0 }, half));
}

#[test]
fn wall_collision_boundary_is_strict() {
    // Actor half extent 9500 plus tile half extent 10000: the boxes
    // overlap only strictly inside a distance of 19500.
    let wall = v3(0, 0, 0);
    assert!(wall_collision_check(wall, v3(19_499, 0, 0)));
    assert!(!wall_collision_check(wall, v3(19_500, 0, 0)));
    assert!(wall_collision_check(wall, v3(0, -19_499, 0)));
    assert!(!wall_collision_check(wall, v3(0, -19_500, 0)));
}

#[test]
fn depth_coordinate_is_ignored() {
    let wall = v3(0, 0, 100_000);
    assert!(wall_collision_check(wall, v3(0, 0, 999_999)));
}

#[test]
fn actor_at_collider_center_always_hits() {
    // An actor box placed exactly at a collider's center overlaps it.
    let walls = vec![
        TileCollider { translation: v3(-40_000, 0, 0) },
        TileCollider { translation: v3(123_000, -456_000, 0) },
    ];
    assert!(any_wall_collision(&walls, v3(123_000, -456_000, 0)));
    assert!(any_wall_collision(&walls, v3(-40_000, 0, 0)));
}

#[test]
fn clear_box_hits_no_collider() {
    // A box overlapping none of the set is rejected against every element.
    let walls = vec![
        TileCollider { translation: v3(0, 0, 0) },
        TileCollider { translation: v3(20_000, 0, 0) },
        TileCollider { translation: v3(40_000, 0, 0) },
    ];
    let clear = v3(0, 100_000, 0);
    for wall in &walls {
        assert!(!wall_collision_check(wall.translation, clear));
    }
    assert!(!any_wall_collision(&walls, clear));
    assert!(!any_wall_collision(&Vec::new(), clear));
}

#[test]
fn detector_is_idempotent() {
    // A pure function: identical arguments give identical results.
    let wall = v3(7_000, -3_000, 0);
    let target = v3(11_000, -9_000, 0);
    let first = wall_collision_check(wall, target);
    let second = wall_collision_check(wall, target);
    assert_eq!(first, second);
    let walls = vec![TileCollider { translation: wall }];
    assert_eq!(any_wall_collision(&walls, target), any_wall_collision(&walls, target));
}
