use rustiarti::explosion::{animate_frames, handle_next_frame, step_explosion, Explosion, ExplosionEntity};
use rustiarti::geometry::Vec3;

fn fresh_at(x: i64) -> ExplosionEntity {
    ExplosionEntity {
        explosion: Explosion { elapsed_ms: 0, frame_index: 0 },
        translation: Vec3 { x, y: 0, z: 200_000 },
    }
}

#[test]
fn eight_completions_end_the_explosion() {
    // The lifecycle terminates: after exactly 8 timer completions — one
    // per 70 ms tick here — the entity no longer exists.
    let mut explosions = vec![fresh_at(0)];
    for completed in 1..=7 {
        animate_frames(&mut explosions, 70);
        assert_eq!(explosions.len(), 1, "alive before the eighth completion");
        assert_eq!(explosions[0].explosion.frame_index, completed);
    }
    animate_frames(&mut explosions, 70);
    assert!(explosions.is_empty(), "gone after the eighth completion");
}

#[test]
fn timer_accumulates_and_keeps_remainder() {
    let mut explosions = vec![fresh_at(0)];
    // 30 + 30 ms stay below the 70 ms period: no frame advance yet.
    animate_frames(&mut explosions, 30);
    animate_frames(&mut explosions, 30);
    assert_eq!(explosions[0].explosion.frame_index, 0);
    assert_eq!(explosions[0].explosion.elapsed_ms, 60);
    // 30 more complete the period; 20 ms remain on the repeating timer.
    animate_frames(&mut explosions, 30);
    assert_eq!(explosions[0].explosion.frame_index, 1);
    assert_eq!(explosions[0].explosion.elapsed_ms, 20);
}

#[test]
fn one_frame_advance_per_tick_at_most() {
    // However large the tick, the animation advances by a single frame.
    let mut explosions = vec![fresh_at(0)];
    animate_frames(&mut explosions, 700);
    assert_eq!(explosions.len(), 1);
    assert_eq!(explosions[0].explosion.frame_index, 1);
    assert_eq!(explosions[0].explosion.elapsed_ms, 0);
}

#[test]
fn simultaneous_explosions_are_independent() {
    // Each explosion has its own timer; no shared animation clock.
    let mut explosions = vec![
        fresh_at(0),
        ExplosionEntity {
            explosion: Explosion { elapsed_ms: 0, frame_index: 7 },
            translation: Vec3 { x: 500, y: 0, z: 200_000 },
        },
        ExplosionEntity {
            explosion: Explosion { elapsed_ms: 50, frame_index: 3 },
            translation: Vec3 { x: 900, y: 0, z: 200_000 },
        },
    ];
    animate_frames(&mut explosions, 70);
    // The first advanced, the finished one was removed, the third — whose
    // timer had a head start — advanced and kept its remainder.
    assert_eq!(explosions.len(), 2);
    assert_eq!(explosions[0].translation.x, 0);
    assert_eq!(explosions[0].explosion.frame_index, 1);
    assert_eq!(explosions[1].translation.x, 900);
    assert_eq!(explosions[1].explosion.frame_index, 4);
    assert_eq!(explosions[1].explosion.elapsed_ms, 50);
}

#[test]
fn last_frame_completion_despawns() {
    let at_last = ExplosionEntity {
        explosion: Explosion { elapsed_ms: 69, frame_index: 7 },
        translation: Vec3 { x: 0, y: 0, z: 200_000 },
    };
    assert_eq!(step_explosion(at_last, 1), None);
    assert!(handle_next_frame(at_last).is_none());
    // Below the last frame, a completion advances instead.
    let mid = ExplosionEntity {
        explosion: Explosion { elapsed_ms: 69, frame_index: 2 },
        translation: Vec3 { x: 0, y: 0, z: 200_000 },
    };
    let stepped = step_explosion(mid, 1).expect("still animating");
    assert_eq!(stepped.explosion.frame_index, 3);
    assert_eq!(stepped.explosion.elapsed_ms, 0);
}
