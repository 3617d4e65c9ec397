use vstd::prelude::*;

use crate::configuration_properties::{DT_LIMIT, EXPLOSION_FRAME_PERIOD, LAST_EXPLOSION_FRAME};
use crate::geometry::Vec3;

verus! {

/// A running explosion animation: a repeating interval timer plus the
/// index of the frame currently shown.
#[derive(Clone, Copy, Debug, PartialEq, Eq, Structural)]
pub struct Explosion {
    /// Milliseconds accumulated toward the next timer completion; always
    /// less than `EXPLOSION_FRAME_PERIOD`.
    pub elapsed_ms: i64,
    /// The animation frame currently shown, 0 through
    /// `LAST_EXPLOSION_FRAME`.
    pub frame_index: u16,
}

/// A live explosion entity: the animation state and where it plays.
#[derive(Clone, Copy, Debug, PartialEq, Eq, Structural)]
pub struct ExplosionEntity {
    pub explosion: Explosion,
    pub translation: Vec3,
}

impl Explosion {
    pub open spec fn wf(self) -> bool {
        &&& 0 <= self.elapsed_ms < EXPLOSION_FRAME_PERIOD
        &&& self.frame_index <= LAST_EXPLOSION_FRAME
    }
}

/// Every explosion of the set has a well-formed timer and frame index.
pub open spec fn explosions_wf(s: Seq<ExplosionEntity>) -> bool {
    forall|i: int| 0 <= i < s.len() ==> (#[trigger] s[i]).explosion.wf()
}

/// One timer-completion event: advance to the next animation frame, or
/// destroy the entity if the last frame was already shown.
pub open spec fn handle_next_frame_spec(e: ExplosionEntity) -> Option<ExplosionEntity> {
    if e.explosion.frame_index < LAST_EXPLOSION_FRAME {
        Some(
            ExplosionEntity {
                explosion: Explosion {
                    elapsed_ms: e.explosion.elapsed_ms,
                    frame_index: (e.explosion.frame_index + 1) as u16,
                },
                translation: e.translation,
            },
        )
    } else {
        None
    }
}

/// Switch an explosion to its next frame, or report that it is over.
pub fn handle_next_frame(e: ExplosionEntity) -> (r: Option<ExplosionEntity>)
    requires
        e.explosion.wf(),
    ensures
        r == handle_next_frame_spec(e),
{
    if e.explosion.frame_index < LAST_EXPLOSION_FRAME {
        Some(
            ExplosionEntity {
                explosion: Explosion {
                    elapsed_ms: e.explosion.elapsed_ms,
                    frame_index: e.explosion.frame_index + 1,
                },
                translation: e.translation,
            },
        )
    } else {
        None
    }
}

/// One tick of one explosion: the timer gains `dt`; if it completes, it
/// wraps (keeping the remainder, as a repeating interval timer does) and
/// one frame advance is handled — at most one per tick, however large
/// `dt` was.
pub open spec fn step_explosion_spec(e: ExplosionEntity, dt: int) -> Option<ExplosionEntity> {
    let elapsed = e.explosion.elapsed_ms + dt;
    if elapsed >= EXPLOSION_FRAME_PERIOD {
        handle_next_frame_spec(
            ExplosionEntity {
                explosion: Explosion {
                    elapsed_ms: (elapsed % (EXPLOSION_FRAME_PERIOD as int)) as i64,
                    frame_index: e.explosion.frame_index,
                },
                translation: e.translation,
            },
        )
    } else {
        Some(
            ExplosionEntity {
                explosion: Explosion {
                    elapsed_ms: elapsed as i64,
                    frame_index: e.explosion.frame_index,
                },
                translation: e.translation,
            },
        )
    }
}

/// Advance one explosion's timer by `dt` milliseconds.
pub fn step_explosion(e: ExplosionEntity, dt: i64) -> (r: Option<ExplosionEntity>)
    requires
        e.explosion.wf(),
        0 <= dt <= DT_LIMIT,
    ensures
        r == step_explosion_spec(e, dt as int),
        r.is_some() ==> r.unwrap().explosion.wf(),
{
    let elapsed = e.explosion.elapsed_ms + dt;
    if elapsed >= EXPLOSION_FRAME_PERIOD {
        let wrapped = ExplosionEntity {
            explosion: Explosion {
                elapsed_ms: elapsed % EXPLOSION_FRAME_PERIOD,
                frame_index: e.explosion.frame_index,
            },
            translation: e.translation,
        };
        handle_next_frame(wrapped)
    } else {
        Some(
            ExplosionEntity {
                explosion: Explosion { elapsed_ms: elapsed, frame_index: e.explosion.frame_index },
                translation: e.translation,
            },
        )
    }
}

/// One tick over a whole set of explosions, each with its own independent
/// timer: the survivors, in order, each stepped by `dt`.
pub open spec fn animate_all_spec(s: Seq<ExplosionEntity>, dt: int) -> Seq<ExplosionEntity>
    decreases s.len(),
{
    if s.len() == 0 {
        Seq::empty()
    } else {
        let rest = animate_all_spec(s.drop_last(), dt);
        match step_explosion_spec(s.last(), dt) {
            Some(e) => rest.push(e),
            None => rest,
        }
    }
}

/// Advance every live explosion's timer by `dt`; an explosion whose last
/// frame has played is removed.
pub fn animate_frames(explosions: &mut Vec<ExplosionEntity>, dt: i64)
    requires
        explosions_wf(old(explosions)@),
        0 <= dt <= DT_LIMIT,
    ensures
        final(explosions)@ == animate_all_spec(old(explosions)@, dt as int),
        explosions_wf(final(explosions)@),
{
    let ghost orig = explosions@;
    let mut out: Vec<ExplosionEntity> = Vec::new();
    let mut i: usize = 0;
    while i < explosions.len()
        invariant
            0 <= i <= orig.len(),
            explosions@ == orig,
            explosions_wf(orig),
            0 <= dt <= DT_LIMIT,
            out@ == animate_all_spec(orig.take(i as int), dt as int),
            explosions_wf(out@),
        decreases orig.len() - i,
    {
        proof {
            assert(orig.take(i + 1).drop_last() =~= orig.take(i as int));
            assert(orig.take(i + 1).last() == orig[i as int]);
        }
        match step_explosion(explosions[i], dt) {
            Some(e) => {
                out.push(e);
            },
            None => {},
        }
        i = i + 1;
    }
    proof {
        assert(orig.take(orig.len() as int) =~= orig);
    }
    *explosions = out;
}

/// A tick of exactly one timer period on an explosion whose timer just
/// wrapped is exactly one timer-completion event.
pub proof fn lemma_period_tick_is_one_completion(e: ExplosionEntity)
    requires
        e.explosion.elapsed_ms == 0,
    ensures
        step_explosion_spec(e, EXPLOSION_FRAME_PERIOD as int) == handle_next_frame_spec(e),
{
    assert(ExplosionEntity {
        explosion: Explosion {
            elapsed_ms: ((0 + EXPLOSION_FRAME_PERIOD) % (EXPLOSION_FRAME_PERIOD as int)) as i64,
            frame_index: e.explosion.frame_index,
        },
        translation: e.translation,
    } == e);
}

/// The state of a fresh explosion after `n` timer-completion events.
pub open spec fn after_completions(e: ExplosionEntity, n: nat) -> Option<ExplosionEntity>
    decreases n,
{
    if n == 0 {
        Some(e)
    } else {
        match after_completions(e, (n - 1) as nat) {
            Some(prev) => handle_next_frame_spec(prev),
            None => None,
        }
    }
}

/// The explosion lifecycle terminates: a freshly spawned explosion shows
/// frame `n` after `n` completions up to the last frame, and the next
/// completion — the eighth — destroys the entity, after which it never
/// returns.
pub proof fn lemma_explosion_lifecycle(e: ExplosionEntity, n: nat)
    requires
        e.explosion.frame_index == 0,
    ensures
        n <= LAST_EXPLOSION_FRAME ==> (after_completions(e, n).is_some() && after_completions(
            e,
            n,
        ).unwrap().explosion.frame_index == n),
        n > LAST_EXPLOSION_FRAME ==> after_completions(e, n).is_none(),
    decreases n,
{
    if n > 0 {
        lemma_explosion_lifecycle(e, (n - 1) as nat);
    }
}

} // verus!
