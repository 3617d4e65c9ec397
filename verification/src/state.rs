use vstd::prelude::*;

verus! {

/// Top-level game mode: the simulation systems run only in combat.
#[derive(Clone, Copy, Debug, PartialEq, Eq, Hash, Structural)]
pub enum MainGameState {
    MENU,
    COMBAT,
}

/// Whether a live projectile currently exists. `NA` goes to `PRESENT` on a
/// successful fire and back to `NA` when the projectile is removed on
/// impact, so at most one projectile is live at a time.
#[derive(Clone, Copy, Debug, PartialEq, Eq, Hash, Structural)]
pub enum ProjectilePresent {
    PRESENT,
    NA,
}

} // verus!
