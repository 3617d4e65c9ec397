use vstd::prelude::*;

verus! {

/// The keys the simulation reads, polled once per tick. Each flag is the
/// level-triggered "currently held" state of one key; no debouncing is
/// applied.
#[derive(Clone, Copy, Debug, PartialEq, Eq, Structural)]
pub struct InputState {
    pub move_left: bool,
    pub move_right: bool,
    pub aim_up: bool,
    pub aim_down: bool,
    pub fire: bool,
}

impl InputState {
    /// No key held.
    pub fn released() -> (r: InputState)
        ensures
            r == (InputState {
                move_left: false,
                move_right: false,
                aim_up: false,
                aim_down: false,
                fire: false,
            }),
    {
        InputState { move_left: false, move_right: false, aim_up: false, aim_down: false, fire: false }
    }
}

} // verus!
