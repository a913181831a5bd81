use vstd::prelude::*;

verus! {

/// What the player does once a puzzle is solved.
#[derive(Debug, Clone, Copy, PartialEq, Eq, Structural, Hash, Default)]
pub enum VictoryState {
    #[default]
    Idle,
    Viewing,
}

/// After a victory, the player views the solid while pressing, and is idle
/// otherwise.
pub fn update_state(pressed: bool) -> (r: VictoryState)
    ensures
        pressed ==> r == VictoryState::Viewing,
        !pressed ==> r == VictoryState::Idle,
{
    if pressed {
        VictoryState::Viewing
    } else {
        VictoryState::Idle
    }
}

} // verus!
