use vstd::prelude::*;

use crate::game_save::WorkingLevelIndex;
use crate::game_state::GameState;

verus! {

/// The first screen of a session: the level selector once a level has been
/// completed, the first puzzle otherwise.
pub fn setup(working_level_index: &WorkingLevelIndex) -> (r: GameState)
    ensures
        working_level_index.0 > 0 ==> r == GameState::Selector,
        working_level_index.0 == 0 ==> r == GameState::Puzzle,
{
    if working_level_index.0 > 0 {
        GameState::Selector
    } else {
        GameState::Puzzle
    }
}

} // verus!
