use vstd::prelude::*;

verus! {

/// The screens of the game.
#[derive(Debug, Clone, Copy, PartialEq, Eq, Structural, Hash, Default)]
pub enum GameState {
    #[default]
    Setup,
    Selector,
    Menu,
    LoadingRemoteLevel,
    Puzzle,
}

/// The stages of a puzzle.
#[derive(Debug, Clone, Copy, PartialEq, Eq, Structural, Hash, Default)]
pub enum PuzzleState {
    #[default]
    Loading,
    Playing,
    Victory,
}

/// Whether the player standing in `room` has reached the goal, the last room
/// of the solution.
pub fn victory_transition(room: u64, solution: &Vec<u64>) -> (r: Option<PuzzleState>)
    requires
        solution@.len() > 0,
    ensures
        r is Some <==> room == solution@.last(),
        r matches Some(s) ==> s == PuzzleState::Victory,
{
    let final_room = solution[solution.len() - 1];
    if room == final_room {
        Some(PuzzleState::Victory)
    } else {
        None
    }
}

} // verus!
