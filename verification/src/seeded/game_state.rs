use vstd::prelude::*;

verus! {

/// The screens of the seeded edition.
#[derive(Debug, Clone, Copy, PartialEq, Eq, Structural, Hash, Default)]
pub enum GameState {
    #[default]
    Loading,
    Playing,
    Victory,
}

/// The state to move to once the player stands in a room: victory when it is
/// the last room of the solution. `room` is `None` while the player is
/// between rooms.
pub fn victory_transition(room: Option<u64>, solution: &Vec<u64>) -> (r: Option<GameState>)
    requires
        solution@.len() > 0,
    ensures
        r is Some <==> room == Some(solution@.last()),
        r matches Some(s) ==> s == GameState::Victory,
{
    let final_room = solution[solution.len() - 1];
    match room {
        Some(room) => if room == final_room {
            Some(GameState::Victory)
        } else {
            None
        },
        None => None,
    }
}

} // verus!
