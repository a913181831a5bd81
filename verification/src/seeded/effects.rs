use vstd::prelude::*;

use crate::seeded::sound::sounds_on_arrival;

verus! {

/// The colour of the ring that spreads when the player reaches a room.
#[derive(Debug, Clone, Copy, PartialEq, Eq, Structural)]
pub enum ArrivalEffectColor {
    /// The player's colour, for the goal room.
    Player,
    /// The colour of the maze's lines, for any other room.
    Line,
}

/// Handles the player's arrival in `room`: remembers the room and says
/// whether a ring spreads there, and in which colour. A ring spreads on
/// moving from another room into a junction, never on the first room reached.
pub fn spawn_node_arrival_particles(
    last_room: &mut Option<u64>,
    room: u64,
    room_is_junction: bool,
    solution: &Vec<u64>,
) -> (r: Option<ArrivalEffectColor>)
    requires
        sounds_on_arrival(*old(last_room), room, room_is_junction) ==> solution@.len() > 0,
    ensures
        *final(last_room) == Some(room),
        r is Some <==> sounds_on_arrival(*old(last_room), room, room_is_junction),
        r is Some ==> r == Some(
            if room == solution@.last() {
                ArrivalEffectColor::Player
            } else {
                ArrivalEffectColor::Line
            },
        ),
{
    let last = match *last_room {
        Some(last) => last,
        None => room,
    };
    *last_room = Some(room);
    if room == last || !room_is_junction {
        return None;
    }
    if room == solution[solution.len() - 1] {
        Some(ArrivalEffectColor::Player)
    } else {
        Some(ArrivalEffectColor::Line)
    }
}

} // verus!
