use vstd::prelude::*;

use crate::game_save::LevelIndex;
use crate::maze::mesh::{room_pair_set, spec_room_pairs};
use crate::seeded::game_save::{level_melody_contents, LevelMelodyMap};

verus! {

/// The passages walked by the melody found in the level: each room paired
/// with the next, each pair once; none when no melody has been found there.
pub fn make_room_pairs_from_discovered_melodies(
    current_level_index: LevelIndex,
    discovered_melodies: &LevelMelodyMap,
) -> (r: Vec<(u64, u64)>)
    ensures
        level_melody_contents(*discovered_melodies).contains_key(current_level_index) ==> r@.to_set()
            == spec_room_pairs(level_melody_contents(*discovered_melodies)[current_level_index].room_ids).to_set(),
        !level_melody_contents(*discovered_melodies).contains_key(current_level_index) ==> r@.len() == 0,
        r@.no_duplicates(),
{
    match discovered_melodies.get(current_level_index) {
        Some(melody) => room_pair_set(&melody.room_ids),
        None => Vec::new(),
    }
}

/// The material of a junction room of a seeded level.
#[derive(Debug, Clone, Copy, PartialEq, Eq, Structural)]
pub enum RoomMaterial {
    /// The goal room.
    Goal,
    /// A room of the melody found in the level: it pulses.
    BrightPulsingLine,
    /// Any other junction room.
    Line,
}

/// The material of a junction room: the goal first, then rooms of the found
/// melody.
pub fn junction_room_material(is_goal_node: bool, is_discovered_melody_room: bool) -> (r: RoomMaterial)
    ensures
        is_goal_node ==> r == RoomMaterial::Goal,
        !is_goal_node && is_discovered_melody_room ==> r == RoomMaterial::BrightPulsingLine,
        !is_goal_node && !is_discovered_melody_room ==> r == RoomMaterial::Line,
{
    if is_goal_node {
        RoomMaterial::Goal
    } else if is_discovered_melody_room {
        RoomMaterial::BrightPulsingLine
    } else {
        RoomMaterial::Line
    }
}

} // verus!
