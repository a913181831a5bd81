use vstd::prelude::*;

use crate::game_save::PuzzleIdentifier;
use crate::shape::shape_loader::{lemma_push_to_set, BorderType};

verus! {

/// The consecutive pairs of rooms of a discovered melody, in order.
pub open spec fn spec_room_pairs(room_ids: Seq<u64>) -> Seq<(u64, u64)> {
    if room_ids.len() == 0 {
        Seq::empty()
    } else {
        Seq::new((room_ids.len() - 1) as nat, |i: int| (room_ids[i], room_ids[i + 1]))
    }
}

/// Whether `pairs` holds `pair`.
fn contains_pair(pairs: &Vec<(u64, u64)>, pair: (u64, u64)) -> (r: bool)
    ensures
        r == pairs@.contains(pair),
{
    let mut i: usize = 0;
    while i < pairs.len()
        invariant
            i <= pairs@.len(),
            forall|j: int| 0 <= j < i ==> pairs@[j] != pair,
        decreases pairs@.len() - i,
    {
        let (a, b) = pairs[i];
        if a == pair.0 && b == pair.1 {
            assert(pairs@[i as int] == pair);
            return true;
        }
        i = i + 1;
    }
    false
}

/// The pairs of consecutive rooms of `room_ids`, each once, in the order they
/// first occur.
pub(crate) fn room_pair_set(room_ids: &Vec<u64>) -> (r: Vec<(u64, u64)>)
    ensures
        r@.to_set() == spec_room_pairs(room_ids@).to_set(),
        r@.no_duplicates(),
{
    let mut pairs: Vec<(u64, u64)> = Vec::new();
    if room_ids.len() == 0 {
        assert(pairs@.to_set() =~= spec_room_pairs(room_ids@).to_set());
        return pairs;
    }
    let last = room_ids.len() - 1;
    let mut i: usize = 0;
    assert(pairs@.to_set() =~= Seq::new(0, |j: int| (room_ids@[j], room_ids@[j + 1])).to_set());
    while i < last
        invariant
            room_ids@.len() > 0,
            last == room_ids@.len() - 1,
            i <= last,
            pairs@.no_duplicates(),
            pairs@.to_set() == Seq::new(i as nat, |j: int| (room_ids@[j], room_ids@[j + 1])).to_set(),
        decreases last - i,
    {
        let pair = (room_ids[i], room_ids[i + 1]);
        let ghost before = pairs@;
        let ghost prefix = Seq::new(i as nat, |j: int| (room_ids@[j], room_ids@[j + 1]));
        let ghost next = Seq::new((i + 1) as nat, |j: int| (room_ids@[j], room_ids@[j + 1]));
        proof {
            assert(next =~= prefix.push(pair));
            lemma_push_to_set(prefix, pair);
        }
        if !contains_pair(&pairs, pair) {
            pairs.push(pair);
            proof {
                lemma_push_to_set(before, pair);
            }
        } else {
            assert(before.to_set().contains(pair));
            assert(before.to_set().insert(pair) =~= before.to_set());
        }
        i = i + 1;
    }
    assert(Seq::new(last as nat, |j: int| (room_ids@[j], room_ids@[j + 1])) =~= spec_room_pairs(room_ids@));
    pairs
}

/// The passages walked by a discovered melody: each room paired with the
/// next, each pair once.
pub fn make_room_pairs_from_discovered_melodies(
    current_puzzle_identifier: &PuzzleIdentifier,
    melody_room_ids: &Vec<u64>,
) -> (r: Vec<(u64, u64)>)
    ensures
        r@.to_set() == spec_room_pairs(melody_room_ids@).to_set(),
        r@.no_duplicates(),
{
    room_pair_set(melody_room_ids)
}

/// Whether the passage between the two rooms, in either direction, belongs
/// to a discovered melody.
pub fn passage_discovered(pairs: &Vec<(u64, u64)>, source: u64, target: u64) -> (r: bool)
    ensures
        r == (pairs@.contains((source, target)) || pairs@.contains((target, source))),
{
    let mut i: usize = 0;
    while i < pairs.len()
        invariant
            i <= pairs@.len(),
            forall|j: int| 0 <= j < i ==> pairs@[j] != (source, target) && pairs@[j] != (target, source),
        decreases pairs@.len() - i,
    {
        let (a, b) = pairs[i];
        if (a == source && b == target) || (a == target && b == source) {
            assert(pairs@[i as int] == (source, target) || pairs@[i as int] == (target, source));
            return true;
        }
        i = i + 1;
    }
    false
}

/// The position in the melody of a room of a discovered melody: the last
/// position at which it occurs.
pub fn melody_index_of(melody_room_ids: &Vec<u64>, room_id: u64) -> (r: Option<usize>)
    ensures
        r is None <==> !melody_room_ids@.contains(room_id),
        r matches Some(i) ==> i < melody_room_ids@.len() && melody_room_ids@[i as int] == room_id
            && forall|j: int| i < j < melody_room_ids@.len() ==> melody_room_ids@[j] != room_id,
{
    let mut i: usize = melody_room_ids.len();
    while i > 0
        invariant
            i <= melody_room_ids@.len(),
            forall|j: int| i <= j < melody_room_ids@.len() ==> melody_room_ids@[j] != room_id,
        decreases i,
    {
        if melody_room_ids[i - 1] == room_id {
            return Some(i - 1);
        }
        i = i - 1;
    }
    None
}

/// The material of a junction room.
#[derive(Debug, Clone, Copy, PartialEq, Eq, Structural)]
pub enum RoomMaterial {
    /// The goal room.
    Goal,
    /// A room of a discovered melody, at the given position in the melody.
    MelodyNote(usize),
    /// Any other junction room.
    Line,
}

/// The material of a junction room: the goal first, then rooms of a
/// discovered melody.
pub fn junction_room_material(is_goal_room: bool, melody_index: Option<usize>) -> (r: RoomMaterial)
    ensures
        is_goal_room ==> r == RoomMaterial::Goal,
        !is_goal_room ==> (melody_index matches Some(i) ==> r == RoomMaterial::MelodyNote(i)),
        !is_goal_room && melody_index is None ==> r == RoomMaterial::Line,
{
    match (is_goal_room, melody_index) {
        (true, _) => RoomMaterial::Goal,
        (false, Some(i)) => RoomMaterial::MelodyNote(i),
        (false, None) => RoomMaterial::Line,
    }
}

/// The material of each junction room of the maze, room by room: the goal,
/// then the rooms of a discovered melody, marked with their last position in
/// the melody, then plain rooms.
pub fn junction_room_materials(junction_rooms: &Vec<u64>, goal_room: u64, melody_room_ids: &Vec<u64>) -> (r: Vec<RoomMaterial>)
    ensures
        r@.len() == junction_rooms@.len(),
        forall|i: int|
            0 <= i < r@.len() ==> {
                let room = junction_rooms@[i];
                &&& room == goal_room ==> #[trigger] r@[i] == RoomMaterial::Goal
                &&& room != goal_room && !melody_room_ids@.contains(room) ==> r@[i] == RoomMaterial::Line
                &&& room != goal_room && melody_room_ids@.contains(room) ==> (r@[i] matches RoomMaterial::MelodyNote(k)
                    && k < melody_room_ids@.len() && melody_room_ids@[k as int] == room
                    && forall|j: int| k < j < melody_room_ids@.len() ==> melody_room_ids@[j] != room)
            },
{
    let mut materials: Vec<RoomMaterial> = Vec::new();
    let mut i: usize = 0;
    while i < junction_rooms.len()
        invariant
            i <= junction_rooms@.len(),
            materials@.len() == i,
            forall|j: int|
                0 <= j < i ==> {
                    let room = junction_rooms@[j];
                    &&& room == goal_room ==> #[trigger] materials@[j] == RoomMaterial::Goal
                    &&& room != goal_room && !melody_room_ids@.contains(room) ==> materials@[j] == RoomMaterial::Line
                    &&& room != goal_room && melody_room_ids@.contains(room) ==> (materials@[j] matches RoomMaterial::MelodyNote(k)
                        && k < melody_room_ids@.len() && melody_room_ids@[k as int] == room
                        && forall|l: int| k < l < melody_room_ids@.len() ==> melody_room_ids@[l] != room)
                },
        decreases junction_rooms@.len() - i,
    {
        let room = junction_rooms[i];
        let material = junction_room_material(room == goal_room, melody_index_of(melody_room_ids, room));
        materials.push(material);
        i = i + 1;
    }
    materials
}

/// The mesh of a passage of the maze.
#[derive(Debug, Clone, Copy, PartialEq, Eq, Structural)]
pub enum EdgeMesh {
    SameFace,
    OneWaySameFace,
    CrossFace,
    OneWayCrossFace,
}

/// The material of a passage of the maze.
#[derive(Debug, Clone, Copy, PartialEq, Eq, Structural)]
pub enum EdgeMaterial {
    BrightDashedArrow,
    DashedArrow,
    BrightLine,
    Line,
}

/// How a passage from `source_id` to `target_id` is drawn. A passage that
/// runs both ways is drawn once, from the room with the larger id; one-way
/// passages are drawn as arrows, and passages of a discovered melody shine.
pub open spec fn spec_edge_drawing(
    source_id: u64,
    target_id: u64,
    bidirectional: bool,
    border_type: BorderType,
    discovered: bool,
) -> Option<(EdgeMesh, EdgeMaterial)> {
    if bidirectional && source_id < target_id {
        None
    } else {
        let mesh = match (border_type, bidirectional) {
            (BorderType::SameFace, true) => EdgeMesh::SameFace,
            (BorderType::SameFace, false) => EdgeMesh::OneWaySameFace,
            (BorderType::Connected, true) => EdgeMesh::CrossFace,
            (BorderType::Connected, false) => EdgeMesh::OneWayCrossFace,
        };
        let material = match (bidirectional, discovered) {
            (false, true) => EdgeMaterial::BrightDashedArrow,
            (false, false) => EdgeMaterial::DashedArrow,
            (true, true) => EdgeMaterial::BrightLine,
            (true, false) => EdgeMaterial::Line,
        };
        Some((mesh, material))
    }
}

/// How a passage of the maze is drawn; `None` when it is left to its reverse.
pub fn edge_drawing(
    source_id: u64,
    target_id: u64,
    bidirectional: bool,
    border_type: BorderType,
    discovered: bool,
) -> (r: Option<(EdgeMesh, EdgeMaterial)>)
    ensures
        r == spec_edge_drawing(source_id, target_id, bidirectional, border_type, discovered),
{
    if bidirectional && source_id < target_id {
        return None;
    }
    let mesh = match (border_type, bidirectional) {
        (BorderType::SameFace, true) => EdgeMesh::SameFace,
        (BorderType::SameFace, false) => EdgeMesh::OneWaySameFace,
        (BorderType::Connected, true) => EdgeMesh::CrossFace,
        (BorderType::Connected, false) => EdgeMesh::OneWayCrossFace,
    };
    let material = match (bidirectional, discovered) {
        (false, true) => EdgeMaterial::BrightDashedArrow,
        (false, false) => EdgeMaterial::DashedArrow,
        (true, true) => EdgeMaterial::BrightLine,
        (true, false) => EdgeMaterial::Line,
    };
    Some((mesh, material))
}

/// A passage that runs both ways is drawn exactly once.
pub proof fn lemma_two_way_passage_drawn_once(
    a: u64,
    b: u64,
    border_type: BorderType,
    discovered: bool,
)
    requires
        a != b,
    ensures
        spec_edge_drawing(a, b, true, border_type, discovered) is Some
            != spec_edge_drawing(b, a, true, border_type, discovered) is Some,
{
}

/// How a passage is drawn follows from what it is, never from the order of
/// the table: a passage is left out exactly when it is the smaller-id
/// direction of a two-way passage; a drawn passage's mesh is a same-face mesh
/// exactly when its rooms share a face and an arrow exactly when it is
/// one-way, whether or not it is discovered; and its material is bright
/// exactly when it belongs to a discovered melody and an arrow exactly when
/// it is one-way, whatever the border between its faces.
pub proof fn lemma_passage_drawing_follows_the_passage(
    source_id: u64,
    target_id: u64,
    bidirectional: bool,
    border_type: BorderType,
    discovered: bool,
)
    ensures
        spec_edge_drawing(source_id, target_id, bidirectional, border_type, discovered) is None
            <==> (bidirectional && source_id < target_id),
        spec_edge_drawing(source_id, target_id, bidirectional, border_type, discovered) matches Some((mesh, material))
            ==> {
            &&& (mesh == EdgeMesh::SameFace || mesh == EdgeMesh::OneWaySameFace) <==> border_type == BorderType::SameFace
            &&& (mesh == EdgeMesh::OneWaySameFace || mesh == EdgeMesh::OneWayCrossFace) <==> !bidirectional
            &&& (material == EdgeMaterial::BrightLine || material == EdgeMaterial::BrightDashedArrow) <==> discovered
            &&& (material == EdgeMaterial::DashedArrow || material == EdgeMaterial::BrightDashedArrow) <==> !bidirectional
            &&& spec_edge_drawing(source_id, target_id, bidirectional, BorderType::SameFace, discovered) matches Some(
                same_face,
            ) && same_face.1 == material
            &&& spec_edge_drawing(source_id, target_id, bidirectional, BorderType::Connected, discovered) matches Some(
                cross_face,
            ) && cross_face.1 == material
            &&& spec_edge_drawing(source_id, target_id, bidirectional, border_type, !discovered) matches Some(
                other,
            ) && other.0 == mesh
        },
{
}

} // verus!
