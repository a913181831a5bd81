use mazonic::seeded::controller::{idle, move_player_on_edge, solve, view, ControllerState, EdgeSnap};
use mazonic::seeded::game_save::{
    setup_save_data, update_save_data, CurrentLevelIndex, DiscoveredMelodies, DiscoveredMelody, GameSave,
    LevelIndexSet, LevelMelodyMap, PerfectScoreLevelIndices, WorkingLevelIndex,
};
use mazonic::seeded::effects::{spawn_node_arrival_particles, ArrivalEffectColor};
use mazonic::seeded::face_colors::face_color_indices;
use mazonic::seeded::game_state::{victory_transition, GameState};
use mazonic::seeded::level_selector::{
    face_material, load, selection_overlay, selector_edges, set_selector_state,
    shape_symbol_coordinate, update_interactables, FaceMaterial, OverlayMaterial, SelectableFace,
    SelectableLevel, SelectorOverlayState, SelectorState,
};
use mazonic::seeded::maze::{junction_room_material, make_room_pairs_from_discovered_melodies, RoomMaterial};
use mazonic::seeded::levels::{levels, GameLevel, Shape, LEVEL_COUNT};
use mazonic::shape::shape_loader::BorderType;
use chacha20poly1305::aead::generic_array::GenericArray;
use chacha20poly1305::aead::Aead;
use chacha20poly1305::{ChaCha20Poly1305, Key, KeyInit};
use serde::ser::{Serialize, SerializeStruct, Serializer};
use sha2::Digest;

use mazonic::seeded::sound::{
    check_melody_solved, hash_melody, play_note, serialize_notes, try_decrypt_melody, Melody,
    MelodyPuzzleTracker, Note, Notes,
};

#[test]
fn seeded_level_filenames_name_shape_seed_and_size() {
    assert_eq!(GameLevel::cube(2, 2).filename(), "levels/cube_s2_n2.json");
    assert_eq!(GameLevel::tetrahedron(1, 1).filename(), "levels/tetrahedron_s1_n1.json");
    assert_eq!(GameLevel::dodecahedron(1).filename(), "levels/dodecahedron_s1_n1.json");
    assert_eq!(
        GameLevel::icosahedron(5, 18446744073709551615).filename(),
        "levels/icosahedron_s18446744073709551615_n5.json"
    );
    assert_eq!(GameLevel::octahedron(255, 0).filename(), "levels/octahedron_s0_n255.json");
}

#[test]
fn seeded_levels_table() {
    let table = levels();
    assert_eq!(table.len(), LEVEL_COUNT);
    assert_eq!(LEVEL_COUNT, 20);
    assert_eq!(table[0], GameLevel::new(1, Shape::Tetrahedron, 1));
    assert_eq!(table[19], GameLevel::new(0, Shape::Icosahedron, 5));
    assert_eq!(table[3].filename(), "levels/dodecahedron_s1_n1.json");
}

#[test]
fn seeded_border_types() {
    let level = GameLevel::tetrahedron(3, 0);
    assert_eq!(level.border_type(0, 1), Some(BorderType::Connected));
    assert_eq!(level.border_type(1, 1), Some(BorderType::SameFace));
    let cube = GameLevel::cube(3, 0);
    assert_eq!(cube.border_type(0, 5), None);
}

#[test]
fn default_save_starts_at_level_three() {
    let save = GameSave::default();
    assert_eq!(save.current_index, 3);
    assert_eq!(save.completed_index, 19);
    assert!(!save.perfect_score_level_indices.contains(0));
    assert!(save.discovered_melodies.get(0).is_none());
}

#[test]
fn setup_uses_the_save_that_was_read() {
    let mut perfect = LevelIndexSet::new();
    perfect.insert(2);
    let save = GameSave {
        current_index: 4,
        completed_index: 6,
        perfect_score_level_indices: perfect,
        discovered_melodies: LevelMelodyMap::new(),
    };
    let (current, working, perfect, melodies) = setup_save_data(Some(save));
    assert_eq!(current.0, 4);
    assert_eq!(working.0, 6);
    assert!(perfect.0.contains(2));
    assert!(!perfect.0.contains(3));
    assert!(melodies.get_room_ids_for_level(4).is_empty());
}

#[test]
fn setup_without_a_save_uses_the_default() {
    let (current, working, perfect, _) = setup_save_data(None);
    assert_eq!(current.0, 3);
    assert_eq!(working.0, 19);
    assert!(!perfect.0.contains(3));
}

#[test]
fn a_save_is_written_only_when_something_changed() {
    let current = CurrentLevelIndex(2);
    let working = WorkingLevelIndex(5);
    let mut set = LevelIndexSet::new();
    set.insert(1);
    let perfect = PerfectScoreLevelIndices(set);
    let melodies = DiscoveredMelodies(LevelMelodyMap::new());
    assert!(update_save_data(&current, &working, &perfect, &melodies, false).is_none());
    let save = update_save_data(&current, &working, &perfect, &melodies, true).unwrap();
    assert_eq!(save.current_index, 2);
    assert_eq!(save.completed_index, 5);
    assert!(save.perfect_score_level_indices.contains(1));
}

#[test]
fn saved_sets_and_maps_are_rebuilt_from_their_entries() {
    let set = LevelIndexSet::from_indices(&vec![4, 1, 4]);
    assert!(set.contains(1));
    assert!(set.contains(4));
    assert!(!set.contains(2));
    let map = LevelMelodyMap::from_entries(vec![
        (2, DiscoveredMelody { melody: tune(), room_ids: vec![1] }),
        (5, DiscoveredMelody { melody: tune(), room_ids: vec![2] }),
        (2, DiscoveredMelody { melody: tune(), room_ids: vec![3] }),
    ]);
    assert_eq!(map.get(2).unwrap().room_ids, vec![3]);
    assert_eq!(map.get(5).unwrap().room_ids, vec![2]);
    assert!(map.get(1).is_none());
}

#[test]
fn melody_rooms_are_listed_once_each() {
    let map = LevelMelodyMap::from_entries(vec![(
        1,
        DiscoveredMelody { melody: tune(), room_ids: vec![7, 3, 7, 9, 3] },
    )]);
    let melodies = DiscoveredMelodies(map);
    let mut rooms = melodies.get_room_ids_for_level(1);
    rooms.sort();
    assert_eq!(rooms, vec![3, 7, 9]);
    assert!(melodies.get_room_ids_for_level(2).is_empty());
}

#[test]
fn seeded_victory_only_in_the_last_room() {
    let solution = vec![1, 5, 9];
    assert_eq!(victory_transition(Some(9), &solution), Some(GameState::Victory));
    assert_eq!(victory_transition(Some(5), &solution), None);
    assert_eq!(victory_transition(None, &solution), None);
}

#[test]
fn seeded_face_materials() {
    let mut perfect = LevelIndexSet::new();
    perfect.insert(1);
    assert_eq!(face_material(6, 5, &perfect), FaceMaterial::Unavailable);
    assert_eq!(face_material(5, 5, &perfect), FaceMaterial::Incomplete(5));
    assert_eq!(face_material(1, 5, &perfect), FaceMaterial::PerfectScore);
    assert_eq!(face_material(2, 5, &perfect), FaceMaterial::Completed);
}

#[test]
fn seeded_selector_faces() {
    let mut perfect = LevelIndexSet::new();
    perfect.insert(0);
    let mut melodies = LevelMelodyMap::new();
    melodies.insert(2, DiscoveredMelody { melody: tune(), room_ids: vec![1, 2] });
    let faces = load(2, &perfect, &melodies);
    assert_eq!(faces.len(), 20);
    assert_eq!(faces[0].material, FaceMaterial::PerfectScore);
    assert_eq!(faces[1].material, FaceMaterial::Completed);
    assert_eq!(faces[2].material, FaceMaterial::Incomplete(2));
    assert_eq!(faces[3].material, FaceMaterial::Unavailable);
    assert!(faces[2].melody_discovered);
    assert!(!faces[1].melody_discovered);
    assert_eq!(faces[0].face_index, 0);
    assert_eq!(faces[1].face_index, 2);
    assert_eq!(faces[0].shape_symbol, (4, 1));
    assert_eq!(faces[0].number_symbol, (0, 2));
    // level 14 is a tetrahedron with nine rooms per edge
    assert_eq!(faces[14].number_symbol, (3, 3));
    for face in faces.iter() {
        assert!(face.number_symbol.0 < 5 && (2..4).contains(&face.number_symbol.1));
    }
    assert_eq!(shape_symbol_coordinate(Shape::Icosahedron), (0, 1));
}

#[test]
fn seeded_selector_path_links_consecutive_levels() {
    let edges = selector_edges();
    assert_eq!(edges.len(), 19);
    assert_eq!(edges[0], (0, 1));
    assert_eq!(edges[18], (18, 19));
}

#[test]
fn seeded_selector_state_follows_the_pointer() {
    assert_eq!(set_selector_state(true), SelectorState::Clicked);
    assert_eq!(set_selector_state(false), SelectorState::Idle);
}

fn face(entity: u64, state: SelectorOverlayState, level: usize) -> SelectableFace {
    SelectableFace { entity, overlay_state: state, level: SelectableLevel(level) }
}

#[test]
fn releasing_over_a_pressed_playable_face_chooses_its_level() {
    let mut faces = vec![
        face(10, SelectorOverlayState::Unselected, 0),
        face(11, SelectorOverlayState::Pressed, 1),
        face(12, SelectorOverlayState::Hovered, 2),
    ];
    let mut current = CurrentLevelIndex(0);
    let r = update_interactables(&mut faces, Some(11), false, 3, &mut current);
    assert_eq!(r, Some(GameState::Playing));
    assert_eq!(current.0, 1);
    assert_eq!(faces[0].overlay_state, SelectorOverlayState::Unselected);
    assert_eq!(faces[1].overlay_state, SelectorOverlayState::Hovered);
    assert_eq!(faces[2].overlay_state, SelectorOverlayState::Unselected);
}

#[test]
fn a_level_beyond_the_working_level_cannot_be_chosen() {
    let mut faces = vec![face(11, SelectorOverlayState::Pressed, 7)];
    let mut current = CurrentLevelIndex(2);
    let r = update_interactables(&mut faces, Some(11), false, 3, &mut current);
    assert_eq!(r, None);
    assert_eq!(current.0, 2);
    assert_eq!(faces[0].overlay_state, SelectorOverlayState::Unselected);
}

#[test]
fn pressing_keeps_a_highlighted_face_pressed() {
    let mut faces = vec![
        face(11, SelectorOverlayState::Hovered, 1),
        face(12, SelectorOverlayState::Unselected, 2),
    ];
    let mut current = CurrentLevelIndex(0);
    assert_eq!(update_interactables(&mut faces, Some(11), true, 3, &mut current), None);
    assert_eq!(faces[0].overlay_state, SelectorOverlayState::Pressed);
    let mut faces = vec![face(12, SelectorOverlayState::Unselected, 2)];
    assert_eq!(update_interactables(&mut faces, Some(12), true, 3, &mut current), None);
    assert_eq!(faces[0].overlay_state, SelectorOverlayState::Unselected);
    let mut faces = vec![face(12, SelectorOverlayState::Hovered, 2)];
    assert_eq!(update_interactables(&mut faces, None, false, 3, &mut current), None);
    assert_eq!(faces[0].overlay_state, SelectorOverlayState::Unselected);
}

#[test]
fn overlay_appearance() {
    assert_eq!(selection_overlay(SelectorOverlayState::Unselected), None);
    assert_eq!(selection_overlay(SelectorOverlayState::Hovered), Some(OverlayMaterial::Hover));
    assert_eq!(selection_overlay(SelectorOverlayState::Pressed), Some(OverlayMaterial::Pressed));
}

#[test]
fn controller_transitions() {
    assert_eq!(idle(false, true), None);
    assert_eq!(idle(true, true), Some(ControllerState::Solving));
    assert_eq!(idle(true, false), Some(ControllerState::Viewing));
    assert_eq!(view(true), Some(ControllerState::IdlePostView));
    assert_eq!(view(false), None);
    assert_eq!(solve(true), Some(ControllerState::IdlePostSolve));
    assert_eq!(solve(false), None);
    assert_eq!(ControllerState::default(), ControllerState::IdlePostSolve);
}

#[test]
fn dragging_snaps_to_the_nearest_room_ahead_first() {
    assert_eq!(move_player_on_edge(true, true), EdgeSnap::ToRoom);
    assert_eq!(move_player_on_edge(false, true), EdgeSnap::FromRoom);
    assert_eq!(move_player_on_edge(false, false), EdgeSnap::OnEdge);
}

#[test]
fn face_colours_of_each_solid() {
    assert_eq!(face_color_indices(Shape::Tetrahedron), vec![0, 1, 2, 3]);
    assert_eq!(face_color_indices(Shape::Cube), vec![0, 1, 1, 2, 2, 0]);
    assert_eq!(face_color_indices(Shape::Octahedron).len(), 8);
    assert_eq!(face_color_indices(Shape::Dodecahedron)[0], 1);
    assert_eq!(face_color_indices(Shape::Icosahedron).len(), 20);
}

#[test]
fn faces_of_one_colour_never_share_an_edge() {
    for shape in [Shape::Tetrahedron, Shape::Cube, Shape::Octahedron, Shape::Dodecahedron, Shape::Icosahedron] {
        let level = GameLevel::new(0, shape, 2);
        let colours = face_color_indices(shape);
        for a in 0..colours.len() {
            for b in 0..colours.len() {
                if a != b && colours[a] == colours[b] {
                    assert_eq!(level.border_type(a, b), None);
                }
            }
        }
    }
}

#[test]
fn seeded_melody_passages_and_room_materials() {
    let map = LevelMelodyMap::from_entries(vec![(
        3,
        DiscoveredMelody { melody: tune(), room_ids: vec![8, 2, 5] },
    )]);
    assert_eq!(make_room_pairs_from_discovered_melodies(3, &map), vec![(8, 2), (2, 5)]);
    assert!(make_room_pairs_from_discovered_melodies(4, &map).is_empty());
    let looped = LevelMelodyMap::from_entries(vec![(
        1,
        DiscoveredMelody { melody: tune(), room_ids: vec![3, 4, 3, 4, 3] },
    )]);
    assert_eq!(make_room_pairs_from_discovered_melodies(1, &looped), vec![(3, 4), (4, 3)]);
    assert_eq!(junction_room_material(true, true), RoomMaterial::Goal);
    assert_eq!(junction_room_material(false, true), RoomMaterial::BrightPulsingLine);
    assert_eq!(junction_room_material(false, false), RoomMaterial::Line);
}

fn tune() -> Melody {
    Melody { name: "Tune".to_string(), notes: Notes(vec![crotchet(60)]) }
}

fn crotchet(key: i32) -> Note {
    Note { key, velocity: 100, duration_secs: 0, duration_nanos: 800000011 }
}

fn seal(notes: &Notes, plaintext: &[u8]) -> Vec<u8> {
    let key_bytes: [u8; 32] = sha2::Sha256::digest(serialize_notes(notes)).into();
    let cipher = ChaCha20Poly1305::new(Key::from_slice(&key_bytes));
    let nonce = [3u8; 12];
    let sealed = cipher.encrypt(GenericArray::from_slice(&nonce), plaintext).unwrap();
    let mut bytes = nonce.to_vec();
    bytes.extend(sealed);
    bytes
}

#[test]
fn seeded_notes_serialize_with_their_duration() {
    let notes = Notes(vec![crotchet(48), Note { key: -2, velocity: 90, duration_secs: 3, duration_nanos: 0 }]);
    assert_eq!(
        String::from_utf8(serialize_notes(&notes)).unwrap(),
        "[{\"key\":48,\"velocity\":100,\"duration\":{\"secs\":0,\"nanos\":800000011}},{\"key\":-2,\"velocity\":90,\"duration\":{\"secs\":3,\"nanos\":0}}]"
    );
    let expected: [u8; 32] = sha2::Sha256::digest(serialize_notes(&notes)).into();
    assert_eq!(hash_melody(&notes), expected);
}

#[test]
fn seeded_melody_opens_with_its_notes() {
    let notes = Notes(vec![crotchet(60), crotchet(62)]);
    let sealed = seal(&notes, b"{\"name\":\"Tune\"}");
    assert_eq!(try_decrypt_melody(&notes, &sealed), Some(b"{\"name\":\"Tune\"}".to_vec()));
    assert_eq!(try_decrypt_melody(&Notes(vec![crotchet(62), crotchet(60)]), &sealed), None);

    let mut tracker = MelodyPuzzleTracker::new(2, sealed);
    tracker.record_note(crotchet(59));
    tracker.record_note(crotchet(60));
    assert_eq!(check_melody_solved(&tracker), None);
    tracker.record_note(crotchet(62));
    assert_eq!(tracker.notes.len(), 2);
    assert_eq!(check_melody_solved(&tracker), Some(b"{\"name\":\"Tune\"}".to_vec()));
}

#[test]
fn seeded_notes_sound_only_after_moving_into_a_junction() {
    let mut last = None;
    assert!(!play_note(&mut last, 4, true));
    assert_eq!(last, Some(4));
    assert!(!play_note(&mut last, 4, true));
    assert!(!play_note(&mut last, 5, false));
    assert!(play_note(&mut last, 6, true));
    assert_eq!(last, Some(6));
}

#[test]
fn rings_spread_on_reaching_new_junctions() {
    let solution = vec![1, 4, 9];
    let mut last = None;
    assert_eq!(spawn_node_arrival_particles(&mut last, 1, true, &solution), None);
    assert_eq!(last, Some(1));
    assert_eq!(spawn_node_arrival_particles(&mut last, 4, true, &solution), Some(ArrivalEffectColor::Line));
    assert_eq!(spawn_node_arrival_particles(&mut last, 4, true, &solution), None);
    assert_eq!(spawn_node_arrival_particles(&mut last, 5, false, &solution), None);
    assert_eq!(spawn_node_arrival_particles(&mut last, 9, true, &solution), Some(ArrivalEffectColor::Player));
    assert_eq!(last, Some(9));
}

struct SerdeNote<'a>(&'a Note);

impl<'a> Serialize for SerdeNote<'a> {
    fn serialize<S: Serializer>(&self, serializer: S) -> Result<S::Ok, S::Error> {
        let mut state = serializer.serialize_struct("Note", 3)?;
        state.serialize_field("key", &self.0.key)?;
        state.serialize_field("velocity", &self.0.velocity)?;
        state.serialize_field("duration", &std::time::Duration::new(self.0.duration_secs, self.0.duration_nanos))?;
        state.end()
    }
}

struct SerdeNotes<'a>(Vec<SerdeNote<'a>>);

impl<'a> Serialize for SerdeNotes<'a> {
    fn serialize<S: Serializer>(&self, serializer: S) -> Result<S::Ok, S::Error> {
        serializer.serialize_newtype_struct("Notes", &self.0)
    }
}

#[test]
fn seeded_notes_json_matches_serde_json() {
    let notes = vec![
        crotchet(48),
        Note { key: i32::MIN, velocity: -7, duration_secs: u64::MAX, duration_nanos: 999_999_999 },
        Note { key: 0, velocity: 0, duration_secs: 0, duration_nanos: 0 },
    ];
    for count in 0..=notes.len() {
        let chosen = Notes(notes[..count].to_vec());
        let expected = serde_json::to_vec(&SerdeNotes(chosen.0.iter().map(SerdeNote).collect())).unwrap();
        assert_eq!(serialize_notes(&chosen), expected);
    }
}
