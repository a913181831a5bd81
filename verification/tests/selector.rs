use mazonic::game_save::{DiscoveredMelody, PuzzleIdentifier};
use mazonic::game_state::GameState;
use mazonic::level_selector::{
    load, load_for_date, face_material, level_playable, melody_discovered, neighbouring_entry, next_game_state,
    number_symbol_coordinate, puzzle_completed, selector_edge_vertices, selector_matches_puzzle,
    selector_options, selector_path_edges, set_selector_state, symbol_coordinate, symbol_material,
    update_interactables, SelectableFace, SelectorFace, SelectorOption, SelectorOverlayState,
    SelectorState, SymbolMaterial, EASY_DAILY_POSITION, FACE_ORDER, HARD_DAILY_POSITION,
    SELECTOR_OPTION_COUNT,
};
use mazonic::play_statistics::{PlayTime, PlayStatistics, PuzzleStatistics, PuzzleStatisticsMap};
use mazonic::sound::Melody;

#[test]
fn the_selector_lists_the_levels_with_the_daily_levels_between() {
    let options = selector_options();
    assert_eq!(options.len(), SELECTOR_OPTION_COUNT);
    assert_eq!(options[0], SelectorOption::Level(0));
    assert_eq!(options[7], SelectorOption::EasyDaily);
    assert_eq!(options[8], SelectorOption::Level(7));
    assert_eq!(options[16], SelectorOption::HardDaily);
    assert_eq!(options[19], SelectorOption::Level(17));
}

#[test]
fn entries_become_playable_with_the_working_level() {
    assert!(level_playable(SelectorOption::Level(3), 3));
    assert!(!level_playable(SelectorOption::Level(4), 3));
    assert!(!level_playable(SelectorOption::EasyDaily, EASY_DAILY_POSITION - 1));
    assert!(level_playable(SelectorOption::EasyDaily, EASY_DAILY_POSITION));
    assert!(!level_playable(SelectorOption::HardDaily, HARD_DAILY_POSITION - 1));
    assert!(level_playable(SelectorOption::HardDaily, HARD_DAILY_POSITION));
}

#[test]
fn face_materials_of_the_selector() {
    assert_eq!(face_material(SelectorOption::Level(9), true, 2), SelectorFace::Completed);
    assert_eq!(face_material(SelectorOption::Level(2), false, 2), SelectorFace::Incomplete(2));
    assert_eq!(face_material(SelectorOption::Level(1), false, 2), SelectorFace::Unavailable);
    assert_eq!(face_material(SelectorOption::EasyDaily, false, 7), SelectorFace::Incomplete(7));
    assert_eq!(face_material(SelectorOption::EasyDaily, false, 6), SelectorFace::Unavailable);
    assert_eq!(face_material(SelectorOption::HardDaily, false, 16), SelectorFace::Incomplete(15));
}

#[test]
fn symbol_materials_of_the_selector() {
    assert_eq!(symbol_material(SelectorOption::Level(9), true, 0), SymbolMaterial::MelodyFound);
    assert_eq!(symbol_material(SelectorOption::Level(2), false, 2), SymbolMaterial::Available);
    assert_eq!(symbol_material(SelectorOption::Level(3), false, 2), SymbolMaterial::Unavailable);
    assert_eq!(symbol_material(SelectorOption::HardDaily, false, 14), SymbolMaterial::Unavailable);
}

#[test]
fn completion_and_melodies_are_read_from_the_statistics() {
    let mut map = PuzzleStatisticsMap::new();
    map.insert(
        PuzzleIdentifier::Level(0),
        PuzzleStatistics { completed: true, time_spent: PlayTime::zero(), discovered_melody: None },
    );
    map.insert(
        PuzzleIdentifier::Level(1),
        PuzzleStatistics {
            completed: false,
            time_spent: PlayTime::zero(),
            discovered_melody: Some(DiscoveredMelody { melody: Melody::default(), room_ids: vec![1] }),
        },
    );
    let stats = PlayStatistics(map);
    assert!(puzzle_completed(&stats, &PuzzleIdentifier::Level(0)));
    assert!(!puzzle_completed(&stats, &PuzzleIdentifier::Level(1)));
    assert!(!puzzle_completed(&stats, &PuzzleIdentifier::Level(2)));
    assert!(melody_discovered(&stats, &PuzzleIdentifier::Level(1)));
    assert!(!melody_discovered(&stats, &PuzzleIdentifier::Level(0)));
}

#[test]
fn path_edges_grow_with_the_working_level() {
    assert!(selector_path_edges(0).is_empty());
    assert_eq!(selector_path_edges(3), vec![(0, 1), (1, 2), (2, 3)]);
    assert_eq!(selector_path_edges(7).len(), 8);
    assert_eq!(selector_path_edges(15).len(), 17);
    assert_eq!(selector_path_edges(100).len(), 19);
    assert_eq!(selector_path_edges(100)[18], (18, 19));
    assert_eq!(selector_path_edges(17).len(), 19);
    assert_eq!(selector_path_edges(usize::MAX).len(), 19);
}

#[test]
fn symbols_of_the_entries() {
    assert_eq!(symbol_coordinate(SelectorOption::Level(0)), (4, 1));
    assert_eq!(symbol_coordinate(SelectorOption::Level(1)), (3, 1));
    assert_eq!(symbol_coordinate(SelectorOption::Level(3)), (1, 1));
    assert_eq!(symbol_coordinate(SelectorOption::EasyDaily), (0, 4));
    assert_eq!(number_symbol_coordinate(1), (0, 2));
    assert_eq!(number_symbol_coordinate(5), (4, 2));
    assert_eq!(number_symbol_coordinate(6), (0, 3));
    assert_eq!(number_symbol_coordinate(9), (3, 3));
}

#[test]
fn a_click_starts_after_two_frames_without_a_press() {
    let mut presses = (false, false);
    assert_eq!(set_selector_state(&mut presses, true), Some(SelectorState::Clicked));
    assert_eq!(presses, (false, true));
    assert_eq!(set_selector_state(&mut presses, true), None);
    assert_eq!(set_selector_state(&mut presses, false), Some(SelectorState::Idle));
    assert_eq!(set_selector_state(&mut presses, true), None);
    assert_eq!(presses, (false, true));
}

fn face(entity: u64, state: SelectorOverlayState, option: SelectorOption) -> SelectableFace {
    SelectableFace { entity, overlay_state: state, option }
}

#[test]
fn releasing_a_pressed_face_chooses_it() {
    let mut faces = vec![
        face(1, SelectorOverlayState::Hovered, SelectorOption::Level(0)),
        face(2, SelectorOverlayState::Pressed, SelectorOption::Level(1)),
        face(3, SelectorOverlayState::Unselected, SelectorOption::Level(2)),
    ];
    let mut start = Some(2);
    let r = update_interactables(&mut faces, 2, None, true, false, &mut start, 5);
    assert_eq!(r, Some(SelectorOption::Level(1)));
    assert_eq!(start, None);
    assert_eq!(faces[0].overlay_state, SelectorOverlayState::Unselected);
    assert_eq!(faces[1].overlay_state, SelectorOverlayState::Pressed);
    assert_eq!(next_game_state(SelectorOption::Level(1)), GameState::Puzzle);
    assert_eq!(next_game_state(SelectorOption::HardDaily), GameState::LoadingRemoteLevel);
}

#[test]
fn a_touch_on_the_centre_face_presses_it() {
    let mut faces = vec![
        face(1, SelectorOverlayState::Unselected, SelectorOption::Level(0)),
        face(2, SelectorOverlayState::Hovered, SelectorOption::Level(9)),
    ];
    let mut start = None;
    let r = update_interactables(&mut faces, 1, Some(1), false, true, &mut start, 5);
    assert_eq!(r, None);
    assert_eq!(start, Some(1));
    assert_eq!(faces[0].overlay_state, SelectorOverlayState::Pressed);
    assert_eq!(faces[1].overlay_state, SelectorOverlayState::Unselected);
}

#[test]
fn an_unplayable_centre_face_is_never_highlighted() {
    let mut faces = vec![face(1, SelectorOverlayState::Pressed, SelectorOption::HardDaily)];
    let mut start = None;
    let r = update_interactables(&mut faces, 1, None, true, false, &mut start, 3);
    assert_eq!(r, None);
    assert_eq!(faces[0].overlay_state, SelectorOverlayState::Unselected);
}

#[test]
fn entries_match_the_puzzle_they_open() {
    let easy = PuzzleIdentifier::EasyDaily("2025-05-05".to_string());
    assert!(selector_matches_puzzle(SelectorOption::EasyDaily, &easy));
    assert!(!selector_matches_puzzle(SelectorOption::HardDaily, &easy));
    assert!(selector_matches_puzzle(SelectorOption::Level(4), &PuzzleIdentifier::Level(4)));
    assert!(!selector_matches_puzzle(SelectorOption::Level(4), &PuzzleIdentifier::Level(5)));
    let puzzle = SelectorOption::HardDaily.puzzle_for("2025-05-05".to_string());
    assert_eq!(puzzle, PuzzleIdentifier::HardDaily("2025-05-05".to_string()));
    assert_eq!(SelectorOption::Level(3).into_puzzle_identifier(), PuzzleIdentifier::Level(3));
}

#[test]
fn todays_daily_level_is_named_by_the_date() {
    let id = SelectorOption::daily_level_filename();
    assert_eq!(id.len(), 10);
    let bytes = id.as_bytes();
    assert_eq!(bytes[4], b'-');
    assert_eq!(bytes[7], b'-');
    assert!(bytes.iter().enumerate().all(|(i, b)| i == 4 || i == 7 || b.is_ascii_digit()));
    let month: u32 = id[5..7].parse().unwrap();
    let day: u32 = id[8..10].parse().unwrap();
    assert!((1..=12).contains(&month) && (1..=31).contains(&day));
    assert!(matches!(
        SelectorOption::EasyDaily.into_puzzle_identifier(),
        PuzzleIdentifier::EasyDaily(_)
    ));
}

#[test]
fn neighbouring_faces_share_an_edge() {
    assert_eq!(neighbouring_entry(0), 1);
    assert_eq!(neighbouring_entry(5), 4);
    assert_eq!(FACE_ORDER[0], 0);
    for entry in 0..SELECTOR_OPTION_COUNT {
        assert_eq!(selector_edge_vertices(entry).len(), 2);
    }
    let mut shared = selector_edge_vertices(0);
    shared.sort();
    // faces 0 [0, 4, 8] and 2 [0, 8, 10]
    assert_eq!(shared, vec![0, 8]);
}

#[test]
fn the_selector_shows_each_entry_from_the_statistics() {
    let mut map = PuzzleStatisticsMap::new();
    map.insert(
        PuzzleIdentifier::Level(0),
        PuzzleStatistics { completed: true, time_spent: PlayTime::zero(), discovered_melody: None },
    );
    map.insert(
        PuzzleIdentifier::Level(1),
        PuzzleStatistics {
            completed: true,
            time_spent: PlayTime { secs: 3, nanos: 0 },
            discovered_melody: Some(DiscoveredMelody { melody: Melody::default(), room_ids: vec![4] }),
        },
    );
    map.insert(
        PuzzleIdentifier::EasyDaily("2025-01-01".to_string()),
        PuzzleStatistics { completed: true, time_spent: PlayTime::zero(), discovered_melody: None },
    );
    let stats = PlayStatistics(map);
    let layout = load_for_date(&stats, "2025-01-01".to_string());
    let entries = &layout.entries;
    // the working level is 2: arrows from entry 0 to entry 1 and from 1 to 2
    assert_eq!(layout.path_edges, vec![(0, 1), (1, 2)]);
    assert_eq!(entries.len(), 20);
    assert_eq!(entries[0].face, SelectorFace::Completed);
    assert_eq!(entries[0].symbol, (4, 1));
    assert_eq!(entries[0].symbol_material, SymbolMaterial::Available);
    assert_eq!(entries[0].number_symbol, Some((0, 2)));
    assert!(!entries[0].melody_discovered);
    assert_eq!(entries[1].symbol_material, SymbolMaterial::MelodyFound);
    assert!(entries[1].melody_discovered);
    assert_eq!(entries[1].number_symbol, Some((1, 2)));
    assert_eq!(entries[2].face, SelectorFace::Incomplete(2));
    assert_eq!(entries[3].face, SelectorFace::Unavailable);
    assert_eq!(entries[3].symbol_material, SymbolMaterial::Unavailable);
    assert_eq!(entries[7].option, SelectorOption::EasyDaily);
    assert_eq!(entries[7].face, SelectorFace::Completed);
    assert_eq!(entries[7].symbol, (0, 4));
    assert_eq!(entries[7].number_symbol, None);
    assert_eq!(entries[16].face, SelectorFace::Unavailable);
    assert_eq!(entries[1].face_index, 2);
    let other_day = load_for_date(&stats, "2025-01-02".to_string());
    assert_eq!(other_day.entries[7].face, SelectorFace::Unavailable);
    let today = load(&stats);
    assert_eq!(today.entries.len(), 20);
    assert_eq!(today.path_edges.len(), 2);
}
