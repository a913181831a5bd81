use mazonic::decimal::{append_decimal, push_decimal, push_signed_decimal};
use mazonic::effects::musical_note_burst::burst_shows_crotchet;
use mazonic::effects::musical_notes::{note_effect_indices, NUM_NOTE_EFFECTS};
use mazonic::game_save::{PuzzleIdentifier, WorkingLevelIndex};
use mazonic::game_state::{victory_transition, GameState, PuzzleState};
use mazonic::load_level_asset::{
    daily_level_url, load_failure_message, local_level_path, note_mapping_from_pairs,
    remote_level_tag, wait_until_loaded, LoadFailure, LoadStep, RemoteLevelPoll,
};
use mazonic::menu::setup;
use mazonic::sound::Note;
use mazonic::victory::{update_state, VictoryState};

#[test]
fn daily_levels_are_fetched_by_tag_and_date() {
    let tag = remote_level_tag(&PuzzleIdentifier::EasyDaily("2025-06-01".to_string())).unwrap();
    assert_eq!(tag, "easy");
    assert_eq!(
        daily_level_url(&"2025-06-01".to_string(), tag),
        "https://raw.githubusercontent.com/oscardarwin/mazonic_levels/main/easy/2025-06-01.json"
    );
    assert_eq!(
        remote_level_tag(&PuzzleIdentifier::HardDaily("x".to_string())),
        Some("hard")
    );
    assert_eq!(remote_level_tag(&PuzzleIdentifier::Level(2)), None);
}

#[test]
fn built_in_levels_are_read_from_numbered_files() {
    assert_eq!(local_level_path(7), "levels/7.json");
    assert_eq!(local_level_path(0), "levels/0.json");
    assert_eq!(local_level_path(123), "levels/123.json");
}

#[test]
fn each_load_failure_has_its_message() {
    assert_eq!(load_failure_message(LoadFailure::JsonParse), "failed to parse json");
    assert_eq!(load_failure_message(LoadFailure::Http), "could not fetch level from web");
    assert_eq!(load_failure_message(LoadFailure::StringParse), "failed to parse level data");
}

#[test]
fn waiting_for_a_daily_level() {
    assert_eq!(
        wait_until_loaded(true, RemoteLevelPoll::Pending),
        LoadStep { next_state: Some(GameState::Puzzle), store_level: false, forget_download: false, failure: None }
    );
    assert_eq!(
        wait_until_loaded(false, RemoteLevelPoll::Pending),
        LoadStep { next_state: None, store_level: false, forget_download: false, failure: None }
    );
    assert_eq!(
        wait_until_loaded(false, RemoteLevelPoll::Loaded),
        LoadStep { next_state: Some(GameState::Puzzle), store_level: true, forget_download: true, failure: None }
    );
    assert_eq!(
        wait_until_loaded(false, RemoteLevelPoll::Failed(LoadFailure::Http)),
        LoadStep {
            next_state: Some(GameState::Selector),
            store_level: false,
            forget_download: true,
            failure: Some(LoadFailure::Http)
        }
    );
}

#[test]
fn a_room_listed_twice_keeps_its_last_note() {
    let mapping = note_mapping_from_pairs(&vec![(1, Note::crotchet(60)), (2, Note::minim(62)), (1, Note::quaver(64))]);
    assert_eq!(mapping.get(1), Some(Note::quaver(64)));
    assert_eq!(mapping.get(2), Some(Note::minim(62)));
    assert_eq!(mapping.get(3), None);
}

#[test]
fn decimals_are_written_in_full() {
    let mut out = Vec::new();
    push_decimal(&mut out, 0);
    out.push(b' ');
    push_decimal(&mut out, 18446744073709551615);
    out.push(b' ');
    push_signed_decimal(&mut out, -45);
    out.push(b' ');
    push_signed_decimal(&mut out, i32::MIN);
    assert_eq!(String::from_utf8(out).unwrap(), "0 18446744073709551615 -45 -2147483648");
    let mut s = String::from("n=");
    append_decimal(&mut s, 907);
    assert_eq!(s, "n=907");
}

#[test]
fn the_goal_is_the_last_room_of_the_solution() {
    assert_eq!(victory_transition(8, &vec![1, 4, 8]), Some(PuzzleState::Victory));
    assert_eq!(victory_transition(4, &vec![1, 4, 8]), None);
}

#[test]
fn the_menu_opens_the_selector_once_a_level_is_done() {
    assert_eq!(setup(&WorkingLevelIndex(0)), GameState::Puzzle);
    assert_eq!(setup(&WorkingLevelIndex(3)), GameState::Selector);
}

#[test]
fn after_victory_pressing_views_the_solid() {
    assert_eq!(update_state(true), VictoryState::Viewing);
    assert_eq!(update_state(false), VictoryState::Idle);
}

#[test]
fn note_effects_are_half_a_cycle_apart() {
    assert_eq!(note_effect_indices(0, NUM_NOTE_EFFECTS), (0, 4));
    assert_eq!(note_effect_indices(6, NUM_NOTE_EFFECTS), (6, 2));
    assert_eq!(note_effect_indices(13, 8), (5, 1));
    assert!(burst_shows_crotchet(10));
    assert!(!burst_shows_crotchet(7));
}
