use mazonic::game_save::{
    setup, update, update_working_level, CurrentPuzzle, DiscoveredMelody, GameSave,
    PuzzleIdentifier, WorkingLevelIndex, RESTORED_COMPLETED_LEVELS,
};
use mazonic::play_statistics::{PlayTime, 
    exit_play, on_play, on_victory, record_discovered_melody, PlayStatistics, PuzzleStatistics,
    PuzzleStatisticsMap,
};
use mazonic::sound::Melody;

fn level(i: usize) -> PuzzleIdentifier {
    PuzzleIdentifier::Level(i)
}

fn statistics_with(entries: Vec<(PuzzleIdentifier, bool)>) -> PlayStatistics {
    let mut map = PuzzleStatisticsMap::new();
    for (puzzle, completed) in entries {
        map.insert(
            puzzle,
            PuzzleStatistics { completed, time_spent: PlayTime::zero(), discovered_melody: None },
        );
    }
    PlayStatistics(map)
}

#[test]
fn working_level_is_after_the_highest_completed_level() {
    let stats = statistics_with(vec![(level(0), true), (level(3), true), (level(5), false)]);
    assert_eq!(stats.get_working_level(), 4);
}

#[test]
fn working_level_is_zero_when_nothing_is_completed() {
    assert_eq!(PlayStatistics(PuzzleStatisticsMap::new()).get_working_level(), 0);
    let stats = statistics_with(vec![
        (level(2), false),
        (PuzzleIdentifier::EasyDaily("2024-01-01".to_string()), true),
    ]);
    assert_eq!(stats.get_working_level(), 0);
}

#[test]
fn daily_puzzles_do_not_move_the_working_level() {
    let stats = statistics_with(vec![
        (level(1), true),
        (PuzzleIdentifier::HardDaily("2024-01-01".to_string()), true),
    ]);
    assert_eq!(stats.get_working_level(), 2);
}

#[test]
fn opening_a_puzzle_creates_fresh_statistics() {
    let mut stats = PlayStatistics(PuzzleStatisticsMap::new());
    let (elapsed, running) = on_play(&mut stats, &level(2));
    assert_eq!(elapsed, PlayTime::zero());
    assert!(running);
    let entry = stats.0.get(&level(2)).unwrap();
    assert!(!entry.completed);
    assert_eq!(entry.time_spent, PlayTime::zero());
    assert!(entry.discovered_melody.is_none());
}

#[test]
fn reopening_a_solved_puzzle_keeps_its_time_and_stops_the_clock() {
    let mut map = PuzzleStatisticsMap::new();
    map.insert(
        level(1),
        PuzzleStatistics { completed: true, time_spent: PlayTime { secs: 42, nanos: 0 }, discovered_melody: None },
    );
    let mut stats = PlayStatistics(map);
    let (elapsed, running) = on_play(&mut stats, &level(1));
    assert_eq!(elapsed, PlayTime { secs: 42, nanos: 0 });
    assert!(!running);
}

#[test]
fn victory_completes_the_puzzle_and_unlocks_the_next_level() {
    let mut stats = PlayStatistics(PuzzleStatisticsMap::new());
    on_play(&mut stats, &level(0));
    assert_eq!(stats.get_working_level(), 0);
    on_victory(&mut stats, &level(0));
    assert!(stats.0.get(&level(0)).unwrap().completed);
    assert_eq!(stats.get_working_level(), 1);
}

#[test]
fn victory_on_an_unopened_puzzle_changes_nothing() {
    let mut stats = PlayStatistics(PuzzleStatisticsMap::new());
    on_victory(&mut stats, &level(3));
    assert!(stats.0.get(&level(3)).is_none());
    assert_eq!(stats.get_working_level(), 0);
}

#[test]
fn leaving_an_unsolved_puzzle_records_the_time() {
    let mut stats = PlayStatistics(PuzzleStatisticsMap::new());
    on_play(&mut stats, &level(4));
    exit_play(&mut stats, &level(4), PlayTime { secs: 1, nanos: 500_000_000 });
    assert_eq!(stats.0.get(&level(4)).unwrap().time_spent, PlayTime { secs: 1, nanos: 500_000_000 });
    on_victory(&mut stats, &level(4));
    exit_play(&mut stats, &level(4), PlayTime { secs: 9, nanos: 0 });
    assert_eq!(stats.0.get(&level(4)).unwrap().time_spent, PlayTime { secs: 1, nanos: 500_000_000 });
}

#[test]
fn discovered_melodies_are_kept_with_their_rooms() {
    let mut stats = PlayStatistics(PuzzleStatisticsMap::new());
    let melody = DiscoveredMelody { melody: Melody::default(), room_ids: vec![5, 6, 7] };
    record_discovered_melody(&mut stats, &level(1), melody.clone());
    assert!(stats.get_melody_room_ids(&level(1)).is_empty());
    on_play(&mut stats, &level(1));
    record_discovered_melody(&mut stats, &level(1), melody);
    assert_eq!(stats.get_melody_room_ids(&level(1)), vec![5, 6, 7]);
    assert!(!stats.0.get(&level(1)).unwrap().completed);
    assert_eq!(stats.get_working_level(), 0);
}

#[test]
fn a_read_save_restores_five_completed_levels() {
    let (current, working, stats) = setup(true);
    assert_eq!(current.0, level(0));
    assert_eq!(working.0, RESTORED_COMPLETED_LEVELS);
    assert_eq!(working.0, 5);
    for l in 0..5 {
        assert!(stats.0.get(&level(l)).unwrap().completed);
    }
    assert!(stats.0.get(&level(5)).is_none());
    assert_eq!(stats.get_working_level(), 5);
}

#[test]
fn without_a_save_the_game_starts_afresh() {
    let (current, working, stats) = setup(false);
    assert_eq!(current.0, level(0));
    assert_eq!(working.0, 0);
    assert!(stats.0.get(&level(0)).is_none());
}

#[test]
fn a_completed_save_holds_the_levels_below_the_highest() {
    let save = GameSave::completed(3);
    assert_eq!(save.current_index, level(0));
    assert!(save.play_statistics.get(&level(2)).unwrap().completed);
    assert!(save.play_statistics.get(&level(3)).is_none());
    let fresh = GameSave::default();
    assert!(fresh.play_statistics.get(&level(0)).is_none());
}

#[test]
fn the_save_is_rewritten_only_after_a_change() {
    let current = CurrentPuzzle(PuzzleIdentifier::EasyDaily("2025-03-04".to_string()));
    let stats = statistics_with(vec![(level(0), true)]);
    assert!(update(&current, false, &stats, false).is_none());
    let save = update(&current, true, &stats, false).unwrap();
    assert_eq!(save.current_index, PuzzleIdentifier::EasyDaily("2025-03-04".to_string()));
    assert!(save.play_statistics.get(&level(0)).unwrap().completed);
    assert!(update(&current, false, &stats, true).is_some());
}

#[test]
fn the_working_level_follows_changed_statistics() {
    let stats = statistics_with(vec![(level(6), true)]);
    let mut working = WorkingLevelIndex(2);
    update_working_level(&mut working, &stats, false);
    assert_eq!(working.0, 2);
    update_working_level(&mut working, &stats, true);
    assert_eq!(working.0, 7);
}

#[test]
fn puzzle_identifiers_compare_by_kind_and_date() {
    let a = PuzzleIdentifier::EasyDaily("2025-01-01".to_string());
    assert!(a.same_puzzle(&a.clone_identifier()));
    assert!(!a.same_puzzle(&PuzzleIdentifier::HardDaily("2025-01-01".to_string())));
    assert!(!a.same_puzzle(&PuzzleIdentifier::EasyDaily("2025-01-02".to_string())));
    assert!(level(3).same_puzzle(&level(3)));
    assert!(!level(3).same_puzzle(&level(4)));
}

#[test]
fn statistics_defaults() {
    let fresh = PuzzleStatistics::default();
    assert!(!fresh.completed);
    assert_eq!(fresh.time_spent, PlayTime::zero());
    let done = PuzzleStatistics::completed();
    assert!(done.completed);
    assert_eq!(done.time_spent, PlayTime { secs: 0, nanos: 0 });
    assert!(done.discovered_melody.is_none());
}
