use std::collections::VecDeque;

use chacha20poly1305::aead::generic_array::GenericArray;
use chacha20poly1305::aead::Aead;
use chacha20poly1305::{ChaCha20Poly1305, Key, KeyInit};
use sha2::{Digest, Sha256};

use mazonic::game_save::{DiscoveredMelody, PuzzleIdentifier};
use serde::ser::{Serialize, SerializeStruct, Serializer};
use mazonic::play_statistics::{on_play, PlayStatistics, PuzzleStatisticsMap};
use mazonic::sound::{
    check_melody_solved, hash_melody, play_melody, record_solved_melody, MelodyStep, MELODY_LEAD_IN_MILLIS, melody_notes, notes_unique_by_key, play_note, rooms_have_notes,
    serialize_notes, try_decrypt_melody, winning_melody_notes, Melody, MelodyPuzzleTracker, Note,
    NoteAction, NoteMapping, NoteValue, Notes, DEFAULT_BPM_BITS, DEFAULT_VELOCITY,
    WINNING_MELODY_LENGTH,
};

fn seal(notes: &Notes, plaintext: &[u8], nonce: [u8; 12]) -> Vec<u8> {
    let key_bytes: [u8; 32] = Sha256::digest(serialize_notes(notes)).into();
    let cipher = ChaCha20Poly1305::new(Key::from_slice(&key_bytes));
    let sealed = cipher.encrypt(GenericArray::from_slice(&nonce), plaintext).unwrap();
    let mut bytes = nonce.to_vec();
    bytes.extend(sealed);
    bytes
}

#[test]
fn note_constructors_use_the_default_velocity() {
    let note = Note::dotted_minim(62);
    assert_eq!(note.key, 62);
    assert_eq!(note.velocity, DEFAULT_VELOCITY);
    assert_eq!(note.value, NoteValue::DottedMinim);
    assert_eq!(Note::semibreve_and_crotchet(40).value, NoteValue::SemibreveAndCrotchet);
    assert_eq!(Note::new(1, NoteValue::Quaver), Note::quaver(1));
}

#[test]
fn default_melody_is_the_c_major_pentatonic() {
    let melody = Melody::default();
    assert_eq!(melody.name, "C Major Pentatonic");
    let keys: Vec<i32> = melody.notes.0.iter().map(|n| n.key).collect();
    assert_eq!(keys, vec![48, 50, 52, 55, 57, 60]);
    assert!(melody.notes.0.iter().all(|n| n.value == NoteValue::Crotchet));
    assert_eq!(f32::from_bits(DEFAULT_BPM_BITS), 100.0);
    assert_eq!(melody.bpm_bits, DEFAULT_BPM_BITS);
}

#[test]
fn notes_serialize_as_json() {
    let notes = Notes(vec![Note::crotchet(48), Note::semiquaver(-3)]);
    let json = String::from_utf8(serialize_notes(&notes)).unwrap();
    assert_eq!(
        json,
        "[{\"key\":48,\"velocity\":100,\"value\":\"Crotchet\"},{\"key\":-3,\"velocity\":100,\"value\":\"Semiquaver\"}]"
    );
    assert_eq!(String::from_utf8(serialize_notes(&Notes(vec![]))).unwrap(), "[]");
    let extreme = Notes(vec![Note { key: i32::MIN, velocity: 0, value: NoteValue::Minim }]);
    assert_eq!(
        String::from_utf8(serialize_notes(&extreme)).unwrap(),
        "[{\"key\":-2147483648,\"velocity\":0,\"value\":\"Minim\"}]"
    );
}

#[test]
fn melody_hash_is_the_sha256_of_the_json() {
    let notes = Notes(vec![Note::crotchet(48)]);
    let expected: [u8; 32] =
        Sha256::digest(b"[{\"key\":48,\"velocity\":100,\"value\":\"Crotchet\"}]").into();
    assert_eq!(hash_melody(&notes), expected);
    assert_ne!(hash_melody(&notes), hash_melody(&Notes(vec![Note::crotchet(49)])));
}

#[test]
fn the_right_notes_open_the_sealed_melody() {
    let notes = Notes(vec![Note::crotchet(60), Note::minim(62), Note::quaver(64)]);
    let sealed = seal(&notes, b"{\"name\":\"Tune\"}", [7; 12]);
    assert_eq!(try_decrypt_melody(&notes, &sealed), Some(b"{\"name\":\"Tune\"}".to_vec()));
    let wrong = Notes(vec![Note::crotchet(60), Note::minim(62), Note::quaver(65)]);
    assert_eq!(try_decrypt_melody(&wrong, &sealed), None);
    let mut tampered = sealed.clone();
    let last = tampered.len() - 1;
    tampered[last] ^= 1;
    assert_eq!(try_decrypt_melody(&notes, &tampered), None);
    assert_eq!(try_decrypt_melody(&notes, &vec![0; 12]), None);
}

#[test]
fn note_mapping_gives_the_note_of_each_room() {
    let mut mapping = NoteMapping::new();
    mapping.insert(3, Note::crotchet(60));
    mapping.insert(4, Note::minim(62));
    mapping.insert(3, Note::quaver(61));
    assert_eq!(mapping.get(3), Some(Note::quaver(61)));
    assert_eq!(mapping.get(4), Some(Note::minim(62)));
    assert_eq!(mapping.get(5), None);
    let mut notes = mapping.notes();
    notes.sort_by_key(|n| n.key);
    assert_eq!(notes, vec![Note::quaver(61), Note::minim(62)]);
}

#[test]
fn melody_notes_follow_the_rooms() {
    let mut mapping = NoteMapping::new();
    mapping.insert(1, Note::crotchet(60));
    mapping.insert(2, Note::minim(62));
    let rooms: VecDeque<u64> = vec![2, 1, 2].into();
    assert!(rooms_have_notes(&mapping, &rooms));
    let notes = melody_notes(&mapping, &rooms);
    assert_eq!(notes.0, vec![Note::minim(62), Note::crotchet(60), Note::minim(62)]);
    let rooms: VecDeque<u64> = vec![2, 9].into();
    assert!(!rooms_have_notes(&mapping, &rooms));
    assert!(rooms_have_notes(&mapping, &VecDeque::new()));
}

#[test]
fn tracker_keeps_the_latest_rooms() {
    let mut tracker = MelodyPuzzleTracker::new(3, vec![0; 12]);
    for room in [1, 2, 3, 4, 5] {
        tracker.record_room(room);
    }
    assert_eq!(tracker.room_ids, VecDeque::from(vec![3, 4, 5]));
    assert_eq!(tracker.melody_length, 3);
}

#[test]
fn walking_the_melody_solves_it() {
    let mut mapping = NoteMapping::new();
    mapping.insert(1, Note::crotchet(60));
    mapping.insert(2, Note::minim(62));
    mapping.insert(3, Note::quaver(64));
    let melody_notes = Notes(vec![Note::crotchet(60), Note::minim(62), Note::quaver(64)]);
    let sealed = seal(&melody_notes, b"melody", [1; 12]);
    let mut tracker = MelodyPuzzleTracker::new(3, sealed);
    tracker.record_room(3);
    tracker.record_room(1);
    tracker.record_room(2);
    assert_eq!(check_melody_solved(&tracker, &mapping), None);
    tracker.record_room(3);
    assert_eq!(check_melody_solved(&tracker, &mapping), Some(b"melody".to_vec()));
    tracker.record_room(2);
    assert_eq!(check_melody_solved(&tracker, &mapping), None);
    tracker.record_room(8);
    assert!(!rooms_have_notes(&mapping, &tracker.room_ids));
}

#[test]
fn notes_sound_on_first_arrival_and_at_new_junctions() {
    let mut previous = None;
    let mut tracker = Some(MelodyPuzzleTracker::new(2, vec![0; 12]));
    assert_eq!(play_note(&mut previous, 4, false, 9, &mut tracker), NoteAction::PlayRoomNote(4));
    assert_eq!(previous, Some(4));
    assert_eq!(play_note(&mut previous, 4, true, 9, &mut tracker), NoteAction::Silent);
    assert_eq!(play_note(&mut previous, 5, false, 9, &mut tracker), NoteAction::Silent);
    assert_eq!(play_note(&mut previous, 6, true, 9, &mut tracker), NoteAction::PlayRoomNote(6));
    assert_eq!(play_note(&mut previous, 9, true, 9, &mut tracker), NoteAction::PlayWinningMelody);
    assert_eq!(tracker.unwrap().room_ids, VecDeque::from(vec![4, 6]));
}

#[test]
fn the_first_note_of_each_key_is_kept() {
    let notes = vec![Note::crotchet(60), Note::minim(62), Note::quaver(60), Note::minim(64), Note::crotchet(62)];
    assert_eq!(
        notes_unique_by_key(&notes),
        vec![Note::crotchet(60), Note::minim(62), Note::minim(64)]
    );
    assert!(notes_unique_by_key(&vec![]).is_empty());
}

#[test]
fn winning_melody_has_distinct_keys_from_the_level() {
    let mut mapping = NoteMapping::new();
    for room in 0..20u64 {
        mapping.insert(room, Note::crotchet(40 + (room % 9) as i32));
    }
    let melody = winning_melody_notes(&mapping);
    assert_eq!(melody.len(), WINNING_MELODY_LENGTH);
    let mut keys: Vec<i32> = melody.iter().map(|n| n.key).collect();
    keys.sort();
    keys.dedup();
    assert_eq!(keys.len(), WINNING_MELODY_LENGTH);
    assert!(melody.iter().all(|n| 40 <= n.key && n.key < 49 && n.value == NoteValue::Crotchet));

    let mut small = NoteMapping::new();
    small.insert(1, Note::minim(50));
    small.insert(2, Note::minim(50));
    small.insert(3, Note::quaver(52));
    let melody = winning_melody_notes(&small);
    assert_eq!(melody.len(), 2);
}

#[test]
fn a_solved_melody_is_announced_and_recorded() {
    let mut tracker = MelodyPuzzleTracker::new(2, vec![0; 12]);
    tracker.record_room(5);
    tracker.record_room(9);
    let puzzle = PuzzleIdentifier::Level(1);
    let mut stats = PlayStatistics(PuzzleStatisticsMap::new());
    let message = record_solved_melody(&mut stats, &puzzle, &tracker, Melody::default());
    assert_eq!(message, "~ C Major Pentatonic ~");
    assert!(stats.0.get(&puzzle).is_none());
    on_play(&mut stats, &puzzle);
    let message = record_solved_melody(&mut stats, &puzzle, &tracker, Melody::default());
    assert_eq!(message, "~ C Major Pentatonic ~");
    let found = stats.0.get(&puzzle).unwrap().discovered_melody.clone().unwrap();
    assert_eq!(found.room_ids, vec![5, 9]);
    assert_eq!(found.melody.name, "C Major Pentatonic");
    assert_eq!(stats.get_melody_room_ids(&puzzle), vec![5, 9]);
}

#[test]
fn a_found_melody_plays_after_a_short_silence() {
    let puzzle = PuzzleIdentifier::Level(2);
    let mut stats = PlayStatistics(PuzzleStatisticsMap::new());
    assert!(play_melody(&stats, &puzzle).is_none());
    on_play(&mut stats, &puzzle);
    assert!(play_melody(&stats, &puzzle).is_none());
    mazonic::play_statistics::record_discovered_melody(
        &mut stats,
        &puzzle,
        DiscoveredMelody { melody: Melody::default(), room_ids: vec![1, 2] },
    );
    let steps = play_melody(&stats, &puzzle).unwrap();
    assert_eq!(steps.len(), 7);
    assert_eq!(steps[0], MelodyStep::Pause { millis: MELODY_LEAD_IN_MILLIS });
    assert_eq!(MELODY_LEAD_IN_MILLIS, 800);
    assert_eq!(steps[1], MelodyStep::Sound(Note::crotchet(48)));
    assert_eq!(steps[6], MelodyStep::Sound(Note::crotchet(60)));
}

struct SerdeNote<'a>(&'a Note);

fn value_name(value: NoteValue) -> (u32, &'static str) {
    match value {
        NoteValue::Semiquaver => (0, "Semiquaver"),
        NoteValue::Quaver => (1, "Quaver"),
        NoteValue::Crotchet => (2, "Crotchet"),
        NoteValue::DottedCrotchet => (3, "DottedCrotchet"),
        NoteValue::Minim => (4, "Minim"),
        NoteValue::DottedMinim => (5, "DottedMinim"),
        NoteValue::Semibreve => (6, "Semibreve"),
        NoteValue::SemibreveAndCrotchet => (7, "SemibreveAndCrotchet"),
    }
}

struct SerdeValue(NoteValue);

impl Serialize for SerdeValue {
    fn serialize<S: Serializer>(&self, serializer: S) -> Result<S::Ok, S::Error> {
        let (index, name) = value_name(self.0);
        serializer.serialize_unit_variant("NoteValue", index, name)
    }
}

impl<'a> Serialize for SerdeNote<'a> {
    fn serialize<S: Serializer>(&self, serializer: S) -> Result<S::Ok, S::Error> {
        let mut state = serializer.serialize_struct("Note", 3)?;
        state.serialize_field("key", &self.0.key)?;
        state.serialize_field("velocity", &self.0.velocity)?;
        state.serialize_field("value", &SerdeValue(self.0.value))?;
        state.end()
    }
}

struct SerdeNotes<'a>(Vec<SerdeNote<'a>>);

impl<'a> Serialize for SerdeNotes<'a> {
    fn serialize<S: Serializer>(&self, serializer: S) -> Result<S::Ok, S::Error> {
        serializer.serialize_newtype_struct("Notes", &self.0)
    }
}

#[test]
fn notes_json_matches_serde_json() {
    let notes = vec![
        Note::semiquaver(-3),
        Note::quaver(i32::MAX),
        Note::crotchet(0),
        Note::dotted_crotchet(12),
        Note::minim(i32::MIN),
        Note::dotted_minim(7),
        Note::semibreve(99),
        Note { key: 1, velocity: -100, value: NoteValue::SemibreveAndCrotchet },
    ];
    for count in 0..=notes.len() {
        let chosen = Notes(notes[..count].to_vec());
        let expected = serde_json::to_vec(&SerdeNotes(chosen.0.iter().map(SerdeNote).collect())).unwrap();
        assert_eq!(serialize_notes(&chosen), expected);
    }
}
