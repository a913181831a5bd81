use vstd::prelude::*;

use std::collections::VecDeque;

use chacha20poly1305::aead::generic_array::GenericArray;
use chacha20poly1305::aead::Aead;
use chacha20poly1305::{ChaCha20Poly1305, Key, KeyInit};
use rand::seq::IteratorRandom;
use rand::SeedableRng;
use rand_chacha::ChaCha20Rng;
use sha2::{Digest, Sha256};

use crate::decimal::{push_signed_decimal, signed_decimal_bytes};
use crate::game_save::{DiscoveredMelody, DiscoveredMelodyView, PuzzleIdentifier};
use crate::play_statistics::{melody_applied, record_discovered_melody, statistics_contents, PlayStatistics};

verus! {

/// The bytes that open a note object and name its key.
/// (`{"key":`)
pub const KEY_FIELD: [u8; 7] = [123, 34, 107, 101, 121, 34, 58];
/// The bytes that name the velocity of a note.
/// (`,"velocity":`)
pub const VELOCITY_FIELD: [u8; 12] = [44, 34, 118, 101, 108, 111, 99, 105, 116, 121, 34, 58];
/// The bytes that name the value of a note and open its string.
/// (`,"value":"`)
pub const VALUE_FIELD: [u8; 10] = [44, 34, 118, 97, 108, 117, 101, 34, 58, 34];
/// The bytes that close the value string and the note object.
/// (`"}`)
pub const NOTE_END: [u8; 2] = [34, 125];
/// The name under which a semiquaver is written.
pub const SEMIQUAVER_NAME: [u8; 10] = [83, 101, 109, 105, 113, 117, 97, 118, 101, 114];
/// The name under which a quaver is written.
pub const QUAVER_NAME: [u8; 6] = [81, 117, 97, 118, 101, 114];
/// The name under which a crotchet is written.
pub const CROTCHET_NAME: [u8; 8] = [67, 114, 111, 116, 99, 104, 101, 116];
/// The name under which a dotted crotchet is written.
pub const DOTTED_CROTCHET_NAME: [u8; 14] = [68, 111, 116, 116, 101, 100, 67, 114, 111, 116, 99, 104, 101, 116];
/// The name under which a minim is written.
pub const MINIM_NAME: [u8; 5] = [77, 105, 110, 105, 109];
/// The name under which a dotted minim is written.
pub const DOTTED_MINIM_NAME: [u8; 11] = [68, 111, 116, 116, 101, 100, 77, 105, 110, 105, 109];
/// The name under which a semibreve is written.
pub const SEMIBREVE_NAME: [u8; 9] = [83, 101, 109, 105, 98, 114, 101, 118, 101];
/// The name under which a semibreve tied to a crotchet is written.
pub const SEMIBREVE_AND_CROTCHET_NAME: [u8; 20] = [83, 101, 109, 105, 98, 114, 101, 118, 101, 65, 110, 100, 67, 114, 111, 116, 99, 104, 101, 116];

/// The length of a note, in the names of musical notation.
#[derive(Debug, Clone, Copy, PartialEq, Eq, Structural, Hash)]
pub enum NoteValue {
    Semiquaver,
    Quaver,
    Crotchet,
    DottedCrotchet,
    Minim,
    DottedMinim,
    Semibreve,
    SemibreveAndCrotchet,
}

/// A note: a MIDI key, how hard it is struck and how long it lasts.
#[derive(Debug, Clone, Copy, PartialEq, Eq, Structural, Hash)]
pub struct Note {
    pub key: i32,
    pub velocity: i32,
    pub value: NoteValue,
}

/// The velocity every note of the game is struck with.
pub const DEFAULT_VELOCITY: i32 = 100;

impl Note {
    pub fn new(key: i32, value: NoteValue) -> (r: Note)
        ensures
            r == (Note { key, velocity: DEFAULT_VELOCITY, value }),
    {
        Note { key, velocity: DEFAULT_VELOCITY, value }
    }

    pub fn semiquaver(key: i32) -> (r: Note)
        ensures
            r == (Note { key, velocity: DEFAULT_VELOCITY, value: NoteValue::Semiquaver }),
    {
        Self::new(key, NoteValue::Semiquaver)
    }

    pub fn quaver(key: i32) -> (r: Note)
        ensures
            r == (Note { key, velocity: DEFAULT_VELOCITY, value: NoteValue::Quaver }),
    {
        Self::new(key, NoteValue::Quaver)
    }

    pub fn crotchet(key: i32) -> (r: Note)
        ensures
            r == (Note { key, velocity: DEFAULT_VELOCITY, value: NoteValue::Crotchet }),
    {
        Self::new(key, NoteValue::Crotchet)
    }

    pub fn dotted_crotchet(key: i32) -> (r: Note)
        ensures
            r == (Note { key, velocity: DEFAULT_VELOCITY, value: NoteValue::DottedCrotchet }),
    {
        Self::new(key, NoteValue::DottedCrotchet)
    }

    pub fn minim(key: i32) -> (r: Note)
        ensures
            r == (Note { key, velocity: DEFAULT_VELOCITY, value: NoteValue::Minim }),
    {
        Self::new(key, NoteValue::Minim)
    }

    pub fn dotted_minim(key: i32) -> (r: Note)
        ensures
            r == (Note { key, velocity: DEFAULT_VELOCITY, value: NoteValue::DottedMinim }),
    {
        Self::new(key, NoteValue::DottedMinim)
    }

    pub fn semibreve(key: i32) -> (r: Note)
        ensures
            r == (Note { key, velocity: DEFAULT_VELOCITY, value: NoteValue::Semibreve }),
    {
        Self::new(key, NoteValue::Semibreve)
    }

    pub fn semibreve_and_crotchet(key: i32) -> (r: Note)
        ensures
            r == (Note { key, velocity: DEFAULT_VELOCITY, value: NoteValue::SemibreveAndCrotchet }),
    {
        Self::new(key, NoteValue::SemibreveAndCrotchet)
    }
}

/// A sequence of notes.
#[derive(Debug, Clone, Hash)]
pub struct Notes(pub Vec<Note>);

/// A named melody. The tempo is kept as the bit pattern of its beats per
/// minute, an IEEE single-precision number.
#[derive(Debug, Clone)]
pub struct Melody {
    pub name: String,
    pub notes: Notes,
    pub bpm_bits: u32,
}

/// A melody as a mathematical value.
pub struct MelodyView {
    pub name: Seq<char>,
    pub notes: Seq<Note>,
    pub bpm_bits: u32,
}

impl View for Melody {
    type V = MelodyView;

    open spec fn view(&self) -> MelodyView {
        MelodyView { name: self.name@, notes: self.notes.0@, bpm_bits: self.bpm_bits }
    }
}

/// The bit pattern of a tempo of 100 beats per minute.
pub const DEFAULT_BPM_BITS: u32 = 0x42C8_0000;

/// The notes of the default melody: a C major pentatonic run.
pub open spec fn default_melody_notes() -> Seq<Note> {
    seq![
        Note { key: 48, velocity: DEFAULT_VELOCITY, value: NoteValue::Crotchet },
        Note { key: 50, velocity: DEFAULT_VELOCITY, value: NoteValue::Crotchet },
        Note { key: 52, velocity: DEFAULT_VELOCITY, value: NoteValue::Crotchet },
        Note { key: 55, velocity: DEFAULT_VELOCITY, value: NoteValue::Crotchet },
        Note { key: 57, velocity: DEFAULT_VELOCITY, value: NoteValue::Crotchet },
        Note { key: 60, velocity: DEFAULT_VELOCITY, value: NoteValue::Crotchet },
    ]
}

impl Default for Melody {
    fn default() -> (r: Melody)
        ensures
            r.name@ == "C Major Pentatonic"@,
            r.notes.0@ == default_melody_notes(),
            r.bpm_bits == DEFAULT_BPM_BITS,
    {
        let notes = vec![
            Note::crotchet(48),
            Note::crotchet(50),
            Note::crotchet(52),
            Note::crotchet(55),
            Note::crotchet(57),
            Note::crotchet(60),
        ];
        assert(notes@ =~= default_melody_notes());
        Melody {
            name: String::from_str("C Major Pentatonic"),
            notes: Notes(notes),
            bpm_bits: DEFAULT_BPM_BITS,
        }
    }
}

/// The name under which a note value is written in a melody's JSON form.
pub open spec fn note_value_name(value: NoteValue) -> Seq<u8> {
    match value {
        NoteValue::Semiquaver => SEMIQUAVER_NAME@,
        NoteValue::Quaver => QUAVER_NAME@,
        NoteValue::Crotchet => CROTCHET_NAME@,
        NoteValue::DottedCrotchet => DOTTED_CROTCHET_NAME@,
        NoteValue::Minim => MINIM_NAME@,
        NoteValue::DottedMinim => DOTTED_MINIM_NAME@,
        NoteValue::Semibreve => SEMIBREVE_NAME@,
        NoteValue::SemibreveAndCrotchet => SEMIBREVE_AND_CROTCHET_NAME@,
    }
}

/// A note as a compact JSON object: `{"key":K,"velocity":V,"value":"NAME"}`.
pub open spec fn note_json(note: Note) -> Seq<u8> {
    KEY_FIELD@ + signed_decimal_bytes(note.key as int) + VELOCITY_FIELD@ + signed_decimal_bytes(
        note.velocity as int,
    ) + VALUE_FIELD@ + note_value_name(note.value) + NOTE_END@
}

/// The notes as JSON objects separated by commas.
pub open spec fn note_list_json(notes: Seq<Note>) -> Seq<u8>
    decreases notes.len(),
{
    if notes.len() == 0 {
        Seq::empty()
    } else if notes.len() == 1 {
        note_json(notes[0])
    } else {
        note_list_json(notes.drop_last()) + seq![44u8] + note_json(notes.last())
    }
}

/// The notes as a compact JSON array of note objects.
pub open spec fn notes_json(notes: Seq<Note>) -> Seq<u8> {
    seq![91u8] + note_list_json(notes) + seq![93u8]
}

pub(crate) fn push_bytes(out: &mut Vec<u8>, bytes: &[u8])
    ensures
        final(out)@ == old(out)@ + bytes@,
{
    let mut i: usize = 0;
    while i < bytes.len()
        invariant
            i <= bytes@.len(),
            out@ == old(out)@ + bytes@.subrange(0, i as int),
        decreases bytes@.len() - i,
    {
        out.push(bytes[i]);
        assert(bytes@.subrange(0, i as int + 1) =~= bytes@.subrange(0, i as int).push(bytes@[i as int]));
        i = i + 1;
    }
    assert(bytes@.subrange(0, bytes@.len() as int) =~= bytes@);
}

fn push_note_value_name(out: &mut Vec<u8>, value: NoteValue)
    ensures
        final(out)@ == old(out)@ + note_value_name(value),
{
    match value {
        NoteValue::Semiquaver => push_bytes(out, &SEMIQUAVER_NAME),
        NoteValue::Quaver => push_bytes(out, &QUAVER_NAME),
        NoteValue::Crotchet => push_bytes(out, &CROTCHET_NAME),
        NoteValue::DottedCrotchet => push_bytes(out, &DOTTED_CROTCHET_NAME),
        NoteValue::Minim => push_bytes(out, &MINIM_NAME),
        NoteValue::DottedMinim => push_bytes(out, &DOTTED_MINIM_NAME),
        NoteValue::Semibreve => push_bytes(out, &SEMIBREVE_NAME),
        NoteValue::SemibreveAndCrotchet => push_bytes(out, &SEMIBREVE_AND_CROTCHET_NAME),
    }
}

fn push_note_json(out: &mut Vec<u8>, note: Note)
    ensures
        final(out)@ == old(out)@ + note_json(note),
{
    push_bytes(out, &KEY_FIELD);
    push_signed_decimal(out, note.key);
    push_bytes(out, &VELOCITY_FIELD);
    push_signed_decimal(out, note.velocity);
    push_bytes(out, &VALUE_FIELD);
    push_note_value_name(out, note.value);
    push_bytes(out, &NOTE_END);
    assert(out@ =~= old(out)@ + note_json(note));
}

/// The notes written as a compact JSON array, the form in which a melody's
/// notes are hashed.
pub fn serialize_notes(notes: &Notes) -> (r: Vec<u8>)
    ensures
        r@ == notes_json(notes.0@),
{
    let mut out: Vec<u8> = Vec::new();
    out.push(91);
    let mut i: usize = 0;
    while i < notes.0.len()
        invariant
            i <= notes.0@.len(),
            out@ == seq![91u8] + note_list_json(notes.0@.subrange(0, i as int)),
        decreases notes.0@.len() - i,
    {
        let ghost before = out@;
        let ghost prefix = notes.0@.subrange(0, i as int);
        let ghost next = notes.0@.subrange(0, i as int + 1);
        assert(next.drop_last() =~= prefix);
        assert(next.last() == notes.0@[i as int]);
        if i > 0 {
            out.push(44);
        }
        push_note_json(&mut out, notes.0[i]);
        proof {
            if i == 0 {
                assert(out@ =~= seq![91u8] + note_list_json(next));
            } else {
                assert(out@ =~= seq![91u8] + note_list_json(next));
            }
        }
        i = i + 1;
    }
    assert(notes.0@.subrange(0, notes.0@.len() as int) =~= notes.0@);
    out.push(93);
    assert(out@ =~= notes_json(notes.0@));
    out
}

/// The SHA-256 digest of the bytes.
pub uninterp spec fn sha256(data: Seq<u8>) -> Seq<u8>;

/// Calls `sha2::Sha256::digest`. Trusted: the result is the SHA-256 digest of
/// `data`, a function of `data` alone, named `sha256`.
#[verifier::external_body]
pub(crate) fn sha256_digest(data: &[u8]) -> (r: [u8; 32])
    ensures
        r@ == sha256(data@),
{
    Sha256::digest(data).into()
}

/// The key under which a melody is sealed: the SHA-256 digest of its notes'
/// JSON form.
pub fn hash_melody(notes: &Notes) -> (r: [u8; 32])
    ensures
        r@ == sha256(notes_json(notes.0@)),
{
    let bytes = serialize_notes(notes);
    sha256_digest(bytes.as_slice())
}

/// The plaintext that ChaCha20-Poly1305 recovers from `ciphertext` (which ends
/// in its authentication tag) under `key` and `nonce`, or `None` when the tag
/// does not authenticate.
pub uninterp spec fn chacha20poly1305_open(key: Seq<u8>, nonce: Seq<u8>, ciphertext: Seq<u8>) -> Option<Seq<u8>>;

/// Calls `ChaCha20Poly1305::new` on the key and then `Aead::decrypt` on the
/// nonce and ciphertext. Trusted: the result is `None` exactly when decryption
/// fails, and otherwise the plaintext; both are a function of the key, nonce
/// and ciphertext alone, named `chacha20poly1305_open`. The nonce must be the
/// twelve bytes that `GenericArray::from_slice` expects here.
#[verifier::external_body]
pub(crate) fn chacha20poly1305_decrypt(key: &[u8; 32], nonce: &[u8], ciphertext: &[u8]) -> (r: Option<Vec<u8>>)
    requires
        nonce@.len() == 12,
    ensures
        r is Some <==> chacha20poly1305_open(key@, nonce@, ciphertext@) is Some,
        r matches Some(p) ==> p@ == chacha20poly1305_open(key@, nonce@, ciphertext@)->0,
{
    let cipher = ChaCha20Poly1305::new(Key::from_slice(key));
    cipher.decrypt(GenericArray::from_slice(nonce), ciphertext).ok()
}

/// The length of the nonce that precedes a sealed melody.
pub const NONCE_LENGTH: usize = 12;

/// What a sealed melody opens to when the given notes are played: the key is
/// the hash of the notes, the first twelve bytes are the nonce and the rest the
/// ciphertext.
pub open spec fn opened_melody(notes: Seq<Note>, encrypted_melody: Seq<u8>) -> Option<Seq<u8>> {
    chacha20poly1305_open(
        sha256(notes_json(notes)),
        encrypted_melody.subrange(0, NONCE_LENGTH as int),
        encrypted_melody.subrange(NONCE_LENGTH as int, encrypted_melody.len() as int),
    )
}

/// Tries to open a sealed melody with the notes the player has played. The
/// result is the melody's JSON form, or `None` when the notes are not the key.
pub fn try_decrypt_melody(notes: &Notes, encrypted_melody: &Vec<u8>) -> (r: Option<Vec<u8>>)
    requires
        encrypted_melody@.len() >= NONCE_LENGTH,
    ensures
        r is Some <==> opened_melody(notes.0@, encrypted_melody@) is Some,
        r matches Some(p) ==> p@ == opened_melody(notes.0@, encrypted_melody@)->0,
{
    let key = hash_melody(notes);
    let (nonce, ciphertext) = encrypted_melody.as_slice().split_at(NONCE_LENGTH);
    assert(nonce@ =~= encrypted_melody@.subrange(0, NONCE_LENGTH as int));
    assert(ciphertext@ =~= encrypted_melody@.subrange(NONCE_LENGTH as int, encrypted_melody@.len() as int));
    chacha20poly1305_decrypt(&key, nonce, ciphertext)
}

/// The notes that the game plays in each room, keyed by room id.
#[verifier::external_body]
pub struct NoteMapping {
    notes: hashbrown::HashMap<u64, Note>,
}

/// The notes held by a note mapping, keyed by room id.
pub uninterp spec fn note_mapping_contents(mapping: NoteMapping) -> Map<u64, Note>;

impl NoteMapping {
    /// Calls `hashbrown::HashMap::new`. Trusted: the new mapping holds no note.
    #[verifier::external_body]
    pub fn new() -> (mapping: NoteMapping)
        ensures
            note_mapping_contents(mapping).dom().is_empty(),
    {
        NoteMapping { notes: hashbrown::HashMap::new() }
    }

    /// Calls `hashbrown::HashMap::insert`. Trusted: afterwards the mapping gives
    /// `note` for `room_id` and is otherwise unchanged.
    #[verifier::external_body]
    pub fn insert(&mut self, room_id: u64, note: Note)
        ensures
            note_mapping_contents(*final(self)) == note_mapping_contents(*old(self)).insert(room_id, note),
    {
        self.notes.insert(room_id, note);
    }

    /// Calls `hashbrown::HashMap::get`. Trusted: the result is the note held for
    /// `room_id`, or `None` when there is none.
    #[verifier::external_body]
    pub fn get(&self, room_id: u64) -> (r: Option<Note>)
        ensures
            r is Some <==> note_mapping_contents(*self).contains_key(room_id),
            r matches Some(n) ==> n == note_mapping_contents(*self)[room_id],
    {
        self.notes.get(&room_id).copied()
    }

    /// Calls `hashbrown::HashMap::values`. Trusted: the result holds the note of
    /// each room once, in the map's own order, which is left unsaid.
    #[verifier::external_body]
    pub fn notes(&self) -> (r: Vec<Note>)
        ensures
            r@.len() == note_mapping_contents(*self).dom().len(),
            forall|i: int|
                #![trigger r@[i]]
                0 <= i < r@.len() ==> exists|room: u64|
                    #[trigger] note_mapping_contents(*self).contains_key(room)
                        && note_mapping_contents(*self)[room] == r@[i],
            forall|room: u64|
                #[trigger] note_mapping_contents(*self).contains_key(room) ==> r@.contains(
                    note_mapping_contents(*self)[room],
                ),
    {
        self.notes.values().copied().collect()
    }
}

/// Whether some note of `notes` has the key `key`.
pub open spec fn has_key(notes: Seq<Note>, key: i32) -> bool {
    exists|j: int| 0 <= j < notes.len() && #[trigger] notes[j].key == key
}

/// The first note of each key, in the order of `notes`.
pub open spec fn unique_by_key(notes: Seq<Note>) -> Seq<Note>
    decreases notes.len(),
{
    if notes.len() == 0 {
        Seq::empty()
    } else {
        let earlier = unique_by_key(notes.drop_last());
        if has_key(earlier, notes.last().key) {
            earlier
        } else {
            earlier.push(notes.last())
        }
    }
}

/// The first note of each key, in the order of `notes`.
pub fn notes_unique_by_key(notes: &Vec<Note>) -> (r: Vec<Note>)
    ensures
        r@ == unique_by_key(notes@),
{
    let mut unique: Vec<Note> = Vec::new();
    let mut i: usize = 0;
    while i < notes.len()
        invariant
            i <= notes@.len(),
            unique@ == unique_by_key(notes@.take(i as int)),
        decreases notes@.len() - i,
    {
        let note = notes[i];
        let mut seen = false;
        let mut j: usize = 0;
        while j < unique.len()
            invariant
                j <= unique@.len(),
                seen <==> exists|k: int| 0 <= k < j && #[trigger] unique@[k].key == note.key,
            decreases unique@.len() - j,
        {
            if unique[j].key == note.key {
                seen = true;
            }
            j = j + 1;
        }
        assert(notes@.take(i as int + 1).drop_last() =~= notes@.take(i as int));
        if !seen {
            unique.push(note);
        }
        i = i + 1;
    }
    assert(notes@.take(notes@.len() as int) =~= notes@);
    unique
}

/// Calls `IteratorRandom::choose_multiple` of `rand` with a `ChaCha20Rng`
/// seeded from the system's entropy. Trusted: the result holds
/// `amount` of the notes, or all of them when there are fewer, each taken
/// from a different position of `notes`. Which notes, and their order, rest
/// on chance and are left unsaid; seeding panics if the system gives no
/// entropy.
#[verifier::external_body]
fn choose_notes(notes: Vec<Note>, amount: usize) -> (r: Vec<Note>)
    ensures
        r@.len() == (if notes@.len() < amount { notes@.len() } else { amount as nat }),
        r@.to_multiset().subset_of(notes@.to_multiset()),
{
    let mut rng = ChaCha20Rng::from_entropy();
    notes.into_iter().choose_multiple(&mut rng, amount)
}

/// The number of notes of the melody played on reaching the goal.
pub const WINNING_MELODY_LENGTH: usize = 6;

/// Whether `listing` lists the notes of the mapping: as many notes as rooms,
/// each the note of some room, and the note of every room among them.
pub open spec fn lists_notes(listing: Seq<Note>, mapping: Map<u64, Note>) -> bool {
    &&& listing.len() == mapping.dom().len()
    &&& forall|i: int|
        #![trigger listing[i]]
        0 <= i < listing.len() ==> exists|room: u64|
            #[trigger] mapping.contains_key(room) && mapping[room] == listing[i]
    &&& forall|room: u64| #[trigger] mapping.contains_key(room) ==> listing.contains(mapping[room])
}

/// The notes of the melody played on reaching the goal: six notes of the
/// level of different keys, or one of each key when there are fewer keys,
/// picked at random. Of every outcome it holds that it is drawn, without
/// repeating a position, from the first note of each key in some listing of
/// the level's notes.
pub fn winning_melody_notes(mapping: &NoteMapping) -> (r: Vec<Note>)
    ensures
        exists|listing: Seq<Note>| {
            &&& lists_notes(listing, note_mapping_contents(*mapping))
            &&& r@.len() == (if unique_by_key(listing).len() < WINNING_MELODY_LENGTH {
                unique_by_key(listing).len()
            } else {
                WINNING_MELODY_LENGTH as nat
            })
            &&& r@.to_multiset().subset_of(unique_by_key(listing).to_multiset())
        },
{
    let notes = mapping.notes();
    let unique = notes_unique_by_key(&notes);
    let r = choose_notes(unique, WINNING_MELODY_LENGTH);
    assert(lists_notes(notes@, note_mapping_contents(*mapping)));
    r
}

/// The first note of each key keeps every key of `notes` exactly once, and
/// only notes of `notes`.
pub proof fn lemma_unique_by_key_keeps_each_key_once(notes: Seq<Note>)
    ensures
        forall|i: int, j: int|
            0 <= i < j < unique_by_key(notes).len() ==> #[trigger] unique_by_key(notes)[i].key
                != #[trigger] unique_by_key(notes)[j].key,
        forall|i: int| 0 <= i < notes.len() ==> has_key(unique_by_key(notes), #[trigger] notes[i].key),
        forall|i: int| 0 <= i < unique_by_key(notes).len() ==> notes.contains(#[trigger] unique_by_key(notes)[i]),
    decreases notes.len(),
{
    if notes.len() > 0 {
        let init = notes.drop_last();
        lemma_unique_by_key_keeps_each_key_once(init);
        let earlier = unique_by_key(init);
        let u = unique_by_key(notes);
        assert forall|i: int| 0 <= i < notes.len() implies has_key(u, #[trigger] notes[i].key) by {
            if i < notes.len() - 1 {
                assert(init[i] == notes[i]);
                let j = choose|j: int| 0 <= j < earlier.len() && #[trigger] earlier[j].key == notes[i].key;
                assert(u[j] == earlier[j]);
            } else if has_key(earlier, notes.last().key) {
            } else {
                assert(u[earlier.len() as int] == notes.last());
            }
        }
        assert forall|i: int| 0 <= i < u.len() implies notes.contains(#[trigger] u[i]) by {
            if i < earlier.len() {
                assert(u[i] == earlier[i]);
                let k = choose|k: int| 0 <= k < init.len() && init[k] == earlier[i];
                assert(notes[k] == init[k]);
            } else {
                assert(notes[notes.len() - 1] == u[i]);
            }
        }
    }
}

/// Whether every room of `room_ids` has a note.
pub open spec fn all_rooms_have_notes(mapping: Map<u64, Note>, room_ids: Seq<u64>) -> bool {
    forall|i: int| 0 <= i < room_ids.len() ==> mapping.contains_key(#[trigger] room_ids[i])
}

/// The notes of the rooms, in order.
pub open spec fn spec_melody_notes(mapping: Map<u64, Note>, room_ids: Seq<u64>) -> Seq<Note> {
    room_ids.map_values(|id: u64| mapping[id])
}

/// Whether every room of `room_ids` has a note.
pub fn rooms_have_notes(mapping: &NoteMapping, room_ids: &VecDeque<u64>) -> (r: bool)
    ensures
        r == all_rooms_have_notes(note_mapping_contents(*mapping), room_ids@),
{
    let mut i: usize = 0;
    while i < room_ids.len()
        invariant
            i <= room_ids@.len(),
            forall|j: int| 0 <= j < i ==> note_mapping_contents(*mapping).contains_key(#[trigger] room_ids@[j]),
        decreases room_ids@.len() - i,
    {
        if mapping.get(room_ids[i]).is_none() {
            return false;
        }
        i = i + 1;
    }
    true
}

/// The notes of the rooms, in order.
pub fn melody_notes(mapping: &NoteMapping, room_ids: &VecDeque<u64>) -> (r: Notes)
    requires
        all_rooms_have_notes(note_mapping_contents(*mapping), room_ids@),
    ensures
        r.0@ == spec_melody_notes(note_mapping_contents(*mapping), room_ids@),
{
    let ghost contents = note_mapping_contents(*mapping);
    let mut notes: Vec<Note> = Vec::new();
    let mut i: usize = 0;
    while i < room_ids.len()
        invariant
            i <= room_ids@.len(),
            contents == note_mapping_contents(*mapping),
            all_rooms_have_notes(contents, room_ids@),
            notes@ == room_ids@.subrange(0, i as int).map_values(|id: u64| contents[id]),
        decreases room_ids@.len() - i,
    {
        let room_id = room_ids[i];
        assert(contents.contains_key(room_ids@[i as int]));
        let note = mapping.get(room_id).unwrap();
        notes.push(note);
        assert(room_ids@.subrange(0, i as int + 1).map_values(|id: u64| contents[id])
            =~= room_ids@.subrange(0, i as int).map_values(|id: u64| contents[id]).push(note));
        i = i + 1;
    }
    assert(room_ids@.subrange(0, room_ids@.len() as int) =~= room_ids@);
    Notes(notes)
}

/// The window of recent items after an item is recorded: the oldest item
/// leaves once the window holds `length` items.
pub open spec fn record_in_window<A>(window: Seq<A>, length: nat, item: A) -> Seq<A> {
    if window.len() == length && window.len() > 0 {
        window.drop_first().push(item)
    } else {
        window.push(item)
    }
}

/// Follows the rooms a player passes through, to tell when the last notes
/// played open the level's sealed melody.
pub struct MelodyPuzzleTracker {
    /// The most recent junction rooms, oldest first.
    pub room_ids: VecDeque<u64>,
    /// The number of notes in the sealed melody.
    pub melody_length: usize,
    /// The nonce followed by the sealed melody.
    pub encrypted_melody_bytes: Vec<u8>,
}

impl MelodyPuzzleTracker {
    pub fn new(melody_length: usize, encrypted_melody_bytes: Vec<u8>) -> (r: MelodyPuzzleTracker)
        ensures
            r.room_ids@ == Seq::<u64>::empty(),
            r.melody_length == melody_length,
            r.encrypted_melody_bytes@ == encrypted_melody_bytes@,
    {
        MelodyPuzzleTracker {
            room_ids: VecDeque::with_capacity(melody_length),
            melody_length,
            encrypted_melody_bytes,
        }
    }

    /// Records that the player reached a junction room.
    pub fn record_room(&mut self, room_id: u64)
        ensures
            final(self).room_ids@ == record_in_window(old(self).room_ids@, old(self).melody_length as nat, room_id),
            final(self).melody_length == old(self).melody_length,
            final(self).encrypted_melody_bytes@ == old(self).encrypted_melody_bytes@,
    {
        if self.room_ids.len() == self.melody_length {
            let _ = self.room_ids.pop_front();
        }
        self.room_ids.push_back(room_id);
        proof {
            let w = old(self).room_ids@;
            if w.len() == old(self).melody_length && w.len() > 0 {
                assert(w.subrange(1, w.len() as int) =~= w.drop_first());
            }
        }
    }
}

/// Checks whether the notes of the recent rooms open the sealed melody. The
/// result is the melody's JSON form; `None` when the notes do not open it.
pub fn check_melody_solved(tracker: &MelodyPuzzleTracker, mapping: &NoteMapping) -> (r: Option<Vec<u8>>)
    requires
        tracker.encrypted_melody_bytes@.len() >= NONCE_LENGTH,
        all_rooms_have_notes(note_mapping_contents(*mapping), tracker.room_ids@),
    ensures
        r is Some <==> opened_melody(
            spec_melody_notes(note_mapping_contents(*mapping), tracker.room_ids@),
            tracker.encrypted_melody_bytes@,
        ) is Some,
        r matches Some(p) ==> p@ == opened_melody(
            spec_melody_notes(note_mapping_contents(*mapping), tracker.room_ids@),
            tracker.encrypted_melody_bytes@,
        )->0,
{
    let notes = melody_notes(mapping, &tracker.room_ids);
    try_decrypt_melody(&notes, &tracker.encrypted_melody_bytes)
}

/// The message shown when a melody is found: its name between tildes.
pub open spec fn melody_message(name: Seq<char>) -> Seq<char> {
    "~ "@ + name + " ~"@
}

/// Records a melody that the recent rooms opened: the puzzle's statistics,
/// when the puzzle has an entry, keep the melody with the rooms that played
/// it, oldest first. The result is the message shown to the player.
pub fn record_solved_melody(
    play_statistics: &mut PlayStatistics,
    puzzle: &PuzzleIdentifier,
    tracker: &MelodyPuzzleTracker,
    melody: Melody,
) -> (r: String)
    ensures
        r@ == melody_message(melody@.name),
        statistics_contents(final(play_statistics).0) == melody_applied(
            statistics_contents(old(play_statistics).0),
            puzzle@,
            DiscoveredMelodyView { melody: melody@, room_ids: tracker.room_ids@ },
        ),
{
    let mut message = String::from_str("~ ");
    message.append(melody.name.as_str());
    message.append(" ~");
    let mut room_ids: Vec<u64> = Vec::new();
    let mut i: usize = 0;
    while i < tracker.room_ids.len()
        invariant
            i <= tracker.room_ids@.len(),
            room_ids@ == tracker.room_ids@.subrange(0, i as int),
        decreases tracker.room_ids@.len() - i,
    {
        room_ids.push(tracker.room_ids[i]);
        assert(tracker.room_ids@.subrange(0, i as int + 1) =~= tracker.room_ids@.subrange(0, i as int).push(
            tracker.room_ids@[i as int],
        ));
        i = i + 1;
    }
    assert(tracker.room_ids@.subrange(0, tracker.room_ids@.len() as int) =~= tracker.room_ids@);
    record_discovered_melody(play_statistics, puzzle, DiscoveredMelody { melody, room_ids });
    message
}

/// A step of the playback of a found melody.
#[derive(Debug, Clone, Copy, PartialEq, Eq, Structural)]
pub enum MelodyStep {
    /// Silence for the given number of milliseconds.
    Pause { millis: u64 },
    /// The note, held for its value at the melody's tempo.
    Sound(Note),
}

/// The silence before a found melody is played, in milliseconds.
pub const MELODY_LEAD_IN_MILLIS: u64 = 800;

/// The playback of a melody's notes: a short silence, then each note in
/// order.
pub open spec fn spec_melody_playback(notes: Seq<Note>) -> Seq<MelodyStep> {
    seq![MelodyStep::Pause { millis: MELODY_LEAD_IN_MILLIS }] + notes.map_values(|n: Note| MelodyStep::Sound(n))
}

/// The playback of the melody found in the puzzle; `None` when none has been
/// found there. How long each note lasts follows from the melody's tempo.
pub fn play_melody(play_statistics: &PlayStatistics, puzzle: &PuzzleIdentifier) -> (r: Option<Vec<MelodyStep>>)
    ensures
        r is Some <==> statistics_contents(play_statistics.0).contains_key(puzzle@)
            && statistics_contents(play_statistics.0)[puzzle@].discovered_melody is Some,
        r matches Some(steps) ==> steps@ == spec_melody_playback(
            statistics_contents(play_statistics.0)[puzzle@].discovered_melody->0.melody.notes,
        ),
{
    match play_statistics.0.get(puzzle) {
        Some(statistics) => match &statistics.discovered_melody {
            Some(found) => {
                let notes = &found.melody.notes.0;
                let mut steps: Vec<MelodyStep> = Vec::new();
                steps.push(MelodyStep::Pause { millis: MELODY_LEAD_IN_MILLIS });
                let mut i: usize = 0;
                while i < notes.len()
                    invariant
                        i <= notes@.len(),
                        steps@ == seq![MelodyStep::Pause { millis: MELODY_LEAD_IN_MILLIS }]
                            + notes@.subrange(0, i as int).map_values(|n: Note| MelodyStep::Sound(n)),
                    decreases notes@.len() - i,
                {
                    steps.push(MelodyStep::Sound(notes[i]));
                    assert(notes@.subrange(0, i as int + 1).map_values(|n: Note| MelodyStep::Sound(n))
                        =~= notes@.subrange(0, i as int).map_values(|n: Note| MelodyStep::Sound(n)).push(
                        MelodyStep::Sound(notes@[i as int]),
                    ));
                    i = i + 1;
                }
                assert(notes@.subrange(0, notes@.len() as int) =~= notes@);
                Some(steps)
            },
            None => None,
        },
        None => None,
    }
}

/// What sounds when the player arrives in a room.
#[derive(Debug, Clone, Copy, PartialEq, Eq, Structural)]
pub enum NoteAction {
    /// Nothing sounds.
    Silent,
    /// The note of the room sounds.
    PlayRoomNote(u64),
    /// The winning melody sounds: the room is the goal.
    PlayWinningMelody,
}

/// Whether a note sounds on arriving in `room`: always for the first room,
/// afterwards only on moving to another room that is a junction.
pub open spec fn sounds_on_arrival(previous_room: Option<u64>, room: u64, room_is_junction: bool) -> bool {
    match previous_room {
        Some(previous) => previous != room && room_is_junction,
        None => true,
    }
}

/// What sounds on arriving in `room`.
pub open spec fn note_decision(previous_room: Option<u64>, room: u64, room_is_junction: bool, final_room: u64) -> NoteAction {
    if !sounds_on_arrival(previous_room, room, room_is_junction) {
        NoteAction::Silent
    } else if room != final_room {
        NoteAction::PlayRoomNote(room)
    } else {
        NoteAction::PlayWinningMelody
    }
}

/// Handles the player's arrival in `room`: remembers the room, records it in
/// the melody tracker when its note sounds, and says what sounds.
pub fn play_note(
    previous_room: &mut Option<u64>,
    room: u64,
    room_is_junction: bool,
    final_room: u64,
    tracker: &mut Option<MelodyPuzzleTracker>,
) -> (r: NoteAction)
    ensures
        r == note_decision(*old(previous_room), room, room_is_junction, final_room),
        *final(previous_room) == Some(room),
        (*final(tracker) is Some) <==> (*old(tracker) is Some),
        r is PlayRoomNote ==> (*old(tracker) matches Some(t) ==> {
            &&& (*final(tracker))->0.room_ids@ == record_in_window(t.room_ids@, t.melody_length as nat, room)
            &&& (*final(tracker))->0.melody_length == t.melody_length
            &&& (*final(tracker))->0.encrypted_melody_bytes@ == t.encrypted_melody_bytes@
        }),
        !(r is PlayRoomNote) ==> *final(tracker) == *old(tracker),
{
    let play_sound = match *previous_room {
        Some(previous) => previous != room && room_is_junction,
        None => true,
    };
    *previous_room = Some(room);
    if !play_sound {
        return NoteAction::Silent;
    }
    if room != final_room {
        match tracker {
            Some(t) => t.record_room(room),
            None => {},
        }
        NoteAction::PlayRoomNote(room)
    } else {
        NoteAction::PlayWinningMelody
    }
}

/// The window after the items are recorded, in order, into an empty
/// tracker.
pub open spec fn window_after<A>(items: Seq<A>, length: nat) -> Seq<A>
    decreases items.len(),
{
    if items.len() == 0 {
        Seq::empty()
    } else {
        record_in_window(window_after(items.drop_last(), length), length, items.last())
    }
}

/// A tracker holds exactly the most recent rooms (or notes), as many as the
/// melody has notes, oldest first.
pub proof fn lemma_window_holds_latest_rooms<A>(items: Seq<A>, length: nat)
    requires
        length > 0,
    ensures
        window_after(items, length) == items.subrange(
            if items.len() > length { items.len() - length } else { 0 },
            items.len() as int,
        ),
    decreases items.len(),
{
    let n = items.len() as int;
    if n > 0 {
        let init = items.drop_last();
        lemma_window_holds_latest_rooms(init, length);
        let w = window_after(init, length);
        if n - 1 > length {
            assert(w.drop_first().push(items.last()) =~= items.subrange(n - length, n));
        } else if n - 1 == length {
            assert(w.drop_first().push(items.last()) =~= items.subrange(n - length, n));
        } else {
            assert(w.push(items.last()) =~= items.subrange(0, n));
        }
    } else {
        assert(items.subrange(0, 0) =~= Seq::<A>::empty());
    }
}

} // verus!
