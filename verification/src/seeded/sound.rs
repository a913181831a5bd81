use vstd::prelude::*;

use std::collections::VecDeque;

use crate::decimal::{decimal_bytes, push_decimal, push_signed_decimal, signed_decimal_bytes};
use crate::sound::{
    chacha20poly1305_decrypt, chacha20poly1305_open, push_bytes, record_in_window, sha256, sha256_digest, KEY_FIELD,
    NONCE_LENGTH, VELOCITY_FIELD,
};

verus! {

/// The bytes that name the length of a note and open it, with its seconds.
/// (`,"duration":{"secs":`)
pub const DURATION_FIELD: [u8; 20] = [44, 34, 100, 117, 114, 97, 116, 105, 111, 110, 34, 58, 123, 34, 115, 101, 99, 115, 34, 58];
/// The bytes that name the nanoseconds of the length of a note.
/// (`,"nanos":`)
pub const NANOS_FIELD: [u8; 9] = [44, 34, 110, 97, 110, 111, 115, 34, 58];
/// The bytes that close the length and the note.
/// (`}}`)
pub const DURATION_END: [u8; 2] = [125, 125];

/// A note of the seeded edition: a MIDI key, how hard it is struck, and how
/// long it lasts, in whole seconds and nanoseconds.
#[derive(Debug, Clone, Copy, PartialEq, Eq, Structural, Hash)]
pub struct Note {
    pub key: i32,
    pub velocity: i32,
    pub duration_secs: u64,
    pub duration_nanos: u32,
}

/// A sequence of notes.
#[derive(Debug, Clone)]
pub struct Notes(pub Vec<Note>);

/// A named melody.
#[derive(Debug, Clone)]
pub struct Melody {
    pub name: String,
    pub notes: Notes,
}

/// A melody as its name and notes.
pub struct MelodyView {
    pub name: Seq<char>,
    pub notes: Seq<Note>,
}

impl View for Melody {
    type V = MelodyView;

    open spec fn view(&self) -> MelodyView {
        MelodyView { name: self.name@, notes: self.notes.0@ }
    }
}

/// The JSON form of a note:
/// `{"key":K,"velocity":V,"duration":{"secs":S,"nanos":N}}`.
pub open spec fn note_json(note: Note) -> Seq<u8> {
    KEY_FIELD@ + signed_decimal_bytes(note.key as int) + VELOCITY_FIELD@ + signed_decimal_bytes(
        note.velocity as int,
    ) + DURATION_FIELD@ + decimal_bytes(note.duration_secs as nat) + NANOS_FIELD@ + decimal_bytes(
        note.duration_nanos as nat,
    ) + DURATION_END@
}

/// The JSON forms of the notes, separated by commas.
pub open spec fn note_list_json(notes: Seq<Note>) -> Seq<u8>
    decreases notes.len(),
{
    if notes.len() == 0 {
        Seq::empty()
    } else if notes.len() == 1 {
        note_json(notes[0])
    } else {
        note_list_json(notes.drop_last()) + seq![44u8] + note_json(notes.last())
    }
}

/// The JSON form of a sequence of notes: a JSON array.
pub open spec fn notes_json(notes: Seq<Note>) -> Seq<u8> {
    seq![91u8] + note_list_json(notes) + seq![93u8]
}

fn push_note_json(out: &mut Vec<u8>, note: Note)
    ensures
        final(out)@ == old(out)@ + note_json(note),
{
    push_bytes(out, &KEY_FIELD);
    push_signed_decimal(out, note.key);
    push_bytes(out, &VELOCITY_FIELD);
    push_signed_decimal(out, note.velocity);
    push_bytes(out, &DURATION_FIELD);
    push_decimal(out, note.duration_secs);
    push_bytes(out, &NANOS_FIELD);
    push_decimal(out, note.duration_nanos as u64);
    push_bytes(out, &DURATION_END);
    assert(out@ =~= old(out)@ + note_json(note));
}

/// The JSON form of the notes, as the melody's key is derived from it.
pub fn serialize_notes(notes: &Notes) -> (r: Vec<u8>)
    ensures
        r@ == notes_json(notes.0@),
{
    let mut out: Vec<u8> = Vec::new();
    out.push(91);
    let mut i: usize = 0;
    while i < notes.0.len()
        invariant
            i <= notes.0@.len(),
            out@ == seq![91u8] + note_list_json(notes.0@.subrange(0, i as int)),
        decreases notes.0@.len() - i,
    {
        let ghost prefix = notes.0@.subrange(0, i as int);
        let ghost next = notes.0@.subrange(0, i as int + 1);
        assert(next.drop_last() =~= prefix);
        assert(next.last() == notes.0@[i as int]);
        if i > 0 {
            out.push(44);
        }
        push_note_json(&mut out, notes.0[i]);
        assert(out@ =~= seq![91u8] + note_list_json(next));
        i = i + 1;
    }
    assert(notes.0@.subrange(0, notes.0@.len() as int) =~= notes.0@);
    out.push(93);
    assert(out@ =~= notes_json(notes.0@));
    out
}

/// The key of the sealed melody: the SHA-256 digest of the notes' JSON form.
pub fn hash_melody(notes: &Notes) -> (r: [u8; 32])
    ensures
        r@ == sha256(notes_json(notes.0@)),
{
    let bytes = serialize_notes(notes);
    sha256_digest(bytes.as_slice())
}

/// What opening the sealed melody with the notes gives: its plaintext, or
/// `None` when the notes are not the melody's.
pub open spec fn opened_melody(notes: Seq<Note>, encrypted_melody: Seq<u8>) -> Option<Seq<u8>> {
    chacha20poly1305_open(
        sha256(notes_json(notes)),
        encrypted_melody.subrange(0, NONCE_LENGTH as int),
        encrypted_melody.subrange(NONCE_LENGTH as int, encrypted_melody.len() as int),
    )
}

/// Opens the sealed melody (a nonce followed by the ciphertext) with the key
/// made from the notes; the result is the melody's JSON form.
pub fn try_decrypt_melody(notes: &Notes, encrypted_melody: &Vec<u8>) -> (r: Option<Vec<u8>>)
    requires
        encrypted_melody@.len() >= NONCE_LENGTH,
    ensures
        r is Some <==> opened_melody(notes.0@, encrypted_melody@) is Some,
        r matches Some(p) ==> p@ == opened_melody(notes.0@, encrypted_melody@)->0,
{
    let key = hash_melody(notes);
    let (nonce, ciphertext) = encrypted_melody.as_slice().split_at(NONCE_LENGTH);
    assert(nonce@ =~= encrypted_melody@.subrange(0, NONCE_LENGTH as int));
    assert(ciphertext@ =~= encrypted_melody@.subrange(NONCE_LENGTH as int, encrypted_melody@.len() as int));
    chacha20poly1305_decrypt(&key, nonce, ciphertext)
}

/// Follows the notes a player plays, to tell when the last of them open the
/// level's sealed melody.
pub struct MelodyPuzzleTracker {
    /// The most recent notes, oldest first.
    pub notes: VecDeque<Note>,
    /// How many notes the window holds.
    pub capacity: usize,
    /// The nonce followed by the sealed melody.
    pub encrypted_melody_bytes: Vec<u8>,
}

impl MelodyPuzzleTracker {
    /// A tracker holding no note yet.
    pub fn new(capacity: usize, encrypted_melody_bytes: Vec<u8>) -> (r: MelodyPuzzleTracker)
        ensures
            r.notes@ == Seq::<Note>::empty(),
            r.capacity == capacity,
            r.encrypted_melody_bytes@ == encrypted_melody_bytes@,
    {
        MelodyPuzzleTracker { notes: VecDeque::with_capacity(capacity), capacity, encrypted_melody_bytes }
    }

    /// Records a note that was played.
    pub fn record_note(&mut self, note: Note)
        ensures
            final(self).notes@ == record_in_window(old(self).notes@, old(self).capacity as nat, note),
            final(self).capacity == old(self).capacity,
            final(self).encrypted_melody_bytes@ == old(self).encrypted_melody_bytes@,
    {
        if self.notes.len() == self.capacity {
            let _ = self.notes.pop_front();
        }
        self.notes.push_back(note);
        proof {
            let w = old(self).notes@;
            if w.len() == old(self).capacity && w.len() > 0 {
                assert(w.subrange(1, w.len() as int) =~= w.drop_first());
            }
        }
    }
}

/// Checks whether the recent notes open the sealed melody; the result is the
/// melody's JSON form, `None` when they do not.
pub fn check_melody_solved(tracker: &MelodyPuzzleTracker) -> (r: Option<Vec<u8>>)
    requires
        tracker.encrypted_melody_bytes@.len() >= NONCE_LENGTH,
    ensures
        r is Some <==> opened_melody(tracker.notes@, tracker.encrypted_melody_bytes@) is Some,
        r matches Some(p) ==> p@ == opened_melody(tracker.notes@, tracker.encrypted_melody_bytes@)->0,
{
    let mut notes: Vec<Note> = Vec::new();
    let mut i: usize = 0;
    while i < tracker.notes.len()
        invariant
            i <= tracker.notes@.len(),
            notes@ == tracker.notes@.subrange(0, i as int),
        decreases tracker.notes@.len() - i,
    {
        notes.push(tracker.notes[i]);
        assert(tracker.notes@.subrange(0, i as int + 1) =~= tracker.notes@.subrange(0, i as int).push(
            tracker.notes@[i as int],
        ));
        i = i + 1;
    }
    assert(tracker.notes@.subrange(0, tracker.notes@.len() as int) =~= tracker.notes@);
    try_decrypt_melody(&Notes(notes), &tracker.encrypted_melody_bytes)
}

/// Whether a note sounds on arriving in `room`: only on moving from another
/// room into a junction; the first room reached stays silent.
pub open spec fn sounds_on_arrival(last_room: Option<u64>, room: u64, room_is_junction: bool) -> bool {
    match last_room {
        Some(last) => last != room && room_is_junction,
        None => false,
    }
}

/// Handles the player's arrival in `room`: remembers the room and says
/// whether the room's note sounds; the caller records the note in the
/// tracker when it does.
pub fn play_note(last_room: &mut Option<u64>, room: u64, room_is_junction: bool) -> (r: bool)
    ensures
        r == sounds_on_arrival(*old(last_room), room, room_is_junction),
        *final(last_room) == Some(room),
{
    let last = match *last_room {
        Some(last) => last,
        None => room,
    };
    *last_room = Some(room);
    !(room == last || !room_is_junction)
}

} // verus!
