pub mod musical_note_burst;
pub mod musical_notes;
