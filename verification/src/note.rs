//! A single note of a track.

use vstd::prelude::*;

verus! {

/// One note: how long it lasts, how high it is, whether it is sung, and the
/// syllable that goes with it.
///
/// `length` is in milliseconds. `pitch` counts semitones from A4 (440 Hz),
/// negative below it.
#[derive(Debug, Clone)]
pub struct Note {
    pub length: u32,
    pub pitch: i8,
    pub voiced: bool,
    pub lyric: String,
}

/// What a note holds, with the syllable as a sequence of characters.
pub struct NoteView {
    pub length: u32,
    pub pitch: i8,
    pub voiced: bool,
    pub lyric: Seq<char>,
}

impl View for Note {
    type V = NoteView;

    open spec fn view(&self) -> NoteView {
        NoteView {
            length: self.length,
            pitch: self.pitch,
            voiced: self.voiced,
            lyric: self.lyric@,
        }
    }
}

impl Note {
    /// Builds a note from its four parts.
    pub fn new(length: u32, pitch: i8, voiced: bool, lyric: String) -> (note: Note)
        ensures
            note.length == length,
            note.pitch == pitch,
            note.voiced == voiced,
            note.lyric == lyric,
            note@ == (NoteView { length, pitch, voiced, lyric: lyric@ }),
    {
        Note { length, pitch, voiced, lyric }
    }
}

} // verus!
