//! Tracks: phrases of notes, in the order in which they are sung.

use vstd::prelude::*;
use crate::note::Note;
use crate::note::NoteView;

verus! {

/// A track: its name and its phrases, each phrase a run of notes.
#[derive(Debug, Clone)]
pub struct Track {
    pub name: String,
    pub phrases: Vec<Vec<Note>>,
}

/// The notes of `phrases`, phrase by phrase.
pub open spec fn notes_of(phrases: Seq<Vec<Note>>) -> Seq<Seq<NoteView>> {
    Seq::new(phrases.len(), |p: int| Seq::new(phrases[p]@.len(), |n: int| phrases[p]@[n]@))
}

/// The number of notes in the first `upto` phrases of `notes`.
pub open spec fn note_total(notes: Seq<Seq<NoteView>>, upto: int) -> nat
    decreases upto,
{
    if upto <= 0 {
        0
    } else {
        note_total(notes, upto - 1) + notes[upto - 1].len()
    }
}

/// Whether notes can be played as a backing track: there is a phrase, no
/// phrase is empty, and every note lasts at least one millisecond.
pub open spec fn playable(notes: Seq<Seq<NoteView>>) -> bool {
    &&& notes.len() >= 1
    &&& forall|p: int| 0 <= p < notes.len() ==> (#[trigger] notes[p]).len() >= 1
    &&& forall|p: int, n: int|
        0 <= p < notes.len() && 0 <= n < notes[p].len() ==> (#[trigger] notes[p][n]).length >= 1
}

impl Track {
    /// The notes of the track, phrase by phrase.
    pub open spec fn notes(&self) -> Seq<Seq<NoteView>> {
        notes_of(self.phrases@)
    }

    /// The number of notes in the track.
    pub open spec fn note_count(&self) -> nat {
        note_total(self.notes(), self.notes().len() as int)
    }

    /// Makes a track without a name and without phrases.
    pub fn new() -> (track: Track)
        ensures
            track.name@ == Seq::<char>::empty(),
            track.phrases@ == Seq::<Vec<Note>>::empty(),
            track.notes() == Seq::<Seq<NoteView>>::empty(),
    {
        let track = Track { name: String::new(), phrases: Vec::new() };
        assert(track.notes() =~= Seq::<Seq<NoteView>>::empty());
        track
    }

    /// The phrase at `index`, if the track has as many.
    pub fn get_phrase(&self, index: usize) -> (phrase: Option<&Vec<Note>>)
        ensures
            index < self.phrases@.len() ==> phrase == Some(&self.phrases@[index as int]),
            index >= self.phrases@.len() ==> phrase.is_none(),
    {
        if index < self.phrases.len() {
            Some(&self.phrases[index])
        } else {
            None
        }
    }

    /// Whether the track can be played as a backing track.
    pub fn is_playable(&self) -> (result: bool)
        ensures
            result == playable(self.notes()),
    {
        if self.phrases.len() == 0 {
            return false;
        }
        let ghost notes = self.notes();
        let mut p: usize = 0;
        while p < self.phrases.len()
            invariant
                notes == self.notes(),
                0 <= p <= self.phrases@.len(),
                forall|q: int| 0 <= q < p ==> (#[trigger] notes[q]).len() >= 1,
                forall|q: int, n: int|
                    0 <= q < p && 0 <= n < notes[q].len() ==> (#[trigger] notes[q][n]).length >= 1,
            decreases self.phrases@.len() - p,
        {
            let phrase = &self.phrases[p];
            if phrase.len() == 0 {
                assert(notes[p as int].len() == 0);
                return false;
            }
            let mut n: usize = 0;
            while n < phrase.len()
                invariant
                    notes == self.notes(),
                    0 <= p < self.phrases@.len(),
                    *phrase == self.phrases@[p as int],
                    0 <= n <= phrase@.len(),
                    forall|m: int| 0 <= m < n ==> (#[trigger] notes[p as int][m]).length >= 1,
                decreases phrase@.len() - n,
            {
                if phrase[n].length == 0 {
                    assert(notes[p as int][n as int].length == 0);
                    return false;
                }
                n = n + 1;
            }
            p = p + 1;
        }
        true
    }
}

} // verus!
