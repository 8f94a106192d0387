//! The selection in the song library: which of the songs is in focus.

use vstd::prelude::*;

verus! {

/// The songs of the library, as far as the selection needs them: how many
/// there are, and which is in focus.
#[derive(Debug, Clone, Copy)]
pub struct SongLibrary {
    pub song_count: usize,
    pub selection_index: usize,
}

/// The index after `index` among `count` songs: the next one, or the first
/// after the last.
pub open spec fn next_index(index: nat, count: nat) -> nat {
    if index + 1 >= count {
        0
    } else {
        index + 1
    }
}

/// The index before `index` among `count` songs: the one before, or the
/// last before the first. Without songs it is zero.
pub open spec fn previous_index(index: nat, count: nat) -> nat {
    if index > 0 {
        (index - 1) as nat
    } else if count > 0 {
        (count - 1) as nat
    } else {
        0
    }
}

/// The index that a choice of `wanted` among `count` songs gives: `wanted`,
/// or the last where there are not as many. Without songs it is zero.
pub open spec fn chosen_index(wanted: nat, count: nat) -> nat {
    if wanted < count {
        wanted
    } else if count > 0 {
        (count - 1) as nat
    } else {
        0
    }
}

impl SongLibrary {
    /// A library of `song_count` songs with the first in focus.
    pub fn new(song_count: usize) -> (library: SongLibrary)
        ensures
            library.song_count == song_count,
            library.selection_index == 0,
    {
        SongLibrary { song_count, selection_index: 0 }
    }

    /// Moves the focus to the next song, and from the last to the first.
    pub fn select_next(&mut self)
        ensures
            final(self).song_count == old(self).song_count,
            final(self).selection_index == next_index(
                old(self).selection_index as nat,
                old(self).song_count as nat,
            ),
    {
        if self.song_count == 0 || self.selection_index >= self.song_count - 1 {
            self.selection_index = 0;
        } else {
            self.selection_index = self.selection_index + 1;
        }
    }

    /// Moves the focus to the song before, and from the first to the last.
    pub fn select_previous(&mut self)
        ensures
            final(self).song_count == old(self).song_count,
            final(self).selection_index == previous_index(
                old(self).selection_index as nat,
                old(self).song_count as nat,
            ),
    {
        if self.selection_index > 0 {
            self.selection_index = self.selection_index - 1;
        } else if self.song_count > 0 {
            self.selection_index = self.song_count - 1;
        } else {
            self.selection_index = 0;
        }
    }

    /// Moves the focus to the song at `i`, or to the last where there are
    /// not as many.
    pub fn select(&mut self, i: usize)
        ensures
            final(self).song_count == old(self).song_count,
            final(self).selection_index == chosen_index(i as nat, old(self).song_count as nat),
    {
        if i < self.song_count {
            self.selection_index = i;
        } else if self.song_count > 0 {
            self.selection_index = self.song_count - 1;
        } else {
            self.selection_index = 0;
        }
    }
}

/// In a library with songs the focus stays on a song, whichever way it is
/// moved, and going on and back again leaves it where it was.
pub proof fn lemma_selection_stays_inside(index: nat, wanted: nat, count: nat)
    requires
        count > 0,
        index < count,
    ensures
        next_index(index, count) < count,
        previous_index(index, count) < count,
        chosen_index(wanted, count) < count,
        previous_index(next_index(index, count), count) == index,
        next_index(previous_index(index, count), count) == index,
{
}

} // verus!
