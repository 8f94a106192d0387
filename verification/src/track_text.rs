//! Tracks as text: a line for each note, an empty line between two phrases.
//!
//! A note line is `<length> <pitch> <v|r>`, each set off from the next by
//! one blank, and after one more blank the syllable, which runs to the end
//! of the line. The length is in milliseconds; the pitch may have a `-`
//! before it; `v` marks a voiced note and `r` a rest. Lines end with a line
//! feed. A line that is neither empty nor a note makes the text no track.

use vstd::prelude::*;
use crate::metadata::field_end;
use crate::metadata::find_separator;
use crate::metadata::number_of;
use crate::metadata::parse_number;

verus! {

/// A note as the text gives it, with the syllable as its bytes.
#[derive(Debug, Clone)]
pub struct NoteRecord {
    pub length: u32,
    pub pitch: i8,
    pub voiced: bool,
    pub lyric: Vec<u8>,
}

/// What a note record holds.
pub struct NoteRecordView {
    pub length: u32,
    pub pitch: i8,
    pub voiced: bool,
    pub lyric: Seq<u8>,
}

impl View for NoteRecord {
    type V = NoteRecordView;

    open spec fn view(&self) -> NoteRecordView {
        NoteRecordView {
            length: self.length,
            pitch: self.pitch,
            voiced: self.voiced,
            lyric: self.lyric@,
        }
    }
}

/// The records of a phrase.
pub open spec fn records_of(phrase: Seq<NoteRecord>) -> Seq<NoteRecordView> {
    Seq::new(phrase.len(), |n: int| phrase[n]@)
}

/// The records of phrases, phrase by phrase.
pub open spec fn phrases_of(phrases: Seq<Vec<NoteRecord>>) -> Seq<Seq<NoteRecordView>> {
    Seq::new(phrases.len(), |p: int| records_of(phrases[p]@))
}

/// The pitch that a field stands for: a number up to 127, or a `-` and a
/// number up to 128.
pub open spec fn pitch_of(field: Seq<u8>) -> Option<i8> {
    if field.len() > 0 && field[0] == 0x2d {
        match number_of(field.skip(1)) {
            Some(value) => if value <= 128 {
                Some((-(value as int)) as i8)
            } else {
                None
            },
            None => None,
        }
    } else {
        match number_of(field) {
            Some(value) => if value <= 127 {
                Some(value as i8)
            } else {
                None
            },
            None => None,
        }
    }
}

/// Whether a note is voiced, by its mark: `v` for voiced, `r` for a rest.
pub open spec fn voiced_of(mark: u8) -> Option<bool> {
    if mark == 0x76 {
        Some(true)
    } else if mark == 0x72 {
        Some(false)
    } else {
        None
    }
}

/// The note that a line stands for, if it is a note line.
pub open spec fn note_of_line(line: Seq<u8>) -> Option<NoteRecordView> {
    let a = field_end(line, 0x20, 0);
    let b = field_end(line, 0x20, a + 1);
    if a >= line.len() || b >= line.len() || b + 1 >= line.len() {
        None
    } else if b + 2 < line.len() && line[b + 2] != 0x20 {
        None
    } else {
        match (
            number_of(line.subrange(0, a)),
            pitch_of(line.subrange(a + 1, b)),
            voiced_of(line[b + 1]),
        ) {
            (Some(length), Some(pitch), Some(voiced)) => if length <= u32::MAX {
                Some(
                    NoteRecordView {
                        length: length as u32,
                        pitch,
                        voiced,
                        lyric: if b + 2 < line.len() {
                            line.subrange(b + 3, line.len() as int)
                        } else {
                            Seq::<u8>::empty()
                        },
                    },
                )
            } else {
                None
            },
            _ => None,
        }
    }
}

/// The phrases with the phrase in progress behind them, if it has a note.
pub open spec fn closed_phrases(
    phrases: Seq<Seq<NoteRecordView>>,
    phrase: Seq<NoteRecordView>,
) -> Seq<Seq<NoteRecordView>> {
    if phrase.len() > 0 {
        phrases.push(phrase)
    } else {
        phrases
    }
}

/// The track that the text from `from` on stands for, behind the phrases
/// that were read before and the phrase in progress.
pub open spec fn track_from(
    bytes: Seq<u8>,
    from: int,
    phrases: Seq<Seq<NoteRecordView>>,
    phrase: Seq<NoteRecordView>,
) -> Option<Seq<Seq<NoteRecordView>>>
    decreases bytes.len() - from,
{
    if from < 0 || from >= bytes.len() {
        Some(closed_phrases(phrases, phrase))
    } else {
        let found = field_end(bytes, 0x0a, from);
        let end = if from <= found <= bytes.len() {
            found
        } else {
            from
        };
        let next = if end < bytes.len() {
            end + 1
        } else {
            bytes.len() as int
        };
        let line = bytes.subrange(from, end);
        if line.len() == 0 {
            track_from(bytes, next, closed_phrases(phrases, phrase), Seq::empty())
        } else {
            match note_of_line(line) {
                Some(note) => track_from(bytes, next, phrases, phrase.push(note)),
                None => None,
            }
        }
    }
}

/// The track that a text stands for: its phrases, each with its notes. A
/// text with a line that is neither empty nor a note stands for none.
pub open spec fn track_of(bytes: Seq<u8>) -> Option<Seq<Seq<NoteRecordView>>> {
    track_from(bytes, 0, Seq::empty(), Seq::empty())
}

/// The bytes from `from` up to `to`.
fn copy_range(bytes: &[u8], from: usize, to: usize) -> (copy: Vec<u8>)
    requires
        from <= to <= bytes@.len(),
    ensures
        copy@ == bytes@.subrange(from as int, to as int),
{
    let mut copy: Vec<u8> = Vec::new();
    let mut i = from;
    while i < to
        invariant
            from <= i <= to <= bytes@.len(),
            copy@ == bytes@.subrange(from as int, i as int),
        decreases to - i,
    {
        copy.push(bytes[i]);
        assert(copy@ =~= bytes@.subrange(from as int, i + 1));
        i = i + 1;
    }
    copy
}

/// The pitch that the bytes from `from` up to `to` stand for.
fn parse_pitch(bytes: &[u8], from: usize, to: usize) -> (pitch: Option<i8>)
    requires
        from <= to <= bytes@.len(),
    ensures
        pitch == pitch_of(bytes@.subrange(from as int, to as int)),
{
    let ghost field = bytes@.subrange(from as int, to as int);
    if from < to && bytes[from] == 0x2d {
        assert(field[0] == bytes@[from as int]);
        assert(field.skip(1) =~= bytes@.subrange(from + 1, to as int));
        match parse_number(bytes, from + 1, to, 128) {
            Some(value) => {
                if value == 128 {
                    Some(-128i8)
                } else {
                    Some(-(value as i8))
                }
            },
            None => None,
        }
    } else {
        proof {
            if from < to {
                assert(field[0] == bytes@[from as int]);
            }
        }
        match parse_number(bytes, from, to, 127) {
            Some(value) => Some(value as i8),
            None => None,
        }
    }
}

/// The note that the line from `from` up to `to` stands for, if it is a
/// note line.
pub fn parse_note(bytes: &[u8], from: usize, to: usize) -> (note: Option<NoteRecord>)
    requires
        from <= to <= bytes@.len(),
    ensures
        match note_of_line(bytes@.subrange(from as int, to as int)) {
            Some(record) => note matches Some(found) && found@ == record,
            None => note.is_none(),
        },
{
    let ghost line = bytes@.subrange(from as int, to as int);
    let a = find_separator(bytes, from, to, 0x20, from);
    if a >= to {
        return None;
    }
    let b = find_separator(bytes, from, to, 0x20, a + 1);
    if b >= to || b + 1 >= to {
        return None;
    }
    assert(line[b + 1 - from] == bytes@[b + 1]);
    assert(bytes@.subrange(from as int, a as int) =~= line.subrange(0, a - from));
    assert(bytes@.subrange(a + 1, b as int) =~= line.subrange(a + 1 - from, b - from));
    if b + 2 < to {
        assert(line[b + 2 - from] == bytes@[b + 2]);
        if bytes[b + 2] != 0x20 {
            return None;
        }
    }
    let length = match parse_number(bytes, from, a, u32::MAX as u64) {
        Some(length) => length as u32,
        None => {
            return None;
        },
    };
    let pitch = match parse_pitch(bytes, a + 1, b) {
        Some(pitch) => pitch,
        None => {
            return None;
        },
    };
    let mark = bytes[b + 1];
    let voiced = if mark == 0x76 {
        true
    } else if mark == 0x72 {
        false
    } else {
        return None;
    };
    let lyric = if b + 2 < to {
        assert(bytes@.subrange(b + 3, to as int) =~= line.subrange(
            b + 3 - from,
            line.len() as int,
        ));
        copy_range(bytes, b + 3, to)
    } else {
        Vec::new()
    };
    Some(NoteRecord { length, pitch, voiced, lyric })
}

/// The track that a text stands for: its phrases, each with its notes, or
/// nothing where a line is neither empty nor a note.
pub fn parse_track(bytes: &[u8]) -> (track: Option<Vec<Vec<NoteRecord>>>)
    ensures
        match track_of(bytes@) {
            Some(phrases) => track matches Some(found) && phrases_of(found@) == phrases,
            None => track.is_none(),
        },
{
    let mut phrases: Vec<Vec<NoteRecord>> = Vec::new();
    let mut phrase: Vec<NoteRecord> = Vec::new();
    let mut pos: usize = 0;
    assert(phrases_of(phrases@) =~= Seq::<Seq<NoteRecordView>>::empty());
    assert(records_of(phrase@) =~= Seq::<NoteRecordView>::empty());
    assert(bytes@.subrange(0, bytes@.len() as int) =~= bytes@);
    while pos < bytes.len()
        invariant
            0 <= pos <= bytes@.len(),
            track_of(bytes@) == track_from(
                bytes@,
                pos as int,
                phrases_of(phrases@),
                records_of(phrase@),
            ),
        decreases bytes@.len() - pos,
    {
        assert(bytes@.subrange(0, bytes@.len() as int) =~= bytes@);
        let end = find_separator(bytes, 0, bytes.len(), 0x0a, pos);
        let ghost before_phrases = phrases_of(phrases@);
        let ghost before_phrase = records_of(phrase@);
        if end == pos {
            if phrase.len() > 0 {
                let ghost moved = phrase@;
                phrases.push(phrase);
                phrase = Vec::new();
                assert(phrases_of(phrases@) =~= before_phrases.push(records_of(moved)));
            }
            assert(records_of(phrase@) =~= Seq::<NoteRecordView>::empty());
        } else {
            match parse_note(bytes, pos, end) {
                Some(note) => {
                    phrase.push(note);
                    assert(records_of(phrase@) =~= before_phrase.push(note@));
                },
                None => {
                    return None;
                },
            }
        }
        if end >= bytes.len() {
            pos = bytes.len();
        } else {
            pos = end + 1;
        }
    }
    if phrase.len() > 0 {
        let ghost before_phrases = phrases_of(phrases@);
        let ghost moved = phrase@;
        phrases.push(phrase);
        assert(phrases_of(phrases@) =~= before_phrases.push(records_of(moved)));
    }
    Some(phrases)
}

} // verus!
