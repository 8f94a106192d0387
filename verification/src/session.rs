//! The playback session: the state machine that paces the analysis of the
//! microphone against the backing track.
//!
//! The session walks through the backing track chunk by chunk. A tick adds
//! the time that has passed to a goal; a chunk is due once the goal is ahead
//! of the time played by at least the chunk's length and the capture buffer
//! holds the chunk's samples. The samples of a chunk that is due are handed
//! out for analysis, and the pitch that comes back is written to the sung
//! track as one note. What estimates the pitch is not part of the session:
//! it takes the samples of `Action::Analyze` and answers with
//! `record_pitch`.
//!
//! The time played is kept, but no operation of the session changes it: it
//! stays at zero. So the goal alone paces the session, and a chunk is due
//! as soon as the goal has reached the chunk's length; from then on the
//! capture buffer sets the pace. Handing out a window takes nothing off the
//! goal.

use vstd::prelude::*;
use crate::chunks::chunk_count;
use crate::chunks::chunks_of;
use crate::chunks::lemma_chunks_complete;
use crate::chunks::split_into_chunks;
use crate::error::SessionError;
use crate::mic::Microphone;
use crate::mic::MicrophoneState;
use crate::note::Note;
use crate::note::NoteView;
use crate::timer::NANOS_PER_MILLI;
use crate::timer::later;
use crate::timer::sat_add;
use crate::timer::sat_sub;
use crate::timer::Timer;
use crate::timer::TimerState;
use crate::track::note_total;
use crate::track::playable;
use crate::track::Track;

verus! {

/// Where a session stands.
#[derive(Debug, Clone, Copy, PartialEq, Eq, Structural)]
pub enum State {
    /// The backing track is being played.
    Playing,
    /// Playing is interrupted and can go on.
    Paused,
    /// The backing track is at its end. Nothing follows.
    Finished,
}

/// What the caller of a session is to do next.
#[derive(Debug)]
pub enum Action {
    /// Estimate the pitch of these samples, the window of one chunk, and
    /// hand it to `record_pitch`.
    Analyze(Vec<u32>),
    /// Nothing is due.
    Idle,
    /// The backing track has ended: stop the capture.
    Stop,
}

/// The number of chunks in the first `upto` notes of `phrase`.
pub open spec fn chunks_in_phrase(phrase: Seq<NoteView>, upto: int) -> nat
    decreases upto,
{
    if upto <= 0 {
        0
    } else {
        chunks_in_phrase(phrase, upto - 1) + chunk_count(phrase[upto - 1].length)
    }
}

/// The number of chunks in the first `upto` phrases of `notes`.
pub open spec fn chunks_in_track(notes: Seq<Seq<NoteView>>, upto: int) -> nat
    decreases upto,
{
    if upto <= 0 {
        0
    } else {
        chunks_in_track(notes, upto - 1) + chunks_in_phrase(
            notes[upto - 1],
            notes[upto - 1].len() as int,
        )
    }
}

/// The note that stands for a window of `length` milliseconds with the
/// pitch `pitch`: sung, without a syllable.
pub open spec fn sung_note(length: u32, pitch: i8) -> NoteView {
    NoteView { length, pitch, voiced: true, lyric: Seq::<char>::empty() }
}

/// What a session is at one moment.
#[verifier::ext_equal]
pub struct SessionState {
    /// The notes of the backing track, phrase by phrase.
    pub backing: Seq<Seq<NoteView>>,
    /// The notes sung so far, phrase by phrase.
    pub sung: Seq<Seq<NoteView>>,
    /// Where the session stands.
    pub state: State,
    /// The phrase that is being played.
    pub phrase_index: nat,
    /// The note that is being played, counted within its phrase.
    pub note_index: nat,
    /// The chunks of the note that is being played, in milliseconds.
    pub chunk_lengths: Seq<u32>,
    /// The chunk that is being played, counted within its note.
    pub chunk_index: nat,
    /// The time played, in nanoseconds. It is zero in a new session, and
    /// no operation changes it: neither a tick nor a window that is handed
    /// out nor a pitch that is recorded.
    pub elapsed_time: u64,
    /// The running time that the ticks have added up, in nanoseconds.
    pub elapsed_time_goal: u64,
    /// Whether a window was handed out whose pitch has not come back.
    pub awaiting_pitch: bool,
    /// The session's clock.
    pub clock: TimerState,
    /// The microphone's bookkeeping.
    pub mic: MicrophoneState,
}

impl SessionState {
    /// The chunk that is being played, in milliseconds.
    pub open spec fn current_chunk(self) -> u32 {
        self.chunk_lengths[self.chunk_index as int]
    }

    /// Whether the place in the backing track is in order: the track can be
    /// played; the chunks are never empty, and the chunk index points at one
    /// of them; until the end the indices point at a note, and the chunks
    /// are those of that note; at the end the indices stand behind the last
    /// phrase.
    pub open spec fn position_valid(self) -> bool {
        &&& playable(self.backing)
        &&& self.chunk_lengths.len() >= 1
        &&& self.chunk_index < self.chunk_lengths.len()
        &&& self.state != State::Finished ==> {
            &&& self.phrase_index < self.backing.len()
            &&& self.note_index < self.backing[self.phrase_index as int].len()
            &&& self.chunk_lengths == chunks_of(
                self.backing[self.phrase_index as int][self.note_index as int].length,
            )
        }
        &&& self.state == State::Finished ==> {
            &&& self.phrase_index == self.backing.len()
            &&& self.note_index == 0
            &&& self.chunk_index == 0
            &&& !self.awaiting_pitch
        }
    }

    /// Whether the sung track is in step with the place in the backing
    /// track: it has a note for each chunk that was played, in the phrase of
    /// that chunk, and no phrase beyond the one that is being played.
    pub open spec fn sung_valid(self) -> bool {
        &&& self.sung.len() == if self.note_index == 0 && self.chunk_index == 0 {
            self.phrase_index
        } else {
            self.phrase_index + 1
        }
        &&& forall|q: int|
            0 <= q < self.phrase_index ==> (#[trigger] self.sung[q]).len() == chunks_in_phrase(
                self.backing[q],
                self.backing[q].len() as int,
            )
        &&& (self.note_index > 0 || self.chunk_index > 0) ==> self.sung[self.phrase_index as int].len()
            == chunks_in_phrase(self.backing[self.phrase_index as int], self.note_index as int)
            + self.chunk_index
    }

    /// Whether the clock goes with the session: it runs while the session
    /// plays, and stands still while the session is interrupted.
    pub open spec fn clock_valid(self) -> bool {
        &&& self.state == State::Playing ==> !self.clock.paused
        &&& self.state == State::Paused ==> self.clock.paused
    }

    /// Whether the session is in order.
    pub open spec fn valid(self) -> bool {
        &&& self.position_valid()
        &&& self.sung_valid()
        &&& self.clock_valid()
        &&& self.state != State::Finished ==> self.mic.window_length == self.current_chunk()
    }

    /// Whether enough time has been added up for the chunk that is being
    /// played: the goal is ahead of the time played by the chunk's length or
    /// more. As the time played stays at zero, that is: the goal has reached
    /// the chunk's length.
    pub open spec fn time_ready(self) -> bool {
        self.current_chunk() * NANOS_PER_MILLI <= sat_sub(
            self.elapsed_time_goal,
            self.elapsed_time,
        )
    }

    /// Whether the chunk that is being played is due, in a session that is
    /// playing and waits for no pitch.
    pub open spec fn due(self) -> bool {
        self.state == State::Playing && !self.awaiting_pitch && self.time_ready()
    }

    /// Whether the session would hand out a window if the capture buffer
    /// held `available` samples.
    pub open spec fn ready_with(self, available: nat) -> bool {
        self.due() && self.mic.ready_with(available)
    }

    /// The session after a tick at the clock reading `now`: while playing,
    /// the running time since the last tick is added to the goal; unless the
    /// session is finished, the clock is touched.
    pub open spec fn ticked(self, now: u64) -> SessionState {
        match self.state {
            State::Playing => SessionState {
                elapsed_time_goal: sat_add(
                    self.elapsed_time_goal,
                    self.clock.duration_since_touch_at(now),
                ),
                clock: self.clock.touch_at(now),
                ..self
            },
            State::Paused => SessionState { clock: self.clock.touch_at(now), ..self },
            State::Finished => self,
        }
    }

    /// The session after the window of the chunk that is being played was
    /// handed out.
    pub open spec fn handed_out(self) -> SessionState {
        SessionState { awaiting_pitch: true, mic: self.mic.advanced(), ..self }
    }

    /// The place after the chunk that is being played: the next chunk of the
    /// note, else the first chunk of the next note of the phrase, else the
    /// first chunk of the first note of the next phrase, else the end.
    pub open spec fn advanced(self) -> SessionState {
        let p = self.phrase_index as int;
        let n = self.note_index as int;
        if self.chunk_index + 1 < self.chunk_lengths.len() {
            SessionState { chunk_index: self.chunk_index + 1, ..self }
        } else if n + 1 < self.backing[p].len() {
            SessionState {
                chunk_index: 0,
                note_index: self.note_index + 1,
                chunk_lengths: chunks_of(self.backing[p][n + 1].length),
                ..self
            }
        } else if p + 1 < self.backing.len() {
            SessionState {
                chunk_index: 0,
                note_index: 0,
                phrase_index: self.phrase_index + 1,
                chunk_lengths: chunks_of(self.backing[p + 1][0].length),
                ..self
            }
        } else {
            SessionState {
                chunk_index: 0,
                note_index: 0,
                phrase_index: self.phrase_index + 1,
                state: State::Finished,
                ..self
            }
        }
    }

    /// The sung notes after `note` was added to the phrase that is being
    /// played.
    pub open spec fn sung_with(self, note: NoteView) -> Seq<Seq<NoteView>> {
        if self.sung.len() <= self.phrase_index {
            self.sung.push(seq![note])
        } else {
            self.sung.update(
                self.phrase_index as int,
                self.sung[self.phrase_index as int].push(note),
            )
        }
    }

    /// The session after the pitch of the window that was handed out came
    /// back: the sung track has one note more, as long as the window; the
    /// place is the next chunk; and the next window is as long as that
    /// chunk.
    pub open spec fn recorded(self, pitch: i8) -> SessionState {
        let appended = SessionState {
            sung: self.sung_with(sung_note(self.mic.window_length, pitch)),
            awaiting_pitch: false,
            ..self
        };
        let moved = appended.advanced();
        SessionState {
            mic: MicrophoneState { window_length: moved.current_chunk(), ..moved.mic },
            ..moved
        }
    }

    /// The session after a pause at the clock reading `now`.
    pub open spec fn paused(self, now: u64) -> SessionState {
        if self.state == State::Playing {
            SessionState { state: State::Paused, clock: self.clock.pause_at(now), ..self }
        } else {
            self
        }
    }

    /// The session after a resume at the clock reading `now`.
    pub open spec fn resumed(self, now: u64) -> SessionState {
        if self.state == State::Paused {
            SessionState { state: State::Playing, clock: self.clock.resume_at(now), ..self }
        } else {
            self
        }
    }

    /// The number of chunks that were played.
    pub open spec fn consumed(self) -> nat {
        chunks_in_track(self.backing, self.phrase_index as int) + (if self.phrase_index
            < self.backing.len() {
            chunks_in_phrase(self.backing[self.phrase_index as int], self.note_index as int)
        } else {
            0
        }) + self.chunk_index
    }

    /// The number of notes in the sung track.
    pub open spec fn sung_count(self) -> nat {
        note_total(self.sung, self.sung.len() as int)
    }
}

/// Whether a session in this state hands out a window whatever the capture
/// buffer holds: the chunk is due, the microphone's time can grow, and the
/// window needs no sample.
pub open spec fn owes_window(state: SessionState) -> bool {
    state.due() && state.mic.can_advance() && state.mic.needed_samples() == 0
}

/// Whether `after` and `result` are what a session in the state `before`
/// may come to when it looks for a window to hand out.
///
/// A window is handed out only where the chunk is due, and is then as long
/// as the chunk needs. Nothing is handed out where the chunk is not due or
/// the microphone's time cannot grow, and else only where the capture
/// buffer may hold too little: not where the window needs no sample. An
/// error comes only where a chunk was due, its window needed samples, and
/// the capture buffer handed over too few; it changes nothing.
pub open spec fn poll_outcome(
    before: SessionState,
    after: SessionState,
    result: Result<Action, SessionError>,
) -> bool {
    match result {
        Ok(Action::Analyze(samples)) => {
            &&& before.due()
            &&& before.mic.can_advance()
            &&& samples@.len() == before.mic.needed_samples()
            &&& after =~= before.handed_out()
        },
        Ok(Action::Idle) => after =~= before && !owes_window(before),
        Ok(Action::Stop) => false,
        Err(error) => {
            &&& before.due()
            &&& before.mic.can_advance()
            &&& before.mic.needed_samples() > 0
            &&& error == SessionError::SchedulerInvariantViolation
            &&& after =~= before
        },
    }
}

/// Whether `after` and `result` are what a session in the state `before`
/// may come to when the pitch `pitch` comes back. Without a window that
/// waits for its pitch that is an error and changes nothing. Else the pitch
/// is recorded; at the end of the backing track the capture is to stop, and
/// before it the session looks for the next window.
pub open spec fn record_outcome(
    before: SessionState,
    pitch: i8,
    after: SessionState,
    result: Result<Action, SessionError>,
) -> bool {
    if !before.awaiting_pitch {
        result == Err::<Action, SessionError>(SessionError::SchedulerInvariantViolation) && after
            =~= before
    } else if before.recorded(pitch).state == State::Finished {
        result == Ok::<Action, SessionError>(Action::Stop) && after =~= before.recorded(pitch)
    } else {
        poll_outcome(before.recorded(pitch), after, result)
    }
}

/// The state machine that paces the analysis of the microphone against the
/// backing track, and writes the sung track.
pub struct TrackSession {
    backing: Track,
    mic: Microphone,
    track: Track,
    state: State,
    clock: Timer,
    elapsed_time: u64,
    elapsed_time_goal: u64,
    phrase_index: usize,
    note_index: usize,
    chunk_lengths: Vec<u32>,
    chunk_index: usize,
    awaiting_pitch: bool,
}

impl View for TrackSession {
    type V = SessionState;

    closed spec fn view(&self) -> SessionState {
        SessionState {
            backing: self.backing.notes(),
            sung: self.track.notes(),
            state: self.state,
            phrase_index: self.phrase_index as nat,
            note_index: self.note_index as nat,
            chunk_lengths: self.chunk_lengths@,
            chunk_index: self.chunk_index as nat,
            elapsed_time: self.elapsed_time,
            elapsed_time_goal: self.elapsed_time_goal,
            awaiting_pitch: self.awaiting_pitch,
            clock: self.clock@,
            mic: self.mic@,
        }
    }
}

impl TrackSession {
    /// Whether the session is in order. Every session that `new` makes is,
    /// and every operation keeps it so.
    pub open spec fn wf(&self) -> bool {
        self@.valid()
    }

    /// Makes a session that plays `backing` from its first chunk, with an
    /// empty sung track and a clock that runs from its zero. A track that cannot be played
    /// is refused: one without phrases, with an empty phrase, or with a note
    /// of no length.
    pub fn new(backing: Track, mic: Microphone) -> (result: Result<TrackSession, SessionError>)
        ensures
            result.is_ok() <==> playable(backing.notes()),
            result matches Err(error) ==> error == SessionError::EmptyTrack,
            result matches Ok(session) ==> {
                &&& session.wf()
                &&& session@.backing == backing.notes()
                &&& session@.sung == Seq::<Seq<NoteView>>::empty()
                &&& session@.state == State::Playing
                &&& session@.phrase_index == 0
                &&& session@.note_index == 0
                &&& session@.chunk_index == 0
                &&& session@.chunk_lengths == chunks_of(backing.notes()[0][0].length)
                &&& session@.elapsed_time == 0
                &&& session@.elapsed_time_goal == 0
                &&& !session@.awaiting_pitch
                &&& session@.clock == TimerState::initial().resume_at(0)
                &&& session@.mic == (MicrophoneState {
                    window_length: chunks_of(backing.notes()[0][0].length)[0],
                    ..mic@
                })
            },
    {
        if !backing.is_playable() {
            return Err(SessionError::EmptyTrack);
        }
        let ghost notes = backing.notes();
        assert(notes[0].len() >= 1);
        assert(notes[0][0].length >= 1);
        let initial_note_length = backing.phrases[0][0].length;
        let chunk_lengths = split_into_chunks(initial_note_length);
        let mut mic = mic;
        mic.set_window_length(chunk_lengths[0]);
        let mut clock = Timer::new();
        clock.resume_at(0);
        let session = TrackSession {
            backing,
            mic,
            track: Track::new(),
            state: State::Playing,
            clock,
            elapsed_time: 0,
            elapsed_time_goal: 0,
            phrase_index: 0,
            note_index: 0,
            chunk_lengths,
            chunk_index: 0,
            awaiting_pitch: false,
        };
        Ok(session)
    }

    /// Where the session stands.
    pub fn state(&self) -> (state: State)
        ensures
            state == self@.state,
    {
        self.state
    }

    /// The backing track.
    pub fn backing_track(&self) -> (track: &Track)
        ensures
            track.notes() == self@.backing,
    {
        &self.backing
    }

    /// The sung track, as far as it has been written.
    pub fn sung_track(&self) -> (track: &Track)
        ensures
            track.notes() == self@.sung,
    {
        &self.track
    }

    /// The phrase that is being played.
    pub fn phrase_index(&self) -> (index: usize)
        ensures
            index == self@.phrase_index,
    {
        self.phrase_index
    }

    /// The note that is being played, counted within its phrase.
    pub fn note_index(&self) -> (index: usize)
        ensures
            index == self@.note_index,
    {
        self.note_index
    }

    /// The chunk that is being played, counted within its note.
    pub fn chunk_index(&self) -> (index: usize)
        ensures
            index == self@.chunk_index,
    {
        self.chunk_index
    }

    /// The running time that the ticks have added up, in nanoseconds.
    pub fn elapsed_time_goal(&self) -> (goal: u64)
        ensures
            goal == self@.elapsed_time_goal,
    {
        self.elapsed_time_goal
    }

    /// Whether a window was handed out whose pitch has not come back.
    pub fn is_awaiting_pitch(&self) -> (awaiting: bool)
        ensures
            awaiting == self@.awaiting_pitch,
    {
        self.awaiting_pitch
    }

    /// Ends the session.
    fn finish(&mut self)
        ensures
            final(self)@ =~= (SessionState { state: State::Finished, ..old(self)@ }),
    {
        self.state = State::Finished;
    }

    /// Moves to the place after the chunk that is being played.
    fn next_chunk(&mut self)
        requires
            old(self)@.position_valid(),
            old(self)@.state != State::Finished,
            !old(self)@.awaiting_pitch,
        ensures
            final(self)@ =~= old(self)@.advanced(),
            final(self)@.position_valid(),
    {
        let ghost notes = self.backing.notes();
        assert(notes.len() == self.backing.phrases@.len());
        assert(notes[self.phrase_index as int].len()
            == self.backing.phrases@[self.phrase_index as int]@.len());
        let phrase_count = self.backing.phrases.len();
        let note_count = self.backing.phrases[self.phrase_index].len();
        self.chunk_index = self.chunk_index + 1;
        if self.chunk_index >= self.chunk_lengths.len() {
            self.chunk_index = 0;
            self.note_index = self.note_index + 1;
            if self.note_index >= note_count {
                self.note_index = 0;
                self.phrase_index = self.phrase_index + 1;
                if self.phrase_index >= phrase_count {
                    self.finish();
                    return;
                }
            }
            assert(notes[self.phrase_index as int].len() >= 1);
            assert(notes[self.phrase_index as int][self.note_index as int].length >= 1);
            let note_length = self.backing.phrases[self.phrase_index][self.note_index].length;
            self.chunk_lengths = split_into_chunks(note_length);
        }
    }

    /// Whether enough time has been added up for the chunk that is being
    /// played.
    fn time_ready(&self) -> (ready: bool)
        requires
            self@.chunk_index < self@.chunk_lengths.len(),
        ensures
            ready == self@.time_ready(),
    {
        let remaining = self.elapsed_time_goal.saturating_sub(self.elapsed_time);
        let chunk_length = self.chunk_lengths[self.chunk_index];
        chunk_length as u64 * NANOS_PER_MILLI <= remaining
    }

    /// Whether the chunk that is being played is due.
    fn due(&self) -> (due: bool)
        requires
            self@.chunk_index < self@.chunk_lengths.len(),
        ensures
            due == self@.due(),
    {
        match self.state {
            State::Playing => !self.awaiting_pitch && self.time_ready(),
            _ => false,
        }
    }

    /// Whether the session would hand out a window if the capture buffer
    /// held `available` samples.
    pub fn ready_with(&self, available: usize) -> (ready: bool)
        requires
            self.wf(),
        ensures
            ready == self@.ready_with(available as nat),
    {
        self.due() && self.mic.ready_with(available)
    }

    /// Whether the session would hand out a window now: whether the chunk
    /// that is being played is due and the capture buffer holds its samples.
    /// It is the answer of `ready_with` to the number of samples that the
    /// buffer says it holds: no where the chunk is not due, and yes where
    /// the session hands out a window whatever the buffer holds.
    pub fn ready(&self) -> (ready: bool)
        requires
            self.wf(),
        ensures
            exists|available: usize| ready == self@.ready_with(available as nat),
            ready ==> self@.due() && self@.mic.can_advance(),
            owes_window(self@) ==> ready,
    {
        if !self.due() {
            assert(false == self@.ready_with(0usize as nat));
            return false;
        }
        let ready = self.mic.ready();
        proof {
            let available = choose|available: usize|
                ready == self.mic@.ready_with(available as nat);
            assert(ready == self@.ready_with(available as nat));
        }
        ready
    }

    /// Looks for a window to hand out.
    fn poll(&mut self) -> (result: Result<Action, SessionError>)
        requires
            old(self).wf(),
        ensures
            final(self).wf(),
            poll_outcome(old(self)@, final(self)@, result),
    {
        if !self.due() {
            return Ok(Action::Idle);
        }
        match self.mic.consume() {
            Ok(Some(samples)) => {
                self.awaiting_pitch = true;
                Ok(Action::Analyze(samples))
            },
            Ok(None) => Ok(Action::Idle),
            Err(error) => Err(error),
        }
    }

    /// A tick at the clock reading `now`. While playing, the running time
    /// since the last tick is added to the goal and the session looks for a
    /// window to hand out. While paused, only the clock is touched. A
    /// finished session stays as it is.
    pub fn tick_at(&mut self, now: u64) -> (result: Result<Action, SessionError>)
        requires
            old(self).wf(),
        ensures
            final(self).wf(),
            poll_outcome(old(self)@.ticked(now), final(self)@, result),
    {
        match self.state {
            State::Playing => {
                let since = self.clock.duration_since_touch_at(now);
                self.elapsed_time_goal = self.elapsed_time_goal.saturating_add(since);
                self.clock.touch_at(now);
                self.poll()
            },
            State::Paused => {
                self.clock.touch_at(now);
                Ok(Action::Idle)
            },
            State::Finished => Ok(Action::Idle),
        }
    }

    /// A tick now.
    pub fn tick(&mut self) -> (result: Result<Action, SessionError>)
        requires
            old(self).wf(),
        ensures
            final(self).wf(),
            exists|now: u64| poll_outcome(old(self)@.ticked(now), final(self)@, result),
    {
        let now = self.clock.now();
        self.tick_at(now)
    }

    /// Writes `note` to the sung track, in the phrase that is being played.
    fn append(&mut self, note: Note)
        requires
            old(self)@.sung.len() == old(self)@.phrase_index || old(self)@.sung.len() == old(
                self,
            )@.phrase_index + 1,
        ensures
            final(self)@ =~= (SessionState { sung: old(self)@.sung_with(note@), ..old(self)@ }),
    {
        let ghost before_notes = self.track.notes();
        if self.phrase_index >= self.track.phrases.len() {
            let mut phrase: Vec<Note> = Vec::new();
            phrase.push(note);
            self.track.phrases.push(phrase);
            assert(self.track.notes() =~~= before_notes.push(seq![note@]));
        } else {
            let last = self.track.phrases.pop();
            let mut phrase: Vec<Note> = match last {
                Some(phrase) => phrase,
                None => Vec::new(),
            };
            phrase.push(note);
            self.track.phrases.push(phrase);
            assert(self.track.notes() =~~= before_notes.update(
                self.phrase_index as int,
                before_notes[self.phrase_index as int].push(note@),
            ));
        }
    }

    /// Takes the pitch of the window that was handed out last: the sung
    /// track gets a note as long as the window, the session moves on by one
    /// chunk, and the next window is as long as the chunk it moved to. At the
    /// end of the backing track the session is finished; before it, the
    /// session looks for the next window.
    pub fn record_pitch(&mut self, pitch: i8) -> (result: Result<Action, SessionError>)
        requires
            old(self).wf(),
        ensures
            final(self).wf(),
            record_outcome(old(self)@, pitch, final(self)@, result),
    {
        if !self.awaiting_pitch {
            return Err(SessionError::SchedulerInvariantViolation);
        }
        let ghost before = self@;
        let note = self.mic.note_for(pitch);
        self.append(note);
        self.awaiting_pitch = false;
        self.next_chunk();
        self.mic.set_window_length(self.chunk_lengths[self.chunk_index]);
        proof {
            lemma_recorded_valid(before, pitch);
        }
        match self.state {
            State::Finished => Ok(Action::Stop),
            _ => self.poll(),
        }
    }

    /// Interrupts a playing session at the clock reading `now`: the clock
    /// is paused with it. Any other session stays as it is.
    pub fn pause_at(&mut self, now: u64)
        requires
            old(self).wf(),
        ensures
            final(self).wf(),
            final(self)@ =~= old(self)@.paused(now),
    {
        match self.state {
            State::Playing => {
                self.state = State::Paused;
                self.clock.pause_at(now);
            },
            _ => {},
        }
    }

    /// Interrupts a playing session.
    pub fn pause(&mut self)
        requires
            old(self).wf(),
        ensures
            final(self).wf(),
            exists|now: u64| final(self)@ =~= old(self)@.paused(now),
    {
        let now = self.clock.now();
        self.pause_at(now);
    }

    /// Lets a paused session go on at the clock reading `now`: the clock
    /// runs again. Any other session stays as it is. The samples that were
    /// captured before stay in the capture buffer.
    pub fn resume_at(&mut self, now: u64)
        requires
            old(self).wf(),
        ensures
            final(self).wf(),
            final(self)@ =~= old(self)@.resumed(now),
    {
        match self.state {
            State::Paused => {
                self.state = State::Playing;
                self.clock.resume_at(now);
            },
            _ => {},
        }
    }

    /// Lets a paused session go on.
    pub fn resume(&mut self)
        requires
            old(self).wf(),
        ensures
            final(self).wf(),
            exists|now: u64| final(self)@ =~= old(self)@.resumed(now),
    {
        let now = self.clock.now();
        self.resume_at(now);
    }

    /// Discards the samples that the capture buffer holds, as after a long
    /// pause. The session stays as it is.
    pub fn clear_capture(&mut self)
        requires
            old(self).wf(),
        ensures
            final(self).wf(),
            final(self)@ =~= old(self)@,
    {
        self.mic.clear();
    }
}

/// Recording a pitch keeps a session in order.
pub proof fn lemma_recorded_valid(before: SessionState, pitch: i8)
    requires
        before.valid(),
        before.awaiting_pitch,
    ensures
        before.recorded(pitch).valid(),
{
    let p = before.phrase_index as int;
    let n = before.note_index as int;
    let after = before.recorded(pitch);
    assert(before.state != State::Finished);
    lemma_chunks_complete(before.backing[p][n].length);
    if before.chunk_index + 1 < before.chunk_lengths.len() {
    } else if n + 1 < before.backing[p].len() {
        assert(before.backing[p][n + 1].length >= 1);
        lemma_chunks_complete(before.backing[p][n + 1].length);
    } else if p + 1 < before.backing.len() {
        assert(before.backing[p + 1].len() >= 1);
        assert(before.backing[p + 1][0].length >= 1);
        lemma_chunks_complete(before.backing[p + 1][0].length);
    } else {
    }
}

/// The chunks of the first notes of a phrase never grow fewer as more notes
/// are counted.
pub proof fn lemma_chunks_in_phrase_ordered(phrase: Seq<NoteView>, fewer: int, more: int)
    requires
        fewer <= more,
    ensures
        chunks_in_phrase(phrase, fewer) <= chunks_in_phrase(phrase, more),
    decreases more - fewer,
{
    if fewer < more {
        lemma_chunks_in_phrase_ordered(phrase, fewer, more - 1);
    }
}

/// The chunks of the first phrases of a track never grow fewer as more
/// phrases are counted.
pub proof fn lemma_chunks_in_track_ordered(notes: Seq<Seq<NoteView>>, fewer: int, more: int)
    requires
        fewer <= more,
    ensures
        chunks_in_track(notes, fewer) <= chunks_in_track(notes, more),
    decreases more - fewer,
{
    if fewer < more {
        lemma_chunks_in_track_ordered(notes, fewer, more - 1);
    }
}

/// The phrases of the sung track that lie before the one being played hold
/// as many notes as their phrases of the backing track hold chunks.
proof fn lemma_sung_phrases_complete(state: SessionState, upto: int)
    requires
        state.valid(),
        0 <= upto <= state.phrase_index,
    ensures
        note_total(state.sung, upto) == chunks_in_track(state.backing, upto),
    decreases upto,
{
    if upto > 0 {
        lemma_sung_phrases_complete(state, upto - 1);
        assert(state.sung[upto - 1].len() == chunks_in_phrase(
            state.backing[upto - 1],
            state.backing[upto - 1].len() as int,
        ));
    }
}

/// The sung track holds one note for each chunk that was played.
pub proof fn lemma_sung_count(state: SessionState)
    requires
        state.valid(),
    ensures
        state.sung_count() == state.consumed(),
{
    let p = state.phrase_index as int;
    lemma_sung_phrases_complete(state, p);
    if state.note_index == 0 && state.chunk_index == 0 {
        assert(chunks_in_phrase(state.backing[p], 0) == 0);
    } else {
        assert(state.state != State::Finished);
        assert(note_total(state.sung, p + 1) == note_total(state.sung, p) + state.sung[p].len());
    }
}

/// Each pitch that is recorded moves the session on by exactly one chunk.
pub proof fn lemma_recorded_progress(before: SessionState, pitch: i8)
    requires
        before.valid(),
        before.awaiting_pitch,
    ensures
        before.recorded(pitch).consumed() == before.consumed() + 1,
{
    let p = before.phrase_index as int;
    let n = before.note_index as int;
    let after = before.recorded(pitch);
    assert(before.state != State::Finished);
    lemma_chunks_complete(before.backing[p][n].length);
    if before.chunk_index + 1 < before.chunk_lengths.len() {
    } else if n + 1 < before.backing[p].len() {
        assert(chunks_in_phrase(before.backing[p], n + 1) == chunks_in_phrase(
            before.backing[p],
            n,
        ) + chunk_count(before.backing[p][n].length));
    } else {
        assert(chunks_in_phrase(before.backing[p], n + 1) == chunks_in_phrase(
            before.backing[p],
            n,
        ) + chunk_count(before.backing[p][n].length));
        assert(chunks_in_track(before.backing, p + 1) == chunks_in_track(before.backing, p)
            + chunks_in_phrase(before.backing[p], before.backing[p].len() as int));
        if p + 1 < before.backing.len() {
            assert(chunks_in_phrase(before.backing[p + 1], 0) == 0);
        }
    }
}

/// A session is finished when every chunk of the backing track was played,
/// and only then.
pub proof fn lemma_finished_when_all_consumed(state: SessionState)
    requires
        state.valid(),
    ensures
        state.state == State::Finished <==> state.consumed() == chunks_in_track(
            state.backing,
            state.backing.len() as int,
        ),
{
    let p = state.phrase_index as int;
    let n = state.note_index as int;
    if state.state != State::Finished {
        lemma_chunks_complete(state.backing[p][n].length);
        assert(chunks_in_phrase(state.backing[p], n + 1) == chunks_in_phrase(state.backing[p], n)
            + chunk_count(state.backing[p][n].length));
        lemma_chunks_in_phrase_ordered(state.backing[p], n + 1, state.backing[p].len() as int);
        assert(chunks_in_track(state.backing, p + 1) == chunks_in_track(state.backing, p)
            + chunks_in_phrase(state.backing[p], state.backing[p].len() as int));
        lemma_chunks_in_track_ordered(state.backing, p + 1, state.backing.len() as int);
    }
}

/// Scheduler progression: a finished session has sung one note for each
/// chunk of the backing track.
pub proof fn lemma_finished_sung_count(state: SessionState)
    requires
        state.valid(),
        state.state == State::Finished,
    ensures
        state.sung_count() == chunks_in_track(state.backing, state.backing.len() as int),
        state.sung.len() == state.backing.len(),
{
    lemma_sung_count(state);
    lemma_finished_when_all_consumed(state);
}

/// Whether every note lasts at least one and at most twenty milliseconds,
/// so that it is one chunk.
pub open spec fn all_notes_short(notes: Seq<Seq<NoteView>>) -> bool {
    forall|p: int, n: int|
        0 <= p < notes.len() && 0 <= n < notes[p].len() ==> 1 <= (#[trigger] notes[p][n]).length
            <= 20
}

/// A phrase of notes of at most twenty milliseconds has as many chunks as
/// notes.
pub proof fn lemma_short_phrase_chunks(notes: Seq<Seq<NoteView>>, p: int, upto: int)
    requires
        all_notes_short(notes),
        0 <= p < notes.len(),
        0 <= upto <= notes[p].len(),
    ensures
        chunks_in_phrase(notes[p], upto) == upto,
    decreases upto,
{
    if upto > 0 {
        lemma_short_phrase_chunks(notes, p, upto - 1);
        assert(1 <= notes[p][upto - 1].length <= 20);
    }
}

/// A track of notes of at most twenty milliseconds has as many chunks as
/// notes, so a finished session on it has sung exactly as many notes as the
/// backing track holds.
pub proof fn lemma_short_notes_one_chunk_each(notes: Seq<Seq<NoteView>>, upto: int)
    requires
        all_notes_short(notes),
        0 <= upto <= notes.len(),
    ensures
        chunks_in_track(notes, upto) == note_total(notes, upto),
    decreases upto,
{
    if upto > 0 {
        lemma_short_notes_one_chunk_each(notes, upto - 1);
        lemma_short_phrase_chunks(notes, upto - 1, notes[upto - 1].len() as int);
    }
}

/// Scheduler progression, phrase by phrase: a finished session on a track
/// of notes of at most twenty milliseconds has sung as many phrases as the
/// backing track holds, and in each phrase as many notes.
pub proof fn lemma_finished_mirrors_short_track(state: SessionState)
    requires
        state.valid(),
        state.state == State::Finished,
        all_notes_short(state.backing),
    ensures
        state.sung.len() == state.backing.len(),
        forall|i: int|
            0 <= i < state.backing.len() ==> (#[trigger] state.sung[i]).len()
                == state.backing[i].len(),
        state.sung_count() == note_total(state.backing, state.backing.len() as int),
{
    assert forall|i: int| 0 <= i < state.backing.len() implies (#[trigger] state.sung[i]).len()
        == state.backing[i].len() by {
        lemma_short_phrase_chunks(state.backing, i, state.backing[i].len() as int);
    }
    lemma_finished_sung_count(state);
    lemma_short_notes_one_chunk_each(state.backing, state.backing.len() as int);
}

/// While a session plays, a tick adds to the goal exactly the running time
/// since the tick before, and never lowers it: a chunk whose time has come
/// stays due through every later tick until its window is handed out.
pub proof fn lemma_tick_adds_running_time(state: SessionState, now: u64)
    requires
        state.valid(),
        state.state == State::Playing,
    ensures
        state.ticked(now).elapsed_time_goal == sat_add(
            state.elapsed_time_goal,
            sat_add(
                state.clock.since_touch,
                sat_sub(now, later(state.clock.last_touch, state.clock.last_resume)),
            ),
        ),
        state.ticked(now).elapsed_time_goal >= state.elapsed_time_goal,
        state.time_ready() ==> state.ticked(now).time_ready(),
        state.ticked(now).valid(),
        state.ticked(now).consumed() == state.consumed(),
{
}

} // verus!
