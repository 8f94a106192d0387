//! The analysis side of the microphone: how many samples each window needs,
//! and taking them out of the capture buffer.
//!
//! The microphone counts the time that it has handed out in windows. The
//! samples due at a time of `t` milliseconds are `t * rate / 1000`, rounded
//! down, and a window needs the samples due at its end that were not due at
//! its start. So the rounding of one window is made up for by the next, and
//! the count never drifts from the time.

use vstd::prelude::*;
use vstd::arithmetic::div_mod::lemma_div_is_ordered;
use vstd::arithmetic::mul::lemma_mul_inequality;
use crate::capture::CaptureConsumer;
use crate::error::SessionError;
use crate::note::Note;

verus! {

/// The window length that a microphone starts with, in milliseconds.
pub const DEFAULT_WINDOW_LENGTH: u32 = 100;

/// The samples due after `millis` milliseconds at `rate` samples per second.
pub open spec fn samples_due(rate: nat, millis: nat) -> nat {
    millis * rate / 1000
}

/// The samples due never grow fewer as time goes on.
pub proof fn lemma_samples_due_ordered(rate: nat, earlier: nat, later: nat)
    requires
        earlier <= later,
    ensures
        samples_due(rate, earlier) <= samples_due(rate, later),
{
    lemma_mul_inequality(earlier as int, later as int, rate as int);
    lemma_div_is_ordered((earlier * rate) as int, (later * rate) as int, 1000);
}

/// What a microphone's bookkeeping is at one moment.
pub struct MicrophoneState {
    /// Samples per second.
    pub sample_rate: u32,
    /// The length of the next window, in milliseconds.
    pub window_length: u32,
    /// The time handed out in windows so far, in milliseconds.
    pub elapsed_time: u64,
}

impl MicrophoneState {
    /// The samples handed out so far.
    pub open spec fn samples_processed(self) -> nat {
        samples_due(self.sample_rate as nat, self.elapsed_time as nat)
    }

    /// The samples that the next window needs.
    pub open spec fn needed_samples(self) -> nat {
        (samples_due(self.sample_rate as nat, (self.elapsed_time + self.window_length) as nat)
            - self.samples_processed()) as nat
    }

    /// Whether the time handed out can still grow by the next window.
    pub open spec fn can_advance(self) -> bool {
        self.elapsed_time + self.window_length <= u64::MAX
    }

    /// Whether a buffer that holds `available` samples has enough for the
    /// next window.
    pub open spec fn ready_with(self, available: nat) -> bool {
        self.can_advance() && available >= self.needed_samples()
    }

    /// The bookkeeping after the next window was handed out.
    pub open spec fn advanced(self) -> MicrophoneState {
        MicrophoneState {
            elapsed_time: (self.elapsed_time + self.window_length) as u64,
            ..self
        }
    }
}

/// Whether `after` and `result` are what a microphone with the bookkeeping
/// `before` may come to when it is asked for the next window.
///
/// A window is handed out only where the time handed out can grow; it is as
/// long as was needed, and it is counted. Nothing is handed out only where
/// the buffer may hold too little: not where the window needs no sample and
/// the time can grow. An error comes only where samples were needed and the
/// time can grow. Without a window nothing is counted.
pub open spec fn consume_outcome(
    before: MicrophoneState,
    after: MicrophoneState,
    result: Result<Option<Vec<u32>>, SessionError>,
) -> bool {
    match result {
        Ok(Some(samples)) => {
            &&& before.can_advance()
            &&& samples@.len() == before.needed_samples()
            &&& after == before.advanced()
        },
        Ok(None) => {
            &&& after == before
            &&& !(before.can_advance() && before.needed_samples() == 0)
        },
        Err(error) => {
            &&& error == SessionError::SchedulerInvariantViolation
            &&& after == before
            &&& before.can_advance()
            &&& before.needed_samples() > 0
        },
    }
}

/// The analysis side of the microphone: the consuming end of the capture
/// buffer and the count of what was taken from it.
pub struct Microphone {
    consumer: CaptureConsumer,
    sample_rate: u32,
    window_length: u32,
    elapsed_time: u64,
}

impl View for Microphone {
    type V = MicrophoneState;

    closed spec fn view(&self) -> MicrophoneState {
        MicrophoneState {
            sample_rate: self.sample_rate,
            window_length: self.window_length,
            elapsed_time: self.elapsed_time,
        }
    }
}

impl Microphone {
    /// Makes the analysis side for a capture at `sample_rate` samples per
    /// second, with a first window of a hundred milliseconds.
    pub fn new(consumer: CaptureConsumer, sample_rate: u32) -> (mic: Microphone)
        ensures
            mic@ == (MicrophoneState {
                sample_rate,
                window_length: DEFAULT_WINDOW_LENGTH,
                elapsed_time: 0,
            }),
    {
        Microphone {
            consumer,
            sample_rate,
            window_length: DEFAULT_WINDOW_LENGTH,
            elapsed_time: 0,
        }
    }

    /// Samples per second.
    pub fn sample_rate(&self) -> (rate: u32)
        ensures
            rate == self@.sample_rate,
    {
        self.sample_rate
    }

    /// The length of the next window, in milliseconds.
    pub fn window_length(&self) -> (length: u32)
        ensures
            length == self@.window_length,
    {
        self.window_length
    }

    /// The time handed out in windows so far, in milliseconds.
    pub fn elapsed_time(&self) -> (elapsed: u64)
        ensures
            elapsed == self@.elapsed_time,
    {
        self.elapsed_time
    }

    /// The samples that the next window needs.
    pub fn needed_samples(&self) -> (needed: u64)
        ensures
            needed == self@.needed_samples(),
    {
        let rate = self.sample_rate as u128;
        let start = self.elapsed_time as u128;
        let window = self.window_length as u128;
        let end = start + window;
        proof {
            lemma_samples_due_ordered(rate as nat, start as nat, end as nat);
            assert(end * rate == start * rate + window * rate) by (nonlinear_arith)
                requires
                    end == start + window,
            ;
            assert(start * rate <= 0xFFFF_FFFF_FFFF_FFFF * 0xFFFF_FFFF) by (nonlinear_arith)
                requires
                    0 <= start <= 0xFFFF_FFFF_FFFF_FFFF,
                    0 <= rate <= 0xFFFF_FFFF,
            ;
            assert(window * rate <= 0xFFFF_FFFF * 0xFFFF_FFFF) by (nonlinear_arith)
                requires
                    0 <= window <= 0xFFFF_FFFF,
                    0 <= rate <= 0xFFFF_FFFF,
            ;
        }
        let due_at_end = end * rate / 1000;
        let due_at_start = start * rate / 1000;
        let needed = due_at_end - due_at_start;
        needed as u64
    }

    /// Whether a buffer that holds `available` samples has enough for the
    /// next window.
    pub fn ready_with(&self, available: usize) -> (ready: bool)
        ensures
            ready == self@.ready_with(available as nat),
    {
        if self.elapsed_time > u64::MAX - self.window_length as u64 {
            return false;
        }
        available as u64 >= self.needed_samples()
    }

    /// Whether the capture buffer holds enough for the next window: the
    /// answer of `ready_with` to the number of samples that the buffer says
    /// it holds. So it is no where the time handed out cannot grow, and yes
    /// where it can and the window needs no sample.
    pub fn ready(&self) -> (ready: bool)
        ensures
            exists|available: usize| ready == self@.ready_with(available as nat),
            ready ==> self@.can_advance(),
            self@.can_advance() && self@.needed_samples() == 0 ==> ready,
    {
        let available = self.consumer.available_len();
        let ready = self.ready_with(available);
        assert(ready == self@.ready_with(available as nat));
        ready
    }

    /// Takes what the capture buffer handed over for the next window. A full
    /// window is counted and handed on; anything else is refused, and
    /// nothing is counted.
    pub fn accept(&mut self, window: Vec<u32>) -> (result: Result<Vec<u32>, SessionError>)
        ensures
            result.is_ok() <==> old(self)@.can_advance() && window@.len() == old(
                self,
            )@.needed_samples(),
            result matches Ok(samples) ==> samples == window && final(self)@ == old(
                self,
            )@.advanced(),
            result matches Err(error) ==> error == SessionError::SchedulerInvariantViolation
                && final(self)@ == old(self)@,
    {
        if self.elapsed_time > u64::MAX - self.window_length as u64 {
            return Err(SessionError::SchedulerInvariantViolation);
        }
        if window.len() as u64 != self.needed_samples() {
            return Err(SessionError::SchedulerInvariantViolation);
        }
        self.elapsed_time = self.elapsed_time + self.window_length as u64;
        Ok(window)
    }

    /// Takes the samples of the next window out of the capture buffer, if it
    /// holds enough of them. Where it holds enough and still hands over
    /// fewer, that is an error, and nothing is counted.
    ///
    /// What the buffer holds decides between the three, but not always:
    /// where the time handed out cannot grow, nothing is taken; where it can
    /// and the window needs no sample, the empty window is handed out.
    pub fn consume(&mut self) -> (result: Result<Option<Vec<u32>>, SessionError>)
        ensures
            consume_outcome(old(self)@, final(self)@, result),
            !old(self)@.can_advance() ==> result is Ok && result->Ok_0 is None,
            old(self)@.can_advance() && old(self)@.needed_samples() == 0 ==> result is Ok
                && result->Ok_0 is Some,
    {
        let available = self.consumer.available_len();
        if !self.ready_with(available) {
            return Ok(None);
        }
        let needed = self.needed_samples();
        let window = self.consumer.pop(needed as usize);
        match self.accept(window) {
            Ok(samples) => Ok(Some(samples)),
            Err(error) => Err(error),
        }
    }

    /// Discards every sample that the capture buffer holds. The count of
    /// what was handed out stays as it is.
    pub fn clear(&mut self)
        ensures
            final(self)@ == old(self)@,
    {
        let _ = self.consumer.clear();
    }

    /// Sets the length of the next window, in milliseconds.
    pub fn set_window_length(&mut self, window_length: u32)
        ensures
            final(self)@ == (MicrophoneState { window_length, ..old(self)@ }),
    {
        self.window_length = window_length;
    }

    /// The note that stands for the window handed out last, once its pitch
    /// is known: as long as the window, sung, without a syllable.
    pub fn note_for(&self, pitch: i8) -> (note: Note)
        ensures
            note.length == self@.window_length,
            note.pitch == pitch,
            note.voiced,
            note.lyric@ == Seq::<char>::empty(),
    {
        Note::new(self.window_length, pitch, true, String::new())
    }
}

} // verus!
