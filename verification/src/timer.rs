//! The session clock: a stopwatch that can be paused and resumed.
//!
//! A timer counts nanoseconds on a clock of its own, which stands at zero
//! when the timer is made. Each operation that depends on the time comes
//! twice: under its plain name it reads the machine's clock, and with `_at`
//! it takes the reading as an argument, so that what it does can be stated
//! exactly.

use vstd::prelude::*;
use std::time::Duration;
use std::time::Instant;

verus! {

/// `std::time::Instant`, a reading of the machine's monotonic clock. Nothing
/// is known of what it holds.
#[verifier::external_type_specification]
#[verifier::external_body]
pub struct ExInstant(std::time::Instant);

/// Calls `Instant::now`. Nothing is claimed of the reading.
#[verifier::external_body]
fn instant_now() -> Instant {
    Instant::now()
}

/// Calls `Instant::elapsed`: the time that has passed since `origin` was
/// read. Nothing is claimed of it.
#[verifier::external_body]
fn instant_elapsed(origin: &Instant) -> Duration {
    origin.elapsed()
}

/// Calls `Duration::as_nanos`. Nothing is claimed of the number.
#[verifier::external_body]
fn duration_as_nanos(span: &Duration) -> u128 {
    span.as_nanos()
}

/// Nanoseconds in a millisecond.
pub const NANOS_PER_MILLI: u64 = 1_000_000;

/// `a + b`, or the largest `u64` where that does not fit.
pub open spec fn sat_add(a: u64, b: u64) -> u64 {
    if a + b > u64::MAX {
        u64::MAX
    } else {
        (a + b) as u64
    }
}

/// `a - b`, or zero where `b` is the larger.
pub open spec fn sat_sub(a: u64, b: u64) -> u64 {
    if a >= b {
        (a - b) as u64
    } else {
        0
    }
}

/// The larger of two readings.
pub open spec fn later(a: u64, b: u64) -> u64 {
    if a >= b {
        a
    } else {
        b
    }
}

/// What a timer is at one moment. Readings and spans are in nanoseconds.
pub struct TimerState {
    /// Whether the timer stands still.
    pub paused: bool,
    /// The reading at which the timer was last touched.
    pub last_touch: u64,
    /// The reading at which the timer was last resumed.
    pub last_resume: u64,
    /// The reading at which the timer was last paused.
    pub last_pause: u64,
    /// The running time of the intervals that a pause has ended.
    pub accumulated: u64,
    /// The running time since the last touch, up to the last pause.
    pub since_touch: u64,
    /// The time that was declared used.
    pub processed: u64,
}

impl TimerState {
    /// A timer as it is made: paused, with nothing counted.
    pub open spec fn initial() -> TimerState {
        TimerState {
            paused: true,
            last_touch: 0,
            last_resume: 0,
            last_pause: 0,
            accumulated: 0,
            since_touch: 0,
            processed: 0,
        }
    }

    /// The running time of the interval in progress at the reading `now`:
    /// zero while paused.
    pub open spec fn in_progress_at(self, now: u64) -> u64 {
        if self.paused {
            0
        } else {
            sat_sub(now, self.last_resume)
        }
    }

    /// The total running time at the reading `now`.
    pub open spec fn elapsed_at(self, now: u64) -> u64 {
        sat_add(self.accumulated, self.in_progress_at(now))
    }

    /// The running time since the last touch at the reading `now`.
    pub open spec fn duration_since_touch_at(self, now: u64) -> u64 {
        if self.paused {
            self.since_touch
        } else {
            sat_add(self.since_touch, sat_sub(now, later(self.last_touch, self.last_resume)))
        }
    }

    /// The running time at the reading `now` that was not declared used.
    pub open spec fn time_left_to_process_at(self, now: u64) -> u64 {
        sat_sub(self.elapsed_at(now), self.processed)
    }

    /// The timer after a touch at the reading `now`.
    pub open spec fn touch_at(self, now: u64) -> TimerState {
        TimerState { last_touch: now, since_touch: 0, ..self }
    }

    /// The timer after `time` was declared used.
    pub open spec fn process(self, time: u64) -> TimerState {
        TimerState { processed: sat_add(self.processed, time), ..self }
    }

    /// The timer after a pause at the reading `now`: a paused timer stays as
    /// it is.
    pub open spec fn pause_at(self, now: u64) -> TimerState {
        if self.paused {
            self
        } else {
            TimerState {
                paused: true,
                last_pause: now,
                accumulated: self.elapsed_at(now),
                since_touch: self.duration_since_touch_at(now),
                ..self
            }
        }
    }

    /// The timer after a resume at the reading `now`: it runs, and its
    /// interval in progress begins at `now`. Where it ran already, the
    /// interval that was in progress is counted first, on both stopwatches,
    /// so that no running time is lost.
    pub open spec fn resume_at(self, now: u64) -> TimerState {
        TimerState {
            paused: false,
            last_resume: now,
            accumulated: self.elapsed_at(now),
            since_touch: self.duration_since_touch_at(now),
            ..self
        }
    }
}

/// The reading that stands for a number of nanoseconds: the number itself,
/// or the largest `u64` where it does not fit.
pub open spec fn clamped(nanos: u128) -> u64 {
    if nanos > u64::MAX {
        u64::MAX
    } else {
        nanos as u64
    }
}

/// The reading that stands for `nanos` nanoseconds on a timer's clock.
pub fn reading_of(nanos: u128) -> (reading: u64)
    ensures
        reading == clamped(nanos),
{
    if nanos > u64::MAX as u128 {
        u64::MAX
    } else {
        nanos as u64
    }
}

/// A stopwatch that can be paused and resumed, with a second stopwatch that
/// `touch` sets back to zero, and a count of the time that was declared
/// used.
#[derive(Debug, Clone, Copy)]
pub struct Timer {
    origin: Instant,
    last_touch: u64,
    time_processed: u64,
    paused: bool,
    last_resume_time: u64,
    last_pause_time: u64,
    elapsed_time: u64,
    elapsed_time_since_touch: u64,
}

impl View for Timer {
    type V = TimerState;

    closed spec fn view(&self) -> TimerState {
        TimerState {
            paused: self.paused,
            last_touch: self.last_touch,
            last_resume: self.last_resume_time,
            last_pause: self.last_pause_time,
            accumulated: self.elapsed_time,
            since_touch: self.elapsed_time_since_touch,
            processed: self.time_processed,
        }
    }
}

impl Timer {
    /// Makes a paused timer whose clock stands at zero.
    pub fn new() -> (timer: Timer)
        ensures
            timer@ == TimerState::initial(),
    {
        Timer {
            origin: instant_now(),
            last_touch: 0,
            time_processed: 0,
            paused: true,
            last_resume_time: 0,
            last_pause_time: 0,
            elapsed_time: 0,
            elapsed_time_since_touch: 0,
        }
    }

    /// Reads the timer's clock: the nanoseconds since the timer was made,
    /// as a reading (`reading_of`).
    pub fn now(&self) -> u64 {
        let span = instant_elapsed(&self.origin);
        let nanos: u128 = duration_as_nanos(&span);
        reading_of(nanos)
    }

    /// The total running time at the reading `now`. The timer stays as it is.
    pub fn elapsed_time_at(&mut self, now: u64) -> (elapsed: u64)
        ensures
            elapsed == old(self)@.elapsed_at(now),
            *final(self) == *old(self),
    {
        if self.paused {
            self.elapsed_time
        } else {
            self.elapsed_time.saturating_add(now.saturating_sub(self.last_resume_time))
        }
    }

    /// The total running time now.
    pub fn elapsed_time(&mut self) -> (elapsed: u64)
        ensures
            exists|now: u64| elapsed == old(self)@.elapsed_at(now),
            old(self)@.paused ==> elapsed == old(self)@.accumulated,
            *final(self) == *old(self),
    {
        let now = self.now();
        self.elapsed_time_at(now)
    }

    /// Sets the second stopwatch back to zero at the reading `now`.
    pub fn touch_at(&mut self, now: u64)
        ensures
            final(self)@ == old(self)@.touch_at(now),
    {
        self.last_touch = now;
        self.elapsed_time_since_touch = 0;
    }

    /// Sets the second stopwatch back to zero.
    pub fn touch(&mut self)
        ensures
            exists|now: u64| final(self)@ == old(self)@.touch_at(now),
    {
        let now = self.now();
        self.touch_at(now);
    }

    /// The running time since the last touch at the reading `now`. The timer
    /// stays as it is.
    pub fn duration_since_touch_at(&mut self, now: u64) -> (span: u64)
        ensures
            span == old(self)@.duration_since_touch_at(now),
            *final(self) == *old(self),
    {
        if self.paused {
            self.elapsed_time_since_touch
        } else {
            let from = if self.last_touch >= self.last_resume_time {
                self.last_touch
            } else {
                self.last_resume_time
            };
            self.elapsed_time_since_touch.saturating_add(now.saturating_sub(from))
        }
    }

    /// The running time since the last touch.
    pub fn duration_since_touch(&mut self) -> (span: u64)
        ensures
            exists|now: u64| span == old(self)@.duration_since_touch_at(now),
            old(self)@.paused ==> span == old(self)@.since_touch,
            *final(self) == *old(self),
    {
        let now = self.now();
        self.duration_since_touch_at(now)
    }

    /// Declares `time` nanoseconds of the running time used.
    pub fn process(&mut self, time: u64)
        ensures
            final(self)@ == old(self)@.process(time),
    {
        self.time_processed = self.time_processed.saturating_add(time);
    }

    /// The running time at the reading `now` that was not declared used. The
    /// timer stays as it is.
    pub fn time_left_to_process_at(&mut self, now: u64) -> (left: u64)
        ensures
            left == old(self)@.time_left_to_process_at(now),
            *final(self) == *old(self),
    {
        let elapsed = self.elapsed_time_at(now);
        elapsed.saturating_sub(self.time_processed)
    }

    /// The running time that was not declared used.
    pub fn time_left_to_process(&mut self) -> (left: u64)
        ensures
            exists|now: u64| left == old(self)@.time_left_to_process_at(now),
            *final(self) == *old(self),
    {
        let now = self.now();
        self.time_left_to_process_at(now)
    }

    /// Pauses the timer at the reading `now`. A paused timer stays as it is.
    pub fn pause_at(&mut self, now: u64)
        ensures
            final(self)@ == old(self)@.pause_at(now),
    {
        if !self.paused {
            let elapsed = self.elapsed_time_at(now);
            let since_touch = self.duration_since_touch_at(now);
            self.elapsed_time = elapsed;
            self.elapsed_time_since_touch = since_touch;
            self.last_pause_time = now;
            self.paused = true;
        }
    }

    /// Pauses the timer.
    pub fn pause(&mut self)
        ensures
            exists|now: u64| final(self)@ == old(self)@.pause_at(now),
            old(self)@.paused ==> final(self)@ == old(self)@,
    {
        let now = self.now();
        self.pause_at(now);
    }

    /// Sets the timer running from the reading `now`. On a timer that runs
    /// already the running time up to `now` is kept.
    pub fn resume_at(&mut self, now: u64)
        ensures
            final(self)@ == old(self)@.resume_at(now),
    {
        let elapsed = self.elapsed_time_at(now);
        let since_touch = self.duration_since_touch_at(now);
        self.elapsed_time = elapsed;
        self.elapsed_time_since_touch = since_touch;
        self.paused = false;
        self.last_resume_time = now;
    }

    /// Sets the timer running.
    pub fn resume(&mut self)
        ensures
            exists|now: u64| final(self)@ == old(self)@.resume_at(now),
    {
        let now = self.now();
        self.resume_at(now);
    }

    /// Whether the timer stands still.
    pub fn is_paused(&self) -> (paused: bool)
        ensures
            paused == self@.paused,
    {
        self.paused
    }
}

/// Pause idempotence: a second pause changes nothing, so the running time
/// read afterwards is the same as after one pause, whenever it is read.
pub proof fn lemma_pause_idempotent(state: TimerState, first: u64, second: u64, now: u64)
    ensures
        state.pause_at(first).pause_at(second) == state.pause_at(first),
        state.pause_at(first).pause_at(second).elapsed_at(now) == state.pause_at(first).elapsed_at(
            now,
        ),
{
}

/// Clock monotonicity: of two readings of one timer, the later one gives no
/// smaller a running time.
pub proof fn lemma_elapsed_monotonic(state: TimerState, earlier: u64, later: u64)
    requires
        earlier <= later,
    ensures
        state.elapsed_at(earlier) <= state.elapsed_at(later),
{
}

/// Touching the timer or declaring time used leaves the running time as it
/// was, so two readings stay ordered with such calls between them.
pub proof fn lemma_elapsed_unaffected(state: TimerState, at: u64, time: u64, now: u64)
    ensures
        state.touch_at(at).elapsed_at(now) == state.elapsed_at(now),
        state.process(time).elapsed_at(now) == state.elapsed_at(now),
{
}

/// A pause keeps the running time that was read at the same moment, and
/// while the timer is paused the running time stands still.
pub proof fn lemma_pause_keeps_elapsed(state: TimerState, at: u64, now: u64)
    ensures
        state.pause_at(at).elapsed_at(now) == state.elapsed_at(at),
{
}

/// A resume never lowers the running time, whether the timer stood still
/// or ran: what is read at or after the resume is no less than what was
/// read at the resume. The same holds of the second stopwatch. A resume
/// of a timer that runs changes no later reading. So the running time never
/// goes down while the timer runs, whatever is called between two readings.
pub proof fn lemma_resume_keeps_elapsed(state: TimerState, at: u64, now: u64)
    requires
        at <= now,
    ensures
        state.resume_at(at).elapsed_at(at) == state.elapsed_at(at),
        state.resume_at(at).elapsed_at(now) >= state.elapsed_at(at),
        state.resume_at(at).duration_since_touch_at(now) >= state.duration_since_touch_at(at),
        !state.paused && state.last_resume <= at ==> state.resume_at(at).elapsed_at(now)
            == state.elapsed_at(now),
{
}

} // verus!
