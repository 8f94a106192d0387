//! What can go wrong with a session.

use vstd::prelude::*;

verus! {

/// The ways in which a session can fail.
#[derive(Debug, Clone, Copy, PartialEq, Eq, Structural)]
pub enum SessionError {
    /// There is no capture device, or none with a usable stream
    /// configuration. No session is made.
    DeviceUnavailable,
    /// The capture buffer was full, and samples were dropped. The session
    /// goes on.
    BufferOverrun,
    /// The backing track has nothing to play. No session is made.
    EmptyTrack,
    /// The video decoder did not start, or what it says of the video cannot
    /// be read. No session is made.
    VideoPipelineError,
    /// The capture buffer handed over fewer samples than it had said it
    /// holds, or a pitch came that no window was waiting for.
    SchedulerInvariantViolation,
}

impl SessionError {
    /// Whether a session can go on after this error.
    pub open spec fn recoverable(self) -> bool {
        self == SessionError::BufferOverrun
    }

    /// Whether a session can go on after this error.
    pub fn is_recoverable(&self) -> (recoverable: bool)
        ensures
            recoverable == self.recoverable(),
    {
        match self {
            SessionError::BufferOverrun => true,
            _ => false,
        }
    }
}

} // verus!
