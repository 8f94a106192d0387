//! The core of a karaoke program: it hears a singer through the microphone,
//! estimates the pitch window by window, and writes what is sung next to the
//! notes of a backing track, in step with the clock.
//!
//! - `capture`: the ring of samples between the capture callback and the
//!   analysis.
//! - `mic`: how many samples each window needs, and taking them.
//! - `pitch`: the search for the pitch period in an autocorrelation.
//! - `timer`: the session clock.
//! - `chunks`: cutting a note into windows.
//! - `session`: the state machine that paces all of it.
//! - `frame_splitter`, `metadata`: pacing the video, and reading its size
//!   and frame rate.
//! - `note`, `track`, `track_text`, `error`: the data, and tracks as text.
//! - `navigation`, `song_library`, `song_view`, `text`: the screens, the
//!   selection among the songs, the view of a track, and fitting a syllable
//!   into a width.

pub mod capture;
pub mod chunks;
pub mod error;
pub mod frame_splitter;
pub mod metadata;
pub mod mic;
pub mod navigation;
pub mod note;
pub mod pitch;
pub mod session;
pub mod song_library;
pub mod song_view;
pub mod text;
pub mod timer;
pub mod track;
pub mod track_text;
