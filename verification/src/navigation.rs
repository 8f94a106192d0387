//! The screens of the program and the way from one to the other.
//!
//! A message changes the screen and may ask for something to be done: the
//! selection to be moved, a session to be started or ticked. Doing it is
//! not part of this module.

use vstd::prelude::*;
use crate::session::State;

verus! {

/// The screen that the program shows.
#[derive(Debug, Clone, Copy, PartialEq, Eq, Structural)]
pub enum KaraokeState {
    /// The list of songs, with one in focus.
    Library,
    /// The song in focus, with its button to play it.
    SongSelection,
    /// A session that plays.
    Playing,
    /// A session that is interrupted.
    Paused,
}

/// What the user or the frame loop asks for.
#[derive(Debug, Clone, Copy, PartialEq, Eq, Structural)]
pub enum Message {
    FocusUp,
    FocusDown,
    FocusRight,
    FocusLeft,
    Focus(usize),
    SelectFocused,
    Play,
    Pause,
    Resume,
    Tick,
    Idle,
}

/// What is to be done after a message.
#[derive(Debug, Clone, Copy, PartialEq, Eq, Structural)]
pub enum Command {
    /// Nothing.
    Nothing,
    /// Move the focus to the song before.
    SelectPrevious,
    /// Move the focus to the next song.
    SelectNext,
    /// Move the focus to the song at this index.
    Select(usize),
    /// Start a session on the song in focus.
    StartSession,
    /// Move the list of songs towards the song in focus.
    Scroll,
    /// Tick the session.
    TickSession,
}

/// Whether a message can be taken on a screen: a tick on the screen of an
/// interrupted session cannot.
pub open spec fn accepts(state: KaraokeState, message: Message) -> bool {
    !(state == KaraokeState::Paused && message == Message::Tick)
}

/// The screen after a message, and what is to be done.
pub open spec fn transition(state: KaraokeState, message: Message) -> (KaraokeState, Command) {
    match message {
        Message::FocusUp => match state {
            KaraokeState::Library => (state, Command::SelectPrevious),
            _ => (state, Command::Nothing),
        },
        Message::FocusDown => match state {
            KaraokeState::Library => (state, Command::SelectNext),
            _ => (state, Command::Nothing),
        },
        Message::FocusRight => match state {
            KaraokeState::Library => (KaraokeState::SongSelection, Command::Nothing),
            _ => (state, Command::Nothing),
        },
        Message::FocusLeft => match state {
            KaraokeState::SongSelection => (KaraokeState::Library, Command::Nothing),
            _ => (state, Command::Nothing),
        },
        Message::Focus(i) => (state, Command::Select(i)),
        Message::SelectFocused => match state {
            KaraokeState::Library => (KaraokeState::SongSelection, Command::Nothing),
            KaraokeState::SongSelection => (KaraokeState::Playing, Command::StartSession),
            _ => (state, Command::Nothing),
        },
        Message::Tick => match state {
            KaraokeState::Library => (state, Command::Scroll),
            KaraokeState::SongSelection => (state, Command::Scroll),
            KaraokeState::Playing => (state, Command::TickSession),
            KaraokeState::Paused => (state, Command::Nothing),
        },
        _ => (state, Command::Nothing),
    }
}

/// The screen after the session was ticked: the library once the session
/// is finished.
pub open spec fn after_tick(state: KaraokeState, session: State) -> KaraokeState {
    if state == KaraokeState::Playing && session == State::Finished {
        KaraokeState::Library
    } else {
        state
    }
}

/// Takes a message on a screen: the screen that follows, and what is to be
/// done.
pub fn handle_message(state: KaraokeState, message: Message) -> (next: (KaraokeState, Command))
    requires
        accepts(state, message),
    ensures
        next == transition(state, message),
{
    match message {
        Message::FocusUp => match state {
            KaraokeState::Library => (state, Command::SelectPrevious),
            _ => (state, Command::Nothing),
        },
        Message::FocusDown => match state {
            KaraokeState::Library => (state, Command::SelectNext),
            _ => (state, Command::Nothing),
        },
        Message::FocusRight => match state {
            KaraokeState::Library => (KaraokeState::SongSelection, Command::Nothing),
            _ => (state, Command::Nothing),
        },
        Message::FocusLeft => match state {
            KaraokeState::SongSelection => (KaraokeState::Library, Command::Nothing),
            _ => (state, Command::Nothing),
        },
        Message::Focus(i) => (state, Command::Select(i)),
        Message::SelectFocused => match state {
            KaraokeState::Library => (KaraokeState::SongSelection, Command::Nothing),
            KaraokeState::SongSelection => (KaraokeState::Playing, Command::StartSession),
            _ => (state, Command::Nothing),
        },
        Message::Tick => tick(state),
        _ => (state, Command::Nothing),
    }
}

/// Takes a tick of the frame loop on a screen.
pub fn tick(state: KaraokeState) -> (next: (KaraokeState, Command))
    requires
        state != KaraokeState::Paused,
    ensures
        next == transition(state, Message::Tick),
{
    match state {
        KaraokeState::Library => (state, Command::Scroll),
        KaraokeState::SongSelection => (state, Command::Scroll),
        _ => (state, Command::TickSession),
    }
}

/// The screen after the session was ticked and stands at `session`.
pub fn session_ticked(state: KaraokeState, session: State) -> (next: KaraokeState)
    ensures
        next == after_tick(state, session),
{
    match (state, session) {
        (KaraokeState::Playing, State::Finished) => KaraokeState::Library,
        _ => state,
    }
}

/// No message leads to the screen of an interrupted session, so a tick can
/// always be taken on a screen that was reached from the library.
pub proof fn lemma_never_paused(state: KaraokeState, message: Message, session: State)
    requires
        state != KaraokeState::Paused,
    ensures
        transition(state, message).0 != KaraokeState::Paused,
        after_tick(state, session) != KaraokeState::Paused,
        accepts(transition(state, message).0, Message::Tick),
{
}

} // verus!
