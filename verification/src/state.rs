//! The status of the audio backend and the rules by which it changes.
use vstd::prelude::*;

verus! {

/// The status that the audio backend is in.
#[derive(Debug, Clone, Copy, PartialEq, Eq, Structural)]
pub enum State {
    /// The backend is being set up.
    VoidPending,
    /// No media is loaded.
    Null,
    /// Media is loaded and has not started.
    Ready,
    Paused,
    Playing,
}

/// What the audio backend reports of itself.
#[derive(Debug, Clone, Copy, PartialEq, Eq, Structural)]
pub enum EngineSignal {
    LoadStarted,
    LoadComplete,
    PlayStarted,
    Paused,
    Stopped,
}

/// The status after a signal of the backend. The signal alone decides it:
/// a load that starts leaves no media loaded, a load that completes leaves the
/// media ready, and a stop unloads it.
pub open spec fn state_after(state: State, signal: EngineSignal) -> State {
    match signal {
        EngineSignal::LoadStarted => State::Null,
        EngineSignal::LoadComplete => State::Ready,
        EngineSignal::PlayStarted => State::Playing,
        EngineSignal::Paused => State::Paused,
        EngineSignal::Stopped => State::Null,
    }
}

/// What simple consumers are shown: anything but playing counts as paused.
pub open spec fn shown_as_playing(state: State) -> bool {
    state == State::Playing
}

impl State {
    /// The status a session starts in.
    pub fn initial() -> (state: State)
        ensures
            state == State::VoidPending,
    {
        State::VoidPending
    }

    /// The status after a signal of the backend.
    pub fn after(self, signal: EngineSignal) -> (next: State)
        ensures
            next == state_after(self, signal),
    {
        match signal {
            EngineSignal::LoadStarted => State::Null,
            EngineSignal::LoadComplete => State::Ready,
            EngineSignal::PlayStarted => State::Playing,
            EngineSignal::Paused => State::Paused,
            EngineSignal::Stopped => State::Null,
        }
    }

    /// Whether simple consumers are shown this status as playing.
    pub fn is_playing(self) -> (playing: bool)
        ensures
            playing == shown_as_playing(self),
    {
        match self {
            State::Playing => true,
            _ => false,
        }
    }

    /// The word that stands for this status on the wire: `play` or `pause`.
    pub fn wire_name(self) -> (name: &'static str)
        ensures
            name@ == wire_name_of(self),
    {
        match self {
            State::Playing => "play",
            _ => "pause",
        }
    }
}

/// The word that stands for a status on the wire.
pub open spec fn wire_name_of(state: State) -> Seq<char> {
    if shown_as_playing(state) {
        "play"@
    } else {
        "pause"@
    }
}

} // verus!
