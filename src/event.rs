//! The events that every source publishes into the coordination channel.
use vstd::prelude::*;

verus! {

/// One piece of a streamed model answer.
#[derive(Debug, Clone, PartialEq, Eq)]
pub enum ModelAnswer {
    StartAnswer,
    Answer(String),
    EndAnswer,
}

/// A request to speak `text`, with the voice to use if one was chosen.
#[derive(Debug, Clone, PartialEq, Eq)]
pub struct VoiceRequest {
    pub text: String,
    pub voice: Option<String>,
}

/// What the voice player reports, or is asked to do.
#[derive(Debug, Clone, PartialEq, Eq)]
pub enum VoiceEvent {
    PlayText(VoiceRequest),
    Complete,
    Error(String),
}

/// A tagged occurrence published onto the channel. Terminal input (`K` for
/// keys, `M` for the mouse) is carried through without being read here.
#[derive(Debug, Clone, PartialEq, Eq)]
pub enum Event<K, M> {
    Tick,
    Key(K),
    Mouse(M),
    Resize(u16, u16),
    ModelEvent(ModelAnswer),
    Notification(String),
    VoiceEvent(VoiceEvent),
}

} // verus!
