//! Voice states, voice errors and the voice overlay helpers.
use vstd::prelude::*;

use crate::text::{concat, concat3};

verus! {

/// Lifecycle of a voice conversation turn.
#[derive(Debug, Clone, Copy, PartialEq, Eq, Structural)]
pub enum VoiceState {
    Idle,
    Listening,
    Processing,
    Speaking,
    Interrupted,
    Error,
}

impl Default for VoiceState {
    fn default() -> (r: Self)
        ensures
            r == VoiceState::Idle,
    {
        VoiceState::Idle
    }
}

impl VoiceState {
    pub open spec fn label_view(self) -> Seq<char> {
        match self {
            VoiceState::Idle => "Idle"@,
            VoiceState::Listening => "Listening"@,
            VoiceState::Processing => "Processing"@,
            VoiceState::Speaking => "Speaking"@,
            VoiceState::Interrupted => "Interrupted"@,
            VoiceState::Error => "Error"@,
        }
    }

    pub open spec fn icon_view(self) -> Seq<char> {
        match self {
            VoiceState::Idle => "🎤"@,
            VoiceState::Listening => "🔴"@,
            VoiceState::Processing => "⏳"@,
            VoiceState::Speaking => "🔊"@,
            VoiceState::Interrupted => "✋"@,
            VoiceState::Error => "⚠️"@,
        }
    }

    pub fn label(self) -> (r: &'static str)
        ensures
            r@ == self.label_view(),
    {
        match self {
            VoiceState::Idle => "Idle",
            VoiceState::Listening => "Listening",
            VoiceState::Processing => "Processing",
            VoiceState::Speaking => "Speaking",
            VoiceState::Interrupted => "Interrupted",
            VoiceState::Error => "Error",
        }
    }

    pub fn icon(self) -> (r: &'static str)
        ensures
            r@ == self.icon_view(),
    {
        match self {
            VoiceState::Idle => "🎤",
            VoiceState::Listening => "🔴",
            VoiceState::Processing => "⏳",
            VoiceState::Speaking => "🔊",
            VoiceState::Interrupted => "✋",
            VoiceState::Error => "⚠️",
        }
    }
}

/// Failures of the voice pipeline.
#[derive(Debug, Clone)]
pub enum VoiceError {
    Unavailable(String),
    Transcription(String),
    Synthesis(String),
    Io(String),
}

impl VoiceError {
    pub open spec fn message_view(&self) -> Seq<char> {
        match self {
            VoiceError::Unavailable(m) => "audio backend unavailable: "@ + m@,
            VoiceError::Transcription(m) => "transcription failed: "@ + m@,
            VoiceError::Synthesis(m) => "synthesis failed: "@ + m@,
            VoiceError::Io(m) => "audio io error: "@ + m@,
        }
    }

    /// Renders the error as text.
    pub fn message(&self) -> (r: String)
        ensures
            r@ == self.message_view(),
    {
        match self {
            VoiceError::Unavailable(m) => concat("audio backend unavailable: ", m.as_str()),
            VoiceError::Transcription(m) => concat("transcription failed: ", m.as_str()),
            VoiceError::Synthesis(m) => concat("synthesis failed: ", m.as_str()),
            VoiceError::Io(m) => concat("audio io error: ", m.as_str()),
        }
    }
}

/// Converts speech audio (PCM bytes) into text. Real engines plug in by
/// implementing it; nothing is promised of an implementation.
pub trait SpeechToText {
    /// The backend's name.
    fn name(&self) -> &str;

    /// The text spoken in `audio`, or why it could not be had.
    fn transcribe(&self, audio: &[u8]) -> Result<String, VoiceError>;
}

/// Converts text into speech audio (WAV bytes). Real engines plug in by
/// implementing it; nothing is promised of an implementation.
pub trait TextToSpeech {
    /// The backend's name.
    fn name(&self) -> &str;

    /// WAV audio speaking `text`, or why it could not be made.
    fn synthesize(&self, text: &str) -> Result<Vec<u8>, VoiceError>;
}

/// Failures of a voice backend.
#[derive(Debug, Clone)]
pub enum VoiceBackendError {
    Unavailable(String),
    Io(String),
}

impl VoiceBackendError {
    pub open spec fn message_view(&self) -> Seq<char> {
        match self {
            VoiceBackendError::Unavailable(m) => "backend unavailable: "@ + m@,
            VoiceBackendError::Io(m) => "io error: "@ + m@,
        }
    }

    /// Renders the error as text.
    pub fn message(&self) -> (r: String)
        ensures
            r@ == self.message_view(),
    {
        match self {
            VoiceBackendError::Unavailable(m) => concat("backend unavailable: ", m.as_str()),
            VoiceBackendError::Io(m) => concat("io error: ", m.as_str()),
        }
    }
}

/// Status line for the microphone button / voice overlay: icon, space, label.
pub fn status_line(state: VoiceState) -> (r: String)
    ensures
        r@ == state.icon_view() + " "@ + state.label_view(),
{
    concat3(state.icon(), " ", state.label())
}

/// The allowed transitions of the voice state machine.
pub open spec fn transition_allowed(from: VoiceState, to: VoiceState) -> bool {
    ||| to == VoiceState::Error
    ||| (from == VoiceState::Idle && to == VoiceState::Listening)
    ||| (from == VoiceState::Listening && (to == VoiceState::Processing || to == VoiceState::Idle))
    ||| (from == VoiceState::Processing && (to == VoiceState::Speaking || to == VoiceState::Idle))
    ||| (from == VoiceState::Speaking && (to == VoiceState::Idle || to == VoiceState::Interrupted))
    ||| (from == VoiceState::Interrupted && (to == VoiceState::Listening || to
        == VoiceState::Idle))
    ||| (from == VoiceState::Error && to == VoiceState::Idle)
}

/// Allowed transitions of the voice state machine (guards UI glitches).
pub fn can_transition(from: VoiceState, to: VoiceState) -> (r: bool)
    ensures
        r == transition_allowed(from, to),
{
    match (from, to) {
        (VoiceState::Idle, VoiceState::Listening) => true,
        (VoiceState::Listening, VoiceState::Processing) => true,
        (VoiceState::Listening, VoiceState::Idle) => true,
        (VoiceState::Processing, VoiceState::Speaking) => true,
        (VoiceState::Processing, VoiceState::Idle) => true,
        (VoiceState::Processing, VoiceState::Error) => true,
        (VoiceState::Speaking, VoiceState::Idle) => true,
        (VoiceState::Speaking, VoiceState::Interrupted) => true,
        (VoiceState::Interrupted, VoiceState::Listening) => true,
        (VoiceState::Interrupted, VoiceState::Idle) => true,
        (VoiceState::Error, VoiceState::Idle) => true,
        (_, VoiceState::Error) => true,
        _ => false,
    }
}

/// From every state the pipeline can fail, and from every state but
/// `Idle` itself it can come back to `Idle` in at most two allowed steps.
pub proof fn law_voice_recovers(from: VoiceState)
    ensures
        transition_allowed(from, VoiceState::Error),
        transition_allowed(VoiceState::Error, VoiceState::Idle),
        from != VoiceState::Idle ==> transition_allowed(from, VoiceState::Idle)
            || transition_allowed(from, VoiceState::Error),
{
}

/// The nominal cycle `Idle → Listening → Processing → Speaking → Idle` is
/// allowed step by step, and a turn cannot skip from `Idle` to `Speaking`.
pub proof fn law_voice_cycle()
    ensures
        transition_allowed(VoiceState::Idle, VoiceState::Listening),
        transition_allowed(VoiceState::Listening, VoiceState::Processing),
        transition_allowed(VoiceState::Processing, VoiceState::Speaking),
        transition_allowed(VoiceState::Speaking, VoiceState::Idle),
        !transition_allowed(VoiceState::Idle, VoiceState::Speaking),
{
}

} // verus!
