//! The orchestrator's error type.
use vstd::prelude::*;

use crate::provider::ProviderError;
use crate::text::concat;
use crate::tool::ToolError;
use crate::voice::VoiceError;

verus! {

/// Single error enum for everything orchestrated by the assistant.
#[derive(Debug, Clone)]
pub enum AssistantError {
    Provider(String),
    Tool(String),
    Denied(String),
    Storage(String),
    Voice(String),
    Config(String),
    Cancelled,
}

impl AssistantError {
    pub open spec fn message_view(&self) -> Seq<char> {
        match self {
            AssistantError::Provider(m) => "provider error: "@ + m@,
            AssistantError::Tool(m) => "tool error: "@ + m@,
            AssistantError::Denied(m) => "security: request denied: "@ + m@,
            AssistantError::Storage(m) => "storage error: "@ + m@,
            AssistantError::Voice(m) => "voice error: "@ + m@,
            AssistantError::Config(m) => "configuration error: "@ + m@,
            AssistantError::Cancelled => "operation cancelled"@,
        }
    }

    /// Renders the error as text.
    pub fn message(&self) -> (r: String)
        ensures
            r@ == self.message_view(),
    {
        match self {
            AssistantError::Provider(m) => concat("provider error: ", m.as_str()),
            AssistantError::Tool(m) => concat("tool error: ", m.as_str()),
            AssistantError::Denied(m) => concat("security: request denied: ", m.as_str()),
            AssistantError::Storage(m) => concat("storage error: ", m.as_str()),
            AssistantError::Voice(m) => concat("voice error: ", m.as_str()),
            AssistantError::Config(m) => concat("configuration error: ", m.as_str()),
            AssistantError::Cancelled => "operation cancelled".to_string(),
        }
    }

    /// A provider failure, carrying the provider error's text.
    pub fn from_provider(e: &ProviderError) -> (r: Self)
        ensures
            r matches AssistantError::Provider(m) && m@ == e.message_view(),
    {
        AssistantError::Provider(e.message())
    }

    /// A tool failure, carrying the tool error's text.
    pub fn from_tool(e: &ToolError) -> (r: Self)
        ensures
            r matches AssistantError::Tool(m) && m@ == e.message_view(),
    {
        AssistantError::Tool(e.message())
    }

    /// A voice failure, carrying the voice error's text.
    pub fn from_voice(e: &VoiceError) -> (r: Self)
        ensures
            r matches AssistantError::Voice(m) && m@ == e.message_view(),
    {
        AssistantError::Voice(e.message())
    }
}

} // verus!
