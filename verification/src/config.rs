//! Configuration defaults (file and environment loading live in the app).
//! Secrets are never part of the configuration.
use vstd::prelude::*;

use crate::provider::{default_max_tokens, default_temperature, DEFAULT_TEMPERATURE_BITS};

verus! {

/// Assistant preferences. The temperature is held as the bit pattern of
/// its `f32` value.
#[derive(Debug, Clone)]
pub struct AssistantConfig {
    pub default_provider: String,
    pub default_model: String,
    pub temperature_bits: u32,
    pub max_tokens: u32,
    pub system_prompt: String,
    pub max_history: usize,
    pub max_tool_iterations: usize,
}

/// The default assistant persona.
pub open spec fn default_system_prompt_view() -> Seq<char> {
    "Tu es SoryOS AI, l'assistant personnel natif de SoryOS. Tu réponds de façon claire, concise et utile. Tu peux utiliser les outils mis à ta disposition quand cela aide l'utilisateur."@
}

/// Provider used when nothing else is configured.
pub fn default_provider() -> (r: String)
    ensures
        r@ == "mock"@,
{
    "mock".to_string()
}

/// Number of history messages kept in the context window.
pub fn default_max_history() -> (r: usize)
    ensures
        r == 40,
{
    40
}

/// Number of tool rounds allowed after the first provider pass.
pub fn default_max_tool_iterations() -> (r: usize)
    ensures
        r == 5,
{
    5
}

/// The default system prompt.
pub fn default_system_prompt() -> (r: String)
    ensures
        r@ == default_system_prompt_view(),
{
    "Tu es SoryOS AI, l'assistant personnel natif de SoryOS. Tu réponds de façon claire, concise et utile. Tu peux utiliser les outils mis à ta disposition quand cela aide l'utilisateur.".to_string()
}

impl Default for AssistantConfig {
    fn default() -> (r: Self)
        ensures
            r.default_provider@ == "mock"@,
            r.default_model@.len() == 0,
            r.temperature_bits == DEFAULT_TEMPERATURE_BITS,
            r.max_tokens == 1024,
            r.system_prompt@ == default_system_prompt_view(),
            r.max_history == 40,
            r.max_tool_iterations == 5,
    {
        AssistantConfig {
            default_provider: default_provider(),
            default_model: String::new(),
            temperature_bits: default_temperature(),
            max_tokens: default_max_tokens(),
            system_prompt: default_system_prompt(),
            max_history: default_max_history(),
            max_tool_iterations: default_max_tool_iterations(),
        }
    }
}

impl AssistantConfig {
    /// Replaces the model, temperature and token budget.
    pub fn set_generation_params(&mut self, model: String, temperature_bits: u32, max_tokens: u32)
        ensures
            final(self).default_model == model,
            final(self).temperature_bits == temperature_bits,
            final(self).max_tokens == max_tokens,
            final(self).default_provider == old(self).default_provider,
            final(self).system_prompt == old(self).system_prompt,
            final(self).max_history == old(self).max_history,
            final(self).max_tool_iterations == old(self).max_tool_iterations,
    {
        self.default_model = model;
        self.temperature_bits = temperature_bits;
        self.max_tokens = max_tokens;
    }
}

/// Voice preferences.
#[derive(Debug, Clone)]
pub struct VoiceConfig {
    pub enabled: bool,
    pub stt_provider: String,
    pub tts_provider: String,
}

/// Default for the boolean switches of the configuration.
pub fn default_true() -> (r: bool)
    ensures
        r,
{
    true
}

/// Default speech-to-text backend.
pub fn default_stt() -> (r: String)
    ensures
        r@ == "mock"@,
{
    "mock".to_string()
}

/// Default text-to-speech backend.
pub fn default_tts() -> (r: String)
    ensures
        r@ == "mock"@,
{
    "mock".to_string()
}

impl Default for VoiceConfig {
    fn default() -> (r: Self)
        ensures
            r.enabled,
            r.stt_provider@ == "mock"@,
            r.tts_provider@ == "mock"@,
    {
        VoiceConfig { enabled: default_true(), stt_provider: default_stt(), tts_provider: default_tts() }
    }
}

/// Security preferences.
#[derive(Debug, Clone)]
pub struct SecurityConfig {
    pub shell_requires_confirmation: bool,
    pub filesystem_write_requires_confirmation: bool,
    pub filesystem_sandbox: String,
}

impl Default for SecurityConfig {
    fn default() -> (r: Self)
        ensures
            r.shell_requires_confirmation,
            r.filesystem_write_requires_confirmation,
            r.filesystem_sandbox@.len() == 0,
    {
        SecurityConfig {
            shell_requires_confirmation: true,
            filesystem_write_requires_confirmation: true,
            filesystem_sandbox: String::new(),
        }
    }
}

/// The whole configuration.
#[derive(Debug, Clone)]
pub struct AppConfig {
    pub assistant: AssistantConfig,
    pub voice: VoiceConfig,
    pub security: SecurityConfig,
}

impl Default for AppConfig {
    fn default() -> (r: Self)
        ensures
            r.assistant.default_provider@ == "mock"@,
            r.assistant.max_tool_iterations == 5,
            r.voice.enabled,
            r.security.shell_requires_confirmation,
    {
        AppConfig {
            assistant: AssistantConfig::default(),
            voice: VoiceConfig::default(),
            security: SecurityConfig::default(),
        }
    }
}

/// Picks the non-empty override when one is given (an environment value
/// that is blank once trimmed does not override).
pub fn override_if_set(current: String, candidate: Option<String>) -> (r: String)
    ensures
        r@ == match candidate {
            Some(v) => if crate::text::trim_seq(v@).len() != 0 {
                v@
            } else {
                current@
            },
            None => current@,
        },
{
    match candidate {
        Some(v) => {
            if !crate::text::is_blank(v.as_str()) {
                v
            } else {
                current
            }
        },
        None => current,
    }
}

} // verus!
