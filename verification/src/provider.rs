//! Provider-agnostic chat types: requests, responses, chunks and errors.
use vstd::prelude::*;

use crate::message::{ChatMessage, ToolCall};
use crate::text::{
    chars_from, chars_of, chars_upto, concat, concat_all, find_char, index_of, lemma_index_of_bounds,
    string_from_chars,
};

verus! {

/// Bit pattern of the `f32` value 0.7, the default sampling temperature.
pub const DEFAULT_TEMPERATURE_BITS: u32 = 0x3F33_3333;

/// Generation parameters, provider-independent. The temperature is held
/// as the bit pattern of its `f32` value.
#[derive(Debug, Clone)]
pub struct GenerationParams {
    pub model: String,
    pub temperature_bits: u32,
    pub max_tokens: u32,
}

/// Default sampling temperature (0.7), as `f32` bits.
pub fn default_temperature() -> (r: u32)
    ensures
        r == DEFAULT_TEMPERATURE_BITS,
{
    DEFAULT_TEMPERATURE_BITS
}

/// Default completion budget.
pub fn default_max_tokens() -> (r: u32)
    ensures
        r == 1024,
{
    1024
}

impl Default for GenerationParams {
    fn default() -> (r: Self)
        ensures
            r.model@.len() == 0,
            r.temperature_bits == DEFAULT_TEMPERATURE_BITS,
            r.max_tokens == 1024,
    {
        GenerationParams {
            model: String::new(),
            temperature_bits: default_temperature(),
            max_tokens: default_max_tokens(),
        }
    }
}

/// JSON-schema description of a tool exposed to the model.
#[derive(Debug)]
pub struct ToolSchema {
    pub name: String,
    pub description: String,
    pub parameters: serde_json::Value,
}

/// Full request sent to a provider.
#[derive(Debug)]
pub struct ChatRequest {
    pub messages: Vec<ChatMessage>,
    pub params: GenerationParams,
    pub tools: Vec<ToolSchema>,
}

impl ChatRequest {
    pub fn new(messages: Vec<ChatMessage>, params: GenerationParams) -> (r: Self)
        ensures
            r.messages@ == messages@,
            r.params == params,
            r.tools@.len() == 0,
    {
        ChatRequest { messages, params, tools: Vec::new() }
    }

    pub fn with_tools(self, tools: Vec<ToolSchema>) -> (r: Self)
        ensures
            r.messages@ == self.messages@,
            r.params == self.params,
            r.tools@ == tools@,
    {
        ChatRequest { messages: self.messages, params: self.params, tools }
    }
}

/// Token usage reported by a provider (best effort, may be zero).
#[derive(Debug, Clone, Copy, PartialEq, Eq, Structural)]
pub struct Usage {
    pub prompt_tokens: u32,
    pub completion_tokens: u32,
}

impl Default for Usage {
    fn default() -> (r: Self)
        ensures
            r.prompt_tokens == 0 && r.completion_tokens == 0,
    {
        Usage { prompt_tokens: 0, completion_tokens: 0 }
    }
}

/// Complete, non-streaming response.
#[derive(Debug)]
pub struct ChatResponse {
    pub content: String,
    pub tool_calls: Vec<ToolCall>,
    pub model: String,
    pub usage: Usage,
}

impl Clone for ChatResponse {
    fn clone(&self) -> (r: Self)
        ensures
            r.content == self.content,
            r.tool_calls@ == self.tool_calls@,
            r.model == self.model,
            r.usage == self.usage,
    {
        ChatResponse {
            content: self.content.clone(),
            tool_calls: crate::message::clone_calls(&self.tool_calls),
            model: self.model.clone(),
            usage: self.usage,
        }
    }
}

impl ChatResponse {
    /// A plain text response: no tool calls, no model name, zero usage.
    pub fn text(content: String) -> (r: Self)
        ensures
            r.content == content,
            r.tool_calls@.len() == 0,
            r.model@.len() == 0,
            r.usage == (Usage { prompt_tokens: 0, completion_tokens: 0 }),
    {
        ChatResponse { content, tool_calls: Vec::new(), model: String::new(), usage: Usage::default() }
    }
}

/// Incremental chunk of a streaming response. Finished tool calls are
/// carried by the final chunk.
#[derive(Debug)]
pub struct ChatChunk {
    pub delta: String,
    pub tool_calls: Vec<ToolCall>,
    pub finished: bool,
}

impl Default for ChatChunk {
    fn default() -> (r: Self)
        ensures
            r.delta@.len() == 0,
            r.tool_calls@.len() == 0,
            !r.finished,
    {
        ChatChunk { delta: String::new(), tool_calls: Vec::new(), finished: false }
    }
}

/// Static metadata describing a provider implementation.
#[derive(Debug, Clone)]
pub struct ProviderInfo {
    pub name: &'static str,
    pub models: Vec<String>,
}

/// Everything that can go wrong while talking to a model backend.
#[derive(Debug, Clone)]
pub enum ProviderError {
    Auth(String),
    Request(String),
    Api(String),
    Protocol(String),
    Timeout,
    NotConfigured(String),
    ModelNotFree(String),
    Transport(String),
}

impl ProviderError {
    /// The error's text.
    pub open spec fn message_view(&self) -> Seq<char> {
        match self {
            ProviderError::Auth(m) => "authentication failed: "@ + m@,
            ProviderError::Request(m) => "request error: "@ + m@,
            ProviderError::Api(m) => "provider returned an error: "@ + m@,
            ProviderError::Protocol(m) => "invalid response from provider: "@ + m@,
            ProviderError::Timeout => "request timed out"@,
            ProviderError::NotConfigured(m) => "provider not configured: "@ + m@,
            ProviderError::ModelNotFree(m) => "model is not free and paid models are forbidden: "@
                + m@,
            ProviderError::Transport(m) => "transport error: "@ + m@,
        }
    }

    /// Renders the error as text.
    pub fn message(&self) -> (r: String)
        ensures
            r@ == self.message_view(),
    {
        match self {
            ProviderError::Auth(m) => concat("authentication failed: ", m.as_str()),
            ProviderError::Request(m) => concat("request error: ", m.as_str()),
            ProviderError::Api(m) => concat("provider returned an error: ", m.as_str()),
            ProviderError::Protocol(m) => concat("invalid response from provider: ", m.as_str()),
            ProviderError::Timeout => "request timed out".to_string(),
            ProviderError::NotConfigured(m) => concat("provider not configured: ", m.as_str()),
            ProviderError::ModelNotFree(m) => concat(
                "model is not free and paid models are forbidden: ",
                m.as_str(),
            ),
            ProviderError::Transport(m) => concat("transport error: ", m.as_str()),
        }
    }
}

/// Connectivity state of a provider, without leaking secrets.
#[derive(Debug, Clone, Copy, PartialEq, Eq, Structural)]
pub enum ProviderStatus {
    Ready,
    NotConfigured,
    Error,
}

impl ProviderStatus {
    pub open spec fn label_view(self) -> Seq<char> {
        match self {
            ProviderStatus::Ready => "Connected"@,
            ProviderStatus::NotConfigured => "Not configured"@,
            ProviderStatus::Error => "Error"@,
        }
    }

    /// Human-readable status.
    pub fn label(self) -> (r: &'static str)
        ensures
            r@ == self.label_view(),
    {
        match self {
            ProviderStatus::Ready => "Connected",
            ProviderStatus::NotConfigured => "Not configured",
            ProviderStatus::Error => "Error",
        }
    }
}

/// Pieces of `s`, each running up to and including a space
/// (`str::split_inclusive(' ')`); the last piece may lack the space.
pub open spec fn words_inclusive(s: Seq<char>) -> Seq<Seq<char>>
    decreases s.len(),
{
    if s.len() == 0 {
        seq![]
    } else {
        match index_of(s, ' ') {
            Some(i) => if 0 <= i < s.len() {
                seq![s.take(i + 1)] + words_inclusive(s.skip(i + 1))
            } else {
                seq![s]
            },
            None => seq![s],
        }
    }
}

/// The chunks of a reply that was fetched whole: one text chunk per word
/// (with its trailing space), then a final chunk with the tool calls.
pub fn word_chunks(content: &str, calls: Vec<ToolCall>) -> (r: Vec<ChatChunk>)
    ensures
        r@.len() == words_inclusive(content@).len() + 1,
        forall|k: int|
            0 <= k < words_inclusive(content@).len() ==> (#[trigger] r@[k]).delta@ == words_inclusive(
                content@,
            )[k] && r@[k].tool_calls@.len() == 0 && !r@[k].finished,
        r@.last().delta@.len() == 0,
        r@.last().tool_calls@ == calls@,
        r@.last().finished,
{
    let mut rest = chars_of(content);
    let mut out: Vec<ChatChunk> = Vec::new();
    let ghost all = words_inclusive(content@);
    while rest.len() > 0
        invariant
            all == words_inclusive(content@),
            all == out@.map_values(|c: ChatChunk| c.delta@) + words_inclusive(rest@),
            forall|k: int| 0 <= k < out@.len() ==> (#[trigger] out@[k]).tool_calls@.len() == 0 && !out@[k].finished,
        decreases rest@.len(),
    {
        let ghost before = out@;
        match find_char(&rest, ' ') {
            Some(i) => {
                proof {
                    lemma_index_of_bounds(rest@, ' ');
                }
                let word = chars_upto(&rest, i + 1);
                let next = chars_from(&rest, i + 1);
                let chunk = ChatChunk { delta: string_from_chars(&word), tool_calls: Vec::new(), finished: false };
                out.push(chunk);
                assert(out@.map_values(|c: ChatChunk| c.delta@) =~= before.map_values(
                    |c: ChatChunk| c.delta@,
                ).push(word@));
                assert(words_inclusive(rest@) == seq![word@] + words_inclusive(next@));
                rest = next;
            },
            None => {
                let chunk = ChatChunk { delta: string_from_chars(&rest), tool_calls: Vec::new(), finished: false };
                out.push(chunk);
                assert(out@.map_values(|c: ChatChunk| c.delta@) =~= before.map_values(
                    |c: ChatChunk| c.delta@,
                ).push(rest@));
                assert(words_inclusive(rest@) == seq![rest@]);
                rest = Vec::new();
            },
        }
        assert(all =~= out@.map_values(|c: ChatChunk| c.delta@) + words_inclusive(rest@));
    }
    assert(words_inclusive(rest@) =~= Seq::<Seq<char>>::empty());
    assert(all =~= out@.map_values(|c: ChatChunk| c.delta@));
    let ghost n = out@.len();
    assert forall|k: int| 0 <= k < n implies (#[trigger] out@[k]).delta@ == all[k] by {
        assert(out@.map_values(|c: ChatChunk| c.delta@)[k] == out@[k].delta@);
    }
    out.push(ChatChunk { delta: String::new(), tool_calls: calls, finished: true });
    out
}

/// The word chunks of a text put back together give the text.
pub proof fn lemma_words_concat(s: Seq<char>)
    ensures
        concat_all(words_inclusive(s)) == s,
    decreases s.len(),
{
    if s.len() > 0 {
        match index_of(s, ' ') {
            Some(i) => {
                lemma_index_of_bounds(s, ' ');
                let rest = s.skip(i + 1);
                lemma_words_concat(rest);
                lemma_concat_all_prepend(s.take(i + 1), words_inclusive(rest));
                assert(s.take(i + 1) + rest =~= s);
            },
            None => {
                assert(concat_all(seq![s]) == concat_all(seq![s].drop_last()) + s);
                assert(seq![s].drop_last() =~= Seq::<Seq<char>>::empty());
                assert(Seq::<char>::empty() + s =~= s);
            },
        }
    }
}

/// Concatenating a first text before a list.
proof fn lemma_concat_all_prepend(first: Seq<char>, parts: Seq<Seq<char>>)
    ensures
        concat_all(seq![first] + parts) == first + concat_all(parts),
    decreases parts.len(),
{
    if parts.len() == 0 {
        let e = Seq::<Seq<char>>::empty();
        assert(seq![first] + parts =~= seq![first]);
        assert(seq![first].drop_last() =~= e);
        assert(concat_all(e) == Seq::<char>::empty());
        assert(concat_all(seq![first]) == concat_all(seq![first].drop_last()) + seq![first].last());
        assert(Seq::<char>::empty() + first =~= first);
        assert(first + Seq::<char>::empty() =~= first);
    } else {
        lemma_concat_all_prepend(first, parts.drop_last());
        assert((seq![first] + parts).drop_last() =~= seq![first] + parts.drop_last());
        assert((seq![first] + parts).last() == parts.last());
        assert(first + concat_all(parts.drop_last()) + parts.last() =~= first + (concat_all(
            parts.drop_last(),
        ) + parts.last()));
    }
}

/// The text of word chunks is the text they were cut from.
pub proof fn lemma_word_chunks_text(content: Seq<char>, chunks: Seq<ChatChunk>)
    requires
        chunks.len() == words_inclusive(content).len() + 1,
        forall|k: int|
            0 <= k < words_inclusive(content).len() ==> (#[trigger] chunks[k]).delta@ == words_inclusive(
                content,
            )[k],
        chunks.last().delta@.len() == 0,
    ensures
        concat_all(chunks.map_values(|c: ChatChunk| c.delta@)) == content,
{
    let ws = words_inclusive(content);
    let ds = chunks.map_values(|c: ChatChunk| c.delta@);
    assert(ds.drop_last() =~= ws);
    assert(ds.last() =~= Seq::<char>::empty());
    lemma_words_concat(content);
    assert(concat_all(ws) + Seq::<char>::empty() =~= concat_all(ws));
}

} // verus!
