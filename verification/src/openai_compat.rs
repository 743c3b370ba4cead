//! Generic OpenAI-compatible `/chat/completions` backend: configuration,
//! request bodies, response parsing and error mapping.
//!
//! Used by OpenRouter, Mistral and local servers (Ollama, llama.cpp,
//! vLLM, ...). The HTTP exchange itself is done by the caller; this module
//! decides what is sent and what a reply means.
use vstd::prelude::*;

use crate::json::{
    array_items, array_of, compact_text, json_array, json_array_items, json_as_str, json_as_u64,
    json_bool, json_clone, json_get, json_object, json_parse, json_string, json_to_string,
    json_u64, member, member_str, object_of, parsed_document, str_or_empty, string_value,
    u64_value, unsigned_value,
};
use crate::message::{ChatMessage, MessageRole, ToolCall};
use crate::provider::{ChatRequest, ChatResponse, ProviderError, ProviderStatus, ToolSchema, Usage};
use crate::text::{
    chars_le, concat, concat3, is_blank, prefix_chars, sort_strings, take_chars, trim_end_char,
    trim_end_matches_char, trim_seq,
};

verus! {

/// Configuration for one OpenAI-compatible backend.
#[derive(Debug, Clone)]
pub struct OpenAiCompatConfig {
    pub provider_name: String,
    pub base_url: String,
    pub api_key: String,
    pub default_model: String,
    pub extra_headers: Vec<(String, String)>,
    pub timeout_secs: u64,
}

/// Text of the error for a missing key.
pub open spec fn missing_key_message(provider: Seq<char>) -> Seq<char> {
    "no API key configured for "@ + provider
}

/// The base URL without its trailing slashes, followed by `path`.
pub open spec fn endpoint_view(base: Seq<char>, path: Seq<char>) -> Seq<char> {
    trim_end_char(base, '/') + path
}

impl OpenAiCompatConfig {
    /// A key is configured when it is not blank.
    pub open spec fn has_key(&self) -> bool {
        trim_seq(self.api_key@).len() > 0
    }

    /// `Ok` when an API key is configured, else `NotConfigured`.
    pub fn api_key_or_not_configured(&self) -> (r: Result<(), ProviderError>)
        ensures
            r is Ok <==> self.has_key(),
            r matches Err(e) ==> e matches ProviderError::NotConfigured(m) && m@
                == missing_key_message(self.provider_name@),
    {
        if is_blank(self.api_key.as_str()) {
            Err(
                ProviderError::NotConfigured(
                    concat("no API key configured for ", self.provider_name.as_str()),
                ),
            )
        } else {
            Ok(())
        }
    }

    /// `Ready` with a key, `NotConfigured` without.
    pub fn status(&self) -> (r: ProviderStatus)
        ensures
            r == (if self.has_key() {
                ProviderStatus::Ready
            } else {
                ProviderStatus::NotConfigured
            }),
    {
        if is_blank(self.api_key.as_str()) {
            ProviderStatus::NotConfigured
        } else {
            ProviderStatus::Ready
        }
    }

    /// The static model list: the default model, if any.
    pub fn models(&self) -> (r: Vec<String>)
        ensures
            self.default_model@.len() == 0 ==> r@.len() == 0,
            self.default_model@.len() > 0 ==> r@.len() == 1 && r@[0]@ == self.default_model@,
    {
        let mut v: Vec<String> = Vec::new();
        if !self.default_model.as_str().is_empty() {
            v.push(self.default_model.clone());
        }
        v
    }

    /// `{base_url}/chat/completions`.
    pub fn url(&self) -> (r: String)
        ensures
            r@ == endpoint_view(self.base_url@, "/chat/completions"@),
    {
        let base = trim_end_matches_char(self.base_url.as_str(), '/');
        concat(base.as_str(), "/chat/completions")
    }

    /// `{base_url}/models`.
    pub fn models_url(&self) -> (r: String)
        ensures
            r@ == endpoint_view(self.base_url@, "/models"@),
    {
        let base = trim_end_matches_char(self.base_url.as_str(), '/');
        concat(base.as_str(), "/models")
    }

    /// Request timeout: the configured one, at least ten seconds.
    pub fn effective_timeout_secs(&self) -> (r: u64)
        ensures
            r == (if self.timeout_secs < 10 {
                10
            } else {
                self.timeout_secs
            }),
    {
        if self.timeout_secs < 10 {
            10
        } else {
            self.timeout_secs
        }
    }
}

/// The wire name of a role.
pub open spec fn role_wire(role: MessageRole) -> Seq<char> {
    match role {
        MessageRole::System => "system"@,
        MessageRole::User => "user"@,
        MessageRole::Assistant => "assistant"@,
        MessageRole::Tool => "tool"@,
    }
}

fn role_wire_name(role: MessageRole) -> (r: &'static str)
    ensures
        r@ == role_wire(role),
{
    match role {
        MessageRole::System => "system",
        MessageRole::User => "user",
        MessageRole::Assistant => "assistant",
        MessageRole::Tool => "tool",
    }
}

/// `{"id", "type": "function", "function": {"name", "arguments"}}`, the
/// arguments as compact JSON text.
pub open spec fn call_json(c: ToolCall) -> serde_json::Value {
    object_of(
        seq![
            ("id"@, string_value(c.id@)),
            ("type"@, string_value("function"@)),
            (
                "function"@,
                object_of(
                    seq![
                        ("name"@, string_value(c.name@)),
                        ("arguments"@, string_value(compact_text(c.arguments))),
                    ],
                ),
            ),
        ],
    )
}

/// A message on the wire: role and content, then the tool calls when there
/// are any, then the id of the call a tool message answers.
pub open spec fn message_json(m: ChatMessage) -> serde_json::Value {
    object_of(
        seq![("role"@, string_value(role_wire(m.role))), ("content"@, string_value(m.content@))]
            + (if m.tool_calls@.len() > 0 {
            seq![("tool_calls"@, array_of(m.tool_calls@.map_values(|c: ToolCall| call_json(c))))]
        } else {
            seq![]
        }) + (match m.tool_call_id {
            Some(id) => seq![("tool_call_id"@, string_value(id@))],
            None => seq![],
        }),
    )
}

/// A tool offered to the model.
pub open spec fn tool_json(t: ToolSchema) -> serde_json::Value {
    object_of(
        seq![
            ("type"@, string_value("function"@)),
            (
                "function"@,
                object_of(
                    seq![
                        ("name"@, string_value(t.name@)),
                        ("description"@, string_value(t.description@)),
                        ("parameters"@, t.parameters),
                    ],
                ),
            ),
        ],
    )
}

/// The `/chat/completions` body.
pub open spec fn body_json(
    model: Seq<char>,
    messages: Seq<ChatMessage>,
    temperature: serde_json::Value,
    max_tokens: u32,
    stream: bool,
    tools: Seq<ToolSchema>,
) -> serde_json::Value {
    object_of(
        seq![
            ("model"@, string_value(model)),
            ("messages"@, array_of(messages.map_values(|m: ChatMessage| message_json(m)))),
            ("temperature"@, temperature),
            ("max_tokens"@, u64_value(max_tokens as u64)),
            ("stream"@, crate::json::bool_value(stream)),
        ] + (if tools.len() > 0 {
            seq![("tools"@, array_of(tools.map_values(|t: ToolSchema| tool_json(t))))]
        } else {
            seq![]
        }),
    )
}

/// The model a request goes to: its own, or the configured default.
pub open spec fn model_for(requested: Seq<char>, default_model: Seq<char>) -> Seq<char> {
    if requested.len() == 0 {
        default_model
    } else {
        requested
    }
}

pub(crate) fn text_member(key: &str, text: String) -> (r: (String, serde_json::Value))
    ensures
        r.0@ == key@,
        r.1 == string_value(text@),
{
    (key.to_string(), json_string(text))
}

fn call_to_json(c: &ToolCall) -> (r: serde_json::Value)
    ensures
        r == call_json(*c),
{
    let mut function: Vec<(String, serde_json::Value)> = Vec::new();
    function.push(text_member("name", c.name.clone()));
    function.push(text_member("arguments", json_to_string(&c.arguments)));
    let f = json_object(function);
    let mut members: Vec<(String, serde_json::Value)> = Vec::new();
    members.push(text_member("id", c.id.clone()));
    members.push(text_member("type", "function".to_string()));
    members.push(("function".to_string(), f));
    let r = json_object(members);
    proof {
        assert(function@.map_values(|m: (String, serde_json::Value)| (m.0@, m.1)) =~= seq![
            ("name"@, string_value(c.name@)),
            ("arguments"@, string_value(compact_text(c.arguments))),
        ]);
        assert(members@.map_values(|m: (String, serde_json::Value)| (m.0@, m.1)) =~= seq![
            ("id"@, string_value(c.id@)),
            ("type"@, string_value("function"@)),
            ("function"@, f),
        ]);
    }
    r
}

/// The wire form of one message.
pub fn message_to_json(m: &ChatMessage) -> (r: serde_json::Value)
    ensures
        r == message_json(*m),
{
    let mut members: Vec<(String, serde_json::Value)> = Vec::new();
    members.push(text_member("role", role_wire_name(m.role).to_string()));
    members.push(text_member("content", m.content.clone()));
    let ghost base = members@.map_values(|p: (String, serde_json::Value)| (p.0@, p.1));
    assert(base =~= seq![("role"@, string_value(role_wire(m.role))), ("content"@, string_value(m.content@))]);
    if m.tool_calls.len() > 0 {
        let mut calls: Vec<serde_json::Value> = Vec::new();
        let mut i: usize = 0;
        while i < m.tool_calls.len()
            invariant
                i <= m.tool_calls@.len(),
                calls@ == m.tool_calls@.take(i as int).map_values(|c: ToolCall| call_json(c)),
            decreases m.tool_calls.len() - i,
        {
            calls.push(call_to_json(&m.tool_calls[i]));
            i = i + 1;
            assert(m.tool_calls@.take(i as int).map_values(|c: ToolCall| call_json(c))
                =~= m.tool_calls@.take(i - 1).map_values(|c: ToolCall| call_json(c)).push(
                call_json(m.tool_calls@[i - 1]),
            ));
        }
        assert(m.tool_calls@.take(m.tool_calls@.len() as int) =~= m.tool_calls@);
        members.push(("tool_calls".to_string(), json_array(calls)));
    }
    let ghost with_calls = members@.map_values(|p: (String, serde_json::Value)| (p.0@, p.1));
    assert(with_calls =~= base + (if m.tool_calls@.len() > 0 {
        seq![("tool_calls"@, array_of(m.tool_calls@.map_values(|c: ToolCall| call_json(c))))]
    } else {
        seq![]
    }));
    match &m.tool_call_id {
        Some(id) => {
            members.push(text_member("tool_call_id", id.clone()));
        },
        None => {},
    }
    assert(members@.map_values(|p: (String, serde_json::Value)| (p.0@, p.1)) =~= with_calls + (
    match m.tool_call_id {
        Some(id) => seq![("tool_call_id"@, string_value(id@))],
        None => seq![],
    }));
    json_object(members)
}

/// The wire form of every message, in order.
pub fn to_openai_messages(messages: &Vec<ChatMessage>) -> (r: Vec<serde_json::Value>)
    ensures
        r@ == messages@.map_values(|m: ChatMessage| message_json(m)),
{
    let mut out: Vec<serde_json::Value> = Vec::new();
    let mut i: usize = 0;
    while i < messages.len()
        invariant
            i <= messages@.len(),
            out@ == messages@.take(i as int).map_values(|m: ChatMessage| message_json(m)),
        decreases messages.len() - i,
    {
        out.push(message_to_json(&messages[i]));
        i = i + 1;
        assert(messages@.take(i as int).map_values(|m: ChatMessage| message_json(m))
            =~= messages@.take(i - 1).map_values(|m: ChatMessage| message_json(m)).push(
            message_json(messages@[i - 1]),
        ));
    }
    assert(messages@.take(messages@.len() as int) =~= messages@);
    out
}

fn tool_to_json(t: &ToolSchema) -> (r: serde_json::Value)
    ensures
        r == tool_json(*t),
{
    let mut function: Vec<(String, serde_json::Value)> = Vec::new();
    function.push(text_member("name", t.name.clone()));
    function.push(text_member("description", t.description.clone()));
    function.push(("parameters".to_string(), json_clone(&t.parameters)));
    let f = json_object(function);
    let mut members: Vec<(String, serde_json::Value)> = Vec::new();
    members.push(text_member("type", "function".to_string()));
    members.push(("function".to_string(), f));
    let r = json_object(members);
    proof {
        assert(function@.map_values(|m: (String, serde_json::Value)| (m.0@, m.1)) =~= seq![
            ("name"@, string_value(t.name@)),
            ("description"@, string_value(t.description@)),
            ("parameters"@, t.parameters),
        ]);
        assert(members@.map_values(|m: (String, serde_json::Value)| (m.0@, m.1)) =~= seq![
            ("type"@, string_value("function"@)),
            ("function"@, f),
        ]);
    }
    r
}

/// The `/chat/completions` body for a request. The temperature is passed
/// in already as a JSON number.
pub fn request_body(
    config: &OpenAiCompatConfig,
    request: &ChatRequest,
    stream: bool,
    temperature: serde_json::Value,
) -> (r: serde_json::Value)
    ensures
        r == body_json(
            model_for(request.params.model@, config.default_model@),
            request.messages@,
            temperature,
            request.params.max_tokens,
            stream,
            request.tools@,
        ),
{
    let model = if request.params.model.as_str().is_empty() {
        config.default_model.clone()
    } else {
        request.params.model.clone()
    };
    let ghost temp = temperature;
    let mut members: Vec<(String, serde_json::Value)> = Vec::new();
    members.push(text_member("model", model));
    members.push(("messages".to_string(), json_array(to_openai_messages(&request.messages))));
    members.push(("temperature".to_string(), temperature));
    members.push(("max_tokens".to_string(), json_u64(request.params.max_tokens as u64)));
    members.push(("stream".to_string(), json_bool(stream)));
    let ghost base = members@.map_values(|p: (String, serde_json::Value)| (p.0@, p.1));
    if request.tools.len() > 0 {
        let mut tools: Vec<serde_json::Value> = Vec::new();
        let mut i: usize = 0;
        while i < request.tools.len()
            invariant
                i <= request.tools@.len(),
                tools@ == request.tools@.take(i as int).map_values(|t: ToolSchema| tool_json(t)),
            decreases request.tools.len() - i,
        {
            tools.push(tool_to_json(&request.tools[i]));
            i = i + 1;
            assert(request.tools@.take(i as int).map_values(|t: ToolSchema| tool_json(t))
                =~= request.tools@.take(i - 1).map_values(|t: ToolSchema| tool_json(t)).push(
                tool_json(request.tools@[i - 1]),
            ));
        }
        assert(request.tools@.take(request.tools@.len() as int) =~= request.tools@);
        members.push(("tools".to_string(), json_array(tools)));
    }
    assert(members@.map_values(|p: (String, serde_json::Value)| (p.0@, p.1)) =~= seq![
        ("model"@, string_value(model_for(request.params.model@, config.default_model@))),
        (
            "messages"@,
            array_of(request.messages@.map_values(|m: ChatMessage| message_json(m))),
        ),
        ("temperature"@, temp),
        ("max_tokens"@, u64_value(request.params.max_tokens as u64)),
        ("stream"@, crate::json::bool_value(stream)),
    ] + (if request.tools@.len() > 0 {
        seq![("tools"@, array_of(request.tools@.map_values(|t: ToolSchema| tool_json(t))))]
    } else {
        seq![]
    }));
    json_object(members)
}

/// The first element of the `choices` array, if any.
pub open spec fn first_choice(data: serde_json::Value) -> Option<serde_json::Value> {
    match member(data, "choices"@) {
        Some(c) => match array_items(c) {
            Some(items) => if items.len() > 0 {
                Some(items[0])
            } else {
                None
            },
            None => None,
        },
        None => None,
    }
}

/// A tool call of a finished reply, as (id, name, arguments): calls
/// without a name are dropped, a missing id reads `call-0`, and arguments
/// that are not JSON text read as an empty object.
pub open spec fn reply_call(c: serde_json::Value) -> Option<(Seq<char>, Seq<char>, serde_json::Value)> {
    let func = member(c, "function"@);
    let name = match func {
        Some(f) => match member_str(f, "name"@) {
            Some(n) => n,
            None => seq![],
        },
        None => seq![],
    };
    let args_text = match func {
        Some(f) => match member_str(f, "arguments"@) {
            Some(a) => a,
            None => "{}"@,
        },
        None => "{}"@,
    };
    if name.len() == 0 {
        None
    } else {
        Some(
            (
                match member_str(c, "id"@) {
                    Some(id) => id,
                    None => "call-0"@,
                },
                name,
                match parsed_document(args_text) {
                    Some(v) => v,
                    None => object_of(seq![]),
                },
            ),
        )
    }
}

/// The tool calls of a reply message, in order.
pub open spec fn reply_calls(message: serde_json::Value) -> Seq<(Seq<char>, Seq<char>, serde_json::Value)> {
    match member(message, "tool_calls"@) {
        Some(t) => match array_items(t) {
            Some(items) => items.filter_map(|c: serde_json::Value| reply_call(c)),
            None => seq![],
        },
        None => seq![],
    }
}

/// A token count under `usage`, zero when absent, cut to 32 bits.
pub open spec fn usage_count(data: serde_json::Value, key: Seq<char>) -> u32 {
    let n: u64 = match member(data, "usage"@) {
        Some(u) => match member(u, key) {
            Some(v) => match unsigned_value(v) {
                Some(n) => n,
                None => 0,
            },
            None => 0,
        },
        None => 0,
    };
    n as u32
}

/// A call as (id, name, arguments).
pub open spec fn call_view(c: ToolCall) -> (Seq<char>, Seq<char>, serde_json::Value) {
    (c.id@, c.name@, c.arguments)
}

pub(crate) fn string_or(value: Option<&serde_json::Value>, default: &str) -> (r: String)
    ensures
        r@ == match value {
            Some(v) => match crate::json::string_content(*v) {
                Some(s) => s,
                None => default@,
            },
            None => default@,
        },
{
    match value {
        Some(v) => match json_as_str(v) {
            Some(s) => s,
            None => default.to_string(),
        },
        None => default.to_string(),
    }
}

fn reply_call_of(c: &serde_json::Value) -> (r: Option<ToolCall>)
    ensures
        match r {
            Some(call) => reply_call(*c) == Some(call_view(call)),
            None => reply_call(*c) is None,
        },
{
    proof {
        reveal_strlit("");
    }
    let func = json_get(c, "function");
    let name = match func {
        Some(f) => string_or(json_get(f, "name"), ""),
        None => String::new(),
    };
    if name.as_str().is_empty() {
        return None;
    }
    let args_text = match func {
        Some(f) => string_or(json_get(f, "arguments"), "{}"),
        None => "{}".to_string(),
    };
    let id = string_or(json_get(c, "id"), "call-0");
    let arguments = match json_parse(args_text.as_str()) {
        Some(v) => v,
        None => crate::json::json_empty_object(),
    };
    Some(ToolCall::new(id, name, arguments))
}

/// `r` is what a finished chat-completions payload means: a protocol
/// error without `choices[0]` or without its `message`, otherwise the
/// reply's text, tool calls, model and token usage.
pub open spec fn reply_of(data: serde_json::Value, r: Result<ChatResponse, ProviderError>) -> bool {
    match first_choice(data) {
        None => r matches Err(ProviderError::Protocol(m)) && m@ == "missing choices[0]"@,
        Some(choice) => match member(choice, "message"@) {
            None => r matches Err(ProviderError::Protocol(m)) && m@ == "missing choices[0].message"@,
            Some(message) => r matches Ok(resp) && resp.content@ == str_or_empty(message, "content"@)
                && resp.tool_calls@.map_values(|c: ToolCall| call_view(c)) == reply_calls(message)
                && resp.model@ == str_or_empty(data, "model"@) && resp.usage == (Usage {
                prompt_tokens: usage_count(data, "prompt_tokens"@),
                completion_tokens: usage_count(data, "completion_tokens"@),
            }),
        },
    }
}

/// Parse a finished (non-streaming) chat-completions payload.
pub fn parse_response(data: &serde_json::Value) -> (r: Result<ChatResponse, ProviderError>)
    ensures
        reply_of(*data, r),
{
    proof {
        reveal_strlit("");
    }
    let choices = match json_get(data, "choices") {
        Some(c) => json_array_items(c),
        None => None,
    };
    let items = match choices {
        Some(items) => items,
        None => return Err(ProviderError::Protocol("missing choices[0]".to_string())),
    };
    if items.len() == 0 {
        return Err(ProviderError::Protocol("missing choices[0]".to_string()));
    }
    let message = match json_get(&items[0], "message") {
        Some(m) => m,
        None => return Err(ProviderError::Protocol("missing choices[0].message".to_string())),
    };
    let content = string_or(json_get(message, "content"), "");
    let mut tool_calls: Vec<ToolCall> = Vec::new();
    let calls = match json_get(message, "tool_calls") {
        Some(t) => json_array_items(t),
        None => None,
    };
    match calls {
        Some(calls) => {
            let mut i: usize = 0;
            assert(tool_calls@.map_values(|c: ToolCall| call_view(c)) =~= calls@.take(0).filter_map(
                |c: serde_json::Value| reply_call(c),
            ));
            while i < calls.len()
                invariant
                    i <= calls@.len(),
                    tool_calls@.map_values(|c: ToolCall| call_view(c)) == calls@.take(
                        i as int,
                    ).filter_map(|c: serde_json::Value| reply_call(c)),
                decreases calls.len() - i,
            {
                proof {
                    assert(calls@.take(i + 1).drop_last() =~= calls@.take(i as int));
                    assert(calls@.take(i + 1).last() == calls@[i as int]);
                }
                let ghost before = tool_calls@;
                match reply_call_of(&calls[i]) {
                    Some(call) => {
                        tool_calls.push(call);
                        assert(tool_calls@.map_values(|c: ToolCall| call_view(c)) =~= before.map_values(
                            |c: ToolCall| call_view(c),
                        ).push(call_view(call)));
                    },
                    None => {},
                }
                i = i + 1;
            }
            assert(calls@.take(calls@.len() as int) =~= calls@);
        },
        None => {
            assert(tool_calls@.map_values(|c: ToolCall| call_view(c)) =~= seq![]);
        },
    }
    let model = string_or(json_get(data, "model"), "");
    let usage = Usage {
        prompt_tokens: usage_u32(data, "prompt_tokens"),
        completion_tokens: usage_u32(data, "completion_tokens"),
    };
    assert(first_choice(*data) == Some(items@[0]));
    assert(member(items@[0], "message"@) == Some(*message));
    assert(content@ == str_or_empty(*message, "content"@));
    assert(tool_calls@.map_values(|c: ToolCall| call_view(c)) == reply_calls(*message));
    assert(model@ == str_or_empty(*data, "model"@));
    Ok(ChatResponse { content, tool_calls, model, usage })
}

fn usage_u32(data: &serde_json::Value, key: &str) -> (r: u32)
    ensures
        r == usage_count(*data, key@),
{
    let n: u64 = match json_get(data, "usage") {
        Some(u) => match json_get(u, key) {
            Some(v) => match json_as_u64(v) {
                Some(n) => n,
                None => 0,
            },
            None => 0,
        },
        None => 0,
    };
    n as u32
}

/// A completion payload: an `error` member is reported as an API error
/// (its compact JSON text), anything else is parsed as a reply.
pub fn read_completion(data: &serde_json::Value) -> (r: Result<ChatResponse, ProviderError>)
    ensures
        member(*data, "error"@) matches Some(e) ==> (r matches Err(ProviderError::Api(m)) && m@
            == compact_text(e)),
        member(*data, "error"@) is None ==> reply_of(*data, r),
{
    match json_get(data, "error") {
        Some(e) => Err(ProviderError::Api(json_to_string(e))),
        None => parse_response(data),
    }
}

/// The text of an HTTP status line (`http::StatusCode`'s `Display`).
pub uninterp spec fn status_display(code: u16) -> Seq<char>;

/// `reqwest::StatusCode::from_u16` and its `Display`: the code and its
/// canonical reason. Claimed: the text is `status_display` of the code.
#[verifier::external_body]
pub(crate) fn status_text(code: u16) -> (r: String)
    requires
        100 <= code <= 999,
    ensures
        r@ == status_display(code),
{
    match reqwest::StatusCode::from_u16(code) {
        Ok(s) => s.to_string(),
        Err(_) => String::new(),
    }
}

/// The error for a non-success HTTP reply: 401 and 403 are
/// authentication failures, 429 a quota error, anything else an API error;
/// each carries the status line and the first 300 characters of the body.
pub fn map_http_error(status: u16, body: &str) -> (r: ProviderError)
    requires
        100 <= status <= 999,
    ensures
        status == 401 || status == 403 ==> r is Auth && r->Auth_0@ == "HTTP "@ + status_display(status)
            + ": clé API invalide ou refusée — vérifiez la clé. "@ + take_chars(body@, 300),
        status == 429 ==> r is Api && r->Api_0@ == "HTTP "@ + status_display(status)
            + ": quota dépassé / rate limit — réessayez plus tard ou vérifiez votre abonnement. "@
            + take_chars(body@, 300),
        status != 401 && status != 403 && status != 429 ==> r is Api && r->Api_0@ == "HTTP "@
            + status_display(status) + ": "@ + take_chars(body@, 300),
{
    let line = status_text(status);
    let short = prefix_chars(body, 300);
    let head = concat("HTTP ", line.as_str());
    if status == 401 || status == 403 {
        ProviderError::Auth(
            concat3(
                head.as_str(),
                ": clé API invalide ou refusée — vérifiez la clé. ",
                short.as_str(),
            ),
        )
    } else if status == 429 {
        ProviderError::Api(
            concat3(
                head.as_str(),
                ": quota dépassé / rate limit — réessayez plus tard ou vérifiez votre abonnement. ",
                short.as_str(),
            ),
        )
    } else {
        ProviderError::Api(concat3(head.as_str(), ": ", short.as_str()))
    }
}

/// A transport failure: a timeout, an unreachable backend, or another
/// failure described by `text`.
pub fn transport_error(is_timeout: bool, is_connect: bool, text: String) -> (r: ProviderError)
    ensures
        is_timeout ==> r == ProviderError::Timeout,
        !is_timeout && is_connect ==> r is Transport && r->Transport_0@ == "cannot reach backend: "@
            + text@,
        !is_timeout && !is_connect ==> r is Transport && r->Transport_0@ == text@,
{
    if is_timeout {
        ProviderError::Timeout
    } else if is_connect {
        ProviderError::Transport(concat("cannot reach backend: ", text.as_str()))
    } else {
        ProviderError::Transport(text)
    }
}

/// `reqwest::Error`, declared for signatures; opaque.
#[verifier::external_type_specification]
#[verifier::external_body]
pub struct ExReqwestError(reqwest::Error);

/// `reqwest::Error::is_timeout`. Nothing is claimed about the answer.
#[verifier::external_body]
fn error_is_timeout(e: &reqwest::Error) -> bool {
    e.is_timeout()
}

/// `reqwest::Error::is_connect`. Nothing is claimed about the answer.
#[verifier::external_body]
fn error_is_connect(e: &reqwest::Error) -> bool {
    e.is_connect()
}

/// `reqwest::Error`'s `Display`. Nothing is claimed about the text.
#[verifier::external_body]
fn error_text(e: &reqwest::Error) -> String {
    e.to_string()
}

/// The provider error for a failed HTTP exchange: a timeout, or a
/// transport error naming the failure.
pub fn map_transport(e: &reqwest::Error) -> (r: ProviderError)
    ensures
        r is Timeout || r is Transport,
{
    let timeout = error_is_timeout(e);
    let connect = error_is_connect(e);
    transport_error(timeout, connect, error_text(e))
}

/// The ids listed by a `GET /models` payload, in payload order.
pub open spec fn listed_ids(data: serde_json::Value) -> Seq<Seq<char>> {
    match member(data, "data"@) {
        Some(d) => match array_items(d) {
            Some(items) => items.filter_map(|m: serde_json::Value| member_str(m, "id"@)),
            None => seq![],
        },
        None => seq![],
    }
}

/// The ids of a `GET /models` payload, sorted; when there are none, the
/// static list.
pub fn model_ids(config: &OpenAiCompatConfig, data: &serde_json::Value) -> (r: Vec<String>)
    ensures
        listed_ids(*data).len() > 0 ==> r@.map_values(|s: String| s@).to_multiset() == listed_ids(
            *data,
        ).to_multiset() && forall|i: int, j: int|
            0 <= i < j < r@.len() ==> chars_le(#[trigger] r@[i]@, #[trigger] r@[j]@),
        listed_ids(*data).len() == 0 && config.default_model@.len() == 0 ==> r@.len() == 0,
        listed_ids(*data).len() == 0 && config.default_model@.len() > 0 ==> r@.len() == 1
            && r@[0]@ == config.default_model@,
{
    let mut ids: Vec<String> = Vec::new();
    let items = match json_get(data, "data") {
        Some(d) => json_array_items(d),
        None => None,
    };
    match items {
        Some(items) => {
            let mut i: usize = 0;
            assert(ids@.map_values(|s: String| s@) =~= items@.take(0).filter_map(
                |m: serde_json::Value| member_str(m, "id"@),
            ));
            while i < items.len()
                invariant
                    i <= items@.len(),
                    ids@.map_values(|s: String| s@) == items@.take(i as int).filter_map(
                        |m: serde_json::Value| member_str(m, "id"@),
                    ),
                decreases items.len() - i,
            {
                proof {
                    assert(items@.take(i + 1).drop_last() =~= items@.take(i as int));
                    assert(items@.take(i + 1).last() == items@[i as int]);
                }
                let ghost before = ids@;
                match crate::json::json_str_field(&items[i], "id") {
                    Some(id) => {
                        ids.push(id);
                        assert(ids@.map_values(|s: String| s@) =~= before.map_values(|s: String| s@).push(
                            id@,
                        ));
                    },
                    None => {},
                }
                i = i + 1;
            }
            assert(items@.take(items@.len() as int) =~= items@);
        },
        None => {
            assert(ids@.map_values(|s: String| s@) =~= listed_ids(*data));
        },
    }
    if ids.len() == 0 {
        return config.models();
    }
    sort_strings(ids)
}

/// A reply's tool call keeps what the model sent: a call whose function
/// has a non-empty name and JSON argument text becomes a call with that
/// name and, as arguments, the document that text parses to; its id is
/// the call's `id` when it has one.
pub proof fn law_reply_call_keeps_arguments(
    c: serde_json::Value,
    f: serde_json::Value,
    name: Seq<char>,
    text: Seq<char>,
    v: serde_json::Value,
)
    requires
        member(c, "function"@) == Some(f),
        member_str(f, "name"@) == Some(name),
        name.len() > 0,
        member_str(f, "arguments"@) == Some(text),
        parsed_document(text) == Some(v),
    ensures
        reply_call(c) matches Some(call) && call.1 == name && call.2 == v,
        member_str(c, "id"@) matches Some(id) ==> (reply_call(c) matches Some(call) && call.0
            == id),
{
}

/// Every named tool call of a reply is kept, in order: when each element
/// of `tool_calls` names a function, the reply has one call per element,
/// the `k`-th being what element `k` reads as.
pub proof fn law_reply_keeps_every_named_call(message: serde_json::Value, t: serde_json::Value, items: Seq<serde_json::Value>)
    requires
        member(message, "tool_calls"@) == Some(t),
        array_items(t) == Some(items),
        forall|k: int| 0 <= k < items.len() ==> (#[trigger] reply_call(items[k])) is Some,
    ensures
        reply_calls(message).len() == items.len(),
        forall|k: int| 0 <= k < items.len() ==> reply_calls(message)[k] == (#[trigger] reply_call(items[k]))->0,
{
    lemma_filter_map_keeps_named(items);
}

/// `filter_map` over calls that all read as calls keeps each, in order.
proof fn lemma_filter_map_keeps_named(items: Seq<serde_json::Value>)
    requires
        forall|k: int| 0 <= k < items.len() ==> (#[trigger] reply_call(items[k])) is Some,
    ensures
        items.filter_map(|c: serde_json::Value| reply_call(c)).len() == items.len(),
        forall|k: int|
            0 <= k < items.len() ==> items.filter_map(|c: serde_json::Value| reply_call(c))[k]
                == (#[trigger] reply_call(items[k]))->0,
    decreases items.len(),
{
    if items.len() > 0 {
        let rest = items.drop_last();
        assert forall|k: int| 0 <= k < rest.len() implies (#[trigger] reply_call(rest[k])) is Some by {
            assert(rest[k] == items[k]);
        }
        lemma_filter_map_keeps_named(rest);
        assert(reply_call(items[items.len() - 1]) is Some);
        assert forall|k: int| 0 <= k < items.len() implies items.filter_map(
            |c: serde_json::Value| reply_call(c),
        )[k] == (#[trigger] reply_call(items[k]))->0 by {
            if k < rest.len() {
                assert(rest[k] == items[k]);
            }
        }
    }
}

} // verus!
