//! Google Gemini (Generative Language REST API): configuration, request
//! bodies, reply parsing and error mapping.
//!
//! Tool calling maps to Gemini function calling; a leading system message
//! becomes the `system_instruction`.
use vstd::prelude::*;

use crate::json::{
    array_items, array_of, json_array, json_array_items, json_clone, json_empty_object, json_get,
    json_object, json_str_field, json_to_string, json_u64, member, member_str, object_of,
    str_or_empty, string_content, string_value, u64_value,
};
use crate::message::{ChatMessage, MessageRole, ToolCall};
use crate::openai_compat::{call_view, status_text, string_or, text_member};
use crate::provider::{ChatChunk, ChatRequest, ProviderError, ProviderStatus, ToolSchema};
use crate::providers::{var_or, ProviderEnv};
use crate::text::{
    chars_le, chars_of, concat, concat3, decimal, decimal_text, is_blank, prefix_chars,
    seq_starts_with, sort_strings, starts_with_chars, str_eq, string_from_chars, take_chars,
    trim_seq, chars_from,
};

verus! {

/// Gemini's key and model.
#[derive(Debug, Clone)]
pub struct GeminiConfig {
    pub api_key: String,
    pub model: String,
}

/// Gemini's REST root.
pub open spec fn gemini_root() -> Seq<char> {
    "https://generativelanguage.googleapis.com/v1beta/models"@
}

impl GeminiConfig {
    /// A configuration with this key; an empty model means `GEMINI_MODEL`,
    /// else `gemini-2.0-flash`.
    pub fn new(env: &ProviderEnv, api_key: String, model: String) -> (r: Self)
        ensures
            r.api_key == api_key,
            r.model@ == (if model@.len() == 0 {
                var_or(env.gemini_model, "gemini-2.0-flash"@)
            } else {
                model@
            }),
    {
        let model = if model.as_str().is_empty() {
            match &env.gemini_model {
                Some(m) => m.clone(),
                None => "gemini-2.0-flash".to_string(),
            }
        } else {
            model
        };
        GeminiConfig { api_key, model }
    }

    /// Gemini as configured by the environment.
    pub fn from_env(env: &ProviderEnv) -> (r: Self)
        ensures
            r.api_key@ == var_or(env.gemini_api_key, seq![]),
            r.model@ == var_or(env.gemini_model, "gemini-2.0-flash"@),
    {
        proof {
            reveal_strlit("");
        }
        let key = match &env.gemini_api_key {
            Some(k) => k.clone(),
            None => String::new(),
        };
        let model = match &env.gemini_model {
            Some(m) => m.clone(),
            None => String::new(),
        };
        GeminiConfig::new(env, key, model)
    }

    /// A key is configured when it is not blank.
    pub open spec fn has_key(&self) -> bool {
        trim_seq(self.api_key@).len() > 0
    }

    /// `Ok` with a key, `NotConfigured` without.
    pub fn ensure_configured(&self) -> (r: Result<(), ProviderError>)
        ensures
            r is Ok <==> self.has_key(),
            r matches Err(e) ==> e matches ProviderError::NotConfigured(m) && m@
                == "GEMINI_API_KEY is not set"@,
    {
        if is_blank(self.api_key.as_str()) {
            Err(ProviderError::NotConfigured("GEMINI_API_KEY is not set".to_string()))
        } else {
            Ok(())
        }
    }

    /// `{root}/{model}:{verb}?key={key}`.
    pub fn url(&self, verb: &str) -> (r: String)
        ensures
            r@ == gemini_root() + "/"@ + self.model@ + ":"@ + verb@ + "?key="@ + self.api_key@,
    {
        let a = concat3("https://generativelanguage.googleapis.com/v1beta/models", "/", self.model.as_str());
        let b = concat3(a.as_str(), ":", verb);
        concat3(b.as_str(), "?key=", self.api_key.as_str())
    }

    /// The model list endpoint, `{root}?key={key}`.
    pub fn models_url(&self) -> (r: String)
        ensures
            r@ == gemini_root() + "?key="@ + self.api_key@,
    {
        concat3("https://generativelanguage.googleapis.com/v1beta/models", "?key=", self.api_key.as_str())
    }

    /// `Ready` with a key, `NotConfigured` without.
    pub fn status(&self) -> (r: ProviderStatus)
        ensures
            r == (if self.has_key() {
                ProviderStatus::Ready
            } else {
                ProviderStatus::NotConfigured
            }),
    {
        if is_blank(self.api_key.as_str()) {
            ProviderStatus::NotConfigured
        } else {
            ProviderStatus::Ready
        }
    }

    /// The static model list: the configured model.
    pub fn models(&self) -> (r: Vec<String>)
        ensures
            r@.len() == 1,
            r@[0] == self.model,
    {
        let mut v: Vec<String> = Vec::new();
        v.push(self.model.clone());
        v
    }

    /// The configuration a request uses: its own model when set.
    pub fn for_request(&self, requested_model: &str) -> (r: Self)
        ensures
            r.api_key == self.api_key,
            r.model@ == (if requested_model@.len() == 0 {
                self.model@
            } else {
                requested_model@
            }),
    {
        let model = if requested_model.is_empty() {
            self.model.clone()
        } else {
            requested_model.to_string()
        };
        GeminiConfig { api_key: self.api_key.clone(), model }
    }
}

/// The name of the tool whose call has this id, in the earlier messages;
/// `unknown` when there is no id or no such call.
pub open spec fn tool_name_of(messages: Seq<ChatMessage>, id: Option<Seq<char>>) -> Seq<char>
    decreases messages.len(),
{
    match id {
        None => "unknown"@,
        Some(i) => if messages.len() == 0 {
            "unknown"@
        } else if calls_name(messages[0].tool_calls@, i) is Some {
            calls_name(messages[0].tool_calls@, i).unwrap()
        } else {
            tool_name_of(messages.drop_first(), id)
        },
    }
}

/// The name of the first call with this id.
pub open spec fn calls_name(calls: Seq<ToolCall>, id: Seq<char>) -> Option<Seq<char>>
    decreases calls.len(),
{
    if calls.len() == 0 {
        None
    } else if calls[0].id@ == id {
        Some(calls[0].name@)
    } else {
        calls_name(calls.drop_first(), id)
    }
}

/// Find the tool name matching a `tool_call_id` in earlier messages.
pub fn tool_name_for(messages: &Vec<ChatMessage>, id: Option<&str>) -> (r: String)
    ensures
        r@ == tool_name_of(
            messages@,
            match id {
                Some(i) => Some(i@),
                None => None,
            },
        ),
{
    let ghost given = id;
    let key = match id {
        Some(i) => i,
        None => {
            return "unknown".to_string();
        },
    };
    assert(given == Some(key));
    let mut i: usize = 0;
    assert(messages@.skip(0) =~= messages@);
    while i < messages.len()
        invariant
            id == Some(key),
            i <= messages@.len(),
            tool_name_of(messages@, Some(key@)) == tool_name_of(messages@.skip(i as int), Some(key@)),
        decreases messages.len() - i,
    {
        let calls = &messages[i].tool_calls;
        let mut j: usize = 0;
        assert(calls@.skip(0) =~= calls@);
        while j < calls.len()
            invariant
                id == Some(key),
                i < messages@.len(),
                *calls == messages@[i as int].tool_calls,
                j <= calls@.len(),
                tool_name_of(messages@, Some(key@)) == tool_name_of(messages@.skip(i as int), Some(key@)),
                calls_name(calls@, key@) == calls_name(calls@.skip(j as int), key@),
            decreases calls.len() - j,
        {
            if str_eq(calls[j].id.as_str(), key) {
                assert(calls@.skip(j as int)[0] == calls@[j as int]);
                assert(calls_name(calls@.skip(j as int), key@) == Some(calls@[j as int].name@));
                assert(messages@.skip(i as int)[0] == messages@[i as int]);
                assert(messages@.skip(i as int)[0].tool_calls@ == calls@);
                assert(tool_name_of(messages@.skip(i as int), Some(key@)) == calls@[j as int].name@);
                let found = calls[j].name.clone();
                assert(found@ == calls@[j as int].name@);
                return found;
            }
            assert(calls@.skip(j as int).drop_first() =~= calls@.skip(j + 1));
            j = j + 1;
        }
        assert(calls@.skip(j as int).len() == 0);
        assert(messages@.skip(i as int)[0] == messages@[i as int]);
        assert(messages@.skip(i as int).drop_first() =~= messages@.skip(i + 1));
        i = i + 1;
    }
    "unknown".to_string()
}

/// `{"text": t}`.
pub open spec fn text_part(t: Seq<char>) -> serde_json::Value {
    object_of(seq![("text"@, string_value(t))])
}

/// A call as a `functionCall` part.
pub open spec fn call_part(c: ToolCall) -> serde_json::Value {
    object_of(
        seq![
            (
                "functionCall"@,
                object_of(seq![("name"@, string_value(c.name@)), ("args"@, c.arguments)]),
            ),
        ],
    )
}

/// One message as a Gemini `content`: system text is marked and sent as
/// the user, assistant text and calls as the model, tool results as
/// function responses named after their call.
pub open spec fn content_json(m: ChatMessage, messages: Seq<ChatMessage>) -> serde_json::Value {
    match m.role {
        MessageRole::System => object_of(
            seq![
                ("role"@, string_value("user"@)),
                ("parts"@, array_of(seq![text_part("[System] "@ + m.content@)])),
            ],
        ),
        MessageRole::User => object_of(
            seq![("role"@, string_value("user"@)), ("parts"@, array_of(seq![text_part(m.content@)]))],
        ),
        MessageRole::Assistant => object_of(
            seq![
                ("role"@, string_value("model"@)),
                (
                    "parts"@,
                    array_of(
                        (if m.content@.len() > 0 {
                            seq![text_part(m.content@)]
                        } else {
                            seq![]
                        }) + m.tool_calls@.map_values(|c: ToolCall| call_part(c)),
                    ),
                ),
            ],
        ),
        MessageRole::Tool => object_of(
            seq![
                ("role"@, string_value("user"@)),
                (
                    "parts"@,
                    array_of(
                        seq![
                            object_of(
                                seq![
                                    (
                                        "functionResponse"@,
                                        object_of(
                                            seq![
                                                (
                                                    "name"@,
                                                    string_value(
                                                        tool_name_of(
                                                            messages,
                                                            match m.tool_call_id {
                                                                Some(i) => Some(i@),
                                                                None => None,
                                                            },
                                                        ),
                                                    ),
                                                ),
                                                (
                                                    "response"@,
                                                    object_of(
                                                        seq![("result"@, string_value(m.content@))],
                                                    ),
                                                ),
                                            ],
                                        ),
                                    ),
                                ],
                            ),
                        ],
                    ),
                ),
            ],
        ),
    }
}

/// A tool as a function declaration.
pub open spec fn declaration_json(t: ToolSchema) -> serde_json::Value {
    object_of(
        seq![
            ("name"@, string_value(t.name@)),
            ("description"@, string_value(t.description@)),
            ("parameters"@, t.parameters),
        ],
    )
}

/// The message contents: every message in order, except a leading system
/// message (it becomes the system instruction).
pub open spec fn contents_json(messages: Seq<ChatMessage>) -> Seq<serde_json::Value> {
    let all = messages.map_values(|m: ChatMessage| content_json(m, messages));
    if messages.len() > 0 && messages[0].role == MessageRole::System {
        all.drop_first()
    } else {
        all
    }
}

/// The `generateContent` body.
pub open spec fn gemini_body_json(
    messages: Seq<ChatMessage>,
    temperature: serde_json::Value,
    max_tokens: u32,
    tools: Seq<ToolSchema>,
) -> serde_json::Value {
    object_of(
        seq![
            ("contents"@, array_of(contents_json(messages))),
            (
                "generationConfig"@,
                object_of(
                    seq![
                        ("temperature"@, temperature),
                        ("maxOutputTokens"@, u64_value(max_tokens as u64)),
                    ],
                ),
            ),
        ] + (if tools.len() > 0 {
            seq![
                (
                    "tools"@,
                    array_of(
                        seq![
                            object_of(
                                seq![
                                    (
                                        "functionDeclarations"@,
                                        array_of(
                                            tools.map_values(|t: ToolSchema| declaration_json(t)),
                                        ),
                                    ),
                                ],
                            ),
                        ],
                    ),
                ),
            ]
        } else {
            seq![]
        }) + (if messages.len() > 0 && messages[0].role == MessageRole::System {
            seq![
                (
                    "system_instruction"@,
                    object_of(seq![("parts"@, array_of(seq![text_part(messages[0].content@)]))]),
                ),
            ]
        } else {
            seq![]
        }),
    )
}

fn single_member(key: &str, value: serde_json::Value) -> (r: serde_json::Value)
    ensures
        r == object_of(seq![(key@, value)]),
{
    let mut m: Vec<(String, serde_json::Value)> = Vec::new();
    m.push((key.to_string(), value));
    let ghost v = value;
    assert(m@.map_values(|p: (String, serde_json::Value)| (p.0@, p.1)) =~= seq![(key@, v)]);
    json_object(m)
}

fn text_part_json(t: String) -> (r: serde_json::Value)
    ensures
        r == text_part(t@),
{
    let s = crate::json::json_string(t);
    single_member("text", s)
}

fn singleton(v: serde_json::Value) -> (r: serde_json::Value)
    ensures
        r == array_of(seq![v]),
{
    let mut items: Vec<serde_json::Value> = Vec::new();
    let ghost g = v;
    items.push(v);
    assert(items@ =~= seq![g]);
    json_array(items)
}

fn role_and_parts(role: &str, parts: serde_json::Value) -> (r: serde_json::Value)
    ensures
        r == object_of(seq![("role"@, string_value(role@)), ("parts"@, parts)]),
{
    let mut m: Vec<(String, serde_json::Value)> = Vec::new();
    m.push(text_member("role", role.to_string()));
    let ghost p = parts;
    m.push(("parts".to_string(), parts));
    assert(m@.map_values(|q: (String, serde_json::Value)| (q.0@, q.1)) =~= seq![
        ("role"@, string_value(role@)),
        ("parts"@, p),
    ]);
    json_object(m)
}

fn call_part_json(c: &ToolCall) -> (r: serde_json::Value)
    ensures
        r == call_part(*c),
{
    let mut f: Vec<(String, serde_json::Value)> = Vec::new();
    f.push(text_member("name", c.name.clone()));
    f.push(("args".to_string(), json_clone(&c.arguments)));
    assert(f@.map_values(|q: (String, serde_json::Value)| (q.0@, q.1)) =~= seq![
        ("name"@, string_value(c.name@)),
        ("args"@, c.arguments),
    ]);
    let inner = json_object(f);
    single_member("functionCall", inner)
}

/// The Gemini `content` of one message of `messages`.
pub fn content_to_json(m: &ChatMessage, messages: &Vec<ChatMessage>) -> (r: serde_json::Value)
    ensures
        r == content_json(*m, messages@),
{
    match m.role {
        MessageRole::System => {
            let t = concat("[System] ", m.content.as_str());
            role_and_parts("user", singleton(text_part_json(t)))
        },
        MessageRole::User => role_and_parts("user", singleton(text_part_json(m.content.clone()))),
        MessageRole::Assistant => {
            let mut parts: Vec<serde_json::Value> = Vec::new();
            if !m.content.as_str().is_empty() {
                parts.push(text_part_json(m.content.clone()));
            }
            let ghost head = parts@;
            assert(head =~= (if m.content@.len() > 0 {
                seq![text_part(m.content@)]
            } else {
                seq![]
            }));
            let mut i: usize = 0;
            while i < m.tool_calls.len()
                invariant
                    i <= m.tool_calls@.len(),
                    parts@ == head + m.tool_calls@.take(i as int).map_values(|c: ToolCall| call_part(c)),
                decreases m.tool_calls.len() - i,
            {
                parts.push(call_part_json(&m.tool_calls[i]));
                i = i + 1;
                assert(m.tool_calls@.take(i as int).map_values(|c: ToolCall| call_part(c))
                    =~= m.tool_calls@.take(i - 1).map_values(|c: ToolCall| call_part(c)).push(
                    call_part(m.tool_calls@[i - 1]),
                ));
                assert(parts@ =~= head + m.tool_calls@.take(i as int).map_values(
                    |c: ToolCall| call_part(c),
                ));
            }
            assert(m.tool_calls@.take(m.tool_calls@.len() as int) =~= m.tool_calls@);
            role_and_parts("model", json_array(parts))
        },
        MessageRole::Tool => {
            let id = match &m.tool_call_id {
                Some(i) => Some(i.as_str()),
                None => None,
            };
            let name = tool_name_for(messages, id);
            let mut fr: Vec<(String, serde_json::Value)> = Vec::new();
            fr.push(text_member("name", name));
            fr.push(
                (
                    "response".to_string(),
                    single_member("result", crate::json::json_string(m.content.clone())),
                ),
            );
            let ghost fv = fr@.map_values(|q: (String, serde_json::Value)| (q.0@, q.1));
            assert(fv =~= seq![
                (
                    "name"@,
                    string_value(
                        tool_name_of(
                            messages@,
                            match m.tool_call_id {
                                Some(i) => Some(i@),
                                None => None,
                            },
                        ),
                    ),
                ),
                ("response"@, object_of(seq![("result"@, string_value(m.content@))])),
            ]);
            let response = json_object(fr);
            let part = single_member("functionResponse", response);
            role_and_parts("user", singleton(part))
        },
    }
}

fn declaration_to_json(t: &ToolSchema) -> (r: serde_json::Value)
    ensures
        r == declaration_json(*t),
{
    let mut m: Vec<(String, serde_json::Value)> = Vec::new();
    m.push(text_member("name", t.name.clone()));
    m.push(text_member("description", t.description.clone()));
    m.push(("parameters".to_string(), json_clone(&t.parameters)));
    assert(m@.map_values(|q: (String, serde_json::Value)| (q.0@, q.1)) =~= seq![
        ("name"@, string_value(t.name@)),
        ("description"@, string_value(t.description@)),
        ("parameters"@, t.parameters),
    ]);
    json_object(m)
}

/// The `generateContent` body of a request. The temperature is passed in
/// already as a JSON number.
pub fn gemini_body(request: &ChatRequest, temperature: serde_json::Value) -> (r: serde_json::Value)
    ensures
        r == gemini_body_json(
            request.messages@,
            temperature,
            request.params.max_tokens,
            request.tools@,
        ),
{
    let messages = &request.messages;
    let n = messages.len();
    let leading_system = n > 0 && messages[0].role == MessageRole::System;
    let mut contents: Vec<serde_json::Value> = Vec::new();
    let start: usize = if leading_system {
        1
    } else {
        0
    };
    let ghost all = messages@.map_values(|m: ChatMessage| content_json(m, messages@));
    let mut i: usize = start;
    while i < n
        invariant
            start <= i <= n,
            n == messages@.len(),
            all == messages@.map_values(|m: ChatMessage| content_json(m, messages@)),
            contents@ == all.subrange(start as int, i as int),
        decreases n - i,
    {
        contents.push(content_to_json(&messages[i], messages));
        i = i + 1;
        assert(contents@ =~= all.subrange(start as int, i as int));
    }
    assert(contents@ =~= contents_json(messages@));
    let mut generation: Vec<(String, serde_json::Value)> = Vec::new();
    let ghost temp = temperature;
    generation.push(("temperature".to_string(), temperature));
    generation.push(("maxOutputTokens".to_string(), json_u64(request.params.max_tokens as u64)));
    assert(generation@.map_values(|q: (String, serde_json::Value)| (q.0@, q.1)) =~= seq![
        ("temperature"@, temp),
        ("maxOutputTokens"@, u64_value(request.params.max_tokens as u64)),
    ]);
    let mut body: Vec<(String, serde_json::Value)> = Vec::new();
    body.push(("contents".to_string(), json_array(contents)));
    body.push(("generationConfig".to_string(), json_object(generation)));
    let ghost base = body@.map_values(|q: (String, serde_json::Value)| (q.0@, q.1));
    assert(base =~= seq![
        ("contents"@, array_of(contents_json(messages@))),
        (
            "generationConfig"@,
            object_of(
                seq![
                    ("temperature"@, temp),
                    ("maxOutputTokens"@, u64_value(request.params.max_tokens as u64)),
                ],
            ),
        ),
    ]);
    if request.tools.len() > 0 {
        let mut decls: Vec<serde_json::Value> = Vec::new();
        let mut k: usize = 0;
        while k < request.tools.len()
            invariant
                k <= request.tools@.len(),
                decls@ == request.tools@.take(k as int).map_values(|t: ToolSchema| declaration_json(t)),
            decreases request.tools.len() - k,
        {
            decls.push(declaration_to_json(&request.tools[k]));
            k = k + 1;
            assert(request.tools@.take(k as int).map_values(|t: ToolSchema| declaration_json(t))
                =~= request.tools@.take(k - 1).map_values(|t: ToolSchema| declaration_json(t)).push(
                declaration_json(request.tools@[k - 1]),
            ));
        }
        assert(request.tools@.take(request.tools@.len() as int) =~= request.tools@);
        let group = single_member("functionDeclarations", json_array(decls));
        body.push(("tools".to_string(), singleton(group)));
    }
    let ghost with_tools = body@.map_values(|q: (String, serde_json::Value)| (q.0@, q.1));
    if leading_system {
        let instruction = single_member("parts", singleton(text_part_json(messages[0].content.clone())));
        body.push(("system_instruction".to_string(), instruction));
    }
    assert(body@.map_values(|q: (String, serde_json::Value)| (q.0@, q.1)) =~= base + (
    if request.tools@.len() > 0 {
        seq![
            (
                "tools"@,
                array_of(
                    seq![
                        object_of(
                            seq![
                                (
                                    "functionDeclarations"@,
                                    array_of(
                                        request.tools@.map_values(|t: ToolSchema| declaration_json(t)),
                                    ),
                                ),
                            ],
                        ),
                    ],
                ),
            ),
        ]
    } else {
        seq![]
    }) + (if messages@.len() > 0 && messages@[0].role == MessageRole::System {
        seq![
            (
                "system_instruction"@,
                object_of(seq![("parts"@, array_of(seq![text_part(messages@[0].content@)]))]),
            ),
        ]
    } else {
        seq![]
    }));
    json_object(body)
}

/// The error an HTTP reply status means, if any: 401 and 403 are
/// authentication failures, any other non-2xx status an API error with the
/// first 300 characters of the body.
pub fn check_status(status: u16, body: &str) -> (r: Option<ProviderError>)
    requires
        100 <= status <= 999,
    ensures
        status == 401 || status == 403 ==> (r matches Some(ProviderError::Auth(m)) && m@ == "HTTP "@
            + crate::openai_compat::status_display(status)),
        status != 401 && status != 403 && !(200 <= status <= 299) ==> (r matches Some(
            ProviderError::Api(m),
        ) && m@ == "HTTP "@ + crate::openai_compat::status_display(status) + ": "@ + take_chars(
            body@,
            300,
        )),
        200 <= status <= 299 ==> r is None,
{
    if status == 401 || status == 403 {
        let line = status_text(status);
        return Some(ProviderError::Auth(concat("HTTP ", line.as_str())));
    }
    if status < 200 || status > 299 {
        let line = status_text(status);
        let short = prefix_chars(body, 300);
        let head = concat("HTTP ", line.as_str());
        return Some(ProviderError::Api(concat3(head.as_str(), ": ", short.as_str())));
    }
    None
}

/// The first element of `candidates`, if any.
pub open spec fn first_candidate(data: serde_json::Value) -> Option<serde_json::Value> {
    match member(data, "candidates"@) {
        Some(c) => match array_items(c) {
            Some(items) => if items.len() > 0 {
                Some(items[0])
            } else {
                None
            },
            None => None,
        },
        None => None,
    }
}

/// The parts of a candidate's content (none when absent).
pub open spec fn candidate_parts(candidate: serde_json::Value) -> Seq<serde_json::Value> {
    match member(candidate, "content"@) {
        Some(c) => match member(c, "parts"@) {
            Some(p) => match array_items(p) {
                Some(items) => items,
                None => seq![],
            },
            None => seq![],
        },
        None => seq![],
    }
}

/// The text of the first `n` parts, concatenated.
pub open spec fn parts_text(parts: Seq<serde_json::Value>, n: int) -> Seq<char>
    decreases n,
{
    if n <= 0 {
        seq![]
    } else {
        parts_text(parts, n - 1) + str_or_empty(parts[n - 1], "text"@)
    }
}

/// The call of part `i`, if it is a named `functionCall`; its id is
/// `gemini-{i}` and missing arguments read as `{}`.
pub open spec fn part_call(i: int, part: serde_json::Value) -> Option<(Seq<char>, Seq<char>, serde_json::Value)> {
    match member(part, "functionCall"@) {
        None => None,
        Some(fc) => {
            let name = str_or_empty(fc, "name"@);
            if name.len() == 0 {
                None
            } else {
                Some(
                    (
                        "gemini-"@ + decimal(i as nat),
                        name,
                        match member(fc, "args"@) {
                            Some(a) => a,
                            None => object_of(seq![]),
                        },
                    ),
                )
            }
        },
    }
}

/// The calls of the first `n` parts, in order.
pub open spec fn parts_calls(parts: Seq<serde_json::Value>, n: int) -> Seq<(Seq<char>, Seq<char>, serde_json::Value)>
    decreases n,
{
    if n <= 0 {
        seq![]
    } else {
        match part_call(n - 1, parts[n - 1]) {
            Some(c) => parts_calls(parts, n - 1).push(c),
            None => parts_calls(parts, n - 1),
        }
    }
}

/// `r` is what a `generateContent` reply means: a protocol error without
/// `candidates[0]`, an API error when the payload carries an `error`,
/// else the text and calls of the candidate's parts.
pub open spec fn candidate_outcome(data: serde_json::Value, r: Result<(String, Vec<ToolCall>), ProviderError>) -> bool {
    match first_candidate(data) {
        None => r matches Err(ProviderError::Protocol(m)) && m@ == "missing candidates[0]"@,
        Some(c) => match member(data, "error"@) {
            Some(e) => r matches Err(ProviderError::Api(m)) && m@ == crate::json::compact_text(e),
            None => r matches Ok((text, calls)) && text@ == parts_text(
                candidate_parts(c),
                candidate_parts(c).len() as int,
            ) && calls@.map_values(|t: ToolCall| call_view(t)) == parts_calls(
                candidate_parts(c),
                candidate_parts(c).len() as int,
            ),
        },
    }
}

/// Parse a `generateContent` reply into its text and tool calls.
pub fn parse_candidate(data: &serde_json::Value) -> (r: Result<(String, Vec<ToolCall>), ProviderError>)
    ensures
        candidate_outcome(*data, r),
{
    proof {
        reveal_strlit("");
    }
    let items = match json_get(data, "candidates") {
        Some(c) => json_array_items(c),
        None => None,
    };
    let items = match items {
        Some(items) => items,
        None => {
            return Err(ProviderError::Protocol("missing candidates[0]".to_string()));
        },
    };
    if items.len() == 0 {
        return Err(ProviderError::Protocol("missing candidates[0]".to_string()));
    }
    let candidate = &items[0];
    let parts = match json_get(candidate, "content") {
        Some(c) => match json_get(c, "parts") {
            Some(p) => match json_array_items(p) {
                Some(ps) => ps,
                None => Vec::new(),
            },
            None => Vec::new(),
        },
        None => Vec::new(),
    };
    assert(parts@ == candidate_parts(*candidate));
    let mut text: Vec<char> = Vec::new();
    let mut calls: Vec<ToolCall> = Vec::new();
    let mut i: usize = 0;
    while i < parts.len()
        invariant
            i <= parts@.len(),
            text@ == parts_text(parts@, i as int),
            calls@.map_values(|t: ToolCall| call_view(t)) == parts_calls(parts@, i as int),
        decreases parts.len() - i,
    {
        proof {
            reveal_strlit("");
        }
        let part = &parts[i];
        let t = string_or(json_get(part, "text"), "");
        crate::text::push_str(&mut text, t.as_str());
        let ghost before = calls@;
        match json_get(part, "functionCall") {
            Some(fc) => {
                let name = string_or(json_get(fc, "name"), "");
                if !name.as_str().is_empty() {
                    let args = match json_get(fc, "args") {
                        Some(a) => json_clone(a),
                        None => json_empty_object(),
                    };
                    let digits = decimal_text(i);
                    let id = concat("gemini-", digits.as_str());
                    let call = ToolCall::new(id, name, args);
                    calls.push(call);
                    assert(calls@.map_values(|t: ToolCall| call_view(t)) =~= before.map_values(
                        |t: ToolCall| call_view(t),
                    ).push(call_view(call)));
                }
            },
            None => {},
        }
        i = i + 1;
    }
    match json_get(data, "error") {
        Some(e) => Err(ProviderError::Api(json_to_string(e))),
        None => Ok((string_from_chars(&text), calls)),
    }
}

/// The model ids a `GET models` payload offers for `generateContent`,
/// without their `models/` prefix, in payload order.
pub open spec fn generating_models(data: serde_json::Value) -> Seq<Seq<char>> {
    match member(data, "models"@) {
        Some(m) => match array_items(m) {
            Some(items) => items.filter_map(|m: serde_json::Value| generating_model_id(m)),
            None => seq![],
        },
        None => seq![],
    }
}

/// The id of a model entry that supports `generateContent`.
pub open spec fn generating_model_id(m: serde_json::Value) -> Option<Seq<char>> {
    if supports_generate(m) {
        match member_str(m, "name"@) {
            Some(n) => Some(
                if seq_starts_with(n, "models/"@) {
                    n.skip(7)
                } else {
                    n
                },
            ),
            None => None,
        }
    } else {
        None
    }
}

/// The entry lists `generateContent` among its generation methods.
pub open spec fn supports_generate(m: serde_json::Value) -> bool {
    match member(m, "supportedGenerationMethods"@) {
        Some(v) => match array_items(v) {
            Some(methods) => exists|i: int|
                0 <= i < methods.len() && string_content(#[trigger] methods[i]) == Some(
                    "generateContent"@,
                ),
            None => false,
        },
        None => false,
    }
}

fn lists_generate(methods: &Vec<serde_json::Value>) -> (r: bool)
    ensures
        r == exists|i: int|
            0 <= i < methods@.len() && string_content(#[trigger] methods@[i]) == Some("generateContent"@),
{
    let mut i: usize = 0;
    while i < methods.len()
        invariant
            i <= methods@.len(),
            forall|j: int| 0 <= j < i ==> string_content(#[trigger] methods@[j]) != Some("generateContent"@),
        decreases methods.len() - i,
    {
        match crate::json::json_as_str(&methods[i]) {
            Some(s) => {
                if str_eq(s.as_str(), "generateContent") {
                    return true;
                }
            },
            None => {},
        }
        i = i + 1;
    }
    false
}

fn model_id_of(m: &serde_json::Value) -> (r: Option<String>)
    ensures
        match r {
            Some(id) => generating_model_id(*m) == Some(id@),
            None => generating_model_id(*m) is None,
        },
{
    let supported = match json_get(m, "supportedGenerationMethods") {
        Some(v) => match json_array_items(v) {
            Some(methods) => lists_generate(&methods),
            None => false,
        },
        None => false,
    };
    if !supported {
        return None;
    }
    match json_str_field(m, "name") {
        Some(n) => {
            let v = chars_of(n.as_str());
            let prefix = chars_of("models/");
            proof {
                reveal_strlit("models/");
            }
            if starts_with_chars(&v, &prefix) {
                let rest = chars_from(&v, 7);
                Some(string_from_chars(&rest))
            } else {
                Some(n)
            }
        },
        None => None,
    }
}

/// The models to offer: those that support `generateContent`, sorted;
/// the configured model alone when there are none.
pub fn gemini_model_ids(config: &GeminiConfig, data: &serde_json::Value) -> (r: Vec<String>)
    ensures
        generating_models(*data).len() > 0 ==> r@.map_values(|s: String| s@).to_multiset()
            == generating_models(*data).to_multiset() && forall|i: int, j: int|
            0 <= i < j < r@.len() ==> chars_le(#[trigger] r@[i]@, #[trigger] r@[j]@),
        generating_models(*data).len() == 0 ==> r@.len() == 1 && r@[0] == config.model,
{
    let mut ids: Vec<String> = Vec::new();
    let items = match json_get(data, "models") {
        Some(m) => json_array_items(m),
        None => None,
    };
    match items {
        Some(items) => {
            let mut i: usize = 0;
            assert(ids@.map_values(|s: String| s@) =~= items@.take(0).filter_map(
                |m: serde_json::Value| generating_model_id(m),
            ));
            while i < items.len()
                invariant
                    i <= items@.len(),
                    ids@.map_values(|s: String| s@) == items@.take(i as int).filter_map(
                        |m: serde_json::Value| generating_model_id(m),
                    ),
                decreases items.len() - i,
            {
                proof {
                    assert(items@.take(i + 1).drop_last() =~= items@.take(i as int));
                    assert(items@.take(i + 1).last() == items@[i as int]);
                }
                let ghost before = ids@;
                match model_id_of(&items[i]) {
                    Some(id) => {
                        ids.push(id);
                        assert(ids@.map_values(|s: String| s@) =~= before.map_values(|s: String| s@).push(
                            id@,
                        ));
                    },
                    None => {},
                }
                i = i + 1;
            }
            assert(items@.take(items@.len() as int) =~= items@);
        },
        None => {
            assert(ids@.map_values(|s: String| s@) =~= generating_models(*data));
        },
    }
    if ids.len() == 0 {
        return config.models();
    }
    sort_strings(ids)
}

/// A part that is a `functionCall` with a non-empty name.
pub open spec fn is_named_call_part(part: serde_json::Value) -> bool {
    match member(part, "functionCall"@) {
        Some(fc) => str_or_empty(fc, "name"@).len() > 0,
        None => false,
    }
}

/// Number of named `functionCall` parts among the first `n`.
pub open spec fn named_call_parts(parts: Seq<serde_json::Value>, n: int) -> nat
    decreases n,
{
    if n <= 0 {
        0
    } else {
        named_call_parts(parts, n - 1) + if is_named_call_part(parts[n - 1]) {
            1nat
        } else {
            0nat
        }
    }
}

/// Counting named call parts over a longer prefix never gives fewer.
proof fn lemma_named_call_parts_grow(parts: Seq<serde_json::Value>, k: int, n: int)
    requires
        0 <= k <= n,
    ensures
        named_call_parts(parts, k) <= named_call_parts(parts, n),
    decreases n - k,
{
    if k < n {
        lemma_named_call_parts_grow(parts, k, n - 1);
    }
}

/// The calls of a reply keep every named `functionCall` part, and only
/// those, in part order: there are as many calls as named call parts, and
/// part `k` gives the call at its rank among them, with id `gemini-{k}`,
/// its `functionCall`'s name and, when that has `args`, exactly those
/// arguments.
pub proof fn law_parts_calls_keep_every_function_call(parts: Seq<serde_json::Value>, n: int)
    requires
        0 <= n <= parts.len(),
    ensures
        parts_calls(parts, n).len() == named_call_parts(parts, n),
        forall|k: int|
            0 <= k < n && is_named_call_part(#[trigger] parts[k]) ==> {
                let fc = member(parts[k], "functionCall"@)->0;
                let c = parts_calls(parts, n)[named_call_parts(parts, k) as int];
                &&& c.0 == "gemini-"@ + decimal(k as nat)
                &&& c.1 == str_or_empty(fc, "name"@)
                &&& (member(fc, "args"@) matches Some(a) ==> c.2 == a)
            },
    decreases n,
{
    if n > 0 {
        law_parts_calls_keep_every_function_call(parts, n - 1);
        let prev = parts_calls(parts, n - 1);
        assert forall|k: int| 0 <= k < n && is_named_call_part(#[trigger] parts[k]) implies {
            let fc = member(parts[k], "functionCall"@)->0;
            let c = parts_calls(parts, n)[named_call_parts(parts, k) as int];
            &&& c.0 == "gemini-"@ + decimal(k as nat)
            &&& c.1 == str_or_empty(fc, "name"@)
            &&& (member(fc, "args"@) matches Some(a) ==> c.2 == a)
        } by {
            if k < n - 1 {
                lemma_named_call_parts_grow(parts, k + 1, n - 1);
                assert(named_call_parts(parts, k + 1) == named_call_parts(parts, k) + 1);
                assert(parts_calls(parts, n)[named_call_parts(parts, k) as int] == prev[named_call_parts(
                    parts,
                    k,
                ) as int]);
            }
        }
    }
}

} // verus!
