//! [`MockProvider`]: a network-free provider used for demos and tests.
//!
//! It answers with a configurable message and simulates a tool call when
//! the user message contains a marker, so the whole assistant → tool →
//! security loop runs without any API key.
use vstd::prelude::*;

use crate::json::json_empty_object;
use crate::message::{ChatMessage, MessageRole, ToolCall};
use crate::provider::{
    lemma_word_chunks_text, word_chunks, words_inclusive, ChatChunk, ChatRequest, ChatResponse,
    ProviderError, ProviderStatus, Usage,
};
use crate::text::{
    chars_of, concat, concat_all, contains_str, lowercase_text, push_all, seq_contains, string_from_chars,
    to_lowercase,
};

verus! {

/// Marker: when the latest user message contains this text, the mock emits
/// a `system_info` tool call instead of a plain answer.
pub open spec fn mock_tool_marker() -> Seq<char> {
    "[use-tool]"@
}

/// The default demo answer.
pub open spec fn demo_greeting() -> Seq<char> {
    "Bonjour ! Je suis SoryOS AI (mode démo, sans clé API). Posez-moi une question, ou demandez « aide » pour découvrir mes capacités."@
}

/// The help answer.
pub open spec fn help_answer() -> Seq<char> {
    "Je peux discuter, exécuter des outils (fichiers, shell, système) avec votre autorisation, et mémoriser vos préférences. Essayez : « Quelle heure est-il ? » ou « Liste les fichiers »."@
}

/// The mock asks for the system-information tool on this user text.
pub open spec fn wants_tool(text: Seq<char>) -> bool {
    let lower = lowercase_text(text);
    seq_contains(lower, mock_tool_marker()) || seq_contains(lower, "heure"@) || seq_contains(
        lower,
        "système"@,
    )
}

/// The mock answers with its help text on this user text.
pub open spec fn wants_help(text: Seq<char>) -> bool {
    let lower = lowercase_text(text);
    seq_contains(lower, "aide"@) || seq_contains(lower, "help"@)
}

/// The text the mock replies to a user message, given its configured answer.
pub open spec fn reply_text(text: Seq<char>, configured: Seq<char>) -> Seq<char> {
    if wants_tool(text) {
        "Je consulte les informations système."@
    } else if wants_help(text) {
        help_answer()
    } else if configured.len() == 0 {
        "Écho (mode démo) : "@ + text
    } else {
        configured
    }
}

pub struct MockProvider {
    name: String,
    response: String,
}

impl MockProvider {
    pub closed spec fn configured(&self) -> Seq<char> {
        self.response@
    }

    pub closed spec fn name_view(&self) -> Seq<char> {
        self.name@
    }

    /// The demo provider with its greeting answer.
    pub fn new() -> (r: Self)
        ensures
            r.configured() == demo_greeting(),
            r.name_view() == "mock"@,
    {
        MockProvider {
            name: "mock".to_string(),
            response: "Bonjour ! Je suis SoryOS AI (mode démo, sans clé API). Posez-moi une question, ou demandez « aide » pour découvrir mes capacités.".to_string(),
        }
    }

    /// A mock provider answering `text`.
    pub fn with_response(text: String) -> (r: Self)
        ensures
            r.configured() == text@,
            r.name_view() == "mock"@,
    {
        MockProvider { name: "mock".to_string(), response: text }
    }

    /// Replaces the configured answer.
    pub fn set_response(&mut self, text: String)
        ensures
            final(self).configured() == text@,
            final(self).name_view() == old(self).name_view(),
    {
        self.response = text;
    }

    pub fn name(&self) -> (r: &str)
        ensures
            r@ == self.name_view(),
    {
        self.name.as_str()
    }

    pub fn models(&self) -> (r: Vec<String>)
        ensures
            r@.len() == 1,
            r@[0]@ == "mock-1"@,
    {
        let mut v: Vec<String> = Vec::new();
        v.push("mock-1".to_string());
        v
    }

    pub fn status(&self) -> (r: ProviderStatus)
        ensures
            r == ProviderStatus::Ready,
    {
        ProviderStatus::Ready
    }

    /// The content the mock answers to a message history.
    pub open spec fn reply_content(&self, messages: Seq<ChatMessage>) -> Seq<char> {
        let t = last_of_role(messages, MessageRole::Tool);
        if t >= 0 {
            "Voici le résultat de l'outil : "@ + messages[t].content@
        } else {
            reply_text(last_user_text(messages), self.configured())
        }
    }

    /// The mock answers this history with a tool call.
    pub open spec fn calls_tool(&self, messages: Seq<ChatMessage>) -> bool {
        last_of_role(messages, MessageRole::Tool) < 0 && wants_tool(last_user_text(messages))
    }

    /// The reply to a request: acknowledges the latest tool result when the
    /// history holds one, otherwise answers the latest user message.
    pub fn complete(&self, request: &ChatRequest) -> (r: Result<ChatResponse, ProviderError>)
        ensures
            r matches Ok(resp) && {
                &&& resp.model@ == "mock-1"@
                &&& resp.content@ == self.reply_content(request.messages@)
                &&& resp.tool_calls@.len() == (if self.calls_tool(request.messages@) {
                    1int
                } else {
                    0int
                })
                &&& self.calls_tool(request.messages@) ==> resp.tool_calls@[0].name@
                    == "system_info"@ && resp.tool_calls@[0].id@ == "mock-call-1"@
            },
    {
        let msgs = &request.messages;
        let t = find_last_role(msgs, MessageRole::Tool);
        if t.is_some() {
            let k = t.unwrap();
            let content = concat("Voici le résultat de l'outil : ", msgs[k].content.as_str());
            Ok(
                ChatResponse {
                    content,
                    tool_calls: Vec::new(),
                    model: "mock-1".to_string(),
                    usage: Usage::default(),
                },
            )
        } else {
            let last_user = match find_last_role(msgs, MessageRole::User) {
                Some(k) => msgs[k].content.clone(),
                None => String::new(),
            };
            let (content, tool_calls) = reply_for(last_user.as_str(), self.response.as_str());
            Ok(
                ChatResponse {
                    content,
                    tool_calls,
                    model: "mock-1".to_string(),
                    usage: Usage::default(),
                },
            )
        }
    }

    /// The streamed form of [`MockProvider::complete`]: the answer cut after
    /// each space, then a final chunk carrying the tool calls.
    pub fn stream(&self, request: &ChatRequest) -> (r: Result<Vec<ChatChunk>, ProviderError>)
        ensures
            r matches Ok(chunks) && {
                &&& chunks@.len() >= 1
                &&& chunks@.last().finished
                &&& chunks@.last().delta@.len() == 0
                &&& chunks@.last().tool_calls@.len() == (if self.calls_tool(request.messages@) {
                    1int
                } else {
                    0int
                })
                &&& chunks@.len() == words_inclusive(self.reply_content(request.messages@)).len() + 1
                &&& forall|k: int|
                    0 <= k < chunks@.len() - 1 ==> !(#[trigger] chunks@[k]).finished
                        && chunks@[k].tool_calls@.len() == 0 && chunks@[k].delta@ == words_inclusive(
                        self.reply_content(request.messages@),
                    )[k]
                &&& concat_all(chunks@.map_values(|c: ChatChunk| c.delta@)) == self.reply_content(
                    request.messages@,
                )
            },
    {
        match self.complete(request) {
            Ok(response) => {
                let chunks = word_chunks(response.content.as_str(), response.tool_calls);
                proof {
                    lemma_word_chunks_text(response.content@, chunks@);
                }
                Ok(chunks)
            },
            Err(e) => Err(e),
        }
    }
}

/// Position of the last message of `role`, or -1.
pub open spec fn last_of_role(messages: Seq<ChatMessage>, role: MessageRole) -> int
    decreases messages.len(),
{
    if messages.len() == 0 {
        -1
    } else if messages.last().role == role {
        messages.len() - 1
    } else {
        last_of_role(messages.drop_last(), role)
    }
}

/// Text of the latest user message, empty when there is none.
pub open spec fn last_user_text(messages: Seq<ChatMessage>) -> Seq<char> {
    let k = last_of_role(messages, MessageRole::User);
    if k >= 0 {
        messages[k].content@
    } else {
        Seq::empty()
    }
}

/// Finds the last message of `role`.
pub fn find_last_role(messages: &Vec<ChatMessage>, role: MessageRole) -> (r: Option<usize>)
    ensures
        match r {
            Some(k) => k as int == last_of_role(messages@, role) && k < messages@.len(),
            None => last_of_role(messages@, role) == -1,
        },
{
    let mut i: usize = messages.len();
    assert(messages@.take(i as int) =~= messages@);
    while i > 0
        invariant
            i <= messages@.len(),
            last_of_role(messages@, role) == last_of_role(messages@.take(i as int), role),
        decreases i,
    {
        assert(messages@.take(i as int).drop_last() =~= messages@.take(i - 1));
        assert(messages@.take(i as int).last() == messages@[i - 1]);
        if messages[i - 1].role == role {
            return Some(i - 1);
        }
        i = i - 1;
    }
    None
}

proof fn lemma_last_of_role_range(messages: Seq<ChatMessage>, role: MessageRole)
    ensures
        -1 <= last_of_role(messages, role) < messages.len(),
        last_of_role(messages, role) >= 0 ==> messages[last_of_role(messages, role)].role == role,
    decreases messages.len(),
{
    if messages.len() > 0 && messages.last().role != role {
        lemma_last_of_role_range(messages.drop_last(), role);
    }
}

/// The mock's answer to a user text: its content and the tool calls it makes.
pub fn reply_for(text: &str, configured: &str) -> (r: (String, Vec<ToolCall>))
    ensures
        r.0@ == reply_text(text@, configured@),
        r.1@.len() == (if wants_tool(text@) {
            1int
        } else {
            0int
        }),
        wants_tool(text@) ==> r.1@[0].name@ == "system_info"@ && r.1@[0].id@ == "mock-call-1"@,
{
    let lower = to_lowercase(text);
    if contains_str(lower.as_str(), "[use-tool]") || contains_str(lower.as_str(), "heure")
        || contains_str(lower.as_str(), "système") {
        let content = "Je consulte les informations système.".to_string();
        let call = ToolCall::new(
            "mock-call-1".to_string(),
            "system_info".to_string(),
            json_empty_object(),
        );
        let mut calls: Vec<ToolCall> = Vec::new();
        calls.push(call);
        return (content, calls);
    }
    if contains_str(lower.as_str(), "aide") || contains_str(lower.as_str(), "help") {
        return (
            "Je peux discuter, exécuter des outils (fichiers, shell, système) avec votre autorisation, et mémoriser vos préférences. Essayez : « Quelle heure est-il ? » ou « Liste les fichiers ».".to_string(),
            Vec::new(),
        );
    }
    if configured.is_empty() {
        (concat("Écho (mode démo) : ", text), Vec::new())
    } else {
        (configured.to_string(), Vec::new())
    }
}

} // verus!
