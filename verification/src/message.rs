//! Chat messages exchanged between the user, the assistant and tools.
use vstd::prelude::*;

use crate::json::{compact_text, error_object, json_clone, json_error_object, json_to_string};

verus! {

/// Who produced a message.
#[derive(Debug, Clone, Copy, PartialEq, Eq, Structural)]
pub enum MessageRole {
    System,
    User,
    Assistant,
    Tool,
}

/// A request emitted by the model to invoke a tool.
#[derive(Debug)]
pub struct ToolCall {
    /// Provider-side call id, used to correlate results.
    pub id: String,
    /// Name of the tool, as advertised in the tool schema.
    pub name: String,
    /// JSON object passed to the tool.
    pub arguments: serde_json::Value,
}

impl Clone for ToolCall {
    fn clone(&self) -> (r: Self)
        ensures
            r == *self,
    {
        ToolCall { id: self.id.clone(), name: self.name.clone(), arguments: json_clone(&self.arguments) }
    }
}

impl ToolCall {
    pub fn new(id: String, name: String, arguments: serde_json::Value) -> (r: Self)
        ensures
            r.id == id,
            r.name == name,
            r.arguments == arguments,
    {
        ToolCall { id, name, arguments }
    }
}

/// The outcome of a tool execution, fed back to the model.
#[derive(Debug)]
pub struct ToolResult {
    pub call_id: String,
    pub name: String,
    /// JSON value (or `{"error": ...}` envelope when `is_error`).
    pub content: serde_json::Value,
    pub is_error: bool,
}

impl Clone for ToolResult {
    fn clone(&self) -> (r: Self)
        ensures
            r == *self,
    {
        ToolResult {
            call_id: self.call_id.clone(),
            name: self.name.clone(),
            content: json_clone(&self.content),
            is_error: self.is_error,
        }
    }
}

impl ToolResult {
    /// A successful result carrying `content`.
    pub fn ok(call_id: String, name: String, content: serde_json::Value) -> (r: Self)
        ensures
            r.call_id == call_id,
            r.name == name,
            r.content == content,
            !r.is_error,
    {
        ToolResult { call_id, name, content, is_error: false }
    }

    /// A failed result whose content is the object `{"error": message}`.
    pub fn err(call_id: String, name: String, message: String) -> (r: Self)
        ensures
            r.call_id == call_id,
            r.name == name,
            r.content == error_object(message@),
            r.is_error,
    {
        ToolResult { call_id, name, content: json_error_object(message), is_error: true }
    }
}

/// A single message in a conversation.
#[derive(Debug)]
pub struct ChatMessage {
    pub role: MessageRole,
    pub content: String,
    /// Tool calls requested by an assistant message.
    pub tool_calls: Vec<ToolCall>,
    /// Set on `Tool` messages to reference the originating call.
    pub tool_call_id: Option<String>,
}

impl Clone for ChatMessage {
    fn clone(&self) -> (r: Self)
        ensures
            r.same_as(*self),
    {
        let tool_calls = clone_calls(&self.tool_calls);
        let tool_call_id = match &self.tool_call_id {
            Some(id) => Some(id.clone()),
            None => None,
        };
        ChatMessage { role: self.role, content: self.content.clone(), tool_calls, tool_call_id }
    }
}

/// An element-wise copy of a list of tool calls.
pub fn clone_calls(calls: &Vec<ToolCall>) -> (r: Vec<ToolCall>)
    ensures
        r@ == calls@,
{
    let mut out: Vec<ToolCall> = Vec::new();
    let mut i: usize = 0;
    while i < calls.len()
        invariant
            i <= calls.len(),
            out@ == calls@.take(i as int),
        decreases calls.len() - i,
    {
        out.push(calls[i].clone());
        i = i + 1;
        assert(out@ =~= calls@.take(i as int));
    }
    assert(out@ =~= calls@);
    out
}

impl ChatMessage {
    /// Field-wise equality (the tool-call lists compared by content).
    pub open spec fn same_as(self, other: ChatMessage) -> bool {
        &&& self.role == other.role
        &&& self.content == other.content
        &&& self.tool_calls@ == other.tool_calls@
        &&& self.tool_call_id == other.tool_call_id
    }

    /// A plain message of the given role: no tool calls, no call reference.
    pub open spec fn is_plain(self, role: MessageRole, content: Seq<char>) -> bool {
        &&& self.role == role
        &&& self.content@ == content
        &&& self.tool_calls@.len() == 0
        &&& self.tool_call_id is None
    }

    pub fn system(content: String) -> (r: Self)
        ensures
            r.is_plain(MessageRole::System, content@),
    {
        ChatMessage { role: MessageRole::System, content, tool_calls: Vec::new(), tool_call_id: None }
    }

    pub fn user(content: String) -> (r: Self)
        ensures
            r.is_plain(MessageRole::User, content@),
    {
        ChatMessage { role: MessageRole::User, content, tool_calls: Vec::new(), tool_call_id: None }
    }

    pub fn assistant(content: String) -> (r: Self)
        ensures
            r.is_plain(MessageRole::Assistant, content@),
    {
        ChatMessage {
            role: MessageRole::Assistant,
            content,
            tool_calls: Vec::new(),
            tool_call_id: None,
        }
    }

    pub fn assistant_with_tools(content: String, tool_calls: Vec<ToolCall>) -> (r: Self)
        ensures
            r.role == MessageRole::Assistant,
            r.content == content,
            r.tool_calls@ == tool_calls@,
            r.tool_call_id is None,
    {
        ChatMessage { role: MessageRole::Assistant, content, tool_calls, tool_call_id: None }
    }

    /// The tool message reporting `result`: its content is the JSON text of
    /// the result and it references the originating call.
    pub fn tool_result(result: &ToolResult) -> (r: Self)
        ensures
            r.role == MessageRole::Tool,
            r.tool_calls@.len() == 0,
            r.tool_call_id == Some(result.call_id),
            r.content@ == compact_text(result.content),
    {
        ChatMessage {
            role: MessageRole::Tool,
            content: json_to_string(&result.content),
            tool_calls: Vec::new(),
            tool_call_id: Some(result.call_id.clone()),
        }
    }
}

/// An element-wise copy of a list of messages.
pub fn clone_messages(v: &Vec<ChatMessage>) -> (r: Vec<ChatMessage>)
    ensures
        r@.len() == v@.len(),
        forall|k: int| 0 <= k < v@.len() ==> (#[trigger] r@[k]).same_as(v@[k]),
{
    let mut out: Vec<ChatMessage> = Vec::new();
    let mut i: usize = 0;
    while i < v.len()
        invariant
            i <= v@.len(),
            out@.len() == i,
            forall|k: int| 0 <= k < i ==> (#[trigger] out@[k]).same_as(v@[k]),
        decreases v.len() - i,
    {
        out.push(v[i].clone());
        i = i + 1;
    }
    out
}

} // verus!
