//! The decisions of one assistant turn, as a state machine.
//!
//! A turn runs `User -> Context -> Provider -> (Tool -> Policy -> Confirmer
//! -> Tool)* -> Response`. The provider, the policy check, the confirmer and the
//! tools are outside work performed by the caller; [`TurnDriver`] decides
//! what happens next from each outcome. Every requested tool call is
//! looked up, then submitted to the policy check; a call runs only after
//! the policy allows it or the user approves it.
use vstd::prelude::*;

use crate::config::AssistantConfig;
use crate::conversation::Conversation;
use crate::error::AssistantError;
use crate::json::{compact_text, error_object, json_clone};
use crate::message::{clone_calls, ChatMessage, MessageRole, ToolCall, ToolResult};
use crate::provider::{ChatChunk, ChatResponse, GenerationParams, Usage};
use crate::text::str_eq;
use crate::tool::{ToolDecision, ToolError};

verus! {

/// Events emitted while a turn runs, for progressive rendering.
#[derive(Debug)]
pub enum AssistantEvent {
    TextChunk(String),
    ToolRequested { name: String, input: serde_json::Value },
    ConfirmationRequired { tool: String, reason: String },
    ConfirmationDecided { tool: String, approved: bool },
    ToolCompleted { name: String, is_error: bool },
    Done(ChatResponse),
}

/// What the caller must do next.
#[derive(Debug)]
pub enum TurnAction {
    /// Build the context from the conversation and stream one provider pass.
    QueryProvider,
    /// Ask the security policy about the current tool call.
    Authorize { name: String, input: serde_json::Value },
    /// Ask the user to approve the current tool call.
    Confirm { name: String, input: serde_json::Value, reason: String },
    /// Run the current tool call.
    Execute { name: String, input: serde_json::Value },
    /// The turn is over with this outcome.
    Finish(Result<ChatResponse, AssistantError>),
}

/// One step: the events to send, in order, then the action to perform.
#[derive(Debug)]
pub struct TurnStep {
    pub events: Vec<AssistantEvent>,
    pub action: TurnAction,
}

/// Where the turn stands.
#[derive(Debug, Clone, Copy, PartialEq, Eq, Structural)]
pub enum TurnPhase {
    AwaitingReply,
    HandlingCalls,
    AwaitingDecision,
    AwaitingConfirmation,
    AwaitingExecution,
    Finished,
}

/// Message of the error ending a turn that never got a final answer.
pub open spec fn exhausted_message() -> Seq<char> {
    "max tool iterations exceeded without final answer"@
}

/// State of one turn.
pub struct TurnDriver {
    conversation: Conversation,
    known_tools: Vec<String>,
    max_iterations: usize,
    passes: usize,
    phase: TurnPhase,
    calls: Vec<ToolCall>,
    next_call: usize,
    results: Vec<ToolResult>,
    pending_reason: String,
}

/// `name` is one of the registered tool names.
pub open spec fn is_registered(known: Seq<String>, name: Seq<char>) -> bool {
    exists|k: int| 0 <= k < known.len() && known[k]@ == name
}

/// `m` is the conversation message that reports the tool result `res`:
/// a tool message referencing the call, holding the result's JSON text.
pub open spec fn reports_result(m: ChatMessage, res: ToolResult) -> bool {
    &&& m.role == MessageRole::Tool
    &&& m.tool_calls@.len() == 0
    &&& m.tool_call_id == Some(res.call_id)
    &&& m.content@ == compact_text(res.content)
}

/// `after` is `before` followed by one message reporting each of
/// `results`, in order.
pub open spec fn results_appended(
    before: Seq<ChatMessage>,
    results: Seq<ToolResult>,
    after: Seq<ChatMessage>,
) -> bool {
    &&& after.len() == before.len() + results.len()
    &&& after.take(before.len() as int) == before
    &&& forall|k: int|
        0 <= k < results.len() ==> reports_result(after[before.len() + k], #[trigger] results[k])
}

/// The results recorded so far answer the first calls, one each, in call
/// order.
pub open spec fn results_follow_calls(results: Seq<ToolResult>, calls: Seq<ToolCall>, handled: nat) -> bool {
    &&& results.len() == handled
    &&& handled <= calls.len()
    &&& forall|k: int|
        0 <= k < results.len() ==> (#[trigger] results[k]).call_id == calls[k].id
            && results[k].name == calls[k].name
}

/// The calls of `calls[from..to]` name no registered tool, and each got the
/// error result `{"error": "unknown tool"}` without the policy being asked.
pub open spec fn unknown_calls_answered(
    known: Seq<String>,
    calls: Seq<ToolCall>,
    results: Seq<ToolResult>,
    from: int,
    to: int,
) -> bool {
    forall|k: int|
        from <= k < to ==> !is_registered(known, (#[trigger] calls[k]).name@) && results[k].is_error
            && results[k].content == error_object("unknown tool"@)
}

/// How the calls of a pass stand after handling them from `from` on, with
/// `base` the conversation before their results: unregistered calls were
/// answered "unknown tool"; while the policy is being asked the
/// conversation is `base`; once every call has its result, the results
/// follow `base`, one message each, in call order.
pub open spec fn calls_handled(
    d: TurnDriver,
    from: int,
    base: Seq<ChatMessage>,
    action: TurnAction,
) -> bool {
    &&& unknown_calls_answered(d.known_tools(), d.calls(), d.results(), from, d.next_call() as int)
    &&& results_follow_calls(d.results(), d.calls(), d.next_call())
    &&& (action is Authorize ==> d.conversation().messages@ == base)
    &&& (!(action is Authorize) ==> d.next_call() == d.calls().len() && results_appended(
        base,
        d.results(),
        d.conversation().messages@,
    ))
}

/// A `ToolRequested` event for each call of `calls[from..to]`, in order.
pub open spec fn requested_events(calls: Seq<ToolCall>, from: int, to: int) -> Seq<AssistantEvent> {
    Seq::new(
        (to - from) as nat,
        |j: int|
            AssistantEvent::ToolRequested {
                name: calls[from + j].name,
                input: calls[from + j].arguments,
            },
    )
}

/// The events of handling the calls from `from` on: one `ToolRequested`
/// per call taken up, the one sent to the policy included.
pub open spec fn events_after_calls(d: TurnDriver, from: nat, action: TurnAction) -> Seq<AssistantEvent> {
    requested_events(
        d.calls(),
        from as int,
        if action is Authorize {
            (d.next_call() + 1) as int
        } else {
            d.next_call() as int
        },
    )
}

/// What handling the remaining calls of a pass leads to: the policy is
/// asked about the next registered call, or the provider is asked again,
/// or the turn ends once the passes are used up.
pub open spec fn next_after_calls(passes_before: nat, max: nat, d: TurnDriver, action: TurnAction) -> bool {
    match action {
        TurnAction::Authorize { name, input } => {
            &&& d.phase() == TurnPhase::AwaitingDecision
            &&& name == d.current().name
            &&& input == d.current().arguments
            &&& is_registered(d.known_tools(), name@)
        },
        TurnAction::QueryProvider => d.phase() == TurnPhase::AwaitingReply && d.passes()
            == passes_before + 1,
        TurnAction::Finish(Err(AssistantError::Tool(m))) => m@ == exhausted_message() && d.phase()
            == TurnPhase::Finished && d.passes() == max + 1,
        _ => false,
    }
}

impl TurnDriver {
    pub closed spec fn phase(&self) -> TurnPhase {
        self.phase
    }

    /// The conversation as it stands.
    pub closed spec fn conversation(&self) -> Conversation {
        self.conversation
    }

    /// Provider passes completed so far.
    pub closed spec fn passes(&self) -> nat {
        self.passes as nat
    }

    pub closed spec fn max_iterations(&self) -> nat {
        self.max_iterations as nat
    }

    /// Tool calls requested by the latest provider pass.
    pub closed spec fn calls(&self) -> Seq<ToolCall> {
        self.calls@
    }

    /// Index of the call being handled.
    pub closed spec fn next_call(&self) -> nat {
        self.next_call as nat
    }

    /// Results of the calls handled so far in this pass, in call order.
    pub closed spec fn results(&self) -> Seq<ToolResult> {
        self.results@
    }

    pub closed spec fn known_tools(&self) -> Seq<String> {
        self.known_tools@
    }

    /// The call being handled.
    pub open spec fn current(&self) -> ToolCall {
        self.calls()[self.next_call() as int]
    }

    /// Internal consistency of a turn.
    pub closed spec fn wf(&self) -> bool {
        &&& self.next_call <= self.calls@.len()
        &&& self.results@.len() == self.next_call
        &&& forall|k: int|
            0 <= k < self.results@.len() ==> (#[trigger] self.results@[k]).call_id
                == self.calls@[k].id && self.results@[k].name == self.calls@[k].name
        &&& self.max_iterations < usize::MAX
        &&& self.passes <= self.max_iterations + 1
        &&& (self.phase != TurnPhase::Finished ==> self.passes <= self.max_iterations)
        &&& (self.phase == TurnPhase::AwaitingDecision || self.phase
            == TurnPhase::AwaitingConfirmation || self.phase == TurnPhase::AwaitingExecution)
            ==> self.next_call < self.calls@.len() && is_registered(
            self.known_tools@,
            self.calls@[self.next_call as int].name@,
        )
    }

    /// Starts a turn: records the user message; the provider is asked next.
    pub fn start(
        conversation: Conversation,
        user_text: String,
        known_tools: Vec<String>,
        max_iterations: usize,
    ) -> (r: (Self, TurnStep))
        requires
            max_iterations < usize::MAX,
        ensures
            r.0.wf(),
            r.0.phase() == TurnPhase::AwaitingReply,
            r.0.passes() == 0,
            r.0.max_iterations() == max_iterations,
            r.0.known_tools() == known_tools@,
            r.0.conversation().messages@.len() == conversation.messages@.len() + 1,
            r.0.conversation().messages@.drop_last() == conversation.messages@,
            r.0.conversation().messages@.last().is_plain(MessageRole::User, user_text@),
            r.0.conversation().id == conversation.id,
            r.1.events@.len() == 0,
            r.1.action is QueryProvider,
    {
        let mut conversation = conversation;
        let ghost before = conversation.messages@;
        conversation.push(ChatMessage::user(user_text));
        assert(conversation.messages@.drop_last() =~= before);
        let driver = TurnDriver {
            conversation,
            known_tools,
            max_iterations,
            passes: 0,
            phase: TurnPhase::AwaitingReply,
            calls: Vec::new(),
            next_call: 0,
            results: Vec::new(),
            pending_reason: String::new(),
        };
        (driver, TurnStep { events: Vec::new(), action: TurnAction::QueryProvider })
    }

    /// The conversation, for building the context or saving it.
    pub fn conversation_ref(&self) -> (r: &Conversation)
        ensures
            *r == self.conversation(),
    {
        &self.conversation
    }

    /// Ends the turn, giving the conversation back.
    pub fn into_conversation(self) -> (r: Conversation)
        ensures
            r == self.conversation(),
    {
        self.conversation
    }

    /// Whether `name` is a registered tool.
    fn is_known(&self, name: &str) -> (r: bool)
        ensures
            r == is_registered(self.known_tools@, name@),
    {
        let mut i: usize = 0;
        while i < self.known_tools.len()
            invariant
                i <= self.known_tools@.len(),
                forall|k: int| 0 <= k < i ==> self.known_tools@[k]@ != name@,
            decreases self.known_tools.len() - i,
        {
            if str_eq(self.known_tools[i].as_str(), name) {
                return true;
            }
            i = i + 1;
        }
        false
    }

    /// Handles the remaining calls of the pass: unknown tools get an error
    /// result; the first registered one goes to the policy check. When every call
    /// has a result, the results join the conversation and the provider is
    /// asked again, or the turn ends once the passes are used up.
    fn advance(&mut self, pending: Vec<AssistantEvent>) -> (r: TurnStep)
        requires
            old(self).wf(),
            old(self).phase != TurnPhase::Finished,
        ensures
            final(self).wf(),
            final(self).passes() >= old(self).passes(),
            final(self).conversation().id == old(self).conversation().id,
            final(self).conversation().messages@.len() >= old(self).conversation().messages@.len(),
            final(self).conversation().messages@.take(old(self).conversation().messages@.len() as int)
                == old(self).conversation().messages@,
            final(self).known_tools() == old(self).known_tools(),
            final(self).max_iterations() == old(self).max_iterations(),
            r.events@ == pending@ + events_after_calls(*final(self), old(self).next_call(), r.action),
            final(self).calls() == old(self).calls(),
            final(self).next_call() >= old(self).next_call(),
            forall|k: int|
                0 <= k < old(self).results().len() ==> final(self).results()[k] == old(
                    self,
                ).results()[k],
            next_after_calls(old(self).passes(), old(self).max_iterations(), *final(self), r.action),
            unknown_calls_answered(
                old(self).known_tools(),
                final(self).calls(),
                final(self).results(),
                old(self).next_call() as int,
                final(self).next_call() as int,
            ),
            results_follow_calls(final(self).results(), final(self).calls(), final(self).next_call()),
            r.action is Authorize ==> final(self).conversation() == old(self).conversation(),
            !(r.action is Authorize) ==> final(self).next_call() == final(self).calls().len()
                && results_appended(
                old(self).conversation().messages@,
                final(self).results(),
                final(self).conversation().messages@,
            ),
    {
        let ghost given = pending@;
        let mut events = pending;
        while self.next_call < self.calls.len()
            invariant
                given == pending@,
                old(self).results@.len() == old(self).next_call,
                events@ == given + requested_events(self.calls@, old(self).next_call as int, self.next_call as int),
                self.wf(),
                self.phase != TurnPhase::Finished,
                self.passes == old(self).passes,
                self.calls@ == old(self).calls@,
                self.known_tools@ == old(self).known_tools@,
                self.max_iterations == old(self).max_iterations,
                self.conversation == old(self).conversation,
                self.next_call >= old(self).next_call,
                forall|k: int| 0 <= k < old(self).results@.len() ==> self.results@[k] == old(
                    self,
                ).results@[k],
                forall|k: int|
                    old(self).next_call <= k < self.next_call ==> !is_registered(
                        old(self).known_tools@,
                        (#[trigger] self.calls@[k]).name@,
                    ) && self.results@[k].is_error && self.results@[k].content == error_object(
                        "unknown tool"@,
                    ),
            decreases self.calls.len() - self.next_call,
        {
            let i = self.next_call;
            let ghost ev_before = events@;
            events.push(
                AssistantEvent::ToolRequested {
                    name: self.calls[i].name.clone(),
                    input: json_clone(&self.calls[i].arguments),
                },
            );
            assert(events@ =~= given + requested_events(
                self.calls@,
                old(self).next_call as int,
                i + 1,
            ));
            if self.is_known(self.calls[i].name.as_str()) {
                self.phase = TurnPhase::AwaitingDecision;
                let action = TurnAction::Authorize {
                    name: self.calls[i].name.clone(),
                    input: json_clone(&self.calls[i].arguments),
                };
                return TurnStep { events, action };
            }
            let result = ToolResult::err(
                self.calls[i].id.clone(),
                self.calls[i].name.clone(),
                "unknown tool".to_string(),
            );
            let ghost res_before = self.results@;
            self.results.push(result);
            assert(forall|k: int| 0 <= k < res_before.len() ==> self.results@[k] == res_before[k]);
            self.next_call = i + 1;
        }
        let mut j: usize = 0;
        while j < self.results.len()
            invariant
                j <= self.results@.len(),
                self.wf(),
                self.phase != TurnPhase::Finished,
                self.passes == old(self).passes,
                self.calls@ == old(self).calls@,
                self.known_tools@ == old(self).known_tools@,
                self.max_iterations == old(self).max_iterations,
                self.conversation.id == old(self).conversation.id,
                self.conversation.messages@.len() == old(self).conversation.messages@.len() + j,
                self.conversation.messages@.take(old(self).conversation.messages@.len() as int)
                    == old(self).conversation.messages@,
                forall|k: int|
                    0 <= k < j ==> reports_result(
                        self.conversation.messages@[old(self).conversation.messages@.len() + k],
                        #[trigger] self.results@[k],
                    ),
                self.next_call == self.calls@.len(),
                forall|k: int| 0 <= k < old(self).results@.len() ==> self.results@[k] == old(
                    self,
                ).results@[k],
                forall|k: int|
                    old(self).next_call <= k < self.next_call ==> !is_registered(
                        old(self).known_tools@,
                        (#[trigger] self.calls@[k]).name@,
                    ) && self.results@[k].is_error && self.results@[k].content == error_object(
                        "unknown tool"@,
                    ),
            decreases self.results.len() - j,
        {
            let message = ChatMessage::tool_result(&self.results[j]);
            let ghost before = self.conversation.messages@;
            self.conversation.push(message);
            assert(self.conversation.messages@.take(old(self).conversation.messages@.len() as int)
                =~= before.take(old(self).conversation.messages@.len() as int));
            assert forall|k: int| 0 <= k < j + 1 implies reports_result(
                self.conversation.messages@[old(self).conversation.messages@.len() + k],
                #[trigger] self.results@[k],
            ) by {
                if k < j {
                    assert(self.conversation.messages@[old(self).conversation.messages@.len() + k]
                        == before[old(self).conversation.messages@.len() + k]);
                }
            }
            j = j + 1;
        }
        assert(self.conversation.messages@.take(old(self).conversation.messages@.len() as int)
            == old(self).conversation.messages@);
        self.passes = self.passes + 1;
        if self.passes > self.max_iterations {
            self.phase = TurnPhase::Finished;
            let err = AssistantError::Tool(
                "max tool iterations exceeded without final answer".to_string(),
            );
            TurnStep { events, action: TurnAction::Finish(Err(err)) }
        } else {
            self.phase = TurnPhase::AwaitingReply;
            TurnStep { events, action: TurnAction::QueryProvider }
        }
    }

    /// The provider answered with `text` and `tool_calls`. Without tool
    /// calls the answer ends the turn: the conversation takes its derived
    /// title and a `Done` event carries the response. Otherwise the calls
    /// are handled in order.
    pub fn on_reply(&mut self, text: String, tool_calls: Vec<ToolCall>, model: String) -> (r:
        TurnStep)
        requires
            old(self).wf(),
            old(self).phase() == TurnPhase::AwaitingReply,
        ensures
            final(self).wf(),
            final(self).conversation().id == old(self).conversation().id,
            tool_calls@.len() == 0 ==> {
                &&& final(self).phase() == TurnPhase::Finished
                &&& r.events@.len() == 1
                &&& r.events@[0] matches AssistantEvent::Done(done) && done.content == text
                    && done.model == model && done.tool_calls@.len() == 0
                &&& final(self).conversation().messages@ == old(
                    self,
                ).conversation().messages@.push(final(self).conversation().messages@.last())
                &&& final(self).conversation().title@ == crate::conversation::derived_title(
                    old(self).conversation().title@,
                    final(self).conversation().messages@,
                )
                &&& final(self).conversation().messages@.last().is_plain(
                    MessageRole::Assistant,
                    text@,
                )
                &&& r.action matches TurnAction::Finish(Ok(resp)) && resp.content == text
                    && resp.model == model && resp.tool_calls@.len() == 0
            },
            tool_calls@.len() > 0 ==> {
                &&& final(self).calls() == tool_calls@
                &&& final(self).conversation().messages@.len() > old(self).conversation().messages@.len()
                &&& final(self).conversation().messages@.take(
                    old(self).conversation().messages@.len() as int,
                ) == old(self).conversation().messages@
                &&& final(self).conversation().messages@[old(self).conversation().messages@.len() as int].role
                    == MessageRole::Assistant
                &&& final(self).conversation().messages@[old(self).conversation().messages@.len() as int].content
                    == text
                &&& final(self).conversation().messages@[old(self).conversation().messages@.len() as int].tool_calls@
                    == tool_calls@
                &&& next_after_calls(old(self).passes(), old(self).max_iterations(), *final(self), r.action)
                &&& r.events@ == events_after_calls(*final(self), 0, r.action)
                &&& calls_handled(
                    *final(self),
                    0,
                    final(self).conversation().messages@.take(
                        old(self).conversation().messages@.len() + 1 as int,
                    ),
                    r.action,
                )
            },
    {
        if tool_calls.len() == 0 {
            let ghost before = self.conversation.messages@;
            self.conversation.push(ChatMessage::assistant(text.clone()));
            self.conversation.derive_title();
            self.phase = TurnPhase::Finished;
            let done = ChatResponse {
                content: text.clone(),
                tool_calls: Vec::new(),
                model: model.clone(),
                usage: Usage::default(),
            };
            let response = ChatResponse {
                content: text,
                tool_calls: Vec::new(),
                model,
                usage: Usage::default(),
            };
            let mut events: Vec<AssistantEvent> = Vec::new();
            events.push(AssistantEvent::Done(done));
            return TurnStep { events, action: TurnAction::Finish(Ok(response)) };
        }
        let copy = clone_calls(&tool_calls);
        let ghost n = self.conversation.messages@.len();
        let ghost text_view = text;
        let said = ChatMessage::assistant_with_tools(text, copy);
        let ghost said_view = said;
        self.conversation.push(said);
        self.calls = tool_calls;
        self.next_call = 0;
        self.results = Vec::new();
        self.phase = TurnPhase::HandlingCalls;
        let ghost mid = self.conversation.messages@;
        let step = self.advance(Vec::new());
        proof {
            assert(self.conversation.messages@.take(n + 1 as int) =~= self.conversation.messages@.take(
                mid.len() as int,
            ));
            assert(mid[n as int] == said_view);
            assert(self.conversation.messages@.take(mid.len() as int)[n as int] == mid[n as int]);
            assert(self.conversation.messages@[n as int] == said_view);
            assert(self.conversation.messages@.take(n as int) =~= mid.take(n as int));
            assert(mid.take(n as int) =~= old(self).conversation.messages@);
        }
        step
    }

    /// The policy decided about the current call. Only an `Allow` leads to
    /// running it; a confirmation request goes to the user; a denial becomes
    /// the call's error result.
    pub fn on_decision(&mut self, decision: ToolDecision) -> (r: TurnStep)
        requires
            old(self).wf(),
            old(self).phase() == TurnPhase::AwaitingDecision,
        ensures
            final(self).wf(),
            final(self).conversation().id == old(self).conversation().id,
            r.action is Execute <==> decision is Allow,
            decision is Allow ==> (r.action matches TurnAction::Execute { name, input } && name
                == old(self).current().name && input == old(self).current().arguments
                && final(self).phase() == TurnPhase::AwaitingExecution && r.events@.len() == 0),
            decision matches ToolDecision::RequireConfirmation { reason } ==> (r.action matches TurnAction::Confirm {
                name,
                input,
                reason: asked,
            } && name == old(self).current().name && input == old(self).current().arguments
                && asked == reason && final(self).phase() == TurnPhase::AwaitingConfirmation
                && r.events@ == seq![
                AssistantEvent::ConfirmationRequired { tool: old(self).current().name, reason },
            ]),
            decision matches ToolDecision::Deny { reason } ==> final(self).results()[old(
                self,
            ).next_call() as int].is_error && final(self).results()[old(
                self,
            ).next_call() as int].content == error_object(reason@) && final(self).results()[old(
                self,
            ).next_call() as int].call_id == old(self).current().id && next_after_calls(
                old(self).passes(),
                old(self).max_iterations(),
                *final(self),
                r.action,
            ) && r.events@ == events_after_calls(*final(self), old(self).next_call() + 1, r.action)
                && calls_handled(
                *final(self),
                old(self).next_call() + 1 as int,
                old(self).conversation().messages@,
                r.action,
            ),
            !(decision is Deny) ==> final(self).conversation() == old(self).conversation()
                && final(self).results() == old(self).results() && final(self).next_call() == old(
                self,
            ).next_call(),
            final(self).calls() == old(self).calls(),
            final(self).known_tools() == old(self).known_tools(),
            forall|k: int|
                0 <= k < old(self).results().len() ==> final(self).results()[k] == old(
                    self,
                ).results()[k],
    {
        let i = self.next_call;
        assert(i < self.calls.len());
        match decision {
            ToolDecision::Allow => {
                self.phase = TurnPhase::AwaitingExecution;
                TurnStep {
                    events: Vec::new(),
                    action: TurnAction::Execute {
                        name: self.calls[i].name.clone(),
                        input: json_clone(&self.calls[i].arguments),
                    },
                }
            },
            ToolDecision::RequireConfirmation { reason } => {
                let mut events: Vec<AssistantEvent> = Vec::new();
                events.push(
                    AssistantEvent::ConfirmationRequired {
                        tool: self.calls[i].name.clone(),
                        reason: reason.clone(),
                    },
                );
                self.phase = TurnPhase::AwaitingConfirmation;
                self.pending_reason = reason.clone();
                TurnStep {
                    events,
                    action: TurnAction::Confirm {
                        name: self.calls[i].name.clone(),
                        input: json_clone(&self.calls[i].arguments),
                        reason,
                    },
                }
            },
            ToolDecision::Deny { reason } => {
                let result = ToolResult::err(
                    self.calls[i].id.clone(),
                    self.calls[i].name.clone(),
                    reason,
                );
                self.results.push(result);
                self.next_call = i + 1;
                self.phase = TurnPhase::HandlingCalls;
                self.advance(Vec::new())
            },
        }
    }

    /// The user answered the confirmation request. Only an approval leads
    /// to running the call; a refusal becomes its error result.
    pub fn on_confirmation(&mut self, approved: bool) -> (r: TurnStep)
        requires
            old(self).wf(),
            old(self).phase() == TurnPhase::AwaitingConfirmation,
        ensures
            final(self).wf(),
            final(self).conversation().id == old(self).conversation().id,
            r.action is Execute <==> approved,
            r.events@.len() >= 1,
            r.events@[0] matches AssistantEvent::ConfirmationDecided { tool, approved: a } && tool
                == old(self).current().name && a == approved,
            approved ==> (r.action matches TurnAction::Execute { name, input } && name == old(
                self,
            ).current().name && input == old(self).current().arguments && final(self).phase()
                == TurnPhase::AwaitingExecution && r.events@.len() == 1),
            !approved ==> final(self).results()[old(self).next_call() as int].is_error
                && final(self).results()[old(self).next_call() as int].content == error_object(
                "denied by user"@,
            ) && next_after_calls(old(self).passes(), old(self).max_iterations(), *final(self), r.action)
                && r.events@ == seq![r.events@[0]] + events_after_calls(
                *final(self),
                old(self).next_call() + 1,
                r.action,
            ) && final(self).results()[old(self).next_call() as int].call_id == old(
                self,
            ).current().id && calls_handled(
                *final(self),
                old(self).next_call() + 1 as int,
                old(self).conversation().messages@,
                r.action,
            ),
            approved ==> final(self).conversation() == old(self).conversation()
                && final(self).results() == old(self).results()
                && final(self).next_call() == old(self).next_call(),
            final(self).calls() == old(self).calls(),
            final(self).known_tools() == old(self).known_tools(),
            forall|k: int|
                0 <= k < old(self).results().len() ==> final(self).results()[k] == old(
                    self,
                ).results()[k],
    {
        let i = self.next_call;
        let mut events: Vec<AssistantEvent> = Vec::new();
        events.push(
            AssistantEvent::ConfirmationDecided { tool: self.calls[i].name.clone(), approved },
        );
        if approved {
            self.phase = TurnPhase::AwaitingExecution;
            return TurnStep {
                events,
                action: TurnAction::Execute {
                    name: self.calls[i].name.clone(),
                    input: json_clone(&self.calls[i].arguments),
                },
            };
        }
        assert(i < self.calls.len());
        let result = ToolResult::err(
            self.calls[i].id.clone(),
            self.calls[i].name.clone(),
            "denied by user".to_string(),
        );
        self.results.push(result);
        self.next_call = i + 1;
        self.phase = TurnPhase::HandlingCalls;
        let ghost first = events@[0];
        let step = self.advance(events);
        assert(step.events@[0] == first);
        step
    }

    /// The current call ran with this outcome, which becomes its result.
    pub fn on_executed(&mut self, outcome: Result<serde_json::Value, ToolError>) -> (r: TurnStep)
        requires
            old(self).wf(),
            old(self).phase() == TurnPhase::AwaitingExecution,
        ensures
            final(self).wf(),
            final(self).conversation().id == old(self).conversation().id,
            !(r.action is Execute),
            !(r.action is Confirm),
            r.events@.len() >= 1,
            r.events@[0] matches AssistantEvent::ToolCompleted { name, is_error } && name == old(
                self,
            ).current().name && is_error == (outcome is Err),
            final(self).results()[old(self).next_call() as int].is_error == (outcome is Err),
            final(self).results()[old(self).next_call() as int].call_id == old(self).current().id,
            outcome matches Ok(v) ==> final(self).results()[old(self).next_call() as int].content
                == v,
            outcome matches Err(e) ==> final(self).results()[old(
                self,
            ).next_call() as int].content == error_object(e.message_view()),
            next_after_calls(old(self).passes(), old(self).max_iterations(), *final(self), r.action),
            r.events@ == seq![r.events@[0]] + events_after_calls(
                *final(self),
                old(self).next_call() + 1,
                r.action,
            ),
            calls_handled(
                *final(self),
                old(self).next_call() + 1 as int,
                old(self).conversation().messages@,
                r.action,
            ),
            final(self).calls() == old(self).calls(),
            final(self).known_tools() == old(self).known_tools(),
            forall|k: int|
                0 <= k < old(self).results().len() ==> final(self).results()[k] == old(
                    self,
                ).results()[k],
    {
        let i = self.next_call;
        let mut events: Vec<AssistantEvent> = Vec::new();
        let result = match outcome {
            Ok(value) => {
                events.push(
                    AssistantEvent::ToolCompleted {
                        name: self.calls[i].name.clone(),
                        is_error: false,
                    },
                );
                ToolResult::ok(self.calls[i].id.clone(), self.calls[i].name.clone(), value)
            },
            Err(e) => {
                events.push(
                    AssistantEvent::ToolCompleted { name: self.calls[i].name.clone(), is_error: true },
                );
                ToolResult::err(self.calls[i].id.clone(), self.calls[i].name.clone(), e.message())
            },
        };
        assert(i < self.calls.len());
        self.results.push(result);
        self.next_call = i + 1;
        self.phase = TurnPhase::HandlingCalls;
        let ghost first = events@[0];
        let step = self.advance(events);
        assert(step.events@[0] == first);
        step
    }
}

/// The model used for a request: the configured one, or else the
/// provider's first known model, or else none.
pub fn generation_params(config: &AssistantConfig, provider_models: &Vec<String>) -> (r:
    GenerationParams)
    ensures
        r.model@ == (if config.default_model@.len() != 0 {
            config.default_model@
        } else if provider_models@.len() > 0 {
            provider_models@[0]@
        } else {
            Seq::<char>::empty()
        }),
        r.temperature_bits == config.temperature_bits,
        r.max_tokens == config.max_tokens,
{
    let model = if !config.default_model.as_str().is_empty() {
        config.default_model.clone()
    } else if provider_models.len() > 0 {
        provider_models[0].clone()
    } else {
        String::new()
    };
    GenerationParams { model, temperature_bits: config.temperature_bits, max_tokens: config.max_tokens }
}

/// Collects one streamed provider pass: the text of every chunk, and the
/// tool calls of the chunk that finishes it.
#[derive(Debug)]
pub struct ReplyCollector {
    text: Vec<char>,
    tool_calls: Vec<ToolCall>,
    done: bool,
}

impl ReplyCollector {
    /// Text gathered so far.
    pub closed spec fn text_view(&self) -> Seq<char> {
        self.text@
    }

    /// Tool calls announced by the finishing chunk (none before it).
    pub closed spec fn calls_view(&self) -> Seq<ToolCall> {
        self.tool_calls@
    }

    /// Whether a chunk has finished the pass.
    pub closed spec fn is_done(&self) -> bool {
        self.done
    }

    /// Nothing received yet.
    pub fn new() -> (r: Self)
        ensures
            r.text_view().len() == 0,
            r.calls_view().len() == 0,
            !r.is_done(),
    {
        ReplyCollector { text: Vec::new(), tool_calls: Vec::new(), done: false }
    }

    /// Takes in the next chunk: its text is appended and returned for
    /// forwarding when not empty; a finishing chunk hands over its tool
    /// calls and ends the pass. Chunks after the end change nothing.
    pub fn take(&mut self, chunk: ChatChunk) -> (r: Option<String>)
        ensures
            old(self).is_done() ==> r is None && final(self).text_view() == old(self).text_view()
                && final(self).calls_view() == old(self).calls_view() && final(self).is_done(),
            !old(self).is_done() ==> final(self).text_view() == old(self).text_view() + chunk.delta@
                && (chunk.delta@.len() > 0 ==> (r matches Some(d) && d@ == chunk.delta@))
                && (chunk.delta@.len() == 0 ==> r is None) && final(self).is_done() == chunk.finished
                && (chunk.finished ==> final(self).calls_view() == chunk.tool_calls@)
                && (!chunk.finished ==> final(self).calls_view() == old(self).calls_view()),
    {
        if self.done {
            return None;
        }
        crate::text::push_str(&mut self.text, chunk.delta.as_str());
        let forward = if chunk.delta.as_str().is_empty() {
            None
        } else {
            Some(chunk.delta.clone())
        };
        if chunk.finished {
            self.tool_calls = chunk.tool_calls;
            self.done = true;
        }
        forward
    }

    /// The pass's text and tool calls.
    pub fn finish(self) -> (r: (String, Vec<ToolCall>))
        ensures
            r.0@ == self.text_view(),
            r.1@ == self.calls_view(),
    {
        (crate::text::string_from_chars(&self.text), self.tool_calls)
    }
}

} // verus!
