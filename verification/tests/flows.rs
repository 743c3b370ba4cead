use soryos_assistant::assistant::{generation_params, AssistantEvent, ReplyCollector, TurnAction, TurnDriver};
use soryos_assistant::config::AssistantConfig;
use soryos_assistant::context::ChatContext;
use soryos_assistant::conversation::Conversation;
use soryos_assistant::error::AssistantError;
use soryos_assistant::message::{ChatMessage, MessageRole};
use soryos_assistant::mock::MockProvider;
use soryos_assistant::policy::SecurityPolicy;
use soryos_assistant::provider::{ChatRequest, ChatResponse, GenerationParams};
use soryos_assistant::tool::ToolDecision;
use soryos_assistant::tools::{system_info_output, BuiltinTool};

/// Runs one turn against the mock provider with only `system_info`
/// registered, the way the application loop does.
fn run_turn(
    provider: &MockProvider,
    gate: &dyn Fn(&str, &serde_json::Value) -> ToolDecision,
    approve: bool,
    conversation: Conversation,
    user_text: &str,
    events: &mut Vec<AssistantEvent>,
) -> (Conversation, Result<ChatResponse, AssistantError>) {
    let config = AssistantConfig::default();
    let known = vec![BuiltinTool::SystemInfo.name().to_string()];
    let (mut driver, mut step) =
        TurnDriver::start(conversation, user_text.to_string(), known, config.max_tool_iterations);
    loop {
        events.extend(step.events);
        step = match step.action {
            TurnAction::QueryProvider => {
                let ctx = ChatContext::build(
                    &config.system_prompt,
                    vec![],
                    &driver.conversation_ref().messages,
                    config.max_history,
                );
                let params = generation_params(&config, &provider.models());
                let model = params.model.clone();
                let request = ChatRequest::new(ctx.into_messages(), params)
                    .with_tools(vec![BuiltinTool::SystemInfo.schema()]);
                let chunks = provider.stream(&request).unwrap();
                let mut collector = ReplyCollector::new();
                for chunk in chunks {
                    if let Some(delta) = collector.take(chunk) {
                        events.push(AssistantEvent::TextChunk(delta));
                    }
                }
                let (text, calls) = collector.finish();
                driver.on_reply(text, calls, model)
            }
            TurnAction::Authorize { name, input } => driver.on_decision(gate(&name, &input)),
            TurnAction::Confirm { .. } => driver.on_confirmation(approve),
            TurnAction::Execute { .. } => driver.on_executed(Ok(system_info_output(
                "linux",
                "x86_64",
                "unix",
                None,
                "0".to_string(),
                None,
            ))),
            TurnAction::Finish(result) => return (driver.into_conversation(), result),
        };
    }
}

fn policy_gate(policy: SecurityPolicy) -> impl Fn(&str, &serde_json::Value) -> ToolDecision {
    move |tool: &str, input: &serde_json::Value| policy.authorize(tool, input).unwrap()
}

#[test]
fn demo_greeting_flow() {
    let gate = policy_gate(SecurityPolicy::permissive_for_tests());
    let conv = Conversation::new("Nouvelle conversation".to_string());
    let mut events = vec![];
    let (conv, reply) = run_turn(&MockProvider::new(), &gate, true, conv, "Bonjour", &mut events);
    assert!(!reply.unwrap().content.is_empty());
    assert_eq!(conv.messages.len(), 2);
    assert_eq!(conv.messages[0].role, MessageRole::User);
    assert_eq!(conv.messages[0].content, "Bonjour");
    assert_eq!(conv.messages[1].role, MessageRole::Assistant);
    assert_eq!(conv.title, "Bonjour");
}

#[test]
fn tool_loop_runs_through_security_gate() {
    let gate = policy_gate(SecurityPolicy::default());
    let conv = Conversation::new("Nouvelle conversation".to_string());
    let mut events = vec![];
    let (conv, reply) = run_turn(
        &MockProvider::new(),
        &gate,
        true,
        conv,
        "Quelle heure est-il ? [use-tool]",
        &mut events,
    );
    let reply = reply.unwrap().content;
    assert!(reply.contains("outil") || reply.contains("résultat"), "unexpected reply: {reply}");
    assert!(conv.messages.len() >= 4);
}

#[test]
fn denied_tool_yields_error_result_not_execution() {
    let deny = |_tool: &str, _input: &serde_json::Value| ToolDecision::Deny { reason: "test policy".to_string() };
    let conv = Conversation::new("Nouvelle conversation".to_string());
    let mut events = vec![];
    let (conv, reply) = run_turn(&MockProvider::new(), &deny, false, conv, "système [use-tool]", &mut events);
    let reply = reply.unwrap().content;
    assert!(reply.contains("test policy"), "unexpected reply: {reply}");
    assert!(!events.iter().any(|e| matches!(e, AssistantEvent::ToolCompleted { .. })));
}

#[test]
fn user_message_yields_assistant_reply() {
    let allow = |_tool: &str, _input: &serde_json::Value| ToolDecision::Allow;
    let conv = Conversation::new("Nouvelle conversation".to_string());
    let mut events = vec![];
    let (conv, reply) = run_turn(&MockProvider::new(), &allow, true, conv, "Bonjour", &mut events);
    assert!(!reply.unwrap().content.is_empty());
    assert_eq!(conv.messages.len(), 2);
}

#[test]
fn full_turn_emits_streaming_events() {
    let allow = |_tool: &str, _input: &serde_json::Value| ToolDecision::Allow;
    let conv = Conversation::new("Nouvelle conversation".to_string());
    let mut events = vec![];
    let (_conv, reply) = run_turn(&MockProvider::new(), &allow, true, conv, "Bonjour", &mut events);
    reply.unwrap();
    let chunks = events.iter().filter(|e| matches!(e, AssistantEvent::TextChunk(_))).count();
    let done = events.iter().filter(|e| matches!(e, AssistantEvent::Done(_))).count();
    assert!(chunks > 0);
    assert_eq!(done, 1);
    assert!(matches!(events.last(), Some(AssistantEvent::Done(_))));
}

#[test]
fn mock_answers_without_api_key() {
    let p = MockProvider::with_response("Bonjour !".to_string());
    let mut params = GenerationParams::default();
    params.model = "mock-1".to_string();
    let req = ChatRequest::new(vec![ChatMessage::user("Bonjour".to_string())], params);
    let resp = p.complete(&req).unwrap();
    assert_eq!(resp.content, "Bonjour !");
}

#[test]
fn mock_streams_chunks_then_finishes() {
    let p = MockProvider::with_response("Bonjour !".to_string());
    let req = ChatRequest::new(vec![ChatMessage::user("hi".to_string())], GenerationParams::default());
    let chunks = p.stream(&req).unwrap();
    let mut text = String::new();
    let mut finished = false;
    for chunk in chunks {
        text.push_str(&chunk.delta);
        finished = chunk.finished;
    }
    assert!(finished);
    assert_eq!(text, "Bonjour !");
}

#[test]
fn confirmation_refused_records_denial() {
    let ask = |_tool: &str, _input: &serde_json::Value| ToolDecision::RequireConfirmation {
        reason: "please confirm".to_string(),
    };
    let conv = Conversation::new("Nouvelle conversation".to_string());
    let mut events = vec![];
    let (conv, reply) = run_turn(&MockProvider::new(), &ask, false, conv, "outil [use-tool]", &mut events);
    let reply = reply.unwrap().content;
    assert!(reply.contains("denied by user"), "unexpected reply: {reply}");
    assert!(events.iter().any(|e| matches!(e, AssistantEvent::ConfirmationDecided { approved: false, .. })));
    let tool_msgs = conv.messages.iter().filter(|m| m.role == MessageRole::Tool).count();
    assert_eq!(tool_msgs, 1);
}

#[test]
fn unknown_tool_gets_error_result() {
    let config = AssistantConfig::default();
    let conv = Conversation::new("t".to_string());
    let (mut driver, _step) = TurnDriver::start(conv, "x".to_string(), vec![], config.max_tool_iterations);
    let call = soryos_assistant::message::ToolCall::new(
        "c1".to_string(),
        "nope".to_string(),
        serde_json::Value::Null,
    );
    let step = driver.on_reply(String::new(), vec![call], "m".to_string());
    assert!(matches!(step.action, TurnAction::QueryProvider));
    let conv = driver.into_conversation();
    let last = conv.messages.last().unwrap();
    assert_eq!(last.role, MessageRole::Tool);
    assert!(last.content.contains("unknown tool"));
}

#[test]
fn tool_turn_events_come_in_order() {
    let allow = |_tool: &str, _input: &serde_json::Value| ToolDecision::Allow;
    let conv = Conversation::new("t".to_string());
    let mut events = vec![];
    let (conv, reply) = run_turn(&MockProvider::new(), &allow, true, conv, "heure ? [use-tool]", &mut events);
    reply.unwrap();
    let kinds: Vec<&str> = events
        .iter()
        .map(|e| match e {
            AssistantEvent::TextChunk(_) => "text",
            AssistantEvent::ToolRequested { .. } => "requested",
            AssistantEvent::ConfirmationRequired { .. } => "ask",
            AssistantEvent::ConfirmationDecided { .. } => "decided",
            AssistantEvent::ToolCompleted { .. } => "completed",
            AssistantEvent::Done(_) => "done",
        })
        .filter(|k| *k != "text")
        .collect();
    assert_eq!(kinds, vec!["requested", "completed", "done"]);
    let roles: Vec<MessageRole> = conv.messages.iter().map(|m| m.role).collect();
    assert_eq!(roles, vec![MessageRole::User, MessageRole::Assistant, MessageRole::Tool, MessageRole::Assistant]);
}

#[test]
fn every_call_result_joins_the_conversation_in_call_order() {
    let conv = Conversation::new("t".to_string());
    let (mut driver, _step) =
        TurnDriver::start(conv, "x".to_string(), vec!["system_info".to_string()], 3);
    let unknown = soryos_assistant::message::ToolCall::new(
        "c1".to_string(),
        "nope".to_string(),
        serde_json::Value::Null,
    );
    let known = soryos_assistant::message::ToolCall::new(
        "c2".to_string(),
        "system_info".to_string(),
        serde_json::Value::Null,
    );
    let step = driver.on_reply("thinking".to_string(), vec![unknown, known], "m".to_string());
    match step.action {
        TurnAction::Authorize { name, .. } => assert_eq!(name, "system_info"),
        other => panic!("unexpected: {other:?}"),
    }
    assert_eq!(driver.conversation_ref().messages.len(), 2);
    let step = driver.on_decision(ToolDecision::Allow);
    assert!(matches!(step.action, TurnAction::Execute { .. }));
    let step = driver.on_executed(Ok(serde_json::Value::String("ok".to_string())));
    assert!(matches!(step.action, TurnAction::QueryProvider));
    let conv = driver.into_conversation();
    assert_eq!(conv.messages.len(), 4);
    assert_eq!(conv.messages[2].role, MessageRole::Tool);
    assert_eq!(conv.messages[2].tool_call_id.as_deref(), Some("c1"));
    assert_eq!(conv.messages[2].content, r#"{"error":"unknown tool"}"#);
    assert_eq!(conv.messages[3].tool_call_id.as_deref(), Some("c2"));
    assert_eq!(conv.messages[3].content, r#""ok""#);
}
