use soryos_assistant::text::parse_unsigned_text;
use soryos_assistant::config::{default_provider, AppConfig};
use soryos_assistant::context::ChatContext;
use soryos_assistant::conversation::Conversation;
use soryos_assistant::memory::{parse_category, Memory, MemoryCategory};
use soryos_assistant::message::{ChatMessage, MessageRole, ToolResult};

#[test]
fn defaults_select_mock_provider() {
    let cfg = AppConfig::default();
    assert_eq!(cfg.assistant.default_provider, "mock");
    assert_eq!(default_provider(), "mock");
}

#[test]
fn window_keeps_only_recent_messages() {
    let history: Vec<ChatMessage> = (0..10).map(|i| ChatMessage::user(format!("message {i}"))).collect();
    let ctx = ChatContext::build("sys", vec![], &history, 4);
    assert_eq!(ctx.window.len(), 4);
    assert_eq!(ctx.window[0].content, "message 6");
    let flat = ctx.into_messages();
    assert_eq!(flat[0].role, MessageRole::System);
    assert_eq!(flat.len(), 5);
}

#[test]
fn conversation_tracks_user_turns_and_title() {
    let mut c = Conversation::new("Nouvelle conversation".to_string());
    c.push(ChatMessage::user("Bonjour, qui es-tu ?".to_string()));
    c.push(ChatMessage::assistant("Je suis SoryOS AI.".to_string()));
    assert_eq!(c.user_turns(), 1);
    c.derive_title();
    assert_eq!(c.title, "Bonjour, qui es-tu ?");
}

#[test]
fn importance_is_clamped() {
    let m = Memory::new("x".to_string(), MemoryCategory::Fact, 5.0f32.to_bits());
    assert_eq!(f32::from_bits(m.importance_bits), 1.0);
    let low = Memory::new("y".to_string(), MemoryCategory::Fact, (-2.0f32).to_bits());
    assert_eq!(f32::from_bits(low.importance_bits), 0.0);
}

#[test]
fn tool_result_message_references_call_id() {
    let ok: serde_json::Value = serde_json::from_str(r#"{"ok": true}"#).unwrap();
    let r = ToolResult::ok("call-1".to_string(), "read_file".to_string(), ok);
    let m = ChatMessage::tool_result(&r);
    assert_eq!(m.role, MessageRole::Tool);
    assert_eq!(m.tool_call_id.as_deref(), Some("call-1"));
}

#[test]
fn error_results_carry_the_message_object() {
    let r = ToolResult::err("c".to_string(), "t".to_string(), "denied by user".to_string());
    assert!(r.is_error);
    assert_eq!(r.content.to_string(), r#"{"error":"denied by user"}"#);
}

#[test]
fn memory_categories_round_trip_through_labels() {
    for c in [MemoryCategory::Preference, MemoryCategory::Fact, MemoryCategory::Project, MemoryCategory::Other("x".to_string())] {
        assert_eq!(parse_category(&c.label()).label(), c.label());
    }
}

#[test]
fn unsigned_numbers_read_as_str_parse_does() {
    for (text, max) in [("42", 65535u64), ("+42", 65535), ("0065535", 65535), ("65536", 65535), ("", 65535),
        ("+", 65535), ("-1", 65535), (" 1", 65535), ("1a", 65535), ("18446744073709551615", u64::MAX),
        ("18446744073709551616", u64::MAX), ("99999999999999999999999", u64::MAX)]
    {
        let expected = text.parse::<u64>().ok().filter(|v| *v <= max);
        assert_eq!(parse_unsigned_text(text, max), expected, "text {text:?}");
    }
    assert_eq!(soryos_assistant::providers::local_endpoint("http://h:+8080/"), Some(("h".to_string(), 8080)));
    assert_eq!(soryos_assistant::providers::local_endpoint("http://h:70000/"), Some(("h".to_string(), 80)));
}
