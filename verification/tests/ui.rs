use soryos_assistant::message::ChatMessage;
use soryos_assistant::ui::{App, AppState, ChatView, ConversationSummary, Effect, UiEvent};
use soryos_assistant::views::{group_history, render_snapshot};
use soryos_assistant::voice::{can_transition, status_line, VoiceState};
use soryos_assistant::conversation::ConversationId;

#[test]
fn idle_to_listening_is_allowed() {
    assert!(can_transition(VoiceState::Idle, VoiceState::Listening));
    assert!(!can_transition(VoiceState::Idle, VoiceState::Speaking));
}

#[test]
fn any_state_may_fail_and_errors_recover() {
    assert!(can_transition(VoiceState::Speaking, VoiceState::Error));
    assert!(can_transition(VoiceState::Error, VoiceState::Idle));
    assert!(!can_transition(VoiceState::Error, VoiceState::Speaking));
}

#[test]
fn voice_status_line_names_the_state() {
    assert!(status_line(VoiceState::Listening).contains("Listening"));
}

#[test]
fn send_message_clears_input_and_starts_generation() {
    let mut app = App::new();
    app.update(UiEvent::InputChanged("Bonjour".to_string()));
    let fx = app.update(UiEvent::SendMessage);
    assert_eq!(fx, Effect::SendToAssistant("Bonjour".to_string()));
    assert!(app.state().chat.generating);
    assert!(app.state().input.is_empty());
}

#[test]
fn streaming_accumulates_then_commits() {
    let mut app = App::new();
    app.update(UiEvent::InputChanged("hi".to_string()));
    app.update(UiEvent::SendMessage);
    app.update(UiEvent::StreamChunk("Bon".to_string()));
    app.update(UiEvent::StreamChunk("jour".to_string()));
    assert_eq!(app.state().chat.streaming_text, "Bonjour");
    app.update(UiEvent::StreamDone { content: "Bonjour".to_string() });
    assert!(!app.state().chat.generating);
    assert_eq!(app.state().chat.messages.len(), 2);
}

#[test]
fn voice_toggle_cycles_listening() {
    let mut app = App::new();
    assert_eq!(app.update(UiEvent::ToggleVoice), Effect::StartListening);
    assert_eq!(app.update(UiEvent::ToggleVoice), Effect::StopVoice);
}

#[test]
fn sending_while_generating_is_refused() {
    let mut app = App::new();
    app.update(UiEvent::InputChanged("un".to_string()));
    app.update(UiEvent::SendMessage);
    app.update(UiEvent::InputChanged("deux".to_string()));
    assert_eq!(app.update(UiEvent::SendMessage), Effect::NoEffect);
}

#[test]
fn snapshot_contains_messages() {
    let mut state = AppState::default();
    let mut chat = ChatView::default();
    chat.messages = vec![ChatMessage::user("hello".to_string())];
    state.chat = chat;
    let snap = render_snapshot(&state);
    assert!(snap.contains("hello"));
}

fn row(title: &str, days: i64) -> ConversationSummary {
    ConversationSummary {
        id: ConversationId::new(),
        title: title.to_string(),
        updated: String::new(),
        updated_days_ago: days,
    }
}

#[test]
fn groups_by_recency_and_filters() {
    let rows = vec![row("aujourd'hui", 0), row("hier", 1), row("vieux sujet", 30)];
    let groups = group_history(&rows, "");
    assert_eq!(groups.len(), 3);
    assert_eq!(groups[0].label, "Aujourd'hui");
    let filtered = group_history(&rows, "vieux");
    assert_eq!(filtered.len(), 1);
    assert_eq!(filtered[0].items[0].title, "vieux sujet");
}

#[test]
fn last_week_rows_share_a_section() {
    let rows = vec![row("a", 2), row("b", 7), row("c", 8)];
    let groups = group_history(&rows, "  ");
    assert_eq!(groups.len(), 2);
    assert_eq!(groups[0].label, "7 derniers jours");
    assert_eq!(groups[0].items.len(), 2);
    assert_eq!(groups[1].label, "Plus ancien");
}
