use soryos_assistant::assistant::AssistantEvent;
use soryos_assistant::context::ChatContext;
use soryos_assistant::conversation::Conversation;
use soryos_assistant::desktop::{
    active_model_label, bubble_label, call_caption, confirm_prompt, history_placeholder, last_assistant_text,
    mark_active, model_info, panel_defaults, provider_choice_status, provider_lites, reload_outcome,
    saved_key_status, free_model_title, provider_panel, side_panel_models, GuiSession, PendingConfirm,
};
use soryos_assistant::envfile::env_path;
use soryos_assistant::error::AssistantError;
use soryos_assistant::message::{ChatMessage, MessageRole, ToolCall};
use soryos_assistant::mock::MockProvider;
use soryos_assistant::permissions::{ActionKind, PermissionLevel};
use soryos_assistant::policy::{truncate_input, SecurityPolicy};
use soryos_assistant::provider::{ChatRequest, GenerationParams, ProviderStatus};
use soryos_assistant::tool::ToolError;
use soryos_assistant::ui::ConversationSummary;
use soryos_assistant::views::{format_message, provider_rows, ProviderState};
use soryos_assistant::voice::{VoiceError, VoiceState};

fn json(text: &str) -> serde_json::Value {
    serde_json::from_str(text).unwrap()
}

fn states() -> Vec<ProviderState> {
    vec![
        ProviderState { name: "mock".to_string(), status: ProviderStatus::Ready, models: vec!["mock-1".to_string()] },
        ProviderState { name: "gemini".to_string(), status: ProviderStatus::NotConfigured, models: vec![] },
    ]
}

#[test]
fn labels_and_captions() {
    assert_eq!(model_info("openai/gpt-oss-20b:free"), "OpenAI · gratuit");
    assert_eq!(model_info("meta-llama/llama-3"), "Meta · gratuit");
    assert_eq!(model_info("something"), "modèle gratuit");
    assert_eq!(active_model_label("openrouter", "openrouter/free"), "Automatic — Free");
    assert_eq!(active_model_label("mistral", ""), "modèle par défaut");
    assert_eq!(active_model_label("mistral", "small"), "small");
    assert_eq!(bubble_label(MessageRole::User), "Vous");
    assert_eq!(bubble_label(MessageRole::Assistant), "SoryOS");
    let call = ToolCall::new("c".to_string(), "read_file".to_string(), json(r#"{"path":"/x"}"#));
    assert_eq!(call_caption(&call), r#"outil: read_file {"path":"/x"}"#);
    assert_eq!(history_placeholder("  "), "Aucune conversation.");
    assert_eq!(history_placeholder("x"), "Aucun résultat.");
    assert_eq!(confirm_prompt("run_shell"), "L'assistant veut exécuter « run_shell ».");
}

#[test]
fn provider_rows_mark_the_active_one() {
    let mut rows = provider_lites(&states(), "mock");
    assert_eq!(rows.len(), 2);
    assert!(rows[0].active && !rows[1].active);
    assert_eq!(rows[1].status, "Not configured");
    mark_active(&mut rows, "gemini");
    assert!(!rows[0].active && rows[1].active);
    let plain = provider_rows(&states());
    assert_eq!(plain[0].name, "mock");
    assert_eq!(plain[0].status, "Connected");
    assert_eq!(plain[0].models, vec!["mock-1".to_string()]);
}

#[test]
fn panel_opens_with_stored_or_active_settings() {
    let stored = vec![("LOCAL_AI_MODEL".to_string(), "llama3".to_string()), ("MISTRAL_MODEL".to_string(), "large".to_string())];
    assert_eq!(panel_defaults("local", &stored, "mock", ""), ("llama3".to_string(), "http://localhost:11434/v1".to_string()));
    assert_eq!(panel_defaults("mistral", &stored, "mock", ""), ("large".to_string(), String::new()));
    assert_eq!(panel_defaults("mistral", &stored, "mistral", "tiny"), ("tiny".to_string(), String::new()));
    assert_eq!(panel_defaults("gemini", &vec![], "mock", ""), (String::new(), String::new()));
}

#[test]
fn status_lines_after_saving_and_reloading() {
    assert_eq!(saved_key_status("gemini", true), "« gemini » configuré.");
    assert_eq!(saved_key_status("gemini", false), "Clé enregistrée, « gemini » indisponible.");
    assert_eq!(provider_choice_status("mistral", true), "Provider actif : mistral");
    assert_eq!(provider_choice_status("mistral", false), "« mistral » non configuré.");
    assert_eq!(reload_outcome(3, "mock", false, "mistral"), (Some("mistral".to_string()), "Clés rechargées (3). Provider : mistral.".to_string()));
    assert_eq!(reload_outcome(0, "mistral", true, "gemini"), (None, "Clés rechargées (0).".to_string()));
}

#[test]
fn last_assistant_message_is_read_aloud() {
    let msgs = vec![
        ChatMessage::user("a".to_string()),
        ChatMessage::assistant("réponse".to_string()),
        ChatMessage::user("b".to_string()),
    ];
    assert_eq!(last_assistant_text(&msgs), "réponse");
    assert_eq!(last_assistant_text(&vec![]), "");
}

#[test]
fn session_tracks_turn_events() {
    let mut s = GuiSession::new("chat".to_string());
    s.input_changed("Salut".to_string());
    assert_eq!(s.send().as_deref(), Some("Salut"));
    s.core_event(AssistantEvent::TextChunk("Bon".to_string()));
    s.core_event(AssistantEvent::ToolRequested { name: "system_info".to_string(), input: json("{}") });
    assert_eq!(s.status, "Outil : system_info");
    s.core_event(AssistantEvent::ConfirmationRequired { tool: "run_shell".to_string(), reason: "r".to_string() });
    assert!(matches!(&s.pending_confirm, Some(PendingConfirm { tool, .. }) if tool == "run_shell"));
    s.confirm_clicked();
    assert!(s.pending_confirm.is_none());
    s.core_event(AssistantEvent::ConfirmationDecided { tool: "run_shell".to_string(), approved: false });
    assert_eq!(s.status, "run_shell refusé");
    s.core_event(AssistantEvent::ToolCompleted { name: "system_info".to_string(), is_error: true });
    assert_eq!(s.status, "system_info erreur");
    let mut conv = Conversation::new("t".to_string());
    conv.push(ChatMessage::user("Salut".to_string()));
    conv.push(ChatMessage::assistant("Bonjour".to_string()));
    s.turn_finished(conv.clone(), Ok("Bonjour".to_string()));
    assert!(s.pending_text.is_none());
    assert_eq!(s.status, "");
    assert_eq!(s.current.messages.len(), 2);
    assert!(!s.ui.state().chat.generating);
}

#[test]
fn session_panels_and_models() {
    let mut s = GuiSession::new("chat".to_string());
    assert!(s.toggle_provider_panel("local".to_string(), ("m".to_string(), "u".to_string())));
    assert_eq!(s.expanded_provider.as_deref(), Some("local"));
    assert_eq!(s.provider_model_input, "m");
    assert!(!s.toggle_provider_panel("local".to_string(), (String::new(), String::new())));
    assert!(s.expanded_provider.is_none());
    s.models_requested("mistral".to_string());
    assert_eq!(s.models_loading.as_deref(), Some("mistral"));
    s.models_loaded(Some("HTTP 401".to_string()));
    assert!(s.models_loading.is_none());
    assert_eq!(s.models_error.as_deref(), Some("HTTP 401"));
    s.use_model("small".to_string(), None);
    assert_eq!(s.status, "Modèle actif : small");
    s.use_model("big".to_string(), Some("denied".to_string()));
    assert_eq!(s.status, "Modèle actif : big (.denied)");
}

#[test]
fn session_conversations_and_voice() {
    let mut s = GuiSession::new("chat".to_string());
    let mut c = Conversation::new("Ancienne".to_string());
    c.push(ChatMessage::user("x".to_string()));
    let id = c.id;
    s.conversation_loaded(Ok(c));
    assert_eq!(s.current.id, id);
    assert_eq!(s.ui.state().chat.messages.len(), 1);
    s.conversation_loaded(Err("absent".to_string()));
    assert_eq!(s.status, "Erreur : absent");
    s.sidebar_loaded(vec![ConversationSummary {
        id,
        title: "Ancienne".to_string(),
        updated: String::new(),
        updated_days_ago: 0,
    }]);
    assert_eq!(s.ui.state().conversations.len(), 1);
    s.conversation_deleted(id);
    assert_ne!(s.current.id, id);
    assert!(s.current.messages.is_empty());
    assert_eq!(s.current.title, "Nouvelle conversation");
    assert!(s.ui.state().active_id.is_none());
    assert_eq!(s.voice_pressed(String::new()), None);
    assert_eq!(s.status, "Rien à lire.");
    assert_eq!(s.voice_pressed("Bonjour".to_string()).as_deref(), Some("Bonjour"));
    assert_eq!(s.ui.state().voice, VoiceState::Speaking);
    s.voice_done(1024);
    assert_eq!(s.status, "TTS : 1024 octets.");
    assert_eq!(s.ui.state().voice, VoiceState::Idle);
    s.new_chat();
    assert!(s.current.messages.is_empty());
}

#[test]
fn policy_fields_come_from_the_input() {
    let p = SecurityPolicy::default();
    assert_eq!(p.classify("run_shell", &json(r#"{"command": "rm -rf /"}"#)), PermissionLevel::Restricted);
    assert_eq!(p.classify("read_file", &json("{}")), PermissionLevel::ReadOnly);
    let mut sandboxed = SecurityPolicy::default();
    sandboxed.filesystem_sandbox = "/home/u".to_string();
    assert!(sandboxed.check_sandbox(&json(r#"{"path": "/etc/passwd"}"#)).is_some());
    assert!(sandboxed.check_sandbox(&json(r#"{"path": "/home/u/a"}"#)).is_none());
    assert!(matches!(ActionKind::classify("delete_file", &json("{}")), ActionKind::Delete));
    assert_eq!(truncate_input(&json(r#"{"a":1}"#)).as_deref(), Some(r#"{"a":1}"#));
    let long = format!("\"{}\"", "x".repeat(300));
    assert_eq!(truncate_input(&json(&long)).unwrap().len(), 160 + 3);
}

#[test]
fn errors_carry_their_source_text() {
    match AssistantError::from_tool(&ToolError::Execution("boom".to_string())) {
        AssistantError::Tool(m) => assert_eq!(m, "execution failed: boom"),
        other => panic!("unexpected: {other:?}"),
    }
    match AssistantError::from_voice(&VoiceError::Io("mic".to_string())) {
        AssistantError::Voice(m) => assert_eq!(m, "audio io error: mic"),
        other => panic!("unexpected: {other:?}"),
    }
}

#[test]
fn mock_response_can_be_changed() {
    let mut p = MockProvider::new();
    p.set_response("Fixe".to_string());
    let req = ChatRequest::new(vec![ChatMessage::user("hi".to_string())], GenerationParams::default());
    assert_eq!(p.complete(&req).unwrap().content, "Fixe");
}

#[test]
fn context_knows_which_roles_it_holds() {
    let history = vec![ChatMessage::user("a".to_string()), ChatMessage::assistant("b".to_string())];
    let ctx = ChatContext::build("prompt", vec![], &history, 10);
    assert!(ctx.contains_role(MessageRole::User));
    assert!(!ctx.contains_role(MessageRole::Tool));
    assert_eq!(env_path(), std::path::PathBuf::from(".env"));
}

#[test]
fn messages_render_with_their_calls() {
    let call = ToolCall::new("c".to_string(), "system_info".to_string(), json("{}"));
    let m = ChatMessage::assistant_with_tools("Je regarde".to_string(), vec![call]);
    assert_eq!(format_message(&m), "🤖 Assistant:\nJe regarde\n  ⚙️ system_info {}");
}

#[test]
fn side_panel_lists_eight_free_models_without_the_router() {
    let mut ids: Vec<String> = vec!["openrouter/free".to_string()];
    for k in 0..10 {
        ids.push(format!("vendor/model-{k}:free"));
    }
    let shown = side_panel_models(&ids);
    assert_eq!(shown.len(), 8);
    assert_eq!(shown[0], "vendor/model-0:free");
    assert_eq!(shown[7], "vendor/model-7:free");
    assert_eq!(free_model_title("meta-llama/llama-3.3-70b:free"), "llama-3.3-70b:free (free)");
    assert_eq!(free_model_title("plain"), "plain (free)");
}

#[test]
fn provider_panels_show_their_captions() {
    let demo = provider_panel("mock", false, false, None);
    assert!(demo.demo_only);
    assert_eq!(demo.captions, vec!["Mode démo.".to_string()]);
    let or = provider_panel("openrouter", true, false, Some(12));
    assert!(!or.demo_only);
    assert_eq!(
        or.captions,
        vec![
            "Free only : seuls les modèles gratuits seront utilisés.".to_string(),
            "Clé API : enregistrée".to_string()
        ]
    );
    assert_eq!(or.key_placeholder, "Coller la clé API…");
    assert_eq!(or.key_toggle, "voir");
    assert_eq!(or.model_placeholder, "openrouter/free");
    assert_eq!(or.catalogue_caption.as_deref(), Some("12 modèles gratuits"));
    let local = provider_panel("local", false, true, Some(3));
    assert_eq!(local.captions, vec!["Clé API : absente".to_string()]);
    assert!(local.base_url_field);
    assert_eq!(local.key_placeholder, "sk-…");
    assert_eq!(local.key_toggle, "masquer");
    assert_eq!(local.model_placeholder, "modèle (optionnel)");
    assert_eq!(local.catalogue_caption, None);
}
