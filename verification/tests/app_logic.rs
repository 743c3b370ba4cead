use soryos_assistant::conversation::Conversation;
use soryos_assistant::desktop::{
    key_writes, pick_provider, startup_env_entries, wanted_provider, ConfirmSlot, GuiSession,
};
use soryos_assistant::envfile::{
    has_key, lookup_env, parse_env_text, provider_env_vars, reload_plan, rewrite_env_text,
};
use soryos_assistant::memory::{Memory, MemoryCategory};
use soryos_assistant::provider::ProviderStatus;
use soryos_assistant::providers::ProviderKind;
use soryos_assistant::repl::{classify_input, open_index, other_providers, provider_switch, ProviderSwitch, ReplCommand, ReplInput};
use soryos_assistant::sidebar::summarize;
use soryos_assistant::storage::search_memories;
use soryos_assistant::views::ProviderState;

#[test]
fn write_preserves_comments_and_updates() {
    let text = "# comment\nFOO=1\nMISTRAL_API_KEY=old\n";
    let map = parse_env_text(text);
    assert_eq!(lookup_env(&map, "MISTRAL_API_KEY").as_deref(), Some("old"));
    assert_eq!(lookup_env(&map, "FOO").as_deref(), Some("1"));
}

#[test]
fn rewrite_replaces_keeps_and_appends() {
    let text = "# comment\nFOO=1\nMISTRAL_API_KEY=old\n";
    let updated = rewrite_env_text(text, "MISTRAL_API_KEY", "new");
    assert_eq!(updated, "# comment\nFOO=1\nMISTRAL_API_KEY=new\n");
    let appended = rewrite_env_text(text, "GEMINI_API_KEY", "g");
    assert_eq!(appended, "# comment\nFOO=1\nMISTRAL_API_KEY=old\nGEMINI_API_KEY=g\n");
    let removed = rewrite_env_text(text, "FOO", "");
    assert_eq!(removed, "# comment\nMISTRAL_API_KEY=old\n");
    assert_eq!(rewrite_env_text("", "A", ""), "");
}

#[test]
fn env_lines_are_trimmed_and_unquoted() {
    let map = parse_env_text("export KEY = \"v\" \n  # x\nBAD\n=nokey\nQ='s'\n");
    assert_eq!(map.len(), 2);
    assert_eq!(lookup_env(&map, "KEY").as_deref(), Some("v"));
    assert_eq!(lookup_env(&map, "Q").as_deref(), Some("s"));
    assert_eq!(lookup_env(&map, "BAD"), None);
}

#[test]
fn later_entries_win_and_blank_values_are_not_reloaded() {
    let map = parse_env_text("A=1\nB=\nA=2\n");
    assert_eq!(lookup_env(&map, "A").as_deref(), Some("2"));
    let plan = reload_plan(&map);
    assert_eq!(plan, vec![("A".to_string(), "2".to_string())]);
    assert!(has_key(None, &map, "A"));
    assert!(!has_key(None, &map, "B"));
    assert!(has_key(Some("x"), &map, "C"));
    assert!(!has_key(Some("  "), &map, "C"));
}

#[test]
fn provider_variables_are_known() {
    assert_eq!(provider_env_vars("mistral"), Some(("MISTRAL_API_KEY", "MISTRAL_MODEL")));
    assert_eq!(provider_env_vars("mock"), None);
    let writes = key_writes("local", " k ", "", "http://h:1 ");
    assert_eq!(
        writes,
        vec![
            ("LOCAL_AI_API_KEY".to_string(), "k".to_string()),
            ("LOCAL_AI_BASE_URL".to_string(), "http://h:1".to_string()),
        ]
    );
    assert!(key_writes("nope", "k", "m", "b").is_empty());
}

#[test]
fn startup_entries_keep_file_order() {
    let entries = startup_env_entries("A=1\n#c\n B = \"2\" \n");
    assert_eq!(entries, vec![("A".to_string(), "1".to_string()), ("B".to_string(), "2".to_string())]);
}

#[test]
fn repl_lines_are_classified() {
    assert!(matches!(classify_input("   "), ReplInput::Empty));
    assert!(matches!(classify_input(" /quit "), ReplInput::Command(ReplCommand::Quit)));
    match classify_input("/provider  mistral ") {
        ReplInput::Command(ReplCommand::Provider(a)) => assert_eq!(a, "mistral"),
        other => panic!("unexpected: {other:?}"),
    }
    match classify_input("/unknown thing") {
        ReplInput::Message(m) => assert_eq!(m, "/unknown thing"),
        other => panic!("unexpected: {other:?}"),
    }
    match classify_input(" Bonjour ") {
        ReplInput::Message(m) => assert_eq!(m, "Bonjour"),
        other => panic!("unexpected: {other:?}"),
    }
}

#[test]
fn repl_arguments_are_checked() {
    assert_eq!(open_index("1", 3), Some(1));
    assert_eq!(open_index("3", 3), None);
    assert_eq!(open_index("x", 3), None);
    assert_eq!(provider_switch("", None), ProviderSwitch::ShowCurrent);
    assert_eq!(provider_switch("x", None), ProviderSwitch::Unknown);
    assert_eq!(provider_switch("x", Some(ProviderStatus::NotConfigured)), ProviderSwitch::NotConfigured);
    assert_eq!(provider_switch("x", Some(ProviderStatus::Ready)), ProviderSwitch::Activate);
    let names = vec!["mock".to_string(), "mistral".to_string()];
    assert_eq!(other_providers(&names, "mock"), vec!["mistral".to_string()]);
}

#[test]
fn start_provider_prefers_ready_saved_choice() {
    let states = vec![
        ProviderState { name: "mock".to_string(), status: ProviderStatus::Ready, models: vec![] },
        ProviderState { name: "mistral".to_string(), status: ProviderStatus::Ready, models: vec![] },
        ProviderState { name: "gemini".to_string(), status: ProviderStatus::NotConfigured, models: vec![] },
    ];
    assert_eq!(wanted_provider(Some(String::new()), "mistral"), "mistral");
    assert_eq!(wanted_provider(Some("gemini".to_string()), "mistral"), "gemini");
    assert_eq!(pick_provider(" Mistral ", &states, ProviderKind::Mock), ProviderKind::Mistral);
    assert_eq!(pick_provider("gemini", &states, ProviderKind::Mock), ProviderKind::Mock);
    assert_eq!(pick_provider("gemini", &states, ProviderKind::OpenRouter), ProviderKind::OpenRouter);
}

#[test]
fn confirm_slot_keeps_early_clicks() {
    let mut slot = ConfirmSlot::new();
    assert!(!slot.resolve(true));
    assert_eq!(slot.ask(), Some(true));
    assert_eq!(slot.ask(), None);
    assert!(slot.resolve(false));
}

#[test]
fn gui_session_starts_and_sends_greeting() {
    let mut s = GuiSession::new("chat".to_string());
    assert!(s.pending_text.is_none());
    let _ = s.tick(false);
    assert!(s.smoke_done);
    assert_eq!(s.pending_text.as_deref(), Some("Bonjour"));
    s.stop();
    assert!(s.pending_text.is_none());
    assert_eq!(s.status, "Interrompu.");
    assert_eq!(s.current.messages.len(), 1);
}

#[test]
fn memory_search_filters_and_limits() {
    let a = Memory::new("L'utilisateur préfère le français".to_string(), MemoryCategory::Preference, 0.9f32.to_bits());
    let b = Memory::new("Projet SoryOS".to_string(), MemoryCategory::Project, 0.5f32.to_bits());
    let found = search_memories(vec![a.clone(), b.clone()], "FRANÇAIS", 10);
    assert_eq!(found.len(), 1);
    assert_eq!(found[0].id, a.id);
    assert_eq!(search_memories(vec![a.clone(), b.clone()], "", 1).len(), 1);
    assert_eq!(search_memories(vec![a.clone(), b.clone()], "project", 10).len(), 1);
    assert!(search_memories(vec![b], "français", 10).is_empty());
}

#[test]
fn sidebar_lists_most_recent_first() {
    let mut older = Conversation::new("Ancienne".to_string());
    older.updated_at = 1_000_000;
    let mut newer = Conversation::new(String::new());
    newer.updated_at = 2_000_000;
    let rows = summarize(&vec![older.clone(), newer.clone()]);
    assert_eq!(rows.len(), 2);
    assert_eq!(rows[0].id, newer.id);
    assert_eq!(rows[0].title, "(sans titre)");
    assert_eq!(rows[1].title, "Ancienne");
    assert_eq!(rows[1].updated, "01/01 00:00");
}

#[test]
fn env_write_then_read_gives_value_back() {
    let before = "# c\nA=1\nMISTRAL_API_KEY=old\r\nMISTRAL_API_KEY=older";
    let after = rewrite_env_text(before, "MISTRAL_API_KEY", "sk-new");
    assert_eq!(after, "# c\nA=1\nMISTRAL_API_KEY=sk-new\nMISTRAL_API_KEY=sk-new\n");
    let map = parse_env_text(&after);
    assert_eq!(lookup_env(&map, "MISTRAL_API_KEY").as_deref(), Some("sk-new"));
    assert_eq!(lookup_env(&map, "A").as_deref(), Some("1"));
    let removed = parse_env_text(&rewrite_env_text(&after, "MISTRAL_API_KEY", ""));
    assert_eq!(lookup_env(&removed, "MISTRAL_API_KEY"), None);
    assert_eq!(lookup_env(&removed, "A").as_deref(), Some("1"));
}

#[test]
fn unrepresentable_update_times_are_today() {
    assert_eq!(soryos_assistant::sidebar::days_ago(i64::MAX), 0);
    assert_eq!(soryos_assistant::sidebar::days_ago(soryos_assistant::conversation::Conversation::new(String::new()).updated_at), 0);
}

#[test]
fn catalogue_is_fresh_only_after_a_fetch() {
    let mut r = soryos_assistant::openrouter::FreeModelRegistry::new();
    assert!(!r.is_fresh());
    r.replace(vec![]);
    assert!(r.is_fresh());
}

#[test]
fn catalogue_freshness_and_day_counts_follow_their_formulas() {
    assert!(soryos_assistant::openrouter::fresh_after(0));
    assert!(soryos_assistant::openrouter::fresh_after(299));
    assert!(!soryos_assistant::openrouter::fresh_after(300));
    assert!(!soryos_assistant::openrouter::fresh_after(u64::MAX));
    assert_eq!(soryos_assistant::sidebar::day_difference(739_000, 738_990), 10);
    assert_eq!(soryos_assistant::sidebar::day_difference(5, 7), -2);
    assert_eq!(soryos_assistant::sidebar::day_difference(i32::MAX, i32::MIN), (i32::MAX as i64) - (i32::MIN as i64));
}
