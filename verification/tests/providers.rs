use soryos_assistant::mock::MockProvider;
use soryos_assistant::provider::ProviderStatus;
use soryos_assistant::providers::{
    default_provider_kind, local_endpoint, local_from_env, mistral_from_env, ollama_model_names,
    ollama_tags_url, openrouter_config, prefer_listed_models, all_provider_states, ProviderEnv,
    ProviderKind, ProviderRegistry,
};

fn empty_env() -> ProviderEnv {
    ProviderEnv {
        soryos_provider: None,
        openrouter_api_key: None,
        openrouter_model: None,
        openrouter_base_url: None,
        mistral_api_key: None,
        mistral_model: None,
        mistral_base_url: None,
        gemini_api_key: None,
        gemini_model: None,
        local_base_url: None,
        local_model: None,
        local_api_key: None,
    }
}

#[test]
fn registry_tracks_default() {
    let mut r: ProviderRegistry<MockProvider> = ProviderRegistry::new();
    let mock = MockProvider::new();
    r.register(mock.name().to_string(), mock);
    assert_eq!(r.default_name(), Some("mock"));
    assert!(r.set_default("mock"));
    assert!(!r.set_default("nope"));
    assert_eq!(r.names(), vec!["mock".to_string()]);
}

#[test]
fn registry_replaces_and_sorts() {
    let mut r: ProviderRegistry<u32> = ProviderRegistry::new();
    r.register("zeta".to_string(), 1);
    r.register("alpha".to_string(), 2);
    r.register("zeta".to_string(), 3);
    assert_eq!(r.len(), 2);
    assert_eq!(r.get("zeta"), Some(&3));
    assert_eq!(r.names(), vec!["alpha".to_string(), "zeta".to_string()]);
    assert_eq!(r.default_name(), Some("zeta"));
    assert_eq!(r.default_provider(), Some(&3));
}

#[test]
fn kinds_parse_names_and_aliases() {
    assert_eq!(ProviderKind::parse(" Google "), Some(ProviderKind::Gemini));
    assert_eq!(ProviderKind::parse("OLLAMA"), Some(ProviderKind::Local));
    assert_eq!(ProviderKind::parse("demo"), Some(ProviderKind::Mock));
    assert_eq!(ProviderKind::parse("nope"), None);
    let names: Vec<&str> = ProviderKind::all().into_iter().map(|k| k.name()).collect();
    assert_eq!(names, vec!["openrouter", "mistral", "gemini", "local", "mock"]);
}

#[test]
fn all_providers_report_status_without_panic() {
    let states = all_provider_states(&empty_env());
    assert_eq!(states.len(), 5);
    assert_eq!(states[0].status, ProviderStatus::NotConfigured);
    assert_eq!(states[3].status, ProviderStatus::Ready);
    assert_eq!(states[4].models, vec!["mock-1".to_string()]);
}

#[test]
fn default_provider_prefers_configured_keys() {
    let mut env = empty_env();
    assert_eq!(default_provider_kind(&env, false), ProviderKind::Mock);
    assert_eq!(default_provider_kind(&env, true), ProviderKind::Local);
    env.mistral_api_key = Some("k".to_string());
    assert_eq!(default_provider_kind(&env, true), ProviderKind::Mistral);
    env.soryos_provider = Some("gemini".to_string());
    assert_eq!(default_provider_kind(&env, true), ProviderKind::Mistral);
    env.soryos_provider = Some("local".to_string());
    assert_eq!(default_provider_kind(&env, false), ProviderKind::Local);
}

#[test]
fn env_configs_use_documented_defaults() {
    let env = empty_env();
    let mistral = mistral_from_env(&env);
    assert_eq!(mistral.default_model, "mistral-small-latest");
    assert_eq!(mistral.base_url, "https://api.mistral.ai/v1");
    let local = local_from_env(&env);
    assert_eq!(local.api_key, "ollama");
    assert_eq!(local.timeout_secs, 120);
    let or = openrouter_config(&env, String::new(), String::new());
    assert_eq!(or.default_model, "openrouter/free");
    assert_eq!(or.extra_headers[1].0, "X-Title");
}

#[test]
fn local_endpoint_reads_host_and_port() {
    assert_eq!(local_endpoint("http://localhost:11434/v1"), Some(("localhost".to_string(), 11434)));
    assert_eq!(local_endpoint("http://example.org/v1"), Some(("example.org".to_string(), 80)));
    assert_eq!(local_endpoint("http://host:notaport/"), Some(("host".to_string(), 80)));
    assert_eq!(local_endpoint("http:///v1"), None);
}

#[test]
fn ollama_tags_live_above_v1() {
    assert_eq!(ollama_tags_url("http://localhost:11434/v1/"), "http://localhost:11434/api/tags");
    assert_eq!(ollama_tags_url("http://h:1"), "http://h:1/api/tags");
    let data: serde_json::Value =
        serde_json::from_str(r#"{"models": [{"name": "qwen"}, {"name": "llama"}, {"name": "qwen"}, {}]}"#)
            .unwrap();
    assert_eq!(ollama_model_names(&data), vec!["llama".to_string(), "qwen".to_string()]);
}

#[test]
fn listed_models_are_preferred_when_informative() {
    let listed = vec!["a".to_string()];
    let fixed = vec!["qwen2.5:7b".to_string()];
    assert!(prefer_listed_models(&listed, &fixed));
    assert!(!prefer_listed_models(&fixed, &fixed));
    assert!(!prefer_listed_models(&vec![], &fixed));
}

#[test]
fn every_kind_name_parses_back() {
    for kind in ProviderKind::all() {
        assert_eq!(ProviderKind::parse(kind.name()), Some(kind));
        let shouted = format!("  {}\t", kind.name().to_uppercase());
        assert_eq!(ProviderKind::parse(&shouted), Some(kind));
        let normalized = shouted.trim().to_lowercase();
        assert_eq!(ProviderKind::parse(&normalized), ProviderKind::parse(&shouted));
    }
}
