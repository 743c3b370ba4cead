use soryos_assistant::openrouter::{
    free_model_list, guard_model, needs_refresh, parse_catalogue, resolve_model, validate_model,
    FreeModelRegistry, ModelRejection, OpenRouterConfig, OpenRouterModel,
};
use soryos_assistant::provider::ProviderError;

fn free_entry(id: &str) -> OpenRouterModel {
    OpenRouterModel {
        id: id.into(),
        name: id.into(),
        context_length: None,
        prompt_price_bits: 0.0f64.to_bits(),
        completion_price_bits: 0.0f64.to_bits(),
        supports_tools: true,
    }
}

fn catalogue() -> serde_json::Value {
    serde_json::from_str(
        r#"{
            "data": [
                {"id": "a:free", "pricing": {"prompt": "0", "completion": "0"}},
                {"id": "b:free", "pricing": {"prompt": "0.001", "completion": "0"}},
                {"id": "c", "pricing": {"prompt": "0", "completion": "0.002"}},
                {"id": "d", "pricing": {"prompt": "1", "completion": "1"}},
                {"id": "e-no-pricing"},
                {"id": "f-bad-pricing", "pricing": {"prompt": "n/a", "completion": "0"}}
            ]
        }"#,
    )
    .unwrap()
}

#[test]
fn prompt_zero_completion_zero_is_free() {
    assert!(free_entry("m:x").is_free());
}

#[test]
fn positive_prompt_price_is_not_free() {
    let mut m = free_entry("m:x");
    m.prompt_price_bits = 0.000001f64.to_bits();
    assert!(!m.is_free());
}

#[test]
fn positive_completion_price_is_not_free() {
    let mut m = free_entry("m:x");
    m.completion_price_bits = 2.0f64.to_bits();
    assert!(!m.is_free());
}

#[test]
fn both_positive_is_not_free() {
    let mut m = free_entry("m:x");
    m.prompt_price_bits = 1.0f64.to_bits();
    m.completion_price_bits = 1.0f64.to_bits();
    assert!(!m.is_free());
}

#[test]
fn free_suffix_does_not_grant_free_status() {
    let mut m = free_entry("sneaky-model:free");
    m.prompt_price_bits = 0.5f64.to_bits();
    assert!(!m.is_free());
}

#[test]
fn catalogue_filter_keeps_only_priced_zero() {
    let mut registry = FreeModelRegistry::new();
    registry.replace(parse_catalogue(&catalogue()));
    let free: Vec<String> = registry.free_models().iter().map(|m| m.id.clone()).collect();
    assert_eq!(free, vec!["a:free".to_string()]);
    assert!(registry.is_free("a:free"));
    assert!(!registry.is_free("b:free"));
    assert!(!registry.is_free("nope"));
}

#[test]
fn catalogue_drops_entries_without_usable_prices() {
    let parsed = parse_catalogue(&catalogue());
    let ids: Vec<&str> = parsed.iter().map(|m| m.id.as_str()).collect();
    assert_eq!(ids, vec!["a:free", "b:free", "c", "d"]);
    assert_eq!(parsed[0].name, "a:free");
}

#[test]
fn entry_reads_name_context_and_tools() {
    let item: serde_json::Value = serde_json::from_str(
        r#"{"id": "x", "name": "X model", "context_length": 8192,
            "supported_parameters": ["temperature", "tools"],
            "pricing": {"prompt": 0, "completion": "0"}}"#,
    )
    .unwrap();
    let m = OpenRouterModel::from_api("x".to_string(), &item).unwrap();
    assert_eq!(m.name, "X model");
    assert_eq!(m.context_length, Some(8192));
    assert!(m.supports_tools);
    assert!(m.is_free());
}

#[test]
fn refresh_sorts_the_catalogue_by_id() {
    let data: serde_json::Value = serde_json::from_str(
        r#"{"data": [
            {"id": "zeta", "pricing": {"prompt": "0", "completion": "0"}},
            {"id": "alpha", "pricing": {"prompt": "0", "completion": "0"}},
            {"id": "mid", "pricing": {"prompt": "1", "completion": "0"}}
        ]}"#,
    )
    .unwrap();
    let mut registry = FreeModelRegistry::new();
    registry.refresh_from(&data);
    let ids: Vec<&str> = registry.all().iter().map(|m| m.id.as_str()).collect();
    assert_eq!(ids, vec!["alpha", "mid", "zeta"]);
    assert!(registry.is_fresh());
}

#[test]
fn paid_model_request_is_blocked_before_http() {
    let mut registry = FreeModelRegistry::new();
    let mut paid = free_entry("paid-model");
    paid.prompt_price_bits = 0.002f64.to_bits();
    registry.replace(vec![paid]);
    let err = validate_model(&registry, "paid-model", false, None).unwrap_err();
    assert!(matches!(err, ModelRejection::NotFree { .. }));
}

#[test]
fn unknown_model_is_blocked() {
    let mut registry = FreeModelRegistry::new();
    registry.replace(vec![free_entry("some-free")]);
    let err = validate_model(&registry, "attacker-chosen-paid", false, None).unwrap_err();
    assert!(matches!(err, ModelRejection::Blocked(ProviderError::ModelNotFree(_))));
}

#[test]
fn free_router_and_free_model_pass_validation() {
    let registry = FreeModelRegistry::new();
    validate_model(&registry, "openrouter/free", false, None).unwrap();
    let mut filled = FreeModelRegistry::new();
    filled.replace(vec![free_entry("some-free")]);
    validate_model(&filled, "some-free", true, None).unwrap();
}

#[test]
fn tools_without_support_are_rejected_not_rerouted() {
    let mut registry = FreeModelRegistry::new();
    let mut m = free_entry("no-tools-free");
    m.supports_tools = false;
    registry.replace(vec![m]);
    let err = validate_model(&registry, "no-tools-free", true, None).unwrap_err();
    assert!(matches!(err, ModelRejection::Blocked(ProviderError::Api(_))));
}

#[test]
fn stale_catalogue_never_authorizes() {
    let registry = FreeModelRegistry::new();
    let err = validate_model(
        &registry,
        "some-free",
        false,
        Some(ProviderError::Transport("offline".to_string())),
    )
    .unwrap_err();
    match err {
        ModelRejection::Blocked(ProviderError::Api(m)) => assert!(m.contains("catalogue unreachable")),
        other => panic!("unexpected: {other:?}"),
    }
}

#[test]
fn openrouter_free_router_comes_first() {
    let mut registry = FreeModelRegistry::new();
    registry.replace(parse_catalogue(&catalogue()));
    let models = free_model_list(&registry, false, true).unwrap();
    assert_eq!(models, vec!["openrouter/free".to_string(), "a:free".to_string()]);
    let offline = free_model_list(&registry, true, false).unwrap();
    assert_eq!(offline, vec!["openrouter/free".to_string()]);
    let empty = FreeModelRegistry::new();
    assert!(free_model_list(&empty, false, true).is_err());
}

#[test]
fn request_model_defaults_to_configured() {
    assert_eq!(resolve_model("", "openrouter/free"), "openrouter/free");
    assert_eq!(resolve_model("x", "openrouter/free"), "x");
    let cfg = OpenRouterConfig::default();
    assert_eq!(cfg.default_model, "openrouter/free");
    assert!(!cfg.allow_paid_models);
}

#[test]
fn guard_refuses_everything_but_the_router_on_a_stale_catalogue() {
    let mut registry = FreeModelRegistry::new();
    registry.replace(vec![free_entry("some-free")]);
    let offline = Some(ProviderError::Transport("offline".to_string()));
    let err = guard_model(&registry, "some-free", false, offline.clone(), false).unwrap_err();
    match err {
        ModelRejection::Blocked(ProviderError::Api(m)) => assert_eq!(
            m,
            "cannot verify free-only policy (catalogue unreachable: transport error: offline); request blocked"
        ),
        other => panic!("unexpected: {other:?}"),
    }
    guard_model(&registry, "openrouter/free", false, offline.clone(), false).unwrap();
    guard_model(&registry, "some-free", false, offline, true).unwrap();
    guard_model(&registry, "some-free", false, None, false).unwrap();
}

#[test]
fn guard_names_each_refusal() {
    let mut registry = FreeModelRegistry::new();
    let mut paid = free_entry("paid-model");
    paid.prompt_price_bits = 0.002f64.to_bits();
    let mut no_tools = free_entry("no-tools-free");
    no_tools.supports_tools = false;
    registry.replace(vec![paid, no_tools]);
    match guard_model(&registry, "paid-model", false, None, true).unwrap_err() {
        ModelRejection::NotFree { model, prompt_bits, completion_bits } => {
            assert_eq!(model, "paid-model");
            assert_eq!(prompt_bits, 0.002f64.to_bits());
            assert_eq!(completion_bits, 0.0f64.to_bits());
        }
        other => panic!("unexpected: {other:?}"),
    }
    match guard_model(&registry, "missing", false, None, true).unwrap_err() {
        ModelRejection::Blocked(ProviderError::ModelNotFree(m)) => {
            assert_eq!(m, "missing is not a verified free OpenRouter model")
        }
        other => panic!("unexpected: {other:?}"),
    }
    match guard_model(&registry, "no-tools-free", true, None, true).unwrap_err() {
        ModelRejection::Blocked(ProviderError::Api(m)) => assert_eq!(
            m,
            "No compatible free model is currently available: 'no-tools-free' is free but does not support tool calling, and paid models are forbidden"
        ),
        other => panic!("unexpected: {other:?}"),
    }
    guard_model(&registry, "no-tools-free", false, None, true).unwrap();
}

#[test]
fn only_stale_requests_for_listed_models_refresh() {
    assert!(needs_refresh("some-free", false));
    assert!(!needs_refresh("some-free", true));
    assert!(!needs_refresh("openrouter/free", false));
}
