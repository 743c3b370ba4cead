use soryos_assistant::gemini::{check_status, gemini_body, gemini_model_ids, parse_candidate, tool_name_for, GeminiConfig};
use soryos_assistant::provider::word_chunks;
use soryos_assistant::message::{ChatMessage, ToolCall, ToolResult};
use soryos_assistant::openai_compat::{
    map_http_error, model_ids, parse_response, read_completion, request_body, transport_error,
    OpenAiCompatConfig,
};
use soryos_assistant::provider::{ChatRequest, GenerationParams, ProviderError, ProviderStatus, ToolSchema};
use soryos_assistant::providers::ProviderEnv;
use soryos_assistant::sse::SseDecoder;

fn json(text: &str) -> serde_json::Value {
    serde_json::from_str(text).unwrap()
}

fn config(key: &str) -> OpenAiCompatConfig {
    OpenAiCompatConfig {
        provider_name: "mistral".to_string(),
        base_url: "https://api.example/v1//".to_string(),
        api_key: key.to_string(),
        default_model: "small".to_string(),
        extra_headers: vec![],
        timeout_secs: 3,
    }
}

#[test]
fn key_presence_decides_status() {
    assert!(config("  ").api_key_or_not_configured().is_err());
    assert_eq!(config("").status(), ProviderStatus::NotConfigured);
    assert_eq!(config("k").status(), ProviderStatus::Ready);
    match config("").api_key_or_not_configured() {
        Err(ProviderError::NotConfigured(m)) => assert_eq!(m, "no API key configured for mistral"),
        other => panic!("unexpected: {other:?}"),
    }
}

#[test]
fn urls_drop_trailing_slashes() {
    let c = config("k");
    assert_eq!(c.url(), "https://api.example/v1/chat/completions");
    assert_eq!(c.models_url(), "https://api.example/v1/models");
    assert_eq!(c.effective_timeout_secs(), 10);
}

#[test]
fn request_body_carries_model_messages_and_tools() {
    let mut request = ChatRequest::new(
        vec![ChatMessage::system("sys".to_string()), ChatMessage::user("hi".to_string())],
        GenerationParams { model: String::new(), temperature_bits: 0, max_tokens: 64 },
    );
    request.tools.push(ToolSchema {
        name: "system_info".to_string(),
        description: "d".to_string(),
        parameters: json("{}"),
    });
    let body = request_body(&config("k"), &request, true, serde_json::Value::from(0.5));
    assert_eq!(body["model"], "small");
    assert_eq!(body["messages"][1]["role"], "user");
    assert_eq!(body["messages"][1]["content"], "hi");
    assert_eq!(body["max_tokens"], 64);
    assert_eq!(body["stream"], true);
    assert_eq!(body["temperature"], 0.5);
    assert_eq!(body["tools"][0]["function"]["name"], "system_info");
}

#[test]
fn assistant_tool_calls_and_results_are_sent() {
    let call = ToolCall::new("c1".to_string(), "read_file".to_string(), json(r#"{"path":"/x"}"#));
    let result = ToolResult::ok("c1".to_string(), "read_file".to_string(), json("1"));
    let request = ChatRequest::new(
        vec![
            ChatMessage::assistant_with_tools("".to_string(), vec![call]),
            ChatMessage::tool_result(&result),
        ],
        GenerationParams::default(),
    );
    let body = request_body(&config("k"), &request, false, json("0.7"));
    assert_eq!(body["messages"][0]["tool_calls"][0]["function"]["arguments"], r#"{"path":"/x"}"#);
    assert_eq!(body["messages"][1]["tool_call_id"], "c1");
    assert!(body.get("tools").is_none());
}

#[test]
fn finished_reply_is_parsed() {
    let data = json(
        r#"{"model": "m", "choices": [{"message": {"content": "Bonjour",
            "tool_calls": [{"id": "t1", "function": {"name": "system_info", "arguments": "{}"}},
                           {"function": {"name": "", "arguments": "{}"}},
                           {"function": {"name": "list_dir", "arguments": "not json"}}]}}],
            "usage": {"prompt_tokens": 3, "completion_tokens": 4}}"#,
    );
    let r = parse_response(&data).unwrap();
    assert_eq!(r.content, "Bonjour");
    assert_eq!(r.model, "m");
    assert_eq!(r.tool_calls.len(), 2);
    assert_eq!(r.tool_calls[1].id, "call-0");
    assert_eq!(r.tool_calls[1].arguments, json("{}"));
    assert_eq!(r.usage.prompt_tokens, 3);
    assert!(matches!(parse_response(&json(r#"{"choices": []}"#)), Err(ProviderError::Protocol(_))));
    assert!(matches!(read_completion(&json(r#"{"error": {"code": 1}}"#)), Err(ProviderError::Api(_))));
}

#[test]
fn http_errors_are_explained() {
    match map_http_error(401, "bad key") {
        ProviderError::Auth(m) => assert!(m.starts_with("HTTP 401 Unauthorized: ") && m.ends_with("bad key")),
        other => panic!("unexpected: {other:?}"),
    }
    assert!(matches!(map_http_error(429, ""), ProviderError::Api(m) if m.contains("rate limit")));
    let long = "x".repeat(400);
    match map_http_error(500, &long) {
        ProviderError::Api(m) => assert_eq!(m, format!("HTTP 500 Internal Server Error: {}", "x".repeat(300))),
        other => panic!("unexpected: {other:?}"),
    }
    assert!(matches!(transport_error(true, false, "t".to_string()), ProviderError::Timeout));
    assert!(matches!(transport_error(false, true, "t".to_string()), ProviderError::Transport(m) if m == "cannot reach backend: t"));
}

#[test]
fn listed_models_are_sorted_or_default() {
    let data = json(r#"{"data": [{"id": "b"}, {"id": "a"}, {"x": 1}]}"#);
    assert_eq!(model_ids(&config("k"), &data), vec!["a".to_string(), "b".to_string()]);
    assert_eq!(model_ids(&config("k"), &json("{}")), vec!["small".to_string()]);
}

#[test]
fn streamed_reply_is_decoded() {
    let mut d = SseDecoder::new();
    d.feed(b"data: {\"choices\":[{\"delta\":{\"content\":\"Bon\"}}]}\n\ndata: {\"choices\":[{\"delta\":{\"con");
    d.feed(b"tent\":\"jour\",\"tool_calls\":[{\"index\":0,\"id\":\"c1\",\"function\":{\"name\":\"sys\",\"arguments\":\"{\\\"a\\\"\"}}]}}]}\n");
    d.feed(b"data: {\"choices\":[{\"delta\":{\"tool_calls\":[{\"index\":0,\"function\":{\"name\":\"tem_info\",\"arguments\":\":1}\"}}]},\"finish_reason\":\"tool_calls\"}]}\n");
    assert!(d.is_done());
    d.feed(b"data: {\"choices\":[{\"delta\":{\"content\":\"ignored\"}}]}\n");
    let chunks = d.finish();
    let text: String = chunks.iter().map(|c| c.delta.as_str()).collect();
    assert_eq!(text, "Bonjour");
    let last = chunks.last().unwrap();
    assert!(last.finished);
    assert_eq!(last.tool_calls.len(), 1);
    assert_eq!(last.tool_calls[0].name, "system_info");
    assert_eq!(last.tool_calls[0].arguments, json(r#"{"a":1}"#));
}

#[test]
fn stream_without_end_event_is_flushed() {
    let mut d = SseDecoder::new();
    d.feed(b": keep-alive\ndata: {\"choices\":[{\"delta\":{\"tool_calls\":[{\"index\":1,\"function\":{\"name\":\"x\"}}]}}]}\n");
    d.feed(b"data: [DONE]");
    let chunks = d.finish();
    assert_eq!(chunks.len(), 1);
    assert_eq!(chunks[0].tool_calls.len(), 1);
    assert_eq!(chunks[0].tool_calls[0].id, "call-1");
}

#[test]
fn done_marker_ends_the_stream() {
    let mut d = SseDecoder::new();
    d.feed(b"data:   [DONE]  \r\n");
    assert!(d.is_done());
    assert_eq!(d.finish().len(), 1);
}

fn env() -> ProviderEnv {
    ProviderEnv {
        soryos_provider: None,
        openrouter_api_key: None,
        openrouter_model: None,
        openrouter_base_url: None,
        mistral_api_key: None,
        mistral_model: None,
        mistral_base_url: None,
        gemini_api_key: Some("key".to_string()),
        gemini_model: None,
        local_base_url: None,
        local_model: None,
        local_api_key: None,
    }
}

#[test]
fn gemini_config_and_urls() {
    let g = GeminiConfig::from_env(&env());
    assert_eq!(g.model, "gemini-2.0-flash");
    assert_eq!(g.status(), ProviderStatus::Ready);
    assert_eq!(
        g.url("generateContent"),
        "https://generativelanguage.googleapis.com/v1beta/models/gemini-2.0-flash:generateContent?key=key"
    );
    assert_eq!(g.for_request("gemini-pro").model, "gemini-pro");
    let none = GeminiConfig::new(&env(), String::new(), "m".to_string());
    assert!(none.ensure_configured().is_err());
}

#[test]
fn gemini_body_hoists_the_system_prompt() {
    let call = ToolCall::new("c1".to_string(), "read_file".to_string(), json(r#"{"path":"/x"}"#));
    let result = ToolResult::ok("c1".to_string(), "read_file".to_string(), json("1"));
    let request = ChatRequest::new(
        vec![
            ChatMessage::system("sys".to_string()),
            ChatMessage::user("hi".to_string()),
            ChatMessage::assistant_with_tools("".to_string(), vec![call]),
            ChatMessage::tool_result(&result),
        ],
        GenerationParams::default(),
    );
    let body = gemini_body(&request, json("0.7"));
    assert_eq!(body["system_instruction"]["parts"][0]["text"], "sys");
    assert_eq!(body["contents"].as_array().unwrap().len(), 3);
    assert_eq!(body["contents"][0]["parts"][0]["text"], "hi");
    assert_eq!(body["contents"][1]["role"], "model");
    assert_eq!(body["contents"][1]["parts"][0]["functionCall"]["name"], "read_file");
    assert_eq!(body["contents"][2]["parts"][0]["functionResponse"]["name"], "read_file");
    assert_eq!(body["generationConfig"]["maxOutputTokens"], 1024);
    assert_eq!(tool_name_for(&request.messages, Some("zz")), "unknown");
}

#[test]
fn gemini_reply_is_parsed() {
    let data = json(
        r#"{"candidates": [{"content": {"parts": [{"text": "Il est "},
            {"functionCall": {"name": "system_info"}}, {"text": "midi"}]}}]}"#,
    );
    let (text, calls) = parse_candidate(&data).unwrap();
    assert_eq!(text, "Il est midi");
    assert_eq!(calls[0].id, "gemini-1");
    assert_eq!(calls[0].arguments, json("{}"));
    assert!(matches!(parse_candidate(&json("{}")), Err(ProviderError::Protocol(_))));
    assert!(check_status(200, "").is_none());
    assert!(matches!(check_status(403, ""), Some(ProviderError::Auth(_))));
    assert!(matches!(check_status(500, "oops"), Some(ProviderError::Api(m)) if m.ends_with(": oops")));
}

#[test]
fn gemini_whole_reply_streams_by_word() {
    let chunks = word_chunks("Il est midi", vec![]);
    let deltas: Vec<&str> = chunks.iter().map(|c| c.delta.as_str()).collect();
    assert_eq!(deltas, vec!["Il ", "est ", "midi", ""]);
    assert!(chunks[3].finished);
}

#[test]
fn gemini_models_keep_generators() {
    let g = GeminiConfig::from_env(&env());
    let data = json(
        r#"{"models": [{"name": "models/b", "supportedGenerationMethods": ["generateContent"]},
            {"name": "models/embed", "supportedGenerationMethods": ["embedContent"]},
            {"name": "a", "supportedGenerationMethods": ["generateContent"]}]}"#,
    );
    assert_eq!(gemini_model_ids(&g, &data), vec!["a".to_string(), "b".to_string()]);
    assert_eq!(gemini_model_ids(&g, &json("{}")), vec!["gemini-2.0-flash".to_string()]);
}

#[test]
fn ready_chunks_are_handed_out_as_they_come() {
    let mut d = SseDecoder::new();
    d.feed(b"data: {\"choices\":[{\"delta\":{\"content\":\"Bon\"}}]}\n\ndata: {\"choices\"");
    let first = d.take_ready();
    assert_eq!(first.len(), 1);
    assert_eq!(first[0].delta, "Bon");
    assert!(d.take_ready().is_empty());
    d.feed(b":[{\"delta\":{\"content\":\"jour\"}}]}\n");
    let second = d.take_ready();
    assert_eq!(second.len(), 1);
    assert_eq!(second[0].delta, "jour");
    let rest = d.finish();
    assert_eq!(rest.len(), 1);
    assert!(rest[0].finished);
}
