use lingsubtitle::json::{JsonNumber, JsonValue};
use lingsubtitle::translation::{
    build_request, build_system_prompt, classify_send_error, connectivity_failure,
    connectivity_outcome, detect_provider, extract_stream_delta, http_status_error, once_outcome,
    resolve_target, stream_read_error, ChatTranslationConfig, ResolvedTranslationTarget,
    TranslationProvider,
};
use lingsubtitle::translation_stream::TranslationStream;

fn obj(entries: Vec<(&str, JsonValue)>) -> JsonValue {
    JsonValue::Object(entries.into_iter().map(|(k, v)| (k.to_string(), v)).collect())
}

fn s(text: &str) -> JsonValue {
    JsonValue::Str(text.to_string())
}

fn cfg(base_url: &str) -> ChatTranslationConfig {
    ChatTranslationConfig {
        enabled: true,
        base_url: base_url.to_string(),
        api_key: "sk-1".to_string(),
        model: "qwen-plus".to_string(),
        system_prompt: "Translate.".to_string(),
        target_language: "English".to_string(),
    }
}

fn target() -> ResolvedTranslationTarget {
    ResolvedTranslationTarget {
        provider: TranslationProvider::OpenAiCompatible,
        resolved_url: "https://api.example.com/v1/chat/completions".to_string(),
    }
}

#[test]
fn provider_follows_the_host() {
    assert_eq!(detect_provider("https://DashScope.Aliyuncs.com/compatible-mode/v1"), TranslationProvider::DashScopeCompatible);
    assert_eq!(detect_provider("https://api.openai.com/v1"), TranslationProvider::OpenAiCompatible);
    assert_eq!(TranslationProvider::DashScopeCompatible.as_str(), "dashscopeCompatible");
    assert_eq!(TranslationProvider::OpenAiCompatible.as_str(), "openaiCompatible");
}

#[test]
fn resolves_completion_endpoints() {
    let t = resolve_target(&cfg(" https://api.example.com/v1/ ")).unwrap();
    assert_eq!(t.resolved_url, "https://api.example.com/v1/chat/completions");
    assert_eq!(t.provider, TranslationProvider::OpenAiCompatible);
    let t = resolve_target(&cfg("https://api.example.com/v1/chat/completions")).unwrap();
    assert_eq!(t.resolved_url, "https://api.example.com/v1/chat/completions");
    let t = resolve_target(&cfg("https://dashscope.aliyuncs.com/compatible-mode/v1")).unwrap();
    assert_eq!(t.provider, TranslationProvider::DashScopeCompatible);
    assert_eq!(t.resolved_url, "https://dashscope.aliyuncs.com/compatible-mode/v1/chat/completions");
}

#[test]
fn rejects_bad_translation_settings() {
    let e = resolve_target(&cfg("  ")).unwrap_err();
    assert_eq!(e.message, "Translation base URL is empty.");
    assert_eq!(e.resolved_url, "");
    let e = resolve_target(&cfg("wss://dashscope.aliyuncs.com/api-ws/v1/inference")).unwrap_err();
    assert!(e.message.starts_with("The translation base URL points to the ASR WebSocket endpoint."));
    assert_eq!(e.provider, "dashscopeCompatible");
    let mut c = cfg("https://api.example.com/v1");
    c.api_key = " ".to_string();
    assert_eq!(resolve_target(&c).unwrap_err().message, "Translation API Key is not configured.");
    let mut c = cfg("https://api.example.com/v1");
    c.model = String::new();
    assert_eq!(resolve_target(&c).unwrap_err().message, "Translation model is not configured.");
    let e = resolve_target(&cfg("https://dashscope.aliyuncs.com/v1/")).unwrap_err();
    assert!(e.message.starts_with("DashScope translation must use a compatible-mode base URL"));
    assert_eq!(e.resolved_url, "https://dashscope.aliyuncs.com/v1");
    let e = resolve_target(&cfg("not a url")).unwrap_err();
    assert_eq!(e.kind, "invalid_config");
    assert_eq!(e.message, "Invalid translation URL: relative URL without a base");
    assert_eq!(e.resolved_url, "not a url/chat/completions");
}

#[test]
fn classifies_send_errors() {
    let p = TranslationProvider::OpenAiCompatible;
    let e = classify_send_error(true, "x", p, "u", "m");
    assert_eq!(e.kind, "network_timeout");
    assert_eq!(e.message, "The translation request timed out before the server returned a response. Root cause: x");
    assert_eq!(classify_send_error(false, "DNS failure", p, "u", "m").kind, "network_dns");
    assert_eq!(classify_send_error(false, "bad Handshake", p, "u", "m").kind, "tls_handshake");
    assert_eq!(classify_send_error(false, "Proxy refused", p, "u", "m").kind, "proxy_connect");
    let e = classify_send_error(false, "refused", p, "u", "m");
    assert_eq!(e.kind, "network_connect");
    assert!(e.message.ends_with(" Root cause: refused"));
    assert_eq!(e.provider, "openaiCompatible");
}

#[test]
fn builds_prompt_and_request() {
    let c = cfg("https://api.example.com/v1");
    assert_eq!(build_system_prompt(&c, None), "Translate.\nTarget language: English");
    assert_eq!(build_system_prompt(&c, Some("Reply with OK only.")), "Reply with OK only.");
    let body = build_request(&c, "你好", None, true);
    assert_eq!(body.get("model").and_then(|v| v.as_str()), Some("qwen-plus"));
    assert_eq!(body.get("max_tokens").and_then(|v| v.as_u64()), Some(128));
    assert_eq!(body.get("stream").and_then(|v| v.as_bool()), Some(true));
    let msgs = body.get("messages").and_then(|v| v.as_array()).unwrap();
    assert_eq!(msgs.len(), 2);
    assert_eq!(msgs[0].get("role").and_then(|v| v.as_str()), Some("system"));
    assert_eq!(msgs[1].get("content").and_then(|v| v.as_str()), Some("你好"));
    assert!(matches!(body.get("temperature"), Some(JsonValue::Number(JsonNumber::Float(t))) if t == "0.1"));
}

#[test]
fn extracts_stream_deltas() {
    let chunk = |delta: JsonValue| obj(vec![("choices", JsonValue::Array(vec![obj(vec![("delta", delta)])]))]);
    assert_eq!(extract_stream_delta(&chunk(obj(vec![("content", s("Hel"))]))).as_deref(), Some("Hel"));
    let parts = JsonValue::Array(vec![obj(vec![("text", s("a"))]), s("b"), JsonValue::Null]);
    assert_eq!(extract_stream_delta(&chunk(obj(vec![("content", parts)]))).as_deref(), Some("ab"));
    assert_eq!(extract_stream_delta(&chunk(obj(vec![]))), None);
    let with_message = obj(vec![(
        "choices",
        JsonValue::Array(vec![obj(vec![("delta", obj(vec![])), ("message", obj(vec![("content", s("full"))]))])]),
    )]);
    assert_eq!(extract_stream_delta(&with_message).as_deref(), Some("full"));
    let no_delta = obj(vec![("choices", JsonValue::Array(vec![obj(vec![("message", obj(vec![("content", s("x"))]))])]))]);
    assert_eq!(extract_stream_delta(&no_delta), None);
    assert_eq!(extract_stream_delta(&obj(vec![("choices", JsonValue::Array(vec![]))])), None);
}

#[test]
fn reads_a_streamed_answer_across_chunks() {
    let t = target();
    let mut st = TranslationStream::new();
    let p = st.push_chunk(b"data: {\"choices\":[{\"delta\":{\"content\":\"Hel\"}}]}\n\ndata: {\"choi", &t, "m");
    assert_eq!(p.deltas, vec![("Hel".to_string(), "Hel".to_string())]);
    assert!(p.end.is_none());
    let p = st.push_chunk(b"ces\":[{\"delta\":{\"content\":\"lo\"}}]}\r\n\r\n: keep-alive\n\n", &t, "m");
    assert_eq!(p.deltas, vec![("lo".to_string(), "Hello".to_string())]);
    assert!(p.end.is_none());
    let p = st.push_chunk(b"data: [DONE]\n\n", &t, "m");
    assert!(p.deltas.is_empty());
    assert_eq!(p.end.unwrap().unwrap(), "Hello");
}

#[test]
fn split_chunks_read_as_the_joined_text() {
    let t = target();
    let whole: &[u8] = b"data: {\"choices\":[{\"delta\":{\"content\":\"A\"}}]}\n\ndata: {\"choices\":[{\"delta\":{\"content\":\"B\"}}]}\n\ndata: [DONE]\n\n";
    let mut one = TranslationStream::new();
    let all = one.push_chunk(whole, &t, "m");
    for cut in 1..whole.len() {
        let mut two = TranslationStream::new();
        let first = two.push_chunk(&whole[..cut], &t, "m");
        assert!(first.end.is_none());
        let second = two.push_chunk(&whole[cut..], &t, "m");
        let mut deltas = first.deltas.clone();
        deltas.extend(second.deltas.clone());
        assert_eq!(deltas, all.deltas);
        assert_eq!(second.end.as_ref().unwrap().as_ref().unwrap(), "AB");
    }
    assert_eq!(all.end.unwrap().unwrap(), "AB");
}

#[test]
fn streamed_answer_errors() {
    let t = target();
    let mut st = TranslationStream::new();
    let p = st.push_chunk(b"data:[DONE]\n\n", &t, "m");
    let e = p.end.unwrap().unwrap_err();
    assert_eq!(e.message, "The translation stream finished without any text.");
    let mut st = TranslationStream::new();
    let p = st.push_chunk(b"data: {oops\n\n", &t, "m");
    let e = p.end.unwrap().unwrap_err();
    assert_eq!(e.kind, "response_parse");
    assert!(e.message.starts_with("Failed to parse translation stream chunk: "));
    let mut st = TranslationStream::new();
    let _ = st.push_chunk(b"data: {\"choices\":[{\"delta\":{\"content\":\"x\"}}]}\n\n", &t, "m");
    assert_eq!(st.finish(&t, "m").unwrap(), "x");
    let st = TranslationStream::new();
    assert_eq!(st.finish(&t, "m").unwrap_err().message, "The translation stream ended before any text was received.");
}

#[test]
fn once_outcomes_and_errors() {
    let t = target();
    assert_eq!(once_outcome(Ok(Some("  bonjour ".to_string())), &t, "m").unwrap(), "bonjour");
    assert_eq!(once_outcome(Ok(None), &t, "m").unwrap_err().message, "The translation response was successful but empty.");
    assert_eq!(
        once_outcome(Err("eof".to_string()), &t, "m").unwrap_err().message,
        "Failed to parse translation response. Root cause: eof"
    );
    let e = http_status_error("404 Not Found", "nope", &t, "m");
    assert_eq!(e.kind, "http_status");
    assert_eq!(e.message, "Translation API returned HTTP 404 Not Found: nope");
    assert_eq!(stream_read_error("reset", &t, "m").message, "Failed to read the translation stream. Root cause: reset");
    let ok = connectivity_outcome(target(), "m", Ok("OK".to_string()));
    assert!(ok.ok);
    assert_eq!(ok.message, "Translation connectivity check passed.");
    assert_eq!(ok.provider, "openaiCompatible");
    let bad = connectivity_failure(http_status_error("500", "x", &t, "m"));
    assert!(!bad.ok);
    assert_eq!(bad.error_kind.as_deref(), Some("http_status"));
}
