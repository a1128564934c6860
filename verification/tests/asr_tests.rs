use lingsubtitle::asr::{
    authorization_header, build_error, build_finish_task_message, build_run_task_message,
    classify_socket_error, connectivity_failure, connectivity_outcome, connectivity_precheck,
    join_error_chain, make_task_id, nullable_string, parse_result_generated, parse_server_message,
    resolve_target, target_from_parsed, validate_runtime_config, ParsedServerEvent,
    ResolvedGummyTarget,
};
use lingsubtitle::config::{AsrConfig, TranslationConfig};
use lingsubtitle::json::{JsonNumber, JsonValue};

fn obj(entries: Vec<(&str, JsonValue)>) -> JsonValue {
    JsonValue::Object(entries.into_iter().map(|(k, v)| (k.to_string(), v)).collect())
}

fn s(text: &str) -> JsonValue {
    JsonValue::Str(text.to_string())
}

fn n(u: u64) -> JsonValue {
    JsonValue::Number(JsonNumber::PosInt(u))
}

fn ready_asr() -> AsrConfig {
    AsrConfig { api_key: "sk-test".to_string(), ..AsrConfig::default() }
}

fn target(url: &str) -> ResolvedGummyTarget {
    ResolvedGummyTarget { resolved_url: url.to_string() }
}

#[test]
fn parses_result_generated_event() {
    let result = parse_result_generated(&obj(vec![(
        "payload",
        obj(vec![(
            "output",
            obj(vec![
                (
                    "transcription",
                    obj(vec![
                        ("sentence_id", n(12)),
                        ("begin_time", n(100)),
                        ("end_time", n(450)),
                        ("text", s("hello world")),
                        ("sentence_end", JsonValue::Bool(false)),
                    ]),
                ),
                (
                    "translations",
                    JsonValue::Array(vec![obj(vec![
                        ("sentence_id", n(12)),
                        ("text", s("你好，世界")),
                        ("sentence_end", JsonValue::Bool(false)),
                    ])]),
                ),
            ]),
        )]),
    )]))
    .unwrap();

    assert_eq!(result.sentence_id, 12);
    assert_eq!(result.original_text, "hello world");
    assert_eq!(result.translated_text.as_deref(), Some("你好，世界"));
    assert!(!result.is_final);
}

#[test]
fn parses_task_failed_event() {
    let parsed = parse_server_message(
        r#"{
            "header": {
                "event": "task-failed",
                "error_code": "InvalidParameter",
                "error_message": "bad language pair"
            }
        }"#,
    )
    .unwrap();

    match parsed {
        ParsedServerEvent::TaskFailed { error_code, error_message } => {
            assert_eq!(error_code.as_deref(), Some("InvalidParameter"));
            assert_eq!(error_message, "bad language pair");
        }
        _ => panic!("expected task-failed"),
    }
}

#[test]
fn builds_run_task_message_for_translation() {
    let asr = AsrConfig { language: "zh".to_string(), ..AsrConfig::default() };
    let translation = TranslationConfig { enabled: true, target_language: "en".to_string() };

    let message = build_run_task_message("task-1", &asr, &translation);
    let parsed: serde_json::Value = serde_json::from_str(&message).unwrap();
    assert_eq!(parsed["header"]["action"], "run-task");
    assert_eq!(parsed["payload"]["task"], "asr");
    assert_eq!(parsed["payload"]["input"], serde_json::Value::Object(serde_json::Map::new()));
    assert_eq!(parsed["payload"]["model"], asr.model.as_str());
    assert_eq!(parsed["payload"]["parameters"]["translation_target_languages"][0], "en");
    assert_eq!(parsed["payload"]["parameters"]["source_language"], "zh");
}

#[test]
fn run_task_message_without_translation_has_null_auto_source() {
    let asr = AsrConfig { vad_silence_ms: 9000, vocabulary_id: "  vocab-1 ".to_string(), ..AsrConfig::default() };
    let translation = TranslationConfig { enabled: false, target_language: "en".to_string() };
    let message = build_run_task_message("task-2", &asr, &translation);
    let parsed: serde_json::Value = serde_json::from_str(&message).unwrap();
    assert_eq!(parsed["header"]["task_id"], "task-2");
    assert_eq!(parsed["header"]["streaming"], "duplex");
    assert_eq!(parsed["payload"]["task_group"], "audio");
    assert_eq!(parsed["payload"]["function"], "recognition");
    let p = &parsed["payload"]["parameters"];
    assert!(p["source_language"].is_null());
    assert_eq!(p["translation_target_languages"], serde_json::Value::Array(vec![]));
    assert_eq!(p["translation_enabled"], false);
    assert_eq!(p["transcription_enabled"], true);
    assert_eq!(p["format"], "pcm");
    assert_eq!(p["sample_rate"], 16000);
    assert_eq!(p["max_end_silence"], 6000);
    assert_eq!(p["vocabulary_id"], "vocab-1");
}

#[test]
fn finish_task_message_shape() {
    let parsed: serde_json::Value = serde_json::from_str(&build_finish_task_message("t-9")).unwrap();
    assert_eq!(parsed["header"]["action"], "finish-task");
    assert_eq!(parsed["header"]["task_id"], "t-9");
    assert_eq!(parsed["header"]["streaming"], "duplex");
    assert_eq!(parsed["payload"]["input"], serde_json::Value::Object(serde_json::Map::new()));
}

#[test]
fn nullable_string_trims_or_nulls() {
    assert!(matches!(nullable_string("   "), JsonValue::Null));
    match nullable_string("  abc ") {
        JsonValue::Str(t) => assert_eq!(t, "abc"),
        _ => panic!("expected a string"),
    }
}

#[test]
fn parses_lifecycle_events_and_ignores_others() {
    assert!(matches!(parse_server_message(r#"{"header":{"event":"task-started"}}"#), Ok(ParsedServerEvent::TaskStarted)));
    assert!(matches!(parse_server_message(r#"{"header":{"event":"task-finished"}}"#), Ok(ParsedServerEvent::TaskFinished)));
    assert!(matches!(parse_server_message(r#"{"header":{"event":"something"}}"#), Ok(ParsedServerEvent::Ignore)));
    assert!(matches!(parse_server_message(r#"{"payload":{}}"#), Ok(ParsedServerEvent::Ignore)));
}

#[test]
fn task_failed_without_message_gets_default_message() {
    match parse_server_message(r#"{"header":{"event":"task-failed","error_message":"   "}}"#).unwrap() {
        ParsedServerEvent::TaskFailed { error_code, error_message } => {
            assert_eq!(error_code, None);
            assert_eq!(error_message, "Gummy 任务执行失败。");
        }
        _ => panic!("expected task-failed"),
    }
}

#[test]
fn invalid_json_is_a_parse_error() {
    let err = parse_server_message("not json").unwrap_err();
    assert!(err.starts_with("无法解析 Gummy 返回的 JSON: "));
}

#[test]
fn result_generated_missing_parts_are_errors() {
    let err = parse_result_generated(&obj(vec![("payload", obj(vec![]))])).unwrap_err();
    assert_eq!(err, "result-generated 缺少 payload.output。");
    let err = parse_result_generated(&obj(vec![("payload", obj(vec![("output", obj(vec![]))]))])).unwrap_err();
    assert_eq!(err, "result-generated 缺少 transcription。");
    let err = parse_result_generated(&obj(vec![(
        "payload",
        obj(vec![("output", obj(vec![("transcription", obj(vec![("text", s("x"))]))]))]),
    )]))
    .unwrap_err();
    assert_eq!(err, "result-generated 缺少 transcription.sentence_id。");
}

#[test]
fn result_generated_falls_back_to_first_translation() {
    let r = parse_result_generated(&obj(vec![(
        "payload",
        obj(vec![(
            "output",
            obj(vec![
                (
                    "transcription",
                    obj(vec![("sentence_id", n(3)), ("text", s("  hi  ")), ("sentence_end", JsonValue::Bool(true))]),
                ),
                (
                    "translation",
                    JsonValue::Array(vec![
                        obj(vec![("sentence_id", n(7)), ("text", s("  first "))]),
                        obj(vec![("sentence_id", n(8)), ("text", s("second"))]),
                    ]),
                ),
            ]),
        )]),
    )]))
    .unwrap();
    assert_eq!(r.sentence_id, 3);
    assert_eq!(r.original_text, "hi");
    assert_eq!(r.translated_text.as_deref(), Some("first"));
    assert!(r.is_final);
    assert_eq!(r.begin_time_ms, None);
}

#[test]
fn resolve_target_normalizes_and_checks_scheme() {
    let cfg = AsrConfig { base_url: "  wss://example.com/ws//  ".to_string(), ..AsrConfig::default() };
    assert_eq!(resolve_target(&cfg).unwrap().resolved_url, "wss://example.com/ws");

    let empty = AsrConfig { base_url: "   ".to_string(), ..AsrConfig::default() };
    let e = resolve_target(&empty).unwrap_err();
    assert_eq!(e.kind, "invalid_config");
    assert_eq!(e.message, "Gummy WebSocket 地址尚未配置。");
    assert_eq!(e.resolved_url, "");
    assert_eq!(e.provider, "dashscopeGummy");

    let https = AsrConfig { base_url: "https://example.com/".to_string(), ..AsrConfig::default() };
    let e = resolve_target(&https).unwrap_err();
    assert_eq!(e.message, "Gummy 必须使用 ws:// 或 wss:// WebSocket 地址。");
    assert_eq!(e.resolved_url, "https://example.com");

    let bad = AsrConfig { base_url: "ws://exa mple".to_string(), ..AsrConfig::default() };
    let e = resolve_target(&bad).unwrap_err();
    assert!(e.message.starts_with("Gummy WebSocket 地址无效: "));
}

#[test]
fn target_from_parsed_decides_on_the_scheme() {
    assert!(target_from_parsed("ws://h".to_string(), "m", Ok(Some("ws".to_string()))).is_ok());
    let e = target_from_parsed("x".to_string(), "m", Ok(None)).unwrap_err();
    assert_eq!(e.message, "Gummy 必须使用 ws:// 或 wss:// WebSocket 地址。");
    assert_eq!(e.model, "m");
    let e = target_from_parsed("x".to_string(), "m", Err("oops".to_string())).unwrap_err();
    assert_eq!(e.message, "Gummy WebSocket 地址无效: oops");
}

#[test]
fn runtime_config_errors_in_order() {
    let none = TranslationConfig { enabled: false, target_language: "en".to_string() };
    let e = validate_runtime_config(&AsrConfig::default(), &none).unwrap_err();
    assert_eq!(e.message, "Gummy API Key 尚未配置。");
    assert_eq!(e.kind, "invalid_config");
    assert_eq!(e.resolved_url, "wss://dashscope.aliyuncs.com/api-ws/v1/inference");

    let e = validate_runtime_config(&AsrConfig { model: " ".to_string(), ..ready_asr() }, &none).unwrap_err();
    assert_eq!(e.message, "Gummy 模型名称尚未配置。");

    let e = validate_runtime_config(&AsrConfig { sample_rate: 48000, ..ready_asr() }, &none).unwrap_err();
    assert_eq!(e.message, "当前桌面音频链路固定输出 16000Hz PCM，请将采样率保持为 16000。");

    let e = validate_runtime_config(&AsrConfig { vad_silence_ms: 100, ..ready_asr() }, &none).unwrap_err();
    assert_eq!(e.message, "句尾静音阈值必须在 200 到 6000 毫秒之间。");

    validate_runtime_config(&ready_asr(), &none).unwrap();

    let on = TranslationConfig { enabled: true, target_language: "en".to_string() };
    let e = validate_runtime_config(&ready_asr(), &on).unwrap_err();
    assert_eq!(e.kind, "invalid_language_pair");
    assert!(e.message.contains("开启翻译时"));

    validate_runtime_config(&AsrConfig { language: " zh ".to_string(), ..ready_asr() }, &on).unwrap();
}

#[test]
fn classifies_socket_errors_by_chain() {
    let t = target("wss://h");
    assert_eq!(classify_socket_error("DNS error <- failed", &t, "m").kind, "network_dns");
    assert_eq!(classify_socket_error("failed to lookup address information", &t, "m").kind, "network_dns");
    assert_eq!(classify_socket_error("invalid peer Certificate", &t, "m").kind, "tls_handshake");
    assert_eq!(classify_socket_error("connection Timed Out", &t, "m").kind, "network_timeout");
    let e = classify_socket_error("connection refused", &t, "m");
    assert_eq!(e.kind, "network_connect");
    assert_eq!(e.message, "Gummy WebSocket 连接失败: connection refused");
    assert_eq!(e.resolved_url, "wss://h");
}

#[test]
fn joins_error_chain_with_arrows() {
    let parts = vec!["a".to_string(), "b".to_string(), "c".to_string()];
    assert_eq!(join_error_chain(&parts), "a <- b <- c");
    assert_eq!(join_error_chain(&vec!["only".to_string()]), "only");
}

#[test]
fn connectivity_results() {
    let e = build_error("network_dns", "boom".to_string(), &target("wss://h"), "m", None);
    let f = connectivity_failure(e);
    assert!(!f.ok);
    assert_eq!(f.error_kind.as_deref(), Some("network_dns"));
    assert_eq!(f.message, "boom");
    assert_eq!(f.resolved_url, "wss://h");

    let ok = connectivity_outcome(target("wss://h"), "gummy", Ok(()));
    assert!(ok.ok);
    assert_eq!(ok.message, "Gummy 连接检测通过。");
    assert_eq!(ok.error_kind, None);
    assert_eq!(ok.model, "gummy");

    let none = TranslationConfig { enabled: false, target_language: "en".to_string() };
    let pre = connectivity_precheck(&AsrConfig::default(), &none).unwrap_err();
    assert_eq!(pre.message, "Gummy API Key 尚未配置。");
    assert_eq!(connectivity_precheck(&ready_asr(), &none).unwrap().resolved_url, "wss://dashscope.aliyuncs.com/api-ws/v1/inference");
}

#[test]
fn task_ids_are_prefixed_simple_uuids() {
    let id = make_task_id();
    assert_eq!(id.len(), 45);
    assert!(id.starts_with("lingsubtitle-"));
    assert!(id[13..].chars().all(|c| c.is_ascii_hexdigit() && !c.is_ascii_uppercase()));
    assert_ne!(make_task_id(), id);
}

#[test]
fn authorization_header_trims_the_key() {
    let t = target("wss://h");
    assert_eq!(authorization_header("  sk-abc  ", &t, "m").unwrap(), "bearer sk-abc");
    let e = authorization_header("sk\u{7f}x", &t, "m").unwrap_err();
    assert_eq!(e.kind, "invalid_config");
    assert_eq!(e.message, "Gummy API Key 格式非法: failed to parse header value");
}
