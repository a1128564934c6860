use lingsubtitle::config::{
    merge_value, migrate_config_text, migrate_config_value, normalize_asr_base_url,
    normalize_asr_model, AppConfig, AsrConfig, CaptureConfig, SaveConfig, TranslationConfig,
};
use lingsubtitle::json::{JsonNumber, JsonValue};

fn obj(entries: Vec<(&str, JsonValue)>) -> JsonValue {
    JsonValue::Object(entries.into_iter().map(|(k, v)| (k.to_string(), v)).collect())
}

fn s(text: &str) -> JsonValue {
    JsonValue::Str(text.to_string())
}

fn n(u: u64) -> JsonValue {
    JsonValue::Number(JsonNumber::PosInt(u))
}

fn at<'a>(v: &'a JsonValue, path: &[&str]) -> Option<&'a JsonValue> {
    let mut cur = v;
    for k in path {
        cur = cur.get(k)?;
    }
    Some(cur)
}

fn str_at<'a>(v: &'a JsonValue, path: &[&str]) -> Option<&'a str> {
    at(v, path).and_then(|x| x.as_str())
}

#[test]
fn migrates_legacy_translation_fields_to_gummy_shape() {
    let migrated = migrate_config_value(&obj(vec![
        (
            "asr",
            obj(vec![
                ("base_url", s("wss://dashscope.aliyuncs.com/api-ws/v1/realtime")),
                ("model", s("qwen3-asr-flash-realtime")),
                ("language", s("中文")),
            ]),
        ),
        (
            "translation",
            obj(vec![
                ("enabled", JsonValue::Bool(true)),
                ("base_url", s("https://dashscope.aliyuncs.com/compatible-mode/v1")),
                ("api_key", s("sk-old")),
                ("model", s("qwen-plus")),
                ("system_prompt", s("legacy")),
                ("target_language", s("English")),
            ]),
        ),
    ]));

    assert_eq!(str_at(&migrated, &["asr", "language"]), Some("zh"));
    assert_eq!(str_at(&migrated, &["asr", "base_url"]), Some("wss://dashscope.aliyuncs.com/api-ws/v1/inference"));
    assert_eq!(str_at(&migrated, &["asr", "model"]), Some("gummy-realtime-v1"));
    assert_eq!(at(&migrated, &["translation", "enabled"]).and_then(|x| x.as_bool()), Some(true));
    assert_eq!(str_at(&migrated, &["translation", "target_language"]), Some("en"));
    assert!(at(&migrated, &["translation", "base_url"]).is_none());
    assert!(at(&migrated, &["translation", "model"]).is_none());
}

#[test]
fn clamps_legacy_vad_silence_to_supported_range() {
    let migrated = migrate_config_value(&obj(vec![("asr", obj(vec![("vad_silence_ms", n(8000))]))]));

    assert_eq!(at(&migrated, &["asr", "vad_silence_ms"]).and_then(|x| x.as_u64()), Some(6000));
}

#[test]
fn preserves_existing_capture_settings() {
    let migrated = migrate_config_value(&obj(vec![(
        "capture",
        obj(vec![("source", s("app")), ("app_pid", n(9527)), ("app_name", s("player.exe"))]),
    )]));

    assert_eq!(str_at(&migrated, &["capture", "source"]), Some("app"));
    assert_eq!(at(&migrated, &["capture", "app_pid"]).and_then(|x| x.as_u64()), Some(9527));
    assert_eq!(str_at(&migrated, &["capture", "app_name"]), Some("player.exe"));
}

#[test]
fn migration_fills_defaults_and_keeps_unknown_members() {
    let migrated = migrate_config_value(&obj(vec![("custom", s("kept")), ("asr", obj(vec![("vad_silence_ms", n(50))]))]));
    assert_eq!(str_at(&migrated, &["custom"]), Some("kept"));
    assert_eq!(at(&migrated, &["asr", "vad_silence_ms"]).and_then(|x| x.as_u64()), Some(200));
    assert_eq!(at(&migrated, &["asr", "sample_rate"]).and_then(|x| x.as_u64()), Some(16000));
    assert_eq!(str_at(&migrated, &["asr", "language"]), Some("auto"));
    assert_eq!(str_at(&migrated, &["asr", "api_key"]), Some(""));
    assert_eq!(at(&migrated, &["translation", "enabled"]).and_then(|x| x.as_bool()), Some(false));
    assert_eq!(str_at(&migrated, &["translation", "target_language"]), Some("en"));
    assert_eq!(str_at(&migrated, &["capture", "source"]), Some("system"));
    assert!(at(&migrated, &["capture", "app_pid"]).map(|x| x.is_null()).unwrap_or(false));
    assert_eq!(at(&migrated, &["save", "auto_save"]).and_then(|x| x.as_bool()), Some(true));
    assert_eq!(at(&migrated, &["filter_fillers"]).and_then(|x| x.as_bool()), Some(false));
}

#[test]
fn migration_of_a_non_object_gives_the_defaults() {
    let migrated = migrate_config_value(&JsonValue::Array(vec![]));
    assert_eq!(str_at(&migrated, &["asr", "model"]), Some("gummy-realtime-v1"));
    assert_eq!(str_at(&migrated, &["asr", "base_url"]), Some("wss://dashscope.aliyuncs.com/api-ws/v1/inference"));
    assert_eq!(at(&migrated, &["asr", "vad_silence_ms"]).and_then(|x| x.as_u64()), Some(800));
}

#[test]
fn migrate_config_text_round_trips_through_json() {
    let text = migrate_config_text(r#"{"asr":{"language":"English","model":"  my-model  "}}"#).unwrap();
    let v: serde_json::Value = serde_json::from_str(&text).unwrap();
    assert_eq!(v["asr"]["language"], "en");
    assert_eq!(v["asr"]["model"], "my-model");
    assert!(migrate_config_text("{not json").is_none());
}

#[test]
fn normalizes_endpoint_and_model() {
    assert_eq!(normalize_asr_base_url("  wss://x/y/// ", "D"), "wss://x/y");
    assert_eq!(normalize_asr_base_url("WSS://DASHSCOPE.ALIYUNCS.COM/api-ws/v1/realtime/", "D"), "D");
    assert_eq!(normalize_asr_model(" Qwen3-ASR-Flash-Realtime ", "D"), "D");
    assert_eq!(normalize_asr_model(" other ", "D"), "other");
}

#[test]
fn merge_value_lays_overrides_over_defaults() {
    let d = obj(vec![("a", n(1)), ("b", obj(vec![("c", n(2)), ("d", n(3))]))]);
    let o = obj(vec![("b", obj(vec![("c", n(9)), ("z", n(0))])), ("a", JsonValue::Null), ("x", n(5))]);
    let m = merge_value(&d, &o);
    assert_eq!(at(&m, &["a"]).and_then(|x| x.as_u64()), Some(1));
    assert_eq!(at(&m, &["b", "c"]).and_then(|x| x.as_u64()), Some(9));
    assert_eq!(at(&m, &["b", "d"]).and_then(|x| x.as_u64()), Some(3));
    assert!(at(&m, &["b", "z"]).is_none());
    assert!(at(&m, &["x"]).is_none());
    let replaced = merge_value(&n(1), &s("t"));
    assert_eq!(replaced.as_str(), Some("t"));
}

#[test]
fn defaults_match_the_service_defaults() {
    let c = AppConfig::default();
    assert_eq!(c.asr.base_url, "wss://dashscope.aliyuncs.com/api-ws/v1/inference");
    assert_eq!(c.asr.model, "gummy-realtime-v1");
    assert_eq!(c.asr.sample_rate, 16000);
    assert_eq!(c.asr.vad_silence_ms, 800);
    assert_eq!(c.asr.language, "auto");
    assert!(c.asr.api_key.is_empty());
    assert!(!c.translation.enabled);
    assert_eq!(c.translation.target_language, "en");
    assert!(c.save.auto_save);
    assert!(c.save.save_path.ends_with("LingSubtitle"));
    assert_eq!(c.capture.source, "system");
    assert_eq!(c.capture.app_pid, None);
    assert!(!c.filter_fillers);
    let _ = (AsrConfig::default(), TranslationConfig::default(), SaveConfig::default(), CaptureConfig::default());
}

#[test]
fn config_to_json_writes_every_section() {
    let c = AppConfig::default();
    let v = c.to_json();
    assert_eq!(str_at(&v, &["asr", "model"]), Some("gummy-realtime-v1"));
    assert_eq!(at(&v, &["asr", "sample_rate"]).and_then(|x| x.as_u64()), Some(16000));
    assert_eq!(str_at(&v, &["capture", "source"]), Some("system"));
    assert!(at(&v, &["capture", "app_pid"]).map(|x| x.is_null()).unwrap_or(false));
    assert_eq!(at(&v, &["filter_fillers"]).and_then(|x| x.as_bool()), Some(false));
}

#[test]
fn migrated_settings_stay_in_range() {
    let migrated = migrate_config_value(&obj(vec![
        ("asr", obj(vec![("vad_silence_ms", n(u64::MAX)), ("language", s("klingon")), ("sample_rate", n(44100))])),
        ("translation", obj(vec![("target_language", s("auto"))])),
    ]));
    let vad = at(&migrated, &["asr", "vad_silence_ms"]).and_then(|x| x.as_u64()).unwrap();
    assert!((200..=6000).contains(&vad));
    assert_eq!(vad, 6000);
    assert_eq!(at(&migrated, &["asr", "sample_rate"]).and_then(|x| x.as_u64()), Some(16000));
    assert_eq!(str_at(&migrated, &["asr", "language"]), Some("auto"));
    assert_eq!(str_at(&migrated, &["translation", "target_language"]), Some("en"));
}

#[test]
fn saved_settings_load_back_unchanged() {
    let mut c = AppConfig::default();
    c.asr.api_key = "sk-saved".to_string();
    c.asr.language = "ja".to_string();
    c.asr.vad_silence_ms = 1200;
    c.asr.vocabulary_id = "vocab".to_string();
    c.translation.enabled = true;
    c.translation.target_language = "zh".to_string();
    c.save.save_path = "/data/subs".to_string();
    c.capture.source = "app".to_string();
    c.capture.app_pid = Some(77);
    c.capture.app_name = "player.exe".to_string();
    c.filter_fillers = true;
    let stored = c.to_json();
    let loaded = migrate_config_value(&stored);
    for key in ["asr", "translation", "save", "capture", "filter_fillers"] {
        assert_eq!(format!("{:?}", loaded.get(key)), format!("{:?}", stored.get(key)), "member {}", key);
    }
    let mut odd = AppConfig::default();
    odd.asr.base_url = "wss://example.com/ws/".to_string();
    let reloaded = migrate_config_value(&odd.to_json());
    assert_eq!(str_at(&reloaded, &["asr", "base_url"]), Some("wss://example.com/ws"));
}
