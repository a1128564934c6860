use lingsubtitle::asr::GummyErrorInfo;
use lingsubtitle::config::AppConfig;
use lingsubtitle::control::{asr_failure_payload, check_gummy_config, prepare_capture};
use lingsubtitle::segments::SubtitleState;
use lingsubtitle::subtitle::SubtitleManager;

fn ready_config() -> AppConfig {
    let mut c = AppConfig::default();
    c.asr.api_key = "sk-live".to_string();
    c
}

#[test]
fn default_config_is_not_ready_without_a_key() {
    let r = check_gummy_config(&AppConfig::default());
    assert!(!r.ready);
    assert_eq!(r.message, "Gummy API Key 尚未配置。");
    let r = check_gummy_config(&ready_config());
    assert!(r.ready);
    assert_eq!(r.message, "ok");
}

#[test]
fn capture_opens_the_next_session() {
    let mut st = SubtitleState::new();
    let mut m = SubtitleManager::new("/tmp/old");
    let mut c = ready_config();
    c.capture.source = "app".to_string();
    c.capture.app_pid = Some(321);
    c.save.save_path = "/tmp/s".to_string();
    let plan = prepare_capture(&c, &mut st, &mut m).unwrap();
    assert_eq!(m.get_save_path(), "/tmp/s");
    let file = m.get_current_file().unwrap();
    assert!(file.starts_with("/tmp/s/字幕_") && file.ends_with(".txt"));
    assert_eq!(plan.recording_session_id, 2);
    assert_eq!(st.current.session_id, 2);
    assert_eq!(plan.process_id, Some(321));
    assert_eq!(plan.save_path, "/tmp/s");
    assert!(plan.session_config.auto_save);
    assert!(!plan.session_config.translation_enabled);
    c.capture.source = "system".to_string();
    let plan = prepare_capture(&c, &mut st, &mut m).unwrap();
    assert_eq!(plan.recording_session_id, 3);
    assert_eq!(plan.process_id, None);
}

#[test]
fn capture_refuses_bad_settings() {
    let mut st = SubtitleState::new();
    let mut m = SubtitleManager::new("/tmp/old");
    let mut c = ready_config();
    c.translation.enabled = true;
    let err = prepare_capture(&c, &mut st, &mut m).unwrap_err();
    assert!(err.contains("开启翻译时"));
    assert_eq!(st.current.session_id, 1);
    assert_eq!(m.get_save_path(), "/tmp/old");
    assert_eq!(m.get_current_file(), None);
}

#[test]
fn failure_payload_carries_the_error() {
    let e = GummyErrorInfo {
        kind: "network_dns".to_string(),
        message: "boom".to_string(),
        provider: "dashscopeGummy".to_string(),
        resolved_url: "wss://h".to_string(),
        model: "m".to_string(),
        error_code: None,
    };
    let p = asr_failure_payload(e);
    assert_eq!(p.scope, "asr");
    assert_eq!(p.message, "boom");
    assert_eq!(p.segment_id, None);
    assert_eq!(p.error_kind.as_deref(), Some("network_dns"));
    assert_eq!(p.resolved_url.as_deref(), Some("wss://h"));
}

#[test]
fn bad_settings_are_refused_even_at_the_last_session_number() {
    let mut st = SubtitleState::new();
    st.current.session_id = u64::MAX;
    let mut m = SubtitleManager::new("/tmp/old");
    let err = prepare_capture(&AppConfig::default(), &mut st, &mut m).unwrap_err();
    assert_eq!(err, "Gummy API Key 尚未配置。");
    assert_eq!(st.current.session_id, u64::MAX);
}
