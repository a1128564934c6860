use lingsubtitle::asr::AsrSegmentUpdate;
use lingsubtitle::segments::{
    apply_asr_update, process_asr_result, SegmentState, SessionConfigSnapshot, SubtitleState,
    TranslationStatus,
};

fn cfg(translation_enabled: bool, auto_save: bool) -> SessionConfigSnapshot {
    SessionConfigSnapshot { translation_enabled, auto_save, asr_base_url: "wss://h/ws".to_string() }
}

fn update(id: u64, text: &str, translated: Option<&str>, is_final: bool) -> AsrSegmentUpdate {
    AsrSegmentUpdate {
        sentence_id: id,
        begin_time_ms: None,
        end_time_ms: None,
        original_text: text.to_string(),
        translated_text: translated.map(|t| t.to_string()),
        is_final,
    }
}

#[test]
fn streaming_then_final_sentence() {
    let c = cfg(true, true);
    let mut st = SubtitleState::new();
    let e = apply_asr_update(&c, &mut st, 1, update(5, " hel ", Some(" 你 "), false), 1000, "10:00:00");
    let p = e.upsert.unwrap();
    assert_eq!(p.segment_id, 5);
    assert_eq!(p.session_id, 1);
    assert_eq!(p.original_text, "hel");
    assert_eq!(p.translated_draft_text.as_deref(), Some("你"));
    assert_eq!(p.translated_text, None);
    assert_eq!(p.state, SegmentState::Streaming);
    assert!(!p.is_final);
    assert_eq!(p.revision, 1);
    assert_eq!(p.translation_status, TranslationStatus::Streaming);
    assert_eq!(p.translation_started_at, Some(1000));
    assert_eq!(p.timestamp, "10:00:00");
    assert!(e.save_entry.is_none() && e.legacy_original.is_none());

    let e = apply_asr_update(&c, &mut st, 1, update(5, "hello", Some("你好"), true), 2000, "10:00:09");
    let p = e.upsert.unwrap();
    assert_eq!(p.revision, 2);
    assert_eq!(p.translated_text.as_deref(), Some("你好"));
    assert_eq!(p.translated_draft_text, None);
    assert_eq!(p.translation_status, TranslationStatus::Completed);
    assert_eq!(p.translation_started_at, Some(1000));
    assert_eq!(p.translation_finished_at, Some(2000));
    assert_eq!(p.timestamp, "10:00:00");
    assert!(p.is_final);
    assert_eq!(e.legacy_original.as_deref(), Some("hello"));
    assert_eq!(e.legacy_translated.as_deref(), Some("你好"));
    let saved = e.save_entry.unwrap();
    assert_eq!(saved.original, "hello");
    assert_eq!(saved.translated.as_deref(), Some("你好"));
    assert_eq!(saved.timestamp, "10:00:00");
    assert!(e.translation_error.is_none());

    let e = apply_asr_update(&c, &mut st, 1, update(5, "hello!", Some("你好！"), true), 3000, "x");
    assert!(e.save_entry.is_none());
    assert_eq!(e.upsert.unwrap().revision, 3);
}

#[test]
fn final_sentence_without_translation_is_reported() {
    let c = cfg(true, false);
    let mut st = SubtitleState::new();
    let e = apply_asr_update(&c, &mut st, 1, update(2, "hi", Some("   "), true), 10, "t");
    let p = e.upsert.unwrap();
    assert!(p.translation_error);
    assert_eq!(p.translation_status, TranslationStatus::Failed);
    assert_eq!(p.translation_finished_at, Some(10));
    let err = e.translation_error.unwrap();
    assert_eq!(err.scope, "translation");
    assert_eq!(err.segment_id, Some(2));
    assert_eq!(err.error_kind.as_deref(), Some("missing_final_translation"));
    assert_eq!(err.provider.as_deref(), Some("dashscopeGummy"));
    assert_eq!(err.resolved_url.as_deref(), Some("wss://h/ws"));
    assert_eq!(err.message, "Gummy 已返回最终句，但没有给出对应译文，请检查语言对或服务端任务状态。");
    assert!(e.save_entry.is_none());
}

#[test]
fn other_session_or_empty_sentence_changes_nothing() {
    let c = cfg(false, true);
    let mut st = SubtitleState::new();
    let e = apply_asr_update(&c, &mut st, 2, update(1, "hi", None, true), 0, "t");
    assert!(e.upsert.is_none() && e.save_entry.is_none());
    let e = apply_asr_update(&c, &mut st, 1, update(1, "   ", None, true), 0, "t");
    assert!(e.upsert.is_none());
    assert!(st.current.segments.is_empty());
}

#[test]
fn translation_off_clears_translation() {
    let c = cfg(false, true);
    let mut st = SubtitleState::new();
    let e = apply_asr_update(&c, &mut st, 1, update(1, "hi", Some("嗨"), true), 0, "t");
    let p = e.upsert.unwrap();
    assert_eq!(p.translated_text, None);
    assert_eq!(p.translation_status, TranslationStatus::Idle);
    assert_eq!(p.translation_started_at, None);
    assert!(e.translation_error.is_none());
    assert_eq!(e.save_entry.unwrap().translated, None);
}

#[test]
fn process_asr_result_stamps_local_time() {
    let c = cfg(false, false);
    let mut st = SubtitleState::new();
    let e = process_asr_result(&c, &mut st, 1, update(9, "ok", None, false));
    let p = e.upsert.unwrap();
    assert_eq!(p.timestamp.len(), 8);
    assert_eq!(p.timestamp.as_bytes()[2], b':');
    assert_eq!(st.current.segments.len(), 1);
    assert!(st.current.segments[&9].to_payload().revision == 1);
}
