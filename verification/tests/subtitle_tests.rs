use lingsubtitle::subtitle::{entry_text, SubtitleEntry, SubtitleManager};

#[test]
fn entry_text_writes_original_then_translation() {
    let e = SubtitleEntry {
        timestamp: "14:30:15".to_string(),
        original: "Hello, welcome to the meeting.".to_string(),
        translated: Some("你好，欢迎参加会议。".to_string()),
    };
    assert_eq!(entry_text(&e), "[14:30:15] Hello, welcome to the meeting.\n[14:30:15] 你好，欢迎参加会议。\n\n");
    let only = SubtitleEntry { timestamp: "14:30:22".to_string(), original: "Hi".to_string(), translated: None };
    assert_eq!(entry_text(&only), "[14:30:22] Hi\n\n");
}

#[test]
fn manager_needs_a_session_before_saving() {
    let m = SubtitleManager::new("/tmp/subs");
    let e = SubtitleEntry { timestamp: "t".to_string(), original: "o".to_string(), translated: None };
    assert_eq!(m.save_entry(&e).unwrap_err(), "No active session");
    assert_eq!(m.get_current_file(), None);
    assert_eq!(m.get_save_path(), "/tmp/subs");
}

#[test]
fn session_file_is_named_after_its_start() {
    let mut m = SubtitleManager::new("/tmp/subs");
    m.start_new_session_at("2024-01-02_03-04-05");
    assert_eq!(m.get_current_file().as_deref(), Some("/tmp/subs/字幕_2024-01-02_03-04-05.txt"));
    let e = SubtitleEntry { timestamp: "t".to_string(), original: "o".to_string(), translated: Some("x".to_string()) };
    let w = m.save_entry(&e).unwrap();
    assert_eq!(w.path, "/tmp/subs/字幕_2024-01-02_03-04-05.txt");
    assert_eq!(w.text, "[t] o\n[t] x\n\n");
    m.update_save_path("/tmp/other");
    assert_eq!(m.get_save_path(), "/tmp/other");
    assert_eq!(m.get_current_file().as_deref(), Some("/tmp/subs/字幕_2024-01-02_03-04-05.txt"));
}

#[test]
fn new_session_uses_the_local_time() {
    let mut m = SubtitleManager::new("/tmp/subs");
    m.start_new_session();
    let f = m.get_current_file().unwrap();
    let name = f.strip_prefix("/tmp/subs/").unwrap();
    assert!(name.starts_with("字幕_"));
    assert!(name.ends_with(".txt"));
    let stamp = name.trim_start_matches("字幕_").trim_end_matches(".txt");
    assert_eq!(stamp.len(), 19);
    assert_eq!(&stamp[4..5], "-");
    assert_eq!(&stamp[10..11], "_");
}
