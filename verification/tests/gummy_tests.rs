use lingsubtitle::gummy::{
    capabilities, is_valid_source_language, is_valid_target_language, language_label,
    normalize_source_language, normalize_target_language, source_languages, target_languages_for,
    validate_language_selection,
};

#[test]
fn normalizes_legacy_language_labels() {
    assert_eq!(normalize_source_language("中文").as_deref(), Some("zh"));
    assert_eq!(normalize_source_language("English").as_deref(), Some("en"));
    assert_eq!(normalize_target_language("日本語").as_deref(), Some("ja"));
    assert_eq!(normalize_target_language("Francais").as_deref(), Some("fr"));
}

#[test]
fn rejects_auto_source_for_translation() {
    let error = validate_language_selection("auto", true, "en").unwrap_err();
    assert!(error.contains("开启翻译时"));
}

#[test]
fn validates_supported_translation_pairs() {
    validate_language_selection("zh", true, "en").unwrap();
    validate_language_selection("en", true, "ur").unwrap();
    assert!(validate_language_selection("zh", true, "pt").is_err());
}

#[test]
fn exposes_target_languages_for_source() {
    let targets = target_languages_for("zh");
    assert!(targets.iter().any(|item| item.code == "en"));
    assert!(targets.iter().any(|item| item.code == "ja"));
}

#[test]
fn normalization_trims_and_lowers_ascii_only() {
    assert_eq!(normalize_source_language("  AUTO \t").as_deref(), Some("auto"));
    assert_eq!(normalize_target_language("auto"), None);
    assert_eq!(normalize_source_language(""), None);
    assert_eq!(normalize_source_language("   "), None);
    assert_eq!(normalize_source_language("klingon"), None);
    assert_eq!(normalize_target_language("Bahasa Melayu").as_deref(), Some("ms"));
    assert_eq!(normalize_target_language("FRANÇAIS").as_deref(), None);
    assert_eq!(normalize_target_language("français").as_deref(), Some("fr"));
}

#[test]
fn pair_error_names_both_labels() {
    let error = validate_language_selection("zh", true, "pt").unwrap_err();
    assert_eq!(error, "Gummy 当前不支持 中文 -> 葡萄牙语 这组实时翻译语言，请重新选择。");
    let error = validate_language_selection("klingon", true, "en").unwrap_err();
    assert_eq!(error, "当前识别语言不在 Gummy 支持范围内。");
    let error = validate_language_selection("zh", true, "xx").unwrap_err();
    assert_eq!(error, "当前翻译目标语言不在 Gummy 支持范围内。");
    let error = validate_language_selection("xx", false, "en").unwrap_err();
    assert_eq!(error, "当前识别语言不在 Gummy 支持范围内。");
    validate_language_selection("auto", false, "whatever").unwrap();
}

#[test]
fn source_validity_respects_auto_flag() {
    assert!(is_valid_source_language("auto", true));
    assert!(!is_valid_source_language("auto", false));
    assert!(is_valid_source_language("yue", false));
    assert!(!is_valid_source_language("vi", true));
    assert!(is_valid_target_language("vi"));
    assert!(!is_valid_target_language("auto"));
    assert_eq!(language_label("ko"), Some("韩语"));
    assert_eq!(language_label("xx"), None);
}

#[test]
fn capabilities_follow_the_tables() {
    let caps = capabilities();
    assert_eq!(caps.source_languages.len(), 21);
    assert_eq!(caps.source_languages[0].code, "auto");
    assert_eq!(caps.source_languages[0].label, "自动识别");
    assert_eq!(caps.target_languages_by_source.len(), 20);
    assert_eq!(caps.target_languages_by_source[0].0, "ar");
    assert_eq!(caps.target_languages_by_source[18].0, "vi");
    assert_eq!(caps.target_languages_by_source[19].0, "zh");
    let keys: Vec<&str> = caps.target_languages_by_source.iter().map(|(k, _)| k.as_str()).collect();
    let mut sorted = keys.clone();
    sorted.sort();
    sorted.dedup();
    assert_eq!(keys, sorted);
    let vi: Vec<&str> = caps.target_languages_by_source[18].1.iter().map(|o| o.code.as_str()).collect();
    assert_eq!(vi, vec!["ja", "fr"]);
    assert_eq!(caps.defaults.model, "gummy-realtime-v1");
    assert_eq!(caps.defaults.sample_rate, 16000);
    assert_eq!(source_languages().len(), 21);
    assert!(target_languages_for("yue").is_empty());
    assert_eq!(target_languages_for("vi").len(), 2);
}

#[test]
fn normalized_codes_normalize_to_themselves() {
    for name in ["中文", "English", "日本語", "Francais", "русский", "tieng viet", "AUTO"] {
        let code = normalize_source_language(name).unwrap();
        assert_eq!(normalize_source_language(&code).as_deref(), Some(code.as_str()));
    }
}

#[test]
fn vietnamese_is_offered_targets_it_cannot_use() {
    assert_eq!(normalize_source_language("越南语").as_deref(), Some("vi"));
    assert!(!is_valid_source_language("vi", true));
    assert!(!target_languages_for("vi").is_empty());
    assert!(validate_language_selection("vi", true, "ja").is_err());
    validate_language_selection("th", true, "vi").unwrap();
}

#[test]
fn offered_languages_are_accepted() {
    for option in source_languages() {
        validate_language_selection(&option.code, false, "anything").unwrap();
    }
    let caps = capabilities();
    for (source, targets) in &caps.target_languages_by_source {
        let offered: Vec<String> = target_languages_for(source).into_iter().map(|o| o.code).collect();
        let row: Vec<String> = targets.iter().map(|o| o.code.clone()).collect();
        assert_eq!(offered, row);
        if source != "vi" {
            for target in &row {
                validate_language_selection(source, true, target).unwrap();
            }
        }
    }
    for name in ["english", " 日语 ", "Nederlands", "tieng viet"] {
        let code = normalize_target_language(name).unwrap();
        assert!(is_valid_target_language(&code));
    }
}

#[test]
fn normalization_laws_on_examples() {
    for name in ["  EnGlish\t", "中文", " ", "AUTO", "Tieng Viet", "klingon"] {
        let lowered = name.trim().to_ascii_lowercase();
        assert_eq!(normalize_source_language(name), normalize_source_language(&lowered));
        let as_target = normalize_source_language(name).filter(|c| c != "auto");
        assert_eq!(normalize_target_language(name), as_target);
        if let Some(code) = normalize_source_language(name) {
            assert!(language_label(&code).is_some());
        }
    }
    assert_eq!(normalize_source_language(" \t"), None);
}
