//! The languages that the recognition service handles, which source may be
//! translated into which target, and the validation of a language selection.

use vstd::prelude::*;

use crate::text::{
    ascii_lower, ascii_lower_str, concat, lemma_ascii_lower_shape, lemma_trim_shape, lemma_trimmed_is_fixed, owned,
    lemma_text_le_total, lemma_text_le_trans, str_eq, text_le, trim, trim_str,
};

verus! {

/// Default WebSocket endpoint of the recognition service.
pub const DEFAULT_BASE_URL: &'static str = "wss://dashscope.aliyuncs.com/api-ws/v1/inference";

/// Default recognition model.
pub const DEFAULT_MODEL: &'static str = "gummy-realtime-v1";

/// The only sample rate that the audio pipeline produces.
pub const DEFAULT_SAMPLE_RATE: u32 = 16000;

/// Default end-of-sentence silence threshold in milliseconds.
pub const DEFAULT_VAD_SILENCE_MS: u32 = 800;

/// Default recognition language.
pub const DEFAULT_SOURCE_LANGUAGE: &'static str = "auto";

/// Default translation target language.
pub const DEFAULT_TARGET_LANGUAGE: &'static str = "en";

/// Every language code that the service knows, as a source, a target or both.
#[derive(Clone, Copy, Debug, PartialEq, Eq, Structural)]
pub enum Language {
    Auto,
    Zh,
    En,
    Ja,
    Ko,
    Yue,
    De,
    Fr,
    Ru,
    Es,
    It,
    Pt,
    Id,
    Ar,
    Th,
    Hi,
    Da,
    Ur,
    Tr,
    Nl,
    Ms,
    Vi,
}

/// The code of a language, such as `zh`.
pub open spec fn code_of(l: Language) -> Seq<char> {
    match l {
        Language::Auto => "auto"@,
        Language::Zh => "zh"@,
        Language::En => "en"@,
        Language::Ja => "ja"@,
        Language::Ko => "ko"@,
        Language::Yue => "yue"@,
        Language::De => "de"@,
        Language::Fr => "fr"@,
        Language::Ru => "ru"@,
        Language::Es => "es"@,
        Language::It => "it"@,
        Language::Pt => "pt"@,
        Language::Id => "id"@,
        Language::Ar => "ar"@,
        Language::Th => "th"@,
        Language::Hi => "hi"@,
        Language::Da => "da"@,
        Language::Ur => "ur"@,
        Language::Tr => "tr"@,
        Language::Nl => "nl"@,
        Language::Ms => "ms"@,
        Language::Vi => "vi"@,
    }
}

/// The display label of a language.
pub open spec fn label_of(l: Language) -> Seq<char> {
    match l {
        Language::Auto => "自动识别"@,
        Language::Zh => "中文"@,
        Language::En => "英语"@,
        Language::Ja => "日语"@,
        Language::Ko => "韩语"@,
        Language::Yue => "粤语"@,
        Language::De => "德语"@,
        Language::Fr => "法语"@,
        Language::Ru => "俄语"@,
        Language::Es => "西班牙语"@,
        Language::It => "意大利语"@,
        Language::Pt => "葡萄牙语"@,
        Language::Id => "印尼语"@,
        Language::Ar => "阿拉伯语"@,
        Language::Th => "泰语"@,
        Language::Hi => "印地语"@,
        Language::Da => "丹麦语"@,
        Language::Ur => "乌尔都语"@,
        Language::Tr => "土耳其语"@,
        Language::Nl => "荷兰语"@,
        Language::Ms => "马来语"@,
        Language::Vi => "越南语"@,
    }
}

/// The language whose code is `s`, if any.
pub open spec fn language_of_code(s: Seq<char>) -> Option<Language> {
    if s == "auto"@ {
        Some(Language::Auto)
    } else if s == "zh"@ {
        Some(Language::Zh)
    } else if s == "en"@ {
        Some(Language::En)
    } else if s == "ja"@ {
        Some(Language::Ja)
    } else if s == "ko"@ {
        Some(Language::Ko)
    } else if s == "yue"@ {
        Some(Language::Yue)
    } else if s == "de"@ {
        Some(Language::De)
    } else if s == "fr"@ {
        Some(Language::Fr)
    } else if s == "ru"@ {
        Some(Language::Ru)
    } else if s == "es"@ {
        Some(Language::Es)
    } else if s == "it"@ {
        Some(Language::It)
    } else if s == "pt"@ {
        Some(Language::Pt)
    } else if s == "id"@ {
        Some(Language::Id)
    } else if s == "ar"@ {
        Some(Language::Ar)
    } else if s == "th"@ {
        Some(Language::Th)
    } else if s == "hi"@ {
        Some(Language::Hi)
    } else if s == "da"@ {
        Some(Language::Da)
    } else if s == "ur"@ {
        Some(Language::Ur)
    } else if s == "tr"@ {
        Some(Language::Tr)
    } else if s == "nl"@ {
        Some(Language::Nl)
    } else if s == "ms"@ {
        Some(Language::Ms)
    } else if s == "vi"@ {
        Some(Language::Vi)
    } else {
        None
    }
}

/// The recognition languages, in the order in which they are offered.
pub open spec fn source_list() -> Seq<Language> {
    seq![Language::Auto, Language::Zh, Language::En, Language::Ja, Language::Ko, Language::Yue, Language::De, Language::Fr, Language::Ru, Language::Es, Language::It, Language::Pt, Language::Id, Language::Ar, Language::Th, Language::Hi, Language::Da, Language::Ur, Language::Tr, Language::Nl, Language::Ms]
}

/// The sources of the translation matrix, in its order.
pub open spec fn matrix_sources() -> Seq<Language> {
    seq![Language::Zh, Language::En, Language::Ja, Language::Ko, Language::Fr, Language::De, Language::Es, Language::Ru, Language::It, Language::Pt, Language::Id, Language::Ar, Language::Th, Language::Hi, Language::Da, Language::Ur, Language::Tr, Language::Nl, Language::Ms, Language::Vi]
}

/// The sources of the translation matrix, ordered by code as `String` orders
/// text: the order in which the capability table lists them.
pub open spec fn sources_by_code() -> Seq<Language> {
    seq![Language::Ar, Language::Da, Language::De, Language::En, Language::Es, Language::Fr, Language::Hi, Language::Id, Language::It, Language::Ja, Language::Ko, Language::Ms, Language::Nl, Language::Pt, Language::Ru, Language::Th, Language::Tr, Language::Ur, Language::Vi, Language::Zh]
}

/// Whether the codes of `ls` strictly increase in the order of `String`, so
/// that no code occurs twice.
pub open spec fn codes_increasing(ls: Seq<Language>) -> bool {
    forall|i: int, j: int| 0 <= i < j < ls.len() ==> !text_le(#[trigger] code_of(ls[j]), #[trigger] code_of(ls[i]))
}

/// The targets into which `s` may be translated, in matrix order; empty for a
/// language that has no row in the matrix.
pub open spec fn target_row(s: Language) -> Seq<Language> {
    match s {
        Language::Zh => seq![Language::En, Language::Ja, Language::Ko, Language::Fr, Language::De, Language::Es, Language::Ru, Language::It],
        Language::En => seq![Language::Zh, Language::Ja, Language::Ko, Language::Pt, Language::Fr, Language::De, Language::Ru, Language::Vi, Language::Es, Language::Nl, Language::Da, Language::Ar, Language::It, Language::Hi, Language::Yue, Language::Tr, Language::Ms, Language::Ur, Language::Id],
        Language::Ja => seq![Language::Th, Language::En, Language::Zh, Language::Vi, Language::Fr, Language::It, Language::De, Language::Es],
        Language::Ko => seq![Language::Th, Language::En, Language::Zh, Language::Vi, Language::Fr, Language::Es, Language::Ru, Language::De],
        Language::De => seq![Language::Th, Language::En, Language::Ja, Language::Zh, Language::Fr, Language::Vi, Language::Ru, Language::Es, Language::It, Language::Pt],
        Language::Fr => seq![Language::Th, Language::En, Language::Ja, Language::Zh, Language::Vi, Language::De, Language::It, Language::Es, Language::Ru, Language::Pt],
        Language::Ru => seq![Language::Th, Language::En, Language::Ja, Language::Zh, Language::Fr, Language::Vi, Language::De, Language::Es, Language::It, Language::Yue, Language::Pt],
        Language::Es => seq![Language::Th, Language::En, Language::Ja, Language::Zh, Language::Fr, Language::Vi, Language::It, Language::De, Language::Ru, Language::Pt],
        Language::It => seq![Language::Th, Language::En, Language::Ja, Language::Zh, Language::Fr, Language::Vi, Language::Es, Language::Ru, Language::De],
        Language::Pt => seq![Language::En],
        Language::Id => seq![Language::En],
        Language::Ar => seq![Language::En],
        Language::Th => seq![Language::Ja, Language::Vi, Language::Fr],
        Language::Hi => seq![Language::En],
        Language::Da => seq![Language::En],
        Language::Ur => seq![Language::En],
        Language::Tr => seq![Language::En],
        Language::Nl => seq![Language::En],
        Language::Ms => seq![Language::En],
        Language::Vi => seq![Language::Ja, Language::Fr],
        _ => Seq::empty(),
    }
}

/// The aliases by which a language may be written in older configurations,
/// in lookup order.
pub open spec fn alias_table() -> Seq<(&'static str, Language)> {
    seq![
        ("auto", Language::Auto),
        ("自动", Language::Auto),
        ("自动识别", Language::Auto),
        ("zh", Language::Zh),
        ("中文", Language::Zh),
        ("简体中文", Language::Zh),
        ("汉语", Language::Zh),
        ("en", Language::En),
        ("english", Language::En),
        ("英语", Language::En),
        ("ja", Language::Ja),
        ("日本語", Language::Ja),
        ("日语", Language::Ja),
        ("日文", Language::Ja),
        ("ko", Language::Ko),
        ("한국어", Language::Ko),
        ("韩语", Language::Ko),
        ("de", Language::De),
        ("deutsch", Language::De),
        ("德语", Language::De),
        ("fr", Language::Fr),
        ("francais", Language::Fr),
        ("français", Language::Fr),
        ("法语", Language::Fr),
        ("ru", Language::Ru),
        ("русский", Language::Ru),
        ("俄语", Language::Ru),
        ("es", Language::Es),
        ("espanol", Language::Es),
        ("español", Language::Es),
        ("西语", Language::Es),
        ("西班牙语", Language::Es),
        ("it", Language::It),
        ("italiano", Language::It),
        ("意大利语", Language::It),
        ("pt", Language::Pt),
        ("português", Language::Pt),
        ("portugues", Language::Pt),
        ("葡萄牙语", Language::Pt),
        ("id", Language::Id),
        ("bahasa indonesia", Language::Id),
        ("印尼语", Language::Id),
        ("ar", Language::Ar),
        ("العربية", Language::Ar),
        ("阿拉伯语", Language::Ar),
        ("th", Language::Th),
        ("ไทย", Language::Th),
        ("泰语", Language::Th),
        ("yue", Language::Yue),
        ("粤语", Language::Yue),
        ("hi", Language::Hi),
        ("हिन्दी", Language::Hi),
        ("印地语", Language::Hi),
        ("da", Language::Da),
        ("dansk", Language::Da),
        ("丹麦语", Language::Da),
        ("ur", Language::Ur),
        ("اردو", Language::Ur),
        ("乌尔都语", Language::Ur),
        ("tr", Language::Tr),
        ("türkçe", Language::Tr),
        ("turkce", Language::Tr),
        ("土耳其语", Language::Tr),
        ("nl", Language::Nl),
        ("nederlands", Language::Nl),
        ("荷兰语", Language::Nl),
        ("ms", Language::Ms),
        ("bahasa melayu", Language::Ms),
        ("马来语", Language::Ms),
        ("vi", Language::Vi),
        ("tiếng việt", Language::Vi),
        ("tieng viet", Language::Vi),
        ("越南语", Language::Vi),
    ]
}

/// The code of `l`.
pub fn code_str(l: Language) -> (r: &'static str)
    ensures
        r@ == code_of(l),
{
    match l {
        Language::Auto => "auto",
        Language::Zh => "zh",
        Language::En => "en",
        Language::Ja => "ja",
        Language::Ko => "ko",
        Language::Yue => "yue",
        Language::De => "de",
        Language::Fr => "fr",
        Language::Ru => "ru",
        Language::Es => "es",
        Language::It => "it",
        Language::Pt => "pt",
        Language::Id => "id",
        Language::Ar => "ar",
        Language::Th => "th",
        Language::Hi => "hi",
        Language::Da => "da",
        Language::Ur => "ur",
        Language::Tr => "tr",
        Language::Nl => "nl",
        Language::Ms => "ms",
        Language::Vi => "vi",
    }
}

/// The display label of `l`.
pub fn label_str(l: Language) -> (r: &'static str)
    ensures
        r@ == label_of(l),
{
    match l {
        Language::Auto => "自动识别",
        Language::Zh => "中文",
        Language::En => "英语",
        Language::Ja => "日语",
        Language::Ko => "韩语",
        Language::Yue => "粤语",
        Language::De => "德语",
        Language::Fr => "法语",
        Language::Ru => "俄语",
        Language::Es => "西班牙语",
        Language::It => "意大利语",
        Language::Pt => "葡萄牙语",
        Language::Id => "印尼语",
        Language::Ar => "阿拉伯语",
        Language::Th => "泰语",
        Language::Hi => "印地语",
        Language::Da => "丹麦语",
        Language::Ur => "乌尔都语",
        Language::Tr => "土耳其语",
        Language::Nl => "荷兰语",
        Language::Ms => "马来语",
        Language::Vi => "越南语",
    }
}

/// The language whose code is `code`, if any.
pub fn language_from_code(code: &str) -> (r: Option<Language>)
    ensures
        r == language_of_code(code@),
{
    if str_eq(code, "auto") {
        Some(Language::Auto)
    } else if str_eq(code, "zh") {
        Some(Language::Zh)
    } else if str_eq(code, "en") {
        Some(Language::En)
    } else if str_eq(code, "ja") {
        Some(Language::Ja)
    } else if str_eq(code, "ko") {
        Some(Language::Ko)
    } else if str_eq(code, "yue") {
        Some(Language::Yue)
    } else if str_eq(code, "de") {
        Some(Language::De)
    } else if str_eq(code, "fr") {
        Some(Language::Fr)
    } else if str_eq(code, "ru") {
        Some(Language::Ru)
    } else if str_eq(code, "es") {
        Some(Language::Es)
    } else if str_eq(code, "it") {
        Some(Language::It)
    } else if str_eq(code, "pt") {
        Some(Language::Pt)
    } else if str_eq(code, "id") {
        Some(Language::Id)
    } else if str_eq(code, "ar") {
        Some(Language::Ar)
    } else if str_eq(code, "th") {
        Some(Language::Th)
    } else if str_eq(code, "hi") {
        Some(Language::Hi)
    } else if str_eq(code, "da") {
        Some(Language::Da)
    } else if str_eq(code, "ur") {
        Some(Language::Ur)
    } else if str_eq(code, "tr") {
        Some(Language::Tr)
    } else if str_eq(code, "nl") {
        Some(Language::Nl)
    } else if str_eq(code, "ms") {
        Some(Language::Ms)
    } else if str_eq(code, "vi") {
        Some(Language::Vi)
    } else {
        None
    }
}

fn source_list_exec() -> (r: Vec<Language>)
    ensures
        r@ == source_list(),
{
    let r = vec![Language::Auto, Language::Zh, Language::En, Language::Ja, Language::Ko, Language::Yue, Language::De, Language::Fr, Language::Ru, Language::Es, Language::It, Language::Pt, Language::Id, Language::Ar, Language::Th, Language::Hi, Language::Da, Language::Ur, Language::Tr, Language::Nl, Language::Ms];
    assert(r@ =~= source_list());
    r
}

fn matrix_sources_exec() -> (r: Vec<Language>)
    ensures
        r@ == matrix_sources(),
{
    let r = vec![Language::Zh, Language::En, Language::Ja, Language::Ko, Language::Fr, Language::De, Language::Es, Language::Ru, Language::It, Language::Pt, Language::Id, Language::Ar, Language::Th, Language::Hi, Language::Da, Language::Ur, Language::Tr, Language::Nl, Language::Ms, Language::Vi];
    assert(r@ =~= matrix_sources());
    r
}

fn sources_by_code_exec() -> (r: Vec<Language>)
    ensures
        r@ == sources_by_code(),
{
    let r = vec![Language::Ar, Language::Da, Language::De, Language::En, Language::Es, Language::Fr, Language::Hi, Language::Id, Language::It, Language::Ja, Language::Ko, Language::Ms, Language::Nl, Language::Pt, Language::Ru, Language::Th, Language::Tr, Language::Ur, Language::Vi, Language::Zh];
    assert(r@ =~= sources_by_code());
    r
}

fn target_row_exec(s: Language) -> (r: Vec<Language>)
    ensures
        r@ == target_row(s),
{
    let r = match s {
        Language::Zh => vec![Language::En, Language::Ja, Language::Ko, Language::Fr, Language::De, Language::Es, Language::Ru, Language::It],
        Language::En => vec![Language::Zh, Language::Ja, Language::Ko, Language::Pt, Language::Fr, Language::De, Language::Ru, Language::Vi, Language::Es, Language::Nl, Language::Da, Language::Ar, Language::It, Language::Hi, Language::Yue, Language::Tr, Language::Ms, Language::Ur, Language::Id],
        Language::Ja => vec![Language::Th, Language::En, Language::Zh, Language::Vi, Language::Fr, Language::It, Language::De, Language::Es],
        Language::Ko => vec![Language::Th, Language::En, Language::Zh, Language::Vi, Language::Fr, Language::Es, Language::Ru, Language::De],
        Language::De => vec![Language::Th, Language::En, Language::Ja, Language::Zh, Language::Fr, Language::Vi, Language::Ru, Language::Es, Language::It, Language::Pt],
        Language::Fr => vec![Language::Th, Language::En, Language::Ja, Language::Zh, Language::Vi, Language::De, Language::It, Language::Es, Language::Ru, Language::Pt],
        Language::Ru => vec![Language::Th, Language::En, Language::Ja, Language::Zh, Language::Fr, Language::Vi, Language::De, Language::Es, Language::It, Language::Yue, Language::Pt],
        Language::Es => vec![Language::Th, Language::En, Language::Ja, Language::Zh, Language::Fr, Language::Vi, Language::It, Language::De, Language::Ru, Language::Pt],
        Language::It => vec![Language::Th, Language::En, Language::Ja, Language::Zh, Language::Fr, Language::Vi, Language::Es, Language::Ru, Language::De],
        Language::Pt => vec![Language::En],
        Language::Id => vec![Language::En],
        Language::Ar => vec![Language::En],
        Language::Th => vec![Language::Ja, Language::Vi, Language::Fr],
        Language::Hi => vec![Language::En],
        Language::Da => vec![Language::En],
        Language::Ur => vec![Language::En],
        Language::Tr => vec![Language::En],
        Language::Nl => vec![Language::En],
        Language::Ms => vec![Language::En],
        Language::Vi => vec![Language::Ja, Language::Fr],
        _ => Vec::new(),
    };
    assert(r@ =~= target_row(s));
    r
}

fn alias_table_exec() -> (r: Vec<(&'static str, Language)>)
    ensures
        r@ == alias_table(),
{
    let r = vec![
        ("auto", Language::Auto),
        ("自动", Language::Auto),
        ("自动识别", Language::Auto),
        ("zh", Language::Zh),
        ("中文", Language::Zh),
        ("简体中文", Language::Zh),
        ("汉语", Language::Zh),
        ("en", Language::En),
        ("english", Language::En),
        ("英语", Language::En),
        ("ja", Language::Ja),
        ("日本語", Language::Ja),
        ("日语", Language::Ja),
        ("日文", Language::Ja),
        ("ko", Language::Ko),
        ("한국어", Language::Ko),
        ("韩语", Language::Ko),
        ("de", Language::De),
        ("deutsch", Language::De),
        ("德语", Language::De),
        ("fr", Language::Fr),
        ("francais", Language::Fr),
        ("français", Language::Fr),
        ("法语", Language::Fr),
        ("ru", Language::Ru),
        ("русский", Language::Ru),
        ("俄语", Language::Ru),
        ("es", Language::Es),
        ("espanol", Language::Es),
        ("español", Language::Es),
        ("西语", Language::Es),
        ("西班牙语", Language::Es),
        ("it", Language::It),
        ("italiano", Language::It),
        ("意大利语", Language::It),
        ("pt", Language::Pt),
        ("português", Language::Pt),
        ("portugues", Language::Pt),
        ("葡萄牙语", Language::Pt),
        ("id", Language::Id),
        ("bahasa indonesia", Language::Id),
        ("印尼语", Language::Id),
        ("ar", Language::Ar),
        ("العربية", Language::Ar),
        ("阿拉伯语", Language::Ar),
        ("th", Language::Th),
        ("ไทย", Language::Th),
        ("泰语", Language::Th),
        ("yue", Language::Yue),
        ("粤语", Language::Yue),
        ("hi", Language::Hi),
        ("हिन्दी", Language::Hi),
        ("印地语", Language::Hi),
        ("da", Language::Da),
        ("dansk", Language::Da),
        ("丹麦语", Language::Da),
        ("ur", Language::Ur),
        ("اردو", Language::Ur),
        ("乌尔都语", Language::Ur),
        ("tr", Language::Tr),
        ("türkçe", Language::Tr),
        ("turkce", Language::Tr),
        ("土耳其语", Language::Tr),
        ("nl", Language::Nl),
        ("nederlands", Language::Nl),
        ("荷兰语", Language::Nl),
        ("ms", Language::Ms),
        ("bahasa melayu", Language::Ms),
        ("马来语", Language::Ms),
        ("vi", Language::Vi),
        ("tiếng việt", Language::Vi),
        ("tieng viet", Language::Vi),
        ("越南语", Language::Vi),
    ];
    assert(r@ =~= alias_table());
    r
}

/// A language as offered to the user: its code and its display label.
#[derive(Clone, Debug)]
pub struct GummyLanguageOption {
    pub code: String,
    pub label: String,
}

/// The default values of the recognition settings.
#[derive(Clone, Debug)]
pub struct GummyDefaults {
    pub base_url: String,
    pub model: String,
    pub sample_rate: u32,
    pub vad_silence_ms: u32,
    pub source_language: String,
    pub target_language: String,
}

/// Everything the user interface needs to offer a language selection:
/// the recognition languages, for each matrix source the targets it may be
/// translated into (one entry per source, ordered by source code), and the defaults.
#[derive(Clone, Debug)]
pub struct GummyCapabilities {
    pub source_languages: Vec<GummyLanguageOption>,
    pub target_languages_by_source: Vec<(String, Vec<GummyLanguageOption>)>,
    pub defaults: GummyDefaults,
}

/// Whether option `o` describes language `l`.
pub open spec fn describes(o: GummyLanguageOption, l: Language) -> bool {
    o.code@ == code_of(l) && o.label@ == label_of(l)
}

/// Whether the options `v` describe the languages `ls`, one for one and in order.
pub open spec fn describes_all(v: Seq<GummyLanguageOption>, ls: Seq<Language>) -> bool {
    v.len() == ls.len() && forall|i: int| 0 <= i < v.len() ==> #[trigger] describes(v[i], ls[i])
}

/// The targets offered for the source code `s`: its matrix row, or nothing
/// when `s` names no language.
pub open spec fn targets_for_code(s: Seq<char>) -> Seq<Language> {
    match language_of_code(s) {
        Some(l) => target_row(l),
        None => Seq::empty(),
    }
}

/// Whether `l` is in the list of recognition languages.
pub open spec fn is_source_language(l: Language) -> bool {
    source_list().contains(l)
}

/// Whether `l` is a target of some row of the matrix.
pub open spec fn is_target_language(l: Language) -> bool {
    exists|i: int| 0 <= i < matrix_sources().len() && #[trigger] target_row(matrix_sources()[i]).contains(l)
}

/// Whether `code` is accepted as a recognition language; `auto` only when `allow_auto`.
pub open spec fn valid_source_code(code: Seq<char>, allow_auto: bool) -> bool {
    ||| allow_auto && code == "auto"@
    ||| language_of_code(code) matches Some(l) && l != Language::Auto && is_source_language(l)
}

/// Whether `code` is accepted as a translation target.
pub open spec fn valid_target_code(code: Seq<char>) -> bool {
    language_of_code(code) matches Some(l) && is_target_language(l)
}

/// The message for a translation that would start from automatic detection.
pub open spec fn auto_with_translation_message() -> Seq<char> {
    "开启翻译时请先将识别语言改为明确语种，Gummy 不支持自动识别配合严格语言对校验。"@
}

/// The message for an unsupported recognition language.
pub open spec fn unsupported_source_message() -> Seq<char> {
    "当前识别语言不在 Gummy 支持范围内。"@
}

/// The message for an unsupported translation target.
pub open spec fn unsupported_target_message() -> Seq<char> {
    "当前翻译目标语言不在 Gummy 支持范围内。"@
}

/// The message for a pair of languages that the matrix does not hold.
pub open spec fn unsupported_pair_message(s: Language, t: Language) -> Seq<char> {
    "Gummy 当前不支持 "@ + label_of(s) + " -> "@ + label_of(t) + " 这组实时翻译语言，请重新选择。"@
}

/// What is wrong with a language selection, if anything.
pub open spec fn selection_error(source: Seq<char>, translation_enabled: bool, target: Seq<char>) -> Option<Seq<char>> {
    if translation_enabled {
        if source == "auto"@ {
            Some(auto_with_translation_message())
        } else if !valid_source_code(source, false) {
            Some(unsupported_source_message())
        } else if !valid_target_code(target) {
            Some(unsupported_target_message())
        } else {
            let s = language_of_code(source).unwrap();
            let t = language_of_code(target).unwrap();
            if target_row(s).contains(t) {
                None
            } else {
                Some(unsupported_pair_message(s, t))
            }
        }
    } else if !valid_source_code(source, true) {
        Some(unsupported_source_message())
    } else {
        None
    }
}

/// The first alias entry of `table` written exactly as `s`.
pub open spec fn alias_lookup(s: Seq<char>, table: Seq<(&'static str, Language)>) -> Option<Language>
    decreases table.len(),
{
    if table.len() == 0 {
        None
    } else if table[0].0@ == s {
        Some(table[0].1)
    } else {
        alias_lookup(s, table.drop_first())
    }
}

/// The language that `input` names once trimmed and written in ASCII lower
/// case; `auto` counts only when `allow_auto`.
pub open spec fn normalized_language(input: Seq<char>, allow_auto: bool) -> Option<Language> {
    let t = trim(input);
    if t.len() == 0 {
        None
    } else {
        match alias_lookup(ascii_lower(t), alias_table()) {
            Some(l) => if l == Language::Auto && !allow_auto {
                None
            } else {
                Some(l)
            },
            None => None,
        }
    }
}

/// The code of the language that `input` names, as `normalized_language` gives it.
pub open spec fn normalized_code(input: Seq<char>, allow_auto: bool) -> Option<Seq<char>> {
    match normalized_language(input, allow_auto) {
        Some(l) => Some(code_of(l)),
        None => None,
    }
}

/// Whether `l` occurs in `v`.
fn list_contains(v: &Vec<Language>, l: Language) -> (r: bool)
    ensures
        r == v@.contains(l),
{
    let n = v.len();
    let mut i: usize = 0;
    while i < n
        invariant
            n == v@.len(),
            0 <= i <= n,
            forall|k: int| 0 <= k < i ==> v@[k] != l,
        decreases n - i,
    {
        if v[i] == l {
            assert(v@[i as int] == l);
            return true;
        }
        i = i + 1;
    }
    false
}

/// The option of code `code` and label `label`.
fn language_option(code: &str, label: &str) -> (r: GummyLanguageOption)
    ensures
        r.code@ == code@,
        r.label@ == label@,
{
    GummyLanguageOption { code: owned(code), label: owned(label) }
}

/// One option per language of `ls`, in order.
fn options_for(ls: &Vec<Language>) -> (r: Vec<GummyLanguageOption>)
    ensures
        describes_all(r@, ls@),
{
    let mut r: Vec<GummyLanguageOption> = Vec::new();
    let n = ls.len();
    let mut i: usize = 0;
    while i < n
        invariant
            n == ls@.len(),
            0 <= i <= n,
            describes_all(r@, ls@.take(i as int)),
        decreases n - i,
    {
        let l = ls[i];
        r.push(language_option(code_str(l), label_str(l)));
        i = i + 1;
    }
    assert(ls@.take(n as int) =~= ls@);
    r
}

/// The recognition languages, in the order in which they are offered.
pub fn source_languages() -> (r: Vec<GummyLanguageOption>)
    ensures
        describes_all(r@, source_list()),
{
    options_for(&source_list_exec())
}

/// The targets into which `source` may be translated, in matrix order;
/// empty when `source` has no row in the matrix.
pub fn target_languages_for(source: &str) -> (r: Vec<GummyLanguageOption>)
    ensures
        describes_all(r@, targets_for_code(source@)),
{
    match language_from_code(source) {
        Some(l) => options_for(&target_row_exec(l)),
        None => Vec::new(),
    }
}

/// For each source of the matrix, ordered by code, its code and its targets.
fn target_languages_by_source() -> (r: Vec<(String, Vec<GummyLanguageOption>)>)
    ensures
        r@.len() == sources_by_code().len(),
        forall|i: int|
            0 <= i < r@.len() ==> (#[trigger] r@[i]).0@ == code_of(sources_by_code()[i])
                && describes_all(r@[i].1@, target_row(sources_by_code()[i])),
{
    let sources = sources_by_code_exec();
    let mut r: Vec<(String, Vec<GummyLanguageOption>)> = Vec::new();
    let n = sources.len();
    let mut i: usize = 0;
    while i < n
        invariant
            n == sources@.len(),
            sources@ == sources_by_code(),
            0 <= i <= n,
            r@.len() == i,
            forall|k: int|
                0 <= k < i ==> (#[trigger] r@[k]).0@ == code_of(sources_by_code()[k])
                    && describes_all(r@[k].1@, target_row(sources_by_code()[k])),
        decreases n - i,
    {
        let s = sources[i];
        let entry = (owned(code_str(s)), options_for(&target_row_exec(s)));
        r.push(entry);
        i = i + 1;
    }
    r
}

/// The capability tables and defaults of the recognition service.
pub fn capabilities() -> (r: GummyCapabilities)
    ensures
        describes_all(r.source_languages@, source_list()),
        r.target_languages_by_source@.len() == sources_by_code().len(),
        forall|i: int|
            0 <= i < r.target_languages_by_source@.len()
                ==> (#[trigger] r.target_languages_by_source@[i]).0@ == code_of(sources_by_code()[i])
                && describes_all(r.target_languages_by_source@[i].1@, target_row(sources_by_code()[i])),
        r.defaults.base_url@ == DEFAULT_BASE_URL@,
        r.defaults.model@ == DEFAULT_MODEL@,
        r.defaults.sample_rate == DEFAULT_SAMPLE_RATE,
        r.defaults.vad_silence_ms == DEFAULT_VAD_SILENCE_MS,
        r.defaults.source_language@ == DEFAULT_SOURCE_LANGUAGE@,
        r.defaults.target_language@ == DEFAULT_TARGET_LANGUAGE@,
{
    GummyCapabilities {
        source_languages: source_languages(),
        target_languages_by_source: target_languages_by_source(),
        defaults: GummyDefaults {
            base_url: owned(DEFAULT_BASE_URL),
            model: owned(DEFAULT_MODEL),
            sample_rate: DEFAULT_SAMPLE_RATE,
            vad_silence_ms: DEFAULT_VAD_SILENCE_MS,
            source_language: owned(DEFAULT_SOURCE_LANGUAGE),
            target_language: owned(DEFAULT_TARGET_LANGUAGE),
        },
    }
}

/// Whether `code` is accepted as a recognition language; `auto` is accepted
/// only when `allow_auto`.
pub fn is_valid_source_language(code: &str, allow_auto: bool) -> (r: bool)
    ensures
        r == valid_source_code(code@, allow_auto),
{
    if allow_auto && str_eq(code, "auto") {
        return true;
    }
    match language_from_code(code) {
        Some(l) => {
            if l == Language::Auto {
                false
            } else {
                list_contains(&source_list_exec(), l)
            }
        },
        None => false,
    }
}

/// Whether `code` is a target of some row of the translation matrix.
pub fn is_valid_target_language(code: &str) -> (r: bool)
    ensures
        r == valid_target_code(code@),
{
    let l = match language_from_code(code) {
        Some(l) => l,
        None => {
            return false;
        },
    };
    let sources = matrix_sources_exec();
    let n = sources.len();
    let mut i: usize = 0;
    while i < n
        invariant
            n == sources@.len(),
            sources@ == matrix_sources(),
            language_of_code(code@) == Some(l),
            0 <= i <= n,
            forall|k: int| 0 <= k < i ==> !(#[trigger] target_row(matrix_sources()[k])).contains(l),
        decreases n - i,
    {
        if list_contains(&target_row_exec(sources[i]), l) {
            assert(target_row(matrix_sources()[i as int]).contains(l));
            assert(is_target_language(l));
            return true;
        }
        i = i + 1;
    }
    false
}

/// Checks a language selection: with translation, the source must be an
/// explicit recognition language, the target a known target, and the pair in
/// the matrix; without, the source must be a recognition language or `auto`.
pub fn validate_language_selection(source_language: &str, translation_enabled: bool, target_language: &str) -> (r: Result<(), String>)
    ensures
        match r {
            Ok(()) => selection_error(source_language@, translation_enabled, target_language@) is None,
            Err(m) => selection_error(source_language@, translation_enabled, target_language@) == Some(m@),
        },
{
    if translation_enabled {
        if str_eq(source_language, "auto") {
            return Err(owned("开启翻译时请先将识别语言改为明确语种，Gummy 不支持自动识别配合严格语言对校验。"));
        }
        if !is_valid_source_language(source_language, false) {
            return Err(owned("当前识别语言不在 Gummy 支持范围内。"));
        }
        if !is_valid_target_language(target_language) {
            return Err(owned("当前翻译目标语言不在 Gummy 支持范围内。"));
        }
        let s = language_from_code(source_language).unwrap();
        let t = language_from_code(target_language).unwrap();
        if !list_contains(&target_row_exec(s), t) {
            let m1 = concat("Gummy 当前不支持 ", label_str(s));
            let m2 = concat(m1.as_str(), " -> ");
            let m3 = concat(m2.as_str(), label_str(t));
            let m4 = concat(m3.as_str(), " 这组实时翻译语言，请重新选择。");
            return Err(m4);
        }
    } else if !is_valid_source_language(source_language, true) {
        return Err(owned("当前识别语言不在 Gummy 支持范围内。"));
    }
    Ok(())
}

/// The language that `input` names, looked up among the known aliases once
/// trimmed and written in ASCII lower case; `auto` counts only when `allow_auto`.
fn normalize_language_code(input: &str, allow_auto: bool) -> (r: Option<String>)
    ensures
        match normalized_code(input@, allow_auto) {
            Some(c) => r matches Some(s) && s@ == c,
            None => r is None,
        },
{
    let trimmed = trim_str(input);
    if trimmed.as_str().is_empty() {
        return None;
    }
    let normalized = ascii_lower_str(trimmed.as_str());
    let table = alias_table_exec();
    let n = table.len();
    let mut i: usize = 0;
    assert(table@.subrange(0, n as int) =~= table@);
    while i < n
        invariant
            n == table@.len(),
            table@ == alias_table(),
            0 <= i <= n,
            normalized@ == ascii_lower(trim(input@)),
            trim(input@).len() > 0,
            alias_lookup(normalized@, alias_table()) == alias_lookup(normalized@, table@.subrange(i as int, n as int)),
        decreases n - i,
    {
        let (alias, code) = table[i];
        assert(table@.subrange(i as int, n as int).drop_first() =~= table@.subrange(i + 1, n as int));
        if str_eq(alias, normalized.as_str()) {
            assert(alias_lookup(normalized@, alias_table()) == Some(code));
            if code == Language::Auto && !allow_auto {
                return None;
            }
            return Some(owned(code_str(code)));
        }
        i = i + 1;
    }
    None
}

/// The code of the recognition language that `input` names, `auto` included.
pub fn normalize_source_language(input: &str) -> (r: Option<String>)
    ensures
        match normalized_code(input@, true) {
            Some(c) => r matches Some(s) && s@ == c,
            None => r is None,
        },
{
    normalize_language_code(input, true)
}

/// The code of the target language that `input` names; `auto` is never a target.
pub fn normalize_target_language(input: &str) -> (r: Option<String>)
    ensures
        match normalized_code(input@, false) {
            Some(c) => r matches Some(s) && s@ == c,
            None => r is None,
        },
{
    normalize_language_code(input, false)
}

/// The display label of the language of code `code`, if it is known.
pub fn language_label(code: &str) -> (r: Option<&'static str>)
    ensures
        match language_of_code(code@) {
            Some(l) => r matches Some(s) && s@ == label_of(l),
            None => r is None,
        },
{
    match language_from_code(code) {
        Some(l) => Some(label_str(l)),
        None => None,
    }
}

proof fn lemma_codes_revealed()
    ensures
        "auto"@ == seq!['a', 'u', 't', 'o'],
        "zh"@ == seq!['z', 'h'],
        "en"@ == seq!['e', 'n'],
        "ja"@ == seq!['j', 'a'],
        "ko"@ == seq!['k', 'o'],
        "yue"@ == seq!['y', 'u', 'e'],
        "de"@ == seq!['d', 'e'],
        "fr"@ == seq!['f', 'r'],
        "ru"@ == seq!['r', 'u'],
        "es"@ == seq!['e', 's'],
        "it"@ == seq!['i', 't'],
        "pt"@ == seq!['p', 't'],
        "id"@ == seq!['i', 'd'],
        "ar"@ == seq!['a', 'r'],
        "th"@ == seq!['t', 'h'],
        "hi"@ == seq!['h', 'i'],
        "da"@ == seq!['d', 'a'],
        "ur"@ == seq!['u', 'r'],
        "tr"@ == seq!['t', 'r'],
        "nl"@ == seq!['n', 'l'],
        "ms"@ == seq!['m', 's'],
        "vi"@ == seq!['v', 'i'],
{
    reveal_strlit("auto");
    reveal_strlit("zh");
    reveal_strlit("en");
    reveal_strlit("ja");
    reveal_strlit("ko");
    reveal_strlit("yue");
    reveal_strlit("de");
    reveal_strlit("fr");
    reveal_strlit("ru");
    reveal_strlit("es");
    reveal_strlit("it");
    reveal_strlit("pt");
    reveal_strlit("id");
    reveal_strlit("ar");
    reveal_strlit("th");
    reveal_strlit("hi");
    reveal_strlit("da");
    reveal_strlit("ur");
    reveal_strlit("tr");
    reveal_strlit("nl");
    reveal_strlit("ms");
    reveal_strlit("vi");
}

/// The facts about one language that the laws of the language tables use:
/// its code names it, it is offered as a recognition language (but for
/// Vietnamese) and as a target (but for `auto`), and a language with a
/// matrix row is a matrix source.
pub proof fn lemma_language_facts(l: Language)
    ensures
        language_of_code(code_of(l)) == Some(l),
        l != Language::Vi ==> is_source_language(l),
        l != Language::Auto ==> is_target_language(l),
        target_row(l).len() > 0 ==> l != Language::Auto && l != Language::Yue && matrix_sources().contains(l),
        code_of(l) == "auto"@ <==> l == Language::Auto,
        code_of(l) == "vi"@ <==> l == Language::Vi,
{
    lemma_codes_revealed();
    match l {
        Language::Auto => {
            assert(source_list()[0] == Language::Auto);
        },
        Language::Zh => {
            assert(source_list()[1] == Language::Zh);
            assert(target_row(matrix_sources()[1])[0] == Language::Zh);
            assert(target_row(matrix_sources()[1]).contains(Language::Zh));
            assert(matrix_sources()[0] == Language::Zh);
        },
        Language::En => {
            assert(source_list()[2] == Language::En);
            assert(target_row(matrix_sources()[0])[0] == Language::En);
            assert(target_row(matrix_sources()[0]).contains(Language::En));
            assert(matrix_sources()[1] == Language::En);
        },
        Language::Ja => {
            assert(source_list()[3] == Language::Ja);
            assert(target_row(matrix_sources()[0])[1] == Language::Ja);
            assert(target_row(matrix_sources()[0]).contains(Language::Ja));
            assert(matrix_sources()[2] == Language::Ja);
        },
        Language::Ko => {
            assert(source_list()[4] == Language::Ko);
            assert(target_row(matrix_sources()[0])[2] == Language::Ko);
            assert(target_row(matrix_sources()[0]).contains(Language::Ko));
            assert(matrix_sources()[3] == Language::Ko);
        },
        Language::Yue => {
            assert(source_list()[5] == Language::Yue);
            assert(target_row(matrix_sources()[1])[14] == Language::Yue);
            assert(target_row(matrix_sources()[1]).contains(Language::Yue));
        },
        Language::De => {
            assert(source_list()[6] == Language::De);
            assert(target_row(matrix_sources()[0])[4] == Language::De);
            assert(target_row(matrix_sources()[0]).contains(Language::De));
            assert(matrix_sources()[5] == Language::De);
        },
        Language::Fr => {
            assert(source_list()[7] == Language::Fr);
            assert(target_row(matrix_sources()[0])[3] == Language::Fr);
            assert(target_row(matrix_sources()[0]).contains(Language::Fr));
            assert(matrix_sources()[4] == Language::Fr);
        },
        Language::Ru => {
            assert(source_list()[8] == Language::Ru);
            assert(target_row(matrix_sources()[0])[6] == Language::Ru);
            assert(target_row(matrix_sources()[0]).contains(Language::Ru));
            assert(matrix_sources()[7] == Language::Ru);
        },
        Language::Es => {
            assert(source_list()[9] == Language::Es);
            assert(target_row(matrix_sources()[0])[5] == Language::Es);
            assert(target_row(matrix_sources()[0]).contains(Language::Es));
            assert(matrix_sources()[6] == Language::Es);
        },
        Language::It => {
            assert(source_list()[10] == Language::It);
            assert(target_row(matrix_sources()[0])[7] == Language::It);
            assert(target_row(matrix_sources()[0]).contains(Language::It));
            assert(matrix_sources()[8] == Language::It);
        },
        Language::Pt => {
            assert(source_list()[11] == Language::Pt);
            assert(target_row(matrix_sources()[1])[3] == Language::Pt);
            assert(target_row(matrix_sources()[1]).contains(Language::Pt));
            assert(matrix_sources()[9] == Language::Pt);
        },
        Language::Id => {
            assert(source_list()[12] == Language::Id);
            assert(target_row(matrix_sources()[1])[18] == Language::Id);
            assert(target_row(matrix_sources()[1]).contains(Language::Id));
            assert(matrix_sources()[10] == Language::Id);
        },
        Language::Ar => {
            assert(source_list()[13] == Language::Ar);
            assert(target_row(matrix_sources()[1])[11] == Language::Ar);
            assert(target_row(matrix_sources()[1]).contains(Language::Ar));
            assert(matrix_sources()[11] == Language::Ar);
        },
        Language::Th => {
            assert(source_list()[14] == Language::Th);
            assert(target_row(matrix_sources()[2])[0] == Language::Th);
            assert(target_row(matrix_sources()[2]).contains(Language::Th));
            assert(matrix_sources()[12] == Language::Th);
        },
        Language::Hi => {
            assert(source_list()[15] == Language::Hi);
            assert(target_row(matrix_sources()[1])[13] == Language::Hi);
            assert(target_row(matrix_sources()[1]).contains(Language::Hi));
            assert(matrix_sources()[13] == Language::Hi);
        },
        Language::Da => {
            assert(source_list()[16] == Language::Da);
            assert(target_row(matrix_sources()[1])[10] == Language::Da);
            assert(target_row(matrix_sources()[1]).contains(Language::Da));
            assert(matrix_sources()[14] == Language::Da);
        },
        Language::Ur => {
            assert(source_list()[17] == Language::Ur);
            assert(target_row(matrix_sources()[1])[17] == Language::Ur);
            assert(target_row(matrix_sources()[1]).contains(Language::Ur));
            assert(matrix_sources()[15] == Language::Ur);
        },
        Language::Tr => {
            assert(source_list()[18] == Language::Tr);
            assert(target_row(matrix_sources()[1])[15] == Language::Tr);
            assert(target_row(matrix_sources()[1]).contains(Language::Tr));
            assert(matrix_sources()[16] == Language::Tr);
        },
        Language::Nl => {
            assert(source_list()[19] == Language::Nl);
            assert(target_row(matrix_sources()[1])[9] == Language::Nl);
            assert(target_row(matrix_sources()[1]).contains(Language::Nl));
            assert(matrix_sources()[17] == Language::Nl);
        },
        Language::Ms => {
            assert(source_list()[20] == Language::Ms);
            assert(target_row(matrix_sources()[1])[16] == Language::Ms);
            assert(target_row(matrix_sources()[1]).contains(Language::Ms));
            assert(matrix_sources()[18] == Language::Ms);
        },
        Language::Vi => {
            assert(target_row(matrix_sources()[1])[7] == Language::Vi);
            assert(target_row(matrix_sources()[1]).contains(Language::Vi));
            assert(matrix_sources()[19] == Language::Vi);
        },
    }
}

/// A normalized target language is always accepted as a translation target.
pub proof fn law_normalized_target_is_valid(input: Seq<char>)
    ensures
        normalized_code(input, false) matches Some(c) ==> valid_target_code(c),
{
    if let Some(l) = normalized_language(input, false) {
        lemma_language_facts(l);
    }
}

/// A normalized recognition language is accepted as one (with `auto`
/// allowed), except Vietnamese, which has aliases but is not offered as a
/// recognition language.
pub proof fn law_normalized_source_is_valid(input: Seq<char>)
    ensures
        normalized_code(input, true) matches Some(c) ==> (c != "vi"@ ==> valid_source_code(c, true)),
{
    if let Some(l) = normalized_language(input, true) {
        lemma_language_facts(l);
    }
}

/// Without translation, every offered recognition language is accepted,
/// whatever the target.
pub proof fn law_offered_sources_accepted(i: int, target: Seq<char>)
    requires
        0 <= i < source_list().len(),
    ensures
        selection_error(code_of(source_list()[i]), false, target) is None,
{
    let l = source_list()[i];
    lemma_language_facts(l);
    assert(is_source_language(l));
}

/// With translation on, a selection is accepted exactly when its target is
/// one of those offered for its source, for every source but Vietnamese (a
/// matrix source that is not a recognition language, so that its offered
/// targets are refused).
pub proof fn law_offered_targets_are_accepted(source: Seq<char>, target: Seq<char>)
    requires
        source != "vi"@,
    ensures
        selection_error(source, true, target) is None <==> exists|k: int|
            0 <= k < targets_for_code(source).len() && code_of(#[trigger] targets_for_code(source)[k]) == target,
{
    if selection_error(source, true, target) is None {
        let s = language_of_code(source).unwrap();
        let t = language_of_code(target).unwrap();
        lemma_code_names_language(target, t);
        let k = targets_for_code(source).index_of(t);
        assert(targets_for_code(source)[k] == t);
    }
    if exists|k: int| 0 <= k < targets_for_code(source).len() && code_of(#[trigger] targets_for_code(source)[k]) == target {
        let k = choose|k: int| 0 <= k < targets_for_code(source).len() && code_of(#[trigger] targets_for_code(source)[k]) == target;
        let s = language_of_code(source).unwrap();
        let t = targets_for_code(source)[k];
        lemma_code_names_language(source, s);
        lemma_language_facts(s);
        lemma_language_facts(t);
        let j = matrix_sources().index_of(s);
        assert(target_row(matrix_sources()[j]).contains(t));
        assert(is_target_language(t));
        assert(language_of_code(target) == Some(t));
    }
}

/// Each row of the capability table offers what `target_languages_for`
/// offers for the same source code.
pub proof fn law_capability_rows_match(i: int)
    requires
        0 <= i < sources_by_code().len(),
    ensures
        targets_for_code(code_of(sources_by_code()[i])) == target_row(sources_by_code()[i]),
        target_row(sources_by_code()[i]).len() > 0,
{
    lemma_language_facts(sources_by_code()[i]);
    lemma_sources_by_code_rows(i);
}

/// Every source listed by code has a matrix row.
proof fn lemma_sources_by_code_rows(i: int)
    requires
        0 <= i < sources_by_code().len(),
    ensures
        target_row(sources_by_code()[i]).len() > 0,
{
    let s = sources_by_code();
    assert(target_row(s[i]).len() > 0) by {
        if i < 10 {
            if i == 0 {} else if i == 1 {} else if i == 2 {} else if i == 3 {} else if i == 4 {}
            else if i == 5 {} else if i == 6 {} else if i == 7 {} else if i == 8 {} else {}
        } else {
            if i == 10 {} else if i == 11 {} else if i == 12 {} else if i == 13 {} else if i == 14 {}
            else if i == 15 {} else if i == 16 {} else if i == 17 {} else if i == 18 {} else {}
        }
    }
}

/// The codes of neighbouring sources in `sources_by_code` increase.
proof fn lemma_sources_by_code_step(k: int)
    requires
        0 <= k < sources_by_code().len() - 1,
    ensures
        !text_le(code_of(sources_by_code()[k + 1]), code_of(sources_by_code()[k])),
{
    lemma_codes_revealed();
    reveal_with_fuel(text_le, 3);
    let s = sources_by_code();
    if k < 10 {
        if k == 0 {} else if k == 1 {} else if k == 2 {} else if k == 3 {} else if k == 4 {}
        else if k == 5 {} else if k == 6 {} else if k == 7 {} else if k == 8 {} else {}
    } else {
        if k == 10 {} else if k == 11 {} else if k == 12 {} else if k == 13 {} else if k == 14 {}
        else if k == 15 {} else if k == 16 {} else if k == 17 {} else {}
    }
}

/// The capability table lists the sources of the matrix, each once, in the
/// order of their codes: exactly the keys of a map ordered by code.
pub proof fn law_capability_sources_ordered_by_code()
    ensures
        codes_increasing(sources_by_code()),
        sources_by_code().len() == matrix_sources().len(),
        forall|l: Language| sources_by_code().contains(l) <==> matrix_sources().contains(l),
{
    broadcast use {vstd::seq_lib::lemma_seq_contains_after_push, vstd::seq_lib::lemma_seq_empty_contains_nothing};
    let s = sources_by_code();
    assert forall|i: int, j: int| 0 <= i < j < s.len() implies !text_le(#[trigger] code_of(s[j]), #[trigger] code_of(s[i])) by {
        lemma_sources_by_code_chain(i, j);
    }
    assert forall|l: Language| s.contains(l) <==> matrix_sources().contains(l) by {}
}

/// Codes further apart in `sources_by_code` increase too.
proof fn lemma_sources_by_code_chain(i: int, j: int)
    requires
        0 <= i < j < sources_by_code().len(),
    ensures
        !text_le(code_of(sources_by_code()[j]), code_of(sources_by_code()[i])),
    decreases j - i,
{
    let s = sources_by_code();
    lemma_sources_by_code_step(j - 1);
    if i < j - 1 {
        lemma_sources_by_code_chain(i, j - 1);
        if text_le(code_of(s[j]), code_of(s[i])) {
            lemma_text_le_total(code_of(s[i]), code_of(s[j - 1]));
            lemma_text_le_trans(code_of(s[j]), code_of(s[i]), code_of(s[j - 1]));
        }
    }
}

/// Skipping an alias entry that is not written as `s` does not change the lookup.
proof fn lemma_lookup_skip(s: Seq<char>, t: Seq<(&'static str, Language)>, j: int)
    requires
        0 <= j < t.len(),
        t[j].0@ != s,
    ensures
        alias_lookup(s, t.skip(j)) == alias_lookup(s, t.skip(j + 1)),
{
    assert(t.skip(j)[0] == t[j]);
    assert(t.skip(j).drop_first() =~= t.skip(j + 1));
}

/// The texts of the alias entries, character by character.
proof fn lemma_alias_texts_revealed()
    ensures
        alias_table()[0].0@ == seq!['a', 'u', 't', 'o'],
        alias_table()[1].0@ == seq!['自', '动'],
        alias_table()[2].0@ == seq!['自', '动', '识', '别'],
        alias_table()[3].0@ == seq!['z', 'h'],
        alias_table()[4].0@ == seq!['中', '文'],
        alias_table()[5].0@ == seq!['简', '体', '中', '文'],
        alias_table()[6].0@ == seq!['汉', '语'],
        alias_table()[7].0@ == seq!['e', 'n'],
        alias_table()[8].0@ == seq!['e', 'n', 'g', 'l', 'i', 's', 'h'],
        alias_table()[9].0@ == seq!['英', '语'],
        alias_table()[10].0@ == seq!['j', 'a'],
        alias_table()[11].0@ == seq!['日', '本', '語'],
        alias_table()[12].0@ == seq!['日', '语'],
        alias_table()[13].0@ == seq!['日', '文'],
        alias_table()[14].0@ == seq!['k', 'o'],
        alias_table()[15].0@ == seq!['한', '국', '어'],
        alias_table()[16].0@ == seq!['韩', '语'],
        alias_table()[17].0@ == seq!['d', 'e'],
        alias_table()[18].0@ == seq!['d', 'e', 'u', 't', 's', 'c', 'h'],
        alias_table()[19].0@ == seq!['德', '语'],
        alias_table()[20].0@ == seq!['f', 'r'],
        alias_table()[21].0@ == seq!['f', 'r', 'a', 'n', 'c', 'a', 'i', 's'],
        alias_table()[22].0@ == seq!['f', 'r', 'a', 'n', 'ç', 'a', 'i', 's'],
        alias_table()[23].0@ == seq!['法', '语'],
        alias_table()[24].0@ == seq!['r', 'u'],
        alias_table()[25].0@ == seq!['р', 'у', 'с', 'с', 'к', 'и', 'й'],
        alias_table()[26].0@ == seq!['俄', '语'],
        alias_table()[27].0@ == seq!['e', 's'],
        alias_table()[28].0@ == seq!['e', 's', 'p', 'a', 'n', 'o', 'l'],
        alias_table()[29].0@ == seq!['e', 's', 'p', 'a', 'ñ', 'o', 'l'],
        alias_table()[30].0@ == seq!['西', '语'],
        alias_table()[31].0@ == seq!['西', '班', '牙', '语'],
        alias_table()[32].0@ == seq!['i', 't'],
        alias_table()[33].0@ == seq!['i', 't', 'a', 'l', 'i', 'a', 'n', 'o'],
        alias_table()[34].0@ == seq!['意', '大', '利', '语'],
        alias_table()[35].0@ == seq!['p', 't'],
        alias_table()[36].0@ == seq!['p', 'o', 'r', 't', 'u', 'g', 'u', 'ê', 's'],
        alias_table()[37].0@ == seq!['p', 'o', 'r', 't', 'u', 'g', 'u', 'e', 's'],
        alias_table()[38].0@ == seq!['葡', '萄', '牙', '语'],
        alias_table()[39].0@ == seq!['i', 'd'],
        alias_table()[40].0@ == seq!['b', 'a', 'h', 'a', 's', 'a', ' ', 'i', 'n', 'd', 'o', 'n', 'e', 's', 'i', 'a'],
        alias_table()[41].0@ == seq!['印', '尼', '语'],
        alias_table()[42].0@ == seq!['a', 'r'],
        alias_table()[43].0@ == seq!['ا', 'ل', 'ع', 'ر', 'ب', 'ي', 'ة'],
        alias_table()[44].0@ == seq!['阿', '拉', '伯', '语'],
        alias_table()[45].0@ == seq!['t', 'h'],
        alias_table()[46].0@ == seq!['ไ', 'ท', 'ย'],
        alias_table()[47].0@ == seq!['泰', '语'],
        alias_table()[48].0@ == seq!['y', 'u', 'e'],
        alias_table()[49].0@ == seq!['粤', '语'],
        alias_table()[50].0@ == seq!['h', 'i'],
        alias_table()[51].0@ == seq!['ह', 'ि', 'न', '्', 'द', 'ी'],
        alias_table()[52].0@ == seq!['印', '地', '语'],
        alias_table()[53].0@ == seq!['d', 'a'],
        alias_table()[54].0@ == seq!['d', 'a', 'n', 's', 'k'],
        alias_table()[55].0@ == seq!['丹', '麦', '语'],
        alias_table()[56].0@ == seq!['u', 'r'],
        alias_table()[57].0@ == seq!['ا', 'ر', 'د', 'و'],
        alias_table()[58].0@ == seq!['乌', '尔', '都', '语'],
        alias_table()[59].0@ == seq!['t', 'r'],
        alias_table()[60].0@ == seq!['t', 'ü', 'r', 'k', 'ç', 'e'],
        alias_table()[61].0@ == seq!['t', 'u', 'r', 'k', 'c', 'e'],
        alias_table()[62].0@ == seq!['土', '耳', '其', '语'],
        alias_table()[63].0@ == seq!['n', 'l'],
        alias_table()[64].0@ == seq!['n', 'e', 'd', 'e', 'r', 'l', 'a', 'n', 'd', 's'],
        alias_table()[65].0@ == seq!['荷', '兰', '语'],
        alias_table()[66].0@ == seq!['m', 's'],
        alias_table()[67].0@ == seq!['b', 'a', 'h', 'a', 's', 'a', ' ', 'm', 'e', 'l', 'a', 'y', 'u'],
        alias_table()[68].0@ == seq!['马', '来', '语'],
        alias_table()[69].0@ == seq!['v', 'i'],
        alias_table()[70].0@ == seq!['t', 'i', 'ế', 'n', 'g', ' ', 'v', 'i', 'ệ', 't'],
        alias_table()[71].0@ == seq!['t', 'i', 'e', 'n', 'g', ' ', 'v', 'i', 'e', 't'],
        alias_table()[72].0@ == seq!['越', '南', '语'],
{
    reveal_strlit("auto");
    reveal_strlit("自动");
    reveal_strlit("自动识别");
    reveal_strlit("zh");
    reveal_strlit("中文");
    reveal_strlit("简体中文");
    reveal_strlit("汉语");
    reveal_strlit("en");
    reveal_strlit("english");
    reveal_strlit("英语");
    reveal_strlit("ja");
    reveal_strlit("日本語");
    reveal_strlit("日语");
    reveal_strlit("日文");
    reveal_strlit("ko");
    reveal_strlit("한국어");
    reveal_strlit("韩语");
    reveal_strlit("de");
    reveal_strlit("deutsch");
    reveal_strlit("德语");
    reveal_strlit("fr");
    reveal_strlit("francais");
    reveal_strlit("français");
    reveal_strlit("法语");
    reveal_strlit("ru");
    reveal_strlit("русский");
    reveal_strlit("俄语");
    reveal_strlit("es");
    reveal_strlit("espanol");
    reveal_strlit("español");
    reveal_strlit("西语");
    reveal_strlit("西班牙语");
    reveal_strlit("it");
    reveal_strlit("italiano");
    reveal_strlit("意大利语");
    reveal_strlit("pt");
    reveal_strlit("português");
    reveal_strlit("portugues");
    reveal_strlit("葡萄牙语");
    reveal_strlit("id");
    reveal_strlit("bahasa indonesia");
    reveal_strlit("印尼语");
    reveal_strlit("ar");
    reveal_strlit("العربية");
    reveal_strlit("阿拉伯语");
    reveal_strlit("th");
    reveal_strlit("ไทย");
    reveal_strlit("泰语");
    reveal_strlit("yue");
    reveal_strlit("粤语");
    reveal_strlit("hi");
    reveal_strlit("हिन्दी");
    reveal_strlit("印地语");
    reveal_strlit("da");
    reveal_strlit("dansk");
    reveal_strlit("丹麦语");
    reveal_strlit("ur");
    reveal_strlit("اردو");
    reveal_strlit("乌尔都语");
    reveal_strlit("tr");
    reveal_strlit("türkçe");
    reveal_strlit("turkce");
    reveal_strlit("土耳其语");
    reveal_strlit("nl");
    reveal_strlit("nederlands");
    reveal_strlit("荷兰语");
    reveal_strlit("ms");
    reveal_strlit("bahasa melayu");
    reveal_strlit("马来语");
    reveal_strlit("vi");
    reveal_strlit("tiếng việt");
    reveal_strlit("tieng viet");
    reveal_strlit("越南语");
}

proof fn lemma_own_alias_auto()
    ensures
        alias_lookup(code_of(Language::Auto), alias_table()) == Some(Language::Auto),
{
    let t = alias_table();
    let c = code_of(Language::Auto);
    lemma_alias_texts_revealed();
    lemma_codes_revealed();
    assert(t.skip(0) =~= t);
    assert(t.skip(0)[0] == t[0]);
}

proof fn lemma_own_alias_zh()
    ensures
        alias_lookup(code_of(Language::Zh), alias_table()) == Some(Language::Zh),
{
    let t = alias_table();
    let c = code_of(Language::Zh);
    lemma_alias_texts_revealed();
    lemma_codes_revealed();
    assert(t.skip(0) =~= t);
    lemma_lookup_skip(c, t, 0);
    lemma_lookup_skip(c, t, 1);
    lemma_lookup_skip(c, t, 2);
    assert(t.skip(3)[0] == t[3]);
}

proof fn lemma_own_alias_en()
    ensures
        alias_lookup(code_of(Language::En), alias_table()) == Some(Language::En),
{
    let t = alias_table();
    let c = code_of(Language::En);
    lemma_alias_texts_revealed();
    lemma_codes_revealed();
    assert(t.skip(0) =~= t);
    lemma_lookup_skip(c, t, 0);
    lemma_lookup_skip(c, t, 1);
    lemma_lookup_skip(c, t, 2);
    lemma_lookup_skip(c, t, 3);
    lemma_lookup_skip(c, t, 4);
    lemma_lookup_skip(c, t, 5);
    lemma_lookup_skip(c, t, 6);
    assert(t.skip(7)[0] == t[7]);
}

proof fn lemma_own_alias_ja()
    ensures
        alias_lookup(code_of(Language::Ja), alias_table()) == Some(Language::Ja),
{
    let t = alias_table();
    let c = code_of(Language::Ja);
    lemma_alias_texts_revealed();
    lemma_codes_revealed();
    assert(t.skip(0) =~= t);
    lemma_lookup_skip(c, t, 0);
    lemma_lookup_skip(c, t, 1);
    lemma_lookup_skip(c, t, 2);
    lemma_lookup_skip(c, t, 3);
    lemma_lookup_skip(c, t, 4);
    lemma_lookup_skip(c, t, 5);
    lemma_lookup_skip(c, t, 6);
    lemma_lookup_skip(c, t, 7);
    lemma_lookup_skip(c, t, 8);
    lemma_lookup_skip(c, t, 9);
    assert(t.skip(10)[0] == t[10]);
}

proof fn lemma_own_alias_ko()
    ensures
        alias_lookup(code_of(Language::Ko), alias_table()) == Some(Language::Ko),
{
    let t = alias_table();
    let c = code_of(Language::Ko);
    lemma_alias_texts_revealed();
    lemma_codes_revealed();
    assert(t.skip(0) =~= t);
    lemma_lookup_skip(c, t, 0);
    lemma_lookup_skip(c, t, 1);
    lemma_lookup_skip(c, t, 2);
    lemma_lookup_skip(c, t, 3);
    lemma_lookup_skip(c, t, 4);
    lemma_lookup_skip(c, t, 5);
    lemma_lookup_skip(c, t, 6);
    lemma_lookup_skip(c, t, 7);
    lemma_lookup_skip(c, t, 8);
    lemma_lookup_skip(c, t, 9);
    lemma_lookup_skip(c, t, 10);
    lemma_lookup_skip(c, t, 11);
    lemma_lookup_skip(c, t, 12);
    lemma_lookup_skip(c, t, 13);
    assert(t.skip(14)[0] == t[14]);
}

proof fn lemma_own_alias_yue()
    ensures
        alias_lookup(code_of(Language::Yue), alias_table()) == Some(Language::Yue),
{
    let t = alias_table();
    let c = code_of(Language::Yue);
    lemma_alias_texts_revealed();
    lemma_codes_revealed();
    assert(t.skip(0) =~= t);
    lemma_lookup_skip(c, t, 0);
    lemma_lookup_skip(c, t, 1);
    lemma_lookup_skip(c, t, 2);
    lemma_lookup_skip(c, t, 3);
    lemma_lookup_skip(c, t, 4);
    lemma_lookup_skip(c, t, 5);
    lemma_lookup_skip(c, t, 6);
    lemma_lookup_skip(c, t, 7);
    lemma_lookup_skip(c, t, 8);
    lemma_lookup_skip(c, t, 9);
    lemma_lookup_skip(c, t, 10);
    lemma_lookup_skip(c, t, 11);
    lemma_lookup_skip(c, t, 12);
    lemma_lookup_skip(c, t, 13);
    lemma_lookup_skip(c, t, 14);
    lemma_lookup_skip(c, t, 15);
    lemma_lookup_skip(c, t, 16);
    lemma_lookup_skip(c, t, 17);
    lemma_lookup_skip(c, t, 18);
    lemma_lookup_skip(c, t, 19);
    lemma_lookup_skip(c, t, 20);
    lemma_lookup_skip(c, t, 21);
    lemma_lookup_skip(c, t, 22);
    lemma_lookup_skip(c, t, 23);
    lemma_lookup_skip(c, t, 24);
    lemma_lookup_skip(c, t, 25);
    lemma_lookup_skip(c, t, 26);
    lemma_lookup_skip(c, t, 27);
    lemma_lookup_skip(c, t, 28);
    lemma_lookup_skip(c, t, 29);
    lemma_lookup_skip(c, t, 30);
    lemma_lookup_skip(c, t, 31);
    lemma_lookup_skip(c, t, 32);
    lemma_lookup_skip(c, t, 33);
    lemma_lookup_skip(c, t, 34);
    lemma_lookup_skip(c, t, 35);
    lemma_lookup_skip(c, t, 36);
    lemma_lookup_skip(c, t, 37);
    lemma_lookup_skip(c, t, 38);
    lemma_lookup_skip(c, t, 39);
    lemma_lookup_skip(c, t, 40);
    lemma_lookup_skip(c, t, 41);
    lemma_lookup_skip(c, t, 42);
    lemma_lookup_skip(c, t, 43);
    lemma_lookup_skip(c, t, 44);
    lemma_lookup_skip(c, t, 45);
    lemma_lookup_skip(c, t, 46);
    lemma_lookup_skip(c, t, 47);
    assert(t.skip(48)[0] == t[48]);
}

proof fn lemma_own_alias_de()
    ensures
        alias_lookup(code_of(Language::De), alias_table()) == Some(Language::De),
{
    let t = alias_table();
    let c = code_of(Language::De);
    lemma_alias_texts_revealed();
    lemma_codes_revealed();
    assert(t.skip(0) =~= t);
    lemma_lookup_skip(c, t, 0);
    lemma_lookup_skip(c, t, 1);
    lemma_lookup_skip(c, t, 2);
    lemma_lookup_skip(c, t, 3);
    lemma_lookup_skip(c, t, 4);
    lemma_lookup_skip(c, t, 5);
    lemma_lookup_skip(c, t, 6);
    lemma_lookup_skip(c, t, 7);
    lemma_lookup_skip(c, t, 8);
    lemma_lookup_skip(c, t, 9);
    lemma_lookup_skip(c, t, 10);
    lemma_lookup_skip(c, t, 11);
    lemma_lookup_skip(c, t, 12);
    lemma_lookup_skip(c, t, 13);
    lemma_lookup_skip(c, t, 14);
    lemma_lookup_skip(c, t, 15);
    lemma_lookup_skip(c, t, 16);
    assert(t.skip(17)[0] == t[17]);
}

proof fn lemma_own_alias_fr()
    ensures
        alias_lookup(code_of(Language::Fr), alias_table()) == Some(Language::Fr),
{
    let t = alias_table();
    let c = code_of(Language::Fr);
    lemma_alias_texts_revealed();
    lemma_codes_revealed();
    assert(t.skip(0) =~= t);
    lemma_lookup_skip(c, t, 0);
    lemma_lookup_skip(c, t, 1);
    lemma_lookup_skip(c, t, 2);
    lemma_lookup_skip(c, t, 3);
    lemma_lookup_skip(c, t, 4);
    lemma_lookup_skip(c, t, 5);
    lemma_lookup_skip(c, t, 6);
    lemma_lookup_skip(c, t, 7);
    lemma_lookup_skip(c, t, 8);
    lemma_lookup_skip(c, t, 9);
    lemma_lookup_skip(c, t, 10);
    lemma_lookup_skip(c, t, 11);
    lemma_lookup_skip(c, t, 12);
    lemma_lookup_skip(c, t, 13);
    lemma_lookup_skip(c, t, 14);
    lemma_lookup_skip(c, t, 15);
    lemma_lookup_skip(c, t, 16);
    lemma_lookup_skip(c, t, 17);
    lemma_lookup_skip(c, t, 18);
    lemma_lookup_skip(c, t, 19);
    assert(t.skip(20)[0] == t[20]);
}

proof fn lemma_own_alias_ru()
    ensures
        alias_lookup(code_of(Language::Ru), alias_table()) == Some(Language::Ru),
{
    let t = alias_table();
    let c = code_of(Language::Ru);
    lemma_alias_texts_revealed();
    lemma_codes_revealed();
    assert(t.skip(0) =~= t);
    lemma_lookup_skip(c, t, 0);
    lemma_lookup_skip(c, t, 1);
    lemma_lookup_skip(c, t, 2);
    lemma_lookup_skip(c, t, 3);
    lemma_lookup_skip(c, t, 4);
    lemma_lookup_skip(c, t, 5);
    lemma_lookup_skip(c, t, 6);
    lemma_lookup_skip(c, t, 7);
    lemma_lookup_skip(c, t, 8);
    lemma_lookup_skip(c, t, 9);
    lemma_lookup_skip(c, t, 10);
    lemma_lookup_skip(c, t, 11);
    lemma_lookup_skip(c, t, 12);
    lemma_lookup_skip(c, t, 13);
    lemma_lookup_skip(c, t, 14);
    lemma_lookup_skip(c, t, 15);
    lemma_lookup_skip(c, t, 16);
    lemma_lookup_skip(c, t, 17);
    lemma_lookup_skip(c, t, 18);
    lemma_lookup_skip(c, t, 19);
    lemma_lookup_skip(c, t, 20);
    lemma_lookup_skip(c, t, 21);
    lemma_lookup_skip(c, t, 22);
    lemma_lookup_skip(c, t, 23);
    assert(t.skip(24)[0] == t[24]);
}

proof fn lemma_own_alias_es()
    ensures
        alias_lookup(code_of(Language::Es), alias_table()) == Some(Language::Es),
{
    let t = alias_table();
    let c = code_of(Language::Es);
    lemma_alias_texts_revealed();
    lemma_codes_revealed();
    assert(t.skip(0) =~= t);
    lemma_lookup_skip(c, t, 0);
    lemma_lookup_skip(c, t, 1);
    lemma_lookup_skip(c, t, 2);
    lemma_lookup_skip(c, t, 3);
    lemma_lookup_skip(c, t, 4);
    lemma_lookup_skip(c, t, 5);
    lemma_lookup_skip(c, t, 6);
    lemma_lookup_skip(c, t, 7);
    lemma_lookup_skip(c, t, 8);
    lemma_lookup_skip(c, t, 9);
    lemma_lookup_skip(c, t, 10);
    lemma_lookup_skip(c, t, 11);
    lemma_lookup_skip(c, t, 12);
    lemma_lookup_skip(c, t, 13);
    lemma_lookup_skip(c, t, 14);
    lemma_lookup_skip(c, t, 15);
    lemma_lookup_skip(c, t, 16);
    lemma_lookup_skip(c, t, 17);
    lemma_lookup_skip(c, t, 18);
    lemma_lookup_skip(c, t, 19);
    lemma_lookup_skip(c, t, 20);
    lemma_lookup_skip(c, t, 21);
    lemma_lookup_skip(c, t, 22);
    lemma_lookup_skip(c, t, 23);
    lemma_lookup_skip(c, t, 24);
    lemma_lookup_skip(c, t, 25);
    lemma_lookup_skip(c, t, 26);
    assert(t.skip(27)[0] == t[27]);
}

proof fn lemma_own_alias_it()
    ensures
        alias_lookup(code_of(Language::It), alias_table()) == Some(Language::It),
{
    let t = alias_table();
    let c = code_of(Language::It);
    lemma_alias_texts_revealed();
    lemma_codes_revealed();
    assert(t.skip(0) =~= t);
    lemma_lookup_skip(c, t, 0);
    lemma_lookup_skip(c, t, 1);
    lemma_lookup_skip(c, t, 2);
    lemma_lookup_skip(c, t, 3);
    lemma_lookup_skip(c, t, 4);
    lemma_lookup_skip(c, t, 5);
    lemma_lookup_skip(c, t, 6);
    lemma_lookup_skip(c, t, 7);
    lemma_lookup_skip(c, t, 8);
    lemma_lookup_skip(c, t, 9);
    lemma_lookup_skip(c, t, 10);
    lemma_lookup_skip(c, t, 11);
    lemma_lookup_skip(c, t, 12);
    lemma_lookup_skip(c, t, 13);
    lemma_lookup_skip(c, t, 14);
    lemma_lookup_skip(c, t, 15);
    lemma_lookup_skip(c, t, 16);
    lemma_lookup_skip(c, t, 17);
    lemma_lookup_skip(c, t, 18);
    lemma_lookup_skip(c, t, 19);
    lemma_lookup_skip(c, t, 20);
    lemma_lookup_skip(c, t, 21);
    lemma_lookup_skip(c, t, 22);
    lemma_lookup_skip(c, t, 23);
    lemma_lookup_skip(c, t, 24);
    lemma_lookup_skip(c, t, 25);
    lemma_lookup_skip(c, t, 26);
    lemma_lookup_skip(c, t, 27);
    lemma_lookup_skip(c, t, 28);
    lemma_lookup_skip(c, t, 29);
    lemma_lookup_skip(c, t, 30);
    lemma_lookup_skip(c, t, 31);
    assert(t.skip(32)[0] == t[32]);
}

proof fn lemma_own_alias_pt()
    ensures
        alias_lookup(code_of(Language::Pt), alias_table()) == Some(Language::Pt),
{
    let t = alias_table();
    let c = code_of(Language::Pt);
    lemma_alias_texts_revealed();
    lemma_codes_revealed();
    assert(t.skip(0) =~= t);
    lemma_lookup_skip(c, t, 0);
    lemma_lookup_skip(c, t, 1);
    lemma_lookup_skip(c, t, 2);
    lemma_lookup_skip(c, t, 3);
    lemma_lookup_skip(c, t, 4);
    lemma_lookup_skip(c, t, 5);
    lemma_lookup_skip(c, t, 6);
    lemma_lookup_skip(c, t, 7);
    lemma_lookup_skip(c, t, 8);
    lemma_lookup_skip(c, t, 9);
    lemma_lookup_skip(c, t, 10);
    lemma_lookup_skip(c, t, 11);
    lemma_lookup_skip(c, t, 12);
    lemma_lookup_skip(c, t, 13);
    lemma_lookup_skip(c, t, 14);
    lemma_lookup_skip(c, t, 15);
    lemma_lookup_skip(c, t, 16);
    lemma_lookup_skip(c, t, 17);
    lemma_lookup_skip(c, t, 18);
    lemma_lookup_skip(c, t, 19);
    lemma_lookup_skip(c, t, 20);
    lemma_lookup_skip(c, t, 21);
    lemma_lookup_skip(c, t, 22);
    lemma_lookup_skip(c, t, 23);
    lemma_lookup_skip(c, t, 24);
    lemma_lookup_skip(c, t, 25);
    lemma_lookup_skip(c, t, 26);
    lemma_lookup_skip(c, t, 27);
    lemma_lookup_skip(c, t, 28);
    lemma_lookup_skip(c, t, 29);
    lemma_lookup_skip(c, t, 30);
    lemma_lookup_skip(c, t, 31);
    lemma_lookup_skip(c, t, 32);
    lemma_lookup_skip(c, t, 33);
    lemma_lookup_skip(c, t, 34);
    assert(t.skip(35)[0] == t[35]);
}

proof fn lemma_own_alias_id()
    ensures
        alias_lookup(code_of(Language::Id), alias_table()) == Some(Language::Id),
{
    let t = alias_table();
    let c = code_of(Language::Id);
    lemma_alias_texts_revealed();
    lemma_codes_revealed();
    assert(t.skip(0) =~= t);
    lemma_lookup_skip(c, t, 0);
    lemma_lookup_skip(c, t, 1);
    lemma_lookup_skip(c, t, 2);
    lemma_lookup_skip(c, t, 3);
    lemma_lookup_skip(c, t, 4);
    lemma_lookup_skip(c, t, 5);
    lemma_lookup_skip(c, t, 6);
    lemma_lookup_skip(c, t, 7);
    lemma_lookup_skip(c, t, 8);
    lemma_lookup_skip(c, t, 9);
    lemma_lookup_skip(c, t, 10);
    lemma_lookup_skip(c, t, 11);
    lemma_lookup_skip(c, t, 12);
    lemma_lookup_skip(c, t, 13);
    lemma_lookup_skip(c, t, 14);
    lemma_lookup_skip(c, t, 15);
    lemma_lookup_skip(c, t, 16);
    lemma_lookup_skip(c, t, 17);
    lemma_lookup_skip(c, t, 18);
    lemma_lookup_skip(c, t, 19);
    lemma_lookup_skip(c, t, 20);
    lemma_lookup_skip(c, t, 21);
    lemma_lookup_skip(c, t, 22);
    lemma_lookup_skip(c, t, 23);
    lemma_lookup_skip(c, t, 24);
    lemma_lookup_skip(c, t, 25);
    lemma_lookup_skip(c, t, 26);
    lemma_lookup_skip(c, t, 27);
    lemma_lookup_skip(c, t, 28);
    lemma_lookup_skip(c, t, 29);
    lemma_lookup_skip(c, t, 30);
    lemma_lookup_skip(c, t, 31);
    lemma_lookup_skip(c, t, 32);
    lemma_lookup_skip(c, t, 33);
    lemma_lookup_skip(c, t, 34);
    lemma_lookup_skip(c, t, 35);
    lemma_lookup_skip(c, t, 36);
    lemma_lookup_skip(c, t, 37);
    lemma_lookup_skip(c, t, 38);
    assert(t.skip(39)[0] == t[39]);
}

proof fn lemma_own_alias_ar()
    ensures
        alias_lookup(code_of(Language::Ar), alias_table()) == Some(Language::Ar),
{
    let t = alias_table();
    let c = code_of(Language::Ar);
    lemma_alias_texts_revealed();
    lemma_codes_revealed();
    assert(t.skip(0) =~= t);
    lemma_lookup_skip(c, t, 0);
    lemma_lookup_skip(c, t, 1);
    lemma_lookup_skip(c, t, 2);
    lemma_lookup_skip(c, t, 3);
    lemma_lookup_skip(c, t, 4);
    lemma_lookup_skip(c, t, 5);
    lemma_lookup_skip(c, t, 6);
    lemma_lookup_skip(c, t, 7);
    lemma_lookup_skip(c, t, 8);
    lemma_lookup_skip(c, t, 9);
    lemma_lookup_skip(c, t, 10);
    lemma_lookup_skip(c, t, 11);
    lemma_lookup_skip(c, t, 12);
    lemma_lookup_skip(c, t, 13);
    lemma_lookup_skip(c, t, 14);
    lemma_lookup_skip(c, t, 15);
    lemma_lookup_skip(c, t, 16);
    lemma_lookup_skip(c, t, 17);
    lemma_lookup_skip(c, t, 18);
    lemma_lookup_skip(c, t, 19);
    lemma_lookup_skip(c, t, 20);
    lemma_lookup_skip(c, t, 21);
    lemma_lookup_skip(c, t, 22);
    lemma_lookup_skip(c, t, 23);
    lemma_lookup_skip(c, t, 24);
    lemma_lookup_skip(c, t, 25);
    lemma_lookup_skip(c, t, 26);
    lemma_lookup_skip(c, t, 27);
    lemma_lookup_skip(c, t, 28);
    lemma_lookup_skip(c, t, 29);
    lemma_lookup_skip(c, t, 30);
    lemma_lookup_skip(c, t, 31);
    lemma_lookup_skip(c, t, 32);
    lemma_lookup_skip(c, t, 33);
    lemma_lookup_skip(c, t, 34);
    lemma_lookup_skip(c, t, 35);
    lemma_lookup_skip(c, t, 36);
    lemma_lookup_skip(c, t, 37);
    lemma_lookup_skip(c, t, 38);
    lemma_lookup_skip(c, t, 39);
    lemma_lookup_skip(c, t, 40);
    lemma_lookup_skip(c, t, 41);
    assert(t.skip(42)[0] == t[42]);
}

proof fn lemma_own_alias_th()
    ensures
        alias_lookup(code_of(Language::Th), alias_table()) == Some(Language::Th),
{
    let t = alias_table();
    let c = code_of(Language::Th);
    lemma_alias_texts_revealed();
    lemma_codes_revealed();
    assert(t.skip(0) =~= t);
    lemma_lookup_skip(c, t, 0);
    lemma_lookup_skip(c, t, 1);
    lemma_lookup_skip(c, t, 2);
    lemma_lookup_skip(c, t, 3);
    lemma_lookup_skip(c, t, 4);
    lemma_lookup_skip(c, t, 5);
    lemma_lookup_skip(c, t, 6);
    lemma_lookup_skip(c, t, 7);
    lemma_lookup_skip(c, t, 8);
    lemma_lookup_skip(c, t, 9);
    lemma_lookup_skip(c, t, 10);
    lemma_lookup_skip(c, t, 11);
    lemma_lookup_skip(c, t, 12);
    lemma_lookup_skip(c, t, 13);
    lemma_lookup_skip(c, t, 14);
    lemma_lookup_skip(c, t, 15);
    lemma_lookup_skip(c, t, 16);
    lemma_lookup_skip(c, t, 17);
    lemma_lookup_skip(c, t, 18);
    lemma_lookup_skip(c, t, 19);
    lemma_lookup_skip(c, t, 20);
    lemma_lookup_skip(c, t, 21);
    lemma_lookup_skip(c, t, 22);
    lemma_lookup_skip(c, t, 23);
    lemma_lookup_skip(c, t, 24);
    lemma_lookup_skip(c, t, 25);
    lemma_lookup_skip(c, t, 26);
    lemma_lookup_skip(c, t, 27);
    lemma_lookup_skip(c, t, 28);
    lemma_lookup_skip(c, t, 29);
    lemma_lookup_skip(c, t, 30);
    lemma_lookup_skip(c, t, 31);
    lemma_lookup_skip(c, t, 32);
    lemma_lookup_skip(c, t, 33);
    lemma_lookup_skip(c, t, 34);
    lemma_lookup_skip(c, t, 35);
    lemma_lookup_skip(c, t, 36);
    lemma_lookup_skip(c, t, 37);
    lemma_lookup_skip(c, t, 38);
    lemma_lookup_skip(c, t, 39);
    lemma_lookup_skip(c, t, 40);
    lemma_lookup_skip(c, t, 41);
    lemma_lookup_skip(c, t, 42);
    lemma_lookup_skip(c, t, 43);
    lemma_lookup_skip(c, t, 44);
    assert(t.skip(45)[0] == t[45]);
}

proof fn lemma_own_alias_hi()
    ensures
        alias_lookup(code_of(Language::Hi), alias_table()) == Some(Language::Hi),
{
    let t = alias_table();
    let c = code_of(Language::Hi);
    lemma_alias_texts_revealed();
    lemma_codes_revealed();
    assert(t.skip(0) =~= t);
    lemma_lookup_skip(c, t, 0);
    lemma_lookup_skip(c, t, 1);
    lemma_lookup_skip(c, t, 2);
    lemma_lookup_skip(c, t, 3);
    lemma_lookup_skip(c, t, 4);
    lemma_lookup_skip(c, t, 5);
    lemma_lookup_skip(c, t, 6);
    lemma_lookup_skip(c, t, 7);
    lemma_lookup_skip(c, t, 8);
    lemma_lookup_skip(c, t, 9);
    lemma_lookup_skip(c, t, 10);
    lemma_lookup_skip(c, t, 11);
    lemma_lookup_skip(c, t, 12);
    lemma_lookup_skip(c, t, 13);
    lemma_lookup_skip(c, t, 14);
    lemma_lookup_skip(c, t, 15);
    lemma_lookup_skip(c, t, 16);
    lemma_lookup_skip(c, t, 17);
    lemma_lookup_skip(c, t, 18);
    lemma_lookup_skip(c, t, 19);
    lemma_lookup_skip(c, t, 20);
    lemma_lookup_skip(c, t, 21);
    lemma_lookup_skip(c, t, 22);
    lemma_lookup_skip(c, t, 23);
    lemma_lookup_skip(c, t, 24);
    lemma_lookup_skip(c, t, 25);
    lemma_lookup_skip(c, t, 26);
    lemma_lookup_skip(c, t, 27);
    lemma_lookup_skip(c, t, 28);
    lemma_lookup_skip(c, t, 29);
    lemma_lookup_skip(c, t, 30);
    lemma_lookup_skip(c, t, 31);
    lemma_lookup_skip(c, t, 32);
    lemma_lookup_skip(c, t, 33);
    lemma_lookup_skip(c, t, 34);
    lemma_lookup_skip(c, t, 35);
    lemma_lookup_skip(c, t, 36);
    lemma_lookup_skip(c, t, 37);
    lemma_lookup_skip(c, t, 38);
    lemma_lookup_skip(c, t, 39);
    lemma_lookup_skip(c, t, 40);
    lemma_lookup_skip(c, t, 41);
    lemma_lookup_skip(c, t, 42);
    lemma_lookup_skip(c, t, 43);
    lemma_lookup_skip(c, t, 44);
    lemma_lookup_skip(c, t, 45);
    lemma_lookup_skip(c, t, 46);
    lemma_lookup_skip(c, t, 47);
    lemma_lookup_skip(c, t, 48);
    lemma_lookup_skip(c, t, 49);
    assert(t.skip(50)[0] == t[50]);
}

proof fn lemma_own_alias_da()
    ensures
        alias_lookup(code_of(Language::Da), alias_table()) == Some(Language::Da),
{
    let t = alias_table();
    let c = code_of(Language::Da);
    lemma_alias_texts_revealed();
    lemma_codes_revealed();
    assert(t.skip(0) =~= t);
    lemma_lookup_skip(c, t, 0);
    lemma_lookup_skip(c, t, 1);
    lemma_lookup_skip(c, t, 2);
    lemma_lookup_skip(c, t, 3);
    lemma_lookup_skip(c, t, 4);
    lemma_lookup_skip(c, t, 5);
    lemma_lookup_skip(c, t, 6);
    lemma_lookup_skip(c, t, 7);
    lemma_lookup_skip(c, t, 8);
    lemma_lookup_skip(c, t, 9);
    lemma_lookup_skip(c, t, 10);
    lemma_lookup_skip(c, t, 11);
    lemma_lookup_skip(c, t, 12);
    lemma_lookup_skip(c, t, 13);
    lemma_lookup_skip(c, t, 14);
    lemma_lookup_skip(c, t, 15);
    lemma_lookup_skip(c, t, 16);
    lemma_lookup_skip(c, t, 17);
    lemma_lookup_skip(c, t, 18);
    lemma_lookup_skip(c, t, 19);
    lemma_lookup_skip(c, t, 20);
    lemma_lookup_skip(c, t, 21);
    lemma_lookup_skip(c, t, 22);
    lemma_lookup_skip(c, t, 23);
    lemma_lookup_skip(c, t, 24);
    lemma_lookup_skip(c, t, 25);
    lemma_lookup_skip(c, t, 26);
    lemma_lookup_skip(c, t, 27);
    lemma_lookup_skip(c, t, 28);
    lemma_lookup_skip(c, t, 29);
    lemma_lookup_skip(c, t, 30);
    lemma_lookup_skip(c, t, 31);
    lemma_lookup_skip(c, t, 32);
    lemma_lookup_skip(c, t, 33);
    lemma_lookup_skip(c, t, 34);
    lemma_lookup_skip(c, t, 35);
    lemma_lookup_skip(c, t, 36);
    lemma_lookup_skip(c, t, 37);
    lemma_lookup_skip(c, t, 38);
    lemma_lookup_skip(c, t, 39);
    lemma_lookup_skip(c, t, 40);
    lemma_lookup_skip(c, t, 41);
    lemma_lookup_skip(c, t, 42);
    lemma_lookup_skip(c, t, 43);
    lemma_lookup_skip(c, t, 44);
    lemma_lookup_skip(c, t, 45);
    lemma_lookup_skip(c, t, 46);
    lemma_lookup_skip(c, t, 47);
    lemma_lookup_skip(c, t, 48);
    lemma_lookup_skip(c, t, 49);
    lemma_lookup_skip(c, t, 50);
    lemma_lookup_skip(c, t, 51);
    lemma_lookup_skip(c, t, 52);
    assert(t.skip(53)[0] == t[53]);
}

proof fn lemma_own_alias_ur()
    ensures
        alias_lookup(code_of(Language::Ur), alias_table()) == Some(Language::Ur),
{
    let t = alias_table();
    let c = code_of(Language::Ur);
    lemma_alias_texts_revealed();
    lemma_codes_revealed();
    assert(t.skip(0) =~= t);
    lemma_lookup_skip(c, t, 0);
    lemma_lookup_skip(c, t, 1);
    lemma_lookup_skip(c, t, 2);
    lemma_lookup_skip(c, t, 3);
    lemma_lookup_skip(c, t, 4);
    lemma_lookup_skip(c, t, 5);
    lemma_lookup_skip(c, t, 6);
    lemma_lookup_skip(c, t, 7);
    lemma_lookup_skip(c, t, 8);
    lemma_lookup_skip(c, t, 9);
    lemma_lookup_skip(c, t, 10);
    lemma_lookup_skip(c, t, 11);
    lemma_lookup_skip(c, t, 12);
    lemma_lookup_skip(c, t, 13);
    lemma_lookup_skip(c, t, 14);
    lemma_lookup_skip(c, t, 15);
    lemma_lookup_skip(c, t, 16);
    lemma_lookup_skip(c, t, 17);
    lemma_lookup_skip(c, t, 18);
    lemma_lookup_skip(c, t, 19);
    lemma_lookup_skip(c, t, 20);
    lemma_lookup_skip(c, t, 21);
    lemma_lookup_skip(c, t, 22);
    lemma_lookup_skip(c, t, 23);
    lemma_lookup_skip(c, t, 24);
    lemma_lookup_skip(c, t, 25);
    lemma_lookup_skip(c, t, 26);
    lemma_lookup_skip(c, t, 27);
    lemma_lookup_skip(c, t, 28);
    lemma_lookup_skip(c, t, 29);
    lemma_lookup_skip(c, t, 30);
    lemma_lookup_skip(c, t, 31);
    lemma_lookup_skip(c, t, 32);
    lemma_lookup_skip(c, t, 33);
    lemma_lookup_skip(c, t, 34);
    lemma_lookup_skip(c, t, 35);
    lemma_lookup_skip(c, t, 36);
    lemma_lookup_skip(c, t, 37);
    lemma_lookup_skip(c, t, 38);
    lemma_lookup_skip(c, t, 39);
    lemma_lookup_skip(c, t, 40);
    lemma_lookup_skip(c, t, 41);
    lemma_lookup_skip(c, t, 42);
    lemma_lookup_skip(c, t, 43);
    lemma_lookup_skip(c, t, 44);
    lemma_lookup_skip(c, t, 45);
    lemma_lookup_skip(c, t, 46);
    lemma_lookup_skip(c, t, 47);
    lemma_lookup_skip(c, t, 48);
    lemma_lookup_skip(c, t, 49);
    lemma_lookup_skip(c, t, 50);
    lemma_lookup_skip(c, t, 51);
    lemma_lookup_skip(c, t, 52);
    lemma_lookup_skip(c, t, 53);
    lemma_lookup_skip(c, t, 54);
    lemma_lookup_skip(c, t, 55);
    assert(t.skip(56)[0] == t[56]);
}

proof fn lemma_own_alias_tr()
    ensures
        alias_lookup(code_of(Language::Tr), alias_table()) == Some(Language::Tr),
{
    let t = alias_table();
    let c = code_of(Language::Tr);
    lemma_alias_texts_revealed();
    lemma_codes_revealed();
    assert(t.skip(0) =~= t);
    lemma_lookup_skip(c, t, 0);
    lemma_lookup_skip(c, t, 1);
    lemma_lookup_skip(c, t, 2);
    lemma_lookup_skip(c, t, 3);
    lemma_lookup_skip(c, t, 4);
    lemma_lookup_skip(c, t, 5);
    lemma_lookup_skip(c, t, 6);
    lemma_lookup_skip(c, t, 7);
    lemma_lookup_skip(c, t, 8);
    lemma_lookup_skip(c, t, 9);
    lemma_lookup_skip(c, t, 10);
    lemma_lookup_skip(c, t, 11);
    lemma_lookup_skip(c, t, 12);
    lemma_lookup_skip(c, t, 13);
    lemma_lookup_skip(c, t, 14);
    lemma_lookup_skip(c, t, 15);
    lemma_lookup_skip(c, t, 16);
    lemma_lookup_skip(c, t, 17);
    lemma_lookup_skip(c, t, 18);
    lemma_lookup_skip(c, t, 19);
    lemma_lookup_skip(c, t, 20);
    lemma_lookup_skip(c, t, 21);
    lemma_lookup_skip(c, t, 22);
    lemma_lookup_skip(c, t, 23);
    lemma_lookup_skip(c, t, 24);
    lemma_lookup_skip(c, t, 25);
    lemma_lookup_skip(c, t, 26);
    lemma_lookup_skip(c, t, 27);
    lemma_lookup_skip(c, t, 28);
    lemma_lookup_skip(c, t, 29);
    lemma_lookup_skip(c, t, 30);
    lemma_lookup_skip(c, t, 31);
    lemma_lookup_skip(c, t, 32);
    lemma_lookup_skip(c, t, 33);
    lemma_lookup_skip(c, t, 34);
    lemma_lookup_skip(c, t, 35);
    lemma_lookup_skip(c, t, 36);
    lemma_lookup_skip(c, t, 37);
    lemma_lookup_skip(c, t, 38);
    lemma_lookup_skip(c, t, 39);
    lemma_lookup_skip(c, t, 40);
    lemma_lookup_skip(c, t, 41);
    lemma_lookup_skip(c, t, 42);
    lemma_lookup_skip(c, t, 43);
    lemma_lookup_skip(c, t, 44);
    lemma_lookup_skip(c, t, 45);
    lemma_lookup_skip(c, t, 46);
    lemma_lookup_skip(c, t, 47);
    lemma_lookup_skip(c, t, 48);
    lemma_lookup_skip(c, t, 49);
    lemma_lookup_skip(c, t, 50);
    lemma_lookup_skip(c, t, 51);
    lemma_lookup_skip(c, t, 52);
    lemma_lookup_skip(c, t, 53);
    lemma_lookup_skip(c, t, 54);
    lemma_lookup_skip(c, t, 55);
    lemma_lookup_skip(c, t, 56);
    lemma_lookup_skip(c, t, 57);
    lemma_lookup_skip(c, t, 58);
    assert(t.skip(59)[0] == t[59]);
}

proof fn lemma_own_alias_nl()
    ensures
        alias_lookup(code_of(Language::Nl), alias_table()) == Some(Language::Nl),
{
    let t = alias_table();
    let c = code_of(Language::Nl);
    lemma_alias_texts_revealed();
    lemma_codes_revealed();
    assert(t.skip(0) =~= t);
    lemma_lookup_skip(c, t, 0);
    lemma_lookup_skip(c, t, 1);
    lemma_lookup_skip(c, t, 2);
    lemma_lookup_skip(c, t, 3);
    lemma_lookup_skip(c, t, 4);
    lemma_lookup_skip(c, t, 5);
    lemma_lookup_skip(c, t, 6);
    lemma_lookup_skip(c, t, 7);
    lemma_lookup_skip(c, t, 8);
    lemma_lookup_skip(c, t, 9);
    lemma_lookup_skip(c, t, 10);
    lemma_lookup_skip(c, t, 11);
    lemma_lookup_skip(c, t, 12);
    lemma_lookup_skip(c, t, 13);
    lemma_lookup_skip(c, t, 14);
    lemma_lookup_skip(c, t, 15);
    lemma_lookup_skip(c, t, 16);
    lemma_lookup_skip(c, t, 17);
    lemma_lookup_skip(c, t, 18);
    lemma_lookup_skip(c, t, 19);
    lemma_lookup_skip(c, t, 20);
    lemma_lookup_skip(c, t, 21);
    lemma_lookup_skip(c, t, 22);
    lemma_lookup_skip(c, t, 23);
    lemma_lookup_skip(c, t, 24);
    lemma_lookup_skip(c, t, 25);
    lemma_lookup_skip(c, t, 26);
    lemma_lookup_skip(c, t, 27);
    lemma_lookup_skip(c, t, 28);
    lemma_lookup_skip(c, t, 29);
    lemma_lookup_skip(c, t, 30);
    lemma_lookup_skip(c, t, 31);
    lemma_lookup_skip(c, t, 32);
    lemma_lookup_skip(c, t, 33);
    lemma_lookup_skip(c, t, 34);
    lemma_lookup_skip(c, t, 35);
    lemma_lookup_skip(c, t, 36);
    lemma_lookup_skip(c, t, 37);
    lemma_lookup_skip(c, t, 38);
    lemma_lookup_skip(c, t, 39);
    lemma_lookup_skip(c, t, 40);
    lemma_lookup_skip(c, t, 41);
    lemma_lookup_skip(c, t, 42);
    lemma_lookup_skip(c, t, 43);
    lemma_lookup_skip(c, t, 44);
    lemma_lookup_skip(c, t, 45);
    lemma_lookup_skip(c, t, 46);
    lemma_lookup_skip(c, t, 47);
    lemma_lookup_skip(c, t, 48);
    lemma_lookup_skip(c, t, 49);
    lemma_lookup_skip(c, t, 50);
    lemma_lookup_skip(c, t, 51);
    lemma_lookup_skip(c, t, 52);
    lemma_lookup_skip(c, t, 53);
    lemma_lookup_skip(c, t, 54);
    lemma_lookup_skip(c, t, 55);
    lemma_lookup_skip(c, t, 56);
    lemma_lookup_skip(c, t, 57);
    lemma_lookup_skip(c, t, 58);
    lemma_lookup_skip(c, t, 59);
    lemma_lookup_skip(c, t, 60);
    lemma_lookup_skip(c, t, 61);
    lemma_lookup_skip(c, t, 62);
    assert(t.skip(63)[0] == t[63]);
}

proof fn lemma_own_alias_ms()
    ensures
        alias_lookup(code_of(Language::Ms), alias_table()) == Some(Language::Ms),
{
    let t = alias_table();
    let c = code_of(Language::Ms);
    lemma_alias_texts_revealed();
    lemma_codes_revealed();
    assert(t.skip(0) =~= t);
    lemma_lookup_skip(c, t, 0);
    lemma_lookup_skip(c, t, 1);
    lemma_lookup_skip(c, t, 2);
    lemma_lookup_skip(c, t, 3);
    lemma_lookup_skip(c, t, 4);
    lemma_lookup_skip(c, t, 5);
    lemma_lookup_skip(c, t, 6);
    lemma_lookup_skip(c, t, 7);
    lemma_lookup_skip(c, t, 8);
    lemma_lookup_skip(c, t, 9);
    lemma_lookup_skip(c, t, 10);
    lemma_lookup_skip(c, t, 11);
    lemma_lookup_skip(c, t, 12);
    lemma_lookup_skip(c, t, 13);
    lemma_lookup_skip(c, t, 14);
    lemma_lookup_skip(c, t, 15);
    lemma_lookup_skip(c, t, 16);
    lemma_lookup_skip(c, t, 17);
    lemma_lookup_skip(c, t, 18);
    lemma_lookup_skip(c, t, 19);
    lemma_lookup_skip(c, t, 20);
    lemma_lookup_skip(c, t, 21);
    lemma_lookup_skip(c, t, 22);
    lemma_lookup_skip(c, t, 23);
    lemma_lookup_skip(c, t, 24);
    lemma_lookup_skip(c, t, 25);
    lemma_lookup_skip(c, t, 26);
    lemma_lookup_skip(c, t, 27);
    lemma_lookup_skip(c, t, 28);
    lemma_lookup_skip(c, t, 29);
    lemma_lookup_skip(c, t, 30);
    lemma_lookup_skip(c, t, 31);
    lemma_lookup_skip(c, t, 32);
    lemma_lookup_skip(c, t, 33);
    lemma_lookup_skip(c, t, 34);
    lemma_lookup_skip(c, t, 35);
    lemma_lookup_skip(c, t, 36);
    lemma_lookup_skip(c, t, 37);
    lemma_lookup_skip(c, t, 38);
    lemma_lookup_skip(c, t, 39);
    lemma_lookup_skip(c, t, 40);
    lemma_lookup_skip(c, t, 41);
    lemma_lookup_skip(c, t, 42);
    lemma_lookup_skip(c, t, 43);
    lemma_lookup_skip(c, t, 44);
    lemma_lookup_skip(c, t, 45);
    lemma_lookup_skip(c, t, 46);
    lemma_lookup_skip(c, t, 47);
    lemma_lookup_skip(c, t, 48);
    lemma_lookup_skip(c, t, 49);
    lemma_lookup_skip(c, t, 50);
    lemma_lookup_skip(c, t, 51);
    lemma_lookup_skip(c, t, 52);
    lemma_lookup_skip(c, t, 53);
    lemma_lookup_skip(c, t, 54);
    lemma_lookup_skip(c, t, 55);
    lemma_lookup_skip(c, t, 56);
    lemma_lookup_skip(c, t, 57);
    lemma_lookup_skip(c, t, 58);
    lemma_lookup_skip(c, t, 59);
    lemma_lookup_skip(c, t, 60);
    lemma_lookup_skip(c, t, 61);
    lemma_lookup_skip(c, t, 62);
    lemma_lookup_skip(c, t, 63);
    lemma_lookup_skip(c, t, 64);
    lemma_lookup_skip(c, t, 65);
    assert(t.skip(66)[0] == t[66]);
}

proof fn lemma_own_alias_vi()
    ensures
        alias_lookup(code_of(Language::Vi), alias_table()) == Some(Language::Vi),
{
    let t = alias_table();
    let c = code_of(Language::Vi);
    lemma_alias_texts_revealed();
    lemma_codes_revealed();
    assert(t.skip(0) =~= t);
    lemma_lookup_skip(c, t, 0);
    lemma_lookup_skip(c, t, 1);
    lemma_lookup_skip(c, t, 2);
    lemma_lookup_skip(c, t, 3);
    lemma_lookup_skip(c, t, 4);
    lemma_lookup_skip(c, t, 5);
    lemma_lookup_skip(c, t, 6);
    lemma_lookup_skip(c, t, 7);
    lemma_lookup_skip(c, t, 8);
    lemma_lookup_skip(c, t, 9);
    lemma_lookup_skip(c, t, 10);
    lemma_lookup_skip(c, t, 11);
    lemma_lookup_skip(c, t, 12);
    lemma_lookup_skip(c, t, 13);
    lemma_lookup_skip(c, t, 14);
    lemma_lookup_skip(c, t, 15);
    lemma_lookup_skip(c, t, 16);
    lemma_lookup_skip(c, t, 17);
    lemma_lookup_skip(c, t, 18);
    lemma_lookup_skip(c, t, 19);
    lemma_lookup_skip(c, t, 20);
    lemma_lookup_skip(c, t, 21);
    lemma_lookup_skip(c, t, 22);
    lemma_lookup_skip(c, t, 23);
    lemma_lookup_skip(c, t, 24);
    lemma_lookup_skip(c, t, 25);
    lemma_lookup_skip(c, t, 26);
    lemma_lookup_skip(c, t, 27);
    lemma_lookup_skip(c, t, 28);
    lemma_lookup_skip(c, t, 29);
    lemma_lookup_skip(c, t, 30);
    lemma_lookup_skip(c, t, 31);
    lemma_lookup_skip(c, t, 32);
    lemma_lookup_skip(c, t, 33);
    lemma_lookup_skip(c, t, 34);
    lemma_lookup_skip(c, t, 35);
    lemma_lookup_skip(c, t, 36);
    lemma_lookup_skip(c, t, 37);
    lemma_lookup_skip(c, t, 38);
    lemma_lookup_skip(c, t, 39);
    lemma_lookup_skip(c, t, 40);
    lemma_lookup_skip(c, t, 41);
    lemma_lookup_skip(c, t, 42);
    lemma_lookup_skip(c, t, 43);
    lemma_lookup_skip(c, t, 44);
    lemma_lookup_skip(c, t, 45);
    lemma_lookup_skip(c, t, 46);
    lemma_lookup_skip(c, t, 47);
    lemma_lookup_skip(c, t, 48);
    lemma_lookup_skip(c, t, 49);
    lemma_lookup_skip(c, t, 50);
    lemma_lookup_skip(c, t, 51);
    lemma_lookup_skip(c, t, 52);
    lemma_lookup_skip(c, t, 53);
    lemma_lookup_skip(c, t, 54);
    lemma_lookup_skip(c, t, 55);
    lemma_lookup_skip(c, t, 56);
    lemma_lookup_skip(c, t, 57);
    lemma_lookup_skip(c, t, 58);
    lemma_lookup_skip(c, t, 59);
    lemma_lookup_skip(c, t, 60);
    lemma_lookup_skip(c, t, 61);
    lemma_lookup_skip(c, t, 62);
    lemma_lookup_skip(c, t, 63);
    lemma_lookup_skip(c, t, 64);
    lemma_lookup_skip(c, t, 65);
    lemma_lookup_skip(c, t, 66);
    lemma_lookup_skip(c, t, 67);
    lemma_lookup_skip(c, t, 68);
    assert(t.skip(69)[0] == t[69]);
}

/// The code of every language is one of its own aliases, found first.
proof fn lemma_own_alias(l: Language)
    ensures
        alias_lookup(code_of(l), alias_table()) == Some(l),
{
    match l {
        Language::Auto => lemma_own_alias_auto(),
        Language::Zh => lemma_own_alias_zh(),
        Language::En => lemma_own_alias_en(),
        Language::Ja => lemma_own_alias_ja(),
        Language::Ko => lemma_own_alias_ko(),
        Language::Yue => lemma_own_alias_yue(),
        Language::De => lemma_own_alias_de(),
        Language::Fr => lemma_own_alias_fr(),
        Language::Ru => lemma_own_alias_ru(),
        Language::Es => lemma_own_alias_es(),
        Language::It => lemma_own_alias_it(),
        Language::Pt => lemma_own_alias_pt(),
        Language::Id => lemma_own_alias_id(),
        Language::Ar => lemma_own_alias_ar(),
        Language::Th => lemma_own_alias_th(),
        Language::Hi => lemma_own_alias_hi(),
        Language::Da => lemma_own_alias_da(),
        Language::Ur => lemma_own_alias_ur(),
        Language::Tr => lemma_own_alias_tr(),
        Language::Nl => lemma_own_alias_nl(),
        Language::Ms => lemma_own_alias_ms(),
        Language::Vi => lemma_own_alias_vi(),
    }
}

/// The code of a language normalizes to that language (`auto` only when allowed).
pub proof fn lemma_code_normalizes_to_itself(l: Language, allow_auto: bool)
    ensures
        (allow_auto || l != Language::Auto) ==> normalized_language(code_of(l), allow_auto) == Some(l),
        (allow_auto || l != Language::Auto) ==> normalized_code(code_of(l), allow_auto) == Some(code_of(l)),
{
    let c = code_of(l);
    lemma_codes_revealed();
    lemma_own_alias(l);
    assert(trim(c) =~= c);
    assert(ascii_lower(c) =~= c);
}

/// A language is named by its own code and by no other.
pub proof fn lemma_code_names_language(s: Seq<char>, l: Language)
    requires
        language_of_code(s) == Some(l),
    ensures
        s == code_of(l),
{
}

/// Normalizing is idempotent: the code that a name normalizes to
/// normalizes to itself, so stored settings do not drift from one load to the next.
pub proof fn law_normalization_is_idempotent(input: Seq<char>, allow_auto: bool)
    ensures
        normalized_code(input, allow_auto) matches Some(c) ==> normalized_code(c, allow_auto) == Some(c),
{
    if let Some(l) = normalized_language(input, allow_auto) {
        lemma_code_normalizes_to_itself(l, allow_auto);
    }
}

/// Every normalized code is the code of a known language, `auto` only when
/// it is allowed; blank text names no language.
pub proof fn law_normalized_code_is_known(input: Seq<char>, allow_auto: bool)
    ensures
        trim(input).len() == 0 ==> normalized_code(input, allow_auto) is None,
        normalized_code(input, allow_auto) matches Some(c) ==> language_of_code(c) is Some && (c == "auto"@
            ==> allow_auto),
{
    if let Some(l) = normalized_language(input, allow_auto) {
        lemma_language_facts(l);
    }
}

/// Normalizing ignores surrounding white space and the case of ASCII
/// letters: it gives the same for a name as for the name trimmed and lowered.
pub proof fn law_normalization_ignores_case_and_space(input: Seq<char>, allow_auto: bool)
    ensures
        normalized_code(input, allow_auto) == normalized_code(ascii_lower(trim(input)), allow_auto),
{
    let t = trim(input);
    let y = ascii_lower(t);
    lemma_trim_shape(input);
    lemma_ascii_lower_shape(t);
    lemma_trimmed_is_fixed(y);
    assert(normalized_language(input, allow_auto) == normalized_language(y, allow_auto));
}

/// Refusing `auto` only filters it out of what normalizing with `auto`
/// allowed gives.
pub proof fn law_refusing_auto_filters(input: Seq<char>)
    ensures
        normalized_code(input, false) == match normalized_code(input, true) {
            Some(c) => if c == "auto"@ {
                None
            } else {
                Some(c)
            },
            None => None,
        },
{
    if let Some(l) = normalized_language(input, true) {
        lemma_language_facts(l);
    }
}

} // verus!
