//! The application settings, their defaults, their JSON form, and the
//! migration of a stored settings document written by an older version.

use vstd::prelude::*;

use crate::gummy::{
    language_of_code, law_normalized_source_is_valid, law_normalized_target_is_valid, lemma_code_names_language,
    lemma_code_normalizes_to_itself, lemma_language_facts, valid_source_code, valid_target_code, Language,
    normalize_source_language, normalize_target_language, normalized_code, DEFAULT_BASE_URL,
    DEFAULT_MODEL, DEFAULT_SAMPLE_RATE, DEFAULT_SOURCE_LANGUAGE, DEFAULT_TARGET_LANGUAGE,
    DEFAULT_VAD_SILENCE_MS,
};
use crate::json::{
    bool_member, entries_get, entries_view, lemma_entries_get_push, lemma_entries_view,
    lemma_entries_view_ext, member_copy, new_entries, object, push_entry, str_member, u64_member, Json, JsonValue,
    NumberView, json_text, json_text_spec, parse_json_text, parse_json_spec, json_view_of,
};
use crate::text::{ascii_lower, eq_ignore_ascii_case, is_blank, owned, str_eq, trim, trim_end_char, trim_end_char_str, trim_str};

verus! {

/// The recognition endpoint of an older configuration, replaced by the default.
pub const LEGACY_GUMMY_REALTIME_URL: &'static str = "wss://dashscope.aliyuncs.com/api-ws/v1/realtime";

/// The recognition model of an older configuration, replaced by the default.
pub const LEGACY_QWEN3_ASR_MODEL: &'static str = "qwen3-asr-flash-realtime";

/// Settings of the recognition service.
#[derive(Debug)]
pub struct AsrConfig {
    pub base_url: String,
    pub api_key: String,
    pub model: String,
    pub sample_rate: u32,
    pub language: String,
    pub vad_silence_ms: u32,
    pub vocabulary_id: String,
}

/// Settings of the translation of recognised sentences.
#[derive(Debug)]
pub struct TranslationConfig {
    pub enabled: bool,
    pub target_language: String,
}

/// Settings of the saving of subtitles.
#[derive(Debug)]
pub struct SaveConfig {
    pub auto_save: bool,
    pub save_path: String,
}

/// Settings of what is captured: `system` for all system audio, `app` for
/// the process `app_pid`.
#[derive(Debug)]
pub struct CaptureConfig {
    pub source: String,
    pub app_pid: Option<u32>,
    pub app_name: String,
}

/// All settings of the application.
#[derive(Debug)]
pub struct AppConfig {
    pub asr: AsrConfig,
    pub translation: TranslationConfig,
    pub save: SaveConfig,
    pub capture: CaptureConfig,
    pub filter_fillers: bool,
}

/// The user's documents directory, from `dirs::document_dir`, as text.
/// It depends on the environment: nothing is claimed of it.
#[verifier::external_body]
fn document_dir() -> Option<String> {
    dirs::document_dir().map(|p| p.to_string_lossy().to_string())
}

/// The path that `Path::join` makes of `base` and `name`. It follows the
/// path rules of the platform the library is built for (its separator, and
/// what counts as an absolute `name`, differ between Windows and Unix), so no
/// value of it is stated here.
pub uninterp spec fn joined_path(base: Seq<char>, name: Seq<char>) -> Seq<char>;

/// Joins `name` onto the directory `base` with `std::path::Path::join`.
/// The contract claims that the result is `joined_path` of the two arguments.
#[verifier::external_body]
pub(crate) fn path_join(base: &str, name: &str) -> (r: String)
    ensures
        r@ == joined_path(base@, name@),
{
    std::path::Path::new(base).join(name).to_string_lossy().to_string()
}

/// Whether `c` holds the default recognition settings.
pub open spec fn is_default_asr(c: AsrConfig) -> bool {
    &&& c.base_url@ == DEFAULT_BASE_URL@
    &&& c.api_key@ == Seq::<char>::empty()
    &&& c.model@ == DEFAULT_MODEL@
    &&& c.sample_rate == DEFAULT_SAMPLE_RATE
    &&& c.language@ == DEFAULT_SOURCE_LANGUAGE@
    &&& c.vad_silence_ms == DEFAULT_VAD_SILENCE_MS
    &&& c.vocabulary_id@ == Seq::<char>::empty()
}

/// Whether `c` holds the default translation settings.
pub open spec fn is_default_translation(c: TranslationConfig) -> bool {
    !c.enabled && c.target_language@ == DEFAULT_TARGET_LANGUAGE@
}

/// Whether `c` holds the default save settings: saving on, into the
/// `LingSubtitle` folder of some directory (the documents directory, or `.`).
pub open spec fn is_default_save(c: SaveConfig) -> bool {
    c.auto_save && exists|dir: Seq<char>| c.save_path@ == #[trigger] joined_path(dir, "LingSubtitle"@)
}

/// Whether `c` holds the default capture settings.
pub open spec fn is_default_capture(c: CaptureConfig) -> bool {
    c.source@ == "system"@ && c.app_pid is None && c.app_name@ == Seq::<char>::empty()
}

/// Whether `c` holds the default settings.
pub open spec fn is_default_app_config(c: AppConfig) -> bool {
    &&& is_default_asr(c.asr)
    &&& is_default_translation(c.translation)
    &&& is_default_save(c.save)
    &&& is_default_capture(c.capture)
    &&& !c.filter_fillers
}

impl Default for AsrConfig {
    fn default() -> (r: Self)
        ensures
            is_default_asr(r),
    {
        AsrConfig {
            base_url: owned(DEFAULT_BASE_URL),
            api_key: String::new(),
            model: owned(DEFAULT_MODEL),
            sample_rate: DEFAULT_SAMPLE_RATE,
            language: owned(DEFAULT_SOURCE_LANGUAGE),
            vad_silence_ms: DEFAULT_VAD_SILENCE_MS,
            vocabulary_id: String::new(),
        }
    }
}

impl Default for TranslationConfig {
    fn default() -> (r: Self)
        ensures
            is_default_translation(r),
    {
        TranslationConfig { enabled: false, target_language: owned(DEFAULT_TARGET_LANGUAGE) }
    }
}

impl Default for SaveConfig {
    fn default() -> (r: Self)
        ensures
            is_default_save(r),
    {
        let dir = match document_dir() {
            Some(d) => d,
            None => owned("."),
        };
        let path = path_join(dir.as_str(), "LingSubtitle");
        assert(path@ == joined_path(dir@, "LingSubtitle"@));
        SaveConfig { auto_save: true, save_path: path }
    }
}

impl Default for CaptureConfig {
    fn default() -> (r: Self)
        ensures
            is_default_capture(r),
    {
        CaptureConfig { source: owned("system"), app_pid: None, app_name: String::new() }
    }
}

impl Default for AppConfig {
    fn default() -> (r: Self)
        ensures
            is_default_app_config(r),
    {
        AppConfig {
            asr: AsrConfig::default(),
            translation: TranslationConfig::default(),
            save: SaveConfig::default(),
            capture: CaptureConfig::default(),
            filter_fillers: false,
        }
    }
}

/// The JSON form of recognition settings.
pub open spec fn asr_json(c: AsrConfig) -> Json {
    Json::Object(
        seq![
            ("base_url"@, Json::Str(c.base_url@)),
            ("api_key"@, Json::Str(c.api_key@)),
            ("model"@, Json::Str(c.model@)),
            ("sample_rate"@, Json::Number(NumberView::PosInt(c.sample_rate as u64))),
            ("language"@, Json::Str(c.language@)),
            ("vad_silence_ms"@, Json::Number(NumberView::PosInt(c.vad_silence_ms as u64))),
            ("vocabulary_id"@, Json::Str(c.vocabulary_id@)),
        ],
    )
}

/// The JSON form of translation settings.
pub open spec fn translation_json(c: TranslationConfig) -> Json {
    Json::Object(seq![("enabled"@, Json::Bool(c.enabled)), ("target_language"@, Json::Str(c.target_language@))])
}

/// The JSON form of save settings.
pub open spec fn save_json(c: SaveConfig) -> Json {
    Json::Object(seq![("auto_save"@, Json::Bool(c.auto_save)), ("save_path"@, Json::Str(c.save_path@))])
}

/// The JSON form of an optional process id.
pub open spec fn pid_json(p: Option<u32>) -> Json {
    match p {
        Some(n) => Json::Number(NumberView::PosInt(n as u64)),
        None => Json::Null,
    }
}

/// The JSON form of capture settings.
pub open spec fn capture_json(c: CaptureConfig) -> Json {
    Json::Object(
        seq![
            ("source"@, Json::Str(c.source@)),
            ("app_pid"@, pid_json(c.app_pid)),
            ("app_name"@, Json::Str(c.app_name@)),
        ],
    )
}

/// The JSON form of all settings.
pub open spec fn app_config_json(c: AppConfig) -> Json {
    Json::Object(
        seq![
            ("asr"@, asr_json(c.asr)),
            ("translation"@, translation_json(c.translation)),
            ("save"@, save_json(c.save)),
            ("capture"@, capture_json(c.capture)),
            ("filter_fillers"@, Json::Bool(c.filter_fillers)),
        ],
    )
}

impl AsrConfig {
    /// The JSON form of these settings.
    pub fn to_json(&self) -> (r: JsonValue)
        ensures
            r@ == asr_json(*self),
    {
        let mut e = new_entries();
        push_entry(&mut e, "base_url", JsonValue::string(self.base_url.as_str()));
        push_entry(&mut e, "api_key", JsonValue::string(self.api_key.as_str()));
        push_entry(&mut e, "model", JsonValue::string(self.model.as_str()));
        push_entry(&mut e, "sample_rate", JsonValue::unsigned(self.sample_rate as u64));
        push_entry(&mut e, "language", JsonValue::string(self.language.as_str()));
        push_entry(&mut e, "vad_silence_ms", JsonValue::unsigned(self.vad_silence_ms as u64));
        push_entry(&mut e, "vocabulary_id", JsonValue::string(self.vocabulary_id.as_str()));
        assert(entries_view(e@) =~= asr_json(*self).entries());
        object(e)
    }
}

impl TranslationConfig {
    /// The JSON form of these settings.
    pub fn to_json(&self) -> (r: JsonValue)
        ensures
            r@ == translation_json(*self),
    {
        let mut e = new_entries();
        push_entry(&mut e, "enabled", JsonValue::Bool(self.enabled));
        push_entry(&mut e, "target_language", JsonValue::string(self.target_language.as_str()));
        assert(entries_view(e@) =~= translation_json(*self).entries());
        object(e)
    }
}

impl SaveConfig {
    /// The JSON form of these settings.
    pub fn to_json(&self) -> (r: JsonValue)
        ensures
            r@ == save_json(*self),
    {
        let mut e = new_entries();
        push_entry(&mut e, "auto_save", JsonValue::Bool(self.auto_save));
        push_entry(&mut e, "save_path", JsonValue::string(self.save_path.as_str()));
        assert(entries_view(e@) =~= save_json(*self).entries());
        object(e)
    }
}

impl CaptureConfig {
    /// The JSON form of these settings.
    pub fn to_json(&self) -> (r: JsonValue)
        ensures
            r@ == capture_json(*self),
    {
        let mut e = new_entries();
        push_entry(&mut e, "source", JsonValue::string(self.source.as_str()));
        let pid = match self.app_pid {
            Some(n) => JsonValue::unsigned(n as u64),
            None => JsonValue::Null,
        };
        push_entry(&mut e, "app_pid", pid);
        push_entry(&mut e, "app_name", JsonValue::string(self.app_name.as_str()));
        assert(entries_view(e@) =~= capture_json(*self).entries());
        object(e)
    }
}

impl AppConfig {
    /// The JSON form of these settings.
    pub fn to_json(&self) -> (r: JsonValue)
        ensures
            r@ == app_config_json(*self),
    {
        let mut e = new_entries();
        push_entry(&mut e, "asr", self.asr.to_json());
        push_entry(&mut e, "translation", self.translation.to_json());
        push_entry(&mut e, "save", self.save.to_json());
        push_entry(&mut e, "capture", self.capture.to_json());
        push_entry(&mut e, "filter_fillers", JsonValue::Bool(self.filter_fillers));
        assert(entries_view(e@) =~= app_config_json(*self).entries());
        object(e)
    }
}

/// A stored endpoint, trimmed and without trailing slashes; the legacy
/// endpoint (in any ASCII case) becomes `default_value`.
pub open spec fn normalized_base_url(value: Seq<char>, default_value: Seq<char>) -> Seq<char> {
    let n = trim_end_char(trim(value), '/');
    if ascii_lower(n) == ascii_lower(LEGACY_GUMMY_REALTIME_URL@) {
        default_value
    } else {
        n
    }
}

/// A stored model name, trimmed; the legacy model (in any ASCII case)
/// becomes `default_value`.
pub open spec fn normalized_model(value: Seq<char>, default_value: Seq<char>) -> Seq<char> {
    let n = trim(value);
    if ascii_lower(n) == ascii_lower(LEGACY_QWEN3_ASR_MODEL@) {
        default_value
    } else {
        n
    }
}

/// `v` brought into `[lo, hi]`.
pub open spec fn clamp(v: u32, lo: u32, hi: u32) -> u32 {
    if v < lo {
        lo
    } else if v > hi {
        hi
    } else {
        v
    }
}

/// The low 32 bits of `u`, as a cast to `u32` keeps them.
pub open spec fn low32(u: u64) -> u32 {
    (u % 0x1_0000_0000) as u32
}

/// The recognition language of a stored section: the normalized form of
/// its `language`, or the default.
pub open spec fn migrated_language(asr: Json, default_value: Seq<char>) -> Seq<char> {
    match asr.str_member("language"@) {
        Some(s) => match normalized_code(s, true) {
            Some(c) => c,
            None => default_value,
        },
        None => default_value,
    }
}

/// The endpoint of a stored section: its non-blank `base_url` normalized, or the default.
pub open spec fn migrated_base_url(asr: Json, default_value: Seq<char>) -> Seq<char> {
    match asr.str_member("base_url"@) {
        Some(s) => if trim(s).len() == 0 {
            default_value
        } else {
            normalized_base_url(s, default_value)
        },
        None => default_value,
    }
}

/// The model of a stored section: its non-blank `model` normalized, or the default.
pub open spec fn migrated_model(asr: Json, default_value: Seq<char>) -> Seq<char> {
    match asr.str_member("model"@) {
        Some(s) => if trim(s).len() == 0 {
            default_value
        } else {
            normalized_model(s, default_value)
        },
        None => default_value,
    }
}

/// The silence threshold of a stored section: its `vad_silence_ms`
/// (low 32 bits) clamped to `[200, 6000]`, or the default.
pub open spec fn migrated_vad(asr: Json, default_value: u32) -> u32 {
    match asr.u64_member("vad_silence_ms"@) {
        Some(u) => clamp(low32(u), 200, 6000),
        None => default_value,
    }
}

/// The string member `key` of a stored section, or the empty string.
pub open spec fn str_member_or_empty(v: Json, key: Seq<char>) -> Seq<char> {
    match v.str_member(key) {
        Some(s) => s,
        None => Seq::empty(),
    }
}

/// The migrated recognition section.
pub open spec fn migrated_asr(asr: Json, d: AsrConfig) -> Json {
    Json::Object(
        seq![
            ("base_url"@, Json::Str(migrated_base_url(asr, d.base_url@))),
            ("api_key"@, Json::Str(str_member_or_empty(asr, "api_key"@))),
            ("model"@, Json::Str(migrated_model(asr, d.model@))),
            ("sample_rate"@, Json::Number(NumberView::PosInt(DEFAULT_SAMPLE_RATE as u64))),
            ("language"@, Json::Str(migrated_language(asr, d.language@))),
            ("vad_silence_ms"@, Json::Number(NumberView::PosInt(migrated_vad(asr, d.vad_silence_ms) as u64))),
            ("vocabulary_id"@, Json::Str(str_member_or_empty(asr, "vocabulary_id"@))),
        ],
    )
}

/// The target language of a stored section: the normalized form of its
/// `target_language`, or the default.
pub open spec fn migrated_target_language(t: Json, default_value: Seq<char>) -> Seq<char> {
    match t.str_member("target_language"@) {
        Some(s) => match normalized_code(s, false) {
            Some(c) => c,
            None => default_value,
        },
        None => default_value,
    }
}

/// The migrated translation section: only `enabled` and a normalized
/// `target_language` are kept.
pub open spec fn migrated_translation(t: Json, d: TranslationConfig) -> Json {
    Json::Object(
        seq![
            ("enabled"@, Json::Bool(
                match t.bool_member("enabled"@) {
                    Some(b) => b,
                    None => d.enabled,
                },
            )),
            ("target_language"@, Json::Str(migrated_target_language(t, d.target_language@))),
        ],
    )
}

/// `overrides` laid over `defaults`: objects are merged member by member over
/// the members of `defaults`, `null` keeps the default, anything else replaces it.
pub open spec fn merge(defaults: Json, overrides: Json) -> Json
    decreases defaults,
{
    match defaults {
        Json::Object(de) => match overrides {
            Json::Object(oe) => Json::Object(merge_entries(de, oe)),
            Json::Null => defaults,
            _ => overrides,
        },
        _ => match overrides {
            Json::Null => defaults,
            _ => overrides,
        },
    }
}

/// The members of `de`, each merged with the member of `oe` of the same key.
pub open spec fn merge_entries(de: Seq<(Seq<char>, Json)>, oe: Seq<(Seq<char>, Json)>) -> Seq<(Seq<char>, Json)>
    decreases de,
{
    if de.len() == 0 {
        Seq::empty()
    } else {
        seq![
            (de[0].0, match entries_get(oe, de[0].0) {
                Some(ov) => merge(de[0].1, ov),
                None => de[0].1,
            }),
        ] + merge_entries(de.subrange(1, de.len() as int), oe)
    }
}

proof fn lemma_merge_entries(de: Seq<(Seq<char>, Json)>, oe: Seq<(Seq<char>, Json)>)
    ensures
        merge_entries(de, oe).len() == de.len(),
        forall|i: int|
            0 <= i < de.len() ==> #[trigger] merge_entries(de, oe)[i] == (de[i].0, match entries_get(oe, de[i].0) {
                Some(ov) => merge(de[i].1, ov),
                None => de[i].1,
            }),
    decreases de.len(),
{
    if de.len() > 0 {
        let t = de.subrange(1, de.len() as int);
        lemma_merge_entries(t, oe);
        assert forall|i: int| 0 <= i < de.len() implies #[trigger] merge_entries(de, oe)[i] == (
            de[i].0,
            match entries_get(oe, de[i].0) {
                Some(ov) => merge(de[i].1, ov),
                None => de[i].1,
            },
        ) by {
            if i > 0 {
                assert(merge_entries(de, oe)[i] == merge_entries(t, oe)[i - 1]);
                assert(t[i - 1] == de[i]);
            }
        }
    }
}

/// Lays `overrides` over `defaults` as `merge` says.
pub fn merge_value(defaults: &JsonValue, overrides: &JsonValue) -> (r: JsonValue)
    ensures
        r@ == merge(defaults@, overrides@),
    decreases defaults,
{
    match defaults {
        JsonValue::Object(de) => match overrides {
            JsonValue::Object(oe) => {
                let mut out = new_entries();
                let n = de.len();
                let mut i: usize = 0;
                proof {
                    lemma_entries_view(de@);
                    lemma_merge_entries(entries_view(de@), entries_view(oe@));
                }
                while i < n
                    invariant
                        n == de@.len(),
                        0 <= i <= n,
                        *defaults == JsonValue::Object(*de),
                        *overrides == JsonValue::Object(*oe),
                        entries_view(de@).len() == n,
                        forall|k: int|
                            0 <= k < n ==> #[trigger] entries_view(de@)[k] == (de@[k].0@, json_view_of(&de@[k].1)),
                        merge_entries(entries_view(de@), entries_view(oe@)).len() == n,
                        forall|k: int|
                            0 <= k < n ==> #[trigger] merge_entries(entries_view(de@), entries_view(oe@))[k] == (
                                entries_view(de@)[k].0,
                                match entries_get(entries_view(oe@), entries_view(de@)[k].0) {
                                    Some(ov) => merge(entries_view(de@)[k].1, ov),
                                    None => entries_view(de@)[k].1,
                                },
                            ),
                        entries_view(out@) == merge_entries(entries_view(de@), entries_view(oe@)).take(i as int),
                    decreases n - i,
                {
                    proof {
                        assert(decreases_to!(*defaults => defaults->Object_0));
                        assert(decreases_to!(*de => de[i as int]));
                        assert(decreases_to!(de[i as int] => de[i as int].1));
                    }
                    let key = &de[i].0;
                    let dv = &de[i].1;
                    let merged = match overrides.get(key.as_str()) {
                        Some(ov) => merge_value(dv, ov),
                        None => dv.deep_copy(),
                    };
                    let ghost before = entries_view(out@);
                    push_entry(&mut out, key.as_str(), merged);
                    assert(entries_view(out@) =~= merge_entries(entries_view(de@), entries_view(oe@)).take(i + 1));
                    i = i + 1;
                }
                assert(merge_entries(entries_view(de@), entries_view(oe@)).take(n as int) =~= merge_entries(
                    entries_view(de@),
                    entries_view(oe@),
                ));
                object(out)
            },
            JsonValue::Null => defaults.deep_copy(),
            _ => overrides.deep_copy(),
        },
        _ => {
            if overrides.is_null() {
                defaults.deep_copy()
            } else {
                overrides.deep_copy()
            }
        },
    }
}

/// A stored endpoint, trimmed and without trailing slashes; the legacy
/// realtime endpoint becomes `default_value`.
pub fn normalize_asr_base_url(value: &str, default_value: &str) -> (r: String)
    ensures
        r@ == normalized_base_url(value@, default_value@),
{
    let trimmed = trim_str(value);
    let normalized = trim_end_char_str(trimmed.as_str(), '/');
    if eq_ignore_ascii_case(normalized.as_str(), LEGACY_GUMMY_REALTIME_URL) {
        return owned(default_value);
    }
    normalized
}

/// A stored model name, trimmed; the legacy model becomes `default_value`.
pub fn normalize_asr_model(value: &str, default_value: &str) -> (r: String)
    ensures
        r@ == normalized_model(value@, default_value@),
{
    let normalized = trim_str(value);
    if eq_ignore_ascii_case(normalized.as_str(), LEGACY_QWEN3_ASR_MODEL) {
        return owned(default_value);
    }
    normalized
}

fn clamp_u32(v: u32, lo: u32, hi: u32) -> (r: u32)
    ensures
        r == clamp(v, lo, hi),
{
    if v < lo {
        lo
    } else if v > hi {
        hi
    } else {
        v
    }
}

fn low32_exec(u: u64) -> (r: u32)
    ensures
        r == low32(u),
{
    let t: u64 = u % 0x1_0000_0000;
    t as u32
}

/// Brings a stored recognition section into the current shape: the endpoint
/// and model are normalized (legacy values replaced by the defaults), the
/// language is normalized, the sample rate is fixed, the silence threshold is
/// clamped, and only the current keys are kept.
pub fn migrate_asr_value(value: &JsonValue, defaults: &AsrConfig) -> (r: JsonValue)
    ensures
        r@ == migrated_asr(value@, *defaults),
{
    let language = match str_member(value, "language") {
        Some(s) => match normalize_source_language(s) {
            Some(c) => c,
            None => defaults.language.clone(),
        },
        None => defaults.language.clone(),
    };
    let base_url = match str_member(value, "base_url") {
        Some(s) => if is_blank(s) {
            defaults.base_url.clone()
        } else {
            normalize_asr_base_url(s, defaults.base_url.as_str())
        },
        None => defaults.base_url.clone(),
    };
    let model = match str_member(value, "model") {
        Some(s) => if is_blank(s) {
            defaults.model.clone()
        } else {
            normalize_asr_model(s, defaults.model.as_str())
        },
        None => defaults.model.clone(),
    };
    let sample_rate: u32 = match u64_member(value, "sample_rate") {
        Some(u) => {
            let t = low32_exec(u);
            if t == DEFAULT_SAMPLE_RATE {
                t
            } else {
                DEFAULT_SAMPLE_RATE
            }
        },
        None => DEFAULT_SAMPLE_RATE,
    };
    let vad_silence_ms: u32 = match u64_member(value, "vad_silence_ms") {
        Some(u) => clamp_u32(low32_exec(u), 200, 6000),
        None => defaults.vad_silence_ms,
    };
    let vocabulary_id = match str_member(value, "vocabulary_id") {
        Some(s) => owned(s),
        None => String::new(),
    };
    let api_key = match str_member(value, "api_key") {
        Some(s) => owned(s),
        None => String::new(),
    };
    let mut e = new_entries();
    push_entry(&mut e, "base_url", JsonValue::Str(base_url));
    push_entry(&mut e, "api_key", JsonValue::Str(api_key));
    push_entry(&mut e, "model", JsonValue::Str(model));
    push_entry(&mut e, "sample_rate", JsonValue::unsigned(sample_rate as u64));
    push_entry(&mut e, "language", JsonValue::Str(language));
    push_entry(&mut e, "vad_silence_ms", JsonValue::unsigned(vad_silence_ms as u64));
    push_entry(&mut e, "vocabulary_id", JsonValue::Str(vocabulary_id));
    assert(entries_view(e@) =~= migrated_asr(value@, *defaults).entries());
    object(e)
}

/// Brings a stored translation section into the current shape: only
/// `enabled` and a normalized `target_language` are kept.
pub fn migrate_translation_value(value: &JsonValue, defaults: &TranslationConfig) -> (r: JsonValue)
    ensures
        r@ == migrated_translation(value@, *defaults),
{
    let target_language = match str_member(value, "target_language") {
        Some(s) => match normalize_target_language(s) {
            Some(c) => c,
            None => defaults.target_language.clone(),
        },
        None => defaults.target_language.clone(),
    };
    let enabled = match bool_member(value, "enabled") {
        Some(b) => b,
        None => defaults.enabled,
    };
    let mut e = new_entries();
    push_entry(&mut e, "enabled", JsonValue::Bool(enabled));
    push_entry(&mut e, "target_language", JsonValue::Str(target_language));
    assert(entries_view(e@) =~= migrated_translation(value@, *defaults).entries());
    object(e)
}

/// Whether `k` names one of the sections that migration rewrites.
pub open spec fn is_config_section(k: Seq<char>) -> bool {
    ||| k == "asr"@
    ||| k == "translation"@
    ||| k == "save"@
    ||| k == "capture"@
    ||| k == "filter_fillers"@
}

/// The entries of `e` whose keys name no section, in order.
pub open spec fn without_sections(e: Seq<(Seq<char>, Json)>) -> Seq<(Seq<char>, Json)>
    decreases e.len(),
{
    if e.len() == 0 {
        Seq::empty()
    } else {
        let r = without_sections(e.drop_last());
        if is_config_section(e.last().0) {
            r
        } else {
            r.push(e.last())
        }
    }
}

proof fn lemma_without_sections_get(e: Seq<(Seq<char>, Json)>, k: Seq<char>)
    ensures
        entries_get(without_sections(e), k) == if is_config_section(k) {
            None
        } else {
            entries_get(e, k)
        },
    decreases e.len(),
{
    if e.len() > 0 {
        let p = e.drop_last();
        lemma_without_sections_get(p, k);
        assert(p.push(e.last()) =~= e);
        lemma_entries_get_push(p, e.last(), k);
        if !is_config_section(e.last().0) {
            lemma_entries_get_push(without_sections(p), e.last(), k);
        }
    }
}

proof fn lemma_section_names_distinct()
    ensures
        "asr"@ != "translation"@,
        "asr"@ != "save"@,
        "asr"@ != "capture"@,
        "asr"@ != "filter_fillers"@,
        "translation"@ != "save"@,
        "translation"@ != "capture"@,
        "translation"@ != "filter_fillers"@,
        "save"@ != "capture"@,
        "save"@ != "filter_fillers"@,
        "capture"@ != "filter_fillers"@,
{
    reveal_strlit("asr");
    reveal_strlit("translation");
    reveal_strlit("save");
    reveal_strlit("capture");
    reveal_strlit("filter_fillers");
    assert("asr"@.len() == 3);
    assert("translation"@.len() == 11);
    assert("save"@.len() == 4);
    assert("capture"@.len() == 7);
    assert("filter_fillers"@.len() == 14);
}

/// The member `k` of a migrated settings document `v`, with defaults `d`.
pub open spec fn migrated_member(v: Json, d: AppConfig, k: Seq<char>) -> Option<Json> {
    if k == "asr"@ {
        Some(migrated_asr(v.member("asr"@), d.asr))
    } else if k == "translation"@ {
        Some(migrated_translation(v.member("translation"@), d.translation))
    } else if k == "save"@ {
        Some(merge(save_json(d.save), v.member("save"@)))
    } else if k == "capture"@ {
        Some(merge(capture_json(d.capture), v.member("capture"@)))
    } else if k == "filter_fillers"@ {
        Some(
            match v.get(k) {
                Some(x) => x,
                None => Json::Bool(d.filter_fillers),
            },
        )
    } else {
        v.get(k)
    }
}

/// Whether `r` is the migration of the stored document `v` with defaults `d`:
/// an object whose every member is `migrated_member`, or, when `v` is no
/// object, the JSON form of the defaults.
pub open spec fn is_migration_of(r: Json, v: Json, d: AppConfig) -> bool {
    match v {
        Json::Object(_) => r is Object && forall|k: Seq<char>| #[trigger] r.get(k) == migrated_member(v, d, k),
        _ => r == app_config_json(d),
    }
}

fn is_section_name(k: &str) -> (r: bool)
    ensures
        r == is_config_section(k@),
{
    str_eq(k, "asr") || str_eq(k, "translation") || str_eq(k, "save") || str_eq(k, "capture") || str_eq(k, "filter_fillers")
}

/// Migrates a stored settings document with the given defaults: each section
/// is brought into the current shape, `save` and `capture` are laid over
/// their defaults, `filter_fillers` is added when missing, and every other
/// member is kept. A document that is no object becomes the defaults.
pub fn migrate_config_value_with(value: &JsonValue, defaults: &AppConfig) -> (r: JsonValue)
    ensures
        is_migration_of(r@, value@, *defaults),
{
    match value {
        JsonValue::Object(root) => {
            let asr_value = member_copy(value, "asr");
            let translation_value = member_copy(value, "translation");
            let save_value = member_copy(value, "save");
            let capture_value = member_copy(value, "capture");
            let filter_fillers = match value.get("filter_fillers") {
                Some(x) => x.deep_copy(),
                None => JsonValue::Bool(defaults.filter_fillers),
            };
            let mut out = new_entries();
            let n = root.len();
            let mut i: usize = 0;
            proof {
                lemma_entries_view(root@);
            }
            while i < n
                invariant
                    n == root@.len(),
                    0 <= i <= n,
                    entries_view(root@).len() == n,
                    forall|k: int|
                        0 <= k < n ==> #[trigger] entries_view(root@)[k] == (root@[k].0@, json_view_of(&root@[k].1)),
                    entries_view(out@) == without_sections(entries_view(root@).take(i as int)),
                decreases n - i,
            {
                let ghost ev = entries_view(root@);
                assert(ev.take(i + 1).drop_last() =~= ev.take(i as int));
                assert(ev.take(i + 1).last() == ev[i as int]);
                if !is_section_name(root[i].0.as_str()) {
                    let c = root[i].1.deep_copy();
                    push_entry(&mut out, root[i].0.as_str(), c);
                }
                i = i + 1;
            }
            let ghost ev = entries_view(root@);
            assert(ev.take(n as int) =~= ev);
            let ghost w = entries_view(out@);
            push_entry(&mut out, "asr", migrate_asr_value(&asr_value, &defaults.asr));
            push_entry(&mut out, "translation", migrate_translation_value(&translation_value, &defaults.translation));
            push_entry(&mut out, "save", merge_value(&defaults.save.to_json(), &save_value));
            push_entry(&mut out, "capture", merge_value(&defaults.capture.to_json(), &capture_value));
            push_entry(&mut out, "filter_fillers", filter_fillers);
            let ghost fin = entries_view(out@);
            proof {
                lemma_section_names_distinct();
                assert forall|k: Seq<char>| #[trigger] Json::Object(fin).get(k) == migrated_member(value@, *defaults, k) by {
                    lemma_without_sections_get(ev, k);
                    let w1 = w.push(fin[w.len() as int]);
                    let w2 = w1.push(fin[w.len() + 1int]);
                    let w3 = w2.push(fin[w.len() + 2int]);
                    let w4 = w3.push(fin[w.len() + 3int]);
                    assert(w4.push(fin[w.len() + 4int]) =~= fin);
                    lemma_entries_get_push(w, fin[w.len() as int], k);
                    lemma_entries_get_push(w1, fin[w.len() + 1int], k);
                    lemma_entries_get_push(w2, fin[w.len() + 2int], k);
                    lemma_entries_get_push(w3, fin[w.len() + 3int], k);
                    lemma_entries_get_push(w4, fin[w.len() + 4int], k);
                }
            }
            object(out)
        },
        _ => defaults.to_json(),
    }
}

/// Migrates a stored settings document with the default settings.
pub fn migrate_config_value(value: &JsonValue) -> (r: JsonValue)
    ensures
        exists|d: AppConfig| is_default_app_config(d) && #[trigger] is_migration_of(r@, value@, d),
{
    let defaults = AppConfig::default();
    migrate_config_value_with(value, &defaults)
}

/// The migrated settings of a stored settings file, as JSON text; nothing
/// when the file holds no JSON.
pub fn migrate_config_text(content: &str) -> (r: Option<String>)
    ensures
        match parse_json_spec(content@) {
            Ok(v) => r matches Some(t) && exists|d: AppConfig, m: Json|
                is_default_app_config(d) && #[trigger] is_migration_of(m, v, d) && t@ == json_text_spec(m),
            Err(_) => r is None,
        },
{
    match parse_json_text(content) {
        Ok(v) => {
            let migrated = migrate_config_value(&v);
            Some(json_text(&migrated))
        },
        Err(_) => None,
    }
}

/// A stored document migrated with the default settings passes the range
/// checks of a session: the silence threshold lies in [200, 6000], the target
/// language is a valid target, and the recognition language is `auto` or a
/// valid recognition language, except Vietnamese, which is normalized from
/// its aliases but is no recognition language.
pub proof fn law_migrated_settings_in_range(asr: Json, translation: Json, d: AppConfig)
    requires
        is_default_app_config(d),
    ensures
        200 <= migrated_vad(asr, d.asr.vad_silence_ms) <= 6000,
        valid_target_code(migrated_target_language(translation, d.translation.target_language@)),
        migrated_language(asr, d.asr.language@) != "vi"@ ==> valid_source_code(migrated_language(asr, d.asr.language@), true),
{
    lemma_language_facts(Language::En);
    if let Some(s) = translation.str_member("target_language"@) {
        law_normalized_target_is_valid(s);
    }
    if let Some(s) = asr.str_member("language"@) {
        law_normalized_source_is_valid(s);
    }
}

/// Whether settings are in the form that migration keeps: the endpoint and
/// model are trimmed, non-empty and not the legacy ones (the endpoint also
/// without trailing slashes), the sample rate is the pipeline's, the
/// recognition language and the target are codes (the target not `auto`),
/// and the silence threshold lies in [200, 6000].
pub open spec fn in_stored_form(c: AppConfig) -> bool {
    let b = c.asr.base_url@;
    let m = c.asr.model@;
    &&& trim(b).len() > 0
    &&& trim_end_char(trim(b), '/') == b
    &&& ascii_lower(b) != ascii_lower(LEGACY_GUMMY_REALTIME_URL@)
    &&& trim(m).len() > 0
    &&& trim(m) == m
    &&& ascii_lower(m) != ascii_lower(LEGACY_QWEN3_ASR_MODEL@)
    &&& c.asr.sample_rate == DEFAULT_SAMPLE_RATE
    &&& language_of_code(c.asr.language@) is Some
    &&& language_of_code(c.translation.target_language@) matches Some(t) && t != Language::Auto
    &&& 200 <= c.asr.vad_silence_ms <= 6000
}

proof fn lemma_setting_keys_revealed()
    ensures
        "asr"@ =~= seq!['a', 's', 'r'],
        "translation"@ =~= seq!['t', 'r', 'a', 'n', 's', 'l', 'a', 't', 'i', 'o', 'n'],
        "save"@ =~= seq!['s', 'a', 'v', 'e'],
        "capture"@ =~= seq!['c', 'a', 'p', 't', 'u', 'r', 'e'],
        "filter_fillers"@ =~= seq!['f', 'i', 'l', 't', 'e', 'r', '_', 'f', 'i', 'l', 'l', 'e', 'r', 's'],
        "base_url"@ =~= seq!['b', 'a', 's', 'e', '_', 'u', 'r', 'l'],
        "api_key"@ =~= seq!['a', 'p', 'i', '_', 'k', 'e', 'y'],
        "model"@ =~= seq!['m', 'o', 'd', 'e', 'l'],
        "sample_rate"@ =~= seq!['s', 'a', 'm', 'p', 'l', 'e', '_', 'r', 'a', 't', 'e'],
        "language"@ =~= seq!['l', 'a', 'n', 'g', 'u', 'a', 'g', 'e'],
        "vad_silence_ms"@ =~= seq!['v', 'a', 'd', '_', 's', 'i', 'l', 'e', 'n', 'c', 'e', '_', 'm', 's'],
        "vocabulary_id"@ =~= seq!['v', 'o', 'c', 'a', 'b', 'u', 'l', 'a', 'r', 'y', '_', 'i', 'd'],
        "enabled"@ =~= seq!['e', 'n', 'a', 'b', 'l', 'e', 'd'],
        "target_language"@ =~= seq!['t', 'a', 'r', 'g', 'e', 't', '_', 'l', 'a', 'n', 'g', 'u', 'a', 'g', 'e'],
        "auto_save"@ =~= seq!['a', 'u', 't', 'o', '_', 's', 'a', 'v', 'e'],
        "save_path"@ =~= seq!['s', 'a', 'v', 'e', '_', 'p', 'a', 't', 'h'],
        "source"@ =~= seq!['s', 'o', 'u', 'r', 'c', 'e'],
        "app_pid"@ =~= seq!['a', 'p', 'p', '_', 'p', 'i', 'd'],
        "app_name"@ =~= seq!['a', 'p', 'p', '_', 'n', 'a', 'm', 'e'],
{
    reveal_strlit("asr");
    reveal_strlit("translation");
    reveal_strlit("save");
    reveal_strlit("capture");
    reveal_strlit("filter_fillers");
    reveal_strlit("base_url");
    reveal_strlit("api_key");
    reveal_strlit("model");
    reveal_strlit("sample_rate");
    reveal_strlit("language");
    reveal_strlit("vad_silence_ms");
    reveal_strlit("vocabulary_id");
    reveal_strlit("enabled");
    reveal_strlit("target_language");
    reveal_strlit("auto_save");
    reveal_strlit("save_path");
    reveal_strlit("source");
    reveal_strlit("app_pid");
    reveal_strlit("app_name");
}

proof fn lemma_asr_round_trip(a: AsrConfig, d: AsrConfig)
    requires
        trim(a.base_url@).len() > 0,
        trim_end_char(trim(a.base_url@), '/') == a.base_url@,
        ascii_lower(a.base_url@) != ascii_lower(LEGACY_GUMMY_REALTIME_URL@),
        trim(a.model@).len() > 0,
        trim(a.model@) == a.model@,
        ascii_lower(a.model@) != ascii_lower(LEGACY_QWEN3_ASR_MODEL@),
        a.sample_rate == DEFAULT_SAMPLE_RATE,
        language_of_code(a.language@) is Some,
        200 <= a.vad_silence_ms <= 6000,
    ensures
        migrated_asr(asr_json(a), d) == asr_json(a),
{
    reveal_with_fuel(entries_get, 8);
    lemma_setting_keys_revealed();
    let j = asr_json(a);
    let l = language_of_code(a.language@).unwrap();
    lemma_code_names_language(a.language@, l);
    lemma_code_normalizes_to_itself(l, true);
    assert(j.str_member("base_url"@) == Some(a.base_url@));
    assert(j.str_member("api_key"@) == Some(a.api_key@));
    assert(j.str_member("model"@) == Some(a.model@));
    assert(j.str_member("language"@) == Some(a.language@));
    assert(j.u64_member("vad_silence_ms"@) == Some(a.vad_silence_ms as u64));
    assert(j.str_member("vocabulary_id"@) == Some(a.vocabulary_id@));
    assert(low32(a.vad_silence_ms as u64) == a.vad_silence_ms);
    assert(migrated_asr(j, d).entries() =~= j.entries());
}

proof fn lemma_translation_round_trip(t: TranslationConfig, d: TranslationConfig)
    requires
        language_of_code(t.target_language@) matches Some(l) && l != Language::Auto,
    ensures
        migrated_translation(translation_json(t), d) == translation_json(t),
{
    reveal_with_fuel(entries_get, 8);
    lemma_setting_keys_revealed();
    let j = translation_json(t);
    let l = language_of_code(t.target_language@).unwrap();
    lemma_code_names_language(t.target_language@, l);
    lemma_code_normalizes_to_itself(l, false);
    assert(j.bool_member("enabled"@) == Some(t.enabled));
    assert(j.str_member("target_language"@) == Some(t.target_language@));
    assert(migrated_translation(j, d).entries() =~= j.entries());
}

proof fn lemma_save_round_trip(c: SaveConfig, d: SaveConfig)
    ensures
        merge(save_json(d), save_json(c)) == save_json(c),
{
    reveal_with_fuel(entries_get, 8);
    lemma_setting_keys_revealed();
    let de = save_json(d).entries();
    let oe = save_json(c).entries();
    lemma_merge_entries(de, oe);
    assert(entries_get(oe, "auto_save"@) == Some(Json::Bool(c.auto_save)));
    assert(entries_get(oe, "save_path"@) == Some(Json::Str(c.save_path@)));
    assert(merge_entries(de, oe) =~= oe);
}

proof fn lemma_capture_round_trip(c: CaptureConfig, d: CaptureConfig)
    requires
        d.app_pid is None,
    ensures
        merge(capture_json(d), capture_json(c)) == capture_json(c),
{
    reveal_with_fuel(entries_get, 8);
    lemma_setting_keys_revealed();
    let de = capture_json(d).entries();
    let oe = capture_json(c).entries();
    lemma_merge_entries(de, oe);
    assert(entries_get(oe, "source"@) == Some(Json::Str(c.source@)));
    assert(entries_get(oe, "app_pid"@) == Some(pid_json(c.app_pid)));
    assert(entries_get(oe, "app_name"@) == Some(Json::Str(c.app_name@)));
    assert(merge_entries(de, oe) =~= oe);
}

/// Settings that the application saves load back unchanged: migrating the
/// JSON form of settings in stored form gives every member as it was. (The
/// load normalizes what is not in stored form.)
pub proof fn law_saved_settings_load_back(c: AppConfig, d: AppConfig, r: Json)
    requires
        in_stored_form(c),
        is_default_app_config(d),
        is_migration_of(r, app_config_json(c), d),
    ensures
        forall|k: Seq<char>| #[trigger] r.get(k) == app_config_json(c).get(k),
{
    reveal_with_fuel(entries_get, 8);
    lemma_setting_keys_revealed();
    let v = app_config_json(c);
    lemma_asr_round_trip(c.asr, d.asr);
    lemma_translation_round_trip(c.translation, d.translation);
    lemma_save_round_trip(c.save, d.save);
    lemma_capture_round_trip(c.capture, d.capture);
    assert(v.get("asr"@) == Some(asr_json(c.asr)));
    assert(v.get("translation"@) == Some(translation_json(c.translation)));
    assert(v.get("save"@) == Some(save_json(c.save)));
    assert(v.get("capture"@) == Some(capture_json(c.capture)));
    assert(v.get("filter_fillers"@) == Some(Json::Bool(c.filter_fillers)));
    assert(v.member("asr"@) == asr_json(c.asr));
    assert(v.member("translation"@) == translation_json(c.translation));
    assert(v.member("save"@) == save_json(c.save));
    assert(v.member("capture"@) == capture_json(c.capture));
    assert forall|k: Seq<char>| #[trigger] r.get(k) == v.get(k) by {
        assert(r.get(k) == migrated_member(v, d, k));
    }
}

} // verus!
