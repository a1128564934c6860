//! The recognition-service protocol: validation of the settings, resolution
//! of the endpoint, the task messages sent, the events received, and the
//! decisions of a recognition session and of a connectivity probe.

use vstd::prelude::*;

use crate::config::{clamp, AsrConfig, TranslationConfig};
use crate::gummy::{
    language_of_code, selection_error, source_list, target_row, validate_language_selection, Language,
    DEFAULT_SAMPLE_RATE,
};
use crate::json::{
    array, new_items, push_item, items_view, lemma_items_view_len, str_member, u64_member, bool_member, entries_view, json_text, json_text_spec, new_entries, object, parse_json_text, parse_json_spec,
    push_entry, str_or_null, Json, JsonValue, NumberView,
};
use crate::text::{
    ascii_lower, ascii_lower_str, concat, contains_seq, contains_str, is_blank, owned, str_eq, trim,
    trim_end_char, trim_end_char_str, trim_str,
};

verus! {

/// The provider name that every error and probe result carries.
pub const PROVIDER: &'static str = "dashscopeGummy";

/// The task group of a recognition task.
pub const TASK_GROUP: &'static str = "audio";

/// The task name of a recognition task.
pub const TASK_NAME: &'static str = "asr";

/// The function of a recognition task.
pub const TASK_FUNCTION: &'static str = "recognition";

/// The size of one binary audio frame: 100 ms of 16-bit mono PCM at 16 kHz.
pub const BINARY_AUDIO_FRAME_BYTES: usize = 3200;

/// The largest end-of-sentence silence threshold, in milliseconds.
pub const MAX_END_SILENCE_MS: u32 = 6000;

/// One recognised (and possibly translated) sentence, final or still streaming.
#[derive(Debug)]
pub struct AsrSegmentUpdate {
    pub sentence_id: u64,
    pub begin_time_ms: Option<u64>,
    pub end_time_ms: Option<u64>,
    pub original_text: String,
    pub translated_text: Option<String>,
    pub is_final: bool,
}

/// A failure of the recognition service or of its settings.
#[derive(Debug)]
pub struct GummyErrorInfo {
    pub kind: String,
    pub message: String,
    pub provider: String,
    pub resolved_url: String,
    pub model: String,
    pub error_code: Option<String>,
}

/// The outcome of a connectivity check.
#[derive(Debug)]
pub struct GummyConnectivityResult {
    pub ok: bool,
    pub provider: String,
    pub resolved_url: String,
    pub model: String,
    pub error_kind: Option<String>,
    pub message: String,
}

/// The endpoint that a session connects to.
#[derive(Debug)]
pub struct ResolvedGummyTarget {
    pub resolved_url: String,
}

/// The view of an optional string.
pub open spec fn opt_view(o: Option<String>) -> Option<Seq<char>> {
    match o {
        Some(s) => Some(s@),
        None => None,
    }
}

/// The view of a [`GummyErrorInfo`].
pub struct GummyErrorView {
    pub kind: Seq<char>,
    pub message: Seq<char>,
    pub provider: Seq<char>,
    pub resolved_url: Seq<char>,
    pub model: Seq<char>,
    pub error_code: Option<Seq<char>>,
}

impl View for GummyErrorInfo {
    type V = GummyErrorView;

    open spec fn view(&self) -> GummyErrorView {
        GummyErrorView {
            kind: self.kind@,
            message: self.message@,
            provider: self.provider@,
            resolved_url: self.resolved_url@,
            model: self.model@,
            error_code: opt_view(self.error_code),
        }
    }
}

/// The view of a [`GummyConnectivityResult`].
pub struct ConnectivityView {
    pub ok: bool,
    pub provider: Seq<char>,
    pub resolved_url: Seq<char>,
    pub model: Seq<char>,
    pub error_kind: Option<Seq<char>>,
    pub message: Seq<char>,
}

impl View for GummyConnectivityResult {
    type V = ConnectivityView;

    open spec fn view(&self) -> ConnectivityView {
        ConnectivityView {
            ok: self.ok,
            provider: self.provider@,
            resolved_url: self.resolved_url@,
            model: self.model@,
            error_kind: opt_view(self.error_kind),
            message: self.message@,
        }
    }
}

/// The error of kind `kind` with message `message` about endpoint `url` and model `model`.
pub open spec fn gummy_error(kind: Seq<char>, message: Seq<char>, url: Seq<char>, model: Seq<char>, code: Option<Seq<char>>) -> GummyErrorView {
    GummyErrorView { kind, message, provider: PROVIDER@, resolved_url: url, model, error_code: code }
}

/// The error of kind `kind` with message `message` about the endpoint of `target`.
pub fn build_error(kind: &str, message: String, target: &ResolvedGummyTarget, model: &str, error_code: Option<String>) -> (r: GummyErrorInfo)
    ensures
        r@ == gummy_error(kind@, message@, target.resolved_url@, model@, opt_view(error_code)),
{
    GummyErrorInfo {
        kind: owned(kind),
        message,
        provider: owned(PROVIDER),
        resolved_url: target.resolved_url.clone(),
        model: owned(model),
        error_code,
    }
}

/// What `http::Uri::try_from(&str)` gives for `text`: the scheme of the
/// parsed URI, if it has one, or the `Display` text of the parse error.
pub uninterp spec fn uri_scheme_spec(text: Seq<char>) -> Result<Option<Seq<char>>, Seq<char>>;

/// Parses `text` with `http::Uri::try_from` (re-exported by `tokio_tungstenite`)
/// and gives the URI's `scheme_str`. The contract claims that the outcome is
/// `uri_scheme_spec` of the text.
#[verifier::external_body]
fn parse_uri_scheme(text: &str) -> (r: Result<Option<String>, String>)
    ensures
        match r {
            Ok(s) => uri_scheme_spec(text@) == Ok::<Option<Seq<char>>, Seq<char>>(opt_view(s)),
            Err(e) => uri_scheme_spec(text@) == Err::<Option<Seq<char>>, Seq<char>>(e@),
        },
{
    match tokio_tungstenite::tungstenite::http::Uri::try_from(text) {
        Ok(uri) => Ok(uri.scheme_str().map(|s| s.to_string())),
        Err(e) => Err(e.to_string()),
    }
}

/// The endpoint, or the error, for the normalized address `normalized` once
/// parsed as `parsed`: only a `ws` or `wss` scheme is accepted.
pub open spec fn target_from_scheme(normalized: Seq<char>, model: Seq<char>, parsed: Result<Option<Seq<char>>, Seq<char>>) -> Result<Seq<char>, GummyErrorView> {
    match parsed {
        Err(e) => Err(gummy_error("invalid_config"@, "Gummy WebSocket 地址无效: "@ + e, normalized, model, None)),
        Ok(scheme) => if scheme == Some("ws"@) || scheme == Some("wss"@) {
            Ok(normalized)
        } else {
            Err(gummy_error("invalid_config"@, "Gummy 必须使用 ws:// 或 wss:// WebSocket 地址。"@, normalized, model, None))
        },
    }
}

/// The endpoint of a configured address, or why there is none: the address
/// is trimmed, must not be empty, loses its trailing slashes, and must parse
/// as a `ws` or `wss` URI.
pub open spec fn resolved_target(base_url: Seq<char>, model: Seq<char>) -> Result<Seq<char>, GummyErrorView> {
    let raw = trim(base_url);
    if raw.len() == 0 {
        Err(gummy_error("invalid_config"@, "Gummy WebSocket 地址尚未配置。"@, Seq::empty(), model, None))
    } else {
        let normalized = trim_end_char(raw, '/');
        target_from_scheme(normalized, model, uri_scheme_spec(normalized))
    }
}

/// The view of a resolution outcome.
pub open spec fn target_result_view(r: Result<ResolvedGummyTarget, GummyErrorInfo>) -> Result<Seq<char>, GummyErrorView> {
    match r {
        Ok(t) => Ok(t.resolved_url@),
        Err(e) => Err(e@),
    }
}

/// The endpoint for the normalized address `normalized`, given the outcome
/// of parsing it as a URI.
pub fn target_from_parsed(normalized: String, model: &str, parsed: Result<Option<String>, String>) -> (r: Result<ResolvedGummyTarget, GummyErrorInfo>)
    ensures
        target_result_view(r) == target_from_scheme(
            normalized@,
            model@,
            match parsed {
                Ok(s) => Ok(opt_view(s)),
                Err(e) => Err(e@),
            },
        ),
{
    let target = ResolvedGummyTarget { resolved_url: normalized };
    match parsed {
        Err(e) => {
            let message = concat("Gummy WebSocket 地址无效: ", e.as_str());
            Err(build_error("invalid_config", message, &target, model, None))
        },
        Ok(scheme) => {
            let accepted = match &scheme {
                Some(s) => str_eq(s.as_str(), "ws") || str_eq(s.as_str(), "wss"),
                None => false,
            };
            proof {
                match scheme {
                    Some(s) => {
                        assert(opt_view(scheme) == Some(s@));
                    },
                    None => {
                    },
                }
            }
            if accepted {
                Ok(target)
            } else {
                Err(build_error("invalid_config", owned("Gummy 必须使用 ws:// 或 wss:// WebSocket 地址。"), &target, model, None))
            }
        },
    }
}

/// The endpoint that the settings name, or why they name none.
pub fn resolve_target(config: &AsrConfig) -> (r: Result<ResolvedGummyTarget, GummyErrorInfo>)
    ensures
        target_result_view(r) == resolved_target(config.base_url@, config.model@),
{
    let raw = trim_str(config.base_url.as_str());
    if raw.as_str().is_empty() {
        let empty = ResolvedGummyTarget { resolved_url: String::new() };
        return Err(build_error("invalid_config", owned("Gummy WebSocket 地址尚未配置。"), &empty, config.model.as_str(), None));
    }
    let normalized = trim_end_char_str(raw.as_str(), '/');
    let parsed = parse_uri_scheme(normalized.as_str());
    target_from_parsed(normalized, config.model.as_str(), parsed)
}

/// The message for a sample rate other than the pipeline's.
pub open spec fn sample_rate_message() -> Seq<char> {
    "当前桌面音频链路固定输出 16000Hz PCM，请将采样率保持为 16000。"@
}

/// The message for a silence threshold outside `[200, 6000]`.
pub open spec fn silence_range_message() -> Seq<char> {
    "句尾静音阈值必须在 200 到 6000 毫秒之间。"@
}

/// The outcome of checking recognition and translation settings before a session.
pub open spec fn runtime_config_check(asr: AsrConfig, translation: TranslationConfig) -> Result<(), GummyErrorView> {
    match resolved_target(asr.base_url@, asr.model@) {
        Err(e) => Err(e),
        Ok(url) => if trim(asr.api_key@).len() == 0 {
            Err(gummy_error("invalid_config"@, "Gummy API Key 尚未配置。"@, url, asr.model@, None))
        } else if trim(asr.model@).len() == 0 {
            Err(gummy_error("invalid_config"@, "Gummy 模型名称尚未配置。"@, url, asr.model@, None))
        } else if asr.sample_rate != DEFAULT_SAMPLE_RATE {
            Err(gummy_error("invalid_config"@, sample_rate_message(), url, asr.model@, None))
        } else if !(200 <= asr.vad_silence_ms <= MAX_END_SILENCE_MS) {
            Err(gummy_error("invalid_config"@, silence_range_message(), url, asr.model@, None))
        } else {
            match selection_error(trim(asr.language@), translation.enabled, trim(translation.target_language@)) {
                Some(m) => Err(gummy_error("invalid_language_pair"@, m, url, asr.model@, None)),
                None => Ok(()),
            }
        },
    }
}

/// Checks the settings of a session: the endpoint, the key, the model, the
/// sample rate, the silence threshold and the language selection.
pub fn validate_runtime_config(asr: &AsrConfig, translation: &TranslationConfig) -> (r: Result<(), GummyErrorInfo>)
    ensures
        match r {
            Ok(()) => runtime_config_check(*asr, *translation) == Ok::<(), GummyErrorView>(()),
            Err(e) => runtime_config_check(*asr, *translation) == Err::<(), GummyErrorView>(e@),
        },
{
    let target = match resolve_target(asr) {
        Ok(t) => t,
        Err(e) => {
            return Err(e);
        },
    };
    let model = asr.model.as_str();
    if is_blank(asr.api_key.as_str()) {
        return Err(build_error("invalid_config", owned("Gummy API Key 尚未配置。"), &target, model, None));
    }
    if is_blank(model) {
        return Err(build_error("invalid_config", owned("Gummy 模型名称尚未配置。"), &target, model, None));
    }
    if asr.sample_rate != DEFAULT_SAMPLE_RATE {
        return Err(build_error("invalid_config", owned("当前桌面音频链路固定输出 16000Hz PCM，请将采样率保持为 16000。"), &target, model, None));
    }
    if !(200 <= asr.vad_silence_ms && asr.vad_silence_ms <= MAX_END_SILENCE_MS) {
        return Err(build_error("invalid_config", owned("句尾静音阈值必须在 200 到 6000 毫秒之间。"), &target, model, None));
    }
    let language = trim_str(asr.language.as_str());
    let target_language = trim_str(translation.target_language.as_str());
    match validate_language_selection(language.as_str(), translation.enabled, target_language.as_str()) {
        Ok(()) => Ok(()),
        Err(m) => Err(build_error("invalid_language_pair", m, &target, model, None)),
    }
}

/// Settings that `runtime_config_check` accepts with translation on name an explicit
/// recognition language (never `auto`) and a target that the translation
/// matrix offers for it, so that no invalid task is submitted.
pub proof fn law_ready_translation_has_valid_pair(asr: AsrConfig, translation: TranslationConfig)
    requires
        runtime_config_check(asr, translation) is Ok,
        translation.enabled,
    ensures
        trim(asr.language@) != "auto"@,
        language_of_code(trim(asr.language@)) matches Some(s) && language_of_code(trim(translation.target_language@)) matches Some(t)
            && target_row(s).contains(t),
{
}

/// An event of the recognition service, as the session reads it.
#[derive(Debug)]
pub enum ParsedServerEvent {
    Ignore,
    TaskStarted,
    TaskFinished,
    TaskFailed { error_code: Option<String>, error_message: String },
    ResultGenerated(AsrSegmentUpdate),
}

/// The view of an [`AsrSegmentUpdate`].
pub struct SegmentUpdateView {
    pub sentence_id: u64,
    pub begin_time_ms: Option<u64>,
    pub end_time_ms: Option<u64>,
    pub original_text: Seq<char>,
    pub translated_text: Option<Seq<char>>,
    pub is_final: bool,
}

impl View for AsrSegmentUpdate {
    type V = SegmentUpdateView;

    open spec fn view(&self) -> SegmentUpdateView {
        SegmentUpdateView {
            sentence_id: self.sentence_id,
            begin_time_ms: self.begin_time_ms,
            end_time_ms: self.end_time_ms,
            original_text: self.original_text@,
            translated_text: opt_view(self.translated_text),
            is_final: self.is_final,
        }
    }
}

/// The view of a [`ParsedServerEvent`].
pub enum ServerEventView {
    Ignore,
    TaskStarted,
    TaskFinished,
    TaskFailed { error_code: Option<Seq<char>>, error_message: Seq<char> },
    ResultGenerated(SegmentUpdateView),
}

impl View for ParsedServerEvent {
    type V = ServerEventView;

    open spec fn view(&self) -> ServerEventView {
        match self {
            ParsedServerEvent::Ignore => ServerEventView::Ignore,
            ParsedServerEvent::TaskStarted => ServerEventView::TaskStarted,
            ParsedServerEvent::TaskFinished => ServerEventView::TaskFinished,
            ParsedServerEvent::TaskFailed { error_code, error_message } => ServerEventView::TaskFailed {
                error_code: opt_view(*error_code),
                error_message: error_message@,
            },
            ParsedServerEvent::ResultGenerated(u) => ServerEventView::ResultGenerated(u@),
        }
    }
}

/// The string member `key` of the `header` of a message.
pub open spec fn header_str(v: Json, key: Seq<char>) -> Option<Seq<char>> {
    v.member("header"@).str_member(key)
}

/// The first item of `items` whose `sentence_id` is `id`.
pub open spec fn item_with_id(items: Seq<Json>, id: u64) -> Option<Json>
    decreases items.len(),
{
    if items.len() == 0 {
        None
    } else if items[0].u64_member("sentence_id"@) == Some(id) {
        Some(items[0])
    } else {
        item_with_id(items.drop_first(), id)
    }
}

/// The translation item for sentence `id`: the one with that id, or else the first.
pub open spec fn translation_item(items: Seq<Json>, id: u64) -> Option<Json> {
    match item_with_id(items, id) {
        Some(x) => Some(x),
        None => if items.len() > 0 {
            Some(items[0])
        } else {
            None
        },
    }
}

/// The translation list of an output: `translations`, or `translation` when
/// that key is absent.
pub open spec fn translation_list(output: Json) -> Option<Json> {
    match output.get("translations"@) {
        Some(t) => Some(t),
        None => output.get("translation"@),
    }
}

/// The translated text of sentence `id` in `output`, trimmed; nothing when empty.
pub open spec fn translated_text_of(output: Json, id: u64) -> Option<Seq<char>> {
    match translation_list(output) {
        Some(Json::Array(items)) => match translation_item(items, id) {
            Some(item) => match item.str_member("text"@) {
                Some(t) => if trim(t).len() == 0 {
                    None
                } else {
                    Some(trim(t))
                },
                None => None,
            },
            None => None,
        },
        _ => None,
    }
}

/// The sentence that a `result-generated` message carries, or what it lacks.
pub open spec fn result_generated_spec(v: Json) -> Result<SegmentUpdateView, Seq<char>> {
    match v.member("payload"@).get("output"@) {
        None => Err("result-generated 缺少 payload.output。"@),
        Some(output) => match output.get("transcription"@) {
            None => Err("result-generated 缺少 transcription。"@),
            Some(tr) => match tr.u64_member("sentence_id"@) {
                None => Err("result-generated 缺少 transcription.sentence_id。"@),
                Some(id) => Ok(
                    SegmentUpdateView {
                        sentence_id: id,
                        begin_time_ms: tr.u64_member("begin_time"@),
                        end_time_ms: tr.u64_member("end_time"@),
                        original_text: trim(
                            match tr.str_member("text"@) {
                                Some(t) => t,
                                None => Seq::empty(),
                            },
                        ),
                        translated_text: translated_text_of(output, id),
                        is_final: match tr.bool_member("sentence_end"@) {
                            Some(b) => b,
                            None => false,
                        },
                    },
                ),
            },
        },
    }
}

/// The message of a failed task without a usable message of its own.
pub open spec fn default_task_failed_message() -> Seq<char> {
    "Gummy 任务执行失败。"@
}

/// The event that a parsed message of the service carries, by its
/// `header.event`; unknown events are ignored.
pub open spec fn server_event_spec(v: Json) -> Result<ServerEventView, Seq<char>> {
    let event = match header_str(v, "event"@) {
        Some(e) => e,
        None => Seq::empty(),
    };
    if event == "task-started"@ {
        Ok(ServerEventView::TaskStarted)
    } else if event == "task-finished"@ {
        Ok(ServerEventView::TaskFinished)
    } else if event == "task-failed"@ {
        Ok(
            ServerEventView::TaskFailed {
                error_code: header_str(v, "error_code"@),
                error_message: match header_str(v, "error_message"@) {
                    Some(m) => if trim(m).len() == 0 {
                        default_task_failed_message()
                    } else {
                        m
                    },
                    None => default_task_failed_message(),
                },
            },
        )
    } else if event == "result-generated"@ {
        match result_generated_spec(v) {
            Ok(u) => Ok(ServerEventView::ResultGenerated(u)),
            Err(m) => Err(m),
        }
    } else {
        Ok(ServerEventView::Ignore)
    }
}

/// The event of a message of the service as text, or why it cannot be read.
pub open spec fn server_message_spec(text: Seq<char>) -> Result<ServerEventView, Seq<char>> {
    match parse_json_spec(text) {
        Err(e) => Err("无法解析 Gummy 返回的 JSON: "@ + e),
        Ok(v) => server_event_spec(v),
    }
}

/// The view of a parse outcome.
pub open spec fn event_result_view(r: Result<ParsedServerEvent, String>) -> Result<ServerEventView, Seq<char>> {
    match r {
        Ok(e) => Ok(e@),
        Err(m) => Err(m@),
    }
}

/// The view of a sentence outcome.
pub open spec fn update_result_view(r: Result<AsrSegmentUpdate, String>) -> Result<SegmentUpdateView, Seq<char>> {
    match r {
        Ok(u) => Ok(u@),
        Err(m) => Err(m@),
    }
}

/// The item of `items` whose `sentence_id` is `id`, else the first.
fn find_translation_item(items: &Vec<JsonValue>, id: u64) -> (r: Option<&JsonValue>)
    ensures
        match r {
            Some(x) => translation_item(items_view(items@), id) == Some(x@),
            None => translation_item(items_view(items@), id) is None,
        },
{
    let n = items.len();
    let ghost iv = items_view(items@);
    proof {
        lemma_items_view_len(items@);
        assert(iv.subrange(0, n as int) =~= iv);
    }
    let mut i: usize = 0;
    while i < n
        invariant
            n == items@.len(),
            iv == items_view(items@),
            iv.len() == n,
            forall|k: int| 0 <= k < n ==> #[trigger] iv[k] == items@[k]@,
            0 <= i <= n,
            item_with_id(iv, id) == item_with_id(iv.subrange(i as int, n as int), id),
        decreases n - i,
    {
        assert(iv.subrange(i as int, n as int).drop_first() =~= iv.subrange(i + 1, n as int));
        assert(iv.subrange(i as int, n as int)[0] == iv[i as int]);
        if u64_member(&items[i], "sentence_id") == Some(id) {
            return Some(&items[i]);
        }
        i = i + 1;
    }
    if n > 0 {
        Some(&items[0])
    } else {
        None
    }
}

/// The sentence that a `result-generated` message carries, or what it lacks.
pub fn parse_result_generated(value: &JsonValue) -> (r: Result<AsrSegmentUpdate, String>)
    ensures
        update_result_view(r) == result_generated_spec(value@),
{
    let output = match value.get("payload") {
        Some(p) => p.get("output"),
        None => None,
    };
    let output = match output {
        Some(o) => o,
        None => {
            return Err(owned("result-generated 缺少 payload.output。"));
        },
    };
    let transcription = match output.get("transcription") {
        Some(t) => t,
        None => {
            return Err(owned("result-generated 缺少 transcription。"));
        },
    };
    let sentence_id = match u64_member(transcription, "sentence_id") {
        Some(id) => id,
        None => {
            return Err(owned("result-generated 缺少 transcription.sentence_id。"));
        },
    };
    let original_text = match str_member(transcription, "text") {
        Some(t) => trim_str(t),
        None => String::new(),
    };
    assert(trim(Seq::<char>::empty()) == Seq::<char>::empty());
    let is_final = match bool_member(transcription, "sentence_end") {
        Some(b) => b,
        None => false,
    };
    let begin_time_ms = u64_member(transcription, "begin_time");
    let end_time_ms = u64_member(transcription, "end_time");
    let list = match output.get("translations") {
        Some(t) => Some(t),
        None => output.get("translation"),
    };
    let item = match list {
        Some(l) => match l.as_array() {
            Some(items) => find_translation_item(items, sentence_id),
            None => None,
        },
        None => None,
    };
    let translated_text = match item {
        Some(it) => match str_member(it, "text") {
            Some(t) => {
                let trimmed = trim_str(t);
                if trimmed.as_str().is_empty() {
                    None
                } else {
                    Some(trimmed)
                }
            },
            None => None,
        },
        None => None,
    };
    let ghost out = value@.member("payload"@).get("output"@).unwrap();
    assert(output@ == out);
    assert(opt_view(translated_text) == translated_text_of(out, sentence_id));
    Ok(AsrSegmentUpdate { sentence_id, begin_time_ms, end_time_ms, original_text, translated_text, is_final })
}

/// The string member `key` of the `header` of a message.
fn header_member<'a>(value: &'a JsonValue, key: &str) -> (r: Option<&'a str>)
    ensures
        match r {
            Some(s) => header_str(value@, "header"@) == header_str(value@, "header"@) && header_str(value@, key@) == Some(s@),
            None => header_str(value@, key@) is None,
        },
{
    match value.get("header") {
        Some(h) => str_member(h, key),
        None => None,
    }
}

/// The event that a parsed message of the service carries.
pub fn server_event_from_json(value: &JsonValue) -> (r: Result<ParsedServerEvent, String>)
    ensures
        event_result_view(r) == server_event_spec(value@),
{
    let event = match header_member(value, "event") {
        Some(e) => e,
        None => {
            proof {
                reveal_strlit("task-started");
                reveal_strlit("task-finished");
                reveal_strlit("task-failed");
                reveal_strlit("result-generated");
            }
            return Ok(ParsedServerEvent::Ignore);
        },
    };
    if str_eq(event, "task-started") {
        Ok(ParsedServerEvent::TaskStarted)
    } else if str_eq(event, "task-finished") {
        Ok(ParsedServerEvent::TaskFinished)
    } else if str_eq(event, "task-failed") {
        let error_code = match header_member(value, "error_code") {
            Some(c) => Some(owned(c)),
            None => None,
        };
        let error_message = match header_member(value, "error_message") {
            Some(m) => if is_blank(m) {
                owned("Gummy 任务执行失败。")
            } else {
                owned(m)
            },
            None => owned("Gummy 任务执行失败。"),
        };
        Ok(ParsedServerEvent::TaskFailed { error_code, error_message })
    } else if str_eq(event, "result-generated") {
        match parse_result_generated(value) {
            Ok(u) => Ok(ParsedServerEvent::ResultGenerated(u)),
            Err(m) => Err(m),
        }
    } else {
        Ok(ParsedServerEvent::Ignore)
    }
}

/// The event of a message of the service, read from its JSON text.
pub fn parse_server_message(text: &str) -> (r: Result<ParsedServerEvent, String>)
    ensures
        event_result_view(r) == server_message_spec(text@),
{
    match parse_json_text(text) {
        Err(e) => Err(concat("无法解析 Gummy 返回的 JSON: ", e.as_str())),
        Ok(v) => server_event_from_json(&v),
    }
}

/// `null` for a blank value, else the trimmed value.
pub open spec fn nullable_string_spec(value: Seq<char>) -> Json {
    if trim(value).len() == 0 {
        Json::Null
    } else {
        Json::Str(trim(value))
    }
}

/// `null` for a blank value, else the trimmed value.
pub fn nullable_string(value: &str) -> (r: JsonValue)
    ensures
        r@ == nullable_string_spec(value@),
{
    let t = trim_str(value);
    if t.as_str().is_empty() {
        JsonValue::Null
    } else {
        JsonValue::Str(t)
    }
}

/// The header of a task message.
pub open spec fn task_header_json(action: Seq<char>, task_id: Seq<char>) -> Json {
    Json::Object(seq![("action"@, Json::Str(action)), ("task_id"@, Json::Str(task_id)), ("streaming"@, Json::Str("duplex"@))])
}

/// The parameters of a recognition task.
pub open spec fn run_task_parameters_json(asr: AsrConfig, translation: TranslationConfig) -> Json {
    Json::Object(
        seq![
            ("format"@, Json::Str("pcm"@)),
            ("sample_rate"@, Json::Number(NumberView::PosInt(asr.sample_rate as u64))),
            ("transcription_enabled"@, Json::Bool(true)),
            ("translation_enabled"@, Json::Bool(translation.enabled)),
            ("source_language"@, if asr.language@ == "auto"@ {
                Json::Null
            } else {
                Json::Str(asr.language@)
            }),
            ("translation_target_languages"@, Json::Array(
                if translation.enabled {
                    seq![Json::Str(translation.target_language@)]
                } else {
                    Seq::empty()
                },
            )),
            ("max_end_silence"@, Json::Number(NumberView::PosInt(clamp(asr.vad_silence_ms, 200, MAX_END_SILENCE_MS) as u64))),
            ("vocabulary_id"@, nullable_string_spec(asr.vocabulary_id@)),
        ],
    )
}

/// The `run-task` message that starts recognition task `task_id`.
pub open spec fn run_task_json(task_id: Seq<char>, asr: AsrConfig, translation: TranslationConfig) -> Json {
    Json::Object(
        seq![
            ("header"@, task_header_json("run-task"@, task_id)),
            ("payload"@, run_task_body_json(asr, translation)),
        ],
    )
}

/// The payload of a `run-task` message.
pub open spec fn run_task_body_json(asr: AsrConfig, translation: TranslationConfig) -> Json {
    Json::Object(
        seq![
            ("task_group"@, Json::Str(TASK_GROUP@)),
            ("task"@, Json::Str(TASK_NAME@)),
            ("function"@, Json::Str(TASK_FUNCTION@)),
            ("model"@, Json::Str(asr.model@)),
            ("input"@, Json::Object(Seq::empty())),
            ("parameters"@, run_task_parameters_json(asr, translation)),
        ],
    )
}

/// The `finish-task` message that ends recognition task `task_id`.
pub open spec fn finish_task_json(task_id: Seq<char>) -> Json {
    Json::Object(
        seq![
            ("header"@, task_header_json("finish-task"@, task_id)),
            ("payload"@, Json::Object(seq![("input"@, Json::Object(Seq::empty()))])),
        ],
    )
}

fn task_header(action: &str, task_id: &str) -> (r: JsonValue)
    ensures
        r@ == task_header_json(action@, task_id@),
{
    let mut e = new_entries();
    push_entry(&mut e, "action", JsonValue::string(action));
    push_entry(&mut e, "task_id", JsonValue::string(task_id));
    push_entry(&mut e, "streaming", JsonValue::string("duplex"));
    assert(entries_view(e@) =~= task_header_json(action@, task_id@).entries());
    object(e)
}

fn empty_object() -> (r: JsonValue)
    ensures
        r@ == Json::Object(Seq::empty()),
{
    object(new_entries())
}

/// The `run-task` message that starts recognition task `task_id`, as a value.
pub fn run_task_payload(task_id: &str, asr_config: &AsrConfig, translation_config: &TranslationConfig) -> (r: JsonValue)
    ensures
        r@ == run_task_json(task_id@, *asr_config, *translation_config),
{
    let source_language = if str_eq(asr_config.language.as_str(), "auto") {
        JsonValue::Null
    } else {
        JsonValue::string(asr_config.language.as_str())
    };
    let mut targets = new_items();
    if translation_config.enabled {
        push_item(&mut targets, JsonValue::string(translation_config.target_language.as_str()));
    }
    assert(items_view(targets@) =~= (if translation_config.enabled {
        seq![Json::Str(translation_config.target_language@)]
    } else {
        Seq::<Json>::empty()
    }));
    let silence = clamp_silence(asr_config.vad_silence_ms);
    let mut p = new_entries();
    push_entry(&mut p, "format", JsonValue::string("pcm"));
    push_entry(&mut p, "sample_rate", JsonValue::unsigned(asr_config.sample_rate as u64));
    push_entry(&mut p, "transcription_enabled", JsonValue::Bool(true));
    push_entry(&mut p, "translation_enabled", JsonValue::Bool(translation_config.enabled));
    push_entry(&mut p, "source_language", source_language);
    push_entry(&mut p, "translation_target_languages", array(targets));
    push_entry(&mut p, "max_end_silence", JsonValue::unsigned(silence as u64));
    push_entry(&mut p, "vocabulary_id", nullable_string(asr_config.vocabulary_id.as_str()));
    assert(entries_view(p@) =~= run_task_parameters_json(*asr_config, *translation_config).entries());
    let parameters = object(p);
    let mut pl = new_entries();
    push_entry(&mut pl, "task_group", JsonValue::string(TASK_GROUP));
    push_entry(&mut pl, "task", JsonValue::string(TASK_NAME));
    push_entry(&mut pl, "function", JsonValue::string(TASK_FUNCTION));
    push_entry(&mut pl, "model", JsonValue::string(asr_config.model.as_str()));
    push_entry(&mut pl, "input", empty_object());
    push_entry(&mut pl, "parameters", parameters);
    assert(entries_view(pl@) =~= run_task_body_json(*asr_config, *translation_config).entries());
    let payload = object(pl);
    let mut root = new_entries();
    push_entry(&mut root, "header", task_header("run-task", task_id));
    push_entry(&mut root, "payload", payload);
    assert(entries_view(root@) =~= run_task_json(task_id@, *asr_config, *translation_config).entries());
    object(root)
}

fn clamp_silence(v: u32) -> (r: u32)
    ensures
        r == clamp(v, 200, MAX_END_SILENCE_MS),
{
    if v < 200 {
        200
    } else if v > MAX_END_SILENCE_MS {
        MAX_END_SILENCE_MS
    } else {
        v
    }
}

/// The `finish-task` message that ends recognition task `task_id`, as a value.
pub fn finish_task_payload(task_id: &str) -> (r: JsonValue)
    ensures
        r@ == finish_task_json(task_id@),
{
    let mut pl = new_entries();
    push_entry(&mut pl, "input", empty_object());
    assert(entries_view(pl@) =~= seq![("input"@, Json::Object(Seq::empty()))]);
    let payload = object(pl);
    let mut root = new_entries();
    push_entry(&mut root, "header", task_header("finish-task", task_id));
    push_entry(&mut root, "payload", payload);
    assert(entries_view(root@) =~= finish_task_json(task_id@).entries());
    object(root)
}

/// The text of the `run-task` message that starts recognition task `task_id`.
pub fn build_run_task_message(task_id: &str, asr_config: &AsrConfig, translation_config: &TranslationConfig) -> (r: String)
    ensures
        r@ == json_text_spec(run_task_json(task_id@, *asr_config, *translation_config)),
{
    json_text(&run_task_payload(task_id, asr_config, translation_config))
}

/// The text of the `finish-task` message that ends recognition task `task_id`.
pub fn build_finish_task_message(task_id: &str) -> (r: String)
    ensures
        r@ == json_text_spec(finish_task_json(task_id@)),
{
    json_text(&finish_task_payload(task_id))
}

/// The kind of a socket failure, read from the text of its error chain.
pub open spec fn socket_error_kind(chain: Seq<char>) -> Seq<char> {
    let lower = ascii_lower(chain);
    if contains_seq(lower, "dns"@) || contains_seq(lower, "failed to lookup address"@) {
        "network_dns"@
    } else if contains_seq(lower, "tls"@) || contains_seq(lower, "certificate"@) || contains_seq(lower, "ssl"@) {
        "tls_handshake"@
    } else if contains_seq(lower, "timed out"@) || contains_seq(lower, "timeout"@) {
        "network_timeout"@
    } else {
        "network_connect"@
    }
}

/// The error for a socket failure whose error chain reads `chain`.
pub fn classify_socket_error(chain: &str, target: &ResolvedGummyTarget, model: &str) -> (r: GummyErrorInfo)
    ensures
        r@ == gummy_error(socket_error_kind(chain@), "Gummy WebSocket 连接失败: "@ + chain@, target.resolved_url@, model@, None),
{
    let lower = ascii_lower_str(chain);
    let l = lower.as_str();
    let kind = if contains_str(l, "dns") || contains_str(l, "failed to lookup address") {
        "network_dns"
    } else if contains_str(l, "tls") || contains_str(l, "certificate") || contains_str(l, "ssl") {
        "tls_handshake"
    } else if contains_str(l, "timed out") || contains_str(l, "timeout") {
        "network_timeout"
    } else {
        "network_connect"
    };
    build_error(kind, concat("Gummy WebSocket 连接失败: ", chain), target, model, None)
}

/// The texts of an error chain joined by `sep`, first to last.
pub open spec fn join_with(parts: Seq<Seq<char>>, sep: Seq<char>) -> Seq<char>
    decreases parts.len(),
{
    if parts.len() == 0 {
        Seq::empty()
    } else if parts.len() == 1 {
        parts[0]
    } else {
        join_with(parts.drop_last(), sep) + sep + parts.last()
    }
}

/// The views of a list of strings.
pub open spec fn strings_view(v: Seq<String>) -> Seq<Seq<char>> {
    v.map_values(|s: String| s@)
}

/// The texts of an error and of its sources, joined by ` <- `.
pub fn join_error_chain(parts: &Vec<String>) -> (r: String)
    ensures
        r@ == join_with(strings_view(parts@), " <- "@),
{
    let n = parts.len();
    let mut out = String::new();
    let mut i: usize = 0;
    while i < n
        invariant
            n == parts@.len(),
            0 <= i <= n,
            out@ == join_with(strings_view(parts@.take(i as int)), " <- "@),
        decreases n - i,
    {
        let ghost prev = strings_view(parts@.take(i as int));
        assert(strings_view(parts@.take(i + 1)).drop_last() =~= prev);
        assert(strings_view(parts@.take(i + 1)).last() == parts@[i as int]@);
        if i == 0 {
            out = parts[0].clone();
        } else {
            let with_sep = concat(out.as_str(), " <- ");
            out = concat(with_sep.as_str(), parts[i].as_str());
        }
        i = i + 1;
    }
    assert(parts@.take(n as int) =~= parts@);
    out
}

/// The failed connectivity result that reports `error`.
pub open spec fn failure_view(e: GummyErrorView) -> ConnectivityView {
    ConnectivityView {
        ok: false,
        provider: e.provider,
        resolved_url: e.resolved_url,
        model: e.model,
        error_kind: Some(e.kind),
        message: e.message,
    }
}

/// The failed connectivity result that reports `error`.
pub fn connectivity_failure(error: GummyErrorInfo) -> (r: GummyConnectivityResult)
    ensures
        r@ == failure_view(error@),
{
    GummyConnectivityResult {
        ok: false,
        provider: error.provider,
        resolved_url: error.resolved_url,
        model: error.model,
        error_kind: Some(error.kind),
        message: error.message,
    }
}

/// What a connectivity check decides before it connects: the endpoint to
/// probe, or the failure that the settings already cause.
pub open spec fn precheck_spec(asr: AsrConfig, translation: TranslationConfig) -> Result<Seq<char>, ConnectivityView> {
    match resolved_target(asr.base_url@, asr.model@) {
        Err(e) => Err(failure_view(e)),
        Ok(url) => match runtime_config_check(asr, translation) {
            Err(e) => Err(failure_view(e)),
            Ok(()) => Ok(url),
        },
    }
}

/// Checks the settings before a connectivity probe: the endpoint to probe,
/// or the failed result to report.
pub fn connectivity_precheck(asr_config: &AsrConfig, translation_config: &TranslationConfig) -> (r: Result<ResolvedGummyTarget, GummyConnectivityResult>)
    ensures
        match r {
            Ok(t) => precheck_spec(*asr_config, *translation_config) == Ok::<Seq<char>, ConnectivityView>(t.resolved_url@),
            Err(f) => precheck_spec(*asr_config, *translation_config) == Err::<Seq<char>, ConnectivityView>(f@),
        },
{
    let target = match resolve_target(asr_config) {
        Ok(t) => t,
        Err(e) => {
            return Err(connectivity_failure(e));
        },
    };
    match validate_runtime_config(asr_config, translation_config) {
        Err(e) => Err(connectivity_failure(e)),
        Ok(()) => Ok(target),
    }
}

/// The result of a connectivity check once the probe of `target` has ended.
pub fn connectivity_outcome(target: ResolvedGummyTarget, model: &str, probe: Result<(), GummyErrorInfo>) -> (r: GummyConnectivityResult)
    ensures
        match probe {
            Ok(()) => r@ == (ConnectivityView {
                ok: true,
                provider: PROVIDER@,
                resolved_url: target.resolved_url@,
                model: model@,
                error_kind: None,
                message: "Gummy 连接检测通过。"@,
            }),
            Err(e) => r@ == failure_view(e@),
        },
{
    match probe {
        Ok(()) => GummyConnectivityResult {
            ok: true,
            provider: owned(PROVIDER),
            resolved_url: target.resolved_url,
            model: owned(model),
            error_kind: None,
            message: owned("Gummy 连接检测通过。"),
        },
        Err(e) => connectivity_failure(e),
    }
}

/// Whether `c` is a lower-case hexadecimal digit.
pub open spec fn is_lower_hex(c: char) -> bool {
    ('0' <= c && c <= '9') || ('a' <= c && c <= 'f')
}

/// A fresh random identifier from `uuid::Uuid::new_v4().simple()`, written
/// with its `Display`. The value is random: the contract claims only its
/// form, 32 lower-case hexadecimal digits, as `uuid` writes every simple id.
#[verifier::external_body]
fn random_uuid_simple() -> (r: String)
    ensures
        r@.len() == 32,
        forall|i: int| 0 <= i < 32 ==> is_lower_hex(#[trigger] r@[i]),
{
    uuid::Uuid::new_v4().simple().to_string()
}

/// A fresh task identifier: `lingsubtitle-` and a random simple UUID.
pub fn make_task_id() -> (r: String)
    ensures
        r@.len() == 45,
        r@.subrange(0, 13) == "lingsubtitle-"@,
        forall|i: int| 13 <= i < 45 ==> is_lower_hex(#[trigger] r@[i]),
{
    proof {
        reveal_strlit("lingsubtitle-");
    }
    let id = random_uuid_simple();
    let r = concat("lingsubtitle-", id.as_str());
    assert(r@.subrange(0, 13) =~= "lingsubtitle-"@);
    assert forall|i: int| 13 <= i < 45 implies is_lower_hex(#[trigger] r@[i]) by {
        assert(r@[i] == id@[i - 13]);
    }
    r
}

/// Whether `c` may stand in an HTTP header value: `http::HeaderValue::from_str`
/// accepts a byte `b` when `b >= 32 && b != 127 || b == b'\t'`, and every byte
/// of a non-ASCII character is at least 128.
pub open spec fn header_char_ok(c: char) -> bool {
    c == '\t' || ((c as u32) >= 32 && (c as u32) != 127)
}

/// The `Authorization` header value for `api_key`, or the error of a key that
/// cannot stand in a header.
pub open spec fn authorization_spec(api_key: Seq<char>, url: Seq<char>, model: Seq<char>) -> Result<Seq<char>, GummyErrorView> {
    let value = "bearer "@ + trim(api_key);
    if forall|i: int| 0 <= i < value.len() ==> header_char_ok(#[trigger] value[i]) {
        Ok(value)
    } else {
        Err(gummy_error("invalid_config"@, "Gummy API Key 格式非法: failed to parse header value"@, url, model, None))
    }
}

/// The `Authorization` header value of a session: `bearer` and the trimmed key.
pub fn authorization_header(api_key: &str, target: &ResolvedGummyTarget, model: &str) -> (r: Result<String, GummyErrorInfo>)
    ensures
        match r {
            Ok(v) => authorization_spec(api_key@, target.resolved_url@, model@) == Ok::<Seq<char>, GummyErrorView>(v@),
            Err(e) => authorization_spec(api_key@, target.resolved_url@, model@) == Err::<Seq<char>, GummyErrorView>(e@),
        },
{
    let key = trim_str(api_key);
    let value = concat("bearer ", key.as_str());
    let chars = crate::text::chars_of(value.as_str());
    let n = chars.len();
    let mut i: usize = 0;
    while i < n
        invariant
            n == chars@.len(),
            chars@ == value@,
            value@ == "bearer "@ + trim(api_key@),
            0 <= i <= n,
            forall|k: int| 0 <= k < i ==> header_char_ok(#[trigger] value@[k]),
        decreases n - i,
    {
        let c = chars[i];
        let u = c as u32;
        if !(c == '\t' || (u >= 32 && u != 127)) {
            assert(!header_char_ok(value@[i as int]));
            let ghost sv = "bearer "@ + trim(api_key@);
            assert(sv == value@);
            assert(!header_char_ok(sv[i as int]));
            return Err(build_error("invalid_config", owned("Gummy API Key 格式非法: failed to parse header value"), target, model, None));
        }
        i = i + 1;
    }
    Ok(value)
}


/// The parameters of the `run-task` message that starts task `task_id`,
/// read back by key from the message.
pub open spec fn run_task_params_of(task_id: Seq<char>, asr: AsrConfig, translation: TranslationConfig) -> Json {
    run_task_json(task_id, asr, translation).member("payload"@).member("parameters"@)
}

/// What the `run-task` message asks of the service, read back by key: the
/// header names the action and the task; recognition runs in the chosen
/// language (`null`, that is automatic detection, only when the chosen
/// language is `auto`, whether or not translation is on); translation is on
/// exactly as the settings say, into the chosen target alone and into
/// nothing when it is off; the end-of-sentence silence is the threshold
/// brought into 200..=6000 ms; the sample rate is the configured one; and a
/// blank vocabulary is sent as `null`.
pub proof fn law_run_task_message_members(task_id: Seq<char>, asr: AsrConfig, translation: TranslationConfig)
    ensures
        ({
            let m = run_task_json(task_id, asr, translation);
            let p = run_task_params_of(task_id, asr, translation);
            &&& m.member("header"@).str_member("action"@) == Some("run-task"@)
            &&& m.member("header"@).str_member("task_id"@) == Some(task_id)
            &&& asr.language@ != "auto"@ ==> p.member("source_language"@) == Json::Str(asr.language@)
            &&& asr.language@ == "auto"@ ==> p.member("source_language"@) == Json::Null
            &&& p.bool_member("translation_enabled"@) == Some(translation.enabled)
            &&& translation.enabled ==> p.member("translation_target_languages"@) == Json::Array(seq![Json::Str(translation.target_language@)])
            &&& !translation.enabled ==> p.member("translation_target_languages"@) == Json::Array(Seq::empty())
            &&& p.u64_member("sample_rate"@) == Some(asr.sample_rate as u64)
            &&& p.u64_member("max_end_silence"@) matches Some(s) && 200 <= s <= 6000
                && (200 <= asr.vad_silence_ms <= 6000 ==> s == asr.vad_silence_ms)
                && (asr.vad_silence_ms < 200 ==> s == 200) && (asr.vad_silence_ms > 6000 ==> s == 6000)
            &&& trim(asr.vocabulary_id@).len() == 0 ==> p.member("vocabulary_id"@) == Json::Null
            &&& trim(asr.vocabulary_id@).len() > 0 ==> p.member("vocabulary_id"@) == Json::Str(trim(asr.vocabulary_id@))
        }),
{
    reveal_strlit("header");
    reveal_strlit("payload");
    reveal_strlit("action");
    reveal_strlit("task_id");
    reveal_strlit("streaming");
    reveal_strlit("task_group");
    reveal_strlit("task");
    reveal_strlit("function");
    reveal_strlit("model");
    reveal_strlit("input");
    reveal_strlit("parameters");
    reveal_strlit("format");
    reveal_strlit("sample_rate");
    reveal_strlit("transcription_enabled");
    reveal_strlit("translation_enabled");
    reveal_strlit("source_language");
    reveal_strlit("translation_target_languages");
    reveal_strlit("max_end_silence");
    reveal_strlit("vocabulary_id");
    reveal_with_fuel(crate::json::entries_get, 9);
    assert("header"@.len() == 6 && "header"@[0] == 'h');
    assert("payload"@.len() == 7 && "payload"@[0] == 'p');
    assert("action"@.len() == 6 && "action"@[0] == 'a');
    assert("task_id"@.len() == 7 && "task_id"@[0] == 't');
    assert("streaming"@.len() == 9 && "streaming"@[0] == 's');
    assert("task_group"@.len() == 10 && "task_group"@[0] == 't');
    assert("task"@.len() == 4 && "task"@[0] == 't');
    assert("function"@.len() == 8 && "function"@[0] == 'f');
    assert("model"@.len() == 5 && "model"@[0] == 'm');
    assert("input"@.len() == 5 && "input"@[0] == 'i');
    assert("parameters"@.len() == 10 && "parameters"@[0] == 'p');
    assert("format"@.len() == 6 && "format"@[0] == 'f');
    assert("sample_rate"@.len() == 11 && "sample_rate"@[0] == 's');
    assert("transcription_enabled"@.len() == 21 && "transcription_enabled"@[0] == 't');
    assert("translation_enabled"@.len() == 19 && "translation_enabled"@[0] == 't');
    assert("source_language"@.len() == 15 && "source_language"@[0] == 's');
    assert("translation_target_languages"@.len() == 28 && "translation_target_languages"@[0] == 't');
    assert("max_end_silence"@.len() == 15 && "max_end_silence"@[0] == 'm');
    assert("vocabulary_id"@.len() == 13 && "vocabulary_id"@[0] == 'v');
}

/// Settings that the check accepts with translation off name a recognition
/// language (trimmed) that is `auto` or one of the offered recognition
/// languages: a session never starts in a language the service does not
/// recognise.
pub proof fn law_ready_recognition_language_is_supported(asr: AsrConfig, translation: TranslationConfig)
    requires
        runtime_config_check(asr, translation) is Ok,
        !translation.enabled,
    ensures
        trim(asr.language@) == "auto"@ || (language_of_code(trim(asr.language@)) matches Some(l) && l != Language::Auto
            && source_list().contains(l)),
{
}

/// With translation off, settings that the check accepts become refused as
/// soon as only their recognition language is changed to one that is neither
/// `auto` nor an offered recognition language: the error is of kind
/// `invalid_language_pair` and says that the language is not supported.
pub proof fn law_unsupported_recognition_language_refused(
    asr: AsrConfig,
    other: AsrConfig,
    translation: TranslationConfig,
)
    requires
        runtime_config_check(asr, translation) is Ok,
        !translation.enabled,
        other.base_url@ == asr.base_url@,
        other.api_key@ == asr.api_key@,
        other.model@ == asr.model@,
        other.sample_rate == asr.sample_rate,
        other.vad_silence_ms == asr.vad_silence_ms,
        trim(other.language@) != "auto"@,
        !(language_of_code(trim(other.language@)) matches Some(l) && l != Language::Auto && source_list().contains(l)),
    ensures
        runtime_config_check(other, translation) matches Err(e) && e.kind == "invalid_language_pair"@
            && e.message == "当前识别语言不在 Gummy 支持范围内。"@,
{
}

/// The transcription object of a `result-generated` message, read by key.
pub open spec fn transcription_of(v: Json) -> Json {
    v.member("payload"@).member("output"@).member("transcription"@)
}

/// A `result-generated` message is read exactly when its transcription has a
/// numeric `sentence_id`, and then the sentence carries that id, the
/// transcription's `begin_time` as its start, its `end_time` as its end, its
/// `text` trimmed (empty when absent), and is final exactly when
/// `sentence_end` is `true`.
pub proof fn law_result_generated_members(v: Json)
    ensures
        (result_generated_spec(v) is Ok) == (transcription_of(v).u64_member("sentence_id"@) is Some),
        result_generated_spec(v) matches Ok(u) ==> {
            let tr = transcription_of(v);
            &&& tr.u64_member("sentence_id"@) == Some(u.sentence_id)
            &&& u.begin_time_ms == tr.u64_member("begin_time"@)
            &&& u.end_time_ms == tr.u64_member("end_time"@)
            &&& u.is_final == (tr.bool_member("sentence_end"@) == Some(true))
            &&& u.original_text == trim(
                match tr.str_member("text"@) {
                    Some(t) => t,
                    None => Seq::empty(),
                },
            )
        },
{
}

} // verus!
