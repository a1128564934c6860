//! Translation through a chat-completions service: which provider an
//! endpoint belongs to, the endpoint a request goes to, the request body,
//! the errors that are reported, and the reading of a streamed answer. The
//! caller does the HTTP work.

use vstd::prelude::*;

use crate::json::{
    array, json_text, json_text_spec, new_entries, new_items, object, push_entry, push_item, Json, JsonNumber,
    JsonValue,
};
use crate::text::{
    ascii_lower, ascii_lower_str, concat, contains_seq, contains_str, ends_with, ends_with_str,
    is_blank, owned, starts_with, starts_with_str, trim, trim_end_char, trim_end_char_str, trim_str,
};

verus! {

/// An error of a translation request.
#[derive(Debug)]
pub struct TranslationErrorInfo {
    pub kind: String,
    pub message: String,
    pub provider: String,
    pub resolved_url: String,
    pub model: String,
}

/// The view of a [`TranslationErrorInfo`].
pub struct TranslationErrorView {
    pub kind: Seq<char>,
    pub message: Seq<char>,
    pub provider: Seq<char>,
    pub resolved_url: Seq<char>,
    pub model: Seq<char>,
}

impl View for TranslationErrorInfo {
    type V = TranslationErrorView;

    open spec fn view(&self) -> TranslationErrorView {
        TranslationErrorView {
            kind: self.kind@,
            message: self.message@,
            provider: self.provider@,
            resolved_url: self.resolved_url@,
            model: self.model@,
        }
    }
}

/// The outcome of a translation connectivity check.
#[derive(Debug)]
pub struct TranslationConnectivityResult {
    pub ok: bool,
    pub provider: String,
    pub resolved_url: String,
    pub model: String,
    pub error_kind: Option<String>,
    pub message: String,
}

/// Which segment, and which revision of it, a translation request is for.
#[derive(Debug)]
pub struct TranslationRequestContext {
    pub segment_id: Option<u64>,
    pub revision: Option<u32>,
}

/// The kind of chat-completions service behind an endpoint.
#[derive(Clone, Copy, Debug, PartialEq, Eq, Structural)]
pub enum TranslationProvider {
    OpenAiCompatible,
    DashScopeCompatible,
}

/// The name under which a provider is reported.
pub open spec fn provider_name(p: TranslationProvider) -> Seq<char> {
    match p {
        TranslationProvider::OpenAiCompatible => "openaiCompatible"@,
        TranslationProvider::DashScopeCompatible => "dashscopeCompatible"@,
    }
}

impl TranslationProvider {
    /// The name under which this provider is reported.
    pub fn as_str(self) -> (r: &'static str)
        ensures
            r@ == provider_name(self),
    {
        match self {
            TranslationProvider::OpenAiCompatible => "openaiCompatible",
            TranslationProvider::DashScopeCompatible => "dashscopeCompatible",
        }
    }
}

/// Settings of a translation service that speaks the chat-completions protocol.
#[derive(Debug)]
pub struct ChatTranslationConfig {
    pub enabled: bool,
    pub base_url: String,
    pub api_key: String,
    pub model: String,
    pub system_prompt: String,
    pub target_language: String,
}

/// The endpoint that translation requests go to, and its provider.
#[derive(Debug)]
pub struct ResolvedTranslationTarget {
    pub provider: TranslationProvider,
    pub resolved_url: String,
}

/// The provider of an endpoint: DashScope when its address names
/// `dashscope.aliyuncs.com` in any ASCII case.
pub open spec fn provider_of(base_url: Seq<char>) -> TranslationProvider {
    if contains_seq(ascii_lower(base_url), "dashscope.aliyuncs.com"@) {
        TranslationProvider::DashScopeCompatible
    } else {
        TranslationProvider::OpenAiCompatible
    }
}

/// The provider of the endpoint `base_url`.
pub fn detect_provider(base_url: &str) -> (r: TranslationProvider)
    ensures
        r == provider_of(base_url@),
{
    let lower = ascii_lower_str(base_url);
    if contains_str(lower.as_str(), "dashscope.aliyuncs.com") {
        TranslationProvider::DashScopeCompatible
    } else {
        TranslationProvider::OpenAiCompatible
    }
}

/// The error view of kind `kind` and message `message` about `url`.
pub open spec fn translation_error(kind: Seq<char>, message: Seq<char>, provider: TranslationProvider, url: Seq<char>, model: Seq<char>) -> TranslationErrorView {
    TranslationErrorView { kind, message, provider: provider_name(provider), resolved_url: url, model }
}

/// The error of kind `kind` with message `message` about the endpoint `resolved_url`.
pub fn build_error(kind: &str, message: String, provider: TranslationProvider, resolved_url: &str, model: &str) -> (r: TranslationErrorInfo)
    ensures
        r@ == translation_error(kind@, message@, provider, resolved_url@, model@),
{
    TranslationErrorInfo {
        kind: owned(kind),
        message,
        provider: owned(provider.as_str()),
        resolved_url: owned(resolved_url),
        model: owned(model),
    }
}

/// What `reqwest::Url::parse` gives for `text`: nothing when it parses, the
/// `Display` text of the parse error otherwise.
pub uninterp spec fn url_parse_error_spec(text: Seq<char>) -> Option<Seq<char>>;

/// Parses `text` with `reqwest::Url::parse` and gives the `Display` text of
/// the error, if any. The contract claims that the outcome is
/// `url_parse_error_spec` of the text.
#[verifier::external_body]
fn url_parse_error(text: &str) -> (r: Option<String>)
    ensures
        match r {
            Some(e) => url_parse_error_spec(text@) == Some(e@),
            None => url_parse_error_spec(text@) is None,
        },
{
    reqwest::Url::parse(text).err().map(|e| e.to_string())
}

/// The chat-completions address of a normalized base address.
pub open spec fn completions_url(normalized: Seq<char>) -> Seq<char> {
    if ends_with(normalized, "/chat/completions"@) {
        normalized
    } else {
        normalized + "/chat/completions"@
    }
}

/// The endpoint and provider that the settings name, or why they name none:
/// the address is trimmed and must not be empty nor point to the recognition
/// WebSocket, the key and model must be set, a DashScope address must be a
/// compatible-mode one, and the completions address must parse as a URL.
pub open spec fn translation_target_spec(base_url: Seq<char>, api_key: Seq<char>, model: Seq<char>) -> Result<(TranslationProvider, Seq<char>), TranslationErrorView> {
    let base = trim(base_url);
    let provider = provider_of(base);
    if base.len() == 0 {
        Err(translation_error("invalid_config"@, "Translation base URL is empty."@, provider, Seq::empty(), model))
    } else if starts_with(base, "wss://"@) || contains_seq(base, "/api-ws/"@) {
        Err(translation_error(
            "invalid_config"@,
            "The translation base URL points to the ASR WebSocket endpoint. Use a text-generation compatible endpoint instead."@,
            provider,
            base,
            model,
        ))
    } else if trim(api_key).len() == 0 {
        Err(translation_error("invalid_config"@, "Translation API Key is not configured."@, provider, base, model))
    } else if trim(model).len() == 0 {
        Err(translation_error("invalid_config"@, "Translation model is not configured."@, provider, base, model))
    } else {
        let normalized = trim_end_char(base, '/');
        if provider == TranslationProvider::DashScopeCompatible && !contains_seq(normalized, "/compatible-mode/v1"@) {
            Err(translation_error(
                "invalid_config"@,
                "DashScope translation must use a compatible-mode base URL such as https://dashscope.aliyuncs.com/compatible-mode/v1."@,
                provider,
                normalized,
                model,
            ))
        } else {
            let url = completions_url(normalized);
            match url_parse_error_spec(url) {
                Some(e) => Err(translation_error("invalid_config"@, "Invalid translation URL: "@ + e, provider, url, model)),
                None => Ok((provider, url)),
            }
        }
    }
}

/// The view of a resolution outcome.
pub open spec fn translation_target_view(r: Result<ResolvedTranslationTarget, TranslationErrorInfo>) -> Result<(TranslationProvider, Seq<char>), TranslationErrorView> {
    match r {
        Ok(t) => Ok((t.provider, t.resolved_url@)),
        Err(e) => Err(e@),
    }
}

/// The endpoint that translation requests go to, or why there is none.
pub fn resolve_target(config: &ChatTranslationConfig) -> (r: Result<ResolvedTranslationTarget, TranslationErrorInfo>)
    ensures
        translation_target_view(r) == translation_target_spec(config.base_url@, config.api_key@, config.model@),
{
    let base = trim_str(config.base_url.as_str());
    let provider = detect_provider(base.as_str());
    let model = config.model.as_str();
    if base.as_str().is_empty() {
        proof {
            reveal_strlit("");
        }
        let r = build_error("invalid_config", owned("Translation base URL is empty."), provider, "", model);
        assert(""@ == Seq::<char>::empty());
        assert(trim(config.base_url@).len() == 0);
        assert(provider == provider_of(trim(config.base_url@)));
        assert(r@ == translation_error("invalid_config"@, "Translation base URL is empty."@, provider, Seq::empty(), config.model@));
        return Err(r);
    }
    if starts_with_str(base.as_str(), "wss://") || contains_str(base.as_str(), "/api-ws/") {
        return Err(
            build_error(
                "invalid_config",
                owned(
                    "The translation base URL points to the ASR WebSocket endpoint. Use a text-generation compatible endpoint instead.",
                ),
                provider,
                base.as_str(),
                model,
            ),
        );
    }
    if is_blank(config.api_key.as_str()) {
        return Err(build_error("invalid_config", owned("Translation API Key is not configured."), provider, base.as_str(), model));
    }
    if is_blank(model) {
        return Err(build_error("invalid_config", owned("Translation model is not configured."), provider, base.as_str(), model));
    }
    let normalized = trim_end_char_str(base.as_str(), '/');
    if provider == TranslationProvider::DashScopeCompatible && !contains_str(normalized.as_str(), "/compatible-mode/v1") {
        return Err(
            build_error(
                "invalid_config",
                owned(
                    "DashScope translation must use a compatible-mode base URL such as https://dashscope.aliyuncs.com/compatible-mode/v1.",
                ),
                provider,
                normalized.as_str(),
                model,
            ),
        );
    }
    let url = if ends_with_str(normalized.as_str(), "/chat/completions") {
        normalized
    } else {
        concat(normalized.as_str(), "/chat/completions")
    };
    match url_parse_error(url.as_str()) {
        Some(e) => {
            let message = concat("Invalid translation URL: ", e.as_str());
            Err(build_error("invalid_config", message, provider, url.as_str(), model))
        },
        None => Ok(ResolvedTranslationTarget { provider, resolved_url: url }),
    }
}

/// The kind of a failed send, from whether it timed out and the text of its
/// error chain.
pub open spec fn send_error_kind(is_timeout: bool, chain: Seq<char>) -> Seq<char> {
    let lower = ascii_lower(chain);
    if is_timeout {
        "network_timeout"@
    } else if contains_seq(lower, "dns"@) || contains_seq(lower, "failed to lookup address"@) {
        "network_dns"@
    } else if contains_seq(lower, "certificate"@) || contains_seq(lower, "tls"@) || contains_seq(lower, "ssl"@)
        || contains_seq(lower, "handshake"@) {
        "tls_handshake"@
    } else if contains_seq(lower, "proxy"@) {
        "proxy_connect"@
    } else {
        "network_connect"@
    }
}

/// What the user is told of a failed send of kind `kind`.
pub open spec fn send_error_message(kind: Seq<char>) -> Seq<char> {
    if kind == "network_timeout"@ {
        "The translation request timed out before the server returned a response."@
    } else if kind == "network_dns"@ {
        "The translation request could not resolve the target host. Check the base URL or local network DNS."@
    } else if kind == "tls_handshake"@ {
        "The translation request failed during TLS/SSL negotiation. Check certificates, proxy, or HTTPS interception."@
    } else if kind == "proxy_connect"@ {
        "The translation request failed while connecting through a proxy. Check system proxy settings."@
    } else {
        "The translation request failed before the model returned a response. This is usually a network, proxy, or TLS issue."@
    }
}

/// The error of a request that could not be sent: its kind from whether it
/// timed out and from its error chain `chain`, and a message that explains
/// the kind and quotes the chain.
pub fn classify_send_error(is_timeout: bool, chain: &str, provider: TranslationProvider, resolved_url: &str, model: &str) -> (r: TranslationErrorInfo)
    ensures
        r@ == translation_error(
            send_error_kind(is_timeout, chain@),
            send_error_message(send_error_kind(is_timeout, chain@)) + " Root cause: "@ + chain@,
            provider,
            resolved_url@,
            model@,
        ),
{
    let lower = ascii_lower_str(chain);
    let l = lower.as_str();
    proof {
        reveal_strlit("network_timeout");
        reveal_strlit("network_dns");
        reveal_strlit("tls_handshake");
        reveal_strlit("proxy_connect");
        reveal_strlit("network_connect");
    }
    let ghost k = send_error_kind(is_timeout, chain@);
    assert("proxy_connect"@[0] != "tls_handshake"@[0]);
    assert("network_connect"@[8] != "network_timeout"@[8]);
    let (kind, user_message) = if is_timeout {
        ("network_timeout", "The translation request timed out before the server returned a response.")
    } else if contains_str(l, "dns") || contains_str(l, "failed to lookup address") {
        assert(k == "network_dns"@);
        (
            "network_dns",
            "The translation request could not resolve the target host. Check the base URL or local network DNS.",
        )
    } else if contains_str(l, "certificate") || contains_str(l, "tls") || contains_str(l, "ssl") || contains_str(l, "handshake") {
        assert(k == "tls_handshake"@);
        assert(k != "network_timeout"@ && k != "network_dns"@);
        (
            "tls_handshake",
            "The translation request failed during TLS/SSL negotiation. Check certificates, proxy, or HTTPS interception.",
        )
    } else if contains_str(l, "proxy") {
        assert(k == "proxy_connect"@);
        assert(k != "network_timeout"@ && k != "network_dns"@ && k != "tls_handshake"@);
        ("proxy_connect", "The translation request failed while connecting through a proxy. Check system proxy settings.")
    } else {
        assert(k == "network_connect"@);
        assert(k != "network_timeout"@ && k != "network_dns"@ && k != "tls_handshake"@ && k != "proxy_connect"@);
        (
            "network_connect",
            "The translation request failed before the model returned a response. This is usually a network, proxy, or TLS issue.",
        )
    };
    assert(kind@ == k);
    assert(user_message@ == send_error_message(k));
    let m1 = concat(user_message, " Root cause: ");
    let message = concat(m1.as_str(), chain);
    build_error(kind, message, provider, resolved_url, model)
}

/// The system prompt of a request: the override when there is one, else the
/// configured prompt and the target language.
pub open spec fn system_prompt_spec(system_prompt: Seq<char>, target_language: Seq<char>, override_prompt: Option<Seq<char>>) -> Seq<char> {
    match override_prompt {
        Some(p) => p,
        None => system_prompt + "\nTarget language: "@ + target_language,
    }
}

/// The view of an optional text.
pub open spec fn opt_text(o: Option<&str>) -> Option<Seq<char>> {
    match o {
        Some(s) => Some(s@),
        None => None,
    }
}

/// The system prompt of a request.
pub fn build_system_prompt(config: &ChatTranslationConfig, override_prompt: Option<&str>) -> (r: String)
    ensures
        r@ == system_prompt_spec(config.system_prompt@, config.target_language@, opt_text(override_prompt)),
{
    match override_prompt {
        Some(p) => owned(p),
        None => {
            let a = concat(config.system_prompt.as_str(), "\nTarget language: ");
            concat(a.as_str(), config.target_language.as_str())
        },
    }
}

/// A chat message of role `role` saying `content`.
pub open spec fn chat_message_json(role: Seq<char>, content: Seq<char>) -> Json {
    Json::Object(seq![("role"@, Json::Str(role)), ("content"@, Json::Str(content))])
}

/// The body of a chat-completions request: the model, the system prompt and
/// the text as the two messages, temperature `0.1`, at most 128 tokens, and
/// whether the answer is streamed.
pub open spec fn request_json(model: Seq<char>, prompt: Seq<char>, text: Seq<char>, stream: bool) -> Json {
    Json::Object(
        seq![
            ("model"@, Json::Str(model)),
            ("messages"@, Json::Array(seq![chat_message_json("system"@, prompt), chat_message_json("user"@, text)])),
            ("temperature"@, Json::Number(crate::json::NumberView::Float("0.1"@))),
            ("max_tokens"@, Json::Number(crate::json::NumberView::PosInt(128))),
            ("stream"@, Json::Bool(stream)),
        ],
    )
}

fn chat_message(role: &str, content: &str) -> (r: JsonValue)
    ensures
        r@ == chat_message_json(role@, content@),
{
    let mut e = new_entries();
    push_entry(&mut e, "role", JsonValue::string(role));
    push_entry(&mut e, "content", JsonValue::string(content));
    proof {
        assert(crate::json::entries_view(e@) =~= seq![("role"@, Json::Str(role@)), ("content"@, Json::Str(content@))]);
    }
    object(e)
}

/// The body of a chat-completions request for `text`.
pub fn build_request(config: &ChatTranslationConfig, text: &str, override_prompt: Option<&str>, stream: bool) -> (r: JsonValue)
    ensures
        r@ == request_json(
            config.model@,
            system_prompt_spec(config.system_prompt@, config.target_language@, opt_text(override_prompt)),
            text@,
            stream,
        ),
{
    let prompt = build_system_prompt(config, override_prompt);
    let mut messages = new_items();
    push_item(&mut messages, chat_message("system", prompt.as_str()));
    push_item(&mut messages, chat_message("user", text));
    let mut e = new_entries();
    push_entry(&mut e, "model", JsonValue::string(config.model.as_str()));
    proof {
        assert(crate::json::items_view(messages@) =~= seq![
            chat_message_json("system"@, prompt@),
            chat_message_json("user"@, text@),
        ]);
    }
    let msgs = array(messages);
    push_entry(&mut e, "messages", msgs);
    push_entry(&mut e, "temperature", JsonValue::Number(JsonNumber::Float(owned("0.1"))));
    push_entry(&mut e, "max_tokens", JsonValue::unsigned(128));
    push_entry(&mut e, "stream", JsonValue::Bool(stream));
    proof {
        assert(crate::json::entries_view(e@) =~= request_json(
            config.model@,
            prompt@,
            text@,
            stream,
        ).entries());
    }
    object(e)
}

/// The first item of an array; nothing for another value or an empty array.
pub open spec fn first_item(v: Json) -> Option<Json> {
    match v {
        Json::Array(items) => if items.len() > 0 {
            Some(items[0])
        } else {
            None
        },
        _ => None,
    }
}

/// The text of one content part: its `text` member when that is a string,
/// else the part itself when it is a string.
pub open spec fn part_text(item: Json) -> Option<Seq<char>> {
    match item.str_member("text"@) {
        Some(t) => Some(t),
        None => item.as_str(),
    }
}

/// The texts of content parts, joined.
pub open spec fn parts_text(items: Seq<Json>) -> Seq<char>
    decreases items.len(),
{
    if items.len() == 0 {
        Seq::empty()
    } else {
        (match part_text(items[0]) {
            Some(t) => t,
            None => Seq::empty(),
        }) + parts_text(items.drop_first())
    }
}

/// The text that a chunk of a streamed answer adds: taken from the `delta`
/// of the first choice (its string `content`, or the joined texts of its
/// array `content` when not empty), else from the first choice's
/// `message.content`; nothing when the chunk has no first choice with a `delta`.
pub open spec fn stream_delta_spec(v: Json) -> Option<Seq<char>> {
    match v.get("choices"@) {
        None => None,
        Some(choices) => match first_item(choices) {
            None => None,
            Some(choice) => match choice.get("delta"@) {
                None => None,
                Some(delta) => if delta.str_member("content"@) is Some {
                    delta.str_member("content"@)
                } else if delta.member("content"@) matches Json::Array(parts) && parts_text(parts).len() > 0 {
                    Some(parts_text(delta.member("content"@)->Array_0))
                } else {
                    choice.member("message"@).str_member("content"@)
                },
            },
        },
    }
}

/// The view of an optional string.
pub open spec fn opt_string(o: Option<String>) -> Option<Seq<char>> {
    match o {
        Some(s) => Some(s@),
        None => None,
    }
}

fn parts_text_exec(items: &Vec<JsonValue>) -> (r: String)
    ensures
        r@ == parts_text(crate::json::items_view(items@)),
{
    proof {
        crate::json::lemma_items_view_len(items@);
    }
    let ghost iv = crate::json::items_view(items@);
    let mut out = String::new();
    let n = items.len();
    let mut i: usize = 0;
    proof {
        reveal_strlit("");
        assert(iv.subrange(0, n as int) =~= iv);
    }
    while i < n
        invariant
            n == items@.len(),
            iv.len() == n,
            iv == crate::json::items_view(items@),
            forall|k: int| 0 <= k < n ==> #[trigger] iv[k] == crate::json::json_view(items@[k]),
            0 <= i <= n,
            parts_text(iv) == out@ + parts_text(iv.subrange(i as int, n as int)),
        decreases n - i,
    {
        let item = &items[i];
        let ghost rest = iv.subrange(i as int, n as int);
        assert(rest[0] == iv[i as int]);
        assert(rest.drop_first() =~= iv.subrange(i + 1, n as int));
        let piece: Option<&str> = match crate::json::str_member(item, "text") {
            Some(t) => Some(t),
            None => item.as_str(),
        };
        match piece {
            Some(t) => {
                let next = concat(out.as_str(), t);
                assert(out@ + parts_text(rest) == next@ + parts_text(iv.subrange(i + 1, n as int)));
                out = next;
            },
            None => {
                assert(parts_text(rest) == Seq::<char>::empty() + parts_text(iv.subrange(i + 1, n as int)));
                assert(Seq::<char>::empty() + parts_text(iv.subrange(i + 1, n as int)) =~= parts_text(iv.subrange(i + 1, n as int)));
            },
        }
        i = i + 1;
    }
    assert(out@ + parts_text(iv.subrange(n as int, n as int)) =~= out@);
    out
}

/// The text that a chunk of a streamed answer adds, as `stream_delta_spec` says.
pub fn extract_stream_delta(value: &JsonValue) -> (r: Option<String>)
    ensures
        opt_string(r) == stream_delta_spec(value@),
{
    let choices = match value.get("choices") {
        Some(c) => c,
        None => {
            return None;
        },
    };
    let choice = match choices.as_array() {
        Some(items) => {
            proof {
                crate::json::lemma_items_view_len(items@);
            }
            if items.len() > 0 {
                &items[0]
            } else {
                return None;
            }
        },
        None => {
            return None;
        },
    };
    assert(first_item(choices@) == Some(choice@));
    let delta = match choice.get("delta") {
        Some(d) => d,
        None => {
            return None;
        },
    };
    if let Some(content) = crate::json::str_member(delta, "content") {
        return Some(owned(content));
    }
    match delta.get("content") {
        Some(c) => match c.as_array() {
            Some(parts) => {
                let text = parts_text_exec(parts);
                if !text.as_str().is_empty() {
                    return Some(text);
                }
            },
            None => {},
        },
        None => {},
    }
    match choice.get("message") {
        Some(m) => match crate::json::str_member(m, "content") {
            Some(content) => Some(owned(content)),
            None => None,
        },
        None => None,
    }
}

/// The error of a request answered with a status other than success:
/// `status` as the status is written, and the body of the answer.
pub fn http_status_error(status: &str, body: &str, target: &ResolvedTranslationTarget, model: &str) -> (r: TranslationErrorInfo)
    ensures
        r@ == translation_error(
            "http_status"@,
            "Translation API returned HTTP "@ + status@ + ": "@ + body@,
            target.provider,
            target.resolved_url@,
            model@,
        ),
{
    let a = concat("Translation API returned HTTP ", status);
    let b = concat(a.as_str(), ": ");
    let message = concat(b.as_str(), body);
    build_error("http_status", message, target.provider, target.resolved_url.as_str(), model)
}

/// The error of a streamed answer that could not be read further.
pub fn stream_read_error(chain: &str, target: &ResolvedTranslationTarget, model: &str) -> (r: TranslationErrorInfo)
    ensures
        r@ == translation_error(
            "stream_read"@,
            "Failed to read the translation stream. Root cause: "@ + chain@,
            target.provider,
            target.resolved_url@,
            model@,
        ),
{
    let message = concat("Failed to read the translation stream. Root cause: ", chain);
    build_error("stream_read", message, target.provider, target.resolved_url.as_str(), model)
}

/// The view of a translation outcome.
pub open spec fn outcome_view(r: Result<String, TranslationErrorInfo>) -> Result<Seq<char>, TranslationErrorView> {
    match r {
        Ok(t) => Ok(t@),
        Err(e) => Err(e@),
    }
}

/// The outcome of a request whose answer was read as a chat answer with
/// `parsed` as the content of its first choice (nothing when it has no
/// choice), or could not be read, with `parsed` the text of the error chain:
/// the trimmed content, unless it is empty.
pub open spec fn once_outcome_spec(parsed: Result<Option<Seq<char>>, Seq<char>>, provider: TranslationProvider, url: Seq<char>, model: Seq<char>) -> Result<Seq<char>, TranslationErrorView> {
    match parsed {
        Err(chain) => Err(translation_error("response_parse"@, "Failed to parse translation response. Root cause: "@ + chain, provider, url, model)),
        Ok(content) => {
            let t = match content {
                Some(c) => trim(c),
                None => Seq::empty(),
            };
            if t.len() == 0 {
                Err(translation_error("response_parse"@, "The translation response was successful but empty."@, provider, url, model))
            } else {
                Ok(t)
            }
        },
    }
}

/// The outcome of a request once its answer was read, as `once_outcome_spec` says.
pub fn once_outcome(parsed: Result<Option<String>, String>, target: &ResolvedTranslationTarget, model: &str) -> (r: Result<String, TranslationErrorInfo>)
    ensures
        outcome_view(r) == once_outcome_spec(
            match parsed {
                Ok(c) => Ok(opt_string(c)),
                Err(e) => Err(e@),
            },
            target.provider,
            target.resolved_url@,
            model@,
        ),
{
    let url = target.resolved_url.as_str();
    match parsed {
        Err(chain) => {
            let message = concat("Failed to parse translation response. Root cause: ", chain.as_str());
            Err(build_error("response_parse", message, target.provider, url, model))
        },
        Ok(content) => {
            let t = match content {
                Some(c) => trim_str(c.as_str()),
                None => String::new(),
            };
            if t.as_str().is_empty() {
                Err(build_error("response_parse", owned("The translation response was successful but empty."), target.provider, url, model))
            } else {
                Ok(t)
            }
        },
    }
}

/// The view of a connectivity result.
pub struct TranslationConnectivityView {
    pub ok: bool,
    pub provider: Seq<char>,
    pub resolved_url: Seq<char>,
    pub model: Seq<char>,
    pub error_kind: Option<Seq<char>>,
    pub message: Seq<char>,
}

impl View for TranslationConnectivityResult {
    type V = TranslationConnectivityView;

    open spec fn view(&self) -> TranslationConnectivityView {
        TranslationConnectivityView {
            ok: self.ok,
            provider: self.provider@,
            resolved_url: self.resolved_url@,
            model: self.model@,
            error_kind: opt_string(self.error_kind),
            message: self.message@,
        }
    }
}

/// The failed connectivity result for an error.
pub open spec fn connectivity_failure_view(e: TranslationErrorView) -> TranslationConnectivityView {
    TranslationConnectivityView {
        ok: false,
        provider: e.provider,
        resolved_url: e.resolved_url,
        model: e.model,
        error_kind: Some(e.kind),
        message: e.message,
    }
}

/// The failed connectivity result that reports `error`.
pub fn connectivity_failure(error: TranslationErrorInfo) -> (r: TranslationConnectivityResult)
    ensures
        r@ == connectivity_failure_view(error@),
{
    TranslationConnectivityResult {
        ok: false,
        provider: error.provider,
        resolved_url: error.resolved_url,
        model: error.model,
        error_kind: Some(error.kind),
        message: error.message,
    }
}

/// The result of a connectivity check of `target` once its probe request
/// (`ping`, with the prompt `Reply with OK only.`) has ended with `probe`.
pub fn connectivity_outcome(target: ResolvedTranslationTarget, model: &str, probe: Result<String, TranslationErrorInfo>) -> (r: TranslationConnectivityResult)
    ensures
        match probe {
            Ok(_) => r@ == (TranslationConnectivityView {
                ok: true,
                provider: provider_name(target.provider),
                resolved_url: target.resolved_url@,
                model: model@,
                error_kind: None,
                message: "Translation connectivity check passed."@,
            }),
            Err(e) => r@ == connectivity_failure_view(e@),
        },
{
    match probe {
        Ok(_) => TranslationConnectivityResult {
            ok: true,
            provider: owned(target.provider.as_str()),
            resolved_url: target.resolved_url,
            model: owned(model),
            error_kind: None,
            message: owned("Translation connectivity check passed."),
        },
        Err(e) => connectivity_failure(e),
    }
}

/// The body of a chat-completions request for `text`, as JSON text.
pub fn build_request_text(config: &ChatTranslationConfig, text: &str, override_prompt: Option<&str>, stream: bool) -> (r: String)
    ensures
        r@ == json_text_spec(
            request_json(
                config.model@,
                system_prompt_spec(config.system_prompt@, config.target_language@, opt_text(override_prompt)),
                text@,
                stream,
            ),
        ),
{
    let body = build_request(config, text, override_prompt, stream);
    json_text(&body)
}

} // verus!
