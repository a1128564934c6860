//! The subtitle segments of a recording session: how each recognised
//! sentence updates its segment, what is shown, what is reported, and which
//! final sentences are saved.

use vstd::prelude::*;

use std::collections::BTreeMap;

use crate::asr::{opt_view, AsrSegmentUpdate, SegmentUpdateView, PROVIDER};
use crate::subtitle::{clock_time_shape, local_time_text, SubtitleEntry};
use crate::text::{is_blank, owned, trim, trim_str};

verus! {

broadcast use {vstd::std_specs::btree::group_btree_axioms, vstd::laws_cmp::group_laws_cmp};

/// Whether a segment is still being recognised.
#[derive(Clone, Copy, Debug, PartialEq, Eq, Structural)]
pub enum SegmentState {
    Streaming,
    Final,
}

/// Where the translation of a segment stands.
#[derive(Clone, Copy, Debug, PartialEq, Eq, Structural)]
pub enum TranslationStatus {
    Idle,
    Streaming,
    Completed,
    Failed,
}

/// A segment as the user interface shows it.
#[derive(Debug)]
pub struct SubtitleSegmentPayload {
    pub segment_id: u64,
    pub session_id: u64,
    pub timestamp: String,
    pub original_text: String,
    pub translated_text: Option<String>,
    pub translated_draft_text: Option<String>,
    pub state: SegmentState,
    pub is_final: bool,
    pub revision: u32,
    pub translation_error: bool,
    pub translation_status: TranslationStatus,
    pub translation_started_at: Option<i64>,
    pub translation_finished_at: Option<i64>,
}

/// An error as the user interface is told of it.
#[derive(Debug)]
pub struct SubtitleErrorPayload {
    pub scope: String,
    pub message: String,
    pub segment_id: Option<u64>,
    pub error_kind: Option<String>,
    pub provider: Option<String>,
    pub resolved_url: Option<String>,
}

/// What the session knows of one segment.
#[derive(Debug)]
pub struct SegmentRecord {
    pub segment_id: u64,
    pub session_id: u64,
    pub timestamp: String,
    pub original_text: String,
    pub translated_text: Option<String>,
    pub translated_draft_text: Option<String>,
    pub state: SegmentState,
    pub revision: u32,
    pub translation_error: bool,
    pub translation_status: TranslationStatus,
    pub translation_started_at: Option<i64>,
    pub translation_finished_at: Option<i64>,
    pub saved_final: bool,
}

/// The view of a [`SegmentRecord`].
pub struct SegmentView {
    pub segment_id: u64,
    pub session_id: u64,
    pub timestamp: Seq<char>,
    pub original_text: Seq<char>,
    pub translated_text: Option<Seq<char>>,
    pub translated_draft_text: Option<Seq<char>>,
    pub state: SegmentState,
    pub revision: u32,
    pub translation_error: bool,
    pub translation_status: TranslationStatus,
    pub translation_started_at: Option<i64>,
    pub translation_finished_at: Option<i64>,
    pub saved_final: bool,
}

impl View for SegmentRecord {
    type V = SegmentView;

    open spec fn view(&self) -> SegmentView {
        SegmentView {
            segment_id: self.segment_id,
            session_id: self.session_id,
            timestamp: self.timestamp@,
            original_text: self.original_text@,
            translated_text: opt_view(self.translated_text),
            translated_draft_text: opt_view(self.translated_draft_text),
            state: self.state,
            revision: self.revision,
            translation_error: self.translation_error,
            translation_status: self.translation_status,
            translation_started_at: self.translation_started_at,
            translation_finished_at: self.translation_finished_at,
            saved_final: self.saved_final,
        }
    }
}

/// Whether `p` shows the segment `s`.
pub open spec fn shows(p: SubtitleSegmentPayload, s: SegmentView) -> bool {
    &&& p.segment_id == s.segment_id
    &&& p.session_id == s.session_id
    &&& p.timestamp@ == s.timestamp
    &&& p.original_text@ == s.original_text
    &&& opt_view(p.translated_text) == s.translated_text
    &&& opt_view(p.translated_draft_text) == s.translated_draft_text
    &&& p.state == s.state
    &&& p.is_final == (s.state == SegmentState::Final)
    &&& p.revision == s.revision
    &&& p.translation_error == s.translation_error
    &&& p.translation_status == s.translation_status
    &&& p.translation_started_at == s.translation_started_at
    &&& p.translation_finished_at == s.translation_finished_at
}

fn copy_opt(o: &Option<String>) -> (r: Option<String>)
    ensures
        opt_view(r) == opt_view(*o),
{
    match o {
        Some(s) => Some(s.clone()),
        None => None,
    }
}

impl SegmentRecord {
    /// The segment as the user interface shows it.
    pub fn to_payload(&self) -> (r: SubtitleSegmentPayload)
        ensures
            shows(r, self@),
    {
        SubtitleSegmentPayload {
            segment_id: self.segment_id,
            session_id: self.session_id,
            timestamp: self.timestamp.clone(),
            original_text: self.original_text.clone(),
            translated_text: copy_opt(&self.translated_text),
            translated_draft_text: copy_opt(&self.translated_draft_text),
            state: self.state,
            is_final: self.state == SegmentState::Final,
            revision: self.revision,
            translation_error: self.translation_error,
            translation_status: self.translation_status,
            translation_started_at: self.translation_started_at,
            translation_finished_at: self.translation_finished_at,
        }
    }
}

/// The segments of one recording session, by sentence id.
#[derive(Debug)]
pub struct SubtitleSession {
    pub session_id: u64,
    pub segments: BTreeMap<u64, SegmentRecord>,
}

impl SubtitleSession {
    /// A session with no segments.
    pub fn new(session_id: u64) -> (r: SubtitleSession)
        ensures
            r.session_id == session_id,
            r.segments@ == Map::<u64, SegmentRecord>::empty(),
    {
        SubtitleSession { session_id, segments: BTreeMap::new() }
    }
}

/// The subtitles of the current recording session.
#[derive(Debug)]
pub struct SubtitleState {
    pub current: SubtitleSession,
}

impl SubtitleState {
    /// The state before any recording: session 1, empty.
    pub fn new() -> (r: SubtitleState)
        ensures
            r.current.session_id == 1,
            r.current.segments@ == Map::<u64, SegmentRecord>::empty(),
    {
        SubtitleState { current: SubtitleSession::new(1) }
    }
}

/// What a recording session was started with.
#[derive(Debug)]
pub struct SessionConfigSnapshot {
    pub translation_enabled: bool,
    pub auto_save: bool,
    pub asr_base_url: String,
}

/// What handling one recognised sentence asks the caller to do: show the
/// segment, announce a final sentence and its translation, report a missing
/// translation, and save a final sentence.
#[derive(Debug)]
pub struct AsrResultEffects {
    pub upsert: Option<SubtitleSegmentPayload>,
    pub legacy_original: Option<String>,
    pub legacy_translated: Option<String>,
    pub translation_error: Option<SubtitleErrorPayload>,
    pub save_entry: Option<SubtitleEntry>,
}

/// Whether `e` asks for nothing.
pub open spec fn no_effects(e: AsrResultEffects) -> bool {
    e.upsert is None && e.legacy_original is None && e.legacy_translated is None && e.translation_error is None
        && e.save_entry is None
}

/// A segment not seen before in this session.
pub open spec fn fresh_segment(id: u64, session_id: u64, timestamp: Seq<char>) -> SegmentView {
    SegmentView {
        segment_id: id,
        session_id,
        timestamp,
        original_text: Seq::empty(),
        translated_text: None,
        translated_draft_text: None,
        state: SegmentState::Streaming,
        revision: 0,
        translation_error: false,
        translation_status: TranslationStatus::Idle,
        translation_started_at: None,
        translation_finished_at: None,
        saved_final: false,
    }
}

/// The trimmed translation, when it is not blank.
pub open spec fn trimmed_translation(t: Option<Seq<char>>) -> Option<Seq<char>> {
    match t {
        Some(x) => if trim(x).len() == 0 {
            None
        } else {
            Some(trim(x))
        },
        None => None,
    }
}

/// Whether a sentence carries neither text nor translation.
pub open spec fn is_empty_update(u: SegmentUpdateView) -> bool {
    trim(u.original_text).len() == 0 && trimmed_translation(u.translated_text) is None
}

/// `r + 1`, or `r` at the largest `u32`.
pub open spec fn sat_inc(r: u32) -> u32 {
    if r == u32::MAX {
        r
    } else {
        (r + 1) as u32
    }
}

/// The segment `prev` once the sentence `u` has arrived at time `now`.
pub open spec fn next_segment(prev: SegmentView, u: SegmentUpdateView, translation_enabled: bool, auto_save: bool, now: i64) -> SegmentView {
    let tr = trimmed_translation(u.translated_text);
    let started = if prev.translation_started_at is None {
        Some(now)
    } else {
        prev.translation_started_at
    };
    let base = SegmentView {
        original_text: trim(u.original_text),
        state: if u.is_final {
            SegmentState::Final
        } else {
            SegmentState::Streaming
        },
        revision: sat_inc(prev.revision),
        saved_final: prev.saved_final || (u.is_final && auto_save),
        ..prev
    };
    if translation_enabled {
        match tr {
            Some(t) => if u.is_final {
                SegmentView {
                    translation_started_at: started,
                    translated_text: Some(t),
                    translated_draft_text: None,
                    translation_status: TranslationStatus::Completed,
                    translation_error: false,
                    translation_finished_at: Some(now),
                    ..base
                }
            } else {
                SegmentView {
                    translation_started_at: started,
                    translated_text: None,
                    translated_draft_text: Some(t),
                    translation_status: TranslationStatus::Streaming,
                    translation_error: false,
                    translation_finished_at: None,
                    ..base
                }
            },
            None => if u.is_final {
                SegmentView {
                    translated_text: None,
                    translated_draft_text: None,
                    translation_status: TranslationStatus::Failed,
                    translation_error: true,
                    translation_finished_at: Some(now),
                    ..base
                }
            } else {
                SegmentView {
                    translated_text: None,
                    translated_draft_text: None,
                    translation_status: TranslationStatus::Idle,
                    translation_error: false,
                    translation_finished_at: None,
                    ..base
                }
            },
        }
    } else {
        SegmentView {
            translated_text: None,
            translated_draft_text: None,
            translation_status: TranslationStatus::Idle,
            translation_error: false,
            translation_started_at: None,
            translation_finished_at: None,
            ..base
        }
    }
}

/// The message reported for a final sentence without a translation.
pub open spec fn missing_translation_message() -> Seq<char> {
    "Gummy 已返回最终句，但没有给出对应译文，请检查语言对或服务端任务状态。"@
}

/// Whether `p` reports the missing translation of segment `id` of a session
/// that recognises at `url`.
pub open spec fn reports_missing_translation(p: SubtitleErrorPayload, id: u64, url: Seq<char>) -> bool {
    &&& p.scope@ == "translation"@
    &&& p.message@ == missing_translation_message()
    &&& p.segment_id == Some(id)
    &&& opt_view(p.error_kind) == Some("missing_final_translation"@)
    &&& opt_view(p.provider) == Some(PROVIDER@)
    &&& opt_view(p.resolved_url) == Some(url)
}

/// The segment that sentence `id` updates: the recorded one, or a fresh one
/// stamped `timestamp`.
pub open spec fn previous_segment(segments: Map<u64, SegmentRecord>, id: u64, session_id: u64, timestamp: Seq<char>) -> SegmentView {
    if segments.contains_key(id) {
        segments[id]@
    } else {
        fresh_segment(id, session_id, timestamp)
    }
}

fn inc_saturating(r: u32) -> (n: u32)
    ensures
        n == sat_inc(r),
{
    if r == u32::MAX {
        r
    } else {
        r + 1
    }
}

/// Whether handling sentence `update` of recording session `recording_session_id`
/// at time `now` (a new segment stamped `timestamp`) took `old_state` to
/// `new_state` and asked for `r`, as `apply_asr_update` says.
pub open spec fn applied(
    session_config: SessionConfigSnapshot,
    old_state: SubtitleState,
    new_state: SubtitleState,
    recording_session_id: u64,
    update: SegmentUpdateView,
    now: i64,
    timestamp: Seq<char>,
    r: AsrResultEffects,
) -> bool {
    ({
            let old_segments = old_state.current.segments@;
            let id = update.sentence_id;
            if old_state.current.session_id != recording_session_id || is_empty_update(update) {
                &&& new_state == old_state
                &&& no_effects(r)
            } else {
                let prev = previous_segment(old_segments, id, recording_session_id, timestamp);
                let next = next_segment(prev, update, session_config.translation_enabled, session_config.auto_save, now);
                let new_segments = new_state.current.segments@;
                &&& new_state.current.session_id == recording_session_id
                &&& new_segments.contains_key(id)
                &&& new_segments[id]@ == next
                &&& new_segments.remove(id) == old_segments.remove(id)
                &&& r.upsert matches Some(p) && shows(p, next)
                &&& opt_view(r.legacy_original) == (if update.is_final { Some(next.original_text) } else { None })
                &&& opt_view(r.legacy_translated) == (if update.is_final { next.translated_text } else { None })
                &&& (update.is_final && session_config.auto_save && !prev.saved_final) == (r.save_entry is Some)
                &&& (r.save_entry matches Some(e) ==> e.timestamp@ == next.timestamp && e.original@ == next.original_text
                    && opt_view(e.translated) == next.translated_text)
                &&& (update.is_final && session_config.translation_enabled && trimmed_translation(update.translated_text) is None)
                    == (r.translation_error is Some)
                &&& (r.translation_error matches Some(p) ==> reports_missing_translation(p, id, session_config.asr_base_url@))
            }
        })
}

/// Handles one recognised sentence of recording session `recording_session_id`
/// at time `now` (a new segment is stamped `timestamp`). A sentence of another
/// session, or one with neither text nor translation, changes nothing.
/// Otherwise its segment becomes `next_segment` of what it was; it is shown;
/// a final sentence is announced with its translation, saved once when
/// saving is on, and, when translation is on but none came, reported.
pub fn apply_asr_update(
    session_config: &SessionConfigSnapshot,
    subtitle_state: &mut SubtitleState,
    recording_session_id: u64,
    update: AsrSegmentUpdate,
    now: i64,
    timestamp: &str,
) -> (r: AsrResultEffects)
    ensures
        applied(*session_config, *old(subtitle_state), *final(subtitle_state), recording_session_id, update@, now, timestamp@, r),
{
    let none = AsrResultEffects { upsert: None, legacy_original: None, legacy_translated: None, translation_error: None, save_entry: None };
    if subtitle_state.current.session_id != recording_session_id {
        return none;
    }
    let original = trim_str(update.original_text.as_str());
    let translated: Option<String> = match &update.translated_text {
        Some(t) => {
            let tt = trim_str(t.as_str());
            if tt.as_str().is_empty() {
                None
            } else {
                Some(tt)
            }
        },
        None => None,
    };
    if original.as_str().is_empty() && translated.is_none() {
        return none;
    }
    let id = update.sentence_id;
    let session_id = subtitle_state.current.session_id;
    let existing = subtitle_state.current.segments.remove(&id);
    let mut segment = match existing {
        Some(rec) => rec,
        None => SegmentRecord {
            segment_id: id,
            session_id,
            timestamp: owned(timestamp),
            original_text: String::new(),
            translated_text: None,
            translated_draft_text: None,
            state: SegmentState::Streaming,
            revision: 0,
            translation_error: false,
            translation_status: TranslationStatus::Idle,
            translation_started_at: None,
            translation_finished_at: None,
            saved_final: false,
        },
    };
    let ghost prev = segment@;
    segment.original_text = original;
    segment.state = if update.is_final {
        SegmentState::Final
    } else {
        SegmentState::Streaming
    };
    segment.revision = inc_saturating(segment.revision);
    let mut translation_failure = false;
    if session_config.translation_enabled {
        match translated {
            Some(t) => {
                if segment.translation_started_at.is_none() {
                    segment.translation_started_at = Some(now);
                }
                if update.is_final {
                    segment.translated_text = Some(t);
                    segment.translated_draft_text = None;
                    segment.translation_status = TranslationStatus::Completed;
                    segment.translation_error = false;
                    segment.translation_finished_at = Some(now);
                } else {
                    segment.translated_text = None;
                    segment.translated_draft_text = Some(t);
                    segment.translation_status = TranslationStatus::Streaming;
                    segment.translation_error = false;
                    segment.translation_finished_at = None;
                }
            },
            None => {
                if update.is_final {
                    segment.translated_text = None;
                    segment.translated_draft_text = None;
                    segment.translation_status = TranslationStatus::Failed;
                    segment.translation_error = true;
                    segment.translation_finished_at = Some(now);
                    translation_failure = true;
                } else {
                    segment.translated_text = None;
                    segment.translated_draft_text = None;
                    segment.translation_status = TranslationStatus::Idle;
                    segment.translation_error = false;
                    segment.translation_finished_at = None;
                }
            },
        }
    } else {
        segment.translated_text = None;
        segment.translated_draft_text = None;
        segment.translation_status = TranslationStatus::Idle;
        segment.translation_error = false;
        segment.translation_started_at = None;
        segment.translation_finished_at = None;
    }
    let upsert = segment.to_payload();
    let mut legacy_original = None;
    let mut legacy_translated = None;
    let mut save_entry = None;
    if update.is_final {
        legacy_original = Some(segment.original_text.clone());
        legacy_translated = copy_opt(&segment.translated_text);
        if session_config.auto_save && !segment.saved_final {
            save_entry = Some(
                SubtitleEntry {
                    timestamp: segment.timestamp.clone(),
                    original: segment.original_text.clone(),
                    translated: copy_opt(&segment.translated_text),
                },
            );
            segment.saved_final = true;
        }
    }
    let translation_error = if translation_failure {
        Some(
            SubtitleErrorPayload {
                scope: owned("translation"),
                message: owned("Gummy 已返回最终句，但没有给出对应译文，请检查语言对或服务端任务状态。"),
                segment_id: Some(id),
                error_kind: Some(owned("missing_final_translation")),
                provider: Some(owned(PROVIDER)),
                resolved_url: Some(session_config.asr_base_url.clone()),
            },
        )
    } else {
        None
    };
    let ghost next = segment@;
    assert(next == next_segment(prev, update@, session_config.translation_enabled, session_config.auto_save, now));
    subtitle_state.current.segments.insert(id, segment);
    assert(subtitle_state.current.segments@.remove(id) =~= old(subtitle_state).current.segments@.remove(id));
    AsrResultEffects { upsert: Some(upsert), legacy_original, legacy_translated, translation_error, save_entry }
}

/// The current time in milliseconds since the Unix epoch, from
/// `chrono::Utc::now().timestamp_millis()`. It depends on the clock: nothing
/// is claimed of it.
#[verifier::external_body]
fn now_unix_ms() -> i64 {
    chrono::Utc::now().timestamp_millis()
}

/// Handles one recognised sentence at the current time, as `apply_asr_update`
/// says; a new segment is stamped with the local time, `%H:%M:%S`.
pub fn process_asr_result(
    session_config: &SessionConfigSnapshot,
    subtitle_state: &mut SubtitleState,
    recording_session_id: u64,
    update: AsrSegmentUpdate,
) -> (r: AsrResultEffects)
    ensures
        exists|now: i64, timestamp: Seq<char>|
            clock_time_shape(timestamp) && #[trigger] applied(
                *session_config,
                *old(subtitle_state),
                *final(subtitle_state),
                recording_session_id,
                update@,
                now,
                timestamp,
                r,
            ),
{
    let now = now_unix_ms();
    let timestamp = local_time_text("%H:%M:%S");
    apply_asr_update(session_config, subtitle_state, recording_session_id, update, now, timestamp.as_str())
}

/// A final sentence of the current session that carries text or a
/// translation, with saving on and not saved before, is always asked to be
/// saved, whether or not a translation came: the entry holds the trimmed
/// text and, when translation is on, the trimmed translation (none when it
/// is off or none came).
pub proof fn law_final_sentence_is_saved(
    cfg: SessionConfigSnapshot,
    s0: SubtitleState,
    s1: SubtitleState,
    session: u64,
    u: SegmentUpdateView,
    now: i64,
    ts: Seq<char>,
    r: AsrResultEffects,
)
    requires
        applied(cfg, s0, s1, session, u, now, ts, r),
        s0.current.session_id == session,
        u.is_final,
        trim(u.original_text).len() > 0 || trimmed_translation(u.translated_text) is Some,
        cfg.auto_save,
        !(s0.current.segments@.contains_key(u.sentence_id) && s0.current.segments@[u.sentence_id]@.saved_final),
    ensures
        r.save_entry matches Some(e) && e.original@ == trim(u.original_text) && opt_view(e.translated) == (if cfg.translation_enabled {
            trimmed_translation(u.translated_text)
        } else {
            None
        }),
{
}

/// A final sentence is saved at most once: once a step has asked to save
/// sentence `id`, a later step on the same sentence never asks again,
/// whatever it carries and whatever the settings.
pub proof fn law_final_sentence_saved_once(
    cfg1: SessionConfigSnapshot,
    cfg2: SessionConfigSnapshot,
    s0: SubtitleState,
    s1: SubtitleState,
    s2: SubtitleState,
    session: u64,
    u1: SegmentUpdateView,
    u2: SegmentUpdateView,
    now1: i64,
    now2: i64,
    ts1: Seq<char>,
    ts2: Seq<char>,
    r1: AsrResultEffects,
    r2: AsrResultEffects,
)
    requires
        applied(cfg1, s0, s1, session, u1, now1, ts1, r1),
        applied(cfg2, s1, s2, session, u2, now2, ts2, r2),
        u1.sentence_id == u2.sentence_id,
        r1.save_entry is Some,
    ensures
        r2.save_entry is None,
{
}

/// Handling a sentence never lowers the revision of a segment, and leaves
/// the revision of every other segment as it was.
pub proof fn law_revisions_never_decrease(
    cfg: SessionConfigSnapshot,
    s0: SubtitleState,
    s1: SubtitleState,
    session: u64,
    u: SegmentUpdateView,
    now: i64,
    ts: Seq<char>,
    r: AsrResultEffects,
    id: u64,
)
    requires
        applied(cfg, s0, s1, session, u, now, ts, r),
        s0.current.segments@.contains_key(id),
    ensures
        s1.current.segments@.contains_key(id),
        s1.current.segments@[id].revision >= s0.current.segments@[id].revision,
        id != u.sentence_id ==> s1.current.segments@[id]@ == s0.current.segments@[id]@,
{
    let old_segments = s0.current.segments@;
    let new_segments = s1.current.segments@;
    if !(s0.current.session_id != session || is_empty_update(u)) && id != u.sentence_id {
        assert(old_segments.remove(u.sentence_id).contains_key(id));
        assert(new_segments.remove(u.sentence_id)[id] == old_segments.remove(u.sentence_id)[id]);
    }
}

/// Whether every segment of the current session is stored under its own id
/// and belongs to that session.
pub open spec fn segments_well_keyed(st: SubtitleState) -> bool {
    forall|k: u64|
        #[trigger] st.current.segments@.contains_key(k) ==> st.current.segments@[k].segment_id == k
            && st.current.segments@[k].session_id == st.current.session_id
}

/// Handling a sentence keeps every segment stored under its own id and in
/// the current session.
pub proof fn law_segments_stay_keyed(
    cfg: SessionConfigSnapshot,
    s0: SubtitleState,
    s1: SubtitleState,
    session: u64,
    u: SegmentUpdateView,
    now: i64,
    ts: Seq<char>,
    r: AsrResultEffects,
)
    requires
        applied(cfg, s0, s1, session, u, now, ts, r),
        segments_well_keyed(s0),
    ensures
        segments_well_keyed(s1),
{
    let old_segments = s0.current.segments@;
    let new_segments = s1.current.segments@;
    if !(s0.current.session_id != session || is_empty_update(u)) {
        let id = u.sentence_id;
        assert forall|k: u64| #[trigger] new_segments.contains_key(k) implies new_segments[k].segment_id == k
            && new_segments[k].session_id == s1.current.session_id by {
            if k != id {
                assert(new_segments.remove(id).contains_key(k));
                assert(old_segments.remove(id).contains_key(k));
                assert(new_segments.remove(id)[k] == old_segments.remove(id)[k]);
            }
        }
    }
}

} // verus!
