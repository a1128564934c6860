//! The decisions of the application's commands: whether the settings are
//! ready, what starting a capture sets up, and what a failed session reports.

use vstd::prelude::*;

use crate::asr::{
    opt_view, runtime_config_check, validate_runtime_config, GummyErrorInfo, GummyErrorView,
};
use crate::config::AppConfig;
use crate::segments::{SessionConfigSnapshot, SubtitleErrorPayload, SubtitleSession, SubtitleState};
use crate::config::joined_path;
use crate::subtitle::{date_stamp_shape, session_file_name, SubtitleManager};
use crate::text::{owned, str_eq};

verus! {

/// Whether the settings are ready for a session, and why not.
#[derive(Debug)]
pub struct GummyConfigCheckResult {
    pub ready: bool,
    pub message: String,
}

/// Checks the settings of a session: ready with message `ok`, or not ready
/// with the message of the first problem.
pub fn check_gummy_config(config: &AppConfig) -> (r: GummyConfigCheckResult)
    ensures
        match runtime_config_check(config.asr, config.translation) {
            Ok(()) => r.ready && r.message@ == "ok"@,
            Err(e) => !r.ready && r.message@ == e.message,
        },
{
    match validate_runtime_config(&config.asr, &config.translation) {
        Ok(()) => GummyConfigCheckResult { ready: true, message: owned("ok") },
        Err(error) => GummyConfigCheckResult { ready: false, message: error.message },
    }
}

/// What starting a capture sets up: the new recording session, what it
/// was started with, the process to capture (none for all system audio),
/// and the directory to save into.
#[derive(Debug)]
pub struct CapturePlan {
    pub recording_session_id: u64,
    pub session_config: SessionConfigSnapshot,
    pub process_id: Option<u32>,
    pub save_path: String,
}

/// The process whose audio is captured: the configured one when the source
/// is `app`, else none.
pub open spec fn capture_process(config: AppConfig) -> Option<u32> {
    if config.capture.source@ == "app"@ {
        config.capture.app_pid
    } else {
        None
    }
}

/// Starts a recording session: checks the settings (the error is the
/// message of the first problem), then opens session `n + 1` after session
/// `n` with no segments, and a new subtitle file named after the current
/// time in the configured save directory (the caller creates the directory).
pub fn prepare_capture(config: &AppConfig, subtitle_state: &mut SubtitleState, manager: &mut SubtitleManager) -> (r: Result<CapturePlan, String>)
    requires
        runtime_config_check(config.asr, config.translation) is Ok ==> old(subtitle_state).current.session_id < u64::MAX,
    ensures
        match runtime_config_check(config.asr, config.translation) {
            Err(e) => r matches Err(m) && m@ == e.message && *final(subtitle_state) == *old(subtitle_state)
                && *final(manager) == *old(manager),
            Ok(()) => r matches Ok(plan) && {
                &&& plan.recording_session_id == old(subtitle_state).current.session_id + 1
                &&& final(subtitle_state).current.session_id == plan.recording_session_id
                &&& final(subtitle_state).current.segments@.len() == 0
                &&& plan.session_config.translation_enabled == config.translation.enabled
                &&& plan.session_config.auto_save == config.save.auto_save
                &&& plan.session_config.asr_base_url@ == config.asr.base_url@
                &&& plan.process_id == capture_process(*config)
                &&& plan.save_path@ == config.save.save_path@
                &&& final(manager).save_path() == config.save.save_path@
                &&& exists|stamp: Seq<char>|
                    date_stamp_shape(stamp) && final(manager).current_file() == Some(
                        #[trigger] joined_path(config.save.save_path@, session_file_name(stamp)),
                    )
            },
        },
{
    match validate_runtime_config(&config.asr, &config.translation) {
        Err(error) => {
            return Err(error.message);
        },
        Ok(()) => {},
    }
    let next_session_id = subtitle_state.current.session_id + 1;
    subtitle_state.current = SubtitleSession::new(next_session_id);
    *manager = SubtitleManager::new(config.save.save_path.as_str());
    manager.start_new_session();
    let process_id = if str_eq(config.capture.source.as_str(), "app") {
        config.capture.app_pid
    } else {
        None
    };
    Ok(
        CapturePlan {
            recording_session_id: next_session_id,
            session_config: SessionConfigSnapshot {
                translation_enabled: config.translation.enabled,
                auto_save: config.save.auto_save,
                asr_base_url: config.asr.base_url.clone(),
            },
            process_id,
            save_path: config.save.save_path.clone(),
        },
    )
}

/// The error report of a recognition session that failed with `err`.
pub fn asr_failure_payload(err: GummyErrorInfo) -> (r: SubtitleErrorPayload)
    ensures
        r.scope@ == "asr"@,
        r.message@ == err@.message,
        r.segment_id is None,
        opt_view(r.error_kind) == Some(err@.kind),
        opt_view(r.provider) == Some(err@.provider),
        opt_view(r.resolved_url) == Some(err@.resolved_url),
{
    SubtitleErrorPayload {
        scope: owned("asr"),
        message: err.message,
        segment_id: None,
        error_kind: Some(err.kind),
        provider: Some(err.provider),
        resolved_url: Some(err.resolved_url),
    }
}

} // verus!
