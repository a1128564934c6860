//! Core logic of a real-time bilingual subtitle desktop application: the
//! recognition service's language tables, the settings and their migration,
//! the recognition protocol and the decisions of a session, the subtitle
//! segments and their saving, the list of audio applications, and
//! translation through a chat-completions service.

pub mod text;
pub mod json;
pub mod gummy;
pub mod config;
pub mod asr;
pub mod asr_session;
pub mod segments;
pub mod subtitle;
pub mod control;
pub mod audio;
pub mod translation;
pub mod translation_stream;
