//! Subtitle sessions on disk: which file a recording session writes to, and
//! the text that each saved subtitle adds to it. The caller does the writing.

use vstd::prelude::*;

use crate::config::{joined_path, path_join};
use crate::text::{concat, owned};

verus! {

/// A subtitle to save: when it was first seen, what was said, and its translation.
#[derive(Debug)]
pub struct SubtitleEntry {
    pub timestamp: String,
    pub original: String,
    pub translated: Option<String>,
}

/// The directory that subtitles are saved into, and the file of the current session.
#[derive(Debug)]
pub struct SubtitleManager {
    save_path: String,
    current_file: Option<String>,
}

/// A write that saving a subtitle asks for: append `text` to the file `path`.
#[derive(Debug)]
pub struct PendingWrite {
    pub path: String,
    pub text: String,
}

/// Whether `c` is a decimal digit.
pub open spec fn is_digit(c: char) -> bool {
    '0' <= c && c <= '9'
}

/// Whether `t` has the form `HH:MM:SS` (two digits each, colons between).
pub open spec fn clock_time_shape(t: Seq<char>) -> bool {
    &&& t.len() == 8
    &&& is_digit(t[0]) && is_digit(t[1]) && t[2] == ':'
    &&& is_digit(t[3]) && is_digit(t[4]) && t[5] == ':'
    &&& is_digit(t[6]) && is_digit(t[7])
}

/// Whether `t` has the form `YYYY-MM-DD_HH-MM-SS`: a year of at least four
/// characters, then `-MM-DD_HH-MM-SS` with two digits in each field.
pub open spec fn date_stamp_shape(t: Seq<char>) -> bool {
    let n = t.len() as int;
    &&& n >= 19
    &&& t[n - 15] == '-' && is_digit(t[n - 14]) && is_digit(t[n - 13])
    &&& t[n - 12] == '-' && is_digit(t[n - 11]) && is_digit(t[n - 10])
    &&& t[n - 9] == '_' && is_digit(t[n - 8]) && is_digit(t[n - 7])
    &&& t[n - 6] == '-' && is_digit(t[n - 5]) && is_digit(t[n - 4])
    &&& t[n - 3] == '-' && is_digit(t[n - 2]) && is_digit(t[n - 1])
}

/// The current local time written with the `chrono` format `fmt`, from
/// `chrono::Local::now().format(fmt)`. Writing a format that `chrono` cannot
/// read panics, so only the two formats that this library uses are admitted.
/// The time itself depends on the clock; the contract claims only the form
/// that `chrono` documents for these formats: `%H`, `%M`, `%S`, `%m` and `%d`
/// are two digits each, and `%Y` is a year of at least four characters.
#[verifier::external_body]
pub(crate) fn local_time_text(fmt: &str) -> (r: String)
    requires
        fmt@ == "%H:%M:%S"@ || fmt@ == "%Y-%m-%d_%H-%M-%S"@,
    ensures
        fmt@ == "%H:%M:%S"@ ==> clock_time_shape(r@),
        fmt@ == "%Y-%m-%d_%H-%M-%S"@ ==> date_stamp_shape(r@),
{
    chrono::Local::now().format(fmt).to_string()
}

/// The file name of a session that started at `stamp`.
pub open spec fn session_file_name(stamp: Seq<char>) -> Seq<char> {
    "字幕_"@ + stamp + ".txt"@
}

/// The line `[timestamp] text` and its line break.
pub open spec fn subtitle_line(timestamp: Seq<char>, text: Seq<char>) -> Seq<char> {
    "["@ + timestamp + "] "@ + text + "\n"@
}

/// The text that saving `e` appends: the original line, the translated line
/// when there is one, and a blank line.
pub open spec fn entry_text_spec(timestamp: Seq<char>, original: Seq<char>, translated: Option<Seq<char>>) -> Seq<char> {
    subtitle_line(timestamp, original) + match translated {
        Some(t) => subtitle_line(timestamp, t),
        None => Seq::empty(),
    } + "\n"@
}

/// The view of an optional string.
pub open spec fn opt_str(o: Option<String>) -> Option<Seq<char>> {
    match o {
        Some(s) => Some(s@),
        None => None,
    }
}

fn subtitle_line_text(timestamp: &str, text: &str) -> (r: String)
    ensures
        r@ == subtitle_line(timestamp@, text@),
{
    let a = concat("[", timestamp);
    let b = concat(a.as_str(), "] ");
    let c = concat(b.as_str(), text);
    concat(c.as_str(), "\n")
}

/// The text that saving `entry` appends to the session file.
pub fn entry_text(entry: &SubtitleEntry) -> (r: String)
    ensures
        r@ == entry_text_spec(entry.timestamp@, entry.original@, opt_str(entry.translated)),
{
    let first = subtitle_line_text(entry.timestamp.as_str(), entry.original.as_str());
    let with_translation = match &entry.translated {
        Some(t) => {
            let second = subtitle_line_text(entry.timestamp.as_str(), t.as_str());
            concat(first.as_str(), second.as_str())
        },
        None => first,
    };
    assert(opt_str(entry.translated) is None ==> with_translation@ =~= subtitle_line(entry.timestamp@, entry.original@) + Seq::<char>::empty());
    concat(with_translation.as_str(), "\n")
}

impl SubtitleManager {
    /// The directory that subtitles are saved into.
    pub closed spec fn save_path(&self) -> Seq<char> {
        self.save_path@
    }

    /// The file of the current session, if one was started.
    pub closed spec fn current_file(&self) -> Option<Seq<char>> {
        opt_str(self.current_file)
    }

    /// A manager that saves into `save_path`, with no session yet. The caller
    /// creates the directory.
    pub fn new(save_path: &str) -> (r: SubtitleManager)
        ensures
            r.save_path() == save_path@,
            r.current_file() is None,
    {
        SubtitleManager { save_path: owned(save_path), current_file: None }
    }

    /// Starts a session whose file is named after `stamp`, in the save directory.
    pub fn start_new_session_at(&mut self, stamp: &str)
        ensures
            final(self).save_path() == old(self).save_path(),
            final(self).current_file() == Some(joined_path(old(self).save_path(), session_file_name(stamp@))),
    {
        let a = concat("字幕_", stamp);
        let name = concat(a.as_str(), ".txt");
        let path = path_join(self.save_path.as_str(), name.as_str());
        self.current_file = Some(path);
    }

    /// Starts a session whose file is named after the current local time,
    /// written `%Y-%m-%d_%H-%M-%S`.
    pub fn start_new_session(&mut self)
        ensures
            final(self).save_path() == old(self).save_path(),
            exists|stamp: Seq<char>|
                date_stamp_shape(stamp) && final(self).current_file() == Some(
                    #[trigger] joined_path(old(self).save_path(), session_file_name(stamp)),
                ),
    {
        let stamp = local_time_text("%Y-%m-%d_%H-%M-%S");
        self.start_new_session_at(stamp.as_str());
    }

    /// Saves into `new_path` from now on; the current session keeps its file.
    /// The caller creates the directory.
    pub fn update_save_path(&mut self, new_path: &str)
        ensures
            final(self).save_path() == new_path@,
            final(self).current_file() == old(self).current_file(),
    {
        self.save_path = owned(new_path);
    }

    /// The write that saving `entry` asks for, or the error of a manager with
    /// no session.
    pub fn save_entry(&self, entry: &SubtitleEntry) -> (r: Result<PendingWrite, String>)
        ensures
            match r {
                Ok(w) => self.current_file() == Some(w.path@)
                    && w.text@ == entry_text_spec(entry.timestamp@, entry.original@, opt_str(entry.translated)),
                Err(m) => self.current_file() is None && m@ == "No active session"@,
            },
    {
        match &self.current_file {
            Some(f) => Ok(PendingWrite { path: f.clone(), text: entry_text(entry) }),
            None => Err(owned("No active session")),
        }
    }

    /// The directory that subtitles are saved into.
    pub fn get_save_path(&self) -> (r: String)
        ensures
            r@ == self.save_path(),
    {
        self.save_path.clone()
    }

    /// The file of the current session, if one was started.
    pub fn get_current_file(&self) -> (r: Option<String>)
        ensures
            opt_str(r) == self.current_file(),
    {
        match &self.current_file {
            Some(f) => Some(f.clone()),
            None => None,
        }
    }
}

} // verus!
