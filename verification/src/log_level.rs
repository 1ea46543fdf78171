//! The log level that a command-line word names.

use vstd::prelude::*;
use vstd::string::StrSliceExecFns;

verus! {

/// How much is logged.
#[derive(Clone, Copy, Debug, PartialEq, Eq, Structural)]
pub enum LogLevel {
    Trace,
    Debug,
    Info,
    Warn,
    Error,
    Off,
}

/// The code of a character, with the upper-case letters `A` to `Z` taken as
/// their lower-case forms.
pub open spec fn ascii_lowercase_code(c: char) -> int {
    if 'A' <= c && c <= 'Z' {
        c as int + 32
    } else {
        c as int
    }
}

/// Whether `text`, with its letters `A` to `Z` in lower case, is `word`.
pub open spec fn lowercase_is(text: Seq<char>, word: Seq<char>) -> bool {
    &&& text.len() == word.len()
    &&& forall|i: int| 0 <= i < text.len() ==> ascii_lowercase_code(#[trigger] text[i]) == word[i] as int
}

/// The level that `level` names, whatever the case of its letters: one of
/// `trace`, `debug`, `info`, `warn`, `error` and `none`. Any other word names
/// `Info`.
pub open spec fn log_level_of(level: Seq<char>) -> LogLevel {
    if lowercase_is(level, "trace"@) {
        LogLevel::Trace
    } else if lowercase_is(level, "debug"@) {
        LogLevel::Debug
    } else if lowercase_is(level, "info"@) {
        LogLevel::Info
    } else if lowercase_is(level, "warn"@) {
        LogLevel::Warn
    } else if lowercase_is(level, "error"@) {
        LogLevel::Error
    } else if lowercase_is(level, "none"@) {
        LogLevel::Off
    } else {
        LogLevel::Info
    }
}

/// Whether `text`, with its letters `A` to `Z` in lower case, is `word`.
fn is_word(text: &str, word: &str) -> (r: bool)
    ensures
        r == lowercase_is(text@, word@),
{
    let length: usize = text.unicode_len();
    if length != word.unicode_len() {
        return false;
    }
    let mut at: usize = 0;
    while at < length
        invariant
            at <= length,
            length == text@.len(),
            length == word@.len(),
            forall|i: int| 0 <= i < at ==> ascii_lowercase_code(#[trigger] text@[i]) == word@[i] as int,
        decreases length - at,
    {
        let given: u32 = text.get_char(at) as u32;
        let wanted: u32 = word.get_char(at) as u32;
        let lowered: u32 = if 65 <= given && given <= 90 {
            given + 32
        } else {
            given
        };
        if lowered != wanted {
            return false;
        }
        at += 1;
    }
    true
}

/// The log level that a command-line word names.
pub fn parse_log_level(level: &str) -> (r: LogLevel)
    ensures
        r == log_level_of(level@),
{
    if is_word(level, "trace") {
        LogLevel::Trace
    } else if is_word(level, "debug") {
        LogLevel::Debug
    } else if is_word(level, "info") {
        LogLevel::Info
    } else if is_word(level, "warn") {
        LogLevel::Warn
    } else if is_word(level, "error") {
        LogLevel::Error
    } else if is_word(level, "none") {
        LogLevel::Off
    } else {
        LogLevel::Info
    }
}

} // verus!
