//! The daemon's log as the front-end reads it.
//!
//! The daemon writes one entry on each line: a time, a level and a
//! message, with colour codes among them. The front-end reads what was
//! added to the file since it last looked, and starts over where the file
//! has become shorter.

use vstd::prelude::*;
use crate::paths::opt_view;
use crate::state::{join_with_spaces, spaced, LogLevel};
use crate::text::{
    extend_range,
    from_chars,
    index_of,
    next_index_of,
    same_text,
    split_whitespace,
    to_chars,
    views,
    words,
};

verus! {

/// A point in time: seconds and nanoseconds since the epoch.
#[derive(Debug, Clone, Copy, PartialEq, Eq, Structural)]
pub struct Timestamp {
    pub seconds: i64,
    pub nanos: u32,
}

/// One entry of the log.
#[derive(Debug, Clone)]
pub struct LogEntry {
    /// When the entry was made.
    pub timestamp: Timestamp,
    /// How grave it is.
    pub level: LogLevel,
    /// What it says.
    pub message: String,
    /// The file it is about, where it names one.
    pub file: Option<String>,
    /// The rule it is about, where it names one.
    pub rule: Option<String>,
}

/// What a [`LogEntry`] says, with its texts as sequences of characters.
pub struct EntryView {
    pub timestamp: Timestamp,
    pub level: LogLevel,
    pub message: Seq<char>,
    pub file: Option<Seq<char>>,
    pub rule: Option<Seq<char>>,
}

impl View for LogEntry {
    type V = EntryView;

    open spec fn view(&self) -> EntryView {
        EntryView {
            timestamp: self.timestamp,
            level: self.level,
            message: self.message@,
            file: opt_view(self.file),
            rule: opt_view(self.rule),
        }
    }
}

/// The point in time that `chrono` reads in `text` as a date and time of
/// RFC 3339; `None` where `text` is none.
pub uninterp spec fn rfc3339_instant(text: Seq<char>) -> Option<(i64, u32)>;

/// `text` in upper case, as `str::to_uppercase` writes it.
pub uninterp spec fn uppercased(text: Seq<char>) -> Seq<char>;

/// `chrono::DateTime::parse_from_rfc3339`: the point in time that `text`
/// names, in seconds and nanoseconds since the epoch, or `None` where
/// `text` is no date and time of RFC 3339.
#[verifier::external_body]
fn parse_rfc3339(text: &str) -> (r: Option<(i64, u32)>)
    ensures
        r == rfc3339_instant(text@),
{
    chrono::DateTime::parse_from_rfc3339(text).ok().map(
        |t| (t.timestamp(), t.timestamp_subsec_nanos()),
    )
}

/// `str::to_uppercase`: `text` with each character replaced by its upper
/// case.
#[verifier::external_body]
fn to_uppercase(text: &str) -> (r: String)
    ensures
        r@ == uppercased(text@),
{
    text.to_uppercase()
}

/// A character that a colour code holds between its opening and its final
/// letter.
pub open spec fn is_code_char(c: char) -> bool {
    ('0' <= c && c <= '9') || c == ';'
}

/// An ASCII letter.
pub open spec fn is_letter(c: char) -> bool {
    ('a' <= c && c <= 'z') || ('A' <= c && c <= 'Z')
}

/// The least index at or after `pos` that holds neither a digit nor a
/// semicolon, or the length of `text`.
pub open spec fn code_end(text: Seq<char>, pos: int) -> int
    decreases text.len() - pos,
{
    if pos < 0 || pos >= text.len() {
        text.len() as int
    } else if is_code_char(text[pos]) {
        code_end(text, pos + 1)
    } else {
        pos
    }
}

/// Where the colour code that begins with the escape character at index
/// `i` ends, if one begins there: an escape character, `[`, digits and
/// semicolons, and one letter.
pub open spec fn code_at(text: Seq<char>, i: int) -> Option<int> {
    let e = code_end(text, i + 2);
    if 0 <= i && i + 1 < text.len() && text[i + 1] == '[' && i + 2 <= e < text.len() && is_letter(
        text[e],
    ) {
        Some(e + 1)
    } else {
        None
    }
}

/// `text` from index `pos` on, without its colour codes.
pub open spec fn stripped_from(text: Seq<char>, pos: int) -> Seq<char>
    decreases text.len() - pos,
{
    let i = next_index_of(text, '\u{1b}', pos);
    if pos < 0 || i < pos || i >= text.len() {
        text.skip(pos)
    } else {
        match code_at(text, i) {
            Some(end) => text.subrange(pos, i) + stripped_from(text, end),
            None => text.subrange(pos, i + 1) + stripped_from(text, i + 1),
        }
    }
}

/// Executable form of [`code_at`].
fn find_code(text: &Vec<char>, i: usize) -> (r: Option<usize>)
    requires
        i < text.len(),
    ensures
        match r {
            Some(end) => code_at(text@, i as int) == Some(end as int) && i < end <= text.len(),
            None => code_at(text@, i as int) is None,
        },
{
    if i + 1 >= text.len() || text[i + 1] != '[' {
        return None;
    }
    let mut e: usize = i + 2;
    while e < text.len() && (('0' <= text[e] && text[e] <= '9') || text[e] == ';')
        invariant
            i + 2 <= e <= text.len(),
            code_end(text@, i + 2) == code_end(text@, e as int),
        decreases text.len() - e,
    {
        e += 1;
    }
    if e < text.len() && (('a' <= text[e] && text[e] <= 'z') || ('A' <= text[e] && text[e] <= 'Z')) {
        Some(e + 1)
    } else {
        None
    }
}

/// Removes the colour codes from `s`.
pub fn strip_ansi_codes(s: &str) -> (r: String)
    ensures
        r@ == stripped_from(s@, 0),
{
    let text = to_chars(s);
    let mut out: Vec<char> = Vec::new();
    let mut pos: usize = 0;
    loop
        invariant
            pos <= text.len(),
            text@ == s@,
            stripped_from(s@, 0) == out@ + stripped_from(text@, pos as int),
        decreases text.len() - pos,
    {
        let ghost before = out@;
        let ghost rest = stripped_from(text@, pos as int);
        assert(text@.take(text@.len() as int) =~= text@);
        let i = index_of(&text, '\u{1b}', pos, text.len());
        if i >= text.len() {
            extend_range(&mut out, &text, pos, text.len());
            assert(text@.subrange(pos as int, text@.len() as int) =~= text@.skip(pos as int));
            return from_chars(&out);
        }
        match find_code(&text, i) {
            Some(end) => {
                extend_range(&mut out, &text, pos, i);
                let ghost piece = text@.subrange(pos as int, i as int);
                assert(rest == piece + stripped_from(text@, end as int));
                assert(before + (piece + stripped_from(text@, end as int)) =~= (before + piece)
                    + stripped_from(text@, end as int));
                pos = end;
            },
            None => {
                extend_range(&mut out, &text, pos, i + 1);
                let ghost piece = text@.subrange(pos as int, i + 1);
                assert(rest == piece + stripped_from(text@, i + 1));
                assert(before + (piece + stripped_from(text@, i + 1)) =~= (before + piece)
                    + stripped_from(text@, i + 1));
                pos = i + 1;
            },
        }
    }
}

/// The level that a word of the log names, in upper case. Debugging and
/// tracing count as information, and so does every word that names no
/// level.
pub open spec fn level_named(upper: Seq<char>) -> LogLevel {
    if upper == "WARN"@ || upper == "WARNING"@ {
        LogLevel::Warning
    } else if upper == "ERROR"@ {
        LogLevel::Error
    } else {
        LogLevel::Info
    }
}

/// What a line of the log holds, read at the time `now`: nothing for a
/// line of fewer than two words; else the time that the first word names,
/// or `now` where it names none, the level that the second word names, and
/// the other words as the message.
pub open spec fn entry_in(line: Seq<char>, now: Timestamp) -> Option<EntryView> {
    let w = words(line);
    if w.len() < 2 {
        None
    } else {
        Some(
            EntryView {
                timestamp: match rfc3339_instant(w[0]) {
                    Some((seconds, nanos)) => Timestamp { seconds, nanos },
                    None => now,
                },
                level: level_named(uppercased(w[1])),
                message: spaced(w.skip(2), w.len() - 2),
                file: None,
                rule: None,
            },
        )
    }
}

/// The entries that the lines of `content` hold from index `pos` on, each
/// line read without its colour codes.
pub open spec fn entries_from(content: Seq<char>, pos: int, now: Timestamp) -> Seq<EntryView>
    decreases content.len() + 1 - pos,
{
    if pos < 0 || pos > content.len() {
        Seq::empty()
    } else {
        let e = next_index_of(content, '\n', pos);
        let rest = if pos <= e < content.len() {
            entries_from(content, e + 1, now)
        } else {
            Seq::empty()
        };
        match entry_in(stripped_from(content.subrange(pos, e), 0), now) {
            Some(entry) => seq![entry] + rest,
            None => rest,
        }
    }
}

/// What the entries of a log say.
pub open spec fn entry_views(entries: Seq<LogEntry>) -> Seq<EntryView> {
    Seq::new(entries.len(), |i: int| entries[i]@)
}

/// The last `n` of `entries`, or all of them where there are fewer.
pub open spec fn latest(entries: Seq<EntryView>, n: int) -> Seq<EntryView> {
    if entries.len() > n && n >= 0 {
        entries.skip(entries.len() - n)
    } else {
        entries
    }
}

/// Reads one line of the daemon's log.
pub fn parse_daemon_log_line(line: &str, now: Timestamp) -> (r: Option<LogEntry>)
    ensures
        match r {
            Some(e) => entry_in(line@, now) == Some(e@),
            None => entry_in(line@, now) is None,
        },
{
    let mut parts = split_whitespace(&to_chars(line));
    if parts.len() < 2 {
        return None;
    }
    let ghost w = views(parts@);
    let timestamp = match parse_rfc3339(parts[0].as_str()) {
        Some((seconds, nanos)) => Timestamp { seconds, nanos },
        None => now,
    };
    let upper = to_uppercase(parts[1].as_str());
    let level = if same_text(upper.as_str(), "WARN") || same_text(upper.as_str(), "WARNING") {
        LogLevel::Warning
    } else if same_text(upper.as_str(), "ERROR") {
        LogLevel::Error
    } else {
        LogLevel::Info
    };
    assert(w[0] == parts@[0]@);
    assert(w[1] == parts@[1]@);
    parts.remove(0);
    parts.remove(0);
    assert(views(parts@) =~= w.skip(2));
    let message = join_with_spaces(&parts);
    Some(LogEntry { timestamp, level, message, file: None, rule: None })
}

/// Where in the log file the front-end has read to.
#[derive(Debug, Clone, Copy, PartialEq, Eq, Structural)]
pub struct LogTail {
    /// The number of bytes read so far.
    pub position: u64,
}

/// What to do with a log file of a given length.
#[derive(Debug, Clone, Copy, PartialEq, Eq, Structural)]
pub struct TailPlan {
    /// The file has become shorter: it was truncated or rotated. The
    /// entries read so far are dropped and reading starts over.
    pub reset: bool,
    /// Where to read from, where there is something to read.
    pub read_from: Option<u64>,
}

impl LogTail {
    /// A tail that has read nothing.
    pub fn new() -> (r: Self)
        ensures
            r.position == 0,
    {
        LogTail { position: 0 }
    }

    /// What to do with a log file of `file_len` bytes.
    pub fn plan(&self, file_len: u64) -> (r: TailPlan)
        ensures
            r.reset == (file_len < self.position),
            r.read_from == (if file_len < self.position {
                if file_len == 0 {
                    None
                } else {
                    Some(0u64)
                }
            } else if file_len == self.position {
                None
            } else {
                Some(self.position)
            }),
    {
        let reset = file_len < self.position;
        let from = if reset {
            0
        } else {
            self.position
        };
        TailPlan {
            reset,
            read_from: if file_len == from {
                None
            } else {
                Some(from)
            },
        }
    }
}

} // verus!
