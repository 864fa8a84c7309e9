//! Expansion of what a configuration writes into what an action uses:
//! `~` and environment variables in paths, and the placeholders `{path}`,
//! `{dir}`, `{name}`, `{filename}`, `{ext}`, `{date}`, `{datetime}` and
//! `{date:FORMAT}` in patterns.

use vstd::prelude::*;
use std::fmt::Write;
use crate::paths::{
    extension,
    extension_of,
    file_name,
    file_name_of,
    file_stem,
    file_stem_of,
    join,
    joined,
    opt_view,
    parent,
    parent_of,
};
use crate::text::{
    extend_range,
    find_from,
    first_occurrence,
    from_chars,
    has_occurrence,
    index_of,
    lemma_first_occurrence,
    next_index_of,
    replace,
    replaced,
    same_text,
    substring,
    to_chars,
};

verus! {

/// A point in time with the offset of the local time zone: seconds and
/// nanoseconds since the epoch, and the seconds that local time is ahead of
/// UTC.
#[derive(Debug, Clone, Copy, PartialEq, Eq, Structural)]
pub struct Moment {
    pub seconds: i64,
    pub nanos: u32,
    pub offset: i32,
}

/// What `chrono` writes for the given time under the `strftime` format
/// `format`; `None` where the time is out of chrono's range or the format
/// is not one that chrono accepts.
pub uninterp spec fn time_text(seconds: i64, nanos: u32, offset: i32, format: Seq<char>) -> Option<
    Seq<char>,
>;

/// `chrono::DateTime::format`, on the time that `at` holds, taken as local
/// time at the offset that `at` holds. The result is what chrono writes,
/// or `None` where chrono rejects the time, the offset or the format.
#[verifier::external_body]
pub(crate) fn format_time(at: Moment, format: &str) -> (r: Option<String>)
    ensures
        opt_view(r) == time_text(at.seconds, at.nanos, at.offset, format@),
{
    let utc = chrono::DateTime::from_timestamp(at.seconds, at.nanos)?;
    let zone = chrono::FixedOffset::east_opt(at.offset)?;
    let mut out = String::new();
    match write!(out, "{}", utc.with_timezone(&zone).format(format)) {
        Ok(()) => Some(out),
        Err(_) => None,
    }
}

/// A character that a Unix shell reads as itself.
pub open spec fn is_shell_safe(c: char) -> bool {
    ||| 'a' <= c && c <= 'z'
    ||| 'A' <= c && c <= 'Z'
    ||| '0' <= c && c <= '9'
    ||| c == '-'
    ||| c == '_'
    ||| c == '='
    ||| c == '/'
    ||| c == ','
    ||| c == '.'
    ||| c == '+'
}

/// `s` as it stands between single quotes: each `'` and each `!` leaves
/// the quotes, is escaped by a backslash, and the quotes open again.
pub open spec fn quoted_chars(s: Seq<char>) -> Seq<char>
    decreases s.len(),
{
    if s.len() == 0 {
        Seq::empty()
    } else {
        let c = s.last();
        quoted_chars(s.drop_last()) + (if c == '\'' || c == '!' {
            seq!['\'', '\\', c, '\'']
        } else {
            seq![c]
        })
    }
}

/// `s` as one word for a Unix shell: `s` itself where it is not empty and
/// holds safe characters only, else `s` in single quotes.
pub open spec fn shell_escaped(s: Seq<char>) -> Seq<char> {
    if s.len() > 0 && (forall|i: int| 0 <= i < s.len() ==> is_shell_safe(#[trigger] s[i])) {
        s
    } else {
        seq!['\''] + quoted_chars(s) + seq!['\'']
    }
}

/// `shell_escape::unix::escape`: `s` as one word for a Unix shell. A text
/// of letters, digits and `-_=/,.+` comes back as it is; any other, and the
/// empty one, comes back in single quotes, with `'` and `!` escaped.
#[verifier::external_body]
pub(crate) fn escape_for_shell(s: &str) -> (r: String)
    ensures
        r@ == shell_escaped(s@),
{
    shell_escape::unix::escape(std::borrow::Cow::Borrowed(s)).into_owned()
}

/// `s` as one word for the command shell of Windows, as
/// `shell_escape::windows::escape` writes it.
pub uninterp spec fn windows_escaped(s: Seq<char>) -> Seq<char>;

/// Whether the command shell of Windows takes `s` as one word as it
/// stands: it is not empty and holds no double quote, tab, line feed or
/// space.
pub open spec fn is_cmd_safe(s: Seq<char>) -> bool {
    &&& s.len() > 0
    &&& forall|i: int|
        0 <= i < s.len() ==> s[i] != '"' && s[i] != '\t' && s[i] != '\n' && s[i] != ' '
}

/// `shell_escape::windows::escape`: `s` as one word for the command shell
/// of Windows. The result depends on `s` alone, and a text that is not
/// empty and holds no double quote, tab, line feed or space comes back
/// as it is.
#[verifier::external_body]
pub(crate) fn escape_for_cmd(s: &str) -> (r: String)
    ensures
        r@ == windows_escaped(s@),
        is_cmd_safe(s@) ==> r@ == s@,
{
    shell_escape::windows::escape(std::borrow::Cow::Borrowed(s)).into_owned()
}

/// How a value is written where it takes the place of a placeholder.
#[derive(Debug, Clone, Copy, PartialEq, Eq, Structural)]
pub enum Quoting {
    /// As it is.
    Plain,
    /// As one word for a Unix shell.
    Unix,
    /// As one word for the command shell of Windows.
    Windows,
}

impl Quoting {
    /// The quoting for the shell of the platform: that of Unix on a Unix
    /// system and wherever the variable `MSYSTEM` is set, which tells of a
    /// Unix shell on Windows; else that of the command shell of Windows.
    pub fn of_platform(unix: bool, msystem_set: bool) -> (r: Quoting)
        ensures
            r == (if unix || msystem_set {
                Quoting::Unix
            } else {
                Quoting::Windows
            }),
    {
        if unix || msystem_set {
            Quoting::Unix
        } else {
            Quoting::Windows
        }
    }
}

/// `value` as it is put in place of a placeholder.
pub open spec fn placed(value: Seq<char>, quoting: Quoting) -> Seq<char> {
    match quoting {
        Quoting::Plain => value,
        Quoting::Unix => shell_escaped(value),
        Quoting::Windows => windows_escaped(value),
    }
}

/// `text` with every `key` replaced by `value`, or left as it is where
/// there is no value.
pub open spec fn substituted(
    text: Seq<char>,
    key: Seq<char>,
    value: Option<Seq<char>>,
    quoting: Quoting,
) -> Seq<char> {
    match value {
        Some(v) => replaced(text, key, placed(v, quoting)),
        None => text,
    }
}

/// `pattern` with the placeholders for the parts of `path` replaced, one
/// after the other: `{path}`, `{dir}`, `{name}`, `{filename}`, `{ext}`.
pub open spec fn with_path_parts(pattern: Seq<char>, path: Seq<char>, quoting: Quoting) -> Seq<char> {
    let a = substituted(pattern, "{path}"@, Some(path), quoting);
    let b = substituted(a, "{dir}"@, parent_of(path), quoting);
    let c = substituted(b, "{name}"@, file_stem_of(path), quoting);
    let d = substituted(c, "{filename}"@, file_name_of(path), quoting);
    substituted(d, "{ext}"@, extension_of(path), quoting)
}

/// `text` from index `pos` on, with each `{date:FORMAT}` replaced by the
/// time written under `FORMAT`. A format is one or more characters other
/// than `}`. `None` where a format is rejected.
pub open spec fn custom_dates_from(text: Seq<char>, pos: int, at: Moment) -> Option<Seq<char>>
    decreases text.len() - pos,
{
    let i = first_occurrence(text, "{date:"@, pos);
    let close = next_index_of(text, '}', i + 6);
    if pos < 0 || i < pos || i + 6 > text.len() || close >= text.len() || close < i + 6 {
        Some(text.skip(pos))
    } else if close == i + 6 {
        match custom_dates_from(text, i + 1, at) {
            Some(rest) => Some(text.subrange(pos, i + 1) + rest),
            None => None,
        }
    } else {
        match (
            time_text(at.seconds, at.nanos, at.offset, text.subrange(i + 6, close)),
            custom_dates_from(text, close + 1, at),
        ) {
            (Some(t), Some(rest)) => Some(text.subrange(pos, i) + t + rest),
            _ => None,
        }
    }
}

/// `text` with `{date}`, `{datetime}` and each `{date:FORMAT}` replaced by
/// the time `at`. A text that holds no `{date` is left as it is, whatever
/// the time; for any other, `None` where chrono rejects the time or a
/// format.
pub open spec fn with_dates(text: Seq<char>, at: Moment) -> Option<Seq<char>> {
    if !has_occurrence(text, "{date"@) {
        Some(text)
    } else {
        match (
            time_text(at.seconds, at.nanos, at.offset, "%Y-%m-%d"@),
            time_text(at.seconds, at.nanos, at.offset, "%Y-%m-%d_%H-%M-%S"@),
        ) {
            (Some(date), Some(datetime)) => custom_dates_from(
                replaced(replaced(text, "{date}"@, date), "{datetime}"@, datetime),
                0,
                at,
            ),
            _ => None,
        }
    }
}

/// `pattern` expanded for the file `path` at the time `at`.
pub open spec fn expanded(pattern: Seq<char>, path: Seq<char>, at: Moment, quoting: Quoting) -> Option<
    Seq<char>,
> {
    with_dates(with_path_parts(pattern, path, quoting), at)
}

/// A pattern that names no date expands whatever the time: where the
/// pattern, with the parts of the path put in, holds no `{date`, the
/// expansion is that text.
pub proof fn law_patterns_without_dates_expand(
    pattern: Seq<char>,
    path: Seq<char>,
    at: Moment,
    quoting: Quoting,
)
    requires
        !has_occurrence(with_path_parts(pattern, path, quoting), "{date"@),
    ensures
        expanded(pattern, path, at, quoting) == Some(with_path_parts(pattern, path, quoting)),
{
}

/// A pattern could not be expanded: the time or a date format in it is not
/// one that can be written.
#[derive(Debug, Clone, Copy, PartialEq, Eq, Structural)]
pub struct BadDateFormat;

/// Replaces `key` in `text` by `value`, written as `quoting` says.
pub fn substitute(text: Vec<char>, key: &str, value: Option<String>, quoting: Quoting) -> (r: Vec<char>)
    ensures
        r@ == substituted(text@, key@, opt_view(value), quoting),
{
    match value {
        Some(v) => {
            let k = to_chars(key);
            let w = match quoting {
                Quoting::Plain => to_chars(v.as_str()),
                Quoting::Unix => to_chars(escape_for_shell(v.as_str()).as_str()),
                Quoting::Windows => to_chars(escape_for_cmd(v.as_str()).as_str()),
            };
            replace(&text, &k, &w)
        },
        None => text,
    }
}

/// Replaces the placeholders for the parts of `path` in `pattern`.
pub fn expand_path_parts(pattern: &str, path: &str, quoting: Quoting) -> (r: Vec<char>)
    ensures
        r@ == with_path_parts(pattern@, path@, quoting),
{
    let t = to_chars(pattern);
    let t = substitute(t, "{path}", Some(path.to_owned()), quoting);
    let t = substitute(t, "{dir}", parent(path), quoting);
    let t = substitute(t, "{name}", file_stem(path), quoting);
    let t = substitute(t, "{filename}", file_name(path), quoting);
    substitute(t, "{ext}", extension(path), quoting)
}

/// Replaces each `{date:FORMAT}` in `text` by the time `at` written under
/// `FORMAT`.
pub fn expand_custom_dates(text: &Vec<char>, at: Moment) -> (r: Option<Vec<char>>)
    ensures
        match r {
            Some(v) => custom_dates_from(text@, 0, at) == Some(v@),
            None => custom_dates_from(text@, 0, at) is None,
        },
{
    let key = to_chars("{date:");
    proof {
        reveal_strlit("{date:");
    }
    let mut out: Vec<char> = Vec::new();
    let mut pos: usize = 0;
    loop
        invariant
            pos <= text.len(),
            key@ == "{date:"@,
            key@.len() == 6,
            match custom_dates_from(text@, pos as int, at) {
                Some(rest) => custom_dates_from(text@, 0, at) == Some(out@ + rest),
                None => custom_dates_from(text@, 0, at) is None,
            },
        decreases text.len() - pos,
    {
        proof {
            lemma_first_occurrence(text@, key@, pos as int);
        }
        let i = match find_from(text, &key, pos) {
            Some(i) => i,
            None => {
                extend_range(&mut out, text, pos, text.len());
                assert(text@.subrange(pos as int, text@.len() as int) =~= text@.skip(pos as int));
                return Some(out);
            },
        };
        assert(text@.take(text@.len() as int) =~= text@);
        let close = index_of(text, '}', i + 6, text.len());
        if close >= text.len() {
            extend_range(&mut out, text, pos, text.len());
            assert(text@.subrange(pos as int, text@.len() as int) =~= text@.skip(pos as int));
            return Some(out);
        }
        if close == i + 6 {
            let ghost before = out@;
            extend_range(&mut out, text, pos, i + 1);
            proof {
                match custom_dates_from(text@, i + 1, at) {
                    Some(rest) => {
                        assert(before + (text@.subrange(pos as int, i + 1) + rest) =~= out@
                            + rest);
                    },
                    None => {},
                }
            }
            pos = i + 1;
        } else {
            let format = substring(text, i + 6, close);
            match format_time(at, format.as_str()) {
                Some(written) => {
                    let ghost before = out@;
                    extend_range(&mut out, text, pos, i);
                    let w = to_chars(written.as_str());
                    extend_range(&mut out, &w, 0, w.len());
                    proof {
                        assert(w@.subrange(0, w@.len() as int) =~= w@);
                        match custom_dates_from(text@, close + 1, at) {
                            Some(rest) => {
                                assert(before + (text@.subrange(pos as int, i as int) + w@ + rest)
                                    =~= out@ + rest);
                            },
                            None => {},
                        }
                    }
                    pos = close + 1;
                },
                None => {
                    return None;
                },
            }
        }
    }
}

/// Replaces `{date}`, `{datetime}` and each `{date:FORMAT}` in `text`.
pub fn expand_dates(text: Vec<char>, at: Moment) -> (r: Option<Vec<char>>)
    ensures
        match r {
            Some(v) => with_dates(text@, at) == Some(v@),
            None => with_dates(text@, at) is None,
        },
{
    if find_from(&text, &to_chars("{date"), 0).is_none() {
        return Some(text);
    }
    let date = format_time(at, "%Y-%m-%d");
    let datetime = format_time(at, "%Y-%m-%d_%H-%M-%S");
    match (date, datetime) {
        (Some(d), Some(dt)) => {
            let t = replace(&text, &to_chars("{date}"), &to_chars(d.as_str()));
            let t = replace(&t, &to_chars("{datetime}"), &to_chars(dt.as_str()));
            expand_custom_dates(&t, at)
        },
        _ => None,
    }
}

/// Expands the placeholders in `pattern` for the file `path` at the time
/// `at`. Each placeholder is replaced wherever it occurs, in the order
/// `{path}`, `{dir}`, `{name}`, `{filename}`, `{ext}`, `{date}`,
/// `{datetime}`, `{date:FORMAT}`; a part that the path lacks leaves its
/// placeholder as it is.
pub fn expand_pattern(pattern: &str, path: &str, at: Moment) -> (r: Result<String, BadDateFormat>)
    ensures
        match r {
            Ok(s) => expanded(pattern@, path@, at, Quoting::Plain) == Some(s@),
            Err(_) => expanded(pattern@, path@, at, Quoting::Plain) is None,
        },
{
    match expand_dates(expand_path_parts(pattern, path, Quoting::Plain), at) {
        Some(v) => Ok(from_chars(&v)),
        None => Err(BadDateFormat),
    }
}

/// Expands the placeholders in `pattern` as [`expand_pattern`] does, with
/// each part of the path written as one word for the shell that `quoting`
/// names.
pub fn expand_pattern_shell_escaped(pattern: &str, path: &str, at: Moment, quoting: Quoting) -> (r:
    Result<String, BadDateFormat>)
    ensures
        match r {
            Ok(s) => expanded(pattern@, path@, at, quoting) == Some(s@),
            Err(_) => expanded(pattern@, path@, at, quoting) is None,
        },
{
    match expand_dates(expand_path_parts(pattern, path, quoting), at) {
        Some(v) => Ok(from_chars(&v)),
        None => Err(BadDateFormat),
    }
}

/// What a path is expanded against: the home directory and the variables
/// of the environment, as they were read.
#[derive(Debug, Clone)]
pub struct Environment {
    /// The home directory, where there is one.
    pub home: Option<String>,
    /// The variables, each with its value.
    pub vars: Vec<(String, String)>,
}

/// The value of the first variable named `name` from index `from` on.
pub open spec fn value_of(vars: Seq<(String, String)>, name: Seq<char>, from: int) -> Option<
    Seq<char>,
>
    decreases vars.len() - from,
{
    if from < 0 || from >= vars.len() {
        None
    } else if vars[from].0@ == name {
        Some(vars[from].1@)
    } else {
        value_of(vars, name, from + 1)
    }
}

/// What stands for a reference to the variable `name`: its value, or the
/// reference as it was written where the variable is not set.
pub open spec fn reference_value(vars: Seq<(String, String)>, name: Seq<char>, written: Seq<char>)
    -> Seq<char> {
    match value_of(vars, name, 0) {
        Some(v) => v,
        None => written,
    }
}

/// A character that can begin the name of a variable.
pub open spec fn is_name_start(c: char) -> bool {
    ('a' <= c && c <= 'z') || ('A' <= c && c <= 'Z') || c == '_'
}

/// A character that can stand in the name of a variable.
pub open spec fn is_name_char(c: char) -> bool {
    is_name_start(c) || ('0' <= c && c <= '9')
}

/// The least index at or after `pos` that holds no name character, or the
/// length of `text`.
pub open spec fn name_end(text: Seq<char>, pos: int) -> int
    decreases text.len() - pos,
{
    if pos < 0 || pos >= text.len() {
        text.len() as int
    } else if is_name_char(text[pos]) {
        name_end(text, pos + 1)
    } else {
        pos
    }
}

/// The reference to a variable that begins with the `$` at index `i`, if
/// one does: where its name begins, where the name ends and where the
/// reference ends. A reference is `${NAME}`, where `NAME` is one or more
/// characters other than `}`, or `$NAME`, where `NAME` begins with a letter
/// or `_` and goes on with letters, digits and `_`.
pub open spec fn reference_at(text: Seq<char>, i: int) -> Option<(int, int, int)> {
    let close = next_index_of(text, '}', i + 2);
    let e = name_end(text, i + 1);
    if 0 <= i && i + 1 < text.len() && text[i + 1] == '{' && i + 2 < close < text.len() {
        Some((i + 2, close, close + 1))
    } else if 0 <= i && i + 1 < text.len() && is_name_start(text[i + 1]) && i + 1 < e
        <= text.len() {
        Some((i + 1, e, e))
    } else {
        None
    }
}

/// `text` from index `pos` on, with each reference to a variable replaced
/// by what stands for it.
pub open spec fn env_expanded_from(text: Seq<char>, pos: int, vars: Seq<(String, String)>) -> Seq<
    char,
>
    decreases text.len() - pos,
{
    let i = next_index_of(text, '$', pos);
    if pos < 0 || i < pos || i >= text.len() {
        text.skip(pos)
    } else {
        match reference_at(text, i) {
            Some((a, b, end)) => text.subrange(pos, i) + reference_value(
                vars,
                text.subrange(a, b),
                text.subrange(i, end),
            ) + env_expanded_from(text, end, vars),
            None => text.subrange(pos, i + 1) + env_expanded_from(text, i + 1, vars),
        }
    }
}

/// `path` with a leading `~` replaced by the home directory, where there
/// is one: `~` alone is the home directory, `~/rest` is `rest` seen from it.
pub open spec fn tilde_expanded(path: Seq<char>, home: Option<Seq<char>>) -> Seq<char> {
    match home {
        Some(h) => if path.len() >= 2 && path[0] == '~' && path[1] == '/' {
            joined(h, path.skip(2))
        } else if path.len() == 1 && path[0] == '~' {
            h
        } else {
            path
        },
        None => path,
    }
}

/// `path` with `~` and the references to variables expanded.
pub open spec fn path_expanded(path: Seq<char>, home: Option<Seq<char>>, vars: Seq<(String, String)>)
    -> Seq<char> {
    env_expanded_from(tilde_expanded(path, home), 0, vars)
}

/// The value of the variable `name`, where it is set.
pub fn lookup(vars: &Vec<(String, String)>, name: &str) -> (r: Option<String>)
    ensures
        opt_view(r) == value_of(vars@, name@, 0),
{
    let mut k: usize = 0;
    while k < vars.len()
        invariant
            k <= vars.len(),
            value_of(vars@, name@, 0) == value_of(vars@, name@, k as int),
        decreases vars.len() - k,
    {
        if same_text(vars[k].0.as_str(), name) {
            return Some(vars[k].1.clone());
        }
        k += 1;
    }
    None
}

/// Executable form of [`name_end`].
pub fn end_of_name(text: &Vec<char>, pos: usize) -> (r: usize)
    requires
        pos <= text.len(),
    ensures
        r as int == name_end(text@, pos as int),
        pos <= r <= text.len(),
        pos < text.len() && is_name_char(text@[pos as int]) ==> r > pos,
{
    let mut i: usize = pos;
    while i < text.len()
        invariant
            pos <= i <= text.len(),
            name_end(text@, pos as int) == name_end(text@, i as int),
            pos < text.len() && is_name_char(text@[pos as int]) && i == pos ==> i < text.len(),
            i > pos || i == pos,
        decreases text.len() - i,
    {
        let c = text[i];
        let in_name = ('a' <= c && c <= 'z') || ('A' <= c && c <= 'Z') || c == '_' || ('0' <= c
            && c <= '9');
        if !in_name {
            return i;
        }
        i += 1;
    }
    i
}

/// Appends to `out` what stands for a reference to the variable whose name
/// is `text` from `a` up to `b`, written as `text` from `i` up to `end`.
fn push_reference(
    out: &mut Vec<char>,
    text: &Vec<char>,
    vars: &Vec<(String, String)>,
    a: usize,
    b: usize,
    i: usize,
    end: usize,
)
    requires
        a <= b <= text.len(),
        i <= end <= text.len(),
    ensures
        final(out)@ == old(out)@ + reference_value(
            vars@,
            text@.subrange(a as int, b as int),
            text@.subrange(i as int, end as int),
        ),
{
    let name = substring(text, a, b);
    match lookup(vars, name.as_str()) {
        Some(v) => {
            let w = to_chars(v.as_str());
            extend_range(out, &w, 0, w.len());
            assert(w@.subrange(0, w@.len() as int) =~= w@);
        },
        None => {
            extend_range(out, text, i, end);
        },
    }
}

/// Executable form of [`reference_at`].
pub fn find_reference(text: &Vec<char>, i: usize) -> (r: Option<(usize, usize, usize)>)
    requires
        i < text.len(),
    ensures
        match r {
            Some((a, b, end)) => reference_at(text@, i as int) == Some(
                (a as int, b as int, end as int),
            ) && i < a < b <= end <= text.len(),
            None => reference_at(text@, i as int) is None,
        },
{
    if i + 1 >= text.len() {
        return None;
    }
    assert(text@.take(text@.len() as int) =~= text@);
    let c = text[i + 1];
    if c == '{' {
        let close = index_of(text, '}', i + 2, text.len());
        if i + 2 < close && close < text.len() {
            return Some((i + 2, close, close + 1));
        }
        return None;
    }
    if ('a' <= c && c <= 'z') || ('A' <= c && c <= 'Z') || c == '_' {
        let e = end_of_name(text, i + 1);
        return Some((i + 1, e, e));
    }
    None
}

/// Replaces each reference to a variable in `text` by the variable's value.
pub fn expand_env(text: &Vec<char>, vars: &Vec<(String, String)>) -> (r: Vec<char>)
    ensures
        r@ == env_expanded_from(text@, 0, vars@),
{
    let mut out: Vec<char> = Vec::new();
    let mut pos: usize = 0;
    loop
        invariant
            pos <= text.len(),
            env_expanded_from(text@, 0, vars@) == out@ + env_expanded_from(
                text@,
                pos as int,
                vars@,
            ),
        decreases text.len() - pos,
    {
        let ghost before = out@;
        let ghost rest = env_expanded_from(text@, pos as int, vars@);
        assert(text@.take(text@.len() as int) =~= text@);
        let i = index_of(text, '$', pos, text.len());
        if i >= text.len() {
            extend_range(&mut out, text, pos, text.len());
            assert(text@.subrange(pos as int, text@.len() as int) =~= text@.skip(pos as int));
            return out;
        }
        match find_reference(text, i) {
            Some((a, b, end)) => {
                extend_range(&mut out, text, pos, i);
                push_reference(&mut out, text, vars, a, b, i, end);
                let ghost piece = text@.subrange(pos as int, i as int) + reference_value(
                    vars@,
                    text@.subrange(a as int, b as int),
                    text@.subrange(i as int, end as int),
                );
                assert(rest == piece + env_expanded_from(text@, end as int, vars@));
                assert(out@ == before + piece);
                assert(before + (piece + env_expanded_from(text@, end as int, vars@)) =~= (before
                    + piece) + env_expanded_from(text@, end as int, vars@));
                pos = end;
            },
            None => {
                extend_range(&mut out, text, pos, i + 1);
                let ghost piece = text@.subrange(pos as int, i + 1);
                assert(rest == piece + env_expanded_from(text@, i + 1, vars@));
                assert(before + (piece + env_expanded_from(text@, i + 1, vars@)) =~= (before
                    + piece) + env_expanded_from(text@, i + 1, vars@));
                pos = i + 1;
            },
        }
    }
}

/// Expands a leading `~` and the references to environment variables in
/// `path`.
pub fn expand_path(path: &str, env: &Environment) -> (r: String)
    ensures
        r@ == path_expanded(path@, opt_view(env.home), env.vars@),
{
    let p = to_chars(path);
    let first: Vec<char> = match &env.home {
        Some(h) => {
            if p.len() >= 2 && p[0] == '~' && p[1] == '/' {
                let rest = substring(&p, 2, p.len());
                assert(p@.subrange(2, p@.len() as int) =~= p@.skip(2));
                to_chars(join(h.as_str(), rest.as_str()).as_str())
            } else if p.len() == 1 && p[0] == '~' {
                to_chars(h.as_str())
            } else {
                p
            }
        },
        None => p,
    };
    from_chars(&expand_env(&first, &env.vars))
}

} // verus!
