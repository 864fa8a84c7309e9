//! Glob patterns and regular expressions, compiled and matched by the
//! `glob` and `regex` crates.
//!
//! What those crates compute is not restated here. Each result has a name,
//! and the contracts of this crate speak of the names.

use vstd::prelude::*;

verus! {

/// `glob::Pattern`, a compiled glob pattern. Nothing of its inside is
/// known here.
#[verifier::external_type_specification]
#[verifier::external_body]
pub struct ExGlobPattern(glob::Pattern);

/// `glob::PatternError`, what `glob` says of a pattern that it rejects.
#[verifier::external_type_specification]
#[verifier::external_body]
pub struct ExGlobPatternError(glob::PatternError);

/// `regex::Regex`, a compiled regular expression. Nothing of its inside
/// is known here.
#[verifier::external_type_specification]
#[verifier::external_body]
pub struct ExRegex(regex::Regex);

/// `regex::Error`, what `regex` says of an expression that it rejects.
#[verifier::external_type_specification]
#[verifier::external_body]
pub struct ExRegexError(regex::Error);

/// Whether `glob::Pattern::new` accepts `pattern`.
pub uninterp spec fn glob_compiles(pattern: Seq<char>) -> bool;

/// The pattern text that a compiled glob pattern holds.
pub uninterp spec fn glob_source(compiled: glob::Pattern) -> Seq<char>;

/// Whether the glob pattern written `pattern` matches `text`, by
/// `glob::Pattern::matches`.
pub uninterp spec fn glob_matches(pattern: Seq<char>, text: Seq<char>) -> bool;

/// Whether `regex::Regex::new` accepts `pattern`.
pub uninterp spec fn regex_compiles(pattern: Seq<char>) -> bool;

/// The pattern text that a compiled regular expression holds.
pub uninterp spec fn regex_source(compiled: regex::Regex) -> Seq<char>;

/// Whether the regular expression written `pattern` matches somewhere in
/// `text`, by `regex::Regex::is_match`.
pub uninterp spec fn regex_matches(pattern: Seq<char>, text: Seq<char>) -> bool;

/// `glob::Pattern::new`: compiles `pattern`. It succeeds on the patterns that
/// the crate accepts, and the compiled pattern keeps the text it was made
/// from.
#[verifier::external_body]
pub(crate) fn compile_glob(pattern: &str) -> (r: Result<glob::Pattern, glob::PatternError>)
    ensures
        r is Ok == glob_compiles(pattern@),
        r matches Ok(p) ==> glob_source(p) == pattern@,
{
    glob::Pattern::new(pattern)
}

/// `glob::Pattern::matches`: whether the compiled pattern matches `text`.
/// The answer depends on the pattern's text and on `text` alone.
#[verifier::external_body]
pub(crate) fn glob_is_match(compiled: &glob::Pattern, text: &str) -> (r: bool)
    ensures
        r == glob_matches(glob_source(*compiled), text@),
{
    compiled.matches(text)
}

/// The message of a `glob::PatternError`, as its `Display` writes it.
#[verifier::external_body]
pub(crate) fn glob_error_message(error: &glob::PatternError) -> String {
    error.to_string()
}

/// A regular expression that `regex::Regex::new` compiled from its text,
/// with the settings that `new` gives it. The field is private and
/// [`compile_regex`] alone fills it, so no expression built with other
/// settings is ever held here.
pub struct CompiledRegex {
    inner: regex::Regex,
}

impl CompiledRegex {
    /// The text that the expression was compiled from.
    pub closed spec fn source(&self) -> Seq<char> {
        regex_source(self.inner)
    }
}

/// `regex::Regex::new`: compiles `pattern`. It succeeds on the patterns that
/// the crate accepts, and the compiled expression keeps the text it was made
/// from.
#[verifier::external_body]
fn regex_new(pattern: &str) -> (r: Result<regex::Regex, regex::Error>)
    ensures
        r is Ok == regex_compiles(pattern@),
        r matches Ok(p) ==> regex_source(p) == pattern@,
{
    regex::Regex::new(pattern)
}

/// Compiles `pattern` with `regex::Regex::new`.
pub(crate) fn compile_regex(pattern: &str) -> (r: Result<CompiledRegex, regex::Error>)
    ensures
        r is Ok == regex_compiles(pattern@),
        r matches Ok(p) ==> p.source() == pattern@,
{
    match regex_new(pattern) {
        Ok(inner) => Ok(CompiledRegex { inner }),
        Err(e) => Err(e),
    }
}

/// `regex::Regex::is_match`: whether the compiled expression matches
/// somewhere in `text`. For an expression that `regex::Regex::new` made,
/// the answer depends on the expression's text and on `text` alone.
#[verifier::external_body]
pub(crate) fn regex_is_match(compiled: &CompiledRegex, text: &str) -> (r: bool)
    ensures
        r == regex_matches(compiled.source(), text@),
{
    compiled.inner.is_match(text)
}

/// The message of a `regex::Error`, as its `Display` writes it.
#[verifier::external_body]
pub(crate) fn regex_error_message(error: &regex::Error) -> String {
    error.to_string()
}

} // verus!
