//! A bounded cache of compiled patterns.
//!
//! The same rules are evaluated for every event, so each pattern is compiled
//! once and kept under its text. The cache never evicts a single entry:
//! when it is full and a new pattern arrives, it is emptied first.

use vstd::prelude::*;
use vstd::hash_map::StringHashMap;
use crate::rules::patterns::{
    compile_glob,
    compile_regex,
    CompiledRegex,
    glob_compiles,
    glob_error_message,
    glob_is_match,
    glob_matches,
    glob_source,
    regex_compiles,
    regex_error_message,
    regex_is_match,
    regex_matches,
};

verus! {

/// The most patterns of one kind that the cache holds.
pub const CACHE_MAX_ENTRIES: usize = 1000;

/// The two kinds of pattern that a condition can hold.
#[derive(Debug, Clone, Copy, PartialEq, Eq, Structural)]
pub enum PatternKind {
    Glob,
    Regex,
}

/// A pattern that could not be compiled.
#[derive(Debug, Clone)]
pub struct InvalidPattern {
    /// The kind of the pattern.
    pub kind: PatternKind,
    /// The pattern as it was written.
    pub pattern: String,
    /// What the compiler of the pattern said of it.
    pub message: String,
}

/// Compiled glob patterns and regular expressions, each under its text.
pub struct PatternCache {
    globs: StringHashMap<glob::Pattern>,
    regexes: StringHashMap<CompiledRegex>,
}

/// The texts cached once `pattern` has been asked for: a full cache that
/// lacks `pattern` is emptied first, and `pattern` is added where it compiles.
pub open spec fn after_lookup(before: Set<Seq<char>>, pattern: Seq<char>, compiles: bool) -> Set<
    Seq<char>,
> {
    let kept = if before.len() >= CACHE_MAX_ENTRIES && !before.contains(pattern) {
        Set::empty()
    } else {
        before
    };
    if compiles {
        kept.insert(pattern)
    } else {
        kept
    }
}

/// What a [`PatternCache`] holds: the texts of the patterns that it has
/// compiled.
pub struct CacheView {
    pub globs: Set<Seq<char>>,
    pub regexes: Set<Seq<char>>,
}

impl CacheView {
    /// The cache once the glob pattern `pattern` has been asked for.
    pub open spec fn with_glob(self, pattern: Seq<char>) -> CacheView {
        CacheView { globs: after_lookup(self.globs, pattern, glob_compiles(pattern)), ..self }
    }

    /// The cache once the regular expression `pattern` has been asked for.
    pub open spec fn with_regex(self, pattern: Seq<char>) -> CacheView {
        CacheView { regexes: after_lookup(self.regexes, pattern, regex_compiles(pattern)), ..self }
    }
}

impl View for PatternCache {
    type V = CacheView;

    closed spec fn view(&self) -> CacheView {
        CacheView { globs: self.globs@.dom(), regexes: self.regexes@.dom() }
    }
}

impl PatternCache {
    #[verifier::type_invariant]
    spec fn well_formed(self) -> bool {
        &&& self.globs@.dom().finite()
        &&& self.regexes@.dom().finite()
        &&& self.globs@.len() <= CACHE_MAX_ENTRIES
        &&& self.regexes@.len() <= CACHE_MAX_ENTRIES
        &&& forall|k: Seq<char>| #[trigger]
            self.globs@.contains_key(k) ==> glob_compiles(k) && glob_source(self.globs@[k]) == k
        &&& forall|k: Seq<char>| #[trigger]
            self.regexes@.contains_key(k) ==> regex_compiles(k) && self.regexes@[k].source()
                == k
    }

    /// The texts of the glob patterns held.
    pub open spec fn globs(&self) -> Set<Seq<char>> {
        self@.globs
    }

    /// The texts of the regular expressions held.
    pub open spec fn regexes(&self) -> Set<Seq<char>> {
        self@.regexes
    }

    /// An empty cache.
    pub fn new() -> (r: Self)
        ensures
            r.globs() == Set::<Seq<char>>::empty(),
            r.regexes() == Set::<Seq<char>>::empty(),
    {
        PatternCache { globs: StringHashMap::new(), regexes: StringHashMap::new() }
    }

    /// The number of glob patterns held.
    pub fn glob_count(&self) -> (n: usize)
        ensures
            n == self.globs().len(),
            n <= CACHE_MAX_ENTRIES,
    {
        proof {
            use_type_invariant(self);
        }
        self.globs.len()
    }

    /// The number of regular expressions held.
    pub fn regex_count(&self) -> (n: usize)
        ensures
            n == self.regexes().len(),
            n <= CACHE_MAX_ENTRIES,
    {
        proof {
            use_type_invariant(self);
        }
        self.regexes.len()
    }

    /// Matches `text` against the glob pattern written `pattern`, compiling
    /// the pattern unless the cache holds it.
    pub fn check_glob(&mut self, pattern: &str, text: &str) -> (r: Result<bool, InvalidPattern>)
        ensures
            match r {
                Ok(b) => glob_compiles(pattern@) && b == glob_matches(pattern@, text@),
                Err(e) => !glob_compiles(pattern@) && e.kind == PatternKind::Glob && e.pattern@
                    == pattern@,
            },
            final(self)@ == old(self)@.with_glob(pattern@),
            final(self).globs().finite(),
            final(self).globs().len() <= CACHE_MAX_ENTRIES,
    {
        proof {
            use_type_invariant(&*self);
        }
        let mut held: StringHashMap<glob::Pattern> = StringHashMap::new();
        core::mem::swap(&mut self.globs, &mut held);
        if held.len() >= CACHE_MAX_ENTRIES && !held.contains_key(pattern) {
            held.clear();
        }
        let r = match held.get(pattern) {
            Some(compiled) => {
                assert(held@.dom() =~= old(self).globs().insert(pattern@));
                Ok(glob_is_match(compiled, text))
            },
            None => match compile_glob(pattern) {
                Ok(compiled) => {
                    let b = glob_is_match(&compiled, text);
                    held.insert(pattern.to_owned(), compiled);
                    Ok(b)
                },
                Err(e) => Err(
                    InvalidPattern {
                        kind: PatternKind::Glob,
                        pattern: pattern.to_owned(),
                        message: glob_error_message(&e),
                    },
                ),
            },
        };
        core::mem::swap(&mut self.globs, &mut held);
        r
    }

    /// Matches `text` against the regular expression written `pattern`,
    /// compiling the expression unless the cache holds it.
    pub fn check_regex(&mut self, pattern: &str, text: &str) -> (r: Result<bool, InvalidPattern>)
        ensures
            match r {
                Ok(b) => regex_compiles(pattern@) && b == regex_matches(pattern@, text@),
                Err(e) => !regex_compiles(pattern@) && e.kind == PatternKind::Regex && e.pattern@
                    == pattern@,
            },
            final(self)@ == old(self)@.with_regex(pattern@),
            final(self).regexes().finite(),
            final(self).regexes().len() <= CACHE_MAX_ENTRIES,
    {
        proof {
            use_type_invariant(&*self);
        }
        let mut held: StringHashMap<CompiledRegex> = StringHashMap::new();
        core::mem::swap(&mut self.regexes, &mut held);
        if held.len() >= CACHE_MAX_ENTRIES && !held.contains_key(pattern) {
            held.clear();
        }
        let r = match held.get(pattern) {
            Some(compiled) => {
                assert(held@.dom() =~= old(self).regexes().insert(pattern@));
                Ok(regex_is_match(compiled, text))
            },
            None => match compile_regex(pattern) {
                Ok(compiled) => {
                    let b = regex_is_match(&compiled, text);
                    held.insert(pattern.to_owned(), compiled);
                    Ok(b)
                },
                Err(e) => Err(
                    InvalidPattern {
                        kind: PatternKind::Regex,
                        pattern: pattern.to_owned(),
                        message: regex_error_message(&e),
                    },
                ),
            },
        };
        core::mem::swap(&mut self.regexes, &mut held);
        r
    }
}

} // verus!
