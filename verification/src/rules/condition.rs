//! Conditions: which files a rule applies to.

use vstd::prelude::*;
use crate::paths::{extension, extension_of, file_name, file_name_of, is_hidden, is_hidden_path};
use crate::rules::cache::{CacheView, InvalidPattern, PatternCache, PatternKind};
use crate::rules::patterns::{glob_compiles, glob_matches, regex_compiles, regex_matches};
use crate::text::{eq_ignore_ascii_case, same_ignoring_ascii_case, to_chars};

verus! {

/// The number of seconds in a day.
pub const SECONDS_PER_DAY: u64 = 86400;

/// What the file system says of a file.
#[derive(Debug, Clone, Copy, PartialEq, Eq, Structural)]
pub struct FileMetadata {
    /// The size of the file in bytes.
    pub len: u64,
    /// When the file was last modified, in seconds since the epoch, where the
    /// file system tells.
    pub modified: Option<u64>,
}

/// A file as a condition sees it: its path and what was observed of it.
#[derive(Debug, Clone)]
pub struct FileInfo {
    /// The path of the file.
    pub path: String,
    /// The file's metadata, or `None` where it could not be read.
    pub metadata: Option<FileMetadata>,
    /// Whether the path leads to a directory.
    pub is_dir: bool,
    /// The time of the observation, in seconds since the epoch.
    pub now: u64,
}

impl FileInfo {
    /// A path of which nothing was observed, as for a file that is not there.
    pub fn from_path(path: &str) -> (r: Self)
        ensures
            r.path@ == path@,
            r.metadata is None,
            !r.is_dir,
            r.now == 0,
    {
        FileInfo { path: path.to_owned(), metadata: None, is_dir: false, now: 0 }
    }
}

/// The age in whole days of a file last modified at `modified`, seen at
/// `now`. A file modified in the future has age zero.
pub open spec fn age_in_days(now: u64, modified: u64) -> int {
    if now >= modified {
        (now - modified) / (SECONDS_PER_DAY as int)
    } else {
        0
    }
}

/// Executable form of [`age_in_days`].
pub fn age_days(now: u64, modified: u64) -> (r: u64)
    ensures
        r == age_in_days(now, modified),
{
    if now >= modified {
        (now - modified) / SECONDS_PER_DAY
    } else {
        0
    }
}

/// The file that `path` names has the extension `ext`, whatever the case of
/// its ASCII letters.
pub open spec fn has_extension(path: Seq<char>, ext: Seq<char>) -> bool {
    match extension_of(path) {
        Some(e) => same_ignoring_ascii_case(e, ext),
        None => false,
    }
}

/// The file name in `path`, or the empty text where it has none.
pub open spec fn name_or_empty(path: Seq<char>) -> Seq<char> {
    match file_name_of(path) {
        Some(name) => name,
        None => Seq::empty(),
    }
}

/// Executable form of [`has_extension`].
pub fn check_extension(path: &str, ext: &str) -> (r: bool)
    ensures
        r == has_extension(path@, ext@),
{
    match extension(path) {
        Some(e) => {
            let a = to_chars(e.as_str());
            let b = to_chars(ext);
            eq_ignore_ascii_case(&a, &b)
        },
        None => false,
    }
}

/// A conjunction of optional tests on a file. A test that is absent holds
/// of every file, so the empty condition matches everything.
#[derive(Debug, Clone)]
pub struct Condition {
    /// The file's extension, without the dot and in any case.
    pub extension: Option<String>,
    /// Extensions of which the file has one; empty for no such test.
    pub extensions: Vec<String>,
    /// A glob pattern that the file's name matches.
    pub name_matches: Option<String>,
    /// A regular expression that matches in the file's name.
    pub name_regex: Option<String>,
    /// The file is larger than this many bytes.
    pub size_greater_than: Option<u64>,
    /// The file is smaller than this many bytes.
    pub size_less_than: Option<u64>,
    /// The file is older than this many days.
    pub age_days_greater_than: Option<u64>,
    /// The file is younger than this many days.
    pub age_days_less_than: Option<u64>,
    /// The path leads to a directory, or does not.
    pub is_directory: Option<bool>,
    /// The file is hidden, or is not.
    pub is_hidden: Option<bool>,
}

impl Default for Condition {
    fn default() -> (r: Self)
        ensures
            r.is_empty(),
    {
        Condition {
            extension: None,
            extensions: Vec::new(),
            name_matches: None,
            name_regex: None,
            size_greater_than: None,
            size_less_than: None,
            age_days_greater_than: None,
            age_days_less_than: None,
            is_directory: None,
            is_hidden: None,
        }
    }
}

impl Condition {
    /// The condition holds no test at all.
    pub open spec fn is_empty(&self) -> bool {
        &&& self.extension is None
        &&& self.extensions@.len() == 0
        &&& self.name_matches is None
        &&& self.name_regex is None
        &&& self.size_greater_than is None
        &&& self.size_less_than is None
        &&& self.age_days_greater_than is None
        &&& self.age_days_less_than is None
        &&& self.is_directory is None
        &&& self.is_hidden is None
    }

    /// One of the listed extensions is that of `path`.
    pub open spec fn lists_extension_of(&self, path: Seq<char>) -> bool {
        exists|i: int|
            0 <= i < self.extensions@.len() && has_extension(path, #[trigger] self.extensions@[i]@)
    }

    /// The tests on the extension hold of `path`.
    pub open spec fn extensions_pass(&self, path: Seq<char>) -> bool {
        &&& self.extension matches Some(e) ==> has_extension(path, e@)
        &&& self.extensions@.len() > 0 ==> self.lists_extension_of(path)
    }

    /// The condition tests the size or the age, for which the file's
    /// metadata is read.
    pub open spec fn reads_metadata(&self) -> bool {
        ||| self.size_greater_than is Some
        ||| self.size_less_than is Some
        ||| self.age_days_greater_than is Some
        ||| self.age_days_less_than is Some
    }

    /// The tests on the size hold of a file of `len` bytes. Both bounds are
    /// exclusive.
    pub open spec fn size_passes(&self, len: u64) -> bool {
        &&& self.size_greater_than matches Some(min) ==> len > min
        &&& self.size_less_than matches Some(max) ==> len < max
    }

    /// The tests on the age hold of a file that is `age` days old. Both
    /// bounds are exclusive.
    pub open spec fn age_passes(&self, age: int) -> bool {
        &&& self.age_days_greater_than matches Some(min) ==> age > min
        &&& self.age_days_less_than matches Some(max) ==> age < max
    }

    /// The tests on size and age hold of `file`. Where one of them is asked
    /// for, the metadata must be there; where the age is asked for, so must
    /// the time of the last modification.
    pub open spec fn metadata_passes(&self, file: &FileInfo) -> bool {
        self.reads_metadata() ==> match file.metadata {
            None => false,
            Some(m) => {
                &&& self.size_passes(m.len)
                &&& (self.age_days_greater_than is Some || self.age_days_less_than is Some)
                    ==> match m.modified {
                    None => false,
                    Some(t) => self.age_passes(age_in_days(file.now, t)),
                }
            },
        }
    }

    /// The tests that follow the two patterns hold of `file`: size and age,
    /// directory or not, hidden or not.
    pub open spec fn attributes_pass(&self, file: &FileInfo) -> bool {
        &&& self.metadata_passes(file)
        &&& self.is_directory matches Some(d) ==> file.is_dir == d
        &&& self.is_hidden matches Some(h) ==> is_hidden_path(file.path@) == h
    }

    /// What matching `file` comes to. The tests run in the order of the
    /// fields and stop at the first that fails, so a pattern that does not
    /// compile is an error only where the tests before it hold.
    pub open spec fn verdict(&self, file: &FileInfo) -> Result<bool, PatternKind> {
        let name = name_or_empty(file.path@);
        if !self.extensions_pass(file.path@) {
            Ok(false)
        } else if self.name_matches matches Some(g) && !glob_compiles(g@) {
            Err(PatternKind::Glob)
        } else if self.name_matches matches Some(g) && !glob_matches(g@, name) {
            Ok(false)
        } else if self.name_regex matches Some(r) && !regex_compiles(r@) {
            Err(PatternKind::Regex)
        } else if self.name_regex matches Some(r) && !regex_matches(r@, name) {
            Ok(false)
        } else {
            Ok(self.attributes_pass(file))
        }
    }

    /// What matching `file` does to a cache of patterns: a pattern is asked
    /// for where the tests before it hold.
    pub open spec fn cached(&self, file: &FileInfo, c: CacheView) -> CacheView {
        let name = name_or_empty(file.path@);
        if !self.extensions_pass(file.path@) {
            c
        } else {
            let seen = match self.name_matches {
                Some(g) => c.with_glob(g@),
                None => c,
            };
            let glob_holds = match self.name_matches {
                Some(g) => glob_compiles(g@) && glob_matches(g@, name),
                None => true,
            };
            match self.name_regex {
                Some(r) if glob_holds => seen.with_regex(r@),
                _ => seen,
            }
        }
    }

    /// The text of the pattern of the given kind, or the empty text.
    pub open spec fn pattern_text(&self, kind: PatternKind) -> Seq<char> {
        match kind {
            PatternKind::Glob => match self.name_matches {
                Some(g) => g@,
                None => Seq::empty(),
            },
            PatternKind::Regex => match self.name_regex {
                Some(r) => r@,
                None => Seq::empty(),
            },
        }
    }

    /// Whether matching needs the file's metadata.
    pub fn needs_metadata(&self) -> (r: bool)
        ensures
            r == self.reads_metadata(),
    {
        self.size_greater_than.is_some() || self.size_less_than.is_some()
            || self.age_days_greater_than.is_some() || self.age_days_less_than.is_some()
    }

    /// Tests the extension of `path` against `extension` and `extensions`.
    pub fn check_extensions(&self, path: &str) -> (r: bool)
        ensures
            r == self.extensions_pass(path@),
    {
        if let Some(ext) = &self.extension {
            if !check_extension(path, ext.as_str()) {
                return false;
            }
        }
        if self.extensions.len() > 0 {
            let mut i: usize = 0;
            while i < self.extensions.len()
                invariant
                    i <= self.extensions.len(),
                    self.extension matches Some(e) ==> has_extension(path@, e@),
                    forall|j: int|
                        0 <= j < i ==> !has_extension(path@, #[trigger] self.extensions@[j]@),
                decreases self.extensions.len() - i,
            {
                if check_extension(path, self.extensions[i].as_str()) {
                    return true;
                }
                i += 1;
            }
            return false;
        }
        true
    }

    /// Tests size and age against the metadata of `file`.
    pub fn check_metadata(&self, file: &FileInfo) -> (r: bool)
        ensures
            r == self.metadata_passes(file),
    {
        if !self.needs_metadata() {
            return true;
        }
        let m = match file.metadata {
            Some(m) => m,
            None => {
                return false;
            },
        };
        if let Some(min) = self.size_greater_than {
            if m.len <= min {
                return false;
            }
        }
        if let Some(max) = self.size_less_than {
            if m.len >= max {
                return false;
            }
        }
        if self.age_days_greater_than.is_some() || self.age_days_less_than.is_some() {
            let t = match m.modified {
                Some(t) => t,
                None => {
                    return false;
                },
            };
            let age = age_days(file.now, t);
            if let Some(min) = self.age_days_greater_than {
                if age <= min {
                    return false;
                }
            }
            if let Some(max) = self.age_days_less_than {
                if age >= max {
                    return false;
                }
            }
        }
        true
    }

    /// Tests what follows the two patterns: size and age, directory or not,
    /// hidden or not.
    pub fn check_attributes(&self, file: &FileInfo) -> (r: bool)
        ensures
            r == self.attributes_pass(file),
    {
        if !self.check_metadata(file) {
            return false;
        }
        if let Some(d) = self.is_directory {
            if file.is_dir != d {
                return false;
            }
        }
        if let Some(h) = self.is_hidden {
            if is_hidden(file.path.as_str()) != h {
                return false;
            }
        }
        true
    }

    /// Decides whether `file` meets the condition. A pattern that does not
    /// compile is reported, unless an earlier test has already failed.
    pub fn matches(&self, file: &FileInfo, cache: &mut PatternCache) -> (r: Result<
        bool,
        InvalidPattern,
    >)
        ensures
            match r {
                Ok(b) => self.verdict(file) == Ok::<bool, PatternKind>(b),
                Err(e) => self.verdict(file) == Err::<bool, PatternKind>(e.kind) && e.pattern@
                    == self.pattern_text(e.kind),
            },
            final(cache)@ == self.cached(file, old(cache)@),
    {
        let path = file.path.as_str();
        if !self.check_extensions(path) {
            return Ok(false);
        }
        if self.name_matches.is_some() || self.name_regex.is_some() {
            let name = match file_name(path) {
                Some(n) => n,
                None => String::new(),
            };
            if let Some(g) = &self.name_matches {
                match cache.check_glob(g.as_str(), name.as_str()) {
                    Ok(true) => {},
                    Ok(false) => {
                        return Ok(false);
                    },
                    Err(e) => {
                        return Err(e);
                    },
                }
            }
            if let Some(x) = &self.name_regex {
                match cache.check_regex(x.as_str(), name.as_str()) {
                    Ok(true) => {},
                    Ok(false) => {
                        return Ok(false);
                    },
                    Err(e) => {
                        return Err(e);
                    },
                }
            }
        }
        Ok(self.check_attributes(file))
    }
}

} // verus!
