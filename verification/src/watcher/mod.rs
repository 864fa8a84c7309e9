//! The watcher: which directories are watched, which rules apply below
//! each, and what becomes of the events that arrive.
//!
//! Registering a directory with the operating system, reading its events
//! and walking it are the caller's part. The decisions are here: which
//! events count, which paths are due, which rules may fire for a path, and
//! what an outcome does to the counter of processed files.

pub mod handler;

pub use handler::EventHandler;

use vstd::prelude::*;
use crate::notifications::{
    notified,
    notify_rule_error,
    rule_error_text,
    Notification,
    NotificationKind,
    Notifier,
};
use crate::paths::{is_hidden, is_hidden_path, lies_under, starts_with};
use crate::rules::action::copy_strings;
use crate::rules::cache::{CacheView, InvalidPattern, PatternCache, PatternKind};
use crate::rules::condition::FileInfo;
use crate::rules::control::{Failure, Step};
use crate::rules::engine::{begun, cached_after, selection, RuleEngine};
use crate::rules::executor::{ActionError, ActionRun, Context};
use crate::rules::Rule;
use crate::text::{same_text, views};
use crate::watcher::handler::{capped, kept_entries, passed, recorded};

verus! {

/// Where a watched directory stands. A directory is registered, its
/// files are scanned once in the background, and from then on only its
/// events count. Events are taken in while the scan runs, too.
#[derive(Debug, Clone, Copy, PartialEq, Eq, Structural)]
pub enum WatchState {
    /// The directory is registered and the scan of its files is under way.
    Scanning,
    /// The scan is over.
    Active,
}

/// A watched directory.
#[derive(Debug, Clone)]
pub struct WatchEntry {
    /// The canonical path of the directory.
    pub path: String,
    /// Whether the directories below it are watched too.
    pub recursive: bool,
    /// The names of the rules that may fire below it; empty for all.
    pub rules: Vec<String>,
    /// Whether the scan of the directory is over.
    pub state: WatchState,
}

/// What happened to a path.
#[derive(Debug, Clone, Copy, PartialEq, Eq, Structural)]
pub enum EventKind {
    Create,
    Modify,
    Remove,
    Access,
    Other,
}

/// One event of the file system.
#[derive(Debug, Clone)]
pub struct FsEvent {
    pub kind: EventKind,
    pub paths: Vec<String>,
}

/// What became of one file.
#[derive(Debug, Clone)]
pub enum Outcome {
    /// No rule matched.
    NoMatch,
    /// A rule matched and its action was carried out.
    Done,
    /// A rule matched and its action failed.
    Failed(ActionError),
    /// A pattern of a rule does not compile.
    Invalid(InvalidPattern),
}

/// What the caller does with an outcome.
#[derive(Debug, Clone)]
pub struct Settlement {
    /// The file counts as processed.
    pub counted: bool,
    /// The rule to name in the report of an error, and what went wrong;
    /// `None` where there is nothing to report.
    pub report: Option<(String, String)>,
    /// The notification that is due, if any.
    pub notification: Option<Notification>,
}

/// An event counts where it creates or modifies.
pub open spec fn counts(kind: EventKind) -> bool {
    kind == EventKind::Create || kind == EventKind::Modify
}

/// Those of `paths` that are not hidden, in order.
pub open spec fn visible(paths: Seq<Seq<char>>) -> Seq<Seq<char>> {
    paths.filter(|p: Seq<char>| !is_hidden_path(p))
}

/// The debounce table once the first `n` of `events` were taken in at
/// `now`.
pub open spec fn table_after(
    table: Map<Seq<char>, u64>,
    events: Seq<FsEvent>,
    now: u64,
    window: u64,
    n: int,
) -> Map<Seq<char>, u64>
    decreases n,
{
    if n <= 0 {
        table
    } else {
        let before = table_after(table, events, now, window, n - 1);
        let e = events[n - 1];
        if counts(e.kind) {
            capped(recorded(before, views(e.paths@), now, window, e.paths@.len() as int))
        } else {
            before
        }
    }
}

/// The paths to process once the first `n` of `events` were taken in at
/// `now`: of each event that counts, the paths that are due and not
/// hidden.
pub open spec fn due_after(
    table: Map<Seq<char>, u64>,
    events: Seq<FsEvent>,
    now: u64,
    window: u64,
    n: int,
) -> Seq<Seq<char>>
    decreases n,
{
    if n <= 0 {
        Seq::empty()
    } else {
        let before = table_after(table, events, now, window, n - 1);
        let e = events[n - 1];
        let earlier = due_after(table, events, now, window, n - 1);
        if counts(e.kind) {
            earlier + visible(passed(before, views(e.paths@), now, window, e.paths@.len() as int))
        } else {
            earlier
        }
    }
}

/// The index of the watched directory that decides for `file`, among the
/// first `n` entries: the one with the longest path of those that `file`
/// lies under, the earliest of them where several are as long; `-1` where
/// `file` lies under none.
pub open spec fn deciding_entry(entries: Seq<WatchEntry>, file: Seq<char>, n: int) -> int
    decreases n,
{
    if n <= 0 {
        -1
    } else {
        let best = deciding_entry(entries, file, n - 1);
        if lies_under(file, entries[n - 1].path@) && (best < 0 || entries[n - 1].path@.len()
            > entries[best].path@.len()) {
            n - 1
        } else {
            best
        }
    }
}

/// The names of the rules that may fire for `file`, or `None` where all
/// may: the list of the deciding directory, unless it is empty.
pub open spec fn allowed_for(entries: Seq<WatchEntry>, file: Seq<char>) -> Option<Seq<Seq<char>>> {
    let best = deciding_entry(entries, file, entries.len() as int);
    if best >= 0 && entries[best].rules@.len() > 0 {
        Some(views(entries[best].rules@))
    } else {
        None
    }
}

/// The deciding directory is one that the file lies under, and none that
/// the file lies under has a longer path.
pub proof fn law_longest_prefix_decides(entries: Seq<WatchEntry>, file: Seq<char>, n: int)
    requires
        0 <= n <= entries.len(),
    ensures
        ({
            let best = deciding_entry(entries, file, n);
            &&& -1 <= best < n
            &&& best >= 0 ==> lies_under(file, entries[best].path@)
            &&& forall|j: int|
                0 <= j < n && lies_under(file, #[trigger] entries[j].path@) ==> best >= 0
                    && entries[j].path@.len() <= entries[best].path@.len()
        }),
    decreases n,
{
    if n > 0 {
        law_longest_prefix_decides(entries, file, n - 1);
    }
}

/// The counter after one more file: it wraps around at the largest value.
pub open spec fn bumped(count: u64, by: u64) -> u64 {
    if count + by > u64::MAX {
        (count + by - u64::MAX - 1) as u64
    } else {
        (count + by) as u64
    }
}

/// Adds `by` to `count`; the sum wraps around at the largest value.
pub fn bump(count: u64, by: u64) -> (r: u64)
    ensures
        r == bumped(count, by),
{
    if by > u64::MAX - count {
        by - (u64::MAX - count) - 1
    } else {
        count + by
    }
}

/// The first enabled rule from index `from` on whose condition holds of
/// `file`; a condition with a pattern that does not compile does not hold.
pub open spec fn first_holding(rules: Seq<Rule>, file: &FileInfo, from: int) -> int
    decreases rules.len() - from,
{
    if from < 0 || from >= rules.len() {
        -1
    } else if rules[from].enabled && rules[from].condition.verdict(file) == Ok::<
        bool,
        PatternKind,
    >(true) {
        from
    } else {
        first_holding(rules, file, from + 1)
    }
}

/// What looking for the rule to blame does to a cache of patterns: the
/// condition of each enabled rule is matched, up to the first that holds.
pub open spec fn cached_by_blame(rules: Seq<Rule>, file: &FileInfo, from: int, c: CacheView)
    -> CacheView
    decreases rules.len() - from,
{
    if from < 0 || from >= rules.len() {
        c
    } else if !rules[from].enabled {
        cached_by_blame(rules, file, from + 1, c)
    } else {
        let seen = rules[from].condition.cached(file, c);
        if rules[from].condition.verdict(file) == Ok::<bool, PatternKind>(true) {
            seen
        } else {
            cached_by_blame(rules, file, from + 1, seen)
        }
    }
}

/// The name of the rule to blame for a failure on `file`.
pub open spec fn blamed(rules: Seq<Rule>, file: &FileInfo) -> Seq<char> {
    let i = first_holding(rules, file, 0);
    if i >= 0 {
        rules[i].name@
    } else {
        "unknown"@
    }
}

/// What is said of an outcome that is reported.
pub open spec fn outcome_text(outcome: Outcome) -> Option<Seq<char>> {
    match outcome {
        Outcome::Failed(e) => if e.failure == Failure::NotFound {
            None
        } else {
            Some(e.message@)
        },
        Outcome::Invalid(e) => Some(e.message@),
        _ => None,
    }
}

/// What the initial scan of a directory has seen.
#[derive(Debug, Clone, Copy, PartialEq, Eq, Structural)]
pub struct ScanTally {
    /// The files that were looked at.
    pub scanned: u64,
    /// Those of them for which a rule matched and its action was carried
    /// out.
    pub matched: u64,
}

/// An entry of a directory as the scan sees it.
#[derive(Debug, Clone)]
pub struct ScanEntry {
    pub path: String,
    pub is_file: bool,
    pub is_dir: bool,
    pub is_symlink: bool,
}

impl ScanEntry {
    /// The scan evaluates the rules for this entry: it is a file, no
    /// symbolic link, and not hidden.
    pub open spec fn is_scanned(&self) -> bool {
        self.is_file && !self.is_symlink && !is_hidden_path(self.path@)
    }

    /// The scan goes down into this entry: it is a directory and no
    /// symbolic link, so that no cycle is followed.
    pub open spec fn is_entered(&self) -> bool {
        self.is_dir && !self.is_symlink
    }

    /// Executable form of [`ScanEntry::is_scanned`].
    pub fn scannable(&self) -> (r: bool)
        ensures
            r == self.is_scanned(),
    {
        self.is_file && !self.is_symlink && !is_hidden(self.path.as_str())
    }

    /// Executable form of [`ScanEntry::is_entered`].
    pub fn enterable(&self) -> (r: bool)
        ensures
            r == self.is_entered(),
    {
        self.is_dir && !self.is_symlink
    }
}

/// The paths of the entries that the scan evaluates the rules for, in the
/// order of the entries.
pub open spec fn scanned_paths(entries: Seq<ScanEntry>) -> Seq<Seq<char>> {
    entries.filter(|e: ScanEntry| e.is_scanned()).map_values(|e: ScanEntry| e.path@)
}

/// Picks the entries of a directory that the initial scan evaluates the
/// rules for: the files that are no symbolic links and not hidden.
pub fn scan_candidates(entries: &Vec<ScanEntry>) -> (r: Vec<String>)
    ensures
        views(r@) == scanned_paths(entries@),
{
    let mut out: Vec<String> = Vec::new();
    let ghost keep = |e: ScanEntry| e.is_scanned();
    let ghost path = |e: ScanEntry| e.path@;
    let mut i: usize = 0;
    assert(entries@.take(0) =~= Seq::<ScanEntry>::empty());
    assert(views(out@) =~= entries@.take(0).filter(keep).map_values(path));
    while i < entries.len()
        invariant
            i <= entries.len(),
            keep == |e: ScanEntry| e.is_scanned(),
            path == |e: ScanEntry| e.path@,
            views(out@) == entries@.take(i as int).filter(keep).map_values(path),
        decreases entries.len() - i,
    {
        let ghost before = views(out@);
        let ghost prefix = entries@.take(i as int);
        proof {
            assert(entries@.take(i + 1) =~= prefix.push(entries@[i as int]));
            prefix.lemma_filter_push(entries@[i as int], keep);
        }
        if entries[i].scannable() {
            out.push(entries[i].path.clone());
            assert(views(out@) =~= before.push(entries@[i as int].path@));
            assert(prefix.filter(keep).push(entries@[i as int]).map_values(path)
                =~= prefix.filter(keep).map_values(path).push(entries@[i as int].path@));
        }
        i += 1;
    }
    assert(entries@.take(i as int) =~= entries@);
    out
}

impl ScanTally {
    /// A tally of nothing.
    pub fn new() -> (r: Self)
        ensures
            r.scanned == 0,
            r.matched == 0,
    {
        ScanTally { scanned: 0, matched: 0 }
    }

    /// Takes in the outcome for one more file.
    pub fn record(&mut self, outcome: &Outcome)
        requires
            old(self).scanned < u64::MAX,
            old(self).matched <= old(self).scanned,
        ensures
            final(self).scanned == old(self).scanned + 1,
            final(self).matched == old(self).matched + (if outcome is Done {
                1int
            } else {
                0int
            }),
            final(self).matched <= final(self).scanned,
    {
        self.scanned = self.scanned + 1;
        if let Outcome::Done = outcome {
            self.matched = self.matched + 1;
        }
    }
}

/// The watcher.
///
/// The watched directories are a table from path to rule names. The search
/// for the directory that decides for a file walks the whole table, so the
/// table is kept as a list in which no path stands twice ([`Watcher::wf`]):
/// a list is walked in one order on every machine, and since two different
/// directories above one file never have the same depth, the order does
/// not change which of them decides.
pub struct Watcher {
    engine: RuleEngine,
    event_handler: EventHandler,
    files_processed: u64,
    entries: Vec<WatchEntry>,
    polling_interval_secs: u64,
}

impl Watcher {
    /// The watched directories, in the order in which they were first
    /// registered.
    pub closed spec fn entries(&self) -> Seq<WatchEntry> {
        self.entries@
    }

    /// The rules.
    pub closed spec fn rules(&self) -> Seq<Rule> {
        self.engine@
    }

    /// The debounce table.
    pub closed spec fn table(&self) -> Map<Seq<char>, u64> {
        self.event_handler.entries()
    }

    /// The debounce window in seconds.
    pub closed spec fn window(&self) -> u64 {
        self.event_handler.window()
    }

    /// The number of files processed so far.
    pub closed spec fn count(&self) -> u64 {
        self.files_processed
    }

    /// How often, in seconds, the directories are polled.
    pub closed spec fn interval(&self) -> u64 {
        self.polling_interval_secs
    }

    /// No directory is registered twice.
    pub open spec fn wf(&self) -> bool {
        forall|i: int, j: int|
            0 <= i < j < self.entries().len() ==> (#[trigger] self.entries()[i]).path@
                != (#[trigger] self.entries()[j]).path@
    }

    /// A watcher over `engine` that watches nothing yet and has processed
    /// nothing.
    pub fn new(engine: RuleEngine, polling_interval_secs: u64, debounce_seconds: u64) -> (r: Self)
        ensures
            r.wf(),
            r.rules() == engine@,
            r.entries().len() == 0,
            r.table() == Map::<Seq<char>, u64>::empty(),
            r.window() == debounce_seconds,
            r.interval() == polling_interval_secs,
            r.count() == 0,
    {
        Watcher {
            engine,
            event_handler: EventHandler::new(debounce_seconds),
            files_processed: 0,
            entries: Vec::new(),
            polling_interval_secs,
        }
    }

    /// Registers the directory with the canonical path `path`, with every
    /// rule allowed below it.
    pub fn watch(&mut self, path: &str, recursive: bool) -> (r: Option<Vec<String>>)
        requires
            old(self).wf(),
        ensures
            final(self).wf(),
            final(self).registered(*old(self), path@, recursive, Seq::empty()),
            r is None,
    {
        let rules: Vec<String> = Vec::new();
        assert(views(rules@) =~= Seq::<Seq<char>>::empty());
        self.watch_with_rules(path, recursive, rules)
    }

    /// What registering a directory does: its entry holds the new settings
    /// and awaits its scan, in the place of an earlier entry for the same
    /// path or else at the end, and nothing else changes.
    pub open spec fn registered(
        &self,
        before: Watcher,
        path: Seq<char>,
        recursive: bool,
        rules: Seq<Seq<char>>,
    ) -> bool {
        &&& self.rules() == before.rules()
        &&& self.table() == before.table()
        &&& self.window() == before.window()
        &&& self.interval() == before.interval()
        &&& self.count() == before.count()
        &&& exists|k: int|
            {
                &&& 0 <= k < self.entries().len()
                &&& k <= before.entries().len()
                &&& #[trigger] self.entries()[k].path@ == path
                &&& self.entries()[k].recursive == recursive
                &&& self.entries()[k].state == WatchState::Scanning
                &&& views(self.entries()[k].rules@) == rules
                &&& if k < before.entries().len() {
                    before.entries()[k].path@ == path && self.entries().len()
                        == before.entries().len()
                } else {
                    self.entries().len() == before.entries().len() + 1
                }
                &&& forall|j: int|
                    0 <= j < before.entries().len() && j != k ==> self.entries()[j]
                        == before.entries()[j]
            }
    }

    /// Registers the directory with the canonical path `path`, below which
    /// only the rules named in `rules` may fire; all of them where `rules`
    /// is empty. Returns the filter for the initial scan of the directory.
    pub fn watch_with_rules(&mut self, path: &str, recursive: bool, rules: Vec<String>) -> (r:
        Option<Vec<String>>)
        requires
            old(self).wf(),
        ensures
            final(self).wf(),
            final(self).registered(*old(self), path@, recursive, views(rules@)),
            match r {
                Some(names) => rules@.len() > 0 && views(names@) == views(rules@),
                None => rules@.len() == 0,
            },
    {
        let filter = if rules.len() > 0 {
            Some(copy_strings(&rules))
        } else {
            None
        };
        let entry = WatchEntry {
            path: path.to_owned(),
            recursive,
            rules,
            state: WatchState::Scanning,
        };
        let mut i: usize = 0;
        while i < self.entries.len()
            invariant
                i <= self.entries.len(),
                *self == *old(self),
                self.wf(),
                entry.path@ == path@,
                entry.recursive == recursive,
                entry.state == WatchState::Scanning,
                entry.rules@ == rules@,
                match filter {
                    Some(names) => rules@.len() > 0 && names@ == rules@,
                    None => rules@.len() == 0,
                },
                forall|j: int| 0 <= j < i ==> self.entries@[j].path@ != path@,
            decreases self.entries.len() - i,
        {
            if same_text(self.entries[i].path.as_str(), path) {
                self.entries.set(i, entry);
                assert(self.entries()[i as int].path@ == path@);
                assert(forall|j: int|
                    0 <= j < self.entries().len() && j != i ==> self.entries()[j] == old(
                        self,
                    ).entries()[j]);
                return filter;
            }
            i += 1;
        }
        self.entries.push(entry);
        assert(self.entries()[old(self).entries().len() as int].path@ == path@);
        assert(forall|j: int|
            0 <= j < old(self).entries().len() ==> self.entries()[j] == old(self).entries()[j]);
        filter
    }

    /// The names of the rules that may fire for the file with the canonical
    /// path `file_path`, or `None` where all may. The watched directory
    /// with the longest path of those that the file lies under decides.
    pub fn allowed_rules_for(&self, file_path: &str) -> (r: Option<&[String]>)
        ensures
            match r {
                Some(names) => allowed_for(self.entries(), file_path@) == Some(views(names@)),
                None => allowed_for(self.entries(), file_path@) is None,
            },
    {
        let mut best: Option<usize> = None;
        let mut best_len: usize = 0;
        let mut i: usize = 0;
        while i < self.entries.len()
            invariant
                i <= self.entries.len(),
                match best {
                    Some(b) => b < i && b as int == deciding_entry(
                        self.entries@,
                        file_path@,
                        i as int,
                    ) && best_len == self.entries@[b as int].path@.len(),
                    None => deciding_entry(self.entries@, file_path@, i as int) == -1,
                },
            decreases self.entries.len() - i,
        {
            let entry = &self.entries[i];
            if starts_with(file_path, entry.path.as_str()) {
                let n = entry.path.as_str().unicode_len();
                if best.is_none() || n > best_len {
                    best = Some(i);
                    best_len = n;
                }
            }
            i += 1;
        }
        match best {
            Some(b) => {
                if self.entries[b].rules.len() > 0 {
                    Some(self.entries[b].rules.as_slice())
                } else {
                    None
                }
            },
            None => None,
        }
    }

    /// Takes in the paths of one event that counts.
    fn take_event(&mut self, event: &FsEvent, now: u64, out: &mut Vec<String>)
        requires
            counts(event.kind),
        ensures
            final(self).table() == capped(
                recorded(
                    old(self).table(),
                    views(event.paths@),
                    now,
                    old(self).window(),
                    event.paths@.len() as int,
                ),
            ),
            views(final(out)@) == views(old(out)@) + visible(
                passed(
                    old(self).table(),
                    views(event.paths@),
                    now,
                    old(self).window(),
                    event.paths@.len() as int,
                ),
            ),
            final(self).window() == old(self).window(),
            final(self).entries() == old(self).entries(),
            final(self).rules() == old(self).rules(),
            final(self).count() == old(self).count(),
            final(self).interval() == old(self).interval(),
    {
        let through = self.event_handler.should_process(&event.paths, now);
        let ghost keep = |p: Seq<char>| !is_hidden_path(p);
        let mut i: usize = 0;
        assert(views(through@).take(0) =~= Seq::<Seq<char>>::empty());
        assert(views(out@) + Seq::<Seq<char>>::empty() =~= views(out@));
        while i < through.len()
            invariant
                i <= through.len(),
                keep == |p: Seq<char>| !is_hidden_path(p),
                views(out@) == views(old(out)@) + views(through@).take(i as int).filter(keep),
            decreases through.len() - i,
        {
            let ghost before = views(out@);
            let ghost prefix = views(through@).take(i as int);
            proof {
                assert(views(through@).take(i + 1) =~= prefix.push(through@[i as int]@));
                prefix.lemma_filter_push(through@[i as int]@, keep);
            }
            if !is_hidden(through[i].as_str()) {
                out.push(through[i].clone());
                assert(views(out@) =~= before.push(through@[i as int]@));
                assert(views(old(out)@) + prefix.filter(keep).push(through@[i as int]@)
                    =~= before.push(through@[i as int]@));
            }
            i += 1;
        }
        assert(views(through@).take(i as int) =~= views(through@));
    }

    /// Takes in the events of one polling cycle at the time `now`, in
    /// milliseconds, and returns the paths to process, in the order of the
    /// events. Only events that create or modify count; of their paths,
    /// those that were seen within the debounce window are suppressed and
    /// hidden files are skipped. The debounce table is cleaned up at the
    /// end, whether or not there were events.
    pub fn process_polled_events(&mut self, events: &Vec<FsEvent>, now: u64) -> (r: Vec<String>)
        ensures
            views(r@) == due_after(
                old(self).table(),
                events@,
                now,
                old(self).window(),
                events@.len() as int,
            ),
            final(self).table() == kept_entries(
                table_after(old(self).table(), events@, now, old(self).window(), events@.len() as int),
                now,
                old(self).window(),
            ),
            final(self).window() == old(self).window(),
            final(self).entries() == old(self).entries(),
            final(self).rules() == old(self).rules(),
            final(self).count() == old(self).count(),
            final(self).interval() == old(self).interval(),
    {
        let mut out: Vec<String> = Vec::new();
        let mut i: usize = 0;
        assert(views(out@) =~= Seq::<Seq<char>>::empty());
        while i < events.len()
            invariant
                i <= events.len(),
                views(out@) == due_after(
                    old(self).table(),
                    events@,
                    now,
                    old(self).window(),
                    i as int,
                ),
                self.table() == table_after(
                    old(self).table(),
                    events@,
                    now,
                    old(self).window(),
                    i as int,
                ),
                self.window() == old(self).window(),
                self.entries() == old(self).entries(),
                self.rules() == old(self).rules(),
                self.count() == old(self).count(),
                self.interval() == old(self).interval(),
            decreases events.len() - i,
        {
            let event = &events[i];
            match event.kind {
                EventKind::Create | EventKind::Modify => {
                    self.take_event(event, now, &mut out);
                },
                _ => {},
            }
            i += 1;
        }
        self.event_handler.cleanup(now);
        out
    }

    /// Evaluates the rules that may fire for `file` and begins a run of
    /// the action that was selected. `canonical` is the canonical path of
    /// the file, which decides which rules may fire.
    pub fn begin(&self, file: &FileInfo, canonical: &str, cache: &mut PatternCache, ctx: &Context)
        -> (r: Result<Option<(ActionRun, Step)>, InvalidPattern>)
        ensures
            begun(
                self.rules(),
                file,
                ctx,
                selection(self.rules(), file, allowed_for(self.entries(), canonical@), 0),
                r,
            ),
            final(cache)@ == cached_after(
                self.rules(),
                file,
                allowed_for(self.entries(), canonical@),
                0,
                old(cache)@,
            ),
    {
        let allowed = self.allowed_rules_for(canonical);
        self.engine.process_filtered(file, allowed, cache, ctx)
    }

    /// The name of the first enabled rule whose condition holds of `file`,
    /// or `unknown`.
    pub fn find_matching_rule_name(&self, file: &FileInfo, cache: &mut PatternCache) -> (r: String)
        ensures
            r@ == blamed(self.rules(), file),
            final(cache)@ == cached_by_blame(self.rules(), file, 0, old(cache)@),
    {
        let rules = self.engine.rules();
        let mut i: usize = 0;
        while i < rules.len()
            invariant
                i <= rules.len(),
                rules@ == self.rules(),
                first_holding(self.rules(), file, 0) == first_holding(self.rules(), file, i as int),
                cached_by_blame(self.rules(), file, 0, old(cache)@) == cached_by_blame(
                    self.rules(),
                    file,
                    i as int,
                    cache@,
                ),
            decreases rules.len() - i,
        {
            if rules[i].enabled {
                let holds = match rules[i].condition.matches(file, cache) {
                    Ok(b) => b,
                    Err(_) => false,
                };
                if holds {
                    return rules[i].name.clone();
                }
            }
            i += 1;
        }
        "unknown".to_owned()
    }

    /// Takes in what became of `file`. A file counts as processed only
    /// where a rule matched and its action was carried out. A file that
    /// vanished before it could be processed is passed over in silence;
    /// every other failure is reported with the name of the rule to blame.
    pub fn settle(
        &mut self,
        outcome: &Outcome,
        file: &FileInfo,
        cache: &mut PatternCache,
        notifier: &Notifier,
    ) -> (r: Settlement)
        ensures
            r.counted == (outcome is Done),
            final(self).count() == (if outcome is Done {
                bumped(old(self).count(), 1)
            } else {
                old(self).count()
            }),
            match outcome_text(*outcome) {
                Some(said) => r.report matches Some(pair) && pair.0@ == blamed(
                    old(self).rules(),
                    file,
                ) && pair.1@ == said && notified(
                    *notifier,
                    NotificationKind::RuleError,
                    rule_error_text(blamed(old(self).rules(), file), said),
                    r.notification,
                ),
                None => r.report is None && r.notification is None,
            },
            final(cache)@ == (if outcome_text(*outcome) is Some {
                cached_by_blame(old(self).rules(), file, 0, old(cache)@)
            } else {
                old(cache)@
            }),
            final(self).table() == old(self).table(),
            final(self).window() == old(self).window(),
            final(self).entries() == old(self).entries(),
            final(self).rules() == old(self).rules(),
            final(self).interval() == old(self).interval(),
    {
        let said: Option<String> = match outcome {
            Outcome::Failed(e) => if e.is_not_found() {
                None
            } else {
                Some(e.message.clone())
            },
            Outcome::Invalid(e) => Some(e.message.clone()),
            _ => None,
        };
        if let Outcome::Done = outcome {
            self.files_processed = bump(self.files_processed, 1);
        }
        let counted = match outcome {
            Outcome::Done => true,
            _ => false,
        };
        match said {
            Some(message) => {
                let name = self.find_matching_rule_name(file, cache);
                let notification = notify_rule_error(notifier, name.as_str(), message.as_str());
                Settlement { counted, report: Some((name, message)), notification }
            },
            None => Settlement { counted, report: None, notification: None },
        }
    }

    /// Takes in what the initial scan of a directory has seen: the files
    /// for which an action was carried out count as processed.
    pub fn add_scanned(&mut self, tally: ScanTally)
        ensures
            final(self).count() == (if tally.scanned > 0 {
                bumped(old(self).count(), tally.matched)
            } else {
                old(self).count()
            }),
            final(self).table() == old(self).table(),
            final(self).window() == old(self).window(),
            final(self).entries() == old(self).entries(),
            final(self).rules() == old(self).rules(),
            final(self).interval() == old(self).interval(),
    {
        if tally.scanned > 0 {
            self.files_processed = bump(self.files_processed, tally.matched);
        }
    }

    /// Takes in that the scan of the directory with the canonical path
    /// `path` is over, and what it has seen: the directory is active from
    /// now on, and the files for which an action was carried out count as
    /// processed. Returns whether the directory is watched.
    pub fn finish_scan(&mut self, path: &str, tally: ScanTally) -> (found: bool)
        requires
            old(self).wf(),
        ensures
            final(self).wf(),
            final(self).count() == (if tally.scanned > 0 {
                bumped(old(self).count(), tally.matched)
            } else {
                old(self).count()
            }),
            final(self).entries().len() == old(self).entries().len(),
            forall|j: int|
                0 <= j < old(self).entries().len() ==> (#[trigger] final(self).entries()[j])
                    == (if old(self).entries()[j].path@ == path@ {
                    WatchEntry { state: WatchState::Active, ..old(self).entries()[j] }
                } else {
                    old(self).entries()[j]
                }),
            found == (exists|j: int|
                0 <= j < old(self).entries().len() && (#[trigger] old(self).entries()[j]).path@
                    == path@),
            final(self).table() == old(self).table(),
            final(self).window() == old(self).window(),
            final(self).rules() == old(self).rules(),
            final(self).interval() == old(self).interval(),
    {
        self.add_scanned(tally);
        let mut i: usize = 0;
        while i < self.entries.len()
            invariant
                i <= self.entries.len(),
                self.wf(),
                self.entries().len() == old(self).entries().len(),
                self.entries() == old(self).entries(),
                self.count() == (if tally.scanned > 0 {
                    bumped(old(self).count(), tally.matched)
                } else {
                    old(self).count()
                }),
                self.table() == old(self).table(),
                self.window() == old(self).window(),
                self.rules() == old(self).rules(),
                self.interval() == old(self).interval(),
                forall|j: int| 0 <= j < i ==> (#[trigger] self.entries()[j]).path@ != path@,
            decreases self.entries.len() - i,
        {
            if same_text(self.entries[i].path.as_str(), path) {
                let ghost before = self.entries();
                self.entries[i].state = WatchState::Active;
                assert(self.entries()[i as int] == WatchEntry {
                    state: WatchState::Active,
                    ..before[i as int]
                });
                assert(forall|j: int|
                    0 <= j < before.len() && j != i ==> self.entries()[j] == before[j]);
                return true;
            }
            i += 1;
        }
        false
    }

    /// The number of files processed so far.
    pub fn files_processed(&self) -> (r: u64)
        ensures
            r == self.count(),
    {
        self.files_processed
    }

    /// Takes over the number of processed files from `old_watcher`, so
    /// that the count survives the replacement of one watcher by another.
    pub fn carry_over_files_processed(&mut self, old_watcher: &Watcher)
        ensures
            final(self).count() == old_watcher.count(),
            final(self).table() == old(self).table(),
            final(self).window() == old(self).window(),
            final(self).entries() == old(self).entries(),
            final(self).rules() == old(self).rules(),
            final(self).interval() == old(self).interval(),
    {
        self.files_processed = old_watcher.files_processed();
    }

    /// The watcher that takes the place of this one when the configuration
    /// is loaded again: it watches nothing yet and its debounce table is
    /// empty, but the number of processed files is carried over.
    pub fn reloaded(&self, engine: RuleEngine, polling_interval_secs: u64, debounce_seconds: u64)
        -> (r: Watcher)
        ensures
            r.wf(),
            r.count() == self.count(),
            r.rules() == engine@,
            r.entries().len() == 0,
            r.table() == Map::<Seq<char>, u64>::empty(),
            r.window() == debounce_seconds,
            r.interval() == polling_interval_secs,
    {
        let mut next = Watcher::new(engine, polling_interval_secs, debounce_seconds);
        next.carry_over_files_processed(self);
        next
    }

    /// The rule engine.
    pub fn engine(&self) -> (r: &RuleEngine)
        ensures
            r@ == self.rules(),
    {
        &self.engine
    }

    /// The watched directories.
    pub fn watches(&self) -> (r: &[WatchEntry])
        ensures
            r@ == self.entries(),
    {
        self.entries.as_slice()
    }

    /// How often, in seconds, the directories are polled.
    pub fn polling_interval_secs(&self) -> (r: u64)
        ensures
            r == self.interval(),
    {
        self.polling_interval_secs
    }
}

} // verus!
