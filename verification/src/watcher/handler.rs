//! Debouncing of file-system events.
//!
//! A path that was processed is not processed again until the debounce
//! window has passed: of a burst of events for one path, the first is let
//! through and the others are suppressed. Times are in milliseconds.

use vstd::prelude::*;
use crate::text::views;

verus! {

/// The most entries that the table holds at rest. A table that has grown
/// beyond this is emptied.
pub const MAX_DEBOUNCE_ENTRIES: usize = 10_000;

/// `indexmap::IndexMap`, a hash map that keeps its entries in the order
/// of their insertion. Nothing of its inside is known here.
#[verifier::external_type_specification]
#[verifier::external_body]
#[verifier::reject_recursive_types(K)]
#[verifier::reject_recursive_types(V)]
#[verifier::reject_recursive_types(S)]
pub struct ExIndexMap<K, V, S>(indexmap::IndexMap<K, V, S>);

/// What a table holds: for each path, when it was last let through.
pub uninterp spec fn table_entries(table: indexmap::IndexMap<String, u64>) -> Map<Seq<char>, u64>;

/// The time that has passed at `now` since `last`; none where `last` lies
/// ahead.
pub open spec fn elapsed(now: u64, last: u64) -> int {
    if now >= last {
        now - last
    } else {
        0
    }
}

/// An entry made at `last` is still kept at `now`: less than ten debounce
/// windows, of `window` seconds each, have passed.
pub open spec fn is_kept(now: u64, last: u64, window: u64) -> bool {
    elapsed(now, last) < window * 10_000
}

/// Executable form of [`is_kept`].
pub fn keeps(now: u64, last: u64, window: u64) -> (r: bool)
    ensures
        r == is_kept(now, last, window),
{
    let passed: u64 = if now >= last {
        now - last
    } else {
        0
    };
    (passed as u128) < (window as u128) * 10_000
}

/// The table that holds nothing.
pub open spec fn no_entries() -> Map<Seq<char>, u64> {
    Map::empty()
}

/// `indexmap::IndexMap::new`: a table that holds nothing.
#[verifier::external_body]
fn table_new() -> (r: indexmap::IndexMap<String, u64>)
    ensures
        table_entries(r) == no_entries(),
{
    indexmap::IndexMap::new()
}

/// `indexmap::IndexMap::get`: the time held for `path`, if one is held.
#[verifier::external_body]
fn table_get(table: &indexmap::IndexMap<String, u64>, path: &str) -> (r: Option<u64>)
    ensures
        r == (if table_entries(*table).contains_key(path@) {
            Some(table_entries(*table)[path@])
        } else {
            None
        }),
{
    table.get(path).copied()
}

/// `indexmap::IndexMap::insert`: `path` is held with the time `at`,
/// whether or not it was held before; the other entries stay.
#[verifier::external_body]
fn table_insert(table: &mut indexmap::IndexMap<String, u64>, path: String, at: u64)
    ensures
        table_entries(*final(table)) == table_entries(*old(table)).insert(path@, at),
{
    table.insert(path, at);
}

/// `indexmap::IndexMap::len`: the number of entries.
#[verifier::external_body]
fn table_len(table: &indexmap::IndexMap<String, u64>) -> (r: usize)
    ensures
        r == table_entries(*table).len(),
{
    table.len()
}

/// `indexmap::IndexMap::clear`: the table holds nothing afterwards.
#[verifier::external_body]
fn table_clear(table: &mut indexmap::IndexMap<String, u64>)
    ensures
        table_entries(*final(table)) == no_entries(),
{
    table.clear();
}

/// `indexmap::IndexMap::retain`, keeping the entries that [`keeps`] keeps:
/// those are held as before, the others are gone.
#[verifier::external_body]
fn table_retain_kept(table: &mut indexmap::IndexMap<String, u64>, now: u64, window: u64)
    ensures
        table_entries(*final(table)) == kept_entries(table_entries(*old(table)), now, window),
{
    table.retain(|_, last| keeps(now, *last, window));
}

/// The entries of `entries` that are still kept at `now`.
pub open spec fn kept_entries(entries: Map<Seq<char>, u64>, now: u64, window: u64) -> Map<
    Seq<char>,
    u64,
> {
    Map::new(
        |p: Seq<char>| entries.contains_key(p) && is_kept(now, entries[p], window),
        |p: Seq<char>| entries[p],
    )
}

/// An event for `path` at `now` is let through: the path was not seen, or
/// more than the debounce window has passed since it was let through.
pub open spec fn is_due(entries: Map<Seq<char>, u64>, path: Seq<char>, now: u64, window: u64) -> bool {
    !entries.contains_key(path) || elapsed(now, entries[path]) > window * 1000
}

/// The table once the first `n` of `paths` were handled at `now`, in
/// order: each path that is let through is held with `now`.
pub open spec fn recorded(
    entries: Map<Seq<char>, u64>,
    paths: Seq<Seq<char>>,
    now: u64,
    window: u64,
    n: int,
) -> Map<Seq<char>, u64>
    decreases n,
{
    if n <= 0 {
        entries
    } else {
        let before = recorded(entries, paths, now, window, n - 1);
        if is_due(before, paths[n - 1], now, window) {
            before.insert(paths[n - 1], now)
        } else {
            before
        }
    }
}

/// Those of the first `n` of `paths` that are let through at `now`, in
/// order.
pub open spec fn passed(
    entries: Map<Seq<char>, u64>,
    paths: Seq<Seq<char>>,
    now: u64,
    window: u64,
    n: int,
) -> Seq<Seq<char>>
    decreases n,
{
    if n <= 0 {
        Seq::empty()
    } else {
        let before = recorded(entries, paths, now, window, n - 1);
        let through = passed(entries, paths, now, window, n - 1);
        if is_due(before, paths[n - 1], now, window) {
            through.push(paths[n - 1])
        } else {
            through
        }
    }
}

/// The table at rest: one that has grown beyond [`MAX_DEBOUNCE_ENTRIES`]
/// is emptied.
pub open spec fn capped(entries: Map<Seq<char>, u64>) -> Map<Seq<char>, u64> {
    if entries.len() > MAX_DEBOUNCE_ENTRIES {
        Map::empty()
    } else {
        entries
    }
}

/// The debounce tracker.
pub struct EventHandler {
    recent: indexmap::IndexMap<String, u64>,
    debounce: u64,
}

impl EventHandler {
    /// For each path that is held, when it was last let through.
    pub closed spec fn entries(&self) -> Map<Seq<char>, u64> {
        table_entries(self.recent)
    }

    /// The debounce window in seconds.
    pub closed spec fn window(&self) -> u64 {
        self.debounce
    }

    /// A tracker that holds nothing, with a window of `debounce_seconds`.
    pub fn new(debounce_seconds: u64) -> (r: Self)
        ensures
            r.entries() == Map::<Seq<char>, u64>::empty(),
            r.window() == debounce_seconds,
    {
        EventHandler { recent: table_new(), debounce: debounce_seconds }
    }

    /// Whether an event for `path` at `now` is let through.
    pub fn due(&self, path: &str, now: u64) -> (r: bool)
        ensures
            r == is_due(self.entries(), path@, now, self.window()),
    {
        match table_get(&self.recent, path) {
            Some(last) => {
                let gone: u64 = if now >= last {
                    now - last
                } else {
                    0
                };
                (gone as u128) > (self.debounce as u128) * 1000
            },
            None => true,
        }
    }

    /// Takes in the paths of one event at the time `now` and returns those
    /// to process: each path that was not seen within the debounce window.
    /// Those are held with `now`. A table that has grown beyond
    /// [`MAX_DEBOUNCE_ENTRIES`] is emptied afterwards.
    pub fn should_process(&mut self, paths: &Vec<String>, now: u64) -> (r: Vec<String>)
        ensures
            views(r@) == passed(
                old(self).entries(),
                views(paths@),
                now,
                old(self).window(),
                paths@.len() as int,
            ),
            final(self).entries() == capped(
                recorded(
                    old(self).entries(),
                    views(paths@),
                    now,
                    old(self).window(),
                    paths@.len() as int,
                ),
            ),
            final(self).window() == old(self).window(),
            final(self).entries().len() <= MAX_DEBOUNCE_ENTRIES,
    {
        let mut out: Vec<String> = Vec::new();
        let mut i: usize = 0;
        assert(views(out@) =~= Seq::<Seq<char>>::empty());
        while i < paths.len()
            invariant
                i <= paths.len(),
                self.window() == old(self).window(),
                views(out@) == passed(
                    old(self).entries(),
                    views(paths@),
                    now,
                    old(self).window(),
                    i as int,
                ),
                self.entries() == recorded(
                    old(self).entries(),
                    views(paths@),
                    now,
                    old(self).window(),
                    i as int,
                ),
            decreases paths.len() - i,
        {
            let ghost through = views(out@);
            assert(views(paths@)[i as int] == paths@[i as int]@);
            if self.due(paths[i].as_str(), now) {
                table_insert(&mut self.recent, paths[i].clone(), now);
                out.push(paths[i].clone());
                assert(views(out@) =~= through.push(paths@[i as int]@));
            }
            i += 1;
        }
        if table_len(&self.recent) > MAX_DEBOUNCE_ENTRIES {
            table_clear(&mut self.recent);
        }
        out
    }

    /// Drops the entries that are older than ten debounce windows. Meant
    /// to be called once in each polling cycle.
    pub fn cleanup(&mut self, now: u64)
        ensures
            final(self).entries() == kept_entries(old(self).entries(), now, old(self).window()),
            final(self).window() == old(self).window(),
    {
        table_retain_kept(&mut self.recent, now, self.debounce);
    }

    /// The number of paths held.
    pub fn len(&self) -> (r: usize)
        ensures
            r == self.entries().len(),
    {
        table_len(&self.recent)
    }
}

/// A path that is not held is let through, and is held from then on.
pub proof fn law_first_event_passes(entries: Map<Seq<char>, u64>, p: Seq<char>, now: u64, window: u64)
    requires
        !entries.contains_key(p),
    ensures
        passed(entries, seq![p], now, window, 1) == seq![p],
        recorded(entries, seq![p], now, window, 1) == entries.insert(p, now),
{
    assert(recorded(entries, seq![p], now, window, 0) == entries);
    assert(passed(entries, seq![p], now, window, 0) =~= Seq::<Seq<char>>::empty());
    assert(passed(entries, seq![p], now, window, 1) =~= seq![p]);
}

/// A path that was let through at `t` is suppressed at every `now` up to
/// the end of the debounce window, and the table stays as it is.
pub proof fn law_debounce_suppresses(
    entries: Map<Seq<char>, u64>,
    p: Seq<char>,
    t: u64,
    now: u64,
    window: u64,
)
    requires
        entries.contains_key(p),
        entries[p] == t,
        now - t <= window * 1000,
    ensures
        passed(entries, seq![p], now, window, 1) == Seq::<Seq<char>>::empty(),
        recorded(entries, seq![p], now, window, 1) == entries,
{
    assert(recorded(entries, seq![p], now, window, 0) == entries);
    assert(passed(entries, seq![p], now, window, 0) =~= Seq::<Seq<char>>::empty());
}

/// A path that was let through at `t` is let through again once more than
/// the debounce window has passed, and is held with the new time.
pub proof fn law_debounce_reopens(
    entries: Map<Seq<char>, u64>,
    p: Seq<char>,
    t: u64,
    now: u64,
    window: u64,
)
    requires
        entries.contains_key(p),
        entries[p] == t,
        now - t > window * 1000,
    ensures
        passed(entries, seq![p], now, window, 1) == seq![p],
        recorded(entries, seq![p], now, window, 1) == entries.insert(p, now),
{
    assert(recorded(entries, seq![p], now, window, 0) == entries);
    assert(passed(entries, seq![p], now, window, 0) =~= Seq::<Seq<char>>::empty());
    assert(passed(entries, seq![p], now, window, 1) =~= seq![p]);
}

/// One path through three events: let through at `t`, suppressed within
/// the window, let through again after it.
pub proof fn law_debounce_window(p: Seq<char>, t: u64, soon: u64, late: u64, window: u64)
    requires
        t <= soon,
        soon - t <= window * 1000,
        late - soon >= 0,
        late - t > window * 1000,
    ensures
        ({
            let e0 = Map::<Seq<char>, u64>::empty();
            let e1 = recorded(e0, seq![p], t, window, 1);
            let e2 = recorded(e1, seq![p], soon, window, 1);
            &&& passed(e0, seq![p], t, window, 1) == seq![p]
            &&& passed(e1, seq![p], soon, window, 1) == Seq::<Seq<char>>::empty()
            &&& passed(e2, seq![p], late, window, 1) == seq![p]
        }),
{
    let e0 = Map::<Seq<char>, u64>::empty();
    law_first_event_passes(e0, p, t, window);
    let e1 = e0.insert(p, t);
    law_debounce_suppresses(e1, p, t, soon, window);
    law_debounce_reopens(e1, p, t, late, window);
}

/// Cleaning up never brings a path back within its debounce window: an
/// entry that still suppresses events is kept.
pub proof fn law_cleanup_keeps_what_suppresses(
    entries: Map<Seq<char>, u64>,
    p: Seq<char>,
    now: u64,
    window: u64,
)
    requires
        entries.contains_key(p),
        !is_due(entries, p, now, window),
        window > 0,
    ensures
        kept_entries(entries, now, window).contains_key(p),
        kept_entries(entries, now, window)[p] == entries[p],
{
    assert(elapsed(now, entries[p]) <= window * 1000);
}

} // verus!
