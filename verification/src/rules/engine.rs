//! The rule engine: an ordered list of rules, of which the first that
//! matches a file decides what happens to it.

use vstd::prelude::*;
use crate::rules::cache::{CacheView, InvalidPattern, PatternCache, PatternKind};
use crate::rules::condition::FileInfo;
use crate::rules::control::Step;
use crate::rules::executor::{ActionRun, Context};
use crate::rules::{Action, Rule};
use crate::text::views;

verus! {

/// `rule` passes the filter `allowed`: there is no filter, or it is empty,
/// or it holds the rule's name.
pub open spec fn in_filter(rule: Rule, allowed: Option<Seq<Seq<char>>>) -> bool {
    match allowed {
        Some(names) => names.len() == 0 || names.contains(rule.name@),
        None => true,
    }
}

/// `rule` takes part in an evaluation under the filter `allowed`.
pub open spec fn considered(rule: Rule, allowed: Option<Seq<Seq<char>>>) -> bool {
    rule.enabled && in_filter(rule, allowed)
}

/// The outcome of evaluating `rules` from index `from` on, in order:
/// `Ok(Some(i))` where rule `i` is the first considered rule that matches,
/// `Err(i)` where a pattern of rule `i` does not compile and no considered
/// rule before it matches, `Ok(None)` where no considered rule matches.
pub open spec fn selection(
    rules: Seq<Rule>,
    file: &FileInfo,
    allowed: Option<Seq<Seq<char>>>,
    from: int,
) -> Result<Option<int>, int>
    decreases rules.len() - from,
{
    if from < 0 || from >= rules.len() {
        Ok(None)
    } else if !considered(rules[from], allowed) {
        selection(rules, file, allowed, from + 1)
    } else {
        match rules[from].condition.verdict(file) {
            Ok(true) => Ok(Some(from)),
            Ok(false) => selection(rules, file, allowed, from + 1),
            Err(_) => Err(from),
        }
    }
}

/// What [`selection`] returns, said without recursion: the rule it names
/// is considered and decides, and every considered rule before it fails to
/// match.
pub proof fn lemma_selection(
    rules: Seq<Rule>,
    file: &FileInfo,
    allowed: Option<Seq<Seq<char>>>,
    from: int,
)
    requires
        0 <= from,
    ensures
        match selection(rules, file, allowed, from) {
            Ok(Some(i)) => from <= i < rules.len() && considered(rules[i], allowed)
                && rules[i].condition.verdict(file) == Ok::<bool, PatternKind>(true),
            Ok(None) => true,
            Err(i) => from <= i < rules.len() && considered(rules[i], allowed)
                && rules[i].condition.verdict(file) is Err,
        },
        forall|j: int|
            from <= j < rules.len() && considered(#[trigger] rules[j], allowed) && (match selection(
                rules,
                file,
                allowed,
                from,
            ) {
                Ok(Some(i)) => j < i,
                Ok(None) => true,
                Err(i) => j < i,
            }) ==> rules[j].condition.verdict(file) == Ok::<bool, PatternKind>(false),
    decreases rules.len() - from,
{
    if from < rules.len() {
        lemma_selection(rules, file, allowed, from + 1);
    }
}

/// A rule that is not enabled is never the one selected, whatever its
/// condition says of the file.
pub proof fn law_disabled_rule_never_selected(
    rules: Seq<Rule>,
    file: &FileInfo,
    allowed: Option<Seq<Seq<char>>>,
    i: int,
)
    requires
        0 <= i < rules.len(),
        !rules[i].enabled,
    ensures
        selection(rules, file, allowed, 0) != Ok::<Option<int>, int>(Some(i)),
{
    lemma_selection(rules, file, allowed, 0);
}

/// Of two considered rules that both match the file, the later one is never
/// selected: the evaluation ends at the earlier one or before it.
pub proof fn law_first_match_wins(
    rules: Seq<Rule>,
    file: &FileInfo,
    allowed: Option<Seq<Seq<char>>>,
    i: int,
    j: int,
)
    requires
        0 <= i < j < rules.len(),
        considered(rules[i], allowed),
        considered(rules[j], allowed),
        rules[i].condition.verdict(file) == Ok::<bool, PatternKind>(true),
        rules[j].condition.verdict(file) == Ok::<bool, PatternKind>(true),
    ensures
        match selection(rules, file, allowed, 0) {
            Ok(Some(k)) => k <= i,
            Ok(None) => false,
            Err(k) => k < i,
        },
{
    lemma_selection(rules, file, allowed, 0);
}

/// Under a filter that is not empty, the selected rule bears one of the
/// names in the filter.
pub proof fn law_filter_containment(
    rules: Seq<Rule>,
    file: &FileInfo,
    names: Seq<Seq<char>>,
    i: int,
)
    requires
        names.len() > 0,
        selection(rules, file, Some(names), 0) == Ok::<Option<int>, int>(Some(i)),
    ensures
        0 <= i < rules.len(),
        rules[i].enabled,
        names.contains(rules[i].name@),
{
    lemma_selection(rules, file, Some(names), 0);
}

/// An empty filter is no filter: every enabled rule takes part.
pub proof fn law_empty_filter_admits_all(rules: Seq<Rule>, file: &FileInfo, from: int)
    ensures
        selection(rules, file, Some(Seq::empty()), from) == selection(rules, file, None, from),
    decreases rules.len() - from,
{
    if 0 <= from < rules.len() {
        law_empty_filter_admits_all(rules, file, from + 1);
    }
}

/// What evaluating `rules` from index `from` on does to a cache of
/// patterns: the condition of each considered rule is matched, up to the
/// rule that decides.
pub open spec fn cached_after(
    rules: Seq<Rule>,
    file: &FileInfo,
    allowed: Option<Seq<Seq<char>>>,
    from: int,
    c: CacheView,
) -> CacheView
    decreases rules.len() - from,
{
    if from < 0 || from >= rules.len() {
        c
    } else if !considered(rules[from], allowed) {
        cached_after(rules, file, allowed, from + 1, c)
    } else {
        let seen = rules[from].condition.cached(file, c);
        match rules[from].condition.verdict(file) {
            Ok(false) => cached_after(rules, file, allowed, from + 1, seen),
            _ => seen,
        }
    }
}

/// The filter that a list of names stands for.
pub open spec fn filter_of(allowed: Option<&[String]>) -> Option<Seq<Seq<char>>> {
    match allowed {
        Some(names) => Some(views(names@)),
        None => None,
    }
}

/// What an evaluation returns, given the outcome that [`selection`] states.
pub open spec fn answers(
    rules: Seq<Rule>,
    file: &FileInfo,
    outcome: Result<Option<int>, int>,
    r: Result<Option<Action>, InvalidPattern>,
) -> bool {
    match outcome {
        Ok(Some(i)) => r matches Ok(Some(a)) && a@ == rules[i].action@,
        Ok(None) => r matches Ok(None),
        Err(i) => r matches Err(e) && rules[i].condition.verdict(file) == Err::<
            bool,
            PatternKind,
        >(e.kind) && e.pattern@ == rules[i].condition.pattern_text(e.kind),
    }
}

/// What processing returns, given the outcome that [`selection`] states:
/// a run of the selected rule's action that has just begun, with its first
/// step.
pub open spec fn begun(
    rules: Seq<Rule>,
    file: &FileInfo,
    ctx: &Context,
    outcome: Result<Option<int>, int>,
    r: Result<Option<(ActionRun, Step)>, InvalidPattern>,
) -> bool {
    match outcome {
        Ok(Some(i)) => r matches Ok(Some(started)) && started.0.begins(
            started.1,
            rules[i].action@,
            file.path@,
            ctx,
        ),
        Ok(None) => r matches Ok(None),
        Err(i) => r matches Err(e) && rules[i].condition.verdict(file) == Err::<
            bool,
            PatternKind,
        >(e.kind) && e.pattern@ == rules[i].condition.pattern_text(e.kind),
    }
}

/// An ordered list of rules.
pub struct RuleEngine {
    rules: Vec<Rule>,
}

impl View for RuleEngine {
    type V = Seq<Rule>;

    closed spec fn view(&self) -> Seq<Rule> {
        self.rules@
    }
}

/// Whether `names` holds `name`.
pub fn holds_name(names: &[String], name: &String) -> (r: bool)
    ensures
        r == views(names@).contains(name@),
{
    let mut j: usize = 0;
    while j < names.len()
        invariant
            j <= names.len(),
            forall|k: int| 0 <= k < j ==> views(names@)[k] != name@,
        decreases names.len() - j,
    {
        if names[j] == *name {
            assert(views(names@)[j as int] == name@);
            return true;
        }
        j += 1;
    }
    false
}

impl RuleEngine {
    /// An engine that holds `rules` in the given order.
    pub fn new(rules: Vec<Rule>) -> (r: Self)
        ensures
            r@ == rules@,
    {
        RuleEngine { rules }
    }

    /// The action of the first enabled rule that matches `file`, if any.
    pub fn evaluate(&self, file: &FileInfo, cache: &mut PatternCache) -> (r: Result<
        Option<Action>,
        InvalidPattern,
    >)
        ensures
            answers(self@, file, selection(self@, file, None, 0), r),
            final(cache)@ == cached_after(self@, file, None, 0, old(cache)@),
    {
        self.evaluate_filtered(file, None, cache)
    }

    /// The action of the first enabled rule that matches `file` and whose
    /// name is in `allowed_rules`. Without a list, or with an empty one,
    /// every enabled rule takes part.
    pub fn evaluate_filtered(
        &self,
        file: &FileInfo,
        allowed_rules: Option<&[String]>,
        cache: &mut PatternCache,
    ) -> (r: Result<Option<Action>, InvalidPattern>)
        ensures
            answers(self@, file, selection(self@, file, filter_of(allowed_rules), 0), r),
            final(cache)@ == cached_after(self@, file, filter_of(allowed_rules), 0, old(cache)@),
    {
        let ghost allowed = filter_of(allowed_rules);
        let mut i: usize = 0;
        while i < self.rules.len()
            invariant
                i <= self.rules.len(),
                allowed == filter_of(allowed_rules),
                selection(self@, file, allowed, 0) == selection(self@, file, allowed, i as int),
                cached_after(self@, file, allowed, 0, old(cache)@) == cached_after(
                    self@,
                    file,
                    allowed,
                    i as int,
                    cache@,
                ),
            decreases self.rules.len() - i,
        {
            let rule = &self.rules[i];
            let listed = match allowed_rules {
                Some(names) => names.len() == 0 || holds_name(names, &rule.name),
                None => true,
            };
            if rule.enabled && listed {
                match rule.condition.matches(file, cache) {
                    Ok(true) => {
                        return Ok(Some(rule.action.copy()));
                    },
                    Ok(false) => {},
                    Err(e) => {
                        return Err(e);
                    },
                }
            }
            i += 1;
        }
        Ok(None)
    }

    /// Evaluates the rules as [`RuleEngine::evaluate_filtered`] does and
    /// begins a run of the action that was selected. The caller performs
    /// the steps of the run.
    pub fn process_filtered(
        &self,
        file: &FileInfo,
        allowed_rules: Option<&[String]>,
        cache: &mut PatternCache,
        ctx: &Context,
    ) -> (r: Result<Option<(ActionRun, Step)>, InvalidPattern>)
        ensures
            begun(self@, file, ctx, selection(self@, file, filter_of(allowed_rules), 0), r),
            final(cache)@ == cached_after(self@, file, filter_of(allowed_rules), 0, old(cache)@),
    {
        match self.evaluate_filtered(file, allowed_rules, cache) {
            Ok(Some(action)) => {
                let started = ActionRun::start(&action, file.path.as_str(), ctx);
                Ok(Some(started))
            },
            Ok(None) => Ok(None),
            Err(e) => Err(e),
        }
    }

    /// Evaluates the rules as [`RuleEngine::evaluate`] does and begins a
    /// run of the action that was selected. The caller performs the steps
    /// of the run.
    pub fn process(&self, file: &FileInfo, cache: &mut PatternCache, ctx: &Context) -> (r: Result<
        Option<(ActionRun, Step)>,
        InvalidPattern,
    >)
        ensures
            begun(self@, file, ctx, selection(self@, file, None, 0), r),
            final(cache)@ == cached_after(self@, file, None, 0, old(cache)@),
    {
        self.process_filtered(file, None, cache, ctx)
    }

    /// The rules, in order.
    pub fn rules(&self) -> (r: &[Rule])
        ensures
            r@ == self@,
    {
        self.rules.as_slice()
    }

    /// The rules that are enabled, in order.
    pub fn enabled_rules(&self) -> (r: Vec<&Rule>)
        ensures
            r@.map_values(|x: &Rule| *x) == self@.filter(|x: Rule| x.enabled),
    {
        let mut out: Vec<&Rule> = Vec::new();
        let ghost keep = |x: Rule| x.enabled;
        let mut i: usize = 0;
        assert(self@.take(0) =~= Seq::<Rule>::empty());
        assert(out@.map_values(|x: &Rule| *x) =~= Seq::<Rule>::empty());
        while i < self.rules.len()
            invariant
                i <= self.rules.len(),
                keep == |x: Rule| x.enabled,
                out@.map_values(|x: &Rule| *x) == self@.take(i as int).filter(keep),
            decreases self.rules.len() - i,
        {
            let ghost before = out@;
            if self.rules[i].enabled {
                out.push(&self.rules[i]);
            }
            proof {
                let prefix = self@.take(i as int);
                assert(self@.take(i + 1) =~= prefix.push(self@[i as int]));
                prefix.lemma_filter_push(self@[i as int], keep);
                if self@[i as int].enabled {
                    assert(out@.map_values(|x: &Rule| *x) =~= before.map_values(|x: &Rule| *x).push(
                        self@[i as int],
                    ));
                }
            }
            i += 1;
        }
        assert(self@.take(i as int) =~= self@);
        out
    }

    /// Appends `rule` as the last rule.
    pub fn add_rule(&mut self, rule: Rule)
        ensures
            final(self)@ == old(self)@.push(rule),
    {
        self.rules.push(rule);
    }

    /// Removes the rule at `index` and returns it; `None`, and no change,
    /// where there is no such rule.
    pub fn remove_rule(&mut self, index: usize) -> (r: Option<Rule>)
        ensures
            index < old(self)@.len() ==> r == Some(old(self)@[index as int]) && final(self)@
                == old(self)@.remove(index as int),
            index >= old(self)@.len() ==> r is None && final(self)@ == old(self)@,
    {
        if index < self.rules.len() {
            Some(self.rules.remove(index))
        } else {
            None
        }
    }
}

} // verus!
