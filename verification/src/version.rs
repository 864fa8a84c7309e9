//! Versions and updates: whether a published version is newer than the one
//! that runs, and how the program is updated.

use vstd::prelude::*;
use vstd::string::StringExecFns;
use crate::text::{
    find_from,
    has_occurrence,
    index_of,
    next_index_of,
    parse_unsigned,
    parsed_unsigned,
    to_chars,
};

verus! {

/// The numbers among the parts of `s` that dots separate, from index `pos`
/// on and up to index `end`. A part that is no number of 32 bits is left
/// out.
pub open spec fn numbers_from(s: Seq<char>, pos: int, end: int) -> Seq<nat>
    decreases end - pos + 1,
{
    if pos < 0 || pos > end || end > s.len() {
        Seq::empty()
    } else {
        let e = next_index_of(s.take(end), '.', pos);
        let rest = if pos <= e < end {
            numbers_from(s, e + 1, end)
        } else {
            Seq::empty()
        };
        match parsed_unsigned(s.subrange(pos, e), u32::MAX as nat) {
            Some(n) => seq![n] + rest,
            None => rest,
        }
    }
}

/// The numbers of a version: those of the text before the first `-`.
pub open spec fn version_numbers(v: Seq<char>) -> Seq<nat> {
    numbers_from(v, 0, next_index_of(v, '-', 0))
}

/// The number at place `i`, or zero where the version has fewer numbers.
pub open spec fn number_at(parts: Seq<nat>, i: int) -> nat {
    if 0 <= i < parts.len() {
        parts[i]
    } else {
        0
    }
}

/// `latest` is newer than `current`: its first three numbers come later in
/// the order of the dictionary.
pub open spec fn is_newer(latest: Seq<char>, current: Seq<char>) -> bool {
    let l = version_numbers(latest);
    let c = version_numbers(current);
    ||| number_at(l, 0) > number_at(c, 0)
    ||| number_at(l, 0) == number_at(c, 0) && number_at(l, 1) > number_at(c, 1)
    ||| number_at(l, 0) == number_at(c, 0) && number_at(l, 1) == number_at(c, 1) && number_at(l, 2)
        > number_at(c, 2)
}

/// The numbers of the version `v`.
pub fn parse_version(v: &str) -> (r: Vec<u32>)
    ensures
        r@.len() == version_numbers(v@).len(),
        forall|i: int| 0 <= i < r@.len() ==> r@[i] as nat == version_numbers(v@)[i],
{
    let s = to_chars(v);
    assert(s@.take(s@.len() as int) =~= s@);
    let end = index_of(&s, '-', 0, s.len());
    let mut out: Vec<u32> = Vec::new();
    let ghost mut done: Seq<nat> = Seq::empty();
    let mut pos: usize = 0;
    loop
        invariant
            pos <= end <= s.len(),
            s@ == v@,
            end as int == next_index_of(v@, '-', 0),
            out@.len() == done.len(),
            forall|i: int| 0 <= i < done.len() ==> out@[i] as nat == done[i],
            version_numbers(v@) == done + numbers_from(s@, pos as int, end as int),
        decreases end - pos,
    {
        let e = index_of(&s, '.', pos, end);
        let mut part: Vec<char> = Vec::new();
        crate::text::extend_range(&mut part, &s, pos, e);
        let parsed = parse_unsigned(&part, 0xffff_ffff);
        proof {
            assert(part@ == s@.subrange(pos as int, e as int));
            match parsed {
                Some(n) => {
                    done = done.push(n as nat);
                },
                None => {},
            }
        }
        if let Some(n) = parsed {
            out.push(n as u32);
        }
        if e >= end {
            assert(version_numbers(v@) =~= done);
            return out;
        }
        assert(version_numbers(v@) =~= done + numbers_from(s@, e + 1, end as int));
        pos = e + 1;
    }
}

/// Whether the version `latest` is newer than `current`. What follows a
/// `-` in a version does not count.
pub fn version_is_newer(latest: &str, current: &str) -> (r: bool)
    ensures
        r == is_newer(latest@, current@),
{
    let l = parse_version(latest);
    let c = parse_version(current);
    let mut i: usize = 0;
    while i < 3
        invariant
            i <= 3,
            l@.len() == version_numbers(latest@).len(),
            c@.len() == version_numbers(current@).len(),
            forall|k: int| 0 <= k < l@.len() ==> l@[k] as nat == version_numbers(latest@)[k],
            forall|k: int| 0 <= k < c@.len() ==> c@[k] as nat == version_numbers(current@)[k],
            forall|k: int|
                0 <= k < i ==> number_at(version_numbers(latest@), k) == number_at(
                    version_numbers(current@),
                    k,
                ),
        decreases 3 - i,
    {
        let a: u32 = if i < l.len() {
            l[i]
        } else {
            0
        };
        let b: u32 = if i < c.len() {
            c[i]
        } else {
            0
        };
        if a > b {
            return true;
        }
        if a < b {
            return false;
        }
        i += 1;
    }
    false
}

/// What a check for updates found.
#[derive(Debug, Clone)]
pub enum VersionCheck {
    /// The version that runs is the latest.
    UpToDate,
    /// A newer version is published.
    UpdateAvailable { latest: String, current: String },
    /// The check could not be made.
    CheckFailed(String),
}

/// What the registry's answer comes to for the version `current`. `Ok`
/// holds the latest version where the answer names one; `Err` holds why no
/// answer was had.
pub fn check_for_updates_crates_io(answer: Result<Option<String>, String>, current: &str) -> (r:
    VersionCheck)
    ensures
        match answer {
            Ok(Some(latest)) => if is_newer(latest@, current@) {
                r matches VersionCheck::UpdateAvailable { latest: l, current: c } && l@ == latest@
                    && c@ == current@
            } else {
                r is UpToDate
            },
            Ok(None) => r matches VersionCheck::CheckFailed(m) && m@
                == "Could not parse crates.io response"@,
            Err(why) => r matches VersionCheck::CheckFailed(m) && m@ == why@,
        },
{
    match answer {
        Ok(Some(latest)) => {
            if version_is_newer(latest.as_str(), current) {
                VersionCheck::UpdateAvailable { latest, current: String::from_str(current) }
            } else {
                VersionCheck::UpToDate
            }
        },
        Ok(None) => VersionCheck::CheckFailed(
            String::from_str("Could not parse crates.io response"),
        ),
        Err(why) => VersionCheck::CheckFailed(why),
    }
}

/// How the program was installed.
#[derive(Debug, Clone)]
pub enum PackageManager {
    Cargo,
    Homebrew { formula: String },
}

impl PackageManager {
    /// The name of the package manager's command.
    pub fn name(&self) -> (r: &'static str)
        ensures
            r@ == (if self is Cargo {
                "cargo"@
            } else {
                "brew"@
            }),
    {
        match self {
            PackageManager::Cargo => "cargo",
            PackageManager::Homebrew { .. } => "brew",
        }
    }

    /// The command that updates the program.
    pub fn update_command(&self) -> (r: String)
        ensures
            r@ == (match *self {
                PackageManager::Cargo => "cargo install hazelnut"@,
                PackageManager::Homebrew { formula } => "brew upgrade "@ + formula@,
            }),
    {
        match self {
            PackageManager::Cargo => String::from_str("cargo install hazelnut"),
            PackageManager::Homebrew { formula } => {
                let mut s = String::from_str("brew upgrade ");
                s.append(formula.as_str());
                s
            },
        }
    }
}

/// The path of an executable lies in a Homebrew installation.
pub open spec fn in_homebrew(exe: Seq<char>) -> bool {
    has_occurrence(exe, "/Cellar/"@) || has_occurrence(exe, "/homebrew/"@)
}

/// Whether the path of an executable lies in a Homebrew installation.
pub fn is_homebrew_path(exe: &str) -> (r: bool)
    ensures
        r == in_homebrew(exe@),
{
    let p = to_chars(exe);
    find_from(&p, &to_chars("/Cellar/"), 0).is_some() || find_from(
        &p,
        &to_chars("/homebrew/"),
        0,
    ).is_some()
}

/// How the program was installed, going by the path of its executable.
/// `formula` is the full name that Homebrew gives for the program, where it
/// could be asked.
pub fn detect_package_manager(exe: Option<&str>, formula: Option<String>) -> (r: PackageManager)
    ensures
        match exe {
            Some(path) if in_homebrew(path@) => r matches PackageManager::Homebrew { formula: f }
                && f@ == (match formula {
                Some(full) => full@,
                None => "hazelnut"@,
            }),
            _ => r is Cargo,
        },
{
    match exe {
        Some(path) => {
            if is_homebrew_path(path) {
                match formula {
                    Some(full) => PackageManager::Homebrew { formula: full },
                    None => PackageManager::Homebrew { formula: String::from_str("hazelnut") },
                }
            } else {
                PackageManager::Cargo
            }
        },
        None => PackageManager::Cargo,
    }
}

/// One command of an update.
#[derive(Debug, Clone, Copy, PartialEq, Eq, Structural)]
pub enum UpdateStep {
    /// `cargo install hazelnut`.
    CargoInstall,
    /// `brew update`, which brings the formulas up to date.
    BrewUpdate,
    /// `brew upgrade` with the formula.
    BrewUpgrade,
    /// `brew reinstall` with the formula.
    BrewReinstall,
    /// The update is installed.
    Done,
    /// The update failed: the last command ended without success.
    Failed,
    /// The update failed: the last command could not be run.
    CouldNotRun,
}

/// How a command of an update went.
#[derive(Debug, Clone, Copy, PartialEq, Eq, Structural)]
pub enum CommandOutcome {
    /// The command ended with success.
    Succeeded,
    /// The command ended without success.
    Failed,
    /// The command could not be run.
    CouldNotRun,
}

/// The first command of an update with the given package manager.
pub open spec fn first_update_step(pm: PackageManager) -> UpdateStep {
    if pm is Cargo {
        UpdateStep::CargoInstall
    } else {
        UpdateStep::BrewUpdate
    }
}

/// What follows the command `step` once it went as `outcome` says. How
/// `brew update` went does not matter; an upgrade that ends without
/// success, as it does where nothing is to upgrade, is followed by a
/// reinstall.
pub open spec fn next_update_step(step: UpdateStep, outcome: CommandOutcome) -> UpdateStep {
    match (step, outcome) {
        (UpdateStep::BrewUpdate, _) => UpdateStep::BrewUpgrade,
        (UpdateStep::CargoInstall, CommandOutcome::Succeeded) => UpdateStep::Done,
        (UpdateStep::BrewUpgrade, CommandOutcome::Succeeded) => UpdateStep::Done,
        (UpdateStep::BrewReinstall, CommandOutcome::Succeeded) => UpdateStep::Done,
        (UpdateStep::BrewUpgrade, CommandOutcome::Failed) => UpdateStep::BrewReinstall,
        (UpdateStep::CargoInstall, CommandOutcome::Failed) => UpdateStep::Failed,
        (UpdateStep::BrewReinstall, CommandOutcome::Failed) => UpdateStep::Failed,
        (UpdateStep::CargoInstall, CommandOutcome::CouldNotRun) => UpdateStep::CouldNotRun,
        (UpdateStep::BrewUpgrade, CommandOutcome::CouldNotRun) => UpdateStep::CouldNotRun,
        (UpdateStep::BrewReinstall, CommandOutcome::CouldNotRun) => UpdateStep::CouldNotRun,
        (ended, _) => ended,
    }
}

/// The first command of an update with the package manager `pm`.
pub fn run_update(pm: &PackageManager) -> (r: UpdateStep)
    ensures
        r == first_update_step(*pm),
{
    match pm {
        PackageManager::Cargo => UpdateStep::CargoInstall,
        PackageManager::Homebrew { .. } => UpdateStep::BrewUpdate,
    }
}

/// The command that follows `step`, or how the update ended.
pub fn continue_update(step: UpdateStep, outcome: CommandOutcome) -> (r: UpdateStep)
    ensures
        r == next_update_step(step, outcome),
{
    match (step, outcome) {
        (UpdateStep::BrewUpdate, _) => UpdateStep::BrewUpgrade,
        (UpdateStep::CargoInstall, CommandOutcome::Succeeded) => UpdateStep::Done,
        (UpdateStep::BrewUpgrade, CommandOutcome::Succeeded) => UpdateStep::Done,
        (UpdateStep::BrewReinstall, CommandOutcome::Succeeded) => UpdateStep::Done,
        (UpdateStep::BrewUpgrade, CommandOutcome::Failed) => UpdateStep::BrewReinstall,
        (UpdateStep::CargoInstall, CommandOutcome::Failed) => UpdateStep::Failed,
        (UpdateStep::BrewReinstall, CommandOutcome::Failed) => UpdateStep::Failed,
        (UpdateStep::CargoInstall, CommandOutcome::CouldNotRun) => UpdateStep::CouldNotRun,
        (UpdateStep::BrewUpgrade, CommandOutcome::CouldNotRun) => UpdateStep::CouldNotRun,
        (UpdateStep::BrewReinstall, CommandOutcome::CouldNotRun) => UpdateStep::CouldNotRun,
        (ended, _) => ended,
    }
}

} // verus!
