//! The rule engine: conditions that select files and actions that are
//! carried out on them.

pub mod action;
pub mod cache;
pub mod condition;
pub mod control;
pub mod engine;
pub mod executor;
pub mod expand;
pub mod patterns;

pub use action::Action;
pub use cache::{CacheView, InvalidPattern, PatternCache, PatternKind};
pub use condition::{Condition, FileInfo, FileMetadata};
pub use engine::RuleEngine;

use vstd::prelude::*;

verus! {

/// A condition, the action for the files that meet it, and whether the rule
/// is in force.
#[derive(Debug, Clone)]
pub struct Rule {
    /// A name for people to read. Names are meant to differ within one
    /// configuration, which nothing enforces.
    pub name: String,
    /// A rule that is not enabled is never applied.
    pub enabled: bool,
    /// Which files the rule applies to.
    pub condition: Condition,
    /// What is done with them.
    pub action: Action,
    /// Carried for configurations that ask for it. Evaluation stops at the
    /// first rule that matches, whatever this says.
    pub stop_processing: bool,
}

impl Rule {
    /// A rule that is enabled.
    pub fn new(name: &str, condition: Condition, action: Action) -> (r: Self)
        ensures
            r.name@ == name@,
            r.enabled,
            r.condition == condition,
            r.action == action,
            !r.stop_processing,
    {
        Rule { name: name.to_owned(), enabled: true, condition, action, stop_processing: false }
    }
}

} // verus!
