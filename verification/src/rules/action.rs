//! Actions: what is done with a file that a rule matched.

use vstd::prelude::*;
use crate::paths::opt_view;
use crate::text::views;

verus! {

/// One operation on a matched file.
#[derive(Debug, Clone)]
#[allow(inconsistent_fields)]
pub enum Action {
    /// Move the file into the directory `destination`.
    Move {
        destination: String,
        /// Create the directory where it is missing.
        create_destination: bool,
        /// Replace a file of the same name that is already there.
        overwrite: bool,
    },
    /// Copy the file into the directory `destination`.
    Copy { destination: String, create_destination: bool, overwrite: bool },
    /// Rename the file within its directory; `pattern` may hold placeholders.
    Rename { pattern: String },
    /// Move the file into the trash directory.
    Trash,
    /// Delete the file, or the directory with all it holds.
    Delete,
    /// Run a command; `command` and `args` may hold placeholders.
    Run { command: String, args: Vec<String> },
    /// Pack the file, or the directory with all it holds, into a zip archive.
    Archive {
        /// Where the archive goes; the file's own directory where absent.
        destination: Option<String>,
        /// Delete the original once the archive is written.
        delete_original: bool,
    },
    /// Do nothing.
    Nothing,
}

/// What an [`Action`] says, with its texts as sequences of characters.
#[allow(inconsistent_fields)]
pub enum ActionView {
    Move { destination: Seq<char>, create_destination: bool, overwrite: bool },
    Copy { destination: Seq<char>, create_destination: bool, overwrite: bool },
    Rename { pattern: Seq<char> },
    Trash,
    Delete,
    Run { command: Seq<char>, args: Seq<Seq<char>> },
    Archive { destination: Option<Seq<char>>, delete_original: bool },
    Nothing,
}

impl View for Action {
    type V = ActionView;

    open spec fn view(&self) -> ActionView {
        match *self {
            Action::Move { destination, create_destination, overwrite } => ActionView::Move {
                destination: destination@,
                create_destination,
                overwrite,
            },
            Action::Copy { destination, create_destination, overwrite } => ActionView::Copy {
                destination: destination@,
                create_destination,
                overwrite,
            },
            Action::Rename { pattern } => ActionView::Rename { pattern: pattern@ },
            Action::Trash => ActionView::Trash,
            Action::Delete => ActionView::Delete,
            Action::Run { command, args } => ActionView::Run {
                command: command@,
                args: views(args@),
            },
            Action::Archive { destination, delete_original } => ActionView::Archive {
                destination: opt_view(destination),
                delete_original,
            },
            Action::Nothing => ActionView::Nothing,
        }
    }
}

/// A copy of `v`.
pub fn copy_strings(v: &Vec<String>) -> (r: Vec<String>)
    ensures
        r@ == v@,
{
    let mut out: Vec<String> = Vec::new();
    let mut i: usize = 0;
    while i < v.len()
        invariant
            i <= v.len(),
            out@ == v@.take(i as int),
        decreases v.len() - i,
    {
        out.push(v[i].clone());
        i += 1;
    }
    assert(out@ =~= v@);
    out
}

impl Action {
    /// A copy of the action, which says the same.
    pub fn copy(&self) -> (r: Self)
        ensures
            r@ == self@,
    {
        match self {
            Action::Move { destination, create_destination, overwrite } => Action::Move {
                destination: destination.clone(),
                create_destination: *create_destination,
                overwrite: *overwrite,
            },
            Action::Copy { destination, create_destination, overwrite } => Action::Copy {
                destination: destination.clone(),
                create_destination: *create_destination,
                overwrite: *overwrite,
            },
            Action::Rename { pattern } => Action::Rename { pattern: pattern.clone() },
            Action::Trash => Action::Trash,
            Action::Delete => Action::Delete,
            Action::Run { command, args } => Action::Run {
                command: command.clone(),
                args: copy_strings(args),
            },
            Action::Archive { destination, delete_original } => Action::Archive {
                destination: match destination {
                    Some(d) => Some(d.clone()),
                    None => None,
                },
                delete_original: *delete_original,
            },
            Action::Nothing => Action::Nothing,
        }
    }
}

} // verus!
