//! Runs of actions: the machine of [`crate::rules::control`] together with
//! the paths and commands that its steps work on.

use vstd::prelude::*;
use vstd::string::StringExecFns;
use crate::notifications::{
    command_error_text,
    notified,
    notify_command_error,
    Notification,
    NotificationKind,
    Notifier,
};
use crate::paths::{
    extension,
    extension_of,
    file_name,
    file_name_of,
    file_stem,
    file_stem_of,
    join,
    joined,
    opt_view,
    parent,
    parent_of,
};
use crate::rules::action::{Action, ActionView};
use crate::rules::condition::name_or_empty;
use crate::rules::control::{ActionKind, Control, Failure, Phase, Signal, Step, Turn};
use crate::rules::expand::{
    expand_path,
    expand_pattern,
    expand_pattern_shell_escaped,
    expanded,
    path_expanded,
    Environment,
    Moment,
    Quoting,
};
use crate::text::{
    decimal_digits,
    find_from,
    from_chars,
    has_occurrence,
    push_decimal,
    push_str,
    split_whitespace,
    to_chars,
    views,
    words,
};

verus! {

/// The shell that commands with shell operators are run through.
#[derive(Debug, Clone, Copy, PartialEq, Eq, Structural)]
pub enum Shell {
    /// `sh -c`.
    Sh,
    /// `cmd /C`, the command shell of Windows.
    Cmd,
}

impl Shell {
    /// The shell of the platform: `cmd` on Windows, `sh` elsewhere.
    pub fn of_platform(windows: bool) -> (r: Shell)
        ensures
            r == (if windows {
                Shell::Cmd
            } else {
                Shell::Sh
            }),
    {
        if windows {
            Shell::Cmd
        } else {
            Shell::Sh
        }
    }

    /// The program of the shell.
    pub open spec fn program_text(self) -> Seq<char> {
        match self {
            Shell::Sh => "sh"@,
            Shell::Cmd => "cmd"@,
        }
    }

    /// The option after which the shell takes the command.
    pub open spec fn flag_text(self) -> Seq<char> {
        match self {
            Shell::Sh => "-c"@,
            Shell::Cmd => "/C"@,
        }
    }

    /// The program of the shell.
    pub fn program(&self) -> (r: &'static str)
        ensures
            r@ == self.program_text(),
    {
        match self {
            Shell::Sh => "sh",
            Shell::Cmd => "cmd",
        }
    }

    /// The option after which the shell takes the command.
    pub fn flag(&self) -> (r: &'static str)
        ensures
            r@ == self.flag_text(),
    {
        match self {
            Shell::Sh => "-c",
            Shell::Cmd => "/C",
        }
    }
}

/// What the machine is told of the world before a run begins.
#[derive(Debug, Clone)]
pub struct Context {
    /// The home directory and the environment variables.
    pub env: Environment,
    /// The shell of the platform.
    pub shell: Shell,
    /// How the platform's shell wants the parts of a path written.
    pub quoting: Quoting,
    /// The directory that trashed files are moved into.
    pub trash_dir: String,
    /// The time, for the placeholders that stand for dates.
    pub now: Moment,
}

/// The directory that trashed files are moved into: `Trash/files` in the
/// platform's data directory, else `.local/share/Trash/files` below the
/// home directory, else `/tmp/trash`.
pub open spec fn trash_dir_of(data_dir: Option<Seq<char>>, home: Option<Seq<char>>) -> Seq<char> {
    match (data_dir, home) {
        (Some(d), _) => joined(joined(d, "Trash"@), "files"@),
        (None, Some(h)) => joined(h, ".local/share/Trash/files"@),
        (None, None) => "/tmp/trash"@,
    }
}

/// The directory that trashed files are moved into.
pub fn trash_directory(data_dir: Option<&str>, home: Option<&str>) -> (r: String)
    ensures
        r@ == trash_dir_of(
            match data_dir {
                Some(d) => Some(d@),
                None => None,
            },
            match home {
                Some(h) => Some(h@),
                None => None,
            },
        ),
{
    match (data_dir, home) {
        (Some(d), _) => join(join(d, "Trash").as_str(), "files"),
        (None, Some(h)) => join(h, ".local/share/Trash/files"),
        (None, None) => String::from_str("/tmp/trash"),
    }
}

/// How the last step went, with what the caller has to say of it.
#[derive(Debug, Clone)]
pub enum Event {
    /// The step was performed.
    Succeeded,
    /// The step failed; `not_found` where a file was not there.
    Failed { not_found: bool, message: String },
    /// The answer to a probe.
    Answer(bool),
    /// The command ran and ended; `status` is how its exit status reads.
    Exited { success: bool, status: String },
}

impl Event {
    /// What the machine goes by.
    pub open spec fn signal(&self) -> Signal {
        match *self {
            Event::Succeeded => Signal::Succeeded,
            Event::Failed { not_found, message } => Signal::Failed { not_found },
            Event::Answer(b) => Signal::Answer(b),
            Event::Exited { success, status } => Signal::Exited { success },
        }
    }

    /// What the caller said of a failure, or the empty text.
    pub open spec fn text(&self) -> Seq<char> {
        match *self {
            Event::Failed { not_found, message } => message@,
            Event::Exited { success, status } => status@,
            _ => Seq::empty(),
        }
    }

    /// Executable form of [`Event::signal`].
    pub fn to_signal(&self) -> (r: Signal)
        ensures
            r == self.signal(),
    {
        match self {
            Event::Succeeded => Signal::Succeeded,
            Event::Failed { not_found, .. } => Signal::Failed { not_found: *not_found },
            Event::Answer(b) => Signal::Answer(*b),
            Event::Exited { success, .. } => Signal::Exited { success: *success },
        }
    }
}

/// Why an action failed, in a word and in a sentence.
#[derive(Debug, Clone)]
pub struct ActionError {
    pub failure: Failure,
    pub message: String,
}

impl ActionError {
    /// Whether the action failed because a file was not there: the file
    /// vanished between the event and the action, which is no error.
    pub fn is_not_found(&self) -> (r: bool)
        ensures
            r == (self.failure == Failure::NotFound),
    {
        self.failure == Failure::NotFound
    }
}

/// A command goes through the shell where it holds one of `&&`, `||`, `;`,
/// `|`, `>`, `<`.
pub open spec fn has_shell_operator(command: Seq<char>) -> bool {
    ||| has_occurrence(command, "&&"@)
    ||| has_occurrence(command, "||"@)
    ||| has_occurrence(command, ";"@)
    ||| has_occurrence(command, "|"@)
    ||| has_occurrence(command, ">"@)
    ||| has_occurrence(command, "<"@)
}

/// Executable form of [`has_shell_operator`].
pub fn uses_shell(command: &str) -> (r: bool)
    ensures
        r == has_shell_operator(command@),
{
    let c = to_chars(command);
    find_from(&c, &to_chars("&&"), 0).is_some() || find_from(&c, &to_chars("||"), 0).is_some()
        || find_from(&c, &to_chars(";"), 0).is_some() || find_from(&c, &to_chars("|"), 0).is_some()
        || find_from(&c, &to_chars(">"), 0).is_some() || find_from(&c, &to_chars("<"), 0).is_some()
}

/// The directory of `path`, or `.` where it has none.
pub open spec fn parent_or_dot(path: Seq<char>) -> Seq<char> {
    match parent_of(path) {
        Some(p) => p,
        None => "."@,
    }
}

/// `pattern` expanded for `path`, or `pattern` itself where it cannot be
/// expanded.
pub open spec fn expanded_or_same(
    pattern: Seq<char>,
    path: Seq<char>,
    at: Moment,
    quoting: Quoting,
) -> Seq<char> {
    match expanded(pattern, path, at, quoting) {
        Some(s) => s,
        None => pattern,
    }
}

/// Each of `args` expanded for `path`.
pub open spec fn expanded_args(args: Seq<Seq<char>>, path: Seq<char>, at: Moment) -> Seq<Seq<char>> {
    Seq::new(args.len(), |i: int| expanded_or_same(args[i], path, at, Quoting::Plain))
}

/// The name under which a file goes to the trash once `n` names were
/// found taken there: its stem, `_`, `n` and its extension.
pub open spec fn trash_name(stem: Seq<char>, suffix: Seq<char>, n: nat) -> Seq<char> {
    stem + seq!['_'] + decimal_digits(n) + suffix
}

/// The extension of `path` with its dot, or the empty text.
pub open spec fn dotted_extension(path: Seq<char>) -> Seq<char> {
    match extension_of(path) {
        Some(e) => seq!['.'] + e,
        None => Seq::empty(),
    }
}

/// The stem of `path`, or the empty text.
pub open spec fn stem_or_empty(path: Seq<char>) -> Seq<char> {
    match file_stem_of(path) {
        Some(s) => s,
        None => Seq::empty(),
    }
}

/// The settings of a run before its first turn.
pub open spec fn fresh(kind: ActionKind) -> Control {
    Control {
        kind,
        phase: Phase::Finished,
        create_destination: false,
        overwrite: false,
        delete_original: false,
        shell: false,
        has_name: true,
        expands: true,
        has_program: true,
        attempt: 0,
    }
}

/// The texts of a run and its settings, as the action, the path and the
/// context determine them.
pub struct Plan {
    pub control: Control,
    pub directory: Seq<char>,
    pub target: Seq<char>,
    pub command: Seq<char>,
    pub arguments: Seq<Seq<char>>,
    pub stem: Seq<char>,
    pub suffix: Seq<char>,
}

/// A plan that holds no text.
pub open spec fn bare(control: Control) -> Plan {
    Plan {
        control,
        directory: Seq::empty(),
        target: Seq::empty(),
        command: Seq::empty(),
        arguments: Seq::empty(),
        stem: Seq::empty(),
        suffix: Seq::empty(),
    }
}

/// The plan of a run of `action` on `path`.
#[verifier::opaque]
pub open spec fn plan_of(action: ActionView, path: Seq<char>, ctx: &Context) -> Plan {
    let home = opt_view(ctx.env.home);
    let vars = ctx.env.vars@;
    let named = file_name_of(path) is Some;
    match action {
        ActionView::Move { destination, create_destination, overwrite } => {
            let dir = path_expanded(destination, home, vars);
            Plan {
                directory: dir,
                target: joined(dir, name_or_empty(path)),
                ..bare(
                    Control {
                        create_destination,
                        overwrite,
                        has_name: named,
                        ..fresh(ActionKind::Move)
                    },
                )
            }
        },
        ActionView::Copy { destination, create_destination, overwrite } => {
            let dir = path_expanded(destination, home, vars);
            Plan {
                directory: dir,
                target: joined(dir, name_or_empty(path)),
                ..bare(
                    Control {
                        create_destination,
                        overwrite,
                        has_name: named,
                        ..fresh(ActionKind::Copy)
                    },
                )
            }
        },
        ActionView::Rename { pattern } => {
            let name = expanded(pattern, path, ctx.now, Quoting::Plain);
            Plan {
                target: match name {
                    Some(n) => joined(parent_or_dot(path), n),
                    None => Seq::empty(),
                },
                ..bare(Control { expands: name is Some, ..fresh(ActionKind::Rename) })
            }
        },
        ActionView::Trash => Plan {
            directory: ctx.trash_dir@,
            target: joined(ctx.trash_dir@, name_or_empty(path)),
            stem: stem_or_empty(path),
            suffix: dotted_extension(path),
            ..bare(Control { has_name: named, ..fresh(ActionKind::Trash) })
        },
        ActionView::Delete => bare(fresh(ActionKind::Delete)),
        ActionView::Run { command, args } => {
            if has_shell_operator(command) && args.len() == 0 {
                Plan {
                    command: expanded_or_same(command, path, ctx.now, ctx.quoting),
                    ..bare(Control { shell: true, ..fresh(ActionKind::Run) })
                }
            } else if args.len() == 0 && has_occurrence(command, " "@) {
                let w = words(command);
                if w.len() == 0 {
                    bare(Control { has_program: false, ..fresh(ActionKind::Run) })
                } else {
                    Plan { command: w[0], arguments: w.skip(1), ..bare(fresh(ActionKind::Run)) }
                }
            } else {
                Plan {
                    command,
                    arguments: expanded_args(args, path, ctx.now),
                    ..bare(fresh(ActionKind::Run))
                }
            }
        },
        ActionView::Archive { destination, delete_original } => {
            let dir = match destination {
                Some(d) => path_expanded(d, home, vars),
                None => parent_or_dot(path),
            };
            Plan {
                directory: dir,
                target: joined(dir, stem_or_empty(path) + ".zip"@),
                ..bare(
                    Control {
                        delete_original,
                        has_name: file_stem_of(path) is Some,
                        ..fresh(ActionKind::Archive)
                    },
                )
            }
        },
        ActionView::Nothing => bare(fresh(ActionKind::Nothing)),
    }
}

/// What is said of a failure.
pub open spec fn failure_text(why: Failure, target: Seq<char>, said: Seq<char>, exited: bool) -> Seq<
    char,
> {
    match why {
        Failure::NoFileName => "File has no name"@,
        Failure::AlreadyExists => "Destination exists and overwrite is false: "@ + target,
        Failure::NotFound => said,
        Failure::Io => said,
        Failure::CommandFailed => if exited {
            "Command failed with status: "@ + said
        } else {
            said
        },
        Failure::EmptyCommand => "Command is empty"@,
        Failure::BadDateFormat => "Pattern holds a date format that cannot be written"@,
        Failure::TrashFull => "No free name in the trash"@,
        Failure::OutOfTurn => "Unexpected event"@,
    }
}

/// One run of an action on one file.
#[derive(Debug, Clone)]
pub struct ActionRun {
    /// The state of the machine.
    pub control: Control,
    /// The file that the action is carried out on.
    pub source: String,
    /// The directory that [`Step::CreateDirectory`] creates.
    pub directory: String,
    /// The path that the steps write to and probe.
    pub target: String,
    /// The shell that [`Step::RunShell`] runs the command through.
    pub shell: Shell,
    /// The command of [`Step::RunShell`], the program of
    /// [`Step::RunProgram`].
    pub command: String,
    /// The arguments of [`Step::RunProgram`].
    pub arguments: Vec<String>,
    /// The file's name without its extension, for names in the trash.
    pub stem: String,
    /// The file's extension with its dot, for names in the trash.
    pub suffix: String,
    /// Why the run failed, once it has.
    pub error: Option<ActionError>,
    /// How the exit status of the command reads, once it ended without
    /// success.
    pub exit_status: Option<String>,
}

impl ActionRun {
    /// The texts and settings of the run are those of `plan`, but for the
    /// phase.
    pub open spec fn follows(&self, plan: Plan) -> bool {
        &&& self.control == Control { phase: self.control.phase, ..plan.control }
        &&& self.directory@ == plan.directory
        &&& self.target@ == plan.target
        &&& self.command@ == plan.command
        &&& views(self.arguments@) == plan.arguments
        &&& self.stem@ == plan.stem
        &&& self.suffix@ == plan.suffix
    }

    /// The run is one of `action` on `path` that has just begun, and `step`
    /// is its first step.
    pub open spec fn begins(&self, step: Step, action: ActionView, path: Seq<char>, ctx: &Context)
        -> bool {
        let plan = plan_of(action, path, ctx);
        &&& self.follows(plan)
        &&& plan.control.phase == Phase::Finished
        &&& self.control == plan.control.first().control
        &&& step == plan.control.first().step
        &&& self.reports(plan.control.first().failure, Seq::empty(), false)
        &&& self.source@ == path
        &&& self.shell == ctx.shell
        &&& self.exit_status is None
    }

    /// The error of the run is the one that `failure` asks for.
    pub open spec fn reports(&self, failure: Option<Failure>, said: Seq<char>, exited: bool) -> bool {
        match failure {
            Some(why) => self.error matches Some(e) && e.failure == why && e.message@
                == failure_text(why, self.target@, said, exited),
            None => self.error is None,
        }
    }
}

impl Action {
    /// Begins to carry out the action on the file `path`. The action is
    /// carried out step by step: the caller performs the step that is
    /// returned and hands how it went to [`ActionRun::advance`].
    pub fn execute(&self, path: &str, ctx: &Context) -> (r: (ActionRun, Step))
        ensures
            r.0.begins(r.1, self@, path@, ctx),
    {
        ActionRun::start(self, path, ctx)
    }
}

/// The message for the failure `why`.
fn describe(why: Failure, target: &str, event: Option<&Event>) -> (r: String)
    ensures
        r@ == failure_text(
            why,
            target@,
            match event {
                Some(e) => e.text(),
                None => Seq::empty(),
            },
            event matches Some(e) && e is Exited,
        ),
{
    let said: String = match event {
        Some(Event::Failed { message, .. }) => message.clone(),
        Some(Event::Exited { status, .. }) => status.clone(),
        _ => String::new(),
    };
    let exited = match event {
        Some(Event::Exited { .. }) => true,
        _ => false,
    };
    match why {
        Failure::NoFileName => String::from_str("File has no name"),
        Failure::AlreadyExists => {
            let mut s = String::from_str("Destination exists and overwrite is false: ");
            s.append(target);
            s
        },
        Failure::NotFound => said,
        Failure::Io => said,
        Failure::CommandFailed => if exited {
            let mut s = String::from_str("Command failed with status: ");
            s.append(said.as_str());
            s
        } else {
            said
        },
        Failure::EmptyCommand => String::from_str("Command is empty"),
        Failure::BadDateFormat => String::from_str(
            "Pattern holds a date format that cannot be written",
        ),
        Failure::TrashFull => String::from_str("No free name in the trash"),
        Failure::OutOfTurn => String::from_str("Unexpected event"),
    }
}

/// Expands each of `args` for `path`; one that cannot be expanded stays as
/// it is.
pub fn expand_args(args: &Vec<String>, path: &str, at: Moment) -> (r: Vec<String>)
    ensures
        views(r@) == expanded_args(views(args@), path@, at),
{
    let mut out: Vec<String> = Vec::new();
    let mut i: usize = 0;
    while i < args.len()
        invariant
            i <= args.len(),
            out@.len() == i,
            forall|k: int|
                0 <= k < i ==> (#[trigger] out@[k])@ == expanded_or_same(args@[k]@, path@, at, Quoting::Plain),
        decreases args.len() - i,
    {
        let e = match expand_pattern(args[i].as_str(), path, at) {
            Ok(s) => s,
            Err(_) => args[i].clone(),
        };
        out.push(e);
        i += 1;
    }
    assert(views(out@) =~= expanded_args(views(args@), path@, at));
    out
}

/// The name of `path`, or the empty string.
fn name_of(path: &str) -> (r: (String, bool))
    ensures
        r.0@ == name_or_empty(path@),
        r.1 == (file_name_of(path@) is Some),
{
    match file_name(path) {
        Some(n) => (n, true),
        None => (String::new(), false),
    }
}

/// The directory of `path`, or `.`.
fn directory_of(path: &str) -> (r: String)
    ensures
        r@ == parent_or_dot(path@),
{
    match parent(path) {
        Some(p) => p,
        None => String::from_str("."),
    }
}

impl ActionRun {
    /// A run that holds no text yet.
    fn blank(kind: ActionKind, path: &str, shell: Shell) -> (r: Self)
        ensures
            r.follows(bare(fresh(kind))),
            r.control.phase == Phase::Finished,
            r.source@ == path@,
            r.shell == shell,
            r.error is None,
            r.exit_status is None,
    {
        let r = ActionRun {
            control: Control {
                kind,
                phase: Phase::Finished,
                create_destination: false,
                overwrite: false,
                delete_original: false,
                shell: false,
                has_name: true,
                expands: true,
                has_program: true,
                attempt: 0,
            },
            source: String::from_str(path),
            directory: String::new(),
            target: String::new(),
            shell,
            command: String::new(),
            arguments: Vec::new(),
            stem: String::new(),
            suffix: String::new(),
            error: None,
            exit_status: None,
        };
        assert(views(r.arguments@) =~= Seq::<Seq<char>>::empty());
        r
    }

    /// Lays out the run of `action` on `path`: its settings and texts.
    fn lay_out(action: &Action, path: &str, ctx: &Context) -> (r: Self)
        ensures
            r.follows(plan_of(action@, path@, ctx)),
            r.control == plan_of(action@, path@, ctx).control,
            r.control.phase == Phase::Finished,
            r.source@ == path@,
            r.shell == ctx.shell,
            r.error is None,
            r.exit_status is None,
    {
        reveal(plan_of);
        match action {
            Action::Move { destination, create_destination, overwrite } => {
                let mut r = Self::blank(ActionKind::Move, path, ctx.shell);
                let (name, named) = name_of(path);
                r.directory = expand_path(destination.as_str(), &ctx.env);
                r.target = join(r.directory.as_str(), name.as_str());
                r.control.create_destination = *create_destination;
                r.control.overwrite = *overwrite;
                r.control.has_name = named;
                r
            },
            Action::Copy { destination, create_destination, overwrite } => {
                let mut r = Self::blank(ActionKind::Copy, path, ctx.shell);
                let (name, named) = name_of(path);
                r.directory = expand_path(destination.as_str(), &ctx.env);
                r.target = join(r.directory.as_str(), name.as_str());
                r.control.create_destination = *create_destination;
                r.control.overwrite = *overwrite;
                r.control.has_name = named;
                r
            },
            Action::Rename { pattern } => {
                let mut r = Self::blank(ActionKind::Rename, path, ctx.shell);
                match expand_pattern(pattern.as_str(), path, ctx.now) {
                    Ok(name) => {
                        r.target = join(directory_of(path).as_str(), name.as_str());
                    },
                    Err(_) => {
                        r.control.expands = false;
                    },
                }
                r
            },
            Action::Trash => {
                let mut r = Self::blank(ActionKind::Trash, path, ctx.shell);
                let (name, named) = name_of(path);
                r.directory = ctx.trash_dir.clone();
                r.target = join(r.directory.as_str(), name.as_str());
                r.control.has_name = named;
                r.stem = match file_stem(path) {
                    Some(s) => s,
                    None => String::new(),
                };
                r.suffix = match extension(path) {
                    Some(e) => {
                        let mut s = String::from_str(".");
                        proof {
                            reveal_strlit(".");
                        }
                        s.append(e.as_str());
                        assert(s@ =~= seq!['.'] + e@);
                        s
                    },
                    None => String::new(),
                };
                r
            },
            Action::Delete => Self::blank(ActionKind::Delete, path, ctx.shell),
            Action::Run { command, args } => {
                let mut r = Self::blank(ActionKind::Run, path, ctx.shell);
                if uses_shell(command.as_str()) && args.len() == 0 {
                    r.control.shell = true;
                    r.command = match expand_pattern_shell_escaped(
                        command.as_str(),
                        path,
                        ctx.now,
                        ctx.quoting,
                    ) {
                        Ok(s) => s,
                        Err(_) => command.clone(),
                    };
                } else if args.len() == 0 && find_from(
                    &to_chars(command.as_str()),
                    &to_chars(" "),
                    0,
                ).is_some() {
                    let mut parts = split_whitespace(&to_chars(command.as_str()));
                    if parts.len() == 0 {
                        r.control.has_program = false;
                    } else {
                        let ghost all = parts@;
                        r.command = parts.remove(0);
                        r.arguments = parts;
                        assert(views(r.arguments@) =~= views(all).skip(1));
                    }
                } else {
                    r.command = command.clone();
                    r.arguments = expand_args(args, path, ctx.now);
                }
                r
            },
            Action::Archive { destination, delete_original } => {
                let mut r = Self::blank(ActionKind::Archive, path, ctx.shell);
                r.directory = match destination {
                    Some(d) => expand_path(d.as_str(), &ctx.env),
                    None => directory_of(path),
                };
                let mut name = match file_stem(path) {
                    Some(s) => s,
                    None => {
                        r.control.has_name = false;
                        String::new()
                    },
                };
                name.append(".zip");
                r.target = join(r.directory.as_str(), name.as_str());
                r.control.delete_original = *delete_original;
                r
            },
            Action::Nothing => Self::blank(ActionKind::Nothing, path, ctx.shell),
        }
    }

    /// Ends or continues the run as `turn` says.
    fn take(&mut self, turn: Turn, event: Option<&Event>) -> (step: Step)
        ensures
            step == turn.step,
            final(self).control == turn.control,
            turn.failure is Some ==> final(self).reports(
                turn.failure,
                match event {
                    Some(e) => e.text(),
                    None => Seq::empty(),
                },
                event matches Some(e) && e is Exited,
            ),
            turn.failure is None ==> final(self).error == old(self).error,
            final(self).source == old(self).source,
            final(self).shell == old(self).shell,
            final(self).directory == old(self).directory,
            final(self).target == old(self).target,
            final(self).command == old(self).command,
            final(self).arguments == old(self).arguments,
            final(self).stem == old(self).stem,
            final(self).suffix == old(self).suffix,
            final(self).exit_status == old(self).exit_status,
    {
        self.control = turn.control;
        if let Some(why) = turn.failure {
            self.error = Some(
                ActionError { failure: why, message: describe(why, self.target.as_str(), event) },
            );
        }
        turn.step
    }

    /// Begins a run of `action` on the file `path`: lays out what the steps
    /// will work on and returns the run with its first step.
    pub fn start(action: &Action, path: &str, ctx: &Context) -> (r: (Self, Step))
        ensures
            r.0.begins(r.1, action@, path@, ctx),
    {
        let mut run = Self::lay_out(action, path, ctx);
        let turn = run.control.begin();
        let step = run.take(turn, None);
        (run, step)
    }

    /// Takes in how the last step went and returns the next step. While a
    /// trashing looks for a free name, the target changes with each name
    /// that is found taken.
    pub fn advance(&mut self, event: &Event) -> (step: Step)
        ensures
            step == old(self).control.after(event.signal()).step,
            final(self).control == old(self).control.after(event.signal()).control,
            old(self).control.after(event.signal()).failure is Some ==> final(self).reports(
                old(self).control.after(event.signal()).failure,
                event.text(),
                event is Exited,
            ),
            old(self).control.after(event.signal()).failure is None ==> final(self).error == old(
                self,
            ).error,
            final(self).source == old(self).source,
            final(self).shell == old(self).shell,
            final(self).directory == old(self).directory,
            final(self).command == old(self).command,
            final(self).arguments == old(self).arguments,
            final(self).stem == old(self).stem,
            final(self).suffix == old(self).suffix,
            final(self).target@ == (if final(self).control.attempt != old(self).control.attempt {
                joined(
                    old(self).directory@,
                    trash_name(
                        old(self).stem@,
                        old(self).suffix@,
                        final(self).control.attempt as nat,
                    ),
                )
            } else {
                old(self).target@
            }),
            opt_view(final(self).exit_status) == (match *event {
                Event::Exited { success: false, status } => Some(status@),
                _ => opt_view(old(self).exit_status),
            }),
    {
        let turn = self.control.advance(event.to_signal());
        if turn.control.attempt != self.control.attempt {
            let mut name = to_chars(self.stem.as_str());
            name.push('_');
            push_decimal(&mut name, turn.control.attempt as u64);
            push_str(&mut name, self.suffix.as_str());
            assert(name@ =~= trash_name(self.stem@, self.suffix@, turn.control.attempt as nat));
            self.target = join(self.directory.as_str(), from_chars(&name).as_str());
        }
        if let Event::Exited { success, status } = event {
            if !*success {
                self.exit_status = Some(status.clone());
            }
        }
        self.take(turn, Some(event))
    }

    /// Whether the run is over.
    pub fn is_finished(&self) -> (r: bool)
        ensures
            r == (self.control.phase == Phase::Finished),
    {
        self.control.phase == Phase::Finished
    }

    /// The notification that is due where the command of the run ended
    /// without success.
    pub fn command_notification(&self, notifier: &Notifier) -> (r: Option<Notification>)
        ensures
            match self.exit_status {
                Some(status) => notified(
                    *notifier,
                    NotificationKind::CommandError,
                    command_error_text(self.command@, "exited with status "@ + status@),
                    r,
                ),
                None => r is None,
            },
    {
        match &self.exit_status {
            Some(status) => {
                let mut said = String::from_str("exited with status ");
                said.append(status.as_str());
                notify_command_error(notifier, self.command.as_str(), said.as_str())
            },
            None => None,
        }
    }
}

} // verus!
