//! The course of an action, as a machine.
//!
//! Carrying out an action alternates work on the file system with
//! decisions. The decisions are here: from the state of a run and the
//! outcome of the last step, the next state and the next step. The caller
//! performs each step and reports how it went.

use vstd::prelude::*;

verus! {

/// The kinds of action.
#[derive(Debug, Clone, Copy, PartialEq, Eq, Structural)]
pub enum ActionKind {
    Move,
    Copy,
    Rename,
    Trash,
    Delete,
    Run,
    Archive,
    Nothing,
}

/// What a run waits for.
#[derive(Debug, Clone, Copy, PartialEq, Eq, Structural)]
pub enum Phase {
    /// The directory is being created.
    CreatingDirectory,
    /// It is being found out whether the target exists.
    ProbingTarget,
    /// It is being found out whether the source is a directory.
    ProbingSource,
    /// The source is being renamed to the target.
    Renaming,
    /// The source is being copied to the target.
    Copying,
    /// The source file is being removed.
    RemovingSource,
    /// The source directory is being removed with all it holds.
    RemovingTree,
    /// The command is running.
    Running,
    /// The archive is being written.
    Archiving,
    /// The run is over.
    Finished,
}

/// One step for the caller to perform. The operands are held by the run.
#[derive(Debug, Clone, Copy, PartialEq, Eq, Structural)]
pub enum Step {
    /// Create the directory and the directories above it.
    CreateDirectory,
    /// Find out whether the target exists.
    ProbeTarget,
    /// Find out whether the source is a directory.
    ProbeSource,
    /// Rename the source to the target.
    Rename,
    /// Copy the source to the target.
    CopyFile,
    /// Remove the source file.
    RemoveSource,
    /// Remove the source directory with all it holds.
    RemoveSourceTree,
    /// Run the command through the shell.
    RunShell,
    /// Run the command with its arguments.
    RunProgram,
    /// Write a zip archive of the source to the target.
    WriteArchive,
    /// Nothing is left to do: the action was carried out.
    Done,
    /// Nothing is left to do: the action failed.
    Failed,
}

/// How the last step went.
#[derive(Debug, Clone, Copy, PartialEq, Eq, Structural)]
pub enum Signal {
    /// The step was performed.
    Succeeded,
    /// The step failed; `not_found` where a file was not there.
    Failed { not_found: bool },
    /// The answer to a probe.
    Answer(bool),
    /// The command ran and ended, with success or without.
    Exited { success: bool },
}

/// Why an action failed.
#[derive(Debug, Clone, Copy, PartialEq, Eq, Structural)]
pub enum Failure {
    /// The path names no file.
    NoFileName,
    /// The target exists and is not to be overwritten.
    AlreadyExists,
    /// A step failed for a file that was not there.
    NotFound,
    /// A step failed otherwise.
    Io,
    /// The command could not be started or ended without success.
    CommandFailed,
    /// The command holds no word.
    EmptyCommand,
    /// A pattern holds a date format that cannot be written.
    BadDateFormat,
    /// No free name was found in the trash.
    TrashFull,
    /// A signal came that the run did not wait for.
    OutOfTurn,
}

/// The state of a run, without its texts.
#[derive(Debug, Clone, Copy, PartialEq, Eq, Structural)]
pub struct Control {
    /// The kind of the action.
    pub kind: ActionKind,
    /// What the run waits for.
    pub phase: Phase,
    /// Whether the directory is created first.
    pub create_destination: bool,
    /// Whether an existing target is replaced.
    pub overwrite: bool,
    /// Whether the source is removed once it is archived.
    pub delete_original: bool,
    /// Whether the command goes through the shell.
    pub shell: bool,
    /// Whether the path names a file.
    pub has_name: bool,
    /// Whether the texts of the action could be expanded.
    pub expands: bool,
    /// Whether the command holds a word.
    pub has_program: bool,
    /// How many names were found taken in the trash.
    pub attempt: u32,
}

/// A turn of the machine: the state after it, the step to perform and,
/// where the step is [`Step::Failed`], why.
#[derive(Debug, Clone, Copy, PartialEq, Eq, Structural)]
pub struct Turn {
    pub control: Control,
    pub step: Step,
    pub failure: Option<Failure>,
}

/// The failure that a failed step comes to.
pub open spec fn failure_of(not_found: bool) -> Failure {
    if not_found {
        Failure::NotFound
    } else {
        Failure::Io
    }
}

impl Control {
    /// The run goes on: it waits in `phase` for `step` to be performed.
    pub open spec fn go(self, phase: Phase, step: Step) -> Turn {
        Turn { control: Control { phase, ..self }, step, failure: None }
    }

    /// The run ends well.
    pub open spec fn done(self) -> Turn {
        Turn { control: Control { phase: Phase::Finished, ..self }, step: Step::Done, failure: None }
    }

    /// The run ends with a failure.
    pub open spec fn fail(self, why: Failure) -> Turn {
        Turn {
            control: Control { phase: Phase::Finished, ..self },
            step: Step::Failed,
            failure: Some(why),
        }
    }

    /// The turn once the directory is there, or at once where none is
    /// created: without a file name the run fails, else the target is
    /// probed.
    pub open spec fn probe(self) -> Turn {
        if self.has_name {
            self.go(Phase::ProbingTarget, Step::ProbeTarget)
        } else {
            self.fail(Failure::NoFileName)
        }
    }

    /// The first turn of a run.
    pub open spec fn first(self) -> Turn {
        match self.kind {
            ActionKind::Move | ActionKind::Copy => if self.create_destination {
                self.go(Phase::CreatingDirectory, Step::CreateDirectory)
            } else {
                self.probe()
            },
            ActionKind::Trash => self.go(Phase::CreatingDirectory, Step::CreateDirectory),
            ActionKind::Rename => if self.expands {
                self.go(Phase::Renaming, Step::Rename)
            } else {
                self.fail(Failure::BadDateFormat)
            },
            ActionKind::Delete => self.go(Phase::ProbingSource, Step::ProbeSource),
            ActionKind::Run => if !self.has_program {
                self.fail(Failure::EmptyCommand)
            } else if self.shell {
                self.go(Phase::Running, Step::RunShell)
            } else {
                self.go(Phase::Running, Step::RunProgram)
            },
            ActionKind::Archive => if self.has_name {
                self.go(Phase::Archiving, Step::WriteArchive)
            } else {
                self.fail(Failure::NoFileName)
            },
            ActionKind::Nothing => self.done(),
        }
    }

    /// The turn that follows the answer `exists` to the probe of the target.
    pub open spec fn after_probe(self, exists: bool) -> Turn {
        match self.kind {
            ActionKind::Move => if exists && !self.overwrite {
                self.fail(Failure::AlreadyExists)
            } else {
                self.go(Phase::Renaming, Step::Rename)
            },
            ActionKind::Copy => if exists && !self.overwrite {
                self.fail(Failure::AlreadyExists)
            } else {
                self.go(Phase::Copying, Step::CopyFile)
            },
            ActionKind::Trash => if !exists {
                self.go(Phase::Renaming, Step::Rename)
            } else if self.attempt == u32::MAX {
                self.fail(Failure::TrashFull)
            } else {
                Control { attempt: (self.attempt + 1) as u32, ..self }.go(
                    Phase::ProbingTarget,
                    Step::ProbeTarget,
                )
            },
            _ => self.fail(Failure::OutOfTurn),
        }
    }

    /// The turn that follows `signal`.
    pub open spec fn after(self, signal: Signal) -> Turn {
        match (self.phase, signal) {
            (Phase::Finished, _) => self.fail(Failure::OutOfTurn),
            (_, Signal::Failed { not_found }) => if self.phase == Phase::Renaming && (self.kind
                == ActionKind::Move || self.kind == ActionKind::Trash) {
                self.go(Phase::Copying, Step::CopyFile)
            } else if self.phase == Phase::Running {
                self.fail(Failure::CommandFailed)
            } else {
                self.fail(failure_of(not_found))
            },
            (Phase::CreatingDirectory, Signal::Succeeded) => self.probe(),
            (Phase::ProbingTarget, Signal::Answer(exists)) => self.after_probe(exists),
            (Phase::ProbingSource, Signal::Answer(is_dir)) => if is_dir {
                self.go(Phase::RemovingTree, Step::RemoveSourceTree)
            } else {
                self.go(Phase::RemovingSource, Step::RemoveSource)
            },
            (Phase::Renaming, Signal::Succeeded) => self.done(),
            (Phase::Copying, Signal::Succeeded) => if self.kind == ActionKind::Copy {
                self.done()
            } else {
                self.go(Phase::RemovingSource, Step::RemoveSource)
            },
            (Phase::RemovingSource, Signal::Succeeded) => self.done(),
            (Phase::RemovingTree, Signal::Succeeded) => self.done(),
            (Phase::Running, Signal::Exited { success }) => if success {
                self.done()
            } else {
                self.fail(Failure::CommandFailed)
            },
            (Phase::Archiving, Signal::Succeeded) => if self.delete_original {
                self.go(Phase::ProbingSource, Step::ProbeSource)
            } else {
                self.done()
            },
            _ => self.fail(Failure::OutOfTurn),
        }
    }

    /// The run waits for something that an action of its kind can wait
    /// for. Every run that begins with [`Control::first`] is such a run.
    pub open spec fn coherent(self) -> bool {
        let p = self.phase;
        p == Phase::Finished || match self.kind {
            ActionKind::Move | ActionKind::Trash => p == Phase::CreatingDirectory || p
                == Phase::ProbingTarget || p == Phase::Renaming || p == Phase::Copying || p
                == Phase::RemovingSource,
            ActionKind::Copy => p == Phase::CreatingDirectory || p == Phase::ProbingTarget || p
                == Phase::Copying,
            ActionKind::Rename => p == Phase::Renaming,
            ActionKind::Delete => p == Phase::ProbingSource || p == Phase::RemovingSource || p
                == Phase::RemovingTree,
            ActionKind::Run => p == Phase::Running,
            ActionKind::Archive => p == Phase::Archiving || (self.delete_original && (p
                == Phase::ProbingSource || p == Phase::RemovingSource || p
                == Phase::RemovingTree)),
            ActionKind::Nothing => false,
        }
    }

    /// Executable form of [`Control::first`].
    pub fn begin(self) -> (r: Turn)
        ensures
            r == self.first(),
    {
        match self.kind {
            ActionKind::Move | ActionKind::Copy => if self.create_destination {
                self.proceed(Phase::CreatingDirectory, Step::CreateDirectory)
            } else {
                self.start_probe()
            },
            ActionKind::Trash => self.proceed(Phase::CreatingDirectory, Step::CreateDirectory),
            ActionKind::Rename => if self.expands {
                self.proceed(Phase::Renaming, Step::Rename)
            } else {
                self.stop(Failure::BadDateFormat)
            },
            ActionKind::Delete => self.proceed(Phase::ProbingSource, Step::ProbeSource),
            ActionKind::Run => if !self.has_program {
                self.stop(Failure::EmptyCommand)
            } else if self.shell {
                self.proceed(Phase::Running, Step::RunShell)
            } else {
                self.proceed(Phase::Running, Step::RunProgram)
            },
            ActionKind::Archive => if self.has_name {
                self.proceed(Phase::Archiving, Step::WriteArchive)
            } else {
                self.stop(Failure::NoFileName)
            },
            ActionKind::Nothing => self.finish(),
        }
    }

    /// Executable form of [`Control::go`].
    pub fn proceed(self, phase: Phase, step: Step) -> (r: Turn)
        ensures
            r == self.go(phase, step),
    {
        let mut control = self;
        control.phase = phase;
        Turn { control, step, failure: None }
    }

    /// Executable form of [`Control::done`].
    pub fn finish(self) -> (r: Turn)
        ensures
            r == self.done(),
    {
        let mut control = self;
        control.phase = Phase::Finished;
        Turn { control, step: Step::Done, failure: None }
    }

    /// Executable form of [`Control::fail`].
    pub fn stop(self, why: Failure) -> (r: Turn)
        ensures
            r == self.fail(why),
    {
        let mut control = self;
        control.phase = Phase::Finished;
        Turn { control, step: Step::Failed, failure: Some(why) }
    }

    /// Executable form of [`Control::probe`].
    pub fn start_probe(self) -> (r: Turn)
        ensures
            r == self.probe(),
    {
        if self.has_name {
            self.proceed(Phase::ProbingTarget, Step::ProbeTarget)
        } else {
            self.stop(Failure::NoFileName)
        }
    }

    /// Executable form of [`Control::after_probe`].
    pub fn answer_probe(self, exists: bool) -> (r: Turn)
        ensures
            r == self.after_probe(exists),
    {
        match self.kind {
            ActionKind::Move => if exists && !self.overwrite {
                self.stop(Failure::AlreadyExists)
            } else {
                self.proceed(Phase::Renaming, Step::Rename)
            },
            ActionKind::Copy => if exists && !self.overwrite {
                self.stop(Failure::AlreadyExists)
            } else {
                self.proceed(Phase::Copying, Step::CopyFile)
            },
            ActionKind::Trash => if !exists {
                self.proceed(Phase::Renaming, Step::Rename)
            } else if self.attempt == u32::MAX {
                self.stop(Failure::TrashFull)
            } else {
                let mut next = self;
                next.attempt = self.attempt + 1;
                next.proceed(Phase::ProbingTarget, Step::ProbeTarget)
            },
            _ => self.stop(Failure::OutOfTurn),
        }
    }

    /// The turn that follows `signal`: the next state of the run and the
    /// next step.
    pub fn advance(self, signal: Signal) -> (r: Turn)
        ensures
            r == self.after(signal),
    {
        match (self.phase, signal) {
            (Phase::Finished, _) => self.stop(Failure::OutOfTurn),
            (_, Signal::Failed { not_found }) => if self.phase == Phase::Renaming && (self.kind
                == ActionKind::Move || self.kind == ActionKind::Trash) {
                self.proceed(Phase::Copying, Step::CopyFile)
            } else if self.phase == Phase::Running {
                self.stop(Failure::CommandFailed)
            } else if not_found {
                self.stop(Failure::NotFound)
            } else {
                self.stop(Failure::Io)
            },
            (Phase::CreatingDirectory, Signal::Succeeded) => self.start_probe(),
            (Phase::ProbingTarget, Signal::Answer(exists)) => self.answer_probe(exists),
            (Phase::ProbingSource, Signal::Answer(is_dir)) => if is_dir {
                self.proceed(Phase::RemovingTree, Step::RemoveSourceTree)
            } else {
                self.proceed(Phase::RemovingSource, Step::RemoveSource)
            },
            (Phase::Renaming, Signal::Succeeded) => self.finish(),
            (Phase::Copying, Signal::Succeeded) => if self.kind == ActionKind::Copy {
                self.finish()
            } else {
                self.proceed(Phase::RemovingSource, Step::RemoveSource)
            },
            (Phase::RemovingSource, Signal::Succeeded) => self.finish(),
            (Phase::RemovingTree, Signal::Succeeded) => self.finish(),
            (Phase::Running, Signal::Exited { success }) => if success {
                self.finish()
            } else {
                self.stop(Failure::CommandFailed)
            },
            (Phase::Archiving, Signal::Succeeded) => if self.delete_original {
                self.proceed(Phase::ProbingSource, Step::ProbeSource)
            } else {
                self.finish()
            },
            _ => self.stop(Failure::OutOfTurn),
        }
    }
}

/// A step that takes the source away from where it is, or changes it.
pub open spec fn touches_source(step: Step) -> bool {
    step == Step::Rename || step == Step::RemoveSource || step == Step::RemoveSourceTree
}

/// A step that writes to the target.
pub open spec fn writes_target(step: Step) -> bool {
    step == Step::Rename || step == Step::CopyFile || step == Step::WriteArchive
}

/// The steps that a run takes from the state `c` on as the signals `s`
/// come in, one step for each signal.
pub open spec fn steps_after(c: Control, s: Seq<Signal>) -> Seq<Step>
    decreases s.len(),
{
    if s.len() == 0 {
        Seq::empty()
    } else {
        seq![c.after(s[0]).step] + steps_after(c.after(s[0]).control, s.drop_first())
    }
}

/// The steps of a whole run: the first one, then one for each signal.
pub open spec fn steps_of(c: Control, s: Seq<Signal>) -> Seq<Step> {
    seq![c.first().step] + steps_after(c.first().control, s)
}

/// Moving or copying onto a target that exists, without leave to overwrite
/// it, fails with [`Failure::AlreadyExists`] and ends the run.
pub proof fn law_existing_target_is_refused(c: Control)
    requires
        c.kind == ActionKind::Move || c.kind == ActionKind::Copy,
        c.phase == Phase::ProbingTarget,
        !c.overwrite,
    ensures
        c.after(Signal::Answer(true)).step == Step::Failed,
        c.after(Signal::Answer(true)).failure == Some(Failure::AlreadyExists),
        c.after(Signal::Answer(true)).control.phase == Phase::Finished,
{
}

/// With leave to overwrite, or where the target does not exist, a move
/// goes on to rename the source and a copy goes on to copy it.
pub proof fn law_free_target_is_written(c: Control, exists: bool)
    requires
        c.kind == ActionKind::Move || c.kind == ActionKind::Copy,
        c.phase == Phase::ProbingTarget,
        c.overwrite || !exists,
    ensures
        c.after(Signal::Answer(exists)).step == (if c.kind == ActionKind::Move {
            Step::Rename
        } else {
            Step::CopyFile
        }),
        c.kind == ActionKind::Move ==> c.after(Signal::Answer(exists)).control.after(
            Signal::Succeeded,
        ).step == Step::Done,
{
}

/// A run that begins with [`Control::first`] is coherent, and a coherent
/// run stays so whatever signal comes. The kind and the settings of a run
/// never change.
pub proof fn law_runs_stay_coherent(c: Control, signal: Signal)
    ensures
        c.first().control.coherent(),
        c.coherent() ==> c.after(signal).control.coherent(),
        c.after(signal).control.kind == c.kind,
        c.after(signal).control.overwrite == c.overwrite,
        c.after(signal).control.delete_original == c.delete_original,
        c.first().control.kind == c.kind,
        c.first().control.overwrite == c.overwrite,
        c.first().control.delete_original == c.delete_original,
{
}

/// A run takes one step for each signal.
pub proof fn lemma_steps_len(c: Control, s: Seq<Signal>)
    ensures
        steps_after(c, s).len() == s.len(),
        forall|i: int|
            1 <= i < s.len() ==> #[trigger] steps_after(c, s)[i] == steps_after(
                c.after(s[0]).control,
                s.drop_first(),
            )[i - 1],
        s.len() > 0 ==> steps_after(c, s)[0] == c.after(s[0]).step,
    decreases s.len(),
{
    if s.len() > 0 {
        lemma_steps_len(c.after(s[0]).control, s.drop_first());
    }
}

/// Once a run is over it stays over: whatever comes, no step follows that
/// does anything.
pub proof fn law_finished_runs_stay_finished(c: Control, s: Seq<Signal>)
    requires
        c.phase == Phase::Finished,
    ensures
        forall|i: int| 0 <= i < s.len() ==> #[trigger] steps_after(c, s)[i] == Step::Failed,
        steps_after(c, s).len() == s.len(),
    decreases s.len(),
{
    lemma_steps_len(c, s);
    if s.len() > 0 {
        law_finished_runs_stay_finished(c.after(s[0]).control, s.drop_first());
    }
}

/// Once a move or a copy has left the probe behind, it does not probe
/// the target again.
proof fn lemma_no_second_probe(c: Control, s: Seq<Signal>)
    requires
        c.kind == ActionKind::Move || c.kind == ActionKind::Copy,
        c.coherent(),
        c.phase != Phase::CreatingDirectory && c.phase != Phase::ProbingTarget,
    ensures
        forall|i: int| 0 <= i < s.len() ==> #[trigger] steps_after(c, s)[i] != Step::ProbeTarget,
    decreases s.len(),
{
    lemma_steps_len(c, s);
    if s.len() > 0 {
        lemma_no_second_probe(c.after(s[0]).control, s.drop_first());
    }
}

/// The inductive form of [`law_refused_move_leaves_files_alone`]: `c` is
/// the state of the run and `last` the step that it waits for; `k` counts
/// the steps from `last` on.
proof fn lemma_refused(c: Control, last: Step, s: Seq<Signal>, k: int)
    requires
        c.kind == ActionKind::Move || c.kind == ActionKind::Copy,
        !c.overwrite,
        c.coherent(),
        0 <= k < s.len(),
        s[k] == Signal::Answer(true),
        k == 0 ==> last == Step::ProbeTarget,
        k > 0 ==> steps_after(c, s)[k - 1] == Step::ProbeTarget,
        c.phase == Phase::CreatingDirectory || c.phase == Phase::ProbingTarget || c.phase
            == Phase::Finished,
        last == Step::ProbeTarget <==> c.phase == Phase::ProbingTarget,
    ensures
        forall|i: int|
            0 <= i < s.len() ==> !touches_source(#[trigger] steps_after(c, s)[i])
                && !writes_target(steps_after(c, s)[i]),
    decreases s.len(),
{
    let t = c.after(s[0]);
    let rest = s.drop_first();
    lemma_steps_len(c, s);
    if t.control.phase == Phase::Finished {
        law_finished_runs_stay_finished(t.control, rest);
    } else if t.control.phase == Phase::ProbingTarget {
        assert(k > 0);
        assert(rest[k - 1] == s[k]);
        lemma_steps_len(t.control, rest);
        lemma_refused(t.control, t.step, rest, k - 1);
    } else {
        // the target was free, the run goes on to write and never probes again
        lemma_no_second_probe(t.control, rest);
        assert(k > 0);
        if k > 1 {
            assert(steps_after(c, s)[k - 1] == steps_after(t.control, rest)[k - 2]);
        }
        assert(false);
    }
}

/// A move or a copy that finds its target taken, without leave to
/// overwrite it, never takes a step that touches the source or writes to
/// the target, whatever signals come before and after. `s[k]` is the
/// answer to the probe, which is step `k` of the run.
pub proof fn law_refused_move_leaves_files_alone(c: Control, s: Seq<Signal>, k: int)
    requires
        c.kind == ActionKind::Move || c.kind == ActionKind::Copy,
        !c.overwrite,
        0 <= k < s.len(),
        s[k] == Signal::Answer(true),
        steps_of(c, s)[k] == Step::ProbeTarget,
    ensures
        steps_of(c, s).len() == s.len() + 1,
        forall|i: int|
            0 <= i <= s.len() ==> !touches_source(#[trigger] steps_of(c, s)[i]) && !writes_target(
                steps_of(c, s)[i],
            ),
{
    let t = c.first();
    lemma_steps_len(t.control, s);
    if t.control.phase == Phase::Finished {
        law_finished_runs_stay_finished(t.control, s);
    } else {
        lemma_refused(t.control, t.step, s, k);
    }
}

/// The source is removed only once a copy of it is there: in a move and
/// in a trashing, the step that removes the source follows a copy that
/// succeeded, and nothing else.
pub proof fn law_source_removed_only_after_copy(c: Control, signal: Signal)
    requires
        c.coherent(),
        c.kind == ActionKind::Move || c.kind == ActionKind::Trash,
        c.after(signal).step == Step::RemoveSource || c.after(signal).step
            == Step::RemoveSourceTree,
    ensures
        c.phase == Phase::Copying,
        signal == Signal::Succeeded,
        c.after(signal).step == Step::RemoveSource,
{
}

/// A copy never takes a step that touches its source.
pub proof fn law_copy_keeps_source(c: Control, signal: Signal)
    requires
        c.coherent(),
        c.kind == ActionKind::Copy,
    ensures
        !touches_source(c.after(signal).step),
        !touches_source(c.first().step),
{
}

/// An archive's original is removed only where that was asked for, and
/// only once the archive is written: the step that removes it, a file or
/// a whole directory, follows the answer to the question which of the two
/// the original is, and that question follows the writing that succeeded,
/// and nothing else.
pub proof fn law_original_removed_only_after_archive(c: Control, signal: Signal)
    requires
        c.coherent(),
        c.kind == ActionKind::Archive,
    ensures
        touches_source(c.after(signal).step) ==> c.delete_original && c.phase
            == Phase::ProbingSource && signal is Answer,
        c.after(signal).step == Step::ProbeSource ==> c.delete_original && c.phase
            == Phase::Archiving && signal == Signal::Succeeded,
        c.phase == Phase::ProbingSource && signal == Signal::Answer(true) ==> c.after(signal).step
            == Step::RemoveSourceTree,
        c.phase == Phase::ProbingSource && signal == Signal::Answer(false) ==> c.after(
            signal,
        ).step == Step::RemoveSource,
        !touches_source(c.first().step) && c.first().step != Step::ProbeSource,
{
}

} // verus!
