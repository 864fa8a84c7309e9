//! The life cycle of the daemon: starting it, stopping it, restarting it,
//! asking for its status and for a reload.
//!
//! The daemon is known by a PID file. A command is carried out as a course
//! of tasks (read the PID file, probe a process, send a signal, wait), which
//! the caller performs one at a time, reporting how each went. What comes
//! next is decided here.

use vstd::prelude::*;
use crate::config::{Config, WatchConfig};
use crate::ipc::{decided, on_event, DaemonFacts, Decision, LoopEvent};
use crate::notifications::{init, Notifier};
use crate::paths::{join, joined};
use crate::rules::RuleEngine;
use crate::watcher::Watcher;
use crate::text::{
    decimal_digits,
    from_chars,
    parse_unsigned,
    parsed_unsigned,
    push_decimal,
    push_str,
    split_whitespace,
    to_chars,
    trim,
    trimmed,
    views,
    words,
};

verus! {

/// How often at most a stopping daemon is probed before it is killed.
pub const STOP_POLLS: u32 = 50;

/// The time between two probes of a stopping daemon, in milliseconds.
pub const STOP_POLL_MS: u64 = 100;

/// The pause between stopping and starting in a restart, in milliseconds.
pub const RESTART_PAUSE_MS: u64 = 500;

/// The commands of the daemon's command line.
#[derive(Debug, Clone, Copy, PartialEq, Eq, Structural)]
pub enum Commands {
    /// Start the daemon in the background.
    Start,
    /// Stop the running daemon.
    Stop,
    /// Stop the daemon and start it again.
    Restart,
    /// Show whether the daemon runs.
    Status,
    /// Have the daemon load its configuration again.
    Reload,
    /// Run the daemon in the foreground.
    Run,
}

/// The command line of the daemon.
#[derive(Debug, Clone)]
pub struct Cli {
    /// The configuration file, where one is named.
    pub config: Option<String>,
    /// The command.
    pub command: Commands,
}

/// The signals that the life cycle sends.
#[derive(Debug, Clone, Copy, PartialEq, Eq, Structural)]
pub enum Sig {
    /// Asks the daemon to end.
    Terminate,
    /// Ends the daemon.
    Kill,
    /// Asks the daemon to load its configuration again.
    HangUp,
}

/// One task for the caller.
#[derive(Debug, Clone, Copy, PartialEq, Eq, Structural)]
pub enum Task {
    /// Read the PID file; the report is [`Report::Pid`].
    ReadPid,
    /// Find out whether the process lives; the report is [`Report::Alive`].
    Probe(u32),
    /// Remove the PID file.
    RemovePidFile,
    /// Start the daemon as a detached process of its own session, with its
    /// output sent to the log file; the report is [`Report::Spawned`].
    Spawn,
    /// Write the PID to the PID file.
    WritePid(u32),
    /// Send the signal to the process; the report is [`Report::Sent`].
    Signal(u32, Sig),
    /// Wait for so many milliseconds.
    Sleep(u64),
    /// Run the daemon in the foreground.
    RunForeground,
    /// The command is carried out.
    Done,
    /// The command failed.
    Fail,
}

/// What the caller tells the user.
#[derive(Debug, Clone, Copy, PartialEq, Eq, Structural)]
pub enum Message {
    AlreadyRunning(u32),
    Starting,
    Started(u32),
    NotRunning,
    Stopping(u32),
    Stopped,
    SendingKill,
    Killed,
    StopFailed,
    Reloading(u32),
    ReloadSent,
    ReloadFailed,
    Running(u32),
    StartFailed,
}

/// How a task went.
#[derive(Debug, Clone, Copy, PartialEq, Eq, Structural)]
pub enum Report {
    /// The PID that the PID file holds, if it holds one.
    Pid(Option<u32>),
    /// Whether the process lives.
    Alive(bool),
    /// The task was performed.
    Performed,
    /// The daemon was started as the process with this PID.
    Spawned(u32),
    /// Whether the signal could be sent.
    Sent(bool),
    /// The task failed.
    Failed,
}

/// Where a command stands.
#[derive(Debug, Clone, Copy, PartialEq, Eq, Structural)]
pub enum Stage {
    /// The PID file is being read.
    ReadingPid,
    /// The process named in the PID file is being probed.
    Checking,
    /// A stale PID file is being removed.
    ClearingStale,
    /// The daemon is being started.
    Spawning,
    /// The PID of the new daemon is being written.
    Writing,
    /// The daemon is being asked to end.
    Terminating,
    /// The stopping daemon is being probed.
    Waiting,
    /// Time passes between two probes.
    Napping,
    /// The daemon is being killed.
    Killing,
    /// Time passes after the kill.
    Settling,
    /// The PID file of the stopped daemon is being removed.
    Removing(StopEnd),
    /// Time passes between the stop and the start of a restart.
    Pausing,
    /// The daemon is being asked to reload.
    Hanging,
    /// The command is over.
    Over,
}

/// How a stop ended.
#[derive(Debug, Clone, Copy, PartialEq, Eq, Structural)]
pub enum StopEnd {
    /// The daemon ended when asked.
    Ended,
    /// The daemon was killed.
    Killed,
    /// The daemon could not be asked.
    Unreachable,
}

/// The state of a command.
#[derive(Debug, Clone, Copy, PartialEq, Eq, Structural)]
pub struct Lifecycle {
    /// The command; a restart becomes a start once the daemon is stopped.
    pub command: Commands,
    /// Whether the command began as a restart.
    pub restarting: bool,
    /// Where the command stands.
    pub stage: Stage,
    /// The PID that the command deals with.
    pub pid: u32,
    /// How often the stopping daemon was probed.
    pub polls: u32,
}

/// One move of the life cycle: the state after it, what to tell the user,
/// and the task to perform.
#[derive(Debug, Clone, Copy, PartialEq, Eq, Structural)]
pub struct Move {
    pub state: Lifecycle,
    pub say: Option<Message>,
    pub task: Task,
}

impl Lifecycle {
    /// The command goes on.
    pub open spec fn on(self, stage: Stage, say: Option<Message>, task: Task) -> Move {
        Move { state: Lifecycle { stage, ..self }, say, task }
    }

    /// The command ends; a restart goes on to its pause instead.
    pub open spec fn end(self, say: Option<Message>) -> Move {
        if self.restarting && self.command == Commands::Restart {
            self.on(Stage::Pausing, say, Task::Sleep(RESTART_PAUSE_MS))
        } else {
            self.on(Stage::Over, say, Task::Done)
        }
    }

    /// The first move of `command`.
    pub open spec fn first(command: Commands) -> Move {
        let state = Lifecycle {
            command,
            restarting: command == Commands::Restart,
            stage: Stage::ReadingPid,
            pid: 0,
            polls: 0,
        };
        if command == Commands::Run {
            state.on(Stage::Over, None, Task::RunForeground)
        } else {
            state.on(Stage::ReadingPid, None, Task::ReadPid)
        }
    }

    /// The move once it is known that no daemon runs.
    pub open spec fn found_stopped(self) -> Move {
        match self.command {
            Commands::Start => self.on(Stage::Spawning, Some(Message::Starting), Task::Spawn),
            _ => self.end(Some(Message::NotRunning)),
        }
    }

    /// The move once it is known that the daemon runs as `pid`.
    pub open spec fn found_running(self, pid: u32) -> Move {
        let s = Lifecycle { pid, ..self };
        match self.command {
            Commands::Start => s.on(Stage::Over, Some(Message::AlreadyRunning(pid)), Task::Done),
            Commands::Stop | Commands::Restart => s.on(
                Stage::Terminating,
                Some(Message::Stopping(pid)),
                Task::Signal(pid, Sig::Terminate),
            ),
            Commands::Reload => s.on(
                Stage::Hanging,
                Some(Message::Reloading(pid)),
                Task::Signal(pid, Sig::HangUp),
            ),
            _ => s.on(Stage::Over, Some(Message::Running(pid)), Task::Done),
        }
    }

    /// The message at the end of a stop.
    pub open spec fn stop_message(how: StopEnd) -> Message {
        match how {
            StopEnd::Ended => Message::Stopped,
            StopEnd::Killed => Message::Killed,
            StopEnd::Unreachable => Message::StopFailed,
        }
    }

    /// The move that follows `report`.
    pub open spec fn next(self, report: Report) -> Move {
        match (self.stage, report) {
            (Stage::ReadingPid, Report::Pid(Some(pid))) => Lifecycle { pid, ..self }.on(
                Stage::Checking,
                None,
                Task::Probe(pid),
            ),
            (Stage::ReadingPid, _) => self.found_stopped(),
            (Stage::Checking, Report::Alive(true)) => self.found_running(self.pid),
            (Stage::Checking, _) => self.on(Stage::ClearingStale, None, Task::RemovePidFile),
            (Stage::ClearingStale, _) => self.found_stopped(),
            (Stage::Spawning, Report::Spawned(pid)) => Lifecycle { pid, ..self }.on(
                Stage::Writing,
                None,
                Task::WritePid(pid),
            ),
            (Stage::Spawning, _) => self.on(Stage::Over, Some(Message::StartFailed), Task::Fail),
            (Stage::Writing, Report::Performed) => self.on(
                Stage::Over,
                Some(Message::Started(self.pid)),
                Task::Done,
            ),
            (Stage::Writing, _) => self.on(Stage::Over, Some(Message::StartFailed), Task::Fail),
            (Stage::Terminating, Report::Sent(true)) => Lifecycle { polls: 0, ..self }.on(
                Stage::Waiting,
                None,
                Task::Probe(self.pid),
            ),
            (Stage::Terminating, _) => self.on(
                Stage::Removing(StopEnd::Unreachable),
                None,
                Task::RemovePidFile,
            ),
            (Stage::Waiting, Report::Alive(true)) => Lifecycle {
                polls: if self.polls < STOP_POLLS {
                    (self.polls + 1) as u32
                } else {
                    self.polls
                },
                ..self
            }.on(Stage::Napping, None, Task::Sleep(STOP_POLL_MS)),
            (Stage::Waiting, _) => self.on(
                Stage::Removing(StopEnd::Ended),
                None,
                Task::RemovePidFile,
            ),
            (Stage::Napping, _) => if self.polls < STOP_POLLS {
                self.on(Stage::Waiting, None, Task::Probe(self.pid))
            } else {
                self.on(
                    Stage::Killing,
                    Some(Message::SendingKill),
                    Task::Signal(self.pid, Sig::Kill),
                )
            },
            (Stage::Killing, _) => self.on(Stage::Settling, None, Task::Sleep(STOP_POLL_MS)),
            (Stage::Settling, _) => self.on(
                Stage::Removing(StopEnd::Killed),
                None,
                Task::RemovePidFile,
            ),
            (Stage::Removing(how), _) => self.end(Some(Self::stop_message(how))),
            (Stage::Pausing, _) => Lifecycle { command: Commands::Start, ..self }.on(
                Stage::ReadingPid,
                None,
                Task::ReadPid,
            ),
            (Stage::Hanging, Report::Sent(true)) => self.on(
                Stage::Over,
                Some(Message::ReloadSent),
                Task::Done,
            ),
            (Stage::Hanging, _) => self.on(Stage::Over, Some(Message::ReloadFailed), Task::Done),
            (Stage::Over, _) => self.on(Stage::Over, None, Task::Done),
        }
    }

    /// Executable form of [`Lifecycle::on`].
    fn go(self, stage: Stage, say: Option<Message>, task: Task) -> (r: Move)
        ensures
            r == self.on(stage, say, task),
    {
        let mut state = self;
        state.stage = stage;
        Move { state, say, task }
    }

    /// Executable form of [`Lifecycle::end`].
    fn finish(self, say: Option<Message>) -> (r: Move)
        ensures
            r == self.end(say),
    {
        if self.restarting && self.command == Commands::Restart {
            self.go(Stage::Pausing, say, Task::Sleep(RESTART_PAUSE_MS))
        } else {
            self.go(Stage::Over, say, Task::Done)
        }
    }

    /// Begins the command: the state of its course and its first task.
    pub fn begin(command: Commands) -> (r: Move)
        ensures
            r == Self::first(command),
    {
        let state = Lifecycle {
            command,
            restarting: command == Commands::Restart,
            stage: Stage::ReadingPid,
            pid: 0,
            polls: 0,
        };
        if command == Commands::Run {
            state.go(Stage::Over, None, Task::RunForeground)
        } else {
            state.go(Stage::ReadingPid, None, Task::ReadPid)
        }
    }

    /// Executable form of [`Lifecycle::found_stopped`].
    fn when_stopped(self) -> (r: Move)
        ensures
            r == self.found_stopped(),
    {
        match self.command {
            Commands::Start => self.go(Stage::Spawning, Some(Message::Starting), Task::Spawn),
            _ => self.finish(Some(Message::NotRunning)),
        }
    }

    /// Executable form of [`Lifecycle::found_running`].
    fn when_running(self, pid: u32) -> (r: Move)
        ensures
            r == self.found_running(pid),
    {
        let mut s = self;
        s.pid = pid;
        match self.command {
            Commands::Start => s.go(Stage::Over, Some(Message::AlreadyRunning(pid)), Task::Done),
            Commands::Stop | Commands::Restart => s.go(
                Stage::Terminating,
                Some(Message::Stopping(pid)),
                Task::Signal(pid, Sig::Terminate),
            ),
            Commands::Reload => s.go(
                Stage::Hanging,
                Some(Message::Reloading(pid)),
                Task::Signal(pid, Sig::HangUp),
            ),
            _ => s.go(Stage::Over, Some(Message::Running(pid)), Task::Done),
        }
    }

    /// Takes in how the last task went and returns what to tell the user
    /// and the next task.
    pub fn advance(self, report: Report) -> (r: Move)
        ensures
            r == self.next(report),
    {
        match (self.stage, report) {
            (Stage::ReadingPid, Report::Pid(Some(pid))) => {
                let mut s = self;
                s.pid = pid;
                s.go(Stage::Checking, None, Task::Probe(pid))
            },
            (Stage::ReadingPid, _) => self.when_stopped(),
            (Stage::Checking, Report::Alive(true)) => self.when_running(self.pid),
            (Stage::Checking, _) => self.go(Stage::ClearingStale, None, Task::RemovePidFile),
            (Stage::ClearingStale, _) => self.when_stopped(),
            (Stage::Spawning, Report::Spawned(pid)) => {
                let mut s = self;
                s.pid = pid;
                s.go(Stage::Writing, None, Task::WritePid(pid))
            },
            (Stage::Spawning, _) => self.go(Stage::Over, Some(Message::StartFailed), Task::Fail),
            (Stage::Writing, Report::Performed) => self.go(
                Stage::Over,
                Some(Message::Started(self.pid)),
                Task::Done,
            ),
            (Stage::Writing, _) => self.go(Stage::Over, Some(Message::StartFailed), Task::Fail),
            (Stage::Terminating, Report::Sent(true)) => {
                let mut s = self;
                s.polls = 0;
                s.go(Stage::Waiting, None, Task::Probe(self.pid))
            },
            (Stage::Terminating, _) => self.go(
                Stage::Removing(StopEnd::Unreachable),
                None,
                Task::RemovePidFile,
            ),
            (Stage::Waiting, Report::Alive(true)) => {
                let mut s = self;
                if self.polls < STOP_POLLS {
                    s.polls = self.polls + 1;
                }
                s.go(Stage::Napping, None, Task::Sleep(STOP_POLL_MS))
            },
            (Stage::Waiting, _) => self.go(
                Stage::Removing(StopEnd::Ended),
                None,
                Task::RemovePidFile,
            ),
            (Stage::Napping, _) => if self.polls < STOP_POLLS {
                self.go(Stage::Waiting, None, Task::Probe(self.pid))
            } else {
                self.go(
                    Stage::Killing,
                    Some(Message::SendingKill),
                    Task::Signal(self.pid, Sig::Kill),
                )
            },
            (Stage::Killing, _) => self.go(Stage::Settling, None, Task::Sleep(STOP_POLL_MS)),
            (Stage::Settling, _) => self.go(
                Stage::Removing(StopEnd::Killed),
                None,
                Task::RemovePidFile,
            ),
            (Stage::Removing(how), _) => {
                let message = match how {
                    StopEnd::Ended => Message::Stopped,
                    StopEnd::Killed => Message::Killed,
                    StopEnd::Unreachable => Message::StopFailed,
                };
                self.finish(Some(message))
            },
            (Stage::Pausing, _) => {
                let mut s = self;
                s.command = Commands::Start;
                s.go(Stage::ReadingPid, None, Task::ReadPid)
            },
            (Stage::Hanging, Report::Sent(true)) => self.go(
                Stage::Over,
                Some(Message::ReloadSent),
                Task::Done,
            ),
            (Stage::Hanging, _) => self.go(Stage::Over, Some(Message::ReloadFailed), Task::Done),
            (Stage::Over, _) => self.go(Stage::Over, None, Task::Done),
        }
    }
}

/// A PID file that names a process that does not live is stale: it is
/// removed, and the daemon counts as not running. For a status request
/// that is the whole course.
pub proof fn law_stale_pid_file_is_removed(command: Commands, pid: u32)
    requires
        command != Commands::Run,
    ensures
        ({
            let read = Lifecycle::first(command);
            let probed = read.state.next(Report::Pid(Some(pid)));
            let cleared = probed.state.next(Report::Alive(false));
            let told = cleared.state.next(Report::Performed);
            &&& read.task == Task::ReadPid
            &&& probed.task == Task::Probe(pid)
            &&& cleared.task == Task::RemovePidFile
            &&& command == Commands::Start ==> told.task == Task::Spawn
            &&& command == Commands::Status || command == Commands::Stop || command
                == Commands::Reload ==> told.task == Task::Done && told.say == Some(
                Message::NotRunning,
            )
        }),
{
}

/// A daemon that lives is reported as running, with its PID, and starting
/// it again does nothing.
pub proof fn law_live_daemon_is_reported(pid: u32)
    ensures
        ({
            let status = Lifecycle::first(Commands::Status).state.next(
                Report::Pid(Some(pid)),
            ).state.next(Report::Alive(true));
            let start = Lifecycle::first(Commands::Start).state.next(
                Report::Pid(Some(pid)),
            ).state.next(Report::Alive(true));
            &&& status.task == Task::Done
            &&& status.say == Some(Message::Running(pid))
            &&& start.task == Task::Done
            &&& start.say == Some(Message::AlreadyRunning(pid))
        }),
{
}

/// Starting where no daemon runs spawns one and writes its PID.
pub proof fn law_start_writes_pid(pid: u32)
    ensures
        ({
            let spawn = Lifecycle::first(Commands::Start).state.next(Report::Pid(None));
            let write = spawn.state.next(Report::Spawned(pid));
            let done = write.state.next(Report::Performed);
            &&& spawn.task == Task::Spawn
            &&& write.task == Task::WritePid(pid)
            &&& done.task == Task::Done
            &&& done.say == Some(Message::Started(pid))
        }),
{
}

/// A stop ends only once the PID file is gone: the task before the last
/// one removed it, or the PID file named no live process to begin with.
pub proof fn law_stop_removes_pid_file(s: Lifecycle, report: Report)
    requires
        s.command == Commands::Stop,
        !s.restarting,
        s.stage != Stage::Over,
        s.stage != Stage::Spawning && s.stage != Stage::Writing && s.stage != Stage::Hanging
            && s.stage != Stage::Pausing,
        s.next(report).task == Task::Done,
    ensures
        (s.stage is Removing) || s.stage == Stage::ClearingStale || (s.stage == Stage::ReadingPid
            && !(report matches Report::Pid(Some(_)))),
{
}

/// A stopping daemon is probed at most [`STOP_POLLS`] times; after the
/// last nap it is killed.
pub proof fn law_stop_polls_are_bounded(s: Lifecycle, report: Report)
    requires
        s.polls <= STOP_POLLS,
    ensures
        s.next(report).state.polls <= STOP_POLLS,
        s.stage == Stage::Napping && s.polls == STOP_POLLS ==> s.next(report).task == Task::Signal(
            s.pid,
            Sig::Kill,
        ),
        s.stage == Stage::Napping && s.polls < STOP_POLLS ==> s.next(report).task == Task::Probe(
            s.pid,
        ),
{
}

/// The PID that the text of a PID file holds: a number of 32 bits, with
/// white space around it or without.
pub open spec fn pid_in(content: Seq<char>) -> Option<nat> {
    parsed_unsigned(trimmed(content), u32::MAX as nat)
}

/// Reads the PID that the text of a PID file holds.
pub fn read_pid(content: &str) -> (r: Option<u32>)
    ensures
        match r {
            Some(pid) => pid_in(content@) == Some(pid as nat),
            None => pid_in(content@) is None,
        },
{
    let t = trim(&to_chars(content));
    match parse_unsigned(&t, 0xffff_ffff) {
        Some(n) => Some(n as u32),
        None => None,
    }
}

/// The text of the PID file for `pid`.
pub fn write_pid(pid: u32) -> (r: String)
    ensures
        r@ == decimal_digits(pid as nat),
{
    let mut out: Vec<char> = Vec::new();
    push_decimal(&mut out, pid as u64);
    from_chars(&out)
}

/// The directory that holds the daemon's PID file and log: the directory
/// `.local/state/hazelnut` below the home directory, or `/tmp`.
pub open spec fn state_dir_of(home: Option<Seq<char>>) -> Seq<char> {
    match home {
        Some(h) => joined(joined(joined(h, ".local"@), "state"@), "hazelnut"@),
        None => "/tmp"@,
    }
}

/// The directory that holds the daemon's PID file and log.
pub fn state_dir(home: Option<&str>) -> (r: String)
    ensures
        r@ == state_dir_of(
            match home {
                Some(h) => Some(h@),
                None => None,
            },
        ),
{
    match home {
        Some(h) => {
            let a = join(h, ".local");
            let b = join(a.as_str(), "state");
            join(b.as_str(), "hazelnut")
        },
        None => "/tmp".to_owned(),
    }
}

/// The path of the PID file.
pub fn pid_file_path(home: Option<&str>) -> (r: String)
    ensures
        r@ == joined(
            state_dir_of(
                match home {
                    Some(h) => Some(h@),
                    None => None,
                },
            ),
            "hazelnutd.pid"@,
        ),
{
    join(state_dir(home).as_str(), "hazelnutd.pid")
}

/// The path of the log file.
pub fn log_file_path(home: Option<&str>) -> (r: String)
    ensures
        r@ == joined(
            state_dir_of(
                match home {
                    Some(h) => Some(h@),
                    None => None,
                },
            ),
            "hazelnutd.log"@,
        ),
{
    join(state_dir(home).as_str(), "hazelnutd.log")
}

/// How long the daemon has run, as the status shows it: hours, minutes and
/// seconds, without the parts that are zero at the front.
pub open spec fn uptime_text(seconds: u64) -> Seq<char> {
    let h = (seconds / 3600) as nat;
    let m = ((seconds % 3600) / 60) as nat;
    let s = (seconds % 60) as nat;
    if h > 0 {
        decimal_digits(h) + "h "@ + decimal_digits(m) + "m "@ + decimal_digits(s) + "s"@
    } else if m > 0 {
        decimal_digits(m) + "m "@ + decimal_digits(s) + "s"@
    } else {
        decimal_digits(s) + "s"@
    }
}

/// Writes how long the daemon has run.
pub fn format_uptime(seconds: u64) -> (r: String)
    ensures
        r@ == uptime_text(seconds),
{
    let h = seconds / 3600;
    let m = (seconds % 3600) / 60;
    let s = seconds % 60;
    let mut out: Vec<char> = Vec::new();
    if h > 0 {
        push_decimal(&mut out, h);
        push_str(&mut out, "h ");
    }
    if h > 0 || m > 0 {
        push_decimal(&mut out, m);
        push_str(&mut out, "m ");
    }
    push_decimal(&mut out, s);
    push_str(&mut out, "s");
    assert(out@ =~= uptime_text(seconds));
    from_chars(&out)
}

/// The time at which a process started, in clock ticks since the system
/// started, as the status of the process in `/proc` gives it: the number
/// that is its twenty-second word.
pub open spec fn start_ticks_in(stat: Seq<char>) -> Option<u64> {
    let w = words(stat);
    if w.len() > 21 {
        match parsed_unsigned(w[21], u64::MAX as nat) {
            Some(n) => Some(n as u64),
            None => None,
        }
    } else {
        None
    }
}

/// Reads the time at which a process started from its status in `/proc`.
pub fn start_ticks(stat: &str) -> (r: Option<u64>)
    ensures
        r == start_ticks_in(stat@),
{
    let parts = split_whitespace(&to_chars(stat));
    if parts.len() > 21 {
        assert(views(parts@)[21] == parts@[21]@);
        parse_unsigned(&to_chars(parts[21].as_str()), u64::MAX)
    } else {
        None
    }
}

/// How long a process has run: the time since the system started, less
/// the time at which the process started, which is given in clock ticks.
/// `None` where the clock does not tick or the process started later than
/// now.
pub fn running_seconds(uptime_seconds: u64, start_ticks: u64, ticks_per_second: u64) -> (r: Option<
    u64,
>)
    ensures
        r == (if ticks_per_second > 0 && start_ticks / ticks_per_second <= uptime_seconds {
            Some((uptime_seconds - start_ticks / ticks_per_second) as u64)
        } else {
            None
        }),
{
    if ticks_per_second == 0 {
        return None;
    }
    let started = start_ticks / ticks_per_second;
    if started > uptime_seconds {
        None
    } else {
        Some(uptime_seconds - started)
    }
}

/// What a running daemon holds: its PID, when it started, the watcher
/// with its rules and its counter of processed files, and how many
/// watches and rules its configuration names.
pub struct DaemonState {
    /// The PID of the daemon.
    pub pid: u32,
    /// When the daemon started, in seconds.
    pub start_time: u64,
    /// The watcher.
    pub watcher: Watcher,
    /// How many directories the configuration watches.
    pub watches: usize,
    /// How many rules the configuration holds.
    pub rules: usize,
    /// Whether errors are notified.
    pub notifier: Notifier,
}

/// The watcher is the one that a daemon builds from `config`: with the
/// rules, the polling interval and the debounce window of `config`, and
/// with no directory registered yet.
pub open spec fn built_from(watcher: Watcher, config: Config) -> bool {
    &&& watcher.wf()
    &&& watcher.rules() == config.rules@
    &&& watcher.entries().len() == 0
    &&& watcher.table() == Map::<Seq<char>, u64>::empty()
    &&& watcher.window() == config.general.debounce_seconds
    &&& watcher.interval() == config.general.polling_interval_secs
}

impl DaemonState {
    /// The state of a daemon that starts with `config` at the time `now`.
    /// The directories to watch are returned: the caller registers each.
    pub fn new(pid: u32, now: u64, config: Config) -> (r: (Self, Vec<WatchConfig>))
        ensures
            r.0.pid == pid,
            r.0.start_time == now,
            built_from(r.0.watcher, config),
            r.0.watcher.count() == 0,
            r.0.watches == config.watches@.len(),
            r.0.rules == config.rules@.len(),
            r.0.notifier.enabled == config.general.notifications_enabled,
            r.1 == config.watches,
    {
        let watches = config.watches.len();
        let rules = config.rules.len();
        let notifier = init(config.general.notifications_enabled);
        let watcher = Watcher::new(
            RuleEngine::new(config.rules),
            config.general.polling_interval_secs,
            config.general.debounce_seconds,
        );
        (DaemonState { pid, start_time: now, watcher, watches, rules, notifier }, config.watches)
    }

    /// What the daemon knows of itself at the time `now`.
    pub fn facts(&self, now: u64) -> (r: DaemonFacts)
        ensures
            r.uptime_seconds == (if now >= self.start_time {
                (now - self.start_time) as u64
            } else {
                0
            }),
            r.watches == self.watches,
            r.rules == self.rules,
            r.files_processed == self.watcher.count(),
    {
        DaemonFacts {
            uptime_seconds: if now >= self.start_time {
                now - self.start_time
            } else {
                0
            },
            watches: self.watches,
            rules: self.rules,
            files_processed: self.watcher.files_processed(),
        }
    }

    /// Decides what the daemon's loop does on `event` at the time `now`.
    pub fn on_event(&self, event: &LoopEvent, now: u64) -> (d: Decision)
        ensures
            decided(
                *event,
                DaemonFacts {
                    uptime_seconds: if now >= self.start_time {
                        (now - self.start_time) as u64
                    } else {
                        0
                    },
                    watches: self.watches,
                    rules: self.rules,
                    files_processed: self.watcher.count(),
                },
                d,
            ),
    {
        on_event(event, &self.facts(now))
    }

    /// Replaces the configuration of the running daemon by `config`: the
    /// watcher is built anew, and the number of processed files is carried
    /// over. The directories to watch are returned: the caller registers
    /// each.
    pub fn reload(&mut self, config: Config) -> (r: Vec<WatchConfig>)
        ensures
            final(self).pid == old(self).pid,
            final(self).start_time == old(self).start_time,
            built_from(final(self).watcher, config),
            final(self).watcher.count() == old(self).watcher.count(),
            final(self).watches == config.watches@.len(),
            final(self).rules == config.rules@.len(),
            final(self).notifier.enabled == config.general.notifications_enabled,
            r == config.watches,
    {
        self.watches = config.watches.len();
        self.rules = config.rules.len();
        self.notifier = init(config.general.notifications_enabled);
        self.watcher = self.watcher.reloaded(
            RuleEngine::new(config.rules),
            config.general.polling_interval_secs,
            config.general.debounce_seconds,
        );
        config.watches
    }
}

} // verus!
