use hazelnut::config::{Config, WatchConfig};
use hazelnut::daemon::{
    format_uptime, log_file_path, pid_file_path, read_pid, running_seconds, start_ticks,
    write_pid, Commands, DaemonState, Lifecycle, Message, Report, Sig, Task, STOP_POLLS,
};
use hazelnut::ipc::{DaemonCommand, DaemonResponse, LoopEvent};
use hazelnut::notifications::init;
use hazelnut::rules::{Action, Condition, FileInfo, PatternCache, Rule};
use hazelnut::watcher::Outcome;

/// The part of the world that the life cycle deals with.
struct Host {
    pid_file: Option<String>,
    alive: Vec<u32>,
    next_pid: u32,
    /// how many probes a process survives after it was asked to end
    stubborn: u32,
    said: Vec<Message>,
    slept: u64,
    probes: u32,
    signals: Vec<(u32, Sig)>,
}

impl Host {
    fn new() -> Host {
        Host {
            pid_file: None,
            alive: Vec::new(),
            next_pid: 4242,
            stubborn: 0,
            said: Vec::new(),
            slept: 0,
            probes: 0,
            signals: Vec::new(),
        }
    }

    fn perform(&mut self, task: Task) -> Report {
        match task {
            Task::ReadPid => Report::Pid(self.pid_file.as_deref().and_then(read_pid)),
            Task::Probe(pid) => {
                self.probes += 1;
                if self.signals.contains(&(pid, Sig::Terminate)) {
                    if self.stubborn == 0 {
                        self.alive.retain(|p| *p != pid);
                    } else {
                        self.stubborn -= 1;
                    }
                }
                Report::Alive(self.alive.contains(&pid))
            }
            Task::RemovePidFile => {
                self.pid_file = None;
                Report::Performed
            }
            Task::Spawn => {
                let pid = self.next_pid;
                self.next_pid += 1;
                self.alive.push(pid);
                Report::Spawned(pid)
            }
            Task::WritePid(pid) => {
                self.pid_file = Some(write_pid(pid));
                Report::Performed
            }
            Task::Signal(pid, sig) => {
                let lives = self.alive.contains(&pid);
                if lives {
                    self.signals.push((pid, sig));
                    if sig == Sig::Kill {
                        self.alive.retain(|p| *p != pid);
                    }
                }
                Report::Sent(lives)
            }
            Task::Sleep(ms) => {
                self.slept += ms;
                Report::Performed
            }
            Task::RunForeground | Task::Done | Task::Fail => unreachable!(),
        }
    }

    fn run(&mut self, command: Commands) -> Task {
        let mut m = Lifecycle::begin(command);
        let mut turns = 0;
        loop {
            if let Some(message) = m.say {
                self.said.push(message);
            }
            match m.task {
                Task::Done | Task::Fail | Task::RunForeground => return m.task,
                task => {
                    let report = self.perform(task);
                    m = m.state.advance(report);
                }
            }
            turns += 1;
            assert!(turns < 1000, "the command does not end");
        }
    }
}

#[test]
fn daemon_start_status_stop() {
    let mut host = Host::new();
    assert_eq!(host.run(Commands::Start), Task::Done);
    assert_eq!(host.pid_file.as_deref(), Some("4242"));
    assert_eq!(host.alive, vec![4242]);
    assert_eq!(host.said, vec![Message::Starting, Message::Started(4242)]);

    host.said.clear();
    assert_eq!(host.run(Commands::Status), Task::Done);
    assert_eq!(host.said, vec![Message::Running(4242)]);

    host.said.clear();
    assert_eq!(host.run(Commands::Start), Task::Done);
    assert_eq!(host.said, vec![Message::AlreadyRunning(4242)]);
    assert_eq!(host.alive, vec![4242]);

    host.said.clear();
    assert_eq!(host.run(Commands::Stop), Task::Done);
    assert_eq!(host.said, vec![Message::Stopping(4242), Message::Stopped]);
    assert_eq!(host.pid_file, None);
    assert!(host.alive.is_empty());
    assert_eq!(host.signals, vec![(4242, Sig::Terminate)]);

    host.said.clear();
    assert_eq!(host.run(Commands::Status), Task::Done);
    assert_eq!(host.said, vec![Message::NotRunning]);
    host.said.clear();
    assert_eq!(host.run(Commands::Stop), Task::Done);
    assert_eq!(host.said, vec![Message::NotRunning]);
}

#[test]
fn stale_pid_file_is_removed() {
    for command in [Commands::Status, Commands::Stop, Commands::Reload] {
        let mut host = Host::new();
        host.pid_file = Some("999\n".to_string());
        assert_eq!(host.run(command), Task::Done);
        assert_eq!(host.said, vec![Message::NotRunning]);
        assert_eq!(host.pid_file, None);
        assert!(host.signals.is_empty());
    }
    let mut host = Host::new();
    host.pid_file = Some("999".to_string());
    assert_eq!(host.run(Commands::Start), Task::Done);
    assert_eq!(host.pid_file.as_deref(), Some("4242"));
    // a PID file that holds no number counts as none and is left alone
    let mut host = Host::new();
    host.pid_file = Some("not a pid".to_string());
    assert_eq!(host.run(Commands::Status), Task::Done);
    assert_eq!(host.said, vec![Message::NotRunning]);
    assert_eq!(host.pid_file.as_deref(), Some("not a pid"));
}

#[test]
fn a_stubborn_daemon_is_killed_after_five_seconds() {
    let mut host = Host::new();
    host.run(Commands::Start);
    host.said.clear();
    host.stubborn = 1000;
    assert_eq!(host.run(Commands::Stop), Task::Done);
    assert_eq!(host.said, vec![Message::Stopping(4242), Message::SendingKill, Message::Killed]);
    assert_eq!(host.signals, vec![(4242, Sig::Terminate), (4242, Sig::Kill)]);
    // one probe for the status, then fifty while waiting
    assert_eq!(host.probes, 1 + STOP_POLLS);
    assert_eq!(host.slept, 50 * 100 + 100);
    assert_eq!(host.pid_file, None);
    assert!(host.alive.is_empty());

    // one that ends after a while is not killed
    let mut host = Host::new();
    host.run(Commands::Start);
    host.said.clear();
    host.stubborn = 49;
    assert_eq!(host.run(Commands::Stop), Task::Done);
    assert_eq!(host.said, vec![Message::Stopping(4242), Message::Stopped]);
    assert_eq!(host.slept, 49 * 100);
    assert_eq!(host.pid_file, None);
}

#[test]
fn restart_stops_pauses_and_starts() {
    let mut host = Host::new();
    host.run(Commands::Start);
    host.said.clear();
    assert_eq!(host.run(Commands::Restart), Task::Done);
    assert_eq!(
        host.said,
        vec![
            Message::Stopping(4242),
            Message::Stopped,
            Message::Starting,
            Message::Started(4243)
        ]
    );
    assert_eq!(host.slept, 500);
    assert_eq!(host.alive, vec![4243]);
    assert_eq!(host.pid_file.as_deref(), Some("4243"));

    // restarting what does not run starts it
    let mut host = Host::new();
    assert_eq!(host.run(Commands::Restart), Task::Done);
    assert_eq!(host.said, vec![Message::NotRunning, Message::Starting, Message::Started(4242)]);
    assert_eq!(host.slept, 500);
}

#[test]
fn reload_sends_the_hang_up_signal() {
    let mut host = Host::new();
    host.run(Commands::Start);
    host.said.clear();
    assert_eq!(host.run(Commands::Reload), Task::Done);
    assert_eq!(host.said, vec![Message::Reloading(4242), Message::ReloadSent]);
    assert_eq!(host.signals, vec![(4242, Sig::HangUp)]);
    assert_eq!(host.pid_file.as_deref(), Some("4242"));
    assert_eq!(host.alive, vec![4242]);
}

#[test]
fn failures_of_the_start_are_failures() {
    let first = Lifecycle::begin(Commands::Start);
    assert_eq!(first.task, Task::ReadPid);
    let spawn = first.state.advance(Report::Pid(None));
    assert_eq!(spawn.task, Task::Spawn);
    let failed = spawn.state.advance(Report::Failed);
    assert_eq!((failed.task, failed.say), (Task::Fail, Some(Message::StartFailed)));
    let write = spawn.state.advance(Report::Spawned(7));
    assert_eq!(write.task, Task::WritePid(7));
    let failed = write.state.advance(Report::Failed);
    assert_eq!((failed.task, failed.say), (Task::Fail, Some(Message::StartFailed)));
    // a signal that cannot be sent still clears the PID file
    let stop = Lifecycle::begin(Commands::Stop)
        .state
        .advance(Report::Pid(Some(7)))
        .state
        .advance(Report::Alive(true));
    assert_eq!(stop.task, Task::Signal(7, Sig::Terminate));
    let clear = stop.state.advance(Report::Sent(false));
    assert_eq!(clear.task, Task::RemovePidFile);
    let end = clear.state.advance(Report::Performed);
    assert_eq!((end.task, end.say), (Task::Done, Some(Message::StopFailed)));
    assert_eq!(Lifecycle::begin(Commands::Run).task, Task::RunForeground);
}

#[test]
fn pid_files_hold_a_decimal_number() {
    assert_eq!(read_pid("1234"), Some(1234));
    assert_eq!(read_pid("  1234\n"), Some(1234));
    assert_eq!(read_pid("\t+7 "), Some(7));
    assert_eq!(read_pid("4294967295"), Some(u32::MAX));
    assert_eq!(read_pid("4294967296"), None);
    assert_eq!(read_pid("-1"), None);
    assert_eq!(read_pid("12 34"), None);
    assert_eq!(read_pid(""), None);
    assert_eq!(read_pid("   "), None);
    for pid in [0u32, 1, 10, 4242, u32::MAX] {
        assert_eq!(write_pid(pid), pid.to_string());
        assert_eq!(read_pid(&write_pid(pid)), Some(pid));
    }
}

#[test]
fn state_files_live_below_the_home_directory() {
    assert_eq!(pid_file_path(Some("/home/u")), "/home/u/.local/state/hazelnut/hazelnutd.pid");
    assert_eq!(log_file_path(Some("/home/u/")), "/home/u/.local/state/hazelnut/hazelnutd.log");
    assert_eq!(pid_file_path(None), "/tmp/hazelnutd.pid");
    assert_eq!(log_file_path(None), "/tmp/hazelnutd.log");
}

#[test]
fn uptime_is_written_in_hours_minutes_seconds() {
    assert_eq!(format_uptime(0), "0s");
    assert_eq!(format_uptime(59), "59s");
    assert_eq!(format_uptime(60), "1m 0s");
    assert_eq!(format_uptime(3599), "59m 59s");
    assert_eq!(format_uptime(3600), "1h 0m 0s");
    assert_eq!(format_uptime(90_061), "25h 1m 1s");
    assert_eq!(running_seconds(1000, 25_000, 100), Some(750));
    assert_eq!(running_seconds(1000, 100_001, 100), Some(0));
    assert_eq!(running_seconds(1000, 100_100, 100), None);
    assert_eq!(running_seconds(1000, 5, 0), None);
}

fn config(rules: usize, watches: usize) -> Config {
    let mut c = Config::default();
    for i in 0..rules {
        c.rules.push(Rule::new(&format!("r{}", i), Condition::default(), Action::Nothing));
    }
    for i in 0..watches {
        c.watches.push(WatchConfig { path: format!("/w{}", i), recursive: false, rules: vec![] });
    }
    c.general.debounce_seconds = 3;
    c.general.notifications_enabled = true;
    c
}

#[test]
fn a_reload_keeps_the_count_of_processed_files() {
    let (mut state, watches) = DaemonState::new(77, 1_000, config(2, 1));
    assert_eq!(watches.len(), 1);
    assert_eq!((state.pid, state.start_time, state.watches, state.rules), (77, 1_000, 1, 2));
    assert!(state.notifier.enabled);
    state.watcher.watch("/w0", false);
    let mut cache = PatternCache::new();
    let file = FileInfo::from_path("/w0/a");
    for _ in 0..5 {
        state.watcher.settle(&Outcome::Done, &file, &mut cache, &init(false));
    }
    let before = state.watcher.files_processed();
    assert_eq!(before, 5);

    let watches = state.reload(config(7, 3));
    assert_eq!(state.watcher.files_processed(), before);
    assert_eq!(watches.len(), 3);
    assert_eq!((state.pid, state.start_time, state.watches, state.rules), (77, 1_000, 3, 7));
    assert_eq!(state.watcher.engine().rules().len(), 7);
    assert!(state.watcher.watches().is_empty());

    let facts = state.facts(1_061);
    assert_eq!(facts.uptime_seconds, 61);
    assert_eq!((facts.watches, facts.rules, facts.files_processed), (3, 7, 5));
    assert_eq!(state.facts(5).uptime_seconds, 0);
    let d = state.on_event(&LoopEvent::Request(Ok(DaemonCommand::Status)), 1_010);
    assert!(matches!(
        d.response,
        Some(DaemonResponse::Status { running: true, uptime_seconds: 10, watches: 3, rules: 7, files_processed: 5 })
    ));
}

#[test]
fn the_start_of_a_process_is_its_twenty_second_word() {
    let stat = "4242 (hazelnutd) S 1 4242 4242 0 -1 4194304 100 0 0 0 5 3 0 0 20 0 4 0 123456 1000 200 18446744073709551615";
    assert_eq!(start_ticks(stat), Some(123_456));
    assert_eq!(start_ticks("1 2 3"), None);
    let words: Vec<String> = (0..30).map(|i| format!("w{}", i)).collect();
    assert_eq!(start_ticks(&words.join(" ")), None);
}
