use hazelnut::rules::control::{ActionKind, Failure, Phase, Signal, Step};
use hazelnut::rules::executor::{
    trash_directory, uses_shell, ActionRun, Context, Event, Shell,
};
use hazelnut::rules::expand::{Environment, Moment, Quoting};
use hazelnut::rules::{Action, Condition, FileInfo, PatternCache, Rule, RuleEngine};
use std::collections::{BTreeMap, BTreeSet};

fn ctx() -> Context {
    Context {
        env: Environment { home: Some("/home/hazel".to_string()), vars: vec![] },
        shell: Shell::Sh,
        quoting: Quoting::Unix,
        trash_dir: "/home/hazel/.local/share/Trash/files".to_string(),
        now: Moment { seconds: 1_709_642_096, nanos: 0, offset: 0 },
    }
}

/// A file system in memory, enough to perform the steps of a run.
struct World {
    files: BTreeMap<String, String>,
    dirs: BTreeSet<String>,
    /// renaming fails, as it does across devices
    rename_fails: bool,
    commands: Vec<(String, Vec<String>)>,
    exit_success: bool,
    log: Vec<Step>,
}

impl World {
    fn new() -> World {
        World {
            files: BTreeMap::new(),
            dirs: BTreeSet::new(),
            rename_fails: false,
            commands: Vec::new(),
            exit_success: true,
            log: Vec::new(),
        }
    }

    fn failed(not_found: bool, message: &str) -> Event {
        Event::Failed { not_found, message: message.to_string() }
    }

    fn perform(&mut self, run: &ActionRun, step: Step) -> Event {
        self.log.push(step);
        match step {
            Step::CreateDirectory => {
                self.dirs.insert(run.directory.clone());
                Event::Succeeded
            }
            Step::ProbeTarget => Event::Answer(
                self.files.contains_key(&run.target) || self.dirs.contains(&run.target),
            ),
            Step::ProbeSource => Event::Answer(self.dirs.contains(&run.source)),
            Step::Rename => {
                if self.rename_fails {
                    return World::failed(false, "cross-device link");
                }
                match self.files.remove(&run.source) {
                    Some(content) => {
                        self.files.insert(run.target.clone(), content);
                        Event::Succeeded
                    }
                    None => World::failed(true, "no such file"),
                }
            }
            Step::CopyFile => match self.files.get(&run.source).cloned() {
                Some(content) => {
                    self.files.insert(run.target.clone(), content);
                    Event::Succeeded
                }
                None => World::failed(true, "no such file"),
            },
            Step::RemoveSource => match self.files.remove(&run.source) {
                Some(_) => Event::Succeeded,
                None => World::failed(true, "no such file"),
            },
            Step::RemoveSourceTree => {
                let prefix = format!("{}/", run.source);
                self.dirs.remove(&run.source);
                self.files.retain(|k, _| !k.starts_with(&prefix));
                Event::Succeeded
            }
            Step::RunShell => {
                self.commands.push((
                    run.shell.program().to_string(),
                    vec![run.shell.flag().to_string(), run.command.clone()],
                ));
                Event::Exited {
                    success: self.exit_success,
                    status: if self.exit_success { "exit status: 0" } else { "exit status: 3" }.to_string(),
                }
            }
            Step::RunProgram => {
                self.commands.push((run.command.clone(), run.arguments.clone()));
                Event::Exited {
                    success: self.exit_success,
                    status: if self.exit_success { "exit status: 0" } else { "exit status: 3" }.to_string(),
                }
            }
            Step::WriteArchive => match self.files.get(&run.source) {
                Some(content) => {
                    let zipped = format!("zip({})", content);
                    self.files.insert(run.target.clone(), zipped);
                    Event::Succeeded
                }
                None => World::failed(true, "no such file"),
            },
            Step::Done | Step::Failed => unreachable!(),
        }
    }

    /// Carries out `action` on `path` and returns the run at its end.
    fn execute(&mut self, action: &Action, path: &str) -> ActionRun {
        let (mut run, mut step) = ActionRun::start(action, path, &ctx());
        let mut turns = 0;
        while step != Step::Done && step != Step::Failed {
            let event = self.perform(&run, step);
            step = run.advance(&event);
            turns += 1;
            assert!(turns < 1000, "the run does not end");
        }
        assert!(run.is_finished());
        assert_eq!(run.error.is_none(), step == Step::Done);
        run
    }
}

fn move_to(dir: &str, overwrite: bool) -> Action {
    Action::Move { destination: dir.to_string(), create_destination: true, overwrite }
}

#[test]
fn move_refuses_an_existing_destination() {
    let mut w = World::new();
    w.files.insert("/in/a.txt".to_string(), "new".to_string());
    w.files.insert("/out/a.txt".to_string(), "old".to_string());
    let run = w.execute(&move_to("/out", false), "/in/a.txt");
    let error = run.error.unwrap();
    assert_eq!(error.failure, Failure::AlreadyExists);
    assert_eq!(error.message, "Destination exists and overwrite is false: /out/a.txt");
    assert_eq!(w.files["/in/a.txt"], "new");
    assert_eq!(w.files["/out/a.txt"], "old");
    assert_eq!(w.log, vec![Step::CreateDirectory, Step::ProbeTarget]);
}

#[test]
fn move_overwrites_where_it_may() {
    let mut w = World::new();
    w.files.insert("/in/a.txt".to_string(), "new".to_string());
    w.files.insert("/out/a.txt".to_string(), "old".to_string());
    let run = w.execute(&move_to("/out", true), "/in/a.txt");
    assert!(run.error.is_none());
    assert!(!w.files.contains_key("/in/a.txt"));
    assert_eq!(w.files["/out/a.txt"], "new");
    assert_eq!(w.log, vec![Step::CreateDirectory, Step::ProbeTarget, Step::Rename]);
}

#[test]
fn move_falls_back_to_copy_and_remove() {
    let mut w = World::new();
    w.rename_fails = true;
    w.files.insert("/in/a.txt".to_string(), "content".to_string());
    let run = w.execute(&move_to("/mnt/other", false), "/in/a.txt");
    assert!(run.error.is_none());
    assert!(!w.files.contains_key("/in/a.txt"));
    assert_eq!(w.files["/mnt/other/a.txt"], "content");
    assert_eq!(
        w.log,
        vec![
            Step::CreateDirectory,
            Step::ProbeTarget,
            Step::Rename,
            Step::CopyFile,
            Step::RemoveSource
        ]
    );
    assert!(w.dirs.contains("/mnt/other"));
}

#[test]
fn a_failed_copy_keeps_the_source() {
    let (mut run, step) = ActionRun::start(&move_to("/out", false), "/in/a.txt", &ctx());
    assert_eq!(step, Step::CreateDirectory);
    assert_eq!(run.advance(&Event::Succeeded), Step::ProbeTarget);
    assert_eq!(run.advance(&Event::Answer(false)), Step::Rename);
    assert_eq!(run.advance(&World::failed(false, "cross-device")), Step::CopyFile);
    assert_eq!(run.advance(&World::failed(false, "disk full")), Step::Failed);
    let error = run.error.clone().unwrap();
    assert_eq!(error.failure, Failure::Io);
    assert_eq!(error.message, "disk full");
    assert!(!error.is_not_found());
    // nothing follows the end of a run
    assert_eq!(run.advance(&Event::Succeeded), Step::Failed);
    assert_eq!(run.error.unwrap().failure, Failure::OutOfTurn);
}

#[test]
fn a_vanished_file_is_not_found() {
    let mut w = World::new();
    let run = w.execute(&move_to("/out", false), "/in/gone.txt");
    let error = run.error.unwrap();
    assert_eq!(error.failure, Failure::NotFound);
    assert!(error.is_not_found());
}

#[test]
fn move_without_creating_skips_the_directory() {
    let action = Action::Move {
        destination: "~/sorted".to_string(),
        create_destination: false,
        overwrite: false,
    };
    let (run, step) = ActionRun::start(&action, "/in/a.txt", &ctx());
    assert_eq!(step, Step::ProbeTarget);
    assert_eq!(run.directory, "/home/hazel/sorted");
    assert_eq!(run.target, "/home/hazel/sorted/a.txt");
    assert_eq!(run.source, "/in/a.txt");
}

#[test]
fn a_path_without_a_name_fails_after_the_directory() {
    let (mut run, step) = ActionRun::start(&move_to("/out", false), "/", &ctx());
    assert_eq!(step, Step::CreateDirectory);
    assert_eq!(run.advance(&Event::Succeeded), Step::Failed);
    let error = run.error.unwrap();
    assert_eq!(error.failure, Failure::NoFileName);
    assert_eq!(error.message, "File has no name");
}

#[test]
fn copy_leaves_the_source() {
    let mut w = World::new();
    w.files.insert("/in/a.txt".to_string(), "content".to_string());
    let action = Action::Copy {
        destination: "/out".to_string(),
        create_destination: true,
        overwrite: false,
    };
    let run = w.execute(&action, "/in/a.txt");
    assert!(run.error.is_none());
    assert_eq!(w.files["/in/a.txt"], "content");
    assert_eq!(w.files["/out/a.txt"], "content");
    assert_eq!(w.log, vec![Step::CreateDirectory, Step::ProbeTarget, Step::CopyFile]);
    let again = w.execute(&action, "/in/a.txt");
    assert_eq!(again.error.unwrap().failure, Failure::AlreadyExists);
}

#[test]
fn rename_stays_in_the_directory() {
    let mut w = World::new();
    w.files.insert("/in/report.pdf".to_string(), "content".to_string());
    let action = Action::Rename { pattern: "{date}_{name}.{ext}".to_string() };
    let run = w.execute(&action, "/in/report.pdf");
    assert!(run.error.is_none());
    assert_eq!(run.target, "/in/2024-03-05_report.pdf");
    assert_eq!(w.files["/in/2024-03-05_report.pdf"], "content");
    assert_eq!(w.log, vec![Step::Rename]);

    let (run, step) = ActionRun::start(&action, "report.pdf", &ctx());
    assert_eq!(step, Step::Rename);
    assert_eq!(run.target, "2024-03-05_report.pdf");

    let bad = Action::Rename { pattern: "{date:%Q}".to_string() };
    let (run, step) = ActionRun::start(&bad, "/in/report.pdf", &ctx());
    assert_eq!(step, Step::Failed);
    assert_eq!(run.error.unwrap().failure, Failure::BadDateFormat);
}

#[test]
fn trash_finds_a_free_name() {
    let mut w = World::new();
    let dir = "/home/hazel/.local/share/Trash/files";
    w.files.insert("/in/a.tar.gz".to_string(), "third".to_string());
    w.files.insert(format!("{}/a.tar.gz", dir), "first".to_string());
    w.files.insert(format!("{}/a.tar_1.gz", dir), "second".to_string());
    let run = w.execute(&Action::Trash, "/in/a.tar.gz");
    assert!(run.error.is_none());
    assert_eq!(run.target, format!("{}/a.tar_2.gz", dir));
    assert_eq!(run.control.attempt, 2);
    assert_eq!(w.files[&format!("{}/a.tar.gz", dir)], "first");
    assert_eq!(w.files[&format!("{}/a.tar_1.gz", dir)], "second");
    assert_eq!(w.files[&format!("{}/a.tar_2.gz", dir)], "third");
    assert!(!w.files.contains_key("/in/a.tar.gz"));
    assert_eq!(
        w.log,
        vec![
            Step::CreateDirectory,
            Step::ProbeTarget,
            Step::ProbeTarget,
            Step::ProbeTarget,
            Step::Rename
        ]
    );

    let mut w = World::new();
    w.files.insert("/in/noext".to_string(), "x".to_string());
    w.files.insert(format!("{}/noext", dir), "y".to_string());
    let run = w.execute(&Action::Trash, "/in/noext");
    assert_eq!(run.target, format!("{}/noext_1", dir));
}

#[test]
fn delete_removes_files_and_trees() {
    let mut w = World::new();
    w.files.insert("/in/a.txt".to_string(), "x".to_string());
    let run = w.execute(&Action::Delete, "/in/a.txt");
    assert!(run.error.is_none());
    assert!(w.files.is_empty());
    assert_eq!(w.log, vec![Step::ProbeSource, Step::RemoveSource]);

    let mut w = World::new();
    w.dirs.insert("/in/d".to_string());
    w.files.insert("/in/d/a".to_string(), "x".to_string());
    w.files.insert("/in/d/b/c".to_string(), "x".to_string());
    w.files.insert("/in/dd".to_string(), "keep".to_string());
    let run = w.execute(&Action::Delete, "/in/d");
    assert!(run.error.is_none());
    assert_eq!(w.log, vec![Step::ProbeSource, Step::RemoveSourceTree]);
    assert_eq!(w.files.len(), 1);
    assert_eq!(w.files["/in/dd"], "keep");
}

#[test]
fn the_shell_and_its_quoting_follow_the_platform() {
    assert_eq!(Shell::of_platform(false), Shell::Sh);
    assert_eq!(Shell::of_platform(true), Shell::Cmd);
    assert_eq!((Shell::Sh.program(), Shell::Sh.flag()), ("sh", "-c"));
    assert_eq!((Shell::Cmd.program(), Shell::Cmd.flag()), ("cmd", "/C"));
    let windows = Context { shell: Shell::Cmd, quoting: Quoting::Windows, ..ctx() };
    let action = Action::Run { command: "type {path} > {dir}/n".to_string(), args: vec![] };
    let (run, step) = ActionRun::start(&action, "/in/two words.txt", &windows);
    assert_eq!(step, Step::RunShell);
    assert_eq!(run.shell, Shell::Cmd);
    assert_eq!(run.command, "type \"/in/two words.txt\" > /in/n");
    // a Unix shell on Windows: the shell of the platform, the quoting of Unix
    let mixed = Context { shell: Shell::Cmd, quoting: Quoting::of_platform(false, true), ..ctx() };
    let (run, _) = ActionRun::start(&action, "/in/two words.txt", &mixed);
    assert_eq!(run.shell, Shell::Cmd);
    assert_eq!(run.command, "type '/in/two words.txt' > /in/n");
    // arguments given one by one are never quoted
    let direct = Action::Run { command: "type".to_string(), args: vec!["{path}".to_string()] };
    let (run, step) = ActionRun::start(&direct, "/in/two words.txt", &windows);
    assert_eq!(step, Step::RunProgram);
    assert_eq!(run.arguments, vec!["/in/two words.txt".to_string()]);
}

#[test]
fn commands_with_shell_operators_go_through_the_shell() {
    for c in ["a && b", "a || b", "a; b", "a | b", "a > b", "a < b"] {
        assert!(uses_shell(c), "{}", c);
    }
    for c in ["a & b", "echo hello", "", "a = b"] {
        assert!(!uses_shell(c), "{}", c);
    }
    let mut w = World::new();
    let action = Action::Run { command: "cat {path} | wc -l > {dir}/n".to_string(), args: vec![] };
    let run = w.execute(&action, "/in/two words.txt");
    assert!(run.error.is_none());
    assert!(run.control.shell);
    assert_eq!(
        w.commands,
        vec![(
            "sh".to_string(),
            vec!["-c".to_string(), "cat '/in/two words.txt' | wc -l > /in/n".to_string()]
        )]
    );
    // with arguments the command is run as it is
    let action = Action::Run {
        command: "a|b".to_string(),
        args: vec!["{path}".to_string()],
    };
    let (run, step) = ActionRun::start(&action, "/in/x y", &ctx());
    assert_eq!(step, Step::RunProgram);
    assert_eq!(run.command, "a|b");
    assert_eq!(run.arguments, vec!["/in/x y".to_string()]);
}

#[test]
fn commands_are_split_and_arguments_expanded() {
    let mut w = World::new();
    let action = Action::Run { command: "convert  -quality 80".to_string(), args: vec![] };
    w.execute(&action, "/in/a.png");
    let action = Action::Run {
        command: "my tool".to_string(),
        args: vec!["{path}".to_string(), "--out={dir}/{name}.jpg".to_string(), "{date:%Q}".to_string()],
    };
    w.execute(&action, "/in/a b.png");
    let action = Action::Run { command: "ls".to_string(), args: vec![] };
    w.execute(&action, "/in/a.png");
    assert_eq!(
        w.commands,
        vec![
            ("convert".to_string(), vec!["-quality".to_string(), "80".to_string()]),
            (
                "my tool".to_string(),
                vec![
                    "/in/a b.png".to_string(),
                    "--out=/in/a b.jpg".to_string(),
                    "{date:%Q}".to_string()
                ]
            ),
            ("ls".to_string(), vec![]),
        ]
    );
    let blank = Action::Run { command: "   ".to_string(), args: vec![] };
    let (run, step) = ActionRun::start(&blank, "/in/a.png", &ctx());
    assert_eq!(step, Step::Failed);
    assert_eq!(run.error.unwrap().failure, Failure::EmptyCommand);
}

#[test]
fn a_command_that_fails_is_an_error_and_is_notified() {
    let mut w = World::new();
    w.exit_success = false;
    let action = Action::Run { command: "false".to_string(), args: vec![] };
    let run = w.execute(&action, "/in/a.png");
    let error = run.error.clone().unwrap();
    assert_eq!(error.failure, Failure::CommandFailed);
    assert_eq!(error.message, "Command failed with status: exit status: 3");
    assert_eq!(w.commands.len(), 1);
    let on = hazelnut::notifications::init(true);
    let n = run.command_notification(&on).unwrap();
    assert_eq!(n.body, "Command 'false' failed: exited with status exit status: 3");
    assert_eq!(n.summary, "Hazelnut: Command Error");
    let off = hazelnut::notifications::init(false);
    assert!(run.command_notification(&off).is_none());

    // a command that cannot be started
    let (mut run, step) = ActionRun::start(&action, "/in/a.png", &ctx());
    assert_eq!(step, Step::RunProgram);
    assert_eq!(run.advance(&World::failed(true, "Failed to run command: false")), Step::Failed);
    assert_eq!(run.error.clone().unwrap().failure, Failure::CommandFailed);
    assert_eq!(run.error.clone().unwrap().message, "Failed to run command: false");
    assert!(run.command_notification(&on).is_none());
}

#[test]
fn archive_deletes_the_original_only_when_asked_and_written() {
    let mut w = World::new();
    w.files.insert("/in/a.txt".to_string(), "x".to_string());
    let keep = Action::Archive { destination: None, delete_original: false };
    let run = w.execute(&keep, "/in/a.txt");
    assert!(run.error.is_none());
    assert_eq!(run.target, "/in/a.zip");
    assert_eq!(w.files["/in/a.zip"], "zip(x)");
    assert_eq!(w.files["/in/a.txt"], "x");
    assert_eq!(w.log, vec![Step::WriteArchive]);

    let mut w = World::new();
    w.files.insert("/in/a.txt".to_string(), "x".to_string());
    let drop = Action::Archive { destination: Some("~/zips".to_string()), delete_original: true };
    let run = w.execute(&drop, "/in/a.txt");
    assert!(run.error.is_none());
    assert_eq!(run.target, "/home/hazel/zips/a.zip");
    assert!(!w.files.contains_key("/in/a.txt"));
    assert_eq!(w.log, vec![Step::WriteArchive, Step::ProbeSource, Step::RemoveSource]);

    // a directory goes as a whole, with what is below it
    let mut w = World::new();
    w.dirs.insert("/in/photos".to_string());
    w.files.insert("/in/photos".to_string(), "tree".to_string());
    w.files.insert("/in/photos/one.png".to_string(), "1".to_string());
    w.files.insert("/in/other.png".to_string(), "2".to_string());
    let run = w.execute(&drop, "/in/photos");
    assert!(run.error.is_none());
    assert_eq!(run.target, "/home/hazel/zips/photos.zip");
    assert_eq!(w.log, vec![Step::WriteArchive, Step::ProbeSource, Step::RemoveSourceTree]);
    assert!(!w.dirs.contains("/in/photos"));
    assert!(!w.files.contains_key("/in/photos/one.png"));
    assert!(w.files.contains_key("/in/other.png"));

    // the question which of the two it is may fail; nothing is removed then
    let (mut run, step) = ActionRun::start(&drop, "/in/a.txt", &ctx());
    assert_eq!(step, Step::WriteArchive);
    assert_eq!(run.advance(&Event::Succeeded), Step::ProbeSource);
    assert_eq!(run.advance(&World::failed(true, "gone")), Step::Failed);
    assert_eq!(run.error.unwrap().failure, Failure::NotFound);

    let (mut run, step) = ActionRun::start(&drop, "/in/a.txt", &ctx());
    assert_eq!(step, Step::WriteArchive);
    assert_eq!(run.advance(&World::failed(false, "disk full")), Step::Failed);
    assert_eq!(run.error.unwrap().failure, Failure::Io);

    let (run, step) = ActionRun::start(&keep, "/", &ctx());
    assert_eq!(step, Step::Failed);
    assert_eq!(run.error.unwrap().failure, Failure::NoFileName);
}

#[test]
fn nothing_does_nothing() {
    let mut w = World::new();
    let run = w.execute(&Action::Nothing, "/in/a.txt");
    assert!(run.error.is_none());
    assert!(w.log.is_empty());
    assert_eq!(run.control.kind, ActionKind::Nothing);
    assert_eq!(run.control.phase, Phase::Finished);
}

#[test]
fn the_machine_alone_takes_signals() {
    let (run, step) = ActionRun::start(&move_to("/out", false), "/in/a.txt", &ctx());
    assert_eq!(step, Step::CreateDirectory);
    let t = run.control.advance(Signal::Succeeded);
    assert_eq!(t.step, Step::ProbeTarget);
    let refused = t.control.advance(Signal::Answer(true));
    assert_eq!(refused.step, Step::Failed);
    assert_eq!(refused.failure, Some(Failure::AlreadyExists));
    let free = t.control.advance(Signal::Answer(false));
    assert_eq!(free.step, Step::Rename);
    assert_eq!(free.control.advance(Signal::Succeeded).step, Step::Done);
    assert_eq!(t.control.advance(Signal::Succeeded).failure, Some(Failure::OutOfTurn));
}

#[test]
fn extension_rule_moves_the_matching_file() {
    let engine = RuleEngine::new(vec![Rule::new(
        "pdfs",
        Condition { extension: Some("pdf".to_string()), ..Default::default() },
        Action::Move { destination: "/out".to_string(), create_destination: true, overwrite: false },
    )]);
    let mut cache = PatternCache::new();
    let mut w = World::new();
    w.files.insert("/in/report.PDF".to_string(), "pdf".to_string());
    w.files.insert("/in/report.txt".to_string(), "txt".to_string());

    let started = engine
        .process(&FileInfo::from_path("/in/report.PDF"), &mut cache, &ctx())
        .unwrap();
    let (mut run, mut step) = started.unwrap();
    while step != Step::Done && step != Step::Failed {
        let event = w.perform(&run, step);
        step = run.advance(&event);
    }
    assert_eq!(step, Step::Done);
    assert_eq!(w.files["/out/report.PDF"], "pdf");
    assert!(!w.files.contains_key("/in/report.PDF"));

    let none = engine
        .process(&FileInfo::from_path("/in/report.txt"), &mut cache, &ctx())
        .unwrap();
    assert!(none.is_none());
    let none = engine
        .process_filtered(&FileInfo::from_path("/in/report.pdf"), Some(&["other".to_string()]), &mut cache, &ctx())
        .unwrap();
    assert!(none.is_none());
    assert_eq!(w.files["/in/report.txt"], "txt");
}

#[test]
fn actions_begin_their_own_runs() {
    let (run, step) = move_to("/out", false).execute("/in/a.txt", &ctx());
    assert_eq!(step, Step::CreateDirectory);
    assert_eq!(run.target, "/out/a.txt");
    let (run, step) = Action::Nothing.execute("/in/a.txt", &ctx());
    assert_eq!(step, Step::Done);
    assert!(run.is_finished());
}

#[test]
fn the_trash_has_its_place() {
    assert_eq!(trash_directory(Some("/home/u/.local/share"), Some("/home/u")), "/home/u/.local/share/Trash/files");
    assert_eq!(trash_directory(None, Some("/home/u")), "/home/u/.local/share/Trash/files");
    assert_eq!(trash_directory(None, None), "/tmp/trash");
}
