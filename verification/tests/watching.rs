use hazelnut::notifications::init;
use hazelnut::rules::control::{Failure, Step};
use hazelnut::rules::executor::{ActionError, Context, Shell};
use hazelnut::rules::expand::{Environment, Moment, Quoting};
use hazelnut::rules::{Action, Condition, FileInfo, InvalidPattern, PatternCache, PatternKind, Rule, RuleEngine};
use hazelnut::watcher::handler::MAX_DEBOUNCE_ENTRIES;
use hazelnut::watcher::{
    bump, scan_candidates, EventHandler, EventKind, FsEvent, Outcome, ScanEntry, ScanTally,
    WatchState, Watcher,
};

fn paths(list: &[&str]) -> Vec<String> {
    list.iter().map(|s| s.to_string()).collect()
}

fn event(kind: EventKind, list: &[&str]) -> FsEvent {
    FsEvent { kind, paths: paths(list) }
}

fn ctx() -> Context {
    Context {
        env: Environment { home: None, vars: vec![] },
        shell: Shell::Sh,
        quoting: Quoting::Unix,
        trash_dir: "/trash".to_string(),
        now: Moment { seconds: 0, nanos: 0, offset: 0 },
    }
}

#[test]
fn test_debounce() {
    let mut handler = EventHandler::new(1);
    let event = paths(&["/tmp/test.txt"]);
    let now = 1_000_000;

    // First event should be processed
    let paths = handler.should_process(&event, now);
    assert_eq!(paths.len(), 1);

    // Immediate second event should be debounced
    let paths = handler.should_process(&event, now);
    assert_eq!(paths.len(), 0);
}

#[test]
fn debounce_window_opens_again() {
    let mut handler = EventHandler::new(2);
    let p = paths(&["/w/a.txt"]);
    let t = 50_000;
    assert_eq!(handler.should_process(&p, t), p);
    assert!(handler.should_process(&p, t + 1).is_empty());
    assert!(handler.should_process(&p, t + 1_999).is_empty());
    // the window is exclusive: at its very end the path is still suppressed
    assert!(handler.should_process(&p, t + 2_000).is_empty());
    assert_eq!(handler.should_process(&p, t + 2_001), p);
    // the window now counts from the event that was let through
    assert!(handler.should_process(&p, t + 4_000).is_empty());
    assert_eq!(handler.should_process(&p, t + 4_002), p);
    // a clock that goes back suppresses
    assert!(handler.should_process(&p, 0).is_empty());
}

#[test]
fn each_path_has_its_own_window() {
    let mut handler = EventHandler::new(1);
    assert_eq!(
        handler.should_process(&paths(&["/a", "/b", "/a"]), 10),
        paths(&["/a", "/b"])
    );
    assert_eq!(handler.should_process(&paths(&["/b", "/c"]), 500), paths(&["/c"]));
    assert_eq!(handler.len(), 3);
    assert_eq!(handler.should_process(&paths(&["/a", "/c"]), 1_011), paths(&["/a"]));
}

#[test]
fn cleanup_drops_old_entries_only() {
    let mut handler = EventHandler::new(1);
    handler.should_process(&paths(&["/old"]), 0);
    handler.should_process(&paths(&["/new"]), 5_000);
    handler.cleanup(9_999);
    assert_eq!(handler.len(), 2);
    handler.cleanup(10_000);
    assert_eq!(handler.len(), 1);
    assert!(handler.should_process(&paths(&["/new"]), 5_500).is_empty());
    assert_eq!(handler.should_process(&paths(&["/old"]), 5_500), paths(&["/old"]));
    // with a window of zero nothing is kept
    let mut none = EventHandler::new(0);
    none.should_process(&paths(&["/a"]), 7);
    none.cleanup(7);
    assert_eq!(none.len(), 0);
    // a huge window does not overflow
    let mut huge = EventHandler::new(u64::MAX);
    huge.should_process(&paths(&["/a"]), 0);
    assert!(huge.should_process(&paths(&["/a"]), u64::MAX).is_empty());
    huge.cleanup(u64::MAX);
    assert_eq!(huge.len(), 1);
}

#[test]
fn a_table_that_outgrows_its_cap_is_emptied() {
    let mut handler = EventHandler::new(60);
    let many: Vec<String> = (0..MAX_DEBOUNCE_ENTRIES).map(|i| format!("/w/{}", i)).collect();
    assert_eq!(handler.should_process(&many, 1).len(), MAX_DEBOUNCE_ENTRIES);
    assert_eq!(handler.len(), MAX_DEBOUNCE_ENTRIES);
    assert!(handler.should_process(&paths(&["/w/5"]), 2).is_empty());
    assert_eq!(handler.should_process(&paths(&["/w/one-more"]), 2).len(), 1);
    assert_eq!(handler.len(), 0);
    assert_eq!(handler.should_process(&paths(&["/w/5"]), 3).len(), 1);
}

fn watcher_with(rules: Vec<Rule>) -> Watcher {
    Watcher::new(RuleEngine::new(rules), 5, 2)
}

#[test]
fn only_creations_and_modifications_count() {
    let mut w = watcher_with(vec![]);
    let events = vec![
        event(EventKind::Remove, &["/w/removed"]),
        event(EventKind::Create, &["/w/created", "/w/.hidden", "/w/.git/config"]),
        event(EventKind::Access, &["/w/read"]),
        event(EventKind::Modify, &["/w/created", "/w/changed"]),
        event(EventKind::Other, &["/w/other"]),
    ];
    assert_eq!(
        w.process_polled_events(&events, 1_000),
        paths(&["/w/created", "/w/.git/config", "/w/changed"])
    );
    // within the window everything is suppressed, the hidden file too
    assert!(w.process_polled_events(&events, 2_000).is_empty());
    assert_eq!(w.process_polled_events(&events, 3_001).len(), 3);
    assert!(w.process_polled_events(&vec![], 3_002).is_empty());
    assert_eq!(w.files_processed(), 0);
}

#[test]
fn the_longest_watched_prefix_decides() {
    let mut w = watcher_with(vec![]);
    assert_eq!(w.watch_with_rules("/home/u", true, paths(&["all"])), Some(paths(&["all"])));
    assert_eq!(w.watch_with_rules("/home/u/Downloads", false, paths(&["pdfs", "images"])), Some(paths(&["pdfs", "images"])));
    assert_eq!(w.watch("/home/u/Desktop", false), None);
    let allowed = |w: &Watcher, p: &str| w.allowed_rules_for(p).map(|s| s.to_vec());
    assert_eq!(allowed(&w, "/home/u/notes.txt"), Some(paths(&["all"])));
    assert_eq!(allowed(&w, "/home/u/Downloads/a.pdf"), Some(paths(&["pdfs", "images"])));
    assert_eq!(allowed(&w, "/home/u/Downloads/sub/a.pdf"), Some(paths(&["pdfs", "images"])));
    // an empty list allows every rule
    assert_eq!(allowed(&w, "/home/u/Desktop/a.pdf"), None);
    // prefixes are taken by components, not by characters
    assert_eq!(allowed(&w, "/home/u/Downloads2/a.pdf"), Some(paths(&["all"])));
    assert_eq!(allowed(&w, "/home/user/a.pdf"), None);
    assert_eq!(allowed(&w, "/elsewhere/a.pdf"), None);
    // registering again replaces the list
    assert_eq!(w.watch_with_rules("/home/u/Downloads", true, vec![]), None);
    assert_eq!(allowed(&w, "/home/u/Downloads/a.pdf"), None);
    assert_eq!(w.watches().len(), 3);
    assert!(w.watches()[1].recursive);
}

fn pdf_rules() -> Vec<Rule> {
    vec![
        Rule::new(
            "pdfs",
            Condition { extension: Some("pdf".to_string()), ..Default::default() },
            Action::Trash,
        ),
        Rule::new(
            "broken",
            Condition { name_matches: Some("[".to_string()), ..Default::default() },
            Action::Delete,
        ),
    ]
}

#[test]
fn rules_fire_only_where_they_are_allowed() {
    let mut w = watcher_with(pdf_rules());
    w.watch_with_rules("/docs", true, paths(&["pdfs"]));
    w.watch_with_rules("/misc", true, paths(&["other"]));
    let mut cache = PatternCache::new();
    let f = FileInfo::from_path("/docs/a.pdf");
    let (run, step) = w.begin(&f, "/docs/a.pdf", &mut cache, &ctx()).unwrap().unwrap();
    assert_eq!(step, Step::CreateDirectory);
    assert_eq!(run.target, "/trash/a.pdf");
    let f = FileInfo::from_path("/misc/a.pdf");
    assert!(w.begin(&f, "/misc/a.pdf", &mut cache, &ctx()).unwrap().is_none());
    // outside every watched directory all rules may fire
    let f = FileInfo::from_path("/else/a.txt");
    let err = w.begin(&f, "/else/a.txt", &mut cache, &ctx()).unwrap_err();
    assert_eq!(err.kind, PatternKind::Glob);
}

#[test]
fn only_carried_out_actions_count() {
    let mut w = watcher_with(pdf_rules());
    let mut cache = PatternCache::new();
    let on = init(true);
    let f = FileInfo::from_path("/docs/a.pdf");

    let s = w.settle(&Outcome::NoMatch, &f, &mut cache, &on);
    assert!(!s.counted && s.report.is_none() && s.notification.is_none());
    assert_eq!(w.files_processed(), 0);

    let s = w.settle(&Outcome::Done, &f, &mut cache, &on);
    assert!(s.counted && s.report.is_none() && s.notification.is_none());
    assert_eq!(w.files_processed(), 1);

    let gone = ActionError { failure: Failure::NotFound, message: "gone".to_string() };
    let s = w.settle(&Outcome::Failed(gone), &f, &mut cache, &on);
    assert!(!s.counted && s.report.is_none() && s.notification.is_none());

    let denied = ActionError { failure: Failure::Io, message: "permission denied".to_string() };
    let s = w.settle(&Outcome::Failed(denied.clone()), &f, &mut cache, &on);
    assert!(!s.counted);
    assert_eq!(s.report, Some(("pdfs".to_string(), "permission denied".to_string())));
    assert_eq!(s.notification.unwrap().body, "Rule 'pdfs' failed: permission denied");
    assert_eq!(w.files_processed(), 1);

    // where no rule holds, the failure is blamed on no rule
    let other = FileInfo::from_path("/docs/a.txt");
    let off = init(false);
    let s = w.settle(&Outcome::Failed(denied), &other, &mut cache, &off);
    assert_eq!(s.report.unwrap().0, "unknown");
    assert!(s.notification.is_none());

    let bad = InvalidPattern {
        kind: PatternKind::Glob,
        pattern: "[".to_string(),
        message: "invalid range pattern".to_string(),
    };
    let s = w.settle(&Outcome::Invalid(bad), &other, &mut cache, &on);
    assert_eq!(s.report, Some(("unknown".to_string(), "invalid range pattern".to_string())));
    assert_eq!(w.find_matching_rule_name(&f, &mut cache), "pdfs");
}

#[test]
fn reload_preserves_counters() {
    let mut w = watcher_with(pdf_rules());
    w.watch("/docs", true);
    let mut cache = PatternCache::new();
    let f = FileInfo::from_path("/docs/a.pdf");
    for _ in 0..3 {
        w.settle(&Outcome::Done, &f, &mut cache, &init(false));
    }
    w.process_polled_events(&vec![event(EventKind::Create, &["/docs/a.pdf"])], 10);
    let before = w.files_processed();
    assert_eq!(before, 3);
    let next = w.reloaded(RuleEngine::new(vec![]), 7, 9);
    assert_eq!(next.files_processed(), before);
    assert_eq!(next.engine().rules().len(), 0);
    assert_eq!(next.watches().len(), 0);
    assert_eq!(next.polling_interval_secs(), 7);
    let mut fresh = watcher_with(vec![]);
    fresh.carry_over_files_processed(&w);
    assert_eq!(fresh.files_processed(), 3);
}

#[test]
fn the_scan_skips_hidden_files_and_links() {
    let entry = |path: &str, is_file: bool, is_dir: bool, is_symlink: bool| ScanEntry {
        path: path.to_string(),
        is_file,
        is_dir,
        is_symlink,
    };
    assert!(entry("/w/a.pdf", true, false, false).scannable());
    assert!(!entry("/w/.a.pdf", true, false, false).scannable());
    assert!(!entry("/w/link", true, false, true).scannable());
    assert!(!entry("/w/dir", false, true, false).scannable());
    assert!(entry("/w/dir", false, true, false).enterable());
    assert!(!entry("/w/loop", false, true, true).enterable());

    let found = vec![
        entry("/w/a.pdf", true, false, false),
        entry("/w/.hidden", true, false, false),
        entry("/w/sub", false, true, false),
        entry("/w/link", true, false, true),
        entry("/w/b.txt", true, false, false),
    ];
    assert_eq!(scan_candidates(&found), vec!["/w/a.pdf".to_string(), "/w/b.txt".to_string()]);
    assert!(scan_candidates(&vec![]).is_empty());

    let mut tally = ScanTally::new();
    tally.record(&Outcome::Done);
    tally.record(&Outcome::NoMatch);
    tally.record(&Outcome::Failed(ActionError { failure: Failure::Io, message: String::new() }));
    tally.record(&Outcome::Done);
    assert_eq!(tally, ScanTally { scanned: 4, matched: 2 });
    let mut w = watcher_with(vec![]);
    w.add_scanned(tally);
    assert_eq!(w.files_processed(), 2);
    w.add_scanned(ScanTally { scanned: 0, matched: 0 });
    assert_eq!(w.files_processed(), 2);
}

#[test]
fn the_counter_wraps_around() {
    assert_eq!(bump(0, 1), 1);
    assert_eq!(bump(u64::MAX, 1), 0);
    assert_eq!(bump(u64::MAX - 1, 5), 3);
    assert_eq!(bump(7, u64::MAX), 6);
}

#[test]
fn a_directory_is_active_once_it_was_scanned() {
    let mut w = watcher_with(vec![]);
    w.watch("/a", true);
    w.watch("/b", false);
    assert_eq!(w.watches()[0].state, WatchState::Scanning);
    assert_eq!(w.watches()[1].state, WatchState::Scanning);
    assert!(w.finish_scan("/b", ScanTally { scanned: 5, matched: 2 }));
    assert_eq!(w.watches()[0].state, WatchState::Scanning);
    assert_eq!(w.watches()[1].state, WatchState::Active);
    assert_eq!(w.files_processed(), 2);
    assert!(!w.finish_scan("/c", ScanTally { scanned: 1, matched: 1 }));
    assert_eq!(w.files_processed(), 3);
    // registering again scans again
    w.watch("/b", false);
    assert_eq!(w.watches()[1].state, WatchState::Scanning);
    assert_eq!(w.watches().len(), 2);
}
