use hazelnut::config::Config;
use hazelnut::display::{centered_rect, get_settings_value_display, watch_field_help, Rect};
use hazelnut::logs::{parse_daemon_log_line, strip_ansi_codes, LogTail, TailPlan, Timestamp};
use hazelnut::rules::{Action, Condition, Rule};
use hazelnut::state::{
    cycle_setting, handle_numeric_input, handle_text_input, join_with_spaces, log_retentions,
    polling_intervals, step_setting, ActionTypeSelection, AppState, AppView, EditKey, LogLevel,
    Mode, RuleEditorField, RuleEditorState, SettingsItem, WatchEditorField,
};
use hazelnut::theme::{Rgb, Style, Theme, ThemeColors};
use hazelnut::version::PackageManager;

fn now() -> Timestamp {
    Timestamp { seconds: 1_700_000_000, nanos: 5 }
}

#[test]
fn colour_codes_are_stripped() {
    assert_eq!(strip_ansi_codes("plain"), "plain");
    assert_eq!(strip_ansi_codes("\u{1b}[32m INFO\u{1b}[0m done"), " INFO done");
    assert_eq!(strip_ansi_codes("\u{1b}[1;31mred\u{1b}[m"), "red");
    assert_eq!(strip_ansi_codes("a\u{1b}[2Kb"), "ab");
    // what is no colour code stays
    assert_eq!(strip_ansi_codes("\u{1b}[12"), "\u{1b}[12");
    assert_eq!(strip_ansi_codes("\u{1b}[1;!m"), "\u{1b}[1;!m");
    assert_eq!(strip_ansi_codes("\u{1b}(B\u{1b}"), "\u{1b}(B\u{1b}");
    assert_eq!(strip_ansi_codes("\u{1b}\u{1b}[0mx"), "\u{1b}x");
    assert_eq!(strip_ansi_codes(""), "");
}

#[test]
fn log_lines_hold_time_level_and_message() {
    let e = parse_daemon_log_line("2026-02-04T20:12:37.235953Z  INFO Watching: /tmp  (recursive: true)", now()).unwrap();
    assert_eq!(e.timestamp, Timestamp { seconds: 1_770_235_957, nanos: 235_953_000 });
    assert_eq!(e.level, LogLevel::Info);
    assert_eq!(e.message, "Watching: /tmp (recursive: true)");
    assert!(e.file.is_none() && e.rule.is_none());

    let e = parse_daemon_log_line("  2026-02-04T22:12:37+02:00 warn low disk ", now()).unwrap();
    assert_eq!(e.timestamp, Timestamp { seconds: 1_770_235_957, nanos: 0 });
    assert_eq!(e.level, LogLevel::Warning);
    assert_eq!(e.message, "low disk");

    for (word, level) in [
        ("ERROR", LogLevel::Error),
        ("error", LogLevel::Error),
        ("WARNING", LogLevel::Warning),
        ("DEBUG", LogLevel::Info),
        ("TRACE", LogLevel::Info),
        ("what", LogLevel::Info),
    ] {
        let e = parse_daemon_log_line(&format!("yesterday {} x", word), now()).unwrap();
        assert_eq!(e.level, level, "{}", word);
        // a first word that names no time stands for now
        assert_eq!(e.timestamp, now());
    }
    let e = parse_daemon_log_line("t INFO", now()).unwrap();
    assert_eq!(e.message, "");
    assert!(parse_daemon_log_line("", now()).is_none());
    assert!(parse_daemon_log_line("   \t", now()).is_none());
    assert!(parse_daemon_log_line("lonely", now()).is_none());
}

#[test]
fn the_tail_starts_over_when_the_file_shrinks() {
    let tail = LogTail::new();
    assert_eq!(tail.plan(0), TailPlan { reset: false, read_from: None });
    assert_eq!(tail.plan(10), TailPlan { reset: false, read_from: Some(0) });
    let tail = LogTail { position: 100 };
    assert_eq!(tail.plan(100), TailPlan { reset: false, read_from: None });
    assert_eq!(tail.plan(150), TailPlan { reset: false, read_from: Some(100) });
    assert_eq!(tail.plan(40), TailPlan { reset: true, read_from: Some(0) });
    assert_eq!(tail.plan(0), TailPlan { reset: true, read_from: None });
}

fn state() -> AppState {
    AppState::new(Config::default(), Theme::Nord, true, PackageManager::Cargo, now())
}

#[test]
fn the_front_end_starts_with_two_log_entries() {
    let s = state();
    assert_eq!(s.view, AppView::Dashboard);
    assert_eq!(s.mode, Mode::Normal);
    assert_eq!(s.theme_picker_index, 2);
    assert!(s.daemon_running);
    assert_eq!(s.log_entries.len(), 2);
    assert!(s.log_entries[0].message.ends_with(" Hazelnut started"));
    assert_eq!(s.log_entries[0].message.chars().count(), 21);
    assert_eq!(s.log_entries[1].message, "Loaded 0 rules, 0 watch folders");
    assert_eq!(s.log_entries[1].level, LogLevel::Info);
    assert_eq!(s.log_entries[1].timestamp, now());
    assert!(s.current_rule().is_none());
}

#[test]
fn the_activity_log_is_bounded() {
    let mut s = state();
    for i in 0..1200 {
        s.log(LogLevel::Success, &format!("entry {}", i), now());
    }
    assert_eq!(s.log_entries.len(), 1000);
    assert_eq!(s.log_entries[0].message, "entry 200");
    assert_eq!(s.log_entries[999].message, "entry 1199");
    s.set_update_available("9.9.9".to_string(), "0.2.16", now());
    assert_eq!(s.update_available.as_deref(), Some("9.9.9"));
    let last = &s.log_entries[999];
    assert_eq!(last.level, LogLevel::Warning);
    assert_eq!(last.message, "Update available: v9.9.9 (current: v0.2.16)");
}

#[test]
fn daemon_logs_are_taken_in_and_trimmed() {
    let mut s = state();
    s.config.general.log_retention = 3;
    let content = "2026-02-04T20:12:37Z  INFO one\n\n\u{1b}[33m2026-02-04T20:12:38Z  WARN\u{1b}[0m two\r\nnoise\nx ERROR three";
    s.load_daemon_logs(content.len() as u64, Some(content), now());
    assert_eq!(s.log_file_position, content.len() as u64);
    let messages: Vec<&str> = s.log_entries.iter().map(|e| e.message.as_str()).collect();
    assert_eq!(messages, vec!["one", "two", "three"]);
    assert_eq!(s.log_entries[1].level, LogLevel::Warning);
    // nothing new
    s.load_daemon_logs(content.len() as u64, None, now());
    assert_eq!(s.log_entries.len(), 3);
    // the file was rotated
    s.load_daemon_logs(10, Some("t INFO new\n"), now());
    assert_eq!(s.log_file_position, 10);
    assert_eq!(s.log_entries.len(), 1);
    assert_eq!(s.log_entries[0].message, "new");
    s.load_daemon_logs(0, None, now());
    assert_eq!(s.log_file_position, 0);
    assert!(s.log_entries.is_empty());
}

#[test]
fn views_status_and_frames() {
    let mut s = state();
    s.next_view();
    assert_eq!(s.view, AppView::Rules);
    s.prev_view();
    s.prev_view();
    assert_eq!(s.view, AppView::Log);
    s.set_status("saved");
    assert_eq!(s.status_message.as_deref(), Some("saved"));
    s.clear_status();
    assert!(s.status_message.is_none());
    let mut refreshes = 0;
    for _ in 0..100 {
        if s.tick() {
            refreshes += 1;
        }
    }
    assert_eq!((s.frame, refreshes), (100, 5));
    s.frame = u64::MAX;
    assert!(s.tick());
    assert_eq!(s.frame, 0);
    s.config.rules.push(Rule::new("r", Condition::default(), Action::Nothing));
    s.selected_rule = Some(0);
    assert_eq!(s.current_rule().map(|r| r.name.as_str()), Some("r"));
    s.selected_rule = Some(1);
    assert!(s.current_rule().is_none());
}

#[test]
fn text_fields_are_edited_by_characters() {
    let mut text = "h\u{e9}llo".to_string();
    let mut cursor = 2;
    handle_text_input(&mut text, &mut cursor, EditKey::Char('\u{1f330}'));
    assert_eq!((text.as_str(), cursor), ("h\u{e9}\u{1f330}llo", 3));
    handle_text_input(&mut text, &mut cursor, EditKey::Backspace);
    assert_eq!((text.as_str(), cursor), ("h\u{e9}llo", 2));
    handle_text_input(&mut text, &mut cursor, EditKey::Delete);
    assert_eq!((text.as_str(), cursor), ("h\u{e9}lo", 2));
    handle_text_input(&mut text, &mut cursor, EditKey::Left);
    handle_text_input(&mut text, &mut cursor, EditKey::Left);
    handle_text_input(&mut text, &mut cursor, EditKey::Left);
    assert_eq!(cursor, 0);
    handle_text_input(&mut text, &mut cursor, EditKey::Backspace);
    assert_eq!((text.as_str(), cursor), ("h\u{e9}lo", 0));
    handle_text_input(&mut text, &mut cursor, EditKey::End);
    assert_eq!(cursor, 4);
    handle_text_input(&mut text, &mut cursor, EditKey::Right);
    handle_text_input(&mut text, &mut cursor, EditKey::Delete);
    assert_eq!((text.as_str(), cursor), ("h\u{e9}lo", 4));
    handle_text_input(&mut text, &mut cursor, EditKey::Home);
    handle_text_input(&mut text, &mut cursor, EditKey::Right);
    handle_text_input(&mut text, &mut cursor, EditKey::Other);
    assert_eq!(cursor, 1);
    // a cursor beyond the end inserts at the end
    let mut cursor = 9;
    handle_text_input(&mut text, &mut cursor, EditKey::Char('!'));
    assert_eq!((text.as_str(), cursor), ("h\u{e9}lo!", 10));
    handle_text_input(&mut text, &mut cursor, EditKey::Backspace);
    assert_eq!((text.as_str(), cursor), ("h\u{e9}lo!", 9));

    let mut number = "12".to_string();
    let mut cursor = 1;
    handle_numeric_input(&mut number, &mut cursor, EditKey::Char('x'));
    handle_numeric_input(&mut number, &mut cursor, EditKey::Char('-'));
    handle_numeric_input(&mut number, &mut cursor, EditKey::Char('7'));
    assert_eq!((number.as_str(), cursor), ("172", 2));
    handle_numeric_input(&mut number, &mut cursor, EditKey::Backspace);
    assert_eq!((number.as_str(), cursor), ("12", 1));
}

#[test]
fn settings_cycle_and_step_through_their_values() {
    let intervals = polling_intervals();
    assert_eq!(cycle_setting(&intervals, 5), 10);
    assert_eq!(cycle_setting(&intervals, 3), 5);
    assert_eq!(cycle_setting(&intervals, 60), 1);
    assert_eq!(cycle_setting(&intervals, 0), 1);
    assert_eq!(step_setting(&intervals, 5, true), 10);
    assert_eq!(step_setting(&intervals, 5, false), 2);
    assert_eq!(step_setting(&intervals, 1, false), 1);
    assert_eq!(step_setting(&intervals, 60, true), 60);
    assert_eq!(step_setting(&intervals, 7, true), 30);
    assert_eq!(step_setting(&intervals, 7, false), 5);
    assert_eq!(step_setting(&intervals, 500, false), 30);
    let retentions = log_retentions();
    assert_eq!(cycle_setting(&retentions, 1000), 5000);
    assert_eq!(cycle_setting(&retentions, 10000), 100);
    assert_eq!(step_setting(&retentions, 1000, false), 500);
}

fn full_rule(action: Action) -> Rule {
    Rule {
        name: "R\u{e9}sum\u{e9}s".to_string(),
        enabled: false,
        condition: Condition {
            extension: Some("pdf".to_string()),
            extensions: vec!["doc".to_string()],
            name_matches: Some("cv*".to_string()),
            name_regex: None,
            size_greater_than: Some(1024),
            size_less_than: None,
            age_days_greater_than: Some(0),
            age_days_less_than: Some(30),
            is_directory: Some(false),
            is_hidden: None,
        },
        action,
        stop_processing: true,
    }
}

#[test]
fn the_rule_editor_shows_a_rule_and_gives_it_back() {
    let blank = RuleEditorState::new_rule();
    assert!(blank.enabled);
    assert_eq!(blank.field, RuleEditorField::Name);
    assert_eq!(blank.action_type, ActionTypeSelection::Move);
    assert!(blank.name.is_empty() && blank.editing_index.is_none());

    let rule = full_rule(Action::Run {
        command: "convert".to_string(),
        args: vec!["{path}".to_string(), "two words".to_string(), "it's".to_string()],
    });
    let e = RuleEditorState::from_rule(4, &rule);
    assert_eq!(e.editing_index, Some(4));
    assert_eq!(e.name, rule.name);
    assert_eq!(e.cursor_name, rule.name.len());
    assert!(!e.enabled && e.stop_processing);
    assert_eq!((e.extension.as_str(), e.name_glob.as_str(), e.name_regex.as_str()), ("pdf", "cv*", ""));
    assert_eq!((e.size_greater.as_str(), e.size_less.as_str()), ("1024", ""));
    assert_eq!((e.age_greater.as_str(), e.age_less.as_str()), ("0", "30"));
    assert_eq!((e.cursor_size_greater, e.cursor_age_less, e.cursor_size_less), (4, 2, 0));
    assert_eq!(e.action_type, ActionTypeSelection::Run);
    assert_eq!(e.action_command, "convert");
    assert_eq!(e.action_args, shlex::try_join(["{path}", "two words", "it's"]).unwrap());
    assert_eq!(e.cursor_action_args, e.action_args.len());

    let back = e.to_rule();
    assert_eq!(back.name, rule.name);
    assert!(!back.enabled && back.stop_processing);
    assert_eq!(back.condition.extension, rule.condition.extension);
    assert!(back.condition.extensions.is_empty());
    assert_eq!(back.condition.size_greater_than, Some(1024));
    assert_eq!(back.condition.age_days_greater_than, Some(0));
    assert_eq!(back.condition.size_less_than, None);
    match back.action {
        Action::Run { command, args } => {
            assert_eq!(command, "convert");
            assert_eq!(args, vec!["{path}".to_string(), "two words".to_string(), "it's".to_string()]);
        }
        _ => panic!("not a command"),
    }
}

#[test]
fn the_rule_editor_reads_every_kind_of_action() {
    let e = RuleEditorState::from_rule(0, &full_rule(Action::Move {
        destination: "~/x".to_string(),
        create_destination: false,
        overwrite: true,
    }));
    assert_eq!((e.action_type, e.action_destination.as_str(), e.action_overwrite), (ActionTypeSelection::Move, "~/x", true));
    // the editor always creates the destination
    assert!(matches!(e.to_rule().action, Action::Move { create_destination: true, overwrite: true, .. }));
    let e = RuleEditorState::from_rule(0, &full_rule(Action::Archive { destination: None, delete_original: true }));
    assert_eq!((e.action_type, e.action_destination.as_str(), e.action_delete_original), (ActionTypeSelection::Archive, "", true));
    assert!(matches!(e.to_rule().action, Action::Archive { destination: None, delete_original: true }));
    let e = RuleEditorState::from_rule(0, &full_rule(Action::Rename { pattern: "{name}".to_string() }));
    assert_eq!((e.action_type, e.action_pattern.as_str()), (ActionTypeSelection::Rename, "{name}"));
    for (action, kind) in [
        (Action::Trash, ActionTypeSelection::Trash),
        (Action::Delete, ActionTypeSelection::Delete),
        (Action::Nothing, ActionTypeSelection::Nothing),
    ] {
        assert_eq!(RuleEditorState::from_rule(0, &full_rule(action)).action_type, kind);
    }
    // arguments that a shell cannot read are split at white space
    let mut e = RuleEditorState::new_rule();
    e.action_type = ActionTypeSelection::Run;
    e.action_args = "it's  open".to_string();
    e.size_greater = "12k".to_string();
    match e.to_rule().action {
        Action::Run { args, .. } => assert_eq!(args, vec!["it's".to_string(), "open".to_string()]),
        _ => panic!("not a command"),
    }
    assert_eq!(e.to_rule().condition.size_greater_than, None);
    // arguments that cannot be quoted are joined by spaces
    let nul = full_rule(Action::Run { command: "c".to_string(), args: vec!["a\0".to_string(), "b".to_string()] });
    assert_eq!(RuleEditorState::from_rule(0, &nul).action_args, "a\0 b");
    assert_eq!(join_with_spaces(&vec![]), "");
    assert_eq!(join_with_spaces(&vec!["a".to_string()]), "a");
}

#[test]
fn dialogs_stand_in_the_middle() {
    let area = Rect { x: 0, y: 0, width: 200, height: 50 };
    assert_eq!(centered_rect(50, 70, area), Rect { x: 50, y: 7, width: 100, height: 35 });
    assert_eq!(centered_rect(80, 60, area), Rect { x: 20, y: 10, width: 160, height: 30 });
    let small = Rect { x: 3, y: 4, width: 7, height: 5 };
    assert_eq!(centered_rect(50, 70, small), Rect { x: 5, y: 5, width: 3, height: 3 });
    assert_eq!(centered_rect(100, 100, small), small);
    assert_eq!(centered_rect(0, 0, small), Rect { x: 6, y: 6, width: 0, height: 0 });
    let wide = Rect { x: 0, y: 0, width: 65535, height: 65535 };
    assert_eq!(centered_rect(100, 50, wide), Rect { x: 0, y: 16384, width: 65535, height: 32767 });
}

#[test]
fn settings_show_their_values() {
    let mut s = state();
    let shown = |s: &AppState, item: SettingsItem| get_settings_value_display(s, item, false);
    assert_eq!(shown(&s, SettingsItem::DaemonControl), "\u{25cf} Running");
    s.daemon_running = false;
    assert_eq!(shown(&s, SettingsItem::DaemonControl), "\u{25cb} Stopped");
    assert_eq!(shown(&s, SettingsItem::AutoStartOnBoot), "\u{2717} Disabled");
    assert_eq!(get_settings_value_display(&s, SettingsItem::AutoStartOnBoot, true), "\u{2713} Enabled");
    assert_eq!(shown(&s, SettingsItem::ThemeSelection), "Nord");
    assert_eq!(shown(&s, SettingsItem::PollingInterval), "5s");
    assert_eq!(shown(&s, SettingsItem::LogRetention), "1000 entries");
    assert_eq!(shown(&s, SettingsItem::StartupBehavior), "\u{2717} Disabled");
    s.config.general.notifications_enabled = true;
    assert_eq!(shown(&s, SettingsItem::Notifications), "\u{2713} Enabled");
    assert!(watch_field_help(WatchEditorField::Path).starts_with("Full path to watch"));
    assert!(watch_field_help(WatchEditorField::Recursive).contains("toggle"));
    assert!(watch_field_help(WatchEditorField::Rules).contains("select all"));
}

#[test]
fn the_selected_rule_can_be_changed_in_place() {
    let mut s = state();
    assert!(s.current_rule_mut().is_none());
    s.config.rules.push(Rule::new("a", Condition::default(), Action::Nothing));
    s.config.rules.push(Rule::new("b", Condition::default(), Action::Nothing));
    s.selected_rule = Some(1);
    if let Some(rule) = s.current_rule_mut() {
        rule.enabled = false;
        rule.name.push('!');
    }
    assert_eq!(s.config.rules[1].name, "b!");
    assert!(!s.config.rules[1].enabled);
    assert!(s.config.rules[0].enabled);
    s.selected_rule = Some(2);
    assert!(s.current_rule_mut().is_none());
}

#[test]
fn themes_have_their_colours() {
    let c = Theme::Catppuccin.colors();
    assert_eq!(c, ThemeColors::catppuccin());
    assert_eq!(c.bg, Rgb { r: 30, g: 30, b: 46 });
    assert_eq!(c.primary, Rgb { r: 137, g: 180, b: 250 });
    assert_eq!(c.logo_primary, Rgb { r: 203, g: 166, b: 247 });
    assert_eq!(Theme::Sunset.colors().error, Rgb { r: 255, g: 100, b: 100 });
    assert_eq!(Theme::Dracula.colors().bg, Rgb { r: 40, g: 42, b: 54 });
    let all = Theme::all();
    for i in 0..all.len() {
        for j in 0..i {
            assert_ne!(all[i].colors(), all[j].colors());
        }
    }
    assert_eq!(c.text(), Style { fg: Some(c.fg), bg: None, bold: false });
    assert_eq!(c.text_dim().fg, Some(c.fg_dim));
    assert_eq!(c.text_muted().fg, Some(c.fg_muted));
    assert_eq!(c.tab(), c.text_muted());
    assert_eq!(c.text_primary().fg, Some(c.primary));
    assert_eq!(c.text_secondary().fg, Some(c.secondary));
    assert_eq!(c.text_success().fg, Some(c.success));
    assert_eq!(c.text_warning().fg, Some(c.warning));
    assert_eq!(c.text_error().fg, Some(c.error));
    assert_eq!(c.text_info().fg, Some(c.info));
    assert_eq!(c.block().fg, Some(c.border));
    assert_eq!(c.block_focus().fg, Some(c.border_focus));
    assert_eq!(c.selected(), Style { fg: Some(c.fg), bg: Some(c.selection), bold: true });
    assert_eq!(c.tab_active(), Style { fg: Some(c.primary), bg: None, bold: true });
    assert_eq!(c.key_hint(), Style { fg: Some(c.accent), bg: None, bold: true });
    assert_eq!(c.logo_style_primary(), Style { fg: Some(c.logo_primary), bg: None, bold: true });
    assert_eq!(c.logo_style_secondary().fg, Some(c.logo_secondary));
}
