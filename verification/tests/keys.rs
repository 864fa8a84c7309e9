use hazelnut::config::{Config, WatchConfig};
use hazelnut::events::{
    autostart_toggled, daemon_toggled, handle_key, handle_rule_editor_field_input,
    process_pending_update, save_failed, update_finished, Effect, KeyCode, KeyEvent, KeyModifiers,
};
use hazelnut::logs::Timestamp;
use hazelnut::rules::{Action, Condition, Rule};
use hazelnut::state::{
    ActionTypeSelection, AppState, AppView, LogLevel, Mode, RuleEditorField, RuleEditorState,
    WatchEditorField,
};
use hazelnut::theme::Theme;
use hazelnut::version::PackageManager;

const PLAIN: KeyModifiers = KeyModifiers { shift: false, control: false, other: false };
const CONTROL: KeyModifiers = KeyModifiers { shift: false, control: true, other: false };
const SHIFT: KeyModifiers = KeyModifiers { shift: true, control: false, other: false };

fn key(code: KeyCode) -> KeyEvent {
    KeyEvent { code, modifiers: PLAIN }
}

fn ch(c: char) -> KeyEvent {
    key(KeyCode::Char(c))
}

fn now() -> Timestamp {
    Timestamp { seconds: 0, nanos: 0 }
}

fn state() -> AppState {
    let mut config = Config::default();
    for name in ["alpha", "beta", "gamma"] {
        config.rules.push(Rule::new(name, Condition::default(), Action::Nothing));
    }
    config.watches.push(WatchConfig { path: "/w/one".to_string(), recursive: false, rules: vec![] });
    config.watches.push(WatchConfig {
        path: "/w/two".to_string(),
        recursive: true,
        rules: vec!["beta".to_string()],
    });
    AppState::new(config, Theme::Catppuccin, false, PackageManager::Cargo, now())
}

fn press(s: &mut AppState, keys: &[KeyEvent]) -> Vec<Effect> {
    keys.iter().map(|k| handle_key(s, *k)).collect()
}

fn type_text(s: &mut AppState, text: &str) {
    for c in text.chars() {
        assert_eq!(handle_key(s, ch(c)), Effect::Nothing);
    }
}

#[test]
fn keys_that_work_everywhere() {
    let mut s = state();
    handle_key(&mut s, key(KeyCode::Tab));
    assert_eq!(s.view, AppView::Rules);
    handle_key(&mut s, KeyEvent { code: KeyCode::BackTab, modifiers: SHIFT });
    assert_eq!(s.view, AppView::Dashboard);
    handle_key(&mut s, key(KeyCode::BackTab));
    assert_eq!(s.view, AppView::Dashboard);
    for (c, view) in [('2', AppView::Rules), ('3', AppView::Watches), ('4', AppView::Log), ('1', AppView::Dashboard)] {
        handle_key(&mut s, ch(c));
        assert_eq!(s.view, view);
    }
    handle_key(&mut s, ch('?'));
    assert_eq!((s.mode, s.show_help), (Mode::Help, true));
    handle_key(&mut s, ch('q'));
    assert!(!s.should_quit);
    handle_key(&mut s, key(KeyCode::Esc));
    assert_eq!((s.mode, s.show_help), (Mode::Normal, false));
    handle_key(&mut s, key(KeyCode::F(1)));
    assert_eq!(s.mode, Mode::Help);
    handle_key(&mut s, key(KeyCode::Enter));
    handle_key(&mut s, ch('A'));
    assert_eq!(s.mode, Mode::About);
    assert_eq!(handle_key(&mut s, ch('g')), Effect::OpenRepository);
    handle_key(&mut s, ch('q'));
    assert_eq!(s.mode, Mode::Normal);
    assert!(!s.should_quit);
    handle_key(&mut s, KeyEvent { code: KeyCode::Char('c'), modifiers: CONTROL });
    assert!(s.should_quit);
    let mut s = state();
    handle_key(&mut s, ch('q'));
    assert!(s.should_quit);
    // the legacy help swallows keys
    let mut s = state();
    s.show_help = true;
    handle_key(&mut s, ch('q'));
    assert!(!s.should_quit && s.show_help);
    handle_key(&mut s, ch('?'));
    assert!(!s.show_help);
    // while an update runs no key does anything
    s.mode = Mode::Updating;
    handle_key(&mut s, ch('q'));
    assert!(!s.should_quit);
    assert_eq!(s.mode, Mode::Updating);
}

#[test]
fn the_theme_picker_previews_and_restores() {
    let mut s = state();
    s.theme = Theme::Nord;
    handle_key(&mut s, ch('t'));
    assert_eq!((s.mode, s.theme_picker_index, s.original_theme), (Mode::ThemePicker, 2, Some(Theme::Nord)));
    handle_key(&mut s, ch('j'));
    assert_eq!((s.theme, s.theme_picker_index), (Theme::Gruvbox, 3));
    handle_key(&mut s, ch('G'));
    assert_eq!(s.theme, Theme::Sunset);
    handle_key(&mut s, key(KeyCode::Down));
    assert_eq!((s.theme, s.theme_picker_index), (Theme::Catppuccin, 0));
    handle_key(&mut s, key(KeyCode::Up));
    assert_eq!(s.theme, Theme::Sunset);
    handle_key(&mut s, key(KeyCode::Esc));
    assert_eq!((s.mode, s.theme, s.original_theme), (Mode::Normal, Theme::Nord, None));

    handle_key(&mut s, ch('t'));
    handle_key(&mut s, key(KeyCode::Home));
    handle_key(&mut s, ch('j'));
    assert_eq!(handle_key(&mut s, key(KeyCode::Enter)), Effect::SaveConfig { report: false });
    assert_eq!((s.mode, s.theme, s.original_theme), (Mode::Normal, Theme::Dracula, None));
    assert_eq!(s.config.general.theme.as_deref(), Some("dracula"));
    assert_eq!(s.status_message.as_deref(), Some("Theme set to Dracula"));
}

#[test]
fn rules_are_selected_toggled_and_deleted() {
    let mut s = state();
    s.view = AppView::Rules;
    handle_key(&mut s, ch('k'));
    assert_eq!(s.selected_rule, Some(0));
    handle_key(&mut s, ch('j'));
    handle_key(&mut s, ch('j'));
    handle_key(&mut s, ch('j'));
    assert_eq!(s.selected_rule, Some(2));
    handle_key(&mut s, ch('g'));
    assert_eq!(s.selected_rule, Some(0));
    handle_key(&mut s, key(KeyCode::End));
    assert_eq!(s.selected_rule, Some(2));
    assert_eq!(handle_key(&mut s, ch(' ')), Effect::SaveConfig { report: true });
    assert!(!s.config.rules[2].enabled);
    assert_eq!(s.status_message.as_deref(), Some("Rule 'gamma' disabled"));
    handle_key(&mut s, key(KeyCode::Enter));
    assert!(s.config.rules[2].enabled);
    assert_eq!(s.status_message.as_deref(), Some("Rule 'gamma' enabled"));

    assert_eq!(handle_key(&mut s, ch('d')), Effect::SaveConfig { report: false });
    assert_eq!(s.config.rules.len(), 2);
    assert_eq!(s.selected_rule, Some(1));
    assert_eq!(s.status_message.as_deref(), Some("Deleted rule 'gamma'"));
    handle_key(&mut s, ch('g'));
    handle_key(&mut s, key(KeyCode::Delete));
    assert_eq!(s.config.rules[0].name, "beta");
    assert_eq!(s.selected_rule, Some(0));
    handle_key(&mut s, ch('d'));
    assert!(s.config.rules.is_empty());
    assert_eq!(s.selected_rule, None);
    // in an empty list only a new rule can be made
    assert_eq!(press(&mut s, &[ch('j'), ch('d'), ch('e')]), vec![Effect::Nothing; 3]);
    assert_eq!(s.selected_rule, None);
    assert_eq!(s.status_message.as_deref(), Some("Deleted rule 'beta'"));

    let mut s = state();
    s.view = AppView::Rules;
    handle_key(&mut s, ch('e'));
    assert_eq!(s.status_message.as_deref(), Some("Select a rule first"));
    assert_eq!(s.mode, Mode::Normal);
    s.status_message = None;
    handle_key(&mut s, ch('d'));
    assert_eq!(s.status_message.as_deref(), Some("Select a rule first"));
    assert_eq!(handle_key(&mut s, ch(' ')), Effect::Nothing);
}

#[test]
fn a_rule_is_made_in_the_editor() {
    let mut s = state();
    s.view = AppView::Rules;
    handle_key(&mut s, ch('n'));
    assert_eq!(s.mode, Mode::AddRule);
    // without a name nothing is saved
    assert_eq!(handle_key(&mut s, key(KeyCode::Enter)), Effect::Nothing);
    assert_eq!(s.status_message.as_deref(), Some("Rule name is required"));
    assert_eq!(s.mode, Mode::AddRule);
    type_text(&mut s, "pd fs");
    handle_key(&mut s, key(KeyCode::Left));
    handle_key(&mut s, key(KeyCode::Left));
    handle_key(&mut s, key(KeyCode::Backspace));
    assert_eq!(s.rule_editor.as_ref().unwrap().name, "pdfs");
    handle_key(&mut s, key(KeyCode::Tab));
    handle_key(&mut s, ch(' '));
    assert!(!s.rule_editor.as_ref().unwrap().enabled);
    handle_key(&mut s, key(KeyCode::Right));
    handle_key(&mut s, key(KeyCode::Tab));
    type_text(&mut s, "pdf");
    for _ in 0..3 {
        handle_key(&mut s, key(KeyCode::Tab));
    }
    assert_eq!(s.rule_editor.as_ref().unwrap().field, RuleEditorField::SizeGreater);
    type_text(&mut s, "1k0");
    for _ in 0..4 {
        handle_key(&mut s, key(KeyCode::Tab));
    }
    assert_eq!(s.rule_editor.as_ref().unwrap().field, RuleEditorField::IsDirectory);
    handle_key(&mut s, ch(' '));
    handle_key(&mut s, ch(' '));
    handle_key(&mut s, key(KeyCode::Tab));
    handle_key(&mut s, key(KeyCode::Tab));
    assert_eq!(s.rule_editor.as_ref().unwrap().field, RuleEditorField::ActionType);
    handle_key(&mut s, ch('l'));
    handle_key(&mut s, ch('l'));
    handle_key(&mut s, ch('h'));
    assert_eq!(s.rule_editor.as_ref().unwrap().action_type, ActionTypeSelection::Copy);
    handle_key(&mut s, key(KeyCode::Tab));
    type_text(&mut s, "~/pdfs");
    handle_key(&mut s, key(KeyCode::BackTab));
    handle_key(&mut s, key(KeyCode::BackTab));
    assert_eq!(s.rule_editor.as_ref().unwrap().field, RuleEditorField::IsHidden);

    assert_eq!(handle_key(&mut s, key(KeyCode::Enter)), Effect::SaveConfig { report: true });
    assert_eq!(s.mode, Mode::Normal);
    assert!(s.rule_editor.is_none());
    assert_eq!(s.selected_rule, Some(3));
    assert_eq!(s.status_message.as_deref(), Some("Created rule 'pdfs'"));
    let rule = &s.config.rules[3];
    assert_eq!(rule.name, "pdfs");
    assert!(rule.enabled);
    assert_eq!(rule.condition.extension.as_deref(), Some("pdf"));
    assert_eq!(rule.condition.size_greater_than, Some(10));
    assert_eq!(rule.condition.is_directory, Some(false));
    assert!(matches!(&rule.action, Action::Copy { destination, create_destination: true, overwrite: false } if destination == "~/pdfs"));
}

#[test]
fn a_rule_is_edited_or_the_edit_cancelled() {
    let mut s = state();
    s.view = AppView::Rules;
    press(&mut s, &[ch('j'), ch('j'), ch('e')]);
    assert_eq!(s.mode, Mode::EditRule);
    assert_eq!(s.rule_editor.as_ref().unwrap().editing_index, Some(1));
    type_text(&mut s, "!");
    assert_eq!(handle_key(&mut s, key(KeyCode::Esc)), Effect::Nothing);
    assert_eq!(s.status_message.as_deref(), Some("Cancelled"));
    assert_eq!(s.config.rules[1].name, "beta");
    assert!(s.rule_editor.is_none());

    handle_key(&mut s, ch('e'));
    type_text(&mut s, "!");
    assert_eq!(handle_key(&mut s, key(KeyCode::Enter)), Effect::SaveConfig { report: true });
    assert_eq!(s.config.rules.len(), 3);
    assert_eq!(s.config.rules[1].name, "beta!");
    assert_eq!(s.status_message.as_deref(), Some("Updated rule 'beta!'"));
    assert_eq!(s.selected_rule, Some(1));
    // a mode without its editor goes back to normal
    s.mode = Mode::EditRule;
    assert_eq!(handle_key(&mut s, ch('x')), Effect::Nothing);
    assert_eq!(s.mode, Mode::Normal);
    // the cycle of the choices
    let mut e = RuleEditorState::new_rule();
    e.field = RuleEditorField::IsHidden;
    let mut seen = vec![];
    for _ in 0..4 {
        handle_rule_editor_field_input(&mut e, key(KeyCode::Right));
        seen.push(e.is_hidden);
    }
    assert_eq!(seen, vec![Some(true), Some(false), None, Some(true)]);
}

#[test]
fn watches_are_edited_with_their_rules() {
    let mut s = state();
    s.view = AppView::Watches;
    handle_key(&mut s, ch('a'));
    assert_eq!(s.mode, Mode::AddWatch);
    let names = vec!["alpha".to_string(), "beta".to_string(), "gamma".to_string()];
    assert_eq!(s.watch_editor.as_ref().unwrap().available_rules, names);
    assert_eq!(handle_key(&mut s, key(KeyCode::Enter)), Effect::Nothing);
    assert_eq!(s.status_message.as_deref(), Some("Path is required"));
    type_text(&mut s, "/new");
    handle_key(&mut s, key(KeyCode::Tab));
    handle_key(&mut s, ch(' '));
    handle_key(&mut s, key(KeyCode::Tab));
    assert_eq!(s.watch_editor.as_ref().unwrap().field, WatchEditorField::Rules);
    press(&mut s, &[ch(' '), ch('j'), ch('j'), ch('j'), ch(' '), ch('k'), ch(' '), ch(' ')]);
    assert_eq!(s.watch_editor.as_ref().unwrap().rules_filter, vec!["alpha".to_string(), "gamma".to_string()]);
    handle_key(&mut s, ch('a'));
    assert_eq!(s.watch_editor.as_ref().unwrap().rules_filter, names);
    handle_key(&mut s, ch('c'));
    assert!(s.watch_editor.as_ref().unwrap().rules_filter.is_empty());
    handle_key(&mut s, ch(' '));
    assert_eq!(handle_key(&mut s, key(KeyCode::Enter)), Effect::SaveConfig { report: true });
    assert_eq!(s.status_message.as_deref(), Some("Added watch '/new'"));
    assert_eq!(s.selected_watch, Some(2));
    let w = &s.config.watches[2];
    assert_eq!((w.path.as_str(), w.recursive), ("/new", true));
    assert_eq!(w.rules, vec!["beta".to_string()]);

    handle_key(&mut s, ch('k'));
    handle_key(&mut s, ch('e'));
    assert_eq!(s.mode, Mode::EditWatch);
    let e = s.watch_editor.as_ref().unwrap();
    assert_eq!((e.path.as_str(), e.cursor_path, e.editing_index), ("/w/two", 6, Some(1)));
    assert_eq!(e.rules_filter, vec!["beta".to_string()]);
    type_text(&mut s, "2");
    handle_key(&mut s, key(KeyCode::Enter));
    assert_eq!(s.config.watches[1].path, "/w/two2");
    assert_eq!(s.status_message.as_deref(), Some("Updated watch '/w/two2'"));

    handle_key(&mut s, ch('o'));
    assert_eq!(s.status_message.as_deref(), Some("Would open: /w/two2"));
    assert_eq!(handle_key(&mut s, ch('d')), Effect::SaveConfig { report: false });
    assert_eq!(s.status_message.as_deref(), Some("Deleted watch '/w/two2'"));
    assert_eq!(s.config.watches.len(), 2);
    assert_eq!(s.selected_watch, Some(1));
}

#[test]
fn the_log_scrolls_and_clears() {
    let mut s = state();
    s.view = AppView::Log;
    for i in 0..30 {
        s.log(LogLevel::Info, &format!("line {}", i), now());
    }
    assert_eq!(s.log_entries.len(), 32);
    press(&mut s, &[ch('j'), ch('j'), ch('k')]);
    assert_eq!(s.log_scroll, 1);
    handle_key(&mut s, key(KeyCode::PageDown));
    assert_eq!(s.log_scroll, 11);
    press(&mut s, &[key(KeyCode::PageDown), key(KeyCode::PageDown), key(KeyCode::PageDown)]);
    assert_eq!(s.log_scroll, 31);
    handle_key(&mut s, ch('j'));
    assert_eq!(s.log_scroll, 31);
    handle_key(&mut s, key(KeyCode::PageUp));
    assert_eq!(s.log_scroll, 21);
    handle_key(&mut s, ch('g'));
    assert_eq!(s.log_scroll, 0);
    handle_key(&mut s, key(KeyCode::PageUp));
    handle_key(&mut s, ch('k'));
    assert_eq!(s.log_scroll, 0);
    handle_key(&mut s, ch('G'));
    assert_eq!(s.log_scroll, 31);
    handle_key(&mut s, ch('c'));
    assert!(s.log_entries.is_empty());
    assert_eq!(s.log_scroll, 0);
    assert_eq!(s.status_message.as_deref(), Some("Log cleared"));
    press(&mut s, &[ch('j'), ch('G'), key(KeyCode::PageDown)]);
    assert_eq!(s.log_scroll, 0);
    // control with `c` quits, here too
    handle_key(&mut s, KeyEvent { code: KeyCode::Char('c'), modifiers: CONTROL });
    assert!(s.should_quit);
}

#[test]
fn settings_cycle_step_and_toggle() {
    let mut s = state();
    handle_key(&mut s, ch('s'));
    assert_eq!((s.mode, s.settings_index), (Mode::Settings, 0));
    assert_eq!(handle_key(&mut s, key(KeyCode::Enter)), Effect::ToggleDaemon);
    handle_key(&mut s, ch('k'));
    assert_eq!(s.settings_index, 6);
    assert_eq!(handle_key(&mut s, ch(' ')), Effect::SaveConfig { report: true });
    assert!(s.config.general.notifications_enabled);
    assert_eq!(s.status_message.as_deref(), Some("Notifications: enabled"));
    handle_key(&mut s, ch('j'));
    handle_key(&mut s, ch('j'));
    assert_eq!(s.settings_index, 1);
    assert_eq!(handle_key(&mut s, ch('+')), Effect::ToggleAutostart);
    press(&mut s, &[ch('j'), ch('j')]);
    assert_eq!(s.settings_index, 3);
    assert_eq!(s.config.general.polling_interval_secs, 5);
    handle_key(&mut s, key(KeyCode::Enter));
    assert_eq!(s.config.general.polling_interval_secs, 10);
    assert_eq!(s.status_message.as_deref(), Some("Polling interval: 10s"));
    press(&mut s, &[ch('l'), ch('='), key(KeyCode::Right)]);
    assert_eq!(s.config.general.polling_interval_secs, 60);
    handle_key(&mut s, key(KeyCode::Enter));
    assert_eq!(s.config.general.polling_interval_secs, 1);
    handle_key(&mut s, ch('-'));
    assert_eq!(s.config.general.polling_interval_secs, 1);
    handle_key(&mut s, ch('j'));
    handle_key(&mut s, ch('h'));
    assert_eq!(s.config.general.log_retention, 500);
    assert_eq!(s.status_message.as_deref(), Some("Log retention: 500 entries"));
    handle_key(&mut s, ch(' '));
    assert_eq!(s.config.general.log_retention, 1000);
    handle_key(&mut s, ch('j'));
    handle_key(&mut s, key(KeyCode::Left));
    assert!(s.config.general.start_daemon_on_launch);
    assert_eq!(s.status_message.as_deref(), Some("Start daemon on launch: enabled"));
    press(&mut s, &[key(KeyCode::Home), ch('j'), ch('j')]);
    assert_eq!(handle_key(&mut s, key(KeyCode::Enter)), Effect::Nothing);
    assert_eq!((s.mode, s.theme_picker_index, s.original_theme), (Mode::ThemePicker, 0, Some(Theme::Catppuccin)));
    handle_key(&mut s, key(KeyCode::Esc));
    handle_key(&mut s, ch('s'));
    handle_key(&mut s, ch('G'));
    assert_eq!(s.settings_index, 6);
    handle_key(&mut s, key(KeyCode::Esc));
    assert_eq!(s.mode, Mode::Normal);
}

#[test]
fn outcomes_of_the_callers_work_are_taken_in() {
    let mut s = state();
    save_failed(&mut s, "disk full");
    assert_eq!(s.status_message.as_deref(), Some("Failed to save config: disk full"));
    daemon_toggled(&mut s, &Ok(()));
    assert!(s.daemon_running && !s.watcher_needs_restart);
    assert_eq!(s.status_message.as_deref(), Some("Daemon start requested"));
    daemon_toggled(&mut s, &Err("no such file".to_string()));
    assert!(s.daemon_running);
    assert_eq!(s.status_message.as_deref(), Some("Error stopping daemon: no such file"));
    daemon_toggled(&mut s, &Ok(()));
    assert!(!s.daemon_running && s.watcher_needs_restart);
    assert_eq!(s.status_message.as_deref(), Some("Daemon stop requested"));
    daemon_toggled(&mut s, &Err("x".to_string()));
    assert_eq!(s.status_message.as_deref(), Some("Error starting daemon: x"));
    autostart_toggled(&mut s, &Ok(true));
    assert_eq!(s.status_message.as_deref(), Some("Auto-start on boot: enabled"));
    autostart_toggled(&mut s, &Ok(false));
    assert_eq!(s.status_message.as_deref(), Some("Auto-start on boot: disabled"));
    autostart_toggled(&mut s, &Err("denied".to_string()));
    assert_eq!(s.status_message.as_deref(), Some("Failed to toggle auto-start: denied"));
}

#[test]
fn an_update_is_confirmed_run_and_reported() {
    let mut s = state();
    handle_key(&mut s, ch('u'));
    assert_eq!(s.mode, Mode::Normal);
    s.set_update_available("9.9.9".to_string(), "0.1.0", now());
    handle_key(&mut s, ch('U'));
    assert_eq!(s.mode, Mode::UpdateConfirm);
    handle_key(&mut s, ch('n'));
    assert_eq!(s.mode, Mode::Normal);
    assert!(!process_pending_update(&mut s));
    handle_key(&mut s, ch('u'));
    handle_key(&mut s, ch('y'));
    assert_eq!(s.mode, Mode::Updating);
    assert_eq!(s.update_status.as_deref(), Some("Updating... please wait"));
    assert!(s.pending_update);
    assert!(process_pending_update(&mut s));
    assert!(!s.pending_update);
    assert!(!process_pending_update(&mut s));
    update_finished(&mut s, &Err("network".to_string()));
    assert_eq!(s.mode, Mode::Normal);
    assert_eq!(s.update_status.as_deref(), Some("Update failed: network"));
    assert!(s.update_available.is_some());
    update_finished(&mut s, &Ok(()));
    assert_eq!(s.update_status.as_deref(), Some("Update complete! Please restart hazelnut."));
    assert!(s.update_available.is_none());
    // dashboard shortcuts
    press(&mut s, &[ch('r')]);
    assert_eq!(s.view, AppView::Rules);
    s.view = AppView::Dashboard;
    press(&mut s, &[ch('w')]);
    assert_eq!(s.view, AppView::Watches);
    s.view = AppView::Dashboard;
    press(&mut s, &[ch('l')]);
    assert_eq!(s.view, AppView::Log);
}
