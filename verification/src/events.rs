//! What the keys do in the front-end.
//!
//! A key changes the state of the front-end and may ask for work that
//! only the caller can do: writing the configuration, starting or stopping
//! the daemon. The caller does the work and hands the outcome back.

use vstd::prelude::*;
use vstd::string::StringExecFns;
use crate::config::Config;
use crate::logs::LogEntry;
use crate::rules::Rule;
use crate::state::{
    cycle_setting,
    cycled,
    edited,
    handle_numeric_input,
    handle_text_input,
    log_retentions,
    polling_intervals,
    step_setting,
    stepped,
    toggled,
    ActionTypeSelection,
    AppState,
    AppView,
    EditKey,
    Mode,
    RuleEditorField,
    RuleEditorState,
    SettingsItem,
    WatchEditorField,
    WatchEditorState,
};
use crate::text::{
    after_spaces,
    decimal_digits,
    from_chars,
    push_decimal,
    push_str,
    skip_spaces,
    to_chars,
    views,
};
use crate::theme::{all_themes, Theme};

verus! {

/// A key.
#[derive(Debug, Clone, Copy, PartialEq, Eq, Structural)]
pub enum KeyCode {
    Backspace,
    Enter,
    Left,
    Right,
    Up,
    Down,
    Home,
    End,
    PageUp,
    PageDown,
    Tab,
    BackTab,
    Delete,
    Esc,
    /// A function key.
    F(u8),
    /// A character.
    Char(char),
    /// Any other key.
    Other,
}

/// The modifier keys that are held.
#[derive(Debug, Clone, Copy, PartialEq, Eq, Structural)]
pub struct KeyModifiers {
    pub shift: bool,
    pub control: bool,
    /// Whether any other modifier is held.
    pub other: bool,
}

/// A key that was pressed, with the modifiers held.
#[derive(Debug, Clone, Copy, PartialEq, Eq, Structural)]
pub struct KeyEvent {
    pub code: KeyCode,
    pub modifiers: KeyModifiers,
}

/// Work that a key asks of the caller.
#[derive(Debug, Clone, Copy, PartialEq, Eq, Structural)]
pub enum Effect {
    /// Nothing.
    Nothing,
    /// Write the configuration. Where `report` holds and writing fails,
    /// the caller hands the failure to [`save_failed`].
    SaveConfig { report: bool },
    /// Start the daemon, or stop it where it runs, and hand the outcome to
    /// [`daemon_toggled`].
    ToggleDaemon,
    /// Switch starting at boot on or off, and hand the outcome to
    /// [`autostart_toggled`].
    ToggleAutostart,
    /// Open the page of the project.
    OpenRepository,
}

impl KeyModifiers {
    /// Control is held and nothing else.
    pub open spec fn only_control(self) -> bool {
        self.control && !self.shift && !self.other
    }

    /// Shift is held and nothing else.
    pub open spec fn only_shift(self) -> bool {
        self.shift && !self.control && !self.other
    }
}

impl KeyEvent {
    /// The key closes a help text: escape, `?` or enter.
    pub open spec fn closes_help(self) -> bool {
        self.code == KeyCode::Esc || self.code == KeyCode::Char('?') || self.code == KeyCode::Enter
    }

    /// The key is the character `c`.
    pub open spec fn is_char(self, c: char) -> bool {
        self.code == KeyCode::Char(c)
    }

    /// The key moves up: the arrow or `k`.
    pub open spec fn up(self) -> bool {
        self.code == KeyCode::Up || self.is_char('k')
    }

    /// The key moves down: the arrow or `j`.
    pub open spec fn down(self) -> bool {
        self.code == KeyCode::Down || self.is_char('j')
    }

    /// The key moves to the first: home or `g`.
    pub open spec fn first(self) -> bool {
        self.code == KeyCode::Home || self.is_char('g')
    }

    /// The key moves to the last: end or `G`.
    pub open spec fn last(self) -> bool {
        self.code == KeyCode::End || self.is_char('G')
    }

    /// The key toggles: space or one of the arrows to the sides.
    pub open spec fn toggles(self) -> bool {
        self.is_char(' ') || self.code == KeyCode::Left || self.code == KeyCode::Right
    }
}

/// The status line of `s` says `text`.
pub open spec fn status_is(s: AppState, text: Seq<char>) -> bool {
    s.status_message matches Some(m) && m@ == text
}

/// The state is sound: the highlighted theme and the highlighted setting
/// are ones that there are.
pub open spec fn sound(s: AppState) -> bool {
    s.theme_picker_index < 8 && s.settings_index < 7
}

/// `enabled` or `disabled`.
pub open spec fn enabled_text(on: bool) -> Seq<char> {
    if on {
        "enabled"@
    } else {
        "disabled"@
    }
}

/// `enabled` or `disabled`.
fn enabled_word(on: bool) -> (r: &'static str)
    ensures
        r@ == enabled_text(on),
{
    if on {
        "enabled"
    } else {
        "disabled"
    }
}

/// `a` and `b` in a row.
fn two(a: &str, b: &str) -> (r: String)
    ensures
        r@ == a@ + b@,
{
    let mut s = String::from_str(a);
    s.append(b);
    s
}

/// `a`, `b` and `c` in a row.
fn three(a: &str, b: &str, c: &str) -> (r: String)
    ensures
        r@ == a@ + b@ + c@,
{
    let mut s = String::from_str(a);
    s.append(b);
    s.append(c);
    s
}

/// What a key does in the theme picker: escape leaves it with the theme
/// that was in use, enter takes the highlighted theme and has the
/// configuration written, and the keys that move show the theme that they
/// come to.
pub open spec fn theme_picked(old: AppState, key: KeyEvent, new: AppState, effect: Effect) -> bool {
    let i = old.theme_picker_index as int;
    if key.code == KeyCode::Esc {
        &&& effect == Effect::Nothing
        &&& new == (AppState {
            theme: match old.original_theme {
                Some(t) => t,
                None => old.theme,
            },
            original_theme: None,
            mode: Mode::Normal,
            ..old
        })
    } else if key.code == KeyCode::Enter {
        &&& effect == Effect::SaveConfig { report: false }
        &&& status_is(new, "Theme set to "@ + all_themes()[i].name_text())
        &&& new.config.general.theme matches Some(slug) && slug@ == all_themes()[i].slug_text()
        &&& new.config == (Config {
            general: crate::config::GeneralConfig {
                theme: new.config.general.theme,
                ..old.config.general
            },
            ..old.config
        })
        &&& new == (AppState {
            theme: all_themes()[i],
            original_theme: None,
            mode: Mode::Normal,
            config: new.config,
            status_message: new.status_message,
            ..old
        })
    } else {
        let to: int = if key.down() {
            (i + 1) % 8
        } else if key.up() {
            if i == 0 {
                7
            } else {
                i - 1
            }
        } else if key.first() {
            0
        } else if key.last() {
            7
        } else {
            -1
        };
        &&& effect == Effect::Nothing
        &&& new == (if to >= 0 {
            AppState { theme_picker_index: to as usize, theme: all_themes()[to], ..old }
        } else {
            old
        })
    }
}

/// Handles a key in the theme picker.
pub fn handle_theme_picker_key(state: &mut AppState, key: KeyEvent) -> (effect: Effect)
    requires
        sound(*old(state)),
    ensures
        theme_picked(*old(state), key, *final(state), effect),
        sound(*final(state)),
{
    match key.code {
        KeyCode::Esc => {
            if let Some(original) = state.original_theme {
                state.theme = original;
            }
            state.original_theme = None;
            state.mode = Mode::Normal;
            Effect::Nothing
        },
        KeyCode::Enter => {
            let selected = Theme::at(state.theme_picker_index);
            state.theme = selected;
            state.original_theme = None;
            state.config.general.theme = Some(String::from_str(selected.slug()));
            state.mode = Mode::Normal;
            state.status_message = Some(two("Theme set to ", selected.name()));
            Effect::SaveConfig { report: false }
        },
        KeyCode::Down | KeyCode::Char('j') => {
            state.theme_picker_index = (state.theme_picker_index + 1) % 8;
            state.theme = Theme::at(state.theme_picker_index);
            Effect::Nothing
        },
        KeyCode::Up | KeyCode::Char('k') => {
            state.theme_picker_index = if state.theme_picker_index == 0 {
                7
            } else {
                state.theme_picker_index - 1
            };
            state.theme = Theme::at(state.theme_picker_index);
            Effect::Nothing
        },
        KeyCode::Home | KeyCode::Char('g') => {
            state.theme_picker_index = 0;
            state.theme = Theme::at(0);
            Effect::Nothing
        },
        KeyCode::End | KeyCode::Char('G') => {
            state.theme_picker_index = 7;
            state.theme = Theme::at(7);
            Effect::Nothing
        },
        _ => Effect::Nothing,
    }
}

/// What a key does on the dashboard: `r`, `w` and `l` go to the rules,
/// the watches and the log, and `u` asks whether to update, where an
/// update is there.
pub open spec fn dashboard_done(old: AppState, key: KeyEvent, new: AppState) -> bool {
    new == (if key.is_char('r') {
        AppState { view: AppView::Rules, ..old }
    } else if key.is_char('w') {
        AppState { view: AppView::Watches, ..old }
    } else if key.is_char('l') {
        AppState { view: AppView::Log, ..old }
    } else if (key.is_char('u') || key.is_char('U')) && old.update_available is Some {
        AppState { mode: Mode::UpdateConfirm, ..old }
    } else {
        old
    })
}

/// Handles a key on the dashboard.
pub fn handle_dashboard_key(state: &mut AppState, key: KeyEvent)
    ensures
        dashboard_done(*old(state), key, *final(state)),
{
    match key.code {
        KeyCode::Char('r') => {
            state.view = AppView::Rules;
        },
        KeyCode::Char('w') => {
            state.view = AppView::Watches;
        },
        KeyCode::Char('l') => {
            state.view = AppView::Log;
        },
        KeyCode::Char('u') | KeyCode::Char('U') => {
            if state.update_available.is_some() {
                state.mode = Mode::UpdateConfirm;
            }
        },
        _ => {},
    }
}

/// What a key does in the about dialog: escape, enter and `q` close it,
/// and `g` opens the page of the project.
pub open spec fn about_done(old: AppState, key: KeyEvent, new: AppState, effect: Effect) -> bool {
    if key.code == KeyCode::Esc || key.code == KeyCode::Enter || key.is_char('q') {
        effect == Effect::Nothing && new == (AppState { mode: Mode::Normal, ..old })
    } else if key.is_char('g') || key.is_char('G') {
        effect == Effect::OpenRepository && new == old
    } else {
        effect == Effect::Nothing && new == old
    }
}

/// Handles a key in the about dialog.
pub fn handle_about_key(state: &mut AppState, key: KeyEvent) -> (effect: Effect)
    ensures
        about_done(*old(state), key, *final(state), effect),
{
    match key.code {
        KeyCode::Esc | KeyCode::Enter | KeyCode::Char('q') => {
            state.mode = Mode::Normal;
            Effect::Nothing
        },
        KeyCode::Char('g') | KeyCode::Char('G') => Effect::OpenRepository,
        _ => Effect::Nothing,
    }
}

/// What a key does where an update is offered: escape and `n` decline,
/// enter and `y` accept. An accepted update runs on the next turn, so that
/// the front-end can say that it runs.
pub open spec fn update_confirmed(old: AppState, key: KeyEvent, new: AppState) -> bool {
    if key.code == KeyCode::Esc || key.is_char('n') || key.is_char('N') {
        new == (AppState { mode: Mode::Normal, ..old })
    } else if key.code == KeyCode::Enter || key.is_char('y') || key.is_char('Y') {
        &&& new.update_status matches Some(m) && m@ == "Updating... please wait"@
        &&& new == (AppState {
            mode: Mode::Updating,
            update_status: new.update_status,
            pending_update: true,
            ..old
        })
    } else {
        new == old
    }
}

/// Handles a key where an update is offered.
pub fn handle_update_confirm_key(state: &mut AppState, key: KeyEvent)
    ensures
        update_confirmed(*old(state), key, *final(state)),
{
    match key.code {
        KeyCode::Esc | KeyCode::Char('n') | KeyCode::Char('N') => {
            state.mode = Mode::Normal;
        },
        KeyCode::Enter | KeyCode::Char('y') | KeyCode::Char('Y') => {
            state.mode = Mode::Updating;
            state.update_status = Some(String::from_str("Updating... please wait"));
            state.pending_update = true;
        },
        _ => {},
    }
}

/// The last line that the log can be scrolled to.
pub open spec fn last_line(entries: Seq<LogEntry>) -> usize {
    if entries.len() == 0 {
        0
    } else {
        (entries.len() - 1) as usize
    }
}

/// What a key does in the view of the log: `c` empties the log, and the
/// keys that move scroll it, by one line or by ten.
pub open spec fn log_done(old: AppState, key: KeyEvent, new: AppState) -> bool {
    let at = old.log_scroll;
    let last = last_line(old.log_entries@);
    if key.is_char('c') {
        &&& new.log_entries@.len() == 0
        &&& status_is(new, "Log cleared"@)
        &&& new == (AppState {
            log_entries: new.log_entries,
            log_scroll: 0,
            status_message: new.status_message,
            ..old
        })
    } else {
        let to: usize = if key.up() {
            if at == 0 {
                0
            } else {
                (at - 1) as usize
            }
        } else if key.down() {
            if at < last {
                (at + 1) as usize
            } else {
                at
            }
        } else if key.code == KeyCode::PageUp {
            if at < 10 {
                0
            } else {
                (at - 10) as usize
            }
        } else if key.code == KeyCode::PageDown {
            if at + 10 < last {
                (at + 10) as usize
            } else {
                last
            }
        } else if key.first() {
            0
        } else if key.last() {
            last
        } else {
            at
        };
        new == (AppState { log_scroll: to, ..old })
    }
}

/// Handles a key in the view of the log.
pub fn handle_log_key(state: &mut AppState, key: KeyEvent)
    ensures
        log_done(*old(state), key, *final(state)),
{
    let len = state.log_entries.len();
    let last: usize = if len == 0 {
        0
    } else {
        len - 1
    };
    match key.code {
        KeyCode::Char('c') => {
            state.log_entries.clear();
            state.log_scroll = 0;
            state.status_message = Some(String::from_str("Log cleared"));
        },
        KeyCode::Up | KeyCode::Char('k') => {
            if state.log_scroll > 0 {
                state.log_scroll = state.log_scroll - 1;
            }
        },
        KeyCode::Down | KeyCode::Char('j') => {
            if state.log_scroll < last {
                state.log_scroll = state.log_scroll + 1;
            }
        },
        KeyCode::PageUp => {
            state.log_scroll = if state.log_scroll < 10 {
                0
            } else {
                state.log_scroll - 10
            };
        },
        KeyCode::PageDown => {
            state.log_scroll = if last >= 10 && state.log_scroll < last - 10 {
                state.log_scroll + 10
            } else {
                last
            };
        },
        KeyCode::Home | KeyCode::Char('g') => {
            state.log_scroll = 0;
        },
        KeyCode::End | KeyCode::Char('G') => {
            state.log_scroll = last;
        },
        _ => {},
    }
}

/// The index that moving up comes to.
pub open spec fn moved_up(selected: Option<usize>) -> usize {
    match selected {
        Some(i) => if i == 0 {
            0
        } else {
            (i - 1) as usize
        },
        None => 0,
    }
}

/// The index that moving down comes to in a list of `len` items.
pub open spec fn moved_down(selected: Option<usize>, len: nat) -> usize {
    match selected {
        Some(i) => if i + 1 < len {
            (i + 1) as usize
        } else {
            (len - 1) as usize
        },
        None => 0,
    }
}

/// The index that one of the keys that move comes to in a list of `len`
/// items, or `None` for any other key.
pub open spec fn moved(key: KeyEvent, selected: Option<usize>, len: nat) -> Option<usize> {
    if key.up() {
        Some(moved_up(selected))
    } else if key.down() {
        Some(moved_down(selected, len))
    } else if key.first() {
        Some(0usize)
    } else if key.last() {
        Some((len - 1) as usize)
    } else {
        None
    }
}

/// Executable form of [`moved`].
fn move_selection(key: KeyEvent, selected: Option<usize>, len: usize) -> (r: Option<usize>)
    requires
        len > 0,
    ensures
        r == moved(key, selected, len as nat),
{
    match key.code {
        KeyCode::Up | KeyCode::Char('k') => Some(
            match selected {
                Some(i) => if i == 0 {
                    0
                } else {
                    i - 1
                },
                None => 0,
            },
        ),
        KeyCode::Down | KeyCode::Char('j') => Some(
            match selected {
                Some(i) => if i < len - 1 {
                    i + 1
                } else {
                    len - 1
                },
                None => 0,
            },
        ),
        KeyCode::Home | KeyCode::Char('g') => Some(0),
        KeyCode::End | KeyCode::Char('G') => Some(len - 1),
        _ => None,
    }
}

/// The selection once the item at `at` has left a list that then holds
/// `len` items: none where the list is empty, the last item where the
/// selection lay beyond it.
pub open spec fn after_removal(at: usize, len: nat) -> Option<usize> {
    if len == 0 {
        None
    } else if at >= len {
        Some((len - 1) as usize)
    } else {
        Some(at)
    }
}

/// The configuration `new` is `old` with other rules.
pub open spec fn only_rules_differ(old: Config, new: Config) -> bool {
    new == (Config { rules: new.rules, ..old })
}

/// The configuration `new` is `old` with other watches.
pub open spec fn only_watches_differ(old: Config, new: Config) -> bool {
    new == (Config { watches: new.watches, ..old })
}

/// What switching the selected rule on or off does: the rule is enabled
/// where it was not and the other way round, the status line says so, and
/// the configuration is to be written. Without a selected rule nothing
/// happens.
pub open spec fn rule_toggled(old: AppState, new: AppState, effect: Effect) -> bool {
    let rules = old.config.rules@;
    match old.selected_rule {
        Some(i) if i < rules.len() => {
            &&& effect == Effect::SaveConfig { report: true }
            &&& new.config.rules@ == rules.update(
                i as int,
                Rule { enabled: !rules[i as int].enabled, ..rules[i as int] },
            )
            &&& only_rules_differ(old.config, new.config)
            &&& status_is(
                new,
                "Rule '"@ + rules[i as int].name@ + "' "@ + enabled_text(!rules[i as int].enabled),
            )
            &&& new == (AppState { config: new.config, status_message: new.status_message, ..old })
        },
        _ => effect == Effect::Nothing && new == old,
    }
}

/// What asking for the editor of the selected rule does: the editor opens
/// and shows the rule; without a selection the status line asks for one.
pub open spec fn rule_opened(old: AppState, new: AppState) -> bool {
    let rules = old.config.rules@;
    match old.selected_rule {
        Some(i) => if i < rules.len() {
            &&& new.rule_editor matches Some(e) && e.shows(&rules[i as int]) && e.field
                == RuleEditorField::Name && e.editing_index == Some(i)
            &&& new == (AppState { rule_editor: new.rule_editor, mode: Mode::EditRule, ..old })
        } else {
            new == old
        },
        None => {
            &&& status_is(new, "Select a rule first"@)
            &&& new == (AppState { status_message: new.status_message, ..old })
        },
    }
}

/// What deleting the selected rule does: the rule leaves the list, the
/// selection stays within the list, the status line says so, and the
/// configuration is to be written; without a selection the status line
/// asks for one.
pub open spec fn rule_deleted(old: AppState, new: AppState, effect: Effect) -> bool {
    let rules = old.config.rules@;
    match old.selected_rule {
        Some(i) => if i < rules.len() {
            &&& effect == Effect::SaveConfig { report: false }
            &&& new.config.rules@ == rules.remove(i as int)
            &&& only_rules_differ(old.config, new.config)
            &&& status_is(new, "Deleted rule '"@ + rules[i as int].name@ + "'"@)
            &&& new == (AppState {
                config: new.config,
                selected_rule: after_removal(i, (rules.len() - 1) as nat),
                status_message: new.status_message,
                ..old
            })
        } else {
            effect == Effect::Nothing && new == old
        },
        None => {
            &&& effect == Effect::Nothing
            &&& status_is(new, "Select a rule first"@)
            &&& new == (AppState { status_message: new.status_message, ..old })
        },
    }
}

/// What a key does in the view of the rules: `n` opens the editor for a
/// new rule; in a list that is not empty, the keys that move select,
/// enter and space switch the selected rule on or off, `e` opens the
/// editor for it and `d` deletes it.
pub open spec fn rules_done(old: AppState, key: KeyEvent, new: AppState, effect: Effect) -> bool {
    let len = old.config.rules@.len();
    if key.is_char('n') {
        &&& effect == Effect::Nothing
        &&& new.rule_editor matches Some(e) && e.is_blank() && e.enabled
        &&& new == (AppState { rule_editor: new.rule_editor, mode: Mode::AddRule, ..old })
    } else if len == 0 {
        effect == Effect::Nothing && new == old
    } else if moved(key, old.selected_rule, len) is Some {
        effect == Effect::Nothing && new == (AppState {
            selected_rule: moved(key, old.selected_rule, len),
            ..old
        })
    } else if key.code == KeyCode::Enter || key.is_char(' ') {
        rule_toggled(old, new, effect)
    } else if key.is_char('e') {
        effect == Effect::Nothing && rule_opened(old, new)
    } else if key.is_char('d') || key.code == KeyCode::Delete {
        rule_deleted(old, new, effect)
    } else {
        effect == Effect::Nothing && new == old
    }
}

/// Switches the selected rule on or off.
fn toggle_selected_rule(state: &mut AppState) -> (effect: Effect)
    ensures
        rule_toggled(*old(state), *final(state), effect),
{
    match state.selected_rule {
        Some(i) => {
            if i < state.config.rules.len() {
                let on = !state.config.rules[i].enabled;
                state.config.rules[i].enabled = on;
                let mut said = three("Rule '", state.config.rules[i].name.as_str(), "' ");
                said.append(enabled_word(on));
                state.status_message = Some(said);
                return Effect::SaveConfig { report: true };
            }
            Effect::Nothing
        },
        None => Effect::Nothing,
    }
}

/// Opens the editor for the selected rule.
fn open_selected_rule(state: &mut AppState)
    ensures
        rule_opened(*old(state), *final(state)),
{
    match state.selected_rule {
        Some(i) => {
            if i < state.config.rules.len() {
                state.rule_editor = Some(RuleEditorState::from_rule(i, &state.config.rules[i]));
                state.mode = Mode::EditRule;
            }
        },
        None => {
            state.status_message = Some(String::from_str("Select a rule first"));
        },
    }
}

/// Deletes the selected rule.
fn delete_selected_rule(state: &mut AppState) -> (effect: Effect)
    ensures
        rule_deleted(*old(state), *final(state), effect),
{
    match state.selected_rule {
        Some(i) => {
            if i < state.config.rules.len() {
                let removed = state.config.rules.remove(i);
                let left = state.config.rules.len();
                if left == 0 {
                    state.selected_rule = None;
                } else if i >= left {
                    state.selected_rule = Some(left - 1);
                }
                state.status_message = Some(three("Deleted rule '", removed.name.as_str(), "'"));
                return Effect::SaveConfig { report: false };
            }
            Effect::Nothing
        },
        None => {
            state.status_message = Some(String::from_str("Select a rule first"));
            Effect::Nothing
        },
    }
}

/// Handles a key in the view of the rules.
pub fn handle_rules_key(state: &mut AppState, key: KeyEvent) -> (effect: Effect)
    ensures
        rules_done(*old(state), key, *final(state), effect),
{
    let len = state.config.rules.len();
    if let KeyCode::Char('n') = key.code {
        state.rule_editor = Some(RuleEditorState::new_rule());
        state.mode = Mode::AddRule;
        return Effect::Nothing;
    }
    if len == 0 {
        return Effect::Nothing;
    }
    if let Some(to) = move_selection(key, state.selected_rule, len) {
        state.selected_rule = Some(to);
        return Effect::Nothing;
    }
    match key.code {
        KeyCode::Enter | KeyCode::Char(' ') => toggle_selected_rule(state),
        KeyCode::Char('e') => {
            open_selected_rule(state);
            Effect::Nothing
        },
        KeyCode::Char('d') | KeyCode::Delete => delete_selected_rule(state),
        _ => Effect::Nothing,
    }
}

/// The names of `rules`, in order.
pub open spec fn rule_names(rules: Seq<Rule>) -> Seq<Seq<char>> {
    Seq::new(rules.len(), |i: int| rules[i].name@)
}

/// The names of `rules`, in order.
fn names_of(rules: &Vec<Rule>) -> (r: Vec<String>)
    ensures
        views(r@) == rule_names(rules@),
{
    let mut out: Vec<String> = Vec::new();
    let mut i: usize = 0;
    while i < rules.len()
        invariant
            i <= rules.len(),
            out@.len() == i,
            forall|k: int| 0 <= k < i ==> (#[trigger] out@[k])@ == rules@[k].name@,
        decreases rules.len() - i,
    {
        out.push(rules[i].name.clone());
        i += 1;
    }
    assert(views(out@) =~= rule_names(rules@));
    out
}

/// The watch editor is a fresh one that offers the rules named `names`.
pub open spec fn offers(e: WatchEditorState, names: Seq<Seq<char>>) -> bool {
    &&& e.field == WatchEditorField::Path
    &&& views(e.available_rules@) == names
    &&& e.rules_cursor == 0
}

/// The watch editor is empty, for a watch that is yet to be added.
pub open spec fn blank_watch(e: WatchEditorState, names: Seq<Seq<char>>) -> bool {
    &&& offers(e, names)
    &&& e.editing_index is None
    &&& e.path@.len() == 0
    &&& !e.recursive
    &&& e.rules_filter@.len() == 0
    &&& e.cursor_path == 0
}

/// The watch editor shows the watch `w`, which stands at the index `i`.
pub open spec fn shows_watch(
    e: WatchEditorState,
    i: usize,
    w: crate::config::WatchConfig,
    names: Seq<Seq<char>>,
) -> bool {
    &&& offers(e, names)
    &&& e.editing_index == Some(i)
    &&& e.path@ == w.path@
    &&& e.recursive == w.recursive
    &&& views(e.rules_filter@) == views(w.rules@)
    &&& e.cursor_path == vstd::utf8::encode_utf8(w.path@).len() as usize
}

/// What asking for the editor of the selected watch does: the editor
/// opens and shows the watch; without a selection the status line asks for
/// one.
pub open spec fn watch_opened(old: AppState, new: AppState) -> bool {
    let watches = old.config.watches@;
    match old.selected_watch {
        Some(i) => if i < watches.len() {
            &&& new.watch_editor matches Some(e) && shows_watch(
                e,
                i,
                watches[i as int],
                rule_names(old.config.rules@),
            )
            &&& new == (AppState { watch_editor: new.watch_editor, mode: Mode::EditWatch, ..old })
        } else {
            new == old
        },
        None => {
            &&& status_is(new, "Select a watch first"@)
            &&& new == (AppState { status_message: new.status_message, ..old })
        },
    }
}

/// What deleting the selected watch does: the watch leaves the list, the
/// selection stays within the list, the status line says so, and the
/// configuration is to be written; without a selection the status line
/// asks for one.
pub open spec fn watch_deleted(old: AppState, new: AppState, effect: Effect) -> bool {
    let watches = old.config.watches@;
    match old.selected_watch {
        Some(i) => if i < watches.len() {
            &&& effect == Effect::SaveConfig { report: false }
            &&& new.config.watches@ == watches.remove(i as int)
            &&& only_watches_differ(old.config, new.config)
            &&& status_is(new, "Deleted watch '"@ + watches[i as int].path@ + "'"@)
            &&& new == (AppState {
                config: new.config,
                selected_watch: after_removal(i, (watches.len() - 1) as nat),
                status_message: new.status_message,
                ..old
            })
        } else {
            effect == Effect::Nothing && new == old
        },
        None => {
            &&& effect == Effect::Nothing
            &&& status_is(new, "Select a watch first"@)
            &&& new == (AppState { status_message: new.status_message, ..old })
        },
    }
}

/// What asking to open the selected watch does: the status line names the
/// directory.
pub open spec fn watch_named(old: AppState, new: AppState) -> bool {
    let watches = old.config.watches@;
    match old.selected_watch {
        Some(i) if i < watches.len() => {
            &&& status_is(new, "Would open: "@ + watches[i as int].path@)
            &&& new == (AppState { status_message: new.status_message, ..old })
        },
        _ => new == old,
    }
}

/// What a key does in the view of the watches: `a` and `n` open the
/// editor for a new watch; in a list that is not empty, the keys that move
/// select, `e` opens the editor for the selected watch, `d` deletes it,
/// and `o` and enter say which directory would be opened.
pub open spec fn watches_done(old: AppState, key: KeyEvent, new: AppState, effect: Effect) -> bool {
    let len = old.config.watches@.len();
    if key.is_char('a') || key.is_char('n') {
        &&& effect == Effect::Nothing
        &&& new.watch_editor matches Some(e) && blank_watch(e, rule_names(old.config.rules@))
        &&& new == (AppState { watch_editor: new.watch_editor, mode: Mode::AddWatch, ..old })
    } else if len == 0 {
        effect == Effect::Nothing && new == old
    } else if moved(key, old.selected_watch, len) is Some {
        effect == Effect::Nothing && new == (AppState {
            selected_watch: moved(key, old.selected_watch, len),
            ..old
        })
    } else if key.is_char('e') {
        effect == Effect::Nothing && watch_opened(old, new)
    } else if key.is_char('d') || key.code == KeyCode::Delete {
        watch_deleted(old, new, effect)
    } else if key.is_char('o') || key.code == KeyCode::Enter {
        effect == Effect::Nothing && watch_named(old, new)
    } else {
        effect == Effect::Nothing && new == old
    }
}

/// Opens the editor for the selected watch.
fn open_selected_watch(state: &mut AppState)
    ensures
        watch_opened(*old(state), *final(state)),
{
    match state.selected_watch {
        Some(i) => {
            if i < state.config.watches.len() {
                let available = names_of(&state.config.rules);
                state.watch_editor = Some(
                    WatchEditorState::from_watch(i, &state.config.watches[i], available),
                );
                state.mode = Mode::EditWatch;
            }
        },
        None => {
            state.status_message = Some(String::from_str("Select a watch first"));
        },
    }
}

/// Deletes the selected watch.
fn delete_selected_watch(state: &mut AppState) -> (effect: Effect)
    ensures
        watch_deleted(*old(state), *final(state), effect),
{
    match state.selected_watch {
        Some(i) => {
            if i < state.config.watches.len() {
                let removed = state.config.watches.remove(i);
                let left = state.config.watches.len();
                if left == 0 {
                    state.selected_watch = None;
                } else if i >= left {
                    state.selected_watch = Some(left - 1);
                }
                state.status_message = Some(three("Deleted watch '", removed.path.as_str(), "'"));
                return Effect::SaveConfig { report: false };
            }
            Effect::Nothing
        },
        None => {
            state.status_message = Some(String::from_str("Select a watch first"));
            Effect::Nothing
        },
    }
}

/// Names the directory of the selected watch in the status line.
fn name_selected_watch(state: &mut AppState)
    ensures
        watch_named(*old(state), *final(state)),
{
    match state.selected_watch {
        Some(i) => {
            if i < state.config.watches.len() {
                state.status_message = Some(
                    two("Would open: ", state.config.watches[i].path.as_str()),
                );
            }
        },
        None => {},
    }
}

/// Handles a key in the view of the watches.
pub fn handle_watches_key(state: &mut AppState, key: KeyEvent) -> (effect: Effect)
    ensures
        watches_done(*old(state), key, *final(state), effect),
{
    let len = state.config.watches.len();
    match key.code {
        KeyCode::Char('a') | KeyCode::Char('n') => {
            let available = names_of(&state.config.rules);
            state.watch_editor = Some(WatchEditorState::new_watch(available));
            state.mode = Mode::AddWatch;
            return Effect::Nothing;
        },
        _ => {},
    }
    if len == 0 {
        return Effect::Nothing;
    }
    if let Some(to) = move_selection(key, state.selected_watch, len) {
        state.selected_watch = Some(to);
        return Effect::Nothing;
    }
    match key.code {
        KeyCode::Char('e') => {
            open_selected_watch(state);
            Effect::Nothing
        },
        KeyCode::Char('d') | KeyCode::Delete => delete_selected_watch(state),
        KeyCode::Char('o') | KeyCode::Enter => {
            name_selected_watch(state);
            Effect::Nothing
        },
        _ => Effect::Nothing,
    }
}

/// The setting at the place `i` in the settings dialog.
fn setting_at(i: usize) -> (r: SettingsItem)
    requires
        i < 7,
    ensures
        r == crate::state::all_settings()[i as int],
{
    if i == 0 {
        SettingsItem::DaemonControl
    } else if i == 1 {
        SettingsItem::AutoStartOnBoot
    } else if i == 2 {
        SettingsItem::ThemeSelection
    } else if i == 3 {
        SettingsItem::PollingInterval
    } else if i == 4 {
        SettingsItem::LogRetention
    } else if i == 5 {
        SettingsItem::StartupBehavior
    } else {
        SettingsItem::Notifications
    }
}

/// The configuration `new` is `old` with other general settings, which
/// hold the same texts.
pub open spec fn only_settings_differ(old: Config, new: Config) -> bool {
    &&& new == (Config { general: new.general, ..old })
    &&& new.general.log_level == old.general.log_level
    &&& new.general.log_file == old.general.log_file
    &&& new.general.theme == old.general.theme
    &&& new.general.debounce_seconds == old.general.debounce_seconds
}

/// The state `new` is `old` with a new value of one setting, which the
/// status line reports, and the configuration is to be written.
pub open spec fn setting_changed(old: AppState, new: AppState, effect: Effect, said: Seq<char>) -> bool {
    &&& effect == Effect::SaveConfig { report: true }
    &&& only_settings_differ(old.config, new.config)
    &&& status_is(new, said)
    &&& new == (AppState { config: new.config, status_message: new.status_message, ..old })
}

/// The state `new` is `old` with the polling interval `v`.
pub open spec fn interval_set(old: AppState, new: AppState, effect: Effect, v: u64) -> bool {
    &&& setting_changed(old, new, effect, "Polling interval: "@ + decimal_digits(v as nat) + "s"@)
    &&& new.config.general == (crate::config::GeneralConfig {
        polling_interval_secs: v,
        ..old.config.general
    })
}

/// The state `new` is `old` with room for `v` log entries.
pub open spec fn retention_set(old: AppState, new: AppState, effect: Effect, v: u64) -> bool {
    &&& setting_changed(
        old,
        new,
        effect,
        "Log retention: "@ + decimal_digits(v as nat) + " entries"@,
    )
    &&& new.config.general == (crate::config::GeneralConfig {
        log_retention: v as usize,
        ..old.config.general
    })
}

/// What choosing the highlighted setting does: the daemon and the start at
/// boot are toggled by the caller, the theme picker opens, the polling
/// interval and the number of log entries go to their next value, and the
/// other settings are switched on or off.
pub open spec fn setting_chosen(old: AppState, new: AppState, effect: Effect) -> bool {
    let general = old.config.general;
    match crate::state::all_settings()[old.settings_index as int] {
        SettingsItem::DaemonControl => effect == Effect::ToggleDaemon && new == old,
        SettingsItem::AutoStartOnBoot => effect == Effect::ToggleAutostart && new == old,
        SettingsItem::ThemeSelection => effect == Effect::Nothing && new == (AppState {
            original_theme: Some(old.theme),
            theme_picker_index: old.theme.position() as usize,
            mode: Mode::ThemePicker,
            ..old
        }),
        SettingsItem::PollingInterval => interval_set(
            old,
            new,
            effect,
            cycled(seq![1u64, 2, 5, 10, 30, 60], general.polling_interval_secs),
        ),
        SettingsItem::LogRetention => retention_set(
            old,
            new,
            effect,
            cycled(seq![100u64, 500, 1000, 5000, 10000], general.log_retention as u64),
        ),
        SettingsItem::StartupBehavior => {
            &&& setting_changed(
                old,
                new,
                effect,
                "Start daemon on launch: "@ + enabled_text(!general.start_daemon_on_launch),
            )
            &&& new.config.general == (crate::config::GeneralConfig {
                start_daemon_on_launch: !general.start_daemon_on_launch,
                ..general
            })
        },
        SettingsItem::Notifications => {
            &&& setting_changed(
                old,
                new,
                effect,
                "Notifications: "@ + enabled_text(!general.notifications_enabled),
            )
            &&& new.config.general == (crate::config::GeneralConfig {
                notifications_enabled: !general.notifications_enabled,
                ..general
            })
        },
    }
}

/// What stepping the highlighted setting up or down does: the polling
/// interval and the number of log entries go one value up or down, and
/// every other setting is chosen.
pub open spec fn setting_stepped(old: AppState, increase: bool, new: AppState, effect: Effect)
    -> bool {
    let general = old.config.general;
    match crate::state::all_settings()[old.settings_index as int] {
        SettingsItem::PollingInterval => interval_set(
            old,
            new,
            effect,
            stepped(seq![1u64, 2, 5, 10, 30, 60], general.polling_interval_secs, increase),
        ),
        SettingsItem::LogRetention => retention_set(
            old,
            new,
            effect,
            stepped(seq![100u64, 500, 1000, 5000, 10000], general.log_retention as u64, increase),
        ),
        _ => setting_chosen(old, new, effect),
    }
}

/// Reports a new polling interval.
fn set_interval(state: &mut AppState, v: u64) -> (effect: Effect)
    ensures
        interval_set(*old(state), *final(state), effect, v),
{
    state.config.general.polling_interval_secs = v;
    let mut said: Vec<char> = Vec::new();
    push_str(&mut said, "Polling interval: ");
    push_decimal(&mut said, v);
    push_str(&mut said, "s");
    state.status_message = Some(from_chars(&said));
    Effect::SaveConfig { report: true }
}

/// Reports a new number of log entries to keep.
fn set_retention(state: &mut AppState, v: u64) -> (effect: Effect)
    requires
        v <= 10000,
    ensures
        retention_set(*old(state), *final(state), effect, v),
{
    state.config.general.log_retention = v as usize;
    let mut said: Vec<char> = Vec::new();
    push_str(&mut said, "Log retention: ");
    push_decimal(&mut said, v);
    push_str(&mut said, " entries");
    state.status_message = Some(from_chars(&said));
    Effect::SaveConfig { report: true }
}

/// One of the values that the settings offer is at most ten thousand.
proof fn lemma_retentions_are_small(current: u64, increase: bool)
    ensures
        cycled(seq![100u64, 500, 1000, 5000, 10000], current) <= 10000,
        stepped(seq![100u64, 500, 1000, 5000, 10000], current, increase) <= 10000,
{
    let v = seq![100u64, 500, 1000, 5000, 10000];
    assert(v.len() == 5);
    assert(v[0] == 100 && v[1] == 500 && v[2] == 1000 && v[3] == 5000 && v[4] == 10000);
    lemma_first_above_in_range(v, current, false, 0);
    lemma_first_above_in_range(v, current, true, 0);
}

/// What [`crate::state::first_above`] finds is an index of the values,
/// or their number.
proof fn lemma_first_above_in_range(values: Seq<u64>, current: u64, inclusive: bool, from: int)
    requires
        0 <= from <= values.len(),
    ensures
        from <= crate::state::first_above(values, current, inclusive, from) <= values.len(),
    decreases values.len() - from,
{
    if from < values.len() {
        lemma_first_above_in_range(values, current, inclusive, from + 1);
    }
}

/// Chooses the highlighted setting.
pub fn handle_settings_action(state: &mut AppState) -> (effect: Effect)
    requires
        sound(*old(state)),
    ensures
        setting_chosen(*old(state), *final(state), effect),
        sound(*final(state)),
{
    match setting_at(state.settings_index) {
        SettingsItem::DaemonControl => Effect::ToggleDaemon,
        SettingsItem::AutoStartOnBoot => Effect::ToggleAutostart,
        SettingsItem::ThemeSelection => {
            state.original_theme = Some(state.theme);
            state.theme_picker_index = state.theme.index();
            state.mode = Mode::ThemePicker;
            Effect::Nothing
        },
        SettingsItem::PollingInterval => {
            let values = polling_intervals();
            let v = cycle_setting(values.as_slice(), state.config.general.polling_interval_secs);
            set_interval(state, v)
        },
        SettingsItem::LogRetention => {
            let values = log_retentions();
            let current = state.config.general.log_retention as u64;
            proof {
                lemma_retentions_are_small(current, true);
            }
            let v = cycle_setting(values.as_slice(), current);
            set_retention(state, v)
        },
        SettingsItem::StartupBehavior => {
            let on = !state.config.general.start_daemon_on_launch;
            state.config.general.start_daemon_on_launch = on;
            state.status_message = Some(two("Start daemon on launch: ", enabled_word(on)));
            Effect::SaveConfig { report: true }
        },
        SettingsItem::Notifications => {
            let on = !state.config.general.notifications_enabled;
            state.config.general.notifications_enabled = on;
            state.status_message = Some(two("Notifications: ", enabled_word(on)));
            Effect::SaveConfig { report: true }
        },
    }
}

/// Steps the highlighted setting up or down.
pub fn handle_settings_increment(state: &mut AppState, increase: bool) -> (effect: Effect)
    requires
        sound(*old(state)),
    ensures
        setting_stepped(*old(state), increase, *final(state), effect),
        sound(*final(state)),
{
    match setting_at(state.settings_index) {
        SettingsItem::PollingInterval => {
            let values = polling_intervals();
            let v = step_setting(
                values.as_slice(),
                state.config.general.polling_interval_secs,
                increase,
            );
            set_interval(state, v)
        },
        SettingsItem::LogRetention => {
            let values = log_retentions();
            let current = state.config.general.log_retention as u64;
            proof {
                lemma_retentions_are_small(current, increase);
            }
            let v = step_setting(values.as_slice(), current, increase);
            set_retention(state, v)
        },
        _ => handle_settings_action(state),
    }
}

/// What a key does in the settings dialog: escape closes it, the keys
/// that move highlight a setting, going round at the ends, enter and space
/// choose the highlighted setting, and `+`, `=`, `l` and the arrow to the
/// right step it up, `-`, `h` and the arrow to the left step it down.
pub open spec fn settings_done(old: AppState, key: KeyEvent, new: AppState, effect: Effect) -> bool {
    let i = old.settings_index;
    if key.code == KeyCode::Esc {
        effect == Effect::Nothing && new == (AppState { mode: Mode::Normal, ..old })
    } else if key.up() {
        effect == Effect::Nothing && new == (AppState {
            settings_index: if i == 0 {
                6
            } else {
                (i - 1) as usize
            },
            ..old
        })
    } else if key.down() {
        effect == Effect::Nothing && new == (AppState {
            settings_index: ((i + 1) % 7) as usize,
            ..old
        })
    } else if key.first() {
        effect == Effect::Nothing && new == (AppState { settings_index: 0, ..old })
    } else if key.last() {
        effect == Effect::Nothing && new == (AppState { settings_index: 6, ..old })
    } else if key.code == KeyCode::Enter || key.is_char(' ') {
        setting_chosen(old, new, effect)
    } else if key.is_char('+') || key.is_char('=') || key.code == KeyCode::Right || key.is_char('l') {
        setting_stepped(old, true, new, effect)
    } else if key.is_char('-') || key.code == KeyCode::Left || key.is_char('h') {
        setting_stepped(old, false, new, effect)
    } else {
        effect == Effect::Nothing && new == old
    }
}

/// Handles a key in the settings dialog.
pub fn handle_settings_key(state: &mut AppState, key: KeyEvent) -> (effect: Effect)
    requires
        sound(*old(state)),
    ensures
        settings_done(*old(state), key, *final(state), effect),
        sound(*final(state)),
{
    match key.code {
        KeyCode::Esc => {
            state.mode = Mode::Normal;
            Effect::Nothing
        },
        KeyCode::Up | KeyCode::Char('k') => {
            state.settings_index = if state.settings_index == 0 {
                6
            } else {
                state.settings_index - 1
            };
            Effect::Nothing
        },
        KeyCode::Down | KeyCode::Char('j') => {
            state.settings_index = (state.settings_index + 1) % 7;
            Effect::Nothing
        },
        KeyCode::Home | KeyCode::Char('g') => {
            state.settings_index = 0;
            Effect::Nothing
        },
        KeyCode::End | KeyCode::Char('G') => {
            state.settings_index = 6;
            Effect::Nothing
        },
        KeyCode::Enter | KeyCode::Char(' ') => handle_settings_action(state),
        KeyCode::Char('+') | KeyCode::Char('=') | KeyCode::Right | KeyCode::Char('l') => {
            handle_settings_increment(state, true)
        },
        KeyCode::Char('-') | KeyCode::Left | KeyCode::Char('h') => {
            handle_settings_increment(state, false)
        },
        _ => Effect::Nothing,
    }
}

/// What a failure to write the configuration does: the status line says
/// so.
pub fn save_failed(state: &mut AppState, error: &str)
    ensures
        status_is(*final(state), "Failed to save config: "@ + error@),
        *final(state) == (AppState { status_message: final(state).status_message, ..*old(state) }),
{
    state.status_message = Some(two("Failed to save config: ", error));
}

/// What the outcome of starting or stopping the daemon does to the state.
/// A daemon that was asked to stop no longer counts as running, and the
/// embedded watcher is to be started in its place; one that was asked to
/// start counts as running.
pub open spec fn daemon_toggle_done(old: AppState, outcome: Result<(), String>, new: AppState) -> bool {
    match outcome {
        Ok(_) => if old.daemon_running {
            &&& status_is(new, "Daemon stop requested"@)
            &&& new == (AppState {
                daemon_running: false,
                watcher_needs_restart: true,
                status_message: new.status_message,
                ..old
            })
        } else {
            &&& status_is(new, "Daemon start requested"@)
            &&& new == (AppState {
                daemon_running: true,
                status_message: new.status_message,
                ..old
            })
        },
        Err(why) => {
            &&& status_is(
                new,
                (if old.daemon_running {
                    "Error stopping daemon: "@
                } else {
                    "Error starting daemon: "@
                }) + why@,
            )
            &&& new == (AppState { status_message: new.status_message, ..old })
        },
    }
}

/// Takes in how starting or stopping the daemon went.
pub fn daemon_toggled(state: &mut AppState, outcome: &Result<(), String>)
    ensures
        daemon_toggle_done(*old(state), *outcome, *final(state)),
{
    let was_running = state.daemon_running;
    match outcome {
        Ok(_) => {
            if was_running {
                state.daemon_running = false;
                state.watcher_needs_restart = true;
                state.status_message = Some(String::from_str("Daemon stop requested"));
            } else {
                state.daemon_running = true;
                state.status_message = Some(String::from_str("Daemon start requested"));
            }
        },
        Err(why) => {
            let head = if was_running {
                "Error stopping daemon: "
            } else {
                "Error starting daemon: "
            };
            state.status_message = Some(two(head, why.as_str()));
        },
    }
}

/// Takes in how switching the start at boot went: whether it is on now, or
/// why it could not be switched.
pub fn autostart_toggled(state: &mut AppState, outcome: &Result<bool, String>)
    ensures
        status_is(
            *final(state),
            match *outcome {
                Ok(on) => "Auto-start on boot: "@ + enabled_text(on),
                Err(why) => "Failed to toggle auto-start: "@ + why@,
            },
        ),
        *final(state) == (AppState { status_message: final(state).status_message, ..*old(state) }),
{
    state.status_message = Some(
        match outcome {
            Ok(on) => two("Auto-start on boot: ", enabled_word(*on)),
            Err(why) => two("Failed to toggle auto-start: ", why.as_str()),
        },
    );
}

/// Says whether an update is due to run now, and takes note that it is no
/// longer pending. The caller runs the update and hands the outcome to
/// [`update_finished`].
pub fn process_pending_update(state: &mut AppState) -> (due: bool)
    ensures
        due == old(state).pending_update,
        *final(state) == (AppState { pending_update: false, ..*old(state) }),
{
    let due = state.pending_update;
    state.pending_update = false;
    due
}

/// What the outcome of an update does to the state: the front-end is back
/// to normal, and says how the update went. After an update that was
/// installed none is on offer.
pub open spec fn update_done(old: AppState, outcome: Result<(), String>, new: AppState) -> bool {
    match outcome {
        Ok(_) => {
            &&& new.update_status matches Some(m) && m@
                == "Update complete! Please restart hazelnut."@
            &&& new == (AppState {
                update_status: new.update_status,
                update_available: None,
                mode: Mode::Normal,
                ..old
            })
        },
        Err(why) => {
            &&& new.update_status matches Some(m) && m@ == "Update failed: "@ + why@
            &&& new == (AppState { update_status: new.update_status, mode: Mode::Normal, ..old })
        },
    }
}

/// Takes in how the update went.
pub fn update_finished(state: &mut AppState, outcome: &Result<(), String>)
    ensures
        update_done(*old(state), *outcome, *final(state)),
{
    match outcome {
        Ok(_) => {
            state.update_status = Some(
                String::from_str("Update complete! Please restart hazelnut."),
            );
            state.update_available = None;
        },
        Err(why) => {
            state.update_status = Some(two("Update failed: ", why.as_str()));
        },
    }
    state.mode = Mode::Normal;
}

/// The key as an input field sees it.
pub open spec fn edit_key(key: KeyEvent) -> EditKey {
    match key.code {
        KeyCode::Char(c) => EditKey::Char(c),
        KeyCode::Backspace => EditKey::Backspace,
        KeyCode::Delete => EditKey::Delete,
        KeyCode::Left => EditKey::Left,
        KeyCode::Right => EditKey::Right,
        KeyCode::Home => EditKey::Home,
        KeyCode::End => EditKey::End,
        _ => EditKey::Other,
    }
}

/// Executable form of [`edit_key`].
fn to_edit_key(key: KeyEvent) -> (r: EditKey)
    ensures
        r == edit_key(key),
{
    match key.code {
        KeyCode::Char(c) => EditKey::Char(c),
        KeyCode::Backspace => EditKey::Backspace,
        KeyCode::Delete => EditKey::Delete,
        KeyCode::Left => EditKey::Left,
        KeyCode::Right => EditKey::Right,
        KeyCode::Home => EditKey::Home,
        KeyCode::End => EditKey::End,
        _ => EditKey::Other,
    }
}

/// Executable form of [`KeyEvent::toggles`].
fn is_toggle(key: KeyEvent) -> (r: bool)
    ensures
        r == key.toggles(),
{
    match key.code {
        KeyCode::Char(' ') | KeyCode::Left | KeyCode::Right => true,
        _ => false,
    }
}

/// The choice that follows `choice` in the round of any, yes and no.
pub open spec fn next_choice(choice: Option<bool>) -> Option<bool> {
    match choice {
        None => Some(true),
        Some(true) => Some(false),
        Some(false) => None,
    }
}

/// Executable form of [`next_choice`].
fn cycle_choice(choice: Option<bool>) -> (r: Option<bool>)
    ensures
        r == next_choice(choice),
{
    match choice {
        None => Some(true),
        Some(true) => Some(false),
        Some(false) => None,
    }
}

/// What a key does to the field of the rule editor that has the focus: a
/// field of text or of a number is edited, a switch is toggled by space
/// and the arrows to the sides, and the kind of action goes to the next by
/// space, `l` and the arrow to the right, to the one before by `h` and the
/// arrow to the left.
pub open spec fn rule_field_edited(ed: RuleEditorState, key: KeyEvent, e: RuleEditorState) -> bool {
    match ed.field {
        RuleEditorField::Name => {
            &&& (e.name@, e.cursor_name) == edited(ed.name@, ed.cursor_name, edit_key(key), false)
            &&& e == (RuleEditorState { name: e.name, cursor_name: e.cursor_name, ..ed })
        },
        RuleEditorField::Extension => {
            &&& (e.extension@, e.cursor_extension) == edited(ed.extension@, ed.cursor_extension, edit_key(key), false)
            &&& e == (RuleEditorState { extension: e.extension, cursor_extension: e.cursor_extension, ..ed })
        },
        RuleEditorField::NameGlob => {
            &&& (e.name_glob@, e.cursor_name_glob) == edited(ed.name_glob@, ed.cursor_name_glob, edit_key(key), false)
            &&& e == (RuleEditorState { name_glob: e.name_glob, cursor_name_glob: e.cursor_name_glob, ..ed })
        },
        RuleEditorField::NameRegex => {
            &&& (e.name_regex@, e.cursor_name_regex) == edited(ed.name_regex@, ed.cursor_name_regex, edit_key(key), false)
            &&& e == (RuleEditorState { name_regex: e.name_regex, cursor_name_regex: e.cursor_name_regex, ..ed })
        },
        RuleEditorField::ActionDestination => {
            &&& (e.action_destination@, e.cursor_action_destination) == edited(ed.action_destination@, ed.cursor_action_destination, edit_key(key), false)
            &&& e == (RuleEditorState { action_destination: e.action_destination, cursor_action_destination: e.cursor_action_destination, ..ed })
        },
        RuleEditorField::ActionPattern => {
            &&& (e.action_pattern@, e.cursor_action_pattern) == edited(ed.action_pattern@, ed.cursor_action_pattern, edit_key(key), false)
            &&& e == (RuleEditorState { action_pattern: e.action_pattern, cursor_action_pattern: e.cursor_action_pattern, ..ed })
        },
        RuleEditorField::ActionCommand => {
            &&& (e.action_command@, e.cursor_action_command) == edited(ed.action_command@, ed.cursor_action_command, edit_key(key), false)
            &&& e == (RuleEditorState { action_command: e.action_command, cursor_action_command: e.cursor_action_command, ..ed })
        },
        RuleEditorField::ActionArgs => {
            &&& (e.action_args@, e.cursor_action_args) == edited(ed.action_args@, ed.cursor_action_args, edit_key(key), false)
            &&& e == (RuleEditorState { action_args: e.action_args, cursor_action_args: e.cursor_action_args, ..ed })
        },
        RuleEditorField::SizeGreater => {
            &&& (e.size_greater@, e.cursor_size_greater) == edited(ed.size_greater@, ed.cursor_size_greater, edit_key(key), true)
            &&& e == (RuleEditorState { size_greater: e.size_greater, cursor_size_greater: e.cursor_size_greater, ..ed })
        },
        RuleEditorField::SizeLess => {
            &&& (e.size_less@, e.cursor_size_less) == edited(ed.size_less@, ed.cursor_size_less, edit_key(key), true)
            &&& e == (RuleEditorState { size_less: e.size_less, cursor_size_less: e.cursor_size_less, ..ed })
        },
        RuleEditorField::AgeGreater => {
            &&& (e.age_greater@, e.cursor_age_greater) == edited(ed.age_greater@, ed.cursor_age_greater, edit_key(key), true)
            &&& e == (RuleEditorState { age_greater: e.age_greater, cursor_age_greater: e.cursor_age_greater, ..ed })
        },
        RuleEditorField::AgeLess => {
            &&& (e.age_less@, e.cursor_age_less) == edited(ed.age_less@, ed.cursor_age_less, edit_key(key), true)
            &&& e == (RuleEditorState { age_less: e.age_less, cursor_age_less: e.cursor_age_less, ..ed })
        },
        RuleEditorField::Enabled => e == (if key.toggles() {
            RuleEditorState { enabled: !ed.enabled, ..ed }
        } else {
            ed
        }),
        RuleEditorField::IsDirectory => e == (if key.toggles() {
            RuleEditorState { is_directory: next_choice(ed.is_directory), ..ed }
        } else {
            ed
        }),
        RuleEditorField::IsHidden => e == (if key.toggles() {
            RuleEditorState { is_hidden: next_choice(ed.is_hidden), ..ed }
        } else {
            ed
        }),
        RuleEditorField::ActionType => {
            let by: int = if key.is_char(' ') || key.code == KeyCode::Right || key.is_char('l') {
                1
            } else if key.code == KeyCode::Left || key.is_char('h') {
                7
            } else {
                0
            };
            &&& e.action_type.index() == (ed.action_type.index() + by) % 8
            &&& e == (RuleEditorState { action_type: e.action_type, ..ed })
        },
    }
}

/// Handles a key in the field of the rule editor that has the focus.
pub fn handle_rule_editor_field_input(editor: &mut RuleEditorState, key: KeyEvent)
    ensures
        rule_field_edited(*old(editor), key, *final(editor)),
{
    let k = to_edit_key(key);
    match editor.field {
        RuleEditorField::Name => {
            handle_text_input(&mut editor.name, &mut editor.cursor_name, k);
        },
        RuleEditorField::Extension => {
            handle_text_input(&mut editor.extension, &mut editor.cursor_extension, k);
        },
        RuleEditorField::NameGlob => {
            handle_text_input(&mut editor.name_glob, &mut editor.cursor_name_glob, k);
        },
        RuleEditorField::NameRegex => {
            handle_text_input(&mut editor.name_regex, &mut editor.cursor_name_regex, k);
        },
        RuleEditorField::ActionDestination => {
            handle_text_input(&mut editor.action_destination, &mut editor.cursor_action_destination, k);
        },
        RuleEditorField::ActionPattern => {
            handle_text_input(&mut editor.action_pattern, &mut editor.cursor_action_pattern, k);
        },
        RuleEditorField::ActionCommand => {
            handle_text_input(&mut editor.action_command, &mut editor.cursor_action_command, k);
        },
        RuleEditorField::ActionArgs => {
            handle_text_input(&mut editor.action_args, &mut editor.cursor_action_args, k);
        },
        RuleEditorField::SizeGreater => {
            handle_numeric_input(&mut editor.size_greater, &mut editor.cursor_size_greater, k);
        },
        RuleEditorField::SizeLess => {
            handle_numeric_input(&mut editor.size_less, &mut editor.cursor_size_less, k);
        },
        RuleEditorField::AgeGreater => {
            handle_numeric_input(&mut editor.age_greater, &mut editor.cursor_age_greater, k);
        },
        RuleEditorField::AgeLess => {
            handle_numeric_input(&mut editor.age_less, &mut editor.cursor_age_less, k);
        },
        RuleEditorField::Enabled => {
            if is_toggle(key) {
                editor.enabled = !editor.enabled;
            }
        },
        RuleEditorField::IsDirectory => {
            if is_toggle(key) {
                editor.is_directory = cycle_choice(editor.is_directory);
            }
        },
        RuleEditorField::IsHidden => {
            if is_toggle(key) {
                editor.is_hidden = cycle_choice(editor.is_hidden);
            }
        },
        RuleEditorField::ActionType => {
            match key.code {
                KeyCode::Char(' ') | KeyCode::Right | KeyCode::Char('l') => {
                    editor.action_type = editor.action_type.next();
                },
                KeyCode::Left | KeyCode::Char('h') => {
                    editor.action_type = editor.action_type.prev();
                },
                _ => {},
            }
        },
    }
}

/// The text holds nothing but white space.
pub open spec fn is_blank_text(s: Seq<char>) -> bool {
    skip_spaces(s, 0) >= s.len()
}

/// Executable form of [`is_blank_text`].
fn blank(s: &str) -> (r: bool)
    ensures
        r == is_blank_text(s@),
{
    let chars = to_chars(s);
    after_spaces(&chars, 0) >= chars.len()
}

/// What saving the rule of the editor does. A rule without a name is not
/// saved: the status line asks for one. Else the rule takes the place of
/// the rule that was edited, or joins the rules at the end and is
/// selected; the editor closes and the configuration is to be written.
pub open spec fn rule_saved(old: AppState, ed: RuleEditorState, new: AppState, effect: Effect)
    -> bool {
    let rules = old.config.rules@;
    let len = rules.len() as int;
    if is_blank_text(ed.name@) {
        &&& effect == Effect::Nothing
        &&& status_is(new, "Rule name is required"@)
        &&& new == (AppState { status_message: new.status_message, ..old })
    } else {
        &&& effect == Effect::SaveConfig { report: true }
        &&& only_rules_differ(old.config, new.config)
        &&& match ed.editing_index {
            Some(i) => if i < len {
                &&& new.config.rules@.len() == len
                &&& ed.describes(&new.config.rules@[i as int])
                &&& forall|j: int|
                    0 <= j < len && j != i ==> new.config.rules@[j] == #[trigger] rules[j]
                &&& status_is(new, "Updated rule '"@ + ed.name@ + "'"@)
                &&& new == (AppState {
                    config: new.config,
                    status_message: new.status_message,
                    rule_editor: None,
                    mode: Mode::Normal,
                    ..old
                })
            } else {
                new == (AppState { rule_editor: None, mode: Mode::Normal, ..old })
            },
            None => {
                &&& new.config.rules@.len() == len + 1
                &&& ed.describes(&new.config.rules@[len])
                &&& new.config.rules@.take(len) == rules
                &&& status_is(new, "Created rule '"@ + ed.name@ + "'"@)
                &&& new == (AppState {
                    config: new.config,
                    selected_rule: Some(len as usize),
                    status_message: new.status_message,
                    rule_editor: None,
                    mode: Mode::Normal,
                    ..old
                })
            },
        }
    }
}

/// Saves the rule of the editor `ed`, which was taken out of the state.
fn save_rule(state: &mut AppState, ed: RuleEditorState) -> (effect: Effect)
    requires
        old(state).rule_editor is None,
    ensures
        rule_saved(
            AppState { rule_editor: Some(ed), ..*old(state) },
            ed,
            *final(state),
            effect,
        ),
{
    if blank(ed.name.as_str()) {
        state.status_message = Some(String::from_str("Rule name is required"));
        state.rule_editor = Some(ed);
        return Effect::Nothing;
    }
    let rule = ed.to_rule();
    let ghost rules = state.config.rules@;
    match ed.editing_index {
        Some(i) => {
            if i < state.config.rules.len() {
                state.status_message = Some(three("Updated rule '", rule.name.as_str(), "'"));
                state.config.rules.set(i, rule);
            }
        },
        None => {
            state.status_message = Some(three("Created rule '", rule.name.as_str(), "'"));
            state.config.rules.push(rule);
            state.selected_rule = Some(state.config.rules.len() - 1);
            assert(state.config.rules@.take(rules.len() as int) =~= rules);
        },
    }
    state.mode = Mode::Normal;
    Effect::SaveConfig { report: true }
}

/// What a key does in the rule editor: escape closes it, tab and back-tab
/// go from field to field, enter saves the rule, and every other key goes
/// to the field that has the focus. Without an editor the front-end goes
/// back to normal.
pub open spec fn rule_editor_done(old: AppState, key: KeyEvent, new: AppState, effect: Effect)
    -> bool {
    match old.rule_editor {
        None => effect == Effect::Nothing && new == (AppState { mode: Mode::Normal, ..old }),
        Some(ed) => if key.code == KeyCode::Esc {
            &&& effect == Effect::Nothing
            &&& status_is(new, "Cancelled"@)
            &&& new == (AppState {
                rule_editor: None,
                mode: Mode::Normal,
                status_message: new.status_message,
                ..old
            })
        } else if key.code == KeyCode::Tab || key.code == KeyCode::BackTab {
            &&& effect == Effect::Nothing
            &&& new.rule_editor matches Some(e) && e == (RuleEditorState { field: e.field, ..ed })
                && e.field.index() == (ed.field.index() + (if key.code == KeyCode::Tab {
                1int
            } else {
                15int
            })) % 16
            &&& new == (AppState { rule_editor: new.rule_editor, ..old })
        } else if key.code == KeyCode::Enter {
            rule_saved(old, ed, new, effect)
        } else {
            &&& effect == Effect::Nothing
            &&& new.rule_editor matches Some(e) && rule_field_edited(ed, key, e)
            &&& new == (AppState { rule_editor: new.rule_editor, ..old })
        },
    }
}

/// Handles a key in the rule editor.
pub fn handle_rule_editor_key(state: &mut AppState, key: KeyEvent) -> (effect: Effect)
    ensures
        rule_editor_done(*old(state), key, *final(state), effect),
{
    let mut ed = match state.rule_editor.take() {
        Some(ed) => ed,
        None => {
            state.mode = Mode::Normal;
            return Effect::Nothing;
        },
    };
    assert(*old(state) == (AppState { rule_editor: Some(ed), ..*state }));
    match key.code {
        KeyCode::Esc => {
            state.mode = Mode::Normal;
            state.status_message = Some(String::from_str("Cancelled"));
            Effect::Nothing
        },
        KeyCode::Tab => {
            ed.field = ed.field.next();
            state.rule_editor = Some(ed);
            Effect::Nothing
        },
        KeyCode::BackTab => {
            ed.field = ed.field.prev();
            state.rule_editor = Some(ed);
            Effect::Nothing
        },
        KeyCode::Enter => save_rule(state, ed),
        _ => {
            handle_rule_editor_field_input(&mut ed, key);
            state.rule_editor = Some(ed);
            Effect::Nothing
        },
    }
}

/// What a key does to the field of the watch editor that has the focus:
/// the path is edited, the switch is toggled, and in the list of rules the
/// keys that move highlight a rule, space selects or unselects it, `a`
/// selects all rules and `c` none, which lets every rule apply.
pub open spec fn watch_field_edited(ed: WatchEditorState, key: KeyEvent, e: WatchEditorState) -> bool {
    let count = ed.available_rules@.len();
    match ed.field {
        WatchEditorField::Path => {
            &&& (e.path@, e.cursor_path) == edited(ed.path@, ed.cursor_path, edit_key(key), false)
            &&& e == (WatchEditorState { path: e.path, cursor_path: e.cursor_path, ..ed })
        },
        WatchEditorField::Recursive => e == (if key.toggles() {
            WatchEditorState { recursive: !ed.recursive, ..ed }
        } else {
            ed
        }),
        WatchEditorField::Rules => if count == 0 {
            e == ed
        } else if key.up() {
            e == (WatchEditorState {
                rules_cursor: if ed.rules_cursor == 0 {
                    0
                } else {
                    (ed.rules_cursor - 1) as usize
                },
                ..ed
            })
        } else if key.down() {
            e == (WatchEditorState {
                rules_cursor: if ed.rules_cursor < count - 1 {
                    (ed.rules_cursor + 1) as usize
                } else {
                    ed.rules_cursor
                },
                ..ed
            })
        } else if key.is_char(' ') {
            if ed.rules_cursor < count {
                &&& views(e.rules_filter@) == toggled(
                    views(ed.rules_filter@),
                    ed.available_rules@[ed.rules_cursor as int]@,
                )
                &&& e == (WatchEditorState { rules_filter: e.rules_filter, ..ed })
            } else {
                e == ed
            }
        } else if key.is_char('a') {
            &&& views(e.rules_filter@) == views(ed.available_rules@)
            &&& e == (WatchEditorState { rules_filter: e.rules_filter, ..ed })
        } else if key.is_char('c') {
            &&& e.rules_filter@.len() == 0
            &&& e == (WatchEditorState { rules_filter: e.rules_filter, ..ed })
        } else {
            e == ed
        },
    }
}

/// Handles a key in the field of the watch editor that has the focus.
pub fn handle_watch_editor_field_input(editor: &mut WatchEditorState, key: KeyEvent)
    ensures
        watch_field_edited(*old(editor), key, *final(editor)),
{
    match editor.field {
        WatchEditorField::Path => {
            handle_text_input(&mut editor.path, &mut editor.cursor_path, to_edit_key(key));
        },
        WatchEditorField::Recursive => {
            if is_toggle(key) {
                editor.recursive = !editor.recursive;
            }
        },
        WatchEditorField::Rules => {
            let count = editor.available_rules.len();
            if count == 0 {
                return ;
            }
            match key.code {
                KeyCode::Up | KeyCode::Char('k') => {
                    if editor.rules_cursor > 0 {
                        editor.rules_cursor = editor.rules_cursor - 1;
                    }
                },
                KeyCode::Down | KeyCode::Char('j') => {
                    if editor.rules_cursor < count - 1 {
                        editor.rules_cursor = editor.rules_cursor + 1;
                    }
                },
                KeyCode::Char(' ') => {
                    if editor.rules_cursor < count {
                        let name = editor.available_rules[editor.rules_cursor].clone();
                        editor.toggle_rule(name.as_str());
                    }
                },
                KeyCode::Char('a') => {
                    editor.rules_filter = crate::rules::action::copy_strings(
                        &editor.available_rules,
                    );
                },
                KeyCode::Char('c') => {
                    editor.rules_filter.clear();
                },
                _ => {},
            }
        },
    }
}

/// What saving the watch of the editor does. A watch without a path is
/// not saved: the status line asks for one. Else the watch takes the place
/// of the watch that was edited, or joins the watches at the end and is
/// selected; the editor closes and the configuration is to be written.
pub open spec fn watch_saved(old: AppState, ed: WatchEditorState, new: AppState, effect: Effect)
    -> bool {
    let watches = old.config.watches@;
    let len = watches.len() as int;
    if is_blank_text(ed.path@) {
        &&& effect == Effect::Nothing
        &&& status_is(new, "Path is required"@)
        &&& new == (AppState { status_message: new.status_message, ..old })
    } else {
        &&& effect == Effect::SaveConfig { report: true }
        &&& only_watches_differ(old.config, new.config)
        &&& match ed.editing_index {
            Some(i) => if i < len {
                &&& new.config.watches@.len() == len
                &&& ed.describes(&new.config.watches@[i as int])
                &&& forall|j: int|
                    0 <= j < len && j != i ==> new.config.watches@[j] == #[trigger] watches[j]
                &&& status_is(new, "Updated watch '"@ + ed.path@ + "'"@)
                &&& new == (AppState {
                    config: new.config,
                    status_message: new.status_message,
                    watch_editor: None,
                    mode: Mode::Normal,
                    ..old
                })
            } else {
                new == (AppState { watch_editor: None, mode: Mode::Normal, ..old })
            },
            None => {
                &&& new.config.watches@.len() == len + 1
                &&& ed.describes(&new.config.watches@[len])
                &&& new.config.watches@.take(len) == watches
                &&& status_is(new, "Added watch '"@ + ed.path@ + "'"@)
                &&& new == (AppState {
                    config: new.config,
                    selected_watch: Some(len as usize),
                    status_message: new.status_message,
                    watch_editor: None,
                    mode: Mode::Normal,
                    ..old
                })
            },
        }
    }
}

/// Saves the watch of the editor `ed`, which was taken out of the state.
fn save_watch(state: &mut AppState, ed: WatchEditorState) -> (effect: Effect)
    requires
        old(state).watch_editor is None,
    ensures
        watch_saved(
            AppState { watch_editor: Some(ed), ..*old(state) },
            ed,
            *final(state),
            effect,
        ),
{
    if blank(ed.path.as_str()) {
        state.status_message = Some(String::from_str("Path is required"));
        state.watch_editor = Some(ed);
        return Effect::Nothing;
    }
    let watch = ed.to_watch();
    let ghost watches = state.config.watches@;
    match ed.editing_index {
        Some(i) => {
            if i < state.config.watches.len() {
                state.status_message = Some(three("Updated watch '", watch.path.as_str(), "'"));
                state.config.watches.set(i, watch);
            }
        },
        None => {
            state.status_message = Some(three("Added watch '", watch.path.as_str(), "'"));
            state.config.watches.push(watch);
            state.selected_watch = Some(state.config.watches.len() - 1);
            assert(state.config.watches@.take(watches.len() as int) =~= watches);
        },
    }
    state.mode = Mode::Normal;
    Effect::SaveConfig { report: true }
}

/// What a key does in the watch editor: escape closes it, tab and
/// back-tab go from field to field, enter saves the watch, and every other
/// key goes to the field that has the focus. Without an editor the
/// front-end goes back to normal.
pub open spec fn watch_editor_done(old: AppState, key: KeyEvent, new: AppState, effect: Effect)
    -> bool {
    match old.watch_editor {
        None => effect == Effect::Nothing && new == (AppState { mode: Mode::Normal, ..old }),
        Some(ed) => if key.code == KeyCode::Esc {
            &&& effect == Effect::Nothing
            &&& status_is(new, "Cancelled"@)
            &&& new == (AppState {
                watch_editor: None,
                mode: Mode::Normal,
                status_message: new.status_message,
                ..old
            })
        } else if key.code == KeyCode::Tab || key.code == KeyCode::BackTab {
            &&& effect == Effect::Nothing
            &&& new.watch_editor matches Some(e) && e == (WatchEditorState { field: e.field, ..ed })
                && e.field.index() == (ed.field.index() + (if key.code == KeyCode::Tab {
                1int
            } else {
                2int
            })) % 3
            &&& new == (AppState { watch_editor: new.watch_editor, ..old })
        } else if key.code == KeyCode::Enter {
            watch_saved(old, ed, new, effect)
        } else {
            &&& effect == Effect::Nothing
            &&& new.watch_editor matches Some(e) && watch_field_edited(ed, key, e)
            &&& new == (AppState { watch_editor: new.watch_editor, ..old })
        },
    }
}

/// Handles a key in the watch editor.
pub fn handle_watch_editor_key(state: &mut AppState, key: KeyEvent) -> (effect: Effect)
    ensures
        watch_editor_done(*old(state), key, *final(state), effect),
{
    let mut ed = match state.watch_editor.take() {
        Some(ed) => ed,
        None => {
            state.mode = Mode::Normal;
            return Effect::Nothing;
        },
    };
    assert(*old(state) == (AppState { watch_editor: Some(ed), ..*state }));
    match key.code {
        KeyCode::Esc => {
            state.mode = Mode::Normal;
            state.status_message = Some(String::from_str("Cancelled"));
            Effect::Nothing
        },
        KeyCode::Tab => {
            ed.field = ed.field.next();
            state.watch_editor = Some(ed);
            Effect::Nothing
        },
        KeyCode::BackTab => {
            ed.field = ed.field.prev();
            state.watch_editor = Some(ed);
            Effect::Nothing
        },
        KeyCode::Enter => save_watch(state, ed),
        _ => {
            handle_watch_editor_field_input(&mut ed, key);
            state.watch_editor = Some(ed);
            Effect::Nothing
        },
    }
}

/// The view that a digit goes to.
pub open spec fn view_of_digit(c: char) -> Option<AppView> {
    if c == '1' {
        Some(AppView::Dashboard)
    } else if c == '2' {
        Some(AppView::Rules)
    } else if c == '3' {
        Some(AppView::Watches)
    } else if c == '4' {
        Some(AppView::Log)
    } else {
        None
    }
}

/// What one of the keys that work in every view does, or `None` for a key
/// that is left to the view: control with `c` or `q`, and `q` alone, quit;
/// `?` and the first function key open the help; tab and shift with
/// back-tab go to the next view and to the one before; the digits go to a
/// view; `t` opens the theme picker, `s` the settings and `A` the about
/// dialog.
pub open spec fn global_key(old: AppState, key: KeyEvent) -> Option<AppState> {
    if (key.modifiers.only_control() && (key.is_char('c') || key.is_char('q'))) || key.is_char('q') {
        Some(AppState { should_quit: true, ..old })
    } else if key.is_char('?') || key.code == KeyCode::F(1) {
        Some(AppState { mode: Mode::Help, show_help: true, ..old })
    } else if key.code == KeyCode::Tab {
        Some(AppState { view: next_view_of(old.view), ..old })
    } else if key.modifiers.only_shift() && key.code == KeyCode::BackTab {
        Some(AppState { view: prev_view_of(old.view), ..old })
    } else if key.code matches KeyCode::Char(c) && view_of_digit(c) is Some {
        Some(AppState { view: view_of_digit(key.code->Char_0)->0, ..old })
    } else if key.is_char('t') {
        Some(
            AppState {
                theme_picker_index: old.theme.position() as usize,
                original_theme: Some(old.theme),
                mode: Mode::ThemePicker,
                ..old
            },
        )
    } else if key.is_char('s') {
        Some(AppState { settings_index: 0, mode: Mode::Settings, ..old })
    } else if key.is_char('A') {
        Some(AppState { mode: Mode::About, ..old })
    } else {
        None
    }
}

/// The view that follows `v`.
pub open spec fn next_view_of(v: AppView) -> AppView {
    match v {
        AppView::Dashboard => AppView::Rules,
        AppView::Rules => AppView::Watches,
        AppView::Watches => AppView::Log,
        AppView::Log => AppView::Dashboard,
    }
}

/// The view before `v`.
pub open spec fn prev_view_of(v: AppView) -> AppView {
    match v {
        AppView::Dashboard => AppView::Log,
        AppView::Rules => AppView::Dashboard,
        AppView::Watches => AppView::Rules,
        AppView::Log => AppView::Watches,
    }
}

/// Handles one of the keys that work in every view, and says whether the
/// key was one.
fn handle_global_key(state: &mut AppState, key: KeyEvent) -> (taken: bool)
    requires
        sound(*old(state)),
    ensures
        match global_key(*old(state), key) {
            Some(s) => taken && *final(state) == s,
            None => !taken && *final(state) == *old(state),
        },
        sound(*final(state)),
{
    let control = key.modifiers.control && !key.modifiers.shift && !key.modifiers.other;
    let shift = key.modifiers.shift && !key.modifiers.control && !key.modifiers.other;
    match key.code {
        KeyCode::Char('q') => {
            state.should_quit = true;
            true
        },
        KeyCode::Char('c') => {
            if control {
                state.should_quit = true;
            }
            control
        },
        KeyCode::Char('?') | KeyCode::F(1) => {
            state.mode = Mode::Help;
            state.show_help = true;
            true
        },
        KeyCode::Tab => {
            state.view = state.view.next();
            true
        },
        KeyCode::BackTab => {
            if shift {
                state.view = state.view.prev();
            }
            shift
        },
        KeyCode::Char('1') => {
            state.view = AppView::Dashboard;
            true
        },
        KeyCode::Char('2') => {
            state.view = AppView::Rules;
            true
        },
        KeyCode::Char('3') => {
            state.view = AppView::Watches;
            true
        },
        KeyCode::Char('4') => {
            state.view = AppView::Log;
            true
        },
        KeyCode::Char('t') => {
            state.theme_picker_index = state.theme.index();
            state.original_theme = Some(state.theme);
            state.mode = Mode::ThemePicker;
            true
        },
        KeyCode::Char('s') => {
            state.settings_index = 0;
            state.mode = Mode::Settings;
            true
        },
        KeyCode::Char('A') => {
            state.mode = Mode::About;
            true
        },
        _ => false,
    }
}

/// What a key does, whatever the front-end shows. A dialog that is open
/// gets the key; while an update runs no key does anything; in the normal
/// mode a help text that is open is closed by escape, `?` and enter and
/// swallows every other key; else the keys that work in every view are
/// tried, and what is left goes to the view.
pub open spec fn key_handled(old: AppState, key: KeyEvent, new: AppState, effect: Effect) -> bool {
    match old.mode {
        Mode::ThemePicker => theme_picked(old, key, new, effect),
        Mode::Help => effect == Effect::Nothing && new == (if key.closes_help() {
            AppState { mode: Mode::Normal, show_help: false, ..old }
        } else {
            old
        }),
        Mode::Settings => settings_done(old, key, new, effect),
        Mode::EditRule | Mode::AddRule => rule_editor_done(old, key, new, effect),
        Mode::EditWatch | Mode::AddWatch => watch_editor_done(old, key, new, effect),
        Mode::About => about_done(old, key, new, effect),
        Mode::UpdateConfirm => effect == Effect::Nothing && update_confirmed(old, key, new),
        Mode::Updating => effect == Effect::Nothing && new == old,
        Mode::Normal => if old.show_help {
            effect == Effect::Nothing && new == (if key.closes_help() {
                AppState { show_help: false, ..old }
            } else {
                old
            })
        } else {
            match global_key(old, key) {
                Some(s) => effect == Effect::Nothing && new == s,
                None => match old.view {
                    AppView::Dashboard => effect == Effect::Nothing && dashboard_done(
                        old,
                        key,
                        new,
                    ),
                    AppView::Rules => rules_done(old, key, new, effect),
                    AppView::Watches => watches_done(old, key, new, effect),
                    AppView::Log => effect == Effect::Nothing && log_done(old, key, new),
                },
            }
        },
    }
}

/// Executable form of [`KeyEvent::closes_help`].
fn is_help_close(key: KeyEvent) -> (r: bool)
    ensures
        r == key.closes_help(),
{
    match key.code {
        KeyCode::Esc | KeyCode::Char('?') | KeyCode::Enter => true,
        _ => false,
    }
}

/// Handles a key: changes the state as the key asks and returns the work
/// that is left to the caller.
pub fn handle_key(state: &mut AppState, key: KeyEvent) -> (effect: Effect)
    requires
        sound(*old(state)),
    ensures
        key_handled(*old(state), key, *final(state), effect),
        sound(*final(state)),
{
    match state.mode {
        Mode::ThemePicker => handle_theme_picker_key(state, key),
        Mode::Help => {
            if is_help_close(key) {
                state.mode = Mode::Normal;
                state.show_help = false;
            }
            Effect::Nothing
        },
        Mode::Settings => handle_settings_key(state, key),
        Mode::EditRule | Mode::AddRule => handle_rule_editor_key(state, key),
        Mode::EditWatch | Mode::AddWatch => handle_watch_editor_key(state, key),
        Mode::About => handle_about_key(state, key),
        Mode::UpdateConfirm => {
            handle_update_confirm_key(state, key);
            Effect::Nothing
        },
        Mode::Updating => Effect::Nothing,
        Mode::Normal => {
            if state.show_help {
                if is_help_close(key) {
                    state.show_help = false;
                }
                return Effect::Nothing;
            }
            if handle_global_key(state, key) {
                return Effect::Nothing;
            }
            match state.view {
                AppView::Dashboard => {
                    handle_dashboard_key(state, key);
                    Effect::Nothing
                },
                AppView::Rules => handle_rules_key(state, key),
                AppView::Watches => handle_watches_key(state, key),
                AppView::Log => {
                    handle_log_key(state, key);
                    Effect::Nothing
                },
            }
        },
    }
}

} // verus!
