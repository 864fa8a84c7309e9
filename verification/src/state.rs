//! The state of the interactive front-end that does not depend on how it
//! is drawn: which view and dialog are open, and what the editors of rules
//! and of watched directories hold.

use vstd::prelude::*;
use std::collections::VecDeque;
use crate::config::{Config, WatchConfig};
use crate::logs::{
    entries_from,
    entry_views,
    latest,
    parse_daemon_log_line,
    strip_ansi_codes,
    LogEntry,
    Timestamp,
};
use crate::theme::Theme;
use crate::version::PackageManager;
use crate::paths::opt_view;
use crate::rules::action::{Action, ActionView};
use crate::rules::{Condition, Rule};
use crate::text::{
    decimal_digits,
    from_chars,
    index_of,
    parse_unsigned,
    parsed_unsigned,
    push_decimal,
    push_str,
    same_text,
    split_whitespace,
    substring,
    to_chars,
    views,
    words,
};

verus! {

/// What the keyboard currently acts on.
#[derive(Debug, Clone, Copy, PartialEq, Eq, Structural)]
pub enum Mode {
    /// Moving through the views.
    Normal,
    /// The theme picker.
    ThemePicker,
    /// The help dialog.
    Help,
    /// The settings dialog.
    Settings,
    /// Editing an existing rule.
    EditRule,
    /// Adding a rule.
    AddRule,
    /// Editing an existing watch.
    EditWatch,
    /// Adding a watch.
    AddWatch,
    /// The about dialog.
    About,
    /// Asking whether to update.
    UpdateConfirm,
    /// An update is running.
    Updating,
}

impl Default for Mode {
    fn default() -> (r: Self)
        ensures
            r == Mode::Normal,
    {
        Mode::Normal
    }
}

/// The views of the front-end.
#[derive(Debug, Clone, Copy, PartialEq, Eq, Structural)]
pub enum AppView {
    Dashboard,
    Rules,
    Watches,
    Log,
}

impl Default for AppView {
    fn default() -> (r: Self)
        ensures
            r == AppView::Dashboard,
    {
        AppView::Dashboard
    }
}

impl AppView {
    /// The place of the value in the order of the declaration.
    pub open spec fn index(self) -> int {
        match self {
            AppView::Dashboard => 0,
            AppView::Rules => 1,
            AppView::Watches => 2,
            AppView::Log => 3,
        }
    }

    /// The value that follows; the first follows the last.
    pub fn next(self) -> (r: Self)
        ensures
            r.index() == (self.index() + 1) % 4,
    {
        match self {
            AppView::Dashboard => AppView::Rules,
            AppView::Rules => AppView::Watches,
            AppView::Watches => AppView::Log,
            AppView::Log => AppView::Dashboard,
        }
    }

    /// The value that comes before; the last comes before the first.
    pub fn prev(self) -> (r: Self)
        ensures
            r.index() == (self.index() + 3) % 4,
    {
        match self {
            AppView::Dashboard => AppView::Log,
            AppView::Rules => AppView::Dashboard,
            AppView::Watches => AppView::Rules,
            AppView::Log => AppView::Watches,
        }
    }
}

/// How grave a log entry is.
#[derive(Debug, Clone, Copy, PartialEq, Eq, Structural)]
pub enum LogLevel {
    Info,
    Success,
    Warning,
    Error,
}

/// The entries of the settings dialog.
#[derive(Debug, Clone, Copy, PartialEq, Eq, Structural)]
pub enum SettingsItem {
    DaemonControl,
    AutoStartOnBoot,
    ThemeSelection,
    PollingInterval,
    LogRetention,
    StartupBehavior,
    Notifications,
}

/// The entries of the settings dialog from top to bottom.
pub open spec fn all_settings() -> Seq<SettingsItem> {
    seq![
        SettingsItem::DaemonControl,
        SettingsItem::AutoStartOnBoot,
        SettingsItem::ThemeSelection,
        SettingsItem::PollingInterval,
        SettingsItem::LogRetention,
        SettingsItem::StartupBehavior,
        SettingsItem::Notifications,
    ]
}

impl SettingsItem {
    /// The text that names the entry.
    pub open spec fn label_text(self) -> Seq<char> {
        match self {
            SettingsItem::DaemonControl => "Start/Stop Daemon"@,
            SettingsItem::AutoStartOnBoot => "Auto-start on Boot"@,
            SettingsItem::ThemeSelection => "Theme"@,
            SettingsItem::PollingInterval => "Polling Interval"@,
            SettingsItem::LogRetention => "Log Retention"@,
            SettingsItem::StartupBehavior => "Start Daemon on Launch"@,
            SettingsItem::Notifications => "Notifications"@,
        }
    }

    /// The symbol shown before the entry.
    pub open spec fn icon_text(self) -> Seq<char> {
        match self {
            SettingsItem::DaemonControl => "ðŸ”Œ"@,
            SettingsItem::AutoStartOnBoot => "ðŸ–¥ï¸"@,
            SettingsItem::ThemeSelection => "ðŸŽ¨"@,
            SettingsItem::PollingInterval => "â±"@,
            SettingsItem::LogRetention => "ðŸ“‹"@,
            SettingsItem::StartupBehavior => "ðŸš€"@,
            SettingsItem::Notifications => "ðŸ””"@,
        }
    }

    /// Every entry, from top to bottom.
    pub fn all() -> (r: [SettingsItem; 7])
        ensures
            r@ == all_settings(),
    {
        let r = [
            SettingsItem::DaemonControl,
            SettingsItem::AutoStartOnBoot,
            SettingsItem::ThemeSelection,
            SettingsItem::PollingInterval,
            SettingsItem::LogRetention,
            SettingsItem::StartupBehavior,
            SettingsItem::Notifications,
        ];
        assert(r@ =~= all_settings());
        r
    }

    /// The text that names the entry.
    pub fn label(&self) -> (r: &'static str)
        ensures
            r@ == self.label_text(),
    {
        match self {
            SettingsItem::DaemonControl => "Start/Stop Daemon",
            SettingsItem::AutoStartOnBoot => "Auto-start on Boot",
            SettingsItem::ThemeSelection => "Theme",
            SettingsItem::PollingInterval => "Polling Interval",
            SettingsItem::LogRetention => "Log Retention",
            SettingsItem::StartupBehavior => "Start Daemon on Launch",
            SettingsItem::Notifications => "Notifications",
        }
    }

    /// The symbol shown before the entry.
    pub fn icon(&self) -> (r: &'static str)
        ensures
            r@ == self.icon_text(),
    {
        match self {
            SettingsItem::DaemonControl => "ðŸ”Œ",
            SettingsItem::AutoStartOnBoot => "ðŸ–¥ï¸",
            SettingsItem::ThemeSelection => "ðŸŽ¨",
            SettingsItem::PollingInterval => "â±",
            SettingsItem::LogRetention => "ðŸ“‹",
            SettingsItem::StartupBehavior => "ðŸš€",
            SettingsItem::Notifications => "ðŸ””",
        }
    }
}

/// The fields of the rule editor, in tab order.
#[derive(Debug, Clone, Copy, PartialEq, Eq, Structural)]
pub enum RuleEditorField {
    Name,
    Enabled,
    Extension,
    NameGlob,
    NameRegex,
    SizeGreater,
    SizeLess,
    AgeGreater,
    AgeLess,
    IsDirectory,
    IsHidden,
    ActionType,
    ActionDestination,
    ActionPattern,
    ActionCommand,
    ActionArgs,
}

impl Default for RuleEditorField {
    fn default() -> (r: Self)
        ensures
            r == RuleEditorField::Name,
    {
        RuleEditorField::Name
    }
}

impl RuleEditorField {
    /// The place of the value in the order of the declaration.
    pub open spec fn index(self) -> int {
        match self {
            RuleEditorField::Name => 0,
            RuleEditorField::Enabled => 1,
            RuleEditorField::Extension => 2,
            RuleEditorField::NameGlob => 3,
            RuleEditorField::NameRegex => 4,
            RuleEditorField::SizeGreater => 5,
            RuleEditorField::SizeLess => 6,
            RuleEditorField::AgeGreater => 7,
            RuleEditorField::AgeLess => 8,
            RuleEditorField::IsDirectory => 9,
            RuleEditorField::IsHidden => 10,
            RuleEditorField::ActionType => 11,
            RuleEditorField::ActionDestination => 12,
            RuleEditorField::ActionPattern => 13,
            RuleEditorField::ActionCommand => 14,
            RuleEditorField::ActionArgs => 15,
        }
    }

    /// The value that follows; the first follows the last.
    pub fn next(self) -> (r: Self)
        ensures
            r.index() == (self.index() + 1) % 16,
    {
        match self {
            RuleEditorField::Name => RuleEditorField::Enabled,
            RuleEditorField::Enabled => RuleEditorField::Extension,
            RuleEditorField::Extension => RuleEditorField::NameGlob,
            RuleEditorField::NameGlob => RuleEditorField::NameRegex,
            RuleEditorField::NameRegex => RuleEditorField::SizeGreater,
            RuleEditorField::SizeGreater => RuleEditorField::SizeLess,
            RuleEditorField::SizeLess => RuleEditorField::AgeGreater,
            RuleEditorField::AgeGreater => RuleEditorField::AgeLess,
            RuleEditorField::AgeLess => RuleEditorField::IsDirectory,
            RuleEditorField::IsDirectory => RuleEditorField::IsHidden,
            RuleEditorField::IsHidden => RuleEditorField::ActionType,
            RuleEditorField::ActionType => RuleEditorField::ActionDestination,
            RuleEditorField::ActionDestination => RuleEditorField::ActionPattern,
            RuleEditorField::ActionPattern => RuleEditorField::ActionCommand,
            RuleEditorField::ActionCommand => RuleEditorField::ActionArgs,
            RuleEditorField::ActionArgs => RuleEditorField::Name,
        }
    }

    /// The value that comes before; the last comes before the first.
    pub fn prev(self) -> (r: Self)
        ensures
            r.index() == (self.index() + 15) % 16,
    {
        match self {
            RuleEditorField::Name => RuleEditorField::ActionArgs,
            RuleEditorField::Enabled => RuleEditorField::Name,
            RuleEditorField::Extension => RuleEditorField::Enabled,
            RuleEditorField::NameGlob => RuleEditorField::Extension,
            RuleEditorField::NameRegex => RuleEditorField::NameGlob,
            RuleEditorField::SizeGreater => RuleEditorField::NameRegex,
            RuleEditorField::SizeLess => RuleEditorField::SizeGreater,
            RuleEditorField::AgeGreater => RuleEditorField::SizeLess,
            RuleEditorField::AgeLess => RuleEditorField::AgeGreater,
            RuleEditorField::IsDirectory => RuleEditorField::AgeLess,
            RuleEditorField::IsHidden => RuleEditorField::IsDirectory,
            RuleEditorField::ActionType => RuleEditorField::IsHidden,
            RuleEditorField::ActionDestination => RuleEditorField::ActionType,
            RuleEditorField::ActionPattern => RuleEditorField::ActionDestination,
            RuleEditorField::ActionCommand => RuleEditorField::ActionPattern,
            RuleEditorField::ActionArgs => RuleEditorField::ActionCommand,
        }
    }
}

/// The kinds of action that the rule editor offers.
#[derive(Debug, Clone, Copy, PartialEq, Eq, Structural)]
pub enum ActionTypeSelection {
    Move,
    Copy,
    Rename,
    Trash,
    Delete,
    Run,
    Archive,
    Nothing,
}

impl Default for ActionTypeSelection {
    fn default() -> (r: Self)
        ensures
            r == ActionTypeSelection::Move,
    {
        ActionTypeSelection::Move
    }
}

/// The kinds of action in the order in which the editor offers them.
pub open spec fn all_action_types() -> Seq<ActionTypeSelection> {
    seq![
        ActionTypeSelection::Move,
        ActionTypeSelection::Copy,
        ActionTypeSelection::Rename,
        ActionTypeSelection::Trash,
        ActionTypeSelection::Delete,
        ActionTypeSelection::Run,
        ActionTypeSelection::Archive,
        ActionTypeSelection::Nothing,
    ]
}

impl ActionTypeSelection {
    /// The place of the value in the order of the declaration.
    pub open spec fn index(self) -> int {
        match self {
            ActionTypeSelection::Move => 0,
            ActionTypeSelection::Copy => 1,
            ActionTypeSelection::Rename => 2,
            ActionTypeSelection::Trash => 3,
            ActionTypeSelection::Delete => 4,
            ActionTypeSelection::Run => 5,
            ActionTypeSelection::Archive => 6,
            ActionTypeSelection::Nothing => 7,
        }
    }

    /// The value that follows; the first follows the last.
    pub fn next(self) -> (r: Self)
        ensures
            r.index() == (self.index() + 1) % 8,
    {
        match self {
            ActionTypeSelection::Move => ActionTypeSelection::Copy,
            ActionTypeSelection::Copy => ActionTypeSelection::Rename,
            ActionTypeSelection::Rename => ActionTypeSelection::Trash,
            ActionTypeSelection::Trash => ActionTypeSelection::Delete,
            ActionTypeSelection::Delete => ActionTypeSelection::Run,
            ActionTypeSelection::Run => ActionTypeSelection::Archive,
            ActionTypeSelection::Archive => ActionTypeSelection::Nothing,
            ActionTypeSelection::Nothing => ActionTypeSelection::Move,
        }
    }

    /// The value that comes before; the last comes before the first.
    pub fn prev(self) -> (r: Self)
        ensures
            r.index() == (self.index() + 7) % 8,
    {
        match self {
            ActionTypeSelection::Move => ActionTypeSelection::Nothing,
            ActionTypeSelection::Copy => ActionTypeSelection::Move,
            ActionTypeSelection::Rename => ActionTypeSelection::Copy,
            ActionTypeSelection::Trash => ActionTypeSelection::Rename,
            ActionTypeSelection::Delete => ActionTypeSelection::Trash,
            ActionTypeSelection::Run => ActionTypeSelection::Delete,
            ActionTypeSelection::Archive => ActionTypeSelection::Run,
            ActionTypeSelection::Nothing => ActionTypeSelection::Archive,
        }
    }

    /// The text that names the kind.
    pub open spec fn name_text(self) -> Seq<char> {
        match self {
            ActionTypeSelection::Move => "Move"@,
            ActionTypeSelection::Copy => "Copy"@,
            ActionTypeSelection::Rename => "Rename"@,
            ActionTypeSelection::Trash => "Trash"@,
            ActionTypeSelection::Delete => "Delete"@,
            ActionTypeSelection::Run => "Run Command"@,
            ActionTypeSelection::Archive => "Archive"@,
            ActionTypeSelection::Nothing => "Nothing"@,
        }
    }

    /// Every kind, in the order in which the editor offers them.
    pub fn all() -> (r: [ActionTypeSelection; 8])
        ensures
            r@ == all_action_types(),
    {
        let r = [
            ActionTypeSelection::Move,
            ActionTypeSelection::Copy,
            ActionTypeSelection::Rename,
            ActionTypeSelection::Trash,
            ActionTypeSelection::Delete,
            ActionTypeSelection::Run,
            ActionTypeSelection::Archive,
            ActionTypeSelection::Nothing,
        ];
        assert(r@ =~= all_action_types());
        r
    }

    /// The text that names the kind.
    pub fn name(self) -> (r: &'static str)
        ensures
            r@ == self.name_text(),
    {
        match self {
            ActionTypeSelection::Move => "Move",
            ActionTypeSelection::Copy => "Copy",
            ActionTypeSelection::Rename => "Rename",
            ActionTypeSelection::Trash => "Trash",
            ActionTypeSelection::Delete => "Delete",
            ActionTypeSelection::Run => "Run Command",
            ActionTypeSelection::Archive => "Archive",
            ActionTypeSelection::Nothing => "Nothing",
        }
    }
}

/// The fields of the watch editor, in tab order.
#[derive(Debug, Clone, Copy, PartialEq, Eq, Structural)]
pub enum WatchEditorField {
    Path,
    Recursive,
    Rules,
}

impl Default for WatchEditorField {
    fn default() -> (r: Self)
        ensures
            r == WatchEditorField::Path,
    {
        WatchEditorField::Path
    }
}

impl WatchEditorField {
    /// The place of the value in the order of the declaration.
    pub open spec fn index(self) -> int {
        match self {
            WatchEditorField::Path => 0,
            WatchEditorField::Recursive => 1,
            WatchEditorField::Rules => 2,
        }
    }

    /// The value that follows; the first follows the last.
    pub fn next(self) -> (r: Self)
        ensures
            r.index() == (self.index() + 1) % 3,
    {
        match self {
            WatchEditorField::Path => WatchEditorField::Recursive,
            WatchEditorField::Recursive => WatchEditorField::Rules,
            WatchEditorField::Rules => WatchEditorField::Path,
        }
    }

    /// The value that comes before; the last comes before the first.
    pub fn prev(self) -> (r: Self)
        ensures
            r.index() == (self.index() + 2) % 3,
    {
        match self {
            WatchEditorField::Path => WatchEditorField::Rules,
            WatchEditorField::Recursive => WatchEditorField::Path,
            WatchEditorField::Rules => WatchEditorField::Recursive,
        }
    }
}

/// Going forward and then back in a cycle of fields comes to where one was.
pub proof fn law_field_cycles(f: RuleEditorField, w: WatchEditorField, a: ActionTypeSelection, v: AppView)
    ensures
        (((f.index() + 1) % 16) + 15) % 16 == f.index(),
        (((w.index() + 1) % 3) + 2) % 3 == w.index(),
        (((a.index() + 1) % 8) + 7) % 8 == a.index(),
        (((v.index() + 1) % 4) + 3) % 4 == v.index(),
{
}

/// The first index at which `names` holds `name`, or `-1`.
pub open spec fn first_index_of(names: Seq<Seq<char>>, name: Seq<char>, from: int) -> int
    decreases names.len() - from,
{
    if from < 0 || from >= names.len() {
        -1
    } else if names[from] == name {
        from
    } else {
        first_index_of(names, name, from + 1)
    }
}

/// The names `names` once `name` was toggled: its first occurrence has
/// left, or it has joined at the end.
pub open spec fn toggled(names: Seq<Seq<char>>, name: Seq<char>) -> Seq<Seq<char>> {
    let at = first_index_of(names, name, 0);
    if at >= 0 {
        names.remove(at)
    } else {
        names.push(name)
    }
}

/// What the watch editor holds.
#[derive(Debug, Clone)]
pub struct WatchEditorState {
    /// The field that has the focus.
    pub field: WatchEditorField,
    /// The index of the watch being edited; `None` for a new one.
    pub editing_index: Option<usize>,
    /// The directory to watch.
    pub path: String,
    /// Whether the directories below it are watched too.
    pub recursive: bool,
    /// The names of the rules that apply; empty for all of them.
    pub rules_filter: Vec<String>,
    /// The names of all the rules there are.
    pub available_rules: Vec<String>,
    /// The rule that is highlighted in the list.
    pub rules_cursor: usize,
    /// Where the cursor stands in the path.
    pub cursor_path: usize,
}

impl WatchEditorState {
    /// An editor for a watch that is yet to be added.
    pub fn new_watch(available_rules: Vec<String>) -> (r: Self)
        ensures
            r.field == WatchEditorField::Path,
            r.editing_index is None,
            r.path@.len() == 0,
            !r.recursive,
            r.rules_filter@.len() == 0,
            r.available_rules == available_rules,
            r.rules_cursor == 0,
            r.cursor_path == 0,
    {
        WatchEditorState {
            field: WatchEditorField::Path,
            editing_index: None,
            path: String::new(),
            recursive: false,
            rules_filter: Vec::new(),
            available_rules,
            rules_cursor: 0,
            cursor_path: 0,
        }
    }

    /// An editor for the watch at `index`, with the cursor at the end of
    /// its path.
    pub fn from_watch(index: usize, watch: &WatchConfig, available_rules: Vec<String>) -> (r: Self)
        ensures
            r.field == WatchEditorField::Path,
            r.editing_index == Some(index),
            r.path@ == watch.path@,
            r.recursive == watch.recursive,
            views(r.rules_filter@) == views(watch.rules@),
            r.available_rules == available_rules,
            r.rules_cursor == 0,
            r.cursor_path == vstd::utf8::encode_utf8(watch.path@).len() as usize,
    {
        let path = watch.path.clone();
        let cursor_path = path.as_str().len();
        let rules_filter = crate::rules::action::copy_strings(&watch.rules);
        WatchEditorState {
            field: WatchEditorField::Path,
            editing_index: Some(index),
            path,
            recursive: watch.recursive,
            rules_filter,
            available_rules,
            rules_cursor: 0,
            cursor_path,
        }
    }

    /// Whether the rule named `rule_name` is among the selected ones.
    pub fn is_rule_selected(&self, rule_name: &str) -> (r: bool)
        ensures
            r == views(self.rules_filter@).contains(rule_name@),
    {
        let mut i: usize = 0;
        while i < self.rules_filter.len()
            invariant
                i <= self.rules_filter.len(),
                forall|k: int| 0 <= k < i ==> views(self.rules_filter@)[k] != rule_name@,
            decreases self.rules_filter.len() - i,
        {
            if same_text(self.rules_filter[i].as_str(), rule_name) {
                assert(views(self.rules_filter@)[i as int] == rule_name@);
                return true;
            }
            i += 1;
        }
        false
    }

    /// Selects the rule named `rule_name`, or unselects it where it was
    /// selected: its first occurrence leaves the list, or the name joins
    /// the list at the end.
    pub fn toggle_rule(&mut self, rule_name: &str)
        ensures
            views(final(self).rules_filter@) == toggled(views(old(self).rules_filter@), rule_name@),
            *final(self) == (WatchEditorState {
                rules_filter: final(self).rules_filter,
                ..*old(self)
            }),
    {
        let ghost before = views(self.rules_filter@);
        let mut i: usize = 0;
        while i < self.rules_filter.len()
            invariant
                i <= self.rules_filter.len(),
                *self == *old(self),
                before == views(self.rules_filter@),
                first_index_of(before, rule_name@, 0) == first_index_of(before, rule_name@, i as int),
            decreases self.rules_filter.len() - i,
        {
            if same_text(self.rules_filter[i].as_str(), rule_name) {
                assert(before[i as int] == rule_name@);
                self.rules_filter.remove(i);
                assert(views(self.rules_filter@) =~= before.remove(i as int));
                return ;
            }
            assert(before[i as int] != rule_name@);
            i += 1;
        }
        self.rules_filter.push(rule_name.to_owned());
        assert(views(self.rules_filter@) =~= before.push(rule_name@));
    }

    /// `w` is the watch that the editor describes.
    pub open spec fn describes(&self, w: &WatchConfig) -> bool {
        &&& w.path@ == self.path@
        &&& w.recursive == self.recursive
        &&& views(w.rules@) == views(self.rules_filter@)
    }

    /// The watch that the editor describes.
    pub fn to_watch(&self) -> (r: WatchConfig)
        ensures
            self.describes(&r),
    {
        WatchConfig {
            path: self.path.clone(),
            recursive: self.recursive,
            rules: crate::rules::action::copy_strings(&self.rules_filter),
        }
    }
}

/// The words that `shlex::split` reads in a command line, as a shell
/// would; `None` where the line is not well formed.
pub uninterp spec fn shell_words(line: Seq<char>) -> Option<Seq<Seq<char>>>;

/// The command line that `shlex::try_join` writes for the given words, from
/// which a shell reads the same words back; `None` where a word cannot be
/// written.
pub uninterp spec fn shell_line(words: Seq<Seq<char>>) -> Option<Seq<char>>;

/// `shlex::split`: the words of a command line, with quotes and escapes
/// read as a shell reads them, or `None` where the line is not well formed.
#[verifier::external_body]
fn split_shell_words(line: &str) -> (r: Option<Vec<String>>)
    ensures
        (match r {
            Some(v) => Some(views(v@)),
            None => None,
        }) == shell_words(line@),
{
    shlex::split(line)
}

/// `shlex::try_join`: one command line for the given words, quoted where a
/// shell needs it, or `None` where a word cannot be written.
#[verifier::external_body]
fn join_shell_words(words: &Vec<String>) -> (r: Option<String>)
    ensures
        opt_view(r) == shell_line(views(words@)),
{
    shlex::try_join(words.iter().map(|s| s.as_str())).ok()
}

/// The first `n` of `parts`, each followed by a space but the last.
pub open spec fn spaced(parts: Seq<Seq<char>>, n: int) -> Seq<char>
    decreases n,
{
    if n <= 0 {
        Seq::empty()
    } else if n == 1 {
        parts[0]
    } else {
        spaced(parts, n - 1) + seq![' '] + parts[n - 1]
    }
}

/// The arguments of a command as the editor shows them: one command line,
/// or the arguments with spaces between them where no line can be written.
pub open spec fn args_text(args: Seq<Seq<char>>) -> Seq<char> {
    match shell_line(args) {
        Some(line) => line,
        None => spaced(args, args.len() as int),
    }
}

/// The arguments that the editor's text stands for: its words as a shell
/// reads them, or its words at white space where the text is not well
/// formed.
pub open spec fn text_args(text: Seq<char>) -> Seq<Seq<char>> {
    match shell_words(text) {
        Some(w) => w,
        None => words(text),
    }
}

/// The text of a field that may be left empty.
pub open spec fn filled(text: Seq<char>) -> Option<Seq<char>> {
    if text.len() == 0 {
        None
    } else {
        Some(text)
    }
}

/// The number that a field holds, if it holds one.
pub open spec fn number_in(text: Seq<char>) -> Option<u64> {
    match parsed_unsigned(text, u64::MAX as nat) {
        Some(n) => Some(n as u64),
        None => None,
    }
}

/// The text that the editor shows for an optional number.
pub open spec fn number_text(n: Option<u64>) -> Seq<char> {
    match n {
        Some(v) => decimal_digits(v as nat),
        None => Seq::empty(),
    }
}

/// The text of an optional string, empty where there is none.
pub open spec fn text_or_empty(s: Option<String>) -> Seq<char> {
    match s {
        Some(t) => t@,
        None => Seq::empty(),
    }
}

/// The number of bytes of `s` in UTF-8, which is where the cursor stands
/// at the end of a field.
pub open spec fn end_of(s: Seq<char>) -> usize {
    vstd::utf8::encode_utf8(s).len() as usize
}

/// What the rule editor holds.
#[derive(Debug, Clone)]
pub struct RuleEditorState {
    /// The field that has the focus.
    pub field: RuleEditorField,
    /// The index of the rule being edited; `None` for a new one.
    pub editing_index: Option<usize>,
    pub name: String,
    pub enabled: bool,
    pub stop_processing: bool,
    pub extension: String,
    pub name_glob: String,
    pub name_regex: String,
    pub size_greater: String,
    pub size_less: String,
    pub age_greater: String,
    pub age_less: String,
    pub is_directory: Option<bool>,
    pub is_hidden: Option<bool>,
    pub action_type: ActionTypeSelection,
    pub action_destination: String,
    pub action_pattern: String,
    pub action_command: String,
    pub action_args: String,
    pub action_overwrite: bool,
    pub action_delete_original: bool,
    pub cursor_name: usize,
    pub cursor_extension: usize,
    pub cursor_name_glob: usize,
    pub cursor_name_regex: usize,
    pub cursor_size_greater: usize,
    pub cursor_size_less: usize,
    pub cursor_age_greater: usize,
    pub cursor_age_less: usize,
    pub cursor_action_destination: usize,
    pub cursor_action_pattern: usize,
    pub cursor_action_command: usize,
    pub cursor_action_args: usize,
}

/// What the editor shows of an action: its kind, destination, pattern,
/// command, arguments, and whether it overwrites and deletes the original.
pub struct ActionFields {
    pub kind: ActionTypeSelection,
    pub destination: Seq<char>,
    pub pattern: Seq<char>,
    pub command: Seq<char>,
    pub args: Seq<char>,
    pub overwrite: bool,
    pub delete_original: bool,
}

impl ActionFields {
    /// Two sets of fields show the same.
    pub open spec fn agrees(self, other: ActionFields) -> bool {
        &&& self.kind == other.kind
        &&& self.destination =~= other.destination
        &&& self.pattern =~= other.pattern
        &&& self.command =~= other.command
        &&& self.args =~= other.args
        &&& self.overwrite == other.overwrite
        &&& self.delete_original == other.delete_original
    }
}

/// Fields that show nothing, for an action of the given kind.
pub open spec fn no_fields(kind: ActionTypeSelection) -> ActionFields {
    ActionFields {
        kind,
        destination: Seq::empty(),
        pattern: Seq::empty(),
        command: Seq::empty(),
        args: Seq::empty(),
        overwrite: false,
        delete_original: false,
    }
}

/// What the editor shows of `action`.
pub open spec fn fields_of(action: ActionView) -> ActionFields {
    match action {
        ActionView::Move { destination, create_destination, overwrite } => ActionFields {
            destination,
            overwrite,
            ..no_fields(ActionTypeSelection::Move)
        },
        ActionView::Copy { destination, create_destination, overwrite } => ActionFields {
            destination,
            overwrite,
            ..no_fields(ActionTypeSelection::Copy)
        },
        ActionView::Rename { pattern } => ActionFields {
            pattern,
            ..no_fields(ActionTypeSelection::Rename)
        },
        ActionView::Trash => no_fields(ActionTypeSelection::Trash),
        ActionView::Delete => no_fields(ActionTypeSelection::Delete),
        ActionView::Run { command, args } => ActionFields {
            command,
            args: args_text(args),
            ..no_fields(ActionTypeSelection::Run)
        },
        ActionView::Archive { destination, delete_original } => ActionFields {
            destination: match destination {
                Some(d) => d,
                None => Seq::empty(),
            },
            delete_original,
            ..no_fields(ActionTypeSelection::Archive)
        },
        ActionView::Nothing => no_fields(ActionTypeSelection::Nothing),
    }
}

impl RuleEditorState {
    /// What the editor shows of the action.
    pub open spec fn action_fields(&self) -> ActionFields {
        ActionFields {
            kind: self.action_type,
            destination: self.action_destination@,
            pattern: self.action_pattern@,
            command: self.action_command@,
            args: self.action_args@,
            overwrite: self.action_overwrite,
            delete_original: self.action_delete_original,
        }
    }

    /// The action that the editor describes. A move or a copy creates its
    /// destination.
    pub open spec fn action_view(&self) -> ActionView {
        match self.action_type {
            ActionTypeSelection::Move => ActionView::Move {
                destination: self.action_destination@,
                create_destination: true,
                overwrite: self.action_overwrite,
            },
            ActionTypeSelection::Copy => ActionView::Copy {
                destination: self.action_destination@,
                create_destination: true,
                overwrite: self.action_overwrite,
            },
            ActionTypeSelection::Rename => ActionView::Rename { pattern: self.action_pattern@ },
            ActionTypeSelection::Trash => ActionView::Trash,
            ActionTypeSelection::Delete => ActionView::Delete,
            ActionTypeSelection::Run => ActionView::Run {
                command: self.action_command@,
                args: text_args(self.action_args@),
            },
            ActionTypeSelection::Archive => ActionView::Archive {
                destination: filled(self.action_destination@),
                delete_original: self.action_delete_original,
            },
            ActionTypeSelection::Nothing => ActionView::Nothing,
        }
    }

    /// Every text field is empty and every cursor stands at the beginning.
    pub open spec fn is_blank(&self) -> bool {
        &&& self.name@.len() == 0
        &&& self.extension@.len() == 0
        &&& self.name_glob@.len() == 0
        &&& self.name_regex@.len() == 0
        &&& self.size_greater@.len() == 0
        &&& self.size_less@.len() == 0
        &&& self.age_greater@.len() == 0
        &&& self.age_less@.len() == 0
        &&& self.action_destination@.len() == 0
        &&& self.action_pattern@.len() == 0
        &&& self.action_command@.len() == 0
        &&& self.action_args@.len() == 0
        &&& self.cursor_name == 0
        &&& self.cursor_extension == 0
        &&& self.cursor_name_glob == 0
        &&& self.cursor_name_regex == 0
        &&& self.cursor_size_greater == 0
        &&& self.cursor_size_less == 0
        &&& self.cursor_age_greater == 0
        &&& self.cursor_age_less == 0
        &&& self.cursor_action_destination == 0
        &&& self.cursor_action_pattern == 0
        &&& self.cursor_action_command == 0
        &&& self.cursor_action_args == 0
        &&& self.field == RuleEditorField::Name
        &&& self.editing_index is None
        &&& !self.stop_processing
        &&& self.is_directory is None
        &&& self.is_hidden is None
        &&& self.action_type == ActionTypeSelection::Move
        &&& !self.action_overwrite
        &&& !self.action_delete_original
    }

    /// The editor shows `rule`, with each cursor at the end of its field.
    pub open spec fn shows(&self, rule: &Rule) -> bool {
        &&& self.name@ == rule.name@
        &&& self.enabled == rule.enabled
        &&& self.stop_processing == rule.stop_processing
        &&& self.extension@ == text_or_empty(rule.condition.extension)
        &&& self.name_glob@ == text_or_empty(rule.condition.name_matches)
        &&& self.name_regex@ == text_or_empty(rule.condition.name_regex)
        &&& self.size_greater@ == number_text(rule.condition.size_greater_than)
        &&& self.size_less@ == number_text(rule.condition.size_less_than)
        &&& self.age_greater@ == number_text(rule.condition.age_days_greater_than)
        &&& self.age_less@ == number_text(rule.condition.age_days_less_than)
        &&& self.is_directory == rule.condition.is_directory
        &&& self.is_hidden == rule.condition.is_hidden
        &&& self.action_fields().agrees(fields_of(rule.action@))
        &&& self.cursor_name == end_of(self.name@)
        &&& self.cursor_extension == end_of(self.extension@)
        &&& self.cursor_name_glob == end_of(self.name_glob@)
        &&& self.cursor_name_regex == end_of(self.name_regex@)
        &&& self.cursor_size_greater == end_of(self.size_greater@)
        &&& self.cursor_size_less == end_of(self.size_less@)
        &&& self.cursor_age_greater == end_of(self.age_greater@)
        &&& self.cursor_age_less == end_of(self.age_less@)
        &&& self.cursor_action_destination == end_of(self.action_destination@)
        &&& self.cursor_action_pattern == end_of(self.action_pattern@)
        &&& self.cursor_action_command == end_of(self.action_command@)
        &&& self.cursor_action_args == end_of(self.action_args@)
    }

    /// `r` is the rule that the editor describes. A field that is empty, or
    /// that holds no number where one is asked for, stands for no test.
    pub open spec fn describes(&self, r: &Rule) -> bool {
        &&& r.name@ == self.name@
        &&& r.enabled == self.enabled
        &&& r.stop_processing == self.stop_processing
        &&& opt_view(r.condition.extension) == filled(self.extension@)
        &&& r.condition.extensions@.len() == 0
        &&& opt_view(r.condition.name_matches) == filled(self.name_glob@)
        &&& opt_view(r.condition.name_regex) == filled(self.name_regex@)
        &&& r.condition.size_greater_than == number_in(self.size_greater@)
        &&& r.condition.size_less_than == number_in(self.size_less@)
        &&& r.condition.age_days_greater_than == number_in(self.age_greater@)
        &&& r.condition.age_days_less_than == number_in(self.age_less@)
        &&& r.condition.is_directory == self.is_directory
        &&& r.condition.is_hidden == self.is_hidden
        &&& r.action@ == self.action_view()
    }

    /// An editor for a rule that is yet to be added: empty, but for the
    /// rule being enabled.
    pub fn new_rule() -> (r: Self)
        ensures
            r.is_blank(),
            r.enabled,
    {
        RuleEditorState {
            field: RuleEditorField::Name,
            editing_index: None,
            name: String::new(),
            enabled: true,
            stop_processing: false,
            extension: String::new(),
            name_glob: String::new(),
            name_regex: String::new(),
            size_greater: String::new(),
            size_less: String::new(),
            age_greater: String::new(),
            age_less: String::new(),
            is_directory: None,
            is_hidden: None,
            action_type: ActionTypeSelection::Move,
            action_destination: String::new(),
            action_pattern: String::new(),
            action_command: String::new(),
            action_args: String::new(),
            action_overwrite: false,
            action_delete_original: false,
            cursor_name: 0,
            cursor_extension: 0,
            cursor_name_glob: 0,
            cursor_name_regex: 0,
            cursor_size_greater: 0,
            cursor_size_less: 0,
            cursor_age_greater: 0,
            cursor_age_less: 0,
            cursor_action_destination: 0,
            cursor_action_pattern: 0,
            cursor_action_command: 0,
            cursor_action_args: 0,
        }
    }

    /// An editor for the rule at `index`, with each cursor at the end of
    /// its field.
    pub fn from_rule(index: usize, rule: &Rule) -> (r: Self)
        ensures
            r.shows(rule),
            r.field == RuleEditorField::Name,
            r.editing_index == Some(index),
    {
        let mut e = Self::new_rule();
        e.editing_index = Some(index);
        e.name = rule.name.clone();
        e.enabled = rule.enabled;
        e.stop_processing = rule.stop_processing;
        e.extension = text_of(&rule.condition.extension);
        e.name_glob = text_of(&rule.condition.name_matches);
        e.name_regex = text_of(&rule.condition.name_regex);
        e.size_greater = write_number(rule.condition.size_greater_than);
        e.size_less = write_number(rule.condition.size_less_than);
        e.age_greater = write_number(rule.condition.age_days_greater_than);
        e.age_less = write_number(rule.condition.age_days_less_than);
        e.is_directory = rule.condition.is_directory;
        e.is_hidden = rule.condition.is_hidden;
        match &rule.action {
            Action::Move { destination, overwrite, .. } => {
                e.action_type = ActionTypeSelection::Move;
                e.action_destination = destination.clone();
                e.action_overwrite = *overwrite;
            },
            Action::Copy { destination, overwrite, .. } => {
                e.action_type = ActionTypeSelection::Copy;
                e.action_destination = destination.clone();
                e.action_overwrite = *overwrite;
            },
            Action::Rename { pattern } => {
                e.action_type = ActionTypeSelection::Rename;
                e.action_pattern = pattern.clone();
            },
            Action::Trash => {
                e.action_type = ActionTypeSelection::Trash;
            },
            Action::Delete => {
                e.action_type = ActionTypeSelection::Delete;
            },
            Action::Run { command, args } => {
                e.action_type = ActionTypeSelection::Run;
                e.action_command = command.clone();
                e.action_args = match join_shell_words(args) {
                    Some(line) => line,
                    None => join_with_spaces(args),
                };
            },
            Action::Archive { destination, delete_original } => {
                e.action_type = ActionTypeSelection::Archive;
                e.action_destination = text_of(destination);
                e.action_delete_original = *delete_original;
            },
            Action::Nothing => {
                e.action_type = ActionTypeSelection::Nothing;
            },
        }
        e.cursor_name = e.name.as_str().len();
        e.cursor_extension = e.extension.as_str().len();
        e.cursor_name_glob = e.name_glob.as_str().len();
        e.cursor_name_regex = e.name_regex.as_str().len();
        e.cursor_size_greater = e.size_greater.as_str().len();
        e.cursor_size_less = e.size_less.as_str().len();
        e.cursor_age_greater = e.age_greater.as_str().len();
        e.cursor_age_less = e.age_less.as_str().len();
        e.cursor_action_destination = e.action_destination.as_str().len();
        e.cursor_action_pattern = e.action_pattern.as_str().len();
        e.cursor_action_command = e.action_command.as_str().len();
        e.cursor_action_args = e.action_args.as_str().len();
        e
    }

    /// The rule that the editor describes. A field that is empty, or that
    /// holds no number where one is asked for, stands for no test.
    pub fn to_rule(&self) -> (r: Rule)
        ensures
            self.describes(&r),
    {
        let condition = Condition {
            extension: some_if_filled(&self.extension),
            extensions: Vec::new(),
            name_matches: some_if_filled(&self.name_glob),
            name_regex: some_if_filled(&self.name_regex),
            size_greater_than: read_number(&self.size_greater),
            size_less_than: read_number(&self.size_less),
            age_days_greater_than: read_number(&self.age_greater),
            age_days_less_than: read_number(&self.age_less),
            is_directory: self.is_directory,
            is_hidden: self.is_hidden,
        };
        let action = match self.action_type {
            ActionTypeSelection::Move => Action::Move {
                destination: self.action_destination.clone(),
                create_destination: true,
                overwrite: self.action_overwrite,
            },
            ActionTypeSelection::Copy => Action::Copy {
                destination: self.action_destination.clone(),
                create_destination: true,
                overwrite: self.action_overwrite,
            },
            ActionTypeSelection::Rename => Action::Rename { pattern: self.action_pattern.clone() },
            ActionTypeSelection::Trash => Action::Trash,
            ActionTypeSelection::Delete => Action::Delete,
            ActionTypeSelection::Run => Action::Run {
                command: self.action_command.clone(),
                args: match split_shell_words(self.action_args.as_str()) {
                    Some(w) => w,
                    None => split_whitespace(&to_chars(self.action_args.as_str())),
                },
            },
            ActionTypeSelection::Archive => Action::Archive {
                destination: some_if_filled(&self.action_destination),
                delete_original: self.action_delete_original,
            },
            ActionTypeSelection::Nothing => Action::Nothing,
        };
        Rule {
            name: self.name.clone(),
            enabled: self.enabled,
            condition,
            action,
            stop_processing: self.stop_processing,
        }
    }
}

/// The text of an optional string, empty where there is none.
fn text_of(s: &Option<String>) -> (r: String)
    ensures
        r@ == text_or_empty(*s),
{
    match s {
        Some(t) => t.clone(),
        None => String::new(),
    }
}

/// The text of a field, unless it is empty.
fn some_if_filled(s: &String) -> (r: Option<String>)
    ensures
        opt_view(r) == filled(s@),
{
    if s.as_str().unicode_len() == 0 {
        None
    } else {
        Some(s.clone())
    }
}

/// The text that the editor shows for an optional number.
fn write_number(n: Option<u64>) -> (r: String)
    ensures
        r@ == number_text(n),
{
    match n {
        Some(v) => {
            let mut out: Vec<char> = Vec::new();
            push_decimal(&mut out, v);
            from_chars(&out)
        },
        None => String::new(),
    }
}

/// The number that a field holds, if it holds one.
fn read_number(s: &String) -> (r: Option<u64>)
    ensures
        r == number_in(s@),
{
    parse_unsigned(&to_chars(s.as_str()), u64::MAX)
}

/// The strings of `parts` with one space between each two.
pub fn join_with_spaces(parts: &Vec<String>) -> (r: String)
    ensures
        r@ == spaced(views(parts@), parts@.len() as int),
{
    let mut out: Vec<char> = Vec::new();
    let mut i: usize = 0;
    while i < parts.len()
        invariant
            i <= parts.len(),
            out@ == spaced(views(parts@), i as int),
        decreases parts.len() - i,
    {
        if i > 0 {
            out.push(' ');
        }
        let ghost before = out@;
        push_str(&mut out, parts[i].as_str());
        assert(views(parts@)[i as int] == parts@[i as int]@);
        assert(out@ =~= spaced(views(parts@), i + 1));
        i += 1;
    }
    from_chars(&out)
}

/// A key as an input field sees it.
#[derive(Debug, Clone, Copy, PartialEq, Eq, Structural)]
pub enum EditKey {
    /// A character to insert.
    Char(char),
    /// Remove the character before the cursor.
    Backspace,
    /// Remove the character at the cursor.
    Delete,
    /// Move the cursor one character to the left.
    Left,
    /// Move the cursor one character to the right.
    Right,
    /// Move the cursor to the beginning.
    Home,
    /// Move the cursor to the end.
    End,
    /// Any other key.
    Other,
}

/// The place in `text` that the cursor stands for: the cursor itself, or
/// the end of the text where the cursor lies beyond it.
pub open spec fn place(text: Seq<char>, cursor: usize) -> int {
    if cursor <= text.len() {
        cursor as int
    } else {
        text.len() as int
    }
}

/// The text of a field and its cursor after `key`. In a field for numbers
/// only digits are inserted.
pub open spec fn edited(text: Seq<char>, cursor: usize, key: EditKey, numeric: bool) -> (
    Seq<char>,
    usize,
) {
    match key {
        EditKey::Char(c) => if (numeric && !('0' <= c && c <= '9')) || cursor == usize::MAX {
            (text, cursor)
        } else {
            (text.insert(place(text, cursor), c), (cursor + 1) as usize)
        },
        EditKey::Backspace => if cursor == 0 {
            (text, cursor)
        } else if cursor - 1 < text.len() {
            (text.remove(cursor - 1), (cursor - 1) as usize)
        } else {
            (text, (cursor - 1) as usize)
        },
        EditKey::Delete => if cursor < text.len() {
            (text.remove(cursor as int), cursor)
        } else {
            (text, cursor)
        },
        EditKey::Left => if cursor > 0 {
            (text, (cursor - 1) as usize)
        } else {
            (text, cursor)
        },
        EditKey::Right => if cursor < text.len() {
            (text, (cursor + 1) as usize)
        } else {
            (text, cursor)
        },
        EditKey::Home => (text, 0),
        EditKey::End => (text, text.len() as usize),
        EditKey::Other => (text, cursor),
    }
}

/// Applies `key` to the field `input` with its cursor.
fn edit(input: &mut String, cursor: &mut usize, key: EditKey, numeric: bool)
    ensures
        (final(input)@, *final(cursor)) == edited(old(input)@, *old(cursor), key, numeric),
{
    let mut text = to_chars(input.as_str());
    let len = text.len();
    match key {
        EditKey::Char(c) => {
            if (numeric && !('0' <= c && c <= '9')) || *cursor == usize::MAX {
                return ;
            }
            let at = if *cursor <= len {
                *cursor
            } else {
                len
            };
            text.insert(at, c);
            *cursor = *cursor + 1;
        },
        EditKey::Backspace => {
            if *cursor == 0 {
                return ;
            }
            *cursor = *cursor - 1;
            if *cursor < len {
                text.remove(*cursor);
            }
        },
        EditKey::Delete => {
            if *cursor < len {
                text.remove(*cursor);
            }
        },
        EditKey::Left => {
            if *cursor > 0 {
                *cursor = *cursor - 1;
            }
        },
        EditKey::Right => {
            if *cursor < len {
                *cursor = *cursor + 1;
            }
        },
        EditKey::Home => {
            *cursor = 0;
        },
        EditKey::End => {
            *cursor = len;
        },
        EditKey::Other => {},
    }
    *input = from_chars(&text);
}

/// Applies `key` to a field of text: characters are inserted at the
/// cursor, which counts characters.
pub fn handle_text_input(input: &mut String, cursor: &mut usize, key: EditKey)
    ensures
        (final(input)@, *final(cursor)) == edited(old(input)@, *old(cursor), key, false),
{
    edit(input, cursor, key, false)
}

/// Applies `key` to a field for a number: as for text, but only digits are
/// inserted.
pub fn handle_numeric_input(input: &mut String, cursor: &mut usize, key: EditKey)
    ensures
        (final(input)@, *final(cursor)) == edited(old(input)@, *old(cursor), key, true),
{
    edit(input, cursor, key, true)
}

/// The least index from `from` on at which `values` holds a value above
/// `current`, or above or equal to it where `inclusive` holds; the length
/// of `values` where there is none.
pub open spec fn first_above(values: Seq<u64>, current: u64, inclusive: bool, from: int) -> int
    decreases values.len() - from,
{
    if from < 0 || from >= values.len() {
        values.len() as int
    } else if values[from] > current || (inclusive && values[from] == current) {
        from
    } else {
        first_above(values, current, inclusive, from + 1)
    }
}

/// The value that follows `current` when a setting is cycled through
/// `values`: the first value above it, or the first of all.
pub open spec fn cycled(values: Seq<u64>, current: u64) -> u64 {
    let i = first_above(values, current, false, 0);
    if i < values.len() {
        values[i]
    } else {
        values[0]
    }
}

/// The value one step up or down from `current` in `values`, which does
/// not go beyond the first and the last.
pub open spec fn stepped(values: Seq<u64>, current: u64, increase: bool) -> u64 {
    let found = first_above(values, current, true, 0);
    let at = if found < values.len() {
        found
    } else {
        values.len() - 1
    };
    if increase {
        if at + 1 < values.len() {
            values[at + 1]
        } else {
            values[at]
        }
    } else if at > 0 {
        values[at - 1]
    } else {
        values[at]
    }
}

/// Executable form of [`first_above`].
fn find_above(values: &[u64], current: u64, inclusive: bool) -> (r: usize)
    ensures
        r as int == first_above(values@, current, inclusive, 0),
        r <= values@.len(),
{
    let mut i: usize = 0;
    while i < values.len()
        invariant
            i <= values.len(),
            first_above(values@, current, inclusive, 0) == first_above(
                values@,
                current,
                inclusive,
                i as int,
            ),
        decreases values.len() - i,
    {
        if values[i] > current || (inclusive && values[i] == current) {
            return i;
        }
        i += 1;
    }
    i
}

/// Cycles a setting through `values`: the first value above `current`, or
/// the first of all where there is none.
pub fn cycle_setting(values: &[u64], current: u64) -> (r: u64)
    requires
        values@.len() > 0,
    ensures
        r == cycled(values@, current),
{
    let i = find_above(values, current, false);
    if i < values.len() {
        values[i]
    } else {
        values[0]
    }
}

/// Moves a setting one step up or down in `values`.
pub fn step_setting(values: &[u64], current: u64, increase: bool) -> (r: u64)
    requires
        values@.len() > 0,
    ensures
        r == stepped(values@, current, increase),
{
    let found = find_above(values, current, true);
    let at = if found < values.len() {
        found
    } else {
        values.len() - 1
    };
    if increase {
        if at + 1 < values.len() {
            values[at + 1]
        } else {
            values[at]
        }
    } else if at > 0 {
        values[at - 1]
    } else {
        values[at]
    }
}

/// The polling intervals, in seconds, that the settings offer.
pub fn polling_intervals() -> (r: [u64; 6])
    ensures
        r@ == seq![1u64, 2, 5, 10, 30, 60],
{
    let r = [1u64, 2, 5, 10, 30, 60];
    assert(r@ =~= seq![1u64, 2, 5, 10, 30, 60]);
    r
}

/// The numbers of log entries to keep that the settings offer.
pub fn log_retentions() -> (r: [u64; 5])
    ensures
        r@ == seq![100u64, 500, 1000, 5000, 10000],
{
    let r = [100u64, 500, 1000, 5000, 10000];
    assert(r@ =~= seq![100u64, 500, 1000, 5000, 10000]);
    r
}

/// The most entries that the activity log holds.
pub const MAX_LOG_ENTRIES: usize = 1000;

/// After how many frames the daemon's log is read again.
pub const LOG_REFRESH_FRAMES: u64 = 20;

/// The state of the front-end.
#[derive(Debug)]
pub struct AppState {
    /// The view that is open.
    pub view: AppView,
    /// What the keyboard acts on.
    pub mode: Mode,
    /// The configuration.
    pub config: Config,
    /// The colour theme.
    pub theme: Theme,
    /// The index of the selected rule, in the view of the rules.
    pub selected_rule: Option<usize>,
    /// The index of the selected watch, in the view of the watches.
    pub selected_watch: Option<usize>,
    /// The activity log, oldest entry first.
    pub log_entries: VecDeque<LogEntry>,
    /// Whether the front-end is to quit.
    pub should_quit: bool,
    /// A message for the status line.
    pub status_message: Option<String>,
    /// How far the log is scrolled.
    pub log_scroll: usize,
    /// Whether the help is shown.
    pub show_help: bool,
    /// The number of frames drawn, which wraps around.
    pub frame: u64,
    /// The theme that is highlighted in the theme picker.
    pub theme_picker_index: usize,
    /// The entry that is highlighted in the settings.
    pub settings_index: usize,
    /// Whether the daemon runs.
    pub daemon_running: bool,
    /// The rule editor, while it is open.
    pub rule_editor: Option<RuleEditorState>,
    /// The watch editor, while it is open.
    pub watch_editor: Option<WatchEditorState>,
    /// The version that can be updated to, where there is one.
    pub update_available: Option<String>,
    /// How the program was installed.
    pub package_manager: PackageManager,
    /// How the update went.
    pub update_status: Option<String>,
    /// The theme that was in use when the theme picker was opened.
    pub original_theme: Option<Theme>,
    /// Whether an update is to be run on the next turn.
    pub pending_update: bool,
    /// How far the daemon's log was read.
    pub log_file_position: u64,
    /// Whether the embedded watcher is to be started again.
    pub watcher_needs_restart: bool,
}

/// The activity log after one more entry: the entry stands last, and the
/// oldest entry is dropped where the log would outgrow
/// [`MAX_LOG_ENTRIES`].
pub open spec fn logged(before: Seq<LogEntry>, after: Seq<LogEntry>) -> bool {
    if before.len() >= MAX_LOG_ENTRIES {
        after.len() == before.len() && after.drop_last() == before.subrange(
            1,
            before.len() as int,
        )
    } else {
        after.len() == before.len() + 1 && after.drop_last() == before
    }
}

/// The entry says `message` at `level`, and was made at `now`.
pub open spec fn says(e: LogEntry, level: LogLevel, message: Seq<char>, now: Timestamp) -> bool {
    e.level == level && e.message@ == message && e.timestamp == now && e.file is None && e.rule
        is None
}

/// What the activity log says first.
pub open spec fn greeting() -> Seq<char> {
    "\u{f0}\u{178}\u{152}\u{b0} Hazelnut started"@
}

/// What the activity log says of a configuration with so many rules and
/// watches.
pub open spec fn loaded_text(rules: nat, watches: nat) -> Seq<char> {
    "Loaded "@ + decimal_digits(rules) + " rules, "@ + decimal_digits(watches)
        + " watch folders"@
}

impl AppState {
    /// The state at the start of the front-end, with two entries in the
    /// activity log: that the program has started, and how many rules and
    /// watches the configuration holds.
    pub fn new(
        config: Config,
        theme: Theme,
        daemon_running: bool,
        package_manager: PackageManager,
        now: Timestamp,
    ) -> (r: Self)
        ensures
            r.view == AppView::Dashboard,
            r.mode == Mode::Normal,
            r.config == config,
            r.theme == theme,
            r.theme_picker_index == theme.position(),
            r.daemon_running == daemon_running,
            r.package_manager == package_manager,
            r.selected_rule is None && r.selected_watch is None,
            r.rule_editor is None && r.watch_editor is None,
            r.status_message is None && r.update_available is None && r.update_status is None,
            !r.should_quit && !r.show_help && !r.pending_update && !r.watcher_needs_restart,
            r.frame == 0 && r.log_scroll == 0 && r.settings_index == 0 && r.log_file_position == 0,
            r.log_entries@.len() == 2,
            says(r.log_entries@[0], LogLevel::Info, greeting(), now),
            says(
                r.log_entries@[1],
                LogLevel::Info,
                loaded_text(config.rules@.len(), config.watches@.len()),
                now,
            ),
    {
        let mut loaded: Vec<char> = Vec::new();
        push_str(&mut loaded, "Loaded ");
        push_decimal(&mut loaded, config.rules.len() as u64);
        push_str(&mut loaded, " rules, ");
        push_decimal(&mut loaded, config.watches.len() as u64);
        push_str(&mut loaded, " watch folders");
        let theme_picker_index: usize = match theme {
            Theme::Catppuccin => 0,
            Theme::Dracula => 1,
            Theme::Nord => 2,
            Theme::Gruvbox => 3,
            Theme::TokyoNight => 4,
            Theme::Monokai => 5,
            Theme::Ocean => 6,
            Theme::Sunset => 7,
        };
        let mut state = AppState {
            view: AppView::Dashboard,
            mode: Mode::Normal,
            config,
            theme,
            selected_rule: None,
            selected_watch: None,
            log_entries: VecDeque::new(),
            should_quit: false,
            status_message: None,
            log_scroll: 0,
            show_help: false,
            frame: 0,
            theme_picker_index,
            settings_index: 0,
            daemon_running,
            rule_editor: None,
            watch_editor: None,
            update_available: None,
            package_manager,
            update_status: None,
            original_theme: None,
            pending_update: false,
            log_file_position: 0,
            watcher_needs_restart: false,
        };
        state.log(LogLevel::Info, "\u{f0}\u{178}\u{152}\u{b0} Hazelnut started", now);
        let ghost first = state.log_entries@;
        state.log(LogLevel::Info, from_chars(&loaded).as_str(), now);
        assert(state.log_entries@.drop_last() == first);
        assert(state.log_entries@[0] == first[0]);
        state
    }

    /// Everything but the activity log is as in `before`.
    pub open spec fn same_but_log(&self, before: AppState) -> bool {
        &&& self.view == before.view
        &&& self.mode == before.mode
        &&& self.config == before.config
        &&& self.theme == before.theme
        &&& self.selected_rule == before.selected_rule
        &&& self.selected_watch == before.selected_watch
        &&& self.should_quit == before.should_quit
        &&& self.status_message == before.status_message
        &&& self.log_scroll == before.log_scroll
        &&& self.show_help == before.show_help
        &&& self.frame == before.frame
        &&& self.theme_picker_index == before.theme_picker_index
        &&& self.settings_index == before.settings_index
        &&& self.daemon_running == before.daemon_running
        &&& self.rule_editor == before.rule_editor
        &&& self.watch_editor == before.watch_editor
        &&& self.update_available == before.update_available
        &&& self.package_manager == before.package_manager
        &&& self.update_status == before.update_status
        &&& self.original_theme == before.original_theme
        &&& self.pending_update == before.pending_update
        &&& self.log_file_position == before.log_file_position
        &&& self.watcher_needs_restart == before.watcher_needs_restart
    }

    /// Adds an entry to the activity log, which holds the latest
    /// [`MAX_LOG_ENTRIES`] entries.
    pub fn log(&mut self, level: LogLevel, message: &str, now: Timestamp)
        ensures
            logged(old(self).log_entries@, final(self).log_entries@),
            says(final(self).log_entries@.last(), level, message@, now),
            final(self).same_but_log(*old(self)),
    {
        self.log_entries.push_back(
            LogEntry { timestamp: now, level, message: message.to_owned(), file: None, rule: None },
        );
        if self.log_entries.len() > MAX_LOG_ENTRIES {
            self.log_entries.pop_front();
            assert(self.log_entries@.drop_last() =~= old(self).log_entries@.subrange(
                1,
                old(self).log_entries@.len() as int,
            ));
        } else {
            assert(self.log_entries@.drop_last() =~= old(self).log_entries@);
        }
    }

    /// Takes note that `version` can be updated to from `current`, and
    /// says so in the activity log.
    pub fn set_update_available(&mut self, version: String, current: &str, now: Timestamp)
        ensures
            final(self).update_available == Some(version),
            *final(self) == (AppState {
                update_available: final(self).update_available,
                log_entries: final(self).log_entries,
                ..*old(self)
            }),
            logged(old(self).log_entries@, final(self).log_entries@),
            says(
                final(self).log_entries@.last(),
                LogLevel::Warning,
                "Update available: v"@ + version@ + " (current: v"@ + current@ + ")"@,
                now,
            ),
    {
        let mut said: Vec<char> = Vec::new();
        push_str(&mut said, "Update available: v");
        push_str(&mut said, version.as_str());
        push_str(&mut said, " (current: v");
        push_str(&mut said, current);
        push_str(&mut said, ")");
        self.update_available = Some(version);
        self.log(LogLevel::Warning, from_chars(&said).as_str(), now);
    }

    /// The rule that is selected, if one is.
    pub fn current_rule(&self) -> (r: Option<&Rule>)
        ensures
            match self.selected_rule {
                Some(i) if i < self.config.rules@.len() => r == Some(&self.config.rules@[i as int]),
                _ => r is None,
            },
    {
        match self.selected_rule {
            Some(i) => if i < self.config.rules.len() {
                Some(&self.config.rules[i])
            } else {
                None
            },
            None => None,
        }
    }

    /// The rule that is selected, if one is, to be changed in place.
    pub fn current_rule_mut(&mut self) -> (r: Option<&mut Rule>)
        ensures
            match r {
                Some(rule) => {
                    let i = old(self).selected_rule->0 as int;
                    &&& old(self).selected_rule is Some
                    &&& 0 <= i < old(self).config.rules@.len()
                    &&& *rule == old(self).config.rules@[i]
                    &&& final(self).config.rules@ == old(self).config.rules@.update(i, *final(rule))
                    &&& final(self).config == (Config {
                        rules: final(self).config.rules,
                        ..old(self).config
                    })
                    &&& *final(self) == (AppState { config: final(self).config, ..*old(self) })
                },
                None => {
                    &&& *final(self) == *old(self)
                    &&& old(self).selected_rule matches Some(i) ==> i >= old(self).config.rules@.len()
                },
            },
    {
        match self.selected_rule {
            Some(i) => if i < self.config.rules.len() {
                Some(&mut self.config.rules[i])
            } else {
                None
            },
            None => None,
        }
    }

    /// Everything but the activity log and the place in the daemon's log
    /// is as in `before`.
    pub open spec fn same_but_logs(&self, before: AppState) -> bool {
        *self == AppState {
            log_entries: self.log_entries,
            log_file_position: self.log_file_position,
            ..before
        }
    }

    /// Takes in what was read of the daemon's log. A log file that has
    /// become shorter than what was read of it empties the activity log
    /// first. Each line of `content` that holds an entry is added, without
    /// its colour codes, and the oldest entries are dropped until no more
    /// than the configured number are left. `content` is what the file
    /// holds from the place on that [`crate::logs::LogTail::plan`] names,
    /// or `None` where nothing was read.
    pub fn load_daemon_logs(&mut self, file_len: u64, content: Option<&str>, now: Timestamp)
        ensures
            final(self).same_but_logs(*old(self)),
            final(self).log_file_position == (if content is Some {
                file_len
            } else if file_len < old(self).log_file_position {
                0
            } else {
                old(self).log_file_position
            }),
            entry_views(final(self).log_entries@) == ({
                let kept = if file_len < old(self).log_file_position {
                    Seq::empty()
                } else {
                    entry_views(old(self).log_entries@)
                };
                match content {
                    Some(text) => latest(
                        kept + entries_from(text@, 0, now),
                        old(self).config.general.log_retention as int,
                    ),
                    None => kept,
                }
            }),
    {
        if file_len < self.log_file_position {
            self.log_entries.clear();
            self.log_file_position = 0;
        }
        let ghost kept = entry_views(self.log_entries@);
        assert(kept =~= (if file_len < old(self).log_file_position {
            Seq::empty()
        } else {
            entry_views(old(self).log_entries@)
        }));
        let text = match content {
            Some(t) => t,
            None => {
                return ;
            },
        };
        self.log_file_position = file_len;
        let chars = to_chars(text);
        let mut pos: usize = 0;
        let mut more = true;
        while more
            invariant
                pos <= chars.len(),
                chars@ == text@,
                self.same_but_logs(*old(self)),
                self.log_file_position == file_len,
                kept + entries_from(text@, 0, now) == entry_views(self.log_entries@) + (if more {
                    entries_from(text@, pos as int, now)
                } else {
                    Seq::empty()
                }),
            decreases chars.len() - pos + (if more {
                1int
            } else {
                0int
            }),
        {
            assert(chars@.take(chars@.len() as int) =~= chars@);
            let end = index_of(&chars, '\n', pos, chars.len());
            let line = substring(&chars, pos, end);
            let clean = strip_ansi_codes(line.as_str());
            let ghost before = entry_views(self.log_entries@);
            let ghost rest = if end < chars.len() {
                entries_from(text@, end + 1, now)
            } else {
                Seq::empty()
            };
            match parse_daemon_log_line(clean.as_str(), now) {
                Some(entry) => {
                    self.log_entries.push_back(entry);
                    assert(entry_views(self.log_entries@) =~= before + seq![entry@]);
                    assert(before + (seq![entry@] + rest) =~= (before + seq![entry@]) + rest);
                },
                None => {},
            }
            if end >= chars.len() {
                more = false;
            } else {
                pos = end + 1;
            }
        }
        let ghost all = entry_views(self.log_entries@);
        assert(all =~= kept + entries_from(text@, 0, now));
        while self.log_entries.len() > self.config.general.log_retention
            invariant
                self.same_but_logs(*old(self)),
                self.log_file_position == file_len,
                entry_views(self.log_entries@).len() <= all.len(),
                self.log_entries@.len() >= self.config.general.log_retention
                    || self.log_entries@.len() == all.len(),
                entry_views(self.log_entries@) == all.skip(
                    all.len() - entry_views(self.log_entries@).len(),
                ),
            decreases self.log_entries@.len(),
        {
            let ghost before = entry_views(self.log_entries@);
            self.log_entries.pop_front();
            assert(entry_views(self.log_entries@) =~= before.skip(1));
            assert(before.skip(1) =~= all.skip(all.len() - before.len() + 1));
        }
        assert(all.skip(0) =~= all);
    }

    /// Shows `message` in the status line.
    pub fn set_status(&mut self, message: &str)
        ensures
            final(self).status_message matches Some(m) && m@ == message@,
            *final(self) == (AppState { status_message: final(self).status_message, ..*old(self) }),
    {
        self.status_message = Some(message.to_owned());
    }

    /// Empties the status line.
    pub fn clear_status(&mut self)
        ensures
            *final(self) == (AppState { status_message: None, ..*old(self) }),
    {
        self.status_message = None;
    }

    /// Goes to the next view; the first follows the last.
    pub fn next_view(&mut self)
        ensures
            final(self).view.index() == (old(self).view.index() + 1) % 4,
            *final(self) == (AppState { view: final(self).view, ..*old(self) }),
    {
        self.view = self.view.next();
    }

    /// Goes to the view before; the last comes before the first.
    pub fn prev_view(&mut self)
        ensures
            final(self).view.index() == (old(self).view.index() + 3) % 4,
            *final(self) == (AppState { view: final(self).view, ..*old(self) }),
    {
        self.view = self.view.prev();
    }

    /// Counts one more frame and says whether the daemon's log is due to
    /// be read again, which it is every [`LOG_REFRESH_FRAMES`] frames.
    pub fn tick(&mut self) -> (refresh: bool)
        ensures
            final(self).frame == (if old(self).frame == u64::MAX {
                0
            } else {
                (old(self).frame + 1) as u64
            }),
            refresh == (final(self).frame % LOG_REFRESH_FRAMES == 0),
            *final(self) == (AppState { frame: final(self).frame, ..*old(self) }),
    {
        self.frame = if self.frame == u64::MAX {
            0
        } else {
            self.frame + 1
        };
        self.frame % LOG_REFRESH_FRAMES == 0
    }
}

} // verus!
