//! Notifications of errors.
//!
//! Nothing is shown from here. Each function says whether a notification is
//! due and what it holds; showing it is the caller's part. Only errors are
//! notified, and only where notifications are enabled.

use vstd::prelude::*;
use vstd::string::StringExecFns;
use vstd::string::StringSliceAdditionalSpecFns;
use vstd::utf8::{decode_utf8, encode_utf8, is_char_boundary, valid_utf8};

verus! {

/// How long a notification stays, in milliseconds.
pub const NOTIFICATION_TIMEOUT_MS: u32 = 5000;

/// The longest command, in bytes of UTF-8, that is shown in full.
pub const COMMAND_DISPLAY_MAX: usize = 50;

/// How many bytes of a longer command are shown.
pub const COMMAND_DISPLAY_KEPT: usize = 47;

/// What went wrong.
#[derive(Debug, Clone, Copy, PartialEq, Eq, Structural)]
pub enum NotificationKind {
    /// A rule could not be carried out.
    RuleError,
    /// A directory could not be watched.
    WatchError,
    /// A command failed.
    CommandError,
}

impl NotificationKind {
    /// The name of the icon for this kind.
    pub open spec fn icon_text(self) -> Seq<char> {
        match self {
            NotificationKind::RuleError => "dialog-error"@,
            NotificationKind::WatchError => "dialog-warning"@,
            NotificationKind::CommandError => "dialog-error"@,
        }
    }

    /// The words that head a notification of this kind.
    pub open spec fn prefix_text(self) -> Seq<char> {
        match self {
            NotificationKind::RuleError => "Rule Error"@,
            NotificationKind::WatchError => "Watch Error"@,
            NotificationKind::CommandError => "Command Error"@,
        }
    }

    /// The name of the icon for this kind.
    pub fn icon(&self) -> (r: &'static str)
        ensures
            r@ == self.icon_text(),
    {
        match self {
            NotificationKind::RuleError => "dialog-error",
            NotificationKind::WatchError => "dialog-warning",
            NotificationKind::CommandError => "dialog-error",
        }
    }

    /// The words that head a notification of this kind.
    pub fn prefix(&self) -> (r: &'static str)
        ensures
            r@ == self.prefix_text(),
    {
        match self {
            NotificationKind::RuleError => "Rule Error",
            NotificationKind::WatchError => "Watch Error",
            NotificationKind::CommandError => "Command Error",
        }
    }
}

/// Whether notifications are shown.
#[derive(Debug, Clone, Copy, PartialEq, Eq, Structural)]
pub struct Notifier {
    /// Notifications are shown only where this holds.
    pub enabled: bool,
}

/// A notification that is due.
#[derive(Debug, Clone)]
pub struct Notification {
    /// What went wrong.
    pub kind: NotificationKind,
    /// The application's name.
    pub app_name: String,
    /// The headline.
    pub summary: String,
    /// The message.
    pub body: String,
    /// The name of the icon.
    pub icon: String,
    /// How long the notification stays, in milliseconds.
    pub timeout_ms: u32,
}

/// The headline of a notification of the given kind.
pub open spec fn summary_text(kind: NotificationKind) -> Seq<char> {
    "Hazelnut: "@ + kind.prefix_text()
}

/// The message for a rule that failed.
pub open spec fn rule_error_text(rule_name: Seq<char>, error: Seq<char>) -> Seq<char> {
    "Rule '"@ + rule_name + "' failed: "@ + error
}

/// The message for a directory that could not be watched.
pub open spec fn watch_error_text(path: Seq<char>, error: Seq<char>) -> Seq<char> {
    "Watch '"@ + path + "': "@ + error
}

/// The greatest index at or below `at` at which a character begins in
/// the bytes `bytes`, which are UTF-8.
pub open spec fn last_boundary(bytes: Seq<u8>, at: int) -> int
    decreases at,
{
    if at <= 0 {
        0
    } else if is_char_boundary(bytes, at) {
        at
    } else {
        last_boundary(bytes, at - 1)
    }
}

/// A command as a notification shows it. A command of at most
/// [`COMMAND_DISPLAY_MAX`] bytes of UTF-8 is shown in full. Of a longer one
/// the first [`COMMAND_DISPLAY_KEPT`] bytes are shown, and three dots;
/// where the last of those bytes lies inside a character, the text ends
/// before that character.
pub open spec fn command_display(command: Seq<char>) -> Seq<char> {
    let bytes = encode_utf8(command);
    if bytes.len() > COMMAND_DISPLAY_MAX {
        decode_utf8(bytes.subrange(0, last_boundary(bytes, COMMAND_DISPLAY_KEPT as int))) + "..."@
    } else {
        command
    }
}

/// Where the cut of a long command falls: at a place where a character
/// begins, no later than `at`.
pub proof fn lemma_last_boundary(bytes: Seq<u8>, at: int)
    requires
        valid_utf8(bytes),
        0 <= at <= bytes.len(),
    ensures
        0 <= last_boundary(bytes, at) <= at,
        is_char_boundary(bytes, last_boundary(bytes, at)),
    decreases at,
{
    if at > 0 && !is_char_boundary(bytes, at) {
        lemma_last_boundary(bytes, at - 1);
    }
}

/// What is shown of a long command begins as the command does: it is the
/// first characters of the command, as many as end within its first
/// [`COMMAND_DISPLAY_KEPT`] bytes, and three dots.
pub proof fn law_long_command_is_shown_by_its_beginning(command: Seq<char>) -> (k: int)
    requires
        encode_utf8(command).len() > COMMAND_DISPLAY_MAX,
    ensures
        0 <= k <= command.len(),
        command_display(command) == command.take(k) + "..."@,
        encode_utf8(command.take(k)).len() == last_boundary(
            encode_utf8(command),
            COMMAND_DISPLAY_KEPT as int,
        ),
        encode_utf8(command.take(k)).len() <= COMMAND_DISPLAY_KEPT,
{
    let bytes = encode_utf8(command);
    vstd::utf8::encode_utf8_valid_utf8(command);
    vstd::utf8::encode_utf8_decode_utf8(command);
    let cut = last_boundary(bytes, COMMAND_DISPLAY_KEPT as int);
    lemma_last_boundary(bytes, COMMAND_DISPLAY_KEPT as int);
    vstd::utf8::valid_utf8_split(bytes, cut);
    vstd::utf8::decode_utf8_split(bytes, cut);
    let head = decode_utf8(bytes.subrange(0, cut));
    let rest = decode_utf8(bytes.subrange(cut, bytes.len() as int));
    assert(command =~= head + rest);
    assert(command.take(head.len() as int) =~= head);
    vstd::utf8::decode_utf8_encode_utf8(bytes.subrange(0, cut));
    head.len() as int
}

/// The message for a command that failed.
pub open spec fn command_error_text(command: Seq<char>, error: Seq<char>) -> Seq<char> {
    "Command '"@ + command_display(command) + "' failed: "@ + error
}

/// What [`notify`] returns for a notifier, a kind and a message.
pub open spec fn notified(
    notifier: Notifier,
    kind: NotificationKind,
    message: Seq<char>,
    r: Option<Notification>,
) -> bool {
    if notifier.enabled {
        &&& r matches Some(n)
        &&& n.kind == kind
        &&& n.app_name@ == "Hazelnut"@
        &&& n.summary@ == summary_text(kind)
        &&& n.body@ == message
        &&& n.icon@ == kind.icon_text()
        &&& n.timeout_ms == NOTIFICATION_TIMEOUT_MS
    } else {
        r is None
    }
}

/// A notifier that shows notifications where `enabled` holds.
pub fn init(enabled: bool) -> (r: Notifier)
    ensures
        r.enabled == enabled,
{
    Notifier { enabled }
}

/// Whether the notifier shows notifications.
pub fn is_enabled(notifier: &Notifier) -> (r: bool)
    ensures
        r == notifier.enabled,
{
    notifier.enabled
}

/// The notification for `message`, where notifications are enabled.
pub fn notify(notifier: &Notifier, kind: NotificationKind, message: &str) -> (r: Option<
    Notification,
>)
    ensures
        notified(*notifier, kind, message@, r),
{
    if !is_enabled(notifier) {
        return None;
    }
    let mut summary = String::from_str("Hazelnut: ");
    summary.append(kind.prefix());
    Some(
        Notification {
            kind,
            app_name: String::from_str("Hazelnut"),
            summary,
            body: String::from_str(message),
            icon: String::from_str(kind.icon()),
            timeout_ms: NOTIFICATION_TIMEOUT_MS,
        },
    )
}

/// The notification for a rule that failed.
pub fn notify_rule_error(notifier: &Notifier, rule_name: &str, error: &str) -> (r: Option<
    Notification,
>)
    ensures
        notified(*notifier, NotificationKind::RuleError, rule_error_text(rule_name@, error@), r),
{
    let mut body = String::from_str("Rule '");
    body.append(rule_name);
    body.append("' failed: ");
    body.append(error);
    notify(notifier, NotificationKind::RuleError, body.as_str())
}

/// The notification for a directory that could not be watched.
pub fn notify_watch_error(notifier: &Notifier, path: &str, error: &str) -> (r: Option<
    Notification,
>)
    ensures
        notified(*notifier, NotificationKind::WatchError, watch_error_text(path@, error@), r),
{
    let mut body = String::from_str("Watch '");
    body.append(path);
    body.append("': ");
    body.append(error);
    notify(notifier, NotificationKind::WatchError, body.as_str())
}

/// The notification for a command that failed. A long command is cut.
pub fn notify_command_error(notifier: &Notifier, command: &str, error: &str) -> (r: Option<
    Notification,
>)
    ensures
        notified(
            *notifier,
            NotificationKind::CommandError,
            command_error_text(command@, error@),
            r,
        ),
{
    broadcast use vstd::utf8::encode_utf8_valid_utf8;

    let ghost bytes = encode_utf8(command@);
    let mut body = String::from_str("Command '");
    let len = command.as_bytes().len();
    assert(len == bytes.len());
    if len > COMMAND_DISPLAY_MAX {
        let mut at: usize = COMMAND_DISPLAY_KEPT;
        while at > 0 && !command.is_char_boundary(at)
            invariant
                at <= COMMAND_DISPLAY_KEPT,
                bytes == encode_utf8(command@),
                last_boundary(bytes, COMMAND_DISPLAY_KEPT as int) == last_boundary(bytes, at as int),
            decreases at,
        {
            at -= 1;
        }
        assert(is_char_boundary(bytes, at as int));
        let (head, _) = command.split_at(at);
        proof {
            vstd::utf8::encode_utf8_decode_utf8(head@);
            assert(encode_utf8(head@) =~= bytes.subrange(0, at as int));
            assert(head@ == decode_utf8(bytes.subrange(0, at as int)));
            assert(at as int == last_boundary(bytes, COMMAND_DISPLAY_KEPT as int));
        }
        body.append(head);
        body.append("...");
        assert(body@ =~= "Command '"@ + (head@ + "..."@));
    } else {
        body.append(command);
    }
    assert(body@ =~= "Command '"@ + command_display(command@));
    body.append("' failed: ");
    body.append(error);
    assert(body@ =~= command_error_text(command@, error@));
    notify(notifier, NotificationKind::CommandError, body.as_str())
}

} // verus!
