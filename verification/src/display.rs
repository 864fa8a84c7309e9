//! Texts and measures that the front-end shows, apart from how they are
//! drawn.

use vstd::prelude::*;
use vstd::string::StringExecFns;
use crate::state::{AppState, SettingsItem, WatchEditorField};
use crate::text::{decimal_digits, from_chars, push_decimal, push_str};

verus! {

/// A rectangle of the terminal, in cells.
#[derive(Debug, Clone, Copy, PartialEq, Eq, Structural)]
pub struct Rect {
    pub x: u16,
    pub y: u16,
    pub width: u16,
    pub height: u16,
}

impl Rect {
    /// The rectangle lies within the range of the coordinates.
    pub open spec fn fits(self) -> bool {
        self.x + self.width <= u16::MAX && self.y + self.height <= u16::MAX
    }
}

/// The rectangle that takes `percent_x` of the width and `percent_y` of
/// the height of `r` and stands in its middle.
pub open spec fn centered(percent_x: u16, percent_y: u16, r: Rect) -> Rect {
    let width = (r.width * percent_x / 100) as u16;
    let height = (r.height * percent_y / 100) as u16;
    Rect {
        x: (r.x + (r.width - width) / 2) as u16,
        y: (r.y + (r.height - height) / 2) as u16,
        width,
        height,
    }
}

/// A rectangle in the middle of `r`, for a dialog.
pub fn centered_rect(percent_x: u16, percent_y: u16, r: Rect) -> (c: Rect)
    requires
        percent_x <= 100,
        percent_y <= 100,
        r.fits(),
    ensures
        c == centered(percent_x, percent_y, r),
        c.fits(),
        r.x <= c.x && c.x + c.width <= r.x + r.width,
        r.y <= c.y && c.y + c.height <= r.y + r.height,
{
    assert((r.width as int) * (percent_x as int) <= 65535 * 100) by (nonlinear_arith)
        requires
            0 <= r.width <= 65535,
            0 <= percent_x <= 100,
    ;
    assert((r.height as int) * (percent_y as int) <= 65535 * 100) by (nonlinear_arith)
        requires
            0 <= r.height <= 65535,
            0 <= percent_y <= 100,
    ;
    let wide: u32 = (r.width as u32) * (percent_x as u32) / 100;
    let high: u32 = (r.height as u32) * (percent_y as u32) / 100;
    assert(wide <= r.width) by (nonlinear_arith)
        requires
            wide == (r.width as int) * (percent_x as int) / 100,
            percent_x <= 100,
    ;
    assert(high <= r.height) by (nonlinear_arith)
        requires
            high == (r.height as int) * (percent_y as int) / 100,
            percent_y <= 100,
    ;
    let width = wide as u16;
    let height = high as u16;
    Rect {
        x: r.x + (r.width - width) / 2,
        y: r.y + (r.height - height) / 2,
        width,
        height,
    }
}

/// The help that the watch editor shows for a field.
pub open spec fn watch_field_help_text(field: WatchEditorField) -> Seq<char> {
    match field {
        WatchEditorField::Path => "Full path to watch, e.g. ~/Downloads or /Users/you/Downloads"@,
        WatchEditorField::Recursive => "Space/←→ to toggle — watch subdirectories too"@,
        WatchEditorField::Rules => "Space: toggle │ a: select all │ c: clear (all rules apply)"@,
    }
}

/// The help that the watch editor shows for a field.
pub fn watch_field_help(field: WatchEditorField) -> (r: &'static str)
    ensures
        r@ == watch_field_help_text(field),
{
    match field {
        WatchEditorField::Path => "Full path to watch, e.g. ~/Downloads or /Users/you/Downloads",
        WatchEditorField::Recursive => "Space/←→ to toggle — watch subdirectories too",
        WatchEditorField::Rules => "Space: toggle │ a: select all │ c: clear (all rules apply)",
    }
}

/// Whether a switch is on, as the settings show it.
pub open spec fn switch_text(on: bool) -> Seq<char> {
    if on {
        "✓ Enabled"@
    } else {
        "✗ Disabled"@
    }
}

/// The value that the settings dialog shows for a setting.
pub open spec fn settings_value(state: AppState, item: SettingsItem, autostart: bool) -> Seq<char> {
    match item {
        SettingsItem::DaemonControl => if state.daemon_running {
            "● Running"@
        } else {
            "○ Stopped"@
        },
        SettingsItem::AutoStartOnBoot => switch_text(autostart),
        SettingsItem::ThemeSelection => state.theme.name_text(),
        SettingsItem::PollingInterval => decimal_digits(
            state.config.general.polling_interval_secs as nat,
        ) + "s"@,
        SettingsItem::LogRetention => decimal_digits(state.config.general.log_retention as nat)
            + " entries"@,
        SettingsItem::StartupBehavior => switch_text(state.config.general.start_daemon_on_launch),
        SettingsItem::Notifications => switch_text(state.config.general.notifications_enabled),
    }
}

/// Whether a switch is on, as the settings show it.
fn switch_word(on: bool) -> (r: &'static str)
    ensures
        r@ == switch_text(on),
{
    if on {
        "✓ Enabled"
    } else {
        "✗ Disabled"
    }
}

/// The value that the settings dialog shows for `item`. `autostart` says
/// whether the daemon is started at boot.
pub fn get_settings_value_display(state: &AppState, item: SettingsItem, autostart: bool) -> (r:
    String)
    ensures
        r@ == settings_value(*state, item, autostart),
{
    match item {
        SettingsItem::DaemonControl => String::from_str(
            if state.daemon_running {
                "● Running"
            } else {
                "○ Stopped"
            },
        ),
        SettingsItem::AutoStartOnBoot => String::from_str(switch_word(autostart)),
        SettingsItem::ThemeSelection => String::from_str(state.theme.name()),
        SettingsItem::PollingInterval => {
            let mut out: Vec<char> = Vec::new();
            push_decimal(&mut out, state.config.general.polling_interval_secs);
            push_str(&mut out, "s");
            from_chars(&out)
        },
        SettingsItem::LogRetention => {
            let mut out: Vec<char> = Vec::new();
            push_decimal(&mut out, state.config.general.log_retention as u64);
            push_str(&mut out, " entries");
            from_chars(&out)
        },
        SettingsItem::StartupBehavior => String::from_str(
            switch_word(state.config.general.start_daemon_on_launch),
        ),
        SettingsItem::Notifications => String::from_str(
            switch_word(state.config.general.notifications_enabled),
        ),
    }
}

} // verus!
