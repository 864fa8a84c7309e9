//! The configuration as the engine consumes it: general settings, the
//! watched directories and the rules, in the order in which they were
//! written.

use vstd::prelude::*;
use crate::paths::{join, joined, opt_view};
use crate::rules::Rule;

verus! {

/// The log level used where none is configured.
pub open spec fn default_log_level_text() -> Seq<char> {
    "info"@
}

/// The log level used where none is configured.
pub fn default_log_level() -> (r: String)
    ensures
        r@ == default_log_level_text(),
{
    "info".to_owned()
}

/// The debounce window, in seconds, used where none is configured.
pub fn default_debounce() -> (r: u64)
    ensures
        r == 2,
{
    2
}

/// The polling interval, in seconds, used where none is configured.
pub fn default_polling_interval() -> (r: u64)
    ensures
        r == 5,
{
    5
}

/// The number of log entries kept where none is configured.
pub fn default_log_retention() -> (r: usize)
    ensures
        r == 1000,
{
    1000
}

/// General settings.
#[derive(Debug, Clone)]
pub struct GeneralConfig {
    /// One of `trace`, `debug`, `info`, `warn`, `error`.
    pub log_level: String,
    /// Where the log is written, if to a file.
    pub log_file: Option<String>,
    /// The debounce window in seconds.
    pub debounce_seconds: u64,
    /// How often, in seconds, the watched directories are polled.
    pub polling_interval_secs: u64,
    /// How many log entries are kept.
    pub log_retention: usize,
    /// Whether the front-end starts the daemon when it is launched.
    pub start_daemon_on_launch: bool,
    /// Whether errors are shown as desktop notifications.
    pub notifications_enabled: bool,
    /// The name of the colour theme.
    pub theme: Option<String>,
}

impl Default for GeneralConfig {
    fn default() -> (r: Self)
        ensures
            r.log_level@ == default_log_level_text(),
            r.log_file is None,
            r.debounce_seconds == 2,
            r.polling_interval_secs == 5,
            r.log_retention == 1000,
            !r.start_daemon_on_launch,
            !r.notifications_enabled,
            r.theme is None,
    {
        GeneralConfig {
            log_level: default_log_level(),
            log_file: None,
            debounce_seconds: default_debounce(),
            polling_interval_secs: default_polling_interval(),
            log_retention: default_log_retention(),
            start_daemon_on_launch: false,
            notifications_enabled: false,
            theme: None,
        }
    }
}

/// A directory to watch.
#[derive(Debug, Clone)]
pub struct WatchConfig {
    /// The directory.
    pub path: String,
    /// Whether the directories below it are watched too.
    pub recursive: bool,
    /// The names of the rules that apply to it; empty for all of them.
    pub rules: Vec<String>,
}

/// The whole configuration.
#[derive(Debug, Clone)]
pub struct Config {
    /// General settings.
    pub general: GeneralConfig,
    /// The watched directories.
    pub watches: Vec<WatchConfig>,
    /// The rules, in the order in which they are tried.
    pub rules: Vec<Rule>,
}

impl Config {
    /// The path of the configuration file where none is named:
    /// `hazelnut/config.toml` in the platform's configuration directory, or
    /// in `.config` below the home directory where the platform names
    /// none.
    pub fn default_path(config_dir: Option<&str>, home: Option<&str>) -> (r: Option<String>)
        ensures
            opt_view(r) == (match (config_dir, home) {
                (Some(d), _) => Some(joined(joined(d@, "hazelnut"@), "config.toml"@)),
                (None, Some(h)) => Some(
                    joined(joined(joined(h@, ".config"@), "hazelnut"@), "config.toml"@),
                ),
                (None, None) => None,
            }),
    {
        let base = match (config_dir, home) {
            (Some(d), _) => d.to_owned(),
            (None, Some(h)) => join(h, ".config"),
            (None, None) => {
                return None;
            },
        };
        Some(join(join(base.as_str(), "hazelnut").as_str(), "config.toml"))
    }

    /// The directory for the program's data: `hazelnut` in the platform's
    /// data directory.
    pub fn data_dir(data_dir: Option<&str>) -> (r: Option<String>)
        ensures
            opt_view(r) == (match data_dir {
                Some(d) => Some(joined(d@, "hazelnut"@)),
                None => None,
            }),
    {
        match data_dir {
            Some(d) => Some(join(d, "hazelnut")),
            None => None,
        }
    }
}

impl Default for Config {
    fn default() -> (r: Self)
        ensures
            r.general.log_level@ == default_log_level_text(),
            r.general.log_file is None,
            r.general.debounce_seconds == 2,
            r.general.polling_interval_secs == 5,
            r.general.log_retention == 1000,
            !r.general.start_daemon_on_launch,
            !r.general.notifications_enabled,
            r.general.theme is None,
            r.watches@.len() == 0,
            r.rules@.len() == 0,
    {
        Config { general: GeneralConfig::default(), watches: Vec::new(), rules: Vec::new() }
    }
}

} // verus!
