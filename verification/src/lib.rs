//! Hazelnut: the engine of an automated file organizer.
//!
//! The crate holds the rules that decide what happens to a file, the
//! debouncing and routing of file-system events, the life cycle of the
//! background daemon, the control protocol spoken with it, and the state of
//! the interactive front-end with what its keys do. It performs no I/O
//! itself: callers hand in what they observed (paths, sizes, clock readings,
//! outcomes of operations) and carry out the steps that come back.
//!
//! Paths are texts whose components are separated by `/`, and times are
//! plain numbers; see [`paths`] and [`rules::expand::Moment`].

pub mod config;
pub mod daemon;
pub mod display;
pub mod events;
pub mod ipc;
pub mod logs;
pub mod notifications;
pub mod paths;
pub mod rules;
pub mod state;
pub mod text;
pub mod theme;
pub mod version;
pub mod watcher;

pub use config::Config;
pub use rules::expand::expand_path;
pub use rules::{Action, Condition, Rule, RuleEngine};
pub use theme::Theme;
pub use version::{
    check_for_updates_crates_io,
    detect_package_manager,
    run_update,
    version_is_newer,
    PackageManager,
    VersionCheck,
};
pub use watcher::Watcher;
