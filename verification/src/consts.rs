//! Constants and global variables

use vstd::prelude::*;

verus! {

pub const PROG_NAME: &'static str = "TimeKeeper";

pub const PROG_SITE: &'static str = "https://timekeepersoft.github.io/";

pub const PROG_REPO: &'static str = "https://github.com/mskrasnov/TimeKeeper";

pub const PROG_CRATES_URL: &'static str = "https://crates.io/crates/time_keeper";

pub const PROG_TELEGRAM: &'static str = "https://t.me/TimeKeeperSoft";

/// Program settings (such as the lengths of the work and rest intervals)
pub const PROG_PREFERENCES: &'static str = "TimeKeeper.toml";

/// Statistics (the finished work/rest cycles and how long each one took)
pub const PROG_STATISTICS: &'static str = "stat.toml";

/// Path to the autostart directory (Unix)
pub const PROG_AUTOSTART_DIR: &'static str = ".local/share/autostart/";

/// Autostart `*.desktop`-file
pub const PROG_AUTOSTART_DESKTOP: &'static str = "TimeKeeper.desktop";

/// The table of statistics is written under this name in the home directory.
pub const PROG_CSV_FILE: &'static str = "TimeKeeper-statistics.csv";

} // verus!
