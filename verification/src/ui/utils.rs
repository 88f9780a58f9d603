//! Some utils and helpers

use crate::conf::Config;
use crate::stats::{StatisticEntry, Stats};
use vstd::prelude::*;

verus! {

/// The statistics to start with: what was read from the file, or the
/// empty log where nothing could be read.
pub fn get_stats(parsed: Option<Stats>) -> (stats: Stats)
    ensures
        stats@ == match parsed {
            Some(read) => read@,
            None => Seq::<StatisticEntry>::empty(),
        },
{
    match parsed {
        Some(stats) => stats,
        None => Stats::default(),
    }
}

/// The settings to start with: what was read from the file, or the
/// defaults where nothing could be read. The flag says that the defaults
/// are in use.
pub fn get_config(parsed: Option<Config>) -> (res: (Config, bool))
    ensures
        res == match parsed {
            Some(conf) => (conf, false),
            None => (Config::initial(), true),
        },
{
    match parsed {
        Some(conf) => (conf, false),
        None => (Config::default(), true),
    }
}

} // verus!
