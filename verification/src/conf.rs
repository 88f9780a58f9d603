//! Timer settings.

use vstd::prelude::*;

verus! {

/// Lengths of the two phases and the way the user is told about a break.
#[derive(Debug, Clone, Copy, PartialEq, Eq, Structural)]
pub struct Config {
    /// Work time (in seconds), meant to lie in `1..=65535`.
    pub work_time: u16,
    /// Free time (in seconds), meant to lie in `1..=65535`.
    pub free_time: u16,
    /// `true`: a desktop notification announces each phase change;
    /// `false`: a modal window covers the screen during a break.
    pub desktop_notifications: bool,
}

impl Config {
    /// Both phases last at least one second.
    pub open spec fn is_valid(&self) -> bool {
        self.work_time >= 1 && self.free_time >= 1
    }

    /// The settings used when none were stored: an hour of work, a quarter
    /// of an hour of rest, notifications on.
    pub open spec fn initial() -> Config {
        Config { work_time: 3600, free_time: 900, desktop_notifications: true }
    }

    /// Configured length of a phase, in seconds.
    pub open spec fn phase_len(&self, is_work: bool) -> u16 {
        if is_work {
            self.work_time
        } else {
            self.free_time
        }
    }

    /// Configured length of the work phase (`is_work`) or of the break.
    pub fn phase_time(&self, is_work: bool) -> (secs: u16)
        ensures
            secs == self.phase_len(is_work),
    {
        if is_work {
            self.work_time
        } else {
            self.free_time
        }
    }
}

impl Default for Config {
    fn default() -> (conf: Self)
        ensures
            conf == Config::initial(),
            conf.is_valid(),
    {
        Self { work_time: 3600, free_time: 900, desktop_notifications: true }
    }
}

} // verus!
