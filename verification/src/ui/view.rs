//! What the pages show of the timer.

use super::{Page, Session, TimeKeeper};
use crate::conf::Config;
use crate::stats::{newest_first, StatisticEntry, Stats};
use crate::time::{Hms, Time};
use vstd::prelude::*;

verus! {

impl Session {
    /// The row of buttons under the timer is shown in full, except while
    /// the window of a break covers the screen: there only the button of
    /// the statistics is left.
    pub open spec fn full_footer(self) -> bool {
        self.is_work || self.conf.desktop_notifications
    }
}

impl TimeKeeper {
    pub fn is_work(&self) -> (is_work: bool)
        ensures
            is_work == self@.is_work,
    {
        self.is_work
    }

    pub fn is_pause(&self) -> (is_pause: bool)
        ensures
            is_pause == self@.is_pause,
    {
        self.is_pause
    }

    pub fn show_stats(&self) -> (show_stats: bool)
        ensures
            show_stats == self@.show_stats,
    {
        self.show_stats
    }

    /// Seconds of the current phase that have passed.
    pub fn elapsed_time(&self) -> (elapsed: u16)
        ensures
            elapsed == self@.elapsed_time,
            elapsed < u16::MAX,
    {
        proof {
            use_type_invariant(self);
        }
        self.elapsed_time
    }

    /// The finished phases, oldest first.
    pub fn stats(&self) -> (stats: &Stats)
        ensures
            stats@ == self@.stats,
    {
        &self.stats
    }

    /// Work time as the settings page shows it.
    pub fn wtime(&self) -> (wtime: Time)
        ensures
            wtime@ == self@.wtime,
    {
        self.wtime
    }

    /// Free time as the settings page shows it.
    pub fn ftime(&self) -> (ftime: Time)
        ensures
            ftime@ == self@.ftime,
    {
        self.ftime
    }

    pub fn page(&self) -> (page: Page)
        ensures
            page == self@.page,
    {
        self.page
    }

    /// The settings in force.
    pub fn conf(&self) -> (conf: Config)
        ensures
            conf == self@.conf,
    {
        self.conf
    }

    /// Number of the window that covers the screen, if there is one.
    pub fn win_id(&self) -> (win_id: Option<u64>)
        ensures
            win_id == self@.win_id,
    {
        self.win_id
    }

    /// Configured length of the current phase.
    pub fn get_sub_time(&self) -> (secs: u16)
        ensures
            secs == self@.timer(),
    {
        self.conf.phase_time(self.is_work)
    }

    /// The time left of the current phase, as the main page counts it
    /// down.
    pub fn remaining(&self) -> (left: Time)
        ensures
            left@ == Hms::of_secs(self@.remaining()),
    {
        let timer = self.get_sub_time();
        if self.elapsed_time <= timer {
            Time::from_secs(timer - self.elapsed_time)
        } else {
            Time::from_secs(0)
        }
    }

    /// The finished phases that the main page lists: the newest first.
    pub fn stats_shown(&self) -> (shown: Vec<StatisticEntry>)
        ensures
            shown@ == newest_first(self@.stats),
    {
        self.stats.recent()
    }

    /// Whether the row of buttons under the timer is shown in full.
    pub fn full_footer(&self) -> (full: bool)
        ensures
            full == self@.full_footer(),
    {
        self.is_work || self.conf.desktop_notifications
    }

    /// Whether the timer is to get a tick each second: not while paused.
    pub fn wants_ticks(&self) -> (ticks: bool)
        ensures
            ticks == !self@.is_pause,
    {
        !self.is_pause
    }

    /// Whether the timer is to hear of windows that were closed: only
    /// when it covers the screen itself, with notifications off.
    pub fn watches_windows(&self) -> (watches: bool)
        ensures
            watches == !self@.conf.desktop_notifications,
    {
        !self.conf.desktop_notifications
    }
}

} // verus!
