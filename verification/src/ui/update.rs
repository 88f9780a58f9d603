//! Work with data; message handling

use super::{Effect, Key, Link, Message, Page, Session, TimeKeeper};
use crate::stats::{StatisticEntry, Stats};
use crate::time::{get_current_date, Time};
use vstd::prelude::*;

verus! {

impl TimeKeeper {
    /// Handles `message` at the present moment, read from the system clock
    /// when the message is a tick. The state and the effects are those of
    /// [`Session::step`] at some moment; [`TimeKeeper::update_at`] takes
    /// the moment from its caller and says which.
    pub fn update(&mut self, message: Message) -> (effects: Vec<Effect>)
        ensures
            exists|now: u64| (final(self)@, effects@) == #[trigger] old(self)@.step(message, now),
            final(self)@.inv(),
    {
        match message {
            Message::TickTime => self.tick_time(),
            other => {
                let effects = self.update_at(other, 0);
                assert((self@, effects@) == old(self)@.step(message, 0));
                effects
            },
        }
    }

    /// Handles `message` as at the moment `now`, in seconds since the
    /// start of 1970.
    pub fn update_at(&mut self, message: Message, now: u64) -> (effects: Vec<Effect>)
        ensures
            (final(self)@, effects@) == old(self)@.step(message, now),
            final(self)@.inv(),
    {
        proof {
            use_type_invariant(&*self);
        }
        match message {
            /********************************************************
             * Data modification depending on user actions          *
             ********************************************************/
            Message::TickTime => self.tick_at(now),
            Message::StartButtonPressed => {
                self.toggle_pause();
                Vec::new()
            },
            Message::StopButtonPressed => {
                self.set_stop();
                Vec::new()
            },
            Message::SaveSettingsButtonPressed => self.save_settings(),
            Message::ShowStatsButtonPressed => {
                self.toggle_stats();
                Vec::new()
            },
            Message::ClearStatsButtonPressed => {
                self.clear_stats();
                Vec::new()
            },
            Message::ExportCSVButtonPressed => one(Effect::ExportCsv),
            Message::FTimeChanged(ftime) => {
                self.change_ftime(ftime);
                Vec::new()
            },
            Message::WTimeChanged(wtime) => {
                self.change_wtime(wtime);
                Vec::new()
            },
            Message::NotificationsToggled(state) => {
                self.set_notifications(state);
                Vec::new()
            },
            Message::Event(key) => {
                self.handle_events(key);
                Vec::new()
            },
            /********************************************************
             * Opening/closing program windows                      *
             ********************************************************/
            Message::OpenWindow => self.open_window(),
            Message::WindowOpened(id) => one(Effect::MaximizeWindow { id }),
            Message::WindowClosed(id) => self.close_window(id),
            /********************************************************
             * Selecting pages to display                           *
             ********************************************************/
            Message::AboutButtonPressed => {
                self.select_page(Page::About);
                Vec::new()
            },
            Message::SettingsButtonPressed => {
                self.select_page(Page::Settings);
                Vec::new()
            },
            /********************************************************
             * Opening links to external TimeKeeper resources in an *
             * associated program (e.g. in the default browser)     *
             ********************************************************/
            Message::OpenSiteUrl => one(Effect::OpenUrl { link: Link::Site }),
            Message::OpenRepoUrl => one(Effect::OpenUrl { link: Link::Repo }),
            Message::OpenCratesUrl => one(Effect::OpenUrl { link: Link::Crates }),
            Message::OpenTelegramUrl => one(Effect::OpenUrl { link: Link::Telegram }),
        }
    }

    fn reset_etime(&mut self)
        ensures
            final(self)@ == (Session { elapsed_time: 0, ..old(self)@ }),
    {
        proof {
            use_type_invariant(&*self);
        }
        self.elapsed_time = 0;
    }

    /// Records the phase that ends at the moment `now` after `time`
    /// seconds; the oldest entries make room for it.
    fn stats_push(&mut self, now: u64, time: u16)
        ensures
            final(self)@ == (Session {
                stats: crate::stats::appended(
                    old(self)@.stats,
                    StatisticEntry { date: now, is_wtime: old(self)@.is_work, time },
                ),
                ..old(self)@
            }),
            final(self)@.stats.len() <= crate::stats::MAX_ENTRIES,
    {
        proof {
            use_type_invariant(&*self);
        }
        // The log leaves the timer while it changes: a call that might
        // unwind may not borrow a field of a type that has an invariant.
        let mut stats = Stats::default();
        core::mem::swap(&mut self.stats, &mut stats);
        stats.append(StatisticEntry { date: now, is_wtime: self.is_work, time });
        self.stats = stats;
    }

    /// Applies the rule of the covering window: see
    /// [`Session::close_modal_win`].
    pub fn close_modal_win(&mut self) -> (effects: Vec<Effect>)
        ensures
            (final(self)@, effects@) == old(self)@.close_modal_win(),
            final(self)@.inv(),
    {
        proof {
            use_type_invariant(&*self);
        }
        if self.conf.desktop_notifications {
            match self.win_id {
                Some(id) => self.close_window(id),
                None => Vec::new(),
            }
        } else {
            match self.win_id {
                Some(id) if self.is_work => self.close_window(id),
                _ => self.open_window(),
            }
        }
    }

    /// A tick at the moment that the system clock shows.
    pub fn tick_time(&mut self) -> (effects: Vec<Effect>)
        ensures
            exists|now: u64| (final(self)@, effects@) == #[trigger] old(self)@.step(
                Message::TickTime,
                now,
            ),
            final(self)@.inv(),
    {
        let now = get_current_date();
        let effects = self.tick_at(now);
        assert((self@, effects@) == old(self)@.step(Message::TickTime, now));
        effects
    }

    /// A tick at the moment `now`: see [`Session::tick`]. A tick that is
    /// not suppressed by the pause leaves the counter below the length of
    /// the phase that is then under way, if that length is not zero.
    pub fn tick_at(&mut self, now: u64) -> (effects: Vec<Effect>)
        ensures
            (final(self)@, effects@) == old(self)@.tick(now),
            final(self)@.inv(),
            !old(self)@.is_pause && final(self)@.timer() >= 1 ==> final(self)@.elapsed_time
                < final(self)@.timer(),
    {
        proof {
            use_type_invariant(&*self);
        }
        let mut effects: Vec<Effect> = Vec::new();
        if self.is_pause {
            return effects;
        }
        let elapsed: u16 = self.elapsed_time + 1;
        // Depending on what we are doing, working or resting, the
        // counter is reset after a different time
        let timer = self.conf.phase_time(self.is_work);
        if elapsed >= timer {
            self.stats_push(now, elapsed);
            if self.conf.desktop_notifications {
                effects.push(Effect::Notify { finished_work: self.is_work });
            }
            self.is_work = !self.is_work;
            self.reset_etime();
        } else {
            self.elapsed_time = elapsed;
        }
        let ghost counted = self@;
        let ghost told = effects@;
        assert((counted, told) == old(self)@.count_second(now));
        let mut windows = self.close_modal_win();
        effects.append(&mut windows);
        effects
    }

    pub fn toggle_pause(&mut self)
        ensures
            final(self)@ == old(self)@.toggle_pause(),
    {
        proof {
            use_type_invariant(&*self);
        }
        self.is_pause = !self.is_pause;
    }

    /// After the user presses "Stop" the timer is reset, work time (not
    /// free time) is set and the counter is paused. Nothing is recorded.
    pub fn set_stop(&mut self)
        ensures
            final(self)@ == old(self)@.stop(),
            final(self)@.stats == old(self)@.stats,
    {
        proof {
            use_type_invariant(&*self);
        }
        self.reset_etime();
        self.is_work = true;
        self.is_pause = true;
    }

    /// Handle events (e.g. keyboard combinations)
    ///
    /// - F1 - about
    /// - F2 - settings
    /// - F3 - show/hide statistics
    /// - F5 - start/pause
    /// - F6 - stop
    pub fn handle_events(&mut self, key: Key)
        ensures
            final(self)@ == old(self)@.handle_events(key),
    {
        match key {
            Key::F1 => self.select_page(Page::About),
            Key::F2 => self.select_page(Page::Settings),
            Key::F3 => self.toggle_stats(),
            Key::F5 => self.toggle_pause(),
            Key::F6 => self.set_stop(),
            Key::Other => {},
        }
    }

    pub fn select_page(&mut self, page: Page)
        ensures
            final(self)@ == old(self)@.select_page(page),
    {
        proof {
            use_type_invariant(&*self);
        }
        if self.page == page {
            self.page = Page::Main;
        } else {
            self.page = page;
        }
    }

    /// See [`Session::save_settings`]. Whether the file could be written
    /// does not concern the timer: the settings in memory stand.
    pub fn save_settings(&mut self) -> (effects: Vec<Effect>)
        ensures
            (final(self)@, effects@) == old(self)@.save_settings(),
    {
        proof {
            use_type_invariant(&*self);
        }
        if self.page == Page::Settings {
            self.conf.work_time = self.wtime.to_secs();
            self.conf.free_time = self.ftime.to_secs();
            one(Effect::SaveConfig)
        } else {
            Vec::new()
        }
    }

    pub fn toggle_stats(&mut self)
        ensures
            final(self)@ == old(self)@.toggle_stats(),
    {
        proof {
            use_type_invariant(&*self);
        }
        self.show_stats = !self.show_stats;
    }

    /// Forgets the finished phases.
    pub fn clear_stats(&mut self)
        ensures
            final(self)@ == old(self)@.clear_stats(),
    {
        proof {
            use_type_invariant(&*self);
        }
        self.stats = Stats::default();
    }

    pub fn change_ftime(&mut self, ftime: u16)
        ensures
            final(self)@ == old(self)@.change_ftime(ftime),
    {
        proof {
            use_type_invariant(&*self);
        }
        self.ftime = Time::from_secs(ftime);
    }

    pub fn change_wtime(&mut self, wtime: u16)
        ensures
            final(self)@ == old(self)@.change_wtime(wtime),
    {
        proof {
            use_type_invariant(&*self);
        }
        self.wtime = Time::from_secs(wtime);
    }

    /// Only the setting changes. A window that covers the screen goes
    /// with the next tick.
    pub fn set_notifications(&mut self, state: bool)
        ensures
            final(self)@ == old(self)@.set_notifications(state),
    {
        proof {
            use_type_invariant(&*self);
        }
        self.conf.desktop_notifications = state;
    }

    /// See [`Session::open_window`].
    pub fn open_window(&mut self) -> (effects: Vec<Effect>)
        ensures
            (final(self)@, effects@) == old(self)@.open_window(),
    {
        proof {
            use_type_invariant(&*self);
        }
        if !self.is_work && self.win_id.is_none() {
            let id = self.next_win;
            self.win_id = Some(id);
            self.next_win = if id == u64::MAX {
                0
            } else {
                id + 1
            };
            one(Effect::OpenWindow { id })
        } else {
            Vec::new()
        }
    }

    /// See [`Session::close_window`].
    pub fn close_window(&mut self, id: u64) -> (effects: Vec<Effect>)
        ensures
            (final(self)@, effects@) == old(self)@.close_window(id),
    {
        proof {
            use_type_invariant(&*self);
        }
        self.win_id = None;
        one(Effect::CloseWindow { id })
    }
}

/// A list of this one effect.
fn one(effect: Effect) -> (effects: Vec<Effect>)
    ensures
        effects@ == seq![effect],
{
    let mut effects = Vec::new();
    effects.push(effect);
    effects
}

} // verus!
