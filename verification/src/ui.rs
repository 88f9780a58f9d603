//! The state of the timer and what drives it.
//!
//! [`TimeKeeper`] holds the state. A tick of the clock or an action of the
//! user reaches it as a [`Message`]; [`TimeKeeper::update`] changes the
//! state and answers with the [`Effect`]s that the host is to carry out:
//! showing a notification, opening or closing the window that covers the
//! screen during a break, writing a file. The state machine itself never
//! fails and never waits.

pub mod laws;
pub mod notify;
pub mod update;
pub mod utils;
pub mod view;
pub mod widget;

use crate::conf::Config;
use crate::consts::{PROG_CRATES_URL, PROG_REPO, PROG_SITE, PROG_TELEGRAM};
use crate::stats::{appended, StatisticEntry, Stats};
use crate::time::{Hms, Time};
use vstd::prelude::*;

verus! {

/// What the main window shows.
#[derive(Debug, Clone, Copy, PartialEq, Eq, Structural)]
pub enum Page {
    /// Main program page
    Main,
    /// Settings page
    Settings,
    /// About program, some help info
    About,
}

impl Default for Page {
    fn default() -> (page: Self)
        ensures
            page == Page::Main,
    {
        Page::Main
    }
}

/// A key of the keyboard, as far as the timer tells keys apart.
#[derive(Debug, Clone, Copy, PartialEq, Eq, Structural)]
pub enum Key {
    /// about
    F1,
    /// settings
    F2,
    /// show/hide statistics
    F3,
    /// start/pause
    F5,
    /// stop
    F6,
    /// any other key
    Other,
}

/// The places on the net that the about page leads to.
#[derive(Debug, Clone, Copy, PartialEq, Eq, Structural)]
pub enum Link {
    Site,
    Repo,
    Crates,
    Telegram,
}

impl Link {
    /// The address of this place.
    pub open spec fn address(self) -> Seq<char> {
        match self {
            Link::Site => PROG_SITE@,
            Link::Repo => PROG_REPO@,
            Link::Crates => PROG_CRATES_URL@,
            Link::Telegram => PROG_TELEGRAM@,
        }
    }

    /// The address of this place.
    pub fn url(&self) -> (url: &'static str)
        ensures
            url@ == self.address(),
    {
        match self {
            Link::Site => PROG_SITE,
            Link::Repo => PROG_REPO,
            Link::Crates => PROG_CRATES_URL,
            Link::Telegram => PROG_TELEGRAM,
        }
    }
}

/// What can happen to the timer.
#[derive(Debug, Clone, Copy, PartialEq, Eq, Structural)]
pub enum Message {
    /// A key was pressed
    Event(Key),
    /// A second has passed: the seconds counter is incremented
    TickTime,
    /// The "Start" button toggles between counting and pause
    StartButtonPressed,
    /// The "Stop" button resets the counter, returns to work time and
    /// pauses
    StopButtonPressed,
    AboutButtonPressed,
    OpenSiteUrl,
    OpenRepoUrl,
    OpenCratesUrl,
    OpenTelegramUrl,
    SettingsButtonPressed,
    SaveSettingsButtonPressed,
    ShowStatsButtonPressed,
    ClearStatsButtonPressed,
    ExportCSVButtonPressed,
    /// The slider of the work time was moved to this many seconds
    WTimeChanged(u16),
    /// The slider of the free time was moved to this many seconds
    FTimeChanged(u16),
    /// The checkbox of the notifications was set to this
    NotificationsToggled(bool),
    /// Free time has started and nothing covers the screen yet
    OpenWindow,
    /// The window with this number is now on the screen
    WindowOpened(u64),
    /// The window with this number is to go, or has gone
    WindowClosed(u64),
}

/// What the host is asked to do after a [`Message`].
#[derive(Debug, Clone, Copy, PartialEq, Eq, Structural)]
pub enum Effect {
    /// Tell the user that a phase is over: the work, or the break.
    Notify { finished_work: bool },
    /// Open the window that covers the screen during a break: centred,
    /// above all others, without a frame. It goes by the number `id`.
    OpenWindow { id: u64 },
    /// Let the window `id` fill the screen.
    MaximizeWindow { id: u64 },
    /// Close the window `id`.
    CloseWindow { id: u64 },
    /// Write the settings to their file.
    SaveConfig,
    /// Write the table of statistics to its file.
    ExportCsv,
    /// Show this place in the browser.
    OpenUrl { link: Link },
}

/// The number of the window after the one with number `id`.
pub open spec fn next_id(id: u64) -> u64 {
    if id == u64::MAX {
        0
    } else {
        (id + 1) as u64
    }
}

/// The state of the timer as plain values: what a [`TimeKeeper`] stands
/// for.
pub struct Session {
    /// Working (`true`) or on a break
    pub is_work: bool,
    /// While set, ticks change nothing
    pub is_pause: bool,
    /// Whether the main page shows the statistics
    pub show_stats: bool,
    /// Seconds of the current phase that have passed
    pub elapsed_time: u16,
    /// The finished phases, oldest first
    pub stats: Seq<StatisticEntry>,
    /// Work time as the settings page shows it
    pub wtime: Hms,
    /// Free time as the settings page shows it
    pub ftime: Hms,
    /// Current page
    pub page: Page,
    /// The settings in force
    pub conf: Config,
    /// Number of the window that covers the screen, while there is one
    pub win_id: Option<u64>,
    /// Number that the next such window will get
    pub next_win: u64,
}

impl Session {
    /// The state at the start: at work, counting from zero, on the main
    /// page, or on the settings page where no settings could be read.
    pub open spec fn initial(conf: Config, conf_failed: bool, stats: Seq<StatisticEntry>) -> Session {
        Session {
            is_work: true,
            is_pause: false,
            show_stats: false,
            elapsed_time: 0,
            stats,
            wtime: Hms::of_secs(conf.work_time as nat),
            ftime: Hms::of_secs(conf.free_time as nat),
            page: if conf_failed {
                Page::Settings
            } else {
                Page::Main
            },
            conf,
            win_id: None,
            next_win: 0,
        }
    }

    /// Every reachable state keeps the counter below the largest number
    /// that sixteen bits hold, so that one more second can be counted.
    pub open spec fn inv(self) -> bool {
        self.elapsed_time < u16::MAX
    }

    /// Configured length of the current phase.
    pub open spec fn timer(self) -> u16 {
        self.conf.phase_len(self.is_work)
    }

    /// The seconds left of the current phase; none where the counter has
    /// passed a length that was shortened meanwhile.
    pub open spec fn remaining(self) -> nat {
        if self.elapsed_time <= self.timer() {
            (self.timer() - self.elapsed_time) as nat
        } else {
            0
        }
    }

    /// Start/pause.
    pub open spec fn toggle_pause(self) -> Session {
        Session { is_pause: !self.is_pause, ..self }
    }

    /// Stop: back to work time, counter at zero, paused. The phase that was
    /// under way is dropped, not recorded.
    pub open spec fn stop(self) -> Session {
        Session { elapsed_time: 0, is_work: true, is_pause: true, ..self }
    }

    /// Selecting the page that is shown returns to the main page.
    pub open spec fn select_page(self, page: Page) -> Session {
        Session {
            page: if self.page == page {
                Page::Main
            } else {
                page
            },
            ..self
        }
    }

    pub open spec fn toggle_stats(self) -> Session {
        Session { show_stats: !self.show_stats, ..self }
    }

    pub open spec fn change_wtime(self, secs: u16) -> Session {
        Session { wtime: Hms::of_secs(secs as nat), ..self }
    }

    pub open spec fn change_ftime(self, secs: u16) -> Session {
        Session { ftime: Hms::of_secs(secs as nat), ..self }
    }

    pub open spec fn set_notifications(self, state: bool) -> Session {
        Session { conf: Config { desktop_notifications: state, ..self.conf }, ..self }
    }

    pub open spec fn clear_stats(self) -> Session {
        Session { stats: Seq::empty(), ..self }
    }

    /// On the settings page, the two times shown there become the
    /// settings in force, and the host is asked to write them down.
    /// Elsewhere nothing happens.
    pub open spec fn save_settings(self) -> (Session, Seq<Effect>) {
        if self.page == Page::Settings {
            (
                Session {
                    conf: Config {
                        work_time: self.wtime.total() as u16,
                        free_time: self.ftime.total() as u16,
                        ..self.conf
                    },
                    ..self
                },
                seq![Effect::SaveConfig],
            )
        } else {
            (self, Seq::empty())
        }
    }

    /// During a break, with nothing covering the screen yet, a window is
    /// asked for and its number kept.
    pub open spec fn open_window(self) -> (Session, Seq<Effect>) {
        if !self.is_work && self.win_id is None {
            (
                Session { win_id: Some(self.next_win), next_win: next_id(self.next_win), ..self },
                seq![Effect::OpenWindow { id: self.next_win }],
            )
        } else {
            (self, Seq::empty())
        }
    }

    /// The window `id` goes, and no window is known any more.
    pub open spec fn close_window(self, id: u64) -> (Session, Seq<Effect>) {
        (Session { win_id: None, ..self }, seq![Effect::CloseWindow { id }])
    }

    /// The rule of the covering window. With notifications on there is to
    /// be none. With notifications off there is to be one during a break
    /// and none during work.
    pub open spec fn close_modal_win(self) -> (Session, Seq<Effect>) {
        if self.conf.desktop_notifications {
            match self.win_id {
                Some(id) => self.close_window(id),
                None => (self, Seq::empty()),
            }
        } else {
            match self.win_id {
                Some(id) if self.is_work => self.close_window(id),
                _ => self.open_window(),
            }
        }
    }

    /// Whether the second that is about to be counted ends the phase.
    pub open spec fn completes(self) -> bool {
        self.elapsed_time + 1 >= self.timer()
    }

    /// The entry written when the phase ends at the moment `now`: it holds
    /// the seconds counted, the last one included.
    pub open spec fn finished(self, now: u64) -> StatisticEntry {
        StatisticEntry {
            date: now,
            is_wtime: self.is_work,
            time: (self.elapsed_time + 1) as u16,
        }
    }

    /// One second is counted. When that reaches the length of the phase,
    /// the phase is recorded, the other phase starts at zero, and with
    /// notifications on the user is told.
    pub open spec fn count_second(self, now: u64) -> (Session, Seq<Effect>) {
        if self.completes() {
            (
                Session {
                    stats: appended(self.stats, self.finished(now)),
                    is_work: !self.is_work,
                    elapsed_time: 0,
                    ..self
                },
                if self.conf.desktop_notifications {
                    seq![Effect::Notify { finished_work: self.is_work }]
                } else {
                    Seq::empty()
                },
            )
        } else {
            (Session { elapsed_time: (self.elapsed_time + 1) as u16, ..self }, Seq::empty())
        }
    }

    /// A tick at the moment `now`. While paused it changes nothing. Else
    /// a second is counted, and then the rule of the covering window is
    /// applied to the state that this gave.
    pub open spec fn tick(self, now: u64) -> (Session, Seq<Effect>) {
        if self.is_pause {
            (self, Seq::empty())
        } else {
            let (counted, told) = self.count_second(now);
            let (synced, windows) = counted.close_modal_win();
            (synced, told + windows)
        }
    }

    /// What a key does.
    pub open spec fn handle_events(self, key: Key) -> Session {
        match key {
            Key::F1 => self.select_page(Page::About),
            Key::F2 => self.select_page(Page::Settings),
            Key::F3 => self.toggle_stats(),
            Key::F5 => self.toggle_pause(),
            Key::F6 => self.stop(),
            Key::Other => self,
        }
    }

    /// The state after `message`, and what the host is asked to do. `now`
    /// is the moment of the message in seconds since the start of 1970;
    /// only a tick that ends a phase looks at it.
    pub open spec fn step(self, message: Message, now: u64) -> (Session, Seq<Effect>) {
        match message {
            Message::TickTime => self.tick(now),
            Message::StartButtonPressed => (self.toggle_pause(), Seq::empty()),
            Message::StopButtonPressed => (self.stop(), Seq::empty()),
            Message::SaveSettingsButtonPressed => self.save_settings(),
            Message::ShowStatsButtonPressed => (self.toggle_stats(), Seq::empty()),
            Message::ClearStatsButtonPressed => (self.clear_stats(), Seq::empty()),
            Message::ExportCSVButtonPressed => (self, seq![Effect::ExportCsv]),
            Message::FTimeChanged(secs) => (self.change_ftime(secs), Seq::empty()),
            Message::WTimeChanged(secs) => (self.change_wtime(secs), Seq::empty()),
            Message::NotificationsToggled(state) => (self.set_notifications(state), Seq::empty()),
            Message::Event(key) => (self.handle_events(key), Seq::empty()),
            Message::OpenWindow => self.open_window(),
            Message::WindowOpened(id) => (self, seq![Effect::MaximizeWindow { id }]),
            Message::WindowClosed(id) => self.close_window(id),
            Message::AboutButtonPressed => (self.select_page(Page::About), Seq::empty()),
            Message::SettingsButtonPressed => (self.select_page(Page::Settings), Seq::empty()),
            Message::OpenSiteUrl => (self, seq![Effect::OpenUrl { link: Link::Site }]),
            Message::OpenRepoUrl => (self, seq![Effect::OpenUrl { link: Link::Repo }]),
            Message::OpenCratesUrl => (self, seq![Effect::OpenUrl { link: Link::Crates }]),
            Message::OpenTelegramUrl => (self, seq![Effect::OpenUrl { link: Link::Telegram }]),
        }
    }
}

/// The timer: its state, the settings in force and the finished phases.
#[derive(Debug)]
pub struct TimeKeeper {
    /// Flag indicating whether the user is currently working or not
    is_work: bool,
    /// Flag indicating whether to increase elapsed_time
    is_pause: bool,
    /// If set as `true`, the statistics will be displayed on the main page
    show_stats: bool,
    /// Elapsed time (in seconds)
    elapsed_time: u16,
    /// Information about run/rest times during program work
    stats: Stats,
    /// Work time
    wtime: Time,
    /// Free time
    ftime: Time,
    /// Current page
    page: Page,
    /// Program configuration
    conf: Config,
    /// Number of the modal window
    win_id: Option<u64>,
    /// Number of the next modal window
    next_win: u64,
}

impl View for TimeKeeper {
    type V = Session;

    closed spec fn view(&self) -> Session {
        Session {
            is_work: self.is_work,
            is_pause: self.is_pause,
            show_stats: self.show_stats,
            elapsed_time: self.elapsed_time,
            stats: self.stats@,
            wtime: self.wtime@,
            ftime: self.ftime@,
            page: self.page,
            conf: self.conf,
            win_id: self.win_id,
            next_win: self.next_win,
        }
    }
}

impl TimeKeeper {
    /// Every timer is in a state that [`Session::inv`] accepts.
    #[verifier::type_invariant]
    pub closed spec fn wf(self) -> bool {
        self@.inv()
    }

    /// The timer at the start of the program. `conf` and `stats` are what
    /// was read from the files, or their defaults; `is_err_create_conf`
    /// says that no settings could be read, and leads to the settings
    /// page.
    pub fn new(conf: Config, is_err_create_conf: bool, stats: Stats) -> (keeper: Self)
        ensures
            keeper@ == Session::initial(conf, is_err_create_conf, stats@),
            keeper@.inv(),
    {
        let wtime = Time::from_secs(conf.work_time);
        let ftime = Time::from_secs(conf.free_time);
        Self {
            is_work: true,
            is_pause: false,
            show_stats: false,
            elapsed_time: 0,
            wtime,
            ftime,
            page: if is_err_create_conf {
                Page::Settings
            } else {
                Page::Main
            },
            win_id: None,
            next_win: 0,
            conf,
            stats,
        }
    }
}

} // verus!
