use time_keeper::conf::Config;
use time_keeper::stats::{StatisticEntry, Stats};
use time_keeper::time::Time;
use time_keeper::ui::{Effect, Key, Link, Message, Page, TimeKeeper};

fn conf(work_time: u16, free_time: u16, desktop_notifications: bool) -> Config {
    Config { work_time, free_time, desktop_notifications }
}

fn keeper(work_time: u16, free_time: u16, desktop_notifications: bool) -> TimeKeeper {
    TimeKeeper::new(conf(work_time, free_time, desktop_notifications), false, Stats::default())
}

fn none() -> Vec<Effect> {
    Vec::new()
}

#[test]
fn starts_at_work_unpaused_at_zero() {
    let k = keeper(3600, 900, true);
    assert!(k.is_work());
    assert!(!k.is_pause());
    assert!(!k.show_stats());
    assert_eq!(k.elapsed_time(), 0);
    assert!(k.stats().is_empty());
    assert_eq!(k.wtime(), Time::from_secs(3600));
    assert_eq!(k.ftime(), Time::from_secs(900));
    assert_eq!(k.page(), Page::Main);
    assert_eq!(k.conf(), conf(3600, 900, true));
    assert_eq!(k.win_id(), None);
}

#[test]
fn starts_on_the_settings_page_when_no_settings_were_read() {
    let k = TimeKeeper::new(Config::default(), true, Stats::default());
    assert_eq!(k.page(), Page::Settings);
    assert_eq!(k.conf(), conf(3600, 900, true));
}

#[test]
fn starts_with_the_log_that_was_read() {
    let entries = vec![StatisticEntry { date: 7, is_wtime: true, time: 30 }];
    let k = TimeKeeper::new(Config::default(), false, Stats { stats: entries.clone() });
    assert_eq!(k.stats().stats, entries);
}

#[test]
fn fifth_tick_of_five_seconds_of_work_completes_the_phase() {
    let mut k = keeper(5, 3, true);
    for n in 1..=4u16 {
        assert_eq!(k.update_at(Message::TickTime, 100 + n as u64), none());
        assert!(k.is_work());
        assert_eq!(k.elapsed_time(), n);
        assert!(k.stats().is_empty());
    }
    let effects = k.update_at(Message::TickTime, 105);
    assert_eq!(effects, vec![Effect::Notify { finished_work: true }]);
    assert!(!k.is_work());
    assert_eq!(k.elapsed_time(), 0);
    assert_eq!(k.stats().stats, vec![StatisticEntry { date: 105, is_wtime: true, time: 5 }]);
}

#[test]
fn break_completes_after_its_own_length_and_work_follows() {
    let mut k = keeper(2, 3, true);
    k.update_at(Message::TickTime, 1);
    k.update_at(Message::TickTime, 2);
    assert!(!k.is_work());
    assert_eq!(k.update_at(Message::TickTime, 3), none());
    assert_eq!(k.update_at(Message::TickTime, 4), none());
    assert_eq!(k.elapsed_time(), 2);
    assert_eq!(k.update_at(Message::TickTime, 5), vec![Effect::Notify { finished_work: false }]);
    assert!(k.is_work());
    assert_eq!(k.elapsed_time(), 0);
    assert_eq!(
        k.stats().stats,
        vec![
            StatisticEntry { date: 2, is_wtime: true, time: 2 },
            StatisticEntry { date: 5, is_wtime: false, time: 3 },
        ]
    );
}

#[test]
fn phase_of_one_second_completes_at_every_tick() {
    let mut k = keeper(1, 1, true);
    for n in 0..6u64 {
        let was_work = k.is_work();
        assert_eq!(k.update_at(Message::TickTime, n), vec![Effect::Notify { finished_work: was_work }]);
        assert_eq!(k.is_work(), !was_work);
        assert_eq!(k.elapsed_time(), 0);
    }
    assert_eq!(k.stats().len(), 6);
}

#[test]
fn longest_phase_completes_without_overflow() {
    let mut k = keeper(u16::MAX, 1, true);
    for _ in 0..65534u32 {
        assert_eq!(k.update_at(Message::TickTime, 9), none());
    }
    assert_eq!(k.elapsed_time(), 65534);
    assert_eq!(k.remaining(), Time::from_secs(1));
    assert_eq!(k.update_at(Message::TickTime, 9), vec![Effect::Notify { finished_work: true }]);
    assert_eq!(k.stats().stats, vec![StatisticEntry { date: 9, is_wtime: true, time: 65535 }]);
    assert_eq!(k.elapsed_time(), 0);
}

#[test]
fn timer_log_keeps_the_ten_newest_phases() {
    let mut k = keeper(1, 1, true);
    for n in 1..=15u64 {
        k.update_at(Message::TickTime, n);
    }
    let dates: Vec<u64> = k.stats().stats.iter().map(|e| e.date).collect();
    assert_eq!(dates, (6..=15).collect::<Vec<u64>>());
    let shown: Vec<u64> = k.stats_shown().iter().map(|e| e.date).collect();
    assert_eq!(shown, (6..=15).rev().collect::<Vec<u64>>());
}

#[test]
fn ticks_are_suppressed_while_paused() {
    let mut k = keeper(2, 2, false);
    k.update_at(Message::TickTime, 1);
    assert_eq!(k.update_at(Message::StartButtonPressed, 1), none());
    assert!(k.is_pause());
    assert!(!k.wants_ticks());
    for n in 2..10 {
        assert_eq!(k.update_at(Message::TickTime, n), none());
    }
    assert_eq!(k.elapsed_time(), 1);
    assert!(k.is_work());
    assert!(k.stats().is_empty());
    assert_eq!(k.win_id(), None);
    k.update_at(Message::StartButtonPressed, 10);
    assert!(!k.is_pause());
    assert!(k.wants_ticks());
    assert_eq!(k.update_at(Message::TickTime, 11), vec![Effect::OpenWindow { id: 0 }]);
    assert!(!k.is_work());
}

#[test]
fn stop_during_a_break_resets_to_work_and_records_nothing() {
    let mut k = keeper(1, 10, true);
    k.update_at(Message::TickTime, 1);
    for n in 2..=4 {
        k.update_at(Message::TickTime, n);
    }
    assert!(!k.is_work());
    assert_eq!(k.elapsed_time(), 3);
    let before = k.stats().stats.clone();
    assert_eq!(before.len(), 1);
    assert_eq!(k.update_at(Message::StopButtonPressed, 5), none());
    assert!(k.is_work());
    assert_eq!(k.elapsed_time(), 0);
    assert!(k.is_pause());
    assert_eq!(k.stats().stats, before);
}

#[test]
fn stop_during_work_discards_the_phase() {
    let mut k = keeper(10, 10, true);
    k.update_at(Message::TickTime, 1);
    k.update_at(Message::TickTime, 2);
    k.set_stop();
    assert!(k.is_work());
    assert_eq!(k.elapsed_time(), 0);
    assert!(k.is_pause());
    assert!(k.stats().is_empty());
}

#[test]
fn without_notifications_a_break_opens_one_window_and_work_closes_it() {
    let mut k = keeper(2, 3, false);
    let mut all = Vec::new();
    all.extend(k.update_at(Message::TickTime, 1));
    assert_eq!(all, none());
    let entering = k.update_at(Message::TickTime, 2);
    assert_eq!(entering, vec![Effect::OpenWindow { id: 0 }]);
    assert_eq!(k.win_id(), Some(0));
    assert!(!k.is_work());
    all.extend(entering);
    assert_eq!(k.update_at(Message::WindowOpened(0), 2), vec![Effect::MaximizeWindow { id: 0 }]);
    all.extend(k.update_at(Message::TickTime, 3));
    all.extend(k.update_at(Message::TickTime, 4));
    assert_eq!(all, vec![Effect::OpenWindow { id: 0 }]);
    let leaving = k.update_at(Message::TickTime, 5);
    assert_eq!(leaving, vec![Effect::CloseWindow { id: 0 }]);
    assert_eq!(k.win_id(), None);
    assert!(k.is_work());
    all.extend(leaving);
    all.extend(k.update_at(Message::TickTime, 6));
    assert_eq!(all, vec![Effect::OpenWindow { id: 0 }, Effect::CloseWindow { id: 0 }]);
    assert!(all.iter().all(|e| !matches!(e, Effect::Notify { .. })));
    assert_eq!(k.stats().len(), 2);
}

#[test]
fn each_break_gets_a_window_of_its_own() {
    let mut k = keeper(1, 1, false);
    assert_eq!(k.update_at(Message::TickTime, 1), vec![Effect::OpenWindow { id: 0 }]);
    assert_eq!(k.update_at(Message::TickTime, 2), vec![Effect::CloseWindow { id: 0 }]);
    assert_eq!(k.update_at(Message::TickTime, 3), vec![Effect::OpenWindow { id: 1 }]);
    assert_eq!(k.update_at(Message::TickTime, 4), vec![Effect::CloseWindow { id: 1 }]);
}

#[test]
fn with_notifications_no_window_is_opened() {
    let mut k = keeper(1, 2, true);
    for n in 0..12 {
        let effects = k.update_at(Message::TickTime, n);
        assert!(effects.iter().all(|e| matches!(e, Effect::Notify { .. })));
        assert_eq!(k.win_id(), None);
    }
}

#[test]
fn window_closed_by_the_user_comes_back_with_the_next_tick() {
    let mut k = keeper(1, 5, false);
    assert_eq!(k.update_at(Message::TickTime, 1), vec![Effect::OpenWindow { id: 0 }]);
    assert_eq!(k.update_at(Message::WindowClosed(0), 1), vec![Effect::CloseWindow { id: 0 }]);
    assert_eq!(k.win_id(), None);
    assert_eq!(k.update_at(Message::TickTime, 2), vec![Effect::OpenWindow { id: 1 }]);
    assert_eq!(k.win_id(), Some(1));
    assert_eq!(k.elapsed_time(), 1);
}

#[test]
fn turning_notifications_on_closes_the_window_with_the_next_tick() {
    let mut k = keeper(1, 5, false);
    k.update_at(Message::TickTime, 1);
    assert_eq!(k.win_id(), Some(0));
    assert_eq!(k.update_at(Message::NotificationsToggled(true), 1), none());
    assert_eq!(k.win_id(), Some(0));
    assert!(!k.watches_windows());
    assert_eq!(k.update_at(Message::TickTime, 2), vec![Effect::CloseWindow { id: 0 }]);
    assert_eq!(k.win_id(), None);
    assert!(!k.is_work());
    assert_eq!(k.update_at(Message::TickTime, 3), none());
}

#[test]
fn turning_notifications_off_during_a_break_opens_the_window_with_the_next_tick() {
    let mut k = keeper(1, 5, true);
    assert_eq!(k.update_at(Message::TickTime, 1), vec![Effect::Notify { finished_work: true }]);
    k.update_at(Message::NotificationsToggled(false), 1);
    assert!(k.watches_windows());
    assert_eq!(k.update_at(Message::TickTime, 2), vec![Effect::OpenWindow { id: 0 }]);
}

#[test]
fn open_window_message_opens_only_during_a_break_and_only_once() {
    let mut k = keeper(1, 5, true);
    assert_eq!(k.update_at(Message::OpenWindow, 0), none());
    assert_eq!(k.win_id(), None);
    k.update_at(Message::TickTime, 1);
    assert_eq!(k.update_at(Message::OpenWindow, 1), vec![Effect::OpenWindow { id: 0 }]);
    assert_eq!(k.update_at(Message::OpenWindow, 1), none());
    assert_eq!(k.win_id(), Some(0));
}

#[test]
fn close_modal_win_applies_the_rule_of_the_window() {
    let mut k = keeper(1, 5, false);
    assert_eq!(k.close_modal_win(), none());
    k.update_at(Message::TickTime, 1);
    assert_eq!(k.close_modal_win(), none());
    k.set_stop();
    assert_eq!(k.win_id(), Some(0));
    assert_eq!(k.close_modal_win(), vec![Effect::CloseWindow { id: 0 }]);
    assert_eq!(k.win_id(), None);
}

#[test]
fn changed_length_is_read_at_the_next_tick() {
    let mut k = keeper(100, 50, true);
    for n in 1..=10 {
        k.update_at(Message::TickTime, n);
    }
    k.update_at(Message::SettingsButtonPressed, 10);
    k.update_at(Message::WTimeChanged(5), 10);
    assert_eq!(k.wtime(), Time::from_secs(5));
    assert_eq!(k.conf().work_time, 100);
    assert_eq!(k.update_at(Message::SaveSettingsButtonPressed, 10), vec![Effect::SaveConfig]);
    assert_eq!(k.conf(), conf(5, 50, true));
    assert_eq!(k.elapsed_time(), 10);
    assert!(k.is_work());
    assert_eq!(k.remaining(), Time::from_secs(0));
    assert_eq!(k.update_at(Message::TickTime, 11), vec![Effect::Notify { finished_work: true }]);
    assert_eq!(k.stats().stats, vec![StatisticEntry { date: 11, is_wtime: true, time: 11 }]);
    assert!(!k.is_work());
}

#[test]
fn settings_are_saved_only_from_the_settings_page() {
    let mut k = keeper(100, 50, true);
    k.update_at(Message::WTimeChanged(1800), 0);
    k.update_at(Message::FTimeChanged(60), 0);
    assert_eq!(k.update_at(Message::SaveSettingsButtonPressed, 0), none());
    assert_eq!(k.conf(), conf(100, 50, true));
    k.update_at(Message::SettingsButtonPressed, 0);
    assert_eq!(k.page(), Page::Settings);
    assert_eq!(k.save_settings(), vec![Effect::SaveConfig]);
    assert_eq!(k.conf(), conf(1800, 60, true));
    assert_eq!(k.ftime(), Time::from_secs(60));
}

#[test]
fn sliders_do_not_touch_the_running_phase() {
    let mut k = keeper(100, 50, true);
    k.update_at(Message::TickTime, 1);
    k.update_at(Message::WTimeChanged(7200), 1);
    k.update_at(Message::FTimeChanged(600), 1);
    k.update_at(Message::NotificationsToggled(false), 1);
    assert_eq!(k.elapsed_time(), 1);
    assert!(k.is_work());
    assert_eq!(k.conf(), conf(100, 50, false));
    assert_eq!(k.get_sub_time(), 100);
    assert_eq!(k.remaining(), Time::from_secs(99));
}

#[test]
fn selecting_the_shown_page_returns_to_the_main_page() {
    let mut k = keeper(100, 50, true);
    k.update_at(Message::AboutButtonPressed, 0);
    assert_eq!(k.page(), Page::About);
    k.update_at(Message::SettingsButtonPressed, 0);
    assert_eq!(k.page(), Page::Settings);
    k.update_at(Message::SettingsButtonPressed, 0);
    assert_eq!(k.page(), Page::Main);
    k.select_page(Page::Main);
    assert_eq!(k.page(), Page::Main);
    k.select_page(Page::About);
    k.select_page(Page::About);
    assert_eq!(k.page(), Page::Main);
    assert_eq!(Page::default(), Page::Main);
}

#[test]
fn function_keys_act_like_the_buttons() {
    let mut k = keeper(100, 50, true);
    assert_eq!(k.update_at(Message::Event(Key::F1), 0), none());
    assert_eq!(k.page(), Page::About);
    k.update_at(Message::Event(Key::F2), 0);
    assert_eq!(k.page(), Page::Settings);
    k.update_at(Message::Event(Key::F3), 0);
    assert!(k.show_stats());
    k.update_at(Message::Event(Key::F3), 0);
    assert!(!k.show_stats());
    k.update_at(Message::Event(Key::F5), 0);
    assert!(k.is_pause());
    k.update_at(Message::Event(Key::F5), 0);
    assert!(!k.is_pause());
    k.update_at(Message::TickTime, 1);
    k.update_at(Message::Event(Key::Other), 1);
    assert_eq!(k.elapsed_time(), 1);
    assert!(!k.is_pause());
    k.update_at(Message::Event(Key::F6), 1);
    assert_eq!(k.elapsed_time(), 0);
    assert!(k.is_pause());
    assert!(k.is_work());
}

#[test]
fn statistics_are_shown_cleared_and_exported_on_request() {
    let mut k = keeper(1, 1, true);
    k.update_at(Message::TickTime, 0);
    k.update_at(Message::TickTime, 900);
    assert_eq!(k.update_at(Message::ShowStatsButtonPressed, 0), none());
    assert!(k.show_stats());
    assert_eq!(k.update_at(Message::ExportCSVButtonPressed, 0), vec![Effect::ExportCsv]);
    assert_eq!(
        k.stats().gen_csv(),
        "duration;date;type\n0:00:01;01.01 00:00;work\n0:00:01;01.01 00:15;break"
    );
    assert_eq!(k.update_at(Message::ClearStatsButtonPressed, 0), none());
    assert!(k.stats().is_empty());
    assert!(k.show_stats());
}

#[test]
fn links_are_handed_to_the_host() {
    let mut k = keeper(1, 1, true);
    assert_eq!(k.update_at(Message::OpenSiteUrl, 0), vec![Effect::OpenUrl { link: Link::Site }]);
    assert_eq!(k.update_at(Message::OpenRepoUrl, 0), vec![Effect::OpenUrl { link: Link::Repo }]);
    assert_eq!(k.update_at(Message::OpenCratesUrl, 0), vec![Effect::OpenUrl { link: Link::Crates }]);
    assert_eq!(
        k.update_at(Message::OpenTelegramUrl, 0),
        vec![Effect::OpenUrl { link: Link::Telegram }]
    );
    assert_eq!(k.elapsed_time(), 0);
    assert_eq!(Link::Site.url(), "https://timekeepersoft.github.io/");
    assert_eq!(Link::Repo.url(), "https://github.com/mskrasnov/TimeKeeper");
    assert_eq!(Link::Crates.url(), "https://crates.io/crates/time_keeper");
    assert_eq!(Link::Telegram.url(), "https://t.me/TimeKeeperSoft");
}

#[test]
fn footer_is_cut_down_while_the_break_covers_the_screen() {
    let mut k = keeper(1, 5, false);
    assert!(k.full_footer());
    k.update_at(Message::TickTime, 1);
    assert!(!k.full_footer());
    k.update_at(Message::NotificationsToggled(true), 1);
    assert!(k.full_footer());
}

#[test]
fn update_stamps_a_finished_phase_with_the_clock() {
    let mut k = keeper(2, 2, true);
    assert_eq!(k.update(Message::TickTime), none());
    assert_eq!(k.update(Message::StartButtonPressed), none());
    assert_eq!(k.tick_time(), none());
    assert_eq!(k.update(Message::StartButtonPressed), none());
    assert_eq!(k.tick_time(), vec![Effect::Notify { finished_work: true }]);
    assert_eq!(k.stats().len(), 1);
    let entry = k.stats().stats[0];
    assert!(entry.date > 1_577_836_800);
    assert!(entry.is_wtime);
    assert_eq!(entry.time, 2);
    assert_eq!(k.update(Message::WindowOpened(4)), vec![Effect::MaximizeWindow { id: 4 }]);
}
