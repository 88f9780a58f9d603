//! What holds of the timer in every state.

use super::{Effect, Message, Session};
use crate::stats::MAX_ENTRIES;
use vstd::prelude::*;

verus! {

/// No message leads out of the states that [`Session::inv`] accepts.
pub proof fn lemma_step_keeps_inv(s: Session, message: Message, now: u64)
    requires
        s.inv(),
    ensures
        s.step(message, now).0.inv(),
{
}

/// After a tick that the pause does not suppress, the counter is below
/// the length of the phase then under way: a tick that reaches the length
/// starts the other phase at zero in the same step.
pub proof fn lemma_tick_below_length(s: Session, now: u64)
    requires
        s.inv(),
        s.conf.is_valid(),
        !s.is_pause,
    ensures
        s.tick(now).0.elapsed_time < s.tick(now).0.timer(),
{
}

/// While paused, a tick changes nothing and asks for nothing.
pub proof fn lemma_paused_tick(s: Session, now: u64)
    requires
        s.is_pause,
    ensures
        s.tick(now) == (s, Seq::<Effect>::empty()),
{
}

/// A tick that ends a phase records exactly that phase, with the seconds
/// counted, and starts the other phase at zero; a tick that ends none
/// records nothing and counts one second.
pub proof fn lemma_tick_records(s: Session, now: u64)
    requires
        s.inv(),
        !s.is_pause,
    ensures
        s.completes() ==> {
            &&& s.tick(now).0.stats == crate::stats::appended(s.stats, s.finished(now))
            &&& s.tick(now).0.is_work == !s.is_work
            &&& s.tick(now).0.elapsed_time == 0
        },
        !s.completes() ==> {
            &&& s.tick(now).0.stats == s.stats
            &&& s.tick(now).0.is_work == s.is_work
            &&& s.tick(now).0.elapsed_time == s.elapsed_time + 1
        },
{
}

/// No message lets a log within the cap grow beyond it.
pub proof fn lemma_step_keeps_cap(s: Session, message: Message, now: u64)
    requires
        s.stats.len() <= MAX_ENTRIES,
    ensures
        s.step(message, now).0.stats.len() <= MAX_ENTRIES,
{
}

/// Stop returns to work time at zero and pauses, and records nothing,
/// whatever was under way.
pub proof fn lemma_stop_records_nothing(s: Session, now: u64)
    ensures
        s.step(Message::StopButtonPressed, now).0.is_work,
        s.step(Message::StopButtonPressed, now).0.elapsed_time == 0,
        s.step(Message::StopButtonPressed, now).0.is_pause,
        s.step(Message::StopButtonPressed, now).0.stats == s.stats,
        s.step(Message::StopButtonPressed, now).1 == Seq::<Effect>::empty(),
{
}

/// A change on the settings page touches neither the phase under way nor
/// its counter nor the log, and of the settings in force only the
/// notifications.
pub proof fn lemma_settings_leave_phase(s: Session, message: Message, now: u64)
    requires
        message is WTimeChanged || message is FTimeChanged || message is NotificationsToggled
            || message is SaveSettingsButtonPressed,
    ensures
        s.step(message, now).0.is_work == s.is_work,
        s.step(message, now).0.elapsed_time == s.elapsed_time,
        s.step(message, now).0.is_pause == s.is_pause,
        s.step(message, now).0.stats == s.stats,
        s.step(message, now).0.win_id == s.win_id,
        !(message is SaveSettingsButtonPressed) ==> {
            &&& s.step(message, now).0.conf.work_time == s.conf.work_time
            &&& s.step(message, now).0.conf.free_time == s.conf.free_time
        },
{
}

/// With notifications off, no message makes the timer ask for one.
pub proof fn lemma_no_notify_when_disabled(s: Session, message: Message, now: u64)
    requires
        !s.conf.desktop_notifications,
    ensures
        forall|i: int|
            0 <= i < s.step(message, now).1.len() ==> !(#[trigger] s.step(message, now).1[i]
                is Notify),
{
}

/// With notifications on, a tick opens no window, and after it none
/// covers the screen.
pub proof fn lemma_notifications_keep_screen_free(s: Session, now: u64)
    requires
        s.conf.desktop_notifications,
        !s.is_pause,
    ensures
        s.tick(now).0.win_id is None,
        forall|i: int|
            0 <= i < s.tick(now).1.len() ==> !(#[trigger] s.tick(now).1[i] is OpenWindow),
{
}

/// After a tick that the pause does not suppress, a window covers the
/// screen only during a break and only with notifications off.
pub proof fn lemma_window_only_in_break(s: Session, now: u64)
    requires
        !s.is_pause,
    ensures
        s.tick(now).0.win_id is Some ==> !s.tick(now).0.is_work
            && !s.tick(now).0.conf.desktop_notifications,
{
}

/// With notifications off, the tick that ends the work asks for exactly
/// one thing: the window, under the number that the timer then keeps.
pub proof fn lemma_break_opens_window(s: Session, now: u64)
    requires
        s.inv(),
        !s.is_pause,
        !s.conf.desktop_notifications,
        s.is_work,
        s.completes(),
        s.win_id is None,
    ensures
        s.tick(now).1 == seq![Effect::OpenWindow { id: s.next_win }],
        s.tick(now).0.win_id == Some(s.next_win),
        !s.tick(now).0.is_work,
{
}

/// With notifications off, a tick during the break that does not end it
/// asks for nothing while the window is there.
pub proof fn lemma_break_keeps_window(s: Session, now: u64)
    requires
        s.inv(),
        !s.is_pause,
        !s.conf.desktop_notifications,
        !s.is_work,
        !s.completes(),
        s.win_id is Some,
    ensures
        s.tick(now).1 == Seq::<Effect>::empty(),
        s.tick(now).0.win_id == s.win_id,
{
}

/// With notifications off, the tick that ends the break asks for exactly
/// one thing: to close the window that was opened for it.
pub proof fn lemma_work_closes_window(s: Session, now: u64, id: u64)
    requires
        s.inv(),
        !s.is_pause,
        !s.conf.desktop_notifications,
        !s.is_work,
        s.completes(),
        s.win_id == Some(id),
    ensures
        s.tick(now).1 == seq![Effect::CloseWindow { id }],
        s.tick(now).0.win_id is None,
        s.tick(now).0.is_work,
{
}

} // verus!
