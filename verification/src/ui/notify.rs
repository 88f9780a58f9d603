//! What a desktop notification says.

use crate::consts::PROG_NAME;
use vstd::prelude::*;

verus! {

/// Name of the text that announces the end of a break.
pub const WORK_NOTIFICATION: &'static str = "work_notification";

/// Name of the text that announces the end of the work.
pub const BREAK_NOTIFICATION: &'static str = "break_notification";

/// A notification, ready to be shown.
#[derive(Debug)]
pub struct Notify {
    pub title: String,
    pub text: String,
}

impl Notify {
    pub fn new(title: String, text: String) -> (notify: Self)
        ensures
            notify.title@ == title@,
            notify.text@ == text@,
    {
        Self { title, text }
    }
}

/// Name of the text to show when a phase is over: after the work
/// (`is_work`) the one that calls for a break, after a break the one that
/// calls back to work.
pub fn notification_key(is_work: bool) -> (key: &'static str)
    ensures
        key@ == if is_work {
            BREAK_NOTIFICATION@
        } else {
            WORK_NOTIFICATION@
        },
{
    match is_work {
        false => WORK_NOTIFICATION,
        true => BREAK_NOTIFICATION,
    }
}

/// The notification for the end of a phase. The two texts are those that
/// go by the names [`WORK_NOTIFICATION`] and [`BREAK_NOTIFICATION`] in the
/// language of the user; the one that [`notification_key`] names is
/// shown, under the name of the program.
pub fn notify_send(is_work: bool, work_text: String, break_text: String) -> (notify: Notify)
    ensures
        notify.title@ == PROG_NAME@,
        notify.text@ == if is_work {
            break_text@
        } else {
            work_text@
        },
{
    let n_text = match is_work {
        false => work_text,
        true => break_text,
    };
    Notify::new(String::from_str(PROG_NAME), n_text)
}

} // verus!
