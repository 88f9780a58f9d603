//! Converting seconds to [`Time`] and [`Time`] to seconds, and stamps of
//! the calendar.

use crate::text::{decimal, padded, push_decimal, push_padded};
use chrono::DateTime;
use std::time::SystemTime;
use vstd::prelude::*;

verus! {

/// The `strftime` pattern of a stamp: day and month, hours and minutes.
pub const DATE_PATTERN: &'static str = "%d.%m %H:%M";

/// Shown in place of a stamp that lies outside the calendar.
pub const UNKNOWN_DATE: &'static str = "Неизвестное время";

/// The text that chrono writes, under the `strftime` pattern `pattern`, for
/// the moment `secs` seconds after the start of 1970 in UTC; `None` where
/// that moment lies outside chrono's calendar.
pub uninterp spec fn utc_text(secs: i64, pattern: Seq<char>) -> Option<Seq<char>>;

/// `chrono::DateTime::from_timestamp` with no nanoseconds, then
/// `DateTime::format` and `to_string` on what it gave. Trusted: the result
/// is a function of the two arguments alone, which [`utc_text`] names, and
/// it is `None` exactly when `from_timestamp` finds no such moment. Writing
/// the text fails on a pattern that chrono cannot read, so the only pattern
/// let in is [`DATE_PATTERN`], whose four fields chrono knows.
#[verifier::external_body]
fn format_utc(secs: i64, pattern: &str) -> (text: Option<String>)
    requires
        pattern@ == DATE_PATTERN@,
    ensures
        match text {
            Some(t) => utc_text(secs, pattern@) == Some(t@),
            None => utc_text(secs, pattern@) is None,
        },
{
    let moment = DateTime::from_timestamp(secs, 0)?;
    Some(moment.format(pattern).to_string())
}

/// What [`fmt_date`] shows for a stamp of `s` seconds.
pub open spec fn date_text(s: u64) -> Seq<char> {
    stamp_or_unknown(utc_text(s as i64, DATE_PATTERN@))
}

/// A stamp as it is, and [`UNKNOWN_DATE`] where there is none.
pub open spec fn stamp_or_unknown(stamp: Option<Seq<char>>) -> Seq<char> {
    match stamp {
        Some(text) => text,
        None => UNKNOWN_DATE@,
    }
}

/// The text to show for a stamp that may be missing.
pub fn date_label(stamp: Option<String>) -> (text: String)
    ensures
        text@ == stamp_or_unknown(
            match stamp {
                Some(t) => Some(t@),
                None => None,
            },
        ),
{
    match stamp {
        None => String::from_str(UNKNOWN_DATE),
        Some(text) => text,
    }
}

/// Day, month, hours and minutes (UTC) of the moment `s` seconds after the
/// start of 1970, as `DD.MM HH:MM`.
pub fn fmt_date(s: u64) -> (text: String)
    ensures
        text@ == date_text(s),
{
    date_label(format_utc(s as i64, DATE_PATTERN))
}

/// The system clock (`std::time::SystemTime::now`) in whole seconds since
/// the start of 1970; `None` where the clock stands before that. Trusted,
/// and nothing is promised of the reading: it is the clock's.
#[verifier::external_body]
fn clock_secs() -> Option<u64> {
    let since = SystemTime::now().duration_since(SystemTime::UNIX_EPOCH);
    match since {
        Ok(span) => Some(span.as_secs()),
        Err(_) => None,
    }
}

/// Seconds since the start of 1970 by the system clock, and 0 where the
/// clock stands before that.
pub fn get_current_date() -> u64 {
    secs_of_reading(clock_secs())
}

/// The stamp that a reading of the clock stands for.
pub open spec fn reading_secs(reading: Option<u64>) -> u64 {
    match reading {
        Some(secs) => secs,
        None => 0,
    }
}

/// The stamp for a reading of the clock: the seconds read, and 0 for a
/// clock that stands before the start of 1970.
pub fn secs_of_reading(reading: Option<u64>) -> (secs: u64)
    ensures
        secs == reading_secs(reading),
{
    match reading {
        Some(secs) => secs,
        None => 0,
    }
}

/// The largest number of seconds a [`Time`] can stand for.
pub const MAX_SECS: u16 = 65535;

/// Hours, minutes and seconds as plain numbers: what a [`Time`] stands for.
pub struct Hms {
    pub hours: nat,
    pub mins: nat,
    pub secs: nat,
}

impl Hms {
    /// The whole span in seconds.
    pub open spec fn total(self) -> nat {
        3600 * self.hours + 60 * self.mins + self.secs
    }

    /// Minutes and seconds stay below sixty, and the whole span fits in
    /// sixteen bits. This is the only bound on the hours, so they reach at
    /// most 18.
    pub open spec fn is_valid(self) -> bool {
        &&& self.mins < 60
        &&& self.secs < 60
        &&& self.total() <= MAX_SECS
    }

    /// Splits a number of seconds into hours, minutes and seconds.
    pub open spec fn of_secs(total: nat) -> Hms {
        Hms { hours: total / 3600, mins: (total % 3600) / 60, secs: total % 60 }
    }

    /// `H:MM:SS`: minutes and seconds zero-padded, hours not.
    pub open spec fn text(self) -> Seq<char> {
        decimal(self.hours) + seq![':'] + padded(self.mins) + seq![':'] + padded(self.secs)
    }

    /// `H:MM`: the seconds are left out, not rounded.
    pub open spec fn text_without_secs(self) -> Seq<char> {
        decimal(self.hours) + seq![':'] + padded(self.mins)
    }
}

/// Why three numbers are no [`Time`].
#[derive(Debug, Clone, Copy, PartialEq, Eq, Structural)]
pub enum RangeError {
    /// With this many hours the span is longer than [`MAX_SECS`] seconds.
    Hours { given: u8 },
    /// Sixty minutes or more.
    Minutes { given: u8 },
    /// Sixty seconds or more.
    Seconds { given: u8 },
}

/// The verdict on three numbers offered as hours, minutes and seconds. The
/// hours are judged first, then the minutes, then the seconds.
pub open spec fn check_parts(h: u8, m: u8, s: u8) -> Result<Hms, RangeError> {
    if 3600 * h + 60 * m + s > MAX_SECS {
        Err(RangeError::Hours { given: h })
    } else if m >= 60 {
        Err(RangeError::Minutes { given: m })
    } else if s >= 60 {
        Err(RangeError::Seconds { given: s })
    } else {
        Ok(Hms { hours: h as nat, mins: m as nat, secs: s as nat })
    }
}

/// Splitting any sixteen-bit number of seconds and adding the parts up
/// again gives the number back, and the parts are valid.
pub proof fn lemma_secs_round_trip(total: u16)
    ensures
        Hms::of_secs(total as nat).total() == total,
        Hms::of_secs(total as nat).is_valid(),
{
}

/// Valid parts are exactly the parts of their total: a valid time is
/// found again from its seconds.
pub proof fn lemma_parts_round_trip(hms: Hms)
    requires
        hms.is_valid(),
    ensures
        Hms::of_secs(hms.total()) == hms,
{
}

/// Minutes and seconds below sixty are accepted, with any hours that keep
/// the span within [`MAX_SECS`] seconds.
pub proof fn lemma_parts_accepted(h: u8, m: u8, s: u8)
    requires
        m < 60,
        s < 60,
        3600 * h + 60 * m + s <= MAX_SECS,
    ensures
        check_parts(h, m, s) == Ok::<Hms, RangeError>(
            Hms { hours: h as nat, mins: m as nat, secs: s as nat },
        ),
{
}

/// Sixty minutes or more, or sixty seconds or more, are rejected whatever
/// the hours.
pub proof fn lemma_parts_rejected(h: u8, m: u8, s: u8)
    requires
        m >= 60 || s >= 60,
    ensures
        check_parts(h, m, s) is Err,
{
}

impl RangeError {
    /// The sentence that [`RangeError::message`] builds.
    pub open spec fn text(self) -> Seq<char> {
        match self {
            RangeError::Hours { given } =>
                "Value `h` is out of range (the time may not pass 18:12:15, given: "@ + decimal(
                    given as nat,
                ) + ")"@,
            RangeError::Minutes { given } => "Value `m` is out of range (max: 59, given: "@
                + decimal(given as nat) + ")"@,
            RangeError::Seconds { given } => "Value `s` is out of range (max: 59, given: "@
                + decimal(given as nat) + ")"@,
        }
    }

    /// A sentence for the user that names the offending value.
    pub fn message(&self) -> (msg: String)
        ensures
            msg@ == self.text(),
    {
        let (head, given) = match self {
            RangeError::Hours { given } => (
                "Value `h` is out of range (the time may not pass 18:12:15, given: ",
                *given,
            ),
            RangeError::Minutes { given } => (
                "Value `m` is out of range (max: 59, given: ",
                *given,
            ),
            RangeError::Seconds { given } => (
                "Value `s` is out of range (max: 59, given: ",
                *given,
            ),
        };
        let mut msg = String::from_str(head);
        push_decimal(&mut msg, given);
        msg.append(")");
        msg
    }
}

/// Time representation in `TimeKeeper`
///
/// ## Value ranges
/// - Hours: [0; 18]
/// - Minutes: [0; 59]
/// - Seconds: [0; 59]
///
/// and no more than [`MAX_SECS`] seconds in all.
#[derive(Debug, Clone, Copy, PartialEq, Eq)]
pub struct Time {
    hours: u8,
    mins: u8,
    secs: u8,
}

impl View for Time {
    type V = Hms;

    closed spec fn view(&self) -> Hms {
        Hms { hours: self.hours as nat, mins: self.mins as nat, secs: self.secs as nat }
    }
}

impl Default for Time {
    fn default() -> (time: Self)
        ensures
            time@ == Hms::of_secs(0),
    {
        Self { hours: 0, mins: 0, secs: 0 }
    }
}

impl Time {
    /// Every `Time` is a valid one.
    #[verifier::type_invariant]
    pub closed spec fn wf(self) -> bool {
        self@.is_valid()
    }

    /// A time from its parts. The parts must pass [`check_parts`];
    /// [`Time::try_new`] takes any three numbers.
    pub fn new(h: u8, m: u8, s: u8) -> (time: Self)
        requires
            check_parts(h, m, s) is Ok,
        ensures
            time@ == (Hms { hours: h as nat, mins: m as nat, secs: s as nat }),
            time@.is_valid(),
    {
        Self { hours: h, mins: m, secs: s }
    }

    /// A time from its parts, or the reason why they are none.
    pub fn try_new(h: u8, m: u8, s: u8) -> (res: Result<Self, RangeError>)
        ensures
            res is Ok <==> (m < 60 && s < 60 && 3600 * h + 60 * m + s <= MAX_SECS),
            match res {
                Ok(time) => check_parts(h, m, s) == Ok::<Hms, RangeError>(time@) && time@.is_valid(),
                Err(e) => check_parts(h, m, s) == Err::<Hms, RangeError>(e),
            },
    {
        if 3600 * (h as u32) + 60 * (m as u32) + (s as u32) > 65535 {
            return Err(RangeError::Hours { given: h });
        } else if m >= 60 {
            return Err(RangeError::Minutes { given: m });
        } else if s >= 60 {
            return Err(RangeError::Seconds { given: s });
        }
        Ok(Self { hours: h, mins: m, secs: s })
    }

    /// Creates a new instance of `Time` from seconds
    pub fn from_secs(s: u16) -> (time: Self)
        ensures
            time@ == Hms::of_secs(s as nat),
            time@.total() == s,
            time@.is_valid(),
    {
        let hours: u8 = (s / 3600) as u8;
        let minutes: u8 = ((s % 3600) / 60) as u8;
        let secs: u8 = (s % 60) as u8;
        Self { hours, mins: minutes, secs }
    }

    /// The same as [`Time::from_secs`]: every number of seconds has its
    /// `Time`, so the result is always `Ok`.
    pub fn try_from_secs(s: u16) -> (res: Result<Self, RangeError>)
        ensures
            res matches Ok(time) && time@ == Hms::of_secs(s as nat) && time@.total() == s,
    {
        Ok(Self::from_secs(s))
    }

    /// Convert [`Time`] to seconds
    pub fn to_secs(&self) -> (s: u16)
        ensures
            s == self@.total(),
            self@ == Hms::of_secs(s as nat),
            self@.is_valid(),
    {
        proof {
            use_type_invariant(self);
        }
        3600 * (self.hours as u16) + 60 * (self.mins as u16) + (self.secs as u16)
    }

    /// The hours of this time.
    pub fn hours(&self) -> (h: u8)
        ensures
            h == self@.hours,
    {
        self.hours
    }

    /// The minutes of this time, below sixty.
    pub fn mins(&self) -> (m: u8)
        ensures
            m == self@.mins,
            m < 60,
    {
        proof {
            use_type_invariant(self);
        }
        self.mins
    }

    /// The seconds of this time, below sixty.
    pub fn secs(&self) -> (s: u8)
        ensures
            s == self@.secs,
            s < 60,
    {
        proof {
            use_type_invariant(self);
        }
        self.secs
    }

    /// Renders the time as `H:MM:SS`.
    pub fn to_string(&self) -> (text: String)
        ensures
            text@ == self@.text(),
    {
        proof {
            reveal_strlit(":");
        }
        let mut text = String::new();
        push_decimal(&mut text, self.hours);
        text.append(":");
        push_padded(&mut text, self.mins);
        text.append(":");
        push_padded(&mut text, self.secs);
        assert(text@ =~= self@.text());
        text
    }

    /// Renders the time as `H:MM`.
    pub fn to_string_without_secs(&self) -> (text: String)
        ensures
            text@ == self@.text_without_secs(),
    {
        proof {
            reveal_strlit(":");
        }
        let mut text = String::new();
        push_decimal(&mut text, self.hours);
        text.append(":");
        push_padded(&mut text, self.mins);
        assert(text@ =~= self@.text_without_secs());
        text
    }
}

} // verus!
