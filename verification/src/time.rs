//! The instant of a request, held as the calendar fields of a UTC date and
//! time, and the chrono calls that produce and print it.

use vstd::prelude::*;
use crate::text::decimal;
use chrono::{Datelike, Timelike};

verus! {

#[verifier::external_type_specification]
#[verifier::external_body]
pub struct ExNaiveDateTime(chrono::NaiveDateTime);

/// Smallest year chrono represents.
pub const MIN_YEAR: i32 = -262143;

/// Largest year chrono represents.
pub const MAX_YEAR: i32 = 262142;

/// A date and time in UTC, by its calendar fields. A nanosecond of one
/// billion or more marks a leap second, as in chrono, which allows one on any
/// second (a time zone offset can move it off second 59).
#[derive(Debug, Clone, Copy, PartialEq, Eq, Structural)]
pub struct UtcDateTime {
    pub year: i32,
    pub month: u32,
    pub day: u32,
    pub hour: u32,
    pub minute: u32,
    pub second: u32,
    pub nanosecond: u32,
}

/// Leap years of the proleptic Gregorian calendar.
pub open spec fn is_leap_year(year: int) -> bool {
    (year % 4 == 0 && year % 100 != 0) || year % 400 == 0
}

/// Number of days of a month.
pub open spec fn days_in_month(year: int, month: int) -> int {
    if month == 2 {
        if is_leap_year(year) {
            29
        } else {
            28
        }
    } else if month == 4 || month == 6 || month == 9 || month == 11 {
        30
    } else {
        31
    }
}

/// `s` preceded by zeros up to `width` characters.
pub open spec fn zero_pad(s: Seq<char>, width: nat) -> Seq<char> {
    if s.len() >= width {
        s
    } else {
        Seq::new((width - s.len()) as nat, |i: int| '0') + s
    }
}

/// Two-digit text of a small number.
pub open spec fn two_digits(n: int) -> Seq<char> {
    zero_pad(decimal(n as nat), 2)
}

/// The year as chrono writes it: four digits within 0..=9999, otherwise
/// with an explicit sign and at least four digits.
pub open spec fn year_text(year: int) -> Seq<char> {
    if 0 <= year <= 9999 {
        zero_pad(decimal(year as nat), 4)
    } else if year > 9999 {
        seq!['+'] + decimal(year as nat)
    } else {
        seq!['-'] + zero_pad(decimal((-year) as nat), 4)
    }
}

impl UtcDateTime {
    /// The fields describe a date and time that chrono can hold.
    pub open spec fn wf(self) -> bool {
        &&& MIN_YEAR <= self.year <= MAX_YEAR
        &&& 1 <= self.month <= 12
        &&& 1 <= self.day <= days_in_month(self.year as int, self.month as int)
        &&& self.hour < 24
        &&& self.minute < 60
        &&& self.second < 60
        &&& self.nanosecond < 2_000_000_000
    }

    /// The second as printed: a leap second shows as second 60.
    pub open spec fn shown_second(self) -> int {
        if self.nanosecond >= 1_000_000_000 {
            self.second + 1
        } else {
            self.second as int
        }
    }

    /// The fraction of the second as printed.
    pub open spec fn shown_nanosecond(self) -> int {
        if self.nanosecond >= 1_000_000_000 {
            self.nanosecond - 1_000_000_000
        } else {
            self.nanosecond as int
        }
    }

    /// `YYYY-MM-DD`.
    pub open spec fn date_text(self) -> Seq<char> {
        year_text(self.year as int) + seq!['-'] + two_digits(self.month as int) + seq!['-']
            + two_digits(self.day as int)
    }

    /// `hh:mm:ss`.
    pub open spec fn clock_text(self) -> Seq<char> {
        two_digits(self.hour as int) + seq![':'] + two_digits(self.minute as int) + seq![':']
            + two_digits(self.shown_second())
    }

    /// RFC 3339 text with milliseconds and a `Z` offset, as
    /// `to_rfc3339_opts(SecondsFormat::Millis, true)` writes it.
    pub open spec fn rfc3339_millis(self) -> Seq<char> {
        self.date_text() + seq!['T'] + self.clock_text() + seq!['.'] + zero_pad(
            decimal((self.shown_nanosecond() / 1_000_000) as nat),
            3,
        ) + seq!['Z']
    }

    /// The text chrono's `Display` gives a `DateTime<Utc>`.
    pub open spec fn display(self) -> Seq<char> {
        self.date_text() + seq![' '] + self.clock_text() + fraction_text(self.shown_nanosecond())
            + seq![' ', 'U', 'T', 'C']
    }
}

/// The fraction chrono's `Display` writes after the seconds: nothing for
/// zero, else three, six or nine digits, the fewest that are exact.
pub open spec fn fraction_text(nano: int) -> Seq<char> {
    if nano == 0 {
        Seq::empty()
    } else if nano % 1_000_000 == 0 {
        seq!['.'] + zero_pad(decimal((nano / 1_000_000) as nat), 3)
    } else if nano % 1_000 == 0 {
        seq!['.'] + zero_pad(decimal((nano / 1_000) as nat), 6)
    } else {
        seq!['.'] + zero_pad(decimal(nano as nat), 9)
    }
}

/// The calendar fields of a chrono `NaiveDateTime` (its `Datelike` and
/// `Timelike` getters); chrono only holds dates and times that meet `wf`.
#[verifier::external_body]
pub(crate) fn calendar_fields(date_time: &chrono::NaiveDateTime) -> (t: UtcDateTime)
    ensures
        t.wf(),
{
    UtcDateTime {
        year: date_time.year(),
        month: date_time.month(),
        day: date_time.day(),
        hour: date_time.hour(),
        minute: date_time.minute(),
        second: date_time.second(),
        nanosecond: date_time.nanosecond(),
    }
}

/// `NaiveDateTime::and_local_timezone(Local)` followed by `single()` and
/// `to_utc()`: the UTC date and time of a local date and time under the
/// machine's time zone rules for that date, or `None` where the local time
/// does not exist or is ambiguous there. The result depends on the machine's
/// time zone, so nothing is stated of it.
#[verifier::external_body]
pub(crate) fn resolve_local(date_time: &chrono::NaiveDateTime) -> Option<chrono::NaiveDateTime> {
    let local = date_time.and_local_timezone(chrono::Local).single()?;
    Some(local.to_utc().naive_utc())
}

/// The current time: `DateTime<Utc>::from(SystemTime::now())`, as a naive
/// UTC date and time. Unlike `Utc::now()`, this conversion also takes clocks
/// set before 1970. The result is the clock's reading, so nothing is stated
/// of it.
#[verifier::external_body]
pub(crate) fn utc_now() -> chrono::NaiveDateTime {
    chrono::DateTime::<chrono::Utc>::from(std::time::SystemTime::now()).naive_utc()
}

/// `DateTime<Utc>::to_rfc3339_opts(SecondsFormat::Millis, true)` on the date
/// and time given by the fields; the text is the one `rfc3339_millis` states,
/// as chrono's `write_rfc3339` builds it.
#[verifier::external_body]
pub(crate) fn format_rfc3339_millis(t: &UtcDateTime) -> (text: String)
    requires
        t.wf(),
    ensures
        text@ == t.rfc3339_millis(),
{
    // A leap second fraction is only taken at second 59; `with_second` then
    // moves it to the given second, keeping the fraction.
    let date = chrono::NaiveDate::from_ymd_opt(t.year, t.month, t.day).expect("wf date");
    let minute = date.and_hms_nano_opt(t.hour, t.minute, 59, t.nanosecond).expect("wf time");
    let date_time = minute.with_second(t.second).expect("wf second");
    date_time.and_utc().to_rfc3339_opts(chrono::SecondsFormat::Millis, true)
}

/// `Display` of `DateTime<Utc>` on the date and time given by the fields;
/// the text is the one `display` states, as chrono's `Display` impls of
/// `NaiveDate`, `NaiveTime` and `Utc` write it.
#[verifier::external_body]
pub(crate) fn format_display(t: &UtcDateTime) -> (text: String)
    requires
        t.wf(),
    ensures
        text@ == t.display(),
{
    // As in `format_rfc3339_millis`: the fraction is taken at second 59 and
    // moved to the given second.
    let date = chrono::NaiveDate::from_ymd_opt(t.year, t.month, t.day).expect("wf date");
    let minute = date.and_hms_nano_opt(t.hour, t.minute, 59, t.nanosecond).expect("wf time");
    let date_time = minute.with_second(t.second).expect("wf second");
    format!("{}", date_time.and_utc())
}

} // verus!
