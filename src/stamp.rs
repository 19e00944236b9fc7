//! Arrival times: a calendar date and a clock time, read from the system
//! clock through the `time` crate and stored as `YYYY-MM-DD HH:MM:SS`.

use vstd::prelude::*;

verus! {

/// A date and a time of day, as the clock gave them.
#[derive(Debug, Clone, Copy, PartialEq, Eq, Structural)]
pub struct Stamp {
    pub year: i32,
    pub month: u8,
    pub day: u8,
    pub hour: u8,
    pub minute: u8,
    pub second: u8,
}

pub open spec fn is_leap_year(y: int) -> bool {
    (y % 4 == 0 && y % 100 != 0) || y % 400 == 0
}

pub open spec fn days_in_month(y: int, m: int) -> int {
    if m == 2 {
        if is_leap_year(y) {
            29
        } else {
            28
        }
    } else if m == 4 || m == 6 || m == 9 || m == 11 {
        30
    } else {
        31
    }
}

pub open spec fn digit_char(d: int) -> char {
    if d == 0 {
        '0'
    } else if d == 1 {
        '1'
    } else if d == 2 {
        '2'
    } else if d == 3 {
        '3'
    } else if d == 4 {
        '4'
    } else if d == 5 {
        '5'
    } else if d == 6 {
        '6'
    } else if d == 7 {
        '7'
    } else if d == 8 {
        '8'
    } else {
        '9'
    }
}

/// `v` in two decimal digits, zero-padded.
pub open spec fn two_digits(v: int) -> Seq<char> {
    seq![digit_char(v / 10 % 10), digit_char(v % 10)]
}

/// `v` in four decimal digits, zero-padded.
pub open spec fn four_digits(v: int) -> Seq<char> {
    seq![digit_char(v / 1000 % 10), digit_char(v / 100 % 10), digit_char(v / 10 % 10), digit_char(v % 10)]
}

/// The year: a minus sign before years below zero, then four digits.
pub open spec fn year_text(y: int) -> Seq<char> {
    if y < 0 {
        seq!['-'] + four_digits(-y)
    } else {
        four_digits(y)
    }
}

/// The stored form of a stamp: `YYYY-MM-DD HH:MM:SS`.
pub open spec fn stamp_text(s: Stamp) -> Seq<char> {
    year_text(s.year as int) + seq!['-'] + two_digits(s.month as int) + seq!['-'] + two_digits(
        s.day as int,
    ) + seq![' '] + two_digits(s.hour as int) + seq![':'] + two_digits(s.minute as int) + seq![
        ':',
    ] + two_digits(s.second as int)
}

impl Stamp {
    /// A real calendar date and time of day, within the years -9999 to 9999.
    pub open spec fn valid(&self) -> bool {
        &&& -9999 <= self.year <= 9999
        &&& 1 <= self.month <= 12
        &&& 1 <= self.day <= days_in_month(self.year as int, self.month as int)
        &&& self.hour < 24
        &&& self.minute < 60
        &&& self.second < 60
    }

    /// Whether this stamp is a real date and time in the supported years.
    pub fn is_valid(&self) -> (r: bool)
        ensures
            r == self.valid(),
    {
        if self.year < -9999 || self.year > 9999 || self.month < 1 || self.month > 12 {
            return false;
        }
        let y = self.year;
        let leap = (y % 4 == 0 && y % 100 != 0) || y % 400 == 0;
        let days: u8 = if self.month == 2 {
            if leap {
                29
            } else {
                28
            }
        } else if self.month == 4 || self.month == 6 || self.month == 9 || self.month == 11 {
            30
        } else {
            31
        };
        1 <= self.day && self.day <= days && self.hour < 24 && self.minute < 60 && self.second < 60
    }
}

/// Relies on time's `OffsetDateTime::now_local`: the current date and time
/// in the machine's local offset, or an error when that offset is unknown.
/// A value of time's `OffsetDateTime` is always a real date and time, and
/// without the `large-dates` feature its year lies in -9999..=9999.
#[verifier::external_body]
fn local_now() -> (r: Option<Stamp>)
    ensures
        r matches Some(s) ==> s.valid(),
{
    match time::OffsetDateTime::now_local() {
        Ok(t) => Some(
            Stamp {
                year: t.year(),
                month: u8::from(t.month()),
                day: t.day(),
                hour: t.hour(),
                minute: t.minute(),
                second: t.second(),
            },
        ),
        Err(_) => None,
    }
}

/// Relies on time's `OffsetDateTime::now_utc`: the current date and time in
/// UTC, always a real date and time within time's year range.
#[verifier::external_body]
fn utc_now() -> (r: Stamp)
    ensures
        r.valid(),
{
    let t = time::OffsetDateTime::now_utc();
    Stamp {
        year: t.year(),
        month: u8::from(t.month()),
        day: t.day(),
        hour: t.hour(),
        minute: t.minute(),
        second: t.second(),
    }
}

/// The `time` format description of the stored form.
pub open spec fn stamp_description() -> Seq<char> {
    "[year]-[month]-[day] [hour]:[minute]:[second]"@
}

/// Relies on time's `PrimitiveDateTime::format` with the description
/// `[year]-[month]-[day] [hour]:[minute]:[second]`, whose components all
/// default to zero padding and whose year carries a sign only when negative.
/// The date and time are built from a valid stamp and the description is
/// well formed, so no step fails.
#[verifier::external_body]
fn format_stamp(s: &Stamp, description: &str) -> (r: Option<String>)
    requires
        s.valid(),
        description@ == stamp_description(),
    ensures
        r is Some,
        r.unwrap()@ == stamp_text(*s),
{
    let month = time::Month::try_from(s.month).ok()?;
    let date = time::Date::from_calendar_date(s.year, month, s.day).ok()?;
    let clock = time::Time::from_hms(s.hour, s.minute, s.second).ok()?;
    let items = time::format_description::parse(description).ok()?;
    time::PrimitiveDateTime::new(date, clock).format(&items).ok()
}

/// The arrival time to record from two clock readings: the local time
/// when it could be determined, else UTC.
pub fn arrival_stamp(local: Option<Stamp>, utc: Stamp) -> (r: Stamp)
    ensures
        r == (match local {
            Some(s) => s,
            None => utc,
        }),
{
    match local {
        Some(s) => s,
        None => utc,
    }
}

/// The time at which a message arriving now is recorded: local time, or
/// UTC when the local offset cannot be determined.
pub fn current_stamp() -> (r: Stamp)
    ensures
        r.valid(),
{
    let local = local_now();
    let utc = utc_now();
    arrival_stamp(local, utc)
}

/// The text under which a message's arrival time is stored.
pub fn format_timestamp(s: &Stamp) -> (r: String)
    requires
        s.valid(),
    ensures
        r@ == stamp_text(*s),
{
    match format_stamp(s, "[year]-[month]-[day] [hour]:[minute]:[second]") {
        Some(t) => t,
        None => String::new(),
    }
}

} // verus!
