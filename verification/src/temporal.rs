//! Calendar dates and times of day as plain numbers, and the text the
//! browser shows for them.

use vstd::prelude::*;
use crate::text::digit_char;

verus! {

/// A calendar date of the proleptic Gregorian calendar.
#[derive(Clone, Copy, Debug, PartialEq, Eq, Structural)]
pub struct DateValue {
    pub year: i32,
    /// The month, counted from 1.
    pub month: u32,
    /// The day of the month, counted from 1.
    pub day: u32,
}

/// A time of day. A nanosecond count of a thousand million or more
/// marks a leap second, which only second 59 can carry.
#[derive(Clone, Copy, Debug, PartialEq, Eq, Structural)]
pub struct TimeValue {
    pub hour: u32,
    pub minute: u32,
    pub second: u32,
    pub nanosecond: u32,
}

/// A date with a time of day, without a time zone.
#[derive(Clone, Copy, Debug, PartialEq, Eq, Structural)]
pub struct DateTimeValue {
    pub date: DateValue,
    pub time: TimeValue,
}

/// Whether the day exists, as chrono's `NaiveDate::from_ymd_opt` decides
/// it: a day of a month of the proleptic Gregorian calendar, in a year
/// that a `NaiveDate` can hold.
pub uninterp spec fn date_exists(year: int, month: int, day: int) -> bool;

/// The dates that exist.
pub open spec fn valid_date(date: DateValue) -> bool {
    date_exists(date.year as int, date.month as int, date.day as int)
}

/// The times that exist.
pub open spec fn valid_time(time: TimeValue) -> bool {
    &&& time.hour < 24
    &&& time.minute < 60
    &&& time.second < 60
    &&& time.nanosecond < 2_000_000_000
    &&& (time.nanosecond >= 1_000_000_000 ==> time.second == 59)
}

/// The date-times that exist.
pub open spec fn valid_date_time(value: DateTimeValue) -> bool {
    valid_date(value.date) && valid_time(value.time)
}

/// The last `width` decimal digits of `n`, with leading zeros.
pub open spec fn fixed_digits(n: nat, width: nat) -> Seq<char>
    decreases width,
{
    if width == 0 {
        Seq::empty()
    } else {
        fixed_digits(n / 10, (width - 1) as nat).push(digit_char(n % 10))
    }
}

/// The decimal digits of `n`, at least four of them.
pub open spec fn year_digits(n: nat) -> Seq<char> {
    if n <= 9999 {
        fixed_digits(n, 4)
    } else if n <= 99999 {
        fixed_digits(n, 5)
    } else {
        fixed_digits(n, 6)
    }
}

/// A year as written in a date: four digits from 0 to 9999, otherwise
/// a sign and at least four digits.
pub open spec fn year_text(year: int) -> Seq<char> {
    if 0 <= year <= 9999 {
        fixed_digits(year as nat, 4)
    } else if year < 0 {
        seq!['-'] + year_digits((-year) as nat)
    } else {
        seq!['+'] + year_digits(year as nat)
    }
}

/// A date as year, month and day, separated by hyphens.
pub open spec fn date_text(date: DateValue) -> Seq<char> {
    year_text(date.year as int) + seq!['-'] + fixed_digits(date.month as nat, 2) + seq!['-']
        + fixed_digits(date.day as nat, 2)
}

/// The fraction of a second: nothing for a whole second, otherwise a
/// point and three, six or nine digits, the fewest that lose nothing.
pub open spec fn fraction_text(nanosecond: nat) -> Seq<char> {
    if nanosecond == 0 {
        Seq::empty()
    } else if nanosecond % 1_000_000 == 0 {
        seq!['.'] + fixed_digits(nanosecond / 1_000_000, 3)
    } else if nanosecond % 1_000 == 0 {
        seq!['.'] + fixed_digits(nanosecond / 1_000, 6)
    } else {
        seq!['.'] + fixed_digits(nanosecond, 9)
    }
}

/// A time of day as hour, minute and second, separated by colons, and
/// the fraction of the second. A leap second reads as second 60.
pub open spec fn time_text(time: TimeValue) -> Seq<char> {
    let leap = time.nanosecond >= 1_000_000_000;
    let second = if leap {
        time.second + 1
    } else {
        time.second as int
    };
    let nanosecond = if leap {
        time.nanosecond - 1_000_000_000
    } else {
        time.nanosecond as int
    };
    fixed_digits(time.hour as nat, 2) + seq![':'] + fixed_digits(time.minute as nat, 2) + seq![':']
        + fixed_digits(second as nat, 2) + fraction_text(nanosecond as nat)
}

/// A date and a time of day, separated by a space.
pub open spec fn date_time_text(value: DateTimeValue) -> Seq<char> {
    date_text(value.date) + seq![' '] + time_text(value.time)
}

/// A moment in UTC as RFC 3339 writes it: date, `T`, time of day and
/// the offset `+00:00`.
pub open spec fn timestamp_text(value: DateTimeValue) -> Seq<char> {
    date_text(value.date) + seq!['T'] + time_text(value.time) + "+00:00"@
}

/// Calls chrono's `NaiveDate::from_ymd_opt` and the `Display` of the
/// date it gives. The contract names whether the date is accepted, and
/// claims that an accepted date is shown as `%Y-%m-%d`: the year in
/// four digits from 0 to 9999 and with a sign otherwise, month and day
/// in two digits.
#[verifier::external_body]
pub(crate) fn show_date(date: DateValue) -> (text: Option<String>)
    ensures
        text is Some <==> date_exists(date.year as int, date.month as int, date.day as int),
        text matches Some(s) ==> s@ == date_text(date),
{
    match sqlx::types::chrono::NaiveDate::from_ymd_opt(date.year, date.month, date.day) {
        Some(d) => Some(d.to_string()),
        None => None,
    }
}

/// Calls chrono's `NaiveTime::from_hms_nano_opt` and the `Display` of
/// the time it gives. The contract claims that the time is accepted
/// exactly when its parts are in range, and that it is shown as
/// `%H:%M:%S%.f`: hour, minute and second in two digits, then the
/// fraction in the fewest of three, six or nine digits.
#[verifier::external_body]
pub(crate) fn show_time(time: TimeValue) -> (text: Option<String>)
    ensures
        text is Some <==> valid_time(time),
        text matches Some(s) ==> s@ == time_text(time),
{
    match sqlx::types::chrono::NaiveTime::from_hms_nano_opt(
        time.hour,
        time.minute,
        time.second,
        time.nanosecond,
    ) {
        Some(t) => Some(t.to_string()),
        None => None,
    }
}

/// Calls the `Display` of chrono's `NaiveDateTime`, on the value that
/// `NaiveDate::from_ymd_opt`, `NaiveTime::from_hms_nano_opt` and
/// `NaiveDateTime::new` give. The contract claims that the value is
/// accepted exactly when date and time are, and that it is shown as
/// date, space, time.
#[verifier::external_body]
pub(crate) fn show_date_time(value: DateTimeValue) -> (text: Option<String>)
    ensures
        text is Some <==> valid_date_time(value),
        text matches Some(s) ==> s@ == date_time_text(value),
{
    let date = sqlx::types::chrono::NaiveDate::from_ymd_opt(
        value.date.year,
        value.date.month,
        value.date.day,
    )?;
    let time = sqlx::types::chrono::NaiveTime::from_hms_nano_opt(
        value.time.hour,
        value.time.minute,
        value.time.second,
        value.time.nanosecond,
    )?;
    Some(sqlx::types::chrono::NaiveDateTime::new(date, time).to_string())
}

/// Calls chrono's `DateTime::<Utc>::to_rfc3339`, on the value that
/// `NaiveDate::from_ymd_opt`, `NaiveTime::from_hms_nano_opt`,
/// `NaiveDateTime::new` and `NaiveDateTime::and_utc` give. The contract
/// claims that the value is accepted exactly when date and time are,
/// and that it is shown as date, `T`, time and `+00:00`.
#[verifier::external_body]
pub(crate) fn show_timestamp(value: DateTimeValue) -> (text: Option<String>)
    ensures
        text is Some <==> valid_date_time(value),
        text matches Some(s) ==> s@ == timestamp_text(value),
{
    let date = sqlx::types::chrono::NaiveDate::from_ymd_opt(
        value.date.year,
        value.date.month,
        value.date.day,
    )?;
    let time = sqlx::types::chrono::NaiveTime::from_hms_nano_opt(
        value.time.hour,
        value.time.minute,
        value.time.second,
        value.time.nanosecond,
    )?;
    Some(sqlx::types::chrono::NaiveDateTime::new(date, time).and_utc().to_rfc3339())
}

} // verus!
