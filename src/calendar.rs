//! Calendar dates as plain values, and the few date computations that are
//! left to chrono: the current date, adding days, and reading ISO dates.
use crate::models::DbError;
use chrono::Datelike;
use vstd::prelude::*;

verus! {

/// A date of the proleptic Gregorian calendar.
#[derive(Clone, Copy, Debug, PartialEq, Eq, Structural)]
pub struct Date {
    pub year: i32,
    pub month: u32,
    pub day: u32,
}

pub open spec fn is_leap_year(y: int) -> bool {
    (y % 4 == 0 && y % 100 != 0) || y % 400 == 0
}

pub open spec fn days_in_month(y: int, m: int) -> int {
    if m == 2 {
        if is_leap_year(y) {
            29
        } else {
            28
        }
    } else if m == 4 || m == 6 || m == 9 || m == 11 {
        30
    } else {
        31
    }
}

/// Days of the year `y` before the first day of month `m`.
pub open spec fn days_before_month(y: int, m: int) -> int
    decreases m,
{
    if m <= 1 {
        0
    } else {
        days_before_month(y, m - 1) + days_in_month(y, m - 1)
    }
}

impl Date {
    /// The date exists in the calendar.
    pub open spec fn wf(self) -> bool {
        1 <= self.month <= 12 && 1 <= self.day <= days_in_month(self.year as int, self.month as int)
    }

    /// The number of the day, counted so that 1 January of year 1 is day 1.
    pub open spec fn day_number(self) -> int {
        let y = self.year - 1;
        365 * y + y / 4 - y / 100 + y / 400 + days_before_month(self.year as int, self.month as int)
            + self.day
    }
}

/// Relies on chrono's `Utc::now` and `DateTime::date_naive`: the current date
/// in UTC, which is a valid calendar date.
#[verifier::external_body]
pub(crate) fn today() -> (r: Date)
    ensures
        r.wf(),
{
    let d = chrono::Utc::now().date_naive();
    Date { year: d.year(), month: d.month(), day: d.day() }
}

/// The first day that chrono represents: 1 January of year -262143.
pub open spec fn first_day() -> Date {
    Date { year: -262143i32, month: 1u32, day: 1u32 }
}

/// The last day that chrono represents: 31 December of year 262142.
pub open spec fn last_day() -> Date {
    Date { year: 262142i32, month: 12u32, day: 31u32 }
}

/// Relies on chrono's `NaiveDate::from_ymd_opt` and
/// `NaiveDate::checked_add_days`: the date `n` days after `d`, which exists
/// whenever `d` is a valid date and both dates lie within chrono's range of
/// years, from -262143 to 262142.
#[verifier::external_body]
pub(crate) fn add_days(d: Date, n: u32) -> (r: Option<Date>)
    ensures
        r matches Some(e) ==> e.wf() && e.day_number() == d.day_number() + n,
        d.wf() && first_day().day_number() <= d.day_number() && d.day_number() + n
            <= last_day().day_number() ==> r is Some,
{
    match chrono::NaiveDate::from_ymd_opt(d.year, d.month, d.day) {
        Some(x) => match x.checked_add_days(chrono::Days::new(n as u64)) {
            Some(e) => Some(Date { year: e.year(), month: e.month(), day: e.day() }),
            None => None,
        },
        None => None,
    }
}

/// What chrono reads from a `YYYY-MM-DD` text, as year, month and day.
pub uninterp spec fn parsed_iso_date(s: Seq<char>) -> Option<(int, int, int)>;

/// Relies on chrono's `NaiveDate::parse_from_str` with the format `%Y-%m-%d`:
/// the date that the text names, which is a valid calendar date, or nothing
/// where the text names none.
#[verifier::external_body]
pub(crate) fn parse_iso_date(s: &str) -> (r: Option<Date>)
    ensures
        match r {
            Some(d) => d.wf() && parsed_iso_date(s@) == Some(
                (d.year as int, d.month as int, d.day as int),
            ),
            None => parsed_iso_date(s@) is None,
        },
{
    match chrono::NaiveDate::parse_from_str(s, "%Y-%m-%d") {
        Ok(e) => Some(Date { year: e.year(), month: e.month(), day: e.day() }),
        Err(_) => None,
    }
}

/// Reads a `YYYY-MM-DD` date; any other text is a parse error that quotes it.
pub fn parse_date(s: &str) -> (r: Result<Date, DbError>)
    ensures
        match parsed_iso_date(s@) {
            Some((y, m, d)) => r matches Ok(x) && x.wf() && x.year == y && x.month == m && x.day == d,
            None => r matches Err(DbError::Parse(msg)) && msg@ == "Invalid date format: "@ + s@,
        },
{
    match parse_iso_date(s) {
        Some(d) => Ok(d),
        None => {
            let mut msg = String::from_str("Invalid date format: ");
            msg.append(s);
            Err(DbError::Parse(msg))
        },
    }
}

} // verus!
