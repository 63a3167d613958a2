//! The instants that a calendar month spans.
use vstd::prelude::*;

verus! {

/// The UTC timestamp in milliseconds of 00:00:00 on the given day of the
/// proleptic Gregorian calendar, where that date exists.
pub uninterp spec fn utc_midnight_millis(year: i32, month: u32, day: u32) -> Option<i64>;

/// Relies on `chrono::NaiveDate::from_ymd_opt` (`None` for a date that does
/// not exist or is out of range) and on `and_time`, `and_utc` and
/// `timestamp_millis` for the first instant of that day in UTC.
#[verifier::external_body]
fn midnight_millis(year: i32, month: u32, day: u32) -> (r: Option<i64>)
    ensures
        r == utc_midnight_millis(year, month, day),
{
    match chrono::NaiveDate::from_ymd_opt(year, month, day) {
        Some(d) => Some(d.and_time(chrono::NaiveTime::MIN).and_utc().timestamp_millis()),
        None => None,
    }
}

/// The first instant of the month: 00:00:00.000 on its first day; 0 where
/// the month does not exist.
pub open spec fn month_start(year: i32, month: u32) -> i64 {
    match utc_midnight_millis(year, month, 1) {
        Some(t) => t,
        None => 0,
    }
}

/// The first instant of the month after the given one, where both exist.
pub open spec fn next_month_start(year: i32, month: u32) -> Option<i64> {
    if 1 <= month < 12 {
        utc_midnight_millis(year, (month + 1) as u32, 1)
    } else if month == 12 && year < i32::MAX {
        utc_midnight_millis((year + 1) as i32, 1, 1)
    } else {
        None
    }
}

/// The last instant of the month: 23:59:59.000 on its last day, one second
/// before the next month begins; `i64::MAX` where that cannot be had.
pub open spec fn month_end(year: i32, month: u32) -> i64 {
    match next_month_start(year, month) {
        Some(t) => if t - 1000 >= i64::MIN {
            (t - 1000) as i64
        } else {
            i64::MIN
        },
        None => i64::MAX,
    }
}

/// Whether the range `[start_date, end_date]` meets the month: it starts no
/// later than the month ends and ends no earlier than the month starts.
pub open spec fn overlaps_month(start_date: i64, end_date: i64, year: i32, month: u32) -> bool {
    start_date <= month_end(year, month) && end_date >= month_start(year, month)
}

/// The first and the last instant of a month, in milliseconds.
pub fn month_bounds(year: i32, month: u32) -> (r: (i64, i64))
    ensures
        r.0 == month_start(year, month),
        r.1 == month_end(year, month),
{
    let start = match midnight_millis(year, month, 1) {
        Some(t) => t,
        None => 0,
    };
    let next = if 1 <= month && month < 12 {
        midnight_millis(year, month + 1, 1)
    } else if month == 12 && year < i32::MAX {
        midnight_millis(year + 1, 1, 1)
    } else {
        None
    };
    let end = match next {
        Some(t) => match t.checked_sub(1000) {
            Some(e) => e,
            None => i64::MIN,
        },
        None => i64::MAX,
    };
    (start, end)
}

/// Whether `[start_date, end_date]` meets the month whose bounds are given.
pub fn overlaps(start_date: i64, end_date: i64, bounds: (i64, i64)) -> (r: bool)
    ensures
        r == (start_date <= bounds.1 && end_date >= bounds.0),
{
    start_date <= bounds.1 && end_date >= bounds.0
}

} // verus!
