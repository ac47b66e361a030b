//! Which day a month's bulletin comes out on, and whether that day can have
//! a bulletin yet.
use vstd::prelude::*;

verus! {

/// The first year with a bulletin to fetch.
pub const FIRST_BULLETIN_YEAR: i32 = 2016;

/// The earliest year that a calendar date can hold.
pub const MIN_YEAR: i32 = -262143;

/// The latest year that a calendar date can hold.
pub const MAX_YEAR: i32 = 262142;

/// A day of the proleptic Gregorian calendar.
#[derive(Clone, Copy, Debug, PartialEq, Eq, Structural)]
pub struct CalendarDate {
    pub year: i32,
    pub month: u32,
    pub day: u32,
}

/// What the chosen release day means for the caller.
#[derive(Clone, Copy, Debug, PartialEq, Eq, Structural)]
pub enum DateNotice {
    /// The release day has passed and lies in a year with bulletins.
    Released,
    /// The release day lies later in the current month: its bulletin is not
    /// out yet.
    PendingThisMonth,
    /// The release day lies in a month after the current one.
    InTheFuture,
    /// The release day lies before the first year with bulletins.
    BeforeFirstBulletin,
}

/// The day of the month of the second Tuesday of `month` in `year`.
pub uninterp spec fn second_tuesday_day(year: int, month: int) -> int;

pub open spec fn valid_month(year: i32, month: u32) -> bool {
    MIN_YEAR <= year <= MAX_YEAR && 1 <= month <= 12
}

/// `a` comes after `b`.
pub open spec fn spec_is_after(a: CalendarDate, b: CalendarDate) -> bool {
    a.year > b.year || (a.year == b.year && (a.month > b.month || (a.month == b.month && a.day
        > b.day)))
}

pub open spec fn notice_for(release: CalendarDate, requested: CalendarDate, today: CalendarDate) -> DateNotice {
    if spec_is_after(release, today) {
        if release.month == today.month && release.year == today.year {
            DateNotice::PendingThisMonth
        } else {
            DateNotice::InTheFuture
        }
    } else if requested.year < FIRST_BULLETIN_YEAR {
        DateNotice::BeforeFirstBulletin
    } else {
        DateNotice::Released
    }
}

/// Relies on chrono's `NaiveDate::from_weekday_of_month_opt` with `Tue` and
/// `2`: the second Tuesday falls on day 8 to 14, and exists for every month
/// of a year that a `NaiveDate` can hold.
#[verifier::external_body]
fn second_tuesday(year: i32, month: u32) -> (r: Option<u32>)
    ensures
        valid_month(year, month) ==> r is Some,
        match r {
            Some(d) => d as int == second_tuesday_day(year as int, month as int) && 8 <= d <= 14,
            None => true,
        },
{
    chrono::NaiveDate::from_weekday_of_month_opt(year, month, chrono::Weekday::Tue, 2).map(
        |d| chrono::Datelike::day(&d),
    )
}

/// Whether `a` comes after `b`.
pub fn is_after(a: CalendarDate, b: CalendarDate) -> (r: bool)
    ensures
        r == spec_is_after(a, b),
{
    a.year > b.year || (a.year == b.year && (a.month > b.month || (a.month == b.month && a.day
        > b.day)))
}

/// The release day (the second Tuesday) of the month of `date`, and what it
/// means as seen on `today`.
pub fn get_patch_tuesday_date(date: CalendarDate, today: CalendarDate) -> (r: (
    CalendarDate,
    DateNotice,
))
    requires
        valid_month(date.year, date.month),
    ensures
        r.0.year == date.year,
        r.0.month == date.month,
        r.0.day == second_tuesday_day(date.year as int, date.month as int),
        8 <= r.0.day <= 14,
        r.1 == notice_for(r.0, date, today),
{
    let day = match second_tuesday(date.year, date.month) {
        Some(d) => d,
        None => {
            proof {
                assert(false);
            }
            8
        },
    };
    let release = CalendarDate { year: date.year, month: date.month, day };
    let notice = if is_after(release, today) {
        if release.month == today.month && release.year == today.year {
            DateNotice::PendingThisMonth
        } else {
            DateNotice::InTheFuture
        }
    } else if date.year < FIRST_BULLETIN_YEAR {
        DateNotice::BeforeFirstBulletin
    } else {
        DateNotice::Released
    };
    (release, notice)
}

} // verus!
