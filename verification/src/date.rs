//! Calendar dates, reduced to the one quantity the mathematics reads: a day
//! number on a linear scale.
//!
//! The solver only ever subtracts dates, so a date is carried as its day
//! count from the start of the Common Era. What that count is for a calendar
//! triple (year, month, day) is written out below as a spec formula;
//! computing it, including validity of the triple, is chrono's job, behind
//! the one trusted item below.

use vstd::prelude::*;

verus! {

/// First year that chrono's date type represents.
pub const MIN_CHRONO_YEAR: i32 = -262143;

/// Last year that chrono's date type represents.
pub const MAX_CHRONO_YEAR: i32 = 262142;

/// Day numbers of representable dates stay strictly inside this magnitude:
/// fewer than 262144 years of at most 366 days lie on either side of the
/// origin.
pub const DAY_NUMBER_BOUND: i64 = 96_000_000;

/// Proleptic Gregorian leap year.
pub open spec fn is_leap_year(y: int) -> bool {
    (y % 4 == 0 && y % 100 != 0) || y % 400 == 0
}

/// Days in a month of the proleptic Gregorian calendar.
pub open spec fn days_in_month(y: int, m: int) -> int {
    if m == 2 {
        if is_leap_year(y) {
            29
        } else {
            28
        }
    } else if m == 4 || m == 6 || m == 9 || m == 11 {
        30
    } else {
        31
    }
}

/// The triple names a day of the proleptic Gregorian calendar.
pub open spec fn is_calendar_date(y: int, m: int, d: int) -> bool {
    1 <= m <= 12 && 1 <= d <= days_in_month(y, m)
}

/// Days in all whole years before year `y`: 365 per year, plus the proleptic
/// Gregorian leap days, counted by floor division (which Verus's Euclidean
/// `/` is, the divisors being positive).
pub open spec fn days_before_year(y: int) -> int {
    365 * (y - 1) + (y - 1) / 4 - (y - 1) / 100 + (y - 1) / 400
}

/// Days in the months of year `y` that lie before month `m`.
pub open spec fn days_before_month(y: int, m: int) -> int {
    let plain: int = if m == 1 {
        0
    } else if m == 2 {
        31
    } else if m == 3 {
        59
    } else if m == 4 {
        90
    } else if m == 5 {
        120
    } else if m == 6 {
        151
    } else if m == 7 {
        181
    } else if m == 8 {
        212
    } else if m == 9 {
        243
    } else if m == 10 {
        273
    } else if m == 11 {
        304
    } else {
        334
    };
    plain + if m > 2 && is_leap_year(y) {
        1int
    } else {
        0int
    }
}

/// The day number of the calendar day `(y, m, d)`: its day count from the
/// start of the Common Era, whose first day, 0001-01-01, is day 1.
pub open spec fn day_number_of(y: int, m: int, d: int) -> int {
    days_before_year(y) + days_before_month(y, m) + d
}

/// Relies on chrono's `NaiveDate::from_ymd_opt` and
/// `Datelike::num_days_from_ce`: a date exists exactly for a valid proleptic
/// Gregorian calendar day within chrono's representable years, and its day
/// count from the Common Era's first day is `day_number_of`, which over
/// those years stays strictly inside `DAY_NUMBER_BOUND`. The two chrono
/// calls stand in one wrapper because the date value passed between them
/// carries nothing beyond the triple it came from.
#[verifier::external_body]
fn chrono_day_number_of_ymd(y: i32, m: u32, d: u32) -> (r: Option<i64>)
    ensures
        r.is_some() <==> (MIN_CHRONO_YEAR <= y <= MAX_CHRONO_YEAR
            && is_calendar_date(y as int, m as int, d as int)),
        r matches Some(n) ==> n == day_number_of(y as int, m as int, d as int)
            && -DAY_NUMBER_BOUND < n < DAY_NUMBER_BOUND,
{
    match chrono::NaiveDate::from_ymd_opt(y, m, d) {
        Some(nd) => Some(chrono::Datelike::num_days_from_ce(&nd) as i64),
        None => None,
    }
}

/// A calendar date, as its day number from the start of the Common Era.
#[derive(Clone, Copy, Debug, PartialEq, Eq, Structural)]
pub struct Date {
    /// Days counted from the Common Era's first day (which is day 1).
    pub day_number: i64,
}

impl Date {
    /// The day number is small enough that any two dates subtract without
    /// overflow, with headroom for the year-count conversion.
    pub open spec fn wf(self) -> bool {
        -DAY_NUMBER_BOUND < self.day_number < DAY_NUMBER_BOUND
    }

    /// Builds the date of a calendar triple: the date whose day number is
    /// `day_number_of(y, m, d)`, or `None` exactly when the triple is not a
    /// representable calendar day.
    pub fn from_ymd(y: i32, m: u32, d: u32) -> (r: Option<Date>)
        ensures
            r.is_some() <==> (MIN_CHRONO_YEAR <= y <= MAX_CHRONO_YEAR
                && is_calendar_date(y as int, m as int, d as int)),
            r matches Some(dt) ==> dt.wf() && dt.day_number == day_number_of(
                y as int,
                m as int,
                d as int,
            ),
    {
        match chrono_day_number_of_ymd(y, m, d) {
            Some(n) => Some(Date { day_number: n }),
            None => None,
        }
    }

    /// A date directly from its day number; `None` when out of the
    /// representable range.
    pub fn from_day_number(n: i64) -> (r: Option<Date>)
        ensures
            r.is_some() <==> -DAY_NUMBER_BOUND < n < DAY_NUMBER_BOUND,
            r matches Some(dt) ==> dt.wf() && dt.day_number == n,
    {
        if -DAY_NUMBER_BOUND < n && n < DAY_NUMBER_BOUND {
            Some(Date { day_number: n })
        } else {
            None
        }
    }

    /// Days elapsed from `earlier` to `self`.
    pub fn days_since(&self, earlier: &Date) -> (r: i64)
        requires
            self.wf(),
            earlier.wf(),
        ensures
            r == self.day_number - earlier.day_number,
    {
        self.day_number - earlier.day_number
    }
}

} // verus!
