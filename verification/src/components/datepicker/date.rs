//! Calendar dates. A `CalendarDate` always holds a day that exists, in a year
//! that chrono's `NaiveDate` can represent; chrono decides which days exist,
//! which day comes before another, and on which weekday a day falls.

use crate::components::datepicker::calendar::{
    days_in_month, is_day_of_month, lemma_days_in_month_bounds, lemma_month_number,
    weekday_from_sunday, year_of_preceding_month, Month,
};
use chrono::{Datelike, NaiveDate};
use vstd::prelude::*;

verus! {

/// The first year that `chrono::NaiveDate` represents (262144 BCE).
pub const MIN_YEAR: i32 = -262_143;

/// The last year that `chrono::NaiveDate` represents.
pub const MAX_YEAR: i32 = 262_142;

/// Whether `year` is one whose days can be represented.
pub open spec fn is_supported_year(year: int) -> bool {
    MIN_YEAR <= year <= MAX_YEAR
}

/// Whether `year` is one whose days can be represented.
pub fn year_is_supported(year: i32) -> (supported: bool)
    ensures
        supported == is_supported_year(year as int),
{
    MIN_YEAR <= year && year <= MAX_YEAR
}

/// A year, a month and a day of the month, as mathematics sees a date.
pub struct Ymd {
    pub year: int,
    pub month: Month,
    pub day: int,
}

impl Ymd {
    /// Whether this is a day that exists, in a supported year.
    pub open spec fn is_supported(self) -> bool {
        is_supported_year(self.year) && is_day_of_month(self.year, self.month, self.day)
    }

    /// The running number of this day.
    pub open spec fn day_number(self) -> int {
        crate::components::datepicker::calendar::day_number(self.year, self.month, self.day)
    }

    /// The weekday of this day, counted from Sunday.
    pub open spec fn weekday_from_sunday(self) -> int {
        weekday_from_sunday(self.year, self.month, self.day)
    }
}

/// Whether the three numbers name a day that exists, in a supported year.
pub open spec fn is_supported_date(year: int, month: int, day: int) -> bool {
    1 <= month <= 12 && (Ymd { year, month: Month::of_number(month), day }).is_supported()
}

/// The day before the given day of the month.
pub open spec fn day_before(year: int, month: Month, day: int) -> Ymd {
    if day > 1 {
        Ymd { year, month, day: day - 1 }
    } else {
        let year_before = year_of_preceding_month(year, month);
        Ymd {
            year: year_before,
            month: month.preceding(),
            day: days_in_month(year_before, month.preceding()),
        }
    }
}

/// The supported date nearest to the given numbers: an unsupported year
/// gives the first or last supported day, and a day outside the month gives
/// the month's first or last day.
pub open spec fn clamped_date(year: int, month: Month, day: int) -> Ymd {
    if year < MIN_YEAR {
        Ymd { year: MIN_YEAR as int, month: Month::January, day: 1 }
    } else if year > MAX_YEAR {
        Ymd { year: MAX_YEAR as int, month: Month::December, day: 31 }
    } else if day < 1 {
        Ymd { year, month, day: 1 }
    } else if day > days_in_month(year, month) {
        Ymd { year, month, day: days_in_month(year, month) }
    } else {
        Ymd { year, month, day }
    }
}

/// Clamping always gives a supported date, and gives a supported date back
/// as it is.
pub proof fn lemma_clamped_date_is_supported(year: int, month: Month, day: int)
    ensures
        clamped_date(year, month, day).is_supported(),
        (Ymd { year, month, day }).is_supported() ==> clamped_date(year, month, day) == (Ymd {
            year,
            month,
            day,
        }),
{
    lemma_days_in_month_bounds(year, month);
}

/// Calls `chrono::NaiveDate::from_ymd_opt` and reports whether it made a
/// date. Trusted: chrono makes a date exactly for the days that exist in the
/// proleptic Gregorian calendar, in the years from `MIN_YEAR` to `MAX_YEAR`.
#[verifier::external_body]
fn ymd_makes_date(year: i32, month: u32, day: u32) -> (made: bool)
    ensures
        made == is_supported_date(year as int, month as int, day as int),
{
    NaiveDate::from_ymd_opt(year, month, day).is_some()
}

/// The year, month number and day of the day before the given one, where
/// both are supported dates.
pub open spec fn numbers_of_day_before(year: i32, month: u32, day: u32) -> Option<(i32, u32, u32)> {
    if is_supported_date(year as int, month as int, day as int) && !(year == MIN_YEAR && month == 1
        && day == 1) {
        let before = day_before(year as int, Month::of_number(month as int), day as int);
        Some((before.year as i32, before.month.number() as u32, before.day as u32))
    } else {
        None
    }
}

/// The weekday number of the given day, counted from Sunday, where it is a
/// supported date.
pub open spec fn number_of_weekday(year: i32, month: u32, day: u32) -> Option<u32> {
    if is_supported_date(year as int, month as int, day as int) {
        Some(weekday_from_sunday(year as int, Month::of_number(month as int), day as int) as u32)
    } else {
        None
    }
}

/// Calls `chrono::NaiveDate::pred_opt` on the date that
/// `chrono::NaiveDate::from_ymd_opt` makes of the numbers, and reads the
/// result's year, month and day. Trusted: chrono returns the previous
/// calendar day of every date but the first that it represents, for which,
/// as for numbers that name no date, it returns nothing.
#[verifier::external_body]
fn ymd_of_day_before(year: i32, month: u32, day: u32) -> (before: Option<(i32, u32, u32)>)
    ensures
        before == numbers_of_day_before(year, month, day),
{
    NaiveDate::from_ymd_opt(year, month, day).and_then(|date| date.pred_opt()).map(
        |before| (before.year(), before.month(), before.day()),
    )
}

/// Calls `chrono::Datelike::weekday` on the date that
/// `chrono::NaiveDate::from_ymd_opt` makes of the numbers, and
/// `chrono::Weekday::num_days_from_sunday` on the weekday. Trusted: chrono's
/// weekday is that of the proleptic Gregorian calendar, in which 1 January of
/// year 1 is a Monday; its number counts from Sunday as 0 to Saturday as 6.
/// For numbers that name no date chrono returns nothing.
#[verifier::external_body]
fn ymd_weekday_from_sunday(year: i32, month: u32, day: u32) -> (weekday: Option<u32>)
    ensures
        weekday == number_of_weekday(year, month, day),
{
    NaiveDate::from_ymd_opt(year, month, day).map(|date| date.weekday().num_days_from_sunday())
}

/// A day of the proleptic Gregorian calendar. Every value is a day that
/// exists, in a supported year: no other can be built.
#[derive(Clone, Copy, Debug, PartialEq, Eq, Structural)]
pub struct CalendarDate {
    year: i32,
    month: Month,
    day: u32,
}

impl View for CalendarDate {
    type V = Ymd;

    closed spec fn view(&self) -> Ymd {
        Ymd { year: self.year as int, month: self.month, day: self.day as int }
    }
}

impl CalendarDate {
    /// What holds of every date: it exists, and its year is supported.
    #[verifier::type_invariant]
    pub open spec fn is_valid(&self) -> bool {
        self@.is_supported()
    }

    /// The date with the given year, month number and day; `None` when the
    /// numbers name no day, or the year is not supported.
    pub fn from_ymd_opt(year: i32, month: u32, day: u32) -> (date: Option<CalendarDate>)
        ensures
            date is Some <==> is_supported_date(year as int, month as int, day as int),
            date matches Some(made) ==> made@ == (Ymd {
                year: year as int,
                month: Month::of_number(month as int),
                day: day as int,
            }) && made.is_valid(),
    {
        if ymd_makes_date(year, month, day) {
            match Month::from_number(month) {
                Some(month) => Some(CalendarDate { year, month, day }),
                None => None,
            }
        } else {
            None
        }
    }

    /// The supported date nearest to the given year, month and day. Numbers
    /// that name a supported date give that date.
    pub fn from_ymd_clamped(year: i32, month: Month, day: u32) -> (date: CalendarDate)
        ensures
            date@ == clamped_date(year as int, month, day as int),
            date.is_valid(),
    {
        proof {
            lemma_month_number(month);
            lemma_days_in_month_bounds(year as int, month);
        }
        if ymd_makes_date(year, month.number_from_month(), day) {
            CalendarDate { year, month, day }
        } else if year < MIN_YEAR {
            CalendarDate { year: MIN_YEAR, month: Month::January, day: 1 }
        } else if year > MAX_YEAR {
            CalendarDate { year: MAX_YEAR, month: Month::December, day: 31 }
        } else if day < 1 {
            CalendarDate { year, month, day: 1 }
        } else {
            CalendarDate { year, month, day: days_in_year_month(year, month) }
        }
    }

    /// The date's year.
    pub fn year(&self) -> (year: i32)
        ensures
            year == self@.year,
            is_supported_year(year as int),
    {
        proof {
            use_type_invariant(self);
        }
        self.year
    }

    /// The date's month.
    pub fn month(&self) -> (month: Month)
        ensures
            month == self@.month,
    {
        self.month
    }

    /// The date's day of the month.
    pub fn day(&self) -> (day: u32)
        ensures
            day == self@.day,
            is_day_of_month(self@.year, self@.month, day as int),
    {
        proof {
            use_type_invariant(self);
        }
        self.day
    }

    /// The day before this one; `None` for the first supported day.
    pub fn pred_opt(&self) -> (before: Option<CalendarDate>)
        ensures
            before is Some <==> !(self@.year == MIN_YEAR && self@.month == Month::January
                && self@.day == 1),
            before matches Some(date) ==> date@ == day_before(
                self@.year,
                self@.month,
                self@.day,
            ) && date.is_valid(),
    {
        proof {
            use_type_invariant(self);
            lemma_month_number(self.month);
            lemma_month_number(self.month.preceding());
            lemma_days_in_month_bounds(
                year_of_preceding_month(self.year as int, self.month),
                self.month.preceding(),
            );
        }
        match ymd_of_day_before(self.year, self.month.number_from_month(), self.day) {
            Some((year, month, day)) => match Month::from_number(month) {
                Some(month) => Some(CalendarDate { year, month, day }),
                // Not reached: the day before a date is in one of the twelve months.
                None => None,
            },
            None => None,
        }
    }

    /// The date's weekday as a number from 0, Sunday, to 6, Saturday.
    pub fn num_days_from_sunday(&self) -> (weekday: u32)
        ensures
            weekday == self@.weekday_from_sunday(),
            weekday <= 6,
    {
        proof {
            use_type_invariant(self);
            lemma_month_number(self.month);
        }
        match ymd_weekday_from_sunday(self.year, self.month.number_from_month(), self.day) {
            Some(weekday) => weekday,
            // Not reached: every date has a weekday.
            None => 0,
        }
    }

    /// Whether `other` is the same day.
    pub fn is_same_day(&self, other: &CalendarDate) -> (same: bool)
        ensures
            same == (self@ == other@),
            same == (*self == *other),
    {
        self.year == other.year && self.month == other.month && self.day == other.day
    }
}

/// The number of days of `month` in `year`: the day of the month on which
/// the day before the first of the following month falls.
pub fn days_in_year_month(year: i32, month: Month) -> (days: u32)
    requires
        is_supported_year(year as int),
    ensures
        days == days_in_month(year as int, month),
{
    proof {
        lemma_month_number(month);
        lemma_month_number(month.following());
    }
    let first_of_next_month = match CalendarDate::from_ymd_opt(
        year,
        month.number_from_month() + 1,
        1,
    ) {
        Some(first) => Some(first),
        None => if year < MAX_YEAR {
            CalendarDate::from_ymd_opt(year + 1, 1, 1)
        } else {
            None
        },
    };
    match first_of_next_month {
        Some(first) => match first.pred_opt() {
            Some(last) => last.day(),
            // Not reached: the first of a following month is not the first supported day.
            None => 31,
        },
        // Only the December of the last supported year has no month after it.
        None => 31,
    }
}

} // verus!
