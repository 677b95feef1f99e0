//! The proleptic Gregorian calendar as mathematics: months, leap years, the
//! length of each month, and the running day count that fixes the weekday of
//! every date.
//!
//! Years are astronomical: year 0 is 1 BCE, and the leap-year rule is applied
//! to every year, before the calendar's introduction too.

use vstd::prelude::*;

verus! {

/// A month of the year.
#[derive(Clone, Copy, Debug, PartialEq, Eq, Structural)]
pub enum Month {
    January,
    February,
    March,
    April,
    May,
    June,
    July,
    August,
    September,
    October,
    November,
    December,
}

impl Month {
    /// The month's number, January being 1.
    pub open spec fn number(self) -> int {
        match self {
            Month::January => 1,
            Month::February => 2,
            Month::March => 3,
            Month::April => 4,
            Month::May => 5,
            Month::June => 6,
            Month::July => 7,
            Month::August => 8,
            Month::September => 9,
            Month::October => 10,
            Month::November => 11,
            Month::December => 12,
        }
    }

    /// The month with the given number. Only 1 to 12 name a month; the
    /// function is defined on the other integers so that it is total.
    pub open spec fn of_number(number: int) -> Month {
        if number <= 1 {
            Month::January
        } else if number == 2 {
            Month::February
        } else if number == 3 {
            Month::March
        } else if number == 4 {
            Month::April
        } else if number == 5 {
            Month::May
        } else if number == 6 {
            Month::June
        } else if number == 7 {
            Month::July
        } else if number == 8 {
            Month::August
        } else if number == 9 {
            Month::September
        } else if number == 10 {
            Month::October
        } else if number == 11 {
            Month::November
        } else {
            Month::December
        }
    }

    /// The month after this one; January follows December.
    pub open spec fn following(self) -> Month {
        Month::of_number(self.number() % 12 + 1)
    }

    /// The month before this one; December precedes January.
    pub open spec fn preceding(self) -> Month {
        Month::of_number((self.number() + 10) % 12 + 1)
    }

    /// The month's English name.
    pub open spec fn full_name(self) -> Seq<char> {
        match self {
            Month::January => "January"@,
            Month::February => "February"@,
            Month::March => "March"@,
            Month::April => "April"@,
            Month::May => "May"@,
            Month::June => "June"@,
            Month::July => "July"@,
            Month::August => "August"@,
            Month::September => "September"@,
            Month::October => "October"@,
            Month::November => "November"@,
            Month::December => "December"@,
        }
    }

    /// The three-letter form of the month's English name.
    pub open spec fn abbreviated_name(self) -> Seq<char> {
        match self {
            Month::January => "Jan"@,
            Month::February => "Feb"@,
            Month::March => "Mar"@,
            Month::April => "Apr"@,
            Month::May => "May"@,
            Month::June => "Jun"@,
            Month::July => "Jul"@,
            Month::August => "Aug"@,
            Month::September => "Sep"@,
            Month::October => "Oct"@,
            Month::November => "Nov"@,
            Month::December => "Dec"@,
        }
    }

    /// Returns the month's number, January being 1.
    pub fn number_from_month(&self) -> (number: u32)
        ensures
            number == self.number(),
    {
        match self {
            Month::January => 1,
            Month::February => 2,
            Month::March => 3,
            Month::April => 4,
            Month::May => 5,
            Month::June => 6,
            Month::July => 7,
            Month::August => 8,
            Month::September => 9,
            Month::October => 10,
            Month::November => 11,
            Month::December => 12,
        }
    }

    /// The month with the given number, if there is one.
    pub fn from_number(number: u32) -> (month: Option<Month>)
        ensures
            month == if 1 <= number <= 12 {
                Some(Month::of_number(number as int))
            } else {
                None
            },
    {
        match number {
            1 => Some(Month::January),
            2 => Some(Month::February),
            3 => Some(Month::March),
            4 => Some(Month::April),
            5 => Some(Month::May),
            6 => Some(Month::June),
            7 => Some(Month::July),
            8 => Some(Month::August),
            9 => Some(Month::September),
            10 => Some(Month::October),
            11 => Some(Month::November),
            12 => Some(Month::December),
            _ => None,
        }
    }

    /// The next month.
    pub fn succ(&self) -> (next: Month)
        ensures
            next == self.following(),
    {
        match self {
            Month::January => Month::February,
            Month::February => Month::March,
            Month::March => Month::April,
            Month::April => Month::May,
            Month::May => Month::June,
            Month::June => Month::July,
            Month::July => Month::August,
            Month::August => Month::September,
            Month::September => Month::October,
            Month::October => Month::November,
            Month::November => Month::December,
            Month::December => Month::January,
        }
    }

    /// The previous month.
    pub fn pred(&self) -> (previous: Month)
        ensures
            previous == self.preceding(),
    {
        match self {
            Month::January => Month::December,
            Month::February => Month::January,
            Month::March => Month::February,
            Month::April => Month::March,
            Month::May => Month::April,
            Month::June => Month::May,
            Month::July => Month::June,
            Month::August => Month::July,
            Month::September => Month::August,
            Month::October => Month::September,
            Month::November => Month::October,
            Month::December => Month::November,
        }
    }

    /// The month's English name.
    pub fn name(&self) -> (name: &'static str)
        ensures
            name@ == self.full_name(),
    {
        match self {
            Month::January => "January",
            Month::February => "February",
            Month::March => "March",
            Month::April => "April",
            Month::May => "May",
            Month::June => "June",
            Month::July => "July",
            Month::August => "August",
            Month::September => "September",
            Month::October => "October",
            Month::November => "November",
            Month::December => "December",
        }
    }
}

/// Whether `year` has a 29 February.
pub open spec fn is_leap_year(year: int) -> bool {
    year % 4 == 0 && (year % 100 != 0 || year % 400 == 0)
}

/// The number of days of `month` in `year`.
pub open spec fn days_in_month(year: int, month: Month) -> int {
    match month {
        Month::February => if is_leap_year(year) {
            29
        } else {
            28
        },
        Month::April | Month::June | Month::September | Month::November => 30,
        _ => 31,
    }
}

/// The number of days in `year`.
pub open spec fn days_in_year(year: int) -> int {
    if is_leap_year(year) {
        366
    } else {
        365
    }
}

/// The number of days of `year` that lie before the first of `month`.
pub open spec fn days_before_month(year: int, month: Month) -> int
    decreases month.number(),
{
    if month == Month::January {
        0
    } else {
        days_before_month(year, month.preceding()) + days_in_month(year, month.preceding())
    }
}

/// The number of days from 1 January of year 1 up to, and without, 1 January
/// of `year`. It is negative for the years before year 1.
pub open spec fn days_before_year(year: int) -> int {
    let past = year - 1;
    365 * past + past / 4 - past / 100 + past / 400
}

/// The running number of a day, 1 January of year 1 being day 1. The formula
/// is meant for the days of the month, and extends to every integer `day`.
pub open spec fn day_number(year: int, month: Month, day: int) -> int {
    days_before_year(year) + days_before_month(year, month) + day
}

/// The weekday of a date, counted from Sunday: 0 is Sunday, 6 is Saturday.
/// Day 1 of the running count is a Monday.
pub open spec fn weekday_from_sunday(year: int, month: Month, day: int) -> int {
    day_number(year, month, day) % 7
}

/// Whether `day` is a day of `month` in `year`.
pub open spec fn is_day_of_month(year: int, month: Month, day: int) -> bool {
    1 <= day <= days_in_month(year, month)
}

/// The year of the month before `month` of `year`.
pub open spec fn year_of_preceding_month(year: int, month: Month) -> int {
    if month == Month::January {
        year - 1
    } else {
        year
    }
}

/// The year of the month after `month` of `year`.
pub open spec fn year_of_following_month(year: int, month: Month) -> int {
    if month == Month::December {
        year + 1
    } else {
        year
    }
}

/// A month and its number determine each other.
pub proof fn lemma_month_number(month: Month)
    ensures
        1 <= month.number() <= 12,
        Month::of_number(month.number()) == month,
        month.following().preceding() == month,
        month.preceding().following() == month,
{
}

/// Every month has 28 to 31 days.
pub proof fn lemma_days_in_month_bounds(year: int, month: Month)
    ensures
        28 <= days_in_month(year, month) <= 31,
{
}

/// The days before a month are those before the month ahead of it, and that
/// month's own.
pub proof fn lemma_days_before_following_month(year: int, month: Month)
    requires
        month != Month::December,
    ensures
        days_before_month(year, month.following()) == days_before_month(year, month)
            + days_in_month(year, month),
{
    lemma_month_number(month);
}

/// A year ends with December: its days and those before it make up the year.
pub proof fn lemma_days_before_december(year: int)
    ensures
        days_before_month(year, Month::December) + 31 == days_in_year(year),
{
    reveal_with_fuel(days_before_month, 12);
}

/// Each year starts where the year before it ends.
pub proof fn lemma_days_before_following_year(year: int)
    ensures
        days_before_year(year + 1) == days_before_year(year) + days_in_year(year),
{
    let by_four: int = if year % 4 == 0 {
        1
    } else {
        0
    };
    let by_hundred: int = if year % 100 == 0 {
        1
    } else {
        0
    };
    let by_four_hundred: int = if year % 400 == 0 {
        1
    } else {
        0
    };
    assert(year / 4 == (year - 1) / 4 + by_four);
    assert(year / 100 == (year - 1) / 100 + by_hundred);
    assert(year / 400 == (year - 1) / 400 + by_four_hundred);
    assert(year % 400 == 0 ==> year % 100 == 0);
    assert(year % 100 == 0 ==> year % 4 == 0);
}

/// The first of a month is the day after the last of the month before it,
/// across the turn of the year too.
pub proof fn lemma_month_follows_month(year: int, month: Month)
    ensures
        day_number(year, month, 1) == day_number(
            year_of_preceding_month(year, month),
            month.preceding(),
            days_in_month(year_of_preceding_month(year, month), month.preceding()),
        ) + 1,
{
    lemma_month_number(month);
    if month == Month::January {
        lemma_days_before_december(year - 1);
        lemma_days_before_following_year(year - 1);
    } else {
        lemma_days_before_following_month(year, month.preceding());
    }
}

} // verus!
