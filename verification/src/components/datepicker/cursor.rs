//! The calendar cursor: the month on display, and the steps that move it.

use crate::components::datepicker::calendar::{
    lemma_month_number, year_of_following_month, year_of_preceding_month, Month,
};
use crate::components::datepicker::date::{
    is_supported_year, year_is_supported, CalendarDate, MAX_YEAR, MIN_YEAR,
};
use vstd::prelude::*;

verus! {

/// Which way a navigation arrow points.
#[derive(Clone, Copy, Debug, PartialEq, Eq, Structural)]
pub enum Direction {
    Decrement,
    Increment,
}

impl Direction {
    /// The other direction.
    pub open spec fn opposite(self) -> Direction {
        match self {
            Direction::Decrement => Direction::Increment,
            Direction::Increment => Direction::Decrement,
        }
    }
}

/// What a navigation arrow steps by.
#[derive(Clone, Copy, Debug, PartialEq, Eq, Structural)]
pub enum NavigationUnit {
    Month,
    Year,
}

/// The month on display. It is independent of the selected date.
#[derive(Clone, Copy, Debug, PartialEq, Eq, Structural)]
pub struct CalendarCursor {
    pub year: i32,
    pub month: Month,
}

impl CalendarCursor {
    /// Whether the days of the cursor's year can be represented.
    pub open spec fn is_supported(self) -> bool {
        is_supported_year(self.year as int)
    }

    /// The year on display after one step. Stepping by a month over the end
    /// of a year changes the year too.
    pub open spec fn year_after(self, direction: Direction, unit: NavigationUnit) -> int {
        match (unit, direction) {
            (NavigationUnit::Year, Direction::Decrement) => self.year - 1,
            (NavigationUnit::Year, Direction::Increment) => self.year + 1,
            (NavigationUnit::Month, Direction::Decrement) => year_of_preceding_month(
                self.year as int,
                self.month,
            ),
            (NavigationUnit::Month, Direction::Increment) => year_of_following_month(
                self.year as int,
                self.month,
            ),
        }
    }

    /// The month on display after one step.
    pub open spec fn month_after(self, direction: Direction, unit: NavigationUnit) -> Month {
        match (unit, direction) {
            (NavigationUnit::Year, _) => self.month,
            (NavigationUnit::Month, Direction::Decrement) => self.month.preceding(),
            (NavigationUnit::Month, Direction::Increment) => self.month.following(),
        }
    }

    /// The cursor after one step. It is meant for steps that stay within the
    /// years that an `i32` holds.
    pub open spec fn after(self, direction: Direction, unit: NavigationUnit) -> CalendarCursor {
        CalendarCursor {
            year: self.year_after(direction, unit) as i32,
            month: self.month_after(direction, unit),
        }
    }

    /// The cursor on the given month.
    pub fn new(year: i32, month: Month) -> (cursor: CalendarCursor)
        ensures
            cursor.year == year,
            cursor.month == month,
    {
        CalendarCursor { year, month }
    }

    /// The cursor on the month of `date`.
    pub fn of_date(date: &CalendarDate) -> (cursor: CalendarCursor)
        ensures
            cursor.year == date@.year,
            cursor.month == date@.month,
            cursor.is_supported(),
    {
        CalendarCursor { year: date.year(), month: date.month() }
    }

    /// Whether the days of the cursor's year can be represented.
    pub fn has_supported_year(&self) -> (supported: bool)
        ensures
            supported == self.is_supported(),
    {
        year_is_supported(self.year)
    }

    /// Whether a step leads to a year whose days can be represented: whether
    /// `navigate` may be called.
    pub fn can_navigate(&self, direction: Direction, unit: NavigationUnit) -> (possible: bool)
        ensures
            possible == is_supported_year(self.year_after(direction, unit)),
    {
        let crosses_year = match unit {
            NavigationUnit::Year => true,
            NavigationUnit::Month => match direction {
                Direction::Decrement => self.month == Month::January,
                Direction::Increment => self.month == Month::December,
            },
        };
        if !crosses_year {
            MIN_YEAR <= self.year && self.year <= MAX_YEAR
        } else {
            match direction {
                Direction::Decrement => MIN_YEAR < self.year && self.year <= MAX_YEAR + 1,
                Direction::Increment => MIN_YEAR - 1 <= self.year && self.year < MAX_YEAR,
            }
        }
    }

    /// The cursor one step away: a month or a year, back or forward.
    pub fn navigate(&self, direction: Direction, unit: NavigationUnit) -> (moved: CalendarCursor)
        requires
            is_supported_year(self.year_after(direction, unit)),
        ensures
            moved == self.after(direction, unit),
            moved.year == self.year_after(direction, unit),
            moved.is_supported(),
    {
        match unit {
            NavigationUnit::Year => match direction {
                Direction::Decrement => CalendarCursor { year: self.year - 1, month: self.month },
                Direction::Increment => CalendarCursor { year: self.year + 1, month: self.month },
            },
            NavigationUnit::Month => match direction {
                Direction::Decrement => {
                    let year = if self.month == Month::January {
                        self.year - 1
                    } else {
                        self.year
                    };
                    CalendarCursor { year, month: self.month.pred() }
                },
                Direction::Increment => {
                    let year = if self.month == Month::December {
                        self.year + 1
                    } else {
                        self.year
                    };
                    CalendarCursor { year, month: self.month.succ() }
                },
            },
        }
    }
}

/// A step is undone by the step in the other direction: a month forward
/// and a month back, or a year back and a year forward, lead to the month
/// they started from.
pub proof fn lemma_opposite_step_leads_back(
    cursor: CalendarCursor,
    direction: Direction,
    unit: NavigationUnit,
)
    requires
        i32::MIN <= cursor.year_after(direction, unit) <= i32::MAX,
    ensures
        cursor.after(direction, unit).after(direction.opposite(), unit) == cursor,
{
    lemma_month_number(cursor.month);
}

} // verus!
