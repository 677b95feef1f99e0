//! The lists behind the month and year buttons of the header.

use crate::components::datepicker::calendar::{lemma_month_number, Month};
use vstd::prelude::*;

verus! {

/// How many years the year list shows before the year on display, and how
/// many after it.
pub const YEARS_TO_SHOW_BEFORE_AFTER_CURRENT: u32 = 10;

/// One entry of the month list.
#[derive(Clone, Copy, Debug, PartialEq, Eq, Structural)]
pub struct MonthOption {
    pub month: Month,
    /// Whether this is the month on display.
    pub selected: bool,
}

/// One entry of the year list.
#[derive(Clone, Copy, Debug, PartialEq, Eq, Structural)]
pub struct YearOption {
    pub year: i32,
    /// Whether this is the year on display.
    pub selected: bool,
}

/// The month list for a picker that displays `current`.
pub open spec fn month_list(current: Month) -> Seq<MonthOption> {
    Seq::new(
        12,
        |index: int|
            MonthOption {
                month: Month::of_number(index + 1),
                selected: Month::of_number(index + 1) == current,
            },
    )
}

/// The year list for a picker that displays `current`.
pub open spec fn year_list(current: i32) -> Seq<YearOption> {
    Seq::new(
        (2 * YEARS_TO_SHOW_BEFORE_AFTER_CURRENT + 1) as nat,
        |index: int|
            YearOption {
                year: (current - YEARS_TO_SHOW_BEFORE_AFTER_CURRENT + index) as i32,
                selected: index == YEARS_TO_SHOW_BEFORE_AFTER_CURRENT,
            },
    )
}

/// The twelve months in order, the one on display marked.
pub fn month_options(current: Month) -> (options: Vec<MonthOption>)
    ensures
        options@ == month_list(current),
{
    let mut options: Vec<MonthOption> = Vec::new();
    let mut month = Month::January;
    let mut count: u32 = 0;
    while count < 12
        invariant
            count <= 12,
            count < 12 ==> month == Month::of_number(count + 1),
            options@.len() == count,
            forall|index: int| 0 <= index < count ==> #[trigger] options@[index] == month_list(
                current,
            )[index],
        decreases 12 - count,
    {
        options.push(MonthOption { month, selected: month == current });
        proof {
            lemma_month_number(month);
        }
        month = month.succ();
        count = count + 1;
    }
    assert(options@ =~= month_list(current));
    options
}

/// The years from ten before the one on display to ten after it, in order,
/// the one on display marked.
pub fn year_options(current: i32) -> (options: Vec<YearOption>)
    requires
        i32::MIN + YEARS_TO_SHOW_BEFORE_AFTER_CURRENT <= current <= i32::MAX
            - YEARS_TO_SHOW_BEFORE_AFTER_CURRENT,
    ensures
        options@ == year_list(current),
{
    let first = current - YEARS_TO_SHOW_BEFORE_AFTER_CURRENT as i32;
    let mut options: Vec<YearOption> = Vec::new();
    let mut count: u32 = 0;
    while count < 2 * YEARS_TO_SHOW_BEFORE_AFTER_CURRENT + 1
        invariant
            first == current - YEARS_TO_SHOW_BEFORE_AFTER_CURRENT,
            current <= i32::MAX - YEARS_TO_SHOW_BEFORE_AFTER_CURRENT,
            count <= 2 * YEARS_TO_SHOW_BEFORE_AFTER_CURRENT + 1,
            options@.len() == count,
            forall|index: int| 0 <= index < count ==> #[trigger] options@[index] == year_list(
                current,
            )[index],
        decreases 2 * YEARS_TO_SHOW_BEFORE_AFTER_CURRENT + 1 - count,
    {
        let year = first + count as i32;
        options.push(YearOption { year, selected: year == current });
        count = count + 1;
    }
    assert(options@ =~= year_list(current));
    options
}

} // verus!
