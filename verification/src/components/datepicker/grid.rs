//! The grid of day cells shown for a month: whole weeks from a Sunday to a
//! Saturday, padded with the last days of the month before and the first
//! days of the month after.

use crate::components::datepicker::calendar::{
    day_number, days_in_month, lemma_days_in_month_bounds, lemma_month_follows_month,
    lemma_month_number, weekday_from_sunday, year_of_following_month, year_of_preceding_month,
    Month,
};
use crate::components::datepicker::cursor::CalendarCursor;
use crate::components::datepicker::date::{
    clamped_date, days_in_year_month, is_supported_year, lemma_clamped_date_is_supported,
    CalendarDate, Ymd,
};
use vstd::prelude::*;

verus! {

/// One cell of the grid.
#[derive(Clone, Copy, Debug, PartialEq, Eq, Structural)]
pub struct DayCell {
    /// The day that the cell shows.
    pub date: CalendarDate,
    /// Whether the cell pads the grid with a day of another month.
    pub is_outside_month: bool,
}

/// A cell as mathematics sees it.
pub struct DayCellView {
    pub date: Ymd,
    pub is_outside_month: bool,
}

impl View for DayCell {
    type V = DayCellView;

    open spec fn view(&self) -> DayCellView {
        DayCellView { date: self.date@, is_outside_month: self.is_outside_month }
    }
}

/// The cells of a grid, each as mathematics sees it.
pub open spec fn cell_views(cells: Seq<DayCell>) -> Seq<DayCellView> {
    cells.map_values(|cell: DayCell| cell@)
}

/// How many days of the month before are shown: as many as lie between the
/// Sunday on or before the first of the month and that first.
pub open spec fn leading_count(year: int, month: Month) -> int {
    weekday_from_sunday(year, month, 1)
}

/// How many days of the month after are shown: as many as lie between the
/// last of the month and the Saturday on or after it.
pub open spec fn trailing_count(year: int, month: Month) -> int {
    6 - weekday_from_sunday(year, month, days_in_month(year, month))
}

/// The `index`-th padding cell before the month. The last of them shows the
/// last day of the month before. A day in a year that is not supported is
/// replaced by the nearest supported day.
pub open spec fn leading_cell(year: int, month: Month, index: int) -> DayCellView {
    let year_before = year_of_preceding_month(year, month);
    let month_before = month.preceding();
    DayCellView {
        date: clamped_date(
            year_before,
            month_before,
            days_in_month(year_before, month_before) - leading_count(year, month) + 1 + index,
        ),
        is_outside_month: true,
    }
}

/// The `index`-th cell of the month itself: its day `index + 1`.
pub open spec fn current_cell(year: int, month: Month, index: int) -> DayCellView {
    DayCellView { date: Ymd { year, month, day: index + 1 }, is_outside_month: false }
}

/// The `index`-th padding cell after the month: day `index + 1` of the month
/// after. A day in a year that is not supported is replaced by the nearest
/// supported day.
pub open spec fn trailing_cell(year: int, month: Month, index: int) -> DayCellView {
    DayCellView {
        date: clamped_date(year_of_following_month(year, month), month.following(), index + 1),
        is_outside_month: true,
    }
}

/// The padding cells before the month.
pub open spec fn leading_cells(year: int, month: Month) -> Seq<DayCellView> {
    Seq::new(leading_count(year, month) as nat, |index: int| leading_cell(year, month, index))
}

/// The cells of the month itself.
pub open spec fn current_cells(year: int, month: Month) -> Seq<DayCellView> {
    Seq::new(days_in_month(year, month) as nat, |index: int| current_cell(year, month, index))
}

/// The padding cells after the month.
pub open spec fn trailing_cells(year: int, month: Month) -> Seq<DayCellView> {
    Seq::new(trailing_count(year, month) as nat, |index: int| trailing_cell(year, month, index))
}

/// The grid shown for a month, row after row.
pub open spec fn visible_grid(year: int, month: Month) -> Seq<DayCellView> {
    leading_cells(year, month) + current_cells(year, month) + trailing_cells(year, month)
}

/// Whether the grid of a month shows no day of a year that is not supported,
/// so that every cell shows the day it stands for.
pub open spec fn grid_is_exact(year: int, month: Month) -> bool {
    &&& is_supported_year(year)
    &&& leading_count(year, month) > 0 ==> is_supported_year(year_of_preceding_month(year, month))
    &&& trailing_count(year, month) > 0 ==> is_supported_year(
        year_of_following_month(year, month),
    )
}

/// The padding before and after a month is less than a week each.
pub proof fn lemma_padding_bounds(year: int, month: Month)
    ensures
        0 <= leading_count(year, month) <= 6,
        0 <= trailing_count(year, month) <= 6,
{
}

/// The grid of every month is made of whole weeks: four to six of them.
pub proof fn lemma_grid_is_whole_weeks(year: int, month: Month)
    ensures
        visible_grid(year, month).len() == leading_count(year, month) + days_in_month(year, month)
            + trailing_count(year, month),
        visible_grid(year, month).len() % 7 == 0,
        28 <= visible_grid(year, month).len() <= 42,
{
    lemma_padding_bounds(year, month);
    lemma_days_in_month_bounds(year, month);
    let first = day_number(year, month, 1);
    let days = days_in_month(year, month);
    assert(day_number(year, month, days) == first + days - 1);
    let length = leading_count(year, month) + days + trailing_count(year, month);
    assert(length == first % 7 + days + 6 - (first + days - 1) % 7);
    assert(length % 7 == 0);
}

/// Every cell of the grid of a month in a supported year shows a day that
/// exists, in a supported year.
pub proof fn lemma_grid_shows_days_that_exist(year: int, month: Month)
    requires
        is_supported_year(year),
    ensures
        forall|index: int|
            0 <= index < visible_grid(year, month).len() ==> (#[trigger] visible_grid(
                year,
                month,
            )[index]).date.is_supported(),
{
    lemma_padding_bounds(year, month);
    lemma_days_in_month_bounds(year, month);
    assert forall|index: int| 0 <= index < visible_grid(year, month).len() implies (
    #[trigger] visible_grid(year, month)[index]).date.is_supported() by {
        let leading = leading_count(year, month);
        let days = days_in_month(year, month);
        if index < leading {
            assert(visible_grid(year, month)[index] == leading_cell(year, month, index));
            lemma_clamped_date_is_supported(
                year_of_preceding_month(year, month),
                month.preceding(),
                days_in_month(year_of_preceding_month(year, month), month.preceding()) - leading
                    + 1 + index,
            );
        } else if index < leading + days {
            assert(visible_grid(year, month)[index] == current_cell(year, month, index - leading));
        } else {
            assert(visible_grid(year, month)[index] == trailing_cell(
                year,
                month,
                index - leading - days,
            ));
            lemma_clamped_date_is_supported(
                year_of_following_month(year, month),
                month.following(),
                index - leading - days + 1,
            );
        }
    }
}

/// The cells of the month itself are its days from the first to the last, in
/// order and in one run; they are the cells that are not flagged as outside
/// the month, and every other cell is flagged.
pub proof fn lemma_grid_shows_the_month(year: int, month: Month)
    ensures
        visible_grid(year, month).subrange(
            leading_count(year, month),
            leading_count(year, month) + days_in_month(year, month),
        ) == current_cells(year, month),
        current_cells(year, month).len() == days_in_month(year, month),
        forall|index: int|
            0 <= index < days_in_month(year, month) ==> #[trigger] current_cells(
                year,
                month,
            )[index] == (DayCellView {
                date: Ymd { year, month, day: index + 1 },
                is_outside_month: false,
            }),
        forall|index: int|
            0 <= index < visible_grid(year, month).len() ==> (#[trigger] visible_grid(
                year,
                month,
            )[index].is_outside_month <==> !(leading_count(year, month) <= index < leading_count(
                year,
                month,
            ) + days_in_month(year, month))),
        visible_grid(year, month).filter(|cell: DayCellView| !cell.is_outside_month)
            == current_cells(year, month),
{
    lemma_padding_bounds(year, month);
    lemma_days_in_month_bounds(year, month);
    lemma_grid_is_whole_weeks(year, month);
    let leading = leading_cells(year, month);
    let current = current_cells(year, month);
    let trailing = trailing_cells(year, month);
    let inside = |cell: DayCellView| !cell.is_outside_month;
    assert(visible_grid(year, month).subrange(
        leading_count(year, month),
        leading_count(year, month) + days_in_month(year, month),
    ) =~= current);
    lemma_filter_keeps_none(leading, inside);
    lemma_filter_keeps_none(trailing, inside);
    lemma_filter_keeps_all(current, inside);
    Seq::filter_distributes_over_add(leading + current, trailing, inside);
    Seq::filter_distributes_over_add(leading, current, inside);
    assert(Seq::<DayCellView>::empty() + current + Seq::<DayCellView>::empty() =~= current);
}

/// A filter that no element passes leaves nothing.
proof fn lemma_filter_keeps_none(cells: Seq<DayCellView>, keep: spec_fn(DayCellView) -> bool)
    requires
        forall|index: int| 0 <= index < cells.len() ==> !keep(#[trigger] cells[index]),
    ensures
        cells.filter(keep) == Seq::<DayCellView>::empty(),
    decreases cells.len(),
{
    reveal(Seq::filter);
    if cells.len() > 0 {
        lemma_filter_keeps_none(cells.drop_last(), keep);
    }
}

/// A filter that every element passes leaves the sequence as it is.
proof fn lemma_filter_keeps_all(cells: Seq<DayCellView>, keep: spec_fn(DayCellView) -> bool)
    requires
        forall|index: int| 0 <= index < cells.len() ==> keep(#[trigger] cells[index]),
    ensures
        cells.filter(keep) == cells,
    decreases cells.len(),
{
    reveal(Seq::filter);
    if cells.len() > 0 {
        lemma_filter_keeps_all(cells.drop_last(), keep);
        assert(cells.drop_last().push(cells.last()) =~= cells);
    }
}

/// Counting on from the Sunday on or before a day, the weekday of each
/// further day is its distance from that Sunday, taken in weeks.
proof fn lemma_weekday_from_sunday_on(first: int, index: int)
    ensures
        (first - first % 7 + index) % 7 == index % 7,
{
}

/// Where the year of the month before is supported, each padding cell
/// before the month shows a day that exists: the day as far before the first
/// of the month as the cell stands before the first cell of the month.
proof fn lemma_leading_cell_day(year: int, month: Month, index: int)
    requires
        is_supported_year(year_of_preceding_month(year, month)),
        0 <= index < leading_count(year, month),
    ensures
        leading_cell(year, month, index).date.is_supported(),
        leading_cell(year, month, index).date.day_number() == day_number(year, month, 1)
            - leading_count(year, month) + index,
{
    lemma_padding_bounds(year, month);
    lemma_days_in_month_bounds(year_of_preceding_month(year, month), month.preceding());
    lemma_month_follows_month(year, month);
}

/// Where the year is supported, each cell of the month shows a day that
/// exists, as far after the first of the month as the cell stands after the
/// first cell of the month.
proof fn lemma_current_cell_day(year: int, month: Month, index: int)
    requires
        is_supported_year(year),
        0 <= index < days_in_month(year, month),
    ensures
        current_cell(year, month, index).date.is_supported(),
        current_cell(year, month, index).date.day_number() == day_number(year, month, 1) + index,
{
}

/// Where the year of the month after is supported, each padding cell after
/// the month shows a day that exists, as far after the last of the month as
/// the cell stands after the last cell of the month.
proof fn lemma_trailing_cell_day(year: int, month: Month, index: int)
    requires
        is_supported_year(year_of_following_month(year, month)),
        0 <= index < trailing_count(year, month),
    ensures
        trailing_cell(year, month, index).date.is_supported(),
        trailing_cell(year, month, index).date.day_number() == day_number(year, month, 1)
            + days_in_month(year, month) + index,
{
    let year_after = year_of_following_month(year, month);
    lemma_month_number(month);
    lemma_padding_bounds(year, month);
    lemma_days_in_month_bounds(year_after, month.following());
    lemma_month_follows_month(year_after, month.following());
    assert(year_of_preceding_month(year_after, month.following()) == year);
}

/// Where the grid is exact, its cells are consecutive days: each cell shows
/// the day after the one before it, the first cell is a Sunday, the last a
/// Saturday, and every day shown is a supported date.
pub proof fn lemma_grid_runs_from_sunday_to_saturday(year: int, month: Month)
    requires
        grid_is_exact(year, month),
    ensures
        forall|index: int|
            0 <= index < visible_grid(year, month).len() ==> {
                let date = (#[trigger] visible_grid(year, month)[index]).date;
                &&& date.is_supported()
                &&& date.day_number() == day_number(year, month, 1) - leading_count(year, month)
                    + index
                &&& date.weekday_from_sunday() == index % 7
            },
{
    lemma_padding_bounds(year, month);
    lemma_days_in_month_bounds(year, month);
    lemma_grid_is_whole_weeks(year, month);
    let leading = leading_count(year, month);
    let days = days_in_month(year, month);
    let first = day_number(year, month, 1);
    assert forall|index: int| 0 <= index < visible_grid(year, month).len() implies {
        let date = (#[trigger] visible_grid(year, month)[index]).date;
        &&& date.is_supported()
        &&& date.day_number() == first - leading + index
        &&& date.weekday_from_sunday() == index % 7
    } by {
        if index < leading {
            assert(visible_grid(year, month)[index] == leading_cell(year, month, index));
            lemma_leading_cell_day(year, month, index);
        } else if index < leading + days {
            assert(visible_grid(year, month)[index] == current_cell(year, month, index - leading));
            lemma_current_cell_day(year, month, index - leading);
        } else {
            assert(visible_grid(year, month)[index] == trailing_cell(
                year,
                month,
                index - leading - days,
            ));
            lemma_trailing_cell_day(year, month, index - leading - days);
        }
        lemma_weekday_from_sunday_on(first, index);
    }
}

impl CalendarCursor {
    /// The grid of day cells for the month on display.
    pub fn visible_grid(&self) -> (cells: Vec<DayCell>)
        requires
            self.is_supported(),
        ensures
            cell_views(cells@) == visible_grid(self.year as int, self.month),
            cells@.len() % 7 == 0,
            28 <= cells@.len() <= 42,
    {
        let year = self.year;
        let month = self.month;
        let month_before = month.pred();
        let month_after = month.succ();
        let year_before = if month == Month::January {
            year - 1
        } else {
            year
        };
        let year_after = if month == Month::December {
            year + 1
        } else {
            year
        };
        proof {
            lemma_month_number(month);
            lemma_padding_bounds(year as int, month);
            lemma_days_in_month_bounds(year as int, month);
            lemma_days_in_month_bounds(year_before as int, month_before);
            lemma_grid_is_whole_weeks(year as int, month);
        }
        let days = days_in_year_month(year, month);
        // December has 31 days in every year, so the year of the cursor
        // serves for the month before January too.
        let days_before = days_in_year_month(year, month_before);
        let leading = CalendarDate::from_ymd_clamped(year, month, 1).num_days_from_sunday();
        let trailing = 6 - CalendarDate::from_ymd_clamped(year, month, days).num_days_from_sunday();
        let mut cells: Vec<DayCell> = Vec::new();
        let mut index: u32 = 0;
        while index < leading
            invariant
                index <= leading == leading_count(year as int, month) <= 6,
                days_before == days_in_month(year_before as int, month_before),
                year_before == year_of_preceding_month(year as int, month),
                month_before == month.preceding(),
                cells@.len() == index,
                forall|at: int|
                    0 <= at < index ==> (#[trigger] cells@[at])@ == leading_cell(
                        year as int,
                        month,
                        at,
                    ),
            decreases leading - index,
        {
            let day = days_before - leading + 1 + index;
            let date = CalendarDate::from_ymd_clamped(year_before, month_before, day);
            cells.push(DayCell { date, is_outside_month: true });
            index = index + 1;
        }
        let mut day: u32 = 1;
        while day <= days
            invariant
                1 <= day <= days + 1,
                days == days_in_month(year as int, month) <= 31,
                is_supported_year(year as int),
                leading == leading_count(year as int, month) <= 6,
                cells@.len() == leading + day - 1,
                forall|at: int|
                    0 <= at < leading ==> (#[trigger] cells@[at])@ == leading_cell(
                        year as int,
                        month,
                        at,
                    ),
                forall|at: int|
                    leading <= at < leading + day - 1 ==> (#[trigger] cells@[at])@ == current_cell(
                        year as int,
                        month,
                        at - leading,
                    ),
            decreases days + 1 - day,
        {
            let date = CalendarDate::from_ymd_clamped(year, month, day);
            cells.push(DayCell { date, is_outside_month: false });
            day = day + 1;
        }
        let mut index: u32 = 0;
        while index < trailing
            invariant
                index <= trailing == trailing_count(year as int, month) <= 6,
                days == days_in_month(year as int, month) <= 31,
                leading == leading_count(year as int, month) <= 6,
                year_after == year_of_following_month(year as int, month),
                month_after == month.following(),
                cells@.len() == leading + days + index,
                forall|at: int|
                    0 <= at < leading ==> (#[trigger] cells@[at])@ == leading_cell(
                        year as int,
                        month,
                        at,
                    ),
                forall|at: int|
                    leading <= at < leading + days ==> (#[trigger] cells@[at])@ == current_cell(
                        year as int,
                        month,
                        at - leading,
                    ),
                forall|at: int|
                    leading + days <= at < leading + days + index ==> (#[trigger] cells@[at])@
                        == trailing_cell(year as int, month, at - leading - days),
            decreases trailing - index,
        {
            let date = CalendarDate::from_ymd_clamped(year_after, month_after, index + 1);
            cells.push(DayCell { date, is_outside_month: true });
            index = index + 1;
        }
        assert(cell_views(cells@) =~= visible_grid(year as int, month));
        cells
    }
}

} // verus!
