//! The picker's state and the transitions that its buttons and cells
//! trigger. The presentation layer owns one controller per picker, calls a
//! method for each event, and renders what the getters return.

use crate::components::datepicker::calendar::Month;
use crate::components::datepicker::cursor::{CalendarCursor, Direction, NavigationUnit};
use crate::components::datepicker::date::{
    is_supported_year, year_is_supported, CalendarDate, Ymd,
};
use crate::components::datepicker::get_abbreviated_month_name;
use crate::components::datepicker::grid::{cell_views, visible_grid, DayCell, DayCellView};
use crate::components::datepicker::menu::{
    month_list, month_options, year_list, year_options, MonthOption, YearOption,
};
use crate::components::datepicker::DatePickerState;
use vstd::prelude::*;

verus! {

/// The state of a picker as mathematics sees it.
pub struct ControllerView {
    /// The month on display.
    pub cursor: CalendarCursor,
    /// The date that the user has chosen.
    pub selected: Ymd,
    /// The surface on display.
    pub state: DatePickerState,
    /// Whether the picker is open.
    pub active: bool,
}

/// The cursor on the month of `date`.
pub open spec fn cursor_on(date: Ymd) -> CalendarCursor {
    CalendarCursor { year: date.year as i32, month: date.month }
}

impl ControllerView {
    /// What holds of every picker: the year on display is supported, and the
    /// selected date exists.
    pub open spec fn is_valid(self) -> bool {
        self.cursor.is_supported() && self.selected.is_supported()
    }

    /// A picker that starts on `date`: it shows the day grid of the date's
    /// month, with the date selected, and is not open yet.
    pub open spec fn starting_on(date: Ymd) -> ControllerView {
        ControllerView {
            cursor: cursor_on(date),
            selected: date,
            state: DatePickerState::SelectDay,
            active: false,
        }
    }

    /// The picker once it is open.
    pub open spec fn opened(self) -> ControllerView {
        ControllerView { active: true, ..self }
    }

    /// The picker once it is closed, by a confirmation or a cancellation:
    /// cursor, selection and mode stay as they are.
    pub open spec fn closed(self) -> ControllerView {
        ControllerView { active: false, ..self }
    }

    /// The picker after one step of navigation: only the cursor moves.
    pub open spec fn navigated(self, direction: Direction, unit: NavigationUnit) -> ControllerView {
        ControllerView { cursor: self.cursor.after(direction, unit), ..self }
    }

    /// The picker after the header button that opens `pressed` was pressed.
    pub open spec fn with_mode_toggled(self, pressed: DatePickerState) -> ControllerView {
        ControllerView { state: self.state.toggled(pressed), ..self }
    }

    /// The picker after `month` was picked from the month list: the cursor
    /// moves to it, and the day grid is back.
    pub open spec fn with_month_picked(self, month: Month) -> ControllerView {
        ControllerView {
            cursor: CalendarCursor { year: self.cursor.year, month },
            state: DatePickerState::SelectDay,
            ..self
        }
    }

    /// The picker after `year` was picked from the year list: the cursor
    /// moves to it, and the day grid is back.
    pub open spec fn with_year_picked(self, year: i32) -> ControllerView {
        ControllerView {
            cursor: CalendarCursor { year, month: self.cursor.month },
            state: DatePickerState::SelectDay,
            ..self
        }
    }

    /// The picker after a day cell was pressed: its date is selected, and
    /// the cursor follows a cell that shows a day of another month.
    pub open spec fn with_cell_selected(self, cell: DayCellView) -> ControllerView {
        ControllerView {
            selected: cell.date,
            cursor: if cell.is_outside_month {
                cursor_on(cell.date)
            } else {
                self.cursor
            },
            ..self
        }
    }
}

/// The state of one date picker.
#[derive(Clone, Copy, Debug, PartialEq, Eq, Structural)]
pub struct DatePickerController {
    cursor: CalendarCursor,
    selected: CalendarDate,
    state: DatePickerState,
    active: bool,
}

impl View for DatePickerController {
    type V = ControllerView;

    closed spec fn view(&self) -> ControllerView {
        ControllerView {
            cursor: self.cursor,
            selected: self.selected@,
            state: self.state,
            active: self.active,
        }
    }
}

impl DatePickerController {
    /// What holds of every picker.
    #[verifier::type_invariant]
    pub open spec fn is_valid(&self) -> bool {
        self@.is_valid()
    }

    /// A picker that starts on `starting_date`, or on `today` where none is
    /// given. It shows the day grid of that date's month and is not open yet.
    pub fn new(starting_date: Option<CalendarDate>, today: CalendarDate) -> (picker:
        DatePickerController)
        ensures
            picker@ == ControllerView::starting_on(
                match starting_date {
                    Some(date) => date@,
                    None => today@,
                },
            ),
            picker.is_valid(),
    {
        let selected = match starting_date {
            Some(date) => date,
            None => today,
        };
        proof {
            use_type_invariant(&selected);
        }
        DatePickerController {
            cursor: CalendarCursor::of_date(&selected),
            selected,
            state: DatePickerState::initial(),
            active: false,
        }
    }

    /// The month on display.
    pub fn cursor(&self) -> (cursor: CalendarCursor)
        ensures
            cursor == self@.cursor,
            cursor.is_supported(),
    {
        proof {
            use_type_invariant(self);
        }
        self.cursor
    }

    /// The date that the user has chosen.
    pub fn selected_date(&self) -> (date: CalendarDate)
        ensures
            date@ == self@.selected,
    {
        self.selected
    }

    /// The surface on display.
    pub fn state(&self) -> (state: DatePickerState)
        ensures
            state == self@.state,
    {
        self.state
    }

    /// Whether the picker is open.
    pub fn is_active(&self) -> (active: bool)
        ensures
            active == self@.active,
    {
        self.active
    }

    /// Opens the picker. Cursor, selection and mode are as they were left.
    pub fn open(&mut self)
        ensures
            final(self)@ == old(self)@.opened(),
    {
        proof {
            use_type_invariant(&*self);
        }
        self.active = true;
    }

    /// Opens the picker on a fresh date: as a new picker that starts on it.
    pub fn open_on(&mut self, date: CalendarDate)
        ensures
            final(self)@ == ControllerView::starting_on(date@).opened(),
    {
        proof {
            use_type_invariant(&date);
        }
        *self = DatePickerController {
            cursor: CalendarCursor::of_date(&date),
            selected: date,
            state: DatePickerState::initial(),
            active: true,
        };
    }

    /// Closes the picker and returns the selected date, for the caller to
    /// hand to whoever asked for a date.
    pub fn confirm(&mut self) -> (confirmed: CalendarDate)
        ensures
            confirmed@ == old(self)@.selected,
            final(self)@ == old(self)@.closed(),
    {
        proof {
            use_type_invariant(&*self);
        }
        self.active = false;
        self.selected
    }

    /// Closes the picker. Nothing is handed out.
    pub fn cancel(&mut self)
        ensures
            final(self)@ == old(self)@.closed(),
    {
        proof {
            use_type_invariant(&*self);
        }
        self.active = false;
    }

    /// Whether a step of navigation leads to a supported year: whether
    /// `navigate` may be called.
    pub fn can_navigate(&self, direction: Direction, unit: NavigationUnit) -> (possible: bool)
        ensures
            possible == is_supported_year(self@.cursor.year_after(direction, unit)),
    {
        self.cursor.can_navigate(direction, unit)
    }

    /// Moves the cursor by one month or one year, back or forward.
    pub fn navigate(&mut self, direction: Direction, unit: NavigationUnit)
        requires
            is_supported_year(old(self)@.cursor.year_after(direction, unit)),
        ensures
            final(self)@ == old(self)@.navigated(direction, unit),
    {
        proof {
            use_type_invariant(&*self);
        }
        self.cursor = self.cursor.navigate(direction, unit);
    }

    /// Handles a press of the header button that opens `pressed`: the list
    /// opens, or closes if it was open.
    pub fn set_view_mode(&mut self, pressed: DatePickerState)
        ensures
            final(self)@ == old(self)@.with_mode_toggled(pressed),
    {
        proof {
            use_type_invariant(&*self);
        }
        self.state = self.state.toggle(pressed);
    }

    /// Handles the choice of `month` from the month list.
    pub fn pick_month(&mut self, month: Month)
        ensures
            final(self)@ == old(self)@.with_month_picked(month),
    {
        proof {
            use_type_invariant(&*self);
        }
        self.cursor = CalendarCursor::new(self.cursor.year, month);
        self.state = DatePickerState::SelectDay;
    }

    /// Whether `year` may be picked: whether its days can be represented.
    pub fn can_pick_year(year: i32) -> (possible: bool)
        ensures
            possible == is_supported_year(year as int),
    {
        year_is_supported(year)
    }

    /// Handles the choice of `year` from the year list.
    pub fn pick_year(&mut self, year: i32)
        requires
            is_supported_year(year as int),
        ensures
            final(self)@ == old(self)@.with_year_picked(year),
    {
        proof {
            use_type_invariant(&*self);
        }
        self.cursor = CalendarCursor::new(year, self.cursor.month);
        self.state = DatePickerState::SelectDay;
    }

    /// Handles a press on a day cell: its date becomes the selection, and
    /// the cursor moves to the date's month if the cell shows a day of
    /// another month.
    pub fn select_date(&mut self, cell: &DayCell)
        ensures
            final(self)@ == old(self)@.with_cell_selected(cell@),
    {
        proof {
            use_type_invariant(&*self);
            use_type_invariant(&cell.date);
        }
        if cell.is_outside_month {
            self.cursor = CalendarCursor::of_date(&cell.date);
        }
        self.selected = cell.date;
    }

    /// Whether `date` is the selected date.
    pub fn is_selected(&self, date: &CalendarDate) -> (selected: bool)
        ensures
            selected == (self@.selected == date@),
    {
        self.selected.is_same_day(date)
    }

    /// The grid of day cells for the month on display.
    pub fn visible_grid(&self) -> (cells: Vec<DayCell>)
        ensures
            cell_views(cells@) == visible_grid(self@.cursor.year as int, self@.cursor.month),
            cells@.len() % 7 == 0,
            28 <= cells@.len() <= 42,
    {
        proof {
            use_type_invariant(self);
        }
        self.cursor.visible_grid()
    }

    /// The label of the month button in the header.
    pub fn month_label(&self) -> (label: &'static str)
        ensures
            label@ == self@.cursor.month.abbreviated_name(),
    {
        get_abbreviated_month_name(&self.cursor.month)
    }

    /// The number on the year button in the header.
    pub fn year_label(&self) -> (year: i32)
        ensures
            year == self@.cursor.year,
    {
        self.cursor.year
    }

    /// The entries of the month list.
    pub fn month_options(&self) -> (options: Vec<MonthOption>)
        ensures
            options@ == month_list(self@.cursor.month),
    {
        month_options(self.cursor.month)
    }

    /// The entries of the year list.
    pub fn year_options(&self) -> (options: Vec<YearOption>)
        ensures
            options@ == year_list(self@.cursor.year),
    {
        proof {
            use_type_invariant(self);
        }
        year_options(self.cursor.year)
    }
}

/// Every transition keeps a picker valid, as far as it is allowed: navigation
/// and the choice of a year are allowed into supported years only, and a cell
/// shows a date that exists.
pub proof fn lemma_transitions_keep_validity(
    picker: ControllerView,
    direction: Direction,
    unit: NavigationUnit,
    pressed: DatePickerState,
    month: Month,
    year: i32,
    cell: DayCellView,
)
    requires
        picker.is_valid(),
    ensures
        picker.opened().is_valid(),
        picker.closed().is_valid(),
        picker.with_mode_toggled(pressed).is_valid(),
        picker.with_month_picked(month).is_valid(),
        is_supported_year(picker.cursor.year_after(direction, unit)) ==> picker.navigated(
            direction,
            unit,
        ).is_valid(),
        is_supported_year(year as int) ==> picker.with_year_picked(year).is_valid(),
        cell.date.is_supported() ==> picker.with_cell_selected(cell).is_valid(),
{
}

/// Pressing a cell that shows a day of another month moves the cursor to that
/// day's month and selects exactly that day. Pressing a cell of the month on
/// display selects its day and leaves the cursor where it is.
pub proof fn lemma_selection_follows_cell(picker: ControllerView, cell: DayCellView)
    requires
        cell.date.is_supported(),
    ensures
        picker.with_cell_selected(cell).selected == cell.date,
        cell.is_outside_month ==> picker.with_cell_selected(cell).cursor.year == cell.date.year
            && picker.with_cell_selected(cell).cursor.month == cell.date.month,
        !cell.is_outside_month ==> picker.with_cell_selected(cell).cursor == picker.cursor,
        picker.with_cell_selected(cell).state == picker.state,
        picker.with_cell_selected(cell).active == picker.active,
{
}

/// A confirmation that follows the selection of a cell hands out exactly the
/// date of that cell: the selection of a closed picker is the date that the
/// cell showed, whatever was pressed in between but another cell.
pub proof fn lemma_confirmation_returns_selection(
    picker: ControllerView,
    cell: DayCellView,
    pressed: DatePickerState,
    month: Month,
    year: i32,
    direction: Direction,
    unit: NavigationUnit,
)
    ensures
        picker.with_cell_selected(cell).selected == cell.date,
        picker.with_cell_selected(cell).closed().selected == cell.date,
        picker.with_cell_selected(cell).with_mode_toggled(pressed).selected == cell.date,
        picker.with_cell_selected(cell).with_month_picked(month).selected == cell.date,
        picker.with_cell_selected(cell).with_year_picked(year).selected == cell.date,
        picker.with_cell_selected(cell).navigated(direction, unit).selected == cell.date,
        picker.with_cell_selected(cell).closed().opened().selected == cell.date,
{
}

/// Closing a picker and opening it again changes nothing but that it is
/// open: cursor, selection and mode are kept.
pub proof fn lemma_reopening_preserves_state(picker: ControllerView)
    ensures
        picker.closed().opened() == picker.opened(),
        picker.closed().cursor == picker.cursor,
        picker.closed().selected == picker.selected,
        picker.closed().state == picker.state,
{
}

/// Pressing one header button twice brings the day grid back, from any mode
/// but the button's own; nothing else changes.
pub proof fn lemma_mode_toggles_off(picker: ControllerView, pressed: DatePickerState)
    requires
        picker.state != pressed,
    ensures
        picker.with_mode_toggled(pressed).with_mode_toggled(pressed) == (ControllerView {
            state: DatePickerState::SelectDay,
            ..picker
        }),
{
}

} // verus!
