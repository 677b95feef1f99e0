//! The date picker: a calendar cursor, a selected date and a three-way view
//! mode, with the grid of day cells derived from the cursor.

pub mod calendar;
pub mod controller;
pub mod cursor;
pub mod date;
pub mod grid;
pub mod menu;

use crate::components::datepicker::calendar::Month;
use vstd::prelude::*;

verus! {

/// Which surface of the picker is on display. Exactly one is, at any time.
#[derive(Clone, Copy, Debug, PartialEq, Eq, Structural)]
pub enum DatePickerState {
    /// The grid of days.
    SelectDay,
    /// The list of months.
    SelectMonth,
    /// The list of years.
    SelectYear,
}

impl DatePickerState {
    /// The mode after the header button that opens `pressed` was pressed:
    /// the button of the mode on display closes it and brings the day grid
    /// back, any other button opens its own mode.
    pub open spec fn toggled(self, pressed: DatePickerState) -> DatePickerState {
        if self == pressed {
            DatePickerState::SelectDay
        } else {
            pressed
        }
    }

    /// Whether the header button that opens `button` is shown dimmed: it is
    /// while the other list is open.
    pub open spec fn dims(self, button: DatePickerState) -> bool {
        self != button && self != DatePickerState::SelectDay
    }

    /// The style attribute of a header button that is dimmed or not.
    pub open spec fn dimmed_style(dimmed: bool) -> Seq<char> {
        if dimmed {
            "opacity: 0.5;"@
        } else {
            ""@
        }
    }

    /// The icon beside the label of the header button that opens `button`:
    /// an arrow up while its list is open, an arrow down while the day grid
    /// is shown, and none while the other list is open.
    pub open spec fn dropdown_icon(self, button: DatePickerState) -> Option<Seq<char>> {
        if self == button {
            Some("arrow_drop_up"@)
        } else if self == DatePickerState::SelectDay {
            Some("arrow_drop_down"@)
        } else {
            None
        }
    }

    /// The initial mode: the day grid.
    pub fn initial() -> (state: DatePickerState)
        ensures
            state == DatePickerState::SelectDay,
    {
        DatePickerState::SelectDay
    }

    /// The mode after the header button that opens `pressed` was pressed.
    pub fn toggle(self, pressed: DatePickerState) -> (next: DatePickerState)
        ensures
            next == self.toggled(pressed),
    {
        if self == pressed {
            DatePickerState::SelectDay
        } else {
            pressed
        }
    }

    /// Whether the navigation arrows are shown and enabled: only beside the
    /// day grid.
    pub fn arrows_visible(self) -> (visible: bool)
        ensures
            visible == (self == DatePickerState::SelectDay),
    {
        self == DatePickerState::SelectDay
    }

    /// The style attribute of the header button that opens `button`.
    pub fn header_button_style(self, button: DatePickerState) -> (style: &'static str)
        ensures
            style@ == Self::dimmed_style(self.dims(button)),
    {
        if self != button && self != DatePickerState::SelectDay {
            "opacity: 0.5;"
        } else {
            ""
        }
    }

    /// The icon beside the label of the header button that opens `button`,
    /// if it shows one.
    pub fn header_dropdown_icon(self, button: DatePickerState) -> (icon: Option<&'static str>)
        ensures
            icon is Some == self.dropdown_icon(button) is Some,
            icon matches Some(name) ==> Some(name@) == self.dropdown_icon(button),
    {
        let icon = if button == self {
            "arrow_drop_up"
        } else {
            "arrow_drop_down"
        };
        let show_dropdown_arrow = self == DatePickerState::SelectDay || self == button;
        if show_dropdown_arrow {
            Some(icon)
        } else {
            None
        }
    }
}

/// Pressing the header button of the mode on display brings the day grid
/// back. So does pressing one button twice, from any mode but the button's
/// own: the first press opens its list, the second closes it.
pub proof fn lemma_toggle_off(state: DatePickerState, pressed: DatePickerState)
    ensures
        pressed.toggled(pressed) == DatePickerState::SelectDay,
        state != pressed ==> state.toggled(pressed).toggled(pressed) == DatePickerState::SelectDay,
        state == pressed && pressed != DatePickerState::SelectDay ==> state.toggled(
            pressed,
        ).toggled(pressed) == pressed,
{
}

/// The label of the month button in the header: the three-letter form of the
/// month's name.
pub fn get_abbreviated_month_name(month: &Month) -> (name: &'static str)
    ensures
        name@ == month.abbreviated_name(),
{
    match *month {
        Month::January => "Jan",
        Month::February => "Feb",
        Month::March => "Mar",
        Month::April => "Apr",
        Month::May => "May",
        Month::June => "Jun",
        Month::July => "Jul",
        Month::August => "Aug",
        Month::September => "Sep",
        Month::October => "Oct",
        Month::November => "Nov",
        Month::December => "Dec",
    }
}

} // verus!
