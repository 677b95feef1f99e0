use leptos_material::components::datepicker::calendar::Month;
use leptos_material::components::datepicker::controller::DatePickerController;
use leptos_material::components::datepicker::cursor::{CalendarCursor, Direction, NavigationUnit};
use leptos_material::components::datepicker::date::{CalendarDate, MAX_YEAR, MIN_YEAR};
use leptos_material::components::datepicker::grid::DayCell;
use leptos_material::components::datepicker::menu::{
    month_options, year_options, MonthOption, YearOption, YEARS_TO_SHOW_BEFORE_AFTER_CURRENT,
};
use leptos_material::components::datepicker::DatePickerState;
use leptos_material::components::datepicker::DatePickerState::{
    SelectDay, SelectMonth, SelectYear,
};

fn date(year: i32, month: u32, day: u32) -> CalendarDate {
    CalendarDate::from_ymd_opt(year, month, day).unwrap()
}

fn picker_on(year: i32, month: u32, day: u32) -> DatePickerController {
    DatePickerController::new(Some(date(year, month, day)), date(1970, 1, 1))
}

/// Steps as the presentation layer does: only where the step is allowed.
fn step(picker: &mut DatePickerController, direction: Direction, unit: NavigationUnit) -> bool {
    let possible = picker.can_navigate(direction, unit);
    if possible {
        picker.navigate(direction, unit);
    }
    possible
}

#[test]
fn a_new_picker_starts_on_the_given_date() {
    let picker = picker_on(2024, 2, 29);
    assert_eq!(picker.selected_date(), date(2024, 2, 29));
    assert_eq!(picker.cursor(), CalendarCursor { year: 2024, month: Month::February });
    assert_eq!(picker.state(), DatePickerState::SelectDay);
    assert!(!picker.is_active());
}

#[test]
fn a_new_picker_without_a_date_starts_on_today() {
    let picker = DatePickerController::new(None, date(2026, 10, 28));
    assert_eq!(picker.selected_date(), date(2026, 10, 28));
    assert_eq!(picker.cursor(), CalendarCursor { year: 2026, month: Month::October });
    assert_eq!(picker.state(), DatePickerState::SelectDay);
}

#[test]
fn a_month_back_from_january_is_december_of_the_year_before() {
    let mut picker = picker_on(2024, 1, 15);
    assert!(step(&mut picker, Direction::Decrement, NavigationUnit::Month));
    assert_eq!(picker.cursor(), CalendarCursor { year: 2023, month: Month::December });
}

#[test]
fn a_month_on_from_december_is_january_of_the_year_after() {
    let mut picker = picker_on(2024, 12, 15);
    assert!(step(&mut picker, Direction::Increment, NavigationUnit::Month));
    assert_eq!(picker.cursor(), CalendarCursor { year: 2025, month: Month::January });
}

#[test]
fn a_month_step_inside_a_year_keeps_the_year() {
    let mut picker = picker_on(2024, 6, 15);
    assert!(step(&mut picker, Direction::Increment, NavigationUnit::Month));
    assert_eq!(picker.cursor(), CalendarCursor { year: 2024, month: Month::July });
    assert!(step(&mut picker, Direction::Decrement, NavigationUnit::Month));
    assert!(step(&mut picker, Direction::Decrement, NavigationUnit::Month));
    assert_eq!(picker.cursor(), CalendarCursor { year: 2024, month: Month::May });
}

#[test]
fn a_year_step_keeps_the_month() {
    let mut picker = picker_on(2024, 2, 29);
    assert!(step(&mut picker, Direction::Increment, NavigationUnit::Year));
    assert_eq!(picker.cursor(), CalendarCursor { year: 2025, month: Month::February });
    assert!(step(&mut picker, Direction::Decrement, NavigationUnit::Year));
    assert!(step(&mut picker, Direction::Decrement, NavigationUnit::Year));
    assert_eq!(picker.cursor(), CalendarCursor { year: 2023, month: Month::February });
}

#[test]
fn navigation_leaves_the_selection_and_the_mode_alone() {
    let mut picker = picker_on(2024, 2, 29);
    picker.open();
    for _ in 0..30 {
        assert!(step(&mut picker, Direction::Increment, NavigationUnit::Month));
    }
    assert_eq!(picker.cursor(), CalendarCursor { year: 2026, month: Month::August });
    assert_eq!(picker.selected_date(), date(2024, 2, 29));
    assert_eq!(picker.state(), DatePickerState::SelectDay);
    assert!(picker.is_active());
}

#[test]
fn a_cursor_steps_like_the_picker() {
    let cursor = CalendarCursor::new(2024, Month::January);
    assert_eq!(
        cursor.navigate(Direction::Decrement, NavigationUnit::Month),
        CalendarCursor { year: 2023, month: Month::December }
    );
    let cursor = CalendarCursor::new(2024, Month::December);
    assert_eq!(
        cursor.navigate(Direction::Increment, NavigationUnit::Month),
        CalendarCursor { year: 2025, month: Month::January }
    );
    assert_eq!(
        cursor.navigate(Direction::Increment, NavigationUnit::Year),
        CalendarCursor { year: 2025, month: Month::December }
    );
}

#[test]
fn navigation_stops_at_the_ends_of_the_supported_range() {
    let mut first = picker_on(MIN_YEAR, 1, 1);
    assert!(!step(&mut first, Direction::Decrement, NavigationUnit::Month));
    assert!(!step(&mut first, Direction::Decrement, NavigationUnit::Year));
    assert_eq!(first.cursor(), CalendarCursor { year: MIN_YEAR, month: Month::January });
    assert!(step(&mut first, Direction::Increment, NavigationUnit::Month));
    assert!(step(&mut first, Direction::Decrement, NavigationUnit::Month));

    let mut last = picker_on(MAX_YEAR, 12, 31);
    assert!(!step(&mut last, Direction::Increment, NavigationUnit::Month));
    assert!(!step(&mut last, Direction::Increment, NavigationUnit::Year));
    assert_eq!(last.cursor(), CalendarCursor { year: MAX_YEAR, month: Month::December });
    assert!(step(&mut last, Direction::Decrement, NavigationUnit::Month));
    assert!(!step(&mut last, Direction::Increment, NavigationUnit::Year));
    assert!(step(&mut last, Direction::Increment, NavigationUnit::Month));
}

#[test]
fn a_cursor_knows_whether_its_year_is_supported() {
    assert!(CalendarCursor::new(2024, Month::May).has_supported_year());
    assert!(CalendarCursor::new(MIN_YEAR, Month::May).has_supported_year());
    assert!(CalendarCursor::new(MAX_YEAR, Month::May).has_supported_year());
    assert!(!CalendarCursor::new(MIN_YEAR - 1, Month::May).has_supported_year());
    assert!(!CalendarCursor::new(MAX_YEAR + 1, Month::May).has_supported_year());
    assert!(!CalendarCursor::new(i32::MAX, Month::May)
        .can_navigate(Direction::Increment, NavigationUnit::Year));
    assert!(!CalendarCursor::new(i32::MIN, Month::May)
        .can_navigate(Direction::Decrement, NavigationUnit::Year));
    assert!(CalendarCursor::new(MAX_YEAR + 1, Month::May)
        .can_navigate(Direction::Decrement, NavigationUnit::Year));
    assert!(CalendarCursor::new(MIN_YEAR - 1, Month::December)
        .can_navigate(Direction::Increment, NavigationUnit::Month));
}

#[test]
fn pressing_the_month_button_twice_returns_to_the_day_grid() {
    let mut picker = picker_on(2024, 2, 29);
    picker.set_view_mode(DatePickerState::SelectMonth);
    assert_eq!(picker.state(), DatePickerState::SelectMonth);
    picker.set_view_mode(DatePickerState::SelectMonth);
    assert_eq!(picker.state(), DatePickerState::SelectDay);
}

#[test]
fn pressing_the_year_button_twice_returns_to_the_day_grid() {
    let mut picker = picker_on(2024, 2, 29);
    picker.set_view_mode(DatePickerState::SelectYear);
    assert_eq!(picker.state(), DatePickerState::SelectYear);
    picker.set_view_mode(DatePickerState::SelectYear);
    assert_eq!(picker.state(), DatePickerState::SelectDay);
}

#[test]
fn pressing_the_other_button_switches_the_list() {
    let mut picker = picker_on(2024, 2, 29);
    picker.set_view_mode(DatePickerState::SelectMonth);
    picker.set_view_mode(DatePickerState::SelectYear);
    assert_eq!(picker.state(), DatePickerState::SelectYear);
    picker.set_view_mode(DatePickerState::SelectMonth);
    assert_eq!(picker.state(), DatePickerState::SelectMonth);
}

#[test]
fn toggling_is_a_function_of_the_mode_and_the_button() {
    assert_eq!(SelectDay.toggle(SelectMonth), SelectMonth);
    assert_eq!(SelectDay.toggle(SelectYear), SelectYear);
    assert_eq!(SelectMonth.toggle(SelectMonth), SelectDay);
    assert_eq!(SelectYear.toggle(SelectYear), SelectDay);
    assert_eq!(SelectMonth.toggle(SelectYear), SelectYear);
    assert_eq!(SelectYear.toggle(SelectMonth), SelectMonth);
    assert_eq!(SelectDay.toggle(SelectDay), SelectDay);
    assert_eq!(SelectMonth.toggle(SelectDay), SelectDay);
    assert_eq!(DatePickerState::initial(), SelectDay);
}

#[test]
fn picking_a_month_moves_the_cursor_and_returns_to_the_day_grid() {
    let mut picker = picker_on(2024, 2, 29);
    picker.set_view_mode(DatePickerState::SelectMonth);
    picker.pick_month(Month::November);
    assert_eq!(picker.cursor(), CalendarCursor { year: 2024, month: Month::November });
    assert_eq!(picker.state(), DatePickerState::SelectDay);
    assert_eq!(picker.selected_date(), date(2024, 2, 29));
}

#[test]
fn picking_the_month_on_display_returns_to_the_day_grid_too() {
    let mut picker = picker_on(2024, 2, 29);
    picker.set_view_mode(DatePickerState::SelectMonth);
    picker.pick_month(Month::February);
    assert_eq!(picker.cursor(), CalendarCursor { year: 2024, month: Month::February });
    assert_eq!(picker.state(), DatePickerState::SelectDay);
}

#[test]
fn picking_a_year_moves_the_cursor_and_returns_to_the_day_grid() {
    let mut picker = picker_on(2024, 2, 29);
    picker.set_view_mode(DatePickerState::SelectYear);
    assert!(DatePickerController::can_pick_year(2031));
    picker.pick_year(2031);
    assert_eq!(picker.cursor(), CalendarCursor { year: 2031, month: Month::February });
    assert_eq!(picker.state(), DatePickerState::SelectDay);
    assert_eq!(picker.selected_date(), date(2024, 2, 29));
}

#[test]
fn only_supported_years_can_be_picked() {
    assert!(DatePickerController::can_pick_year(MIN_YEAR));
    assert!(DatePickerController::can_pick_year(MAX_YEAR));
    assert!(DatePickerController::can_pick_year(0));
    assert!(!DatePickerController::can_pick_year(MIN_YEAR - 1));
    assert!(!DatePickerController::can_pick_year(MAX_YEAR + 1));
}

#[test]
fn selecting_a_cell_of_another_month_moves_the_cursor_there() {
    let mut picker = picker_on(2024, 2, 10);
    let cells = picker.visible_grid();
    // The grid of February 2024 ends with the first two days of March.
    let pressed = cells[34];
    assert_eq!(pressed, DayCell { date: date(2024, 3, 2), is_outside_month: true });
    picker.select_date(&pressed);
    assert_eq!(picker.selected_date(), date(2024, 3, 2));
    assert_eq!(picker.cursor(), CalendarCursor { year: 2024, month: Month::March });
    assert_eq!(picker.state(), DatePickerState::SelectDay);
}

#[test]
fn selecting_a_cell_of_the_month_before_january_moves_the_cursor_a_year_back() {
    let mut picker = picker_on(2024, 1, 10);
    let pressed = picker.visible_grid()[0];
    assert_eq!(pressed, DayCell { date: date(2023, 12, 31), is_outside_month: true });
    picker.select_date(&pressed);
    assert_eq!(picker.selected_date(), date(2023, 12, 31));
    assert_eq!(picker.cursor(), CalendarCursor { year: 2023, month: Month::December });
    // The grid is now centred on the month of the selection.
    let shown = picker.visible_grid();
    assert!(shown.contains(&DayCell { date: date(2023, 12, 31), is_outside_month: false }));
}

#[test]
fn selecting_a_cell_of_the_month_keeps_the_cursor() {
    let mut picker = picker_on(2024, 2, 10);
    let pressed = picker.visible_grid()[4];
    assert_eq!(pressed, DayCell { date: date(2024, 2, 1), is_outside_month: false });
    picker.select_date(&pressed);
    assert_eq!(picker.selected_date(), date(2024, 2, 1));
    assert_eq!(picker.cursor(), CalendarCursor { year: 2024, month: Month::February });
}

#[test]
fn the_selection_need_not_be_on_display() {
    let mut picker = picker_on(2024, 2, 10);
    picker.select_date(&DayCell { date: date(1999, 7, 4), is_outside_month: false });
    assert_eq!(picker.selected_date(), date(1999, 7, 4));
    assert_eq!(picker.cursor(), CalendarCursor { year: 2024, month: Month::February });
}

#[test]
fn confirming_hands_out_the_selected_date_and_closes() {
    let mut picker = picker_on(2024, 2, 10);
    picker.open();
    let pressed = picker.visible_grid()[20];
    picker.select_date(&pressed);
    let confirmed = picker.confirm();
    assert_eq!(confirmed, pressed.date);
    assert_eq!(confirmed, date(2024, 2, 17));
    assert!(!picker.is_active());
}

#[test]
fn confirming_without_a_selection_hands_out_the_starting_date() {
    let mut picker = picker_on(2024, 2, 10);
    picker.open();
    step(&mut picker, Direction::Increment, NavigationUnit::Year);
    assert_eq!(picker.confirm(), date(2024, 2, 10));
}

#[test]
fn cancelling_closes_and_keeps_the_state() {
    let mut picker = picker_on(2024, 2, 10);
    picker.open();
    assert!(picker.is_active());
    step(&mut picker, Direction::Increment, NavigationUnit::Month);
    picker.set_view_mode(DatePickerState::SelectYear);
    let before = picker;
    picker.cancel();
    assert!(!picker.is_active());
    assert_eq!(picker.cursor(), before.cursor());
    assert_eq!(picker.selected_date(), before.selected_date());
    assert_eq!(picker.state(), before.state());
}

#[test]
fn reopening_preserves_the_cursor_and_the_selection() {
    let mut picker = picker_on(2024, 2, 10);
    picker.open();
    let pressed = picker.visible_grid()[34];
    picker.select_date(&pressed);
    step(&mut picker, Direction::Increment, NavigationUnit::Year);
    picker.confirm();
    picker.open();
    assert!(picker.is_active());
    assert_eq!(picker.selected_date(), date(2024, 3, 2));
    assert_eq!(picker.cursor(), CalendarCursor { year: 2025, month: Month::March });
}

#[test]
fn reopening_on_a_fresh_date_starts_over() {
    let mut picker = picker_on(2024, 2, 10);
    picker.open();
    picker.set_view_mode(DatePickerState::SelectYear);
    picker.cancel();
    picker.open_on(date(2030, 6, 1));
    assert!(picker.is_active());
    assert_eq!(picker.selected_date(), date(2030, 6, 1));
    assert_eq!(picker.cursor(), CalendarCursor { year: 2030, month: Month::June });
    assert_eq!(picker.state(), DatePickerState::SelectDay);
}

#[test]
fn only_the_selected_date_is_selected() {
    let picker = picker_on(2024, 2, 10);
    assert!(picker.is_selected(&date(2024, 2, 10)));
    assert!(!picker.is_selected(&date(2024, 2, 11)));
    assert!(!picker.is_selected(&date(2023, 2, 10)));
}

#[test]
fn the_picker_shows_the_grid_of_its_cursor() {
    let mut picker = picker_on(2024, 2, 10);
    assert_eq!(picker.visible_grid(), CalendarCursor::new(2024, Month::February).visible_grid());
    step(&mut picker, Direction::Increment, NavigationUnit::Month);
    assert_eq!(picker.visible_grid(), CalendarCursor::new(2024, Month::March).visible_grid());
    assert_eq!(picker.visible_grid().len() % 7, 0);
}

#[test]
fn the_header_shows_the_month_and_the_year_of_the_cursor() {
    let mut picker = picker_on(2024, 2, 10);
    assert_eq!(picker.month_label(), "Feb");
    assert_eq!(picker.year_label(), 2024);
    step(&mut picker, Direction::Decrement, NavigationUnit::Month);
    step(&mut picker, Direction::Decrement, NavigationUnit::Month);
    assert_eq!(picker.month_label(), "Dec");
    assert_eq!(picker.year_label(), 2023);
}

#[test]
fn the_month_list_holds_the_twelve_months_and_marks_one() {
    let options = month_options(Month::March);
    assert_eq!(options.len(), 12);
    for (index, option) in options.iter().enumerate() {
        assert_eq!(option.month.number_from_month(), index as u32 + 1);
        assert_eq!(option.selected, index == 2);
    }
    assert_eq!(options[0], MonthOption { month: Month::January, selected: false });
    assert_eq!(options[2], MonthOption { month: Month::March, selected: true });
    assert_eq!(options[11], MonthOption { month: Month::December, selected: false });
    assert_eq!(picker_on(2024, 3, 1).month_options(), options);
}

#[test]
fn the_year_list_holds_ten_years_before_and_after_and_marks_one() {
    assert_eq!(YEARS_TO_SHOW_BEFORE_AFTER_CURRENT, 10);
    let options = year_options(2024);
    assert_eq!(options.len(), 21);
    for (index, option) in options.iter().enumerate() {
        assert_eq!(option.year, 2014 + index as i32);
        assert_eq!(option.selected, option.year == 2024);
    }
    assert_eq!(options[0], YearOption { year: 2014, selected: false });
    assert_eq!(options[10], YearOption { year: 2024, selected: true });
    assert_eq!(options[20], YearOption { year: 2034, selected: false });
    assert_eq!(picker_on(2024, 3, 1).year_options(), options);
}

#[test]
fn the_year_list_reaches_over_year_zero_and_the_ends_of_the_range() {
    let options = year_options(3);
    assert_eq!(options[0].year, -7);
    assert_eq!(options[20].year, 13);
    let options = year_options(i32::MAX - 10);
    assert_eq!(options[20], YearOption { year: i32::MAX, selected: false });
    let options = year_options(i32::MIN + 10);
    assert_eq!(options[0], YearOption { year: i32::MIN, selected: false });
    assert_eq!(picker_on(MAX_YEAR, 1, 1).year_options()[20].year, MAX_YEAR + 10);
}

#[test]
fn the_arrows_show_beside_the_day_grid_only() {
    assert!(DatePickerState::SelectDay.arrows_visible());
    assert!(!DatePickerState::SelectMonth.arrows_visible());
    assert!(!DatePickerState::SelectYear.arrows_visible());
}

#[test]
fn a_header_button_is_dimmed_while_the_other_list_is_open() {
    assert_eq!(SelectDay.header_button_style(SelectMonth), "");
    assert_eq!(SelectDay.header_button_style(SelectYear), "");
    assert_eq!(SelectMonth.header_button_style(SelectMonth), "");
    assert_eq!(SelectYear.header_button_style(SelectYear), "");
    assert_eq!(SelectMonth.header_button_style(SelectYear), "opacity: 0.5;");
    assert_eq!(SelectYear.header_button_style(SelectMonth), "opacity: 0.5;");
}

#[test]
fn a_header_button_shows_an_arrow_unless_the_other_list_is_open() {
    assert_eq!(SelectDay.header_dropdown_icon(SelectMonth), Some("arrow_drop_down"));
    assert_eq!(SelectDay.header_dropdown_icon(SelectYear), Some("arrow_drop_down"));
    assert_eq!(SelectMonth.header_dropdown_icon(SelectMonth), Some("arrow_drop_up"));
    assert_eq!(SelectYear.header_dropdown_icon(SelectYear), Some("arrow_drop_up"));
    assert_eq!(SelectMonth.header_dropdown_icon(SelectYear), None);
    assert_eq!(SelectYear.header_dropdown_icon(SelectMonth), None);
}

#[test]
fn two_pickers_share_nothing() {
    let mut first = picker_on(2024, 2, 10);
    let second = picker_on(2024, 2, 10);
    first.open();
    step(&mut first, Direction::Increment, NavigationUnit::Year);
    assert_eq!(second.cursor(), CalendarCursor { year: 2024, month: Month::February });
    assert!(!second.is_active());
}
