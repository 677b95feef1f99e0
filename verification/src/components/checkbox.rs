//! Checkboxes: what a checkbox shows, and what a press on it asks for.

use vstd::prelude::*;

verus! {

/// Whether the box is shown checked: as its value says, and unchecked where
/// it is bound to no value.
pub open spec fn shown_checked(value: Option<bool>) -> bool {
    match value {
        Some(checked) => checked,
        None => false,
    }
}

/// The value that a press asks to have written: the opposite of the current
/// one, where the box is bound to a value and can write one.
pub open spec fn value_after_press(value: Option<bool>, writable: bool) -> Option<bool> {
    match value {
        Some(checked) if writable => Some(!checked),
        _ => None,
    }
}

/// Whether the box is shown checked.
pub fn is_shown_checked(value: Option<bool>) -> (checked: bool)
    ensures
        checked == shown_checked(value),
{
    match value {
        Some(checked) => checked,
        None => false,
    }
}

/// The value to write after a press, if any is to be written.
pub fn press(value: Option<bool>, writable: bool) -> (written: Option<bool>)
    ensures
        written == value_after_press(value, writable),
{
    if let Some(checked) = value {
        if writable {
            return Some(!checked);
        }
    }
    None
}

/// Two presses on a box that writes what a press asks for bring its value
/// back.
pub proof fn lemma_press_twice(checked: bool)
    ensures
        value_after_press(value_after_press(Some(checked), true), true) == Some(checked),
{
}

} // verus!
