//! Icon buttons: the element tag of each style.

use vstd::prelude::*;

verus! {

/// The four icon button styles. Each is rendered by its own custom element.
#[derive(Clone, Copy, Debug, PartialEq, Eq, Structural)]
pub enum IconButtonStyle {
    Icon,
    Filled,
    FilledTonal,
    Outlined,
}

impl IconButtonStyle {
    /// The tag of the custom element that renders this style.
    pub open spec fn element_name(self) -> Seq<char> {
        match self {
            IconButtonStyle::Icon => "md-icon-button"@,
            IconButtonStyle::Filled => "md-filled-icon-button"@,
            IconButtonStyle::FilledTonal => "md-filled-tonal-icon-button"@,
            IconButtonStyle::Outlined => "md-outlined-icon-button"@,
        }
    }

    /// Get the corresponding element tag.
    pub fn get_element_name(&self) -> (name: String)
        ensures
            name@ == self.element_name(),
    {
        match self {
            IconButtonStyle::Icon => "md-icon-button".to_owned(),
            IconButtonStyle::Filled => "md-filled-icon-button".to_owned(),
            IconButtonStyle::FilledTonal => "md-filled-tonal-icon-button".to_owned(),
            IconButtonStyle::Outlined => "md-outlined-icon-button".to_owned(),
        }
    }
}

impl Default for IconButtonStyle {
    fn default() -> (style: IconButtonStyle)
        ensures
            style == IconButtonStyle::Icon,
    {
        IconButtonStyle::Icon
    }
}

} // verus!
