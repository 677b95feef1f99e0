//! Selects: the element tag of each style.

use vstd::prelude::*;

verus! {

/// The two select styles. Each is rendered by its own custom element.
#[derive(Clone, Copy, Debug, PartialEq, Eq, Structural)]
pub enum SelectStyle {
    Filled,
    Outlined,
}

impl SelectStyle {
    /// The tag of the custom element that renders this style.
    pub open spec fn element_name(self) -> Seq<char> {
        match self {
            SelectStyle::Filled => "md-filled-select"@,
            SelectStyle::Outlined => "md-outlined-select"@,
        }
    }

    /// Get the corresponding element tag.
    pub fn get_element_name(&self) -> (name: String)
        ensures
            name@ == self.element_name(),
    {
        match self {
            SelectStyle::Filled => "md-filled-select".to_owned(),
            SelectStyle::Outlined => "md-outlined-select".to_owned(),
        }
    }
}

impl Default for SelectStyle {
    fn default() -> (style: SelectStyle)
        ensures
            style == SelectStyle::Filled,
    {
        SelectStyle::Filled
    }
}

} // verus!
