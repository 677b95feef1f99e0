//! Chips: the element tag of each chip type.

use vstd::prelude::*;

verus! {

/// The four chip types. Each is rendered by its own custom element.
#[derive(Clone, Copy, Debug, PartialEq, Eq, Structural)]
pub enum ChipType {
    Assist,
    Filter,
    Input,
    Suggestion,
}

impl ChipType {
    /// The tag of the custom element that renders this chip type.
    pub open spec fn element_name(self) -> Seq<char> {
        match self {
            ChipType::Assist => "md-assist-chip"@,
            ChipType::Filter => "md-filter-chip"@,
            ChipType::Input => "md-input-chip"@,
            ChipType::Suggestion => "md-suggestion-chip"@,
        }
    }

    /// Get the corresponding element tag.
    pub fn get_element_name(&self) -> (name: String)
        ensures
            name@ == self.element_name(),
    {
        match self {
            ChipType::Assist => "md-assist-chip".to_owned(),
            ChipType::Filter => "md-filter-chip".to_owned(),
            ChipType::Input => "md-input-chip".to_owned(),
            ChipType::Suggestion => "md-suggestion-chip".to_owned(),
        }
    }
}

impl Default for ChipType {
    fn default() -> (chip_type: ChipType)
        ensures
            chip_type == ChipType::Assist,
    {
        ChipType::Assist
    }
}

} // verus!
