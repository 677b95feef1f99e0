//! Buttons: the HTML `type` attribute and the element tag of each style.

use vstd::prelude::*;

verus! {

/// The `type` attribute of a button.
#[derive(Clone, Copy, Debug, PartialEq, Eq, Structural)]
pub enum ButtonType {
    /// Submits the enclosing form; the HTML default.
    Submit,
    Button,
    Reset,
}

impl ButtonType {
    /// The attribute value that HTML defines for this button type.
    pub open spec fn attribute_value(self) -> Seq<char> {
        match self {
            ButtonType::Submit => "submit"@,
            ButtonType::Button => "button"@,
            ButtonType::Reset => "reset"@,
        }
    }
}

impl Default for ButtonType {
    fn default() -> (value: ButtonType)
        ensures
            value == ButtonType::Submit,
    {
        ButtonType::Submit
    }
}

impl From<ButtonType> for String {
    fn from(value: ButtonType) -> (text: String)
        ensures
            text@ == value.attribute_value(),
    {
        match value {
            ButtonType::Button => "button".to_owned(),
            ButtonType::Reset => "reset".to_owned(),
            ButtonType::Submit => "submit".to_owned(),
        }
    }
}

impl vstd::std_specs::convert::FromSpecImpl<ButtonType> for String {
    /// A string is known by its characters only, so the conversion is
    /// specified by the `ensures` of `from` rather than by a spec value.
    open spec fn obeys_from_spec() -> bool {
        false
    }

    open spec fn from_spec(value: ButtonType) -> String {
        arbitrary()
    }
}

/// The five button styles. Each is rendered by its own custom element.
#[derive(Clone, Copy, Debug, PartialEq, Eq, Structural)]
pub enum ButtonStyle {
    Elevated,
    Filled,
    FilledTonal,
    Outlined,
    Text,
}

impl ButtonStyle {
    /// The tag of the custom element that renders this style.
    pub open spec fn element_name(self) -> Seq<char> {
        match self {
            ButtonStyle::Elevated => "md-elevated-button"@,
            ButtonStyle::Filled => "md-filled-button"@,
            ButtonStyle::FilledTonal => "md-filled-tonal-button"@,
            ButtonStyle::Outlined => "md-outlined-button"@,
            ButtonStyle::Text => "md-text-button"@,
        }
    }

    /// Get the corresponding element tag.
    pub fn get_element_name(&self) -> (name: String)
        ensures
            name@ == self.element_name(),
    {
        match self {
            ButtonStyle::Elevated => "md-elevated-button".to_owned(),
            ButtonStyle::Filled => "md-filled-button".to_owned(),
            ButtonStyle::FilledTonal => "md-filled-tonal-button".to_owned(),
            ButtonStyle::Outlined => "md-outlined-button".to_owned(),
            ButtonStyle::Text => "md-text-button".to_owned(),
        }
    }
}

impl Default for ButtonStyle {
    fn default() -> (style: ButtonStyle)
        ensures
            style == ButtonStyle::Elevated,
    {
        ButtonStyle::Elevated
    }
}

} // verus!
