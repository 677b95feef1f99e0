//! Text fields: the input type attribute, the element tag of each style, and
//! the slot that an icon is placed in.

use vstd::prelude::*;

verus! {

/// The `type` attribute of a text field.
#[derive(Clone, Copy, Debug, PartialEq, Eq, Structural)]
pub enum InputType {
    Text,
    Email,
    Number,
    Password,
    Search,
    TelephoneNumber,
    Url,
    Textarea,
}

impl InputType {
    /// The attribute value for this input type.
    pub open spec fn attribute_value(self) -> Seq<char> {
        match self {
            InputType::Text => "text"@,
            InputType::Email => "email"@,
            InputType::Number => "number"@,
            InputType::Password => "password"@,
            InputType::Search => "search"@,
            InputType::TelephoneNumber => "tel"@,
            InputType::Url => "url"@,
            InputType::Textarea => "textarea"@,
        }
    }
}

impl Default for InputType {
    fn default() -> (value: InputType)
        ensures
            value == InputType::Text,
    {
        InputType::Text
    }
}

impl From<InputType> for String {
    fn from(value: InputType) -> (text: String)
        ensures
            text@ == value.attribute_value(),
    {
        match value {
            InputType::Text => "text".to_owned(),
            InputType::Email => "email".to_owned(),
            InputType::Number => "number".to_owned(),
            InputType::Password => "password".to_owned(),
            InputType::Search => "search".to_owned(),
            InputType::TelephoneNumber => "tel".to_owned(),
            InputType::Url => "url".to_owned(),
            InputType::Textarea => "textarea".to_owned(),
        }
    }
}

impl vstd::std_specs::convert::FromSpecImpl<InputType> for String {
    /// A string is known by its characters only, so the conversion is
    /// specified by the `ensures` of `from` rather than by a spec value.
    open spec fn obeys_from_spec() -> bool {
        false
    }

    open spec fn from_spec(value: InputType) -> String {
        arbitrary()
    }
}

/// The side of a text field on which its icon stands.
#[derive(Clone, Copy, Debug, PartialEq, Eq, Structural)]
pub enum TextFieldIconPlacement {
    Leading,
    Trailing,
}

impl TextFieldIconPlacement {
    /// The slot of the text field element that holds an icon on this side.
    pub open spec fn slot_name(self) -> Seq<char> {
        match self {
            TextFieldIconPlacement::Leading => "leading-icon"@,
            TextFieldIconPlacement::Trailing => "trailing-icon"@,
        }
    }

    /// Get the slot of the text field element that holds an icon on this
    /// side.
    pub fn get_slot_name(&self) -> (slot: &'static str)
        ensures
            slot@ == self.slot_name(),
    {
        match self {
            TextFieldIconPlacement::Leading => "leading-icon",
            TextFieldIconPlacement::Trailing => "trailing-icon",
        }
    }
}

/// The icon of a text field.
#[derive(Debug)]
pub struct TextFieldIcon {
    /// The side on which the icon stands.
    pub placement: TextFieldIconPlacement,
    /// The icon's name.
    pub name: String,
}

impl TextFieldIcon {
    /// The slot of the text field element that holds this icon.
    pub fn get_slot_name(&self) -> (slot: &'static str)
        ensures
            slot@ == self.placement.slot_name(),
    {
        self.placement.get_slot_name()
    }
}

/// The two text field styles. Each is rendered by its own custom element.
#[derive(Clone, Copy, Debug, PartialEq, Eq, Structural)]
pub enum TextFieldStyle {
    Filled,
    Outlined,
}

impl TextFieldStyle {
    /// The tag of the custom element that renders this style.
    pub open spec fn element_name(self) -> Seq<char> {
        match self {
            TextFieldStyle::Filled => "md-filled-text-field"@,
            TextFieldStyle::Outlined => "md-outlined-text-field"@,
        }
    }

    /// Get the corresponding element tag.
    pub fn get_element_name(&self) -> (name: String)
        ensures
            name@ == self.element_name(),
    {
        match self {
            TextFieldStyle::Filled => "md-filled-text-field".to_owned(),
            TextFieldStyle::Outlined => "md-outlined-text-field".to_owned(),
        }
    }
}

impl Default for TextFieldStyle {
    fn default() -> (style: TextFieldStyle)
        ensures
            style == TextFieldStyle::Filled,
    {
        TextFieldStyle::Filled
    }
}

} // verus!
