//! One module per component.

pub mod button;
pub mod card;
pub mod checkbox;
pub mod chips;
pub mod datepicker;
pub mod iconbutton;
pub mod select;
pub mod textfield;
