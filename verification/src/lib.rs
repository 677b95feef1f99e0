//! Material Design component models: the element and class names each
//! component style maps to, and the calendar state machine behind the date
//! picker.
//!
//! Everything here is plain data and pure decisions. Rendering, signals and
//! the clock live with the presentation layer, which feeds this crate plain
//! values and renders what it returns.

pub mod components;
pub mod resources;
