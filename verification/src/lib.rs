//! A scrollable window onto a block of text, for terminal user interfaces.
//!
//! [`components::viewport::ViewportModel`] keeps the text as lines together
//! with the index of the topmost line on screen, and moves that index by
//! pages, half pages and single lines without scrolling past either end.
//! [`components::state`] says in mathematical terms what each operation
//! does, [`components::laws`] what holds of them together, and [`text`] how
//! a text becomes lines and lines become a frame. [`model::Model`] is what a
//! host sees of a widget.

pub mod components;
pub mod model;
pub mod text;
