//! The widgets.

pub mod laws;
pub mod state;
pub mod viewport;
