//! The state behind the user interface.

pub mod bindings;
pub mod laws;
