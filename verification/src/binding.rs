//! What a control does: controls, actions, gestures and their defaults.

pub mod action;
pub mod button;
pub mod defaults;
pub mod gesture;
pub mod laws;
pub mod value;
