//! Input events that the program makes up.

pub mod laws;
pub mod magnify;
pub mod skylight;
