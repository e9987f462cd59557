//! What the desktop program decides between two calls to the outside.

pub mod agent;
pub mod asset_sync;
pub mod camera_scan;
pub mod commands;
pub mod general_page;
pub mod laws;
pub mod updates;
pub mod window;
