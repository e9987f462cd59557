//! Verified core of a desktop companion for configurable mice, keyboards,
//! lights and cameras.

pub mod binding;
pub mod color;
pub mod config;
pub mod desktop;
pub mod inject;
pub mod projection;
pub mod state;
pub mod table;
pub mod text;
pub mod text_set;
