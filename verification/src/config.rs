//! Persisted configuration.

pub mod laws;
pub mod persistence;
pub mod settings;
pub mod store;
