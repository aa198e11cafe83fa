//! Settings and storage helpers.

pub mod config;
pub mod connection;
