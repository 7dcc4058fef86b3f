//! MongoDB dumps.

pub mod backup;
pub mod config;
