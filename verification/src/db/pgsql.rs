//! PostgreSQL dumps.

pub mod backup;
pub mod config;
