//! Quiescing the workload around the backup window.

pub mod client;
pub mod config;
pub mod model;
pub mod scale;
pub mod workload_type;
