//! Unattended backup orchestration: supervising external backup programs,
//! quiescing a scaled workload around the backup window, and deciding which
//! older backups to evict.
//!
//! Everything here is pure decision logic over plain values. Spawning
//! processes, talking to the workload API and touching the filesystem are
//! left to the caller, which feeds observations in and carries actions out.

pub mod app_config;
pub mod common;
pub mod db;
pub mod file;
pub mod k8s;
