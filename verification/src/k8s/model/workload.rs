//! Workload kinds.

pub mod deployment;
