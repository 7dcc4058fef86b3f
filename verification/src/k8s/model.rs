//! The parts of the workload API's objects that the controller reads.

pub mod object_meta;
pub mod workload;
