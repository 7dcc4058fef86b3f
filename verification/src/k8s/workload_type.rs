//! The kinds of workload that can be scaled.

use vstd::prelude::*;

verus! {

/// A kind of horizontally scaled workload.
#[derive(Clone, Copy, Debug, PartialEq, Eq, Structural)]
pub enum WorkloadType {
    Deployment,
    StatefulSet,
}

} // verus!
