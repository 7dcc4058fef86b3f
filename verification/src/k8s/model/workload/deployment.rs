//! A deployment, as far as scaling needs to know it.

use vstd::prelude::*;

verus! {

/// A deployment as the workload API reports it.
#[derive(Clone, Copy, Debug, PartialEq, Eq, Structural)]
pub struct Deployment {
    pub status: Option<DeploymentStatus>,
}

/// The observed state of a deployment.
#[derive(Clone, Copy, Debug, PartialEq, Eq, Structural)]
pub struct DeploymentStatus {
    /// Replicas that are up and serving; absent when there are none.
    pub available_replicas: Option<i32>,
}

} // verus!
