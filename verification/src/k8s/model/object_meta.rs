//! Metadata common to every object of the workload API.

use vstd::prelude::*;

verus! {

/// Name and namespace of an object.
#[derive(Clone, Debug)]
pub struct ObjectMeta {
    pub name: String,
    pub namespace: Option<String>,
}

} // verus!
