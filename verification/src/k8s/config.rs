//! Settings for reaching the workload API.

use vstd::prelude::*;

verus! {

/// Where the workload API is and which deployment to scale.
#[derive(Clone, Debug)]
pub struct K8sConfig {
    pub token_path: String,
    pub cacrt_path: String,
    pub service_host: String,
    pub service_port_https: u16,
    /// The deployment's namespace, if configured outright.
    pub service_namespace: Option<String>,
    pub service_deployment_name: String,
    /// A mounted file that names the namespace, consulted when none is
    /// configured.
    pub namespace_file_path: Option<String>,
}

} // verus!
