//! The workload API as the controller sees it: two requests, what they
//! look like on the wire, and how the answer to the first is read.

use crate::k8s::model::workload::deployment::Deployment;
use vstd::prelude::*;
use vstd::string::StringExecFns;

verus! {

/// Why a request to the workload API failed.
#[derive(Clone, Copy, Debug, PartialEq, Eq, Structural)]
pub enum K8sError {
    /// The API could not be reached.
    Transport,
    /// The API answered with a status outside the 2xx range.
    Http(u16),
    /// The answer could not be read as a deployment.
    InvalidResponse,
    /// The deployment came without a status.
    MissingStatus,
    /// No request address could be formed.
    InvalidUrl,
}

/// The workload-orchestration API. Implementations talk to the real
/// service; nothing is assumed here of what they answer.
pub trait K8sClient {
    /// Reads how many replicas of the deployment are available.
    fn get_available_replicas(&self, namespace: &str, name: &str) -> Result<i32, K8sError>;

    /// Asks for the deployment to run `count` replicas. The request is
    /// accepted at once; convergence takes time.
    fn scale(&self, namespace: &str, name: &str, count: i32) -> Result<(), K8sError>;

    /// Blocks for `seconds` seconds between two polls. The client owns the
    /// clock so that the controller itself never sleeps.
    fn pause(&self, seconds: u64);
}

/// The body of a scale request.
#[derive(Clone, Copy, Debug, PartialEq, Eq, Structural)]
pub struct ScalePatchSpec {
    pub replicas: i32,
}

/// A strategic merge patch that sets a deployment's replica count.
#[derive(Clone, Copy, Debug, PartialEq, Eq, Structural)]
pub struct ScalePatch {
    pub spec: ScalePatchSpec,
}

impl ScalePatch {
    /// The patch that asks for `replicas` replicas.
    pub fn new(replicas: i32) -> (patch: ScalePatch)
        ensures
            patch == (ScalePatch { spec: ScalePatchSpec { replicas } }),
    {
        ScalePatch { spec: ScalePatchSpec { replicas } }
    }
}

/// The path of a deployment below the API's base address.
pub open spec fn spec_deployment_path(namespace: Seq<char>, name: Seq<char>) -> Seq<char> {
    "/apis/apps/v1/namespaces/"@ + namespace + "/deployments/"@ + name
}

/// The path under which the deployment `name` of `namespace` is read and
/// patched.
pub fn deployment_path(namespace: &str, name: &str) -> (path: String)
    ensures
        path@ == spec_deployment_path(namespace@, name@),
{
    let mut path = String::from_str("/apis/apps/v1/namespaces/");
    path.append(namespace);
    path.append("/deployments/");
    path.append(name);
    path
}

/// The value of the authorization header for `token`.
pub fn bearer_authorization(token: &str) -> (value: String)
    ensures
        value@ == "Bearer "@ + token@,
{
    let mut value = String::from_str("Bearer ");
    value.append(token);
    value
}

/// The available replicas that `deployment` reports: none reported means
/// zero, and a deployment without status is an error.
pub open spec fn spec_available_replicas(deployment: Deployment) -> Result<i32, K8sError> {
    match deployment.status {
        Some(status) => Ok(
            match status.available_replicas {
                Some(count) => count,
                None => 0,
            },
        ),
        None => Err(K8sError::MissingStatus),
    }
}

/// Reads the available replica count out of a deployment.
pub fn available_replicas(deployment: &Deployment) -> (count: Result<i32, K8sError>)
    ensures
        count == spec_available_replicas(*deployment),
{
    match deployment.status {
        Some(status) => Ok(
            match status.available_replicas {
                Some(count) => count,
                None => 0,
            },
        ),
        None => Err(K8sError::MissingStatus),
    }
}

} // verus!
