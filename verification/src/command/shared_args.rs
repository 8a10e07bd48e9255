//! Arguments shared by several subcommands.

use crate::model::WorkerUpdateMode;
use vstd::prelude::*;

verus! {

/// Optional component names; without them components are selected by the current directory.
#[derive(Debug)]
pub struct ComponentOptionalComponentNames {
    pub component_name: Vec<String>,
}

/// Optional component names; without them all components are selected.
#[derive(Debug)]
pub struct AppOptionalComponentNames {
    pub component_name: Vec<String>,
}

/// A worker name, accepted as `<WORKER>`, `<COMPONENT>/<WORKER>`, `<PROJECT>/<COMPONENT>/<WORKER>`
/// or `<ACCOUNT>/<PROJECT>/<COMPONENT>/<WORKER>`.
#[derive(Debug)]
pub struct WorkerNameArg {
    pub worker_name: String,
}

/// An optional component name; without it the component is selected by the current directory.
#[derive(Debug)]
pub struct ComponentOptionalComponentName {
    pub component_name: Option<String>,
}

/// Skips the modification-time based up-to-date checks; defaults to false.
#[derive(Debug, Clone, Copy)]
pub struct ForceBuildArg {
    pub force_build: bool,
}

/// What a deployment does to existing workers and HTTP APIs besides deploying the components.
#[derive(Debug)]
pub struct UpdateOrRedeployArgs {
    /// Update existing workers in this mode.
    pub update_workers: Option<WorkerUpdateMode>,
    /// Delete and recreate existing workers.
    pub redeploy_workers: bool,
    /// Delete and recreate HTTP API definitions and deployments.
    pub redeploy_http_api: bool,
    /// Delete and recreate workers and HTTP APIs.
    pub redeploy_all: bool,
}

impl UpdateOrRedeployArgs {
    /// Nothing besides the components.
    pub fn none() -> (res: Self)
        ensures
            res.update_workers is None,
            !res.redeploy_workers,
            !res.redeploy_http_api,
            !res.redeploy_all,
    {
        UpdateOrRedeployArgs {
            update_workers: None,
            redeploy_workers: false,
            redeploy_http_api: false,
            redeploy_all: false,
        }
    }
}

} // verus!
