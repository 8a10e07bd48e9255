//! Requests of the application tools.

use crate::command::shared_args::{AppOptionalComponentNames, ForceBuildArg, UpdateOrRedeployArgs};
use crate::model::WorkerUpdateMode;
use vstd::prelude::*;

verus! {

/// Deploy all components in the application or by selection
#[derive(Debug)]
pub struct Deploy {
    pub component_name: AppOptionalComponentNames,
    pub force_build: ForceBuildArg,
    pub update_or_redeploy: UpdateOrRedeployArgs,
}

/// Clean all components in the application or by selection
#[derive(Debug)]
pub struct Clean {
    pub component_name: AppOptionalComponentNames,
}

/// Try to automatically update all existing workers of the application to the latest version
#[derive(Debug)]
pub struct UpdateWorkers {
    pub component_name: AppOptionalComponentNames,
    /// Update mode, automatic or manual.
    pub update_mode: WorkerUpdateMode,
}

/// Redeploy all workers of the application using the latest version
#[derive(Debug)]
pub struct RedeployWorkers {
    pub component_name: AppOptionalComponentNames,
}

/// Diagnose possible tooling problems
#[derive(Debug)]
pub struct Diagnose {
    pub component_name: AppOptionalComponentNames,
}

/// Run a custom command of the application
#[derive(Debug)]
pub struct CustomCommand {
    pub command: Vec<String>,
}

} // verus!
