//! Requests of the component tools.

pub mod plugin;

use crate::command::shared_args::{
    ComponentOptionalComponentNames, ForceBuildArg, UpdateOrRedeployArgs,
};
use crate::model::WorkerUpdateMode;
use vstd::prelude::*;

verus! {

/// Deploy components
#[derive(Debug)]
pub struct DeployComponentTool {
    pub component_names: ComponentOptionalComponentNames,
    pub force_build_arg: ForceBuildArg,
    pub update_or_redeploy_args: UpdateOrRedeployArgs,
}

/// List components
#[derive(Debug)]
pub struct ListComponentTool {
    /// Optional component name; without it components are selected by the current directory.
    pub component_name: Option<String>,
}

/// Clean components
#[derive(Debug)]
pub struct CleanComponentTool {
    pub component_name: ComponentOptionalComponentNames,
}

/// Get the latest or selected version of a component
#[derive(Debug)]
pub struct GetComponentTool {
    /// Optional component name; without it the component is selected by the current directory.
    pub component_name: Option<String>,
    /// Version of the component, the latest when missing.
    pub version: Option<u64>,
}

/// Try to automatically update all existing workers to the latest version
#[derive(Debug)]
pub struct UpdateWorkersTool {
    /// Optional component name; without it the component is selected by the current directory.
    pub component_name: Option<String>,
    /// Update mode, automatic or manual.
    pub worker_update_mode: WorkerUpdateMode,
    /// Wait for the updates and report their outcome.
    pub await_update: bool,
}

/// Redeploy all workers of the selected component using the latest version
#[derive(Debug)]
pub struct RedeployWorkersTool {
    /// Optional component name; without it the component is selected by the current directory.
    pub component_name: Option<String>,
}

/// List or search component templates
#[derive(Debug)]
pub struct FilterTemplatesComponentTool {
    /// Optional filter for language or template name.
    pub filter: Option<String>,
}

/// Diagnose possible tooling problems
#[derive(Debug)]
pub struct DiagnoseComponentTool {
    pub component_name: ComponentOptionalComponentNames,
}

} // verus!
