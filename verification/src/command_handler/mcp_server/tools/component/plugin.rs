//! Requests of the component plugin tools.

use crate::command::shared_args::ComponentOptionalComponentName;
use vstd::prelude::*;

verus! {

/// Install a plugin for selected component
#[derive(Debug)]
pub struct Install {
    pub component_name: ComponentOptionalComponentName,
    /// The plugin to install
    pub plugin_name: String,
    /// The version of the plugin to install
    pub plugin_version: String,
    /// Priority of the plugin - largest priority is applied first
    pub priority: i32,
    /// Parameters (key-value pairs) passed to the plugin
    pub param: Vec<(String, String)>,
}

} // verus!
