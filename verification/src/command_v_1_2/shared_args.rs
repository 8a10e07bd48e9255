//! Arguments shared by several subcommands.

use vstd::prelude::*;

verus! {

/// Optional component names; without them components are selected by the current directory.
#[derive(Debug)]
pub struct ComponentOptionalComponentNames {
    pub component_name: Vec<String>,
}

/// Optional component names; without them all components are selected.
#[derive(Debug)]
pub struct AppOptionalComponentNames {
    pub component_name: Vec<String>,
}

/// Selects a build profile.
#[derive(Debug)]
pub struct BuildProfile {
    pub build_profile: Option<String>,
}

} // verus!
