//! Requests of the Rib REPL tool.

use crate::command::shared_args::ComponentOptionalComponentName;
use vstd::prelude::*;

verus! {

/// Start Rib REPL for a selected component
#[derive(Debug)]
pub struct Repl {
    pub component_name: ComponentOptionalComponentName,
    /// Component version to use, the latest when missing.
    pub version: Option<u64>,
}

} // verus!
