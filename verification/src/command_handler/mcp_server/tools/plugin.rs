//! Requests of the plugin tools.

use vstd::prelude::*;

verus! {

/// Unregister a plugin
#[derive(Debug)]
pub struct Unregister {
    /// Plugin name
    pub plugin_name: String,
    /// Plugin version
    pub version: String,
}

} // verus!
