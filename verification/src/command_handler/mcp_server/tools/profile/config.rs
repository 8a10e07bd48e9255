//! Requests of the profile configuration tools.

use crate::config::{Format, ProfileName};
use vstd::prelude::*;

verus! {

/// Set default output format for the requested profile
#[derive(Debug)]
pub struct SetFormat {
    /// Profile name
    pub profile_name: ProfileName,
    /// CLI output format
    pub format: Format,
}

} // verus!
