//! Requests of the profile tools.

pub mod config;

use crate::config::ProfileName;
use vstd::prelude::*;

verus! {

/// List global profiles
#[derive(Debug)]
pub struct List {}

/// Switch to a global profile
#[derive(Debug)]
pub struct Switch {
    /// Name of the profile to switch to
    pub profile_name: ProfileName,
}

} // verus!
