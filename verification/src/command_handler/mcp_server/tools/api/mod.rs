//! Requests of the HTTP API tools.

pub mod definition;
pub mod deployment;

use crate::command::shared_args::UpdateOrRedeployArgs;
use vstd::prelude::*;

verus! {

/// Deploy API Definitions and Deployments
#[derive(Debug)]
pub struct Deploy {
    pub update_or_redeploy: UpdateOrRedeployArgs,
}

} // verus!
