//! Requests of the HTTP API deployment tools.

use crate::command::shared_args::UpdateOrRedeployArgs;
use vstd::prelude::*;

verus! {

/// Deploy API Deployments
#[derive(Debug)]
pub struct Deploy {
    /// Host or site to deploy; all deployments when missing.
    pub host_or_site: Option<String>,
    pub update_or_redeploy: UpdateOrRedeployArgs,
}

} // verus!
