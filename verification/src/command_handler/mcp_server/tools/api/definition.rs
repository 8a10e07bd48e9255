//! Requests of the HTTP API definition tools.

use crate::command::shared_args::UpdateOrRedeployArgs;
use vstd::prelude::*;

verus! {

/// Deploy API Definitions and required components
#[derive(Debug)]
pub struct Deploy {
    /// The API definition to deploy; all of them when missing.
    pub http_api_definition_name: Option<String>,
    pub update_or_redeploy: UpdateOrRedeployArgs,
}

} // verus!
