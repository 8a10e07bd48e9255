//! Local server subcommands.

use vstd::prelude::*;

verus! {

/// Run and manage the local Golem server.
#[derive(Debug)]
pub enum ServerSubcommand {
    /// Runs the Golem server for local development.
    Run {
        /// Address to serve the main API on (default `0.0.0.0`).
        router_addr: String,
        /// Port to serve the main API on (default 9881).
        router_port: u16,
        /// Port to serve custom requests on (default 9006).
        custom_request_port: u16,
        /// Directory to store data in.
        data_dir: Option<String>,
        /// Clean the data directory before starting (default false).
        clean: bool,
    },
    /// Cleans the local server data directory.
    Clean,
}

} // verus!
