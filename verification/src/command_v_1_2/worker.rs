//! Worker subcommands.

use vstd::prelude::*;

verus! {

/// Invoke and manage workers.
#[derive(Debug)]
pub enum WorkerSubcommand {
    /// Invokes a function of a worker.
    Invoke { worker_name: String, function_name: String, arguments: Vec<String> },
}

} // verus!
