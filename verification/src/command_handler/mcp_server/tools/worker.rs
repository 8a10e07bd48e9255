//! Requests of the worker tools.

use crate::command::shared_args::{ComponentOptionalComponentName, WorkerNameArg};
use crate::model::WorkerUpdateMode;
use vstd::prelude::*;

verus! {

/// Get worker metadata
#[derive(Debug)]
pub struct Get {
    pub worker_name: WorkerNameArg,
}

/// Deletes a worker
#[derive(Debug)]
pub struct Delete {
    pub worker_name: WorkerNameArg,
}

/// Updates a worker
#[derive(Debug)]
pub struct Update {
    pub worker_name: WorkerNameArg,
    /// Update mode, automatic when missing.
    pub mode: Option<WorkerUpdateMode>,
    /// The new version of the updated worker; the latest version when missing.
    pub target_version: Option<u64>,
}

impl Update {
    /// The requested update mode, automatic where none is requested.
    pub fn update_mode(&self) -> (res: WorkerUpdateMode)
        ensures
            res == match self.mode {
                Some(m) => m,
                None => WorkerUpdateMode::Automatic,
            },
    {
        match self.mode {
            Some(m) => m,
            None => WorkerUpdateMode::Automatic,
        }
    }
}

/// List worker metadata
#[derive(Debug)]
pub struct List {
    pub component_name: ComponentOptionalComponentName,
    /// Filters in the form `property op value`, all of which must hold.
    pub filter: Vec<String>,
    /// The maximum number of returned workers; all of them when missing.
    pub max_count: Option<u64>,
    /// Query the most up-to-date status of each worker.
    pub precise: bool,
}

/// Interrupts a running worker
#[derive(Debug)]
pub struct Interrupt {
    pub worker_name: WorkerNameArg,
}

/// Resume an interrupted worker
#[derive(Debug)]
pub struct Resume {
    pub worker_name: WorkerNameArg,
}

/// Simulates a crash on a worker for testing purposes.
///
/// The worker starts recovering and resuming immediately.
#[derive(Debug)]
pub struct SimulateCrash {
    pub worker_name: WorkerNameArg,
}

/// Queries and dumps a worker's full oplog
#[derive(Debug)]
pub struct Oplog {
    pub worker_name: WorkerNameArg,
    /// Index of the first oplog entry to get; the whole oplog when missing.
    pub from: Option<u64>,
    /// Lucene query to look for oplog entries; the whole oplog when missing.
    pub query: Option<String>,
}

/// Reverts a worker by undoing its last recorded operations
#[derive(Debug)]
pub struct Revert {
    pub worker_name: WorkerNameArg,
    /// Revert by oplog index
    pub last_oplog_index: Option<u64>,
    /// Revert by number of invocations
    pub number_of_invocations: Option<u64>,
}

/// Cancels an enqueued invocation if it has not started yet
#[derive(Debug)]
pub struct CancelInvocation {
    pub worker_name: WorkerNameArg,
    /// Idempotency key of the invocation to be cancelled
    pub idempotency_key: String,
}

} // verus!
