//! Values that several commands share.

use vstd::prelude::*;

verus! {

/// How the workers of a component are moved to a new version.
#[derive(Debug, Clone, Copy, PartialEq, Eq, Structural)]
pub enum WorkerUpdateMode {
    Automatic,
    Manual,
}

/// The name of an update mode on the command line.
pub open spec fn update_mode_name(mode: WorkerUpdateMode) -> Seq<char> {
    match mode {
        WorkerUpdateMode::Automatic => "auto"@,
        WorkerUpdateMode::Manual => "manual"@,
    }
}

impl WorkerUpdateMode {
    /// The name of this mode on the command line: `auto` or `manual`.
    pub fn as_str(&self) -> (res: &'static str)
        ensures
            res@ == update_mode_name(*self),
    {
        match self {
            WorkerUpdateMode::Automatic => "auto",
            WorkerUpdateMode::Manual => "manual",
        }
    }
}

} // verus!
