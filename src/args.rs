//! Arguments of a run.
use vstd::prelude::*;

verus! {

/// Arguments shared by every command.
#[derive(Debug, Clone)]
pub struct GlobalArgs {
    /// Path of the configuration file.
    pub file: String,
    /// Labels requested for this run.
    pub labels: Vec<String>,
}

/// Arguments of the `apply` command.
#[derive(Debug, Clone, Copy, PartialEq, Eq, Structural)]
pub struct ApplyArgs {
    /// Perform a dry run without modifying anything on the system.
    pub dry_run: bool,
}

} // verus!
