//! What the operator can ask for on the command line.

use vstd::prelude::*;

verus! {

/// The command line, once parsed.
#[derive(Clone, Copy, Debug, PartialEq, Eq, Structural)]
pub struct Cli {
    pub command: Commands,
}

/// The commands.
#[derive(Clone, Copy, Debug, PartialEq, Eq, Structural)]
pub enum Commands {
    /// Launch both nodes and keep them running; `quiet` discards their
    /// output.
    Run { quiet: bool },
    /// Report the status of two nodes that are already running.
    Status,
}

} // verus!
