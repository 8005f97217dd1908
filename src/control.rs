use vstd::prelude::*;

verus! {

/// What the command line asks the program to do.
#[derive(Debug, Clone, Copy, PartialEq, Eq, Structural)]
pub enum Commands {
    /// Reload the configuration of a running daemon
    Reload,
    /// Start the daemon
    Start,
}

} // verus!
