//! The commands of the command line.

use vstd::prelude::*;

verus! {

/// What the program was asked to do.
#[derive(Debug, Clone, Copy, PartialEq, Eq, Structural)]
pub enum Command {
    /// Start the HTTP server.
    Serve,
    /// Run the database migrations.
    Migrate,
    /// Aggregate the feeds of the catalog.
    Greg,
}

/// The parsed command line.
#[derive(Debug, Clone, Copy, PartialEq, Eq, Structural)]
pub struct Opts {
    pub command: Command,
}

} // verus!
