//! The command-line vocabulary the library shares with the binary.
use vstd::prelude::*;

verus! {

/// `curio workspace` subcommands.
#[derive(Debug)]
pub enum WorkspaceCommands {
    /// List all registered KB workspaces.
    List,
    /// Register a KB directory as a named workspace.
    Add { name: String, path: String, description: Option<String> },
    /// Remove a workspace registration (does not delete the KB directory).
    Remove { name: String },
}

} // verus!
