//! The command line of the chat client.

use vstd::prelude::*;

verus! {

/// Parsed command-line arguments.
#[derive(Clone, Debug)]
pub struct Cli {
    pub command: Commands,
}

/// The subcommands.
#[derive(Clone, Debug)]
pub enum Commands {
    /// Send a chat message to the Ollama model; `message` is the chat
    /// message in t3 format (a JSON string).
    Chat { message: String },
}

} // verus!
