//! The arguments of the chat command.

use vstd::prelude::*;

verus! {

/// What the user asked for on the command line.
#[derive(Debug, Clone, PartialEq, Eq, Default)]
pub struct ChatArgs {
    /// Resume the previous conversation of this directory.
    pub resume: bool,
    /// The agent to use.
    pub agent: Option<String>,
    /// The model to use.
    pub model: Option<String>,
    /// Let the model use every tool without asking.
    pub trust_all_tools: bool,
    /// Trust only this set of tools: the model uses these without asking, and no others.
    /// An empty name is that of no tool.
    pub trust_tools: Option<Vec<String>>,
    /// Run without expecting input from the user.
    pub no_interactive: bool,
    /// The first question.
    pub input: Option<String>,
}

} // verus!
