//! The state of a chat session.

use vstd::prelude::*;

verus! {

/// A tool use asked for by the model, as JSON text. Carried, never inspected.
#[derive(Debug)]
pub struct AssistantToolUse {
    pub json: String,
}

/// A tool waiting for its turn, as JSON text. Carried, never inspected.
#[derive(Debug)]
pub struct QueuedTool {
    pub json: String,
}

/// The conversation sent to the model, as JSON text. Carried, never inspected.
#[derive(Debug)]
pub struct ConversationState {
    pub json: String,
}

/// How the history is to be compacted, as JSON text. Carried, never inspected.
#[derive(Debug)]
pub struct CompactStrategy {
    pub json: String,
}

/// Where a tool use event comes from.
#[derive(Debug)]
pub enum ToolUseStatus {
    /// The tool use is the direct result of a user request.
    Idle,
    /// The tool use retries an earlier one. The text is the utterance id of the
    /// user request that first needed the tool.
    RetryInProgress(String),
}

/// The state in which the chat goes on.
#[derive(Debug)]
pub enum ChatState {
    /// Ask the user for input, showing the queued tools if there are any.
    PromptUser {
        /// Leave the tools out, for instance after a clear or a help command.
        skip_printing_tools: bool,
    },
    /// Handle what the user entered.
    HandleInput { input: String },
    /// Check the tool uses that the model asked for.
    ValidateTools { tool_uses: Vec<AssistantToolUse> },
    /// Run the queued tools.
    ExecuteTools,
    /// Send the conversation and show the response as it streams in.
    HandleResponseStream(ConversationState),
    /// Replace the history by a summary.
    CompactHistory {
        /// Extra instructions for the summary.
        prompt: Option<String>,
        /// Show the summary when it is done.
        show_summary: bool,
        /// How the compaction is carried out.
        strategy: CompactStrategy,
    },
    /// Send the current request again after the model was overloaded.
    RetryModelOverload,
    /// Leave the chat.
    Exit,
}

impl Default for ChatState {
    /// A chat starts by prompting the user, tools included.
    fn default() -> (state: Self)
        ensures
            state == (ChatState::PromptUser { skip_printing_tools: false }),
    {
        ChatState::PromptUser { skip_printing_tools: false }
    }
}

/// A chat starts by prompting the user, and the tools are shown.
pub proof fn law_chat_starts_with_a_full_prompt(state: ChatState)
    requires
        call_ensures(<ChatState as Default>::default, (), state),
    ensures
        state is PromptUser,
        !state->skip_printing_tools,
{
}

} // verus!
