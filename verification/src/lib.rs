//! The decisions of a chat command-line client: how a session is launched, what
//! state it is in, which errors it reports and what the terminal is told.

pub mod args;
pub mod conversation;
pub mod error;
pub mod file_input;
pub mod launch;
pub mod launch_laws;
pub mod launch_results;
pub mod model;
pub mod state;
pub mod subscription;
pub mod terminal;
pub mod text;
pub mod trust;

pub use args::ChatArgs;
pub use error::ChatError;
pub use state::ChatState;
