//! How a chat session is launched.
//!
//! A launch asks the outside world one thing at a time: it prescribes an action, the
//! answer is recorded, and what is known then prescribes the next action, up to the
//! session itself. What a launch prescribes depends on what is known alone.

use crate::args::ChatArgs;
#[allow(unused_imports)]
use crate::conversation::is_random_uuid;
use crate::conversation::new_conversation_id;
#[allow(unused_imports)]
use crate::model::labels;
use crate::model::{available_models, ModelCatalog, ModelInfo};
#[allow(unused_imports)]
use crate::terminal::styled_view;
use crate::terminal::{styled, StyledText, TextColor};
use crate::text::{copy_list, copy_optional, same_text, starts_with, trim};
#[allow(unused_imports)]
use crate::text::{joined, texts, trimmed};
#[allow(unused_imports)]
use crate::trust::{non_empty, tool_warnings, warnings_view};
use crate::trust::{trusted_tools, warn_about_tools};
use vstd::prelude::*;

verus! {

/// Where to read about the safety of MCP servers.
pub const SAFETY_NOTICE: &'static str = "To learn more about MCP safety, see https://docs.aws.amazon.com/amazonq/latest/qdeveloper-ug/command-line-mcp-security.html\n\n";

/// What is said of a launch that has no input and cannot ask for it.
pub const INPUT_MISSING_TEXT: &'static str = "Input must be supplied when running in non-interactive mode";

/// What the loading of the agents brought.
#[derive(Debug)]
pub struct AgentsLoaded {
    pub load_count: u64,
    pub load_failed_count: u64,
    pub migration_performed: bool,
    pub migrated_count: u64,
    pub launched_agent: Option<String>,
    /// How many MCP servers the active agent has, where an agent is active.
    pub active_mcp_servers: Option<u64>,
    /// The tools that the active agent may use without asking, where an agent is active.
    pub allowed_tools: Option<Vec<String>>,
}

/// What is reported of the loading of the agents.
#[derive(Debug)]
pub struct AgentConfigInit {
    pub conversation_id: String,
    pub agents_loaded_count: i64,
    pub agents_loaded_failed_count: i64,
    pub legacy_profile_migration_executed: bool,
    pub legacy_profile_migrated_count: i64,
    pub launched_agent: Option<String>,
}

/// With what a session is started.
#[derive(Debug)]
pub struct SessionSettings {
    pub conversation_id: String,
    pub input: Option<String>,
    pub resume: bool,
    pub model_id: String,
    pub interactive: bool,
    pub mcp_enabled: bool,
    /// The tools that the active agent may use without asking, and no others, where an
    /// agent is active.
    pub allowed_tools: Option<Vec<String>>,
}

/// Why a launch came to nothing.
#[derive(Debug)]
pub enum LaunchError {
    /// There is no input, and nobody to ask for it.
    InputMissing,
    /// The model that the user asked for does not exist; those that do.
    UnknownModel { requested: String, available: String },
    /// A step outside failed, with this message.
    Step(String),
}

impl LaunchError {
    /// The text of the error, as the user sees it.
    pub open spec fn text(&self) -> Seq<char> {
        match *self {
            LaunchError::InputMissing => INPUT_MISSING_TEXT@,
            LaunchError::UnknownModel { requested, available } => "Model '"@ + requested@
                + "' does not exist. Available models: "@ + available@,
            LaunchError::Step(message) => message@,
        }
    }

    /// The message that is shown of the error.
    pub fn message(&self) -> (message: String)
        ensures
            message@ == self.text(),
    {
        match self {
            LaunchError::InputMissing => INPUT_MISSING_TEXT.to_string(),
            LaunchError::UnknownModel { requested, available } => "Model '".to_string().concat(
                requested.as_str(),
            ).concat("' does not exist. Available models: ").concat(available.as_str()),
            LaunchError::Step(message) => message.clone(),
        }
    }
}

/// What a launch has the outside world do.
#[derive(Debug)]
pub enum LaunchAction {
    /// Find out whether standard input is a terminal.
    CheckStdinIsTerminal,
    /// Read standard input to its end.
    ReadStdin,
    /// Print a line to standard error.
    ShowStdinError(String),
    /// Fetch the arguments of the process.
    ReadProcessArgs,
    /// Print that an argument is deprecated.
    ShowProfileWarning(Vec<StyledText>),
    /// Ask the service whether MCP is enabled.
    QueryMcpStatus,
    /// Load the agents and set whether they trust all tools.
    LoadAgents {
        agent: Option<String>,
        skip_migration: bool,
        mcp_enabled: bool,
        trust_all_tools: bool,
    },
    /// Report the loading of the agents. A failure is of no consequence.
    SendTelemetry(AgentConfigInit),
    /// Read the setting that says whether MCP servers were loaded before.
    ReadMcpLoadedBefore,
    /// Print where to read about the safety of MCP servers.
    ShowSafetyNotice(String),
    /// Store in that setting that they were.
    StoreMcpLoadedBefore,
    /// Print the warnings about tools, one after the other. A failure is of no
    /// consequence.
    ShowToolWarnings(Vec<Vec<StyledText>>),
    /// Let the active agent use these tools without asking, and no others: whatever it
    /// was allowed before is not allowed any more.
    AllowTools(Vec<String>),
    /// Fetch the models that can be had.
    FetchModels,
    /// Read the setting that names the default model.
    ReadDefaultModel,
    /// Look a model up among those that can be had.
    LookUpModel(String),
    /// Build the tool manager.
    BuildToolManager { conversation_id: String, interactive: bool },
    /// Have the tool manager load the tools.
    LoadTools,
    /// Start the session and run it to its end.
    StartSession(SessionSettings),
    /// Nothing is left to do.
    Succeed,
    /// The launch came to nothing.
    Fail(LaunchError),
}

/// The answer to an action.
#[derive(Debug)]
pub enum LaunchEvent {
    StdinIsTerminal(bool),
    StdinRead(Result<String, String>),
    StdinErrorShown,
    ProcessArgs(Vec<String>),
    ProfileWarningShown(Result<(), String>),
    McpStatus(Result<bool, String>),
    AgentsLoaded(AgentsLoaded),
    TelemetrySent(Result<(), String>),
    McpLoadedBefore(Option<bool>),
    SafetyNoticeShown(Result<(), String>),
    McpLoadedStored(Result<(), String>),
    ToolWarningsShown,
    ToolsAllowed,
    ModelsFetched(Result<ModelCatalog, String>),
    DefaultModel(Option<String>),
    ModelLookedUp(Option<ModelInfo>),
    ToolManagerBuilt(Result<(), String>),
    ToolsLoaded(Result<(), String>),
    SessionEnded(Result<(), String>),
}

/// What a launch has been told so far. A field is empty until it is answered.
#[derive(Debug)]
pub struct Knowledge {
    pub stdin_is_terminal: Option<bool>,
    pub stdin: Option<Result<String, String>>,
    pub stdin_error_shown: bool,
    pub process_args: Option<Vec<String>>,
    pub profile_warning: Option<Result<(), String>>,
    pub mcp_status: Option<Result<bool, String>>,
    pub agents: Option<AgentsLoaded>,
    pub telemetry: Option<Result<(), String>>,
    pub mcp_loaded_before: Option<Option<bool>>,
    pub safety_notice: Option<Result<(), String>>,
    pub mcp_loaded_stored: Option<Result<(), String>>,
    pub tool_warnings_shown: bool,
    pub tools_allowed: bool,
    pub catalog: Option<Result<ModelCatalog, String>>,
    pub default_model: Option<Option<String>>,
    pub found_model: Option<Option<ModelInfo>>,
    pub tool_manager: Option<Result<(), String>>,
    pub tools: Option<Result<(), String>>,
    pub session: Option<Result<(), String>>,
}

impl Knowledge {
    /// Nothing is known yet.
    pub open spec fn empty() -> Knowledge {
        Knowledge {
            stdin_is_terminal: None,
            stdin: None,
            stdin_error_shown: false,
            process_args: None,
            profile_warning: None,
            mcp_status: None,
            agents: None,
            telemetry: None,
            mcp_loaded_before: None,
            safety_notice: None,
            mcp_loaded_stored: None,
            tool_warnings_shown: false,
            tools_allowed: false,
            catalog: None,
            default_model: None,
            found_model: None,
            tool_manager: None,
            tools: None,
            session: None,
        }
    }

    /// What is known after one more answer.
    pub open spec fn with(self, event: LaunchEvent) -> Knowledge {
        match event {
            LaunchEvent::StdinIsTerminal(a) => Knowledge { stdin_is_terminal: Some(a), ..self },
            LaunchEvent::StdinRead(a) => Knowledge { stdin: Some(a), ..self },
            LaunchEvent::StdinErrorShown => Knowledge { stdin_error_shown: true, ..self },
            LaunchEvent::ProcessArgs(a) => Knowledge { process_args: Some(a), ..self },
            LaunchEvent::ProfileWarningShown(a) => Knowledge { profile_warning: Some(a), ..self },
            LaunchEvent::McpStatus(a) => Knowledge { mcp_status: Some(a), ..self },
            LaunchEvent::AgentsLoaded(a) => Knowledge { agents: Some(a), ..self },
            LaunchEvent::TelemetrySent(a) => Knowledge { telemetry: Some(a), ..self },
            LaunchEvent::McpLoadedBefore(a) => Knowledge { mcp_loaded_before: Some(a), ..self },
            LaunchEvent::SafetyNoticeShown(a) => Knowledge { safety_notice: Some(a), ..self },
            LaunchEvent::McpLoadedStored(a) => Knowledge { mcp_loaded_stored: Some(a), ..self },
            LaunchEvent::ToolWarningsShown => Knowledge { tool_warnings_shown: true, ..self },
            LaunchEvent::ToolsAllowed => Knowledge { tools_allowed: true, ..self },
            LaunchEvent::ModelsFetched(a) => Knowledge { catalog: Some(a), ..self },
            LaunchEvent::DefaultModel(a) => Knowledge { default_model: Some(a), ..self },
            LaunchEvent::ModelLookedUp(a) => Knowledge { found_model: Some(a), ..self },
            LaunchEvent::ToolManagerBuilt(a) => Knowledge { tool_manager: Some(a), ..self },
            LaunchEvent::ToolsLoaded(a) => Knowledge { tools: Some(a), ..self },
            LaunchEvent::SessionEnded(a) => Knowledge { session: Some(a), ..self },
        }
    }

    /// What the event tells was not known before.
    pub open spec fn lacks(self, event: LaunchEvent) -> bool {
        match event {
            LaunchEvent::StdinIsTerminal(_) => self.stdin_is_terminal is None,
            LaunchEvent::StdinRead(_) => self.stdin is None,
            LaunchEvent::StdinErrorShown => !self.stdin_error_shown,
            LaunchEvent::ProcessArgs(_) => self.process_args is None,
            LaunchEvent::ProfileWarningShown(_) => self.profile_warning is None,
            LaunchEvent::McpStatus(_) => self.mcp_status is None,
            LaunchEvent::AgentsLoaded(_) => self.agents is None,
            LaunchEvent::TelemetrySent(_) => self.telemetry is None,
            LaunchEvent::McpLoadedBefore(_) => self.mcp_loaded_before is None,
            LaunchEvent::SafetyNoticeShown(_) => self.safety_notice is None,
            LaunchEvent::McpLoadedStored(_) => self.mcp_loaded_stored is None,
            LaunchEvent::ToolWarningsShown => !self.tool_warnings_shown,
            LaunchEvent::ToolsAllowed => !self.tools_allowed,
            LaunchEvent::ModelsFetched(_) => self.catalog is None,
            LaunchEvent::DefaultModel(_) => self.default_model is None,
            LaunchEvent::ModelLookedUp(_) => self.found_model is None,
            LaunchEvent::ToolManagerBuilt(_) => self.tool_manager is None,
            LaunchEvent::ToolsLoaded(_) => self.tools is None,
            LaunchEvent::SessionEnded(_) => self.session is None,
        }
    }

    /// How many answers are still missing.
    pub open spec fn missing(self) -> nat {
        count(self.stdin_is_terminal is None)
            + count(self.stdin is None)
            + count(!self.stdin_error_shown)
            + count(self.process_args is None)
            + count(self.profile_warning is None)
            + count(self.mcp_status is None)
            + count(self.agents is None)
            + count(self.telemetry is None)
            + count(self.mcp_loaded_before is None)
            + count(self.safety_notice is None)
            + count(self.mcp_loaded_stored is None)
            + count(!self.tool_warnings_shown)
            + count(!self.tools_allowed)
            + count(self.catalog is None)
            + count(self.default_model is None)
            + count(self.found_model is None)
            + count(self.tool_manager is None)
            + count(self.tools is None)
            + count(self.session is None)
    }
}

/// One where the condition holds, else nothing.
#[verifier::opaque]
pub open spec fn count(condition: bool) -> nat {
    if condition {
        1
    } else {
        0
    }
}

/// The step was taken and went well.
pub open spec fn went_well(outcome: Option<Result<(), String>>) -> bool {
    outcome matches Some(Ok(_))
}

/// The action ends the launch with the failure of a step.
pub open spec fn reports_failure(action: LaunchAction, outcome: Option<Result<(), String>>) -> bool {
    &&& outcome matches Some(Err(message))
    &&& action == LaunchAction::Fail(LaunchError::Step(message))
}

/// An argument of the process is the deprecated `--profile`, alone or with a value.
pub open spec fn is_profile_arg(arg: Seq<char>) -> bool {
    arg == "--profile"@ || "--profile="@.is_prefix_of(arg)
}

/// One of the arguments is the deprecated `--profile`.
pub open spec fn has_profile_arg(args: Seq<String>) -> bool {
    exists|i: int| 0 <= i < args.len() && is_profile_arg(#[trigger] args[i]@)
}

/// The warning about the deprecated argument.
pub open spec fn profile_warning_text() -> Seq<(TextColor, Seq<char>)> {
    seq![
        (TextColor::Yellow, "WARNING: "@),
        (TextColor::Reset, "--profile is deprecated, use "@),
        (TextColor::Green, "--agent"@),
        (TextColor::Reset, " instead\n"@),
    ]
}

/// The action asks for the event.
pub open spec fn answers(event: LaunchEvent, action: LaunchAction) -> bool {
    match action {
        LaunchAction::CheckStdinIsTerminal => event is StdinIsTerminal,
        LaunchAction::ReadStdin => event is StdinRead,
        LaunchAction::ShowStdinError(_) => event is StdinErrorShown,
        LaunchAction::ReadProcessArgs => event is ProcessArgs,
        LaunchAction::ShowProfileWarning(_) => event is ProfileWarningShown,
        LaunchAction::QueryMcpStatus => event is McpStatus,
        LaunchAction::LoadAgents { .. } => event is AgentsLoaded,
        LaunchAction::SendTelemetry(_) => event is TelemetrySent,
        LaunchAction::ReadMcpLoadedBefore => event is McpLoadedBefore,
        LaunchAction::ShowSafetyNotice(_) => event is SafetyNoticeShown,
        LaunchAction::StoreMcpLoadedBefore => event is McpLoadedStored,
        LaunchAction::ShowToolWarnings(_) => event is ToolWarningsShown,
        LaunchAction::AllowTools(_) => event is ToolsAllowed,
        LaunchAction::FetchModels => event is ModelsFetched,
        LaunchAction::ReadDefaultModel => event is DefaultModel,
        LaunchAction::LookUpModel(_) => event is ModelLookedUp,
        LaunchAction::BuildToolManager { .. } => event is ToolManagerBuilt,
        LaunchAction::LoadTools => event is ToolsLoaded,
        LaunchAction::StartSession(_) => event is SessionEnded,
        LaunchAction::Succeed => false,
        LaunchAction::Fail(_) => false,
    }
}

/// A launch: what the user asked for, and what is known.
#[derive(Debug)]
pub struct Launch {
    pub args: ChatArgs,
    pub conversation_id: String,
    /// The names of the tools that are built in.
    pub native_tools: Vec<String>,
    pub known: Knowledge,
}

impl Launch {
    /// The launch after one more answer.
    pub open spec fn with(self, event: LaunchEvent) -> Launch {
        Launch { known: self.known.with(event), ..self }
    }

    // ---- The input ----
    /// The input is looked for on standard input.
    pub open spec fn needs_stdin(self) -> bool {
        self.args.no_interactive && self.args.input is None
    }

    /// The input was found on standard input.
    pub open spec fn stdin_has_input(self) -> bool {
        &&& self.known.stdin_is_terminal == Some(false)
        &&& self.known.stdin matches Some(Ok(text))
        &&& trimmed(text@).len() > 0
    }

    /// The input of the session is settled.
    pub open spec fn input_ready(self) -> bool {
        self.needs_stdin() ==> self.stdin_has_input()
    }

    /// `input` is the input of the session: that of the command line, or what
    /// standard input holds between its outer white space.
    pub open spec fn is_session_input(self, input: Option<String>) -> bool {
        if self.needs_stdin() {
            input is Some && input->0@ == trimmed(self.known.stdin->0->Ok_0@)
        } else {
            input == self.args.input
        }
    }

    /// What is done while the input is not settled.
    pub open spec fn input_step(self, action: LaunchAction) -> bool {
        if self.known.stdin_is_terminal is None {
            action == LaunchAction::CheckStdinIsTerminal
        } else if self.known.stdin_is_terminal == Some(false) && self.known.stdin is None {
            action == LaunchAction::ReadStdin
        } else if self.known.stdin_is_terminal == Some(false) && self.known.stdin->0 is Err
            && !self.known.stdin_error_shown {
            &&& action matches LaunchAction::ShowStdinError(text)
            &&& text@ == "Error reading from stdin: "@ + self.known.stdin->0->Err_0@
        } else {
            action == LaunchAction::Fail(LaunchError::InputMissing)
        }
    }

    // ---- The deprecated argument ----
    /// A deprecated argument was looked for and warned about.
    pub open spec fn profile_ready(self) -> bool {
        &&& self.known.process_args is Some
        &&& has_profile_arg(self.known.process_args->0@) ==> went_well(self.known.profile_warning)
    }

    /// What is done until then.
    pub open spec fn profile_step(self, action: LaunchAction) -> bool {
        if self.known.process_args is None {
            action == LaunchAction::ReadProcessArgs
        } else if self.known.profile_warning is None {
            &&& action matches LaunchAction::ShowProfileWarning(pieces)
            &&& styled_view(pieces@) == profile_warning_text()
        } else {
            reports_failure(action, self.known.profile_warning)
        }
    }

    // ---- The agents ----
    /// MCP is enabled, unless the service says otherwise.
    pub open spec fn mcp_enabled(self) -> bool {
        self.known.mcp_status matches Some(Ok(enabled)) ==> enabled
    }

    /// The agents are loaded and that was reported.
    pub open spec fn agents_ready(self) -> bool {
        self.known.mcp_status is Some && self.known.agents is Some && self.known.telemetry is Some
    }

    /// What is done until then.
    pub open spec fn agents_step(self, action: LaunchAction) -> bool {
        if self.known.mcp_status is None {
            action == LaunchAction::QueryMcpStatus
        } else if self.known.agents is None {
            action == (LaunchAction::LoadAgents {
                agent: self.args.agent,
                skip_migration: self.args.no_interactive,
                mcp_enabled: self.mcp_enabled(),
                trust_all_tools: self.args.trust_all_tools,
            })
        } else {
            let loaded = self.known.agents->0;
            action == LaunchAction::SendTelemetry(
                AgentConfigInit {
                    conversation_id: self.conversation_id,
                    agents_loaded_count: loaded.load_count as i64,
                    agents_loaded_failed_count: loaded.load_failed_count as i64,
                    legacy_profile_migration_executed: loaded.migration_performed,
                    legacy_profile_migrated_count: loaded.migrated_count as i64,
                    launched_agent: loaded.launched_agent,
                },
            )
        }
    }

    // ---- The safety of MCP servers ----
    /// The active agent has MCP servers, and they are enabled.
    pub open spec fn uses_mcp_servers(self) -> bool {
        &&& self.mcp_enabled()
        &&& self.known.agents matches Some(loaded)
        &&& loaded.active_mcp_servers matches Some(servers)
        &&& servers > 0
    }

    /// The user is told about the safety of MCP servers: a user who is there, and who
    /// was not told before.
    pub open spec fn owes_safety_notice(self) -> bool {
        !self.args.no_interactive && self.known.mcp_loaded_before != Some(Some(true))
    }

    /// The user was told as far as need be, and that is stored.
    pub open spec fn safety_ready(self) -> bool {
        self.uses_mcp_servers() ==> {
            &&& !self.args.no_interactive ==> self.known.mcp_loaded_before is Some
            &&& self.owes_safety_notice() ==> went_well(self.known.safety_notice)
            &&& went_well(self.known.mcp_loaded_stored)
        }
    }

    /// What is done until then.
    pub open spec fn safety_step(self, action: LaunchAction) -> bool {
        if !self.args.no_interactive && self.known.mcp_loaded_before is None {
            action == LaunchAction::ReadMcpLoadedBefore
        } else if self.owes_safety_notice() && self.known.safety_notice is None {
            &&& action matches LaunchAction::ShowSafetyNotice(text)
            &&& text@ == SAFETY_NOTICE@
        } else if self.owes_safety_notice() && !went_well(self.known.safety_notice) {
            reports_failure(action, self.known.safety_notice)
        } else if self.known.mcp_loaded_stored is None {
            action == LaunchAction::StoreMcpLoadedBefore
        } else {
            reports_failure(action, self.known.mcp_loaded_stored)
        }
    }

    // ---- The trusted tools ----
    /// There is an active agent.
    pub open spec fn has_active_agent(self) -> bool {
        self.known.agents is Some && self.known.agents->0.allowed_tools is Some
    }

    /// The tools that the user trusts by name were looked at, and no others are allowed.
    pub open spec fn trust_ready(self) -> bool {
        self.args.trust_tools is Some ==> {
            &&& self.known.tool_warnings_shown
            &&& self.has_active_agent() ==> self.known.tools_allowed
        }
    }

    /// What is done until then.
    pub open spec fn trust_step(self, action: LaunchAction) -> bool {
        if !self.known.tool_warnings_shown {
            &&& action matches LaunchAction::ShowToolWarnings(warnings)
            &&& warnings_view(warnings@) == tool_warnings(
                texts(self.args.trust_tools->0@),
                texts(self.native_tools@),
            )
        } else {
            &&& action matches LaunchAction::AllowTools(tools)
            &&& texts(tools@) == non_empty(texts(self.args.trust_tools->0@))
        }
    }

    /// `allowed` are the tools that the active agent may use in the session: those that
    /// the user trusts by name and no others, or, where the user names none, those that
    /// the agent came with.
    pub open spec fn are_session_tools(self, allowed: Option<Vec<String>>) -> bool {
        &&& allowed is Some <==> self.has_active_agent()
        &&& self.args.trust_tools is Some && self.has_active_agent() ==> texts(allowed->0@)
            == non_empty(texts(self.args.trust_tools->0@))
        &&& self.args.trust_tools is None && self.has_active_agent() ==> allowed->0@
            == self.known.agents->0.allowed_tools->0@
    }

    // ---- The model ----
    /// The name of the model that is looked up: the one that the user asked for, else
    /// the one in the settings.
    pub open spec fn wanted_model(self) -> Option<String> {
        match self.args.model {
            Some(requested) => Some(requested),
            None => match self.known.default_model {
                Some(saved) => saved,
                None => None,
            },
        }
    }

    /// The model of the session is settled.
    pub open spec fn model_ready(self) -> bool {
        &&& self.known.catalog matches Some(Ok(_))
        &&& self.args.model is None ==> self.known.default_model is Some
        &&& self.wanted_model() is Some ==> self.known.found_model is Some
        &&& self.args.model is Some ==> self.known.found_model matches Some(Some(_))
    }

    /// The id of that model: that of the wanted model where it was found, else that of
    /// the default model.
    pub open spec fn session_model_id(self) -> String {
        match self.known.found_model {
            Some(Some(found)) => if self.wanted_model() is Some {
                found.model_id
            } else {
                self.known.catalog->0->Ok_0.default_model.model_id
            },
            _ => self.known.catalog->0->Ok_0.default_model.model_id,
        }
    }

    /// What is done until the model is settled.
    pub open spec fn model_step(self, action: LaunchAction) -> bool {
        match self.known.catalog {
            None => action == LaunchAction::FetchModels,
            Some(Err(message)) => action == LaunchAction::Fail(LaunchError::Step(message)),
            Some(Ok(catalog)) => if self.args.model is None && self.known.default_model is None {
                action == LaunchAction::ReadDefaultModel
            } else if self.known.found_model is None {
                action == LaunchAction::LookUpModel(self.wanted_model()->0)
            } else {
                &&& action matches LaunchAction::Fail(
                    LaunchError::UnknownModel { requested, available },
                )
                &&& requested == self.args.model->0
                &&& available@ == joined(labels(catalog.models@), ", "@)
            },
        }
    }

    // ---- The session ----
    /// `settings` are those with which the session is started.
    pub open spec fn are_session_settings(self, settings: SessionSettings) -> bool {
        &&& settings.conversation_id == self.conversation_id
        &&& self.is_session_input(settings.input)
        &&& settings.resume == self.args.resume
        &&& settings.model_id == self.session_model_id()
        &&& settings.interactive == !self.args.no_interactive
        &&& settings.mcp_enabled == self.mcp_enabled()
        &&& self.are_session_tools(settings.allowed_tools)
    }

    /// What is done when everything is settled.
    pub open spec fn session_step(self, action: LaunchAction) -> bool {
        if self.known.tool_manager is None {
            action == (LaunchAction::BuildToolManager {
                conversation_id: self.conversation_id,
                interactive: !self.args.no_interactive,
            })
        } else if !went_well(self.known.tool_manager) {
            reports_failure(action, self.known.tool_manager)
        } else if self.known.tools is None {
            action == LaunchAction::LoadTools
        } else if !went_well(self.known.tools) {
            reports_failure(action, self.known.tools)
        } else if self.known.session is None {
            &&& action matches LaunchAction::StartSession(settings)
            &&& self.are_session_settings(settings)
        } else if !went_well(self.known.session) {
            reports_failure(action, self.known.session)
        } else {
            action == LaunchAction::Succeed
        }
    }

    // ---- The whole ----
    /// The number of the first stage that is not done.
    pub open spec fn stage(self) -> nat {
        if !self.input_ready() {
            0
        } else if !self.profile_ready() {
            1
        } else if !self.agents_ready() {
            2
        } else if !self.safety_ready() {
            3
        } else if !self.trust_ready() {
            4
        } else if !self.model_ready() {
            5
        } else {
            6
        }
    }

    /// The action is the next one: that of the first stage that is not done.
    pub open spec fn prescribes(self, action: LaunchAction) -> bool {
        let stage = self.stage();
        if stage == 0 {
            self.input_step(action)
        } else if stage == 1 {
            self.profile_step(action)
        } else if stage == 2 {
            self.agents_step(action)
        } else if stage == 3 {
            self.safety_step(action)
        } else if stage == 4 {
            self.trust_step(action)
        } else if stage == 5 {
            self.model_step(action)
        } else {
            self.session_step(action)
        }
    }
}

impl ChatArgs {
    /// Begins the launch of a session under a fresh conversation id. Nothing is known
    /// yet; `next_action` says what to do first.
    pub fn execute(self, native_tools: Vec<String>) -> (launch: Launch)
        ensures
            launch.args == self,
            launch.native_tools == native_tools,
            launch.known == Knowledge::empty(),
            is_random_uuid(launch.conversation_id@),
    {
        Launch::new(self, new_conversation_id(), native_tools)
    }
}

impl Launch {
    /// A launch of which nothing is known.
    pub fn new(args: ChatArgs, conversation_id: String, native_tools: Vec<String>) -> (launch: Self)
        ensures
            launch == (Launch { args, conversation_id, native_tools, known: Knowledge::empty() }),
    {
        Launch {
            args,
            conversation_id,
            native_tools,
            known: Knowledge {
                stdin_is_terminal: None,
                stdin: None,
                stdin_error_shown: false,
                process_args: None,
                profile_warning: None,
                mcp_status: None,
                agents: None,
                telemetry: None,
                mcp_loaded_before: None,
                safety_notice: None,
                mcp_loaded_stored: None,
                tool_warnings_shown: false,
                tools_allowed: false,
                catalog: None,
                default_model: None,
                found_model: None,
                tool_manager: None,
                tools: None,
                session: None,
            },
        }
    }

    /// Records the answer to an action.
    pub fn record(&mut self, event: LaunchEvent)
        ensures
            *final(self) == old(self).with(event),
    {
        match event {
            LaunchEvent::StdinIsTerminal(answer) => self.known.stdin_is_terminal = Some(answer),
            LaunchEvent::StdinRead(answer) => self.known.stdin = Some(answer),
            LaunchEvent::StdinErrorShown => self.known.stdin_error_shown = true,
            LaunchEvent::ProcessArgs(answer) => self.known.process_args = Some(answer),
            LaunchEvent::ProfileWarningShown(answer) => self.known.profile_warning = Some(answer),
            LaunchEvent::McpStatus(answer) => self.known.mcp_status = Some(answer),
            LaunchEvent::AgentsLoaded(answer) => self.known.agents = Some(answer),
            LaunchEvent::TelemetrySent(answer) => self.known.telemetry = Some(answer),
            LaunchEvent::McpLoadedBefore(answer) => self.known.mcp_loaded_before = Some(answer),
            LaunchEvent::SafetyNoticeShown(answer) => self.known.safety_notice = Some(answer),
            LaunchEvent::McpLoadedStored(answer) => self.known.mcp_loaded_stored = Some(answer),
            LaunchEvent::ToolWarningsShown => self.known.tool_warnings_shown = true,
            LaunchEvent::ToolsAllowed => self.known.tools_allowed = true,
            LaunchEvent::ModelsFetched(answer) => self.known.catalog = Some(answer),
            LaunchEvent::DefaultModel(answer) => self.known.default_model = Some(answer),
            LaunchEvent::ModelLookedUp(answer) => self.known.found_model = Some(answer),
            LaunchEvent::ToolManagerBuilt(answer) => self.known.tool_manager = Some(answer),
            LaunchEvent::ToolsLoaded(answer) => self.known.tools = Some(answer),
            LaunchEvent::SessionEnded(answer) => self.known.session = Some(answer),
        }
    }

    /// What to do next, now that all that is recorded is known.
    pub fn next_action(&self) -> (action: LaunchAction)
        ensures
            self.prescribes(action),
    {
        if let Some(action) = self.input_action() {
            return action;
        }
        if let Some(action) = self.profile_action() {
            return action;
        }
        if let Some(action) = self.agents_action() {
            return action;
        }
        if let Some(action) = self.safety_action() {
            return action;
        }
        if let Some(action) = self.trust_action() {
            return action;
        }
        if let Some(action) = self.model_action() {
            return action;
        }
        self.session_action()
    }

    /// What to do about the input, unless it is settled.
    fn input_action(&self) -> (action: Option<LaunchAction>)
        ensures
            action is None <==> self.input_ready(),
            action is Some ==> self.input_step(action->0),
    {
        if !self.args.no_interactive || self.args.input.is_some() {
            return None;
        }
        match &self.known.stdin_is_terminal {
            None => Some(LaunchAction::CheckStdinIsTerminal),
            Some(true) => Some(LaunchAction::Fail(LaunchError::InputMissing)),
            Some(false) => match &self.known.stdin {
                None => Some(LaunchAction::ReadStdin),
                Some(Ok(text)) => if trim(text.as_str()).as_str().is_empty() {
                    Some(LaunchAction::Fail(LaunchError::InputMissing))
                } else {
                    None
                },
                Some(Err(message)) => if self.known.stdin_error_shown {
                    Some(LaunchAction::Fail(LaunchError::InputMissing))
                } else {
                    let text: String = "Error reading from stdin: ".to_string().concat(
                        message.as_str(),
                    );
                    Some(LaunchAction::ShowStdinError(text))
                },
            },
        }
    }

    /// What to do about a deprecated argument, unless that is done.
    fn profile_action(&self) -> (action: Option<LaunchAction>)
        ensures
            action is None <==> self.profile_ready(),
            action is Some ==> self.profile_step(action->0),
    {
        match &self.known.process_args {
            None => Some(LaunchAction::ReadProcessArgs),
            Some(args) => if uses_deprecated_profile(args) {
                match &self.known.profile_warning {
                    None => Some(LaunchAction::ShowProfileWarning(profile_warning())),
                    Some(outcome) => failure_of(outcome),
                }
            } else {
                None
            },
        }
    }

    /// What to do about the agents, unless that is done.
    fn agents_action(&self) -> (action: Option<LaunchAction>)
        ensures
            action is None <==> self.agents_ready(),
            action is Some ==> self.agents_step(action->0),
    {
        if self.known.mcp_status.is_none() {
            return Some(LaunchAction::QueryMcpStatus);
        }
        match &self.known.agents {
            None => Some(
                LaunchAction::LoadAgents {
                    agent: copy_optional(&self.args.agent),
                    skip_migration: self.args.no_interactive,
                    mcp_enabled: self.is_mcp_enabled(),
                    trust_all_tools: self.args.trust_all_tools,
                },
            ),
            Some(loaded) => if self.known.telemetry.is_none() {
                Some(
                    LaunchAction::SendTelemetry(
                        AgentConfigInit {
                            conversation_id: self.conversation_id.clone(),
                            agents_loaded_count: loaded.load_count as i64,
                            agents_loaded_failed_count: loaded.load_failed_count as i64,
                            legacy_profile_migration_executed: loaded.migration_performed,
                            legacy_profile_migrated_count: loaded.migrated_count as i64,
                            launched_agent: copy_optional(&loaded.launched_agent),
                        },
                    ),
                )
            } else {
                None
            },
        }
    }

    /// What to do about the safety of MCP servers, unless that is done.
    fn safety_action(&self) -> (action: Option<LaunchAction>)
        ensures
            action is None <==> self.safety_ready(),
            action is Some ==> self.safety_step(action->0),
    {
        let has_servers: bool = match &self.known.agents {
            Some(loaded) => match loaded.active_mcp_servers {
                Some(servers) => servers > 0,
                None => false,
            },
            None => false,
        };
        if !self.is_mcp_enabled() || !has_servers {
            return None;
        }
        if !self.args.no_interactive {
            match self.known.mcp_loaded_before {
                None => {
                    return Some(LaunchAction::ReadMcpLoadedBefore);
                },
                Some(Some(true)) => {},
                Some(_) => match &self.known.safety_notice {
                    None => {
                        return Some(LaunchAction::ShowSafetyNotice(SAFETY_NOTICE.to_string()));
                    },
                    Some(Err(message)) => {
                        return Some(LaunchAction::Fail(LaunchError::Step(message.clone())));
                    },
                    Some(Ok(_)) => {},
                },
            }
        }
        match &self.known.mcp_loaded_stored {
            None => Some(LaunchAction::StoreMcpLoadedBefore),
            Some(outcome) => failure_of(outcome),
        }
    }

    /// What to do about the trusted tools, unless that is done.
    fn trust_action(&self) -> (action: Option<LaunchAction>)
        ensures
            action is None <==> self.trust_ready(),
            action is Some ==> self.trust_step(action->0),
    {
        match &self.args.trust_tools {
            None => None,
            Some(tools) => {
                if !self.known.tool_warnings_shown {
                    return Some(
                        LaunchAction::ShowToolWarnings(warn_about_tools(tools, &self.native_tools)),
                    );
                }
                let has_active_agent: bool = match &self.known.agents {
                    Some(loaded) => loaded.allowed_tools.is_some(),
                    None => false,
                };
                if has_active_agent && !self.known.tools_allowed {
                    Some(LaunchAction::AllowTools(trusted_tools(tools)))
                } else {
                    None
                }
            },
        }
    }

    /// What to do about the model, unless it is settled.
    fn model_action(&self) -> (action: Option<LaunchAction>)
        ensures
            action is None <==> self.model_ready(),
            action is Some ==> self.model_step(action->0),
    {
        let catalog: &ModelCatalog = match &self.known.catalog {
            None => {
                return Some(LaunchAction::FetchModels);
            },
            Some(Err(message)) => {
                return Some(LaunchAction::Fail(LaunchError::Step(message.clone())));
            },
            Some(Ok(catalog)) => catalog,
        };
        match &self.args.model {
            Some(requested) => match &self.known.found_model {
                None => Some(LaunchAction::LookUpModel(requested.clone())),
                Some(Some(_)) => None,
                Some(None) => Some(
                    LaunchAction::Fail(
                        LaunchError::UnknownModel {
                            requested: requested.clone(),
                            available: available_models(&catalog.models),
                        },
                    ),
                ),
            },
            None => match &self.known.default_model {
                None => Some(LaunchAction::ReadDefaultModel),
                Some(None) => None,
                Some(Some(saved)) => if self.known.found_model.is_none() {
                    Some(LaunchAction::LookUpModel(saved.clone()))
                } else {
                    None
                },
            },
        }
    }

    /// What to do when everything is settled.
    fn session_action(&self) -> (action: LaunchAction)
        requires
            self.input_ready(),
            self.model_ready(),
        ensures
            self.session_step(action),
    {
        match &self.known.tool_manager {
            None => {
                return LaunchAction::BuildToolManager {
                    conversation_id: self.conversation_id.clone(),
                    interactive: !self.args.no_interactive,
                };
            },
            Some(Err(message)) => {
                return LaunchAction::Fail(LaunchError::Step(message.clone()));
            },
            Some(Ok(_)) => {},
        }
        match &self.known.tools {
            None => {
                return LaunchAction::LoadTools;
            },
            Some(Err(message)) => {
                return LaunchAction::Fail(LaunchError::Step(message.clone()));
            },
            Some(Ok(_)) => {},
        }
        match &self.known.session {
            None => LaunchAction::StartSession(
                SessionSettings {
                    conversation_id: self.conversation_id.clone(),
                    input: self.session_input(),
                    resume: self.args.resume,
                    model_id: self.model_id(),
                    interactive: !self.args.no_interactive,
                    mcp_enabled: self.is_mcp_enabled(),
                    allowed_tools: self.session_tools(),
                },
            ),
            Some(Err(message)) => LaunchAction::Fail(LaunchError::Step(message.clone())),
            Some(Ok(_)) => LaunchAction::Succeed,
        }
    }

    /// Whether MCP is enabled, which it is unless the service says otherwise.
    fn is_mcp_enabled(&self) -> (enabled: bool)
        ensures
            enabled == self.mcp_enabled(),
    {
        match &self.known.mcp_status {
            Some(Ok(enabled)) => *enabled,
            _ => true,
        }
    }

    /// The input of the session.
    fn session_input(&self) -> (input: Option<String>)
        requires
            self.input_ready(),
        ensures
            self.is_session_input(input),
    {
        if self.args.no_interactive && self.args.input.is_none() {
            if let Some(Ok(text)) = &self.known.stdin {
                return Some(trim(text.as_str()));
            }
        }
        copy_optional(&self.args.input)
    }

    /// The tools that the active agent may use in the session.
    fn session_tools(&self) -> (allowed: Option<Vec<String>>)
        ensures
            self.are_session_tools(allowed),
    {
        let loaded: &AgentsLoaded = match &self.known.agents {
            Some(loaded) => loaded,
            None => {
                return None;
            },
        };
        match (&loaded.allowed_tools, &self.args.trust_tools) {
            (None, _) => None,
            (Some(_), Some(tools)) => Some(trusted_tools(tools)),
            (Some(allowed), None) => Some(copy_list(allowed)),
        }
    }

    /// The id of the model of the session.
    fn model_id(&self) -> (id: String)
        requires
            self.model_ready(),
        ensures
            id == self.session_model_id(),
    {
        let wanted: bool = self.args.model.is_some() || match &self.known.default_model {
            Some(Some(_)) => true,
            _ => false,
        };
        if wanted {
            if let Some(Some(found)) = &self.known.found_model {
                return found.model_id.clone();
            }
        }
        match &self.known.catalog {
            Some(Ok(catalog)) => catalog.default_model.model_id.clone(),
            // Ruled out: the catalog is known where the model is settled.
            _ => String::new(),
        }
    }
}

/// Whether one of the arguments is the deprecated `--profile`, alone or with a value.
pub fn uses_deprecated_profile(args: &Vec<String>) -> (result: bool)
    ensures
        result == has_profile_arg(args@),
{
    let mut i: usize = 0;
    while i < args.len()
        invariant
            i <= args.len(),
            forall|j: int| 0 <= j < i ==> !is_profile_arg(#[trigger] args@[j]@),
        decreases args.len() - i,
    {
        let arg: &str = args[i].as_str();
        if same_text(arg, "--profile") || starts_with(arg, "--profile=") {
            assert(is_profile_arg(args@[i as int]@));
            return true;
        }
        i = i + 1;
    }
    false
}

/// The warning about the deprecated argument.
pub fn profile_warning() -> (pieces: Vec<StyledText>)
    ensures
        styled_view(pieces@) == profile_warning_text(),
{
    vec![
        styled(TextColor::Yellow, "WARNING: "),
        styled(TextColor::Reset, "--profile is deprecated, use "),
        styled(TextColor::Green, "--agent"),
        styled(TextColor::Reset, " instead\n"),
    ]
}

/// The action that ends a launch where a step failed.
fn failure_of(outcome: &Result<(), String>) -> (action: Option<LaunchAction>)
    ensures
        action is None <==> went_well(Some(*outcome)),
        action is Some ==> reports_failure(action->0, Some(*outcome)),
{
    match outcome {
        Ok(_) => None,
        Err(message) => Some(LaunchAction::Fail(LaunchError::Step(message.clone()))),
    }
}

} // verus!
