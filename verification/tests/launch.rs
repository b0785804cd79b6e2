use chat_launch::launch::{
    profile_warning, uses_deprecated_profile, AgentsLoaded, Launch, LaunchAction, LaunchError,
    LaunchEvent, SessionSettings,
};
use chat_launch::model::{available_models, ModelCatalog, ModelInfo};
use chat_launch::terminal::{StyledText, TextColor};
use chat_launch::trust::warn_about_tools;
use chat_launch::ChatArgs;

fn strings(list: &[&str]) -> Vec<String> {
    list.iter().map(|s| s.to_string()).collect()
}

fn pieces(list: &[StyledText]) -> Vec<(TextColor, &str)> {
    list.iter().map(|piece| (piece.color, piece.text.as_str())).collect()
}

fn model(id: &str, name: Option<&str>) -> ModelInfo {
    ModelInfo { model_id: id.to_string(), model_name: name.map(|n| n.to_string()) }
}

fn models() -> Vec<ModelInfo> {
    vec![model("id-1", Some("first")), model("id-2", None), model("id-3", Some("third"))]
}

fn launch(args: ChatArgs) -> Launch {
    Launch::new(args, "conversation".to_string(), strings(&["fs_read", "fs_write"]))
}

/// What the outside world is like.
struct World {
    terminal: bool,
    stdin: Result<String, String>,
    process_args: Vec<String>,
    mcp: Result<bool, String>,
    active_mcp_servers: Option<u64>,
    allowed_tools: Option<Vec<String>>,
    loaded_before: Option<bool>,
    saved_model: Option<String>,
    failing: Option<&'static str>,
}

impl World {
    fn new() -> World {
        World {
            terminal: true,
            stdin: Ok(String::new()),
            process_args: strings(&["q", "chat"]),
            mcp: Ok(true),
            active_mcp_servers: Some(0),
            allowed_tools: Some(strings(&["fs_write"])),
            loaded_before: None,
            saved_model: None,
            failing: None,
        }
    }

    fn outcome(&self, step: &str) -> Result<(), String> {
        if self.failing == Some(step) {
            Err(format!("{} failed", step))
        } else {
            Ok(())
        }
    }
}

/// Runs a launch to its end and gives the names of its actions, the settings of the
/// session if one was started, and the error if there was one.
fn run(
    args: ChatArgs,
    world: &World,
) -> (Vec<&'static str>, Option<SessionSettings>, Option<LaunchError>) {
    let mut launch = launch(args);
    let mut trace = Vec::new();
    let mut started = None;
    loop {
        assert!(trace.len() <= 19);
        let event = match launch.next_action() {
            LaunchAction::CheckStdinIsTerminal => {
                trace.push("terminal");
                LaunchEvent::StdinIsTerminal(world.terminal)
            },
            LaunchAction::ReadStdin => {
                trace.push("stdin");
                LaunchEvent::StdinRead(world.stdin.clone())
            },
            LaunchAction::ShowStdinError(text) => {
                trace.push("stdin error");
                assert_eq!(text, "Error reading from stdin: closed");
                LaunchEvent::StdinErrorShown
            },
            LaunchAction::ReadProcessArgs => {
                trace.push("args");
                LaunchEvent::ProcessArgs(world.process_args.clone())
            },
            LaunchAction::ShowProfileWarning(_) => {
                trace.push("profile");
                LaunchEvent::ProfileWarningShown(world.outcome("profile"))
            },
            LaunchAction::QueryMcpStatus => {
                trace.push("mcp");
                LaunchEvent::McpStatus(world.mcp.clone())
            },
            LaunchAction::LoadAgents { .. } => {
                trace.push("agents");
                LaunchEvent::AgentsLoaded(AgentsLoaded {
                    load_count: 3,
                    load_failed_count: 1,
                    migration_performed: true,
                    migrated_count: 2,
                    launched_agent: Some("default".to_string()),
                    active_mcp_servers: world.active_mcp_servers,
                    allowed_tools: world.allowed_tools.clone(),
                })
            },
            LaunchAction::SendTelemetry(report) => {
                trace.push("telemetry");
                assert_eq!(report.conversation_id, "conversation");
                assert_eq!(report.agents_loaded_count, 3);
                assert_eq!(report.agents_loaded_failed_count, 1);
                assert!(report.legacy_profile_migration_executed);
                assert_eq!(report.legacy_profile_migrated_count, 2);
                assert_eq!(report.launched_agent, Some("default".to_string()));
                LaunchEvent::TelemetrySent(world.outcome("telemetry"))
            },
            LaunchAction::ReadMcpLoadedBefore => {
                trace.push("loaded before");
                LaunchEvent::McpLoadedBefore(world.loaded_before)
            },
            LaunchAction::ShowSafetyNotice(text) => {
                trace.push("notice");
                assert_eq!(
                    text,
                    "To learn more about MCP safety, see https://docs.aws.amazon.com/amazonq/latest/qdeveloper-ug/command-line-mcp-security.html\n\n"
                );
                LaunchEvent::SafetyNoticeShown(world.outcome("notice"))
            },
            LaunchAction::StoreMcpLoadedBefore => {
                trace.push("store");
                LaunchEvent::McpLoadedStored(world.outcome("store"))
            },
            LaunchAction::ShowToolWarnings(_) => {
                trace.push("warn");
                LaunchEvent::ToolWarningsShown
            },
            LaunchAction::AllowTools(_) => {
                trace.push("allow");
                LaunchEvent::ToolsAllowed
            },
            LaunchAction::FetchModels => {
                trace.push("models");
                LaunchEvent::ModelsFetched(world.outcome("models").map(|_| ModelCatalog {
                    models: models(),
                    default_model: model("id-3", Some("third")),
                }))
            },
            LaunchAction::ReadDefaultModel => {
                trace.push("saved model");
                LaunchEvent::DefaultModel(world.saved_model.clone())
            },
            LaunchAction::LookUpModel(name) => {
                trace.push("look up");
                LaunchEvent::ModelLookedUp(
                    models()
                        .into_iter()
                        .find(|m| m.model_id == name || m.model_name.as_deref() == Some(&name)),
                )
            },
            LaunchAction::BuildToolManager { conversation_id, .. } => {
                trace.push("tool manager");
                assert_eq!(conversation_id, "conversation");
                LaunchEvent::ToolManagerBuilt(world.outcome("tool manager"))
            },
            LaunchAction::LoadTools => {
                trace.push("tools");
                LaunchEvent::ToolsLoaded(world.outcome("tools"))
            },
            LaunchAction::StartSession(settings) => {
                trace.push("session");
                started = Some(settings);
                LaunchEvent::SessionEnded(world.outcome("session"))
            },
            LaunchAction::Succeed => return (trace, started, None),
            LaunchAction::Fail(error) => return (trace, started, Some(error)),
        };
        launch.record(event);
    }
}

const SHORTEST: [&str; 9] = [
    "args",
    "mcp",
    "agents",
    "telemetry",
    "models",
    "saved model",
    "tool manager",
    "tools",
    "session",
];

#[test]
fn shortest_launch_takes_the_steps_in_order() {
    let (trace, session, error) = run(ChatArgs::default(), &World::new());
    assert_eq!(trace, SHORTEST);
    assert!(error.is_none());
    let session = session.unwrap();
    assert_eq!(session.conversation_id, "conversation");
    assert_eq!(session.input, None);
    assert!(!session.resume);
    assert_eq!(session.model_id, "id-3");
    assert!(session.interactive);
    assert!(session.mcp_enabled);
}

#[test]
fn longest_launch_takes_every_step_once() {
    let args = ChatArgs {
        resume: true,
        trust_tools: Some(strings(&["fs_read", "mine"])),
        ..ChatArgs::default()
    };
    let world = World {
        process_args: strings(&["q", "chat", "--profile", "x"]),
        active_mcp_servers: Some(2),
        saved_model: Some("first".to_string()),
        ..World::new()
    };
    let (trace, session, error) = run(args, &world);
    assert_eq!(
        trace,
        [
            "args",
            "profile",
            "mcp",
            "agents",
            "telemetry",
            "loaded before",
            "notice",
            "store",
            "warn",
            "allow",
            "models",
            "saved model",
            "look up",
            "tool manager",
            "tools",
            "session",
        ]
    );
    assert!(error.is_none());
    let session = session.unwrap();
    assert_eq!(session.model_id, "id-1");
    assert!(session.resume);
}

#[test]
fn unattended_launch_reads_and_trims_stdin() {
    let args = ChatArgs { no_interactive: true, ..ChatArgs::default() };
    let world =
        World { terminal: false, stdin: Ok("  what is this?\n".to_string()), ..World::new() };
    let (trace, session, error) = run(args, &world);
    assert_eq!(trace[..3], ["terminal", "stdin", "args"]);
    assert!(error.is_none());
    let session = session.unwrap();
    assert_eq!(session.input, Some("what is this?".to_string()));
    assert!(!session.interactive);
}

#[test]
fn given_input_is_kept_as_it_is() {
    for no_interactive in [false, true] {
        let args = ChatArgs {
            no_interactive,
            input: Some("  hello ".to_string()),
            ..ChatArgs::default()
        };
        let (trace, session, _) = run(args, &World::new());
        assert_eq!(trace, SHORTEST);
        assert_eq!(session.unwrap().input, Some("  hello ".to_string()));
    }
}

#[test]
fn missing_input_is_an_error() {
    let args = || ChatArgs { no_interactive: true, ..ChatArgs::default() };
    for (world, steps) in [
        (World::new(), vec!["terminal"]),
        (
            World { terminal: false, stdin: Ok(" \n\t".to_string()), ..World::new() },
            vec!["terminal", "stdin"],
        ),
        (
            World { terminal: false, stdin: Err("closed".to_string()), ..World::new() },
            vec!["terminal", "stdin", "stdin error"],
        ),
    ] {
        let (trace, session, error) = run(args(), &world);
        assert_eq!(trace, steps);
        assert!(session.is_none());
        let error = error.unwrap();
        assert!(matches!(error, LaunchError::InputMissing));
        assert_eq!(
            error.message(),
            "Input must be supplied when running in non-interactive mode"
        );
    }
}

#[test]
fn requested_model_is_used() {
    let args = ChatArgs { model: Some("id-2".to_string()), ..ChatArgs::default() };
    let world = World { saved_model: Some("first".to_string()), ..World::new() };
    let (trace, session, _) = run(args, &world);
    assert!(!trace.contains(&"saved model"));
    assert_eq!(session.unwrap().model_id, "id-2");
}

#[test]
fn unknown_requested_model_is_refused() {
    let args = ChatArgs { model: Some("fourth".to_string()), ..ChatArgs::default() };
    let (trace, session, error) = run(args, &World::new());
    assert_eq!(trace.last(), Some(&"look up"));
    assert!(session.is_none());
    assert_eq!(
        error.unwrap().message(),
        "Model 'fourth' does not exist. Available models: first, id-2, third"
    );
}

#[test]
fn unknown_saved_model_falls_back_to_the_default() {
    let world = World { saved_model: Some("fourth".to_string()), ..World::new() };
    let (_, session, error) = run(ChatArgs::default(), &world);
    assert!(error.is_none());
    assert_eq!(session.unwrap().model_id, "id-3");
}

#[test]
fn safety_notice_is_shown_once() {
    let servers = || World { active_mcp_servers: Some(1), ..World::new() };
    for (loaded_before, shown) in [(None, true), (Some(false), true), (Some(true), false)] {
        let (trace, _, _) = run(ChatArgs::default(), &World { loaded_before, ..servers() });
        assert_eq!(trace.contains(&"notice"), shown);
        assert!(trace.contains(&"loaded before"));
        assert!(trace.contains(&"store"));
    }
    // Nobody is there to be told, but the setting is stored.
    let args = ChatArgs {
        no_interactive: true,
        input: Some("hi".to_string()),
        ..ChatArgs::default()
    };
    let (trace, _, _) = run(args, &servers());
    assert!(!trace.contains(&"loaded before"));
    assert!(!trace.contains(&"notice"));
    assert!(trace.contains(&"store"));
    // MCP is disabled, or there is no active agent.
    for world in [
        World { mcp: Ok(false), ..servers() },
        World { active_mcp_servers: None, allowed_tools: None, ..World::new() },
    ] {
        let (trace, _, _) = run(ChatArgs::default(), &world);
        assert_eq!(trace, SHORTEST);
    }
}

#[test]
fn launch_survives_the_service() {
    let world = World { mcp: Err("offline".to_string()), ..World::new() };
    let (trace, session, error) = run(ChatArgs::default(), &world);
    assert_eq!(trace, SHORTEST);
    assert!(error.is_none());
    assert!(session.unwrap().mcp_enabled);
    let world = World { failing: Some("telemetry"), ..World::new() };
    let (trace, _, error) = run(ChatArgs::default(), &world);
    assert_eq!(trace, SHORTEST);
    assert!(error.is_none());
}

#[test]
fn failed_step_ends_the_launch() {
    for step in ["profile", "notice", "store", "models", "tool manager", "tools", "session"] {
        let world = World {
            process_args: strings(&["--profile=x"]),
            active_mcp_servers: Some(1),
            failing: Some(step),
            ..World::new()
        };
        let (trace, _, error) = run(ChatArgs::default(), &world);
        assert_eq!(trace.last(), Some(&step));
        let error = error.unwrap();
        assert!(matches!(error, LaunchError::Step(_)));
        assert_eq!(error.message(), format!("{} failed", step));
    }
}

#[test]
fn agents_are_loaded_as_asked() {
    let mut launch = launch(ChatArgs {
        agent: Some("mine".to_string()),
        trust_all_tools: true,
        no_interactive: true,
        input: Some("hi".to_string()),
        ..ChatArgs::default()
    });
    launch.record(LaunchEvent::ProcessArgs(vec![]));
    launch.record(LaunchEvent::McpStatus(Ok(false)));
    match launch.next_action() {
        LaunchAction::LoadAgents { agent, skip_migration, mcp_enabled, trust_all_tools } => {
            assert_eq!(agent, Some("mine".to_string()));
            assert!(skip_migration);
            assert!(!mcp_enabled);
            assert!(trust_all_tools);
        },
        other => panic!("{:?}", other),
    }
}

#[test]
fn tools_are_allowed_only_with_an_active_agent() {
    let args = || ChatArgs { trust_tools: Some(strings(&["fs_read"])), ..ChatArgs::default() };
    let (trace, _, _) = run(args(), &World::new());
    assert!(trace.contains(&"warn"));
    assert!(trace.contains(&"allow"));
    let nobody = World { active_mcp_servers: None, allowed_tools: None, ..World::new() };
    let (trace, session, _) = run(args(), &nobody);
    assert!(trace.contains(&"warn"));
    assert!(!trace.contains(&"allow"));
    assert_eq!(session.unwrap().allowed_tools, None);
}

#[test]
fn only_the_named_tools_are_trusted() {
    for (named, trusted) in [
        (vec!["fs_read", "@server/tool"], vec!["fs_read", "@server/tool"]),
        (vec!["mine", "", "fs_read"], vec!["mine", "fs_read"]),
        // What an empty list on the command line is parsed to.
        (vec![""], vec![]),
        (vec![], vec![]),
    ] {
        let args = ChatArgs { trust_tools: Some(strings(&named)), ..ChatArgs::default() };
        let (trace, session, _) = run(args, &World::new());
        assert!(trace.contains(&"allow"));
        assert_eq!(session.unwrap().allowed_tools, Some(strings(&trusted)));
    }
}

#[test]
fn agents_keep_their_tools_where_none_are_named() {
    let (trace, session, _) = run(ChatArgs::default(), &World::new());
    assert!(!trace.contains(&"allow"));
    assert_eq!(session.unwrap().allowed_tools, Some(strings(&["fs_write"])));
}

#[test]
fn allowed_tools_are_replaced() {
    let mut launch = launch(ChatArgs {
        trust_tools: Some(strings(&["mine", "", "fs_read"])),
        ..ChatArgs::default()
    });
    launch.record(LaunchEvent::ProcessArgs(vec![]));
    launch.record(LaunchEvent::McpStatus(Ok(true)));
    launch.record(LaunchEvent::AgentsLoaded(AgentsLoaded {
        load_count: 1,
        load_failed_count: 0,
        migration_performed: false,
        migrated_count: 0,
        launched_agent: None,
        active_mcp_servers: Some(0),
        allowed_tools: Some(strings(&["fs_write"])),
    }));
    launch.record(LaunchEvent::TelemetrySent(Ok(())));
    match launch.next_action() {
        LaunchAction::ShowToolWarnings(list) => assert_eq!(list.len(), 2),
        other => panic!("{:?}", other),
    }
    launch.record(LaunchEvent::ToolWarningsShown);
    match launch.next_action() {
        LaunchAction::AllowTools(tools) => assert_eq!(tools, strings(&["mine", "fs_read"])),
        other => panic!("{:?}", other),
    }
}

#[test]
fn tools_without_a_server_name_are_warned_about() {
    let native = strings(&["fs_read", "fs_write"]);
    let list = warn_about_tools(&strings(&["fs_read", "mine", "@server/tool", ""]), &native);
    assert_eq!(list.len(), 2);
    for (warning, tool) in list.iter().zip(["mine", ""]) {
        assert_eq!(
            pieces(warning),
            [
                (TextColor::Yellow, "WARNING: "),
                (TextColor::Reset, "--trust-tools arg for custom tool "),
                (TextColor::Cyan, tool),
                (TextColor::Reset, " needs to be prepended with "),
                (TextColor::Green, "@{MCPSERVERNAME}/"),
                (TextColor::Reset, "\n"),
            ]
        );
    }
    assert!(warn_about_tools(&strings(&["fs_write", "@a/b"]), &native).is_empty());
}

#[test]
fn profile_argument_is_deprecated() {
    assert!(uses_deprecated_profile(&strings(&["q", "--profile"])));
    assert!(uses_deprecated_profile(&strings(&["q", "--profile=work"])));
    assert!(!uses_deprecated_profile(&strings(&["q", "--profiles", "--agent", "profile"])));
    assert!(!uses_deprecated_profile(&strings(&[])));
    assert_eq!(
        pieces(&profile_warning()),
        [
            (TextColor::Yellow, "WARNING: "),
            (TextColor::Reset, "--profile is deprecated, use "),
            (TextColor::Green, "--agent"),
            (TextColor::Reset, " instead\n"),
        ]
    );
}

#[test]
fn models_are_listed_by_name_or_id() {
    assert_eq!(available_models(&models()), "first, id-2, third");
    assert_eq!(available_models(&vec![]), "");
}

#[test]
fn conversations_have_fresh_random_ids() {
    let first = ChatArgs::default().execute(vec![]);
    let second = ChatArgs::default().execute(vec![]);
    assert_ne!(first.conversation_id, second.conversation_id);
    for launch in [first, second] {
        let id: Vec<char> = launch.conversation_id.chars().collect();
        assert_eq!(id.len(), 36);
        for i in 0..36 {
            match i {
                8 | 13 | 18 | 23 => assert_eq!(id[i], '-'),
                14 => assert_eq!(id[i], '4'),
                19 => assert!(matches!(id[i], '8' | '9' | 'a' | 'b')),
                _ => assert!(matches!(id[i], '0'..='9' | 'a'..='f')),
            }
        }
        assert!(matches!(launch.next_action(), LaunchAction::ReadProcessArgs));
    }
}
