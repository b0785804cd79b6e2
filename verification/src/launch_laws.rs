//! What holds of every launch.

#[allow(unused_imports)]
use crate::launch::{
    answers, count, went_well, Knowledge, Launch, LaunchAction, LaunchError, LaunchEvent, SessionSettings,
};
#[allow(unused_imports)]
use crate::text::{texts, trimmed};
#[allow(unused_imports)]
use crate::trust::{law_only_empty_names_are_left_out, non_empty};
#[allow(unused_imports)]
use vstd::prelude::*;

verus! {

/// The launch after a row of answers.
pub open spec fn after_events(launch: Launch, events: Seq<LaunchEvent>) -> Launch
    decreases events.len(),
{
    if events.len() == 0 {
        launch
    } else {
        after_events(launch, events.drop_last()).with(events.last())
    }
}

/// Each of the events answers the action that the launch prescribes at that point.
pub open spec fn is_run(launch: Launch, events: Seq<LaunchEvent>) -> bool
    decreases events.len(),
{
    events.len() > 0 ==> {
        &&& is_run(launch, events.drop_last())
        &&& exists|action: LaunchAction| #[trigger]
            after_events(launch, events.drop_last()).prescribes(action) && answers(
                events.last(),
                action,
            )
    }
}

/// The failure that ends the launch if the event reports it: that of any step but the
/// reading of standard input, the question whether MCP is enabled, and the report of
/// the loading of the agents.
pub open spec fn fatal_message(event: LaunchEvent) -> Option<String> {
    match event {
        LaunchEvent::ProfileWarningShown(Err(message)) => Some(message),
        LaunchEvent::SafetyNoticeShown(Err(message)) => Some(message),
        LaunchEvent::McpLoadedStored(Err(message)) => Some(message),
        LaunchEvent::ModelsFetched(Err(message)) => Some(message),
        LaunchEvent::ToolManagerBuilt(Err(message)) => Some(message),
        LaunchEvent::ToolsLoaded(Err(message)) => Some(message),
        LaunchEvent::SessionEnded(Err(message)) => Some(message),
        _ => None,
    }
}

/// Every answer brings the launch nearer to its end: no question is asked again that
/// was answered.
pub proof fn law_answers_make_progress(launch: Launch, action: LaunchAction, event: LaunchEvent)
    requires
        launch.prescribes(action),
        answers(event, action),
    ensures
        launch.known.lacks(event),
        launch.with(event).known.missing() < launch.known.missing(),
{
    lemma_prescribed_answers_are_new(launch, action, event);
    lemma_new_answers_count(launch.known, event);
}

/// What a launch asks for, it does not know.
proof fn lemma_prescribed_answers_are_new(launch: Launch, action: LaunchAction, event: LaunchEvent)
    requires
        launch.prescribes(action),
        answers(event, action),
    ensures
        launch.known.lacks(event),
{
}

/// A new answer leaves one answer fewer to be had.
proof fn lemma_new_answers_count(known: Knowledge, event: LaunchEvent)
    requires
        known.lacks(event),
    ensures
        known.with(event).missing() + 1 == known.missing(),
{
    lemma_count();
    match event {
        LaunchEvent::StdinIsTerminal(_) => {},
        LaunchEvent::StdinRead(_) => {},
        LaunchEvent::StdinErrorShown => {},
        LaunchEvent::ProcessArgs(_) => {},
        LaunchEvent::ProfileWarningShown(_) => {},
        LaunchEvent::McpStatus(_) => {},
        LaunchEvent::AgentsLoaded(_) => {},
        LaunchEvent::TelemetrySent(_) => {},
        LaunchEvent::McpLoadedBefore(_) => {},
        LaunchEvent::SafetyNoticeShown(_) => {},
        LaunchEvent::McpLoadedStored(_) => {},
        LaunchEvent::ToolWarningsShown => {},
        LaunchEvent::ToolsAllowed => {},
        LaunchEvent::ModelsFetched(_) => {},
        LaunchEvent::DefaultModel(_) => {},
        LaunchEvent::ModelLookedUp(_) => {},
        LaunchEvent::ToolManagerBuilt(_) => {},
        LaunchEvent::ToolsLoaded(_) => {},
        LaunchEvent::SessionEnded(_) => {},
    }
}

/// What `count` gives.
proof fn lemma_count()
    ensures
        count(true) == 1,
        count(false) == 0,
        forall|condition: bool| #[trigger] count(condition) <= 1,
{
    reveal(count);
}

/// A launch that knows everything is at its end.
pub proof fn law_launch_ends(launch: Launch, action: LaunchAction)
    requires
        launch.prescribes(action),
        launch.known.missing() == 0,
    ensures
        action is Succeed || action is Fail,
{
    lemma_count();
}

/// The stages of a launch come in their order, and none comes again.
pub proof fn law_stages_come_in_order(launch: Launch, action: LaunchAction, event: LaunchEvent)
    requires
        launch.prescribes(action),
        answers(event, action),
    ensures
        launch.stage() <= launch.with(event).stage(),
{
}

/// A launch asks at most once for each thing that it can know, and never changes what
/// the user asked for or the id of the conversation.
pub proof fn law_runs_are_finite(launch: Launch, events: Seq<LaunchEvent>)
    requires
        is_run(launch, events),
    ensures
        events.len() + after_events(launch, events).known.missing() <= launch.known.missing(),
        launch.known.missing() <= 19,
        after_events(launch, events).args == launch.args,
        after_events(launch, events).conversation_id == launch.conversation_id,
        after_events(launch, events).native_tools == launch.native_tools,
    decreases events.len(),
{
    lemma_count();
    if events.len() > 0 {
        law_runs_are_finite(launch, events.drop_last());
        let before = after_events(launch, events.drop_last());
        let action = choose|action: LaunchAction| #[trigger]
            before.prescribes(action) && answers(events.last(), action);
        law_answers_make_progress(before, action, events.last());
    }
}

/// A step that fails ends the launch with its message, and no other step is taken.
pub proof fn law_failed_step_ends_the_launch(
    launch: Launch,
    action: LaunchAction,
    event: LaunchEvent,
    next: LaunchAction,
)
    requires
        launch.prescribes(action),
        answers(event, action),
        fatal_message(event) is Some,
        launch.with(event).prescribes(next),
    ensures
        next == LaunchAction::Fail(LaunchError::Step(fatal_message(event)->0)),
{
}

/// Where the service does not say whether MCP is enabled, it is taken to be, and the
/// agents are loaded next; where the loading of the agents cannot be reported, the
/// launch goes on to a later stage. In a run that began with nothing known neither of
/// the two failures is followed by the failure of the launch.
pub proof fn law_launch_survives_the_service(
    launch: Launch,
    events: Seq<LaunchEvent>,
    next: LaunchAction,
)
    requires
        launch.known == Knowledge::empty(),
        is_run(launch, events),
        events.len() > 0,
        after_events(launch, events).prescribes(next),
    ensures
        events.last() matches LaunchEvent::McpStatus(Err(_)) ==> after_events(
            launch,
            events,
        ).mcp_enabled() && next is LoadAgents,
        events.last() is TelemetrySent ==> after_events(launch, events).stage() > after_events(
            launch,
            events.drop_last(),
        ).stage() && !(next is Fail),
{
    let before = after_events(launch, events.drop_last());
    let action = choose|action: LaunchAction| #[trigger]
        before.prescribes(action) && answers(events.last(), action);
    if events.last() is McpStatus || events.last() is TelemetrySent {
        lemma_later_answers_are_unknown(launch, events.drop_last());
    }
}

/// What is asked for after the agents are loaded is not known yet.
spec fn later_answers_are_unknown(known: Knowledge) -> bool {
    &&& known.mcp_loaded_before is None
    &&& known.safety_notice is None
    &&& known.mcp_loaded_stored is None
    &&& !known.tool_warnings_shown
    &&& !known.tools_allowed
    &&& known.catalog is None
    &&& known.default_model is None
    &&& known.found_model is None
    &&& known.tool_manager is None
    &&& known.tools is None
    &&& known.session is None
}

/// In a run that began with nothing known, nothing is known out of turn as long as the
/// agents are not dealt with.
proof fn lemma_later_answers_are_unknown(launch: Launch, events: Seq<LaunchEvent>)
    requires
        launch.known == Knowledge::empty(),
        is_run(launch, events),
        after_events(launch, events).stage() <= 2,
    ensures
        later_answers_are_unknown(after_events(launch, events).known),
        after_events(launch, events).known.mcp_status is None ==> after_events(
            launch,
            events,
        ).known.agents is None,
    decreases events.len(),
{
    if events.len() > 0 {
        let before = after_events(launch, events.drop_last());
        let action = choose|action: LaunchAction| #[trigger]
            before.prescribes(action) && answers(events.last(), action);
        law_stages_come_in_order(before, action, events.last());
        lemma_later_answers_are_unknown(launch, events.drop_last());
    }
}

/// A session that nobody watches never starts without input.
pub proof fn law_unattended_sessions_have_input(launch: Launch, settings: SessionSettings)
    requires
        launch.prescribes(LaunchAction::StartSession(settings)),
        launch.args.no_interactive,
    ensures
        settings.input is Some,
        launch.args.input is Some ==> settings.input == launch.args.input,
        launch.args.input is None ==> {
            &&& launch.known.stdin matches Some(Ok(text))
            &&& settings.input->0@ == trimmed(text@)
            &&& settings.input->0@.len() > 0
        },
{
}

/// A launch that nobody watches fails for want of input exactly where none was given
/// and standard input is a terminal, is blank, or was found not to be readable.
pub proof fn law_missing_input_is_an_error(launch: Launch, action: LaunchAction)
    requires
        launch.prescribes(action),
    ensures
        action == LaunchAction::Fail(LaunchError::InputMissing) <==> launch.needs_stdin() && (
        match launch.known.stdin_is_terminal {
            None => false,
            Some(true) => true,
            Some(false) => match launch.known.stdin {
                None => false,
                Some(Ok(text)) => trimmed(text@).len() == 0,
                Some(Err(_)) => launch.known.stdin_error_shown,
            },
        }),
{
}

/// Standard input is left alone where the user can be asked or gave the input.
pub proof fn law_stdin_is_read_only_when_needed(launch: Launch, action: LaunchAction)
    requires
        launch.prescribes(action),
        action is CheckStdinIsTerminal || action is ReadStdin || action is ShowStdinError,
    ensures
        launch.args.no_interactive && launch.args.input is None,
        action is ReadStdin ==> launch.known.stdin_is_terminal == Some(false),
{
}

/// No session starts with a model other than the one that the user asked for: where it
/// is not found, the launch fails, and where it is, the session has it.
pub proof fn law_requested_model_is_used_or_refused(launch: Launch, action: LaunchAction)
    requires
        launch.prescribes(action),
        launch.args.model is Some,
    ensures
        action matches LaunchAction::StartSession(settings) ==> {
            &&& launch.known.found_model matches Some(Some(found))
            &&& settings.model_id == found.model_id
        },
        launch.known.found_model == Some(None::<crate::model::ModelInfo>) ==> !(
        action is BuildToolManager || action is LoadTools || action is StartSession
            || action is Succeed),
        action matches LaunchAction::Fail(LaunchError::UnknownModel { requested, available })
            ==> requested == launch.args.model->0,
{
}

/// Without a request the model in the settings is used where it is found, and the
/// default model in any other case; a model in the settings that does not exist is no
/// error.
pub proof fn law_saved_model_falls_back_to_the_default(launch: Launch, action: LaunchAction)
    requires
        launch.prescribes(action),
        launch.args.model is None,
    ensures
        !(action matches LaunchAction::Fail(LaunchError::UnknownModel { .. })),
        action matches LaunchAction::StartSession(settings) ==> settings.model_id == match (
            launch.known.default_model->0,
            launch.known.found_model,
        ) {
            (Some(_), Some(Some(found))) => found.model_id,
            _ => launch.known.catalog->0->Ok_0.default_model.model_id,
        },
{
}

/// The safety of MCP servers is spoken of only to a user who is there, who has such
/// servers enabled, and who has not been told before, neither in an earlier launch nor
/// in this one.
pub proof fn law_safety_notice_is_shown_once(launch: Launch, action: LaunchAction)
    requires
        launch.prescribes(action),
        action is ShowSafetyNotice,
    ensures
        !launch.args.no_interactive,
        launch.uses_mcp_servers(),
        launch.known.mcp_loaded_before is Some,
        launch.known.mcp_loaded_before != Some(Some(true)),
        launch.known.safety_notice is None,
{
}

/// A session starts only after every earlier step that was due has been taken and has
/// gone well.
pub proof fn law_session_comes_last(launch: Launch, settings: SessionSettings)
    requires
        launch.prescribes(LaunchAction::StartSession(settings)),
    ensures
        launch.input_ready(),
        launch.profile_ready(),
        launch.agents_ready(),
        launch.safety_ready(),
        launch.trust_ready(),
        launch.model_ready(),
        went_well(launch.known.tool_manager),
        went_well(launch.known.tools),
        launch.are_session_settings(settings),
{
}

/// A session is the last thing that a launch starts: when it has ended, the launch
/// succeeds or fails as the session did.
pub proof fn law_session_ends_the_launch(
    launch: Launch,
    settings: SessionSettings,
    outcome: Result<(), String>,
    next: LaunchAction,
)
    requires
        launch.prescribes(LaunchAction::StartSession(settings)),
        launch.with(LaunchEvent::SessionEnded(outcome)).prescribes(next),
    ensures
        next == match outcome {
            Ok(_) => LaunchAction::Succeed,
            Err(message) => LaunchAction::Fail(LaunchError::Step(message)),
        },
{
}

/// A launch succeeds only by a session: in a run that began with nothing known and
/// that ends well, a session was started and ended.
pub proof fn law_success_follows_a_session(launch: Launch, events: Seq<LaunchEvent>)
    requires
        launch.known == Knowledge::empty(),
        is_run(launch, events),
        after_events(launch, events).prescribes(LaunchAction::Succeed),
    ensures
        exists|i: int, settings: SessionSettings|
            0 <= i < events.len() && events[i] is SessionEnded && #[trigger] after_events(
                launch,
                events.take(i),
            ).prescribes(LaunchAction::StartSession(settings)),
{
    lemma_known_session_was_started(launch, events);
}

/// Where the end of a session has become known in a run, the session was started in it.
proof fn lemma_known_session_was_started(launch: Launch, events: Seq<LaunchEvent>)
    requires
        launch.known.session is None,
        is_run(launch, events),
        after_events(launch, events).known.session is Some,
    ensures
        exists|i: int, settings: SessionSettings|
            0 <= i < events.len() && events[i] is SessionEnded && #[trigger] after_events(
                launch,
                events.take(i),
            ).prescribes(LaunchAction::StartSession(settings)),
    decreases events.len(),
{
    let earlier = events.drop_last();
    if after_events(launch, earlier).known.session is Some {
        lemma_known_session_was_started(launch, earlier);
        let (i, settings) = choose|i: int, settings: SessionSettings|
            0 <= i < earlier.len() && earlier[i] is SessionEnded && #[trigger] after_events(
                launch,
                earlier.take(i),
            ).prescribes(LaunchAction::StartSession(settings));
        assert(earlier.take(i) == events.take(i));
        assert(after_events(launch, events.take(i)).prescribes(
            LaunchAction::StartSession(settings),
        ));
    } else {
        let action = choose|action: LaunchAction| #[trigger]
            after_events(launch, earlier).prescribes(action) && answers(events.last(), action);
        assert(action is StartSession);
        let i = events.len() - 1;
        assert(earlier == events.take(i));
        assert(after_events(launch, events.take(i)).prescribes(
            LaunchAction::StartSession(action->StartSession_0),
        ));
    }
}

/// What the active agent is allowed is set only where the user names tools and an agent
/// is active, after the warnings about them, and to the tools that are named and no
/// others.
pub proof fn law_only_named_tools_are_allowed(launch: Launch, tools: Vec<String>)
    requires
        launch.prescribes(LaunchAction::AllowTools(tools)),
    ensures
        launch.args.trust_tools is Some,
        launch.has_active_agent(),
        launch.known.tool_warnings_shown,
        forall|name: Seq<char>| #[trigger]
            texts(tools@).contains(name) <==> name.len() > 0 && texts(
                launch.args.trust_tools->0@,
            ).contains(name),
{
    law_only_empty_names_are_left_out(texts(launch.args.trust_tools->0@));
}

/// Where the user names tools, a session trusts those and no others, whatever the agent
/// was allowed before, and none at all where every name is empty. Where the user names
/// none, the session trusts what the agent came with.
pub proof fn law_session_trusts_only_the_named_tools(launch: Launch, settings: SessionSettings)
    requires
        launch.prescribes(LaunchAction::StartSession(settings)),
        launch.has_active_agent(),
    ensures
        settings.allowed_tools is Some,
        launch.args.trust_tools matches Some(named) ==> {
            &&& launch.known.tools_allowed
            &&& texts(settings.allowed_tools->0@) == non_empty(texts(named@))
            &&& forall|name: Seq<char>| #[trigger]
                texts(settings.allowed_tools->0@).contains(name) <==> name.len() > 0 && texts(
                    named@,
                ).contains(name)
            &&& (forall|i: int| 0 <= i < named@.len() ==> (#[trigger] named@[i])@.len() == 0)
                ==> settings.allowed_tools->0@.len() == 0
        },
        launch.args.trust_tools is None ==> settings.allowed_tools->0@
            == launch.known.agents->0.allowed_tools->0@,
{
    if let Some(named) = launch.args.trust_tools {
        let names = texts(named@);
        law_only_empty_names_are_left_out(names);
        if forall|i: int| 0 <= i < named@.len() ==> (#[trigger] named@[i])@.len() == 0 {
            assert forall|i: int| 0 <= i < names.len() implies (#[trigger] names[i]).len() == 0 by {
                assert(names[i] == named@[i]@);
            }
            assert(texts(settings.allowed_tools->0@).len() == 0);
        }
    }
}

} // verus!
