//! What the operations of a launch give, in terms of what the user asked for and of what
//! the outside world has answered.

#[allow(unused_imports)]
use crate::args::ChatArgs;
#[allow(unused_imports)]
use crate::conversation::is_random_uuid;
#[allow(unused_imports)]
use crate::launch::{
    answers, has_profile_arg, is_profile_arg, uses_deprecated_profile, Knowledge,
    Launch, LaunchAction, LaunchError, LaunchEvent, SessionSettings,
};
#[allow(unused_imports)]
use crate::launch_laws::{
    after_events, is_run, law_missing_input_is_an_error,
};
#[allow(unused_imports)]
use crate::model::{labels, ModelInfo};
#[allow(unused_imports)]
use crate::terminal::{styled_view, TextColor};
#[allow(unused_imports)]
use crate::text::{
    is_white_space, joined, law_trim_of_blank_text_is_empty,
    law_trim_removes_white_space_at_the_ends, texts, trimmed,
};
#[allow(unused_imports)]
use crate::trust::{
    law_only_empty_names_are_left_out, non_empty, tool_warnings, warnings_view,
};
#[allow(unused_imports)]
use vstd::prelude::*;

verus! {

/// A launch begins with exactly what the user asked for, under a fresh id, and knows
/// nothing.
pub proof fn law_launch_begins_with_what_was_asked(
    args: ChatArgs,
    native_tools: Vec<String>,
    launch: Launch,
)
    requires
        call_ensures(ChatArgs::execute, (args, native_tools), launch),
    ensures
        launch.args == args,
        launch.native_tools == native_tools,
        is_random_uuid(launch.conversation_id@),
        launch.known.stdin_is_terminal is None,
        launch.known.stdin is None,
        !launch.known.stdin_error_shown,
        launch.known.process_args is None,
        launch.known.profile_warning is None,
        launch.known.mcp_status is None,
        launch.known.agents is None,
        launch.known.telemetry is None,
        launch.known.mcp_loaded_before is None,
        launch.known.safety_notice is None,
        launch.known.mcp_loaded_stored is None,
        !launch.known.tool_warnings_shown,
        !launch.known.tools_allowed,
        launch.known.catalog is None,
        launch.known.default_model is None,
        launch.known.found_model is None,
        launch.known.tool_manager is None,
        launch.known.tools is None,
        launch.known.session is None,
{
}

/// A launch under a given id has that id, and is otherwise one that the user asked for.
pub proof fn law_launch_keeps_its_id(
    args: ChatArgs,
    conversation_id: String,
    native_tools: Vec<String>,
    launch: Launch,
    fresh: Launch,
)
    requires
        call_ensures(Launch::new, (args, conversation_id, native_tools), launch),
        call_ensures(ChatArgs::execute, (args, native_tools), fresh),
    ensures
        launch.conversation_id == conversation_id,
        launch == (Launch { conversation_id, ..fresh }),
{
}

/// An answer is known as it was given once it is recorded, and nothing else changes.
pub proof fn law_answers_are_known_as_given(launch: &mut Launch, event: LaunchEvent)
    requires
        call_ensures(Launch::record, (launch, event), ()),
    ensures
        final(launch).args == old(launch).args,
        final(launch).conversation_id == old(launch).conversation_id,
        final(launch).native_tools == old(launch).native_tools,
        ({
            let before = old(launch).known;
            let now = final(launch).known;
            match event {
                LaunchEvent::StdinIsTerminal(answer) => now == (Knowledge { stdin_is_terminal: Some(answer), ..before }),
                LaunchEvent::StdinRead(answer) => now == (Knowledge { stdin: Some(answer), ..before }),
                LaunchEvent::StdinErrorShown => now == (Knowledge { stdin_error_shown: true, ..before }),
                LaunchEvent::ProcessArgs(answer) => now == (Knowledge { process_args: Some(answer), ..before }),
                LaunchEvent::ProfileWarningShown(answer) => now == (Knowledge { profile_warning: Some(answer), ..before }),
                LaunchEvent::McpStatus(answer) => now == (Knowledge { mcp_status: Some(answer), ..before }),
                LaunchEvent::AgentsLoaded(answer) => now == (Knowledge { agents: Some(answer), ..before }),
                LaunchEvent::TelemetrySent(answer) => now == (Knowledge { telemetry: Some(answer), ..before }),
                LaunchEvent::McpLoadedBefore(answer) => now == (Knowledge { mcp_loaded_before: Some(answer), ..before }),
                LaunchEvent::SafetyNoticeShown(answer) => now == (Knowledge { safety_notice: Some(answer), ..before }),
                LaunchEvent::McpLoadedStored(answer) => now == (Knowledge { mcp_loaded_stored: Some(answer), ..before }),
                LaunchEvent::ToolWarningsShown => now == (Knowledge { tool_warnings_shown: true, ..before }),
                LaunchEvent::ToolsAllowed => now == (Knowledge { tools_allowed: true, ..before }),
                LaunchEvent::ModelsFetched(answer) => now == (Knowledge { catalog: Some(answer), ..before }),
                LaunchEvent::DefaultModel(answer) => now == (Knowledge { default_model: Some(answer), ..before }),
                LaunchEvent::ModelLookedUp(answer) => now == (Knowledge { found_model: Some(answer), ..before }),
                LaunchEvent::ToolManagerBuilt(answer) => now == (Knowledge { tool_manager: Some(answer), ..before }),
                LaunchEvent::ToolsLoaded(answer) => now == (Knowledge { tools: Some(answer), ..before }),
                LaunchEvent::SessionEnded(answer) => now == (Knowledge { session: Some(answer), ..before }),
            }
        }),
        *final(launch) == old(launch).with(event),
{
}

/// The next action is one that the launch prescribes.
pub proof fn law_next_action_is_prescribed(launch: Launch, action: LaunchAction)
    requires
        call_ensures(Launch::next_action, (&launch,), action),
    ensures
        launch.prescribes(action),
{
}

/// Nothing is asked or done of which the answer is known.
pub proof fn law_only_the_unknown_is_asked_for(launch: Launch, action: LaunchAction)
    requires
        call_ensures(Launch::next_action, (&launch,), action),
    ensures
        action is CheckStdinIsTerminal ==> launch.known.stdin_is_terminal is None,
        action is ReadStdin ==> launch.known.stdin is None,
        action is ShowStdinError ==> !launch.known.stdin_error_shown,
        action is ReadProcessArgs ==> launch.known.process_args is None,
        action is ShowProfileWarning ==> launch.known.profile_warning is None,
        action is QueryMcpStatus ==> launch.known.mcp_status is None,
        action is LoadAgents ==> launch.known.agents is None,
        action is SendTelemetry ==> launch.known.telemetry is None,
        action is ReadMcpLoadedBefore ==> launch.known.mcp_loaded_before is None,
        action is ShowSafetyNotice ==> launch.known.safety_notice is None,
        action is StoreMcpLoadedBefore ==> launch.known.mcp_loaded_stored is None,
        action is ShowToolWarnings ==> !launch.known.tool_warnings_shown,
        action is AllowTools ==> !launch.known.tools_allowed,
        action is FetchModels ==> launch.known.catalog is None,
        action is ReadDefaultModel ==> launch.known.default_model is None,
        action is LookUpModel ==> launch.known.found_model is None,
        action is BuildToolManager ==> launch.known.tool_manager is None,
        action is LoadTools ==> launch.known.tools is None,
        action is StartSession ==> launch.known.session is None,
{
}

/// Standard input stands in for the input exactly where nobody can be asked and none was
/// given: then it is looked at and read, an error in reading it is shown in full, and the
/// launch fails for want of input exactly where a terminal, nothing but white space or an
/// error was found.
pub proof fn law_stdin_stands_in_for_the_input(launch: Launch, action: LaunchAction)
    requires
        call_ensures(Launch::next_action, (&launch,), action),
    ensures
        ({
            let wanted = launch.args.no_interactive && launch.args.input is None;
            let terminal = launch.known.stdin_is_terminal;
            let read = launch.known.stdin;
            let piped = wanted && terminal == Some(false);
            &&& action is CheckStdinIsTerminal <==> wanted && terminal is None
            &&& action is ReadStdin <==> piped && read is None
            &&& action is ShowStdinError <==> piped && read is Some && read->0 is Err
                && !launch.known.stdin_error_shown
            &&& action is ShowStdinError ==> action->ShowStdinError_0@
                == "Error reading from stdin: "@ + read->0->Err_0@
            &&& action == LaunchAction::Fail(LaunchError::InputMissing) <==> {
                ||| wanted && terminal == Some(true)
                ||| piped && read is Some && read->0 is Err && launch.known.stdin_error_shown
                ||| piped && read is Some && read->0 is Ok && forall|i: int|
                    0 <= i < read->0->Ok_0@.len() ==> is_white_space(#[trigger] read->0->Ok_0@[i])
            }
        }),
{
    law_missing_input_is_an_error(launch, action);
    let read = launch.known.stdin;
    if read is Some && read->0 is Ok {
        law_trim_of_blank_text_is_empty(read->0->Ok_0@);
        assert(trimmed(read->0->Ok_0@).len() == 0 <==> forall|i: int|
            0 <= i < read->0->Ok_0@.len() ==> is_white_space(#[trigger] read->0->Ok_0@[i]));
    }
    assert(launch.known.stdin_is_terminal is None || launch.known.stdin_is_terminal == Some(true)
        || launch.known.stdin_is_terminal == Some(false));
    assert(read is None || read->0 is Ok || read->0 is Err);
}

/// The arguments hold the deprecated one exactly where one of them is it, or is it with a
/// value after an equals sign.
pub proof fn law_deprecated_argument_is_found_anywhere(args: Vec<String>, found: bool)
    requires
        call_ensures(uses_deprecated_profile, (&args,), found),
    ensures
        found <==> exists|i: int|
            0 <= i < args@.len() && ((#[trigger] args@[i])@ == "--profile"@
                || "--profile="@.is_prefix_of(args@[i]@)),
{
    lemma_profile_args(args@);
}

/// Where the deprecated argument stands.
proof fn lemma_profile_args(args: Seq<String>)
    ensures
        has_profile_arg(args) <==> exists|i: int|
            0 <= i < args.len() && ((#[trigger] args[i])@ == "--profile"@
                || "--profile="@.is_prefix_of(args[i]@)),
{
    if has_profile_arg(args) {
        let i = choose|i: int| 0 <= i < args.len() && is_profile_arg(#[trigger] args[i]@);
        assert(args[i]@ == "--profile"@ || "--profile="@.is_prefix_of(args[i]@));
    }
    assert forall|i: int|
        0 <= i < args.len() && ((#[trigger] args[i])@ == "--profile"@
            || "--profile="@.is_prefix_of(args[i]@)) implies has_profile_arg(args) by {
        assert(is_profile_arg(args[i]@));
    }
}

/// The deprecated argument is warned about only where it was given, in these words.
pub proof fn law_deprecated_argument_is_warned_about(launch: Launch, action: LaunchAction)
    requires
        call_ensures(Launch::next_action, (&launch,), action),
        action is ShowProfileWarning,
    ensures
        launch.known.process_args is Some,
        exists|i: int|
            0 <= i < launch.known.process_args->0@.len() && ((
            #[trigger] launch.known.process_args->0@[i])@ == "--profile"@
                || "--profile="@.is_prefix_of(launch.known.process_args->0@[i]@)),
        ({
            let pieces = action->ShowProfileWarning_0@;
            &&& pieces.len() == 4
            &&& pieces[0].color == TextColor::Yellow && pieces[0].text@ == "WARNING: "@
            &&& pieces[1].color == TextColor::Reset && pieces[1].text@
                == "--profile is deprecated, use "@
            &&& pieces[2].color == TextColor::Green && pieces[2].text@ == "--agent"@
            &&& pieces[3].color == TextColor::Reset && pieces[3].text@ == " instead\n"@
        }),
{
    lemma_profile_args(launch.known.process_args->0@);
    let pieces = action->ShowProfileWarning_0@;
    assert(styled_view(pieces).len() == pieces.len());
    assert forall|i: int| 0 <= i < pieces.len() implies styled_view(pieces)[i] == (
        #[trigger] pieces[i].color,
        pieces[i].text@,
    ) by {}
}

/// The agents are loaded as the user asked: the agent is the one that was named; old
/// profiles are left alone exactly where nobody watches; all tools are trusted exactly
/// where that was asked for; and MCP is on unless the service said that it is off.
pub proof fn law_agents_are_loaded_as_asked(launch: Launch, action: LaunchAction)
    requires
        call_ensures(Launch::next_action, (&launch,), action),
        action is LoadAgents,
    ensures
        action->agent == launch.args.agent,
        action->skip_migration == launch.args.no_interactive,
        action->trust_all_tools == launch.args.trust_all_tools,
        launch.known.mcp_status is Some,
        launch.known.mcp_status->0 is Ok ==> action->LoadAgents_mcp_enabled
            == launch.known.mcp_status->0->Ok_0,
        launch.known.mcp_status->0 is Err ==> action->LoadAgents_mcp_enabled,
{
}

/// What is reported of the loading of the agents is what came of it, under the id of the
/// conversation.
pub proof fn law_loading_is_reported_as_it_went(launch: Launch, action: LaunchAction)
    requires
        call_ensures(Launch::next_action, (&launch,), action),
        action is SendTelemetry,
    ensures
        launch.known.agents is Some,
        ({
            let loaded = launch.known.agents->0;
            let report = action->SendTelemetry_0;
            &&& report.conversation_id == launch.conversation_id
            &&& report.agents_loaded_count == loaded.load_count as i64
            &&& report.agents_loaded_failed_count == loaded.load_failed_count as i64
            &&& report.legacy_profile_migrated_count == loaded.migrated_count as i64
            &&& report.legacy_profile_migration_executed == loaded.migration_performed
            &&& report.launched_agent == loaded.launched_agent
        }),
{
}

/// The safety of MCP servers is an issue only where MCP is not off and the active agent has
/// such servers. It is asked whether they were loaded before, and spoken of, only with a
/// user who is there, and only if they were not.
pub proof fn law_safety_is_spoken_of_where_it_matters(launch: Launch, action: LaunchAction)
    requires
        call_ensures(Launch::next_action, (&launch,), action),
        action is ReadMcpLoadedBefore || action is ShowSafetyNotice || action is StoreMcpLoadedBefore,
    ensures
        launch.known.mcp_status is Some && launch.known.mcp_status->0 is Ok
            ==> launch.known.mcp_status->0->Ok_0,
        launch.known.agents is Some,
        launch.known.agents->0.active_mcp_servers is Some,
        launch.known.agents->0.active_mcp_servers->0 > 0,
        action is ReadMcpLoadedBefore || action is ShowSafetyNotice ==> !launch.args.no_interactive,
        action is ShowSafetyNotice ==> launch.known.mcp_loaded_before is Some
            && launch.known.mcp_loaded_before->0 != Some(true),
        action is ShowSafetyNotice ==> action->ShowSafetyNotice_0@
            == "To learn more about MCP safety, see https://docs.aws.amazon.com/amazonq/latest/qdeveloper-ug/command-line-mcp-security.html\n\n"@,
        action is StoreMcpLoadedBefore && !launch.args.no_interactive
            ==> launch.known.mcp_loaded_before is Some && (launch.known.mcp_loaded_before->0 == Some(
            true,
        ) || (launch.known.safety_notice is Some && launch.known.safety_notice->0 is Ok)),
{
}

/// Tools are warned about and allowed only where the user names some; the warnings are
/// those about the names that were given, and the tools those that have a name.
pub proof fn law_named_tools_are_dealt_with(launch: Launch, action: LaunchAction)
    requires
        call_ensures(Launch::next_action, (&launch,), action),
        action is ShowToolWarnings || action is AllowTools,
    ensures
        launch.args.trust_tools is Some,
        action is ShowToolWarnings ==> warnings_view(action->ShowToolWarnings_0@) == tool_warnings(
            texts(launch.args.trust_tools->0@),
            texts(launch.native_tools@),
        ),
        action is AllowTools ==> launch.known.agents is Some
            && launch.known.agents->0.allowed_tools is Some && launch.known.tool_warnings_shown,
        action is AllowTools ==> texts(action->AllowTools_0@) == non_empty(
            texts(launch.args.trust_tools->0@),
        ),
        action is AllowTools ==> forall|name: Seq<char>| #[trigger]
            texts(action->AllowTools_0@).contains(name) <==> name.len() > 0 && texts(
                launch.args.trust_tools->0@,
            ).contains(name),
{
    law_only_empty_names_are_left_out(texts(launch.args.trust_tools->0@));
}

/// The model that is looked up is the one that the user asked for, else the one in the
/// settings, which are read only then. The models are known by that time. A model is
/// refused only where it was asked for and not found, and the models that there are are
/// named.
pub proof fn law_wanted_model_is_the_one_looked_up(launch: Launch, action: LaunchAction)
    requires
        call_ensures(Launch::next_action, (&launch,), action),
    ensures
        action is ReadDefaultModel ==> launch.args.model is None,
        action is LookUpModel && launch.args.model is Some ==> action->LookUpModel_0
            == launch.args.model->0,
        action is LookUpModel && launch.args.model is None ==> launch.known.default_model is Some
            && launch.known.default_model->0 is Some && action->LookUpModel_0
            == launch.known.default_model->0->0,
        action is ReadDefaultModel || action is LookUpModel ==> launch.known.catalog is Some
            && launch.known.catalog->0 is Ok,
        action is Fail && action->Fail_0 is UnknownModel ==> {
            &&& launch.args.model == Some(action->Fail_0->requested)
            &&& launch.known.found_model is Some
            &&& launch.known.found_model->0 is None
            &&& launch.known.catalog is Some
            &&& launch.known.catalog->0 is Ok
            &&& action->Fail_0->available@ == joined(
                labels(launch.known.catalog->0->Ok_0.models@),
                ", "@,
            )
            &&& labels(launch.known.catalog->0->Ok_0.models@).len()
                == launch.known.catalog->0->Ok_0.models@.len()
            &&& forall|i: int|
                0 <= i < launch.known.catalog->0->Ok_0.models@.len() ==> #[trigger] labels(
                    launch.known.catalog->0->Ok_0.models@,
                )[i] == (if launch.known.catalog->0->Ok_0.models@[i].model_name is Some {
                    launch.known.catalog->0->Ok_0.models@[i].model_name->0@
                } else {
                    launch.known.catalog->0->Ok_0.models@[i].model_id@
                })
        },
{
}

/// A session is the one that the user asked for: it resumes exactly where that was asked
/// for, is interactive exactly where somebody watches, has the id of the conversation, and
/// has MCP on unless the service said that it is off.
pub proof fn law_session_is_as_asked(launch: Launch, action: LaunchAction)
    requires
        call_ensures(Launch::next_action, (&launch,), action),
        action is StartSession,
    ensures
        ({
            let settings = action->StartSession_0;
            &&& settings.resume == launch.args.resume
            &&& settings.conversation_id == launch.conversation_id
            &&& settings.interactive == !launch.args.no_interactive
            &&& launch.known.mcp_status is Some
            &&& launch.known.mcp_status->0 is Ok ==> settings.mcp_enabled
                == launch.known.mcp_status->0->Ok_0
            &&& launch.known.mcp_status->0 is Err ==> settings.mcp_enabled
        }),
{
}

/// The tools of a session are managed under the id of its conversation, and it is known
/// whether somebody watches.
pub proof fn law_tools_are_managed_for_the_session(launch: Launch, action: LaunchAction)
    requires
        call_ensures(Launch::next_action, (&launch,), action),
        action is BuildToolManager,
    ensures
        action->BuildToolManager_conversation_id == launch.conversation_id,
        action->BuildToolManager_interactive == !launch.args.no_interactive,
{
}

/// The input of a session is the one that was given, letter for letter. Where none was
/// given and nobody can be asked, it is one stretch of what standard input held, from the
/// first to the last character that is not white space.
pub proof fn law_session_input_is_what_was_given(launch: Launch, action: LaunchAction)
    requires
        call_ensures(Launch::next_action, (&launch,), action),
        action is StartSession,
    ensures
        launch.args.input is Some || !launch.args.no_interactive ==> action->StartSession_0.input
            == launch.args.input,
        launch.args.input is None && launch.args.no_interactive ==> {
            &&& launch.known.stdin_is_terminal == Some(false)
            &&& launch.known.stdin is Some
            &&& launch.known.stdin->0 is Ok
            &&& action->StartSession_0.input is Some
            &&& exists|start: int, end: int|
                #![trigger launch.known.stdin->0->Ok_0@.subrange(start, end)]
                0 <= start < end <= launch.known.stdin->0->Ok_0@.len()
                    && action->StartSession_0.input->0@ == launch.known.stdin->0->Ok_0@.subrange(
                    start,
                    end,
                ) && !is_white_space(launch.known.stdin->0->Ok_0@[start]) && !is_white_space(
                    launch.known.stdin->0->Ok_0@[end - 1],
                ) && (forall|i: int|
                    0 <= i < start || end <= i < launch.known.stdin->0->Ok_0@.len()
                        ==> is_white_space(#[trigger] launch.known.stdin->0->Ok_0@[i]))
        },
{
    if launch.args.input is None && launch.args.no_interactive {
        let text = launch.known.stdin->0->Ok_0@;
        law_trim_removes_white_space_at_the_ends(text);
        let (start, end) = choose|start: int, end: int|
            #![trigger text.subrange(start, end)]
            0 <= start <= end <= text.len() && trimmed(text) == text.subrange(start, end) && (
            forall|i: int|
                0 <= i < start || end <= i < text.len() ==> is_white_space(#[trigger] text[i]));
        assert(trimmed(text).len() > 0);
        assert(trimmed(text).first() == text[start]);
        assert(trimmed(text).last() == text[end - 1]);
        assert(action->StartSession_0.input->0@ == text.subrange(start, end));
    }
}

/// The model of a session is the one that was asked for, as it was found; else the one in
/// the settings, if there is one and it was found; else the default of the service.
pub proof fn law_session_model_is_the_wanted_one(launch: Launch, action: LaunchAction)
    requires
        call_ensures(Launch::next_action, (&launch,), action),
        action is StartSession,
    ensures
        launch.known.catalog is Some,
        launch.known.catalog->0 is Ok,
        ({
            let id = action->StartSession_0.model_id;
            let standard = launch.known.catalog->0->Ok_0.default_model.model_id;
            let saved = launch.known.default_model;
            let found = launch.known.found_model;
            &&& launch.args.model is Some ==> found is Some && found->0 is Some && id
                == found->0->0.model_id
            &&& launch.args.model is None ==> saved is Some
            &&& launch.args.model is None && saved->0 is None ==> id == standard
            &&& launch.args.model is None && saved->0 is Some ==> found is Some
            &&& launch.args.model is None && saved->0 is Some && found->0 is Some ==> id
                == found->0->0.model_id
            &&& launch.args.model is None && saved->0 is Some && found->0 is None ==> id == standard
        }),
{
}

/// The tools that the active agent may use in a session are the named ones that have a
/// name, where the user names tools, and else those that the agent came with.
pub proof fn law_session_tools_are_the_named_ones(launch: Launch, action: LaunchAction)
    requires
        call_ensures(Launch::next_action, (&launch,), action),
        action is StartSession,
    ensures
        launch.known.agents is Some,
        action->StartSession_0.allowed_tools is Some
            <==> launch.known.agents->0.allowed_tools is Some,
        ({
            let allowed = action->StartSession_0.allowed_tools;
            &&& allowed is Some && launch.args.trust_tools is None ==> allowed->0@
                == launch.known.agents->0.allowed_tools->0@
            &&& allowed is Some && launch.args.trust_tools is Some ==> texts(allowed->0@)
                == non_empty(texts(launch.args.trust_tools->0@))
            &&& allowed is Some && launch.args.trust_tools is Some ==> forall|name: Seq<char>|
                #[trigger]
                texts(allowed->0@).contains(name) <==> name.len() > 0 && texts(
                    launch.args.trust_tools->0@,
                ).contains(name)
        }),
{
    if launch.args.trust_tools is Some {
        law_only_empty_names_are_left_out(texts(launch.args.trust_tools->0@));
    }
}

/// Nothing is done out of turn: the arguments of the process are looked at when the input
/// is settled; the agents are loaded when a deprecated argument has been warned about; MCP
/// servers are an issue when the agents are loaded and that is reported; the named tools,
/// when the user was told about the safety of such servers and that is stored; the model,
/// when the named tools are dealt with; and the session, when the model is settled and the
/// tools are loaded.
pub proof fn law_nothing_is_done_out_of_turn(launch: Launch, action: LaunchAction)
    requires
        call_ensures(Launch::next_action, (&launch,), action),
    ensures
        ({
            let turn: int = match action {
                LaunchAction::CheckStdinIsTerminal => 0,
                LaunchAction::ReadStdin => 0,
                LaunchAction::ShowStdinError(_) => 0,
                LaunchAction::Fail(_) => 0,
                LaunchAction::ReadProcessArgs => 1,
                LaunchAction::ShowProfileWarning(_) => 1,
                LaunchAction::QueryMcpStatus => 2,
                LaunchAction::LoadAgents { .. } => 2,
                LaunchAction::SendTelemetry(_) => 2,
                LaunchAction::ReadMcpLoadedBefore => 3,
                LaunchAction::ShowSafetyNotice(_) => 3,
                LaunchAction::StoreMcpLoadedBefore => 3,
                LaunchAction::ShowToolWarnings(_) => 4,
                LaunchAction::AllowTools(_) => 4,
                LaunchAction::FetchModels => 5,
                LaunchAction::ReadDefaultModel => 5,
                LaunchAction::LookUpModel(_) => 5,
                LaunchAction::BuildToolManager { .. } => 6,
                LaunchAction::LoadTools => 6,
                LaunchAction::StartSession(_) => 6,
                LaunchAction::Succeed => 6,
            };
            let known = launch.known;
            let mcp_off = known.mcp_status is Some && known.mcp_status->0 is Ok
                && !known.mcp_status->0->Ok_0;
            let has_servers = known.agents is Some && known.agents->0.active_mcp_servers is Some
                && known.agents->0.active_mcp_servers->0 > 0;
            &&& turn >= 1 && launch.args.no_interactive && launch.args.input is None
                ==> known.stdin_is_terminal == Some(false) && known.stdin is Some && known.stdin->0 is Ok
                && exists|i: int|
                0 <= i < known.stdin->0->Ok_0@.len() && !is_white_space(
                    #[trigger] known.stdin->0->Ok_0@[i],
                )
            &&& turn >= 2 ==> known.process_args is Some
            &&& turn >= 2 && (exists|i: int|
                0 <= i < known.process_args->0@.len() && ((#[trigger] known.process_args->0@[i])@
                    == "--profile"@ || "--profile="@.is_prefix_of(known.process_args->0@[i]@)))
                ==> known.profile_warning is Some && known.profile_warning->0 is Ok
            &&& turn >= 3 ==> known.mcp_status is Some && known.agents is Some
                && known.telemetry is Some
            &&& turn >= 4 && !mcp_off && has_servers ==> known.mcp_loaded_stored is Some
                && known.mcp_loaded_stored->0 is Ok
            &&& turn >= 4 && !mcp_off && has_servers && !launch.args.no_interactive
                ==> known.mcp_loaded_before is Some
            &&& turn >= 4 && !mcp_off && has_servers && !launch.args.no_interactive
                && known.mcp_loaded_before->0 != Some(true) ==> known.safety_notice is Some
                && known.safety_notice->0 is Ok
            &&& turn >= 5 && launch.args.trust_tools is Some ==> known.tool_warnings_shown
            &&& turn >= 5 && launch.args.trust_tools is Some
                && known.agents->0.allowed_tools is Some ==> known.tools_allowed
            &&& turn >= 6 ==> known.catalog is Some && known.catalog->0 is Ok
            &&& turn >= 6 && launch.args.model is Some ==> known.found_model is Some
                && known.found_model->0 is Some
            &&& turn >= 6 && launch.args.model is None ==> known.default_model is Some
            &&& turn >= 6 && launch.args.model is None && known.default_model->0 is Some
                ==> known.found_model is Some
            &&& action is LoadTools || action is StartSession || action is Succeed
                ==> known.tool_manager is Some && known.tool_manager->0 is Ok
            &&& action is StartSession || action is Succeed ==> known.tools is Some
                && known.tools->0 is Ok
            &&& action is Succeed ==> known.session is Some && known.session->0 is Ok
        }),
{
    if launch.known.process_args is Some {
        lemma_profile_args(launch.known.process_args->0@);
    }
    if launch.known.stdin is Some && launch.known.stdin->0 is Ok {
        law_trim_of_blank_text_is_empty(launch.known.stdin->0->Ok_0@);
    }
}

/// A launch fails only for a cause: it has no input, the model that was asked for does not
/// exist, or a step that was due failed with the message that is given.
pub proof fn law_failures_have_a_cause(launch: Launch, action: LaunchAction)
    requires
        call_ensures(Launch::next_action, (&launch,), action),
        action is Fail,
    ensures
        action->Fail_0 is InputMissing ==> launch.args.no_interactive && launch.args.input is None,
        action->Fail_0 is UnknownModel ==> launch.args.model is Some
            && launch.known.found_model is Some && launch.known.found_model->0 is None,
        action->Fail_0 is Step ==> {
            let message = action->Fail_0->Step_0;
            let failed = Some(Err::<(), String>(message));
            ||| launch.known.profile_warning == failed
            ||| launch.known.safety_notice == failed && !launch.args.no_interactive
            ||| launch.known.mcp_loaded_stored == failed
            ||| launch.known.catalog is Some && launch.known.catalog->0 is Err
                && launch.known.catalog->0->Err_0 == message
            ||| launch.known.tool_manager == failed
            ||| launch.known.tools == failed
            ||| launch.known.session == failed
        },
{
}

/// The message of a failed launch is that of its cause.
pub proof fn law_launch_errors_say_what_went_wrong(error: LaunchError, message: String)
    requires
        call_ensures(LaunchError::message, (&error,), message),
    ensures
        error is InputMissing ==> message@
            == "Input must be supplied when running in non-interactive mode"@,
        error is UnknownModel ==> message@ == "Model '"@ + error->requested@
            + "' does not exist. Available models: "@ + error->available@,
        error is Step ==> message@ == error->Step_0@,
{
}

/// The model of a session was looked up in the run that led to it. Where the user asked for
/// a model, that one was looked up and found, and the session has it. Where the user did
/// not, the settings were read; if they name a model, that one was looked up, and the
/// session has it if it was found; in any other case it has the default of the service.
pub proof fn law_session_model_was_looked_up(
    launch: Launch,
    events: Seq<LaunchEvent>,
    settings: SessionSettings,
)
    requires
        launch.known == Knowledge::empty(),
        is_run(launch, events),
        after_events(launch, events).prescribes(LaunchAction::StartSession(settings)),
    ensures
        launch.args.model is Some ==> exists|i: int|
            0 <= i < events.len() && #[trigger] after_events(launch, events.take(i)).prescribes(
                LaunchAction::LookUpModel(launch.args.model->0),
            ) && events[i] is ModelLookedUp && events[i]->ModelLookedUp_0 is Some
                && settings.model_id == events[i]->ModelLookedUp_0->0.model_id,
        launch.args.model is None ==> exists|j: int|
            0 <= j < events.len() && (#[trigger] events[j]) is DefaultModel,
        forall|j: int|
            launch.args.model is None && 0 <= j < events.len() && (
            #[trigger] events[j]) is DefaultModel && events[j]->DefaultModel_0 is Some
                ==> exists|i: int|
                0 <= i < events.len() && #[trigger] after_events(
                    launch,
                    events.take(i),
                ).prescribes(LaunchAction::LookUpModel(events[j]->DefaultModel_0->0))
                    && events[i] is ModelLookedUp && settings.model_id == (
                if events[i]->ModelLookedUp_0 is Some {
                    events[i]->ModelLookedUp_0->0.model_id
                } else {
                    after_events(launch, events).known.catalog->0->Ok_0.default_model.model_id
                }),
        forall|j: int|
            launch.args.model is None && 0 <= j < events.len() && (
            #[trigger] events[j]) is DefaultModel && events[j]->DefaultModel_0 is None
                ==> settings.model_id == after_events(
                launch,
                events,
            ).known.catalog->0->Ok_0.default_model.model_id,
{
    reveal(looked_up_at);
    let end = after_events(launch, events);
    lemma_models_in_runs(launch, events);
    if launch.args.model is Some {
        let i = choose|i: int|
            looked_up_at(launch, events, i, launch.args.model->0, end.known.found_model->0);
        assert(after_events(launch, events.take(i)).prescribes(
            LaunchAction::LookUpModel(launch.args.model->0),
        ));
    } else {
        let j = choose|j: int|
            0 <= j < events.len() && #[trigger] events[j] == LaunchEvent::DefaultModel(
                end.known.default_model->0,
            );
        assert(events[j] is DefaultModel);
        if end.known.default_model->0 is Some {
            let name = end.known.default_model->0->0;
            let i = choose|i: int|
                looked_up_at(launch, events, i, name, end.known.found_model->0);
            assert(after_events(launch, events.take(i)).prescribes(
                LaunchAction::LookUpModel(name),
            ));
        }
    }
}

/// At the given place of a run, a model was looked up by name, with the given answer.
#[verifier::opaque]
spec fn looked_up_at(
    launch: Launch,
    events: Seq<LaunchEvent>,
    i: int,
    name: String,
    found: Option<ModelInfo>,
) -> bool {
    &&& 0 <= i < events.len()
    &&& events[i] == LaunchEvent::ModelLookedUp(found)
    &&& after_events(launch, events.take(i)).prescribes(LaunchAction::LookUpModel(name))
}

/// What one answer does to what is known of the models.
proof fn lemma_models_in_a_step(before: Launch, action: LaunchAction, event: LaunchEvent)
    requires
        before.prescribes(action),
        answers(event, action),
    ensures
        event is DefaultModel ==> before.known.default_model is None,
        event is ModelLookedUp ==> before.known.found_model is None && action is LookUpModel,
        event is ModelLookedUp && before.args.model is Some ==> action->LookUpModel_0
            == before.args.model->0,
        event is ModelLookedUp && before.args.model is None ==> before.known.default_model is Some
            && before.known.default_model->0 is Some && action->LookUpModel_0
            == before.known.default_model->0->0,
{
}

/// The last answer of a run, as far as it is about the models.
proof fn lemma_last_answer_about_models(launch: Launch, events: Seq<LaunchEvent>)
    requires
        is_run(launch, events),
        events.len() > 0,
    ensures
        is_run(launch, events.drop_last()),
        ({
            let before = after_events(launch, events.drop_last());
            let event = events.last();
            &&& after_events(launch, events) == before.with(event)
            &&& event is DefaultModel ==> before.known.default_model is None
            &&& event is ModelLookedUp && before.args.model is Some ==> looked_up_at(
                launch,
                events,
                events.len() - 1,
                before.args.model->0,
                event->ModelLookedUp_0,
            )
            &&& event is ModelLookedUp && before.args.model is None
                ==> before.known.default_model is Some && before.known.default_model->0 is Some
                && looked_up_at(
                launch,
                events,
                events.len() - 1,
                before.known.default_model->0->0,
                event->ModelLookedUp_0,
            )
        }),
{
    reveal(looked_up_at);
    let before = after_events(launch, events.drop_last());
    let action = choose|action: LaunchAction| #[trigger]
        before.prescribes(action) && answers(events.last(), action);
    lemma_models_in_a_step(before, action, events.last());
    assert(events.take(events.len() - 1) == events.drop_last());
}

/// What was looked up in a run was looked up in every longer one.
proof fn lemma_looked_up_earlier(
    launch: Launch,
    events: Seq<LaunchEvent>,
    name: String,
    found: Option<ModelInfo>,
)
    requires
        events.len() > 0,
        exists|i: int| looked_up_at(launch, events.drop_last(), i, name, found),
    ensures
        exists|i: int| looked_up_at(launch, events, i, name, found),
{
    reveal(looked_up_at);
    let i = choose|i: int| looked_up_at(launch, events.drop_last(), i, name, found);
    assert(events.drop_last().take(i) == events.take(i));
    assert(looked_up_at(launch, events, i, name, found));
}

/// The answers about the settings and about the model in a run, over what is known.
spec fn models_are_traced(launch: Launch, events: Seq<LaunchEvent>, known: Knowledge) -> bool {
    &&& known.default_model is Some ==> exists|j: int|
        0 <= j < events.len() && #[trigger] events[j] == LaunchEvent::DefaultModel(
            known.default_model->0,
        )
    &&& forall|j: int|
        0 <= j < events.len() && (#[trigger] events[j]) is DefaultModel ==> known.default_model
            == Some(events[j]->DefaultModel_0)
    &&& known.found_model is Some && launch.args.model is Some ==> exists|i: int|
        looked_up_at(launch, events, i, launch.args.model->0, known.found_model->0)
    &&& known.found_model is Some && launch.args.model is None ==> known.default_model is Some
        && known.default_model->0 is Some && exists|i: int|
        looked_up_at(launch, events, i, known.default_model->0->0, known.found_model->0)
}

/// What is known of the models in a run was asked for in it, and stays known.
proof fn lemma_models_in_runs(launch: Launch, events: Seq<LaunchEvent>)
    requires
        launch.known == Knowledge::empty(),
        is_run(launch, events),
    ensures
        after_events(launch, events).args == launch.args,
        models_are_traced(launch, events, after_events(launch, events).known),
    decreases events.len(),
{
    if events.len() > 0 {
        let earlier = events.drop_last();
        lemma_last_answer_about_models(launch, events);
        lemma_models_in_runs(launch, earlier);
        lemma_trace_grows(
            launch,
            events,
            after_events(launch, earlier),
            after_events(launch, events),
        );
    }
}

/// One more answer leaves the models traced.
proof fn lemma_trace_grows(launch: Launch, events: Seq<LaunchEvent>, before: Launch, end: Launch)
    requires
        events.len() > 0,
        before.args == launch.args,
        end == before.with(events.last()),
        models_are_traced(launch, events.drop_last(), before.known),
        events.last() is DefaultModel ==> before.known.default_model is None,
        events.last() is ModelLookedUp && launch.args.model is Some ==> looked_up_at(
            launch,
            events,
            events.len() - 1,
            launch.args.model->0,
            events.last()->ModelLookedUp_0,
        ),
        events.last() is ModelLookedUp && launch.args.model is None
            ==> before.known.default_model is Some && before.known.default_model->0 is Some
            && looked_up_at(
            launch,
            events,
            events.len() - 1,
            before.known.default_model->0->0,
            events.last()->ModelLookedUp_0,
        ),
    ensures
        models_are_traced(launch, events, end.known),
{
    let earlier = events.drop_last();
    let last = events.len() - 1;
    assert forall|j: int| 0 <= j < events.len() && (
    #[trigger] events[j]) is DefaultModel implies end.known.default_model == Some(
        events[j]->DefaultModel_0,
    ) by {
        if j < last {
            assert(earlier[j] == events[j]);
        }
    }
    if end.known.default_model is Some {
        if events.last() is DefaultModel {
            assert(events[last] == LaunchEvent::DefaultModel(end.known.default_model->0));
        } else {
            let j = choose|j: int|
                0 <= j < earlier.len() && #[trigger] earlier[j] == LaunchEvent::DefaultModel(
                    before.known.default_model->0,
                );
            assert(events[j] == earlier[j]);
        }
    }
    if end.known.found_model is Some {
        let found = end.known.found_model->0;
        let name = if launch.args.model is Some {
            launch.args.model->0
        } else {
            end.known.default_model->0->0
        };
        if events.last() is ModelLookedUp {
            assert(looked_up_at(launch, events, last, name, found));
        } else {
            assert(end.known.found_model == before.known.found_model);
            assert(launch.args.model is None ==> end.known.default_model
                == before.known.default_model);
            lemma_looked_up_earlier(launch, events, name, found);
        }
        assert(exists|i: int| looked_up_at(launch, events, i, name, found));
    }
}

} // verus!
