//! What the terminal interface makes of the outcomes of its actions, and that its state stays
//! valid whatever they are.

use vstd::prelude::*;
use crate::cli::ModelChoiceView;
use crate::events::ContextStatus;
use crate::provider::ProviderDocumentView;
use crate::provider_form::providers_step;
use crate::search::SessionCardView;
use crate::session::SessionView;
use crate::timeline::NoticeKind;
use crate::tui::AfterSaveView;
use crate::tui::ModelUse;
use crate::tui::ProvidersUseView;
use crate::tui::SettingsTab;
use crate::tui::TuiActionView;
use crate::tui::TuiStateView;
use crate::tui::asks_safely;
use crate::tui::pasted;
use crate::tui::quiet;
use crate::tui::sessions_taken;
use crate::tui_commands::AutoConfigIntentView;
use crate::tui_commands::MemoryReplyView;
use crate::tui_commands::config_kept;
use crate::tui_commands::config_started;
use crate::tui_commands::leaving;
use crate::tui_commands::loop_cleared;
use crate::tui_commands::loop_created;
use crate::tui_commands::loop_edited;
use crate::tui_commands::loop_set;
use crate::tui_commands::loop_shown;
use crate::tui_commands::loop_step;
use crate::tui_commands::memory_step;
use crate::tui_commands::memory_told;
use crate::tui_commands::message_sent;
use crate::tui_commands::model_requested;
use crate::tui_commands::plan_shown;
use crate::tui_commands::prompt_step;
use crate::tui_commands::session_begun;
use crate::tui_commands::slash_step;
use crate::tui_commands::status_notice;
use crate::tui_commands::tab_requested;
use crate::tui_commands::timeline_cleared;
use crate::tui_commands::unknown_command;
use crate::tui_events::ResolvedModelView;
use crate::tui_events::SettingsFactsView;
use crate::tui_events::compaction_started;
use crate::tui_events::model_found;
use crate::tui_events::next_step;
use crate::tui_events::provider_refreshed;
use crate::tui_events::save_step;
use crate::tui_events::settings_shown;
use crate::tui_events::side_started;
use crate::tui_events::stopped;
use crate::tui_events::turn_saved;
use crate::tui_events::turn_started;
use crate::tui_overlays::change_step;
use crate::tui_overlays::server_configured;
use crate::tui_overlays::session_removed;
use crate::tui_overlays::session_resumed;
use crate::tui_settings::SettingsReadView;

verus! {

/// What comes back from an action of the interface, or happens to it between two keys.
#[verifier::ext_equal]
pub enum OutcomeView {
    SettingsRead { tab: Option<SettingsTab>, read: Result<SettingsFactsView, Seq<char>> },
    SettingsChanged { again: SettingsReadView, status: Seq<char>, check: bool },
    ProvidersWritten {
        change: ProvidersUseView,
        document: ProviderDocumentView,
        written: Result<(), Seq<char>>,
    },
    ModelsRead { models: Seq<ModelChoiceView>, status: Seq<char> },
    ModelResolved { purpose: ModelUse, models: Seq<ModelChoiceView>, provider: ResolvedModelView },
    ProviderRefreshed(Result<(Seq<ModelChoiceView>, ResolvedModelView), Seq<char>>),
    SessionSaved { after: AfterSaveView, saved: Result<(), Seq<char>> },
    SessionLoaded(SessionView),
    SessionDeleted(bool),
    SessionsListed { listed: Result<Seq<SessionCardView>, Seq<char>>, clamp: bool },
    ServerConfigured { name: Seq<char>, path: Seq<char> },
    MemoryAnswered(MemoryReplyView),
    ContextMeasured(ContextStatus),
    TurnPrepared { prompt: Seq<char>, continuation: bool, prepared: Result<Seq<char>, Seq<char>> },
    CompactionPrepared(Option<Seq<char>>),
    SidePrepared { prompt: Seq<char>, id: Seq<char>, failure: Option<Seq<char>> },
    PromptRead {
        prompt: Seq<char>,
        intent: Option<AutoConfigIntentView>,
        id: Seq<char>,
        reply: u64,
    },
    Pasted(Seq<char>),
    NothingRuns,
    Stopped,
}

/// What the interface makes of an outcome. A saving that ends the interface leaves its state.
pub open spec fn outcome_step(s: TuiStateView, outcome: OutcomeView) -> (
    TuiStateView,
    Seq<TuiActionView>,
) {
    match outcome {
        OutcomeView::SettingsRead { tab, read } => settings_shown(s, tab, read),
        OutcomeView::SettingsChanged { again, status, check } => change_step(s, again, status, check),
        OutcomeView::ProvidersWritten { change, document, written } => providers_step(
            s,
            change,
            document,
            written,
        ),
        OutcomeView::ModelsRead { models, status } => quiet(TuiStateView { models, status, ..s }),
        OutcomeView::ModelResolved { purpose, models, provider } => model_found(
            s,
            purpose,
            models,
            provider,
        ),
        OutcomeView::ProviderRefreshed(found) => provider_refreshed(s, found),
        OutcomeView::SessionSaved { after, saved } => match save_step(s, after, saved) {
            Ok(step) => step,
            Err(_) => quiet(s),
        },
        OutcomeView::SessionLoaded(session) => quiet(session_resumed(s, session)),
        OutcomeView::SessionDeleted(deleted) => session_removed(s, deleted),
        OutcomeView::SessionsListed { listed, clamp } => quiet(sessions_taken(s, listed, clamp)),
        OutcomeView::ServerConfigured { name, path } => quiet(server_configured(s, name, path)),
        OutcomeView::MemoryAnswered(reply) => quiet(memory_told(s, reply)),
        OutcomeView::ContextMeasured(context) => quiet(
            s.noticed(NoticeKind::Success, status_notice(s, context)),
        ),
        OutcomeView::TurnPrepared { prompt, continuation, prepared } => turn_started(
            s,
            prompt,
            continuation,
            prepared,
        ),
        OutcomeView::CompactionPrepared(failure) => compaction_started(s, failure),
        OutcomeView::SidePrepared { prompt, id, failure } => side_started(s, prompt, id, failure),
        OutcomeView::PromptRead { prompt, intent, id, reply } => prompt_step(
            s,
            prompt,
            intent,
            id,
            reply,
        ),
        OutcomeView::Pasted(text) => quiet(pasted(s, text)),
        OutcomeView::NothingRuns => next_step(s),
        OutcomeView::Stopped => stopped(s),
    }
}

/// Whether an outcome may close the overlay, or lead to one that does. It answers an action of
/// which `may_close` holds.
pub open spec fn closes(outcome: OutcomeView) -> bool {
    match outcome {
        OutcomeView::SessionLoaded(_) => true,
        OutcomeView::ServerConfigured { .. } => true,
        OutcomeView::CompactionPrepared(_) => true,
        OutcomeView::PromptRead { .. } => true,
        OutcomeView::ModelResolved { purpose, .. } => purpose == ModelUse::Choose,
        OutcomeView::SessionSaved { after, .. } => after is ModelChosen,
        _ => false,
    }
}

proof fn loops_are_valid(s: TuiStateView, argument: Seq<char>)
    requires
        s.wf(),
        s.confirm_delete is None,
    ensures
        loop_step(s, argument).0.wf(),
        asks_safely(loop_step(s, argument)),
{
    reveal(loop_step);
    reveal(loop_created);
    reveal(loop_set);
    reveal(loop_cleared);
    reveal(loop_edited);
    reveal(loop_shown);
}

proof fn commands_are_valid(s: TuiStateView, command: Seq<char>, id: Seq<char>)
    requires
        s.wf(),
        s.confirm_delete is None,
    ensures
        slash_step(s, command, id).0.wf(),
        asks_safely(slash_step(s, command, id)),
{
    loops_are_valid(s, crate::tui_commands::tail_text(command));
    reveal(model_requested);
    reveal(tab_requested);
    reveal(memory_step);
    reveal(plan_shown);
    reveal(session_begun);
    reveal(timeline_cleared);
    reveal(leaving);
    reveal(unknown_command);
}

proof fn prompts_are_valid(
    s: TuiStateView,
    prompt: Seq<char>,
    intent: Option<AutoConfigIntentView>,
    id: Seq<char>,
    reply: u64,
)
    requires
        s.wf(),
        s.confirm_delete is None,
    ensures
        prompt_step(s, prompt, intent, id, reply).0.wf(),
        asks_safely(prompt_step(s, prompt, intent, id, reply)),
{
    commands_are_valid(s, prompt, id);
    reveal(config_started);
    reveal(config_kept);
    reveal(message_sent);
}

proof fn shown_settings_are_valid(
    s: TuiStateView,
    tab: Option<SettingsTab>,
    read: Result<SettingsFactsView, Seq<char>>,
)
    requires
        s.wf(),
    ensures
        settings_shown(s, tab, read).0.wf(),
        asks_safely(settings_shown(s, tab, read)),
{
}

proof fn changed_settings_are_valid(
    s: TuiStateView,
    again: SettingsReadView,
    status: Seq<char>,
    check: bool,
)
    requires
        s.wf(),
    ensures
        change_step(s, again, status, check).0.wf(),
        asks_safely(change_step(s, again, status, check)),
{
    reveal(change_step);
}

proof fn written_providers_are_valid(
    s: TuiStateView,
    change: ProvidersUseView,
    document: ProviderDocumentView,
    written: Result<(), Seq<char>>,
)
    requires
        s.wf(),
    ensures
        providers_step(s, change, document, written).0.wf(),
        asks_safely(providers_step(s, change, document, written)),
{
    reveal(providers_step);
}

proof fn found_models_are_valid(
    s: TuiStateView,
    purpose: ModelUse,
    models: Seq<ModelChoiceView>,
    provider: ResolvedModelView,
)
    requires
        s.wf(),
        purpose == ModelUse::Choose ==> s.confirm_delete is None,
    ensures
        model_found(s, purpose, models, provider).0.wf(),
        asks_safely(model_found(s, purpose, models, provider)),
{
}

proof fn saves_are_valid(s: TuiStateView, after: AfterSaveView, saved: Result<(), Seq<char>>)
    requires
        s.wf(),
        after is ModelChosen ==> s.confirm_delete is None,
    ensures
        save_step(s, after, saved) matches Ok(step) ==> step.0.wf() && asks_safely(step),
{
    reveal(turn_saved);
}

proof fn starts_are_valid(
    s: TuiStateView,
    prompt: Seq<char>,
    continuation: bool,
    prepared: Result<Seq<char>, Seq<char>>,
)
    requires
        s.wf(),
    ensures
        turn_started(s, prompt, continuation, prepared).0.wf(),
        asks_safely(turn_started(s, prompt, continuation, prepared)),
        next_step(s).0.wf(),
        asks_safely(next_step(s)),
        stopped(s).0.wf(),
        asks_safely(stopped(s)),
{
}

proof fn sessions_are_valid(s: TuiStateView, session: SessionView, name: Seq<char>, path: Seq<char>)
    requires
        s.wf(),
        s.confirm_delete is None,
    ensures
        session_resumed(s, session).wf(),
        server_configured(s, name, path).wf(),
{
    reveal(session_resumed);
    reveal(server_configured);
}

proof fn pastes_are_valid(s: TuiStateView, text: Seq<char>)
    requires
        s.wf(),
    ensures
        pasted(s, text).wf(),
{
}

/// Whatever comes back from an action, the state stays valid, and what may close the overlay
/// is asked for only while no deletion waits to be confirmed. No deletion waits when an action
/// comes back that may close the overlay: keys, events and outcomes ask for none otherwise.
pub proof fn outcomes_keep_the_state_valid(s: TuiStateView, outcome: OutcomeView)
    requires
        s.wf(),
        closes(outcome) ==> s.confirm_delete is None,
    ensures
        outcome_step(s, outcome).0.wf(),
        asks_safely(outcome_step(s, outcome)),
{
    match outcome {
        OutcomeView::SettingsRead { tab, read } => {
            shown_settings_are_valid(s, tab, read);
        },
        OutcomeView::SettingsChanged { again, status, check } => {
            changed_settings_are_valid(s, again, status, check);
        },
        OutcomeView::ProvidersWritten { change, document, written } => {
            written_providers_are_valid(s, change, document, written);
        },
        OutcomeView::ModelResolved { purpose, models, provider } => {
            found_models_are_valid(s, purpose, models, provider);
        },
        OutcomeView::SessionSaved { after, saved } => {
            saves_are_valid(s, after, saved);
        },
        OutcomeView::SessionLoaded(session) => {
            sessions_are_valid(s, session, Seq::empty(), Seq::empty());
        },
        OutcomeView::ServerConfigured { name, path } => {
            sessions_are_valid(s, s.session, name, path);
        },
        OutcomeView::SessionDeleted(_) => {
            reveal(session_removed);
        },
        OutcomeView::TurnPrepared { prompt, continuation, prepared } => {
            starts_are_valid(s, prompt, continuation, prepared);
        },
        OutcomeView::NothingRuns => {
            starts_are_valid(s, Seq::empty(), false, Err(Seq::empty()));
        },
        OutcomeView::Stopped => {
            starts_are_valid(s, Seq::empty(), false, Err(Seq::empty()));
        },
        OutcomeView::PromptRead { prompt, intent, id, reply } => {
            prompts_are_valid(s, prompt, intent, id, reply);
        },
        OutcomeView::Pasted(text) => {
            pastes_are_valid(s, text);
        },
        _ => {},
    }
}

} // verus!
