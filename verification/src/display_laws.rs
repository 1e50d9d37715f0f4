//! What the terminal tells of what happens, and what its keys do beside writing.

use vstd::prelude::*;
use crate::events::AgentEventView;
use crate::numbers::decimal;
use crate::screen_laws::plain;
use crate::screen_laws::writing;
use crate::session::PlanStepStatus;
use crate::session::PlanStepView;
use crate::session::PlanView;
use crate::session::ToolCallView;
use crate::events::ContextStatus;
use crate::text::contains;
use crate::text::ends_with;
use crate::text::starts_with;
use crate::text_laws::parts_are_contained;
use crate::timeline::NoticeKind;
use crate::timeline::TimelineEntryView;
use crate::tui_commands::MemoryReplyView;
use crate::cli::ModelChoiceView;
use crate::tui::OverlayKind;
use crate::tui_events::ResolvedModelView;
use crate::tui_settings::SettingsReadView;
use crate::tui::TuiActionView;
use crate::tui::TuiStateView;
use crate::tui_commands::memory_told;
use crate::tui_commands::status_notice;
use crate::tui_commands::turn_cancelled;
use crate::tui_events::agent_told;
use crate::tui_events::configured;
use crate::tui_events::event_step;
use crate::tui_events::install_failed;
use crate::tui_events::skill_installed;
use crate::tui_events::steps_done;
use crate::tui_events::update_found;
use crate::tui_events::version_told;
use crate::tui_events::RuntimeEventView;
use crate::tui_keys::at_the_end;
use crate::tui_keys::interrupt_step;
use crate::tui_keys::key_step;
use crate::tui_keys::Key;
use crate::tui_keys::KeyCode;
use crate::tui_outcomes::outcome_step;
use crate::tui_outcomes::OutcomeView;
use crate::tui_overlays::server_configured;

verus! {

/// While a turn runs the status tells the call that runs, the wait before a request and how far
/// the plan is, and the room in the context is the one that was told.
pub proof fn running_turns_tell_their_state(
    s: TuiStateView,
    generation: u64,
    call: ToolCallView,
    message: Seq<char>,
    attempt: u8,
    max_attempts: u8,
    delay_ms: u64,
    plan: PlanView,
    context: ContextStatus,
)
    requires
        s.active_generation == Some(generation),
    ensures
        ({
            let next = event_step(
                s,
                RuntimeEventView::Agent { generation, event: AgentEventView::ToolStarted(call) },
            ).0;
            ends_with(next.status, call.name) && contains(next.status, "Running"@)
        }),
        event_step(
            s,
            RuntimeEventView::Agent {
                generation,
                event: AgentEventView::ConnectionRetry { attempt, max_attempts, delay_ms, message },
            },
        ).0.status == message,
        ({
            let next = event_step(
                s,
                RuntimeEventView::Agent { generation, event: AgentEventView::PlanUpdated(plan) },
            ).0;
            &&& contains(next.status, decimal(steps_done(plan.steps)))
            &&& ends_with(next.status, decimal(plan.steps.len()))
        }),
        event_step(
            s,
            RuntimeEventView::Agent { generation, event: AgentEventView::ContextUpdated(context) },
        ).0 == (TuiStateView { context_status: context, ..s }),
{
    reveal(agent_told);
    reveal_strlit("Running ");
    reveal_strlit("Running");
    parts_are_contained("Running "@, call.name, Seq::empty());
    let status = "Running "@ + call.name;
    assert(status.subrange(0, 7) =~= "Running"@);
    assert(crate::text::occurs_at(status, "Running"@, 0));
    let done = decimal(steps_done(plan.steps));
    let all = decimal(plan.steps.len());
    let progress = "Plan "@ + done + "/"@ + all;
    parts_are_contained("Plan "@ + done + "/"@, all, Seq::empty());
    parts_are_contained("Plan "@, done, "/"@ + all);
    assert("Plan "@ + done + ("/"@ + all) =~= progress);
}

/// A step counts as done exactly where it is completed.
pub proof fn completed_steps_are_counted(steps: Seq<PlanStepView>, step: PlanStepView)
    ensures
        steps_done(Seq::empty()) == 0,
        step.status == PlanStepStatus::Completed ==> steps_done(steps.push(step)) == steps_done(
            steps,
        ) + 1,
        step.status != PlanStepStatus::Completed ==> steps_done(steps.push(step)) == steps_done(
            steps,
        ),
        steps_done(steps) <= steps.len(),
    decreases steps.len(),
{
    assert(steps.push(step).drop_last() =~= steps);
    if steps.len() > 0 {
        completed_steps_are_counted(steps.drop_last(), step);
    }
}

/// The rounds of a turn are told by their number, the first as a beginning.
pub proof fn rounds_are_told(
    s: TuiStateView,
    generation: u64,
    provider: Seq<char>,
    model: Seq<char>,
    round: usize,
)
    requires
        s.active_generation == Some(generation),
    ensures
        ({
            let next = event_step(
                s,
                RuntimeEventView::Agent {
                    generation,
                    event: AgentEventView::ModelStarted { provider, model, round },
                },
            ).0;
            &&& round != 1 ==> ends_with(next.status, decimal(round as nat))
            &&& round == 1 ==> next.status == "Thinking"@
            &&& next.timeline == s.timeline
        }),
{
    reveal(agent_told);
    parts_are_contained(
        "Continuing tool loop, round "@,
        decimal(round as nat),
        Seq::empty(),
    );
}

/// A summary of the context is told with the tokens before and after it, in this order; it runs
/// under a number of its own, and where it cannot start the reason is shown.
pub proof fn summaries_of_the_context_are_told(
    s: TuiStateView,
    generation: u64,
    automatic: bool,
    before_tokens: u64,
    after_tokens: u64,
    error: Seq<char>,
)
    ensures
        s.active_generation == Some(generation) ==> ({
            let next = event_step(
                s,
                RuntimeEventView::Agent {
                    generation,
                    event: AgentEventView::CompactionCompleted {
                        automatic,
                        before_tokens,
                        after_tokens,
                    },
                },
            ).0;
            let last = next.timeline.last();
            &&& next.timeline.len() == s.timeline.len() + 1
            &&& last is Notice && last->Notice_kind == NoticeKind::Success
            &&& contains(
                last->Notice_text,
                decimal(before_tokens as nat) + " -> "@ + decimal(after_tokens as nat),
            )
        }),
        ({
            let (next, actions) = outcome_step(s, OutcomeView::CompactionPrepared(None));
            &&& next.busy && next.active_generation == Some(s.next_generation)
            &&& actions == seq![TuiActionView::RunCompaction { generation: s.next_generation }]
            &&& s.next_generation < u64::MAX ==> next.next_generation == s.next_generation + 1
            &&& next.session == s.session && next.timeline == s.timeline
        }),
        ({
            let (next, actions) = outcome_step(s, OutcomeView::CompactionPrepared(Some(error)));
            &&& next == (TuiStateView {
                timeline: s.timeline.push(
                    TimelineEntryView::Notice { kind: NoticeKind::Error, text: error },
                ),
                follow_tail: true,
                ..s
            })
            &&& actions.len() == 0
        }),
{
    reveal(agent_told);
    let before = decimal(before_tokens as nat);
    let after = decimal(after_tokens as nat);
    let whole = "Context compacted: "@ + before + " -> "@ + after + " tokens"@;
    parts_are_contained("Context compacted: "@, before + " -> "@ + after, " tokens"@);
    assert("Context compacted: "@ + (before + " -> "@ + after) + " tokens"@ =~= whole);
}

/// What was saved, deleted or not found in the memory is told by its name.
pub proof fn changes_of_the_memory_are_told(s: TuiStateView, name: Seq<char>, path: Seq<char>)
    ensures
        ({
            let saved = memory_told(s, MemoryReplyView::Saved { name, path }).timeline.last();
            let deleted = memory_told(
                s,
                MemoryReplyView::Deleted { name, found: true },
            ).timeline.last();
            let missed = memory_told(
                s,
                MemoryReplyView::Deleted { name, found: false },
            ).timeline.last();
            let missing = memory_told(s, MemoryReplyView::Missing(name)).timeline.last();
            &&& saved is Notice && saved->Notice_kind == NoticeKind::Success && contains(
                saved->Notice_text,
                name,
            ) && ends_with(saved->Notice_text, path)
            &&& deleted is Notice && deleted->Notice_kind == NoticeKind::Success && ends_with(
                deleted->Notice_text,
                name,
            )
            &&& missed is Notice && missed->Notice_kind == NoticeKind::Warning && ends_with(
                missed->Notice_text,
                name,
            )
            &&& missing == missed
        }),
        memory_told(s, MemoryReplyView::Listed(Seq::empty())).timeline.last() is Notice
            && memory_told(
            s,
            MemoryReplyView::Listed(Seq::empty()),
        ).timeline.last()->Notice_kind == NoticeKind::Warning,
        memory_told(s, MemoryReplyView::Missing(name)) == (TuiStateView {
            timeline: memory_told(s, MemoryReplyView::Missing(name)).timeline,
            follow_tail: true,
            ..s
        }),
{
    parts_are_contained("Saved "@, name, " at "@ + path);
    assert("Saved "@ + name + (" at "@ + path) =~= "Saved "@ + name + " at "@ + path);
    parts_are_contained("Saved "@ + name + " at "@, path, Seq::empty());
    parts_are_contained("Deleted memory "@, name, Seq::empty());
    parts_are_contained("Memory not found: "@, name, Seq::empty());
}

/// The status names the provider, the model and the room in the context.
pub proof fn the_status_names_the_model(s: TuiStateView, context: ContextStatus)
    ensures
        ({
            let next = outcome_step(s, OutcomeView::ContextMeasured(context)).0;
            let last = next.timeline.last();
            &&& next.timeline.len() == s.timeline.len() + 1
            &&& last is Notice
            &&& starts_with(
                last->Notice_text,
                s.session.provider_id + " / "@ + s.session.model + " | "@,
            )
            &&& contains(
                last->Notice_text,
                decimal(context.used_tokens as nat) + "/"@ + decimal(
                    context.effective_context_window as nat,
                ),
            )
        }),
{
    reveal(status_notice);
    let text = status_notice(s, context);
    let named = s.session.provider_id + " / "@ + s.session.model + " | "@;
    assert(text.take(named.len() as int) =~= named);
    let before = named + crate::tui::policy_label(s.policy_labels, s.policy) + " | context "@
        + decimal(context.used_percent as nat) + "% ("@;
    let part = decimal(context.used_tokens as nat) + "/"@ + decimal(
        context.effective_context_window as nat,
    );
    let behind = ") | plan "@ + crate::tui_commands::plan_summary(s.session) + " | loop "@
        + crate::tui_commands::loop_summary(s.session);
    parts_are_contained(before, part, behind);
    assert(before + part + behind =~= text);
}

/// A provider that was read anew brings its models and is used from then on; the session is
/// saved.
pub proof fn refreshed_providers_are_used(
    s: TuiStateView,
    models: Seq<ModelChoiceView>,
    provider: ResolvedModelView,
    error: Seq<char>,
)
    ensures
        ({
            let (next, actions) = outcome_step(
                s,
                OutcomeView::ProviderRefreshed(Ok((models, provider))),
            );
            &&& next.models == models
            &&& next.session.model == provider.model
            &&& actions.len() == 1 && actions[0] is SaveSession
            &&& next.session.messages == s.session.messages
        }),
        ({
            let (next, actions) = outcome_step(s, OutcomeView::ProviderRefreshed(Err(error)));
            &&& next.session == s.session && next.models == s.models
            &&& actions.len() == 0
            &&& next.timeline.last() is Notice && ends_with(
                next.timeline.last()->Notice_text,
                error,
            )
        }),
{
    reveal_strlit("");
    let notice = crate::tui_events::refresh_failed(error);
    assert(notice.skip(notice.len() - error.len()) =~= error);
}

/// What was installed, set up or could not be is told with its name or its reason, and the
/// terminal is free for the next.
pub proof fn installations_are_told(
    s: TuiStateView,
    id: Seq<char>,
    path: Seq<char>,
    read: SettingsReadView,
    error: Seq<char>,
    kind: Seq<char>,
)
    ensures
        ({
            let next = event_step(s, RuntimeEventView::SkillInstalled { id, path, read }).0;
            &&& next.catalog_busy is None
            &&& next.timeline.last() is Notice && ends_with(next.timeline.last()->Notice_text, path)
            &&& contains(next.timeline.last()->Notice_text, id)
        }),
        event_step(s, RuntimeEventView::InstallFailed(error)).0 == (TuiStateView {
            catalog_busy: None,
            timeline: s.timeline.push(
                TimelineEntryView::Notice { kind: NoticeKind::Error, text: error },
            ),
            follow_tail: true,
            ..s
        }),
        ({
            let next = event_step(s, RuntimeEventView::AutoConfigFailed(error)).0;
            &&& !next.auto_config_busy
            &&& next.timeline == s.timeline.push(
                TimelineEntryView::Notice { kind: NoticeKind::Error, text: error },
            )
        }),
        ({
            let (next, actions) = event_step(
                s,
                RuntimeEventView::AutoConfigDone { kind, message: error },
            );
            &&& !next.auto_config_busy
            &&& next.timeline == s.timeline.push(
                TimelineEntryView::Notice { kind: NoticeKind::Success, text: error },
            )
            &&& actions.contains(TuiActionView::RefreshProvider) <==> kind == "provider"@
        }),
        !event_step(s, RuntimeEventView::AutoConfigDeclined).0.auto_config_busy,
        ({
            let next = outcome_step(s, OutcomeView::ServerConfigured { name: id, path }).0;
            &&& next.overlay is None && next.mcp_form is None
            &&& next.timeline.last() is Notice && contains(next.timeline.last()->Notice_text, id)
            &&& ends_with(next.timeline.last()->Notice_text, path)
        }),
{
    reveal(skill_installed);
    reveal(install_failed);
    reveal(configured);
    reveal(server_configured);
    parts_are_contained("Installed "@, id, " at "@ + path);
    assert("Installed "@ + id + (" at "@ + path) =~= "Installed "@ + id + " at "@ + path);
    parts_are_contained("Installed "@ + id + " at "@, path, Seq::empty());
    parts_are_contained("Configured "@, id, " at "@ + path);
    assert("Configured "@ + id + (" at "@ + path) =~= "Configured "@ + id + " at "@ + path);
    parts_are_contained("Configured "@ + id + " at "@, path, Seq::empty());
    if kind == "provider"@ {
        let actions = event_step(s, RuntimeEventView::AutoConfigDone { kind, message: error }).1;
        assert(actions[0] == TuiActionView::RefreshProvider);
    }
}

/// A newer version is told with its number and where it is; the current one is told too.
pub proof fn versions_are_told(
    s: TuiStateView,
    current: Seq<char>,
    latest: Seq<char>,
    url: Seq<char>,
)
    ensures
        ({
            let next = event_step(s, RuntimeEventView::UpdateFound { current, latest, url }).0;
            &&& ends_with(next.update_status, latest)
            &&& contains(next.update_status, current)
            &&& next.timeline.last() is Notice && ends_with(next.timeline.last()->Notice_text, url)
        }),
        contains(event_step(s, RuntimeEventView::UpdateCurrent(current)).0.update_status, current),
        event_step(s, RuntimeEventView::UpdateCurrent(current)).0.timeline == s.timeline,
        event_step(s, RuntimeEventView::UpdateFailed(url)).0 == (TuiStateView {
            update_status: url,
            ..s
        }),
{
    reveal(update_found);
    reveal(version_told);
    let text = "Update available: "@ + current + " -> "@ + latest;
    parts_are_contained("Update available: "@ + current + " -> "@, latest, Seq::empty());
    parts_are_contained("Update available: "@, current, " -> "@ + latest);
    assert("Update available: "@ + current + (" -> "@ + latest) =~= text);
    parts_are_contained(text + "  "@, url, Seq::empty());
    parts_are_contained("Coomi "@, current, " is current"@);
}

/// The cursor goes to either end of the line and one to the right, and the line stays as it is;
/// on an empty line the end of the timeline is shown.
pub proof fn the_cursor_moves(s: TuiStateView, now: u64, id: Seq<char>)
    requires
        writing(s),
    ensures
        ({
            let next = key_step(s, plain(KeyCode::End), now, id).0;
            &&& next.editor.text() == s.editor.text()
            &&& s.editor.text().len() > 0 ==> next.editor.behind.len() == 0
            &&& s.editor.text().len() == 0 ==> next.scroll == 0 && next.follow_tail
        }),
        key_step(s, plain(KeyCode::Home), now, id).0.editor.text() == s.editor.text(),
        ({
            let next = key_step(s, plain(KeyCode::Right), now, id).0;
            &&& next.editor.text() == s.editor.text()
            &&& s.editor.behind.len() > 0 ==> next.editor.before == s.editor.before.push(
                s.editor.behind[0],
            )
        }),
        key_step(
            s,
            Key { shift: true, ..plain(KeyCode::Enter) },
            now,
            id,
        ).0.editor.text() == s.editor.before.push('\n') + s.editor.behind,
{
    reveal(at_the_end);
    crate::editor::moving_keeps_the_text(s.editor);
    let whole = s.editor.text();
    assert(whole + Seq::<char>::empty() =~= whole);
    assert(Seq::<char>::empty() + whole =~= whole);
    assert(s.editor.before + seq!['\n'] =~= s.editor.before.push('\n'));
}

/// Interrupting stops a running turn; with none running it empties the line, and on an empty
/// line it leaves the terminal. The other keys open what they stand for.
pub proof fn held_keys_do_what_they_stand_for(s: TuiStateView, now: u64, id: Seq<char>)
    requires
        writing(s),
    ensures
        ({
            let held = Key { control: true, ..plain(KeyCode::Char('c')) };
            let (next, actions) = key_step(s, held, now, id);
            &&& !s.busy && s.editor.text().len() > 0 ==> next.editor.text().len() == 0
                && next.quit == s.quit && actions.len() == 0
            &&& !s.busy && s.editor.text().len() == 0 ==> next.quit
            &&& s.busy ==> next.quit == s.quit && !next.busy && actions.contains(
                TuiActionView::AbortTurn,
            )
        }),
        ({
            let held = Key { control: true, ..plain(KeyCode::Char('k')) };
            let next = key_step(s, held, now, id).0;
            next.overlay is Some && next.overlay->0.kind == OverlayKind::Commands
        }),
        ({
            let held = Key { control: true, ..plain(KeyCode::Char('j')) };
            key_step(s, held, now, id).0.editor.text() == s.editor.before.push('\n')
                + s.editor.behind
        }),
        ({
            let held = Key { alt: true, ..plain(KeyCode::Char('h')) };
            let next = key_step(s, held, now, id).0;
            next.overlay is Some && next.overlay->0.kind == OverlayKind::Help
        }),
        ({
            let held = Key { alt: true, ..plain(KeyCode::Char('m')) };
            let next = key_step(s, held, now, id).0;
            next.overlay is Some && next.overlay->0.kind == OverlayKind::Models
        }),
        ({
            let held = Key { alt: true, ..plain(KeyCode::Char('s')) };
            let (next, actions) = key_step(s, held, now, id);
            &&& !s.busy ==> actions == seq![TuiActionView::ReadSettings(None)] && next == s
            &&& s.busy ==> actions.len() == 0
        }),
{
    reveal(interrupt_step);
    reveal(turn_cancelled);
    if s.busy {
        let actions = turn_cancelled(s).1;
        assert(actions[0] == TuiActionView::AbortTurn);
        assert(actions.contains(actions[0]));
    }
    let written = s.editor.before + seq!['\n'];
    assert(written =~= s.editor.before.push('\n'));
}

} // verus!
