//! What the keys, the events and the lists of the terminal are for.

use vstd::prelude::*;
use crate::catalog::McpCatalogEntryView;
use crate::editor::EditorView;
use crate::events::AgentEventView;
use crate::numbers::decimal;
use crate::provider::ProviderDocumentView;
use crate::provider::ProviderSettingsView;
use crate::provider_form::document_saved;
use crate::provider_form::form_begun;
use crate::provider_form::form_read;
use crate::provider_form::form_saved;
use crate::provider_form::given_switch;
use crate::provider_form::known_settings;
use crate::provider_form::provider_activated;
use crate::provider_form::provider_deleted;
use crate::session::ChatMessageView;
use crate::session::LoopStateView;
use crate::session::LoopStatus;
use crate::session::PlanView;
use crate::session::Role;
use crate::session::SessionView;
use crate::session::ToolCallView;
use crate::session::ToolResultView;
use crate::table::lookup;
use crate::text::contains;
use crate::text::ends_with;
use crate::text::is_blank;
use crate::text::lower;
use crate::text::starts_with;
use crate::text::trimmed;
use crate::text_laws::parts_are_contained;
use crate::text_laws::removals_touch_one_key;
use crate::timeline::replayed;
use crate::timeline::with_result;
use crate::timeline::TimelineEntryView;
use crate::timeline::NoticeKind;
use crate::timeline::ToolStateView;
use crate::tui::CatalogTab;
use crate::tui::inside;
use crate::tui::policy_cycled;
use crate::tui::ProviderFormView;
use crate::tui::sessions_taken;
use crate::tui::AfterSaveView;
use crate::tui::ConfiguredMcpView;
use crate::tui::DeleteTargetView;
use crate::tui::FormFieldView;
use crate::tui::InstalledSkillView;
use crate::tui::MemoryRequestView;
use crate::tui::ModelUse;
use crate::tui::OverlayKind;
use crate::tui::PendingUserInputView;
use crate::tui::SettingsChangeView;
use crate::tui::SettingsStateView;
use crate::tui::SettingsTab;
use crate::tui::TuiActionView;
use crate::tui::TuiStateView;
use crate::tui::UserInputQuestionView;
use crate::tui::UserInputRequestView;
use crate::tui_commands::head_word;
use crate::tui_commands::leaving;
use crate::tui_commands::line_sent;
use crate::tui_commands::loop_cleared;
use crate::tui_commands::loop_created;
use crate::tui_commands::loop_set;
use crate::tui_commands::loop_shown;
use crate::tui_commands::loop_step;
use crate::tui_commands::memory_told;
use crate::tui_commands::memory_wish;
use crate::tui_commands::MemoryItemView;
use crate::tui_commands::MemoryReplyView;
use crate::tui_commands::message_sent;
use crate::tui_commands::model_requested;
use crate::tui_commands::plan_shown;
use crate::tui_commands::session_begun;
use crate::tui_commands::slash_step;
use crate::tui_commands::tab_requested;
use crate::tui_commands::tail_text;
use crate::tui_commands::timeline_cleared;
use crate::tui_commands::turn_cancelled;
use crate::tui_events::agent_told;
use crate::tui_events::approval_asked;
use crate::tui_events::default_answers;
use crate::tui_events::event_step;
use crate::tui_events::queue_after;
use crate::tui_events::questions_asked;
use crate::tui_events::SettingsFactsView;
use crate::tui_events::side_requested;
use crate::tui_events::side_shown;
use crate::tui_events::turn_ended;
use crate::tui_events::turn_saved;
use crate::tui_events::ResolvedModelView;
use crate::tui_events::RuntimeEventView;
use crate::tui_keys::approval_step;
use crate::tui_keys::confirmation_step;
use crate::tui_keys::deletion_step;
use crate::tui_keys::escape_step;
use crate::tui_keys::form_key_step;
use crate::tui_keys::form_values;
use crate::tui_keys::has_question;
use crate::tui_keys::interrupt_step;
use crate::tui_keys::key_step;
use crate::tui_keys::moved_in_settings;
use crate::tui_keys::option_count;
use crate::tui_keys::question_key;
use crate::tui_keys::questions_step;
use crate::tui_keys::recalled;
use crate::tui_keys::server_deletion_asked;
use crate::tui_keys::server_key_step;
use crate::tui_keys::server_toggled;
use crate::tui_keys::skill_deletion_asked;
use crate::tui_keys::skill_toggled;
use crate::tui_keys::skill_update;
use crate::tui_keys::AnsweringView;
use crate::tui_keys::Key;
use crate::tui_keys::KeyCode;
use crate::tui_outcomes::outcome_step;
use crate::tui_outcomes::OutcomeView;
use crate::tui_overlays::catalog_step;
use crate::tui_overlays::choice_step;
use crate::tui_overlays::history_step;
use crate::tui_overlays::matching;
use crate::tui_overlays::menu_step;
use crate::tui_overlays::MenuAction;
use crate::tui_overlays::models_step;
use crate::tui_overlays::overlay_items;
use crate::tui_overlays::query_edited;
use crate::tui_overlays::query_of;
use crate::tui_overlays::selection_moved;
use crate::tui_overlays::server_form;
use crate::tui_overlays::servers_found;
use crate::tui_overlays::session_marked;
use crate::tui_overlays::skills_found;
use crate::tui_settings::chosen_mcp;
use crate::tui_settings::chosen_skill;
use crate::tui_settings::configured_for;
use crate::tui_settings::item_count;
use crate::tui_settings::mcp_items;
use crate::tui_settings::settings_refreshed;
use crate::tui_settings::SettingsReadView;

verus! {

// ---------------------------------------------------------------------------
// The line
// ---------------------------------------------------------------------------

/// Whether the keys go to the line that is being written.
pub open spec fn writing(s: TuiStateView) -> bool {
    &&& s.pending_approval is None
    &&& s.pending_user_input is None
    &&& s.confirm_delete is None
    &&& s.overlay is None
}

/// A key without other keys held.
pub open spec fn plain(code: KeyCode) -> Key {
    Key { code, control: false, alt: false, shift: false }
}

/// A character that is typed stands in the line where the cursor was, and nothing else changes;
/// going back takes the character before the cursor away again.
pub proof fn typing_writes(s: TuiStateView, character: char, now: u64, id: Seq<char>)
    requires
        writing(s),
        character != '/' || s.editor.text().len() > 0,
    ensures
        ({
            let (next, actions) = key_step(s, plain(KeyCode::Char(character)), now, id);
            &&& next == (TuiStateView { editor: next.editor, ..s })
            &&& next.editor.text() == s.editor.before.push(character) + s.editor.behind
            &&& next.editor.before == s.editor.before.push(character)
            &&& actions.len() == 0
        }),
        s.editor.before.len() > 0 ==> key_step(s, plain(KeyCode::Backspace), now, id).0.editor.text()
            == s.editor.before.drop_last() + s.editor.behind,
        s.editor.behind.len() > 0 ==> key_step(s, plain(KeyCode::Delete), now, id).0.editor.text()
            == s.editor.before + s.editor.behind.skip(1),
        key_step(s, plain(KeyCode::Left), now, id).0.editor.text() == s.editor.text(),
        s.editor.before.len() > 0 ==> key_step(s, plain(KeyCode::Left), now, id).0.editor.before
            == s.editor.before.drop_last(),
        key_step(s, plain(KeyCode::Home), now, id).0.editor.before.len() == 0,
{
    crate::editor::moving_keeps_the_text(s.editor);
    let typed = s.editor.typed(seq![character]);
    assert(typed.before =~= s.editor.before.push(character));
    if s.editor.behind.len() > 0 {
        assert(s.editor.behind.drop_first() =~= s.editor.behind.skip(1));
    }
}

/// A line that is sent is handed on trimmed and the line is empty again; a blank one is dropped.
pub proof fn lines_are_sent(s: TuiStateView, now: u64, id: Seq<char>)
    requires
        writing(s),
    ensures
        ({
            let (next, actions) = key_step(s, plain(KeyCode::Enter), now, id);
            &&& next.editor.text().len() == 0
            &&& trimmed(s.editor.text()).len() > 0 ==> actions == seq![
                TuiActionView::DetectConfig(trimmed(s.editor.text())),
            ]
            &&& trimmed(s.editor.text()).len() == 0 ==> actions.len() == 0
            &&& next == (TuiStateView { editor: next.editor, ..s })
        }),
{
    reveal(line_sent);
}

/// A message starts a turn with its own text; while a turn runs it waits in the queue and is
/// handed to that turn.
pub proof fn messages_become_turns(s: TuiStateView, prompt: Seq<char>, id: Seq<char>, reply: u64)
    requires
        prompt.len() == 0 || prompt[0] != '/',
    ensures
        ({
            let (next, actions) = outcome_step(
                s,
                OutcomeView::PromptRead { prompt, intent: None, id, reply },
            );
            &&& !s.busy ==> actions == seq![
                TuiActionView::PrepareTurn { prompt, continuation: false },
            ] && next == s
            &&& s.busy ==> actions == seq![TuiActionView::QueueInput(prompt)] && next.queue
                == s.queue.push(prompt) && next.session == s.session
        }),
{
    reveal(message_sent);
    reveal_strlit("/");
    if starts_with(prompt, "/"@) {
        assert(prompt.take(1)[0] == "/"@[0]);
    }
}

/// A turn that starts runs the prompt under its own number; the prompt stands in the timeline
/// and in the history of the lines.
pub proof fn turns_run_their_prompt(s: TuiStateView, prompt: Seq<char>, model: Seq<char>, error: Seq<char>)
    ensures
        ({
            let (next, actions) = outcome_step(
                s,
                OutcomeView::TurnPrepared { prompt, continuation: false, prepared: Ok(model) },
            );
            let (failed, none) = outcome_step(
                s,
                OutcomeView::TurnPrepared { prompt, continuation: false, prepared: Err(error) },
            );
            let (going_on, more) = outcome_step(
                s,
                OutcomeView::TurnPrepared { prompt, continuation: true, prepared: Ok(model) },
            );
            &&& actions == seq![
                TuiActionView::RunTurn {
                    generation: s.next_generation,
                    prompt,
                    continuation: false,
                },
            ]
            &&& next.timeline == s.timeline.push(TimelineEntryView::User(prompt))
            &&& next.input_history == s.input_history.push(prompt)
            &&& next.busy && next.active_generation == Some(s.next_generation)
            &&& more == seq![
                TuiActionView::RunTurn {
                    generation: s.next_generation,
                    prompt,
                    continuation: true,
                },
            ]
            &&& going_on.timeline == s.timeline
            &&& none.len() == 0 && failed.busy == s.busy && failed.timeline.last() == (
            TimelineEntryView::Notice { kind: NoticeKind::Error, text: error })
        }),
{
}

/// Lines that were sent are recalled one after the other, the latest first, and the end of the
/// list is an empty line.
pub proof fn lines_are_recalled(s: TuiStateView)
    requires
        s.input_history.len() > 0,
        s.input_history.len() <= usize::MAX,
    ensures
        s.history_cursor is None ==> recalled(s, true).editor.text() == s.input_history.last(),
        s.history_cursor is Some && 0 < s.history_cursor->0 < s.input_history.len() ==> recalled(
            s,
            true,
        ).editor.text() == s.input_history[s.history_cursor->0 - 1],
        s.history_cursor is Some && s.history_cursor->0 + 1 < s.input_history.len() ==> recalled(
            s,
            false,
        ).editor.text() == s.input_history[s.history_cursor->0 + 1],
        s.history_cursor is Some && s.history_cursor->0 + 1 == s.input_history.len() ==> recalled(
            s,
            false,
        ).editor.text().len() == 0,
        recalled(s, true).input_history == s.input_history,
{
    reveal(recalled);
}

/// Text that is pasted stands in the line where the cursor was.
pub proof fn pasted_text_is_inserted(s: TuiStateView, text: Seq<char>)
    requires
        writing(s),
        s.settings is None,
    ensures
        outcome_step(s, OutcomeView::Pasted(text)).0.editor.text() == s.editor.before + text
            + s.editor.behind,
        outcome_step(s, OutcomeView::Pasted(text)).1.len() == 0,
{
}

/// Leaving a running turn stops it; with nothing running a written line is dropped first.
pub proof fn escape_stops_first(s: TuiStateView, now: u64, id: Seq<char>)
    requires
        writing(s),
    ensures
        s.busy ==> key_step(s, plain(KeyCode::Esc), now, id).1.contains(TuiActionView::AbortTurn)
            && !key_step(s, plain(KeyCode::Esc), now, id).0.busy,
        !s.busy && s.editor.text().len() > 0 ==> key_step(
            s,
            plain(KeyCode::Esc),
            now,
            id,
        ).0.editor.text().len() == 0 && !key_step(s, plain(KeyCode::Esc), now, id).0.quit
            || s.quit,
        s.busy ==> interrupt_step(s).1.contains(TuiActionView::AbortTurn),
        !s.busy && s.editor.text().len() == 0 ==> interrupt_step(s).0.quit,
        !s.busy && s.editor.text().len() > 0 ==> interrupt_step(s).0.editor.text().len() == 0,
{
    reveal(escape_step);
    reveal(interrupt_step);
    reveal(turn_cancelled);
    if s.busy {
        assert(turn_cancelled(s).1[0] == TuiActionView::AbortTurn);
    }
}

// ---------------------------------------------------------------------------
// Events
// ---------------------------------------------------------------------------

/// What the model says is shown: a part is added to the words before it, a whole text stands by
/// itself, and a call stands with its name until it is done.
pub proof fn words_are_shown(
    s: TuiStateView,
    generation: u64,
    text: Seq<char>,
    before: Seq<char>,
    call: ToolCallView,
)
    requires
        s.active_generation == Some(generation),
        text.len() > 0,
    ensures
        event_step(
            s,
            RuntimeEventView::Agent { generation, event: AgentEventView::Text(text) },
        ).0.timeline == s.timeline.push(TimelineEntryView::Assistant(text)),
        event_step(
            TuiStateView {
                timeline: s.timeline.push(TimelineEntryView::Assistant(before)),
                ..s
            },
            RuntimeEventView::Agent { generation, event: AgentEventView::TextDelta(text) },
        ).0.timeline == s.timeline.push(TimelineEntryView::Assistant(before + text)),
        s.timeline.len() == 0 ==> event_step(
            s,
            RuntimeEventView::Agent { generation, event: AgentEventView::TextDelta(text) },
        ).0.timeline == seq![TimelineEntryView::Assistant(text)],
        event_step(
            TuiStateView {
                timeline: s.timeline.push(TimelineEntryView::Reasoning(before)),
                ..s
            },
            RuntimeEventView::Agent { generation, event: AgentEventView::ReasoningDelta(text) },
        ).0.timeline == s.timeline.push(TimelineEntryView::Reasoning(before + text)),
        event_step(
            s,
            RuntimeEventView::Agent { generation, event: AgentEventView::ToolStarted(call) },
        ).0.timeline == s.timeline.push(
            TimelineEntryView::Tool {
                id: call.id,
                name: call.name,
                arguments: call.arguments,
                state: ToolStateView::Running,
            },
        ),
{
    reveal(agent_told);
    let written = s.timeline.push(TimelineEntryView::Assistant(before));
    assert(written.drop_last() =~= s.timeline);
    let thought = s.timeline.push(TimelineEntryView::Reasoning(before));
    assert(thought.drop_last() =~= s.timeline);
    if s.timeline.len() == 0 {
        assert(s.timeline.push(TimelineEntryView::Assistant(text)) =~= seq![
            TimelineEntryView::Assistant(text),
        ]);
    }
}

/// A call that is done shows what it gave, in its own place.
pub proof fn results_are_shown(
    entries: Seq<TimelineEntryView>,
    at: int,
    success: bool,
    output: Seq<char>,
)
    requires
        0 <= at < entries.len(),
        entries[at] is Tool,
        forall|k: int|
            at < k < entries.len() ==> !((#[trigger] entries[k]) is Tool && entries[k]->Tool_id
                == entries[at]->Tool_id),
    ensures
        ({
            let after = with_result(entries, entries[at]->Tool_id, success, output);
            &&& after.len() == entries.len()
            &&& after[at] is Tool && after[at]->Tool_id == entries[at]->Tool_id
                && after[at]->Tool_name == entries[at]->Tool_name && after[at]->Tool_state == (
            ToolStateView::Complete { success, output })
        }),
    decreases entries.len(),
{
    let id = entries[at]->Tool_id;
    let after = with_result(entries, id, success, output);
    if at < entries.len() - 1 {
        let shorter = entries.drop_last();
        assert(!(entries[entries.len() - 1] is Tool && entries[entries.len() - 1]->Tool_id == id));
        assert forall|k: int| at < k < shorter.len() implies !((#[trigger] shorter[k]) is Tool
            && shorter[k]->Tool_id == id) by {
            assert(shorter[k] == entries[k]);
        }
        results_are_shown(shorter, at, success, output);
        assert(after =~= with_result(shorter, id, success, output).push(entries.last()));
    }
}

/// The end of a call is shown where the call stands.
pub proof fn ends_of_calls_are_shown(
    s: TuiStateView,
    generation: u64,
    call: ToolCallView,
    result: ToolResultView,
)
    requires
        s.active_generation == Some(generation),
    ensures
        event_step(
            s,
            RuntimeEventView::Agent {
                generation,
                event: AgentEventView::ToolFinished { call, result },
            },
        ).0.timeline == with_result(s.timeline, call.id, result.success, result.output),
{
    reveal(agent_told);
}

/// A question whether a call may run is put to the user, and the answer goes to who asked.
pub proof fn approvals_are_put_and_answered(
    s: TuiStateView,
    generation: u64,
    call: ToolCallView,
    reason: Seq<char>,
    reply: u64,
    now: u64,
    id: Seq<char>,
)
    requires
        s.active_generation == Some(generation),
    ensures
        ({
            let asked = event_step(
                s,
                RuntimeEventView::Approval { generation, call, reason, reply },
            ).0;
            let yes = key_step(asked, plain(KeyCode::Char('y')), now, id);
            let no = key_step(asked, plain(KeyCode::Char('n')), now, id);
            &&& asked.pending_approval matches Some(pending) && pending.call == call
                && pending.reason == reason && pending.reply == reply
            &&& yes.1 == seq![TuiActionView::AnswerApproval { reply, approved: true }]
            &&& yes.0.pending_approval is None
            &&& no.1 == seq![TuiActionView::AnswerApproval { reply, approved: false }]
            &&& no.0.pending_approval is None
        }),
{
    reveal(approval_asked);
    reveal(approval_step);
}

/// Questions are put one after the other from the first; the option that is chosen is the answer
/// to the question, and the last answer sends them all.
pub proof fn questions_are_put_and_answered(
    s: TuiStateView,
    generation: u64,
    request: UserInputRequestView,
    reply: u64,
    pending: PendingUserInputView,
    other: Seq<char>,
)
    requires
        has_question(pending),
        pending.other_editor is None,
        pending.option_index < option_count(pending),
    ensures
        s.active_generation == Some(generation) ==> (event_step(
            s,
            RuntimeEventView::UserInput { generation, request, reply },
        ).0.pending_user_input matches Some(asked) && asked.request == request
            && asked.question_index == 0 && asked.reply == reply && asked.answers.len() == 0),
        ({
            let question = pending.request.questions[pending.question_index as int];
            let answer = question.options[pending.option_index as int].label;
            match question_key(pending, KeyCode::Enter) {
                AnsweringView::Waiting(next) => lookup(next.answers, question.id) == Some(answer)
                    && (other != question.id ==> lookup(next.answers, other) == lookup(
                    pending.answers,
                    other,
                )) && next.reply == pending.reply,
                AnsweringView::Answered(done) => lookup(done.answers, question.id) == Some(answer)
                    && done.reply == pending.reply,
                AnsweringView::Cancelled(_) => false,
            }
        }),
        question_key(pending, KeyCode::Esc) == AnsweringView::Cancelled(pending.reply),
{
    reveal(questions_asked);
    reveal(question_key);
    let question = pending.request.questions[pending.question_index as int];
    let answer = question.options[pending.option_index as int].label;
    crate::table::put_is_found(pending.answers, question.id, answer, other);
}

/// An answer in the user's own words is taken trimmed; the answers are sent to who asked.
pub proof fn own_words_are_answers(s: TuiStateView, pending: PendingUserInputView)
    requires
        s.pending_user_input == Some(pending),
        has_question(pending),
        pending.other_editor is Some,
        trimmed(pending.other_editor->0.text()).len() > 0,
        pending.question_index + 1 == pending.request.questions.len(),
    ensures
        ({
            let (next, actions) = questions_step(s, KeyCode::Enter);
            let question = pending.request.questions[pending.question_index as int];
            &&& next.pending_user_input is None
            &&& actions.len() == 1 && actions[0] is AnswerQuestions
                && actions[0]->AnswerQuestions_reply == pending.reply && lookup(
                actions[0]->answers,
                question.id,
            ) == Some(trimmed(pending.other_editor->0.text()))
        }),
{
    reveal(questions_step);
    reveal(question_key);
    let question = pending.request.questions[pending.question_index as int];
    crate::table::put_is_found(
        pending.answers,
        question.id,
        trimmed(pending.other_editor->0.text()),
        question.id,
    );
}

proof fn defaults_hold(questions: Seq<UserInputQuestionView>, i: int)
    requires
        0 <= i < questions.len(),
        questions[i].options.len() > 0,
        forall|k: int| i < k < questions.len() ==> (#[trigger] questions[k]).id != questions[i].id,
    ensures
        lookup(default_answers(questions), questions[i].id) == Some(questions[i].options[0].label),
    decreases questions.len(),
{
    let before = default_answers(questions.drop_last());
    let last = questions.last();
    if last.options.len() > 0 {
        crate::table::put_is_found(before, last.id, last.options[0].label, questions[i].id);
    }
    if i < questions.len() - 1 {
        assert(last == questions[questions.len() - 1]);
        defaults_hold(questions.drop_last(), i);
    }
}

/// Where nobody answers, the first option of a question is its answer.
pub proof fn first_options_are_the_default(questions: Seq<UserInputQuestionView>, i: int)
    requires
        0 <= i < questions.len(),
        questions[i].options.len() > 0,
        forall|k: int| i < k < questions.len() ==> (#[trigger] questions[k]).id != questions[i].id,
    ensures
        lookup(default_answers(questions), questions[i].id) == Some(questions[i].options[0].label),
{
    defaults_hold(questions, i);
}

/// The end of a turn brings its session, which is saved; then its error is shown, or the loop
/// goes on.
pub proof fn ends_of_turns_are_saved(
    s: TuiStateView,
    generation: u64,
    session: SessionView,
    error: Seq<char>,
)
    requires
        s.active_generation == Some(generation),
    ensures
        ({
            let well = event_step(
                s,
                RuntimeEventView::TurnFinished { generation, session, error: None },
            );
            let badly = event_step(
                s,
                RuntimeEventView::TurnFinished { generation, session, error: Some(error) },
            );
            let shown = outcome_step(
                badly.0,
                OutcomeView::SessionSaved {
                    after: AfterSaveView::TurnEnd(Some(error)),
                    saved: Ok(()),
                },
            );
            let ready = outcome_step(
                well.0,
                OutcomeView::SessionSaved { after: AfterSaveView::TurnEnd(None), saved: Ok(()) },
            );
            &&& well.0.session == session && badly.0.session == session
            &&& well.1.last() == TuiActionView::SaveSession(AfterSaveView::TurnEnd(None))
            &&& badly.1.last() == TuiActionView::SaveSession(AfterSaveView::TurnEnd(Some(error)))
            &&& shown.0.timeline.last() == (TimelineEntryView::Notice {
                kind: NoticeKind::Error,
                text: error,
            })
            &&& ready.0.status == "Ready"@ && (ready.0.loop_continuation_pending <==> (
            session.loop_state is Some && session.loop_state->0.status == LoopStatus::Active))
            &&& ready.0.timeline == s.timeline
        }),
{
    reveal(turn_ended);
    reveal(turn_saved);
}

/// When nothing runs, the message that waits longest starts the next turn; with none waiting, a
/// loop goes on; else nothing happens.
pub proof fn waiting_messages_go_first(s: TuiStateView)
    requires
        !s.busy,
        !s.auto_config_busy,
        s.pending_approval is None,
    ensures
        ({
            let (next, actions) = outcome_step(s, OutcomeView::NothingRuns);
            &&& s.queue.len() > 0 ==> actions.contains(
                TuiActionView::PrepareTurn { prompt: s.queue[0], continuation: false },
            ) && next.queue == s.queue.skip(1)
            &&& s.queue.len() == 0 && s.loop_continuation_pending ==> actions.len() == 1
                && actions[0] is PrepareTurn && actions[0]->PrepareTurn_continuation
                && !next.loop_continuation_pending
            &&& s.queue.len() == 0 && !s.loop_continuation_pending ==> actions.len() == 0 && next
                == s
        }),
{
    if s.queue.len() > 0 {
        assert(outcome_step(s, OutcomeView::NothingRuns).1[1] == (TuiActionView::PrepareTurn {
            prompt: s.queue[0],
            continuation: false,
        }));
    }
}

/// Messages that a turn took leave the queue from its front and are shown as the user's.
pub proof fn taken_messages_leave_the_queue(
    s: TuiStateView,
    generation: u64,
    message: Seq<char>,
    rest: Seq<Seq<char>>,
)
    requires
        s.active_generation == Some(generation),
    ensures
        ({
            let waiting = TuiStateView { queue: seq![message] + rest, ..s };
            let next = event_step(
                waiting,
                RuntimeEventView::Agent {
                    generation,
                    event: AgentEventView::QueuedInputAccepted(seq![message]),
                },
            ).0;
            &&& next.queue == rest
            &&& next.timeline == s.timeline.push(TimelineEntryView::User(message))
        }),
{
    reveal(agent_told);
    let queue = seq![message] + rest;
    let taken = seq![message];
    assert(taken.drop_last().len() == 0);
    assert(queue_after(queue, taken.drop_last()) == queue);
    assert(queue.skip(1) =~= rest);
    let shown = crate::tui_events::user_entries(taken);
    assert(s.timeline + shown =~= s.timeline.push(TimelineEntryView::User(message)));
}

/// A side question is asked with its own text beside the running turn, and what comes back is
/// shown apart.
pub proof fn side_questions_are_asked(
    s: TuiStateView,
    prompt: Seq<char>,
    id: Seq<char>,
    text: Seq<char>,
)
    requires
        text.len() > 0,
    ensures
        !s.side_busy && !is_blank(prompt) ==> side_requested(s, prompt).1 == seq![
            TuiActionView::PrepareSide(prompt),
        ],
        s.side_busy ==> side_requested(s, prompt).1.len() == 0,
        outcome_step(s, OutcomeView::SidePrepared { prompt, id, failure: None }).0.timeline
            == s.timeline.push(TimelineEntryView::SideUser(prompt)),
        ({
            let actions = outcome_step(s, OutcomeView::SidePrepared { prompt, id, failure: None }).1;
            actions.len() == 1 && actions[0] is RunSide && actions[0]->RunSide_prompt == prompt
                && actions[0]->session.id == id
        }),
        ({
            let shown = event_step(
                TuiStateView {
                    timeline: s.timeline.push(TimelineEntryView::SideUser(prompt)),
                    ..s
                },
                RuntimeEventView::SideAgent(AgentEventView::Text(text)),
            ).0.timeline;
            shown == s.timeline.push(TimelineEntryView::SideUser(prompt)).push(
                TimelineEntryView::SideAssistant(text),
            )
        }),
{
    reveal(side_shown);
}

// ---------------------------------------------------------------------------
// Commands
// ---------------------------------------------------------------------------

/// A command is split at its first blank into its name and what it is about.
pub proof fn commands_are_split(name: Seq<char>, argument: Seq<char>)
    requires
        !name.contains(' '),
    ensures
        head_word(name) == name,
        tail_text(name).len() == 0,
        head_word(name.push(' ') + argument) == name,
        tail_text(name.push(' ') + argument) == argument,
{
    crate::text_laws::cuts_are_at_the_first_place(name, ' ');
    if let Some((head, tail)) = crate::pieces::cut_once(name, ' ') {
        let again = head.push(' ') + tail;
        assert(again[head.len() as int] == ' ');
        assert(name.contains(' '));
    }
    let text = name.push(' ') + argument;
    crate::text_laws::cuts_are_at_the_first_place(text, ' ');
    assert(text[name.len() as int] == ' ');
    assert(text.contains(' '));
    if let Some((head, tail)) = crate::pieces::cut_once(text, ' ') {
        let again = head.push(' ') + tail;
        let h = head.len() as int;
        let n = name.len() as int;
        assert(again == text);
        if h < n {
            assert(again[h] == ' ');
            assert(text[h] == name[h]);
            assert(name.contains(' '));
        } else if h > n {
            assert(again[n] == head[n]);
            assert(head.contains(' '));
        }
        assert(head =~= again.take(h));
        assert(name =~= text.take(n));
        assert(tail =~= again.skip(h + 1));
        assert(argument =~= text.skip(n + 1));
    }
}

/// Each command of the line does what it is named after.
pub proof fn commands_do_what_they_say(s: TuiStateView, command: Seq<char>, id: Seq<char>)
    requires
        !s.busy,
    ensures
        ({
            let name = head_word(command);
            let (next, actions) = slash_step(s, command, id);
            &&& name == "/help"@ ==> next.overlay is Some && next.overlay->0.kind
                == OverlayKind::Help && actions.len() == 0
            &&& name == "/history"@ ==> next.overlay is Some && next.overlay->0.kind
                == OverlayKind::History
            &&& name == "/clear"@ ==> next.timeline.len() == 0 && next.session == s.session
            &&& name == "/quit"@ || name == "/exit"@ ==> next.quit
            &&& name == "/new"@ ==> next.session.id == id && next.session.messages.len() == 0
                && next.timeline.len() == 0 && next.session.model == s.session.model
            &&& name == "/model"@ && tail_text(command).len() > 0 ==> actions == seq![
                TuiActionView::ResolveModel {
                    selector: tail_text(command),
                    purpose: ModelUse::Switch,
                },
            ]
            &&& name == "/status"@ ==> actions == seq![TuiActionView::MeasureContext]
            &&& name == "/mcp"@ ==> actions == seq![
                TuiActionView::ReadSettings(Some(SettingsTab::Mcp)),
            ]
            &&& name == "/skills"@ ==> actions == seq![
                TuiActionView::ReadSettings(Some(SettingsTab::Skills)),
            ]
            &&& name == "/compact"@ && s.session.messages.len() > 0 ==> actions == seq![
                TuiActionView::PrepareCompaction,
            ]
        }),
{
    reveal_strlit("/model");
    reveal_strlit("/models");
    reveal_strlit("/history");
    reveal_strlit("/sessions");
    reveal_strlit("/status");
    reveal_strlit("/compact");
    reveal_strlit("/mcp");
    reveal_strlit("/skill");
    reveal_strlit("/skills");
    reveal_strlit("/memory");
    reveal_strlit("/plan");
    reveal_strlit("/loop");
    reveal_strlit("/new");
    reveal_strlit("/catalog");
    reveal_strlit("/settings");
    reveal_strlit("/help");
    reveal_strlit("/clear");
    reveal_strlit("/quit");
    reveal_strlit("/exit");
    assert("/model"@.len() == 6 && "/models"@.len() == 7);
    assert("/history"@.len() == 8 && "/sessions"@.len() == 9);
    assert("/status"@.len() == 7 && "/compact"@.len() == 8);
    assert("/mcp"@.len() == 4 && "/skill"@.len() == 6);
    assert("/skills"@.len() == 7 && "/memory"@.len() == 7);
    assert("/plan"@.len() == 5 && "/loop"@.len() == 5);
    assert("/new"@.len() == 4 && "/catalog"@.len() == 8);
    assert("/settings"@.len() == 9 && "/help"@.len() == 5);
    assert("/clear"@.len() == 6 && "/quit"@.len() == 5);
    assert("/exit"@.len() == 5 && "/catalog"@[1] == 'c');
    assert("/catalog"@[2] == 'a' && "/clear"@[1] == 'c');
    assert("/compact"@[1] == 'c' && "/compact"@[2] == 'o');
    assert("/exit"@[1] == 'e' && "/help"@[1] == 'h');
    assert("/history"@[1] == 'h' && "/loop"@[1] == 'l');
    assert("/mcp"@[1] == 'm' && "/memory"@[1] == 'm');
    assert("/memory"@[2] == 'e' && "/model"@[1] == 'm');
    assert("/models"@[1] == 'm' && "/models"@[2] == 'o');
    assert("/new"@[1] == 'n' && "/plan"@[1] == 'p');
    assert("/quit"@[1] == 'q' && "/sessions"@[3] == 's');
    assert("/settings"@[3] == 't' && "/skill"@[1] == 's');
    assert("/skills"@[1] == 's' && "/skills"@[2] == 'k');
    assert("/status"@[1] == 's' && "/status"@[2] == 't');
    reveal(model_requested);
    reveal(tab_requested);
    reveal(session_begun);
    reveal(timeline_cleared);
    reveal(leaving);
}

/// The memory is asked for what the command names.
pub proof fn memory_is_asked_as_told(argument: Seq<char>, id: Seq<char>)
    requires
        !is_blank(tail_text(argument)),
    ensures
        ({
            let word = lower(head_word(argument));
            let value = trimmed(tail_text(argument));
            &&& word == "delete"@ ==> memory_wish(argument, id) == Ok::<
                MemoryRequestView,
                Seq<char>,
            >(MemoryRequestView::Delete(value))
            &&& word == "show"@ ==> memory_wish(argument, id) == Ok::<
                MemoryRequestView,
                Seq<char>,
            >(MemoryRequestView::Show(value))
            &&& word == "search"@ ==> (memory_wish(argument, id) matches Ok(
                MemoryRequestView::Search { query, .. },
            ) && query == value)
            &&& word == "add"@ ==> (memory_wish(argument, id) matches Ok(
                MemoryRequestView::Save { content, .. },
            ) && content == value)
            &&& word == "list"@ ==> memory_wish(argument, id) == Ok::<
                MemoryRequestView,
                Seq<char>,
            >(MemoryRequestView::List)
        }),
{
    reveal_strlit("list");
    reveal_strlit("add");
    reveal_strlit("delete");
    reveal_strlit("search");
    reveal_strlit("show");
    reveal_strlit("refresh");
    assert("list"@.len() == 4 && "add"@.len() == 3);
    assert("delete"@.len() == 6 && "search"@.len() == 6);
    assert("show"@.len() == 4 && "refresh"@.len() == 7);
    assert("delete"@[0] == 'd' && "list"@[0] == 'l');
    assert("search"@[0] == 's' && "show"@[0] == 's');
    reveal_strlit("");
    assert(""@.len() == 0);
}

/// A loop is made with its objective and goes on at once; it is paused, resumed and cleared by
/// name.
pub proof fn loops_are_steered(s: TuiStateView, objective: Seq<char>)
    ensures
        !is_blank(objective) && s.session.loop_state is None ==> (loop_created(
            s,
            objective,
        ).0.session.loop_state matches Some(state) && state.objective == trimmed(objective)
            && state.status == LoopStatus::Active && state.tokens_used == 0)
            && loop_created(s, objective).0.loop_continuation_pending,
        s.session.loop_state is Some ==> (loop_step(s, "pause"@).0.session.loop_state matches Some(
            state,
        ) && state.status == LoopStatus::Paused && state.objective
            == s.session.loop_state->0.objective),
        s.session.loop_state is Some ==> (loop_step(s, "resume"@).0.session.loop_state matches Some(
            state,
        ) && state.status == LoopStatus::Active) && loop_step(
            s,
            "resume"@,
        ).0.loop_continuation_pending,
        loop_step(s, "clear"@).0.session.loop_state is None,
{
    reveal(loop_step);
    reveal(loop_created);
    reveal(loop_set);
    reveal(loop_cleared);
    reveal_strlit("pause");
    reveal_strlit("resume");
    reveal_strlit("clear");
    reveal_strlit("edit");
    assert("pause"@.len() == 5 && "resume"@.len() == 6);
    assert("clear"@.len() == 5 && "edit"@.len() == 4);
    assert("clear"@[0] == 'c' && "pause"@[0] == 'p');
    assert(lower("pause"@) =~= "pause"@);
    assert(lower("resume"@) =~= "resume"@);
    assert(lower("clear"@) =~= "clear"@);
    assert(lower("edit"@) =~= "edit"@);
}

/// A model that was resolved is the one that the session uses from then on.
pub proof fn resolved_models_are_used(
    s: TuiStateView,
    purpose: ModelUse,
    models: Seq<crate::cli::ModelChoiceView>,
    provider: ResolvedModelView,
)
    ensures
        ({
            let (next, actions) = outcome_step(
                s,
                OutcomeView::ModelResolved { purpose, models, provider },
            );
            &&& next.session.provider_id == provider.id && next.session.model == provider.model
            &&& next.session.messages == s.session.messages
            &&& actions.len() == 1 && actions[0] is SaveSession
        }),
{
}

// ---------------------------------------------------------------------------
// Lists
// ---------------------------------------------------------------------------

/// A list shows exactly the entries that are looked for, in order.
pub proof fn lists_show_what_is_looked_for(count: nat, wanted: spec_fn(int) -> bool, p: int)
    ensures
        matching(count, wanted).contains(p) <==> 0 <= p < count && wanted(p),
        forall|i: int, j: int|
            0 <= i < j < matching(count, wanted).len() ==> (#[trigger] matching(count, wanted)[i])
                < (#[trigger] matching(count, wanted)[j]),
        forall|i: int|
            0 <= i < matching(count, wanted).len() ==> 0 <= (#[trigger] matching(count, wanted)[i])
                < count,
    decreases count,
{
    if count > 0 {
        let fewer = (count - 1) as nat;
        lists_show_what_is_looked_for(fewer, wanted, p);
        let before = matching(fewer, wanted);
        let all = matching(count, wanted);
        if wanted(count - 1) {
            assert(all =~= before.push(count - 1));
            assert(all[all.len() - 1] == count - 1);
            if before.contains(p) {
                let k = choose|k: int| 0 <= k < before.len() && before[k] == p;
                assert(all[k] == p);
            }
            if all.contains(p) && p != count - 1 {
                let k = choose|k: int| 0 <= k < all.len() && all[k] == p;
                assert(before[k] == p);
            }
        }
    }
}

/// The session that is marked in the list of sessions is the one that is loaded, or asked about
/// before it is deleted; the model that is marked is the one that is resolved.
pub proof fn marked_entries_are_chosen(s: TuiStateView, id: Seq<char>)
    requires
        s.overlay is Some,
        !s.busy,
        s.overlay->0.selected < overlay_items(s, s.overlay->0).len(),
    ensures
        ({
            let overlay = s.overlay->0;
            let at = overlay_items(s, overlay)[overlay.selected as int];
            &&& overlay.kind == OverlayKind::History ==> choice_step(s, id).1 == seq![
                TuiActionView::LoadSession(s.sessions[at].id),
            ] && session_marked(s).confirm_delete == Some(
                DeleteTargetView::Session(s.sessions[at].id),
            )
            &&& overlay.kind == OverlayKind::Models ==> choice_step(s, id).1 == seq![
                TuiActionView::ResolveModel {
                    selector: s.models[at].selector,
                    purpose: ModelUse::Choose,
                },
            ]
        }),
{
    reveal(history_step);
    reveal(models_step);
    reveal(session_marked);
}

/// The mark moves by as much as asked, within the list; a changed query begins at its top.
pub proof fn marks_move(s: TuiStateView, query: EditorView)
    requires
        s.overlay is Some,
        overlay_items(s, s.overlay->0).len() > 0,
        overlay_items(s, s.overlay->0).len() <= usize::MAX,
    ensures
        ({
            let at = s.overlay->0.selected;
            let count = overlay_items(s, s.overlay->0).len();
            &&& at + 1 < count ==> selection_moved(s, 1).overlay->0.selected == at + 1
            &&& 0 < at < count ==> selection_moved(s, -1).overlay->0.selected == at - 1
            &&& at == 0 ==> selection_moved(s, -1).overlay->0.selected == 0
            &&& query_edited(s, query).overlay->0.selected == 0 && query_edited(
                s,
                query,
            ).overlay->0.query == query
        }),
{
    reveal(selection_moved);
    reveal(query_edited);
}

/// What is confirmed is deleted, and only that; what is refused stays.
pub proof fn confirmed_deletions_are_made(s: TuiStateView, name: Seq<char>)
    ensures
        s.confirm_delete == Some(DeleteTargetView::Mcp(name)) ==> ({
            let actions = confirmation_step(s, KeyCode::Enter).1;
            actions.len() == 1 && actions[0] is ChangeSettings && actions[0]->change
                == SettingsChangeView::RemoveMcp(name)
        }),
        s.confirm_delete == Some(DeleteTargetView::Skill(name)) ==> ({
            let actions = confirmation_step(s, KeyCode::Enter).1;
            actions.len() == 1 && actions[0] is ChangeSettings && actions[0]->change
                == SettingsChangeView::RemoveSkill(name)
        }),
        s.confirm_delete == Some(DeleteTargetView::Session(name)) && name != s.session.id
            ==> confirmation_step(s, KeyCode::Enter).1 == seq![TuiActionView::DeleteSession(name)],
        confirmation_step(s, KeyCode::Esc).1.len() == 0,
        confirmation_step(s, KeyCode::Esc).0.confirm_delete is None,
        confirmation_step(s, KeyCode::Char('n')).1.len() == 0,
{
    reveal(confirmation_step);
    reveal(deletion_step);
}

/// A server or a skill is switched to the other state under its own name, and is asked about
/// before it is removed.
pub proof fn marked_settings_are_changed(
    s: TuiStateView,
    server: ConfiguredMcpView,
    skill: InstalledSkillView,
)
    ensures
        chosen_mcp(s) is Some && chosen_mcp(s)->0.configured == Some(server) ==> ({
            let actions = server_toggled(s).1;
            &&& actions.len() == 1 && actions[0] is ChangeSettings && actions[0]->change == (
            SettingsChangeView::EnableMcp { name: server.name, enabled: !server.enabled })
            &&& server_deletion_asked(s).confirm_delete == Some(DeleteTargetView::Mcp(server.name))
        }),
        chosen_skill(s) is Some && chosen_skill(s)->0.installed == Some(skill) ==> ({
            let actions = skill_toggled(s).1;
            &&& actions.len() == 1 && actions[0] is ChangeSettings && actions[0]->change == (
            SettingsChangeView::EnableSkill { name: skill.name, enabled: !skill.enabled })
            &&& skill_deletion_asked(s).confirm_delete == Some(
                DeleteTargetView::Skill(skill.name),
            )
            &&& !s.settings_busy ==> skill_update(s).1.len() == 1 && skill_update(s).1[0]
                is UpdateSkill && skill_update(s).1[0]->UpdateSkill_name == skill.name
        }),
{
    reveal(server_toggled);
    reveal(server_deletion_asked);
    reveal(skill_toggled);
    reveal(skill_deletion_asked);
    reveal(skill_update);
}

proof fn values_of_fields(fields: Seq<FormFieldView>, i: int)
    requires
        0 <= i < fields.len(),
        forall|k: int| i < k < fields.len() ==> (#[trigger] fields[k]).key != fields[i].key,
    ensures
        lookup(form_values(fields), fields[i].key) == Some(fields[i].editor.text()),
    decreases fields.len(),
{
    let before = form_values(fields.drop_last());
    crate::table::put_is_found(
        before,
        fields.last().key,
        fields.last().editor.text(),
        fields[i].key,
    );
    if i < fields.len() - 1 {
        assert(fields.last() == fields[fields.len() - 1]);
        values_of_fields(fields.drop_last(), i);
    }
}

/// A form asks for each parameter of a server, and what was written for a parameter is what the
/// server is set up with.
pub proof fn forms_hand_on_their_fields(
    s: TuiStateView,
    entry: McpCatalogEntryView,
    i: int,
)
    requires
        s.mcp_form is Some,
        s.mcp_form->0.selected + 1 >= s.mcp_form->0.fields.len(),
        0 <= i < s.mcp_form->0.fields.len(),
        forall|k: int|
            i < k < s.mcp_form->0.fields.len() ==> (#[trigger] s.mcp_form->0.fields[k]).key
                != s.mcp_form->0.fields[i].key,
    ensures
        ({
            let form = s.mcp_form->0;
            let actions = server_key_step(s, KeyCode::Enter).1;
            &&& actions.len() == 1 && actions[0] is ConfigureMcp && actions[0]->ConfigureMcp_id
                == form.entry.id
            &&& lookup(actions[0]->values, form.fields[i].key) == Some(
                form.fields[i].editor.text(),
            )
        }),
        server_form(entry).fields.len() == entry.required_parameters.len(),
        forall|k: int|
            0 <= k < entry.required_parameters.len() ==> (#[trigger] server_form(
                entry,
            ).fields[k]).key == entry.required_parameters[k].key,
{
    reveal(server_key_step);
    values_of_fields(s.mcp_form->0.fields, i);
}

proof fn configured_is_listed(list: Seq<ConfiguredMcpView>, name: Seq<char>)
    ensures
        match configured_for(list, name) {
            Some(item) => list.contains(item) && lower(item.name) == lower(name),
            None => forall|i: int|
                0 <= i < list.len() ==> lower((#[trigger] list[i]).name) != lower(name),
        },
    decreases list.len(),
{
    if list.len() > 0 {
        let rest = list.skip(1);
        if lower(list[0].name) == lower(name) {
            assert(list.contains(list[0]));
        } else {
            configured_is_listed(rest, name);
            match configured_for(rest, name) {
                Some(item) => {
                    let j = choose|j: int| 0 <= j < rest.len() && rest[j] == item;
                    assert(list[j + 1] == item);
                },
                None => {
                    assert forall|i: int| 0 <= i < list.len() implies lower(
                        (#[trigger] list[i]).name,
                    ) != lower(name) by {
                        if i > 0 {
                            assert(rest[i - 1] == list[i]);
                        }
                    }
                },
            }
        }
    }
}

/// The servers of the catalog are all listed, each with its own setup where it has one.
pub proof fn catalog_servers_are_listed(
    entries: Seq<McpCatalogEntryView>,
    list: Seq<ConfiguredMcpView>,
    i: int,
)
    requires
        0 <= i < entries.len(),
    ensures
        mcp_items(entries, list)[i].entry == Some(entries[i]),
        match mcp_items(entries, list)[i].configured {
            Some(item) => list.contains(item) && lower(item.name) == lower(entries[i].id),
            None => forall|k: int|
                0 <= k < list.len() ==> lower((#[trigger] list[k]).name) != lower(entries[i].id),
        },
{
    configured_is_listed(list, entries[i].id);
}

/// The provider that is marked is put to use; one that is deleted leaves the others.
pub proof fn marked_providers_are_used(s: TuiStateView, id: Seq<char>, other: Seq<char>)
    requires
        s.settings is Some,
    ensures
        crate::provider_form::chosen_provider(s) == Some(id) ==> ({
            let actions = provider_activated(s).1;
            actions.len() == 1 && actions[0] is WriteProviders && actions[0]->document.active == id
                && actions[0]->document.providers == s.settings->0.document.providers
        }),
        s.settings->0.document.providers.len() > 1 ==> ({
            let actions = provider_deleted(s, id).1;
            &&& actions.len() == 1 && actions[0] is WriteProviders
            &&& lookup(actions[0]->document.providers, id) is None
            &&& other != id ==> lookup(actions[0]->document.providers, other) == lookup(
                s.settings->0.document.providers,
                other,
            )
            &&& s.settings->0.document.active != id ==> actions[0]->document.active
                == s.settings->0.document.active
        }),
{
    reveal(provider_activated);
    reveal(provider_deleted);
    removals_touch_one_key(s.settings->0.document.providers, id, other);
}

/// A provider that is saved from its form replaces the one it was made from and leaves the
/// others; a new one may not take a name that is in use.
pub proof fn saved_forms_replace_their_provider(
    document: ProviderDocumentView,
    original: Seq<char>,
    id: Seq<char>,
    settings: ProviderSettingsView,
    other: Seq<char>,
)
    ensures
        document_saved(document, Some(original), id, settings) matches Ok(after) && lookup(
            after.providers,
            id,
        ) == Some(settings) && (original != id ==> lookup(after.providers, original) is None) && (
        other != id && other != original ==> lookup(after.providers, other) == lookup(
            document.providers,
            other,
        )) && (document.active == original && id.len() > 0 ==> after.active == id) && (
        document.active != original && document.active.len() > 0 ==> after.active
            == document.active),
        lookup(document.providers, id) is Some ==> document_saved(document, None, id, settings)
            is Err,
        lookup(document.providers, id) is None ==> document_saved(document, None, id, settings)
            is Ok,
{
    let others = crate::table::without(document.providers, original);
    removals_touch_one_key(document.providers, original, other);
    crate::table::put_is_found(others, id, settings, other);
    crate::table::put_is_found(others, id, settings, original);
}

/// A switch of a form is read from the usual words for on and off.
pub proof fn switches_are_read(value: Seq<char>)
    ensures
        lower(trimmed(value)) == "true"@ ==> given_switch(value) == Some(true),
        lower(trimmed(value)) == "yes"@ ==> given_switch(value) == Some(true),
        lower(trimmed(value)) == "false"@ ==> given_switch(value) == Some(false),
        lower(trimmed(value)) == "no"@ ==> given_switch(value) == Some(false),
        trimmed(value).len() == 0 ==> given_switch(value) is None,
{
    reveal_strlit("true");
    reveal_strlit("yes");
    reveal_strlit("1");
    reveal_strlit("on");
    reveal_strlit("false");
    reveal_strlit("no");
    reveal_strlit("0");
    reveal_strlit("off");
    assert("true"@.len() == 4 && "yes"@.len() == 3);
    assert("1"@.len() == 1 && "on"@.len() == 2);
    assert("false"@.len() == 5 && "no"@.len() == 2);
    assert("0"@.len() == 1 && "off"@.len() == 3);
    assert("0"@[0] == '0' && "1"@[0] == '1');
    assert("no"@[0] == 'n' && "off"@[0] == 'o');
    assert("on"@[0] == 'o' && "yes"@[0] == 'y');
    assert(lower(trimmed(value)).len() == trimmed(value).len());
}

// ---------------------------------------------------------------------------
// Resumed sessions
// ---------------------------------------------------------------------------

/// A session that is resumed is shown from its history: what the user and the model said, and
/// what calls gave; what is kept from the user is not shown.
pub proof fn histories_are_shown_again(
    messages: Seq<ChatMessageView>,
    message: ChatMessageView,
)
    ensures
        ({
            let before = replayed(messages).0;
            let after = replayed(messages.push(message)).0;
            &&& message.role == Role::User && !message.internal ==> after == before.push(
                TimelineEntryView::User(message.content),
            )
            &&& message.role == Role::User && message.internal ==> after == before
            &&& message.role == Role::Assistant && message.content.len() > 0 ==> after
                == before.push(TimelineEntryView::Assistant(message.content))
            &&& message.role == Role::System ==> after == before
            &&& message.role == Role::Tool ==> after.len() == before.len() + 1
                && after.drop_last() == before && after.last() is Tool && (
            message.tool_call_id is Some ==> after.last()->Tool_id == message.tool_call_id->0)
                && after.last()->Tool_state == (ToolStateView::Complete {
                success: starts_with(message.content, "success:"@),
                output: message.content,
            })
        }),
{
    assert(messages.push(message).drop_last() =~= messages);
    let before = replayed(messages).0;
    let after = replayed(messages.push(message)).0;
    if message.role == Role::Tool {
        assert(after.drop_last() =~= before);
    }
}

/// The list of sessions is replaced by the one that was read, and a failure is told; a mark stays
/// within a list.
pub proof fn read_lists_are_shown(
    s: TuiStateView,
    sessions: Seq<crate::search::SessionCardView>,
    error: Seq<char>,
    selected: usize,
    count: nat,
)
    ensures
        sessions_taken(s, Ok(sessions), false).sessions == sessions,
        sessions_taken(s, Err(error), false).timeline.last() == (TimelineEntryView::Notice {
            kind: NoticeKind::Error,
            text: error,
        }),
        sessions_taken(s, Err(error), false).sessions == s.sessions,
        selected < count ==> inside(selected, count) == selected,
        0 < count <= selected ==> inside(selected, count) == count - 1,
{
}

/// The rule for what may be done changes from one step to the next and comes round again.
pub proof fn rules_come_round(s: TuiStateView)
    requires
        !s.busy,
    ensures
        policy_cycled(s).policy != s.policy,
        policy_cycled(policy_cycled(s)).policy != s.policy,
        policy_cycled(policy_cycled(policy_cycled(s))).policy == s.policy,
{
}

// ---------------------------------------------------------------------------
// Answers of the memory
// ---------------------------------------------------------------------------

/// What the memory answers is added to the timeline: each entry that was listed or found by its
/// name, and one that was shown with what it says.
pub proof fn answers_of_the_memory_are_shown(
    s: TuiStateView,
    items: Seq<MemoryItemView>,
    i: int,
    name: Seq<char>,
    path: Seq<char>,
)
    requires
        0 <= i < items.len(),
    ensures
        ({
            let listed = memory_told(s, MemoryReplyView::Listed(items)).timeline;
            let found = memory_told(s, MemoryReplyView::Found(items)).timeline;
            let shown = memory_told(s, MemoryReplyView::Shown(items[i])).timeline;
            let saved = memory_told(s, MemoryReplyView::Saved { name, path }).timeline;
            &&& listed.len() == s.timeline.len() + 1 + items.len()
            &&& s.timeline.is_prefix_of(listed)
            &&& listed[s.timeline.len() + 1 + i] is Notice && starts_with(
                listed[s.timeline.len() + 1 + i]->Notice_text,
                items[i].name,
            )
            &&& found.len() == s.timeline.len() + items.len()
            &&& found[s.timeline.len() + i] is Notice && starts_with(
                found[s.timeline.len() + i]->Notice_text,
                items[i].name,
            )
            &&& shown.last() is Assistant && ends_with(
                shown.last()->Assistant_0,
                items[i].content,
            )
            &&& saved.last() is Notice && ends_with(saved.last()->Notice_text, path)
        }),
{
    let item = items[i];
    let listed = memory_told(s, MemoryReplyView::Listed(items)).timeline;
    let line = listed[s.timeline.len() + 1 + i]->Notice_text;
    assert(listed[s.timeline.len() + 1 + i] == crate::tui_commands::listed_entry(item));
    assert(line.take(item.name.len() as int) =~= item.name);
    let found = memory_told(s, MemoryReplyView::Found(items)).timeline;
    assert(found[s.timeline.len() + i] == crate::tui_commands::found_entry(item));
    let other = found[s.timeline.len() + i]->Notice_text;
    assert(other.take(item.name.len() as int) =~= item.name);
    let whole = crate::tui_commands::full_entry(item);
    assert(whole.skip(whole.len() - item.content.len()) =~= item.content);
    parts_are_contained("Saved "@ + name + " at "@, path, Seq::empty());
}

/// The state of a plan and of a loop is shown with what they are about.
pub proof fn plans_and_loops_are_shown(s: TuiStateView, plan: PlanView, state: LoopStateView)
    ensures
        s.session.plan is None ==> plan_shown(s).timeline.last() is Notice
            && plan_shown(s).timeline.last()->kind == NoticeKind::Warning,
        s.session.loop_state == Some(state) ==> loop_shown(s).timeline.last() is Notice && contains(
            loop_shown(s).timeline.last()->Notice_text,
            state.objective,
        ),
        s.session.loop_state is None ==> loop_shown(s).timeline.last() is Notice
            && loop_shown(s).timeline.last()->kind == NoticeKind::Warning,
        plan_shown(s).timeline.len() == s.timeline.len() + 1,
        loop_shown(s).timeline.len() == s.timeline.len() + 1,
        plan_shown(s).session == s.session,
{
    reveal(plan_shown);
    reveal(loop_shown);
    let a = "Loop "@ + crate::cli::status_label(state.status) + ": "@;
    let b = " ("@ + decimal(state.tokens_used as nat) + " tokens, "@ + decimal(
        state.turns_completed as nat,
    ) + " turns)"@;
    parts_are_contained(a, state.objective, b);
    assert(a + state.objective + b =~= a + state.objective + " ("@ + decimal(
        state.tokens_used as nat,
    ) + " tokens, "@ + decimal(state.turns_completed as nat) + " turns)"@);
}

// ---------------------------------------------------------------------------
// Menus and settings
// ---------------------------------------------------------------------------

/// An entry of the menu does what the command of its name does.
pub proof fn menus_do_what_they_say(s: TuiStateView, id: Seq<char>)
    requires
        !s.busy,
    ensures
        menu_step(s, MenuAction::NewSession, id).0.session.id == id,
        menu_step(s, MenuAction::NewSession, id).0.timeline.len() == 0,
        menu_step(s, MenuAction::History, id).0.overlay matches Some(overlay) && overlay.kind
            == OverlayKind::History,
        menu_step(s, MenuAction::Models, id).0.overlay matches Some(overlay) && overlay.kind
            == OverlayKind::Models,
        menu_step(s, MenuAction::Catalog, id).0.overlay matches Some(overlay) && overlay.kind
            == OverlayKind::Catalog,
        menu_step(s, MenuAction::Help, id).0.overlay matches Some(overlay) && overlay.kind
            == OverlayKind::Help,
        menu_step(s, MenuAction::Quit, id).0.quit,
        menu_step(s, MenuAction::ClearTimeline, id).0.timeline.len() == 0,
        menu_step(s, MenuAction::Status, id).1 == seq![TuiActionView::MeasureContext],
        menu_step(s, MenuAction::Settings, id).1 == seq![TuiActionView::ReadSettings(None)],
        s.session.messages.len() > 0 ==> menu_step(s, MenuAction::Compact, id).1 == seq![
            TuiActionView::PrepareCompaction,
        ],
{
    reveal(session_begun);
    reveal(timeline_cleared);
    reveal(leaving);
}

/// The entry of the catalog that is marked is the one that is set up or installed.
pub proof fn marked_catalog_entries_are_taken(s: TuiStateView, id: Seq<char>)
    requires
        s.overlay is Some,
        s.overlay->0.kind == OverlayKind::Catalog,
    ensures
        ({
            let overlay = s.overlay->0;
            let servers = servers_found(s.mcp_entries, query_of(overlay));
            let skills = skills_found(s.skill_entries, query_of(overlay));
            let (next, actions) = choice_step(s, id);
            &&& overlay.catalog_tab == CatalogTab::Mcp && overlay.selected < servers.len() ==> ({
                let entry = s.mcp_entries[servers[overlay.selected as int]];
                &&& entry.required_parameters.len() == 0 ==> actions.len() == 1 && actions[0]
                    is ConfigureMcp && actions[0]->ConfigureMcp_id == entry.id
                &&& entry.required_parameters.len() > 0 ==> actions.len() == 0 && next.mcp_form
                    is Some && next.mcp_form->0.entry == entry
            })
            &&& overlay.catalog_tab == CatalogTab::Skills && s.catalog_busy is None
                && overlay.selected < skills.len() ==> actions == seq![
                TuiActionView::InstallSkill(
                    s.skill_entries[skills[overlay.selected as int]].id,
                ),
            ]
        }),
{
    reveal(catalog_step);
    reveal(crate::tui_overlays::server_form_opened);
    reveal(crate::tui_overlays::skill_install);
}

/// Settings that were read are shown as they were read; a failure is told.
pub proof fn read_settings_are_shown(
    s: TuiStateView,
    facts: SettingsFactsView,
    error: Seq<char>,
    servers: Seq<ConfiguredMcpView>,
)
    ensures
        outcome_step(
            s,
            OutcomeView::SettingsRead { tab: Some(SettingsTab::Skills), read: Ok(facts) },
        ).0.settings matches Some(settings) && settings.document == facts.document
            && settings.mcp_servers == facts.mcp_servers && settings.skills == facts.skills
            && settings.tab == SettingsTab::Skills && settings.provider_ids.len()
            == facts.document.providers.len(),
        s.overlay is None && s.settings is None ==> outcome_step(
            s,
            OutcomeView::SettingsRead { tab: None, read: Err(error) },
        ).0.timeline == s.timeline.push(
            TimelineEntryView::Notice { kind: NoticeKind::Error, text: error },
        ),
        s.settings is Some ==> (settings_refreshed(s, SettingsReadView::Mcp(servers)).settings
            matches Some(settings) && settings.mcp_servers == servers && settings.document
            == s.settings->0.document),
        settings_refreshed(s, SettingsReadView::Failed(error)).timeline == s.timeline.push(
            TimelineEntryView::Notice { kind: NoticeKind::Error, text: error },
        ),
{
}

/// The mark in the settings moves by one within its list, and another page begins at its top.
pub proof fn marks_in_settings_move(s: TuiStateView)
    requires
        s.settings is Some,
        item_count(s) <= usize::MAX,
    ensures
        ({
            let before = s.settings->0;
            let down = moved_in_settings(s, KeyCode::Down).settings->0;
            let up = moved_in_settings(s, KeyCode::Up).settings->0;
            let next = moved_in_settings(s, KeyCode::Tab).settings->0;
            &&& before.selected + 1 < item_count(s) ==> down.selected == before.selected + 1
            &&& before.selected > 0 ==> up.selected == before.selected - 1
            &&& before.selected == 0 ==> up.selected == 0
            &&& next.selected == 0 && next.tab != before.tab
            &&& down.tab == before.tab && down.document == before.document
        }),
{
    reveal(moved_in_settings);
}

/// A form of a provider opens with what is known of it; what is typed goes to the marked field
/// alone, and the form is left without a change.
pub proof fn forms_are_filled_and_edited(
    s: TuiStateView,
    settings: SettingsStateView,
    form: ProviderFormView,
    id: Seq<char>,
    character: char,
    i: int,
)
    requires
        s.settings == Some(settings),
        settings.form == Some(form),
        form.selected < form.fields.len(),
        0 <= i < form.fields.len(),
        i != form.selected,
    ensures
        ({
            let opened = form_begun(settings, Some(id)).form->0;
            let typed = form_key_step(s, plain(KeyCode::Char(character))).0.settings->0.form;
            let left = form_key_step(s, plain(KeyCode::Esc)).0.settings->0;
            let at = form.selected as int;
            &&& opened.original_id == Some(id)
            &&& opened.fields[0].editor.text() == id
            &&& lookup(settings.document.providers, id) matches Some(known)
                ==> opened.fields[5].editor.text() == known.model
                && opened.fields[7].editor.text() == known.api_key
                && opened.fields[4].editor.text() == known.base_url
            &&& typed is Some && typed->0.fields[at].editor.text() == form.fields[at].editor.before
                + seq![character] + form.fields[at].editor.behind
            &&& typed is Some && typed->0.fields[i] == form.fields[i]
            &&& left.form is None && left.document == settings.document
        }),
{
    reveal(form_key_step);
    reveal(crate::provider_form::provider_fields);
    let empty = Seq::<char>::empty();
    assert(id + empty =~= id);
    if let Some(known) = lookup(settings.document.providers, id) {
        assert(known.model + empty =~= known.model);
        assert(known.api_key + empty =~= known.api_key);
        assert(known.base_url + empty =~= known.base_url);
    }
}

/// A form that is sent is written as the provider that it describes, under the identifier that
/// it names; what cannot be read is told in the form.
pub proof fn sent_forms_are_written(s: TuiStateView, settings: SettingsStateView, form: ProviderFormView)
    requires
        s.settings == Some(settings),
        settings.form == Some(form),
    ensures
        ({
            let id = trimmed(form.fields[0].editor.text());
            let read = form_read(known_settings(settings.document, form.original_id), form.fields);
            let (next, actions) = form_saved(s);
            &&& actions.len() > 0 ==> actions.len() == 1 && actions[0] is WriteProviders && read
                is Ok && lookup(actions[0]->document.providers, id) == Some(read->Ok_0)
            &&& actions.len() == 0 ==> next.settings is Some && next.settings->0.error is Some
            &&& id.len() == 0 ==> actions.len() == 0
        }),
{
    reveal(form_saved);
    let id = trimmed(form.fields[0].editor.text());
    let read = form_read(known_settings(settings.document, form.original_id), form.fields);
    if let Ok(provider) = read {
        if document_saved(settings.document, form.original_id, id, provider) is Ok {
            crate::provider_form::saved_providers_are_found(
                settings.document,
                form.original_id,
                id,
                provider,
            );
        }
    }
}

} // verus!
