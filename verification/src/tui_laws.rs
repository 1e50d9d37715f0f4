//! What holds of the terminal interface whatever keys are pressed.

use vstd::prelude::*;
use crate::catalog::McpCatalogEntryView;
use crate::provider_form::form_saved;
use crate::provider_form::known_settings;
use crate::provider_form::provider_activated;
use crate::provider_form::provider_deleted;
use crate::provider_form::provider_deletion_asked;
use crate::provider_form::provider_fields;
use crate::tui::DeleteTargetView;
use crate::tui::PendingUserInputView;
use crate::tui::TuiActionView;
use crate::tui::TuiStateView;
use crate::tui::asks_safely;
use crate::tui_commands::leaving;
use crate::tui_commands::line_sent;
use crate::tui_commands::loop_shown;
use crate::tui_commands::memory_step;
use crate::tui_commands::plan_shown;
use crate::tui_commands::session_begun;
use crate::tui_commands::tab_requested;
use crate::tui_commands::timeline_cleared;
use crate::tui_commands::turn_cancelled;
use crate::tui_keys::AnsweringView;
use crate::tui_keys::DOUBLE_ESCAPE_WINDOW;
use crate::tui_keys::Key;
use crate::tui_keys::KeyCode;
use crate::tui_keys::alt_step;
use crate::tui_keys::answer_given;
use crate::tui_keys::approval_step;
use crate::tui_keys::at_the_end;
use crate::tui_keys::chosen_skill_install;
use crate::tui_keys::confirmation_step;
use crate::tui_keys::control_step;
use crate::tui_keys::deletion_step;
use crate::tui_keys::escape_step;
use crate::tui_keys::form_key_step;
use crate::tui_keys::form_opened;
use crate::tui_keys::has_question;
use crate::tui_keys::interrupt_step;
use crate::tui_keys::key_answer;
use crate::tui_keys::key_step;
use crate::tui_keys::line_step;
use crate::tui_keys::list_key_step;
use crate::tui_keys::moved_in_settings;
use crate::tui_keys::option_after;
use crate::tui_keys::option_before;
use crate::tui_keys::option_count;
use crate::tui_keys::overlay_step;
use crate::tui_keys::providers_key_step;
use crate::tui_keys::question_key;
use crate::tui_keys::questions_step;
use crate::tui_keys::recalled;
use crate::tui_keys::runtime_key_step;
use crate::tui_keys::secrets_toggled;
use crate::tui_keys::server_deletion_asked;
use crate::tui_keys::server_install;
use crate::tui_keys::server_key_step;
use crate::tui_keys::server_toggled;
use crate::tui_keys::servers_key_step;
use crate::tui_keys::settings_step;
use crate::tui_keys::skill_deletion_asked;
use crate::tui_keys::skill_toggled;
use crate::tui_keys::skill_update;
use crate::tui_keys::skills_key_step;
use crate::tui_overlays::catalog_step;
use crate::tui_overlays::query_of;
use crate::tui_overlays::servers_found;
use crate::tui_overlays::choice_step;
use crate::tui_overlays::history_step;
use crate::tui_overlays::menu_items;
use crate::tui_overlays::menu_step;
use crate::tui_overlays::models_step;
use crate::tui_overlays::query_edited;
use crate::tui_overlays::selected_place;
use crate::tui_overlays::selection_moved;
use crate::tui_overlays::server_form_opened;
use crate::tui_overlays::session_marked;
use crate::tui_overlays::skill_install;
use crate::tui_overlays::tab_set;

verus! {

// ---------------------------------------------------------------------------
// Validity
// ---------------------------------------------------------------------------

proof fn forms_are_valid(s: TuiStateView, id: Option<Seq<char>>)
    requires
        s.wf(),
    ensures
        form_opened(s, id).wf(),
{
    reveal(form_opened);
    if s.settings is Some {
        let fields = provider_fields(id, known_settings(s.settings->0.document, id));
        assert(fields.len() == 19);
    }
}

proof fn server_forms_are_valid(s: TuiStateView, entry: McpCatalogEntryView)
    requires
        s.wf(),
        entry.required_parameters.len() > 0,
    ensures
        server_form_opened(s, entry).wf(),
{
    reveal(server_form_opened);
}

proof fn provider_keys_are_valid(s: TuiStateView, code: KeyCode)
    requires
        s.wf(),
        s.confirm_delete is None,
    ensures
        providers_key_step(s, code).0.wf(),
        asks_safely(providers_key_step(s, code)),
{
    forms_are_valid(s, None);
    forms_are_valid(s, crate::provider_form::chosen_provider(s));
    reveal(secrets_toggled);
    reveal(provider_activated);
    reveal(provider_deletion_asked);
}

proof fn server_keys_are_valid(s: TuiStateView, code: KeyCode)
    requires
        s.wf(),
    ensures
        servers_key_step(s, code).0.wf(),
        asks_safely(servers_key_step(s, code)),
{
    reveal(server_install);
    reveal(server_toggled);
    reveal(server_deletion_asked);
    if let Some(item) = crate::tui_settings::chosen_mcp(s) {
        if let Some(entry) = item.entry {
            if entry.required_parameters.len() > 0 {
                server_forms_are_valid(s, entry);
            }
        }
    }
}

proof fn skill_keys_are_valid(s: TuiStateView, code: KeyCode)
    requires
        s.wf(),
    ensures
        skills_key_step(s, code).0.wf(),
        asks_safely(skills_key_step(s, code)),
{
    reveal(chosen_skill_install);
    reveal(skill_install);
    reveal(skill_toggled);
    reveal(skill_deletion_asked);
    reveal(skill_update);
}

proof fn form_keys_are_valid(s: TuiStateView, key: Key)
    requires
        s.wf(),
        s.settings is Some,
        s.settings->0.form is Some,
    ensures
        form_key_step(s, key).0.wf(),
        asks_safely(form_key_step(s, key)),
{
    reveal(form_key_step);
    reveal(form_saved);
}

proof fn settings_keys_are_valid(s: TuiStateView, key: Key)
    requires
        s.wf(),
        s.confirm_delete is None,
    ensures
        settings_step(s, key).0.wf(),
        asks_safely(settings_step(s, key)),
{
    if s.settings is Some && s.settings->0.form is Some {
        form_keys_are_valid(s, key);
    } else {
        reveal(moved_in_settings);
        reveal(runtime_key_step);
        provider_keys_are_valid(s, key.code);
        server_keys_are_valid(s, key.code);
        skill_keys_are_valid(s, key.code);
    }
}

proof fn menu_is_valid(s: TuiStateView, action: crate::tui_overlays::MenuAction, id: Seq<char>)
    requires
        s.wf(),
        s.confirm_delete is None,
    ensures
        menu_step(s, action, id).0.wf(),
        asks_safely(menu_step(s, action, id)),
{
    reveal(session_begun);
    reveal(tab_requested);
    reveal(memory_step);
    reveal(plan_shown);
    reveal(timeline_cleared);
    reveal(leaving);
}

proof fn choices_are_valid(s: TuiStateView, id: Seq<char>)
    requires
        s.wf(),
        s.confirm_delete is None,
    ensures
        choice_step(s, id).0.wf(),
        asks_safely(choice_step(s, id)),
{
    reveal(models_step);
    reveal(history_step);
    reveal(catalog_step);
    reveal(skill_install);
    if let Some(at) = selected_place(s) {
        menu_is_valid(s, menu_items()[at].action, id);
    }
    if let Some(overlay) = s.overlay {
        let at = servers_found(s.mcp_entries, query_of(overlay))[overlay.selected as int];
        if s.mcp_entries[at].required_parameters.len() > 0 {
            server_forms_are_valid(s, s.mcp_entries[at]);
        }
    }
}

proof fn list_keys_are_valid(s: TuiStateView, key: Key, id: Seq<char>)
    requires
        s.wf(),
        s.overlay is Some,
        s.confirm_delete is None,
    ensures
        list_key_step(s, key, id).0.wf(),
        asks_safely(list_key_step(s, key, id)),
{
    reveal(selection_moved);
    reveal(tab_set);
    reveal(query_edited);
    reveal(session_marked);
    choices_are_valid(s, id);
}

proof fn overlay_keys_are_valid(s: TuiStateView, key: Key, id: Seq<char>)
    requires
        s.wf(),
        s.overlay is Some,
        s.confirm_delete is None,
    ensures
        overlay_step(s, key, id).0.wf(),
        asks_safely(overlay_step(s, key, id)),
{
    settings_keys_are_valid(s, key);
    list_keys_are_valid(s, key, id);
    reveal(server_key_step);
}

proof fn held_keys_are_valid(s: TuiStateView, code: KeyCode)
    requires
        s.wf(),
        s.confirm_delete is None,
    ensures
        alt_step(s, code).0.wf(),
        asks_safely(alt_step(s, code)),
        control_step(s, code).0.wf(),
        asks_safely(control_step(s, code)),
{
    reveal(loop_shown);
    reveal(timeline_cleared);
    reveal(interrupt_step);
    reveal(turn_cancelled);
}

proof fn escapes_are_valid(s: TuiStateView, now: u64)
    requires
        s.wf(),
    ensures
        escape_step(s, now).0.wf(),
        asks_safely(escape_step(s, now)),
{
    reveal(turn_cancelled);
    reveal(escape_step);
}

proof fn line_keys_are_valid(s: TuiStateView, key: Key, now: u64)
    requires
        s.wf(),
        s.confirm_delete is None,
    ensures
        line_step(s, key, now).0.wf(),
        asks_safely(line_step(s, key, now)),
{
    escapes_are_valid(s, now);
    match key.code {
        KeyCode::End => {
            reveal(at_the_end);
        },
        KeyCode::Up => {
            reveal(recalled);
        },
        KeyCode::Down => {
            reveal(recalled);
        },
        KeyCode::Enter => {
            reveal(line_sent);
        },
        _ => {},
    }
}

proof fn waiting_keys_are_valid(s: TuiStateView, code: KeyCode)
    requires
        s.wf(),
    ensures
        approval_step(s, code).0.wf(),
        asks_safely(approval_step(s, code)),
        questions_step(s, code).0.wf(),
        asks_safely(questions_step(s, code)),
        confirmation_step(s, code).0.wf(),
        asks_safely(confirmation_step(s, code)),
{
    reveal(approval_step);
    reveal(questions_step);
    reveal(confirmation_step);
    reveal(deletion_step);
    reveal(provider_deleted);
}

/// Whatever key is pressed, the state stays valid, and what may close the overlay is asked for
/// only while no deletion waits to be confirmed.
pub proof fn keys_keep_the_state_valid(s: TuiStateView, key: Key, now: u64, id: Seq<char>)
    requires
        s.wf(),
    ensures
        key_step(s, key, now, id).0.wf(),
        asks_safely(key_step(s, key, now, id)),
{
    if s.pending_approval is Some || s.pending_user_input is Some || s.confirm_delete is Some {
        waiting_keys_are_valid(s, key.code);
    } else if s.overlay is Some {
        overlay_keys_are_valid(s, key, id);
    } else {
        held_keys_are_valid(s, key.code);
        line_keys_are_valid(s, key, now);
    }
}

// ---------------------------------------------------------------------------
// Waiting
// ---------------------------------------------------------------------------

/// A call that waits for approval holds all other keys back: a key answers it or does nothing.
pub proof fn approvals_come_first(s: TuiStateView, key: Key, now: u64, id: Seq<char>)
    requires
        s.pending_approval is Some,
    ensures
        key_answer(key.code) is None ==> key_step(s, key, now, id) == (s, Seq::<TuiActionView>::empty()),
        key_answer(key.code) is Some ==> key_step(s, key, now, id).1 == seq![
            TuiActionView::AnswerApproval {
                reply: s.pending_approval->0.reply,
                approved: key_answer(key.code)->0,
            },
        ] && key_step(s, key, now, id).0.pending_approval is None,
{
    reveal(approval_step);
}

/// The session that is open cannot be deleted.
pub proof fn the_open_session_stays(s: TuiStateView)
    ensures
        deletion_step(s, DeleteTargetView::Session(s.session.id)).1.len() == 0,
{
    reveal(deletion_step);
}

/// The two pairs of arrow keys choose an answer alike, and the choice stays among the answers
/// and the one in own words.
pub proof fn arrows_choose_answers(pending: PendingUserInputView)
    requires
        pending.other_editor is None,
        option_count(pending) < usize::MAX,
    ensures
        question_key(pending, KeyCode::Up) == question_key(pending, KeyCode::Left),
        question_key(pending, KeyCode::Down) == question_key(pending, KeyCode::Right),
        option_after(pending).option_index <= option_count(pending),
        pending.option_index < option_count(pending) ==> option_before(option_after(pending)) == pending,
{
    reveal(question_key);
}

/// Each answer brings the questions one step nearer to their end.
pub proof fn answers_go_forward(pending: PendingUserInputView, answer: Seq<char>)
    requires
        has_question(pending),
        pending.request.questions.len() <= usize::MAX,
    ensures
        match answer_given(pending, answer) {
            AnsweringView::Waiting(next) => next.question_index == pending.question_index + 1
                && has_question(next),
            AnsweringView::Answered(done) => pending.question_index + 1
                == pending.request.questions.len(),
            AnsweringView::Cancelled(_) => false,
        },
{
}

/// With nothing running and nothing typed, pressing the escape key twice within the time ends
/// the interface; pressing it once does not.
pub proof fn escape_twice_leaves(s: TuiStateView, first: u64, second: u64)
    requires
        !s.busy,
        s.editor.text().len() == 0,
        s.last_escape is None,
        !s.quit,
        first <= second,
    ensures
        !escape_step(s, first).0.quit,
        escape_step(escape_step(s, first).0, second).0.quit <==> second - first <= DOUBLE_ESCAPE_WINDOW,
{
    reveal(escape_step);
}

} // verus!
