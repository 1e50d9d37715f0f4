//! What the keys of the terminal do.

use vstd::prelude::*;
use crate::codec::fresh_uuid;
use crate::editor::Editor;
use crate::editor::EditorView;
use crate::editor::editing;
use crate::provider_form::activate_selected_provider;
use crate::provider_form::begin_provider_form;
use crate::provider_form::chosen_provider;
use crate::provider_form::delete_provider;
use crate::provider_form::form_begun;
use crate::provider_form::form_saved;
use crate::provider_form::provider_activated;
use crate::provider_form::provider_deleted;
use crate::provider_form::provider_deletion_asked;
use crate::provider_form::request_selected_provider_delete;
use crate::provider_form::save_provider_form;
use crate::provider_form::selected_provider_id;
use crate::provider_form::with_settings;
use crate::session::Session;
use crate::table::pairs_of;
use crate::table::put;
use crate::table::table_put;
use crate::text::same;
use crate::text::texts_empty;
use crate::text::texts_push;
use crate::text::trim;
use crate::text::trimmed;
use crate::timeline::NoticeKind;
use crate::tui::CatalogTab;
use crate::tui::ConfiguredMcp;
use crate::tui::ConfiguredMcpView;
use crate::tui::DeleteTarget;
use crate::tui::DeleteTargetView;
use crate::tui::FormField;
use crate::tui::FormFieldView;
use crate::tui::InstalledSkill;
use crate::tui::InstalledSkillView;
use crate::tui::McpForm;
use crate::tui::McpFormView;
use crate::tui::OverlayKind;
use crate::tui::PendingUserInput;
use crate::tui::PendingUserInputView;
use crate::tui::ProviderForm;
use crate::tui::ProviderFormView;
use crate::tui::SettingsChange;
use crate::tui::SettingsChangeView;
use crate::tui::SettingsState;
use crate::tui::SettingsStateView;
use crate::tui::SettingsTab;
use crate::tui::TuiAction;
use crate::tui::TuiActionView;
use crate::tui::TuiState;
use crate::tui::TuiStateView;
use crate::tui::asking;
use crate::tui::has_field;
use crate::tui::idle_required;
use crate::tui::is_provider_form;
use crate::tui::nothing;
use crate::tui::only;
use crate::tui::overlay_opened;
use crate::tui::policy_cycled;
use crate::tui::quiet;
use crate::tui::scrolled_down;
use crate::tui::scrolled_up;
use crate::tui::tab_after;
use crate::tui::tab_before;
use crate::tui_commands::cancel_active_turn;
use crate::tui_commands::clear_timeline;
use crate::tui_commands::line_sent;
use crate::tui_commands::loop_shown;
use crate::tui_commands::show_loop_status;
use crate::tui_commands::submit_editor;
use crate::tui_commands::timeline_cleared;
use crate::tui_commands::turn_cancelled;
use crate::tui_events::mcp_asked;
use crate::tui_events::request_side_session;
use crate::tui_events::side_requested;
use crate::tui_events::start_mcp_status_refresh;
use crate::tui_overlays::activate_overlay_selection;
use crate::tui_overlays::choice_step;
use crate::tui_overlays::extend_query;
use crate::tui_overlays::mark_selected_session_for_delete;
use crate::tui_overlays::move_overlay_selection;
use crate::tui_overlays::open_server_form;
use crate::tui_overlays::other_tab;
use crate::tui_overlays::query_edited;
use crate::tui_overlays::selection_moved;
use crate::tui_overlays::server_form_opened;
use crate::tui_overlays::session_marked;
use crate::tui_overlays::set_catalog_tab;
use crate::tui_overlays::shorten_query;
use crate::tui_overlays::skill_install;
use crate::tui_overlays::start_skill_install;
use crate::tui_overlays::tab_set;
use crate::tui_overlays::toggle_catalog_tab;
use crate::tui_settings::chosen_mcp;
use crate::tui_settings::chosen_skill;
use crate::tui_settings::item_count;
use crate::tui_settings::mcp_item_id;
use crate::tui_settings::selected_settings_mcp;
use crate::tui_settings::selected_settings_skill;
use crate::tui_settings::settings_item_count;
use crate::tui_settings::skill_item_id;
use crate::views::group_views;
use crate::views::opt;
use crate::views::views;

verus! {

broadcast use {group_views, texts_push, texts_empty};

/// A key.
#[derive(Clone, Copy, Debug, PartialEq, Eq, Structural)]
pub enum KeyCode {
    Char(char),
    Enter,
    Esc,
    Backspace,
    Delete,
    Left,
    Right,
    Up,
    Down,
    Home,
    End,
    PageUp,
    PageDown,
    Tab,
    BackTab,
    Other,
}

/// A key with the keys that are held with it.
#[derive(Clone, Copy, Debug, PartialEq, Eq, Structural)]
pub struct Key {
    pub code: KeyCode,
    pub control: bool,
    pub alt: bool,
    pub shift: bool,
}

/// For how many milliseconds a second press of the escape key counts with the first.
pub const DOUBLE_ESCAPE_WINDOW: u64 = 700;

// ---------------------------------------------------------------------------
// Editing
// ---------------------------------------------------------------------------

/// An editor after a key, where the key edits.
pub open spec fn edited(editor: EditorView, code: KeyCode) -> EditorView {
    match code {
        KeyCode::Backspace => editor.erased(),
        KeyCode::Delete => editor.deleted(),
        KeyCode::Left => editor.left(),
        KeyCode::Right => editor.right(),
        KeyCode::Char(character) => editor.typed(seq![character]),
        _ => editor,
    }
}

fn edit(editor: &mut Editor, code: KeyCode)
    ensures
        final(editor)@ == edited(old(editor)@, code),
{
    match code {
        KeyCode::Backspace => {
            editor.backspace();
        },
        KeyCode::Delete => {
            editor.delete();
        },
        KeyCode::Left => {
            editor.move_left();
        },
        KeyCode::Right => {
            editor.move_right();
        },
        KeyCode::Char(character) => {
            editor.insert(character);
        },
        _ => {},
    }
}

/// Fields with one of them edited.
pub open spec fn field_edited(fields: Seq<FormFieldView>, at: usize, code: KeyCode) -> Seq<FormFieldView> {
    fields.update(
        at as int,
        FormFieldView { editor: edited(fields[at as int].editor, code), ..fields[at as int] },
    )
}

fn edit_field(fields: &mut Vec<FormField>, at: usize, code: KeyCode)
    requires
        at < old(fields)@.len(),
    ensures
        views(final(fields)@) == field_edited(views(old(fields)@), at, code),
{
    let mut field = fields.remove(at);
    edit(&mut field.editor, code);
    fields.insert(at, field);
    assert(views(fields@) =~= field_edited(views(old(fields)@), at, code));
}

/// The field behind a field; behind the last one comes the first.
pub open spec fn field_after(selected: usize, count: nat) -> usize {
    if selected + 1 < count {
        (selected + 1) as usize
    } else {
        0
    }
}

/// The field before a field; before the first one comes the last.
pub open spec fn field_before(selected: usize, count: nat) -> usize {
    if selected == 0 {
        (count - 1) as usize
    } else {
        (selected - 1) as usize
    }
}

fn next_field(selected: usize, count: usize) -> (result: usize)
    requires
        selected < count,
    ensures
        result == field_after(selected, count as nat),
{
    if selected + 1 < count {
        selected + 1
    } else {
        0
    }
}

fn previous_field(selected: usize, count: usize) -> (result: usize)
    requires
        selected < count,
    ensures
        result == field_before(selected, count as nat),
{
    if selected == 0 {
        count - 1
    } else {
        selected - 1
    }
}

// ---------------------------------------------------------------------------
// Approvals
// ---------------------------------------------------------------------------

/// The answer that a key gives.
pub open spec fn key_answer(code: KeyCode) -> Option<bool> {
    match code {
        KeyCode::Char('y') => Some(true),
        KeyCode::Char('Y') => Some(true),
        KeyCode::Char('n') => Some(false),
        KeyCode::Char('N') => Some(false),
        KeyCode::Esc => Some(false),
        _ => None,
    }
}

/// What a key does while a call waits for approval.
#[verifier::opaque]
pub open spec fn approval_step(s: TuiStateView, code: KeyCode) -> (TuiStateView, Seq<TuiActionView>) {
    match (key_answer(code), s.pending_approval) {
        (Some(approved), Some(pending)) => asking(
            TuiStateView {
                pending_approval: None,
                status: if approved {
                    "Approved once"@
                } else {
                    "Action denied"@
                },
                ..s
            },
            TuiActionView::AnswerApproval { reply: pending.reply, approved },
        ),
        _ => quiet(s),
    }
}

fn read_answer(code: KeyCode) -> (result: Option<bool>)
    ensures
        result == key_answer(code),
{
    match code {
        KeyCode::Char('y') => Some(true),
        KeyCode::Char('Y') => Some(true),
        KeyCode::Char('n') => Some(false),
        KeyCode::Char('N') => Some(false),
        KeyCode::Esc => Some(false),
        _ => None,
    }
}

/// Takes a key while a call waits for approval.
pub fn handle_approval_key(app: &mut TuiState, key: Key) -> (result: Vec<TuiAction>)
    ensures
        (final(app)@, views(result@)) == approval_step(old(app)@, key.code),
{
    proof {
        reveal(approval_step);
    }
    if let Some(approved) = read_answer(key.code) {
        let reply = match &app.pending_approval {
            Some(pending) => pending.reply,
            None => {
                return nothing();
            },
        };
        app.pending_approval = None;
        app.say(
            if approved {
                "Approved once"
            } else {
                "Action denied"
            },
        );
        return only(TuiAction::AnswerApproval { reply, approved });
    }
    nothing()
}

// ---------------------------------------------------------------------------
// Questions
// ---------------------------------------------------------------------------

/// What a key makes of questions that wait.
#[derive(Debug)]
pub enum Answering {
    /// They wait on.
    Waiting(PendingUserInput),
    /// All are answered.
    Answered(PendingUserInput),
    /// They are left unanswered.
    Cancelled(u64),
}

/// What a `Answering` holds.
#[verifier::ext_equal]
pub enum AnsweringView {
    Waiting(PendingUserInputView),
    Answered(PendingUserInputView),
    Cancelled(u64),
}

impl View for Answering {
    type V = AnsweringView;

    open spec fn view(&self) -> AnsweringView {
        match *self {
            Answering::Waiting(a0) => AnsweringView::Waiting(a0@),
            Answering::Answered(a0) => AnsweringView::Answered(a0@),
            Answering::Cancelled(a0) => AnsweringView::Cancelled(a0),
        }
    }
}

/// Whether the question that is asked exists.
pub open spec fn has_question(pending: PendingUserInputView) -> bool {
    pending.question_index < pending.request.questions.len()
}

/// Whether an answer in own words is being typed and is still blank.
pub open spec fn answer_is_blank(pending: PendingUserInputView) -> bool {
    pending.other_editor is Some && trimmed(pending.other_editor->0.text()).len() == 0
}

/// Questions after the one that is asked got an answer.
pub open spec fn answer_given(pending: PendingUserInputView, answer: Seq<char>) -> AnsweringView {
    let question = pending.request.questions[pending.question_index as int];
    let answers = put(pending.answers, question.id, answer);
    if pending.question_index + 1 < pending.request.questions.len() {
        AnsweringView::Waiting(
            PendingUserInputView {
                question_index: (pending.question_index + 1) as usize,
                option_index: 0,
                other_editor: None,
                answers,
                ..pending
            },
        )
    } else {
        AnsweringView::Answered(PendingUserInputView { answers, ..pending })
    }
}

/// Questions after a key while an answer in own words is typed.
pub open spec fn own_words_key(pending: PendingUserInputView, code: KeyCode) -> AnsweringView {
    let editor = pending.other_editor->0;
    match code {
        KeyCode::Esc => AnsweringView::Waiting(PendingUserInputView { other_editor: None, ..pending }),
        KeyCode::Enter => {
            let answer = trimmed(editor.text());
            if answer.len() == 0 {
                AnsweringView::Waiting(pending)
            } else {
                answer_given(pending, answer)
            }
        },
        _ => AnsweringView::Waiting(
            PendingUserInputView { other_editor: Some(edited(editor, code)), ..pending },
        ),
    }
}

/// How many answers can be chosen, without the one in own words.
pub open spec fn option_count(pending: PendingUserInputView) -> nat {
    if has_question(pending) {
        pending.request.questions[pending.question_index as int].options.len()
    } else {
        0
    }
}

/// Questions after a key while an answer is chosen.
pub open spec fn choosing_key(pending: PendingUserInputView, code: KeyCode) -> AnsweringView {
    match code {
        KeyCode::Up => AnsweringView::Waiting(option_before(pending)),
        KeyCode::Left => AnsweringView::Waiting(option_before(pending)),
        KeyCode::Down => AnsweringView::Waiting(option_after(pending)),
        KeyCode::Right => AnsweringView::Waiting(option_after(pending)),
        KeyCode::Enter => if pending.option_index < option_count(pending) {
            answer_given(
                pending,
                pending.request.questions[pending.question_index as int].options[pending.option_index as int].label,
            )
        } else {
            AnsweringView::Waiting(
                PendingUserInputView { other_editor: Some(editing(Seq::empty())), ..pending },
            )
        },
        KeyCode::Esc => AnsweringView::Cancelled(pending.reply),
        _ => AnsweringView::Waiting(pending),
    }
}

/// Questions with the selection one answer up.
pub open spec fn option_before(pending: PendingUserInputView) -> PendingUserInputView {
    PendingUserInputView {
        option_index: if pending.option_index == 0 {
            0
        } else {
            (pending.option_index - 1) as usize
        },
        ..pending
    }
}

/// Questions with the selection one answer down; the last one is the one in own words.
pub open spec fn option_after(pending: PendingUserInputView) -> PendingUserInputView {
    PendingUserInputView {
        option_index: if pending.option_index < option_count(pending) {
            (pending.option_index + 1) as usize
        } else {
            option_count(pending) as usize
        },
        ..pending
    }
}

/// Questions after a key.
#[verifier::opaque]
pub open spec fn question_key(pending: PendingUserInputView, code: KeyCode) -> AnsweringView {
    if pending.other_editor is Some {
        own_words_key(pending, code)
    } else {
        choosing_key(pending, code)
    }
}

/// Takes the answer to the question that is asked. The next one is asked, if there is one.
pub fn commit_user_answer(pending: PendingUserInput, answer: String) -> (result: Answering)
    requires
        has_question(pending@),
    ensures
        result@ == answer_given(pending@, answer@),
{
    let mut pending = pending;
    let ghost asked = pending@;
    let count = pending.request.questions.len();
    assert(asked.request.questions[pending.question_index as int] == pending.request.questions@[pending.question_index as int]@);
    let id = pending.request.questions[pending.question_index].id.clone();
    table_put(&mut pending.answers, id, answer);
    if pending.question_index + 1 < count {
        pending.question_index = pending.question_index + 1;
        pending.option_index = 0;
        pending.other_editor = None;
        Answering::Waiting(pending)
    } else {
        Answering::Answered(pending)
    }
}

fn take_own_words(pending: PendingUserInput, editor: Editor, code: KeyCode) -> (result: Answering)
    requires
        pending@.other_editor is None,
        code is Enter && trimmed(editor@.text()).len() > 0 ==> has_question(pending@),
    ensures
        result@ == own_words_key(
            PendingUserInputView { other_editor: Some(editor@), ..pending@ },
            code,
        ),
{
    let mut pending = pending;
    let ghost asked = PendingUserInputView { other_editor: Some(editor@), ..pending@ };
    let mut editor = editor;
    match code {
        KeyCode::Esc => Answering::Waiting(pending),
        KeyCode::Enter => {
            let answer = trim(&editor.text());
            pending.other_editor = Some(editor);
            assert(pending@ == asked);
            if answer.as_str().is_empty() {
                Answering::Waiting(pending)
            } else {
                commit_user_answer(pending, answer)
            }
        },
        _ => {
            edit(&mut editor, code);
            pending.other_editor = Some(editor);
            Answering::Waiting(pending)
        },
    }
}

fn count_options(pending: &PendingUserInput) -> (result: usize)
    ensures
        result == option_count(pending@),
{
    if pending.question_index < pending.request.questions.len() {
        assert(pending@.request.questions[pending.question_index as int] == pending.request.questions@[pending.question_index as int]@);
        pending.request.questions[pending.question_index].options.len()
    } else {
        0
    }
}

fn take_choice(pending: PendingUserInput, code: KeyCode) -> (result: Answering)
    requires
        pending@.other_editor is None,
        code is Enter ==> has_question(pending@),
    ensures
        result@ == choosing_key(pending@, code),
{
    let mut pending = pending;
    let count = count_options(&pending);
    match code {
        KeyCode::Up | KeyCode::Left => {
            if pending.option_index > 0 {
                pending.option_index = pending.option_index - 1;
            }
            Answering::Waiting(pending)
        },
        KeyCode::Down | KeyCode::Right => {
            pending.option_index = if pending.option_index < count {
                pending.option_index + 1
            } else {
                count
            };
            Answering::Waiting(pending)
        },
        KeyCode::Enter => {
            if pending.option_index < count {
                let ghost question = pending.request.questions@[pending.question_index as int];
                assert(pending@.request.questions[pending.question_index as int] == question@);
                assert(question@.options[pending.option_index as int] == question.options@[pending.option_index as int]@);
                let answer = pending.request.questions[pending.question_index].options[pending.option_index].label.clone();
                commit_user_answer(pending, answer)
            } else {
                pending.other_editor = Some(Editor::new());
                Answering::Waiting(pending)
            }
        },
        KeyCode::Esc => Answering::Cancelled(pending.reply),
        _ => Answering::Waiting(pending),
    }
}

fn take_question_key(pending: PendingUserInput, code: KeyCode) -> (result: Answering)
    requires
        code is Enter ==> has_question(pending@) || answer_is_blank(pending@),
    ensures
        result@ == question_key(pending@, code),
{
    proof {
        reveal(question_key);
    }
    let mut pending = pending;
    let ghost asked = pending@;
    match pending.other_editor.take() {
        Some(editor) => {
            assert(asked == (PendingUserInputView { other_editor: Some(editor@), ..pending@ }));
            take_own_words(pending, editor, code)
        },
        None => take_choice(pending, code),
    }
}

/// What a key does while questions wait.
#[verifier::opaque]
pub open spec fn questions_step(s: TuiStateView, code: KeyCode) -> (TuiStateView, Seq<TuiActionView>) {
    match s.pending_user_input {
        None => quiet(s),
        Some(pending) => match question_key(pending, code) {
            AnsweringView::Waiting(next) => quiet(
                TuiStateView { pending_user_input: Some(next), ..s },
            ),
            AnsweringView::Answered(done) => asking(
                TuiStateView { pending_user_input: None, status: "Answer submitted"@, ..s },
                TuiActionView::AnswerQuestions { reply: done.reply, answers: done.answers },
            ),
            AnsweringView::Cancelled(reply) => asking(
                TuiStateView { pending_user_input: None, status: "Question cancelled"@, ..s },
                TuiActionView::DismissQuestions { reply },
            ),
        },
    }
}

/// Whether a key can be taken: the key that answers needs a question to answer, unless the
/// answer in own words is blank.
pub open spec fn key_has_question(s: TuiStateView, code: KeyCode) -> bool {
    code is Enter ==> (s.pending_user_input matches Some(pending) ==> has_question(pending)
        || answer_is_blank(pending))
}

/// Takes a key while questions wait.
pub fn handle_user_input_key(app: &mut TuiState, key: Key) -> (result: Vec<TuiAction>)
    requires
        key_has_question(old(app)@, key.code),
    ensures
        (final(app)@, views(result@)) == questions_step(old(app)@, key.code),
{
    proof {
        reveal(questions_step);
    }
    match app.pending_user_input.take() {
        Some(pending) => match take_question_key(pending, key.code) {
            Answering::Waiting(next) => {
                app.pending_user_input = Some(next);
                nothing()
            },
            Answering::Answered(done) => {
                app.say("Answer submitted");
                only(TuiAction::AnswerQuestions { reply: done.reply, answers: done.answers })
            },
            Answering::Cancelled(reply) => {
                app.say("Question cancelled");
                only(TuiAction::DismissQuestions { reply })
            },
        },
        None => nothing(),
    }
}

// ---------------------------------------------------------------------------
// Deletions
// ---------------------------------------------------------------------------

/// The answer that a key gives to whether something shall be deleted.
pub open spec fn key_confirms(code: KeyCode) -> Option<bool> {
    if code is Enter {
        Some(true)
    } else {
        key_answer(code)
    }
}

/// The step that asks for a change of servers or skills.
pub open spec fn change_asked(
    s: TuiStateView,
    change: SettingsChangeView,
    status: Seq<char>,
    check: bool,
) -> (TuiStateView, Seq<TuiActionView>) {
    asking(s, TuiActionView::ChangeSettings { change, status, check })
}

/// The step that deletes what the user confirmed.
#[verifier::opaque]
pub open spec fn deletion_step(s: TuiStateView, target: DeleteTargetView) -> (
    TuiStateView,
    Seq<TuiActionView>,
) {
    match target {
        DeleteTargetView::Session(id) => if id == s.session.id {
            quiet(s.noticed(NoticeKind::Warning, "The active session cannot be deleted"@))
        } else {
            asking(s, TuiActionView::DeleteSession(id))
        },
        DeleteTargetView::Provider(id) => provider_deleted(s, id),
        DeleteTargetView::Mcp(name) => change_asked(
            s,
            SettingsChangeView::RemoveMcp(name),
            "Removed MCP "@ + name,
            false,
        ),
        DeleteTargetView::Skill(name) => change_asked(
            s,
            SettingsChangeView::RemoveSkill(name),
            "Removed Skill "@ + name,
            false,
        ),
    }
}

fn delete_target(app: &mut TuiState, target: DeleteTarget) -> (result: Vec<TuiAction>)
    requires
        target is Provider ==> old(app)@.settings is Some,
    ensures
        (final(app)@, views(result@)) == deletion_step(old(app)@, target@),
{
    proof {
        reveal(deletion_step);
    }
    match target {
        DeleteTarget::Session(id) => {
            if same(&id, &app.session.id) {
                app.push_notice(
                    NoticeKind::Warning,
                    "The active session cannot be deleted".to_owned(),
                );
                nothing()
            } else {
                only(TuiAction::DeleteSession(id))
            }
        },
        DeleteTarget::Provider(id) => delete_provider(app, id),
        DeleteTarget::Mcp(name) => {
            let mut status = "Removed MCP ".to_owned();
            status.push_str(&name);
            only(
                TuiAction::ChangeSettings {
                    change: SettingsChange::RemoveMcp(name),
                    status,
                    check: false,
                },
            )
        },
        DeleteTarget::Skill(name) => {
            let mut status = "Removed Skill ".to_owned();
            status.push_str(&name);
            only(
                TuiAction::ChangeSettings {
                    change: SettingsChange::RemoveSkill(name),
                    status,
                    check: false,
                },
            )
        },
    }
}

/// What a key does while a deletion waits to be confirmed.
#[verifier::opaque]
pub open spec fn confirmation_step(s: TuiStateView, code: KeyCode) -> (
    TuiStateView,
    Seq<TuiActionView>,
) {
    match (key_confirms(code), s.confirm_delete) {
        (Some(true), Some(target)) => deletion_step(
            TuiStateView { confirm_delete: None, ..s },
            target,
        ),
        (Some(false), _) => quiet(TuiStateView { confirm_delete: None, ..s }),
        _ => quiet(s),
    }
}

fn read_confirmation(code: KeyCode) -> (result: Option<bool>)
    ensures
        result == key_confirms(code),
{
    match code {
        KeyCode::Enter => Some(true),
        _ => read_answer(code),
    }
}

/// Takes a key while a deletion waits to be confirmed.
pub fn handle_delete_confirmation_key(app: &mut TuiState, key: Key) -> (result: Vec<TuiAction>)
    requires
        old(app)@.wf(),
    ensures
        (final(app)@, views(result@)) == confirmation_step(old(app)@, key.code),
{
    proof {
        reveal(confirmation_step);
    }
    match read_confirmation(key.code) {
        Some(true) => match app.confirm_delete.take() {
            Some(target) => delete_target(app, target),
            None => nothing(),
        },
        Some(false) => {
            app.confirm_delete = None;
            nothing()
        },
        None => nothing(),
    }
}

// ---------------------------------------------------------------------------
// The form for a server
// ---------------------------------------------------------------------------

/// What was filled in, under the keys of the fields.
pub open spec fn form_values(fields: Seq<FormFieldView>) -> Seq<(Seq<char>, Seq<char>)>
    decreases fields.len(),
{
    if fields.len() == 0 {
        Seq::empty()
    } else {
        put(form_values(fields.drop_last()), fields.last().key, fields.last().editor.text())
    }
}

fn read_values(fields: &Vec<FormField>) -> (result: Vec<(String, String)>)
    ensures
        pairs_of(result@) == form_values(views(fields@)),
{
    let ghost all = views(fields@);
    let mut values: Vec<(String, String)> = Vec::new();
    let mut i: usize = 0;
    assert(all.take(0) =~= Seq::<FormFieldView>::empty());
    assert(pairs_of(values@) =~= Seq::<(Seq<char>, Seq<char>)>::empty());
    while i < fields.len()
        invariant
            i <= fields@.len(),
            all == views(fields@),
            pairs_of(values@) == form_values(all.take(i as int)),
        decreases fields@.len() - i,
    {
        assert(all.take(i + 1).drop_last() =~= all.take(i as int));
        assert(all.take(i + 1).last() == fields@[i as int]@);
        table_put(&mut values, fields[i].key.clone(), fields[i].editor.text());
        i = i + 1;
    }
    assert(all.take(i as int) =~= all);
    values
}

/// The form for a server after a key.
pub open spec fn server_form_key(form: McpFormView, code: KeyCode) -> McpFormView {
    match code {
        KeyCode::Tab => McpFormView { selected: field_after(form.selected, form.fields.len()), ..form },
        KeyCode::Down => McpFormView { selected: field_after(form.selected, form.fields.len()), ..form },
        KeyCode::BackTab => McpFormView { selected: field_before(form.selected, form.fields.len()), ..form },
        KeyCode::Up => McpFormView { selected: field_before(form.selected, form.fields.len()), ..form },
        KeyCode::Enter => McpFormView { selected: field_after(form.selected, form.fields.len()), ..form },
        _ => McpFormView { fields: field_edited(form.fields, form.selected, code), ..form },
    }
}

fn take_server_form_key(form: &mut McpForm, code: KeyCode)
    requires
        has_field(old(form)@.fields, old(form)@.selected),
    ensures
        final(form)@ == server_form_key(old(form)@, code),
{
    let count = form.fields.len();
    match code {
        KeyCode::Tab | KeyCode::Down | KeyCode::Enter => {
            form.selected = next_field(form.selected, count);
        },
        KeyCode::BackTab | KeyCode::Up => {
            form.selected = previous_field(form.selected, count);
        },
        _ => {
            let at = form.selected;
            edit_field(&mut form.fields, at, code);
        },
    }
}

/// What a key does while the form for a server is open.
#[verifier::opaque]
pub open spec fn server_key_step(s: TuiStateView, code: KeyCode) -> (TuiStateView, Seq<TuiActionView>) {
    match s.mcp_form {
        None => quiet(s.closed()),
        Some(form) => if code is Esc {
            quiet(s.closed())
        } else if code is Enter && form.selected + 1 >= form.fields.len() {
            asking(
                s,
                TuiActionView::ConfigureMcp {
                    id: form.entry.id,
                    name: form.entry.name,
                    values: form_values(form.fields),
                },
            )
        } else {
            quiet(TuiStateView { mcp_form: Some(server_form_key(form, code)), ..s })
        },
    }
}

fn edit_server_form(app: &mut TuiState, code: KeyCode)
    requires
        old(app)@.mcp_form is Some,
        has_field(old(app)@.mcp_form->0.fields, old(app)@.mcp_form->0.selected),
    ensures
        final(app)@ == (TuiStateView {
            mcp_form: Some(server_form_key(old(app)@.mcp_form->0, code)),
            ..old(app)@
        }),
{
    if let Some(form) = &mut app.mcp_form {
        take_server_form_key(form, code);
    }
}

fn submit_mcp_form(form: &McpForm) -> (result: Vec<TuiAction>)
    ensures
        views(result@) == seq![
            TuiActionView::ConfigureMcp {
                id: form@.entry.id,
                name: form@.entry.name,
                values: form_values(form@.fields),
            },
        ],
{
    only(
        TuiAction::ConfigureMcp {
            id: form.entry.id.clone(),
            name: form.entry.name.clone(),
            values: read_values(&form.fields),
        },
    )
}

/// Takes a key while the form for a server is open.
pub fn handle_mcp_form_key(app: &mut TuiState, key: Key) -> (result: Vec<TuiAction>)
    requires
        old(app)@.wf(),
    ensures
        (final(app)@, views(result@)) == server_key_step(old(app)@, key.code),
{
    proof {
        reveal(server_key_step);
    }
    let last = match &app.mcp_form {
        Some(form) => {
            let count = form.fields.len();
            assert(app@.mcp_form == Some(form@));
            assert(form.selected < count);
            form.selected + 1 >= count
        },
        None => {
            app.close_overlay();
            return nothing();
        },
    };
    match key.code {
        KeyCode::Esc => {
            app.close_overlay();
            nothing()
        },
        KeyCode::Enter if last => match &app.mcp_form {
            Some(form) => submit_mcp_form(form),
            None => nothing(),
        },
        _ => {
            edit_server_form(app, key.code);
            nothing()
        },
    }
}

// ---------------------------------------------------------------------------
// The form for a provider
// ---------------------------------------------------------------------------

/// The form for a provider after a key.
pub open spec fn provider_form_key(form: ProviderFormView, key: Key) -> ProviderFormView {
    let count = form.fields.len();
    match key.code {
        KeyCode::Tab => ProviderFormView { selected: field_after(form.selected, count), ..form },
        KeyCode::Down => ProviderFormView { selected: field_after(form.selected, count), ..form },
        KeyCode::BackTab => ProviderFormView { selected: field_before(form.selected, count), ..form },
        KeyCode::Up => ProviderFormView { selected: field_before(form.selected, count), ..form },
        KeyCode::Enter => ProviderFormView { selected: field_after(form.selected, count), ..form },
        _ => if key.control && key.code == KeyCode::Char('v') {
            ProviderFormView { show_secret: !form.show_secret, ..form }
        } else {
            ProviderFormView {
                fields: field_edited(form.fields, form.selected, key.code),
                ..form
            }
        },
    }
}

fn take_provider_form_key(form: &mut ProviderForm, key: Key)
    requires
        is_provider_form(old(form)@),
    ensures
        final(form)@ == provider_form_key(old(form)@, key),
{
    let count = form.fields.len();
    match key.code {
        KeyCode::Tab | KeyCode::Down | KeyCode::Enter => {
            form.selected = next_field(form.selected, count);
        },
        KeyCode::BackTab | KeyCode::Up => {
            form.selected = previous_field(form.selected, count);
        },
        _ => {
            if key.control && key.code == KeyCode::Char('v') {
                form.show_secret = !form.show_secret;
            } else {
                let at = form.selected;
                edit_field(&mut form.fields, at, key.code);
            }
        },
    }
}

/// The settings after a key in the form for a provider.
pub open spec fn settings_form_key(settings: SettingsStateView, key: Key) -> SettingsStateView {
    if key.code is Esc {
        SettingsStateView { form: None, ..settings }
    } else {
        SettingsStateView { form: Some(provider_form_key(settings.form->0, key)), ..settings }
    }
}

fn take_settings_form_key(settings: &mut SettingsState, key: Key)
    requires
        old(settings)@.form is Some,
        is_provider_form(old(settings)@.form->0),
    ensures
        final(settings)@ == settings_form_key(old(settings)@, key),
{
    match key.code {
        KeyCode::Esc => {
            settings.form = None;
        },
        _ => {
            if let Some(form) = &mut settings.form {
                take_provider_form_key(form, key);
            }
        },
    }
}

/// What a key does while the form for a provider is open.
#[verifier::opaque]
pub open spec fn form_key_step(s: TuiStateView, key: Key) -> (TuiStateView, Seq<TuiActionView>) {
    let form = s.settings->0.form->0;
    if key.code is Enter && form.selected + 1 >= form.fields.len() {
        form_saved(s)
    } else {
        quiet(with_settings(s, settings_form_key(s.settings->0, key)))
    }
}

fn edit_provider_form(app: &mut TuiState, key: Key)
    requires
        old(app)@.settings is Some,
        old(app)@.settings->0.form is Some,
        is_provider_form(old(app)@.settings->0.form->0),
    ensures
        final(app)@ == with_settings(old(app)@, settings_form_key(old(app)@.settings->0, key)),
{
    if let Some(settings) = &mut app.settings {
        take_settings_form_key(settings, key);
    }
}

fn at_last_field(app: &TuiState) -> (result: bool)
    requires
        app@.settings is Some,
        app@.settings->0.form is Some,
        is_provider_form(app@.settings->0.form->0),
    ensures
        result == (app@.settings->0.form->0.selected + 1 >= app@.settings->0.form->0.fields.len()),
{
    match &app.settings {
        Some(settings) => match &settings.form {
            Some(form) => form.selected + 1 >= form.fields.len(),
            None => true,
        },
        None => true,
    }
}

fn handle_provider_form_key(app: &mut TuiState, key: Key) -> (result: Vec<TuiAction>)
    requires
        old(app)@.wf(),
        old(app)@.settings is Some,
        old(app)@.settings->0.form is Some,
    ensures
        (final(app)@, views(result@)) == form_key_step(old(app)@, key),
{
    proof {
        reveal(form_key_step);
    }
    let last = at_last_field(app);
    match key.code {
        KeyCode::Enter if last => save_provider_form(app),
        _ => {
            edit_provider_form(app, key);
            nothing()
        },
    }
}

// ---------------------------------------------------------------------------
// The settings
// ---------------------------------------------------------------------------

/// The settings with another page.
pub open spec fn paged(settings: SettingsStateView, tab: SettingsTab) -> SettingsStateView {
    SettingsStateView { tab, selected: 0, error: None, ..settings }
}

/// The settings after a key that only moves in them.
pub open spec fn settings_moved(settings: SettingsStateView, code: KeyCode, count: nat) -> SettingsStateView {
    match code {
        KeyCode::Tab => paged(settings, tab_after(settings.tab)),
        KeyCode::Right => paged(settings, tab_after(settings.tab)),
        KeyCode::BackTab => paged(settings, tab_before(settings.tab)),
        KeyCode::Left => paged(settings, tab_before(settings.tab)),
        KeyCode::Up => SettingsStateView {
            selected: if settings.selected == 0 {
                0
            } else {
                (settings.selected - 1) as usize
            },
            ..settings
        },
        KeyCode::Down => SettingsStateView {
            selected: if count == 0 {
                0
            } else if settings.selected + 1 < count {
                (settings.selected + 1) as usize
            } else {
                (count - 1) as usize
            },
            ..settings
        },
        _ => settings,
    }
}

fn move_in_settings(settings: &mut SettingsState, code: KeyCode, count: usize)
    ensures
        final(settings)@ == settings_moved(old(settings)@, code, count as nat),
{
    match code {
        KeyCode::Tab | KeyCode::Right => {
            settings.tab = settings.tab.next();
            settings.selected = 0;
            settings.error = None;
        },
        KeyCode::BackTab | KeyCode::Left => {
            settings.tab = settings.tab.previous();
            settings.selected = 0;
            settings.error = None;
        },
        KeyCode::Up => {
            if settings.selected > 0 {
                settings.selected = settings.selected - 1;
            }
        },
        KeyCode::Down => {
            settings.selected = if count == 0 {
                0
            } else if settings.selected < count - 1 {
                settings.selected + 1
            } else {
                count - 1
            };
        },
        _ => {},
    }
}

/// The state after a key that only moves in the settings.
#[verifier::opaque]
pub open spec fn moved_in_settings(s: TuiStateView, code: KeyCode) -> TuiStateView {
    match s.settings {
        Some(settings) => with_settings(s, settings_moved(settings, code, item_count(s))),
        None => s,
    }
}

fn handle_moving_key(app: &mut TuiState, code: KeyCode)
    ensures
        final(app)@ == moved_in_settings(old(app)@, code),
{
    proof {
        reveal(moved_in_settings);
    }
    let count = settings_item_count(app);
    if let Some(settings) = &mut app.settings {
        move_in_settings(settings, code, count);
    }
}

/// The state with the form for a provider open.
#[verifier::opaque]
pub open spec fn form_opened(s: TuiStateView, id: Option<Seq<char>>) -> TuiStateView {
    match s.settings {
        Some(settings) => with_settings(s, form_begun(settings, id)),
        None => s,
    }
}

fn open_form(app: &mut TuiState, id: Option<String>)
    ensures
        final(app)@ == form_opened(old(app)@, opt(id)),
{
    proof {
        reveal(form_opened);
    }
    if let Some(settings) = &mut app.settings {
        begin_provider_form(settings, id);
    }
}

/// The state with secrets shown or hidden.
#[verifier::opaque]
pub open spec fn secrets_toggled(s: TuiStateView) -> TuiStateView {
    match s.settings {
        Some(settings) => with_settings(
            s,
            SettingsStateView { show_secret: !settings.show_secret, ..settings },
        ),
        None => s,
    }
}

fn toggle_secrets(app: &mut TuiState)
    ensures
        final(app)@ == secrets_toggled(old(app)@),
{
    proof {
        reveal(secrets_toggled);
    }
    if let Some(settings) = &mut app.settings {
        settings.show_secret = !settings.show_secret;
    }
}

/// What a key does on the page of the providers.
pub open spec fn providers_key_step(s: TuiStateView, code: KeyCode) -> (
    TuiStateView,
    Seq<TuiActionView>,
) {
    match code {
        KeyCode::Char('n') => quiet(form_opened(s, None)),
        KeyCode::Char('N') => quiet(form_opened(s, None)),
        KeyCode::Char('e') => quiet(form_opened(s, chosen_provider(s))),
        KeyCode::Char('E') => quiet(form_opened(s, chosen_provider(s))),
        KeyCode::Enter => quiet(form_opened(s, chosen_provider(s))),
        KeyCode::Char('v') => quiet(secrets_toggled(s)),
        KeyCode::Char('V') => quiet(secrets_toggled(s)),
        KeyCode::Char(' ') => provider_activated(s),
        KeyCode::Char('d') => quiet(provider_deletion_asked(s)),
        KeyCode::Char('D') => quiet(provider_deletion_asked(s)),
        KeyCode::Delete => quiet(provider_deletion_asked(s)),
        _ => quiet(s),
    }
}

fn handle_providers_key(app: &mut TuiState, code: KeyCode) -> (result: Vec<TuiAction>)
    ensures
        (final(app)@, views(result@)) == providers_key_step(old(app)@, code),
{
    match code {
        KeyCode::Char('n') | KeyCode::Char('N') => {
            open_form(app, None);
            nothing()
        },
        KeyCode::Char('e') | KeyCode::Char('E') | KeyCode::Enter => {
            let id = selected_provider_id(app);
            open_form(app, id);
            nothing()
        },
        KeyCode::Char('v') | KeyCode::Char('V') => {
            toggle_secrets(app);
            nothing()
        },
        KeyCode::Char(' ') => activate_selected_provider(app),
        KeyCode::Char('d') | KeyCode::Char('D') | KeyCode::Delete => {
            request_selected_provider_delete(app);
            nothing()
        },
        _ => nothing(),
    }
}

/// The step that configures the selected server.
#[verifier::opaque]
pub open spec fn server_install(s: TuiStateView) -> (TuiStateView, Seq<TuiActionView>) {
    match chosen_mcp(s) {
        None => quiet(s),
        Some(item) => if item.configured is Some {
            quiet(s.saying("MCP "@ + mcp_item_id(item) + " is already configured"@))
        } else {
            match item.entry {
                None => quiet(s),
                Some(entry) => if entry.required_parameters.len() == 0 {
                    change_asked(
                        s,
                        SettingsChangeView::InstallMcp(entry.id),
                        "Configured MCP "@ + entry.name,
                        true,
                    )
                } else {
                    quiet(server_form_opened(s, entry))
                },
            }
        },
    }
}

/// Configures the selected server, or asks for what it needs.
pub fn install_selected_mcp(app: &mut TuiState) -> (result: Vec<TuiAction>)
    ensures
        (final(app)@, views(result@)) == server_install(old(app)@),
{
    proof {
        reveal(server_install);
    }
    let item = match selected_settings_mcp(app) {
        Some(item) => item,
        None => {
            return nothing();
        },
    };
    if item.configured.is_some() {
        let mut text = "MCP ".to_owned();
        text.push_str(&item.id());
        text.push_str(" is already configured");
        app.status = text;
        return nothing();
    }
    match item.entry {
        Some(entry) => {
            if entry.required_parameters.len() == 0 {
                let mut status = "Configured MCP ".to_owned();
                status.push_str(&entry.name);
                only(
                    TuiAction::ChangeSettings {
                        change: SettingsChange::InstallMcp(entry.id),
                        status,
                        check: true,
                    },
                )
            } else {
                open_server_form(app, entry);
                nothing()
            }
        },
        None => nothing(),
    }
}

/// How a switch that was turned is told.
pub open spec fn turned(enabled: bool) -> Seq<char> {
    if enabled {
        "disabled"@
    } else {
        "enabled"@
    }
}

fn tell_turned(kind: &str, name: &str, enabled: bool) -> (result: String)
    ensures
        result@ == kind@ + name@ + " "@ + turned(enabled),
{
    let mut text = kind.to_owned();
    text.push_str(name);
    text.push_str(" ");
    text.push_str(
        if enabled {
            "disabled"
        } else {
            "enabled"
        },
    );
    text
}

/// The server that is selected, where it is configured.
pub open spec fn chosen_configured(s: TuiStateView) -> Option<ConfiguredMcpView> {
    match chosen_mcp(s) {
        Some(item) => item.configured,
        None => None,
    }
}

fn selected_configured(app: &TuiState) -> (result: Option<ConfiguredMcp>)
    ensures
        opt(result) == chosen_configured(app@),
{
    match selected_settings_mcp(app) {
        Some(item) => item.configured,
        None => None,
    }
}

/// The step that switches the selected server on or off.
#[verifier::opaque]
pub open spec fn server_toggled(s: TuiStateView) -> (TuiStateView, Seq<TuiActionView>) {
    match chosen_configured(s) {
        None => quiet(s.saying("Install this MCP before enabling or disabling it"@)),
        Some(item) => change_asked(
            s,
            SettingsChangeView::EnableMcp { name: item.name, enabled: !item.enabled },
            "MCP "@ + item.name + " "@ + turned(item.enabled),
            false,
        ),
    }
}

/// Switches the selected server on or off.
pub fn toggle_selected_mcp(app: &mut TuiState) -> (result: Vec<TuiAction>)
    ensures
        (final(app)@, views(result@)) == server_toggled(old(app)@),
{
    proof {
        reveal(server_toggled);
    }
    match selected_configured(app) {
        Some(item) => {
            let status = tell_turned("MCP ", &item.name, item.enabled);
            only(
                TuiAction::ChangeSettings {
                    change: SettingsChange::EnableMcp {
                        name: item.name,
                        enabled: !item.enabled,
                    },
                    status,
                    check: false,
                },
            )
        },
        None => {
            app.say("Install this MCP before enabling or disabling it");
            nothing()
        },
    }
}

/// The state after the deletion of the selected server was asked for.
#[verifier::opaque]
pub open spec fn server_deletion_asked(s: TuiStateView) -> TuiStateView {
    match chosen_mcp(s) {
        None => s,
        Some(item) => match item.configured {
            Some(configured) => TuiStateView {
                confirm_delete: Some(DeleteTargetView::Mcp(configured.name)),
                ..s
            },
            None => s.saying("This MCP is not installed"@),
        },
    }
}

/// Asks whether the selected server shall be removed.
pub fn request_selected_mcp_delete(app: &mut TuiState)
    ensures
        final(app)@ == server_deletion_asked(old(app)@),
{
    proof {
        reveal(server_deletion_asked);
    }
    if let Some(item) = selected_settings_mcp(app) {
        match item.configured {
            Some(configured) => {
                app.confirm_delete = Some(DeleteTarget::Mcp(configured.name));
            },
            None => {
                app.say("This MCP is not installed");
            },
        }
    }
}

/// What a key does on the page of the servers.
pub open spec fn servers_key_step(s: TuiStateView, code: KeyCode) -> (
    TuiStateView,
    Seq<TuiActionView>,
) {
    match code {
        KeyCode::Enter => server_install(s),
        KeyCode::Char(' ') => server_toggled(s),
        KeyCode::Char('d') => quiet(server_deletion_asked(s)),
        KeyCode::Char('D') => quiet(server_deletion_asked(s)),
        KeyCode::Delete => quiet(server_deletion_asked(s)),
        KeyCode::Char('r') => mcp_asked(s),
        KeyCode::Char('R') => mcp_asked(s),
        KeyCode::Char('m') => overlay_opened(s, OverlayKind::Catalog),
        KeyCode::Char('M') => overlay_opened(s, OverlayKind::Catalog),
        _ => quiet(s),
    }
}

fn handle_servers_key(app: &mut TuiState, code: KeyCode) -> (result: Vec<TuiAction>)
    ensures
        (final(app)@, views(result@)) == servers_key_step(old(app)@, code),
{
    match code {
        KeyCode::Enter => install_selected_mcp(app),
        KeyCode::Char(' ') => toggle_selected_mcp(app),
        KeyCode::Char('d') | KeyCode::Char('D') | KeyCode::Delete => {
            request_selected_mcp_delete(app);
            nothing()
        },
        KeyCode::Char('r') | KeyCode::Char('R') => start_mcp_status_refresh(app),
        KeyCode::Char('m') | KeyCode::Char('M') => app.open_overlay(OverlayKind::Catalog),
        _ => nothing(),
    }
}

/// The step that installs the selected skill.
#[verifier::opaque]
pub open spec fn chosen_skill_install(s: TuiStateView) -> (TuiStateView, Seq<TuiActionView>) {
    match chosen_skill(s) {
        None => quiet(s),
        Some(item) => if item.installed is Some {
            quiet(s.saying("Skill "@ + skill_item_id(item) + " is already installed"@))
        } else {
            match item.entry {
                None => quiet(s),
                Some(entry) => if s.catalog_busy is Some {
                    quiet(s)
                } else {
                    skill_install(s, entry)
                },
            }
        },
    }
}

/// Installs the selected skill, unless one is being installed.
pub fn install_selected_skill(app: &mut TuiState) -> (result: Vec<TuiAction>)
    ensures
        (final(app)@, views(result@)) == chosen_skill_install(old(app)@),
{
    proof {
        reveal(chosen_skill_install);
    }
    let item = match selected_settings_skill(app) {
        Some(item) => item,
        None => {
            return nothing();
        },
    };
    if item.installed.is_some() {
        let mut text = "Skill ".to_owned();
        text.push_str(&item.id());
        text.push_str(" is already installed");
        app.status = text;
        return nothing();
    }
    match item.entry {
        Some(entry) => {
            if app.catalog_busy.is_some() {
                nothing()
            } else {
                start_skill_install(app, &entry)
            }
        },
        None => nothing(),
    }
}

/// The skill that is selected, where it is installed.
pub open spec fn chosen_installed(s: TuiStateView) -> Option<InstalledSkillView> {
    match chosen_skill(s) {
        Some(item) => item.installed,
        None => None,
    }
}

fn selected_installed(app: &TuiState) -> (result: Option<InstalledSkill>)
    ensures
        opt(result) == chosen_installed(app@),
{
    match selected_settings_skill(app) {
        Some(item) => item.installed,
        None => None,
    }
}

/// The step that switches the selected skill on or off.
#[verifier::opaque]
pub open spec fn skill_toggled(s: TuiStateView) -> (TuiStateView, Seq<TuiActionView>) {
    match chosen_installed(s) {
        None => quiet(s.saying("Install this Skill before enabling or disabling it"@)),
        Some(item) => change_asked(
            s,
            SettingsChangeView::EnableSkill { name: item.name, enabled: !item.enabled },
            "Skill "@ + item.name + " "@ + turned(item.enabled),
            false,
        ),
    }
}

/// Switches the selected skill on or off.
pub fn toggle_selected_skill(app: &mut TuiState) -> (result: Vec<TuiAction>)
    ensures
        (final(app)@, views(result@)) == skill_toggled(old(app)@),
{
    proof {
        reveal(skill_toggled);
    }
    match selected_installed(app) {
        Some(item) => {
            let status = tell_turned("Skill ", &item.name, item.enabled);
            only(
                TuiAction::ChangeSettings {
                    change: SettingsChange::EnableSkill {
                        name: item.name,
                        enabled: !item.enabled,
                    },
                    status,
                    check: false,
                },
            )
        },
        None => {
            app.say("Install this Skill before enabling or disabling it");
            nothing()
        },
    }
}

/// The state after the deletion of the selected skill was asked for.
#[verifier::opaque]
pub open spec fn skill_deletion_asked(s: TuiStateView) -> TuiStateView {
    match chosen_skill(s) {
        None => s,
        Some(item) => match item.installed {
            Some(installed) => TuiStateView {
                confirm_delete: Some(DeleteTargetView::Skill(installed.name)),
                ..s
            },
            None => s.saying("This Skill is not installed"@),
        },
    }
}

/// Asks whether the selected skill shall be removed.
pub fn request_selected_skill_delete(app: &mut TuiState)
    ensures
        final(app)@ == skill_deletion_asked(old(app)@),
{
    proof {
        reveal(skill_deletion_asked);
    }
    if let Some(item) = selected_settings_skill(app) {
        match item.installed {
            Some(installed) => {
                app.confirm_delete = Some(DeleteTarget::Skill(installed.name));
            },
            None => {
                app.say("This Skill is not installed");
            },
        }
    }
}

/// The step that updates the selected skill.
#[verifier::opaque]
pub open spec fn skill_update(s: TuiStateView) -> (TuiStateView, Seq<TuiActionView>) {
    if s.settings_busy {
        quiet(s)
    } else {
        match chosen_installed(s) {
            None => quiet(s),
            Some(item) => asking(
                TuiStateView {
                    settings_busy: true,
                    status: "Updating Skill "@ + item.name,
                    ..s
                },
                TuiActionView::UpdateSkill {
                    name: item.name,
                    from_catalog: item.source_type == "catalog"@,
                },
            ),
        }
    }
}

/// Updates the selected skill, unless something is under way.
pub fn start_selected_skill_update(app: &mut TuiState) -> (result: Vec<TuiAction>)
    ensures
        (final(app)@, views(result@)) == skill_update(old(app)@),
{
    proof {
        reveal(skill_update);
    }
    if app.settings_busy {
        return nothing();
    }
    match selected_installed(app) {
        Some(item) => {
            app.settings_busy = true;
            let mut text = "Updating Skill ".to_owned();
            text.push_str(&item.name);
            app.status = text;
            let from_catalog = same(&item.source_type, "catalog");
            only(TuiAction::UpdateSkill { name: item.name, from_catalog })
        },
        None => nothing(),
    }
}

/// What a key does on the page of the skills.
pub open spec fn skills_key_step(s: TuiStateView, code: KeyCode) -> (
    TuiStateView,
    Seq<TuiActionView>,
) {
    match code {
        KeyCode::Enter => chosen_skill_install(s),
        KeyCode::Char(' ') => skill_toggled(s),
        KeyCode::Char('d') => quiet(skill_deletion_asked(s)),
        KeyCode::Char('D') => quiet(skill_deletion_asked(s)),
        KeyCode::Delete => quiet(skill_deletion_asked(s)),
        KeyCode::Char('u') => skill_update(s),
        KeyCode::Char('U') => skill_update(s),
        KeyCode::Char('m') => overlay_opened(s, OverlayKind::Catalog),
        KeyCode::Char('M') => overlay_opened(s, OverlayKind::Catalog),
        _ => quiet(s),
    }
}

fn handle_skills_key(app: &mut TuiState, code: KeyCode) -> (result: Vec<TuiAction>)
    ensures
        (final(app)@, views(result@)) == skills_key_step(old(app)@, code),
{
    match code {
        KeyCode::Enter => install_selected_skill(app),
        KeyCode::Char(' ') => toggle_selected_skill(app),
        KeyCode::Char('d') | KeyCode::Char('D') | KeyCode::Delete => {
            request_selected_skill_delete(app);
            nothing()
        },
        KeyCode::Char('u') | KeyCode::Char('U') => start_selected_skill_update(app),
        KeyCode::Char('m') | KeyCode::Char('M') => app.open_overlay(OverlayKind::Catalog),
        _ => nothing(),
    }
}

/// What a key does on the page of the runtime.
#[verifier::opaque]
pub open spec fn runtime_key_step(s: TuiStateView, code: KeyCode) -> (
    TuiStateView,
    Seq<TuiActionView>,
) {
    if code == KeyCode::Char('r') || code == KeyCode::Char('R') {
        asking(
            TuiStateView { update_status: "Checking for updates"@, ..s },
            TuiActionView::CheckUpdate,
        )
    } else {
        quiet(s)
    }
}

fn handle_runtime_key(app: &mut TuiState, code: KeyCode) -> (result: Vec<TuiAction>)
    ensures
        (final(app)@, views(result@)) == runtime_key_step(old(app)@, code),
{
    proof {
        reveal(runtime_key_step);
    }
    if code == KeyCode::Char('r') || code == KeyCode::Char('R') {
        app.update_status = "Checking for updates".to_owned();
        only(TuiAction::CheckUpdate)
    } else {
        nothing()
    }
}

/// Whether a key only moves in the settings.
pub open spec fn moves_in_settings(code: KeyCode) -> bool {
    code is Tab || code is Right || code is BackTab || code is Left || code is Up || code is Down
}

/// The page of the settings that is open.
pub open spec fn open_tab(s: TuiStateView) -> SettingsTab {
    match s.settings {
        Some(settings) => settings.tab,
        None => SettingsTab::Providers,
    }
}

/// What a key does while the settings are open.
pub open spec fn settings_step(s: TuiStateView, key: Key) -> (TuiStateView, Seq<TuiActionView>) {
    if s.settings is Some && s.settings->0.form is Some {
        form_key_step(s, key)
    } else if key.code is Esc {
        quiet(s.closed())
    } else if moves_in_settings(key.code) {
        quiet(moved_in_settings(s, key.code))
    } else {
        match open_tab(s) {
            SettingsTab::Providers => providers_key_step(s, key.code),
            SettingsTab::Mcp => servers_key_step(s, key.code),
            SettingsTab::Skills => skills_key_step(s, key.code),
            SettingsTab::Runtime => runtime_key_step(s, key.code),
        }
    }
}

fn is_editing(app: &TuiState) -> (result: bool)
    ensures
        result == (app@.settings is Some && app@.settings->0.form is Some),
{
    match &app.settings {
        Some(settings) => settings.form.is_some(),
        None => false,
    }
}

fn shown_tab(app: &TuiState) -> (result: SettingsTab)
    ensures
        result == open_tab(app@),
{
    match &app.settings {
        Some(settings) => settings.tab,
        None => SettingsTab::Providers,
    }
}

/// Takes a key while the settings are open.
pub fn handle_settings_key(app: &mut TuiState, key: Key) -> (result: Vec<TuiAction>)
    requires
        old(app)@.wf(),
    ensures
        (final(app)@, views(result@)) == settings_step(old(app)@, key),
{
    if is_editing(app) {
        return handle_provider_form_key(app, key);
    }
    match key.code {
        KeyCode::Esc => {
            app.close_overlay();
            nothing()
        },
        KeyCode::Tab | KeyCode::Right | KeyCode::BackTab | KeyCode::Left | KeyCode::Up | KeyCode::Down => {
            handle_moving_key(app, key.code);
            nothing()
        },
        _ => match shown_tab(app) {
            SettingsTab::Providers => handle_providers_key(app, key.code),
            SettingsTab::Mcp => handle_servers_key(app, key.code),
            SettingsTab::Skills => handle_skills_key(app, key.code),
            SettingsTab::Runtime => handle_runtime_key(app, key.code),
        },
    }
}

// ---------------------------------------------------------------------------
// Overlays
// ---------------------------------------------------------------------------

/// What a key does while a list is open.
pub open spec fn list_key_step(s: TuiStateView, key: Key, id: Seq<char>) -> (
    TuiStateView,
    Seq<TuiActionView>,
) {
    let kind = s.overlay->0.kind;
    match key.code {
        KeyCode::Esc => quiet(s.closed()),
        KeyCode::Up => quiet(selection_moved(s, -1)),
        KeyCode::Down => quiet(selection_moved(s, 1)),
        KeyCode::PageUp => quiet(selection_moved(s, -8)),
        KeyCode::PageDown => quiet(selection_moved(s, 8)),
        KeyCode::Left => if kind == OverlayKind::Catalog {
            quiet(tab_set(s, CatalogTab::Mcp))
        } else {
            quiet(s)
        },
        KeyCode::Right => if kind == OverlayKind::Catalog {
            quiet(tab_set(s, CatalogTab::Skills))
        } else {
            quiet(s)
        },
        KeyCode::Tab => if kind == OverlayKind::Catalog {
            quiet(tab_set(s, other_tab(s)))
        } else {
            quiet(s)
        },
        KeyCode::Backspace => quiet(query_edited(s, s.overlay->0.query.erased())),
        KeyCode::Delete => if kind == OverlayKind::History {
            quiet(session_marked(s))
        } else {
            quiet(s)
        },
        KeyCode::Enter => choice_step(s, id),
        KeyCode::Char(character) => if character == 'D' && kind == OverlayKind::History {
            quiet(session_marked(s))
        } else if key.control {
            quiet(s)
        } else {
            quiet(query_edited(s, s.overlay->0.query.typed(seq![character])))
        },
        _ => quiet(s),
    }
}

fn handle_list_key(app: &mut TuiState, key: Key, kind: OverlayKind, id: &str) -> (result: Vec<TuiAction>)
    requires
        old(app)@.overlay is Some,
        old(app)@.overlay->0.kind == kind,
    ensures
        (final(app)@, views(result@)) == list_key_step(old(app)@, key, id@),
{
    match key.code {
        KeyCode::Esc => {
            app.close_overlay();
            nothing()
        },
        KeyCode::Up => {
            move_overlay_selection(app, true, 1);
            nothing()
        },
        KeyCode::Down => {
            move_overlay_selection(app, false, 1);
            nothing()
        },
        KeyCode::PageUp => {
            move_overlay_selection(app, true, 8);
            nothing()
        },
        KeyCode::PageDown => {
            move_overlay_selection(app, false, 8);
            nothing()
        },
        KeyCode::Left => {
            if kind == OverlayKind::Catalog {
                set_catalog_tab(app, CatalogTab::Mcp);
            }
            nothing()
        },
        KeyCode::Right => {
            if kind == OverlayKind::Catalog {
                set_catalog_tab(app, CatalogTab::Skills);
            }
            nothing()
        },
        KeyCode::Tab => {
            if kind == OverlayKind::Catalog {
                toggle_catalog_tab(app);
            }
            nothing()
        },
        KeyCode::Backspace => {
            shorten_query(app);
            nothing()
        },
        KeyCode::Delete => {
            if kind == OverlayKind::History {
                mark_selected_session_for_delete(app);
            }
            nothing()
        },
        KeyCode::Enter => activate_overlay_selection(app, id),
        KeyCode::Char(character) => {
            if character == 'D' && kind == OverlayKind::History {
                mark_selected_session_for_delete(app);
            } else if !key.control {
                extend_query(app, character);
            }
            nothing()
        },
        _ => nothing(),
    }
}

/// What a key does while an overlay is open.
pub open spec fn overlay_step(s: TuiStateView, key: Key, id: Seq<char>) -> (
    TuiStateView,
    Seq<TuiActionView>,
) {
    match s.overlay->0.kind {
        OverlayKind::Help => if key.code is Esc || key.code is Enter {
            quiet(s.closed())
        } else {
            quiet(s)
        },
        OverlayKind::Settings => settings_step(s, key),
        OverlayKind::McpConfig => server_key_step(s, key.code),
        _ => list_key_step(s, key, id),
    }
}

/// Takes a key while an overlay is open.
pub fn handle_overlay_key(app: &mut TuiState, key: Key, id: &str) -> (result: Vec<TuiAction>)
    requires
        old(app)@.wf(),
        old(app)@.overlay is Some,
    ensures
        (final(app)@, views(result@)) == overlay_step(old(app)@, key, id@),
{
    let kind = match &app.overlay {
        Some(overlay) => overlay.kind,
        None => {
            return nothing();
        },
    };
    match kind {
        OverlayKind::Help => {
            if key.code == KeyCode::Esc || key.code == KeyCode::Enter {
                app.close_overlay();
            }
            nothing()
        },
        OverlayKind::Settings => handle_settings_key(app, key),
        OverlayKind::McpConfig => handle_mcp_form_key(app, key),
        _ => handle_list_key(app, key, kind, id),
    }
}

// ---------------------------------------------------------------------------
// The input line
// ---------------------------------------------------------------------------

/// The state with another input line.
pub open spec fn with_editor(s: TuiStateView, editor: EditorView) -> TuiStateView {
    TuiStateView { editor, ..s }
}

/// The place in the history of the input line after a step.
pub open spec fn history_after(cursor: Option<usize>, count: nat, back: bool) -> Option<usize> {
    let current = match cursor {
        Some(at) => at as nat,
        None => count,
    };
    let next = if back {
        if current == 0 {
            0
        } else {
            (current - 1) as nat
        }
    } else {
        current + 1
    };
    if next < count {
        Some(next as usize)
    } else {
        None
    }
}

/// The state after an earlier or later line was called back.
#[verifier::opaque]
pub open spec fn recalled(s: TuiStateView, back: bool) -> TuiStateView {
    if s.input_history.len() == 0 {
        s
    } else {
        let cursor = history_after(s.history_cursor, s.input_history.len(), back);
        TuiStateView {
            history_cursor: cursor,
            editor: match cursor {
                Some(at) => editing(s.input_history[at as int]),
                None => editing(Seq::empty()),
            },
            ..s
        }
    }
}

/// Calls back an earlier line, or a later one.
pub fn recall_input(app: &mut TuiState, back: bool)
    ensures
        final(app)@ == recalled(old(app)@, back),
{
    proof {
        reveal(recalled);
    }
    let count = app.input_history.len();
    if count == 0 {
        return;
    }
    let current = match app.history_cursor {
        Some(at) => at,
        None => count,
    };
    let next = if back {
        if current == 0 {
            0
        } else {
            current - 1
        }
    } else if current < count {
        current + 1
    } else {
        count
    };
    if next < count {
        app.history_cursor = Some(next);
        let text = app.input_history[next].clone();
        assert(app@.input_history[next as int] == app.input_history@[next as int]@);
        app.editor.set(&text);
    } else {
        app.history_cursor = None;
        app.editor.clear();
    }
}

/// What the escape key does: it cancels the turn, else clears the input line, else asks to be
/// pressed again, and then ends the interface.
#[verifier::opaque]
pub open spec fn escape_step(s: TuiStateView, now: u64) -> (TuiStateView, Seq<TuiActionView>) {
    if s.busy {
        turn_cancelled(s)
    } else if s.editor.text().len() > 0 {
        quiet(TuiStateView { editor: editing(Seq::empty()), last_escape: None, ..s })
    } else if s.last_escape is Some && now - s.last_escape->0 <= DOUBLE_ESCAPE_WINDOW {
        quiet(TuiStateView { quit: true, ..s })
    } else {
        quiet(TuiStateView { last_escape: Some(now), status: "Press Esc again to quit"@, ..s })
    }
}

/// Takes the escape key, pressed at a time in milliseconds.
pub fn handle_escape(app: &mut TuiState, now: u64) -> (result: Vec<TuiAction>)
    ensures
        (final(app)@, views(result@)) == escape_step(old(app)@, now),
{
    proof {
        reveal(escape_step);
    }
    if app.busy {
        return cancel_active_turn(app);
    }
    if !app.editor.is_empty() {
        app.editor.clear();
        app.last_escape = None;
        return nothing();
    }
    let again = match app.last_escape {
        Some(previous) => now <= previous || now - previous <= DOUBLE_ESCAPE_WINDOW,
        None => false,
    };
    if again {
        app.quit = true;
    } else {
        app.last_escape = Some(now);
        app.say("Press Esc again to quit");
    }
    nothing()
}

/// What a key with the alt key does.
pub open spec fn alt_step(s: TuiStateView, code: KeyCode) -> (TuiStateView, Seq<TuiActionView>) {
    match code {
        KeyCode::Enter => if s.busy {
            side_requested(
                with_editor(s, editing(Seq::empty())),
                trimmed(s.editor.text()),
            )
        } else {
            quiet(s)
        },
        KeyCode::Char('m') => overlay_opened(s, OverlayKind::Models),
        KeyCode::Char('s') => if s.busy {
            quiet(idle_required(s, "open Settings"@))
        } else {
            asking(s, TuiActionView::ReadSettings(None))
        },
        KeyCode::Char('h') => overlay_opened(s, OverlayKind::Help),
        KeyCode::Char('l') => if s.session.loop_state is Some {
            quiet(loop_shown(s))
        } else {
            quiet(with_editor(s, editing("/loop "@)))
        },
        _ => quiet(s),
    }
}

fn handle_alt_key(app: &mut TuiState, code: KeyCode) -> (result: Vec<TuiAction>)
    ensures
        (final(app)@, views(result@)) == alt_step(old(app)@, code),
{
    match code {
        KeyCode::Enter => {
            if app.busy {
                let prompt = trim(&app.editor.take());
                request_side_session(app, prompt)
            } else {
                nothing()
            }
        },
        KeyCode::Char('m') => app.open_overlay(OverlayKind::Models),
        KeyCode::Char('s') => {
            if app.require_idle("open Settings") {
                only(TuiAction::ReadSettings(None))
            } else {
                nothing()
            }
        },
        KeyCode::Char('h') => app.open_overlay(OverlayKind::Help),
        KeyCode::Char('l') => {
            if app.session.loop_state.is_some() {
                show_loop_status(app);
            } else {
                app.editor.set("/loop ");
            }
            nothing()
        },
        _ => nothing(),
    }
}

/// What the key that interrupts does: it cancels the turn, else clears the input line, else
/// ends the interface.
#[verifier::opaque]
pub open spec fn interrupt_step(s: TuiStateView) -> (TuiStateView, Seq<TuiActionView>) {
    if s.busy {
        turn_cancelled(s)
    } else if s.editor.text().len() == 0 {
        quiet(TuiStateView { quit: true, ..s })
    } else {
        quiet(with_editor(s, editing(Seq::empty())))
    }
}

fn handle_interrupt(app: &mut TuiState) -> (result: Vec<TuiAction>)
    ensures
        (final(app)@, views(result@)) == interrupt_step(old(app)@),
{
    proof {
        reveal(interrupt_step);
    }
    if app.busy {
        cancel_active_turn(app)
    } else if app.editor.is_empty() {
        app.quit = true;
        nothing()
    } else {
        app.editor.clear();
        nothing()
    }
}

/// What a key with the control key does.
pub open spec fn control_step(s: TuiStateView, code: KeyCode) -> (TuiStateView, Seq<TuiActionView>) {
    match code {
        KeyCode::Char('k') => overlay_opened(s, OverlayKind::Commands),
        KeyCode::Char('r') => overlay_opened(s, OverlayKind::History),
        KeyCode::Char('l') => quiet(timeline_cleared(s).saying("Timeline cleared"@)),
        KeyCode::Char('j') => quiet(with_editor(s, s.editor.typed(seq!['\n']))),
        KeyCode::Char('c') => interrupt_step(s),
        _ => quiet(s),
    }
}

fn handle_control_key(app: &mut TuiState, code: KeyCode) -> (result: Vec<TuiAction>)
    ensures
        (final(app)@, views(result@)) == control_step(old(app)@, code),
{
    match code {
        KeyCode::Char('k') => app.open_overlay(OverlayKind::Commands),
        KeyCode::Char('r') => app.open_overlay(OverlayKind::History),
        KeyCode::Char('l') => {
            clear_timeline(app);
            app.say("Timeline cleared");
            nothing()
        },
        KeyCode::Char('j') => {
            app.editor.insert('\n');
            nothing()
        },
        KeyCode::Char('c') => handle_interrupt(app),
        _ => nothing(),
    }
}

/// The input line after a key that moves or edits.
pub open spec fn line_edited(editor: EditorView, key: Key) -> EditorView {
    match key.code {
        KeyCode::Home => editor.home(),
        KeyCode::End => editing(editor.text()),
        KeyCode::Tab => editor.typed("    "@),
        KeyCode::Enter => editor.typed(seq!['\n']),
        code => edited(editor, code),
    }
}

fn edit_line(app: &mut TuiState, key: Key)
    ensures
        final(app)@ == with_editor(old(app)@, line_edited(old(app)@.editor, key)),
{
    match key.code {
        KeyCode::Home => {
            app.editor.move_home();
        },
        KeyCode::End => {
            app.editor.move_end();
        },
        KeyCode::Tab => {
            app.editor.insert_str("    ");
        },
        KeyCode::Enter => {
            app.editor.insert('\n');
        },
        code => {
            edit(&mut app.editor, code);
        },
    }
}

/// The state at the end of the timeline.
#[verifier::opaque]
pub open spec fn at_the_end(s: TuiStateView) -> TuiStateView {
    TuiStateView { scroll: 0, follow_tail: true, ..s }
}

fn go_to_the_end(app: &mut TuiState)
    ensures
        final(app)@ == at_the_end(old(app)@),
{
    proof {
        reveal(at_the_end);
    }
    app.scroll = 0;
    app.follow_tail = true;
}

/// What a key does at the input line.
pub open spec fn line_step(s: TuiStateView, key: Key, now: u64) -> (TuiStateView, Seq<TuiActionView>) {
    let empty = s.editor.text().len() == 0;
    match key.code {
        KeyCode::BackTab => quiet(policy_cycled(s)),
        KeyCode::Esc => escape_step(s, now),
        KeyCode::PageUp => quiet(scrolled_up(s, 8)),
        KeyCode::PageDown => quiet(scrolled_down(s, 8)),
        KeyCode::End => if empty {
            quiet(at_the_end(s))
        } else {
            quiet(with_editor(s, line_edited(s.editor, key)))
        },
        KeyCode::Enter => if key.shift {
            quiet(with_editor(s, line_edited(s.editor, key)))
        } else {
            line_sent(s)
        },
        KeyCode::Up => if empty {
            quiet(recalled(s, true))
        } else {
            quiet(s)
        },
        KeyCode::Down => if s.history_cursor is Some {
            quiet(recalled(s, false))
        } else {
            quiet(s)
        },
        KeyCode::Char('/') => if empty {
            overlay_opened(with_editor(s, s.editor.typed(seq!['/'])), OverlayKind::Commands)
        } else {
            quiet(with_editor(s, line_edited(s.editor, key)))
        },
        KeyCode::Other => quiet(s),
        _ => quiet(with_editor(s, line_edited(s.editor, key))),
    }
}

fn handle_line_key(app: &mut TuiState, key: Key, now: u64) -> (result: Vec<TuiAction>)
    ensures
        (final(app)@, views(result@)) == line_step(old(app)@, key, now),
{
    let empty = app.editor.is_empty();
    match key.code {
        KeyCode::BackTab => {
            app.cycle_policy();
        },
        KeyCode::Esc => {
            return handle_escape(app, now);
        },
        KeyCode::PageUp => {
            app.scroll_up(8);
        },
        KeyCode::PageDown => {
            app.scroll_down(8);
        },
        KeyCode::End if empty => {
            go_to_the_end(app);
        },
        KeyCode::Enter => {
            if key.shift {
                edit_line(app, key);
            } else {
                return submit_editor(app);
            }
        },
        KeyCode::Up => {
            if empty {
                recall_input(app, true);
            }
        },
        KeyCode::Down => {
            if app.history_cursor.is_some() {
                recall_input(app, false);
            }
        },
        KeyCode::Char('/') if empty => {
            app.editor.insert('/');
            return app.open_overlay(OverlayKind::Commands);
        },
        KeyCode::Other => {},
        _ => {
            edit_line(app, key);
        },
    }
    nothing()
}

/// What a key does.
pub open spec fn key_step(s: TuiStateView, key: Key, now: u64, id: Seq<char>) -> (
    TuiStateView,
    Seq<TuiActionView>,
) {
    if s.pending_approval is Some {
        approval_step(s, key.code)
    } else if s.pending_user_input is Some {
        questions_step(s, key.code)
    } else if s.confirm_delete is Some {
        confirmation_step(s, key.code)
    } else if s.overlay is Some {
        overlay_step(s, key, id)
    } else if key.alt {
        alt_step(s, key.code)
    } else if key.control {
        control_step(s, key.code)
    } else {
        line_step(s, key, now)
    }
}

/// Takes a key, pressed at a time in milliseconds. `id` is an identifier that is not in use.
pub fn handle_key(app: &mut TuiState, key: Key, now: u64, id: &str) -> (result: Vec<TuiAction>)
    requires
        old(app)@.wf(),
        key_has_question(old(app)@, key.code),
    ensures
        (final(app)@, views(result@)) == key_step(old(app)@, key, now, id@),
{
    if app.pending_approval.is_some() {
        handle_approval_key(app, key)
    } else if app.pending_user_input.is_some() {
        handle_user_input_key(app, key)
    } else if app.confirm_delete.is_some() {
        handle_delete_confirmation_key(app, key)
    } else if app.overlay.is_some() {
        handle_overlay_key(app, key, id)
    } else if key.alt {
        handle_alt_key(app, key.code)
    } else if key.control {
        handle_control_key(app, key.code)
    } else {
        handle_line_key(app, key, now)
    }
}

/// Takes a key, with a random identifier for what is new.
pub fn press_key(app: &mut TuiState, key: Key, now: u64) -> (result: Vec<TuiAction>)
    requires
        old(app)@.wf(),
        key_has_question(old(app)@, key.code),
    ensures
        exists|id: Seq<char>|
            id.len() == 36 && (final(app)@, views(result@)) == #[trigger] key_step(
                old(app)@,
                key,
                now,
                id,
            ),
{
    let id = fresh_uuid();
    handle_key(app, key, now, &id)
}

} // verus!
