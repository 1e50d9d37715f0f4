//! What the user commands in the terminal: slash commands, loops, memory, pasted configurations.

use vstd::prelude::*;
use crate::cli::loop_label;
use crate::cli::status_label;
use crate::codec::fresh_uuid;
use crate::editor::editing;
use crate::events::ContextStatus;
use crate::json::Json;
use crate::json::JsonView;
use crate::json::field_trees;
use crate::json::member;
use crate::json::object_view;
use crate::json::text_of;
use crate::json::text_values;
use crate::json_ops::Fields;
use crate::json_ops::text_array;
use crate::numbers::decimal;
use crate::numbers::print_u64;
use crate::numbers::print_usize;
use crate::pieces::cut_once;
use crate::pieces::split_once;
use crate::session::LoopState;
use crate::session::LoopStateView;
use crate::session::LoopStatus;
use crate::session::PlanStep;
use crate::session::PlanStepStatus;
use crate::session::PlanStepView;
use crate::session::Session;
use crate::session::SessionView;
use crate::session::ToolCall;
use crate::session::ToolCallView;
use crate::text::begins;
use crate::text::blank;
use crate::text::first_chars;
use crate::text::is_blank;
use crate::text::lower;
use crate::text::same;
use crate::text::same_ignoring_case;
use crate::text::starts_with;
use crate::text::take_chars;
use crate::text::texts;
use crate::text::texts_empty;
use crate::text::texts_push;
use crate::text::to_lower;
use crate::text::trim;
use crate::text::trimmed;
use crate::timeline::NoticeKind;
use crate::timeline::TimelineEntry;
use crate::timeline::TimelineEntryView;
use crate::tui::AfterSave;
use crate::tui::AfterSaveView;
use crate::tui::MemoryRequest;
use crate::tui::MemoryRequestView;
use crate::tui::ModelUse;
use crate::tui::OverlayKind;
use crate::tui::PendingApproval;
use crate::tui::PendingApprovalView;
use crate::tui::SettingsTab;
use crate::tui::TuiAction;
use crate::tui::TuiActionView;
use crate::tui::TuiState;
use crate::tui::TuiStateView;
use crate::tui::asking;
use crate::tui::idle_required;
use crate::tui::nothing;
use crate::tui::only;
use crate::tui::overlay_opened;
use crate::tui::policy_label;
use crate::tui::quiet;
use crate::tui_events::compaction_requested;
use crate::tui_events::count_done;
use crate::tui_events::request_compaction;
use crate::tui_events::steps_done;
use crate::tui_events::stop_turn;
use crate::tui_events::stopped;
use crate::views::group_views;
use crate::views::opt;
use crate::views::views;

verus! {

broadcast use {group_views, texts_push, texts_empty};

/// An entry of the memory.
#[derive(Debug)]
pub struct MemoryItem {
    pub name: String,
    pub memory_type: String,
    pub scope: Option<String>,
    pub description: String,
    pub stale: bool,
    pub updated: String,
    pub content: String,
}

/// What a `MemoryItem` holds.
#[verifier::ext_equal]
pub struct MemoryItemView {
    pub name: Seq<char>,
    pub memory_type: Seq<char>,
    pub scope: Option<Seq<char>>,
    pub description: Seq<char>,
    pub stale: bool,
    pub updated: Seq<char>,
    pub content: Seq<char>,
}

impl View for MemoryItem {
    type V = MemoryItemView;

    open spec fn view(&self) -> MemoryItemView {
        MemoryItemView {
            name: self.name@,
            memory_type: self.memory_type@,
            scope: opt(self.scope),
            description: self.description@,
            stale: self.stale,
            updated: self.updated@,
            content: self.content@,
        }
    }
}

/// What the memory answers.
#[derive(Debug)]
pub enum MemoryReply {
    /// All entries.
    Listed(Vec<MemoryItem>),
    /// An entry was saved.
    Saved { name: String, path: String },
    /// An entry was deleted, if there was one.
    Deleted { name: String, found: bool },
    /// The entries that match.
    Found(Vec<MemoryItem>),
    /// One entry.
    Shown(MemoryItem),
    /// There is no entry of that name.
    Missing(String),
    /// The index was written anew.
    Refreshed,
}

/// What a `MemoryReply` holds.
#[verifier::ext_equal]
pub enum MemoryReplyView {
    Listed(Seq<MemoryItemView>),
    Saved { name: Seq<char>, path: Seq<char> },
    Deleted { name: Seq<char>, found: bool },
    Found(Seq<MemoryItemView>),
    Shown(MemoryItemView),
    Missing(Seq<char>),
    Refreshed,
}

impl View for MemoryReply {
    type V = MemoryReplyView;

    open spec fn view(&self) -> MemoryReplyView {
        match *self {
            MemoryReply::Listed(a0) => MemoryReplyView::Listed(views(a0@)),
            MemoryReply::Saved { name, path } => MemoryReplyView::Saved { name: name@, path: path@ },
            MemoryReply::Deleted { name, found } => MemoryReplyView::Deleted { name: name@, found: found },
            MemoryReply::Found(a0) => MemoryReplyView::Found(views(a0@)),
            MemoryReply::Shown(a0) => MemoryReplyView::Shown(a0@),
            MemoryReply::Missing(a0) => MemoryReplyView::Missing(a0@),
            MemoryReply::Refreshed => MemoryReplyView::Refreshed,
        }
    }
}

/// A configuration that was found in what was typed.
#[derive(Debug)]
pub enum AutoConfigIntent {
    /// A provider.
    Provider(Json),
    /// Servers.
    Mcp(Json),
    /// A command that starts a server.
    McpCommand(String),
    /// Where a skill is found.
    Skill(String),
}

/// What a `AutoConfigIntent` holds.
#[verifier::ext_equal]
pub enum AutoConfigIntentView {
    Provider(JsonView),
    Mcp(JsonView),
    McpCommand(Seq<char>),
    Skill(Seq<char>),
}

impl View for AutoConfigIntent {
    type V = AutoConfigIntentView;

    open spec fn view(&self) -> AutoConfigIntentView {
        match *self {
            AutoConfigIntent::Provider(a0) => AutoConfigIntentView::Provider(a0@),
            AutoConfigIntent::Mcp(a0) => AutoConfigIntentView::Mcp(a0@),
            AutoConfigIntent::McpCommand(a0) => AutoConfigIntentView::McpCommand(a0@),
            AutoConfigIntent::Skill(a0) => AutoConfigIntentView::Skill(a0@),
        }
    }
}

// ---------------------------------------------------------------------------
// Status
// ---------------------------------------------------------------------------

/// What the status notice says.
#[verifier::opaque]
pub open spec fn status_notice(s: TuiStateView, context: ContextStatus) -> Seq<char> {
    s.session.provider_id + " / "@ + s.session.model + " | "@ + policy_label(
        s.policy_labels,
        s.policy,
    ) + " | context "@ + decimal(context.used_percent as nat) + "% ("@ + decimal(
        context.used_tokens as nat,
    ) + "/"@ + decimal(context.effective_context_window as nat) + ") | plan "@ + plan_summary(
        s.session,
    ) + " | loop "@ + loop_summary(s.session)
}

/// How long the plan is.
pub open spec fn plan_summary(session: SessionView) -> Seq<char> {
    match session.plan {
        None => "none"@,
        Some(plan) => decimal(plan.steps.len()) + " step(s)"@,
    }
}

/// How the loop does.
pub open spec fn loop_summary(session: SessionView) -> Seq<char> {
    match session.loop_state {
        None => "none"@,
        Some(state) => status_label(state.status) + ", "@ + decimal(state.turns_completed as nat)
            + " turn(s)"@,
    }
}

fn summarise_plan(session: &Session) -> (result: String)
    ensures
        result@ == plan_summary(session@),
{
    match &session.plan {
        None => "none".to_owned(),
        Some(plan) => {
            let mut text = print_usize(plan.steps.len());
            text.push_str(" step(s)");
            text
        },
    }
}

fn summarise_loop(session: &Session) -> (result: String)
    ensures
        result@ == loop_summary(session@),
{
    match &session.loop_state {
        None => "none".to_owned(),
        Some(state) => {
            let mut text = loop_label(state.status);
            text.push_str(", ");
            text.push_str(&print_u64(state.turns_completed));
            text.push_str(" turn(s)");
            text
        },
    }
}

/// Shows how the session does. The context is as measured, or else as it was last told.
pub fn show_session_status(app: &mut TuiState, measured: Option<ContextStatus>)
    ensures
        final(app)@ == old(app)@.noticed(
            NoticeKind::Success,
            status_notice(
                old(app)@,
                match measured {
                    Some(context) => context,
                    None => old(app)@.context_status,
                },
            ),
        ),
{
    proof {
        reveal(status_notice);
    }
    let context = match measured {
        Some(context) => context,
        None => app.context_status,
    };
    let mut text = app.session.provider_id.clone();
    text.push_str(" / ");
    text.push_str(&app.session.model);
    text.push_str(" | ");
    text.push_str(&app.policy_labels.of(app.policy));
    text.push_str(" | context ");
    text.push_str(&print_u64(context.used_percent));
    text.push_str("% (");
    text.push_str(&print_u64(context.used_tokens));
    text.push_str("/");
    text.push_str(&print_u64(context.effective_context_window));
    text.push_str(") | plan ");
    text.push_str(&summarise_plan(&app.session));
    text.push_str(" | loop ");
    text.push_str(&summarise_loop(&app.session));
    app.push_notice(NoticeKind::Success, text);
}

/// The step that is worked on, in a plan from some step on.
pub open spec fn current_step(steps: Seq<PlanStepView>) -> Seq<char>
    decreases steps.len(),
{
    if steps.len() == 0 {
        "No active step"@
    } else if steps[0].status == PlanStepStatus::InProgress {
        steps[0].step
    } else {
        current_step(steps.skip(1))
    }
}

fn find_current_step(steps: &Vec<PlanStep>) -> (result: String)
    ensures
        result@ == current_step(views(steps@)),
{
    let ghost all = views(steps@);
    let mut i: usize = 0;
    assert(all.skip(0) =~= all);
    while i < steps.len()
        invariant
            i <= steps@.len(),
            all == views(steps@),
            current_step(all) == current_step(all.skip(i as int)),
        decreases steps@.len() - i,
    {
        assert(all.skip(i as int)[0] == steps@[i as int]@);
        if steps[i].status == PlanStepStatus::InProgress {
            return steps[i].step.clone();
        }
        assert(all.skip(i as int).skip(1) =~= all.skip(i + 1));
        i = i + 1;
    }
    "No active step".to_owned()
}

/// The state after the plan was asked for.
#[verifier::opaque]
pub open spec fn plan_shown(s: TuiStateView) -> TuiStateView {
    match s.session.plan {
        None => s.noticed(NoticeKind::Warning, "No Plan is configured"@),
        Some(plan) => s.noticed(
            NoticeKind::Success,
            "Plan "@ + decimal(steps_done(plan.steps)) + "/"@ + decimal(plan.steps.len()) + " | "@
                + current_step(plan.steps),
        ),
    }
}

/// Shows how far the plan has come.
pub fn show_plan_status(app: &mut TuiState)
    ensures
        final(app)@ == plan_shown(old(app)@),
{
    proof {
        reveal(plan_shown);
    }
    let mut text = "Plan ".to_owned();
    let known = match &app.session.plan {
        Some(plan) => {
            text.push_str(&print_usize(count_done(&plan.steps)));
            text.push_str("/");
            text.push_str(&print_usize(plan.steps.len()));
            text.push_str(" | ");
            text.push_str(&find_current_step(&plan.steps));
            true
        },
        None => false,
    };
    if known {
        app.push_notice(NoticeKind::Success, text);
    } else {
        app.push_notice(NoticeKind::Warning, "No Plan is configured".to_owned());
    }
}

// ---------------------------------------------------------------------------
// Loops
// ---------------------------------------------------------------------------

/// The state with another loop.
pub open spec fn with_loop(s: TuiStateView, state: Option<LoopStateView>) -> TuiStateView {
    TuiStateView { session: SessionView { loop_state: state, ..s.session }, ..s }
}

/// The state after the loop was asked for.
#[verifier::opaque]
pub open spec fn loop_shown(s: TuiStateView) -> TuiStateView {
    match s.session.loop_state {
        None => s.noticed(NoticeKind::Warning, "No Loop is configured"@),
        Some(state) => s.noticed(
            NoticeKind::Success,
            "Loop "@ + status_label(state.status) + ": "@ + state.objective + " ("@ + decimal(
                state.tokens_used as nat,
            ) + " tokens, "@ + decimal(state.turns_completed as nat) + " turns)"@,
        ),
    }
}

/// Shows how the loop does.
pub fn show_loop_status(app: &mut TuiState)
    ensures
        final(app)@ == loop_shown(old(app)@),
{
    proof {
        reveal(loop_shown);
    }
    let mut text = "Loop ".to_owned();
    let known = match &app.session.loop_state {
        Some(state) => {
            text.push_str(&loop_label(state.status));
            text.push_str(": ");
            text.push_str(&state.objective);
            text.push_str(" (");
            text.push_str(&print_u64(state.tokens_used));
            text.push_str(" tokens, ");
            text.push_str(&print_u64(state.turns_completed));
            text.push_str(" turns)");
            true
        },
        None => false,
    };
    if known {
        app.push_notice(NoticeKind::Success, text);
    } else {
        app.push_notice(NoticeKind::Warning, "No Loop is configured".to_owned());
    }
}

/// A loop that has not begun.
pub open spec fn new_loop(objective: Seq<char>) -> LoopStateView {
    LoopStateView {
        objective,
        status: LoopStatus::Active,
        token_budget: None,
        tokens_used: 0,
        time_used_seconds: 0,
        blocked_streak: 0,
        turns_completed: 0,
    }
}

/// Whether another loop goes on.
pub open spec fn other_loop(session: SessionView, objective: Seq<char>) -> bool {
    session.loop_state matches Some(state) && state.status == LoopStatus::Active && state.objective
        != objective
}

/// The step that creates a loop, unless another one goes on.
#[verifier::opaque]
pub open spec fn loop_created(s: TuiStateView, objective: Seq<char>) -> (
    TuiStateView,
    Seq<TuiActionView>,
) {
    if is_blank(objective) {
        quiet(TuiStateView { editor: editing("/loop "@), ..s })
    } else if other_loop(s.session, objective) {
        quiet(
            s.noticed(
                NoticeKind::Warning,
                "Pause or clear the active Loop before replacing it"@,
            ),
        )
    } else {
        asking(
            TuiStateView {
                loop_continuation_pending: true,
                ..with_loop(s, Some(new_loop(trimmed(objective))))
            },
            TuiActionView::SaveSession(AfterSaveView::Status("Loop active"@)),
        )
    }
}

/// Creates a loop, unless another one goes on.
pub fn create_loop(app: &mut TuiState, objective: &str) -> (result: Vec<TuiAction>)
    ensures
        (final(app)@, views(result@)) == loop_created(old(app)@, objective@),
{
    proof {
        reveal(loop_created);
    }
    if blank(objective) {
        app.editor.set("/loop ");
        return nothing();
    }
    let other = match &app.session.loop_state {
        Some(state) => state.status == LoopStatus::Active && !same(&state.objective, objective),
        None => false,
    };
    if other {
        app.push_notice(
            NoticeKind::Warning,
            "Pause or clear the active Loop before replacing it".to_owned(),
        );
        return nothing();
    }
    app.session.loop_state = Some(
        LoopState {
            objective: trim(objective),
            status: LoopStatus::Active,
            token_budget: None,
            tokens_used: 0,
            time_used_seconds: 0,
            blocked_streak: 0,
            turns_completed: 0,
        },
    );
    app.loop_continuation_pending = true;
    only(TuiAction::SaveSession(AfterSave::Status("Loop active".to_owned())))
}

/// The step that pauses the loop or has it go on.
#[verifier::opaque]
pub open spec fn loop_set(s: TuiStateView, status: LoopStatus) -> (
    TuiStateView,
    Seq<TuiActionView>,
) {
    match s.session.loop_state {
        None => quiet(s.noticed(NoticeKind::Warning, "No Loop is configured"@)),
        Some(state) => asking(
            TuiStateView {
                loop_continuation_pending: status == LoopStatus::Active,
                status: lower("Loop: "@ + status_label(status)),
                ..with_loop(s, Some(LoopStateView { status, blocked_streak: 0, ..state }))
            },
            TuiActionView::SaveSession(AfterSaveView::Nothing),
        ),
    }
}

fn change_loop(session: &mut Session, status: LoopStatus) -> (result: bool)
    ensures
        result == old(session)@.loop_state is Some,
        final(session)@ == (SessionView {
            loop_state: match old(session)@.loop_state {
                Some(state) => Some(LoopStateView { status, blocked_streak: 0, ..state }),
                None => None,
            },
            ..old(session)@
        }),
{
    match &mut session.loop_state {
        Some(state) => {
            state.status = status;
            state.blocked_streak = 0;
            true
        },
        None => false,
    }
}

/// Pauses the loop or has it go on.
pub fn set_loop_status(app: &mut TuiState, status: LoopStatus) -> (result: Vec<TuiAction>)
    ensures
        (final(app)@, views(result@)) == loop_set(old(app)@, status),
{
    proof {
        reveal(loop_set);
    }
    if !change_loop(&mut app.session, status) {
        app.push_notice(NoticeKind::Warning, "No Loop is configured".to_owned());
        return nothing();
    }
    app.loop_continuation_pending = status == LoopStatus::Active;
    let mut text = "Loop: ".to_owned();
    text.push_str(&loop_label(status));
    app.status = to_lower(&text);
    only(TuiAction::SaveSession(AfterSave::Nothing))
}

/// The step that removes the loop.
#[verifier::opaque]
pub open spec fn loop_cleared(s: TuiStateView) -> (TuiStateView, Seq<TuiActionView>) {
    asking(
        TuiStateView {
            loop_continuation_pending: false,
            status: "Loop cleared"@,
            ..with_loop(s, None)
        },
        TuiActionView::SaveSession(AfterSaveView::Nothing),
    )
}

/// Removes the loop.
pub fn clear_loop(app: &mut TuiState) -> (result: Vec<TuiAction>)
    ensures
        (final(app)@, views(result@)) == loop_cleared(old(app)@),
{
    proof {
        reveal(loop_cleared);
    }
    app.session.loop_state = None;
    app.loop_continuation_pending = false;
    app.say("Loop cleared");
    only(TuiAction::SaveSession(AfterSave::Nothing))
}

/// The state with the objective of the loop in the input line.
#[verifier::opaque]
pub open spec fn loop_edited(s: TuiStateView) -> TuiStateView {
    TuiStateView {
        editor: editing(
            match s.session.loop_state {
                Some(state) => "/loop "@ + state.objective,
                None => "/loop "@,
            },
        ),
        ..s
    }
}

/// Puts the objective of the loop in the input line.
pub fn edit_loop(app: &mut TuiState)
    ensures
        final(app)@ == loop_edited(old(app)@),
{
    proof {
        reveal(loop_edited);
    }
    let mut text = "/loop ".to_owned();
    if let Some(state) = &app.session.loop_state {
        text.push_str(&state.objective);
    }
    app.editor.set(&text);
}

// ---------------------------------------------------------------------------
// Sessions
// ---------------------------------------------------------------------------

/// The step that starts a new session, unless a turn runs.
#[verifier::opaque]
pub open spec fn session_begun(s: TuiStateView, id: Seq<char>) -> (TuiStateView, Seq<TuiActionView>) {
    if s.busy {
        quiet(idle_required(s, "start a new session"@))
    } else {
        asking(
            TuiStateView {
                session: crate::session::new_session(id, s.session.provider_id, s.session.model, s.cwd),
                timeline: Seq::empty(),
                queue: Seq::empty(),
                status: "New session"@,
                ..s
            }.closed(),
            TuiActionView::SaveSession(AfterSaveView::ListSessions),
        )
    }
}

/// Starts a new session under an identifier, unless a turn runs.
pub fn begin_session(app: &mut TuiState, id: String) -> (result: Vec<TuiAction>)
    ensures
        (final(app)@, views(result@)) == session_begun(old(app)@, id@),
{
    proof {
        reveal(session_begun);
    }
    if !app.require_idle("start a new session") {
        return nothing();
    }
    app.session = Session::new(
        id,
        app.session.provider_id.clone(),
        app.session.model.clone(),
        app.cwd.clone(),
    );
    app.timeline = Vec::new();
    app.queue = Vec::new();
    app.say("New session");
    app.close_overlay();
    only(TuiAction::SaveSession(AfterSave::ListSessions))
}

/// Starts a new session under a random identifier, unless a turn runs.
pub fn new_session(app: &mut TuiState) -> (result: Vec<TuiAction>)
    ensures
        exists|id: Seq<char>|
            id.len() == 36 && (final(app)@, views(result@)) == #[trigger] session_begun(
                old(app)@,
                id,
            ),
{
    let id = fresh_uuid();
    begin_session(app, id)
}

/// The step that cancels the running turn.
#[verifier::opaque]
pub open spec fn turn_cancelled(s: TuiStateView) -> (TuiStateView, Seq<TuiActionView>) {
    let (halted, actions) = stopped(s);
    let active = s.session.loop_state matches Some(state) && state.status == LoopStatus::Active;
    (
        TuiStateView {
            busy: false,
            active_generation: None,
            queue: Seq::empty(),
            loop_continuation_pending: false,
            session: if active {
                SessionView {
                    loop_state: Some(
                        LoopStateView { status: LoopStatus::Paused, ..s.session.loop_state->0 },
                    ),
                    ..s.session
                }
            } else {
                s.session
            },
            status: "Turn cancelled"@,
            ..halted
        }.noticed(NoticeKind::Warning, "Active turn cancelled"@),
        actions + (if active {
            seq![TuiActionView::SaveSession(AfterSaveView::Ignore)]
        } else {
            Seq::empty()
        }),
    )
}

fn pause_loop(session: &mut Session) -> (result: bool)
    ensures
        result == (old(session)@.loop_state matches Some(state) && state.status
            == LoopStatus::Active),
        final(session)@ == (if result {
            SessionView {
                loop_state: Some(
                    LoopStateView {
                        status: LoopStatus::Paused,
                        ..old(session)@.loop_state->0
                    },
                ),
                ..old(session)@
            }
        } else {
            old(session)@
        }),
{
    match &mut session.loop_state {
        Some(state) => {
            if state.status == LoopStatus::Active {
                state.status = LoopStatus::Paused;
                true
            } else {
                false
            }
        },
        None => false,
    }
}

/// Cancels the running turn. A loop that goes on is paused.
pub fn cancel_active_turn(app: &mut TuiState) -> (result: Vec<TuiAction>)
    ensures
        (final(app)@, views(result@)) == turn_cancelled(old(app)@),
{
    proof {
        reveal(turn_cancelled);
    }
    let mut actions = stop_turn(app);
    let ghost stops = views(actions@);
    app.busy = false;
    app.active_generation = None;
    app.queue = Vec::new();
    app.loop_continuation_pending = false;
    let paused = pause_loop(&mut app.session);
    if paused {
        actions.push(TuiAction::SaveSession(AfterSave::Ignore));
    }
    assert(views(actions@) =~= stops + (if paused {
        seq![TuiActionView::SaveSession(AfterSaveView::Ignore)]
    } else {
        Seq::empty()
    }));
    app.say("Turn cancelled");
    app.push_notice(NoticeKind::Warning, "Active turn cancelled".to_owned());
    actions
}

// ---------------------------------------------------------------------------
// Memory
// ---------------------------------------------------------------------------

/// A text up to its first blank.
pub open spec fn head_word(text: Seq<char>) -> Seq<char> {
    match cut_once(text, ' ') {
        Some((head, _)) => head,
        None => text,
    }
}

/// A text behind its first blank.
pub open spec fn tail_text(text: Seq<char>) -> Seq<char> {
    match cut_once(text, ' ') {
        Some((_, tail)) => tail,
        None => Seq::empty(),
    }
}

fn split_command(text: &str) -> (result: (String, String))
    ensures
        result.0@ == head_word(text@),
        result.1@ == tail_text(text@),
{
    match split_once(text, ' ') {
        Some(pair) => pair,
        None => (text.to_owned(), String::new()),
    }
}

/// What is asked of the memory, or what the user is told.
pub open spec fn memory_wish(argument: Seq<char>, id: Seq<char>) -> Result<
    MemoryRequestView,
    Seq<char>,
> {
    let word = lower(head_word(argument));
    let value = tail_text(argument);
    if word == ""@ || word == "list"@ {
        Ok(MemoryRequestView::List)
    } else if word == "add"@ {
        if is_blank(value) {
            Err("Usage: /memory add <content>"@)
        } else {
            Ok(
                MemoryRequestView::Save {
                    scope: "Local"@,
                    memory_type: "User"@,
                    name: "memory-"@ + first_chars(id, 8),
                    description: first_chars(value, 50),
                    content: trimmed(value),
                },
            )
        }
    } else if word == "delete"@ {
        if is_blank(value) {
            Err("Usage: /memory delete <name>"@)
        } else {
            Ok(MemoryRequestView::Delete(trimmed(value)))
        }
    } else if word == "search"@ {
        if is_blank(value) {
            Err("Usage: /memory search <query>"@)
        } else {
            Ok(MemoryRequestView::Search { query: trimmed(value), limit: 10 })
        }
    } else if word == "show"@ {
        if is_blank(value) {
            Err("Usage: /memory show <name>"@)
        } else {
            Ok(MemoryRequestView::Show(trimmed(value)))
        }
    } else if word == "refresh"@ {
        Ok(MemoryRequestView::Refresh)
    } else {
        Err("Memory commands: /memory list|add|delete|search|show|refresh"@)
    }
}

fn read_memory_wish(argument: &str, id: &str) -> (result: Result<MemoryRequest, String>)
    ensures
        match result {
            Ok(request) => memory_wish(argument@, id@) == Ok::<MemoryRequestView, Seq<char>>(request@),
            Err(text) => memory_wish(argument@, id@) == Err::<MemoryRequestView, Seq<char>>(text@),
        },
{
    let (head, value) = split_command(argument);
    let word = to_lower(&head);
    let empty = blank(&value);
    if same(&word, "") || same(&word, "list") {
        Ok(MemoryRequest::List)
    } else if same(&word, "add") {
        if empty {
            return Err("Usage: /memory add <content>".to_owned());
        }
        let mut name = "memory-".to_owned();
        name.push_str(&take_chars(id, 8));
        Ok(
            MemoryRequest::Save {
                scope: "Local".to_owned(),
                memory_type: "User".to_owned(),
                name,
                description: take_chars(&value, 50),
                content: trim(&value),
            },
        )
    } else if same(&word, "delete") {
        if empty {
            return Err("Usage: /memory delete <name>".to_owned());
        }
        Ok(MemoryRequest::Delete(trim(&value)))
    } else if same(&word, "search") {
        if empty {
            return Err("Usage: /memory search <query>".to_owned());
        }
        Ok(MemoryRequest::Search { query: trim(&value), limit: 10 })
    } else if same(&word, "show") {
        if empty {
            return Err("Usage: /memory show <name>".to_owned());
        }
        Ok(MemoryRequest::Show(trim(&value)))
    } else if same(&word, "refresh") {
        Ok(MemoryRequest::Refresh)
    } else {
        Err("Memory commands: /memory list|add|delete|search|show|refresh".to_owned())
    }
}

/// The step after a command about the memory.
#[verifier::opaque]
pub open spec fn memory_step(s: TuiStateView, argument: Seq<char>, id: Seq<char>) -> (
    TuiStateView,
    Seq<TuiActionView>,
) {
    match memory_wish(argument, id) {
        Ok(request) => asking(s, TuiActionView::AskMemory(request)),
        Err(text) => quiet(s.noticed(NoticeKind::Warning, text)),
    }
}

/// Takes a command about the memory. A new entry is named after the beginning of `id`.
pub fn handle_memory_command(app: &mut TuiState, argument: &str, id: &str) -> (result: Vec<TuiAction>)
    ensures
        (final(app)@, views(result@)) == memory_step(old(app)@, argument@, id@),
{
    proof {
        reveal(memory_step);
    }
    match read_memory_wish(argument, id) {
        Ok(request) => only(TuiAction::AskMemory(request)),
        Err(text) => {
            app.push_notice(NoticeKind::Warning, text);
            nothing()
        },
    }
}

/// Where an entry belongs.
pub open spec fn scope_name(item: MemoryItemView) -> Seq<char> {
    match item.scope {
        Some(scope) => scope,
        None => "Project"@,
    }
}

/// The notice of an entry in the list of all.
pub open spec fn listed_entry(item: MemoryItemView) -> TimelineEntryView {
    TimelineEntryView::Notice {
        kind: if item.stale {
            NoticeKind::Warning
        } else {
            NoticeKind::Success
        },
        text: item.name + " ["@ + item.memory_type + "/"@ + scope_name(item) + "] - "@
            + item.description + (if item.stale {
            " [stale]"@
        } else {
            ""@
        }),
    }
}

/// The notice of an entry that was searched for.
pub open spec fn found_entry(item: MemoryItemView) -> TimelineEntryView {
    TimelineEntryView::Notice {
        kind: NoticeKind::Success,
        text: item.name + " - "@ + item.description,
    }
}

/// The notices of the entries in the list of all.
pub open spec fn listed_entries(items: Seq<MemoryItemView>) -> Seq<TimelineEntryView> {
    items.map_values(|item: MemoryItemView| listed_entry(item))
}

/// The notices of the entries that were searched for.
pub open spec fn found_entries(items: Seq<MemoryItemView>) -> Seq<TimelineEntryView> {
    items.map_values(|item: MemoryItemView| found_entry(item))
}

/// An entry in full.
pub open spec fn full_entry(item: MemoryItemView) -> Seq<char> {
    "### Memory: "@ + item.name + "\n\nType: `"@ + item.memory_type + "`  \nScope: `"@ + scope_name(
        item,
    ) + "`  \nUpdated: `"@ + item.updated + "`\n\n"@ + item.content
}

/// One notice.
pub open spec fn one_notice(kind: NoticeKind, text: Seq<char>) -> Seq<TimelineEntryView> {
    seq![TimelineEntryView::Notice { kind, text }]
}

/// What is shown of an answer of the memory.
pub open spec fn memory_entries(reply: MemoryReplyView) -> Seq<TimelineEntryView> {
    match reply {
        MemoryReplyView::Listed(items) => if items.len() == 0 {
            one_notice(NoticeKind::Warning, "No persistent memories"@)
        } else {
            one_notice(NoticeKind::Success, decimal(items.len()) + " persistent memory item(s)"@)
                + listed_entries(items)
        },
        MemoryReplyView::Saved { name, path } => one_notice(
            NoticeKind::Success,
            "Saved "@ + name + " at "@ + path,
        ),
        MemoryReplyView::Deleted { name, found } => if found {
            one_notice(NoticeKind::Success, "Deleted memory "@ + name)
        } else {
            one_notice(NoticeKind::Warning, "Memory not found: "@ + name)
        },
        MemoryReplyView::Found(items) => if items.len() == 0 {
            one_notice(NoticeKind::Warning, "No matching memories"@)
        } else {
            found_entries(items)
        },
        MemoryReplyView::Shown(item) => seq![TimelineEntryView::Assistant(full_entry(item))],
        MemoryReplyView::Missing(name) => one_notice(
            NoticeKind::Warning,
            "Memory not found: "@ + name,
        ),
        MemoryReplyView::Refreshed => one_notice(NoticeKind::Success, "Memory index refreshed"@),
    }
}

/// The state after the memory answered.
pub open spec fn memory_told(s: TuiStateView, reply: MemoryReplyView) -> TuiStateView {
    TuiStateView { timeline: s.timeline + memory_entries(reply), follow_tail: true, ..s }
}

fn scope_of(item: &MemoryItem) -> (result: String)
    ensures
        result@ == scope_name(item@),
{
    match &item.scope {
        Some(scope) => scope.clone(),
        None => "Project".to_owned(),
    }
}

fn list_entry(item: &MemoryItem) -> (result: TimelineEntry)
    ensures
        result@ == listed_entry(item@),
{
    let mut text = item.name.clone();
    text.push_str(" [");
    text.push_str(&item.memory_type);
    text.push_str("/");
    text.push_str(&scope_of(item));
    text.push_str("] - ");
    text.push_str(&item.description);
    text.push_str(
        if item.stale {
            " [stale]"
        } else {
            ""
        },
    );
    let kind = if item.stale {
        NoticeKind::Warning
    } else {
        NoticeKind::Success
    };
    TimelineEntry::Notice { kind, text }
}

fn find_entry(item: &MemoryItem) -> (result: TimelineEntry)
    ensures
        result@ == found_entry(item@),
{
    let mut text = item.name.clone();
    text.push_str(" - ");
    text.push_str(&item.description);
    TimelineEntry::Notice { kind: NoticeKind::Success, text }
}

fn add_listed(timeline: &mut Vec<TimelineEntry>, items: &Vec<MemoryItem>)
    ensures
        views(final(timeline)@) == views(old(timeline)@) + listed_entries(views(items@)),
{
    let ghost wanted = listed_entries(views(items@));
    let ghost before = views(timeline@);
    let mut i: usize = 0;
    assert(before + wanted.take(0) =~= before);
    while i < items.len()
        invariant
            i <= items@.len(),
            wanted == listed_entries(views(items@)),
            views(timeline@) == before + wanted.take(i as int),
        decreases items@.len() - i,
    {
        timeline.push(list_entry(&items[i]));
        assert(wanted[i as int] == listed_entry(items@[i as int]@));
        assert(before + wanted.take(i + 1) =~= (before + wanted.take(i as int)).push(wanted[i as int]));
        i = i + 1;
    }
    assert(wanted.take(i as int) =~= wanted);
}

fn add_found(timeline: &mut Vec<TimelineEntry>, items: &Vec<MemoryItem>)
    ensures
        views(final(timeline)@) == views(old(timeline)@) + found_entries(views(items@)),
{
    let ghost wanted = found_entries(views(items@));
    let ghost before = views(timeline@);
    let mut i: usize = 0;
    assert(before + wanted.take(0) =~= before);
    while i < items.len()
        invariant
            i <= items@.len(),
            wanted == found_entries(views(items@)),
            views(timeline@) == before + wanted.take(i as int),
        decreases items@.len() - i,
    {
        timeline.push(find_entry(&items[i]));
        assert(wanted[i as int] == found_entry(items@[i as int]@));
        assert(before + wanted.take(i + 1) =~= (before + wanted.take(i as int)).push(wanted[i as int]));
        i = i + 1;
    }
    assert(wanted.take(i as int) =~= wanted);
}

fn write_entry(item: &MemoryItem) -> (result: String)
    ensures
        result@ == full_entry(item@),
{
    let mut text = "### Memory: ".to_owned();
    text.push_str(&item.name);
    text.push_str("\n\nType: `");
    text.push_str(&item.memory_type);
    text.push_str("`  \nScope: `");
    text.push_str(&scope_of(item));
    text.push_str("`  \nUpdated: `");
    text.push_str(&item.updated);
    text.push_str("`\n\n");
    text.push_str(&item.content);
    text
}

fn labelled(label: &str, text: &str) -> (result: String)
    ensures
        result@ == label@ + text@,
{
    let mut result = label.to_owned();
    result.push_str(text);
    result
}

fn notice(kind: NoticeKind, text: String) -> (result: Vec<TimelineEntry>)
    ensures
        views(result@) == one_notice(kind, text@),
{
    let mut entries: Vec<TimelineEntry> = Vec::new();
    entries.push(TimelineEntry::Notice { kind, text });
    assert(views(entries@) =~= one_notice(kind, text@));
    entries
}

fn write_answer(reply: &MemoryReply) -> (result: Vec<TimelineEntry>)
    ensures
        views(result@) == memory_entries(reply@),
{
    match reply {
        MemoryReply::Listed(items) => {
            if items.len() == 0 {
                notice(NoticeKind::Warning, "No persistent memories".to_owned())
            } else {
                let mut text = print_usize(items.len());
                text.push_str(" persistent memory item(s)");
                let mut entries = notice(NoticeKind::Success, text);
                add_listed(&mut entries, items);
                entries
            }
        },
        MemoryReply::Saved { name, path } => {
            let mut text = labelled("Saved ", name);
            text.push_str(" at ");
            text.push_str(path);
            notice(NoticeKind::Success, text)
        },
        MemoryReply::Deleted { name, found } => {
            if *found {
                notice(NoticeKind::Success, labelled("Deleted memory ", name))
            } else {
                notice(NoticeKind::Warning, labelled("Memory not found: ", name))
            }
        },
        MemoryReply::Found(items) => {
            if items.len() == 0 {
                notice(NoticeKind::Warning, "No matching memories".to_owned())
            } else {
                let mut entries: Vec<TimelineEntry> = Vec::new();
                add_found(&mut entries, items);
                assert(views(entries@) =~= found_entries(views(items@)));
                entries
            }
        },
        MemoryReply::Shown(item) => {
            let mut entries: Vec<TimelineEntry> = Vec::new();
            entries.push(TimelineEntry::Assistant(write_entry(item)));
            assert(views(entries@) =~= seq![TimelineEntryView::Assistant(full_entry(item@))]);
            entries
        },
        MemoryReply::Missing(name) => notice(
            NoticeKind::Warning,
            labelled("Memory not found: ", name),
        ),
        MemoryReply::Refreshed => notice(
            NoticeKind::Success,
            "Memory index refreshed".to_owned(),
        ),
    }
}

/// Shows what the memory answered.
pub fn memory_answered(app: &mut TuiState, reply: &MemoryReply)
    ensures
        final(app)@ == memory_told(old(app)@, reply@),
{
    let mut entries = write_answer(reply);
    let ghost before = app.timeline@;
    let ghost added = entries@;
    app.timeline.append(&mut entries);
    app.follow_tail = true;
    assert(views(app.timeline@) =~= views(before) + views(added));
}

// ---------------------------------------------------------------------------
// Slash commands
// ---------------------------------------------------------------------------

/// The step that opens a page of the settings, unless a turn runs.
#[verifier::opaque]
pub open spec fn tab_requested(s: TuiStateView, tab: SettingsTab) -> (
    TuiStateView,
    Seq<TuiActionView>,
) {
    if s.busy {
        quiet(idle_required(s, "open Settings"@))
    } else {
        asking(s, TuiActionView::ReadSettings(Some(tab)))
    }
}

/// Opens a page of the settings, unless a turn runs.
pub fn open_settings_tab(app: &mut TuiState, tab: SettingsTab) -> (result: Vec<TuiAction>)
    ensures
        (final(app)@, views(result@)) == tab_requested(old(app)@, tab),
{
    proof {
        reveal(tab_requested);
    }
    if !app.require_idle("open Settings") {
        return nothing();
    }
    only(TuiAction::ReadSettings(Some(tab)))
}

/// The step that switches to a model, unless a turn runs.
#[verifier::opaque]
pub open spec fn model_requested(s: TuiStateView, selector: Seq<char>, purpose: ModelUse) -> (
    TuiStateView,
    Seq<TuiActionView>,
) {
    if s.busy {
        quiet(idle_required(s, "switch models"@))
    } else {
        asking(s, TuiActionView::ResolveModel { selector, purpose })
    }
}

/// Switches to a model, unless a turn runs.
pub fn request_model(app: &mut TuiState, selector: String, purpose: ModelUse) -> (result: Vec<TuiAction>)
    ensures
        (final(app)@, views(result@)) == model_requested(old(app)@, selector@, purpose),
{
    proof {
        reveal(model_requested);
    }
    if !app.require_idle("switch models") {
        return nothing();
    }
    only(TuiAction::ResolveModel { selector, purpose })
}

/// The step after a command about the loop.
#[verifier::opaque]
pub open spec fn loop_step(s: TuiStateView, argument: Seq<char>) -> (
    TuiStateView,
    Seq<TuiActionView>,
) {
    if argument.len() == 0 {
        quiet(loop_shown(s))
    } else if lower(argument) == lower("pause"@) {
        loop_set(s, LoopStatus::Paused)
    } else if lower(argument) == lower("resume"@) {
        loop_set(s, LoopStatus::Active)
    } else if lower(argument) == lower("clear"@) {
        loop_cleared(s)
    } else if lower(argument) == lower("edit"@) {
        quiet(loop_edited(s))
    } else {
        loop_created(s, argument)
    }
}

fn handle_loop_command(app: &mut TuiState, argument: &str) -> (result: Vec<TuiAction>)
    ensures
        (final(app)@, views(result@)) == loop_step(old(app)@, argument@),
{
    proof {
        reveal(loop_step);
    }
    if argument.is_empty() {
        show_loop_status(app);
        nothing()
    } else if same_ignoring_case(argument, "pause") {
        set_loop_status(app, LoopStatus::Paused)
    } else if same_ignoring_case(argument, "resume") {
        set_loop_status(app, LoopStatus::Active)
    } else if same_ignoring_case(argument, "clear") {
        clear_loop(app)
    } else if same_ignoring_case(argument, "edit") {
        edit_loop(app);
        nothing()
    } else {
        create_loop(app, argument)
    }
}

/// The state with an empty timeline.
#[verifier::opaque]
pub open spec fn timeline_cleared(s: TuiStateView) -> TuiStateView {
    TuiStateView { timeline: Seq::empty(), ..s }
}

/// Empties the timeline.
pub fn clear_timeline(app: &mut TuiState)
    ensures
        final(app)@ == timeline_cleared(old(app)@),
{
    proof {
        reveal(timeline_cleared);
    }
    app.timeline = Vec::new();
}

/// The state that ends the interface.
#[verifier::opaque]
pub open spec fn leaving(s: TuiStateView) -> TuiStateView {
    TuiStateView { quit: true, ..s }
}

/// Ends the interface.
pub fn leave(app: &mut TuiState)
    ensures
        final(app)@ == leaving(old(app)@),
{
    proof {
        reveal(leaving);
    }
    app.quit = true;
}

/// The state that tells of a command that is not known.
#[verifier::opaque]
pub open spec fn unknown_command(s: TuiStateView, name: Seq<char>) -> TuiStateView {
    s.noticed(
        NoticeKind::Warning,
        "Unknown command: "@ + name + ". Press Ctrl+K for commands."@,
    )
}

fn tell_unknown(app: &mut TuiState, name: &str)
    ensures
        final(app)@ == unknown_command(old(app)@, name@),
{
    proof {
        reveal(unknown_command);
    }
    let mut text = "Unknown command: ".to_owned();
    text.push_str(name);
    text.push_str(". Press Ctrl+K for commands.");
    app.push_notice(NoticeKind::Warning, text);
}

/// What a slash command does.
pub open spec fn slash_step(s: TuiStateView, command: Seq<char>, id: Seq<char>) -> (
    TuiStateView,
    Seq<TuiActionView>,
) {
    let name = head_word(command);
    let argument = tail_text(command);
    if (name == "/model"@ || name == "/models"@) && argument.len() == 0 {
        overlay_opened(s, OverlayKind::Models)
    } else if name == "/model"@ {
        model_requested(s, argument, ModelUse::Switch)
    } else if name == "/history"@ || name == "/sessions"@ {
        overlay_opened(s, OverlayKind::History)
    } else if name == "/status"@ {
        asking(s, TuiActionView::MeasureContext)
    } else if name == "/compact"@ {
        compaction_requested(s)
    } else if name == "/mcp"@ {
        tab_requested(s, SettingsTab::Mcp)
    } else if name == "/skill"@ || name == "/skills"@ {
        tab_requested(s, SettingsTab::Skills)
    } else if name == "/memory"@ {
        memory_step(s, argument, id)
    } else if name == "/plan"@ {
        quiet(plan_shown(s))
    } else if name == "/loop"@ {
        loop_step(s, argument)
    } else if name == "/new"@ {
        session_begun(s, id)
    } else if name == "/catalog"@ {
        overlay_opened(s, OverlayKind::Catalog)
    } else if name == "/settings"@ {
        asking(s, TuiActionView::ReadSettings(None))
    } else if name == "/help"@ {
        overlay_opened(s, OverlayKind::Help)
    } else if name == "/clear"@ {
        quiet(timeline_cleared(s))
    } else if name == "/quit"@ || name == "/exit"@ {
        quiet(leaving(s))
    } else {
        quiet(unknown_command(s, name))
    }
}

/// Does what a slash command says. `id` is an identifier that is not in use.
pub fn execute_slash_command(app: &mut TuiState, command: &str, id: &str) -> (result: Vec<TuiAction>)
    ensures
        (final(app)@, views(result@)) == slash_step(old(app)@, command@, id@),
{
    let (name, argument) = split_command(command);
    if (same(&name, "/model") || same(&name, "/models")) && argument.as_str().is_empty() {
        app.open_overlay(OverlayKind::Models)
    } else if same(&name, "/model") {
        request_model(app, argument, ModelUse::Switch)
    } else if same(&name, "/history") || same(&name, "/sessions") {
        app.open_overlay(OverlayKind::History)
    } else if same(&name, "/status") {
        only(TuiAction::MeasureContext)
    } else if same(&name, "/compact") {
        request_compaction(app)
    } else if same(&name, "/mcp") {
        open_settings_tab(app, SettingsTab::Mcp)
    } else if same(&name, "/skill") || same(&name, "/skills") {
        open_settings_tab(app, SettingsTab::Skills)
    } else if same(&name, "/memory") {
        handle_memory_command(app, &argument, id)
    } else if same(&name, "/plan") {
        show_plan_status(app);
        nothing()
    } else if same(&name, "/loop") {
        handle_loop_command(app, &argument)
    } else if same(&name, "/new") {
        begin_session(app, id.to_owned())
    } else if same(&name, "/catalog") {
        app.open_overlay(OverlayKind::Catalog)
    } else if same(&name, "/settings") {
        only(TuiAction::ReadSettings(None))
    } else if same(&name, "/help") {
        app.open_overlay(OverlayKind::Help)
    } else if same(&name, "/clear") {
        clear_timeline(app);
        nothing()
    } else if same(&name, "/quit") || same(&name, "/exit") {
        leave(app);
        nothing()
    } else {
        tell_unknown(app, &name);
        nothing()
    }
}

// ---------------------------------------------------------------------------
// What was typed
// ---------------------------------------------------------------------------

/// The keys of an object.
pub open spec fn object_keys(fields: Seq<(Seq<char>, JsonView)>) -> Seq<Seq<char>> {
    fields.map_values(|field: (Seq<char>, JsonView)| field.0)
}

/// The servers that a configuration names.
pub open spec fn named_servers(value: JsonView) -> Seq<Seq<char>> {
    let servers = match member(value, "servers"@) {
        Some(servers) => Some(servers),
        None => member(value, "mcpServers"@),
    };
    match servers {
        Some(JsonView::Object(fields)) => object_keys(fields),
        _ => seq!["pasted server"@],
    }
}

/// The call that stands for a configuration, under an identifier.
pub open spec fn config_call(intent: AutoConfigIntentView, id: Seq<char>) -> ToolCallView {
    ToolCallView {
        id: "auto-config-"@ + id,
        name: match intent {
            AutoConfigIntentView::Provider(_) => "configure_provider"@,
            AutoConfigIntentView::Mcp(_) => "configure_mcp"@,
            AutoConfigIntentView::McpCommand(_) => "configure_mcp"@,
            AutoConfigIntentView::Skill(_) => "install_skill"@,
        },
        arguments: JsonView::Object(
            match intent {
                AutoConfigIntentView::Provider(value) => provider_arguments(value),
                AutoConfigIntentView::Mcp(value) => seq![
                    ("servers"@, JsonView::Array(text_values(named_servers(value)))),
                ],
                AutoConfigIntentView::McpCommand(command) => seq![
                    ("command"@, JsonView::Text(command)),
                ],
                AutoConfigIntentView::Skill(source) => seq![("source"@, JsonView::Text(source))],
            },
        ),
    }
}

/// What is shown of a provider that was pasted. Its key is hidden.
pub open spec fn provider_arguments(value: JsonView) -> Seq<(Seq<char>, JsonView)> {
    let named = match member(value, "id"@) {
        Some(id) => Some(id),
        None => member(value, "provider"@),
    };
    seq![
        (
            "provider"@,
            JsonView::Text(
                match text_of(named) {
                    Some(text) => text,
                    None => "pasted provider"@,
                },
            ),
        ),
        (
            "model"@,
            JsonView::Text(
                match text_of(member(value, "model"@)) {
                    Some(text) => text,
                    None => "configured model"@,
                },
            ),
        ),
        ("api_key"@, JsonView::Text("hidden"@)),
    ]
}

/// The question for a configuration.
pub open spec fn config_question(intent: AutoConfigIntentView) -> Seq<char> {
    "Allow Coomi to apply the detected "@ + (match intent {
        AutoConfigIntentView::Provider(_) => "Provider configuration"@,
        AutoConfigIntentView::Mcp(_) => "MCP configuration"@,
        AutoConfigIntentView::McpCommand(_) => "MCP command"@,
        AutoConfigIntentView::Skill(_) => "Skill installation"@,
    }) + "?"@
}

fn keys_of_object(fields: &Vec<(String, Json)>) -> (result: Vec<String>)
    ensures
        texts(result@) == object_keys(field_trees(fields@)),
{
    let ghost wanted = object_keys(field_trees(fields@));
    let mut keys: Vec<String> = Vec::new();
    let mut i: usize = 0;
    assert(wanted.take(0) =~= Seq::<Seq<char>>::empty());
    while i < fields.len()
        invariant
            i <= fields@.len(),
            wanted == object_keys(field_trees(fields@)),
            texts(keys@) == wanted.take(i as int),
        decreases fields@.len() - i,
    {
        keys.push(fields[i].0.clone());
        assert(wanted[i as int] == fields@[i as int].0@);
        assert(wanted.take(i + 1) =~= wanted.take(i as int).push(wanted[i as int]));
        i = i + 1;
    }
    assert(wanted.take(i as int) =~= wanted);
    keys
}

fn list_servers(value: &Json) -> (result: Vec<String>)
    ensures
        texts(result@) == named_servers(value@),
{
    broadcast use object_view;

    let servers = match value.get("servers") {
        Some(servers) => Some(servers),
        None => value.get("mcpServers"),
    };
    if let Some(Json::Object(fields)) = servers {
        keys_of_object(fields)
    } else {
        let mut keys: Vec<String> = Vec::new();
        keys.push("pasted server".to_owned());
        assert(texts(keys@) =~= seq!["pasted server"@]);
        keys
    }
}

fn write_provider(value: &Json) -> (result: Json)
    ensures
        result@ == JsonView::Object(provider_arguments(value@)),
{
    let named = match value.get("id") {
        Some(id) => Some(id),
        None => value.get("provider"),
    };
    let mut provider = "pasted provider".to_owned();
    if let Some(named) = named {
        if let Some(text) = named.as_text() {
            provider = text.to_owned();
        }
    }
    let model = match value.text_member("model") {
        Some(text) => text,
        None => "configured model".to_owned(),
    };
    let mut fields = Fields::new();
    fields.add("provider", Json::text(&provider));
    fields.add("model", Json::text(&model));
    fields.add("api_key", Json::text("hidden"));
    assert(fields@ =~= provider_arguments(value@));
    fields.done()
}

/// Returns the call that stands for a configuration, and the question for it.
pub fn auto_config_approval(intent: &AutoConfigIntent, id: &str) -> (result: (ToolCall, String))
    ensures
        result.0@ == config_call(intent@, id@),
        result.1@ == config_question(intent@),
{
    let mut call_id = "auto-config-".to_owned();
    call_id.push_str(id);
    let mut reason = "Allow Coomi to apply the detected ".to_owned();
    let name: String;
    let arguments: Json;
    match intent {
        AutoConfigIntent::Provider(value) => {
            name = "configure_provider".to_owned();
            arguments = write_provider(value);
            reason.push_str("Provider configuration");
        },
        AutoConfigIntent::Mcp(value) => {
            name = "configure_mcp".to_owned();
            let mut fields = Fields::new();
            fields.add("servers", text_array(&list_servers(value)));
            assert(fields@ =~= config_call(intent@, id@).arguments->Object_0);
            arguments = fields.done();
            reason.push_str("MCP configuration");
        },
        AutoConfigIntent::McpCommand(command) => {
            name = "configure_mcp".to_owned();
            let mut fields = Fields::new();
            fields.add("command", Json::text(command));
            assert(fields@ =~= config_call(intent@, id@).arguments->Object_0);
            arguments = fields.done();
            reason.push_str("MCP command");
        },
        AutoConfigIntent::Skill(source) => {
            name = "install_skill".to_owned();
            let mut fields = Fields::new();
            fields.add("source", Json::text(source));
            assert(fields@ =~= config_call(intent@, id@).arguments->Object_0);
            arguments = fields.done();
            reason.push_str("Skill installation");
        },
    }
    reason.push_str("?");
    (ToolCall { id: call_id, name, arguments }, reason)
}

/// The step after the input line was sent: what was typed is looked at.
#[verifier::opaque]
pub open spec fn line_sent(s: TuiStateView) -> (TuiStateView, Seq<TuiActionView>) {
    let prompt = trimmed(s.editor.text());
    let taken = TuiStateView { editor: editing(Seq::empty()), ..s };
    if prompt.len() == 0 {
        quiet(taken)
    } else {
        asking(taken, TuiActionView::DetectConfig(prompt))
    }
}

/// Sends the input line: what was typed is looked at.
pub fn submit_editor(app: &mut TuiState) -> (result: Vec<TuiAction>)
    ensures
        (final(app)@, views(result@)) == line_sent(old(app)@),
{
    proof {
        reveal(line_sent);
    }
    let text = app.editor.take();
    let prompt = trim(&text);
    if prompt.as_str().is_empty() {
        nothing()
    } else {
        only(TuiAction::DetectConfig(prompt))
    }
}

/// The step that applies a configuration: it is asked for, unless all is approved.
#[verifier::opaque]
pub open spec fn config_started(
    s: TuiStateView,
    intent: AutoConfigIntentView,
    id: Seq<char>,
    reply: u64,
) -> (TuiStateView, Seq<TuiActionView>) {
    let begun = TuiStateView {
        auto_config_busy: true,
        status: "Configuration approval required"@,
        ..s
    };
    if s.approve_all {
        (
            begun,
            seq![
                TuiActionView::AwaitAutoConfig { reply },
                TuiActionView::AnswerApproval { reply, approved: true },
            ],
        )
    } else {
        asking(
            TuiStateView {
                pending_approval: Some(
                    PendingApprovalView {
                        call: config_call(intent, id),
                        reason: config_question(intent),
                        reply,
                    },
                ),
                ..begun
            },
            TuiActionView::AwaitAutoConfig { reply },
        )
    }
}

fn start_auto_config(app: &mut TuiState, intent: &AutoConfigIntent, id: &str, reply: u64) -> (result: Vec<TuiAction>)
    ensures
        (final(app)@, views(result@)) == config_started(old(app)@, intent@, id@, reply),
{
    proof {
        reveal(config_started);
    }
    app.auto_config_busy = true;
    app.say("Configuration approval required");
    let mut actions = only(TuiAction::AwaitAutoConfig { reply });
    if app.approve_all {
        actions.push(TuiAction::AnswerApproval { reply, approved: true });
        assert(views(actions@) =~= config_started(old(app)@, intent@, id@, reply).1);
    } else {
        let (call, reason) = auto_config_approval(intent, id);
        app.pending_approval = Some(PendingApproval { call, reason, reply });
    }
    actions
}

/// The step that keeps a configuration for later.
#[verifier::opaque]
pub open spec fn config_kept(s: TuiStateView, prompt: Seq<char>) -> TuiStateView {
    TuiStateView { editor: editing(prompt), ..s }.noticed(
        NoticeKind::Warning,
        "Apply pasted configuration after the active operation finishes"@,
    )
}

fn keep_config(app: &mut TuiState, prompt: &str)
    ensures
        final(app)@ == config_kept(old(app)@, prompt@),
{
    proof {
        reveal(config_kept);
    }
    app.editor.set(prompt);
    app.push_notice(
        NoticeKind::Warning,
        "Apply pasted configuration after the active operation finishes".to_owned(),
    );
}

/// The step that sends a message: to the running turn, or as a new turn.
#[verifier::opaque]
pub open spec fn message_sent(s: TuiStateView, prompt: Seq<char>) -> (
    TuiStateView,
    Seq<TuiActionView>,
) {
    if s.busy {
        asking(
            TuiStateView {
                queue: s.queue.push(prompt),
                status: decimal(s.queue.len() + 1) + " queued message(s)"@,
                ..s
            },
            TuiActionView::QueueInput(prompt),
        )
    } else {
        asking(s, TuiActionView::PrepareTurn { prompt, continuation: false })
    }
}

fn send_message(app: &mut TuiState, prompt: String) -> (result: Vec<TuiAction>)
    ensures
        (final(app)@, views(result@)) == message_sent(old(app)@, prompt@),
{
    proof {
        reveal(message_sent);
    }
    if app.busy {
        app.queue.push(prompt.clone());
        let mut text = print_usize(app.queue.len());
        text.push_str(" queued message(s)");
        app.status = text;
        only(TuiAction::QueueInput(prompt))
    } else {
        only(TuiAction::PrepareTurn { prompt, continuation: false })
    }
}

/// What is done with what was typed: a configuration, a command or a message.
pub open spec fn prompt_step(
    s: TuiStateView,
    prompt: Seq<char>,
    intent: Option<AutoConfigIntentView>,
    id: Seq<char>,
    reply: u64,
) -> (TuiStateView, Seq<TuiActionView>) {
    match intent {
        Some(intent) => if s.busy || s.auto_config_busy {
            quiet(config_kept(s, prompt))
        } else {
            config_started(s, intent, id, reply)
        },
        None => if starts_with(prompt, "/"@) {
            slash_step(s, prompt, id)
        } else {
            message_sent(s, prompt)
        },
    }
}

/// Takes what was typed: a configuration, a command or a message. `id` is an identifier that
/// is not in use, `reply` where the answer to a call for approval goes.
pub fn take_prompt(
    app: &mut TuiState,
    prompt: String,
    intent: Option<AutoConfigIntent>,
    id: &str,
    reply: u64,
) -> (result: Vec<TuiAction>)
    ensures
        (final(app)@, views(result@)) == prompt_step(
            old(app)@,
            prompt@,
            opt(intent),
            id@,
            reply,
        ),
{
    match intent {
        Some(intent) => {
            if app.busy || app.auto_config_busy {
                keep_config(app, &prompt);
                nothing()
            } else {
                start_auto_config(app, &intent, id, reply)
            }
        },
        None => {
            if begins(&prompt, "/") {
                execute_slash_command(app, &prompt, id)
            } else {
                send_message(app, prompt)
            }
        },
    }
}

/// Takes what was typed, with a random identifier for what is new.
pub fn take_prompt_at_random(app: &mut TuiState, prompt: String, intent: Option<AutoConfigIntent>, reply: u64) -> (result: Vec<TuiAction>)
    ensures
        exists|id: Seq<char>|
            id.len() == 36 && (final(app)@, views(result@)) == #[trigger] prompt_step(
                old(app)@,
                prompt@,
                opt(intent),
                id,
                reply,
            ),
{
    let id = fresh_uuid();
    take_prompt(app, prompt, intent, &id, reply)
}

// ---------------------------------------------------------------------------
// Laws
// ---------------------------------------------------------------------------

/// A running turn protects its session: no slash command changes which session is open.
pub proof fn running_turns_keep_their_session(s: TuiStateView, command: Seq<char>, id: Seq<char>)
    requires
        s.busy,
    ensures
        slash_step(s, command, id).0.session.id == s.session.id,
        slash_step(s, command, id).0.session.messages == s.session.messages,
        slash_step(s, command, id).0.session.model == s.session.model,
        slash_step(s, command, id).0.session.provider_id == s.session.provider_id,
{
    reveal(model_requested);
    reveal(tab_requested);
    reveal(memory_step);
    reveal(plan_shown);
    reveal(session_begun);
    reveal(timeline_cleared);
    reveal(leaving);
    reveal(unknown_command);
    loop_commands_keep_the_session(s, tail_text(command));
}

proof fn loop_commands_keep_the_session(s: TuiStateView, argument: Seq<char>)
    ensures
        loop_step(s, argument).0.session.id == s.session.id,
        loop_step(s, argument).0.session.messages == s.session.messages,
        loop_step(s, argument).0.session.model == s.session.model,
        loop_step(s, argument).0.session.provider_id == s.session.provider_id,
{
    reveal(loop_step);
    reveal(loop_shown);
    reveal(loop_set);
    reveal(loop_cleared);
    reveal(loop_edited);
    reveal(loop_created);
}

/// After a turn was cancelled nothing runs, nothing waits, and no loop goes on.
pub proof fn cancelled_turns_stop(s: TuiStateView)
    ensures
        ({
            let after = turn_cancelled(s).0;
            &&& !after.busy
            &&& after.active_generation is None
            &&& after.pending_approval is None
            &&& after.pending_user_input is None
            &&& after.queue.len() == 0
            &&& !after.loop_continuation_pending
            &&& (after.session.loop_state matches Some(state) ==> state.status != LoopStatus::Active)
        }),
        turn_cancelled(s).1.len() > 0 && turn_cancelled(s).1[0] is AbortTurn,
{
    reveal(turn_cancelled);
}

/// Nobody sees the key of a provider that was pasted.
pub proof fn pasted_keys_are_hidden(value: JsonView, id: Seq<char>)
    ensures
        config_call(AutoConfigIntentView::Provider(value), id).arguments
            == JsonView::Object(provider_arguments(value)),
        provider_arguments(value).len() == 3,
        provider_arguments(value)[2] == ("api_key"@, JsonView::Text("hidden"@)),
{
}

/// Pausing a loop and having it go on keeps its objective and what it has cost.
pub proof fn paused_loops_are_kept(s: TuiStateView)
    requires
        s.session.loop_state is Some,
    ensures
        ({
            let after = loop_set(loop_set(s, LoopStatus::Paused).0, LoopStatus::Active).0.session.loop_state;
            after is Some && after->0.objective == s.session.loop_state->0.objective
                && after->0.tokens_used == s.session.loop_state->0.tokens_used
                && after->0.turns_completed == s.session.loop_state->0.turns_completed
                && after->0.status == LoopStatus::Active
        }),
{
    reveal(loop_set);
}

} // verus!
