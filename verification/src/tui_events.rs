//! What happens to the terminal interface from outside: turns, questions, installations.

use vstd::prelude::*;
use crate::codec::fresh_uuid;
use crate::cli::ModelChoice;
use crate::cli::ModelChoiceView;
use crate::cli::loop_label;
use crate::cli::status_label;
use crate::events::AgentEvent;
use crate::events::AgentEventView;
use crate::numbers::decimal;
use crate::numbers::print_u64;
use crate::numbers::print_usize;
use crate::provider::ProviderDocument;
use crate::provider::ProviderDocumentView;
use crate::session::PlanStep;
use crate::session::PlanStepStatus;
use crate::session::PlanStepView;
use crate::session::Session;
use crate::session::SessionView;
use crate::session::ToolCall;
use crate::session::ToolCallView;
use crate::table::keys_of;
use crate::table::pairs_of;
use crate::table::put;
use crate::table::table_keys;
use crate::table::table_put;
use crate::text::blank;
use crate::text::is_blank;
use crate::text::lower;
use crate::text::same;
use crate::text::texts;
use crate::text::texts_empty;
use crate::text::texts_push;
use crate::text::to_lower;
use crate::timeline::NoticeKind;
use crate::timeline::TimelineEntry;
use crate::timeline::TimelineEntryView;
use crate::timeline::ToolState;
use crate::timeline::ToolStateView;
use crate::timeline::add_reasoning;
use crate::timeline::add_side_text;
use crate::timeline::add_text;
use crate::timeline::finish_call;
use crate::timeline::with_reasoning;
use crate::timeline::with_result;
use crate::timeline::with_side_text;
use crate::timeline::with_text;
use crate::tui::AfterSave;
use crate::tui::AfterSaveView;
use crate::tui::ConfiguredMcp;
use crate::tui::ConfiguredMcpView;
use crate::tui::InstalledSkill;
use crate::tui::InstalledSkillView;
use crate::tui::McpServerStatus;
use crate::tui::McpServerStatusView;
use crate::tui::ModelUse;
use crate::tui::Overlay;
use crate::tui::OverlayKind;
use crate::tui::PendingApproval;
use crate::tui::PendingApprovalView;
use crate::tui::PendingUserInput;
use crate::tui::PendingUserInputView;
use crate::tui::SettingsState;
use crate::tui::SettingsStateView;
use crate::tui::SettingsTab;
use crate::tui::TuiAction;
use crate::tui::TuiActionView;
use crate::tui::TuiState;
use crate::tui::TuiStateView;
use crate::tui::UserInputQuestionView;
use crate::tui::UserInputRequest;
use crate::tui::UserInputRequestView;
use crate::tui::asking;
use crate::tui::asks_safely;
use crate::tui::idle_required;
use crate::tui::loop_active;
use crate::tui::loop_goes_on;
use crate::tui::new_overlay;
use crate::tui::nothing;
use crate::tui::only;
use crate::tui::quiet;
use crate::tui_settings::SettingsRead;
use crate::tui_settings::SettingsReadView;
use crate::tui_settings::refresh_settings_state;
use crate::tui_settings::settings_refreshed;
use crate::views::Duplicate;
use crate::views::group_views;
use crate::views::opt;
use crate::views::views;

verus! {

broadcast use {group_views, texts_push, texts_empty};

/// Something that happened outside.
#[derive(Debug)]
pub enum RuntimeEvent {
    /// The turn of a generation tells something.
    Agent { generation: u64, event: AgentEvent },
    /// The turn of a generation asks for approval.
    Approval { generation: u64, call: ToolCall, reason: String, reply: u64 },
    /// The turn of a generation asks the user.
    UserInput { generation: u64, request: UserInputRequest, reply: u64 },
    /// The questions of a generation were answered without the user.
    UserInputExpired { generation: u64 },
    /// The turn of a generation ended.
    TurnFinished { generation: u64, session: Session, error: Option<String> },
    /// A skill was installed and the skills were read again.
    SkillInstalled { id: String, path: String, read: SettingsRead },
    /// A skill was not installed.
    InstallFailed(String),
    /// A configuration was not approved.
    AutoConfigDeclined,
    /// A configuration was not applied.
    AutoConfigFailed(String),
    /// A configuration was applied.
    AutoConfigDone { kind: String, message: String },
    /// There is a newer version.
    UpdateFound { current: String, latest: String, url: String },
    /// There is no newer version.
    UpdateCurrent(String),
    /// The versions are not known.
    UpdateFailed(String),
    /// How the servers do.
    McpStatuses(Vec<McpServerStatus>),
    /// A skill was updated and the skills were read again.
    SettingsActionDone { message: String, read: SettingsRead },
    /// A skill was not updated; the skills were read again.
    SettingsActionFailed { message: String, read: SettingsRead },
    /// The side session tells something.
    SideAgent(AgentEvent),
    /// The side session ended.
    SideFinished(Option<String>),
}

/// What a `RuntimeEvent` holds.
#[verifier::ext_equal]
pub enum RuntimeEventView {
    Agent { generation: u64, event: AgentEventView },
    Approval { generation: u64, call: ToolCallView, reason: Seq<char>, reply: u64 },
    UserInput { generation: u64, request: UserInputRequestView, reply: u64 },
    UserInputExpired { generation: u64 },
    TurnFinished { generation: u64, session: SessionView, error: Option<Seq<char>> },
    SkillInstalled { id: Seq<char>, path: Seq<char>, read: SettingsReadView },
    InstallFailed(Seq<char>),
    AutoConfigDeclined,
    AutoConfigFailed(Seq<char>),
    AutoConfigDone { kind: Seq<char>, message: Seq<char> },
    UpdateFound { current: Seq<char>, latest: Seq<char>, url: Seq<char> },
    UpdateCurrent(Seq<char>),
    UpdateFailed(Seq<char>),
    McpStatuses(Seq<McpServerStatusView>),
    SettingsActionDone { message: Seq<char>, read: SettingsReadView },
    SettingsActionFailed { message: Seq<char>, read: SettingsReadView },
    SideAgent(AgentEventView),
    SideFinished(Option<Seq<char>>),
}

impl View for RuntimeEvent {
    type V = RuntimeEventView;

    open spec fn view(&self) -> RuntimeEventView {
        match *self {
            RuntimeEvent::Agent { generation, event } => RuntimeEventView::Agent { generation: generation, event: event@ },
            RuntimeEvent::Approval { generation, call, reason, reply } => RuntimeEventView::Approval { generation: generation, call: call@, reason: reason@, reply: reply },
            RuntimeEvent::UserInput { generation, request, reply } => RuntimeEventView::UserInput { generation: generation, request: request@, reply: reply },
            RuntimeEvent::UserInputExpired { generation } => RuntimeEventView::UserInputExpired { generation: generation },
            RuntimeEvent::TurnFinished { generation, session, error } => RuntimeEventView::TurnFinished { generation: generation, session: session@, error: opt(error) },
            RuntimeEvent::SkillInstalled { id, path, read } => RuntimeEventView::SkillInstalled { id: id@, path: path@, read: read@ },
            RuntimeEvent::InstallFailed(a0) => RuntimeEventView::InstallFailed(a0@),
            RuntimeEvent::AutoConfigDeclined => RuntimeEventView::AutoConfigDeclined,
            RuntimeEvent::AutoConfigFailed(a0) => RuntimeEventView::AutoConfigFailed(a0@),
            RuntimeEvent::AutoConfigDone { kind, message } => RuntimeEventView::AutoConfigDone { kind: kind@, message: message@ },
            RuntimeEvent::UpdateFound { current, latest, url } => RuntimeEventView::UpdateFound { current: current@, latest: latest@, url: url@ },
            RuntimeEvent::UpdateCurrent(a0) => RuntimeEventView::UpdateCurrent(a0@),
            RuntimeEvent::UpdateFailed(a0) => RuntimeEventView::UpdateFailed(a0@),
            RuntimeEvent::McpStatuses(a0) => RuntimeEventView::McpStatuses(views(a0@)),
            RuntimeEvent::SettingsActionDone { message, read } => RuntimeEventView::SettingsActionDone { message: message@, read: read@ },
            RuntimeEvent::SettingsActionFailed { message, read } => RuntimeEventView::SettingsActionFailed { message: message@, read: read@ },
            RuntimeEvent::SideAgent(a0) => RuntimeEventView::SideAgent(a0@),
            RuntimeEvent::SideFinished(a0) => RuntimeEventView::SideFinished(opt(a0)),
        }
    }
}

/// A model that was found.
#[derive(Debug)]
pub struct ResolvedModel {
    /// Its provider.
    pub id: String,
    pub display: String,
    pub model: String,
}

/// What a `ResolvedModel` holds.
#[verifier::ext_equal]
pub struct ResolvedModelView {
    pub id: Seq<char>,
    pub display: Seq<char>,
    pub model: Seq<char>,
}

impl View for ResolvedModel {
    type V = ResolvedModelView;

    open spec fn view(&self) -> ResolvedModelView {
        ResolvedModelView {
            id: self.id@,
            display: self.display@,
            model: self.model@,
        }
    }
}

/// What the settings show at first.
#[derive(Debug)]
pub struct SettingsFacts {
    pub document: ProviderDocument,
    pub mcp_servers: Vec<ConfiguredMcp>,
    pub skills: Vec<InstalledSkill>,
}

/// What a `SettingsFacts` holds.
#[verifier::ext_equal]
pub struct SettingsFactsView {
    pub document: ProviderDocumentView,
    pub mcp_servers: Seq<ConfiguredMcpView>,
    pub skills: Seq<InstalledSkillView>,
}

impl View for SettingsFacts {
    type V = SettingsFactsView;

    open spec fn view(&self) -> SettingsFactsView {
        SettingsFactsView {
            document: self.document@,
            mcp_servers: views(self.mcp_servers@),
            skills: views(self.skills@),
        }
    }
}

// ---------------------------------------------------------------------------
// Turns
// ---------------------------------------------------------------------------

/// How many steps are done.
pub open spec fn steps_done(steps: Seq<PlanStepView>) -> nat
    decreases steps.len(),
{
    if steps.len() == 0 {
        0
    } else {
        steps_done(steps.drop_last()) + (if steps.last().status == PlanStepStatus::Completed {
            1nat
        } else {
            0
        })
    }
}

/// Returns how many steps are done.
pub fn count_done(steps: &Vec<PlanStep>) -> (result: usize)
    ensures
        result == steps_done(views(steps@)),
        result <= steps@.len(),
{
    let ghost all = views(steps@);
    let mut done: usize = 0;
    let mut i: usize = 0;
    assert(all.take(0) =~= Seq::<PlanStepView>::empty());
    while i < steps.len()
        invariant
            i <= steps@.len(),
            done <= i,
            all == views(steps@),
            done == steps_done(all.take(i as int)),
        decreases steps@.len() - i,
    {
        assert(all.take(i + 1).drop_last() =~= all.take(i as int));
        assert(all.take(i + 1).last() == steps@[i as int]@);
        if steps[i].status == PlanStepStatus::Completed {
            done = done + 1;
        }
        i = i + 1;
    }
    assert(all.take(i as int) =~= all);
    done
}

/// The queue after messages of it joined the turn.
pub open spec fn queue_after(queue: Seq<Seq<char>>, messages: Seq<Seq<char>>) -> Seq<Seq<char>>
    decreases messages.len(),
{
    if messages.len() == 0 {
        queue
    } else {
        let before = queue_after(queue, messages.drop_last());
        if before.len() > 0 && before[0] == messages.last() {
            before.skip(1)
        } else {
            before
        }
    }
}

/// Messages as entries of the timeline.
pub open spec fn user_entries(messages: Seq<Seq<char>>) -> Seq<TimelineEntryView> {
    messages.map_values(|text: Seq<char>| TimelineEntryView::User(text))
}

/// What the status line says after an event of the running turn, where it changes.
pub open spec fn agent_status(event: AgentEventView) -> Option<Seq<char>> {
    match event {
        AgentEventView::ModelStarted { round, .. } => Some(
            if round == 1 {
                "Thinking"@
            } else {
                "Continuing tool loop, round "@ + decimal(round as nat)
            },
        ),
        AgentEventView::ConnectionRetry { message, .. } => Some(message),
        AgentEventView::StreamReset => Some("Discarding interrupted partial response"@),
        AgentEventView::CompactionStarted { automatic } => Some(
            if automatic {
                "Compacting context"@
            } else {
                "Compacting context (manual)"@
            },
        ),
        AgentEventView::PlanUpdated(plan) => Some(
            "Plan "@ + decimal(steps_done(plan.steps)) + "/"@ + decimal(plan.steps.len()),
        ),
        AgentEventView::LoopUpdated(state) => Some(lower("Loop: "@ + status_label(state.status))),
        AgentEventView::QueuedInputAccepted(_) => Some("Queued input added to the active turn"@),
        AgentEventView::ToolStarted(call) => Some("Running "@ + call.name),
        AgentEventView::TurnCompleted { .. } => Some("Finalizing"@),
        _ => None,
    }
}

/// The timeline after an event of the running turn.
pub open spec fn agent_timeline(
    timeline: Seq<TimelineEntryView>,
    event: AgentEventView,
) -> Seq<TimelineEntryView> {
    match event {
        AgentEventView::Text(text) => if text.len() == 0 {
            timeline
        } else {
            timeline.push(TimelineEntryView::Assistant(text))
        },
        AgentEventView::TextDelta(text) => if text.len() == 0 {
            timeline
        } else {
            with_text(timeline, text)
        },
        AgentEventView::ReasoningDelta(text) => if text.len() == 0 {
            timeline
        } else {
            with_reasoning(timeline, text)
        },
        AgentEventView::CompactionCompleted { before_tokens, after_tokens, .. } => timeline.push(
            TimelineEntryView::Notice {
                kind: NoticeKind::Success,
                text: "Context compacted: "@ + decimal(before_tokens as nat) + " -> "@ + decimal(
                    after_tokens as nat,
                ) + " tokens"@,
            },
        ),
        AgentEventView::QueuedInputAccepted(messages) => timeline + user_entries(messages),
        AgentEventView::ToolStarted(call) => timeline.push(
            TimelineEntryView::Tool {
                id: call.id,
                name: call.name,
                arguments: call.arguments,
                state: ToolStateView::Running,
            },
        ),
        AgentEventView::ToolFinished { call, result } => with_result(
            timeline,
            call.id,
            result.success,
            result.output,
        ),
        _ => timeline,
    }
}

/// Whether the end of the timeline is shown after an event of the running turn.
pub open spec fn agent_moves(event: AgentEventView) -> bool {
    match event {
        AgentEventView::Text(text) => text.len() > 0,
        AgentEventView::TextDelta(text) => text.len() > 0,
        AgentEventView::ReasoningDelta(text) => text.len() > 0,
        AgentEventView::CompactionCompleted { .. } => true,
        AgentEventView::QueuedInputAccepted(_) => true,
        AgentEventView::ToolStarted(_) => true,
        _ => false,
    }
}

/// The state after an event of the running turn.
pub open spec fn agent_shown(s: TuiStateView, event: AgentEventView) -> TuiStateView {
    TuiStateView {
        status: match agent_status(event) {
            Some(text) => text,
            None => s.status,
        },
        timeline: agent_timeline(s.timeline, event),
        follow_tail: s.follow_tail || agent_moves(event),
        context_status: match event {
            AgentEventView::ContextUpdated(status) => status,
            _ => s.context_status,
        },
        queue: match event {
            AgentEventView::QueuedInputAccepted(messages) => queue_after(s.queue, messages),
            _ => s.queue,
        },
        ..s
    }
}

fn tell_status(event: &AgentEvent) -> (result: Option<String>)
    ensures
        opt(result) == agent_status(event@),
{
    match event {
        AgentEvent::ModelStarted { round, .. } => {
            if *round == 1 {
                Some("Thinking".to_owned())
            } else {
                let mut text = "Continuing tool loop, round ".to_owned();
                text.push_str(&print_usize(*round));
                Some(text)
            }
        },
        AgentEvent::ConnectionRetry { message, .. } => Some(message.clone()),
        AgentEvent::StreamReset => Some("Discarding interrupted partial response".to_owned()),
        AgentEvent::CompactionStarted { automatic } => {
            if *automatic {
                Some("Compacting context".to_owned())
            } else {
                Some("Compacting context (manual)".to_owned())
            }
        },
        AgentEvent::PlanUpdated(plan) => {
            let mut text = "Plan ".to_owned();
            text.push_str(&print_usize(count_done(&plan.steps)));
            text.push_str("/");
            text.push_str(&print_usize(plan.steps.len()));
            Some(text)
        },
        AgentEvent::LoopUpdated(state) => {
            let mut text = "Loop: ".to_owned();
            text.push_str(&loop_label(state.status));
            Some(to_lower(&text))
        },
        AgentEvent::QueuedInputAccepted(_) => Some(
            "Queued input added to the active turn".to_owned(),
        ),
        AgentEvent::ToolStarted(call) => {
            let mut text = "Running ".to_owned();
            text.push_str(&call.name);
            Some(text)
        },
        AgentEvent::TurnCompleted { .. } => Some("Finalizing".to_owned()),
        _ => None,
    }
}

fn moves_to_the_end(event: &AgentEvent) -> (result: bool)
    ensures
        result == agent_moves(event@),
{
    match event {
        AgentEvent::Text(text) | AgentEvent::TextDelta(text) | AgentEvent::ReasoningDelta(
            text,
        ) => !text.as_str().is_empty(),
        AgentEvent::CompactionCompleted { .. } => true,
        AgentEvent::QueuedInputAccepted(_) => true,
        AgentEvent::ToolStarted(_) => true,
        _ => false,
    }
}

fn add_messages(timeline: &mut Vec<TimelineEntry>, messages: &Vec<String>)
    ensures
        views(final(timeline)@) == views(old(timeline)@) + user_entries(texts(messages@)),
{
    let ghost wanted = user_entries(texts(messages@));
    let ghost before = views(timeline@);
    let mut i: usize = 0;
    assert(before + wanted.take(0) =~= before);
    while i < messages.len()
        invariant
            i <= messages@.len(),
            wanted == user_entries(texts(messages@)),
            views(timeline@) == before + wanted.take(i as int),
        decreases messages@.len() - i,
    {
        timeline.push(TimelineEntry::User(messages[i].clone()));
        assert(wanted[i as int] == TimelineEntryView::User(messages@[i as int]@));
        assert(before + wanted.take(i + 1) =~= (before + wanted.take(i as int)).push(wanted[i as int]));
        i = i + 1;
    }
    assert(wanted.take(i as int) =~= wanted);
}

fn show_in_timeline(timeline: &mut Vec<TimelineEntry>, event: &AgentEvent)
    ensures
        views(final(timeline)@) == agent_timeline(views(old(timeline)@), event@),
{
    match event {
        AgentEvent::Text(text) => {
            if !text.as_str().is_empty() {
                timeline.push(TimelineEntry::Assistant(text.clone()));
            }
        },
        AgentEvent::TextDelta(text) => {
            if !text.as_str().is_empty() {
                add_text(timeline, text);
            }
        },
        AgentEvent::ReasoningDelta(text) => {
            if !text.as_str().is_empty() {
                add_reasoning(timeline, text);
            }
        },
        AgentEvent::CompactionCompleted { before_tokens, after_tokens, .. } => {
            let mut text = "Context compacted: ".to_owned();
            text.push_str(&print_u64(*before_tokens));
            text.push_str(" -> ");
            text.push_str(&print_u64(*after_tokens));
            text.push_str(" tokens");
            timeline.push(TimelineEntry::Notice { kind: NoticeKind::Success, text });
        },
        AgentEvent::QueuedInputAccepted(messages) => {
            add_messages(timeline, messages);
        },
        AgentEvent::ToolStarted(call) => {
            timeline.push(
                TimelineEntry::Tool {
                    id: call.id.clone(),
                    name: call.name.clone(),
                    arguments: call.arguments.duplicate(),
                    state: ToolState::Running,
                },
            );
        },
        AgentEvent::ToolFinished { call, result } => {
            finish_call(timeline, &call.id, result.success, result.output.clone());
        },
        _ => {},
    }
}

fn take_from_queue(queue: &mut Vec<String>, messages: &Vec<String>)
    ensures
        texts(final(queue)@) == queue_after(texts(old(queue)@), texts(messages@)),
{
    let ghost all = texts(messages@);
    let ghost before = texts(queue@);
    let mut i: usize = 0;
    assert(all.take(0) =~= Seq::<Seq<char>>::empty());
    while i < messages.len()
        invariant
            i <= messages@.len(),
            all == texts(messages@),
            texts(queue@) == queue_after(before, all.take(i as int)),
        decreases messages@.len() - i,
    {
        assert(all.take(i + 1).drop_last() =~= all.take(i as int));
        assert(all.take(i + 1).last() == messages@[i as int]@);
        let ghost earlier = texts(queue@);
        if queue.len() > 0 && same(&queue[0], &messages[i]) {
            let _ = queue.remove(0);
            assert(texts(queue@) =~= earlier.skip(1));
        }
        i = i + 1;
    }
    assert(all.take(i as int) =~= all);
}

fn show_agent_event(app: &mut TuiState, event: &AgentEvent)
    ensures
        final(app)@ == agent_shown(old(app)@, event@),
{
    show_in_timeline(&mut app.timeline, event);
    if let Some(text) = tell_status(event) {
        app.status = text;
    }
    if moves_to_the_end(event) {
        app.follow_tail = true;
    }
    if let AgentEvent::ContextUpdated(status) = event {
        app.context_status = *status;
    }
    if let AgentEvent::QueuedInputAccepted(messages) = event {
        take_from_queue(&mut app.queue, messages);
    }
}

/// The state after an event of the side session.
#[verifier::opaque]
pub open spec fn side_shown(s: TuiStateView, event: AgentEventView) -> TuiStateView {
    match event {
        AgentEventView::Text(text) => if text.len() == 0 {
            s
        } else {
            TuiStateView { timeline: with_side_text(s.timeline, text), follow_tail: true, ..s }
        },
        AgentEventView::TextDelta(text) => if text.len() == 0 {
            s
        } else {
            TuiStateView { timeline: with_side_text(s.timeline, text), follow_tail: true, ..s }
        },
        AgentEventView::ReasoningDelta(_) => s.saying("Side Session thinking"@),
        AgentEventView::ToolStarted(call) => s.saying(
            "Side Session reading with "@ + call.name,
        ),
        _ => s,
    }
}

fn show_side_event(app: &mut TuiState, event: &AgentEvent)
    ensures
        final(app)@ == side_shown(old(app)@, event@),
{
    proof {
        reveal(side_shown);
    }
    match event {
        AgentEvent::Text(text) | AgentEvent::TextDelta(text) => {
            if !text.as_str().is_empty() {
                add_side_text(&mut app.timeline, text);
                app.follow_tail = true;
            }
        },
        AgentEvent::ReasoningDelta(_) => {
            app.say("Side Session thinking");
        },
        AgentEvent::ToolStarted(call) => {
            let mut text = "Side Session reading with ".to_owned();
            text.push_str(&call.name);
            app.status = text;
        },
        _ => {},
    }
}

// ---------------------------------------------------------------------------
// Events
// ---------------------------------------------------------------------------

/// The approval that waits will not be answered.
pub open spec fn approval_dropped(s: TuiStateView) -> Seq<TuiActionView> {
    match s.pending_approval {
        Some(pending) => seq![TuiActionView::DropReply { reply: pending.reply }],
        None => Seq::empty(),
    }
}

/// The questions that wait will not be answered.
pub open spec fn questions_dropped(s: TuiStateView) -> Seq<TuiActionView> {
    match s.pending_user_input {
        Some(pending) => seq![TuiActionView::DropReply { reply: pending.reply }],
        None => Seq::empty(),
    }
}

/// The step after a turn asked for approval.
#[verifier::opaque]
pub open spec fn approval_asked(
    s: TuiStateView,
    generation: u64,
    call: ToolCallView,
    reason: Seq<char>,
    reply: u64,
) -> (TuiStateView, Seq<TuiActionView>) {
    if s.active_generation == Some(generation) {
        (
            TuiStateView {
                pending_approval: Some(PendingApprovalView { call, reason, reply }),
                ..s
            },
            approval_dropped(s),
        )
    } else {
        asking(s, TuiActionView::DropReply { reply })
    }
}

/// The step after a turn asked the user.
#[verifier::opaque]
pub open spec fn questions_asked(
    s: TuiStateView,
    generation: u64,
    request: UserInputRequestView,
    reply: u64,
) -> (TuiStateView, Seq<TuiActionView>) {
    if s.active_generation == Some(generation) {
        (
            TuiStateView {
                pending_user_input: Some(
                    PendingUserInputView {
                        request,
                        question_index: 0,
                        option_index: 0,
                        other_editor: None,
                        answers: Seq::empty(),
                        reply,
                    },
                ),
                status: "Waiting for your answer"@,
                ..s
            },
            questions_dropped(s),
        )
    } else {
        asking(s, TuiActionView::DropReply { reply })
    }
}

/// The step after a turn ended: the session is saved.
#[verifier::opaque]
pub open spec fn turn_ended(
    s: TuiStateView,
    generation: u64,
    session: SessionView,
    error: Option<Seq<char>>,
) -> (TuiStateView, Seq<TuiActionView>) {
    if s.active_generation == Some(generation) {
        (
            TuiStateView {
                busy: false,
                active_generation: None,
                pending_approval: None,
                pending_user_input: None,
                session,
                ..s
            },
            approval_dropped(s) + questions_dropped(s) + seq![
                TuiActionView::SaveSession(AfterSaveView::TurnEnd(error)),
            ],
        )
    } else {
        quiet(s)
    }
}

/// The state after a newer version was found.
#[verifier::opaque]
pub open spec fn update_found(
    s: TuiStateView,
    current: Seq<char>,
    latest: Seq<char>,
    url: Seq<char>,
) -> TuiStateView {
    let text = "Update available: "@ + current + " -> "@ + latest;
    TuiStateView { update_status: text, ..s }.noticed(NoticeKind::Warning, text + "  "@ + url)
}

/// The state after a skill was installed.
#[verifier::opaque]
pub open spec fn skill_installed(
    s: TuiStateView,
    id: Seq<char>,
    path: Seq<char>,
    read: SettingsReadView,
) -> TuiStateView {
    settings_refreshed(TuiStateView { catalog_busy: None, ..s }, read).noticed(
        NoticeKind::Success,
        "Installed "@ + id + " at "@ + path,
    )
}

/// The state after a skill was not installed.
#[verifier::opaque]
pub open spec fn install_failed(s: TuiStateView, error: Seq<char>) -> TuiStateView {
    TuiStateView { catalog_busy: None, ..s }.noticed(NoticeKind::Error, error)
}

/// The state after a configuration was handled.
#[verifier::opaque]
pub open spec fn configured(
    s: TuiStateView,
    status: Seq<char>,
    kind: NoticeKind,
    text: Seq<char>,
) -> TuiStateView {
    TuiStateView { auto_config_busy: false, status, ..s }.noticed(kind, text)
}

/// The state after a skill was updated or not.
#[verifier::opaque]
pub open spec fn skill_updated(
    s: TuiStateView,
    read: SettingsReadView,
    status: Seq<char>,
    kind: NoticeKind,
    text: Seq<char>,
) -> TuiStateView {
    settings_refreshed(TuiStateView { settings_busy: false, ..s }, read).saying(status).noticed(
        kind,
        text,
    )
}

/// The state after the versions were asked for.
#[verifier::opaque]
pub open spec fn version_told(s: TuiStateView, text: Seq<char>) -> TuiStateView {
    TuiStateView { update_status: text, ..s }
}

/// The step after questions were answered without the user.
#[verifier::opaque]
pub open spec fn questions_expired(s: TuiStateView, generation: u64) -> (
    TuiStateView,
    Seq<TuiActionView>,
) {
    if s.active_generation == Some(generation) {
        (
            TuiStateView { pending_user_input: None, status: "Question auto-resolved"@, ..s },
            questions_dropped(s),
        )
    } else {
        quiet(s)
    }
}

/// The state after the side session ended.
#[verifier::opaque]
pub open spec fn side_ended(s: TuiStateView, error: Option<Seq<char>>) -> TuiStateView {
    let ended = TuiStateView { side_busy: false, ..s };
    match error {
        Some(error) => ended.noticed(NoticeKind::Error, "Side Session: "@ + error),
        None => if s.busy {
            ended.saying("Main task still running"@)
        } else {
            ended
        },
    }
}

/// The state after a turn told something.
#[verifier::opaque]
pub open spec fn agent_told(s: TuiStateView, generation: u64, event: AgentEventView) -> TuiStateView {
    if s.active_generation == Some(generation) {
        agent_shown(s, event)
    } else {
        s
    }
}

/// The step after something happened outside.
pub open spec fn event_step(s: TuiStateView, event: RuntimeEventView) -> (
    TuiStateView,
    Seq<TuiActionView>,
) {
    match event {
        RuntimeEventView::SkillInstalled { id, path, read } => quiet(
            skill_installed(s, id, path, read),
        ),
        RuntimeEventView::InstallFailed(error) => quiet(install_failed(s, error)),
        RuntimeEventView::AutoConfigDeclined => quiet(
            configured(
                s,
                "Configuration cancelled"@,
                NoticeKind::Warning,
                "Auto configuration was not applied"@,
            ),
        ),
        RuntimeEventView::AutoConfigFailed(error) => quiet(
            configured(s, "Configuration failed"@, NoticeKind::Error, error),
        ),
        RuntimeEventView::AutoConfigDone { kind, message } => (
            configured(s, kind + " ready"@, NoticeKind::Success, message),
            if kind == "provider"@ {
                seq![TuiActionView::RefreshProvider]
            } else {
                Seq::empty()
            },
        ),
        RuntimeEventView::UpdateFound { current, latest, url } => quiet(
            update_found(s, current, latest, url),
        ),
        RuntimeEventView::UpdateCurrent(current) => quiet(
            version_told(s, "Coomi "@ + current + " is current"@),
        ),
        RuntimeEventView::UpdateFailed(error) => quiet(version_told(s, error)),
        RuntimeEventView::McpStatuses(statuses) => quiet(statuses_taken(s, statuses)),
        RuntimeEventView::SettingsActionDone { message, read } => quiet(
            skill_updated(s, read, message, NoticeKind::Success, message),
        ),
        RuntimeEventView::SettingsActionFailed { message, read } => quiet(
            skill_updated(s, read, "Settings action failed"@, NoticeKind::Error, message),
        ),
        RuntimeEventView::Approval { generation, call, reason, reply } => approval_asked(
            s,
            generation,
            call,
            reason,
            reply,
        ),
        RuntimeEventView::UserInput { generation, request, reply } => questions_asked(
            s,
            generation,
            request,
            reply,
        ),
        RuntimeEventView::UserInputExpired { generation } => questions_expired(s, generation),
        RuntimeEventView::SideAgent(event) => quiet(side_shown(s, event)),
        RuntimeEventView::SideFinished(error) => quiet(side_ended(s, error)),
        RuntimeEventView::Agent { generation, event } => quiet(agent_told(s, generation, event)),
        RuntimeEventView::TurnFinished { generation, session, error } => turn_ended(
            s,
            generation,
            session,
            error,
        ),
    }
}

/// The state after the servers told how they do.
#[verifier::opaque]
pub open spec fn statuses_taken(s: TuiStateView, statuses: Seq<McpServerStatusView>) -> TuiStateView {
    TuiStateView {
        settings_busy: false,
        settings: match s.settings {
            Some(settings) => Some(SettingsStateView { mcp_statuses: statuses, ..settings }),
            None => None,
        },
        status: "MCP status refreshed"@,
        ..s
    }
}

fn take_statuses(app: &mut TuiState, statuses: Vec<McpServerStatus>)
    ensures
        final(app)@ == statuses_taken(old(app)@, views(statuses@)),
{
    proof {
        reveal(statuses_taken);
    }
    app.settings_busy = false;
    app.say("MCP status refreshed");
    if let Some(settings) = &mut app.settings {
        settings.mcp_statuses = statuses;
    }
}

fn drop_approval(app: &TuiState) -> (result: Vec<TuiAction>)
    ensures
        views(result@) == approval_dropped(app@),
{
    match &app.pending_approval {
        Some(pending) => only(TuiAction::DropReply { reply: pending.reply }),
        None => nothing(),
    }
}

fn drop_questions(app: &TuiState) -> (result: Vec<TuiAction>)
    ensures
        views(result@) == questions_dropped(app@),
{
    match &app.pending_user_input {
        Some(pending) => only(TuiAction::DropReply { reply: pending.reply }),
        None => nothing(),
    }
}

fn is_active(app: &TuiState, generation: u64) -> (result: bool)
    ensures
        result == (app@.active_generation == Some(generation)),
{
    match app.active_generation {
        Some(active) => active == generation,
        None => false,
    }
}

fn ask_approval(app: &mut TuiState, generation: u64, call: ToolCall, reason: String, reply: u64) -> (result: Vec<TuiAction>)
    ensures
        (final(app)@, views(result@)) == approval_asked(
            old(app)@,
            generation,
            call@,
            reason@,
            reply,
        ),
{
    proof {
        reveal(approval_asked);
    }
    if is_active(app, generation) {
        let actions = drop_approval(app);
        app.pending_approval = Some(PendingApproval { call, reason, reply });
        actions
    } else {
        only(TuiAction::DropReply { reply })
    }
}

fn ask_questions(app: &mut TuiState, generation: u64, request: UserInputRequest, reply: u64) -> (result: Vec<TuiAction>)
    ensures
        (final(app)@, views(result@)) == questions_asked(old(app)@, generation, request@, reply),
{
    proof {
        reveal(questions_asked);
    }
    if is_active(app, generation) {
        let actions = drop_questions(app);
        let answers: Vec<(String, String)> = Vec::new();
        assert(pairs_of(answers@) =~= Seq::<(Seq<char>, Seq<char>)>::empty());
        app.pending_user_input = Some(
            PendingUserInput {
                request,
                question_index: 0,
                option_index: 0,
                other_editor: None,
                answers,
                reply,
            },
        );
        app.say("Waiting for your answer");
        actions
    } else {
        only(TuiAction::DropReply { reply })
    }
}

fn end_turn(app: &mut TuiState, generation: u64, session: Session, error: Option<String>) -> (result: Vec<TuiAction>)
    ensures
        (final(app)@, views(result@)) == turn_ended(
            old(app)@,
            generation,
            session@,
            opt(error),
        ),
{
    proof {
        reveal(turn_ended);
    }
    if is_active(app, generation) {
        let mut actions = drop_approval(app);
        let mut others = drop_questions(app);
        actions.append(&mut others);
        actions.push(TuiAction::SaveSession(AfterSave::TurnEnd(error)));
        app.busy = false;
        app.active_generation = None;
        app.pending_approval = None;
        app.pending_user_input = None;
        app.session = session;
        assert(views(actions@) =~= turn_ended(old(app)@, generation, session@, opt(error)).1);
        actions
    } else {
        nothing()
    }
}

fn skill_is_installed(app: &mut TuiState, id: &str, path: &str, read: SettingsRead)
    ensures
        final(app)@ == skill_installed(old(app)@, id@, path@, read@),
{
    proof {
        reveal(skill_installed);
    }
    app.catalog_busy = None;
    refresh_settings_state(app, read);
    let mut text = "Installed ".to_owned();
    text.push_str(id);
    text.push_str(" at ");
    text.push_str(path);
    app.push_notice(NoticeKind::Success, text);
}

fn install_has_failed(app: &mut TuiState, error: String)
    ensures
        final(app)@ == install_failed(old(app)@, error@),
{
    proof {
        reveal(install_failed);
    }
    app.catalog_busy = None;
    app.push_notice(NoticeKind::Error, error);
}

fn configuration_ended(app: &mut TuiState, status: &str, kind: NoticeKind, text: String)
    ensures
        final(app)@ == configured(old(app)@, status@, kind, text@),
{
    proof {
        reveal(configured);
    }
    app.auto_config_busy = false;
    app.say(status);
    app.push_notice(kind, text);
}

fn skill_update_ended(app: &mut TuiState, read: SettingsRead, status: &str, kind: NoticeKind, text: String)
    ensures
        final(app)@ == skill_updated(old(app)@, read@, status@, kind, text@),
{
    proof {
        reveal(skill_updated);
    }
    app.settings_busy = false;
    refresh_settings_state(app, read);
    app.say(status);
    app.push_notice(kind, text);
}

fn version_is_told(app: &mut TuiState, text: String)
    ensures
        final(app)@ == version_told(old(app)@, text@),
{
    proof {
        reveal(version_told);
    }
    app.update_status = text;
}

fn update_is_found(app: &mut TuiState, current: &str, latest: &str, url: &str)
    ensures
        final(app)@ == update_found(old(app)@, current@, latest@, url@),
{
    proof {
        reveal(update_found);
    }
    let mut text = "Update available: ".to_owned();
    text.push_str(current);
    text.push_str(" -> ");
    text.push_str(latest);
    app.update_status = text.clone();
    text.push_str("  ");
    text.push_str(url);
    app.push_notice(NoticeKind::Warning, text);
}

fn questions_have_expired(app: &mut TuiState, generation: u64) -> (result: Vec<TuiAction>)
    ensures
        (final(app)@, views(result@)) == questions_expired(old(app)@, generation),
{
    proof {
        reveal(questions_expired);
    }
    if is_active(app, generation) {
        let actions = drop_questions(app);
        app.pending_user_input = None;
        app.say("Question auto-resolved");
        actions
    } else {
        nothing()
    }
}

fn side_has_ended(app: &mut TuiState, error: Option<String>)
    ensures
        final(app)@ == side_ended(old(app)@, opt(error)),
{
    proof {
        reveal(side_ended);
    }
    app.side_busy = false;
    match error {
        Some(error) => {
            let mut text = "Side Session: ".to_owned();
            text.push_str(&error);
            app.push_notice(NoticeKind::Error, text);
        },
        None => {
            if app.busy {
                app.say("Main task still running");
            }
        },
    }
}

fn agent_tells(app: &mut TuiState, generation: u64, event: &AgentEvent)
    ensures
        final(app)@ == agent_told(old(app)@, generation, event@),
{
    proof {
        reveal(agent_told);
    }
    if is_active(app, generation) {
        show_agent_event(app, event);
    }
}

/// Takes what happened outside, and returns what is to be done about it.
pub fn handle_runtime_event(app: &mut TuiState, event: RuntimeEvent) -> (result: Vec<TuiAction>)
    ensures
        (final(app)@, views(result@)) == event_step(old(app)@, event@),
{
    match event {
        RuntimeEvent::Approval { generation, call, reason, reply } => {
            return ask_approval(app, generation, call, reason, reply);
        },
        RuntimeEvent::UserInput { generation, request, reply } => {
            return ask_questions(app, generation, request, reply);
        },
        RuntimeEvent::UserInputExpired { generation } => {
            return questions_have_expired(app, generation);
        },
        RuntimeEvent::TurnFinished { generation, session, error } => {
            return end_turn(app, generation, session, error);
        },
        RuntimeEvent::AutoConfigDone { kind, message } => {
            let mut text = kind.clone();
            text.push_str(" ready");
            configuration_ended(app, &text, NoticeKind::Success, message);
            if same(&kind, "provider") {
                return only(TuiAction::RefreshProvider);
            }
        },
        RuntimeEvent::SkillInstalled { id, path, read } => {
            skill_is_installed(app, &id, &path, read);
        },
        RuntimeEvent::InstallFailed(error) => {
            install_has_failed(app, error);
        },
        RuntimeEvent::AutoConfigDeclined => {
            configuration_ended(
                app,
                "Configuration cancelled",
                NoticeKind::Warning,
                "Auto configuration was not applied".to_owned(),
            );
        },
        RuntimeEvent::AutoConfigFailed(error) => {
            configuration_ended(app, "Configuration failed", NoticeKind::Error, error);
        },
        RuntimeEvent::UpdateFound { current, latest, url } => {
            update_is_found(app, &current, &latest, &url);
        },
        RuntimeEvent::UpdateCurrent(current) => {
            let mut text = "Coomi ".to_owned();
            text.push_str(&current);
            text.push_str(" is current");
            version_is_told(app, text);
        },
        RuntimeEvent::UpdateFailed(error) => {
            version_is_told(app, error);
        },
        RuntimeEvent::McpStatuses(statuses) => {
            take_statuses(app, statuses);
        },
        RuntimeEvent::SettingsActionDone { message, read } => {
            skill_update_ended(app, read, &message, NoticeKind::Success, message.clone());
        },
        RuntimeEvent::SettingsActionFailed { message, read } => {
            skill_update_ended(app, read, "Settings action failed", NoticeKind::Error, message);
        },
        RuntimeEvent::SideAgent(event) => {
            show_side_event(app, &event);
        },
        RuntimeEvent::SideFinished(error) => {
            side_has_ended(app, error);
        },
        RuntimeEvent::Agent { generation, event } => {
            agent_tells(app, generation, &event);
        },
    }
    nothing()
}

// ---------------------------------------------------------------------------
// What follows an action
// ---------------------------------------------------------------------------

/// What follows when saving the session was tried. An error ends the interface.
pub open spec fn save_step(
    s: TuiStateView,
    after: AfterSaveView,
    saved: Result<(), Seq<char>>,
) -> Result<(TuiStateView, Seq<TuiActionView>), Seq<char>> {
    match after {
        AfterSaveView::Ignore => Ok(quiet(s)),
        AfterSaveView::ProviderShown(text) => Ok(
            quiet(
                match saved {
                    Ok(_) => s.saying(text),
                    Err(error) => s.noticed(NoticeKind::Warning, refresh_failed(error)),
                },
            ),
        ),
        AfterSaveView::TurnEnd(error) => Ok(turn_saved(s, error, saved)),
        _ => match saved {
            Err(error) => Err(error),
            Ok(_) => Ok(
                match after {
                    AfterSaveView::Status(text) => quiet(s.saying(text)),
                    AfterSaveView::ModelChosen(text) => quiet(s.saying(text).closed()),
                    AfterSaveView::ListSessions => asking(
                        s,
                        TuiActionView::ListSessions { clamp: false },
                    ),
                    _ => quiet(s),
                },
            ),
        },
    }
}

/// What follows when saving the session after a turn was tried.
#[verifier::opaque]
pub open spec fn turn_saved(
    s: TuiStateView,
    error: Option<Seq<char>>,
    saved: Result<(), Seq<char>>,
) -> (TuiStateView, Seq<TuiActionView>) {
    let told = match saved {
        Ok(_) => s,
        Err(message) => s.noticed(NoticeKind::Error, message),
    };
    asking(
        match error {
            Some(error) => told.saying("Turn failed"@).noticed(NoticeKind::Error, error),
            None => TuiStateView {
                status: "Ready"@,
                loop_continuation_pending: loop_goes_on(s.session),
                ..told
            },
        },
        TuiActionView::ListSessions { clamp: false },
    )
}

/// What is told when a configuration was saved but its provider cannot be used.
pub open spec fn refresh_failed(error: Seq<char>) -> Seq<char> {
    "Configuration saved, but provider refresh failed: "@ + error
}

fn tell_refresh_failed(app: &mut TuiState, error: &str)
    ensures
        final(app)@ == old(app)@.noticed(NoticeKind::Warning, refresh_failed(error@)),
{
    let mut text = "Configuration saved, but provider refresh failed: ".to_owned();
    text.push_str(error);
    app.push_notice(NoticeKind::Warning, text);
}

/// A step as its mathematical value.
pub open spec fn step_of(
    state: TuiStateView,
    result: Result<Vec<TuiAction>, String>,
) -> Result<(TuiStateView, Seq<TuiActionView>), Seq<char>> {
    match result {
        Ok(actions) => Ok((state, views(actions@))),
        Err(error) => Err(error@),
    }
}

/// An outcome as its mathematical value.
pub open spec fn outcome<T: View>(result: Result<T, String>) -> Result<T::V, Seq<char>> {
    match result {
        Ok(value) => Ok(value@),
        Err(error) => Err(error@),
    }
}

/// A saving as its mathematical value.
pub open spec fn saving(saved: Result<(), String>) -> Result<(), Seq<char>> {
    match saved {
        Ok(_) => Ok(()),
        Err(error) => Err(error@),
    }
}

fn after_turn(app: &mut TuiState, error: Option<String>, saved: Result<(), String>) -> (result: Vec<TuiAction>)
    ensures
        (final(app)@, views(result@)) == turn_saved(old(app)@, opt(error), saving(saved)),
{
    proof {
        reveal(turn_saved);
    }
    if let Err(message) = saved {
        app.push_notice(NoticeKind::Error, message);
    }
    match error {
        Some(error) => {
            app.say("Turn failed");
            app.push_notice(NoticeKind::Error, error);
        },
        None => {
            app.say("Ready");
            app.loop_continuation_pending = loop_active(&app.session);
        },
    }
    only(TuiAction::ListSessions { clamp: false })
}

/// Takes the outcome of saving the session. An error ends the interface.
#[verifier::spinoff_prover]
#[verifier::rlimit(40)]
pub fn session_saved(app: &mut TuiState, after: AfterSave, saved: Result<(), String>) -> (result: Result<Vec<TuiAction>, String>)
    ensures
        step_of(final(app)@, result) == save_step(old(app)@, after@, saving(saved)),
        result is Err ==> final(app)@ == old(app)@,
{
    match after {
        AfterSave::Ignore => Ok(nothing()),
        AfterSave::ProviderShown(text) => {
            match saved {
                Ok(_) => {
                    app.say(&text);
                },
                Err(error) => {
                    tell_refresh_failed(app, &error);
                },
            }
            Ok(nothing())
        },
        AfterSave::TurnEnd(error) => {
            let actions = after_turn(app, error, saved);
            Ok(actions)
        },
        AfterSave::Status(text) => {
            match saved {
                Ok(_) => {
                    app.say(&text);
                    Ok(nothing())
                },
                Err(error) => Err(error),
            }
        },
        AfterSave::ModelChosen(text) => {
            match saved {
                Ok(_) => {
                    app.say(&text);
                    app.close_overlay();
                    Ok(nothing())
                },
                Err(error) => Err(error),
            }
        },
        AfterSave::ListSessions => {
            match saved {
                Ok(_) => Ok(only(TuiAction::ListSessions { clamp: false })),
                Err(error) => Err(error),
            }
        },
        AfterSave::Nothing => {
            match saved {
                Ok(_) => Ok(nothing()),
                Err(error) => Err(error),
            }
        },
    }
}

/// The session with another model.
pub open spec fn with_model(s: TuiStateView, provider: ResolvedModelView) -> TuiStateView {
    TuiStateView {
        session: SessionView { provider_id: provider.id, model: provider.model, ..s.session },
        ..s
    }
}

/// The step after the active provider was found.
pub open spec fn provider_refreshed(
    s: TuiStateView,
    found: Result<(Seq<ModelChoiceView>, ResolvedModelView), Seq<char>>,
) -> (TuiStateView, Seq<TuiActionView>) {
    match found {
        Ok((models, provider)) => asking(
            with_model(TuiStateView { models, ..s }, provider),
            TuiActionView::SaveSession(
                AfterSaveView::ProviderShown(
                    "Provider: "@ + provider.display + " / "@ + provider.model,
                ),
            ),
        ),
        Err(error) => quiet(s.noticed(NoticeKind::Warning, refresh_failed(error))),
    }
}

/// Takes the active provider after a configuration was applied.
pub fn refresh_active_provider(app: &mut TuiState, found: Result<(Vec<ModelChoice>, ResolvedModel), String>) -> (result: Vec<TuiAction>)
    ensures
        (final(app)@, views(result@)) == provider_refreshed(
            old(app)@,
            match found {
                Ok((models, provider)) => Ok((views(models@), provider@)),
                Err(error) => Err(error@),
            },
        ),
{
    match found {
        Ok((models, provider)) => {
            app.models = models;
            app.session.switch_model(&provider.id, &provider.model);
            let mut text = "Provider: ".to_owned();
            text.push_str(&provider.display);
            text.push_str(" / ");
            text.push_str(&provider.model);
            only(TuiAction::SaveSession(AfterSave::ProviderShown(text)))
        },
        Err(error) => {
            tell_refresh_failed(app, &error);
            nothing()
        },
    }
}

/// The step after a model was found.
pub open spec fn model_found(
    s: TuiStateView,
    purpose: ModelUse,
    models: Seq<ModelChoiceView>,
    provider: ResolvedModelView,
) -> (TuiStateView, Seq<TuiActionView>) {
    let text = "Model: "@ + provider.display + " / "@ + provider.model;
    match purpose {
        ModelUse::Switch => asking(
            with_model(s, provider),
            TuiActionView::SaveSession(AfterSaveView::Status(text)),
        ),
        ModelUse::Choose => asking(
            with_model(s, provider),
            TuiActionView::SaveSession(AfterSaveView::ModelChosen(text)),
        ),
        ModelUse::Activate => asking(
            with_model(TuiStateView { models, ..s }, provider),
            TuiActionView::SaveSession(
                AfterSaveView::Status("Active provider: "@ + provider.display),
            ),
        ),
    }
}

/// Takes a model that was found.
pub fn model_resolved(app: &mut TuiState, purpose: ModelUse, models: Vec<ModelChoice>, provider: ResolvedModel) -> (result: Vec<TuiAction>)
    ensures
        (final(app)@, views(result@)) == model_found(
            old(app)@,
            purpose,
            views(models@),
            provider@,
        ),
{
    let mut text = "Model: ".to_owned();
    text.push_str(&provider.display);
    text.push_str(" / ");
    text.push_str(&provider.model);
    app.session.switch_model(&provider.id, &provider.model);
    match purpose {
        ModelUse::Switch => only(TuiAction::SaveSession(AfterSave::Status(text))),
        ModelUse::Choose => only(TuiAction::SaveSession(AfterSave::ModelChosen(text))),
        ModelUse::Activate => {
            app.models = models;
            let mut active = "Active provider: ".to_owned();
            active.push_str(&provider.display);
            only(TuiAction::SaveSession(AfterSave::Status(active)))
        },
    }
}

/// The step that asks the servers how they do, unless it is under way.
pub open spec fn mcp_asked(s: TuiStateView) -> (TuiStateView, Seq<TuiActionView>) {
    if s.settings_busy {
        quiet(s)
    } else {
        asking(
            TuiStateView { settings_busy: true, status: "Checking MCP servers"@, ..s },
            TuiActionView::CheckMcp,
        )
    }
}

/// Asks the servers how they do, unless that is under way.
pub fn start_mcp_status_refresh(app: &mut TuiState) -> (result: Vec<TuiAction>)
    ensures
        (final(app)@, views(result@)) == mcp_asked(old(app)@),
{
    if app.settings_busy {
        return nothing();
    }
    app.settings_busy = true;
    app.say("Checking MCP servers");
    only(TuiAction::CheckMcp)
}

/// The settings as they open.
pub open spec fn fresh_settings(facts: SettingsFactsView) -> SettingsStateView {
    SettingsStateView {
        tab: SettingsTab::Providers,
        document: facts.document,
        provider_ids: keys_of(facts.document.providers),
        mcp_servers: facts.mcp_servers,
        mcp_statuses: Seq::empty(),
        skills: facts.skills,
        selected: 0,
        show_secret: false,
        form: None,
        error: None,
    }
}

/// The state with the settings open, or told why they are not.
pub open spec fn settings_opened(
    s: TuiStateView,
    read: Result<SettingsFactsView, Seq<char>>,
) -> TuiStateView {
    match read {
        Ok(facts) => TuiStateView {
            settings: Some(fresh_settings(facts)),
            overlay: Some(new_overlay(OverlayKind::Settings)),
            ..s
        },
        Err(error) => s.noticed(NoticeKind::Error, error),
    }
}

/// The state with a page of the settings open.
pub open spec fn at_tab(s: TuiStateView, tab: Option<SettingsTab>) -> TuiStateView {
    match (s.settings, tab) {
        (Some(settings), Some(tab)) => TuiStateView {
            settings: Some(SettingsStateView { tab, selected: 0, ..settings }),
            ..s
        },
        _ => s,
    }
}

/// The step after what the settings show was read.
pub open spec fn settings_shown(
    s: TuiStateView,
    tab: Option<SettingsTab>,
    read: Result<SettingsFactsView, Seq<char>>,
) -> (TuiStateView, Seq<TuiActionView>) {
    let opened = settings_opened(s, read);
    let (asked, actions) = if opened.overlay is Some && opened.overlay->0.kind
        == OverlayKind::Settings {
        mcp_asked(opened)
    } else {
        quiet(opened)
    };
    (at_tab(asked, tab), actions)
}

fn open_read(app: &mut TuiState, read: Result<SettingsFacts, String>)
    ensures
        final(app)@ == settings_opened(old(app)@, outcome(read)),
{
    match read {
        Ok(facts) => {
            let provider_ids = table_keys(&facts.document.providers);
            app.settings = Some(
                SettingsState {
                    tab: SettingsTab::Providers,
                    document: facts.document,
                    provider_ids,
                    mcp_servers: facts.mcp_servers,
                    mcp_statuses: Vec::new(),
                    skills: facts.skills,
                    selected: 0,
                    show_secret: false,
                    form: None,
                    error: None,
                },
            );
            app.overlay = Some(Overlay::new(OverlayKind::Settings));
        },
        Err(error) => {
            app.push_notice(NoticeKind::Error, error);
        },
    }
}

fn go_to_tab(app: &mut TuiState, tab: Option<SettingsTab>)
    ensures
        final(app)@ == at_tab(old(app)@, tab),
{
    if let Some(tab) = tab {
        if let Some(settings) = &mut app.settings {
            settings.tab = tab;
            settings.selected = 0;
        }
    }
}

/// Takes what the settings show, and opens them at a page if one is given.
pub fn open_settings(app: &mut TuiState, tab: Option<SettingsTab>, read: Result<SettingsFacts, String>) -> (result: Vec<TuiAction>)
    ensures
        (final(app)@, views(result@)) == settings_shown(old(app)@, tab, outcome(read)),
{
    open_read(app, read);
    let shown = match &app.overlay {
        Some(overlay) => overlay.kind == OverlayKind::Settings,
        None => false,
    };
    let actions = if shown {
        start_mcp_status_refresh(app)
    } else {
        nothing()
    };
    go_to_tab(app, tab);
    actions
}

// ---------------------------------------------------------------------------
// Starting
// ---------------------------------------------------------------------------

/// The number of the turn after a turn. At the end of the numbers it stays.
pub open spec fn generation_after(generation: u64) -> u64 {
    if generation == u64::MAX {
        generation
    } else {
        (generation + 1) as u64
    }
}

/// The state with a turn under way.
pub open spec fn under_way(s: TuiStateView, status: Seq<char>) -> TuiStateView {
    TuiStateView {
        busy: true,
        status,
        next_generation: generation_after(s.next_generation),
        active_generation: Some(s.next_generation),
        ..s
    }
}

/// The step that starts a turn whose model was found or not.
pub open spec fn turn_started(
    s: TuiStateView,
    prompt: Seq<char>,
    continuation: bool,
    prepared: Result<Seq<char>, Seq<char>>,
) -> (TuiStateView, Seq<TuiActionView>) {
    match prepared {
        Err(error) => quiet(s.noticed(NoticeKind::Error, error)),
        Ok(model) => {
            let told = if continuation {
                TuiStateView { follow_tail: true, ..s }
            } else {
                TuiStateView {
                    input_history: s.input_history.push(prompt),
                    history_cursor: None,
                    timeline: s.timeline.push(TimelineEntryView::User(prompt)),
                    follow_tail: true,
                    ..s
                }
            };
            asking(
                under_way(
                    told,
                    (if continuation {
                        "Continuing Loop with "@
                    } else {
                        "Working with "@
                    }) + model,
                ),
                TuiActionView::RunTurn { generation: s.next_generation, prompt, continuation },
            )
        },
    }
}

fn go_on(app: &mut TuiState, status: String) -> (result: u64)
    ensures
        result == old(app)@.next_generation,
        final(app)@ == under_way(old(app)@, status@),
{
    let generation = app.next_generation;
    app.busy = true;
    app.status = status;
    app.next_generation = app.next_generation.saturating_add(1);
    app.active_generation = Some(generation);
    generation
}

/// Starts a turn once its model was found, or tells why it was not.
pub fn start_agent_turn(app: &mut TuiState, prompt: String, continuation: bool, prepared: Result<String, String>) -> (result: Vec<TuiAction>)
    ensures
        (final(app)@, views(result@)) == turn_started(
            old(app)@,
            prompt@,
            continuation,
            outcome(prepared),
        ),
{
    match prepared {
        Err(error) => {
            app.push_notice(NoticeKind::Error, error);
            nothing()
        },
        Ok(model) => {
            if !continuation {
                app.input_history.push(prompt.clone());
                app.history_cursor = None;
                app.timeline.push(TimelineEntry::User(prompt.clone()));
            }
            app.follow_tail = true;
            let mut text = if continuation {
                "Continuing Loop with ".to_owned()
            } else {
                "Working with ".to_owned()
            };
            text.push_str(&model);
            let generation = go_on(app, text);
            only(TuiAction::RunTurn { generation, prompt, continuation })
        },
    }
}

/// The step that asks for a compaction.
pub open spec fn compaction_requested(s: TuiStateView) -> (TuiStateView, Seq<TuiActionView>) {
    if s.busy {
        quiet(idle_required(s, "compact context"@))
    } else if s.session.messages.len() == 0 {
        quiet(
            s.noticed(NoticeKind::Warning, "The current session has no context to compact"@),
        )
    } else {
        asking(s, TuiActionView::PrepareCompaction)
    }
}

/// Asks for a compaction, unless a turn runs or there is nothing to summarise.
pub fn request_compaction(app: &mut TuiState) -> (result: Vec<TuiAction>)
    ensures
        (final(app)@, views(result@)) == compaction_requested(old(app)@),
{
    if !app.require_idle("compact context") {
        return nothing();
    }
    if app.session.messages.len() == 0 {
        app.push_notice(
            NoticeKind::Warning,
            "The current session has no context to compact".to_owned(),
        );
        return nothing();
    }
    only(TuiAction::PrepareCompaction)
}

/// The step that starts a compaction whose model was found or not.
pub open spec fn compaction_started(s: TuiStateView, failure: Option<Seq<char>>) -> (
    TuiStateView,
    Seq<TuiActionView>,
) {
    match failure {
        Some(error) => quiet(s.noticed(NoticeKind::Error, error)),
        None => asking(
            under_way(s.closed(), "Compacting context"@),
            TuiActionView::RunCompaction { generation: s.next_generation },
        ),
    }
}

/// Starts a compaction once its model was found, or tells why it was not.
pub fn start_manual_compaction(app: &mut TuiState, failure: Option<String>) -> (result: Vec<TuiAction>)
    ensures
        (final(app)@, views(result@)) == compaction_started(old(app)@, opt(failure)),
{
    match failure {
        Some(error) => {
            app.push_notice(NoticeKind::Error, error);
            nothing()
        },
        None => {
            app.close_overlay();
            let generation = go_on(app, "Compacting context".to_owned());
            only(TuiAction::RunCompaction { generation })
        },
    }
}

/// The step that asks for a side session.
pub open spec fn side_requested(s: TuiStateView, prompt: Seq<char>) -> (
    TuiStateView,
    Seq<TuiActionView>,
) {
    if s.side_busy || is_blank(prompt) {
        quiet(s)
    } else {
        asking(s, TuiActionView::PrepareSide(prompt))
    }
}

/// Asks for a side session, unless one runs or nothing was typed.
pub fn request_side_session(app: &TuiState, prompt: String) -> (result: Vec<TuiAction>)
    ensures
        (app@, views(result@)) == side_requested(app@, prompt@),
{
    if app.side_busy || blank(&prompt) {
        nothing()
    } else {
        only(TuiAction::PrepareSide(prompt))
    }
}

/// The step that starts a side session whose model was found or not. It works on a copy of the
/// session without its loop.
pub open spec fn side_started(
    s: TuiStateView,
    prompt: Seq<char>,
    id: Seq<char>,
    failure: Option<Seq<char>>,
) -> (TuiStateView, Seq<TuiActionView>) {
    match failure {
        Some(error) => quiet(s.noticed(NoticeKind::Error, error)),
        None => asking(
            TuiStateView {
                side_busy: true,
                timeline: s.timeline.push(TimelineEntryView::SideUser(prompt)),
                follow_tail: true,
                ..s
            },
            TuiActionView::RunSide {
                prompt,
                session: SessionView { id, loop_state: None, ..s.session },
            },
        ),
    }
}

/// Starts a side session once its model was found, or tells why it was not. `id` is the
/// identifier of the copy.
pub fn start_side_session(app: &mut TuiState, prompt: String, id: String, failure: Option<String>) -> (result: Vec<TuiAction>)
    ensures
        (final(app)@, views(result@)) == side_started(old(app)@, prompt@, id@, opt(failure)),
{
    match failure {
        Some(error) => {
            app.push_notice(NoticeKind::Error, error);
            nothing()
        },
        None => {
            app.side_busy = true;
            app.timeline.push(TimelineEntry::SideUser(prompt.clone()));
            app.follow_tail = true;
            let mut session = app.session.duplicate();
            session.id = id;
            session.loop_state = None;
            only(TuiAction::RunSide { prompt, session })
        },
    }
}

/// Starts a side session under a random identifier once its model was found, or tells why it
/// was not.
pub fn start_side_session_at_random(app: &mut TuiState, prompt: String, failure: Option<String>) -> (result: Vec<TuiAction>)
    ensures
        exists|id: Seq<char>|
            id.len() == 36 && (final(app)@, views(result@)) == #[trigger] side_started(
                old(app)@,
                prompt@,
                id,
                opt(failure),
            ),
{
    let id = fresh_uuid();
    start_side_session(app, prompt, id, failure)
}

/// The step between two events: the next message in the queue, else the loop, starts a turn.
pub open spec fn next_step(s: TuiStateView) -> (TuiStateView, Seq<TuiActionView>) {
    if s.busy || s.auto_config_busy || s.pending_approval is Some {
        quiet(s)
    } else if s.queue.len() > 0 {
        (
            TuiStateView { queue: s.queue.skip(1), ..s },
            seq![
                TuiActionView::DiscardQueued(s.queue[0]),
                TuiActionView::PrepareTurn { prompt: s.queue[0], continuation: false },
            ],
        )
    } else if s.loop_continuation_pending {
        asking(
            TuiStateView { loop_continuation_pending: false, ..s },
            TuiActionView::PrepareTurn { prompt: Seq::empty(), continuation: true },
        )
    } else {
        quiet(s)
    }
}

/// Returns what starts by itself: the next message in the queue, else the loop.
pub fn next_turn(app: &mut TuiState) -> (result: Vec<TuiAction>)
    ensures
        (final(app)@, views(result@)) == next_step(old(app)@),
{
    if app.busy || app.auto_config_busy || app.pending_approval.is_some() {
        return nothing();
    }
    let ghost waiting = texts(app.queue@);
    if app.queue.len() > 0 {
        let prompt = app.queue.remove(0);
        assert(texts(app.queue@) =~= waiting.skip(1));
        let mut actions = only(TuiAction::DiscardQueued(prompt.clone()));
        actions.push(TuiAction::PrepareTurn { prompt, continuation: false });
        assert(views(actions@) =~= next_step(old(app)@).1);
        actions
    } else if app.loop_continuation_pending {
        app.loop_continuation_pending = false;
        let prompt = String::new();
        assert(prompt@ =~= Seq::<char>::empty());
        only(TuiAction::PrepareTurn { prompt, continuation: true })
    } else {
        nothing()
    }
}

/// Whether an approval that waits is refused.
pub open spec fn approval_refused(s: TuiStateView) -> Seq<TuiActionView> {
    match s.pending_approval {
        Some(pending) => seq![
            TuiActionView::AnswerApproval { reply: pending.reply, approved: false },
        ],
        None => Seq::empty(),
    }
}

/// Questions that wait are left unanswered.
pub open spec fn questions_dismissed(s: TuiStateView) -> Seq<TuiActionView> {
    match s.pending_user_input {
        Some(pending) => seq![TuiActionView::DismissQuestions { reply: pending.reply }],
        None => Seq::empty(),
    }
}

/// The step that stops what runs: the turn is aborted, and who waits gets no for an answer.
pub open spec fn stopped(s: TuiStateView) -> (TuiStateView, Seq<TuiActionView>) {
    (
        TuiStateView { pending_approval: None, pending_user_input: None, ..s },
        seq![TuiActionView::AbortTurn] + approval_refused(s) + questions_dismissed(s),
    )
}

/// Stops what runs: the turn is aborted, and who waits gets no for an answer.
pub fn stop_turn(app: &mut TuiState) -> (result: Vec<TuiAction>)
    ensures
        (final(app)@, views(result@)) == stopped(old(app)@),
{
    let mut actions = only(TuiAction::AbortTurn);
    if let Some(pending) = &app.pending_approval {
        actions.push(TuiAction::AnswerApproval { reply: pending.reply, approved: false });
    }
    if let Some(pending) = &app.pending_user_input {
        actions.push(TuiAction::DismissQuestions { reply: pending.reply });
    }
    assert(views(actions@) =~= stopped(old(app)@).1);
    app.pending_approval = None;
    app.pending_user_input = None;
    actions
}

/// The answers to questions when the time for them is over: the first option of each.
pub open spec fn default_answers(questions: Seq<UserInputQuestionView>) -> Seq<(Seq<char>, Seq<char>)>
    decreases questions.len(),
{
    if questions.len() == 0 {
        Seq::empty()
    } else {
        let before = default_answers(questions.drop_last());
        let question = questions.last();
        if question.options.len() == 0 {
            before
        } else {
            put(before, question.id, question.options[0].label)
        }
    }
}

/// Returns the answers to questions when the time for them is over.
pub fn resolve_by_default(request: &UserInputRequest) -> (result: Vec<(String, String)>)
    ensures
        pairs_of(result@) == default_answers(request@.questions),
{
    let ghost all = request@.questions;
    let mut answers: Vec<(String, String)> = Vec::new();
    let mut i: usize = 0;
    assert(all.take(0) =~= Seq::<UserInputQuestionView>::empty());
    assert(pairs_of(answers@) =~= Seq::<(Seq<char>, Seq<char>)>::empty());
    while i < request.questions.len()
        invariant
            i <= request.questions@.len(),
            all == views(request.questions@),
            pairs_of(answers@) == default_answers(all.take(i as int)),
        decreases request.questions@.len() - i,
    {
        let question = &request.questions[i];
        assert(all.take(i + 1).drop_last() =~= all.take(i as int));
        assert(all.take(i + 1).last() == question@);
        if question.options.len() > 0 {
            assert(question@.options[0] == question.options@[0]@);
            table_put(&mut answers, question.id.clone(), question.options[0].label.clone());
        }
        i = i + 1;
    }
    assert(all.take(i as int) =~= all);
    answers
}

// ---------------------------------------------------------------------------
// Laws
// ---------------------------------------------------------------------------

/// What a turn tells that is not the running one changes nothing: its questions are dropped.
pub proof fn stale_turns_change_nothing(s: TuiStateView, event: RuntimeEventView)
    requires
        match event {
            RuntimeEventView::Agent { generation, .. } => s.active_generation != Some(generation),
            RuntimeEventView::Approval { generation, .. } => s.active_generation != Some(generation),
            RuntimeEventView::UserInput { generation, .. } => s.active_generation != Some(generation),
            RuntimeEventView::UserInputExpired { generation } => s.active_generation != Some(generation),
            RuntimeEventView::TurnFinished { generation, .. } => s.active_generation != Some(generation),
            _ => false,
        },
    ensures
        event_step(s, event).0 == s,
{
    reveal(agent_told);
    reveal(approval_asked);
    reveal(questions_asked);
    reveal(questions_expired);
    reveal(turn_ended);
}

/// After the running turn ended, nothing runs and nothing waits for the user, and the session
/// is the one that the turn left.
pub proof fn ended_turns_leave_nothing_open(
    s: TuiStateView,
    generation: u64,
    session: SessionView,
    error: Option<Seq<char>>,
)
    requires
        s.active_generation == Some(generation),
    ensures
        ({
            let after = event_step(s, RuntimeEventView::TurnFinished { generation, session, error }).0;
            !after.busy && after.active_generation is None && after.pending_approval is None
                && after.pending_user_input is None && after.session == session
        }),
{
    reveal(turn_ended);
}

/// A turn that starts gets a number that no later turn has, until the numbers are used up.
pub proof fn turns_have_their_own_numbers(s: TuiStateView, prompt: Seq<char>, continuation: bool, model: Seq<char>)
    requires
        s.next_generation < u64::MAX,
    ensures
        ({
            let after = turn_started(s, prompt, continuation, Ok(model)).0;
            after.busy && after.active_generation == Some(s.next_generation)
                && after.next_generation > s.next_generation
        }),
{
}

/// A side session leaves the session as it is and works on a copy without a loop.
pub proof fn side_sessions_leave_the_session(s: TuiStateView, prompt: Seq<char>, id: Seq<char>)
    ensures
        side_started(s, prompt, id, None).0.session == s.session,
        side_started(s, prompt, id, None).1[0] is RunSide,
        side_started(s, prompt, id, None).1[0]->RunSide_session.messages == s.session.messages,
        side_started(s, prompt, id, None).1[0]->RunSide_session.loop_state is None,
{
}

/// Whatever happens outside, the state stays valid, and nothing that may close the overlay is
/// asked for while a deletion waits to be confirmed.
pub proof fn events_keep_the_state_valid(s: TuiStateView, event: RuntimeEventView)
    requires
        s.wf(),
    ensures
        event_step(s, event).0.wf(),
        asks_safely(event_step(s, event)),
{
    match event {
        RuntimeEventView::SkillInstalled { .. } => {
            reveal(skill_installed);
        },
        RuntimeEventView::InstallFailed(_) => {
            reveal(install_failed);
        },
        RuntimeEventView::AutoConfigDeclined => {
            reveal(configured);
        },
        RuntimeEventView::AutoConfigFailed(_) => {
            reveal(configured);
        },
        RuntimeEventView::AutoConfigDone { .. } => {
            reveal(configured);
        },
        RuntimeEventView::UpdateFound { .. } => {
            reveal(update_found);
        },
        RuntimeEventView::UpdateCurrent(_) => {
            reveal(version_told);
        },
        RuntimeEventView::UpdateFailed(_) => {
            reveal(version_told);
        },
        RuntimeEventView::McpStatuses(_) => {
            reveal(statuses_taken);
        },
        RuntimeEventView::SettingsActionDone { .. } => {
            reveal(skill_updated);
        },
        RuntimeEventView::SettingsActionFailed { .. } => {
            reveal(skill_updated);
        },
        RuntimeEventView::Approval { .. } => {
            reveal(approval_asked);
        },
        RuntimeEventView::UserInput { .. } => {
            reveal(questions_asked);
        },
        RuntimeEventView::UserInputExpired { .. } => {
            reveal(questions_expired);
        },
        RuntimeEventView::SideAgent(_) => {
            reveal(side_shown);
        },
        RuntimeEventView::SideFinished(_) => {
            reveal(side_ended);
        },
        RuntimeEventView::Agent { .. } => {
            reveal(agent_told);
        },
        RuntimeEventView::TurnFinished { .. } => {
            reveal(turn_ended);
        },
    }
}

} // verus!
