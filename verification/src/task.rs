//! The task of a session: its phase, its events that nobody has confirmed, its download.

use vstd::prelude::*;
use crate::api::ApiError;
use crate::api::ApiErrorView;
use crate::api::bad_request;
use crate::codec::parse_uuid;
use crate::codec::uuid_text;
use crate::json::Json;
use crate::json::JsonView;
use crate::json::member;
use crate::json::object_view;
use crate::json::text_of;
use crate::json::u64_of;
use crate::json_ops::Fields;
use crate::json_ops::assigned;
use crate::numbers::decimal;
use crate::numbers::decimal_is_digits;
use crate::numbers::decimal_reads_back;
use crate::pieces::lines;
use crate::pieces::single_spaced;
use crate::pieces::split_lines;
use crate::pieces::words;
use crate::session::ToolCall;
use crate::session::ToolCallView;
use crate::session::ToolResult;
use crate::session::ToolResultView;
use crate::settings::assigned_is_read;
use crate::settings::number_data;
use crate::text::begins;
use crate::text::clone_texts;
use crate::text::contains;
use crate::text::first_chars;
use crate::text::has;
use crate::text::is_digit;
use crate::text::joined;
use crate::text::lower;
use crate::text::same;
use crate::text::starts_with;
use crate::text::take_chars;
use crate::text::texts;
use crate::text::texts_empty;
use crate::text::texts_push;
use crate::text::to_lower;
use crate::text::trim;
use crate::text::trimmed;
use crate::views::Duplicate;
use crate::views::duplicate_all;
use crate::views::duplicate_opt;
use crate::views::opt;
use crate::views::views;
use crate::views::views_empty;
use crate::views::views_push;

verus! {

broadcast use {texts_push, texts_empty, views_push, views_empty, object_view};

/// The state of a managed task.
#[derive(Clone, Copy, Debug, PartialEq, Eq, Structural)]
pub enum TaskStatus {
    Queued,
    WaitingLock,
    Running,
    PausePending,
    Paused,
    AwaitingApproval,
    AwaitingInput,
    Completed,
    Failed,
    Cancelled,
    Conflict,
    Interrupted,
}

/// What is to be done with a managed task.
#[derive(Clone, Copy, Debug, PartialEq, Eq, Structural)]
pub enum TaskCommand {
    RequestPause,
    Resume,
    /// Stop the turn that is running.
    Stop,
    /// Mark the task as cancelled.
    Cancel,
    Retry,
    SetPriority,
}

/// A download that a task makes.
#[derive(Debug)]
pub struct DownloadTaskState {
    pub label: String,
    pub status: String,
    pub process_id: Option<String>,
}

/// What a `DownloadTaskState` holds.
#[verifier::ext_equal]
pub struct DownloadTaskStateView {
    pub label: Seq<char>,
    pub status: Seq<char>,
    pub process_id: Option<Seq<char>>,
}

impl View for DownloadTaskState {
    type V = DownloadTaskStateView;

    open spec fn view(&self) -> DownloadTaskStateView {
        DownloadTaskStateView {
            label: self.label@,
            status: self.status@,
            process_id: opt(self.process_id),
        }
    }
}

impl Duplicate for DownloadTaskState {
    fn duplicate(&self) -> (result: Self) {
        DownloadTaskState {
            label: self.label.clone(),
            status: self.status.clone(),
            process_id: duplicate_opt(&self.process_id),
        }
    }
}

/// The task of a session.
#[derive(Debug)]
pub struct SessionTask {
    pub running: bool,
    pub pause_requested: bool,
    pub task_id: Option<String>,
    pub phase: String,
    pub started_at: u64,
    pub current_tool: Option<String>,
    pub download: Option<DownloadTaskState>,
    /// The calls that wait for a decision.
    pub approvals: Vec<String>,
    /// The questions that wait for an answer.
    pub questions: Vec<String>,
    /// The requests for files that wait for an answer.
    pub file_requests: Vec<String>,
    /// Whether a client is there.
    pub connected: bool,
    pub next_event_seq: u64,
    pub unacked_events: Vec<Json>,
    /// The events that are to be sent to the client.
    pub outbox: Vec<Json>,
}

/// What a `SessionTask` holds.
#[verifier::ext_equal]
pub struct SessionTaskView {
    pub running: bool,
    pub pause_requested: bool,
    pub task_id: Option<Seq<char>>,
    pub phase: Seq<char>,
    pub started_at: u64,
    pub current_tool: Option<Seq<char>>,
    pub download: Option<DownloadTaskStateView>,
    pub approvals: Seq<Seq<char>>,
    pub questions: Seq<Seq<char>>,
    pub file_requests: Seq<Seq<char>>,
    pub connected: bool,
    pub next_event_seq: u64,
    pub unacked_events: Seq<JsonView>,
    pub outbox: Seq<JsonView>,
}

impl View for SessionTask {
    type V = SessionTaskView;

    open spec fn view(&self) -> SessionTaskView {
        SessionTaskView {
            running: self.running,
            pause_requested: self.pause_requested,
            task_id: opt(self.task_id),
            phase: self.phase@,
            started_at: self.started_at,
            current_tool: opt(self.current_tool),
            download: opt(self.download),
            approvals: texts(self.approvals@),
            questions: texts(self.questions@),
            file_requests: texts(self.file_requests@),
            connected: self.connected,
            next_event_seq: self.next_event_seq,
            unacked_events: views(self.unacked_events@),
            outbox: views(self.outbox@),
        }
    }
}

impl Duplicate for SessionTask {
    fn duplicate(&self) -> (result: Self) {
        SessionTask {
            running: self.running,
            pause_requested: self.pause_requested,
            task_id: duplicate_opt(&self.task_id),
            phase: self.phase.clone(),
            started_at: self.started_at,
            current_tool: duplicate_opt(&self.current_tool),
            download: duplicate_opt(&self.download),
            approvals: clone_texts(&self.approvals),
            questions: clone_texts(&self.questions),
            file_requests: clone_texts(&self.file_requests),
            connected: self.connected,
            next_event_seq: self.next_event_seq,
            unacked_events: duplicate_all(&self.unacked_events),
            outbox: duplicate_all(&self.outbox),
        }
    }
}

// ---------------------------------------------------------------------------
// Phases
// ---------------------------------------------------------------------------

/// The state that a phase stands for. An unknown phase stands for an interrupted task.
pub open spec fn status_of_phase(phase: Seq<char>) -> TaskStatus {
    if phase == "queued"@ {
        TaskStatus::Queued
    } else if phase == "waiting_lock"@ {
        TaskStatus::WaitingLock
    } else if phase == "running"@ {
        TaskStatus::Running
    } else if phase == "pause_pending"@ {
        TaskStatus::PausePending
    } else if phase == "paused"@ {
        TaskStatus::Paused
    } else if phase == "awaiting_approval"@ {
        TaskStatus::AwaitingApproval
    } else if phase == "awaiting_input"@ {
        TaskStatus::AwaitingInput
    } else if phase == "completed"@ {
        TaskStatus::Completed
    } else if phase == "failed"@ {
        TaskStatus::Failed
    } else if phase == "cancelled"@ {
        TaskStatus::Cancelled
    } else if phase == "conflict"@ {
        TaskStatus::Conflict
    } else {
        TaskStatus::Interrupted
    }
}

/// The name of a state.
pub open spec fn status_name(status: TaskStatus) -> Seq<char> {
    match status {
        TaskStatus::Queued => "queued"@,
        TaskStatus::WaitingLock => "waiting_lock"@,
        TaskStatus::Running => "running"@,
        TaskStatus::PausePending => "pause_pending"@,
        TaskStatus::Paused => "paused"@,
        TaskStatus::AwaitingApproval => "awaiting_approval"@,
        TaskStatus::AwaitingInput => "awaiting_input"@,
        TaskStatus::Completed => "completed"@,
        TaskStatus::Failed => "failed"@,
        TaskStatus::Cancelled => "cancelled"@,
        TaskStatus::Conflict => "conflict"@,
        TaskStatus::Interrupted => "interrupted"@,
    }
}

/// Returns the state that a phase stands for.
pub fn phase_status(phase: &str) -> (result: TaskStatus)
    ensures
        result == status_of_phase(phase@),
{
    if same(phase, "queued") {
        TaskStatus::Queued
    } else if same(phase, "waiting_lock") {
        TaskStatus::WaitingLock
    } else if same(phase, "running") {
        TaskStatus::Running
    } else if same(phase, "pause_pending") {
        TaskStatus::PausePending
    } else if same(phase, "paused") {
        TaskStatus::Paused
    } else if same(phase, "awaiting_approval") {
        TaskStatus::AwaitingApproval
    } else if same(phase, "awaiting_input") {
        TaskStatus::AwaitingInput
    } else if same(phase, "completed") {
        TaskStatus::Completed
    } else if same(phase, "failed") {
        TaskStatus::Failed
    } else if same(phase, "cancelled") {
        TaskStatus::Cancelled
    } else if same(phase, "conflict") {
        TaskStatus::Conflict
    } else {
        TaskStatus::Interrupted
    }
}

impl TaskStatus {
    /// The name of the state.
    pub fn name(self) -> (result: String)
        ensures
            result@ == status_name(self),
    {
        let name = match self {
            TaskStatus::Queued => "queued",
            TaskStatus::WaitingLock => "waiting_lock",
            TaskStatus::Running => "running",
            TaskStatus::PausePending => "pause_pending",
            TaskStatus::Paused => "paused",
            TaskStatus::AwaitingApproval => "awaiting_approval",
            TaskStatus::AwaitingInput => "awaiting_input",
            TaskStatus::Completed => "completed",
            TaskStatus::Failed => "failed",
            TaskStatus::Cancelled => "cancelled",
            TaskStatus::Conflict => "conflict",
            TaskStatus::Interrupted => "interrupted",
        };
        name.to_owned()
    }

    /// Whether the task is still under way.
    pub open spec fn under_way(self) -> bool {
        matches!(self, TaskStatus::Queued | TaskStatus::WaitingLock | TaskStatus::Running
            | TaskStatus::PausePending | TaskStatus::Paused | TaskStatus::AwaitingApproval
            | TaskStatus::AwaitingInput)
    }

    /// Tells whether the task is still under way.
    pub fn is_under_way(self) -> (result: bool)
        ensures
            result == self.under_way(),
    {
        match self {
            TaskStatus::Queued | TaskStatus::WaitingLock | TaskStatus::Running
            | TaskStatus::PausePending | TaskStatus::Paused | TaskStatus::AwaitingApproval
            | TaskStatus::AwaitingInput => true,
            _ => false,
        }
    }
}

/// Returns the state that the record of a task is to take, where it differs.
pub fn checkpoint_change(phase: &str, recorded: TaskStatus) -> (result: Option<TaskStatus>)
    ensures
        result == if status_of_phase(phase@) == recorded {
            None
        } else {
            Some(status_of_phase(phase@))
        },
{
    let status = phase_status(phase);
    if status == recorded {
        None
    } else {
        Some(status)
    }
}

// ---------------------------------------------------------------------------
// Events
// ---------------------------------------------------------------------------

/// The number after a number; behind the last one the count starts again.
pub open spec fn after(n: u64) -> u64 {
    if n == u64::MAX {
        0
    } else {
        (n + 1) as u64
    }
}

/// The number that an event carries.
pub open spec fn seq_of(event: JsonView) -> Option<nat> {
    u64_of(member(event, "event_seq"@))
}

/// What an event is about, as an object: nothing is an object without fields.
pub open spec fn as_object(payload: JsonView) -> JsonView {
    if payload is Null {
        JsonView::Object(Seq::empty())
    } else {
        payload
    }
}

/// An event with its number.
pub open spec fn numbered(payload: JsonView, number: u64) -> JsonView {
    assigned(as_object(payload), "event_seq"@, number_data(number as nat))
}

/// The events that are left when those up to a number are confirmed.
pub open spec fn unconfirmed(events: Seq<JsonView>, number: nat) -> Seq<JsonView>
    decreases events.len(),
{
    if events.len() > 0 && seq_of(events[0]) is Some && seq_of(events[0])->0 <= number {
        unconfirmed(events.skip(1), number)
    } else {
        events
    }
}

impl SessionTaskView {
    /// The task after an event.
    pub open spec fn pushed(self, payload: JsonView) -> SessionTaskView {
        let event = numbered(payload, self.next_event_seq);
        SessionTaskView {
            next_event_seq: after(self.next_event_seq),
            unacked_events: self.unacked_events.push(event),
            outbox: if self.connected {
                self.outbox.push(event)
            } else {
                self.outbox
            },
            ..self
        }
    }

    /// The task after events up to a number were confirmed.
    pub open spec fn acknowledged(self, number: nat) -> SessionTaskView {
        SessionTaskView { unacked_events: unconfirmed(self.unacked_events, number), ..self }
    }

    /// The task at the start of a turn.
    pub open spec fn begun(self, task_id: Seq<char>, now: u64) -> SessionTaskView {
        SessionTaskView {
            unacked_events: Seq::empty(),
            task_id: Some(task_id),
            phase: "queued"@,
            started_at: now,
            current_tool: None,
            pause_requested: false,
            download: None,
            ..self
        }
    }

    /// The task at the end of a turn.
    pub open spec fn finished(self, phase: Seq<char>) -> SessionTaskView {
        SessionTaskView {
            running: false,
            pause_requested: false,
            phase,
            current_tool: None,
            download: None,
            ..self
        }
    }

    /// The task after its turn was stopped.
    pub open spec fn stopped(self) -> SessionTaskView {
        if !self.running {
            self
        } else {
            SessionTaskView { running: false, ..self }.finished("cancelled"@).pushed(
                event_data("agent_cancelled"@),
            ).pushed(event_data("turn_end"@))
        }
    }

    /// The phase as clients see it: while a turn runs, what it waits for comes first.
    pub open spec fn shown_phase(self) -> Seq<char> {
        if self.running && self.approvals.len() > 0 {
            "awaiting_approval"@
        } else if self.running && self.questions.len() > 0 {
            "awaiting_input"@
        } else {
            self.phase
        }
    }

    /// Whether the events that wait carry the numbers before the next one, without a gap.
    pub open spec fn in_sequence(self) -> bool {
        &&& self.unacked_events.len() <= self.next_event_seq
        &&& forall|i: int|
            0 <= i < self.unacked_events.len() ==> seq_of(#[trigger] self.unacked_events[i])
                == Some((self.next_event_seq - self.unacked_events.len() + i) as nat)
    }
}

/// An event that has only a type.
pub open spec fn event_data(kind: Seq<char>) -> JsonView {
    JsonView::Object(seq![("event_type"@, JsonView::Text(kind))])
}

/// An event that has only a type.
pub fn plain_event(kind: &str) -> (result: Json)
    ensures
        result@ == event_data(kind@),
        result@ is Object,
{
    let mut fields = Fields::new();
    fields.add("event_type", Json::text(kind));
    assert(fields@ =~= event_data(kind@)->Object_0);
    fields.done()
}

/// A task that has done nothing yet.
pub open spec fn idle_task() -> SessionTaskView {
    SessionTaskView {
        running: false,
        pause_requested: false,
        task_id: None,
        phase: "idle"@,
        started_at: 0,
        current_tool: None,
        download: None,
        approvals: Seq::empty(),
        questions: Seq::empty(),
        file_requests: Seq::empty(),
        connected: false,
        next_event_seq: 1,
        unacked_events: Seq::empty(),
        outbox: Seq::empty(),
    }
}

impl SessionTask {
    /// A task that has done nothing yet.
    pub fn new() -> (result: SessionTask)
        ensures
            result@ == idle_task(),
    {
        SessionTask {
            running: false,
            pause_requested: false,
            task_id: None,
            phase: "idle".to_owned(),
            started_at: 0,
            current_tool: None,
            download: None,
            approvals: Vec::new(),
            questions: Vec::new(),
            file_requests: Vec::new(),
            connected: false,
            next_event_seq: 1,
            unacked_events: Vec::new(),
            outbox: Vec::new(),
        }
    }

    /// Gives an event its number, keeps it until it is confirmed, and hands it to the client
    /// where there is one.
    pub fn push_event(&mut self, payload: Json)
        requires
            payload@ is Object || payload@ is Null,
        ensures
            final(self)@ == old(self)@.pushed(payload@),
    {
        let mut event = match payload {
            Json::Null => Fields::new().done(),
            payload => payload,
        };
        event.assign("event_seq", Json::number(self.next_event_seq));
        self.next_event_seq = if self.next_event_seq == u64::MAX {
            0
        } else {
            self.next_event_seq + 1
        };
        if self.connected {
            self.outbox.push(event.copy());
        }
        self.unacked_events.push(event);
    }

    /// Confirms the events up to a number.
    pub fn acknowledge_through(&mut self, seq: u64)
        ensures
            final(self)@ == old(self)@.acknowledged(seq as nat),
    {
        while self.unacked_events.len() > 0
            invariant
                unconfirmed(self@.unacked_events, seq as nat) == unconfirmed(
                    old(self)@.unacked_events,
                    seq as nat,
                ),
                self@ == (SessionTaskView {
                    unacked_events: self@.unacked_events,
                    ..old(self)@
                }),
            decreases self.unacked_events.len(),
        {
            let ghost before = self.unacked_events@;
            assert(views(before)[0] == before[0]@);
            match self.unacked_events[0].u64_member("event_seq") {
                Some(number) => {
                    if number > seq {
                        return ;
                    }
                },
                None => {
                    return ;
                },
            }
            self.unacked_events.remove(0);
            assert(views(self.unacked_events@) =~= views(before).skip(1));
        }
        assert(unconfirmed(self@.unacked_events, seq as nat) =~= self@.unacked_events);
    }

    /// Starts a turn.
    pub fn begin_turn(&mut self, task_id: String, now: u64)
        ensures
            final(self)@ == old(self)@.begun(task_id@, now),
    {
        self.unacked_events = Vec::new();
        self.task_id = Some(task_id);
        self.phase = "queued".to_owned();
        self.started_at = now;
        self.current_tool = None;
        self.pause_requested = false;
        self.download = None;
    }

    /// Sets the phase.
    pub fn set_phase(&mut self, phase: &str)
        ensures
            final(self)@ == (SessionTaskView { phase: phase@, ..old(self)@ }),
    {
        self.phase = phase.to_owned();
    }

    /// Ends a turn.
    pub fn finish(&mut self, phase: &str)
        ensures
            final(self)@ == old(self)@.finished(phase@),
    {
        self.running = false;
        self.pause_requested = false;
        self.phase = phase.to_owned();
        self.current_tool = None;
        self.download = None;
    }

    /// Stops the turn that is running. Tells whether there was one.
    pub fn stop(&mut self) -> (stopped: bool)
        ensures
            stopped == old(self)@.running,
            final(self)@ == old(self)@.stopped(),
    {
        if !self.running {
            return false;
        }
        self.finish("cancelled");
        self.push_event(plain_event("agent_cancelled"));
        self.push_event(plain_event("turn_end"));
        true
    }

    /// Takes the task to a point where it may pause. Tells whether it is to wait.
    pub fn reach_safe_point(&mut self) -> (wait: bool)
        ensures
            wait == old(self)@.pause_requested,
            final(self)@ == if wait {
                SessionTaskView { phase: "paused"@, ..old(self)@ }
            } else if old(self)@.running {
                SessionTaskView { phase: "running"@, ..old(self)@ }
            } else {
                old(self)@
            },
    {
        if self.pause_requested {
            self.set_phase("paused");
            return true;
        }
        if self.running {
            self.set_phase("running");
        }
        false
    }

    /// The phase as clients see it.
    pub fn current_phase(&self) -> (result: String)
        ensures
            result@ == self@.shown_phase(),
    {
        assert(texts(self.approvals@).len() == self.approvals@.len());
        assert(texts(self.questions@).len() == self.questions@.len());
        if self.running && self.approvals.len() > 0 {
            "awaiting_approval".to_owned()
        } else if self.running && self.questions.len() > 0 {
            "awaiting_input".to_owned()
        } else {
            self.phase.clone()
        }
    }
}

// ---------------------------------------------------------------------------
// Requests
// ---------------------------------------------------------------------------

/// The task after a request of the task list. Only the states that a request speaks of
/// change.
pub open spec fn acted(task: SessionTaskView, action: Seq<char>) -> SessionTaskView {
    if action == "pause"@ {
        SessionTaskView { pause_requested: true, phase: "pause_pending"@, ..task }
    } else if action == "resume"@ {
        SessionTaskView { pause_requested: false, phase: "running"@, ..task }
    } else if action == "cancel"@ {
        task.stopped()
    } else if action == "retry"@ {
        SessionTaskView { phase: "queued"@, ..task }
    } else {
        task
    }
}

/// What a request of the task list asks for.
pub open spec fn requested_command(running: bool, action: Seq<char>, priority: bool) -> Result<
    TaskCommand,
    ApiErrorView,
> {
    if action == "pause"@ {
        Ok(TaskCommand::RequestPause)
    } else if action == "resume"@ {
        Ok(TaskCommand::Resume)
    } else if action == "cancel"@ {
        if running {
            Ok(TaskCommand::Stop)
        } else {
            Ok(TaskCommand::Cancel)
        }
    } else if action == "retry"@ {
        Ok(TaskCommand::Retry)
    } else if action == "priority"@ {
        if priority {
            Ok(TaskCommand::SetPriority)
        } else {
            Err(bad_request("priority is required"@))
        }
    } else {
        Err(bad_request("unknown task action"@))
    }
}

/// A command or a fault, as its view.
pub open spec fn command_view(result: Result<TaskCommand, ApiError>) -> Result<
    TaskCommand,
    ApiErrorView,
> {
    match result {
        Ok(command) => Ok(command),
        Err(error) => Err(error@),
    }
}

/// Decides on a request of the task list. `task` is the task of the session, where it is
/// there; it comes back as the request leaves it.
pub fn task_action(task: Option<SessionTask>, action: &str, priority: bool) -> (result: (
    Option<SessionTask>,
    Result<TaskCommand, ApiError>,
))
    ensures
        opt(result.0) == match task {
            Some(value) => Some(acted(value@, action@)),
            None => None,
        },
        command_view(result.1) == requested_command(
            task is Some && task->0@.running,
            action@,
            priority,
        ),
{
    if same(action, "pause") {
        let after = match task {
            Some(mut value) => {
                value.pause_requested = true;
                value.set_phase("pause_pending");
                Some(value)
            },
            None => None,
        };
        return (after, Ok(TaskCommand::RequestPause));
    }
    if same(action, "resume") {
        let after = match task {
            Some(mut value) => {
                value.pause_requested = false;
                value.set_phase("running");
                Some(value)
            },
            None => None,
        };
        return (after, Ok(TaskCommand::Resume));
    }
    if same(action, "cancel") {
        return match task {
            Some(mut value) => {
                let stopped = value.stop();
                let command = if stopped {
                    TaskCommand::Stop
                } else {
                    TaskCommand::Cancel
                };
                (Some(value), Ok(command))
            },
            None => (None, Ok(TaskCommand::Cancel)),
        };
    }
    if same(action, "retry") {
        let after = match task {
            Some(mut value) => {
                value.set_phase("queued");
                Some(value)
            },
            None => None,
        };
        return (after, Ok(TaskCommand::Retry));
    }
    if same(action, "priority") {
        if priority {
            return (task, Ok(TaskCommand::SetPriority));
        }
        return (task, Err(ApiError::bad_request("priority is required")));
    }
    (task, Err(ApiError::bad_request("unknown task action")))
}

/// The identifier of a session that a text writes.
pub open spec fn session_identifier(id: Seq<char>) -> Result<Seq<char>, ApiErrorView> {
    match uuid_text(id) {
        Some(text) => Ok(text),
        None => Err(bad_request("invalid session id"@)),
    }
}

/// Reads the identifier of a session.
pub fn parse_session_id(id: &str) -> (result: Result<String, ApiError>)
    ensures
        match result {
            Ok(text) => session_identifier(id@) == Ok::<Seq<char>, ApiErrorView>(text@),
            Err(error) => session_identifier(id@) == Err::<Seq<char>, ApiErrorView>(error@),
        },
{
    match parse_uuid(id) {
        Some(text) => Ok(text),
        None => Err(ApiError::bad_request("invalid session id")),
    }
}

/// What stands against changing what is noted of a session.
pub open spec fn metadata_fault(title: Option<Seq<char>>, pinned: Option<bool>) -> Option<
    ApiErrorView,
> {
    if title is None && pinned is None {
        Some(bad_request("title or pinned is required"@))
    } else if title is Some && trimmed(title->0).len() == 0 {
        Some(bad_request("session title must not be empty"@))
    } else if title is Some && trimmed(title->0).len() > 120 {
        Some(bad_request("session title is too long"@))
    } else {
        None
    }
}

/// Checks what is to be noted of a session. Returns the title as it is to be stored.
pub fn check_session_metadata(title: Option<&String>, pinned: Option<bool>) -> (result: Result<
    Option<String>,
    ApiError,
>)
    ensures
        ({
            let wanted = match title {
                Some(text) => Some(text@),
                None => None,
            };
            match result {
                Ok(stored) => metadata_fault(wanted, pinned) is None && opt(stored) == match wanted {
                    Some(text) => Some(trimmed(text)),
                    None => None,
                },
                Err(error) => metadata_fault(wanted, pinned) == Some(error@),
            }
        }),
{
    if title.is_none() && pinned.is_none() {
        return Err(ApiError::bad_request("title or pinned is required"));
    }
    match title {
        Some(text) => {
            let stored = trim(text);
            if stored.as_str().is_empty() {
                return Err(ApiError::bad_request("session title must not be empty"));
            }
            if stored.as_str().unicode_len() > 120 {
                return Err(ApiError::bad_request("session title is too long"));
            }
            Ok(Some(stored))
        },
        None => Ok(None),
    }
}

// ---------------------------------------------------------------------------
// Downloads
// ---------------------------------------------------------------------------

/// What a download command holds.
pub open spec fn download_markers() -> Seq<Seq<char>> {
    seq![
        "curl "@,
        "wget "@,
        "git clone"@,
        "npm install"@,
        "npm i "@,
        "pnpm install"@,
        "pnpm add"@,
        "yarn install"@,
        "pip install"@,
        "pip3 install"@,
        "cargo install"@,
        "pkg install"@,
        "apt install"@,
        "apt-get install"@,
    ]
}

/// Whether a command downloads something.
#[verifier::opaque]
pub open spec fn downloads(command: Seq<char>) -> bool {
    exists|i: int|
        0 <= i < download_markers().len() && contains(
            lower(command),
            #[trigger] download_markers()[i],
        )
}

/// A command on one line, at most 72 characters.
pub open spec fn short_command(command: Seq<char>) -> Seq<char> {
    let compact = joined(words(command), " "@);
    if compact.len() > 72 {
        first_chars(compact, 69) + "..."@
    } else {
        compact
    }
}

/// The label of the download that a call makes, where it makes one.
pub open spec fn call_download(call: ToolCallView) -> Option<Seq<char>> {
    let command = text_of(member(call.arguments, "command"@));
    if call.name != "local_shell"@ && call.name != "shell"@ {
        None
    } else if call.name == "local_shell"@ && text_of(member(call.arguments, "action"@)) != Some(
        "exec"@,
    ) {
        None
    } else if command is None || !downloads(command->0) {
        None
    } else {
        Some(short_command(command->0))
    }
}

fn is_download(command: &str) -> (result: bool)
    ensures
        result == downloads(command@),
{
    let name = to_lower(command);
    let ghost markers = download_markers();
    proof {
        reveal(downloads);
        assert(markers[0] == "curl "@);
        assert(markers[1] == "wget "@);
        assert(markers[2] == "git clone"@);
        assert(markers[3] == "npm install"@);
        assert(markers[4] == "npm i "@);
        assert(markers[5] == "pnpm install"@);
        assert(markers[6] == "pnpm add"@);
        assert(markers[7] == "yarn install"@);
        assert(markers[8] == "pip install"@);
        assert(markers[9] == "pip3 install"@);
        assert(markers[10] == "cargo install"@);
        assert(markers[11] == "pkg install"@);
        assert(markers[12] == "apt install"@);
        assert(markers[13] == "apt-get install"@);
        assert(markers.len() == 14);
    }
    has(&name, "curl ") || has(&name, "wget ") || has(&name, "git clone") || has(&name, "npm install") || has(&name, "npm i ") || has(&name, "pnpm install") || has(&name, "pnpm add") || has(&name, "yarn install") || has(&name, "pip install") || has(&name, "pip3 install") || has(&name, "cargo install") || has(&name, "pkg install") || has(&name, "apt install") || has(&name, "apt-get install")
}

/// Returns the label of the download that a call makes, where it makes one.
pub fn download_label(call: &ToolCall) -> (result: Option<String>)
    ensures
        opt(result) == call_download(call@),
{
    if !same(&call.name, "local_shell") && !same(&call.name, "shell") {
        return None;
    }
    if same(&call.name, "local_shell") {
        match call.arguments.text_member("action") {
            Some(action) => {
                if !same(&action, "exec") {
                    return None;
                }
            },
            None => {
                return None;
            },
        }
    }
    match call.arguments.text_member("command") {
        None => None,
        Some(command) => {
            if !is_download(&command) {
                return None;
            }
            let compact = single_spaced(&command);
            if compact.as_str().unicode_len() > 72 {
                Some(take_chars(&compact, 69).concat("..."))
            } else {
                Some(compact)
            }
        },
    }
}

/// The process that an output names: the text behind the first `session_id: ` at the start
/// of a line.
pub open spec fn named_process(list: Seq<Seq<char>>) -> Option<Seq<char>>
    decreases list.len(),
{
    if list.len() == 0 {
        None
    } else if starts_with(list[0], "session_id: "@) {
        Some(trimmed(list[0].skip("session_id: "@.len() as int)))
    } else {
        named_process(list.skip(1))
    }
}

fn find_process(output: &str) -> (result: Option<String>)
    ensures
        opt(result) == named_process(lines(output@)),
{
    let list = split_lines(output);
    let ghost all = texts(list@);
    let mut i: usize = 0;
    assert(all.skip(0) =~= all);
    while i < list.len()
        invariant
            i <= list@.len(),
            all == texts(list@),
            all == lines(output@),
            named_process(all) == named_process(all.skip(i as int)),
        decreases list@.len() - i,
    {
        assert(all.skip(i as int)[0] == list@[i as int]@);
        assert(all.skip(i as int).skip(1) =~= all.skip(i + 1));
        if begins(&list[i], "session_id: ") {
            let count: usize = list[i].as_str().unicode_len();
            let skip: usize = "session_id: ".unicode_len();
            let rest = list[i].as_str().substring_char(skip, count).to_owned();
            assert(rest@ =~= list@[i as int]@.skip(skip as int));
            return Some(trim(&rest));
        }
        i = i + 1;
    }
    None
}

/// The download after a call that started one, or that waited for one.
pub open spec fn next_download(
    download: Option<DownloadTaskStateView>,
    call: ToolCallView,
    result: ToolResultView,
    started: Option<Seq<char>>,
) -> Option<DownloadTaskStateView> {
    match started {
        Some(label) => {
            let process_id = named_process(lines(result.output));
            Some(
                DownloadTaskStateView {
                    label,
                    status: if !result.success {
                        "failed"@
                    } else if process_id is Some {
                        "downloading"@
                    } else {
                        "completed"@
                    },
                    process_id,
                },
            )
        },
        None => if call.name != "local_shell"@ || text_of(member(call.arguments, "action"@))
            != Some("wait"@) || download is None || download->0.process_id != text_of(
            member(call.arguments, "session_id"@),
        ) {
            download
        } else {
            Some(
                DownloadTaskStateView {
                    status: if !result.success {
                        "failed"@
                    } else if contains(result.output, "process still running"@) {
                        "downloading"@
                    } else {
                        "completed"@
                    },
                    ..download->0
                },
            )
        },
    }
}

fn same_process(a: &Option<String>, b: &Option<String>) -> (result: bool)
    ensures
        result == (opt(*a) == opt(*b)),
{
    match (a, b) {
        (Some(x), Some(y)) => same(x, y),
        (None, None) => true,
        _ => false,
    }
}

/// Notes on the task what a call did to its download.
pub fn update_download_state(
    task: &mut SessionTask,
    call: &ToolCall,
    result: &ToolResult,
    started: Option<String>,
)
    ensures
        final(task)@ == (SessionTaskView {
            download: next_download(old(task)@.download, call@, result@, opt(started)),
            ..old(task)@
        }),
{
    if let Some(label) = started {
        let process_id = find_process(&result.output);
        let status = if !result.success {
            "failed"
        } else if process_id.is_some() {
            "downloading"
        } else {
            "completed"
        };
        task.download = Some(DownloadTaskState { label, status: status.to_owned(), process_id });
        return ;
    }
    if !same(&call.name, "local_shell") {
        return ;
    }
    match call.arguments.text_member("action") {
        Some(action) => {
            if !same(&action, "wait") {
                return ;
            }
        },
        None => {
            return ;
        },
    }
    let requested = call.arguments.text_member("session_id");
    let state = match &task.download {
        Some(state) => state.duplicate(),
        None => {
            return ;
        },
    };
    if !same_process(&state.process_id, &requested) {
        return ;
    }
    let status = if !result.success {
        "failed"
    } else if has(&result.output, "process still running") {
        "downloading"
    } else {
        "completed"
    };
    task.download = Some(
        DownloadTaskState {
            label: state.label,
            status: status.to_owned(),
            process_id: state.process_id,
        },
    );
}

// ---------------------------------------------------------------------------
// Laws
// ---------------------------------------------------------------------------

/// The name of a state is a phase that stands for it.
pub proof fn names_stand_for_states(status: TaskStatus)
    ensures
        status_of_phase(status_name(status)) == status,
{
    reveal_strlit("queued");
    reveal_strlit("waiting_lock");
    reveal_strlit("running");
    reveal_strlit("pause_pending");
    reveal_strlit("paused");
    reveal_strlit("awaiting_approval");
    reveal_strlit("awaiting_input");
    reveal_strlit("completed");
    reveal_strlit("failed");
    reveal_strlit("cancelled");
    reveal_strlit("conflict");
    reveal_strlit("interrupted");
    assert("queued"@.len() == 6);
    assert("waiting_lock"@.len() == 12);
    assert("running"@.len() == 7);
    assert("pause_pending"@.len() == 13);
    assert("paused"@.len() == 6);
    assert("awaiting_approval"@.len() == 17);
    assert("awaiting_input"@.len() == 14);
    assert("completed"@.len() == 9);
    assert("failed"@.len() == 6);
    assert("cancelled"@.len() == 9);
    assert("conflict"@.len() == 8);
    assert("interrupted"@.len() == 11);
    assert("queued"@[0] == 'q' && "paused"@[0] == 'p');
    assert("queued"@[0] == 'q' && "failed"@[0] == 'f');
    assert("paused"@[0] == 'p' && "failed"@[0] == 'f');
    assert("completed"@[1] == 'o' && "cancelled"@[1] == 'a');
}

/// A new event gets the next number, and the events that wait stay in sequence.
pub proof fn events_are_numbered(task: SessionTaskView, payload: JsonView)
    requires
        task.in_sequence(),
        payload is Object || payload is Null,
        task.next_event_seq < u64::MAX,
    ensures
        task.pushed(payload).in_sequence(),
        task.pushed(payload).next_event_seq == task.next_event_seq + 1,
        task.pushed(payload).unacked_events.len() > 0,
        seq_of(task.pushed(payload).unacked_events.last()) == Some(task.next_event_seq as nat),
{
    let number = task.next_event_seq as nat;
    let event = numbered(payload, task.next_event_seq);
    assigned_is_read(as_object(payload), "event_seq"@, number_data(number), "event_seq"@);
    decimal_reads_back(number);
    decimal_is_digits(number);
    assert(is_digit(decimal(number)[0]));
    assert(seq_of(event) == Some(number));
    let before = task.unacked_events;
    let now = task.pushed(payload);
    assert forall|i: int| 0 <= i < now.unacked_events.len() implies seq_of(
        #[trigger] now.unacked_events[i],
    ) == Some((now.next_event_seq - now.unacked_events.len() + i) as nat) by {
        if i < now.unacked_events.len() - 1 {
            assert(now.unacked_events[i] == before[i]);
        }
    }
}

/// The task after several events.
pub open spec fn all_pushed(task: SessionTaskView, payloads: Seq<JsonView>) -> SessionTaskView
    decreases payloads.len(),
{
    if payloads.len() == 0 {
        task
    } else {
        all_pushed(task, payloads.drop_last()).pushed(payloads.last())
    }
}

/// Events with the numbers from `first` on.
pub open spec fn numbered_from(payloads: Seq<JsonView>, first: u64) -> Seq<JsonView> {
    Seq::new(payloads.len(), |i: int| numbered(payloads[i], (first + i) as u64))
}

/// However many events there are, all of them wait in order until they are confirmed, and a
/// client that is there gets each of them once, in that order.
pub proof fn events_are_all_kept(task: SessionTaskView, payloads: Seq<JsonView>)
    requires
        task.next_event_seq + payloads.len() <= u64::MAX,
    ensures
        all_pushed(task, payloads) == (SessionTaskView {
            next_event_seq: (task.next_event_seq + payloads.len()) as u64,
            unacked_events: task.unacked_events + numbered_from(payloads, task.next_event_seq),
            outbox: if task.connected {
                task.outbox + numbered_from(payloads, task.next_event_seq)
            } else {
                task.outbox
            },
            ..task
        }),
    decreases payloads.len(),
{
    let first = task.next_event_seq;
    if payloads.len() == 0 {
        assert(task.unacked_events + numbered_from(payloads, first) =~= task.unacked_events);
        assert(task.outbox + numbered_from(payloads, first) =~= task.outbox);
    } else {
        let most = payloads.drop_last();
        events_are_all_kept(task, most);
        assert(numbered_from(payloads, first) =~= numbered_from(most, first).push(
            numbered(payloads.last(), (first + most.len()) as u64),
        ));
        assert(task.unacked_events + numbered_from(payloads, first) =~= (task.unacked_events
            + numbered_from(most, first)).push(
            numbered(payloads.last(), (first + most.len()) as u64),
        ));
        assert(task.outbox + numbered_from(payloads, first) =~= (task.outbox + numbered_from(
            most,
            first,
        )).push(numbered(payloads.last(), (first + most.len()) as u64)));
    }
}

/// Confirming events up to a number removes exactly those up to it, and the others stay in
/// sequence.
pub proof fn confirmed_events_go(task: SessionTaskView, number: nat)
    requires
        task.in_sequence(),
    ensures
        task.acknowledged(number).in_sequence(),
        forall|i: int|
            0 <= i < task.acknowledged(number).unacked_events.len() ==> seq_of(
                #[trigger] task.acknowledged(number).unacked_events[i],
            )->0 > number,
        forall|i: int|
            0 <= i < task.unacked_events.len() && seq_of(#[trigger] task.unacked_events[i])->0
                > number ==> task.acknowledged(number).unacked_events.contains(
                task.unacked_events[i],
            ),
    decreases task.unacked_events.len(),
{
    let events = task.unacked_events;
    if events.len() > 0 && seq_of(events[0]) is Some && seq_of(events[0])->0 <= number {
        let rest = SessionTaskView { unacked_events: events.skip(1), ..task };
        assert forall|i: int| 0 <= i < rest.unacked_events.len() implies seq_of(
            #[trigger] rest.unacked_events[i],
        ) == Some((rest.next_event_seq - rest.unacked_events.len() + i) as nat) by {
            assert(rest.unacked_events[i] == events[i + 1]);
        }
        confirmed_events_go(rest, number);
        assert(task.acknowledged(number).unacked_events == rest.acknowledged(number).unacked_events);
        assert forall|i: int| 0 <= i < events.len() && seq_of(#[trigger] events[i])->0 > number implies
            task.acknowledged(number).unacked_events.contains(events[i]) by {
            assert(i > 0);
            assert(rest.unacked_events[i - 1] == events[i]);
        }
    } else if events.len() > 0 {
        assert(seq_of(events[0]) is Some);
        assert forall|i: int| 0 <= i < events.len() implies seq_of(#[trigger] events[i])->0
            > number by {
            assert(seq_of(events[0])->0 > number);
        }
    }
}

/// Events that are confirmed twice are gone once.
pub proof fn confirming_twice_is_confirming_once(task: SessionTaskView, number: nat)
    ensures
        task.acknowledged(number).acknowledged(number) == task.acknowledged(number),
    decreases task.unacked_events.len(),
{
    let events = task.unacked_events;
    if events.len() > 0 && seq_of(events[0]) is Some && seq_of(events[0])->0 <= number {
        confirming_twice_is_confirming_once(
            SessionTaskView { unacked_events: events.skip(1), ..task },
            number,
        );
    }
}

/// A client that goes away loses nothing: what happens to the events that wait does not depend
/// on whether it is there.
pub proof fn events_wait_for_the_client(task: SessionTaskView, payload: JsonView, connected: bool)
    ensures
        (SessionTaskView { connected, ..task }).pushed(payload).unacked_events == task.pushed(
            payload,
        ).unacked_events,
        (SessionTaskView { connected, ..task }).pushed(payload).next_event_seq == task.pushed(
            payload,
        ).next_event_seq,
{
}

/// A task that was stopped does not run, and its last events say so. A second stop changes
/// nothing.
pub proof fn stopped_tasks_stay_stopped(task: SessionTaskView)
    ensures
        !task.stopped().running,
        task.stopped().stopped() == task.stopped(),
        task.running ==> task.stopped().phase == "cancelled"@ && task.stopped().download is None
            && task.stopped().current_tool is None,
{
}

} // verus!
