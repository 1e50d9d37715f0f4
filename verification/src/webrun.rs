//! The course of a turn of the bridge: what it waits for before it works, and what follows
//! when the agent is done, whatever came of it.

use vstd::prelude::*;
use crate::commands::SessionMode;
use crate::session::LoopStatus;
use crate::session::Session;
use crate::session::SessionView;
use crate::task::SessionTask;
use crate::task::SessionTaskView;
use crate::text::texts;
use crate::webturn::append_continuation;
use crate::webturn::begin_work;
use crate::webturn::blames_images;
use crate::webturn::conflict_summary;
use crate::webturn::continued;
use crate::webturn::has_image;
use crate::webturn::loop_continues;
use crate::webturn::maybe_degrade_vision;
use crate::webturn::should_run_cognitive_turn;

verus! {

// ---------------------------------------------------------------------------
// Before the work
// ---------------------------------------------------------------------------

/// How many milliseconds pass before resources that somebody else holds are asked for again.
pub const RESOURCE_PAUSE_MS: u64 = 100;

/// What a task that is about to work waits for.
#[derive(Clone, Copy, Debug, PartialEq, Eq, Structural)]
pub enum WaitPhase {
    /// A point at which it may go on.
    SafePoint,
    /// Its resources.
    Acquire,
    /// The time until it asks for its resources again.
    Pause,
    /// Whether files changed since it was asked for.
    Baseline,
    /// Nothing: it works, or it will not.
    Done,
}

/// What happened while a task waits.
#[derive(Debug)]
pub enum WaitEvent {
    /// It may go on.
    Passed,
    /// It has its resources.
    Acquired,
    /// Somebody else holds them.
    Busy,
    /// The time has passed.
    Slept,
    /// These files changed.
    Compared(Vec<String>),
    /// What it waits for failed.
    Failed(String),
}

/// What a `WaitEvent` holds.
#[verifier::ext_equal]
pub enum WaitEventView {
    Passed,
    Acquired,
    Busy,
    Slept,
    Compared(Seq<Seq<char>>),
    Failed(Seq<char>),
}

impl View for WaitEvent {
    type V = WaitEventView;

    open spec fn view(&self) -> WaitEventView {
        match *self {
            WaitEvent::Passed => WaitEventView::Passed,
            WaitEvent::Acquired => WaitEventView::Acquired,
            WaitEvent::Busy => WaitEventView::Busy,
            WaitEvent::Slept => WaitEventView::Slept,
            WaitEvent::Compared(conflicts) => WaitEventView::Compared(texts(conflicts@)),
            WaitEvent::Failed(message) => WaitEventView::Failed(message@),
        }
    }
}

/// What a task that waits needs next.
#[derive(Debug)]
pub enum WaitAction {
    /// A point at which it may go on.
    AwaitSafePoint,
    /// Its resources.
    Acquire,
    /// Some time.
    Sleep { delay_ms: u64 },
    /// The files that changed since it was asked for.
    Compare,
    /// Nothing: it works.
    Work,
    /// Nothing: files changed; its record says so.
    Conflict(String),
    /// Nothing: it will not work.
    Fail(String),
    /// Nothing: the event does not answer what it needs.
    Rejected,
}

/// What a `WaitAction` holds.
#[verifier::ext_equal]
pub enum WaitActionView {
    AwaitSafePoint,
    Acquire,
    Sleep { delay_ms: u64 },
    Compare,
    Work,
    Conflict(Seq<char>),
    Fail(Seq<char>),
    Rejected,
}

impl View for WaitAction {
    type V = WaitActionView;

    open spec fn view(&self) -> WaitActionView {
        match *self {
            WaitAction::AwaitSafePoint => WaitActionView::AwaitSafePoint,
            WaitAction::Acquire => WaitActionView::Acquire,
            WaitAction::Sleep { delay_ms } => WaitActionView::Sleep { delay_ms },
            WaitAction::Compare => WaitActionView::Compare,
            WaitAction::Work => WaitActionView::Work,
            WaitAction::Conflict(summary) => WaitActionView::Conflict(summary@),
            WaitAction::Fail(message) => WaitActionView::Fail(message@),
            WaitAction::Rejected => WaitActionView::Rejected,
        }
    }
}

/// What one step of waiting comes to.
#[verifier::ext_equal]
pub struct WaitOutcome {
    pub phase: WaitPhase,
    pub task: SessionTaskView,
    pub action: WaitActionView,
}

/// One step of waiting. A task that was cancelled meanwhile does not ask for its resources.
pub open spec fn waited(phase: WaitPhase, task: SessionTaskView, event: WaitEventView) -> WaitOutcome {
    match (phase, event) {
        (WaitPhase::Done, _) => WaitOutcome { phase, task, action: WaitActionView::Rejected },
        (WaitPhase::Pause, WaitEventView::Slept) => WaitOutcome {
            phase: WaitPhase::SafePoint,
            task,
            action: WaitActionView::AwaitSafePoint,
        },
        (WaitPhase::Pause, _) => WaitOutcome { phase, task, action: WaitActionView::Rejected },
        (_, WaitEventView::Failed(message)) => WaitOutcome {
            phase: WaitPhase::Done,
            task,
            action: WaitActionView::Fail(message),
        },
        (WaitPhase::SafePoint, WaitEventView::Passed) => if task.running {
            WaitOutcome { phase: WaitPhase::Acquire, task, action: WaitActionView::Acquire }
        } else {
            WaitOutcome {
                phase: WaitPhase::Done,
                task,
                action: WaitActionView::Fail("task was cancelled"@),
            }
        },
        (WaitPhase::Acquire, WaitEventView::Acquired) => WaitOutcome {
            phase: WaitPhase::Baseline,
            task,
            action: WaitActionView::Compare,
        },
        (WaitPhase::Acquire, WaitEventView::Busy) => WaitOutcome {
            phase: WaitPhase::Pause,
            task,
            action: WaitActionView::Sleep { delay_ms: RESOURCE_PAUSE_MS },
        },
        (WaitPhase::Baseline, WaitEventView::Compared(conflicts)) => if conflicts.len() == 0 {
            WaitOutcome {
                phase: WaitPhase::Done,
                task: SessionTaskView { phase: "running"@, ..task },
                action: WaitActionView::Work,
            }
        } else {
            WaitOutcome {
                phase: WaitPhase::Done,
                task: SessionTaskView { phase: "conflict"@, ..task },
                action: WaitActionView::Conflict(conflict_summary(conflicts)),
            }
        },
        _ => WaitOutcome { phase, task, action: WaitActionView::Rejected },
    }
}

/// Takes one step of waiting: from what happened to what the task needs next. It begins at
/// the safe point.
pub fn wait_step(phase: &mut WaitPhase, task: &mut SessionTask, event: WaitEvent) -> (action: WaitAction)
    ensures
        ({
            let o = waited(*old(phase), old(task)@, event@);
            &&& *final(phase) == o.phase
            &&& final(task)@ == o.task
            &&& action@ == o.action
        }),
{
    match *phase {
        WaitPhase::Done => WaitAction::Rejected,
        WaitPhase::Pause => match event {
            WaitEvent::Slept => {
                *phase = WaitPhase::SafePoint;
                WaitAction::AwaitSafePoint
            },
            _ => WaitAction::Rejected,
        },
        WaitPhase::SafePoint => match event {
            WaitEvent::Failed(message) => {
                *phase = WaitPhase::Done;
                WaitAction::Fail(message)
            },
            WaitEvent::Passed => {
                if task.running {
                    *phase = WaitPhase::Acquire;
                    WaitAction::Acquire
                } else {
                    *phase = WaitPhase::Done;
                    WaitAction::Fail("task was cancelled".to_owned())
                }
            },
            _ => WaitAction::Rejected,
        },
        WaitPhase::Acquire => match event {
            WaitEvent::Failed(message) => {
                *phase = WaitPhase::Done;
                WaitAction::Fail(message)
            },
            WaitEvent::Acquired => {
                *phase = WaitPhase::Baseline;
                WaitAction::Compare
            },
            WaitEvent::Busy => {
                *phase = WaitPhase::Pause;
                WaitAction::Sleep { delay_ms: RESOURCE_PAUSE_MS }
            },
            _ => WaitAction::Rejected,
        },
        WaitPhase::Baseline => match event {
            WaitEvent::Failed(message) => {
                *phase = WaitPhase::Done;
                WaitAction::Fail(message)
            },
            WaitEvent::Compared(conflicts) => {
                *phase = WaitPhase::Done;
                match begin_work(task, &conflicts) {
                    Ok(_) => WaitAction::Work,
                    Err(summary) => WaitAction::Conflict(summary),
                }
            },
            _ => WaitAction::Rejected,
        },
    }
}

// ---------------------------------------------------------------------------
// The work and what follows it
// ---------------------------------------------------------------------------

/// What a turn waits for.
#[derive(Clone, Copy, Debug, PartialEq, Eq, Structural)]
pub enum RunPhase {
    /// The agent.
    Agent,
    /// That the session is saved.
    Save,
    /// The life of the session.
    Life,
    /// Nothing: it has ended.
    Done,
}

/// A turn of the bridge at work.
#[derive(Debug)]
pub struct WebRun {
    /// Whether the life of the session takes part.
    pub life: bool,
    /// Whether the loop of the session went on at least once.
    pub looped: bool,
    /// What the agent answered so far.
    pub text: String,
    /// What the agent came to last.
    pub outcome: Result<String, String>,
    pub phase: RunPhase,
}

/// What a `WebRun` holds.
#[verifier::ext_equal]
pub struct WebRunView {
    pub life: bool,
    pub looped: bool,
    pub text: Seq<char>,
    pub outcome: Result<Seq<char>, Seq<char>>,
    pub phase: RunPhase,
}

/// An answer or a failure, as its view.
pub open spec fn answer_view(result: Result<String, String>) -> Result<Seq<char>, Seq<char>> {
    match result {
        Ok(text) => Ok(text@),
        Err(message) => Err(message@),
    }
}

impl View for WebRun {
    type V = WebRunView;

    open spec fn view(&self) -> WebRunView {
        WebRunView {
            life: self.life,
            looped: self.looped,
            text: self.text@,
            outcome: answer_view(self.outcome),
            phase: self.phase,
        }
    }
}

/// What happened to a turn at work.
#[derive(Debug)]
pub enum RunEvent {
    /// The agent is done, with an answer or a failure. `degraded` tells whether images are kept
    /// from the model already.
    Ended { result: Result<String, String>, degraded: bool },
    /// The session is saved.
    Saved,
    /// The life of the session took note.
    Told,
    /// Saving the session, or telling its life, failed.
    Failed(String),
}

/// What a `RunEvent` holds.
#[verifier::ext_equal]
pub enum RunEventView {
    Ended { result: Result<Seq<char>, Seq<char>>, degraded: bool },
    Saved,
    Told,
    Failed(Seq<char>),
}

impl View for RunEvent {
    type V = RunEventView;

    open spec fn view(&self) -> RunEventView {
        match *self {
            RunEvent::Ended { result, degraded } => RunEventView::Ended {
                result: answer_view(result),
                degraded,
            },
            RunEvent::Saved => RunEventView::Saved,
            RunEvent::Told => RunEventView::Told,
            RunEvent::Failed(message) => RunEventView::Failed(message@),
        }
    }
}

/// What a turn at work needs next.
#[derive(Debug)]
pub enum RunAction {
    /// The agent works on the message, or takes up the turn again. The session counts as used
    /// from now on.
    Run { recovery: bool },
    /// The agent goes on with the loop.
    ContinueLoop,
    /// The session is saved: first it is noted, if told so, that images are kept from the model,
    /// and that the session was used just now.
    Save { degrade: bool, touch: bool },
    /// The life of the session takes note of what the agent answered.
    TellLife(String),
    /// Nothing: it succeeded.
    Finish,
    /// Nothing: it failed.
    Fail(String),
    /// Nothing: the event does not answer what it needs.
    Rejected,
}

/// What a `RunAction` holds.
#[verifier::ext_equal]
pub enum RunActionView {
    Run { recovery: bool },
    ContinueLoop,
    Save { degrade: bool, touch: bool },
    TellLife(Seq<char>),
    Finish,
    Fail(Seq<char>),
    Rejected,
}

impl View for RunAction {
    type V = RunActionView;

    open spec fn view(&self) -> RunActionView {
        match *self {
            RunAction::Run { recovery } => RunActionView::Run { recovery },
            RunAction::ContinueLoop => RunActionView::ContinueLoop,
            RunAction::Save { degrade, touch } => RunActionView::Save { degrade, touch },
            RunAction::TellLife(text) => RunActionView::TellLife(text@),
            RunAction::Finish => RunActionView::Finish,
            RunAction::Fail(message) => RunActionView::Fail(message@),
            RunAction::Rejected => RunActionView::Rejected,
        }
    }
}

/// A turn at the beginning of its work.
pub open spec fn run_begun(mode: SessionMode, recovery: bool) -> WebRunView {
    WebRunView {
        life: mode == SessionMode::Life && !recovery,
        looped: false,
        text: Seq::empty(),
        outcome: Ok(Seq::empty()),
        phase: RunPhase::Agent,
    }
}

/// Whether images are to be kept from the model after an answer or a failure.
pub open spec fn keeps_images_back(
    session: SessionView,
    result: Result<Seq<char>, Seq<char>>,
    degraded: bool,
) -> bool {
    match result {
        Ok(_) => false,
        Err(error) => has_image(session.messages) && !degraded && blames_images(error),
    }
}

/// Whether the loop of a session is active.
pub open spec fn loop_is_active(session: SessionView) -> bool {
    session.loop_state is Some && session.loop_state->0.status == LoopStatus::Active
}

/// What the agent answered so far, with its last answer.
pub open spec fn text_so_far(run: WebRunView, answer: Seq<char>) -> Seq<char> {
    if run.looped {
        continued(run.text, answer)
    } else {
        answer
    }
}

/// What follows when the session is saved: a failure ends the turn; else the loop goes on while
/// it is active; else the life of the session takes note, where it takes part.
pub open spec fn run_saved(run: WebRunView, session: SessionView) -> (WebRunView, RunActionView) {
    match run.outcome {
        Err(message) => (
            WebRunView { phase: RunPhase::Done, ..run },
            RunActionView::Fail(message),
        ),
        Ok(answer) => {
            let text = text_so_far(run, answer);
            if loop_is_active(session) {
                (
                    WebRunView { looped: true, text, phase: RunPhase::Agent, ..run },
                    RunActionView::ContinueLoop,
                )
            } else if run.life {
                (
                    WebRunView { text, phase: RunPhase::Life, ..run },
                    RunActionView::TellLife(text),
                )
            } else {
                (WebRunView { text, phase: RunPhase::Done, ..run }, RunActionView::Finish)
            }
        },
    }
}

/// One step of a turn at work. `session` is the session as it then stands.
pub open spec fn run_stepped(run: WebRunView, session: SessionView, event: RunEventView) -> (
    WebRunView,
    RunActionView,
) {
    match (run.phase, event) {
        (RunPhase::Agent, RunEventView::Ended { result, degraded }) => (
            WebRunView { outcome: result, phase: RunPhase::Save, ..run },
            RunActionView::Save {
                degrade: keeps_images_back(session, result, degraded),
                touch: run.looped,
            },
        ),
        (RunPhase::Save, RunEventView::Saved) => run_saved(run, session),
        (RunPhase::Save, RunEventView::Failed(message)) => (
            WebRunView { phase: RunPhase::Done, ..run },
            RunActionView::Fail(message),
        ),
        (RunPhase::Life, RunEventView::Told) => (
            WebRunView { phase: RunPhase::Done, ..run },
            RunActionView::Finish,
        ),
        (RunPhase::Life, RunEventView::Failed(message)) => (
            WebRunView { phase: RunPhase::Done, ..run },
            RunActionView::Fail(message),
        ),
        _ => (run, RunActionView::Rejected),
    }
}

impl WebRun {
    /// Begins the work of a turn, of a message or of a turn that is taken up again.
    pub fn begin(mode: SessionMode, recovery: bool) -> (result: (WebRun, RunAction))
        ensures
            result.0@ == run_begun(mode, recovery),
            result.1@ == (RunActionView::Run { recovery }),
    {
        let run = WebRun {
            life: should_run_cognitive_turn(mode, recovery),
            looped: false,
            text: String::new(),
            outcome: Ok(String::new()),
            phase: RunPhase::Agent,
        };
        assert(run@ =~= run_begun(mode, recovery));
        (run, RunAction::Run { recovery })
    }

    fn on_saved(&mut self, session: &Session) -> (action: RunAction)
        ensures
            (final(self)@, action@) == run_saved(old(self)@, session@),
    {
        match &self.outcome {
            Err(message) => {
                let message = message.clone();
                self.phase = RunPhase::Done;
                RunAction::Fail(message)
            },
            Ok(answer) => {
                if self.looped {
                    append_continuation(&mut self.text, answer);
                } else {
                    self.text = answer.clone();
                }
                if loop_continues(session) {
                    self.looped = true;
                    self.phase = RunPhase::Agent;
                    RunAction::ContinueLoop
                } else if self.life {
                    self.phase = RunPhase::Life;
                    RunAction::TellLife(self.text.clone())
                } else {
                    self.phase = RunPhase::Done;
                    RunAction::Finish
                }
            },
        }
    }

    /// Takes one step: from what happened to what the turn needs next.
    pub fn step(&mut self, session: &Session, event: RunEvent) -> (action: RunAction)
        ensures
            (final(self)@, action@) == run_stepped(old(self)@, session@, event@),
    {
        match self.phase {
            RunPhase::Agent => match event {
                RunEvent::Ended { result, degraded } => {
                    let degrade = match &result {
                        Ok(_) => false,
                        Err(error) => maybe_degrade_vision(session, degraded, error),
                    };
                    self.outcome = result;
                    self.phase = RunPhase::Save;
                    RunAction::Save { degrade, touch: self.looped }
                },
                _ => RunAction::Rejected,
            },
            RunPhase::Save => match event {
                RunEvent::Saved => self.on_saved(session),
                RunEvent::Failed(message) => {
                    self.phase = RunPhase::Done;
                    RunAction::Fail(message)
                },
                _ => RunAction::Rejected,
            },
            RunPhase::Life => match event {
                RunEvent::Told => {
                    self.phase = RunPhase::Done;
                    RunAction::Finish
                },
                RunEvent::Failed(message) => {
                    self.phase = RunPhase::Done;
                    RunAction::Fail(message)
                },
                _ => RunAction::Rejected,
            },
            RunPhase::Done => RunAction::Rejected,
        }
    }
}

// ---------------------------------------------------------------------------
// Laws
// ---------------------------------------------------------------------------

/// Whatever the agent came to, the session is saved before anything else follows, and a failure
/// over images is noted with it.
pub proof fn sessions_are_always_saved(
    run: WebRunView,
    session: SessionView,
    result: Result<Seq<char>, Seq<char>>,
    degraded: bool,
)
    requires
        run.phase == RunPhase::Agent,
    ensures
        ({
            let (next, action) = run_stepped(
                run,
                session,
                RunEventView::Ended { result, degraded },
            );
            &&& next.phase == RunPhase::Save
            &&& next.outcome == result
            &&& action == (RunActionView::Save {
                degrade: keeps_images_back(session, result, degraded),
                touch: run.looped,
            })
        }),
{
}

/// The loop goes on, the life takes note, and the turn succeeds only after the agent succeeded
/// and the session was saved, or the life took note of that.
pub proof fn failures_end_the_turn(run: WebRunView, session: SessionView, event: RunEventView)
    ensures
        ({
            let (next, action) = run_stepped(run, session, event);
            &&& action is ContinueLoop || action is TellLife ==> run.phase == RunPhase::Save
                && event is Saved && run.outcome is Ok
            &&& action is Finish ==> (run.phase == RunPhase::Save && event is Saved
                && run.outcome is Ok) || (run.phase == RunPhase::Life && event is Told)
            &&& run.phase == RunPhase::Save && run.outcome is Err && event is Saved ==> action
                == RunActionView::Fail(run.outcome->Err_0)
            &&& action is Fail || action is Finish ==> next.phase == RunPhase::Done
        }),
{
}

/// A turn whose loop is active goes on with it after each success, and only then.
pub proof fn active_loops_go_on(run: WebRunView, session: SessionView)
    requires
        run.phase == RunPhase::Save,
    ensures
        run_stepped(run, session, RunEventView::Saved).1 is ContinueLoop <==> run.outcome is Ok
            && loop_is_active(session),
{
}

/// A turn that has ended stays ended.
pub proof fn ended_runs_stay_ended(run: WebRunView, session: SessionView, event: RunEventView)
    requires
        run.phase == RunPhase::Done,
    ensures
        run_stepped(run, session, event) == (run, RunActionView::Rejected),
{
}

/// A task works only where it still ran when it asked for its resources, has them, and nothing
/// changed since it was asked for; a task that was cancelled asks for nothing.
pub proof fn work_is_waited_for(phase: WaitPhase, task: SessionTaskView, event: WaitEventView)
    ensures
        ({
            let o = waited(phase, task, event);
            &&& o.action is Acquire ==> task.running
            &&& o.action is Compare ==> phase == WaitPhase::Acquire && event is Acquired
            &&& o.action is Work ==> phase == WaitPhase::Baseline && event
                == WaitEventView::Compared(Seq::empty()) && o.task.phase == "running"@
            &&& o.action is Conflict ==> o.task.phase == "conflict"@
        }),
{
    if let WaitEventView::Compared(conflicts) = event {
        if conflicts.len() == 0 {
            assert(conflicts =~= Seq::empty());
        }
    }
}

} // verus!
