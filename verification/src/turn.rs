//! One turn of the agent, as a machine that is driven from outside.
//!
//! The machine decides; its caller acts. A step takes what came of the last action and
//! gives the next one: run a hook, wait at a safe point, prepare or summarise the history,
//! send the request, wait, run tools, drain the queue of messages, or end the turn.

use vstd::prelude::*;
use crate::agent::AgentView;
use crate::events::AgentEventView;
use crate::events::ContextStatus;
use crate::events::EffectView;
use crate::failure::delay_before_retry;
use crate::failure::overflows_context;
use crate::failure::passes_by_itself;
use crate::failure::refuses_images;
use crate::failure::AgentError;
use crate::failure::AgentErrorView;
use crate::failure::ProviderFailure;
use crate::failure::ProviderFailureView;
use crate::json::JsonView;
use crate::session::assistant_message;
use crate::session::internal_message;
use crate::session::plain_result;
use crate::session::system_message;
use crate::session::tool_message;
use crate::session::user_message;
use crate::session::ChatMessage;
use crate::session::ChatMessageView;
use crate::session::InvalidToolCallView;
use crate::session::ModelRequest;
use crate::session::ModelRequestView;
use crate::session::ModelResponse;
use crate::session::ModelResponseView;
use crate::session::SessionView;
use crate::session::ToolCallView;
use crate::session::ToolResult;
use crate::session::ToolResultView;
use crate::session::ToolSpec;
use crate::session::ToolSpecView;
use crate::text::is_blank;
use crate::text::texts;
use crate::tools::correction_request;
use crate::tools::failures_after;
use crate::tools::prints;
use crate::tools::scheduled;
use crate::tools::CallFacts;
use crate::tools::CallFactsView;
use crate::tools::CallModeView;
use crate::tools::ScheduledCall;
use crate::tools::ScheduledCallView;
use crate::tools::ToolFailure;
use crate::tools::ToolFailureView;
use crate::views::duplicate_all;
use crate::views::group_views;
use crate::views::views;
use crate::views::Duplicate;

verus! {

broadcast use group_views;

/// The hooks that run before a turn.
#[derive(Clone, Copy, Debug, PartialEq, Eq, Structural)]
pub enum HookKind {
    /// Runs once, before the first turn of a session.
    SessionStart,
    /// Runs before every turn.
    TurnStart,
}

/// Where a turn stands: which answer it waits for.
#[derive(Clone, Copy, Debug, PartialEq, Eq, Structural)]
pub enum TurnPhase {
    SessionHook,
    TurnHook,
    SafePoint,
    Prepare,
    /// Summarising before the request.
    CompactFirst,
    Send,
    Backoff,
    /// Summarising because the request was too long.
    CompactOverflow,
    /// Measuring the context after a reply.
    Observe,
    Tools,
    QueueAfterText,
    QueueAfterTools,
    Done,
}

/// A turn under way.
#[derive(Debug)]
pub struct Turn {
    pub phase: TurnPhase,
    pub provider: String,
    pub model: String,
    pub tools: Vec<ToolSpec>,
    /// The message that opens the turn.
    pub prompt: ChatMessage,
    /// The number of the current round; the first is 1.
    pub round: usize,
    /// Whether the history was summarised because a request was too long.
    pub compacted: bool,
    /// Whether requests repeat images.
    pub replay: bool,
    /// Whether the model was asked to correct invalid calls.
    pub corrected: bool,
    pub failures: Vec<ToolFailure>,
    /// How often the current request was made again.
    pub attempt: u8,
    /// Whether the current request was made again without images.
    pub stripped: bool,
    pub request: ModelRequest,
    pub response: ModelResponse,
    pub scheduled: Vec<ScheduledCall>,
}

/// What a `Turn` holds.
#[verifier::ext_equal]
pub struct TurnView {
    pub phase: TurnPhase,
    pub provider: Seq<char>,
    pub model: Seq<char>,
    pub tools: Seq<ToolSpecView>,
    pub prompt: ChatMessageView,
    pub round: usize,
    pub compacted: bool,
    pub replay: bool,
    pub corrected: bool,
    pub failures: Seq<ToolFailureView>,
    pub attempt: u8,
    pub stripped: bool,
    pub request: ModelRequestView,
    pub response: ModelResponseView,
    pub scheduled: Seq<ScheduledCallView>,
}

impl View for Turn {
    type V = TurnView;

    open spec fn view(&self) -> TurnView {
        TurnView {
            phase: self.phase,
            provider: self.provider@,
            model: self.model@,
            tools: views(self.tools@),
            prompt: self.prompt@,
            round: self.round,
            compacted: self.compacted,
            replay: self.replay,
            corrected: self.corrected,
            failures: views(self.failures@),
            attempt: self.attempt,
            stripped: self.stripped,
            request: self.request@,
            response: self.response@,
            scheduled: views(self.scheduled@),
        }
    }
}

impl Duplicate for Turn {
    fn duplicate(&self) -> (result: Self) {
        Turn {
            phase: self.phase,
            provider: self.provider.clone(),
            model: self.model.clone(),
            tools: duplicate_all(&self.tools),
            prompt: self.prompt.duplicate(),
            round: self.round,
            compacted: self.compacted,
            replay: self.replay,
            corrected: self.corrected,
            failures: duplicate_all(&self.failures),
            attempt: self.attempt,
            stripped: self.stripped,
            request: self.request.duplicate(),
            response: self.response.duplicate(),
            scheduled: duplicate_all(&self.scheduled),
        }
    }
}

/// What came of an action.
#[derive(Debug)]
pub enum TurnEvent {
    /// A hook had nothing to say.
    HookSilent,
    /// A hook gave some context.
    HookContext(String),
    /// A hook failed.
    HookFailed(String),
    /// The safe point was passed.
    Passed,
    /// The turn was stopped at the safe point.
    Stopped(String),
    /// The history is in order and the context was measured.
    Prepared { messages: Vec<ChatMessage>, status: ContextStatus, should_compact: bool },
    /// The history was summarised.
    Compacted,
    /// Summarising failed.
    CompactFailed(ProviderFailure),
    /// The model replied.
    Replied(ModelResponse),
    /// The request failed.
    Failed(ProviderFailure),
    /// The wait is over.
    Resumed,
    /// The context was measured; these are the facts of the calls of the reply.
    Observed { status: ContextStatus, facts: Vec<CallFacts> },
    /// The calls ended; one result for each, in order.
    ToolsDone(Vec<ToolResult>),
    /// These messages were waiting.
    Queued(Vec<String>),
}

/// What a `TurnEvent` holds.
#[verifier::ext_equal]
pub enum TurnEventView {
    HookSilent,
    HookContext(Seq<char>),
    HookFailed(Seq<char>),
    Passed,
    Stopped(Seq<char>),
    Prepared { messages: Seq<ChatMessageView>, status: ContextStatus, should_compact: bool },
    Compacted,
    CompactFailed(ProviderFailureView),
    Replied(ModelResponseView),
    Failed(ProviderFailureView),
    Resumed,
    Observed { status: ContextStatus, facts: Seq<CallFactsView> },
    ToolsDone(Seq<ToolResultView>),
    Queued(Seq<Seq<char>>),
}

impl View for TurnEvent {
    type V = TurnEventView;

    open spec fn view(&self) -> TurnEventView {
        match *self {
            TurnEvent::HookSilent => TurnEventView::HookSilent,
            TurnEvent::HookContext(a0) => TurnEventView::HookContext(a0@),
            TurnEvent::HookFailed(a0) => TurnEventView::HookFailed(a0@),
            TurnEvent::Passed => TurnEventView::Passed,
            TurnEvent::Stopped(a0) => TurnEventView::Stopped(a0@),
            TurnEvent::Prepared { messages, status, should_compact } => TurnEventView::Prepared { messages: views(messages@), status: status, should_compact: should_compact },
            TurnEvent::Compacted => TurnEventView::Compacted,
            TurnEvent::CompactFailed(a0) => TurnEventView::CompactFailed(a0@),
            TurnEvent::Replied(a0) => TurnEventView::Replied(a0@),
            TurnEvent::Failed(a0) => TurnEventView::Failed(a0@),
            TurnEvent::Resumed => TurnEventView::Resumed,
            TurnEvent::Observed { status, facts } => TurnEventView::Observed { status: status, facts: views(facts@) },
            TurnEvent::ToolsDone(a0) => TurnEventView::ToolsDone(views(a0@)),
            TurnEvent::Queued(a0) => TurnEventView::Queued(texts(a0@)),
        }
    }
}

/// What the caller is to do next.
#[derive(Debug)]
pub enum TurnAction {
    /// Run a hook.
    RunHook(HookKind),
    /// Wait until the turn may go on.
    AwaitSafePoint,
    /// Put the history in order and measure the context.
    Prepare,
    /// Summarise the history.
    Compact { automatic: bool },
    /// Send the request of the turn.
    Send,
    /// Wait.
    Wait { delay_ms: u64 },
    /// Measure the context with what the reply used.
    Observe,
    /// Run the scheduled calls of the turn.
    RunTools,
    /// Take the waiting messages.
    DrainQueue,
    /// The turn ended with this reply.
    Finish(String),
    /// The turn ended without a reply.
    Fail(AgentError),
    /// The event does not answer the last action; nothing changed.
    Rejected,
}

/// What a `TurnAction` holds.
#[verifier::ext_equal]
pub enum TurnActionView {
    RunHook(HookKind),
    AwaitSafePoint,
    Prepare,
    Compact { automatic: bool },
    Send,
    Wait { delay_ms: u64 },
    Observe,
    RunTools,
    DrainQueue,
    Finish(Seq<char>),
    Fail(AgentErrorView),
    Rejected,
}

impl View for TurnAction {
    type V = TurnActionView;

    open spec fn view(&self) -> TurnActionView {
        match *self {
            TurnAction::RunHook(a0) => TurnActionView::RunHook(a0),
            TurnAction::AwaitSafePoint => TurnActionView::AwaitSafePoint,
            TurnAction::Prepare => TurnActionView::Prepare,
            TurnAction::Compact { automatic } => TurnActionView::Compact { automatic: automatic },
            TurnAction::Send => TurnActionView::Send,
            TurnAction::Wait { delay_ms } => TurnActionView::Wait { delay_ms: delay_ms },
            TurnAction::Observe => TurnActionView::Observe,
            TurnAction::RunTools => TurnActionView::RunTools,
            TurnAction::DrainQueue => TurnActionView::DrainQueue,
            TurnAction::Finish(a0) => TurnActionView::Finish(a0@),
            TurnAction::Fail(a0) => TurnActionView::Fail(a0@),
            TurnAction::Rejected => TurnActionView::Rejected,
        }
    }
}

/// What a step leads to.
#[verifier::ext_equal]
pub struct Outcome {
    pub turn: TurnView,
    pub session: SessionView,
    pub effects: Seq<EffectView>,
    pub action: TurnActionView,
}

/// An outcome with effects before its own.
pub open spec fn after(effects: Seq<EffectView>, outcome: Outcome) -> Outcome {
    Outcome { effects: effects + outcome.effects, ..outcome }
}

/// The effect that tells the observers.
pub open spec fn emit(event: AgentEventView) -> EffectView {
    EffectView::Emit(event)
}

/// The effect that saves the session, where it is wanted.
pub open spec fn checkpoint(agent: AgentView) -> Seq<EffectView> {
    if agent.checkpoint {
        seq![EffectView::Checkpoint]
    } else {
        Seq::empty()
    }
}

/// A session with one more message.
pub open spec fn with_message(session: SessionView, message: ChatMessageView) -> SessionView {
    SessionView { messages: session.messages.push(message), ..session }
}

/// A session with the context that a hook or a tool gave, unless it is blank.
pub open spec fn with_context(session: SessionView, context: Seq<char>) -> SessionView {
    if is_blank(context) {
        session
    } else {
        with_message(session, internal_message(context))
    }
}

/// The end of a turn without a reply.
pub open spec fn failing(turn: TurnView, session: SessionView, error: AgentErrorView) -> Outcome {
    Outcome {
        turn: TurnView { phase: TurnPhase::Done, ..turn },
        session,
        effects: Seq::empty(),
        action: TurnActionView::Fail(error),
    }
}

/// The start of a round, or the end of the turn where all rounds are used up.
#[verifier::opaque]
pub open spec fn starting_round(agent: AgentView, turn: TurnView, session: SessionView) -> Outcome {
    if turn.round >= agent.max_tool_rounds {
        after(
            seq![EffectView::Touch],
            failing(
                turn,
                session,
                AgentErrorView::ToolRoundLimit { limit: agent.max_tool_rounds },
            ),
        )
    } else if agent.turn_control {
        Outcome {
            turn: TurnView {
                round: (turn.round + 1) as usize,
                phase: TurnPhase::SafePoint,
                ..turn
            },
            session,
            effects: Seq::empty(),
            action: TurnActionView::AwaitSafePoint,
        }
    } else {
        Outcome {
            turn: TurnView { round: (turn.round + 1) as usize, phase: TurnPhase::Prepare, ..turn },
            session,
            effects: Seq::empty(),
            action: TurnActionView::Prepare,
        }
    }
}

/// A message without its images.
pub open spec fn imageless(message: ChatMessageView) -> ChatMessageView {
    ChatMessageView { images: Seq::empty(), ..message }
}

/// Messages without their images.
pub open spec fn all_imageless(messages: Seq<ChatMessageView>) -> Seq<ChatMessageView> {
    Seq::new(messages.len(), |i: int| imageless(messages[i]))
}

/// Whether some message carries an image.
pub open spec fn has_images(messages: Seq<ChatMessageView>) -> bool {
    exists|i: int| 0 <= i < messages.len() && (#[trigger] messages[i]).images.len() > 0
}

/// The request of a round: the system prompt, then the history, with or without images.
#[verifier::opaque]
pub open spec fn request_for(
    agent: AgentView,
    turn: TurnView,
    session: SessionView,
) -> ModelRequestView {
    let messages = seq![system_message(agent.system_prompt)] + session.messages;
    ModelRequestView {
        model: turn.model,
        messages: if turn.replay {
            messages
        } else {
            all_imageless(messages)
        },
        tools: turn.tools,
        reasoning_effort: agent.reasoning_effort,
    }
}

/// The first try of a round's request.
#[verifier::opaque]
pub open spec fn sending(agent: AgentView, turn: TurnView, session: SessionView) -> Outcome {
    Outcome {
        turn: TurnView {
            phase: TurnPhase::Send,
            attempt: 0,
            stripped: false,
            request: request_for(agent, turn, session),
            ..turn
        },
        session,
        effects: seq![
            emit(
                AgentEventView::ModelStarted {
                    provider: turn.provider,
                    model: turn.model,
                    round: turn.round,
                },
            ),
        ],
        action: TurnActionView::Send,
    }
}

/// What follows once the history is in order.
#[verifier::opaque]
pub open spec fn prepared(
    agent: AgentView,
    turn: TurnView,
    session: SessionView,
    messages: Seq<ChatMessageView>,
    status: ContextStatus,
    should_compact: bool,
) -> Outcome {
    let ordered = SessionView { messages, ..session };
    let forced = agent.force_compaction && turn.round == 1;
    let measured = seq![emit(AgentEventView::ContextUpdated(status))];
    if forced || should_compact {
        Outcome {
            turn: TurnView { phase: TurnPhase::CompactFirst, ..turn },
            session: ordered,
            effects: measured,
            action: TurnActionView::Compact { automatic: !forced },
        }
    } else {
        after(measured, sending(agent, turn, ordered))
    }
}

/// The notice that a request is made again.
pub open spec fn retry_notice(
    attempt: u8,
    max_attempts: u8,
    delay_ms: u64,
    message: Seq<char>,
) -> Seq<EffectView> {
    seq![
        emit(AgentEventView::StreamReset),
        emit(AgentEventView::ConnectionRetry { attempt, max_attempts, delay_ms, message }),
    ]
}

/// What follows a failed request. Once per turn, a request that is too long has the history
/// summarised; once per request, a refusal of images has it made again without them; a
/// passing failure has it made again as often as the agent allows; else the turn ends.
#[verifier::opaque]
pub open spec fn request_failed(
    agent: AgentView,
    turn: TurnView,
    session: SessionView,
    failure: ProviderFailureView,
) -> Outcome {
    if !turn.compacted && overflows_context(failure) {
        Outcome {
            turn: TurnView { phase: TurnPhase::CompactOverflow, compacted: true, ..turn },
            session,
            effects: Seq::empty(),
            action: TurnActionView::Compact { automatic: true },
        }
    } else if !turn.stripped && has_images(turn.request.messages) && refuses_images(failure) {
        Outcome {
            turn: TurnView {
                stripped: true,
                replay: false,
                request: ModelRequestView {
                    messages: all_imageless(turn.request.messages),
                    ..turn.request
                },
                ..turn
            },
            session,
            effects: (if agent.vision_fallback {
                seq![EffectView::VisionFallback]
            } else {
                Seq::empty()
            }) + retry_notice(1, 1, 0, "当前模型拒绝图片内容，正在切换为纯文本恢复"@),
            action: TurnActionView::Send,
        }
    } else if turn.attempt < agent.provider_retry_count && passes_by_itself(failure) {
        let attempt = (turn.attempt + 1) as u8;
        let delay_ms = delay_before_retry(
            failure,
            attempt as nat,
            agent.reconnect_initial_delay_ms as nat,
            agent.reconnect_max_delay_ms as nat,
        ) as u64;
        Outcome {
            turn: TurnView { phase: TurnPhase::Backoff, attempt, ..turn },
            session,
            effects: retry_notice(
                attempt,
                agent.provider_retry_count,
                delay_ms,
                "网络或上游服务暂时不可用，正在自动恢复"@,
            ),
            action: TurnActionView::Wait { delay_ms },
        }
    } else {
        failing(turn, session, AgentErrorView::Provider(failure))
    }
}

/// The calls of a reply that go into the history: none where one of them is invalid.
pub open spec fn recorded_calls(response: ModelResponseView) -> Seq<ToolCallView> {
    if response.invalid_tool_calls.len() == 0 {
        response.tool_calls
    } else {
        Seq::empty()
    }
}

/// What a reply leaves before it is acted on.
#[verifier::opaque]
pub open spec fn replied(
    agent: AgentView,
    turn: TurnView,
    session: SessionView,
    response: ModelResponseView,
) -> Outcome {
    let total = session.usage.plus(response.usage);
    let spoken = response.content.len() > 0;
    Outcome {
        turn: TurnView { phase: TurnPhase::Observe, response, ..turn },
        session: with_message(
            SessionView { usage: total, ..session },
            assistant_message(response.content, recorded_calls(response)),
        ),
        effects: seq![emit(AgentEventView::ModelUsage { total, request: response.usage })] + (
        if spoken {
            seq![emit(AgentEventView::Text(response.content))]
        } else {
            Seq::empty()
        }) + (if spoken && agent.voice_broadcast {
            seq![emit(AgentEventView::SpeakText(response.content))]
        } else {
            Seq::empty()
        }),
        action: TurnActionView::Observe,
    }
}

/// The stand-in for a call whose arguments are left out.
pub open spec fn withheld_call(invalid: InvalidToolCallView) -> ToolCallView {
    ToolCallView {
        id: invalid.id,
        name: invalid.name,
        arguments: JsonView::Object(
            seq![("invalid_arguments_omitted"@, JsonView::Bool(true))],
        ),
    }
}

/// What observers are told of a call that stayed invalid.
pub open spec fn refusal(invalid: InvalidToolCallView) -> Seq<EffectView> {
    seq![
        emit(AgentEventView::ToolStarted(withheld_call(invalid))),
        emit(
            AgentEventView::ToolFinished {
                call: withheld_call(invalid),
                result: plain_result(
                    false,
                    "工具参数纠正后仍未通过校验，已阻止执行。"@ + invalid.reason,
                ),
            },
        ),
    ]
}

/// What observers are told of the calls that stayed invalid.
pub open spec fn refusals(invalid: Seq<InvalidToolCallView>) -> Seq<EffectView>
    decreases invalid.len(),
{
    if invalid.len() == 0 {
        Seq::empty()
    } else {
        refusals(invalid.drop_last()) + refusal(invalid.last())
    }
}

/// The reply in place of calls that stayed invalid.
pub open spec fn recovery_reply() -> Seq<char> {
    "工具参数在一次纠正后仍未通过校验，相关工具未执行。请调整请求或补充参数后继续。"@
}

/// What observers are told before calls run.
pub open spec fn announcements(calls: Seq<ToolCallView>) -> Seq<EffectView> {
    Seq::new(calls.len(), |i: int| emit(AgentEventView::ToolStarted(calls[i])))
}

/// How a reply is acted on: invalid calls are corrected once and then refused, a reply
/// without calls ends the turn unless messages wait, calls are scheduled.
#[verifier::opaque]
pub open spec fn routed(
    agent: AgentView,
    turn: TurnView,
    session: SessionView,
    facts: Seq<CallFactsView>,
) -> Outcome {
    let response = turn.response;
    if response.invalid_tool_calls.len() > 0 {
        if turn.corrected {
            Outcome {
                turn: TurnView { phase: TurnPhase::Done, ..turn },
                session: with_message(session, assistant_message(recovery_reply(), Seq::empty())),
                effects: refusals(response.invalid_tool_calls) + seq![
                    emit(AgentEventView::Text(recovery_reply())),
                ] + checkpoint(agent) + seq![EffectView::Touch],
                action: TurnActionView::Finish(recovery_reply()),
            }
        } else {
            after(
                checkpoint(agent),
                starting_round(
                    agent,
                    TurnView { corrected: true, ..turn },
                    with_message(
                        session,
                        internal_message(
                            correction_request(response.invalid_tool_calls, turn.tools),
                        ),
                    ),
                ),
            )
        }
    } else if response.tool_calls.len() == 0 {
        if agent.input_queue {
            Outcome {
                turn: TurnView { phase: TurnPhase::QueueAfterText, ..turn },
                session,
                effects: Seq::empty(),
                action: TurnActionView::DrainQueue,
            }
        } else {
            finished(turn, session)
        }
    } else {
        Outcome {
            turn: TurnView {
                phase: TurnPhase::Tools,
                scheduled: scheduled(
                    response.tool_calls,
                    prints(response.tool_calls),
                    facts,
                    turn.failures,
                ),
                ..turn
            },
            session,
            effects: announcements(response.tool_calls),
            action: TurnActionView::RunTools,
        }
    }
}

/// The end of a turn with the text of the last reply.
pub open spec fn finished(turn: TurnView, session: SessionView) -> Outcome {
    Outcome {
        turn: TurnView { phase: TurnPhase::Done, ..turn },
        session,
        effects: seq![EffectView::Touch],
        action: TurnActionView::Finish(turn.response.content),
    }
}

/// What the model reads of a result.
pub open spec fn result_text(result: ToolResultView) -> Seq<char> {
    (if result.success {
        "success"@
    } else {
        "error"@
    }) + ": "@ + result.output
}

/// What one result does to the session.
#[verifier::opaque]
pub open spec fn session_after_result(
    session: SessionView,
    call: ToolCallView,
    result: ToolResultView,
) -> SessionView {
    let planned = SessionView {
        plan: if result.plan is Some {
            result.plan
        } else {
            session.plan
        },
        loop_state: if result.loop_state is Some {
            result.loop_state
        } else {
            session.loop_state
        },
        ..session
    };
    let answered = with_message(
        planned,
        tool_message(call.id, result_text(result), result.images),
    );
    match result.additional_context {
        Some(context) => with_context(answered, context),
        None => answered,
    }
}

/// What observers are told of one result.
pub open spec fn result_effects(call: ToolCallView, result: ToolResultView) -> Seq<EffectView> {
    (match result.plan {
        Some(plan) => seq![emit(AgentEventView::PlanUpdated(plan))],
        None => Seq::empty(),
    }) + (match result.loop_state {
        Some(state) => seq![emit(AgentEventView::LoopUpdated(state))],
        None => Seq::empty(),
    }) + seq![emit(AgentEventView::ToolFinished { call, result })]
}

/// The session after a batch of results.
pub open spec fn session_after(
    session: SessionView,
    calls: Seq<ScheduledCallView>,
    results: Seq<ToolResultView>,
) -> SessionView
    decreases results.len(),
{
    if results.len() == 0 {
        session
    } else {
        session_after_result(
            session_after(session, calls, results.drop_last()),
            calls[results.len() - 1].call,
            results.last(),
        )
    }
}

/// The failures after a batch of results.
pub open spec fn failures_after_all(
    failures: Seq<ToolFailureView>,
    calls: Seq<ScheduledCallView>,
    results: Seq<ToolResultView>,
) -> Seq<ToolFailureView>
    decreases results.len(),
{
    if results.len() == 0 {
        failures
    } else {
        let last = calls[results.len() - 1];
        failures_after(
            failures_after_all(failures, calls, results.drop_last()),
            last.fingerprint,
            !(last.mode is Blocked),
            results.last().success,
            results.last().output,
        )
    }
}

/// What observers are told of a batch of results.
pub open spec fn effects_of(
    calls: Seq<ScheduledCallView>,
    results: Seq<ToolResultView>,
) -> Seq<EffectView>
    decreases results.len(),
{
    if results.len() == 0 {
        Seq::empty()
    } else {
        effects_of(calls, results.drop_last()) + result_effects(
            calls[results.len() - 1].call,
            results.last(),
        )
    }
}

/// The result of a call: a call that was held back has failed for the reason it was held back,
/// any other has what running it gave.
pub open spec fn delivered(call: ScheduledCallView, result: ToolResultView) -> ToolResultView {
    match call.mode {
        CallModeView::Blocked(reason) => plain_result(false, reason),
        _ => result,
    }
}

/// The results of a batch of calls.
pub open spec fn all_delivered(
    calls: Seq<ScheduledCallView>,
    results: Seq<ToolResultView>,
) -> Seq<ToolResultView> {
    Seq::new(results.len(), |i: int| delivered(calls[i], results[i]))
}

/// What follows a batch of results. What stands among them for a call that was held back is
/// not looked at.
#[verifier::opaque]
pub open spec fn tools_done(
    agent: AgentView,
    turn: TurnView,
    session: SessionView,
    given: Seq<ToolResultView>,
) -> Outcome {
    let results = all_delivered(turn.scheduled, given);
    let next = TurnView {
        failures: failures_after_all(turn.failures, turn.scheduled, results),
        ..turn
    };
    let answered = session_after(session, turn.scheduled, results);
    let told = effects_of(turn.scheduled, results);
    if agent.input_queue {
        Outcome {
            turn: TurnView { phase: TurnPhase::QueueAfterTools, ..next },
            session: answered,
            effects: told,
            action: TurnActionView::DrainQueue,
        }
    } else {
        after(told + checkpoint(agent), starting_round(agent, next, answered))
    }
}

/// Messages of the user, one for each text.
pub open spec fn user_messages(list: Seq<Seq<char>>) -> Seq<ChatMessageView> {
    Seq::new(list.len(), |i: int| user_message(list[i]))
}

/// A session with the messages that waited.
pub open spec fn with_queued(session: SessionView, waiting: Seq<Seq<char>>) -> SessionView {
    SessionView { messages: session.messages + user_messages(waiting), ..session }
}

/// What observers are told of the messages that waited.
pub open spec fn queue_effects(waiting: Seq<Seq<char>>) -> Seq<EffectView> {
    if waiting.len() == 0 {
        Seq::empty()
    } else {
        seq![emit(AgentEventView::QueuedInputAccepted(waiting))]
    }
}

/// What a hook that did not fail leads to.
#[verifier::opaque]
pub open spec fn hook_done(
    agent: AgentView,
    turn: TurnView,
    session: SessionView,
    context: Seq<char>,
) -> Outcome {
    let informed = with_context(session, context);
    if turn.phase == TurnPhase::SessionHook {
        Outcome {
            turn: TurnView { phase: TurnPhase::TurnHook, ..turn },
            session: SessionView { hooks_started: true, ..informed },
            effects: Seq::empty(),
            action: TurnActionView::RunHook(HookKind::TurnStart),
        }
    } else {
        after(
            checkpoint(agent),
            starting_round(agent, turn, with_message(informed, turn.prompt)),
        )
    }
}

/// An event that does not answer the last action changes nothing.
pub open spec fn rejected(turn: TurnView, session: SessionView) -> Outcome {
    Outcome { turn, session, effects: Seq::empty(), action: TurnActionView::Rejected }
}

/// Whether a turn waits for a hook.
pub open spec fn awaits_hook(phase: TurnPhase) -> bool {
    phase == TurnPhase::SessionHook || phase == TurnPhase::TurnHook
}

/// Whether a turn waits for a summary.
pub open spec fn awaits_summary(phase: TurnPhase) -> bool {
    phase == TurnPhase::CompactFirst || phase == TurnPhase::CompactOverflow
}

/// One step of a turn.
#[verifier::opaque]
pub open spec fn stepped(
    agent: AgentView,
    turn: TurnView,
    session: SessionView,
    event: TurnEventView,
) -> Outcome {
    match event {
        TurnEventView::HookSilent => if awaits_hook(turn.phase) {
            hook_done(agent, turn, session, Seq::empty())
        } else {
            rejected(turn, session)
        },
        TurnEventView::HookContext(context) => if awaits_hook(turn.phase) {
            hook_done(agent, turn, session, context)
        } else {
            rejected(turn, session)
        },
        TurnEventView::HookFailed(message) => if awaits_hook(turn.phase) {
            failing(turn, session, AgentErrorView::Hook(message))
        } else {
            rejected(turn, session)
        },
        TurnEventView::Passed => if turn.phase == TurnPhase::SafePoint {
            Outcome {
                turn: TurnView { phase: TurnPhase::Prepare, ..turn },
                session,
                effects: Seq::empty(),
                action: TurnActionView::Prepare,
            }
        } else {
            rejected(turn, session)
        },
        TurnEventView::Stopped(message) => if turn.phase == TurnPhase::SafePoint {
            failing(turn, session, AgentErrorView::Control(message))
        } else {
            rejected(turn, session)
        },
        TurnEventView::Prepared { messages, status, should_compact } => if turn.phase
            == TurnPhase::Prepare {
            prepared(agent, turn, session, messages, status, should_compact)
        } else {
            rejected(turn, session)
        },
        TurnEventView::Compacted => if turn.phase == TurnPhase::CompactFirst {
            sending(agent, turn, session)
        } else if turn.phase == TurnPhase::CompactOverflow {
            after(checkpoint(agent), starting_round(agent, turn, session))
        } else {
            rejected(turn, session)
        },
        TurnEventView::CompactFailed(failure) => if awaits_summary(turn.phase) {
            failing(turn, session, AgentErrorView::Compaction(failure))
        } else {
            rejected(turn, session)
        },
        TurnEventView::Replied(response) => if turn.phase == TurnPhase::Send {
            replied(agent, turn, session, response)
        } else {
            rejected(turn, session)
        },
        TurnEventView::Failed(failure) => if turn.phase == TurnPhase::Send {
            request_failed(agent, turn, session, failure)
        } else {
            rejected(turn, session)
        },
        TurnEventView::Resumed => if turn.phase == TurnPhase::Backoff {
            Outcome {
                turn: TurnView { phase: TurnPhase::Send, ..turn },
                session,
                effects: Seq::empty(),
                action: TurnActionView::Send,
            }
        } else {
            rejected(turn, session)
        },
        TurnEventView::Observed { status, facts } => if turn.phase == TurnPhase::Observe
            && facts.len() == turn.response.tool_calls.len() {
            after(
                seq![emit(AgentEventView::ContextUpdated(status))] + checkpoint(agent),
                routed(agent, turn, session, facts),
            )
        } else {
            rejected(turn, session)
        },
        TurnEventView::ToolsDone(results) => if turn.phase == TurnPhase::Tools && results.len()
            == turn.scheduled.len() {
            tools_done(agent, turn, session, results)
        } else {
            rejected(turn, session)
        },
        TurnEventView::Queued(waiting) => if turn.phase == TurnPhase::QueueAfterTools {
            after(
                queue_effects(waiting) + checkpoint(agent),
                starting_round(agent, turn, with_queued(session, waiting)),
            )
        } else if turn.phase == TurnPhase::QueueAfterText {
            if waiting.len() == 0 {
                finished(turn, session)
            } else {
                after(
                    queue_effects(waiting),
                    starting_round(agent, turn, with_queued(session, waiting)),
                )
            }
        } else {
            rejected(turn, session)
        },
    }
}

} // verus!
