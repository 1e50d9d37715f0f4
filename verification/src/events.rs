//! What happens during a turn, as observers see it.

use vstd::prelude::*;
use crate::session::LoopState;
use crate::session::LoopStateView;
use crate::session::Plan;
use crate::session::PlanView;
use crate::session::TokenUsage;
use crate::session::ToolCall;
use crate::session::ToolCallView;
use crate::session::ToolResult;
use crate::session::ToolResultView;
use crate::text::clone_texts;
use crate::text::texts;
use crate::views::Duplicate;

verus! {

/// How full the model's context is.
#[derive(Clone, Copy, Debug, PartialEq, Eq, Structural)]
pub struct ContextStatus {
    pub used_tokens: u64,
    pub used_percent: u64,
    pub context_window: u64,
    pub effective_context_window: u64,
}

/// Something that happened during a turn.
#[derive(Debug)]
pub enum AgentEvent {
    /// A request to the model is about to be made.
    ModelStarted { provider: String, model: String, round: usize },
    /// The model wrote a text.
    Text(String),
    /// The model wrote a further piece of text.
    TextDelta(String),
    /// The model wrote a further piece of its reasoning.
    ReasoningDelta(String),
    /// A text should be read aloud.
    SpeakText(String),
    /// The request will be made again.
    ConnectionRetry { attempt: u8, max_attempts: u8, delay_ms: u64, message: String },
    /// What the model wrote so far in this request is void.
    StreamReset,
    /// The context was measured.
    ContextUpdated(ContextStatus),
    /// A request used tokens.
    ModelUsage { total: TokenUsage, request: TokenUsage },
    /// The history is about to be summarised.
    CompactionStarted { automatic: bool },
    /// The history was summarised.
    CompactionCompleted { automatic: bool, before_tokens: u64, after_tokens: u64 },
    /// The plan changed.
    PlanUpdated(Plan),
    /// The loop changed.
    LoopUpdated(LoopState),
    /// Messages that waited in the queue joined the turn.
    QueuedInputAccepted(Vec<String>),
    /// A tool call begins.
    ToolStarted(ToolCall),
    /// A tool call ended.
    ToolFinished { call: ToolCall, result: ToolResult },
    /// The turn ended with a reply.
    TurnCompleted { total: TokenUsage, turn: TokenUsage },
}

/// What a `AgentEvent` holds.
#[verifier::ext_equal]
pub enum AgentEventView {
    ModelStarted { provider: Seq<char>, model: Seq<char>, round: usize },
    Text(Seq<char>),
    TextDelta(Seq<char>),
    ReasoningDelta(Seq<char>),
    SpeakText(Seq<char>),
    ConnectionRetry { attempt: u8, max_attempts: u8, delay_ms: u64, message: Seq<char> },
    StreamReset,
    ContextUpdated(ContextStatus),
    ModelUsage { total: TokenUsage, request: TokenUsage },
    CompactionStarted { automatic: bool },
    CompactionCompleted { automatic: bool, before_tokens: u64, after_tokens: u64 },
    PlanUpdated(PlanView),
    LoopUpdated(LoopStateView),
    QueuedInputAccepted(Seq<Seq<char>>),
    ToolStarted(ToolCallView),
    ToolFinished { call: ToolCallView, result: ToolResultView },
    TurnCompleted { total: TokenUsage, turn: TokenUsage },
}

impl View for AgentEvent {
    type V = AgentEventView;

    open spec fn view(&self) -> AgentEventView {
        match *self {
            AgentEvent::ModelStarted { provider, model, round } => AgentEventView::ModelStarted { provider: provider@, model: model@, round: round },
            AgentEvent::Text(a0) => AgentEventView::Text(a0@),
            AgentEvent::TextDelta(a0) => AgentEventView::TextDelta(a0@),
            AgentEvent::ReasoningDelta(a0) => AgentEventView::ReasoningDelta(a0@),
            AgentEvent::SpeakText(a0) => AgentEventView::SpeakText(a0@),
            AgentEvent::ConnectionRetry { attempt, max_attempts, delay_ms, message } => AgentEventView::ConnectionRetry { attempt: attempt, max_attempts: max_attempts, delay_ms: delay_ms, message: message@ },
            AgentEvent::StreamReset => AgentEventView::StreamReset,
            AgentEvent::ContextUpdated(a0) => AgentEventView::ContextUpdated(a0),
            AgentEvent::ModelUsage { total, request } => AgentEventView::ModelUsage { total: total, request: request },
            AgentEvent::CompactionStarted { automatic } => AgentEventView::CompactionStarted { automatic: automatic },
            AgentEvent::CompactionCompleted { automatic, before_tokens, after_tokens } => AgentEventView::CompactionCompleted { automatic: automatic, before_tokens: before_tokens, after_tokens: after_tokens },
            AgentEvent::PlanUpdated(a0) => AgentEventView::PlanUpdated(a0@),
            AgentEvent::LoopUpdated(a0) => AgentEventView::LoopUpdated(a0@),
            AgentEvent::QueuedInputAccepted(a0) => AgentEventView::QueuedInputAccepted(texts(a0@)),
            AgentEvent::ToolStarted(a0) => AgentEventView::ToolStarted(a0@),
            AgentEvent::ToolFinished { call, result } => AgentEventView::ToolFinished { call: call@, result: result@ },
            AgentEvent::TurnCompleted { total, turn } => AgentEventView::TurnCompleted { total: total, turn: turn },
        }
    }
}

impl Duplicate for AgentEvent {
    fn duplicate(&self) -> (result: Self) {
        match self {
            AgentEvent::ModelStarted { provider, model, round } => AgentEvent::ModelStarted { provider: provider.clone(), model: model.clone(), round: *round },
            AgentEvent::Text(a0) => AgentEvent::Text(a0.clone()),
            AgentEvent::TextDelta(a0) => AgentEvent::TextDelta(a0.clone()),
            AgentEvent::ReasoningDelta(a0) => AgentEvent::ReasoningDelta(a0.clone()),
            AgentEvent::SpeakText(a0) => AgentEvent::SpeakText(a0.clone()),
            AgentEvent::ConnectionRetry { attempt, max_attempts, delay_ms, message } => AgentEvent::ConnectionRetry { attempt: *attempt, max_attempts: *max_attempts, delay_ms: *delay_ms, message: message.clone() },
            AgentEvent::StreamReset => AgentEvent::StreamReset,
            AgentEvent::ContextUpdated(a0) => AgentEvent::ContextUpdated(*a0),
            AgentEvent::ModelUsage { total, request } => AgentEvent::ModelUsage { total: *total, request: *request },
            AgentEvent::CompactionStarted { automatic } => AgentEvent::CompactionStarted { automatic: *automatic },
            AgentEvent::CompactionCompleted { automatic, before_tokens, after_tokens } => AgentEvent::CompactionCompleted { automatic: *automatic, before_tokens: *before_tokens, after_tokens: *after_tokens },
            AgentEvent::PlanUpdated(a0) => AgentEvent::PlanUpdated(a0.duplicate()),
            AgentEvent::LoopUpdated(a0) => AgentEvent::LoopUpdated(a0.duplicate()),
            AgentEvent::QueuedInputAccepted(a0) => AgentEvent::QueuedInputAccepted(clone_texts(a0)),
            AgentEvent::ToolStarted(a0) => AgentEvent::ToolStarted(a0.duplicate()),
            AgentEvent::ToolFinished { call, result } => AgentEvent::ToolFinished { call: call.duplicate(), result: result.duplicate() },
            AgentEvent::TurnCompleted { total, turn } => AgentEvent::TurnCompleted { total: *total, turn: *turn },
        }
    }
}

/// What a step of a turn asks its caller to do, in order.
#[derive(Debug)]
pub enum Effect {
    /// Tell the observers.
    Emit(AgentEvent),
    /// Save the session.
    Checkpoint,
    /// Remember that the model refuses images.
    VisionFallback,
    /// Set the time of the last change.
    Touch,
}

/// What a `Effect` holds.
#[verifier::ext_equal]
pub enum EffectView {
    Emit(AgentEventView),
    Checkpoint,
    VisionFallback,
    Touch,
}

impl View for Effect {
    type V = EffectView;

    open spec fn view(&self) -> EffectView {
        match *self {
            Effect::Emit(a0) => EffectView::Emit(a0@),
            Effect::Checkpoint => EffectView::Checkpoint,
            Effect::VisionFallback => EffectView::VisionFallback,
            Effect::Touch => EffectView::Touch,
        }
    }
}

impl Duplicate for Effect {
    fn duplicate(&self) -> (result: Self) {
        match self {
            Effect::Emit(a0) => Effect::Emit(a0.duplicate()),
            Effect::Checkpoint => Effect::Checkpoint,
            Effect::VisionFallback => Effect::VisionFallback,
            Effect::Touch => Effect::Touch,
        }
    }
}

} // verus!
