//! How the history of a session is summarised: by the provider itself where it offers that,
//! by a request to the model where it does not.

use vstd::prelude::*;
use crate::accounting::build_summary_request;
use crate::accounting::compaction_history;
use crate::accounting::compaction_limit;
use crate::accounting::finish_compaction;
use crate::accounting::history_limit;
use crate::accounting::start_compaction;
use crate::accounting::summary_request;
use crate::agent::Agent;
use crate::agent::AgentView;
use crate::events::AgentEventView;
use crate::events::ContextStatus;
use crate::events::Effect;
use crate::events::EffectView;
use crate::failure::AgentError;
use crate::failure::AgentErrorView;
use crate::failure::ProviderFailure;
use crate::failure::ProviderFailureView;
use crate::session::ChatMessage;
use crate::session::ChatMessageView;
use crate::session::ModelRequest;
use crate::session::ModelRequestView;
use crate::session::ModelResponse;
use crate::session::ModelResponseView;
use crate::session::Session;
use crate::session::SessionView;
use crate::session::TokenUsage;
use crate::session::ToolSpec;
use crate::session::ToolSpecView;
use crate::text::trim;
use crate::text::trimmed;
use crate::turn::all_imageless;
use crate::turn::emit;
use crate::views::duplicate_all;
use crate::views::group_views;
use crate::views::views;

verus! {

broadcast use {group_views};

/// What is asked of a provider that summarises by itself.
#[derive(Debug)]
pub struct CompactionRequest {
    pub model: String,
    pub messages: Vec<ChatMessage>,
    pub system_prompt: String,
    pub tools: Vec<ToolSpec>,
}

/// What a `CompactionRequest` holds.
#[verifier::ext_equal]
pub struct CompactionRequestView {
    pub model: Seq<char>,
    pub messages: Seq<ChatMessageView>,
    pub system_prompt: Seq<char>,
    pub tools: Seq<ToolSpecView>,
}

impl View for CompactionRequest {
    type V = CompactionRequestView;

    open spec fn view(&self) -> CompactionRequestView {
        CompactionRequestView {
            model: self.model@,
            messages: views(self.messages@),
            system_prompt: self.system_prompt@,
            tools: views(self.tools@),
        }
    }
}

/// What a summary is made with: the model and its tools, the instruction to summarise, the
/// size of the model's context and of its replies, and how many tokens the history has.
#[derive(Debug)]
pub struct CompactionSetting {
    pub model: String,
    pub tools: Vec<ToolSpec>,
    pub instruction: String,
    pub context_window: u64,
    pub max_output_tokens: u64,
    pub before_tokens: u64,
}

/// What a `CompactionSetting` holds.
#[verifier::ext_equal]
pub struct CompactionSettingView {
    pub model: Seq<char>,
    pub tools: Seq<ToolSpecView>,
    pub instruction: Seq<char>,
    pub context_window: u64,
    pub max_output_tokens: u64,
    pub before_tokens: u64,
}

impl View for CompactionSetting {
    type V = CompactionSettingView;

    open spec fn view(&self) -> CompactionSettingView {
        CompactionSettingView {
            model: self.model@,
            tools: views(self.tools@),
            instruction: self.instruction@,
            context_window: self.context_window,
            max_output_tokens: self.max_output_tokens,
            before_tokens: self.before_tokens,
        }
    }
}

impl CompactionSettingView {
    /// How many tokens the history may have.
    pub open spec fn limit(self) -> nat {
        history_limit(self.context_window as nat, self.max_output_tokens as nat)
    }
}

/// What a summary waits for.
#[derive(Clone, Copy, Debug, PartialEq, Eq, Structural)]
pub enum CompactionPhase {
    /// The history is cut to the limit.
    Fit,
    /// The provider is asked to summarise.
    Remote,
    /// What the provider answered is put in order.
    Order,
    /// The history is cut so that the instruction fits too.
    Refit,
    /// The model is asked to summarise.
    Summary,
    /// The history is replaced by the summary.
    Compress,
    /// The new history is measured.
    Measure,
    /// Nothing: it has ended.
    Done,
}

/// A summary that is being made.
#[derive(Debug)]
pub struct Compaction {
    pub automatic: bool,
    pub setting: CompactionSetting,
    pub history: Vec<ChatMessage>,
    pub usage: TokenUsage,
    pub phase: CompactionPhase,
}

/// What a `Compaction` holds.
#[verifier::ext_equal]
pub struct CompactionView {
    pub automatic: bool,
    pub setting: CompactionSettingView,
    pub history: Seq<ChatMessageView>,
    pub usage: TokenUsage,
    pub phase: CompactionPhase,
}

impl View for Compaction {
    type V = CompactionView;

    open spec fn view(&self) -> CompactionView {
        CompactionView {
            automatic: self.automatic,
            setting: self.setting@,
            history: views(self.history@),
            usage: self.usage,
            phase: self.phase,
        }
    }
}

/// What happened outside.
#[derive(Debug)]
pub enum CompactionEvent {
    /// The history was cut to the limit that was given.
    Fitted(Vec<ChatMessage>),
    /// The provider summarised by itself.
    Answered { messages: Vec<ChatMessage>, usage: TokenUsage },
    /// The provider does not summarise by itself. The prompt and the instruction alone have so
    /// many tokens.
    NotOffered { prompt_overhead: u64 },
    /// The request failed.
    Failed(ProviderFailure),
    /// The model replied.
    Replied(ModelResponse),
    /// The new history stands.
    Rebuilt(Vec<ChatMessage>),
    /// The new history was measured.
    Measured(ContextStatus),
}

/// What a `CompactionEvent` holds.
#[verifier::ext_equal]
pub enum CompactionEventView {
    Fitted(Seq<ChatMessageView>),
    Answered { messages: Seq<ChatMessageView>, usage: TokenUsage },
    NotOffered { prompt_overhead: u64 },
    Failed(ProviderFailureView),
    Replied(ModelResponseView),
    Rebuilt(Seq<ChatMessageView>),
    Measured(ContextStatus),
}

impl View for CompactionEvent {
    type V = CompactionEventView;

    open spec fn view(&self) -> CompactionEventView {
        match *self {
            CompactionEvent::Fitted(messages) => CompactionEventView::Fitted(views(messages@)),
            CompactionEvent::Answered { messages, usage } => CompactionEventView::Answered {
                messages: views(messages@),
                usage,
            },
            CompactionEvent::NotOffered { prompt_overhead } => CompactionEventView::NotOffered {
                prompt_overhead,
            },
            CompactionEvent::Failed(failure) => CompactionEventView::Failed(failure@),
            CompactionEvent::Replied(response) => CompactionEventView::Replied(response@),
            CompactionEvent::Rebuilt(messages) => CompactionEventView::Rebuilt(views(messages@)),
            CompactionEvent::Measured(status) => CompactionEventView::Measured(status),
        }
    }
}

/// What is to be done outside.
#[derive(Debug)]
pub enum CompactionAction {
    /// Messages are cut to so many tokens.
    Fit { messages: Vec<ChatMessage>, limit: u64 },
    /// The provider is asked whether it summarises by itself.
    AskRemote(CompactionRequest),
    /// Messages are put in order.
    Order(Vec<ChatMessage>),
    /// The model is asked to summarise.
    Summarise(ModelRequest),
    /// A history is replaced by its summary.
    Compress { history: Vec<ChatMessage>, summary: String },
    /// The new history is measured.
    Measure(Vec<ChatMessage>),
    /// Nothing: the session has its new history.
    Finish,
    /// Nothing: it failed.
    Fail(AgentError),
    /// Nothing: the event did not answer the last action.
    Rejected,
}

/// What a `CompactionAction` holds.
#[verifier::ext_equal]
pub enum CompactionActionView {
    Fit { messages: Seq<ChatMessageView>, limit: nat },
    AskRemote(CompactionRequestView),
    Order(Seq<ChatMessageView>),
    Summarise(ModelRequestView),
    Compress { history: Seq<ChatMessageView>, summary: Seq<char> },
    Measure(Seq<ChatMessageView>),
    Finish,
    Fail(AgentErrorView),
    Rejected,
}

impl View for CompactionAction {
    type V = CompactionActionView;

    open spec fn view(&self) -> CompactionActionView {
        match *self {
            CompactionAction::Fit { messages, limit } => CompactionActionView::Fit {
                messages: views(messages@),
                limit: limit as nat,
            },
            CompactionAction::AskRemote(request) => CompactionActionView::AskRemote(request@),
            CompactionAction::Order(messages) => CompactionActionView::Order(views(messages@)),
            CompactionAction::Summarise(request) => CompactionActionView::Summarise(request@),
            CompactionAction::Compress { history, summary } => CompactionActionView::Compress {
                history: views(history@),
                summary: summary@,
            },
            CompactionAction::Measure(messages) => CompactionActionView::Measure(views(messages@)),
            CompactionAction::Finish => CompactionActionView::Finish,
            CompactionAction::Fail(error) => CompactionActionView::Fail(error@),
            CompactionAction::Rejected => CompactionActionView::Rejected,
        }
    }
}

/// A summary at its beginning.
pub open spec fn compaction_begun(setting: CompactionSettingView, automatic: bool) -> CompactionView {
    CompactionView {
        automatic,
        setting,
        history: Seq::empty(),
        usage: TokenUsage::none(),
        phase: CompactionPhase::Fit,
    }
}

/// What one step of a summary comes to.
#[verifier::ext_equal]
pub struct CompactionOutcome {
    pub compaction: CompactionView,
    pub session: SessionView,
    pub effects: Seq<EffectView>,
    pub action: CompactionActionView,
}

/// A step that leaves the session as it is and tells nobody.
pub open spec fn going_on(
    compaction: CompactionView,
    session: SessionView,
    action: CompactionActionView,
) -> CompactionOutcome {
    CompactionOutcome { compaction, session, effects: Seq::empty(), action }
}

/// What follows what came back from a provider that was asked to summarise by itself. Its
/// answer is taken; where it does not offer that, the model is asked, with less room for the
/// history; a failure ends it.
pub open spec fn remote_done(
    compaction: CompactionView,
    session: SessionView,
    event: CompactionEventView,
) -> CompactionOutcome {
    match event {
        CompactionEventView::Answered { messages, usage } => going_on(
            CompactionView { usage, phase: CompactionPhase::Order, ..compaction },
            session,
            CompactionActionView::Order(messages),
        ),
        CompactionEventView::NotOffered { prompt_overhead } => going_on(
            CompactionView { phase: CompactionPhase::Refit, ..compaction },
            session,
            CompactionActionView::Fit {
                messages: compaction.history,
                limit: history_limit(compaction.setting.limit(), prompt_overhead as nat),
            },
        ),
        CompactionEventView::Failed(failure) => going_on(
            CompactionView { phase: CompactionPhase::Done, ..compaction },
            session,
            CompactionActionView::Fail(AgentErrorView::Compaction(failure)),
        ),
        _ => going_on(compaction, session, CompactionActionView::Rejected),
    }
}

/// What follows what came back from the model that was asked to summarise.
pub open spec fn summary_done(
    compaction: CompactionView,
    session: SessionView,
    event: CompactionEventView,
) -> CompactionOutcome {
    match event {
        CompactionEventView::Replied(response) => going_on(
            CompactionView {
                usage: response.usage,
                phase: CompactionPhase::Compress,
                ..compaction
            },
            session,
            CompactionActionView::Compress {
                history: compaction.history,
                summary: trimmed(response.content),
            },
        ),
        CompactionEventView::Failed(failure) => going_on(
            CompactionView { phase: CompactionPhase::Done, ..compaction },
            session,
            CompactionActionView::Fail(AgentErrorView::Compaction(failure)),
        ),
        _ => going_on(compaction, session, CompactionActionView::Rejected),
    }
}

/// The session with its new history, and what observers are told of it.
pub open spec fn history_replaced(
    compaction: CompactionView,
    session: SessionView,
    status: ContextStatus,
) -> CompactionOutcome {
    CompactionOutcome {
        compaction: CompactionView { phase: CompactionPhase::Done, ..compaction },
        session: SessionView {
            messages: compaction.history,
            usage: session.usage.plus(compaction.usage),
            ..session
        },
        effects: seq![
            emit(
                AgentEventView::CompactionCompleted {
                    automatic: compaction.automatic,
                    before_tokens: compaction.setting.before_tokens,
                    after_tokens: status.used_tokens,
                },
            ),
            emit(AgentEventView::ContextUpdated(status)),
        ],
        action: CompactionActionView::Finish,
    }
}

/// One step of a summary.
pub open spec fn compaction_stepped(
    agent: AgentView,
    compaction: CompactionView,
    session: SessionView,
    event: CompactionEventView,
) -> CompactionOutcome {
    match (compaction.phase, event) {
        (CompactionPhase::Fit, CompactionEventView::Fitted(messages)) => going_on(
            CompactionView { history: messages, phase: CompactionPhase::Remote, ..compaction },
            session,
            CompactionActionView::AskRemote(
                CompactionRequestView {
                    model: compaction.setting.model,
                    messages,
                    system_prompt: agent.system_prompt,
                    tools: compaction.setting.tools,
                },
            ),
        ),
        (CompactionPhase::Remote, event) => remote_done(compaction, session, event),
        (CompactionPhase::Refit, CompactionEventView::Fitted(messages)) => going_on(
            CompactionView { history: messages, phase: CompactionPhase::Summary, ..compaction },
            session,
            CompactionActionView::Summarise(
                summary_request(
                    agent.system_prompt,
                    compaction.setting.model,
                    messages,
                    compaction.setting.instruction,
                ),
            ),
        ),
        (CompactionPhase::Summary, event) => summary_done(compaction, session, event),
        (CompactionPhase::Order, CompactionEventView::Rebuilt(messages)) => going_on(
            CompactionView { history: messages, phase: CompactionPhase::Measure, ..compaction },
            session,
            CompactionActionView::Measure(messages),
        ),
        (CompactionPhase::Compress, CompactionEventView::Rebuilt(messages)) => going_on(
            CompactionView { history: messages, phase: CompactionPhase::Measure, ..compaction },
            session,
            CompactionActionView::Measure(messages),
        ),
        (CompactionPhase::Measure, CompactionEventView::Measured(status)) => history_replaced(
            compaction,
            session,
            status,
        ),
        _ => going_on(compaction, session, CompactionActionView::Rejected),
    }
}

impl Compaction {
    /// Begins to summarise a history, which stands in order. It is first cut to what the model
    /// can take, without images.
    pub fn begin(
        messages: &Vec<ChatMessage>,
        setting: CompactionSetting,
        automatic: bool,
        effects: &mut Vec<Effect>,
    ) -> (result: (Compaction, CompactionAction))
        ensures
            result.0@ == compaction_begun(setting@, automatic),
            result.1@ == (CompactionActionView::Fit {
                messages: all_imageless(views(messages@)),
                limit: setting@.limit(),
            }),
            views(final(effects)@) == views(old(effects)@).push(
                emit(AgentEventView::CompactionStarted { automatic }),
            ),
    {
        start_compaction(automatic, effects);
        let limit: u64 = compaction_limit(setting.context_window, setting.max_output_tokens);
        (
            Compaction {
                automatic,
                setting,
                history: Vec::new(),
                usage: TokenUsage::zero(),
                phase: CompactionPhase::Fit,
            },
            CompactionAction::Fit { messages: compaction_history(messages), limit },
        )
    }

    fn on_remote(&mut self, event: CompactionEvent) -> (action: CompactionAction)
        requires
            old(self).phase == CompactionPhase::Remote,
        ensures
            forall|session: SessionView| #[trigger]
                remote_done(old(self)@, session, event@) == going_on(
                    final(self)@,
                    session,
                    action@,
                ),
    {
        match event {
            CompactionEvent::Answered { messages, usage } => {
                self.usage = usage;
                self.phase = CompactionPhase::Order;
                CompactionAction::Order(messages)
            },
            CompactionEvent::NotOffered { prompt_overhead } => {
                self.phase = CompactionPhase::Refit;
                let limit: u64 = compaction_limit(
                    self.setting.context_window,
                    self.setting.max_output_tokens,
                );
                CompactionAction::Fit {
                    messages: duplicate_all(&self.history),
                    limit: compaction_limit(limit, prompt_overhead),
                }
            },
            CompactionEvent::Failed(failure) => {
                self.phase = CompactionPhase::Done;
                CompactionAction::Fail(AgentError::Compaction(failure))
            },
            _ => CompactionAction::Rejected,
        }
    }

    fn on_summary(&mut self, event: CompactionEvent) -> (action: CompactionAction)
        requires
            old(self).phase == CompactionPhase::Summary,
        ensures
            forall|session: SessionView| #[trigger]
                summary_done(old(self)@, session, event@) == going_on(
                    final(self)@,
                    session,
                    action@,
                ),
    {
        match event {
            CompactionEvent::Replied(response) => {
                self.usage = response.usage;
                self.phase = CompactionPhase::Compress;
                CompactionAction::Compress {
                    history: duplicate_all(&self.history),
                    summary: trim(&response.content),
                }
            },
            CompactionEvent::Failed(failure) => {
                self.phase = CompactionPhase::Done;
                CompactionAction::Fail(AgentError::Compaction(failure))
            },
            _ => CompactionAction::Rejected,
        }
    }

    fn on_fitted(&mut self, agent: &Agent, messages: Vec<ChatMessage>) -> (action: CompactionAction)
        requires
            old(self).phase != CompactionPhase::Remote,
            old(self).phase != CompactionPhase::Summary,
        ensures
            forall|session: SessionView| #[trigger]
                compaction_stepped(
                    agent@,
                    old(self)@,
                    session,
                    CompactionEventView::Fitted(views(messages@)),
                ) == going_on(final(self)@, session, action@),
    {
        if self.phase == CompactionPhase::Fit {
            self.history = duplicate_all(&messages);
            self.phase = CompactionPhase::Remote;
            CompactionAction::AskRemote(
                CompactionRequest {
                    model: self.setting.model.clone(),
                    messages,
                    system_prompt: agent.system_prompt.clone(),
                    tools: duplicate_all(&self.setting.tools),
                },
            )
        } else if self.phase == CompactionPhase::Refit {
            let request = build_summary_request(
                agent,
                &self.setting.model,
                &messages,
                &self.setting.instruction,
            );
            self.history = messages;
            self.phase = CompactionPhase::Summary;
            CompactionAction::Summarise(request)
        } else {
            CompactionAction::Rejected
        }
    }

    /// Takes one step: from what happened outside to what is to be done next.
    pub fn step(
        &mut self,
        agent: &Agent,
        session: &mut Session,
        event: CompactionEvent,
        effects: &mut Vec<Effect>,
    ) -> (action: CompactionAction)
        ensures
            ({
                let o = compaction_stepped(agent@, old(self)@, old(session)@, event@);
                &&& final(self)@ == o.compaction
                &&& final(session)@ == o.session
                &&& views(final(effects)@) == views(old(effects)@) + o.effects
                &&& action@ == o.action
            }),
    {
        let ghost o = compaction_stepped(agent@, old(self)@, old(session)@, event@);
        assert(views(effects@) + Seq::<EffectView>::empty() =~= views(effects@));
        if self.phase == CompactionPhase::Remote {
            assert(o == remote_done(old(self)@, old(session)@, event@));
            return self.on_remote(event);
        }
        if self.phase == CompactionPhase::Summary {
            assert(o == summary_done(old(self)@, old(session)@, event@));
            return self.on_summary(event);
        }
        match event {
            CompactionEvent::Fitted(messages) => self.on_fitted(agent, messages),
            CompactionEvent::Rebuilt(messages) => {
                if self.phase == CompactionPhase::Order || self.phase == CompactionPhase::Compress {
                    self.history = duplicate_all(&messages);
                    self.phase = CompactionPhase::Measure;
                    CompactionAction::Measure(messages)
                } else {
                    CompactionAction::Rejected
                }
            },
            CompactionEvent::Measured(status) => {
                if self.phase == CompactionPhase::Measure {
                    self.phase = CompactionPhase::Done;
                    let messages = duplicate_all(&self.history);
                    finish_compaction(
                        session,
                        messages,
                        &self.usage,
                        self.automatic,
                        self.setting.before_tokens,
                        status,
                        effects,
                    );
                    CompactionAction::Finish
                } else {
                    CompactionAction::Rejected
                }
            },
            _ => CompactionAction::Rejected,
        }
    }
}

// ---------------------------------------------------------------------------
// Laws
// ---------------------------------------------------------------------------

/// How many steps a summary is away from its end, at most.
pub open spec fn steps_left(phase: CompactionPhase) -> nat {
    match phase {
        CompactionPhase::Fit => 6,
        CompactionPhase::Remote => 5,
        CompactionPhase::Refit => 4,
        CompactionPhase::Summary => 3,
        CompactionPhase::Order => 2,
        CompactionPhase::Compress => 2,
        CompactionPhase::Measure => 1,
        CompactionPhase::Done => 0,
    }
}

/// A summary ends: each step that is not refused brings it nearer to its end, and a step that
/// is refused changes nothing.
pub proof fn compactions_end(
    agent: AgentView,
    compaction: CompactionView,
    session: SessionView,
    event: CompactionEventView,
)
    ensures
        ({
            let o = compaction_stepped(agent, compaction, session, event);
            if o.action is Rejected {
                o == going_on(compaction, session, CompactionActionView::Rejected)
            } else {
                steps_left(o.compaction.phase) < steps_left(compaction.phase)
            }
        }),
{
}

/// Until a summary is finished the session keeps its history and its account; one that fails
/// leaves both as they were.
pub proof fn failed_compactions_change_nothing(
    agent: AgentView,
    compaction: CompactionView,
    session: SessionView,
    event: CompactionEventView,
)
    ensures
        !(compaction_stepped(agent, compaction, session, event).action is Finish)
            ==> compaction_stepped(agent, compaction, session, event).session == session
            && compaction_stepped(agent, compaction, session, event).effects.len() == 0,
{
}

/// A summary fails exactly where a request of it failed, with that failure.
pub proof fn compactions_fail_with_their_requests(
    agent: AgentView,
    compaction: CompactionView,
    session: SessionView,
    event: CompactionEventView,
)
    ensures
        ({
            let asked = compaction.phase == CompactionPhase::Remote || compaction.phase
                == CompactionPhase::Summary;
            match compaction_stepped(agent, compaction, session, event).action {
                CompactionActionView::Fail(error) => asked && event is Failed && error
                    == AgentErrorView::Compaction(event->Failed_0),
                _ => !(asked && event is Failed),
            }
        }),
{
}

/// The model is asked to summarise only where the provider does not do it by itself.
pub proof fn answers_spare_the_model(
    agent: AgentView,
    compaction: CompactionView,
    session: SessionView,
    event: CompactionEventView,
)
    ensures
        ({
            let o = compaction_stepped(agent, compaction, session, event);
            &&& o.action is Summarise ==> compaction.phase == CompactionPhase::Refit
            &&& o.compaction.phase == CompactionPhase::Refit && compaction.phase
                != CompactionPhase::Refit ==> event is NotOffered
        }),
{
}

} // verus!
