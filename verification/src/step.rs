//! Driving a turn: the machine of `turn`, executable.

use vstd::prelude::*;
use crate::agent::Agent;
use crate::events::AgentEvent;
use crate::events::ContextStatus;
use crate::events::Effect;
use crate::events::EffectView;
use crate::failure::is_context_window_error;
use crate::failure::is_image_compatibility_error;
use crate::failure::is_transient_provider_error;
use crate::failure::retry_delay_ms;
use crate::failure::AgentError;
use crate::failure::ProviderFailure;
use crate::json::array_view;
use crate::json::field_trees;
use crate::json::object_view;
use crate::json::Json;
use crate::json::JsonView;
use crate::session::ChatMessage;
use crate::session::ModelRequest;
use crate::session::ModelRequestView;
use crate::session::ModelResponse;
use crate::session::Session;
use crate::session::SessionView;
use crate::session::TokenUsage;
use crate::session::ToolCall;
use crate::session::ToolCallView;
use crate::session::ToolResult;
use crate::session::ToolSpec;
use crate::text::blank;
use crate::text::texts;
use crate::tools::book_result;
use crate::tools::correction_message;
use crate::tools::schedule_calls;
use crate::tools::CallFacts;
use crate::tools::CallMode;
use crate::turn::all_imageless;
use crate::turn::announcements;
use crate::turn::checkpoint;
use crate::turn::all_delivered;
use crate::turn::delivered;
use crate::turn::effects_of;
use crate::turn::failures_after_all;
use crate::turn::has_images;
use crate::turn::hook_done;
use crate::turn::imageless;
use crate::turn::prepared;
use crate::turn::queue_effects;
use crate::turn::recorded_calls;
use crate::turn::refusal;
use crate::turn::refusals;
use crate::turn::replied;
use crate::turn::request_failed;
use crate::turn::request_for;
use crate::turn::result_effects;
use crate::turn::retry_notice;
use crate::turn::routed;
use crate::turn::sending;
use crate::turn::session_after;
use crate::turn::session_after_result;
use crate::turn::starting_round;
use crate::turn::stepped;
use crate::turn::tools_done;
use crate::turn::user_messages;
use crate::turn::with_context;
use crate::turn::with_queued;
use crate::turn::withheld_call;
use crate::turn::HookKind;
use crate::turn::Turn;
use crate::turn::TurnAction;
use crate::turn::TurnActionView;
use crate::turn::TurnEvent;
use crate::turn::TurnEventView;
use crate::turn::TurnPhase;
use crate::turn::TurnView;
use crate::views::duplicate_all;
use crate::views::duplicate_opt;
use crate::views::group_views;
use crate::views::views;
use crate::views::Duplicate;

verus! {

broadcast use {group_views, array_view, object_view};

/// Asks for the session to be saved, where that is wanted.
fn push_checkpoint(agent: &Agent, effects: &mut Vec<Effect>)
    ensures
        views(final(effects)@) == views(old(effects)@) + checkpoint(agent@),
{
    if agent.checkpoint {
        effects.push(Effect::Checkpoint);
    }
    assert(views(effects@) =~= views(old(effects)@) + checkpoint(agent@));
}

/// Tells whether some message of a request carries an image.
pub fn request_has_images(request: &ModelRequest) -> (result: bool)
    ensures
        result == has_images(request@.messages),
{
    let mut i: usize = 0;
    while i < request.messages.len()
        invariant
            i <= request.messages@.len(),
            forall|k: int|
                0 <= k < i ==> (#[trigger] views(request.messages@)[k]).images.len() == 0,
        decreases request.messages@.len() - i,
    {
        assert(views(request.messages@)[i as int] == request.messages@[i as int]@);
        if request.messages[i].images.len() > 0 {
            return true;
        }
        i = i + 1;
    }
    false
}

/// Removes the images from messages.
fn without_images(messages: Vec<ChatMessage>) -> (result: Vec<ChatMessage>)
    ensures
        views(result@) == all_imageless(views(messages@)),
{
    let ghost wanted = all_imageless(views(messages@));
    let mut rest = messages;
    let mut i: usize = 0;
    while i < rest.len()
        invariant
            i <= rest@.len(),
            rest@.len() == messages@.len(),
            wanted == all_imageless(views(messages@)),
            forall|k: int| 0 <= k < i ==> #[trigger] views(rest@)[k] == wanted[k],
            forall|k: int| i <= k < rest@.len() ==> rest@[k] == messages@[k],
        decreases rest@.len() - i,
    {
        let mut message = rest[i].duplicate();
        message.images = Vec::new();
        assert(message@ == imageless(views(messages@)[i as int]));
        let ghost before = rest@;
        rest.set(i, message);
        assert forall|k: int| 0 <= k < i + 1 implies #[trigger] views(rest@)[k] == wanted[k] by {
            if k < i {
                assert(views(before)[k] == wanted[k]);
            }
        }
        i = i + 1;
    }
    assert(views(rest@) =~= wanted);
    rest
}

/// Removes the images from a request.
pub fn strip_request_images(request: &mut ModelRequest)
    ensures
        final(request)@ == (ModelRequestView {
            messages: all_imageless(old(request)@.messages),
            ..old(request)@
        }),
{
    let messages = duplicate_all(&request.messages);
    request.messages = without_images(messages);
}

/// Adds the context that a hook or a tool gave, unless it is blank.
fn add_context(session: &mut Session, context: String)
    ensures
        final(session)@ == with_context(old(session)@, context@),
{
    if !blank(&context) {
        session.messages.push(ChatMessage::internal_user(context));
    }
}

impl Agent {
    /// Lets the messages that waited join the session. Tells whether there were any.
    pub fn accept_queued_input(
        &self,
        session: &mut Session,
        waiting: Vec<String>,
        effects: &mut Vec<Effect>,
    ) -> (accepted: bool)
        ensures
            accepted == (self.input_queue && waiting@.len() > 0),
            accepted ==> final(session)@ == with_queued(old(session)@, texts(waiting@)),
            accepted ==> views(final(effects)@) == views(old(effects)@) + queue_effects(
                texts(waiting@),
            ),
            !accepted ==> *final(session) == *old(session) && *final(effects) == *old(effects),
    {
        if !self.input_queue || waiting.len() == 0 {
            return false;
        }
        let ghost wanted = user_messages(texts(waiting@));
        let ghost before = session@;
        let mut i: usize = 0;
        assert(before.messages + wanted.take(0) =~= before.messages);
        while i < waiting.len()
            invariant
                i <= waiting@.len(),
                wanted == user_messages(texts(waiting@)),
                session@ == (SessionView { messages: before.messages + wanted.take(i as int), ..before }),
            decreases waiting@.len() - i,
        {
            assert(texts(waiting@)[i as int] == waiting@[i as int]@);
            session.messages.push(ChatMessage::user(waiting[i].clone()));
            assert(before.messages + wanted.take(i + 1) =~= (before.messages + wanted.take(
                i as int,
            )).push(wanted[i as int]));
            i = i + 1;
        }
        assert(wanted.take(i as int) =~= wanted);
        effects.push(Effect::Emit(AgentEvent::QueuedInputAccepted(waiting)));
        assert(views(effects@) =~= views(old(effects)@) + queue_effects(texts(waiting@)));
        true
    }
}

impl Turn {
    /// Opens a turn.
    pub fn open(
        agent: &Agent,
        session: &Session,
        prompt: ChatMessage,
        provider: String,
        model: String,
        tools: Vec<ToolSpec>,
    ) -> (result: (Turn, TurnAction))
        ensures
            result.0@.phase == if session.hooks_started {
                TurnPhase::TurnHook
            } else {
                TurnPhase::SessionHook
            },
            result.1@ == TurnActionView::RunHook(
                if session.hooks_started {
                    HookKind::TurnStart
                } else {
                    HookKind::SessionStart
                },
            ),
            result.0@.prompt == prompt@,
            result.0@.provider == provider@,
            result.0@.model == model@,
            result.0@.tools == views(tools@),
            result.0@.round == 0,
            !result.0@.compacted,
            result.0@.replay == agent.vision_replay,
            !result.0@.corrected,
            result.0@.failures.len() == 0,
            result.0@.attempt == 0,
            !result.0@.stripped,
            result.0@.scheduled.len() == 0,
    {
        let turn = Turn {
            phase: if session.hooks_started {
                TurnPhase::TurnHook
            } else {
                TurnPhase::SessionHook
            },
            provider,
            model,
            tools,
            prompt,
            round: 0,
            compacted: false,
            replay: agent.vision_replay,
            corrected: false,
            failures: Vec::new(),
            attempt: 0,
            stripped: false,
            request: ModelRequest {
                model: String::new(),
                messages: Vec::new(),
                tools: Vec::new(),
                reasoning_effort: None,
            },
            response: ModelResponse {
                content: String::new(),
                tool_calls: Vec::new(),
                invalid_tool_calls: Vec::new(),
                usage: TokenUsage::zero(),
            },
            scheduled: Vec::new(),
        };
        let hook = if session.hooks_started {
            HookKind::TurnStart
        } else {
            HookKind::SessionStart
        };
        (turn, TurnAction::RunHook(hook))
    }

    /// Ends the turn without a reply.
    fn fail(&mut self, error: AgentError) -> (action: TurnAction)
        ensures
            final(self)@ == (TurnView { phase: TurnPhase::Done, ..old(self)@ }),
            action@ == TurnActionView::Fail(error@),
    {
        self.phase = TurnPhase::Done;
        TurnAction::Fail(error)
    }

    /// Starts a round, or ends the turn where all rounds are used up.
    fn start_round(&mut self, agent: &Agent, session: &Session, effects: &mut Vec<Effect>) -> (action:
        TurnAction)
        ensures
            ({
                let o = starting_round(agent@, old(self)@, session@);
                &&& final(self)@ == o.turn
                &&& session@ == o.session
                &&& views(final(effects)@) == views(old(effects)@) + o.effects
                &&& action@ == o.action
            }),
    {
        proof {
            reveal(starting_round);
        }
        let ghost o = starting_round(agent@, old(self)@, session@);
        if self.round >= agent.max_tool_rounds {
            effects.push(Effect::Touch);
            let action = self.fail(AgentError::ToolRoundLimit { limit: agent.max_tool_rounds });
            assert(views(effects@) =~= views(old(effects)@) + o.effects);
            return action;
        }
        self.round = self.round + 1;
        assert(views(effects@) =~= views(old(effects)@) + o.effects);
        if agent.turn_control {
            self.phase = TurnPhase::SafePoint;
            TurnAction::AwaitSafePoint
        } else {
            self.phase = TurnPhase::Prepare;
            TurnAction::Prepare
        }
    }

    /// Builds the request of a round.
    fn build_request(&self, agent: &Agent, session: &Session) -> (result: ModelRequest)
        ensures
            result@ == request_for(agent@, self@, session@),
    {
        proof {
            reveal(request_for);
        }
        let mut messages: Vec<ChatMessage> = Vec::new();
        messages.push(ChatMessage::system(agent.system_prompt.clone()));
        let mut history = duplicate_all(&session.messages);
        let ghost first = messages@;
        let ghost rest = history@;
        messages.append(&mut history);
        assert(messages@ == first + rest);
        assert(views(messages@) =~= seq![crate::session::system_message(agent@.system_prompt)]
            + session@.messages);
        let messages = if self.replay {
            messages
        } else {
            without_images(messages)
        };
        ModelRequest {
            model: self.model.clone(),
            messages,
            tools: duplicate_all(&self.tools),
            reasoning_effort: duplicate_opt(&agent.reasoning_effort),
        }
    }

    /// Makes the first try of a round's request.
    fn send(&mut self, agent: &Agent, session: &Session, effects: &mut Vec<Effect>) -> (action:
        TurnAction)
        ensures
            ({
                let o = sending(agent@, old(self)@, session@);
                &&& final(self)@ == o.turn
                &&& session@ == o.session
                &&& views(final(effects)@) == views(old(effects)@) + o.effects
                &&& action@ == o.action
            }),
    {
        proof {
            reveal(sending);
        }
        let ghost o = sending(agent@, old(self)@, session@);
        effects.push(
            Effect::Emit(
                AgentEvent::ModelStarted {
                    provider: self.provider.clone(),
                    model: self.model.clone(),
                    round: self.round,
                },
            ),
        );
        assert(views(effects@) =~= views(old(effects)@) + o.effects);
        self.request = self.build_request(agent, session);
        self.phase = TurnPhase::Send;
        self.attempt = 0;
        self.stripped = false;
        TurnAction::Send
    }

    /// Goes on once the history is in order.
    fn on_prepared(
        &mut self,
        agent: &Agent,
        session: &mut Session,
        messages: Vec<ChatMessage>,
        status: ContextStatus,
        should_compact: bool,
        effects: &mut Vec<Effect>,
    ) -> (action: TurnAction)
        ensures
            ({
                let o = prepared(
                    agent@,
                    old(self)@,
                    old(session)@,
                    views(messages@),
                    status,
                    should_compact,
                );
                &&& final(self)@ == o.turn
                &&& final(session)@ == o.session
                &&& views(final(effects)@) == views(old(effects)@) + o.effects
                &&& action@ == o.action
            }),
    {
        proof {
            reveal(prepared);
        }
        let ghost o = prepared(
            agent@,
            old(self)@,
            old(session)@,
            views(messages@),
            status,
            should_compact,
        );
        session.messages = messages;
        effects.push(Effect::Emit(AgentEvent::ContextUpdated(status)));
        let forced = agent.force_compaction && self.round == 1;
        if forced || should_compact {
            assert(views(effects@) =~= views(old(effects)@) + o.effects);
            self.phase = TurnPhase::CompactFirst;
            TurnAction::Compact { automatic: !forced }
        } else {
            let action = self.send(agent, session, effects);
            assert(views(effects@) =~= views(old(effects)@) + o.effects);
            action
        }
    }

    /// Tells that a request is made again.
    fn notice_retry(
        effects: &mut Vec<Effect>,
        attempt: u8,
        max_attempts: u8,
        delay_ms: u64,
        message: &str,
    )
        ensures
            views(final(effects)@) == views(old(effects)@) + retry_notice(
                attempt,
                max_attempts,
                delay_ms,
                message@,
            ),
    {
        effects.push(Effect::Emit(AgentEvent::StreamReset));
        effects.push(
            Effect::Emit(
                AgentEvent::ConnectionRetry {
                    attempt,
                    max_attempts,
                    delay_ms,
                    message: message.to_owned(),
                },
            ),
        );
        assert(views(effects@) =~= views(old(effects)@) + retry_notice(
            attempt,
            max_attempts,
            delay_ms,
            message@,
        ));
    }

    /// Goes on after a failed request.
    fn on_failed(
        &mut self,
        agent: &Agent,
        session: &Session,
        failure: ProviderFailure,
        effects: &mut Vec<Effect>,
    ) -> (action: TurnAction)
        requires
            agent@.valid(),
        ensures
            ({
                let o = request_failed(agent@, old(self)@, session@, failure@);
                &&& final(self)@ == o.turn
                &&& session@ == o.session
                &&& views(final(effects)@) == views(old(effects)@) + o.effects
                &&& action@ == o.action
            }),
    {
        proof {
            reveal(request_failed);
        }
        let ghost o = request_failed(agent@, old(self)@, session@, failure@);
        if !self.compacted && is_context_window_error(&failure) {
            self.compacted = true;
            self.phase = TurnPhase::CompactOverflow;
            assert(views(effects@) =~= views(old(effects)@) + o.effects);
            return TurnAction::Compact { automatic: true };
        }
        if !self.stripped && request_has_images(&self.request) && is_image_compatibility_error(
            &failure,
        ) {
            self.stripped = true;
            self.replay = false;
            let mut request = self.request.duplicate();
            strip_request_images(&mut request);
            self.request = request;
            if agent.vision_fallback {
                effects.push(Effect::VisionFallback);
            }
            Turn::notice_retry(effects, 1, 1, 0, "当前模型拒绝图片内容，正在切换为纯文本恢复");
            assert(views(effects@) =~= views(old(effects)@) + o.effects);
            return TurnAction::Send;
        }
        if self.attempt < agent.provider_retry_count && is_transient_provider_error(&failure) {
            self.attempt = self.attempt + 1;
            let delay_ms: u64 = retry_delay_ms(
                &failure,
                self.attempt,
                agent.reconnect_initial_delay_ms,
                agent.reconnect_max_delay_ms,
            );
            Turn::notice_retry(
                effects,
                self.attempt,
                agent.provider_retry_count,
                delay_ms,
                "网络或上游服务暂时不可用，正在自动恢复",
            );
            self.phase = TurnPhase::Backoff;
            assert(views(effects@) =~= views(old(effects)@) + o.effects);
            return TurnAction::Wait { delay_ms };
        }
        assert(views(effects@) =~= views(old(effects)@) + o.effects);
        self.fail(AgentError::Provider(failure))
    }

    /// Takes a reply into the session.
    fn on_replied(
        &mut self,
        agent: &Agent,
        session: &mut Session,
        response: ModelResponse,
        effects: &mut Vec<Effect>,
    ) -> (action: TurnAction)
        ensures
            ({
                let o = replied(agent@, old(self)@, old(session)@, response@);
                &&& final(self)@ == o.turn
                &&& final(session)@ == o.session
                &&& views(final(effects)@) == views(old(effects)@) + o.effects
                &&& action@ == o.action
            }),
    {
        proof {
            reveal(replied);
        }
        let ghost o = replied(agent@, old(self)@, old(session)@, response@);
        let request_usage = response.usage;
        session.usage.add_usage(&request_usage);
        effects.push(
            Effect::Emit(
                AgentEvent::ModelUsage { total: session.usage, request: request_usage },
            ),
        );
        if !response.content.as_str().is_empty() {
            effects.push(Effect::Emit(AgentEvent::Text(response.content.clone())));
        }
        if !response.content.as_str().is_empty() && agent.voice_broadcast {
            effects.push(Effect::Emit(AgentEvent::SpeakText(response.content.clone())));
        }
        assert(views(effects@) =~= views(old(effects)@) + o.effects);
        let calls: Vec<ToolCall> = if response.invalid_tool_calls.len() == 0 {
            duplicate_all(&response.tool_calls)
        } else {
            Vec::new()
        };
        assert(views(calls@) =~= recorded_calls(response@));
        session.messages.push(ChatMessage::assistant(response.content.clone(), calls));
        self.response = response;
        self.phase = TurnPhase::Observe;
        TurnAction::Observe
    }

    /// Tells of the calls that stayed invalid.
    fn refuse_calls(&self, effects: &mut Vec<Effect>)
        ensures
            views(final(effects)@) == views(old(effects)@) + refusals(
                self@.response.invalid_tool_calls,
            ),
    {
        let ghost all = self@.response.invalid_tool_calls;
        let ghost before = views(effects@);
        let mut i: usize = 0;
        assert(before + refusals(all.take(0)) =~= before);
        while i < self.response.invalid_tool_calls.len()
            invariant
                i <= self.response.invalid_tool_calls@.len(),
                all == views(self.response.invalid_tool_calls@),
                views(effects@) == before + refusals(all.take(i as int)),
            decreases self.response.invalid_tool_calls@.len() - i,
        {
            let invalid = &self.response.invalid_tool_calls[i];
            let ghost part = all.take(i + 1);
            assert(part.drop_last() =~= all.take(i as int));
            assert(part.last() == invalid@);
            let ghost held = views(effects@);
            let mut fields: Vec<(String, Json)> = Vec::new();
            fields.push(("invalid_arguments_omitted".to_owned(), Json::Bool(true)));
            assert(field_trees(fields@) =~= seq![
                ("invalid_arguments_omitted"@, JsonView::Bool(true)),
            ]);
            let call = ToolCall {
                id: invalid.id.clone(),
                name: invalid.name.clone(),
                arguments: Json::Object(fields),
            };
            assert(call@ == withheld_call(invalid@));
            let result = ToolResult::error(
                "工具参数纠正后仍未通过校验，已阻止执行。".to_owned().concat(&invalid.reason),
            );
            effects.push(Effect::Emit(AgentEvent::ToolStarted(call.duplicate())));
            effects.push(Effect::Emit(AgentEvent::ToolFinished { call, result }));
            assert(views(effects@) =~= held + refusal(invalid@));
            assert(views(effects@) =~= before + refusals(part));
            i = i + 1;
        }
        assert(all.take(i as int) =~= all);
    }

    /// Tells of the calls that are about to run.
    fn announce_calls(&self, effects: &mut Vec<Effect>)
        ensures
            views(final(effects)@) == views(old(effects)@) + announcements(
                self@.response.tool_calls,
            ),
    {
        let ghost wanted = announcements(self@.response.tool_calls);
        let ghost before = views(effects@);
        let mut i: usize = 0;
        assert(before + wanted.take(0) =~= before);
        while i < self.response.tool_calls.len()
            invariant
                i <= self.response.tool_calls@.len(),
                wanted == announcements(views(self.response.tool_calls@)),
                views(effects@) == before + wanted.take(i as int),
            decreases self.response.tool_calls@.len() - i,
        {
            let call = self.response.tool_calls[i].duplicate();
            assert(views(self.response.tool_calls@)[i as int] == call@);
            effects.push(Effect::Emit(AgentEvent::ToolStarted(call)));
            assert(before + wanted.take(i + 1) =~= (before + wanted.take(i as int)).push(
                wanted[i as int],
            ));
            i = i + 1;
        }
        assert(wanted.take(i as int) =~= wanted);
    }

    /// Acts on a reply.
    fn route(
        &mut self,
        agent: &Agent,
        session: &mut Session,
        facts: Vec<CallFacts>,
        effects: &mut Vec<Effect>,
    ) -> (action: TurnAction)
        requires
            facts@.len() == old(self)@.response.tool_calls.len(),
        ensures
            ({
                let o = routed(agent@, old(self)@, old(session)@, views(facts@));
                &&& final(self)@ == o.turn
                &&& final(session)@ == o.session
                &&& views(final(effects)@) == views(old(effects)@) + o.effects
                &&& action@ == o.action
            }),
    {
        proof {
            reveal(routed);
        }
        let ghost o = routed(agent@, old(self)@, old(session)@, views(facts@));
        if self.response.invalid_tool_calls.len() > 0 {
            if self.corrected {
                self.refuse_calls(effects);
                let reply =
                    "工具参数在一次纠正后仍未通过校验，相关工具未执行。请调整请求或补充参数后继续。";
                effects.push(Effect::Emit(AgentEvent::Text(reply.to_owned())));
                let calls: Vec<ToolCall> = Vec::new();
                assert(views(calls@) =~= Seq::<ToolCallView>::empty());
                session.messages.push(ChatMessage::assistant(reply.to_owned(), calls));
                push_checkpoint(agent, effects);
                effects.push(Effect::Touch);
                assert(views(effects@) =~= views(old(effects)@) + o.effects);
                self.phase = TurnPhase::Done;
                return TurnAction::Finish(reply.to_owned());
            }
            self.corrected = true;
            let request = correction_message(&self.response.invalid_tool_calls, &self.tools);
            session.messages.push(ChatMessage::internal_user(request));
            push_checkpoint(agent, effects);
            let action = self.start_round(agent, session, effects);
            assert(views(effects@) =~= views(old(effects)@) + o.effects);
            return action;
        }
        if self.response.tool_calls.len() == 0 {
            if agent.input_queue {
                assert(views(effects@) =~= views(old(effects)@) + o.effects);
                self.phase = TurnPhase::QueueAfterText;
                return TurnAction::DrainQueue;
            }
            effects.push(Effect::Touch);
            assert(views(effects@) =~= views(old(effects)@) + o.effects);
            self.phase = TurnPhase::Done;
            return TurnAction::Finish(self.response.content.clone());
        }
        self.announce_calls(effects);
        self.scheduled = schedule_calls(&self.response.tool_calls, &facts, &self.failures);
        self.phase = TurnPhase::Tools;
        TurnAction::RunTools
    }

    /// Takes one result into the session.
    fn take_result(
        session: &mut Session,
        call: &ToolCall,
        result: ToolResult,
        effects: &mut Vec<Effect>,
    )
        ensures
            final(session)@ == session_after_result(old(session)@, call@, result@),
            views(final(effects)@) == views(old(effects)@) + result_effects(call@, result@),
    {
        proof {
            reveal(session_after_result);
        }
        let ghost before = views(effects@);
        if let Some(plan) = &result.plan {
            session.plan = Some(plan.duplicate());
            effects.push(Effect::Emit(AgentEvent::PlanUpdated(plan.duplicate())));
        }
        if let Some(state) = &result.loop_state {
            session.loop_state = Some(state.duplicate());
            effects.push(Effect::Emit(AgentEvent::LoopUpdated(state.duplicate())));
        }
        effects.push(
            Effect::Emit(
                AgentEvent::ToolFinished { call: call.duplicate(), result: result.duplicate() },
            ),
        );
        assert(views(effects@) =~= before + result_effects(call@, result@));
        let status = if result.success {
            "success"
        } else {
            "error"
        };
        let content = status.to_owned().concat(": ").concat(&result.output);
        session.messages.push(
            ChatMessage::tool(call.id.clone(), content, duplicate_all(&result.images)),
        );
        if let Some(context) = result.additional_context {
            add_context(session, context);
        }
    }

    /// Takes a batch of results into the session.
    fn on_tools_done(
        &mut self,
        agent: &Agent,
        session: &mut Session,
        results: Vec<ToolResult>,
        effects: &mut Vec<Effect>,
    ) -> (action: TurnAction)
        requires
            results@.len() == old(self).scheduled@.len(),
        ensures
            ({
                let o = tools_done(agent@, old(self)@, old(session)@, views(results@));
                &&& final(self)@ == o.turn
                &&& final(session)@ == o.session
                &&& views(final(effects)@) == views(old(effects)@) + o.effects
                &&& action@ == o.action
            }),
    {
        proof {
            reveal(tools_done);
        }
        let ghost o = tools_done(agent@, old(self)@, old(session)@, views(results@));
        let ghost turn = self@;
        let ghost started = session@;
        let ghost before = views(effects@);
        let ghost calls = self@.scheduled;
        let ghost all = all_delivered(calls, views(results@));
        let mut failures = duplicate_all(&self.failures);
        let mut i: usize = 0;
        assert(before + effects_of(calls, all.take(0)) =~= before);
        while i < results.len()
            invariant
                i <= results@.len(),
                results@.len() == self.scheduled@.len(),
                self@ == turn,
                calls == turn.scheduled,
                calls == views(self.scheduled@),
                all == all_delivered(calls, views(results@)),
                session@ == session_after(started, calls, all.take(i as int)),
                views(effects@) == before + effects_of(calls, all.take(i as int)),
                views(failures@) == failures_after_all(turn.failures, calls, all.take(i as int)),
            decreases results@.len() - i,
        {
            let ghost part = all.take(i + 1);
            assert(part.drop_last() =~= all.take(i as int));
            assert(calls[i as int] == self.scheduled@[i as int]@);
            assert(views(results@)[i as int] == results@[i as int]@);
            assert(part.last() == delivered(calls[i as int], results@[i as int]@));
            let item = &self.scheduled[i];
            let (executed, result) = match &item.mode {
                CallMode::Blocked(reason) => (false, ToolResult::error(reason.clone())),
                _ => (true, results[i].duplicate()),
            };
            failures =
            book_result(failures, &item.fingerprint, executed, result.success, &result.output);
            Turn::take_result(session, &item.call, result, effects);
            assert(views(effects@) =~= before + effects_of(calls, part));
            i = i + 1;
        }
        assert(all.take(i as int) =~= all);
        self.failures = failures;
        if agent.input_queue {
            self.phase = TurnPhase::QueueAfterTools;
            TurnAction::DrainQueue
        } else {
            push_checkpoint(agent, effects);
            let action = self.start_round(agent, session, effects);
            assert(views(effects@) =~= views(old(effects)@) + o.effects);
            action
        }
    }

    /// Goes on after a hook that did not fail.
    fn on_hook(
        &mut self,
        agent: &Agent,
        session: &mut Session,
        context: String,
        effects: &mut Vec<Effect>,
    ) -> (action: TurnAction)
        ensures
            ({
                let o = hook_done(agent@, old(self)@, old(session)@, context@);
                &&& final(self)@ == o.turn
                &&& final(session)@ == o.session
                &&& views(final(effects)@) == views(old(effects)@) + o.effects
                &&& action@ == o.action
            }),
    {
        proof {
            reveal(hook_done);
        }
        let ghost o = hook_done(agent@, old(self)@, old(session)@, context@);
        add_context(session, context);
        if self.phase == TurnPhase::SessionHook {
            session.hooks_started = true;
            self.phase = TurnPhase::TurnHook;
            assert(views(effects@) =~= views(old(effects)@) + o.effects);
            TurnAction::RunHook(HookKind::TurnStart)
        } else {
            session.messages.push(self.prompt.duplicate());
            push_checkpoint(agent, effects);
            let action = self.start_round(agent, session, effects);
            assert(views(effects@) =~= views(old(effects)@) + o.effects);
            action
        }
    }

    /// Goes on with the messages that waited.
    fn on_queued(
        &mut self,
        agent: &Agent,
        session: &mut Session,
        waiting: Vec<String>,
        effects: &mut Vec<Effect>,
    ) -> (action: TurnAction)
        requires
            agent.input_queue,
        ensures
            ({
                let o = stepped(
                    agent@,
                    old(self)@,
                    old(session)@,
                    TurnEventView::Queued(texts(waiting@)),
                );
                &&& final(self)@ == o.turn
                &&& final(session)@ == o.session
                &&& views(final(effects)@) == views(old(effects)@) + o.effects
                &&& action@ == o.action
            }),
    {
        reveal(stepped);
        let ghost event = TurnEventView::Queued(texts(waiting@));
        let ghost o = stepped(agent@, old(self)@, old(session)@, event);
        if self.phase == TurnPhase::QueueAfterTools {
            let accepted = agent.accept_queued_input(session, waiting, effects);
            assert(!accepted ==> with_queued(old(session)@, texts(waiting@)) =~= old(session)@);
            assert(!accepted ==> views(effects@) =~= views(old(effects)@) + queue_effects(
                texts(waiting@),
            ));
            push_checkpoint(agent, effects);
            let action = self.start_round(agent, session, effects);
            assert(views(effects@) =~= views(old(effects)@) + o.effects);
            action
        } else if self.phase == TurnPhase::QueueAfterText {
            if agent.accept_queued_input(session, waiting, effects) {
                let action = self.start_round(agent, session, effects);
                assert(views(effects@) =~= views(old(effects)@) + o.effects);
                action
            } else {
                effects.push(Effect::Touch);
                assert(views(effects@) =~= views(old(effects)@) + o.effects);
                self.phase = TurnPhase::Done;
                TurnAction::Finish(self.response.content.clone())
            }
        } else {
            assert(views(effects@) =~= views(old(effects)@) + o.effects);
            TurnAction::Rejected
        }
    }

    /// A hook had nothing to say.
    fn silent_event(
        &mut self,
        agent: &Agent,
        session: &mut Session,
        effects: &mut Vec<Effect>,
    ) -> (action: TurnAction)
        requires
            agent@.valid(),
        ensures
            ({
                let o = stepped(agent@, old(self)@, old(session)@, TurnEventView::HookSilent);
                &&& final(self)@ == o.turn
                &&& final(session)@ == o.session
                &&& views(final(effects)@) == views(old(effects)@) + o.effects
                &&& action@ == o.action
            }),
    {
        reveal(stepped);
        let ghost o = stepped(agent@, old(self)@, old(session)@, TurnEventView::HookSilent);
        let ghost before = views(effects@);
        assert(before + Seq::<EffectView>::empty() =~= before);
        let phase = self.phase;
        if phase == TurnPhase::SessionHook || phase == TurnPhase::TurnHook {
            return self.on_hook(agent, session, String::new(), effects);
        }
        TurnAction::Rejected
    }

    /// A hook gave some context.
    fn context_event(
        &mut self,
        agent: &Agent,
        session: &mut Session,
        context: String,
        effects: &mut Vec<Effect>,
    ) -> (action: TurnAction)
        requires
            agent@.valid(),
        ensures
            ({
                let o = stepped(agent@, old(self)@, old(session)@, TurnEventView::HookContext(context@));
                &&& final(self)@ == o.turn
                &&& final(session)@ == o.session
                &&& views(final(effects)@) == views(old(effects)@) + o.effects
                &&& action@ == o.action
            }),
    {
        reveal(stepped);
        let ghost o = stepped(agent@, old(self)@, old(session)@, TurnEventView::HookContext(context@));
        let ghost before = views(effects@);
        assert(before + Seq::<EffectView>::empty() =~= before);
        let phase = self.phase;
        if phase == TurnPhase::SessionHook || phase == TurnPhase::TurnHook {
            return self.on_hook(agent, session, context, effects);
        }
        TurnAction::Rejected
    }

    /// A hook failed.
    fn hook_failed_event(
        &mut self,
        agent: &Agent,
        session: &mut Session,
        message: String,
        effects: &mut Vec<Effect>,
    ) -> (action: TurnAction)
        requires
            agent@.valid(),
        ensures
            ({
                let o = stepped(agent@, old(self)@, old(session)@, TurnEventView::HookFailed(message@));
                &&& final(self)@ == o.turn
                &&& final(session)@ == o.session
                &&& views(final(effects)@) == views(old(effects)@) + o.effects
                &&& action@ == o.action
            }),
    {
        reveal(stepped);
        let ghost o = stepped(agent@, old(self)@, old(session)@, TurnEventView::HookFailed(message@));
        let ghost before = views(effects@);
        assert(before + Seq::<EffectView>::empty() =~= before);
        let phase = self.phase;
        if phase == TurnPhase::SessionHook || phase == TurnPhase::TurnHook {
            return self.fail(AgentError::Hook(message));
        }
        TurnAction::Rejected
    }

    /// The safe point was passed.
    fn passed_event(
        &mut self,
        agent: &Agent,
        session: &mut Session,
        effects: &mut Vec<Effect>,
    ) -> (action: TurnAction)
        requires
            agent@.valid(),
        ensures
            ({
                let o = stepped(agent@, old(self)@, old(session)@, TurnEventView::Passed);
                &&& final(self)@ == o.turn
                &&& final(session)@ == o.session
                &&& views(final(effects)@) == views(old(effects)@) + o.effects
                &&& action@ == o.action
            }),
    {
        reveal(stepped);
        let ghost o = stepped(agent@, old(self)@, old(session)@, TurnEventView::Passed);
        let ghost before = views(effects@);
        assert(before + Seq::<EffectView>::empty() =~= before);
        let phase = self.phase;
        if phase == TurnPhase::SafePoint {
            self.phase = TurnPhase::Prepare;
            return TurnAction::Prepare;
        }
        TurnAction::Rejected
    }

    /// The turn was stopped at the safe point.
    fn stopped_event(
        &mut self,
        agent: &Agent,
        session: &mut Session,
        message: String,
        effects: &mut Vec<Effect>,
    ) -> (action: TurnAction)
        requires
            agent@.valid(),
        ensures
            ({
                let o = stepped(agent@, old(self)@, old(session)@, TurnEventView::Stopped(message@));
                &&& final(self)@ == o.turn
                &&& final(session)@ == o.session
                &&& views(final(effects)@) == views(old(effects)@) + o.effects
                &&& action@ == o.action
            }),
    {
        reveal(stepped);
        let ghost o = stepped(agent@, old(self)@, old(session)@, TurnEventView::Stopped(message@));
        let ghost before = views(effects@);
        assert(before + Seq::<EffectView>::empty() =~= before);
        let phase = self.phase;
        if phase == TurnPhase::SafePoint {
            return self.fail(AgentError::Control(message));
        }
        TurnAction::Rejected
    }

    /// The history is in order.
    fn prepared_event(
        &mut self,
        agent: &Agent,
        session: &mut Session,
        messages: Vec<ChatMessage>,
        status: ContextStatus,
        should_compact: bool,
        effects: &mut Vec<Effect>,
    ) -> (action: TurnAction)
        requires
            agent@.valid(),
        ensures
            ({
                let o = stepped(agent@, old(self)@, old(session)@, TurnEventView::Prepared { messages: views(messages@), status, should_compact });
                &&& final(self)@ == o.turn
                &&& final(session)@ == o.session
                &&& views(final(effects)@) == views(old(effects)@) + o.effects
                &&& action@ == o.action
            }),
    {
        reveal(stepped);
        let ghost o = stepped(agent@, old(self)@, old(session)@, TurnEventView::Prepared { messages: views(messages@), status, should_compact });
        let ghost before = views(effects@);
        assert(before + Seq::<EffectView>::empty() =~= before);
        let phase = self.phase;
        if phase == TurnPhase::Prepare {
            return self.on_prepared(agent, session, messages, status, should_compact, effects);
        }
        TurnAction::Rejected
    }

    /// The history was summarised.
    fn compacted_event(
        &mut self,
        agent: &Agent,
        session: &mut Session,
        effects: &mut Vec<Effect>,
    ) -> (action: TurnAction)
        requires
            agent@.valid(),
        ensures
            ({
                let o = stepped(agent@, old(self)@, old(session)@, TurnEventView::Compacted);
                &&& final(self)@ == o.turn
                &&& final(session)@ == o.session
                &&& views(final(effects)@) == views(old(effects)@) + o.effects
                &&& action@ == o.action
            }),
    {
        reveal(stepped);
        let ghost o = stepped(agent@, old(self)@, old(session)@, TurnEventView::Compacted);
        let ghost before = views(effects@);
        assert(before + Seq::<EffectView>::empty() =~= before);
        let phase = self.phase;
        if phase == TurnPhase::CompactFirst {
            return self.send(agent, session, effects);
        }
        if phase == TurnPhase::CompactOverflow {
            push_checkpoint(agent, effects);
            let action = self.start_round(agent, session, effects);
            assert(views(effects@) =~= before + o.effects);
            return action;
        }
        TurnAction::Rejected
    }

    /// Summarising failed.
    fn compact_failed_event(
        &mut self,
        agent: &Agent,
        session: &mut Session,
        failure: ProviderFailure,
        effects: &mut Vec<Effect>,
    ) -> (action: TurnAction)
        requires
            agent@.valid(),
        ensures
            ({
                let o = stepped(agent@, old(self)@, old(session)@, TurnEventView::CompactFailed(failure@));
                &&& final(self)@ == o.turn
                &&& final(session)@ == o.session
                &&& views(final(effects)@) == views(old(effects)@) + o.effects
                &&& action@ == o.action
            }),
    {
        reveal(stepped);
        let ghost o = stepped(agent@, old(self)@, old(session)@, TurnEventView::CompactFailed(failure@));
        let ghost before = views(effects@);
        assert(before + Seq::<EffectView>::empty() =~= before);
        let phase = self.phase;
        if phase == TurnPhase::CompactFirst || phase == TurnPhase::CompactOverflow {
            return self.fail(AgentError::Compaction(failure));
        }
        TurnAction::Rejected
    }

    /// The model replied.
    fn replied_event(
        &mut self,
        agent: &Agent,
        session: &mut Session,
        response: ModelResponse,
        effects: &mut Vec<Effect>,
    ) -> (action: TurnAction)
        requires
            agent@.valid(),
        ensures
            ({
                let o = stepped(agent@, old(self)@, old(session)@, TurnEventView::Replied(response@));
                &&& final(self)@ == o.turn
                &&& final(session)@ == o.session
                &&& views(final(effects)@) == views(old(effects)@) + o.effects
                &&& action@ == o.action
            }),
    {
        reveal(stepped);
        let ghost o = stepped(agent@, old(self)@, old(session)@, TurnEventView::Replied(response@));
        let ghost before = views(effects@);
        assert(before + Seq::<EffectView>::empty() =~= before);
        let phase = self.phase;
        if phase == TurnPhase::Send {
            return self.on_replied(agent, session, response, effects);
        }
        TurnAction::Rejected
    }

    /// The request failed.
    fn failed_event(
        &mut self,
        agent: &Agent,
        session: &mut Session,
        failure: ProviderFailure,
        effects: &mut Vec<Effect>,
    ) -> (action: TurnAction)
        requires
            agent@.valid(),
        ensures
            ({
                let o = stepped(agent@, old(self)@, old(session)@, TurnEventView::Failed(failure@));
                &&& final(self)@ == o.turn
                &&& final(session)@ == o.session
                &&& views(final(effects)@) == views(old(effects)@) + o.effects
                &&& action@ == o.action
            }),
    {
        reveal(stepped);
        let ghost o = stepped(agent@, old(self)@, old(session)@, TurnEventView::Failed(failure@));
        let ghost before = views(effects@);
        assert(before + Seq::<EffectView>::empty() =~= before);
        let phase = self.phase;
        if phase == TurnPhase::Send {
            return self.on_failed(agent, session, failure, effects);
        }
        TurnAction::Rejected
    }

    /// The wait is over.
    fn resumed_event(
        &mut self,
        agent: &Agent,
        session: &mut Session,
        effects: &mut Vec<Effect>,
    ) -> (action: TurnAction)
        requires
            agent@.valid(),
        ensures
            ({
                let o = stepped(agent@, old(self)@, old(session)@, TurnEventView::Resumed);
                &&& final(self)@ == o.turn
                &&& final(session)@ == o.session
                &&& views(final(effects)@) == views(old(effects)@) + o.effects
                &&& action@ == o.action
            }),
    {
        reveal(stepped);
        let ghost o = stepped(agent@, old(self)@, old(session)@, TurnEventView::Resumed);
        let ghost before = views(effects@);
        assert(before + Seq::<EffectView>::empty() =~= before);
        let phase = self.phase;
        if phase == TurnPhase::Backoff {
            self.phase = TurnPhase::Send;
            return TurnAction::Send;
        }
        TurnAction::Rejected
    }

    /// The context was measured.
    fn observed_event(
        &mut self,
        agent: &Agent,
        session: &mut Session,
        status: ContextStatus,
        facts: Vec<CallFacts>,
        effects: &mut Vec<Effect>,
    ) -> (action: TurnAction)
        requires
            agent@.valid(),
        ensures
            ({
                let o = stepped(agent@, old(self)@, old(session)@, TurnEventView::Observed { status, facts: views(facts@) });
                &&& final(self)@ == o.turn
                &&& final(session)@ == o.session
                &&& views(final(effects)@) == views(old(effects)@) + o.effects
                &&& action@ == o.action
            }),
    {
        reveal(stepped);
        let ghost o = stepped(agent@, old(self)@, old(session)@, TurnEventView::Observed { status, facts: views(facts@) });
        let ghost before = views(effects@);
        assert(before + Seq::<EffectView>::empty() =~= before);
        let phase = self.phase;
        if phase == TurnPhase::Observe && facts.len() == self.response.tool_calls.len() {
            effects.push(Effect::Emit(AgentEvent::ContextUpdated(status)));
            push_checkpoint(agent, effects);
            let action = self.route(agent, session, facts, effects);
            assert(views(effects@) =~= before + o.effects);
            return action;
        }
        TurnAction::Rejected
    }

    /// The calls ended.
    fn tools_done_event(
        &mut self,
        agent: &Agent,
        session: &mut Session,
        results: Vec<ToolResult>,
        effects: &mut Vec<Effect>,
    ) -> (action: TurnAction)
        requires
            agent@.valid(),
        ensures
            ({
                let o = stepped(agent@, old(self)@, old(session)@, TurnEventView::ToolsDone(views(results@)));
                &&& final(self)@ == o.turn
                &&& final(session)@ == o.session
                &&& views(final(effects)@) == views(old(effects)@) + o.effects
                &&& action@ == o.action
            }),
    {
        reveal(stepped);
        let ghost o = stepped(agent@, old(self)@, old(session)@, TurnEventView::ToolsDone(views(results@)));
        let ghost before = views(effects@);
        assert(before + Seq::<EffectView>::empty() =~= before);
        let phase = self.phase;
        if phase == TurnPhase::Tools && results.len() == self.scheduled.len() {
            return self.on_tools_done(agent, session, results, effects);
        }
        TurnAction::Rejected
    }

    /// Takes what came of the last action and decides on the next one. `effects` receives
    /// what the caller is to do before it.
    pub fn step(
        &mut self,
        agent: &Agent,
        session: &mut Session,
        event: TurnEvent,
        effects: &mut Vec<Effect>,
    ) -> (action: TurnAction)
        requires
            agent@.valid(),
            event is Queued ==> agent.input_queue,
        ensures
            ({
                let o = stepped(agent@, old(self)@, old(session)@, event@);
                &&& final(self)@ == o.turn
                &&& final(session)@ == o.session
                &&& views(final(effects)@) == views(old(effects)@) + o.effects
                &&& action@ == o.action
            }),
    {
        match event {
            TurnEvent::HookSilent => self.silent_event(agent, session, effects),
            TurnEvent::HookContext(context) => self.context_event(agent, session, context, effects),
            TurnEvent::HookFailed(message) => self.hook_failed_event(
                agent,
                session,
                message,
                effects,
            ),
            TurnEvent::Passed => self.passed_event(agent, session, effects),
            TurnEvent::Stopped(message) => self.stopped_event(agent, session, message, effects),
            TurnEvent::Prepared { messages, status, should_compact } => self.prepared_event(
                agent,
                session,
                messages,
                status,
                should_compact,
                effects,
            ),
            TurnEvent::Compacted => self.compacted_event(agent, session, effects),
            TurnEvent::CompactFailed(failure) => self.compact_failed_event(
                agent,
                session,
                failure,
                effects,
            ),
            TurnEvent::Replied(response) => self.replied_event(agent, session, response, effects),
            TurnEvent::Failed(failure) => self.failed_event(agent, session, failure, effects),
            TurnEvent::Resumed => self.resumed_event(agent, session, effects),
            TurnEvent::Observed { status, facts } => self.observed_event(
                agent,
                session,
                status,
                facts,
                effects,
            ),
            TurnEvent::ToolsDone(results) => self.tools_done_event(
                agent,
                session,
                results,
                effects,
            ),
            TurnEvent::Queued(waiting) => self.on_queued(agent, session, waiting, effects),
        }
    }
}

} // verus!
