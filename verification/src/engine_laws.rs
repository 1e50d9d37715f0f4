//! What a turn of the agent, a summary and a delegated task are for, stated over what goes in
//! and what comes out.

use vstd::prelude::*;
use crate::agent::AgentView;
use crate::agent::loop_instruction;
use crate::agent::recovery_instruction;
use crate::agents::AgentRecordView;
use crate::agents::AgentSchedulerView;
use crate::agents::AgentSnapshotView;
use crate::agents::ConfiguredSubAgentView;
use crate::agents::delegate_prompt;
use crate::agents::failure_note;
use crate::agents::find_record;
use crate::agents::find_sub_agent;
use crate::agents::forked;
use crate::agents::fork_start;
use crate::agents::running_count;
use crate::agents::selected;
use crate::agents::snapshots_at;
use crate::agents::spawned;
use crate::agents::updated_record;
use crate::agents::with_task;
use crate::compaction::compaction_begun;
use crate::compaction::CompactionActionView;
use crate::compaction::CompactionEventView;
use crate::compaction::CompactionPhase;
use crate::compaction::CompactionSettingView;
use crate::compaction::CompactionView;
use crate::compaction::compaction_stepped;
use crate::events::AgentEventView;
use crate::events::ContextStatus;
use crate::events::EffectView;
use crate::failure::AgentErrorView;
use crate::failure::ProviderFailureView;
use crate::failure::overflows_context;
use crate::failure::passes_by_itself;
use crate::failure::refuses_images;
use crate::numbers::decimal;
use crate::numbers::decimal_is_digits;
use crate::numbers::decimal_reads_back;
use crate::runs::is_opening;
use crate::session::ChatMessageView;
use crate::session::ImageContentView;
use crate::session::InvalidToolCallView;
use crate::session::LoopStateView;
use crate::session::LoopStatus;
use crate::session::ModelResponseView;
use crate::session::new_session;
use crate::session::Role;
use crate::session::SessionView;
use crate::session::TokenUsage;
use crate::session::ToolCallView;
use crate::session::ToolResultView;
use crate::session::assistant_message;
use crate::session::internal_message;
use crate::session::system_message;
use crate::session::tool_message;
use crate::session::user_message;
use crate::text::is_blank;
use crate::text::trimmed;
use crate::tools::CallFactsView;
use crate::tools::CallModeView;
use crate::tools::ScheduledCallView;
use crate::tools::ToolFailureView;
use crate::tools::failure_of;
use crate::tools::fingerprint;
use crate::tools::prints;
use crate::tools::scheduled;
use crate::turn::all_imageless;
use crate::turn::effects_of;
use crate::turn::failures_after_all;
use crate::turn::hook_done;
use crate::turn::prepared;
use crate::turn::refusals;
use crate::turn::replied;
use crate::turn::request_failed;
use crate::turn::request_for;
use crate::turn::result_effects;
use crate::turn::routed;
use crate::turn::sending;
use crate::turn::session_after;
use crate::turn::session_after_result;
use crate::turn::starting_round;
use crate::turn::stepped;
use crate::turn::tools_done;
use crate::turn::HookKind;
use crate::turn::TurnActionView;
use crate::turn::TurnEventView;
use crate::turn::TurnPhase;
use crate::turn::TurnView;

verus! {

// ---------------------------------------------------------------------------
// Requests
// ---------------------------------------------------------------------------

/// Whether a message says the same as another, leaving its images aside.
pub open spec fn says_the_same(one: ChatMessageView, other: ChatMessageView) -> bool {
    &&& one.role == other.role
    &&& one.content == other.content
    &&& one.tool_call_id == other.tool_call_id
    &&& one.tool_calls == other.tool_calls
    &&& one.provider_items == other.provider_items
    &&& one.internal == other.internal
    &&& one.compaction_summary == other.compaction_summary
}

/// The messages that are made say what they were made with, in the role of who says it.
pub proof fn messages_say_what_they_were_given(
    text: Seq<char>,
    call_id: Seq<char>,
    calls: Seq<ToolCallView>,
    images: Seq<ImageContentView>,
)
    ensures
        system_message(text).role == Role::System,
        system_message(text).content == text,
        user_message(text).role == Role::User,
        user_message(text).content == text,
        !user_message(text).internal,
        internal_message(text).role == Role::User,
        internal_message(text).content == text,
        internal_message(text).internal,
        assistant_message(text, calls).role == Role::Assistant,
        assistant_message(text, calls).content == text,
        assistant_message(text, calls).tool_calls == calls,
        tool_message(call_id, text, images).role == Role::Tool,
        tool_message(call_id, text, images).content == text,
        tool_message(call_id, text, images).tool_call_id == Some(call_id),
        tool_message(call_id, text, images).images == images,
{
}

proof fn requests_are_whole(agent: AgentView, turn: TurnView, session: SessionView)
    ensures
        ({
            let request = sending(agent, turn, session).turn.request;
            let sent = request.messages;
            &&& sent.len() == session.messages.len() + 1
            &&& sent[0].role == Role::System
            &&& sent[0].content == agent.system_prompt
            &&& sent[0].tool_calls.len() == 0
            &&& forall|i: int|
                #![trigger session.messages[i]]
                0 <= i < session.messages.len() ==> says_the_same(sent[i + 1], session.messages[i])
                    && sent[i + 1].images == (if turn.replay {
                    session.messages[i].images
                } else {
                    Seq::empty()
                })
            &&& request.model == turn.model
            &&& request.tools == turn.tools
            &&& request.reasoning_effort == agent.reasoning_effort
        }),
        sending(agent, turn, session).action is Send,
        sending(agent, turn, session).session == session,
{
    reveal(sending);
    reveal(request_for);
}

/// Every round's request carries the system prompt of the agent first and then the whole
/// history of the session in order, with its images where they are replayed and without them
/// where they are not; it goes to the model of the turn, with the tools of the turn.
pub proof fn requests_carry_prompt_and_history(
    agent: AgentView,
    turn: TurnView,
    session: SessionView,
    event: TurnEventView,
)
    requires
        event is Prepared || event is Compacted,
        stepped(agent, turn, session, event).action is Send,
    ensures
        ({
            let next = stepped(agent, turn, session, event);
            let sent = next.turn.request.messages;
            let history = next.session.messages;
            &&& sent.len() == history.len() + 1
            &&& sent[0].role == Role::System
            &&& sent[0].content == agent.system_prompt
            &&& sent[0].tool_calls.len() == 0
            &&& forall|i: int|
                #![trigger history[i]]
                0 <= i < history.len() ==> says_the_same(sent[i + 1], history[i])
                    && sent[i + 1].images == (if turn.replay {
                    history[i].images
                } else {
                    Seq::empty()
                })
            &&& next.turn.request.model == turn.model
            &&& next.turn.request.tools == turn.tools
            &&& next.turn.request.reasoning_effort == agent.reasoning_effort
            &&& event matches TurnEventView::Prepared { messages, .. } ==> history == messages
            &&& event is Compacted ==> history == session.messages
        }),
{
    reveal(stepped);
    reveal(prepared);
    reveal(starting_round);
    match event {
        TurnEventView::Prepared { messages, .. } => {
            requests_are_whole(agent, turn, SessionView { messages, ..session });
        },
        _ => {
            requests_are_whole(agent, turn, session);
        },
    }
}

/// A request that is made again says what it said before: as it was after a wait, and without
/// its images where the model refused them.
pub proof fn repeated_requests_say_the_same(
    agent: AgentView,
    turn: TurnView,
    session: SessionView,
    event: TurnEventView,
)
    requires
        turn.phase == TurnPhase::Send || turn.phase == TurnPhase::Backoff,
        event is Failed || event is Resumed,
    ensures
        ({
            let next = stepped(agent, turn, session, event);
            let before = turn.request;
            let now = next.turn.request;
            &&& next.session == session
            &&& now.model == before.model && now.tools == before.tools && now.reasoning_effort
                == before.reasoning_effort
            &&& now.messages.len() == before.messages.len()
            &&& forall|i: int|
                0 <= i < before.messages.len() ==> says_the_same(
                    now.messages[i],
                    #[trigger] before.messages[i],
                )
            &&& !(event is Failed && next.action is Send) ==> now == before
        }),
{
    reveal(stepped);
    reveal(request_failed);
}

/// What follows a failed request is decided by the failure: a history that is too long is
/// summarised once, images that are refused are left out once, a failure that passes by itself
/// is tried again as often as the agent allows, and anything else ends the turn with it.
pub proof fn failures_decide_what_follows(
    agent: AgentView,
    turn: TurnView,
    session: SessionView,
    failure: ProviderFailureView,
)
    requires
        turn.phase == TurnPhase::Send,
    ensures
        ({
            let next = stepped(agent, turn, session, TurnEventView::Failed(failure));
            let pictures = exists|i: int|
                0 <= i < turn.request.messages.len() && (#[trigger] turn.request.messages[i]).images.len()
                    > 0;
            let again = turn.attempt < agent.provider_retry_count && passes_by_itself(failure);
            if !turn.compacted && overflows_context(failure) {
                next.action == (TurnActionView::Compact { automatic: true }) && next.turn.compacted
            } else if !turn.stripped && pictures && refuses_images(failure) {
                next.action is Send && next.turn.stripped && !next.turn.replay
                    && next.turn.request.messages.len() == turn.request.messages.len()
                    && (agent.vision_fallback ==> next.effects.contains(EffectView::VisionFallback))
            } else if again {
                next.action is Wait && next.turn.attempt == turn.attempt + 1
                    && next.turn.phase == TurnPhase::Backoff
            } else {
                next.action == TurnActionView::Fail(AgentErrorView::Provider(failure))
            }
        }),
{
    reveal(stepped);
    reveal(request_failed);
    let next = stepped(agent, turn, session, TurnEventView::Failed(failure));
    if agent.vision_fallback && next.action is Send {
        assert(next.effects[0] == EffectView::VisionFallback);
    }
}

// ---------------------------------------------------------------------------
// Replies and calls
// ---------------------------------------------------------------------------

/// What the model replied stands in the history as the words of the assistant, is shown, and is
/// read aloud where that is wanted; the tokens that it cost are counted.
pub proof fn replies_are_kept_and_shown(
    agent: AgentView,
    turn: TurnView,
    session: SessionView,
    response: ModelResponseView,
)
    requires
        turn.phase == TurnPhase::Send,
    ensures
        ({
            let next = stepped(agent, turn, session, TurnEventView::Replied(response));
            let said = next.session.messages.last();
            &&& next.session.messages.len() == session.messages.len() + 1
            &&& next.session.messages.drop_last() == session.messages
            &&& said.role == Role::Assistant && said.content == response.content
            &&& response.invalid_tool_calls.len() == 0 ==> said.tool_calls == response.tool_calls
            &&& response.invalid_tool_calls.len() > 0 ==> said.tool_calls.len() == 0
            &&& next.turn.response == response
            &&& next.action is Observe
            &&& response.content.len() > 0 ==> next.effects.contains(
                EffectView::Emit(AgentEventView::Text(response.content)),
            )
            &&& response.content.len() > 0 && agent.voice_broadcast ==> next.effects.contains(
                EffectView::Emit(AgentEventView::SpeakText(response.content)),
            )
            &&& session.usage.input_tokens + response.usage.input_tokens <= u64::MAX
                ==> next.session.usage.input_tokens == session.usage.input_tokens
                + response.usage.input_tokens
            &&& session.usage.output_tokens + response.usage.output_tokens <= u64::MAX
                ==> next.session.usage.output_tokens == session.usage.output_tokens
                + response.usage.output_tokens
            &&& session.usage.cached_input_tokens + response.usage.cached_input_tokens <= u64::MAX
                ==> next.session.usage.cached_input_tokens == session.usage.cached_input_tokens
                + response.usage.cached_input_tokens
        }),
{
    reveal(stepped);
    reveal(replied);
    let next = stepped(agent, turn, session, TurnEventView::Replied(response));
    assert(next.session.messages.drop_last() =~= session.messages);
    if response.content.len() > 0 {
        assert(next.effects[1] == EffectView::Emit(AgentEventView::Text(response.content)));
        if agent.voice_broadcast {
            assert(next.effects[2] == EffectView::Emit(
                AgentEventView::SpeakText(response.content),
            ));
        }
    }
}

/// A reply without calls ends the turn with its text, unless messages may wait; a reply with
/// calls has each of them run or held back, in order, and each is announced.
pub proof fn replies_are_acted_on(
    agent: AgentView,
    turn: TurnView,
    session: SessionView,
    status: ContextStatus,
    facts: Seq<CallFactsView>,
)
    requires
        turn.phase == TurnPhase::Observe,
        facts.len() == turn.response.tool_calls.len(),
        turn.response.invalid_tool_calls.len() == 0,
    ensures
        ({
            let next = stepped(agent, turn, session, TurnEventView::Observed { status, facts });
            let calls = turn.response.tool_calls;
            &&& next.session == session
            &&& calls.len() == 0 && !agent.input_queue ==> next.action == TurnActionView::Finish(
                turn.response.content,
            )
            &&& calls.len() == 0 && agent.input_queue ==> next.action is DrainQueue
            &&& calls.len() > 0 ==> next.action is RunTools && next.turn.scheduled.len()
                == calls.len()
            &&& calls.len() > 0 ==> forall|i: int|
                0 <= i < calls.len() ==> (#[trigger] next.turn.scheduled[i]).call == calls[i]
            &&& calls.len() > 0 ==> forall|i: int|
                0 <= i < calls.len() ==> next.effects.contains(
                    EffectView::Emit(AgentEventView::ToolStarted(#[trigger] calls[i])),
                )
            &&& next.effects.contains(EffectView::Emit(AgentEventView::ContextUpdated(status)))
            &&& agent.checkpoint ==> next.effects.contains(EffectView::Checkpoint)
        }),
{
    reveal(stepped);
    reveal(routed);
    reveal(scheduled);
    let next = stepped(agent, turn, session, TurnEventView::Observed { status, facts });
    let calls = turn.response.tool_calls;
    assert(next.effects[0] == EffectView::Emit(AgentEventView::ContextUpdated(status)));
    if agent.checkpoint {
        assert(next.effects[1] == EffectView::Checkpoint);
    }
    if calls.len() > 0 {
        let skipped: int = if agent.checkpoint {
            2
        } else {
            1
        };
        assert forall|i: int| 0 <= i < calls.len() implies next.effects.contains(
            EffectView::Emit(AgentEventView::ToolStarted(#[trigger] calls[i])),
        ) by {
            assert(next.effects[i + skipped] == EffectView::Emit(
                AgentEventView::ToolStarted(calls[i]),
            ));
        }
    }
}

/// The mark by which calls are told apart covers the name and all of the arguments.
pub proof fn marks_cover_the_call(call: ToolCallView)
    ensures
        fingerprint(call) == crate::codec::md5_hex(
            vstd::utf8::encode_utf8(call.name).push(0u8) + vstd::utf8::encode_utf8(
                crate::codec::compact_text(call.arguments),
            ),
        ),
{
    assert(vstd::utf8::encode_utf8(call.name).push(0u8) =~= vstd::utf8::encode_utf8(call.name)
        + seq![0u8]);
}

/// A call runs unless it stands in the batch already, has failed twice, or failed in a way that
/// asks for another call; then it is held back. One that only reads what no call of the batch
/// changes runs beside others.
pub proof fn calls_run_unless_there_is_a_reason(
    calls: Seq<ToolCallView>,
    facts: Seq<CallFactsView>,
    failures: Seq<ToolFailureView>,
    i: int,
)
    requires
        0 <= i < calls.len(),
        facts.len() == calls.len(),
    ensures
        ({
            let entry = scheduled(calls, prints(calls), facts, failures)[i];
            let state = failure_of(failures, fingerprint(calls[i]));
            let repeated = exists|k: int|
                0 <= k < i && fingerprint(#[trigger] calls[k]) == fingerprint(calls[i]);
            let contended = facts[i].resource is Some && exists|j: int|
                0 <= j < facts.len() && !(#[trigger] facts[j]).read_only && facts[j].resource
                    == facts[i].resource;
            &&& entry.call == calls[i]
            &&& entry.fingerprint == fingerprint(calls[i])
            &&& entry.mode is Blocked <==> repeated || state.requires_changed_call
                || state.executions >= 2
            &&& entry.mode is Parallel <==> !(entry.mode is Blocked) && facts[i].read_only
                && !contended
        }),
{
    reveal(scheduled);
    let marks = prints(calls);
    let repeated = exists|k: int|
        0 <= k < i && fingerprint(#[trigger] calls[k]) == fingerprint(calls[i]);
    assert(marks.take(i).contains(marks[i]) <==> repeated) by {
        if marks.take(i).contains(marks[i]) {
            let k = choose|k: int| 0 <= k < marks.take(i).len() && marks.take(i)[k] == marks[i];
            assert(fingerprint(calls[k]) == fingerprint(calls[i]));
        }
        if repeated {
            let k = choose|k: int|
                0 <= k < i && fingerprint(#[trigger] calls[k]) == fingerprint(calls[i]);
            assert(marks.take(i)[k] == marks[i]);
        }
    }
    if let Some(resource) = facts[i].resource {
        assert(crate::tools::may_change(facts, resource) <==> exists|j: int|
            0 <= j < facts.len() && !(#[trigger] facts[j]).read_only && facts[j].resource
                == facts[i].resource);
    }
}

/// How the results of a batch stand behind a session.
proof fn results_stand_behind(
    session: SessionView,
    calls: Seq<ScheduledCallView>,
    results: Seq<ToolResultView>,
    i: int,
)
    requires
        0 <= i < results.len(),
        results.len() <= calls.len(),
    ensures
        ({
            let after = session_after(session, calls, results);
            &&& session.messages.is_prefix_of(after.messages)
            &&& exists|k: int|
                session.messages.len() <= k < after.messages.len() && (
                #[trigger] after.messages[k]).role == Role::Tool && after.messages[k].tool_call_id
                    == Some(calls[i].call.id) && after.messages[k].content == (if results[i].success {
                    "success"@
                } else {
                    "error"@
                }) + ": "@ + results[i].output && after.messages[k].images == results[i].images
        }),
    decreases results.len(),
{
    let before = results.drop_last();
    let middle = session_after(session, calls, before);
    let last = results.len() - 1;
    reveal(session_after_result);
    crate::turn_laws::results_answer_calls_in_order(session, calls, before);
    let after = session_after(session, calls, results);
    assert(after == session_after_result(middle, calls[last].call, results.last()));
    assert(middle.messages.is_prefix_of(after.messages));
    if i < last {
        results_stand_behind(session, calls, before, i);
        let k = choose|k: int|
            session.messages.len() <= k < middle.messages.len() && (
            #[trigger] middle.messages[k]).role == Role::Tool && middle.messages[k].tool_call_id
                == Some(calls[i].call.id) && middle.messages[k].content == (if before[i].success {
                "success"@
            } else {
                "error"@
            }) + ": "@ + before[i].output && middle.messages[k].images == before[i].images;
        assert(after.messages[k] == middle.messages[k]);
    } else {
        let k = middle.messages.len() as int;
        assert(after.messages[k].role == Role::Tool);
        assert(after.messages[k].tool_call_id == Some(calls[i].call.id));
    }
}

/// Every call that ran is answered in the history with what it gave, under its own id; a call
/// that was held back is answered with the reason. Then the next round starts, or the messages
/// that wait are taken first.
pub proof fn calls_are_answered(
    agent: AgentView,
    turn: TurnView,
    session: SessionView,
    results: Seq<ToolResultView>,
    i: int,
)
    requires
        turn.phase == TurnPhase::Tools,
        results.len() == turn.scheduled.len(),
        0 <= i < results.len(),
    ensures
        ({
            let next = stepped(agent, turn, session, TurnEventView::ToolsDone(results));
            let entry = turn.scheduled[i];
            let succeeded = !(entry.mode is Blocked) && results[i].success;
            let output = match entry.mode {
                CallModeView::Blocked(reason) => reason,
                _ => results[i].output,
            };
            &&& session.messages.is_prefix_of(next.session.messages)
            &&& exists|k: int|
                session.messages.len() <= k < next.session.messages.len() && (
                #[trigger] next.session.messages[k]).role == Role::Tool
                    && next.session.messages[k].tool_call_id == Some(entry.call.id)
                    && next.session.messages[k].content == (if succeeded {
                    "success"@
                } else {
                    "error"@
                }) + ": "@ + output
            &&& agent.input_queue ==> next.action is DrainQueue
            &&& !agent.input_queue && turn.round < agent.max_tool_rounds ==> next.action is Prepare
                || next.action is AwaitSafePoint
        }),
{
    reveal(stepped);
    reveal(tools_done);
    reveal(starting_round);
    let all = crate::turn::all_delivered(turn.scheduled, results);
    results_stand_behind(session, turn.scheduled, all, i);
    let after = session_after(session, turn.scheduled, all);
    let next = stepped(agent, turn, session, TurnEventView::ToolsDone(results));
    assert(next.session == after);
    let k = choose|k: int|
        session.messages.len() <= k < after.messages.len() && (#[trigger] after.messages[k]).role
            == Role::Tool && after.messages[k].tool_call_id == Some(
            turn.scheduled[i].call.id,
        ) && after.messages[k].content == (if all[i].success {
            "success"@
        } else {
            "error"@
        }) + ": "@ + all[i].output && after.messages[k].images == all[i].images;
    assert(next.session.messages[k].role == Role::Tool);
}

/// One result changes the plan and the loop where it brings one, and what it adds for the model
/// stands behind its answer, kept from the user.
pub proof fn results_bring_plan_loop_and_context(
    session: SessionView,
    call: ToolCallView,
    result: ToolResultView,
)
    ensures
        ({
            let after = session_after_result(session, call, result);
            &&& after.plan == (if result.plan is Some {
                result.plan
            } else {
                session.plan
            })
            &&& after.loop_state == (if result.loop_state is Some {
                result.loop_state
            } else {
                session.loop_state
            })
            &&& after.usage == session.usage
            &&& after.id == session.id
            &&& result.additional_context is Some && !is_blank(result.additional_context->0)
                ==> after.messages.last().content == result.additional_context->0
                && after.messages.last().internal && after.messages.last().role == Role::User
                && after.messages.len() == session.messages.len() + 2
            &&& result.additional_context is None || is_blank(result.additional_context->0)
                ==> after.messages.len() == session.messages.len() + 1
        }),
{
    reveal(session_after_result);
}

/// A reply with invalid calls has the model told once what was wrong with each of them: the
/// name of the tool and the reason; the message is kept from the user and a new round starts.
pub proof fn invalid_calls_are_explained(
    agent: AgentView,
    turn: TurnView,
    session: SessionView,
    status: ContextStatus,
    facts: Seq<CallFactsView>,
    i: int,
)
    requires
        turn.phase == TurnPhase::Observe,
        facts.len() == turn.response.tool_calls.len(),
        !turn.corrected,
        0 <= i < turn.response.invalid_tool_calls.len(),
    ensures
        ({
            let next = stepped(agent, turn, session, TurnEventView::Observed { status, facts });
            let told = next.session.messages.last();
            let wrong = turn.response.invalid_tool_calls[i];
            &&& next.session.messages.drop_last() == session.messages
            &&& told.internal && told.role == Role::User
            &&& crate::text::contains(told.content, wrong.name)
            &&& crate::text::contains(told.content, wrong.reason)
            &&& turn.round < agent.max_tool_rounds ==> next.action is Prepare || next.action
                is AwaitSafePoint
        }),
{
    reveal(stepped);
    reveal(routed);
    reveal(starting_round);
    reveal(crate::tools::correction_request);
    let wrong = turn.response.invalid_tool_calls;
    let list = crate::tools::problems(wrong, turn.tools);
    let next = stepped(agent, turn, session, TurnEventView::Observed { status, facts });
    assert(next.session.messages.drop_last() =~= session.messages);
    let content = next.session.messages.last().content;
    let start = "<tool_call_correction>The previous tool call was not executed because its arguments were invalid. Return the same tool call once more with exactly one valid JSON object matching the supplied schema. Do not use Markdown fences or explanatory text.\n"@;
    let end = "</tool_call_correction>"@;
    crate::text_laws::joined_holds_its_parts(list, "\n\n"@, i);
    crate::text_laws::parts_are_contained(start, crate::text::joined(list, "\n\n"@), end);
    let schema = crate::tools::shown_schema(turn.tools, wrong[i].name);
    let a = "tool_name: "@;
    let b = "\nvalidation_stage: arguments\nfield_error: "@;
    let c = "\njson_schema: "@;
    crate::text_laws::parts_are_contained(a, wrong[i].name, b + wrong[i].reason + c + schema);
    assert(a + wrong[i].name + (b + wrong[i].reason + c + schema) =~= list[i]);
    crate::text_laws::parts_are_contained(a + wrong[i].name + b, wrong[i].reason, c + schema);
    assert(a + wrong[i].name + b + wrong[i].reason + (c + schema) =~= list[i]);
    crate::text_laws::contained_in_contained(content, crate::text::joined(list, "\n\n"@), list[i]);
    crate::text_laws::contained_in_contained(content, list[i], wrong[i].name);
    crate::text_laws::contained_in_contained(content, list[i], wrong[i].reason);
}

/// Calls that stay invalid end the turn with a reply that is kept and shown.
pub proof fn stubborn_calls_end_the_turn(
    agent: AgentView,
    turn: TurnView,
    session: SessionView,
    status: ContextStatus,
    facts: Seq<CallFactsView>,
)
    requires
        turn.phase == TurnPhase::Observe,
        facts.len() == turn.response.tool_calls.len(),
        turn.corrected,
        turn.response.invalid_tool_calls.len() > 0,
    ensures
        ({
            let next = stepped(agent, turn, session, TurnEventView::Observed { status, facts });
            let said = next.session.messages.last();
            &&& next.session.messages.drop_last() == session.messages
            &&& said.role == Role::Assistant
            &&& said.content
                == "工具参数在一次纠正后仍未通过校验，相关工具未执行。请调整请求或补充参数后继续。"@
            &&& next.action == TurnActionView::Finish(said.content)
            &&& next.effects.contains(EffectView::Emit(AgentEventView::Text(said.content)))
        }),
{
    reveal(stepped);
    reveal(routed);
    let next = stepped(agent, turn, session, TurnEventView::Observed { status, facts });
    assert(next.session.messages.drop_last() =~= session.messages);
    let said = crate::turn::recovery_reply();
    let told = crate::turn::refusals(turn.response.invalid_tool_calls);
    let lead = seq![EffectView::Emit(AgentEventView::ContextUpdated(status))]
        + crate::turn::checkpoint(agent);
    assert(next.effects[(lead.len() + told.len()) as int] == EffectView::Emit(
        AgentEventView::Text(said),
    ));
}

// ---------------------------------------------------------------------------
// The course of a turn
// ---------------------------------------------------------------------------

/// The prompt of a turn enters the history once the hooks are done, behind what they have to
/// say; a hook that fails ends the turn with its message.
pub proof fn prompts_enter_the_history(
    agent: AgentView,
    turn: TurnView,
    session: SessionView,
    context: Seq<char>,
)
    requires
        turn.phase == TurnPhase::TurnHook || turn.phase == TurnPhase::SessionHook,
    ensures
        ({
            let next = stepped(agent, turn, session, TurnEventView::HookContext(context));
            let silent = stepped(agent, turn, session, TurnEventView::HookSilent);
            let failed = stepped(agent, turn, session, TurnEventView::HookFailed(context));
            &&& turn.phase == TurnPhase::TurnHook ==> next.session.messages.last() == turn.prompt
                && silent.session.messages == session.messages.push(turn.prompt)
            &&& turn.phase == TurnPhase::TurnHook && !is_blank(context)
                ==> next.session.messages.len() == session.messages.len() + 2
                && next.session.messages[session.messages.len() as int].content == context
                && next.session.messages[session.messages.len() as int].internal
            &&& turn.phase == TurnPhase::TurnHook && turn.round < agent.max_tool_rounds
                ==> next.turn.round == turn.round + 1 && (next.action is Prepare || next.action
                is AwaitSafePoint)
            &&& turn.phase == TurnPhase::SessionHook ==> next.action == TurnActionView::RunHook(
                HookKind::TurnStart,
            ) && next.session.hooks_started && silent.session.messages == session.messages
            &&& turn.phase == TurnPhase::SessionHook && !is_blank(context)
                ==> next.session.messages.last().content == context
            &&& failed.action == TurnActionView::Fail(AgentErrorView::Hook(context))
            &&& failed.session == session
        }),
{
    reveal(stepped);
    reveal(hook_done);
    reveal(starting_round);
    reveal(is_blank);
    assert(trimmed(Seq::<char>::empty()).len() == 0);
}

/// Messages that waited enter the history as the user's, in order, and the turn goes on with
/// them; where none waits after a reply, the turn ends with the reply.
pub proof fn waiting_messages_are_taken(
    agent: AgentView,
    turn: TurnView,
    session: SessionView,
    waiting: Seq<Seq<char>>,
)
    requires
        turn.phase == TurnPhase::QueueAfterTools || turn.phase == TurnPhase::QueueAfterText,
    ensures
        ({
            let next = stepped(agent, turn, session, TurnEventView::Queued(waiting));
            let ends = turn.phase == TurnPhase::QueueAfterText && waiting.len() == 0;
            &&& next.session.messages.len() == session.messages.len() + waiting.len()
            &&& session.messages.is_prefix_of(next.session.messages)
            &&& forall|i: int|
                #![trigger waiting[i]]
                0 <= i < waiting.len() ==> next.session.messages[session.messages.len() + i].content
                    == waiting[i] && next.session.messages[session.messages.len() + i].role
                    == Role::User && !next.session.messages[session.messages.len() + i].internal
            &&& ends ==> next.action == TurnActionView::Finish(turn.response.content)
            &&& !ends && turn.round < agent.max_tool_rounds ==> next.turn.round == turn.round + 1
                && (next.action is Prepare || next.action is AwaitSafePoint)
            &&& waiting.len() > 0 ==> next.effects.contains(
                EffectView::Emit(AgentEventView::QueuedInputAccepted(waiting)),
            )
        }),
{
    reveal(stepped);
    reveal(starting_round);
    let next = stepped(agent, turn, session, TurnEventView::Queued(waiting));
    if waiting.len() > 0 {
        assert(next.effects[0] == EffectView::Emit(AgentEventView::QueuedInputAccepted(waiting)));
    }
    assert(session.messages.is_prefix_of(next.session.messages));
}

/// A turn that has used up its rounds ends with that; one that is stopped at a safe point ends
/// with the reason; one whose summary fails ends with the failure.
pub proof fn turns_end_with_their_reason(
    agent: AgentView,
    turn: TurnView,
    session: SessionView,
    reason: Seq<char>,
    failure: ProviderFailureView,
)
    ensures
        turn.phase == TurnPhase::SafePoint ==> stepped(
            agent,
            turn,
            session,
            TurnEventView::Stopped(reason),
        ).action == TurnActionView::Fail(AgentErrorView::Control(reason)),
        turn.phase == TurnPhase::SafePoint ==> stepped(
            agent,
            turn,
            session,
            TurnEventView::Passed,
        ).action is Prepare,
        turn.phase == TurnPhase::CompactFirst || turn.phase == TurnPhase::CompactOverflow
            ==> stepped(agent, turn, session, TurnEventView::CompactFailed(failure)).action
            == TurnActionView::Fail(AgentErrorView::Compaction(failure)),
        turn.phase == TurnPhase::TurnHook && turn.round >= agent.max_tool_rounds ==> stepped(
            agent,
            turn,
            session,
            TurnEventView::HookSilent,
        ).action == TurnActionView::Fail(
            AgentErrorView::ToolRoundLimit { limit: agent.max_tool_rounds },
        ),
        turn.phase == TurnPhase::CompactFirst ==> stepped(
            agent,
            turn,
            session,
            TurnEventView::Compacted,
        ).action is Send,
        turn.phase == TurnPhase::CompactOverflow && turn.round < agent.max_tool_rounds ==> stepped(
            agent,
            turn,
            session,
            TurnEventView::Compacted,
        ).turn.round == turn.round + 1,
{
    reveal(stepped);
    reveal(hook_done);
    reveal(starting_round);
    reveal(sending);
}

/// A history is summarised before a request where it has grown too long, or where that is asked
/// for and the turn begins; else the request is sent.
pub proof fn long_histories_are_summarised(
    agent: AgentView,
    turn: TurnView,
    session: SessionView,
    messages: Seq<ChatMessageView>,
    status: ContextStatus,
    should_compact: bool,
)
    requires
        turn.phase == TurnPhase::Prepare,
    ensures
        ({
            let next = stepped(
                agent,
                turn,
                session,
                TurnEventView::Prepared { messages, status, should_compact },
            );
            let asked = agent.force_compaction && turn.round == 1;
            &&& next.session.messages == messages
            &&& should_compact || asked ==> next.action == (TurnActionView::Compact {
                automatic: !asked,
            })
            &&& !should_compact && !asked ==> next.action is Send
        }),
{
    reveal(stepped);
    reveal(prepared);
    reveal(sending);
}

/// The instruction to go on with a loop names its objective.
pub proof fn loops_are_told_their_objective(state: LoopStateView)
    requires
        state.status == LoopStatus::Active,
    ensures
        crate::text::contains(loop_instruction(Some(state)), state.objective),
{
    let a = "<loop_context>\nContinue working autonomously toward the active Loop objective: "@;
    let b = "\nMake concrete progress, use tools when needed, and only mark the Loop complete when the objective is fully achieved.\n</loop_context>"@;
    crate::text_laws::parts_are_contained(a, state.objective, b);
}

// ---------------------------------------------------------------------------
// Summaries
// ---------------------------------------------------------------------------

/// Whether a request has a history summarised: the system prompt, then each message of the
/// history once and in order, then the instruction.
pub open spec fn asks_for_summary(
    sent: Seq<ChatMessageView>,
    prompt: Seq<char>,
    history: Seq<ChatMessageView>,
    instruction: Seq<char>,
) -> bool {
    &&& sent.len() == history.len() + 2
    &&& sent[0].role == Role::System && sent[0].content == prompt
    &&& forall|i: int| 0 <= i < history.len() ==> sent[i + 1] == #[trigger] history[i]
    &&& sent.last().role == Role::User && sent.last().content == instruction
}

/// A model that is asked for a summary is sent the whole history that was cut to fit, once and
/// in order, between the system prompt and the instruction, and no tools.
pub proof fn summaries_are_asked_of_the_whole_history(
    agent: AgentView,
    compaction: CompactionView,
    session: SessionView,
    event: CompactionEventView,
)
    requires
        compaction_stepped(agent, compaction, session, event).action is Summarise,
    ensures
        ({
            let o = compaction_stepped(agent, compaction, session, event);
            let request = o.action->Summarise_0;
            &&& event is Fitted
            &&& o.compaction.history == event->Fitted_0
            &&& asks_for_summary(
                request.messages,
                agent.system_prompt,
                event->Fitted_0,
                compaction.setting.instruction,
            )
            &&& request.model == compaction.setting.model
            &&& request.tools.len() == 0
        }),
{
}

/// A provider that summarises by itself is sent the history that was cut to fit, with the
/// prompt, the model and the tools.
pub proof fn providers_are_sent_the_whole_history(
    agent: AgentView,
    compaction: CompactionView,
    session: SessionView,
    messages: Seq<ChatMessageView>,
)
    requires
        compaction.phase == CompactionPhase::Fit,
    ensures
        ({
            let o = compaction_stepped(
                agent,
                compaction,
                session,
                CompactionEventView::Fitted(messages),
            );
            &&& o.action matches CompactionActionView::AskRemote(request) && request.messages
                == messages && request.system_prompt == agent.system_prompt && request.model
                == compaction.setting.model && request.tools == compaction.setting.tools
            &&& o.compaction.history == messages
        }),
{
}

/// What a summary leads to becomes the history of the session, and what it cost is counted: the
/// answer of a provider that summarises by itself, or the history with the model's summary in
/// its place.
pub proof fn summaries_become_the_history(
    agent: AgentView,
    compaction: CompactionView,
    session: SessionView,
    messages: Seq<ChatMessageView>,
    usage: TokenUsage,
    response: ModelResponseView,
    status: ContextStatus,
)
    ensures
        compaction.phase == CompactionPhase::Remote ==> compaction_stepped(
            agent,
            compaction,
            session,
            CompactionEventView::Answered { messages, usage },
        ).action == CompactionActionView::Order(messages) && compaction_stepped(
            agent,
            compaction,
            session,
            CompactionEventView::Answered { messages, usage },
        ).compaction.usage == usage,
        compaction.phase == CompactionPhase::Summary ==> compaction_stepped(
            agent,
            compaction,
            session,
            CompactionEventView::Replied(response),
        ).action == (CompactionActionView::Compress {
            history: compaction.history,
            summary: trimmed(response.content),
        }) && compaction_stepped(
            agent,
            compaction,
            session,
            CompactionEventView::Replied(response),
        ).compaction.usage == response.usage,
        compaction.phase == CompactionPhase::Order || compaction.phase == CompactionPhase::Compress
            ==> compaction_stepped(
            agent,
            compaction,
            session,
            CompactionEventView::Rebuilt(messages),
        ).compaction.history == messages && compaction_stepped(
            agent,
            compaction,
            session,
            CompactionEventView::Rebuilt(messages),
        ).action == CompactionActionView::Measure(messages),
        compaction.phase == CompactionPhase::Measure ==> ({
            let o = compaction_stepped(
                agent,
                compaction,
                session,
                CompactionEventView::Measured(status),
            );
            &&& o.action is Finish
            &&& o.session.messages == compaction.history
            &&& session.usage.input_tokens + compaction.usage.input_tokens <= u64::MAX
                ==> o.session.usage.input_tokens == session.usage.input_tokens
                + compaction.usage.input_tokens
            &&& session.usage.output_tokens + compaction.usage.output_tokens <= u64::MAX
                ==> o.session.usage.output_tokens == session.usage.output_tokens
                + compaction.usage.output_tokens
            &&& o.effects.contains(
                EffectView::Emit(
                    AgentEventView::CompactionCompleted {
                        automatic: compaction.automatic,
                        before_tokens: compaction.setting.before_tokens,
                        after_tokens: status.used_tokens,
                    },
                ),
            )
        }),
{
    if compaction.phase == CompactionPhase::Measure {
        let o = compaction_stepped(
            agent,
            compaction,
            session,
            CompactionEventView::Measured(status),
        );
        assert(o.effects[0] is Emit);
    }
}

/// The room for the history is what the context leaves beside the reply, and beside the
/// instruction where the model is asked; there is always some.
pub proof fn summaries_keep_room(
    agent: AgentView,
    compaction: CompactionView,
    session: SessionView,
    prompt_overhead: u64,
)
    ensures
        compaction.setting.context_window > compaction.setting.max_output_tokens
            ==> compaction.setting.limit() + compaction.setting.max_output_tokens
            == compaction.setting.context_window,
        compaction.setting.limit() >= 1,
        compaction.phase == CompactionPhase::Remote ==> ({
            let action = compaction_stepped(
                agent,
                compaction,
                session,
                CompactionEventView::NotOffered { prompt_overhead },
            ).action;
            action matches CompactionActionView::Fit { messages, limit } && messages
                == compaction.history && limit >= 1 && (compaction.setting.limit()
                > prompt_overhead ==> limit + prompt_overhead == compaction.setting.limit())
        }),
{
}

/// Taking the images out of messages takes nothing else.
pub proof fn only_images_are_taken_out(messages: Seq<ChatMessageView>, i: int)
    requires
        0 <= i < messages.len(),
    ensures
        all_imageless(messages).len() == messages.len(),
        says_the_same(all_imageless(messages)[i], messages[i]),
        all_imageless(messages)[i].images.len() == 0,
{
}

// ---------------------------------------------------------------------------
// Delegated tasks
// ---------------------------------------------------------------------------

proof fn found_sub_agents_are_listed(list: Seq<ConfiguredSubAgentView>, id: Seq<char>)
    ensures
        match find_sub_agent(list, id) {
            Some(entry) => list.contains(entry) && entry.id == id,
            None => forall|i: int| 0 <= i < list.len() ==> (#[trigger] list[i]).id != id,
        },
    decreases list.len(),
{
    if list.len() > 0 {
        let rest = list.skip(1);
        if list[0].id == id {
            assert(list.contains(list[0]));
        } else {
            found_sub_agents_are_listed(rest, id);
            match find_sub_agent(list, id) {
                Some(entry) => {
                    let k = choose|k: int| 0 <= k < rest.len() && rest[k] == entry;
                    assert(list[k + 1] == entry);
                },
                None => {
                    assert forall|i: int| 0 <= i < list.len() implies (#[trigger] list[i]).id
                        != id by {
                        if i > 0 {
                            assert(rest[i - 1] == list[i]);
                        }
                    }
                },
            }
        }
    }
}

/// A task goes to the sub-agent that was asked for, or to the fallback where none was asked
/// for: to one of the configured ones, and to that one alone. It goes to the main model only
/// where none is configured.
pub proof fn tasks_go_to_the_agent_that_was_asked_for(
    scheduler: AgentSchedulerView,
    asked: Option<Seq<char>>,
)
    ensures
        ({
            let wanted = if asked is Some {
                asked
            } else {
                scheduler.fallback_sub_agent_id
            };
            match selected(scheduler, asked) {
                Ok(Some(entry)) => scheduler.sub_agents.contains(entry) && wanted == Some(entry.id),
                Ok(None) => scheduler.sub_agents.len() == 0,
                Err(_) => scheduler.sub_agents.len() > 0 && (wanted is None || forall|i: int|
                    0 <= i < scheduler.sub_agents.len() ==> (#[trigger] scheduler.sub_agents[i]).id
                        != wanted->0),
            }
        }),
{
    let wanted = if asked is Some {
        asked
    } else {
        scheduler.fallback_sub_agent_id
    };
    if let Some(id) = wanted {
        found_sub_agents_are_listed(scheduler.sub_agents, id);
    }
}

/// A delegated task works under the system prompt of its parent, and knows its role where it
/// has one.
pub proof fn delegates_know_their_prompt_and_role(prompt: Seq<char>, chosen: ConfiguredSubAgentView)
    ensures
        crate::text::starts_with(delegate_prompt(prompt, Some(chosen)), prompt),
        crate::text::starts_with(delegate_prompt(prompt, None), prompt),
        chosen.description.len() > 0 ==> crate::text::contains(
            delegate_prompt(prompt, Some(chosen)),
            chosen.description,
        ),
{
    let whole = delegate_prompt(prompt, Some(chosen));
    let plain = delegate_prompt(prompt, None);
    assert(whole.take(prompt.len() as int) =~= prompt);
    assert(plain.take(prompt.len() as int) =~= prompt);
    if chosen.description.len() > 0 {
        let a = prompt + "\n\nYou are a delegated Coomi sub-agent."@ + " Your configured role is: "@;
        let b = "."@
            + " Complete the assigned task independently and return a concise result to the parent agent."@;
        crate::text_laws::parts_are_contained(a, chosen.description, b);
        assert(a + chosen.description + b =~= whole);
    }
}

/// A task starts with the conversation that it was to be given: none of it, all of it, or its
/// end from the turn on with which the asked number of turns begins. Nothing else can be asked
/// for.
pub proof fn forks_start_where_they_should(
    messages: Seq<ChatMessageView>,
    turns: nat,
    other: Seq<char>,
)
    requires
        turns <= usize::MAX,
    ensures
        forked(messages, None) == Ok::<Seq<ChatMessageView>, Seq<char>>(messages),
        forked(messages, Some("all"@)) == Ok::<Seq<ChatMessageView>, Seq<char>>(messages),
        forked(messages, Some("none"@)) matches Ok(list) && list.len() == 0,
        turns > 0 ==> (forked(messages, Some(decimal(turns))) matches Ok(list) && list
            == messages.skip(fork_start(messages, turns))),
        turns == 0 ==> forked(messages, Some(decimal(turns))) is Err,
        other.len() > 0 && !crate::text::is_digit(other[0]) && other[0] != '+' && other != "all"@
            && other != "none"@ ==> forked(messages, Some(other)) is Err,
{
    reveal_strlit("all");
    reveal_strlit("none");
    assert("all"@[0] == 'a' && "none"@[0] == 'n');
    decimal_is_digits(turns);
    decimal_reads_back(turns);
    assert(crate::text::is_digit(decimal(turns)[0]));
}

/// A task that was taken on runs under its id, with what it is about and nothing written yet;
/// a blank task, and one beyond the limit, is refused.
pub proof fn tasks_are_taken_on(
    scheduler: AgentSchedulerView,
    id: Seq<char>,
    task: Seq<char>,
    parent: Seq<ChatMessageView>,
    fork_turns: Option<Seq<char>>,
    now_ms: u128,
)
    requires
        crate::agents::records_ordered(scheduler.agents),
    ensures
        is_blank(task) ==> spawned(scheduler, task, parent, fork_turns) is Err,
        running_count(scheduler.agents) >= scheduler.max_agents ==> spawned(
            scheduler,
            task,
            parent,
            fork_turns,
        ) is Err,
        !is_blank(task) && running_count(scheduler.agents) < scheduler.max_agents ==> spawned(
            scheduler,
            task,
            parent,
            fork_turns,
        ) == forked(parent, fork_turns),
        find_record(with_task(scheduler, id, task, now_ms).agents, id) matches Some(record)
            && record.id == id && record.task == task && record.status == "running"@
            && record.output.len() == 0 && record.started_ms == now_ms,
{
    let record = AgentRecordView {
        id,
        task,
        status: "running"@,
        output: Seq::empty(),
        started_ms: now_ms,
    };
    crate::agents::taken_tasks_are_found(scheduler.agents, record);
}

proof fn updates_are_found(
    records: Seq<AgentRecordView>,
    id: Seq<char>,
    status: Option<Seq<char>>,
    more: Seq<char>,
    other: Seq<char>,
)
    ensures
        find_record(records, id) is None ==> updated_record(records, id, status, more) == records,
        find_record(records, id) matches Some(before) ==> (find_record(
            updated_record(records, id, status, more),
            id,
        ) matches Some(after) && after.output == before.output + more && after.task == before.task
            && after.started_ms == before.started_ms && after.status == (match status {
            Some(text) => text,
            None => before.status,
        })),
        other != id ==> find_record(updated_record(records, id, status, more), other)
            == find_record(records, other),
    decreases records.len(),
{
    if records.len() > 0 {
        let rest = records.skip(1);
        updates_are_found(rest, id, status, more, other);
        let now = updated_record(records, id, status, more);
        if records[0].id == id {
            assert(now.skip(1) =~= rest);
        } else {
            assert(now.skip(1) =~= updated_record(rest, id, status, more));
            if find_record(records, id) is None {
                assert(now =~= records);
            }
        }
    }
}

/// What a delegated task writes is added to its own output and to no other; a task that ended
/// says so, and one that failed says why.
pub proof fn outputs_are_collected(
    records: Seq<AgentRecordView>,
    id: Seq<char>,
    text: Seq<char>,
    other: Seq<char>,
)
    requires
        find_record(records, id) is Some,
        other != id,
    ensures
        find_record(updated_record(records, id, None, text), id) matches Some(record)
            && record.output == find_record(records, id)->0.output + text && record.status
            == find_record(records, id)->0.status,
        find_record(updated_record(records, id, Some("completed"@), Seq::empty()), id) matches Some(
            record,
        ) && record.output == find_record(records, id)->0.output && record.status == "completed"@,
        find_record(updated_record(records, id, None, text), other) == find_record(records, other),
        crate::text::ends_with(failure_note(find_record(records, id)->0.output, text), text),
{
    updates_are_found(records, id, None, text, other);
    updates_are_found(records, id, Some("completed"@), Seq::empty(), other);
    let output = find_record(records, id)->0.output;
    assert(output + Seq::<char>::empty() =~= output);
    let note = failure_note(output, text);
    assert(note.skip(note.len() - text.len()) =~= text);
}

/// Whoever asks how tasks stand is told of those that were asked for, each as it stands: of all
/// of them where none is named.
pub proof fn tasks_are_told_as_they_stand(
    records: Seq<AgentRecordView>,
    ids: Seq<Seq<char>>,
    now_ms: u128,
    i: int,
)
    ensures
        ids.len() == 0 ==> snapshots_at(records, ids, now_ms).len() == records.len(),
        ids.len() == 0 && 0 <= i < records.len() ==> tells_of(
            snapshots_at(records, ids, now_ms)[i],
            records[i],
            now_ms,
        ),
        ids.len() > 0 && 0 <= i < ids.len() && find_record(records, ids[i]) is Some ==> exists|k: int|
            0 <= k < snapshots_at(records, ids, now_ms).len() && tells_of(
                #[trigger] snapshots_at(records, ids, now_ms)[k],
                find_record(records, ids[i])->0,
                now_ms,
            ),
{
    if ids.len() > 0 && 0 <= i < ids.len() && find_record(records, ids[i]) is Some {
        named_tasks_are_told(records, ids, now_ms, i);
        let list = crate::agents::chosen_snapshots(records, ids, now_ms);
        let k = choose|k: int|
            0 <= k < list.len() && tells_of(
                #[trigger] list[k],
                find_record(records, ids[i])->0,
                now_ms,
            );
        assert(tells_of(
            snapshots_at(records, ids, now_ms)[k],
            find_record(records, ids[i])->0,
            now_ms,
        ));
    }
}

/// Whether a report tells how a task stands.
pub open spec fn tells_of(
    snapshot: AgentSnapshotView,
    record: AgentRecordView,
    now_ms: u128,
) -> bool {
    &&& snapshot.id == record.id
    &&& snapshot.status == record.status
    &&& snapshot.task == record.task
    &&& snapshot.output == record.output
    &&& now_ms >= record.started_ms ==> snapshot.elapsed_ms == now_ms - record.started_ms
}

proof fn named_tasks_are_told(
    records: Seq<AgentRecordView>,
    ids: Seq<Seq<char>>,
    now_ms: u128,
    i: int,
)
    requires
        0 <= i < ids.len(),
        find_record(records, ids[i]) is Some,
    ensures
        exists|k: int|
            0 <= k < crate::agents::chosen_snapshots(records, ids, now_ms).len() && tells_of(
                #[trigger] crate::agents::chosen_snapshots(records, ids, now_ms)[k],
                find_record(records, ids[i])->0,
                now_ms,
            ),
    decreases ids.len(),
{
    let before = crate::agents::chosen_snapshots(records, ids.drop_last(), now_ms);
    let all = crate::agents::chosen_snapshots(records, ids, now_ms);
    if i < ids.len() - 1 {
        named_tasks_are_told(records, ids.drop_last(), now_ms, i);
        let k = choose|k: int|
            0 <= k < before.len() && tells_of(
                #[trigger] before[k],
                find_record(records, ids[i])->0,
                now_ms,
            );
        assert(all[k] == before[k]);
    } else {
        assert(tells_of(all[before.len() as int], find_record(records, ids[i])->0, now_ms));
    }
}

// ---------------------------------------------------------------------------
// Openings and what is told
// ---------------------------------------------------------------------------

/// A turn that opens holds the prompt that it was given, shown for the user's own words and kept
/// from the user for an instruction, and begins with a hook; the prompt is then the last of the
/// history when the first round starts.
pub proof fn openings_hold_their_prompt(
    turn: TurnView,
    action: TurnActionView,
    agent: AgentView,
    session: SessionView,
    text: Seq<char>,
)
    requires
        is_opening(turn, action, agent, session, user_message(text)),
    ensures
        turn.prompt.content == text,
        turn.prompt.role == Role::User,
        !turn.prompt.internal,
        action is RunHook,
        turn.round == 0,
        session.hooks_started ==> stepped(
            agent,
            turn,
            session,
            TurnEventView::HookSilent,
        ).session.messages == session.messages.push(turn.prompt),
{
    reveal(stepped);
    reveal(hook_done);
    reveal(starting_round);
    reveal(is_blank);
    assert(trimmed(Seq::<char>::empty()).len() == 0);
}

/// A turn that goes on after an interruption is told so, kept from the user.
pub proof fn recoveries_hold_their_instruction(
    turn: TurnView,
    action: TurnActionView,
    agent: AgentView,
    session: SessionView,
)
    requires
        is_opening(turn, action, agent, session, internal_message(recovery_instruction())),
    ensures
        turn.prompt.content == recovery_instruction(),
        turn.prompt.internal,
        recovery_instruction().len() > 0,
{
    reveal_strlit(
        "<recovery_context>The previous turn was interrupted by a temporary network or upstream service failure. Continue from the current session checkpoint, complete only the unfinished work, and do not repeat completed tool operations.</recovery_context>",
    );
}

/// A summary begins with nothing taken or used, and a session begins empty, with the model that
/// it was made for.
pub proof fn beginnings_are_empty(
    setting: CompactionSettingView,
    automatic: bool,
    id: Seq<char>,
    provider_id: Seq<char>,
    model: Seq<char>,
    cwd: Seq<char>,
)
    ensures
        compaction_begun(setting, automatic).phase == CompactionPhase::Fit,
        compaction_begun(setting, automatic).setting == setting,
        compaction_begun(setting, automatic).automatic == automatic,
        compaction_begun(setting, automatic).usage.total() == 0,
        new_session(id, provider_id, model, cwd).id == id,
        new_session(id, provider_id, model, cwd).provider_id == provider_id,
        new_session(id, provider_id, model, cwd).model == model,
        new_session(id, provider_id, model, cwd).cwd == cwd,
        new_session(id, provider_id, model, cwd).messages.len() == 0,
        new_session(id, provider_id, model, cwd).usage.total() == 0,
        !new_session(id, provider_id, model, cwd).hooks_started,
{
}

proof fn results_are_told(
    calls: Seq<ScheduledCallView>,
    results: Seq<ToolResultView>,
    i: int,
)
    requires
        0 <= i < results.len(),
    ensures
        effects_of(calls, results).contains(
            EffectView::Emit(
                AgentEventView::ToolFinished { call: calls[i].call, result: results[i] },
            ),
        ),
        results[i].plan is Some ==> effects_of(calls, results).contains(
            EffectView::Emit(AgentEventView::PlanUpdated(results[i].plan->0)),
        ),
        results[i].loop_state is Some ==> effects_of(calls, results).contains(
            EffectView::Emit(AgentEventView::LoopUpdated(results[i].loop_state->0)),
        ),
    decreases results.len(),
{
    let last = results.len() - 1;
    let before = effects_of(calls, results.drop_last());
    let own = result_effects(calls[last].call, results.last());
    let all = effects_of(calls, results);
    assert(all == before + own);
    let ended = EffectView::Emit(
        AgentEventView::ToolFinished { call: calls[i].call, result: results[i] },
    );
    if i < last {
        results_are_told(calls, results.drop_last(), i);
        let k = choose|k: int| 0 <= k < before.len() && before[k] == ended;
        assert(all[k] == ended);
        if results[i].plan is Some {
            let plan = EffectView::Emit(AgentEventView::PlanUpdated(results[i].plan->0));
            let k = choose|k: int| 0 <= k < before.len() && before[k] == plan;
            assert(all[k] == plan);
        }
        if results[i].loop_state is Some {
            let state = EffectView::Emit(AgentEventView::LoopUpdated(results[i].loop_state->0));
            let k = choose|k: int| 0 <= k < before.len() && before[k] == state;
            assert(all[k] == state);
        }
    } else {
        assert(own[own.len() - 1] == ended);
        assert(all[all.len() - 1] == ended);
        if results[i].plan is Some {
            assert(all[before.len() as int] == own[0]);
        }
        if results[i].loop_state is Some {
            let at = if results[i].plan is Some {
                1int
            } else {
                0int
            };
            assert(all[before.len() + at] == own[at]);
        }
    }
}

/// The end of every call is told with the call and what it gave, and so are a plan and a loop
/// that it brought.
pub proof fn ends_of_calls_are_told(
    agent: AgentView,
    turn: TurnView,
    session: SessionView,
    results: Seq<ToolResultView>,
    i: int,
)
    requires
        turn.phase == TurnPhase::Tools,
        results.len() == turn.scheduled.len(),
        0 <= i < results.len(),
        !(turn.scheduled[i].mode is Blocked),
    ensures
        ({
            let told = stepped(agent, turn, session, TurnEventView::ToolsDone(results)).effects;
            &&& told.contains(
                EffectView::Emit(
                    AgentEventView::ToolFinished {
                        call: turn.scheduled[i].call,
                        result: results[i],
                    },
                ),
            )
            &&& results[i].plan is Some ==> told.contains(
                EffectView::Emit(AgentEventView::PlanUpdated(results[i].plan->0)),
            )
            &&& results[i].loop_state is Some ==> told.contains(
                EffectView::Emit(AgentEventView::LoopUpdated(results[i].loop_state->0)),
            )
        }),
{
    reveal(stepped);
    reveal(tools_done);
    reveal(starting_round);
    let all = crate::turn::all_delivered(turn.scheduled, results);
    assert(all[i] == results[i]);
    results_are_told(turn.scheduled, all, i);
    let own = effects_of(turn.scheduled, all);
    let told = stepped(agent, turn, session, TurnEventView::ToolsDone(results)).effects;
    assert(own.is_prefix_of(told));
    still_told(
        own,
        told,
        EffectView::Emit(
            AgentEventView::ToolFinished { call: turn.scheduled[i].call, result: results[i] },
        ),
    );
    if results[i].plan is Some {
        still_told(
            own,
            told,
            EffectView::Emit(AgentEventView::PlanUpdated(results[i].plan->0)),
        );
    }
    if results[i].loop_state is Some {
        still_told(
            own,
            told,
            EffectView::Emit(AgentEventView::LoopUpdated(results[i].loop_state->0)),
        );
    }
}

proof fn still_told(own: Seq<EffectView>, told: Seq<EffectView>, effect: EffectView)
    requires
        own.is_prefix_of(told),
        own.contains(effect),
    ensures
        told.contains(effect),
{
    let k = choose|k: int| 0 <= k < own.len() && own[k] == effect;
    assert(told[k] == effect);
}

/// A request that is tried again is told with its number and its wait.
pub proof fn retries_are_told(
    agent: AgentView,
    turn: TurnView,
    session: SessionView,
    failure: ProviderFailureView,
)
    requires
        turn.phase == TurnPhase::Send,
        stepped(agent, turn, session, TurnEventView::Failed(failure)).action is Wait,
    ensures
        ({
            let next = stepped(agent, turn, session, TurnEventView::Failed(failure));
            exists|message: Seq<char>|
                #![auto]
                next.effects.contains(
                    EffectView::Emit(
                        AgentEventView::ConnectionRetry {
                            attempt: next.turn.attempt,
                            max_attempts: agent.provider_retry_count,
                            delay_ms: next.action->delay_ms,
                            message,
                        },
                    ),
                )
        }),
{
    reveal(stepped);
    reveal(request_failed);
    let next = stepped(agent, turn, session, TurnEventView::Failed(failure));
    let message = next.effects[1]->Emit_0->ConnectionRetry_message;
    assert(next.effects[1] == EffectView::Emit(
        AgentEventView::ConnectionRetry {
            attempt: next.turn.attempt,
            max_attempts: agent.provider_retry_count,
            delay_ms: next.action->delay_ms,
            message,
        },
    ));
    assert(next.effects.contains(next.effects[1]));
}

/// A refused call is told as failed with the reason for which it was refused.
pub proof fn refusals_are_told(invalid: Seq<InvalidToolCallView>, call: InvalidToolCallView)
    ensures
        ({
            let told = refusals(invalid.push(call));
            &&& told.len() == refusals(invalid).len() + 2
            &&& refusals(invalid).is_prefix_of(told)
            &&& told[told.len() - 2] is Emit && told[told.len() - 2]->Emit_0 is ToolStarted
                && told[told.len() - 2]->Emit_0->ToolStarted_0.name == call.name
            &&& told.last() is Emit && told.last()->Emit_0 is ToolFinished
                && told.last()->Emit_0->ToolFinished_call.id == call.id
                && !told.last()->Emit_0->ToolFinished_result.success && crate::text::ends_with(
                told.last()->Emit_0->ToolFinished_result.output,
                call.reason,
            )
        }),
{
    assert(invalid.push(call).drop_last() =~= invalid);
    crate::text_laws::parts_are_contained(
        "工具参数纠正后仍未通过校验，已阻止执行。"@,
        call.reason,
        Seq::empty(),
    );
}

/// A round of a controlled turn waits at a safe point first, and that of another is prepared at
/// once; the request of a round is told with its model and its number, and starts without a try
/// behind it.
pub proof fn rounds_start_as_they_should(
    agent: AgentView,
    turn: TurnView,
    session: SessionView,
    messages: Seq<ChatMessageView>,
    status: ContextStatus,
)
    ensures
        turn.phase == TurnPhase::TurnHook && turn.round < agent.max_tool_rounds ==> ({
            let next = stepped(agent, turn, session, TurnEventView::HookSilent);
            &&& agent.turn_control ==> next.action is AwaitSafePoint && next.turn.phase
                == TurnPhase::SafePoint
            &&& !agent.turn_control ==> next.action is Prepare && next.turn.phase
                == TurnPhase::Prepare
            &&& agent.checkpoint ==> next.effects.contains(EffectView::Checkpoint)
        }),
        turn.phase == TurnPhase::Prepare && !agent.force_compaction ==> ({
            let next = stepped(
                agent,
                turn,
                session,
                TurnEventView::Prepared { messages, status, should_compact: false },
            );
            &&& next.effects.contains(
                EffectView::Emit(
                    AgentEventView::ModelStarted {
                        provider: turn.provider,
                        model: turn.model,
                        round: turn.round,
                    },
                ),
            )
            &&& next.effects.contains(EffectView::Emit(AgentEventView::ContextUpdated(status)))
            &&& next.turn.attempt == 0 && !next.turn.stripped && next.turn.phase
                == TurnPhase::Send
            &&& next.turn.round == turn.round
        }),
{
    reveal(stepped);
    reveal(hook_done);
    reveal(starting_round);
    reveal(prepared);
    reveal(sending);
    if turn.phase == TurnPhase::TurnHook && turn.round < agent.max_tool_rounds {
        let next = stepped(agent, turn, session, TurnEventView::HookSilent);
        if agent.checkpoint {
            assert(next.effects[0] == EffectView::Checkpoint);
        }
    }
    if turn.phase == TurnPhase::Prepare && !agent.force_compaction {
        let next = stepped(
            agent,
            turn,
            session,
            TurnEventView::Prepared { messages, status, should_compact: false },
        );
        assert(next.effects[0] == EffectView::Emit(AgentEventView::ContextUpdated(status)));
        assert(next.effects[1] == EffectView::Emit(
            AgentEventView::ModelStarted {
                provider: turn.provider,
                model: turn.model,
                round: turn.round,
            },
        ));
    }
}

/// The tokens of a reply are told, those of the request and those of the session with it.
pub proof fn tokens_of_replies_are_told(
    agent: AgentView,
    turn: TurnView,
    session: SessionView,
    response: ModelResponseView,
)
    requires
        turn.phase == TurnPhase::Send,
    ensures
        ({
            let next = stepped(agent, turn, session, TurnEventView::Replied(response));
            next.effects.contains(
                EffectView::Emit(
                    AgentEventView::ModelUsage {
                        total: next.session.usage,
                        request: response.usage,
                    },
                ),
            )
        }),
{
    reveal(stepped);
    reveal(replied);
    let next = stepped(agent, turn, session, TurnEventView::Replied(response));
    assert(next.effects[0] is Emit);
    assert(next.effects.contains(next.effects[0]));
}

proof fn bookings_of_a_batch(
    failures: Seq<ToolFailureView>,
    calls: Seq<ScheduledCallView>,
    results: Seq<ToolResultView>,
    i: int,
)
    requires
        0 <= i < results.len(),
        results.len() <= calls.len(),
        forall|k: int|
            0 <= k < results.len() && k != i ==> (#[trigger] calls[k]).fingerprint
                != calls[i].fingerprint,
    ensures
        ({
            let before = failure_of(failures, calls[i].fingerprint);
            let now = failure_of(
                failures_after_all(failures, calls, results),
                calls[i].fingerprint,
            );
            &&& results[i].success ==> now.executions == 0 && !now.requires_changed_call
            &&& !results[i].success && calls[i].mode is Blocked ==> now == before
            &&& !results[i].success && !(calls[i].mode is Blocked) && before.executions < 255
                ==> now.executions == before.executions + 1
        }),
    decreases results.len(),
{
    let last = results.len() - 1;
    let shorter = results.drop_last();
    let earlier = failures_after_all(failures, calls, shorter);
    let mark = calls[i].fingerprint;
    crate::tools::booking_touches_one_call(
        earlier,
        calls[last].fingerprint,
        !(calls[last].mode is Blocked),
        results.last().success,
        results.last().output,
        mark,
    );
    if i < last {
        assert(calls[last].fingerprint != mark);
        bookings_of_a_batch(failures, calls, shorter, i);
    } else {
        untouched_marks(failures, calls, shorter, mark);
    }
}

proof fn untouched_marks(
    failures: Seq<ToolFailureView>,
    calls: Seq<ScheduledCallView>,
    results: Seq<ToolResultView>,
    mark: Seq<char>,
)
    requires
        results.len() <= calls.len(),
        forall|k: int| 0 <= k < results.len() ==> (#[trigger] calls[k]).fingerprint != mark,
    ensures
        failure_of(failures_after_all(failures, calls, results), mark) == failure_of(
            failures,
            mark,
        ),
    decreases results.len(),
{
    if results.len() > 0 {
        let last = results.len() - 1;
        assert(calls[last].fingerprint != mark);
        untouched_marks(failures, calls, results.drop_last(), mark);
        crate::tools::booking_touches_one_call(
            failures_after_all(failures, calls, results.drop_last()),
            calls[last].fingerprint,
            !(calls[last].mode is Blocked),
            results.last().success,
            results.last().output,
            mark,
        );
    }
}

/// A turn remembers of each call of a batch whether it failed: a failed run counts, a success
/// clears, and a call that was held back counts nothing.
pub proof fn failed_calls_are_remembered(
    agent: AgentView,
    turn: TurnView,
    session: SessionView,
    results: Seq<ToolResultView>,
    i: int,
)
    requires
        turn.phase == TurnPhase::Tools,
        results.len() == turn.scheduled.len(),
        0 <= i < results.len(),
        forall|k: int|
            0 <= k < results.len() && k != i ==> (#[trigger] turn.scheduled[k]).fingerprint
                != turn.scheduled[i].fingerprint,
    ensures
        ({
            let next = stepped(agent, turn, session, TurnEventView::ToolsDone(results)).turn;
            let mark = turn.scheduled[i].fingerprint;
            let before = failure_of(turn.failures, mark);
            let now = failure_of(next.failures, mark);
            &&& turn.scheduled[i].mode is Blocked ==> now == before
            &&& !(turn.scheduled[i].mode is Blocked) && results[i].success ==> now.executions == 0
                && !now.requires_changed_call
            &&& !(turn.scheduled[i].mode is Blocked) && !results[i].success && before.executions
                < 255 ==> now.executions == before.executions + 1
        }),
{
    reveal(stepped);
    reveal(tools_done);
    reveal(starting_round);
    let all = crate::turn::all_delivered(turn.scheduled, results);
    bookings_of_a_batch(turn.failures, turn.scheduled, all, i);
}

} // verus!
