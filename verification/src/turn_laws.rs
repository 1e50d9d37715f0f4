//! What holds of every turn, whatever the provider, the tools and the user do.

use vstd::prelude::*;
use crate::agent::AgentView;
use crate::events::ContextStatus;
use crate::failure::retry_delay_is_bounded;
use crate::failure::ProviderFailureView;
use crate::session::internal_message;
use crate::session::tool_message;
use crate::session::ChatMessageView;
use crate::session::ModelResponseView;
use crate::session::Role;
use crate::session::SessionView;
use crate::session::ToolResultView;
use crate::tools::correction_request;
use crate::tools::CallFactsView;
use crate::tools::ScheduledCallView;
use crate::turn::awaits_hook;
use crate::turn::all_delivered;
use crate::turn::failures_after_all;
use crate::turn::has_images;
use crate::turn::hook_done;
use crate::turn::prepared;
use crate::turn::recovery_reply;
use crate::turn::replied;
use crate::turn::request_failed;
use crate::turn::request_for;
use crate::turn::result_text;
use crate::turn::routed;
use crate::turn::sending;
use crate::turn::session_after;
use crate::turn::session_after_result;
use crate::turn::starting_round;
use crate::turn::stepped;
use crate::turn::tools_done;
use crate::turn::with_context;
use crate::turn::with_message;
use crate::turn::with_queued;
use crate::turn::HookKind;
use crate::turn::Outcome;
use crate::turn::TurnActionView;
use crate::turn::TurnEventView;
use crate::turn::TurnPhase;
use crate::turn::TurnView;

verus! {

/// How often a request is sent when it fails with `failures`, one after the other. The turn
/// is about to send.
pub open spec fn sends(
    agent: AgentView,
    turn: TurnView,
    session: SessionView,
    failures: Seq<ProviderFailureView>,
) -> nat
    decreases failures.len(),
{
    if failures.len() == 0 {
        1
    } else {
        let next = request_failed(agent, turn, session, failures[0]);
        match next.action {
            TurnActionView::Send => 1 + sends(agent, next.turn, session, failures.skip(1)),
            TurnActionView::Wait { .. } => 1 + sends(
                agent,
                TurnView { phase: TurnPhase::Send, ..next.turn },
                session,
                failures.skip(1),
            ),
            _ => 1,
        }
    }
}

/// A request is made again at most as often as the agent allows, and once more without
/// images.
pub proof fn requests_are_sent_a_bounded_number_of_times(
    agent: AgentView,
    turn: TurnView,
    session: SessionView,
    failures: Seq<ProviderFailureView>,
)
    requires
        turn.attempt <= agent.provider_retry_count,
    ensures
        sends(agent, turn, session, failures) <= 1 + (agent.provider_retry_count - turn.attempt) + (
        if turn.stripped {
            0int
        } else {
            1int
        }),
    decreases failures.len(),
{
    reveal(request_failed);
    if failures.len() > 0 {
        let next = request_failed(agent, turn, session, failures[0]);
        match next.action {
            TurnActionView::Send => {
                requests_are_sent_a_bounded_number_of_times(
                    agent,
                    next.turn,
                    session,
                    failures.skip(1),
                );
            },
            TurnActionView::Wait { .. } => {
                requests_are_sent_a_bounded_number_of_times(
                    agent,
                    TurnView { phase: TurnPhase::Send, ..next.turn },
                    session,
                    failures.skip(1),
                );
            },
            _ => {},
        }
    }
}

/// What a step keeps, whatever it does.
pub open spec fn keeps(
    agent: AgentView,
    turn: TurnView,
    session: SessionView,
    next: Outcome,
) -> bool {
    &&& turn.round <= next.turn.round <= turn.round + 1
    &&& turn.round <= agent.max_tool_rounds ==> next.turn.round <= agent.max_tool_rounds
    &&& turn.compacted ==> next.turn.compacted
    &&& turn.corrected ==> next.turn.corrected
    &&& !turn.replay ==> !next.turn.replay
    &&& session.hooks_started ==> next.session.hooks_started
    &&& session.hooks_started ==> next.action != TurnActionView::RunHook(HookKind::SessionStart)
    &&& (next.turn.phase == TurnPhase::Done) <==> (next.action is Finish || next.action is Fail)
}

/// A start of a round keeps what a step keeps, and the history.
proof fn starting_round_keeps(agent: AgentView, turn: TurnView, session: SessionView)
    ensures
        keeps(agent, turn, session, starting_round(agent, turn, session)),
        starting_round(agent, turn, session).session == session,
        !(starting_round(agent, turn, session).action is Wait),
        !(starting_round(agent, turn, session).action is Compact),
        !(starting_round(agent, turn, session).action is Send),
        !(starting_round(agent, turn, session).action is RunTools),
        starting_round(agent, turn, session).turn.scheduled == turn.scheduled,
        starting_round(agent, turn, session).turn.corrected == turn.corrected,
{
    reveal(starting_round);
}

/// Sending keeps what a step keeps, and the history.
proof fn sending_keeps(agent: AgentView, turn: TurnView, session: SessionView)
    ensures
        keeps(agent, turn, session, sending(agent, turn, session)),
        sending(agent, turn, session).session == session,
        sending(agent, turn, session).action is Send,
        !turn.replay ==> !has_images(sending(agent, turn, session).turn.request.messages),
{
    reveal(sending);
    reveal(request_for);
}

/// Putting the history in order keeps what a step keeps.
proof fn prepared_keeps(
    agent: AgentView,
    turn: TurnView,
    session: SessionView,
    messages: Seq<ChatMessageView>,
    status: ContextStatus,
    should_compact: bool,
)
    ensures
        keeps(
            agent,
            turn,
            session,
            prepared(agent, turn, session, messages, status, should_compact),
        ),
        !(prepared(agent, turn, session, messages, status, should_compact).action is Wait),
        !turn.replay && prepared(
            agent,
            turn,
            session,
            messages,
            status,
            should_compact,
        ).action is Send ==> !has_images(
            prepared(
                agent,
                turn,
                session,
                messages,
                status,
                should_compact,
            ).turn.request.messages,
        ),
{
    reveal(prepared);
    sending_keeps(agent, turn, SessionView { messages, ..session });
}

/// A failed request keeps what a step keeps, and the session.
proof fn request_failed_keeps(
    agent: AgentView,
    turn: TurnView,
    session: SessionView,
    failure: ProviderFailureView,
)
    requires
        turn.phase == TurnPhase::Send,
    ensures
        keeps(agent, turn, session, request_failed(agent, turn, session, failure)),
        request_failed(agent, turn, session, failure).session == session,
        turn.compacted ==> !(request_failed(agent, turn, session, failure).action is Compact),
        agent.valid() ==> match request_failed(agent, turn, session, failure).action {
            TurnActionView::Wait { delay_ms } => delay_ms <= agent.reconnect_max_delay_ms,
            _ => true,
        },
{
    reveal(request_failed);
    if agent.valid() {
        retry_delay_is_bounded(
            failure,
            (turn.attempt + 1) as nat,
            agent.reconnect_initial_delay_ms as nat,
            agent.reconnect_max_delay_ms as nat,
        );
    }
}

/// A reply keeps what a step keeps, and appends to the history.
proof fn replied_keeps(
    agent: AgentView,
    turn: TurnView,
    session: SessionView,
    response: ModelResponseView,
)
    ensures
        keeps(agent, turn, session, replied(agent, turn, session, response)),
        session.messages.is_prefix_of(replied(agent, turn, session, response).session.messages),
        replied(agent, turn, session, response).action is Observe,
{
    reveal(replied);
}

/// Acting on a reply keeps what a step keeps, and appends to the history.
proof fn routed_keeps(
    agent: AgentView,
    turn: TurnView,
    session: SessionView,
    facts: Seq<CallFactsView>,
)
    requires
        turn.phase == TurnPhase::Observe,
    ensures
        keeps(agent, turn, session, routed(agent, turn, session, facts)),
        session.messages.is_prefix_of(routed(agent, turn, session, facts).session.messages),
        !(routed(agent, turn, session, facts).action is Wait),
        !(routed(agent, turn, session, facts).action is Send),
{
    reveal(routed);
    let asked = with_message(
        session,
        internal_message(correction_request(turn.response.invalid_tool_calls, turn.tools)),
    );
    starting_round_keeps(agent, TurnView { corrected: true, ..turn }, asked);
}

/// Results leave the mark of the session hook.
proof fn hooks_flag_is_kept(
    session: SessionView,
    calls: Seq<ScheduledCallView>,
    results: Seq<ToolResultView>,
)
    ensures
        session_after(session, calls, results).hooks_started == session.hooks_started,
    decreases results.len(),
{
    if results.len() > 0 {
        hooks_flag_is_kept(session, calls, results.drop_last());
        reveal(session_after_result);
    }
}

/// A batch of results keeps what a step keeps, and appends to the history.
proof fn tools_done_keeps(
    agent: AgentView,
    turn: TurnView,
    session: SessionView,
    results: Seq<ToolResultView>,
)
    requires
        turn.phase == TurnPhase::Tools,
        results.len() == turn.scheduled.len(),
    ensures
        keeps(agent, turn, session, tools_done(agent, turn, session, results)),
        session.messages.is_prefix_of(tools_done(agent, turn, session, results).session.messages),
        !(tools_done(agent, turn, session, results).action is Wait),
        !(tools_done(agent, turn, session, results).action is Send),
{
    reveal(tools_done);
    let all = all_delivered(turn.scheduled, results);
    hooks_flag_is_kept(session, turn.scheduled, all);
    results_answer_calls_in_order(session, turn.scheduled, all);
    starting_round_keeps(
        agent,
        TurnView { failures: failures_after_all(turn.failures, turn.scheduled, all), ..turn },
        session_after(session, turn.scheduled, all),
    );
}

/// A hook keeps what a step keeps, and appends to the history.
proof fn hook_done_keeps(
    agent: AgentView,
    turn: TurnView,
    session: SessionView,
    context: Seq<char>,
)
    requires
        awaits_hook(turn.phase),
    ensures
        keeps(agent, turn, session, hook_done(agent, turn, session, context)),
        session.messages.is_prefix_of(hook_done(agent, turn, session, context).session.messages),
        !(hook_done(agent, turn, session, context).action is Wait),
        !(hook_done(agent, turn, session, context).action is Send),
{
    reveal(hook_done);
    starting_round_keeps(
        agent,
        turn,
        with_message(with_context(session, context), turn.prompt),
    );
}

/// A step keeps what `keeps` says; only putting the history in order replaces it; a wait
/// never passes the longest wait; a request too long is summarised at most once; images that
/// were refused stay out of new requests.
proof fn step_keeps(agent: AgentView, turn: TurnView, session: SessionView, event: TurnEventView)
    requires
        turn.phase != TurnPhase::Done,
    ensures
        ({
            let next = stepped(agent, turn, session, event);
            &&& keeps(agent, turn, session, next)
            &&& !(event is Prepared) ==> session.messages.is_prefix_of(next.session.messages)
            &&& turn.compacted && event is Failed ==> !(next.action is Compact)
            &&& agent.valid() ==> match next.action {
                TurnActionView::Wait { delay_ms } => delay_ms <= agent.reconnect_max_delay_ms,
                _ => true,
            }
            &&& !turn.replay && turn.phase != TurnPhase::Send && turn.phase != TurnPhase::Backoff
                && next.action is Send ==> !has_images(next.turn.request.messages)
        }),
{
    reveal(stepped);
    match event {
        TurnEventView::HookSilent => {
            if awaits_hook(turn.phase) {
                hook_done_keeps(agent, turn, session, Seq::empty());
            }
        },
        TurnEventView::HookContext(context) => {
            if awaits_hook(turn.phase) {
                hook_done_keeps(agent, turn, session, context);
            }
        },
        TurnEventView::Prepared { messages, status, should_compact } => {
            prepared_keeps(agent, turn, session, messages, status, should_compact);
        },
        TurnEventView::Compacted => {
            sending_keeps(agent, turn, session);
            starting_round_keeps(agent, turn, session);
        },
        TurnEventView::Replied(response) => {
            replied_keeps(agent, turn, session, response);
        },
        TurnEventView::Failed(failure) => {
            if turn.phase == TurnPhase::Send {
                request_failed_keeps(agent, turn, session, failure);
            }
        },
        TurnEventView::Observed { status, facts } => {
            if turn.phase == TurnPhase::Observe {
                routed_keeps(agent, turn, session, facts);
            }
        },
        TurnEventView::ToolsDone(results) => {
            if turn.phase == TurnPhase::Tools && results.len() == turn.scheduled.len() {
                tools_done_keeps(agent, turn, session, results);
            }
        },
        TurnEventView::Queued(waiting) => {
            starting_round_keeps(agent, turn, with_queued(session, waiting));
        },
        _ => {},
    }
}

/// A wait before a request is made again never passes the longest wait of the agent.
pub proof fn waits_are_bounded(
    agent: AgentView,
    turn: TurnView,
    session: SessionView,
    event: TurnEventView,
)
    requires
        agent.valid(),
    ensures
        match stepped(agent, turn, session, event).action {
            TurnActionView::Wait { delay_ms } => delay_ms <= agent.reconnect_max_delay_ms,
            _ => true,
        },
{
    if turn.phase == TurnPhase::Done {
        an_ended_turn_stays_ended(agent, turn, session, event);
    } else {
        step_keeps(agent, turn, session, event);
    }
}

/// No turn makes more rounds than the agent allows, and no step starts more than one.
pub proof fn rounds_are_bounded(
    agent: AgentView,
    turn: TurnView,
    session: SessionView,
    event: TurnEventView,
)
    requires
        turn.round <= agent.max_tool_rounds,
    ensures
        stepped(agent, turn, session, event).turn.round <= agent.max_tool_rounds,
        turn.round <= stepped(agent, turn, session, event).turn.round <= turn.round + 1,
{
    if turn.phase == TurnPhase::Done {
        an_ended_turn_stays_ended(agent, turn, session, event);
    } else {
        step_keeps(agent, turn, session, event);
    }
}

/// A turn that has ended stays as it is.
pub proof fn an_ended_turn_stays_ended(
    agent: AgentView,
    turn: TurnView,
    session: SessionView,
    event: TurnEventView,
)
    requires
        turn.phase == TurnPhase::Done,
    ensures
        stepped(agent, turn, session, event).turn == turn,
        stepped(agent, turn, session, event).session == session,
        stepped(agent, turn, session, event).effects.len() == 0,
        stepped(agent, turn, session, event).action is Rejected,
{
    reveal(stepped);
}

/// A turn ends exactly where the caller is told that it ended.
pub proof fn ending_is_announced(
    agent: AgentView,
    turn: TurnView,
    session: SessionView,
    event: TurnEventView,
)
    requires
        turn.phase != TurnPhase::Done,
    ensures
        ({
            let next = stepped(agent, turn, session, event);
            (next.turn.phase == TurnPhase::Done) <==> (next.action is Finish || next.action is Fail)
        }),
{
    step_keeps(agent, turn, session, event);
}

/// A request that is too long has the history summarised at most once in a turn.
pub proof fn overflow_is_compacted_once(
    agent: AgentView,
    turn: TurnView,
    session: SessionView,
    event: TurnEventView,
)
    requires
        turn.compacted,
    ensures
        stepped(agent, turn, session, event).turn.compacted,
        event is Failed ==> !(stepped(agent, turn, session, event).action is Compact),
{
    if turn.phase == TurnPhase::Done {
        an_ended_turn_stays_ended(agent, turn, session, event);
    } else {
        step_keeps(agent, turn, session, event);
    }
}

/// Once the model refused images, no later request of the turn carries them.
pub proof fn refused_images_stay_out(
    agent: AgentView,
    turn: TurnView,
    session: SessionView,
    event: TurnEventView,
)
    requires
        !turn.replay,
    ensures
        !stepped(agent, turn, session, event).turn.replay,
        turn.phase != TurnPhase::Send && turn.phase != TurnPhase::Backoff && stepped(
            agent,
            turn,
            session,
            event,
        ).action is Send ==> !has_images(
            stepped(agent, turn, session, event).turn.request.messages,
        ),
{
    if turn.phase == TurnPhase::Done {
        an_ended_turn_stays_ended(agent, turn, session, event);
    } else {
        step_keeps(agent, turn, session, event);
    }
}

/// A request that is made again because the model refused images carries none.
pub proof fn a_retry_without_images_has_none(
    agent: AgentView,
    turn: TurnView,
    session: SessionView,
    failure: ProviderFailureView,
)
    requires
        turn.phase == TurnPhase::Send,
        stepped(agent, turn, session, TurnEventView::Failed(failure)).action is Send,
    ensures
        ({
            let next = stepped(agent, turn, session, TurnEventView::Failed(failure)).turn;
            !has_images(next.request.messages) && !next.replay && next.stripped
        }),
{
    reveal(stepped);
    reveal(request_failed);
}

/// A reply with an invalid call never has a tool run, leaves no call in the history, is
/// corrected once, and ends the turn with a fixed reply the second time.
pub proof fn invalid_calls_are_corrected_once_and_never_run(
    agent: AgentView,
    turn: TurnView,
    session: SessionView,
    facts: Seq<CallFactsView>,
)
    requires
        turn.response.invalid_tool_calls.len() > 0,
    ensures
        !(routed(agent, turn, session, facts).action is RunTools),
        crate::turn::recorded_calls(turn.response).len() == 0,
        routed(agent, turn, session, facts).turn.scheduled == turn.scheduled,
        turn.corrected ==> routed(agent, turn, session, facts).action == TurnActionView::Finish(
            recovery_reply(),
        ),
        !turn.corrected ==> routed(agent, turn, session, facts).turn.corrected,
{
    reveal(routed);
    let asked = with_message(
        session,
        internal_message(correction_request(turn.response.invalid_tool_calls, turn.tools)),
    );
    starting_round_keeps(agent, TurnView { corrected: true, ..turn }, asked);
}

/// Messages of tools.
pub open spec fn answers(messages: Seq<ChatMessageView>) -> Seq<ChatMessageView>
    decreases messages.len(),
{
    if messages.len() == 0 {
        Seq::empty()
    } else if messages.last().role == Role::Tool {
        answers(messages.drop_last()).push(messages.last())
    } else {
        answers(messages.drop_last())
    }
}

/// The message that answers each call of a batch.
pub open spec fn expected_answers(
    calls: Seq<ScheduledCallView>,
    results: Seq<ToolResultView>,
) -> Seq<ChatMessageView> {
    Seq::new(
        results.len(),
        |i: int| tool_message(calls[i].call.id, result_text(results[i]), results[i].images),
    )
}

/// One result appends one answer.
proof fn result_answers_once(
    session: SessionView,
    call: crate::session::ToolCallView,
    result: ToolResultView,
)
    ensures
        session.messages.is_prefix_of(session_after_result(session, call, result).messages),
        answers(session_after_result(session, call, result).messages) == answers(
            session.messages,
        ).push(tool_message(call.id, result_text(result), result.images)),
{
    reveal(session_after_result);
    let answer = tool_message(call.id, result_text(result), result.images);
    let answered = session.messages.push(answer);
    assert(answered.drop_last() =~= session.messages);
    assert(answers(answered) == answers(session.messages).push(answer));
    let all = session_after_result(session, call, result).messages;
    if all != answered {
        assert(all.drop_last() =~= answered);
        assert(all.last().role == Role::User);
    }
}

/// Every call of a batch is answered exactly once, in the order of the calls, whatever order
/// they ran in; nothing else in the history changes.
pub proof fn results_answer_calls_in_order(
    session: SessionView,
    calls: Seq<ScheduledCallView>,
    results: Seq<ToolResultView>,
)
    requires
        results.len() <= calls.len(),
    ensures
        session.messages.is_prefix_of(session_after(session, calls, results).messages),
        answers(session_after(session, calls, results).messages) == answers(session.messages)
            + expected_answers(calls, results),
    decreases results.len(),
{
    if results.len() == 0 {
        assert(expected_answers(calls, results) =~= Seq::<ChatMessageView>::empty());
    } else {
        let before = results.drop_last();
        results_answer_calls_in_order(session, calls, before);
        let middle = session_after(session, calls, before);
        let last = calls[results.len() - 1];
        result_answers_once(middle, last.call, results.last());
        assert(expected_answers(calls, results) =~= expected_answers(calls, before).push(
            tool_message(last.call.id, result_text(results.last()), results.last().images),
        ));
        assert(answers(session_after(session, calls, results).messages) =~= answers(
            session.messages,
        ) + expected_answers(calls, results));
    }
}

/// Apart from putting the history in order, a step only appends to it.
pub proof fn history_only_grows(
    agent: AgentView,
    turn: TurnView,
    session: SessionView,
    event: TurnEventView,
)
    requires
        !(event is Prepared),
    ensures
        session.messages.is_prefix_of(stepped(agent, turn, session, event).session.messages),
{
    if turn.phase == TurnPhase::Done {
        an_ended_turn_stays_ended(agent, turn, session, event);
    } else {
        step_keeps(agent, turn, session, event);
    }
}

/// The hook that opens a session runs once: a step never asks for it again.
pub proof fn session_hook_runs_once(
    agent: AgentView,
    turn: TurnView,
    session: SessionView,
    event: TurnEventView,
)
    requires
        session.hooks_started,
    ensures
        stepped(agent, turn, session, event).session.hooks_started,
        stepped(agent, turn, session, event).action != TurnActionView::RunHook(
            HookKind::SessionStart,
        ),
{
    if turn.phase == TurnPhase::Done {
        an_ended_turn_stays_ended(agent, turn, session, event);
    } else {
        step_keeps(agent, turn, session, event);
    }
}

} // verus!
