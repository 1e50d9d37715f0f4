//! What failures, accounts and reports of delegated tasks are for.

use vstd::prelude::*;
use vstd::arithmetic::power2::pow2;
use crate::access::approval_sought;
use crate::access::files_sought;
use crate::access::questions_put;
use crate::access::FileTransferRequestView;
use crate::accounting::account_effects;
use crate::accounting::accounted;
use crate::accounting::error_of;
use crate::accounting::result_after_hook;
use crate::accounting::session_after_hook;
use crate::accounting::session_start_data;
use crate::accounting::turn_end_data;
use crate::accounting::turn_start_data;
use crate::accounting::HookReplyView;
use crate::accounting::TurnResultView;
use crate::agents::all_ended;
use crate::agents::ended;
use crate::agents::find_record;
use crate::agents::heard;
use crate::agents::snapshot_data;
use crate::agents::summary_text;
use crate::agents::updated_record;
use crate::agents::user_positions;
use crate::agents::wait_limit;
use crate::agents::AgentRecordView;
use crate::agents::AgentSchedulerView;
use crate::agents::AgentSnapshotView;
use crate::events::AgentEventView;
use crate::events::EffectView;
use crate::failure::delay_before_retry;
use crate::failure::error_text;
use crate::failure::hits_usage_limit;
use crate::failure::jitter;
use crate::failure::overflows_context;
use crate::failure::passes_by_itself;
use crate::failure::refuses_images;
use crate::failure::AgentErrorView;
use crate::failure::ProviderFailureView;
use crate::failure::ProviderRequestErrorView;
use crate::json::member;
use crate::json::JsonView;
use crate::numbers::decimal;
use crate::session::ChatMessageView;
use crate::session::LoopStateView;
use crate::session::LoopStatus;
use crate::session::Role;
use crate::session::SessionView;
use crate::session::TokenUsage;
use crate::session::ToolCallView;
use crate::session::ToolSpecView;
use crate::task::SessionTaskView;
use crate::text::contains;
use crate::text::ends_with;
use crate::text::is_blank;
use crate::text::joined;
use crate::text::lower;
use crate::text_laws::contained_in_contained;
use crate::text_laws::joined_holds_its_parts;
use crate::text_laws::member_at;
use crate::text_laws::parts_are_contained;
use crate::tools::asks_for_change;
use crate::tools::failure_of;
use crate::tools::failures_after;
use crate::tools::find_spec;
use crate::tools::truncated;
use crate::tools::ToolFailureView;

verus! {

// ---------------------------------------------------------------------------
// Failures
// ---------------------------------------------------------------------------

/// An error tells what failed and with which message.
pub proof fn errors_tell_their_message(failure: ProviderFailureView, message: Seq<char>, limit: usize)
    ensures
        ends_with(error_text(AgentErrorView::Provider(failure)), failure.message),
        ends_with(error_text(AgentErrorView::Compaction(failure)), failure.message),
        ends_with(error_text(AgentErrorView::Hook(message)), message),
        ends_with(error_text(AgentErrorView::Control(message)), message),
        contains(error_text(AgentErrorView::ToolRoundLimit { limit }), decimal(limit as nat)),
        contains(
            error_text(AgentErrorView::ToolRoundLimit { limit }),
            "tool round limit reached"@,
        ),
        error_text(AgentErrorView::Provider(failure)) != error_text(
            AgentErrorView::Compaction(failure),
        ),
{
    parts_are_contained("provider request failed: "@, failure.message, Seq::empty());
    parts_are_contained("context compaction failed: "@, failure.message, Seq::empty());
    parts_are_contained("hook failed: "@, message, Seq::empty());
    parts_are_contained("task control failed: "@, message, Seq::empty());
    let start = "tool round limit reached ("@;
    parts_are_contained(start, decimal(limit as nat), ")"@);
    reveal_strlit("tool round limit reached (");
    reveal_strlit("tool round limit reached");
    let text = "tool round limit reached"@;
    let rest = seq![' ', '('] + decimal(limit as nat) + ")"@;
    parts_are_contained(Seq::empty(), text, rest);
    assert(Seq::<char>::empty() + text + rest =~= start + decimal(limit as nat) + ")"@);
    reveal_strlit("provider request failed: ");
    reveal_strlit("context compaction failed: ");
    assert(error_text(AgentErrorView::Provider(failure))[0] == 'p');
    assert(error_text(AgentErrorView::Compaction(failure))[0] == 'c');
}

/// A provider that says whether a request may be repeated is believed; without such word the
/// text of the failure decides, in any case of its letters.
pub proof fn failures_are_judged_by_what_they_say(
    failure: ProviderFailureView,
    request: ProviderRequestErrorView,
)
    ensures
        passes_by_itself(ProviderFailureView { request: Some(request), ..failure })
            == request.retryable,
        failure.request is None && contains(lower(failure.message), "http 401"@)
            ==> !passes_by_itself(failure),
        failure.request is None && contains(lower(failure.message), "timed out"@) && !contains(
            lower(failure.message),
            "http 400"@,
        ) && !contains(lower(failure.message), "http 401"@) && !contains(
            lower(failure.message),
            "http 402"@,
        ) && !contains(lower(failure.message), "http 403"@) && !contains(
            lower(failure.message),
            "http 404"@,
        ) ==> passes_by_itself(failure),
        contains(lower(failure.message), "image_url"@) ==> refuses_images(failure),
        contains(lower(failure.message), "multimodal"@) ==> refuses_images(failure),
        contains(lower(failure.chain), "context length"@) ==> overflows_context(failure),
        contains(lower(failure.chain), "maximum context"@) ==> overflows_context(failure),
        contains(lower(failure.message), "quota"@) ==> hits_usage_limit(
            AgentErrorView::Provider(failure),
        ),
        contains(lower(failure.message), "rate limit"@) ==> hits_usage_limit(
            AgentErrorView::Provider(failure),
        ),
{
    reveal(passes_by_itself);
    reveal(refuses_images);
    reveal(overflows_context);
    reveal(hits_usage_limit);
    let start = "provider request failed: "@;
    let whole = start + failure.message;
    assert(lower(whole) =~= lower(start) + lower(failure.message));
    parts_are_contained(lower(start), lower(failure.message), Seq::empty());
    assert(lower(whole) + Seq::<char>::empty() =~= lower(whole));
    if contains(lower(failure.message), "quota"@) {
        contained_in_contained(lower(whole), lower(failure.message), "quota"@);
    }
    if contains(lower(failure.message), "rate limit"@) {
        contained_in_contained(lower(whole), lower(failure.message), "rate limit"@);
    }
}

/// A failure that says nothing of all this is none of it.
pub proof fn silent_failures_are_final(failure: ProviderFailureView)
    requires
        failure.message.len() == 0,
        failure.chain.len() == 0,
        failure.request is None,
    ensures
        !passes_by_itself(failure),
        !refuses_images(failure),
        !overflows_context(failure),
{
    reveal(passes_by_itself);
    reveal(refuses_images);
    reveal(overflows_context);
    reveal_strlit("image_url");
    reveal_strlit("input_image");
    reveal_strlit("inline_data");
    reveal_strlit("media_type");
    reveal_strlit("multimodal");
    reveal_strlit("vision is not supported");
    reveal_strlit("image input is not supported");
    reveal_strlit("expected `text`");
    reveal_strlit("context_window_exceeded");
    reveal_strlit("context length");
    reveal_strlit("maximum context");
    reveal_strlit("too many tokens");
    reveal_strlit("timed out");
    reveal_strlit("timeout");
    reveal_strlit("connection");
    reveal_strlit("dns");
    reveal_strlit("reset");
    reveal_strlit("broken pipe");
    reveal_strlit("stream failed");
    reveal_strlit("502");
    reveal_strlit("503");
    reveal_strlit("504");
    reveal_strlit("429");
    reveal_strlit("temporarily unavailable");
    assert(lower(failure.message).len() == 0 && lower(failure.chain).len() == 0);
}

/// Before a request is repeated, the wait that the provider asked for is kept; where it asked
/// for none, the first wait is the initial one and a little more, and each further one twice as
/// long, up to the longest.
pub proof fn waits_double(failure: ProviderFailureView, asked: u64, initial: nat, longest: nat)
    requires
        500 <= initial <= longest <= 120_000,
    ensures
        failure.request matches Some(request) && request.retry_after_ms == Some(asked) && initial
            <= asked <= longest ==> delay_before_retry(failure, 1, initial, longest) == asked,
        50 <= jitter(failure.message) <= 300,
        failure.request is None && initial + jitter(failure.message) <= longest
            ==> delay_before_retry(failure, 1, initial, longest) == initial + jitter(
            failure.message,
        ),
        failure.request is None && 2 * initial + jitter(failure.message) <= longest
            ==> delay_before_retry(failure, 2, initial, longest) == 2 * initial + jitter(
            failure.message,
        ),
        failure.request is None && 4 * initial + jitter(failure.message) <= longest
            ==> delay_before_retry(failure, 3, initial, longest) == 4 * initial + jitter(
            failure.message,
        ),
        failure.request is None && initial >= longest ==> delay_before_retry(
            failure,
            1,
            initial,
            longest,
        ) == longest,
{
    reveal(delay_before_retry);
    vstd::arithmetic::power2::lemma2_to64();
    assert(initial * pow2(0) == initial) by (nonlinear_arith)
        requires
            pow2(0) == 1,
    ;
    assert(initial * pow2(1) == 2 * initial) by (nonlinear_arith)
        requires
            pow2(1) == 2,
    ;
    assert(initial * pow2(2) == 4 * initial) by (nonlinear_arith)
        requires
            pow2(2) == 4,
    ;
}

/// A call that failed counts one run more and, where its output says so, has to be changed
/// before it runs again; one that succeeded starts afresh, and one that did not run counts
/// nothing.
pub proof fn failed_calls_are_counted(
    failures: Seq<ToolFailureView>,
    print: Seq<char>,
    output: Seq<char>,
)
    ensures
        ({
            let before = failure_of(failures, print);
            let failed = failure_of(failures_after(failures, print, true, false, output), print);
            let done = failure_of(failures_after(failures, print, true, true, output), print);
            let held = failure_of(failures_after(failures, print, false, false, output), print);
            &&& before.executions < 255 ==> failed.executions == before.executions + 1
            &&& contains(lower(output), "permission denied"@) ==> failed.requires_changed_call
            &&& contains(lower(output), "no such file"@) ==> failed.requires_changed_call
            &&& output.len() == 0 ==> !failed.requires_changed_call
            &&& done.executions == 0 && !done.requires_changed_call
            &&& held == before
        }),
{
    reveal(asks_for_change);
    crate::tools::booking_touches_one_call(failures, print, true, false, output, print);
    crate::tools::booking_touches_one_call(failures, print, true, true, output, print);
    crate::tools::booking_touches_one_call(failures, print, false, false, output, print);
    if output.len() == 0 {
        reveal_strlit("permission denied");
        reveal_strlit("not permitted");
        reveal_strlit("policy");
        reveal_strlit("sandbox");
        reveal_strlit("invalid argument");
        reveal_strlit("invalid parameter");
        reveal_strlit("missing required");
        reveal_strlit("not found");
        reveal_strlit("no such file");
        reveal_strlit("old_string");
        reveal_strlit("权限");
        reveal_strlit("策略");
        reveal_strlit("参数");
        reveal_strlit("不存在");
        reveal_strlit("未找到");
        assert(lower(output).len() == 0);
    }
}

/// A tool is found by its name, exactly where it is offered; a long text is cut and says so.
pub proof fn tools_are_found_by_name(
    specs: Seq<ToolSpecView>,
    name: Seq<char>,
    text: Seq<char>,
    most: nat,
)
    ensures
        match find_spec(specs, name) {
            Some(spec) => spec.name == name && specs.contains(spec),
            None => forall|i: int| 0 <= i < specs.len() ==> (#[trigger] specs[i]).name != name,
        },
        text.len() <= most ==> truncated(text, most) == text,
        text.len() > most ==> truncated(text, most).take(most as int) == text.take(most as int)
            && ends_with(truncated(text, most), "...[truncated]"@),
    decreases specs.len(),
{
    if specs.len() > 0 {
        let rest = specs.skip(1);
        if specs[0].name == name {
            assert(specs.contains(specs[0]));
        } else {
            tools_are_found_by_name(rest, name, text, most);
            match find_spec(specs, name) {
                Some(spec) => {
                    let k = choose|k: int| 0 <= k < rest.len() && rest[k] == spec;
                    assert(specs[k + 1] == spec);
                },
                None => {
                    assert forall|i: int| 0 <= i < specs.len() implies (#[trigger] specs[i]).name
                        != name by {
                        if i > 0 {
                            assert(rest[i - 1] == specs[i]);
                        }
                    }
                },
            }
        }
    }
    if text.len() > most {
        let cut = truncated(text, most);
        assert(cut.take(most as int) =~= text.take(most as int));
        parts_are_contained(text.take(most as int), "...[truncated]"@, Seq::empty());
    }
}

// ---------------------------------------------------------------------------
// Accounts
// ---------------------------------------------------------------------------

/// Tokens are summed field by field, and what was used since an earlier count is the difference
/// to it.
pub proof fn tokens_are_summed(a: TokenUsage, b: TokenUsage)
    requires
        a.input_tokens + b.input_tokens <= u64::MAX,
        a.output_tokens + b.output_tokens <= u64::MAX,
        a.cached_input_tokens + b.cached_input_tokens <= u64::MAX,
        a.cache_observed_input_tokens + b.cache_observed_input_tokens <= u64::MAX,
    ensures
        a.plus(b).input_tokens == a.input_tokens + b.input_tokens,
        a.plus(b).output_tokens == a.output_tokens + b.output_tokens,
        a.plus(b).cached_input_tokens == a.cached_input_tokens + b.cached_input_tokens,
        a.plus(b).cache_observed_input_tokens == a.cache_observed_input_tokens
            + b.cache_observed_input_tokens,
        a.plus(b).cache_data_available <==> a.cache_data_available || b.cache_data_available,
        a.plus(b).since(a).input_tokens == b.input_tokens,
        a.plus(b).since(a).output_tokens == b.output_tokens,
        a.plus(b).since(a).cached_input_tokens == b.cached_input_tokens,
        a.plus(TokenUsage::none()) == a,
        a.input_tokens + a.output_tokens <= u64::MAX ==> a.total() == a.input_tokens
            + a.output_tokens,
{
}

/// A turn of a loop is booked: its tokens, its time and itself. A loop that has used its budget
/// up, or that met a limit of the provider, does not go on.
pub proof fn loops_are_booked(
    state: LoopStateView,
    usage: TokenUsage,
    usage_before: u64,
    seconds: u64,
    error: Option<AgentErrorView>,
)
    requires
        usage_before <= usage.total(),
        state.tokens_used + usage.total() <= u64::MAX,
        state.time_used_seconds + seconds <= u64::MAX,
        state.turns_completed < u64::MAX,
    ensures
        ({
            let after = accounted(state, usage, usage_before, seconds, error);
            &&& after.tokens_used == state.tokens_used + usage.total() - usage_before
            &&& after.time_used_seconds == state.time_used_seconds + seconds
            &&& after.turns_completed == state.turns_completed + 1
            &&& state.status == LoopStatus::Active && state.token_budget is None && error is None
                ==> after.status == LoopStatus::Active
            &&& state.status == LoopStatus::Active && state.token_budget is Some
                && after.tokens_used >= state.token_budget->0 ==> after.status
                == LoopStatus::BudgetLimited
            &&& state.status == LoopStatus::Active && state.token_budget is None && error is Some
                ==> (hits_usage_limit(error->0) <==> after.status == LoopStatus::UsageLimited)
        }),
{
}

/// A turn that ended well tells what it used; a failing hook makes a reply a failure, and an
/// error stays what it was; what a hook adds stands in the history.
pub proof fn ends_of_turns_are_told(
    session: SessionView,
    before: TokenUsage,
    seconds: u64,
    reply: Seq<char>,
    error: AgentErrorView,
    message: Seq<char>,
)
    ensures
        account_effects(session, before, seconds, TurnResultView::Reply(reply)).contains(
            EffectView::Emit(
                AgentEventView::TurnCompleted { total: session.usage, turn: session.usage.since(before) },
            ),
        ),
        session.loop_state is None ==> account_effects(
            session,
            before,
            seconds,
            TurnResultView::Error(error),
        ).len() == 0,
        result_after_hook(TurnResultView::Reply(reply), HookReplyView::Failed(message))
            == TurnResultView::Error(AgentErrorView::Hook(message)),
        result_after_hook(TurnResultView::Reply(reply), HookReplyView::Context(message))
            == TurnResultView::Reply(reply),
        result_after_hook(TurnResultView::Error(error), HookReplyView::Failed(message))
            == TurnResultView::Error(error),
        !is_blank(message) ==> session_after_hook(
            session,
            HookReplyView::Context(message),
        ).messages.last().content == message,
        session_after_hook(session, HookReplyView::Failed(message)) == session,
        error_of(TurnResultView::Error(error)) == Some(error),
        error_of(TurnResultView::Reply(reply)) is None,
{
    let effects = account_effects(session, before, seconds, TurnResultView::Reply(reply));
    assert(effects.last() is Emit);
    assert(effects[effects.len() - 1] == EffectView::Emit(
        AgentEventView::TurnCompleted { total: session.usage, turn: session.usage.since(before) },
    ));
}

/// Hooks are told which session and which prompt they run for, and how the turn ended.
pub proof fn hooks_are_told(session: SessionView, prompt: ChatMessageView, error: AgentErrorView, reply: Seq<char>)
    ensures
        member(session_start_data(session), "session_id"@) == Some(JsonView::Text(session.id)),
        member(session_start_data(session), "cwd"@) == Some(JsonView::Text(session.cwd)),
        member(turn_start_data(session, prompt), "session_id"@) == Some(JsonView::Text(session.id)),
        member(turn_start_data(session, prompt), "prompt"@) == Some(
            JsonView::Text(prompt.content),
        ),
        member(turn_start_data(session, prompt), "internal"@) == Some(
            JsonView::Bool(prompt.internal),
        ),
        member(turn_end_data(session, TurnResultView::Reply(reply)), "success"@) == Some(
            JsonView::Bool(true),
        ),
        member(turn_end_data(session, TurnResultView::Error(error)), "success"@) == Some(
            JsonView::Bool(false),
        ),
        member(turn_end_data(session, TurnResultView::Error(error)), "error"@) == Some(
            JsonView::Text(error_text(error)),
        ),
        member(turn_end_data(session, TurnResultView::Error(error)), "session_id"@) == Some(
            JsonView::Text(session.id),
        ),
{
    reveal_strlit("session_id");
    reveal_strlit("cwd");
    reveal_strlit("prompt");
    reveal_strlit("internal");
    reveal_strlit("success");
    reveal_strlit("error");
    assert("session_id"@.len() == 10 && "cwd"@.len() == 3);
    assert("prompt"@.len() == 6 && "internal"@.len() == 8);
    assert("success"@.len() == 7 && "error"@.len() == 5);
    member_at(session_start_data(session)->Object_0, 0);
    member_at(session_start_data(session)->Object_0, 1);
    let start = turn_start_data(session, prompt)->Object_0;
    member_at(start, 0);
    member_at(start, 1);
    member_at(start, 2);
    let well = turn_end_data(session, TurnResultView::Reply(reply))->Object_0;
    member_at(well, 1);
    let badly = turn_end_data(session, TurnResultView::Error(error))->Object_0;
    member_at(badly, 0);
    member_at(badly, 1);
    member_at(badly, 2);
}

// ---------------------------------------------------------------------------
// Delegated tasks
// ---------------------------------------------------------------------------

proof fn updated_record_found(
    records: Seq<AgentRecordView>,
    id: Seq<char>,
    status: Option<Seq<char>>,
    more: Seq<char>,
    other: Seq<char>,
)
    requires
        find_record(records, id) is Some,
    ensures
        find_record(updated_record(records, id, status, more), id) matches Some(after)
            && after.output == find_record(records, id)->0.output + more && after.task
            == find_record(records, id)->0.task && after.status == (match status {
            Some(text) => text,
            None => find_record(records, id)->0.status,
        }),
        other != id ==> find_record(updated_record(records, id, status, more), other)
            == find_record(records, other),
    decreases records.len(),
{
    let rest = records.skip(1);
    let now = updated_record(records, id, status, more);
    if records[0].id == id {
        assert(now.skip(1) =~= rest);
    } else {
        updated_record_found(rest, id, status, more, other);
        assert(now.skip(1) =~= updated_record(rest, id, status, more));
    }
}

/// What a delegated task says is added to its output and to no other task's; other events of it
/// change nothing.
pub proof fn delegated_tasks_are_heard(
    scheduler: AgentSchedulerView,
    id: Seq<char>,
    text: Seq<char>,
    other: Seq<char>,
)
    requires
        find_record(scheduler.agents, id) is Some,
        other != id,
    ensures
        find_record(heard(scheduler, id, AgentEventView::Text(text)).agents, id) matches Some(
            record,
        ) && record.output == find_record(scheduler.agents, id)->0.output + text && record.status
            == find_record(scheduler.agents, id)->0.status,
        find_record(heard(scheduler, id, AgentEventView::TextDelta(text)).agents, id) matches Some(
            record,
        ) && record.output == find_record(scheduler.agents, id)->0.output + text,
        find_record(heard(scheduler, id, AgentEventView::Text(text)).agents, other) == find_record(
            scheduler.agents,
            other,
        ),
        heard(scheduler, id, AgentEventView::SpeakText(text)) == scheduler,
{
    updated_record_found(scheduler.agents, id, None, text, other);
}

/// A delegated task that ended is marked as completed or as failed; a failure stands at the end
/// of its output. What it wrote before stays.
pub proof fn delegated_tasks_end(
    scheduler: AgentSchedulerView,
    id: Seq<char>,
    message: Seq<char>,
    other: Seq<char>,
)
    requires
        find_record(scheduler.agents, id) is Some,
        other != id,
    ensures
        find_record(ended(scheduler, id, None).agents, id) matches Some(record) && record.status
            == "completed"@ && record.output == find_record(scheduler.agents, id)->0.output,
        find_record(ended(scheduler, id, Some(message)).agents, id) matches Some(record)
            && record.status == "failed"@ && ends_with(record.output, message)
            && find_record(scheduler.agents, id)->0.output.is_prefix_of(record.output),
        find_record(ended(scheduler, id, Some(message)).agents, other) == find_record(
            scheduler.agents,
            other,
        ),
{
    let before = find_record(scheduler.agents, id)->0.output;
    let note = crate::agents::failure_note(before, message);
    updated_record_found(scheduler.agents, id, Some("completed"@), Seq::empty(), other);
    updated_record_found(scheduler.agents, id, Some("failed"@), note, other);
    assert(before + Seq::<char>::empty() =~= before);
    let all = before + note;
    assert(all.skip(all.len() - message.len()) =~= message);
}

proof fn positions_are_complete(messages: Seq<ChatMessageView>, p: int)
    ensures
        user_positions(messages).contains(p) <==> 0 <= p < messages.len() && messages[p].role
            == Role::User,
    decreases messages.len(),
{
    if messages.len() > 0 {
        let shorter = messages.drop_last();
        positions_are_complete(shorter, p);
        let before = user_positions(shorter);
        let all = user_positions(messages);
        if messages.last().role == Role::User {
            assert(all =~= before.push(messages.len() - 1));
            assert(all[all.len() - 1] == messages.len() - 1);
            if before.contains(p) {
                let k = choose|k: int| 0 <= k < before.len() && before[k] == p;
                assert(all[k] == p);
            }
            if all.contains(p) && p != messages.len() - 1 {
                let k = choose|k: int| 0 <= k < all.len() && all[k] == p;
                assert(before[k] == p);
            }
        }
    }
}

/// The turns of a conversation begin where the user speaks, at each such place and nowhere else.
pub proof fn turns_begin_with_the_user(messages: Seq<ChatMessageView>, p: int)
    ensures
        user_positions(messages).contains(p) <==> 0 <= p < messages.len() && messages[p].role
            == Role::User,
{
    positions_are_complete(messages, p);
}

/// The list of the sub-agents names each of them and what it is for, and marks the fallback.
pub proof fn sub_agents_are_listed(scheduler: AgentSchedulerView, i: int)
    requires
        0 <= i < scheduler.sub_agents.len(),
    ensures
        ({
            let entry = scheduler.sub_agents[i];
            &&& contains(summary_text(scheduler), entry.id)
            &&& contains(summary_text(scheduler), entry.description)
            &&& scheduler.fallback_sub_agent_id == Some(entry.id) ==> contains(
                summary_text(scheduler),
                entry.id + " [fallback]"@,
            )
        }),
{
    let entry = scheduler.sub_agents[i];
    let parts = crate::agents::all_listed(scheduler.sub_agents, scheduler.fallback_sub_agent_id);
    let list = joined(parts, ", "@);
    let whole = summary_text(scheduler);
    joined_holds_its_parts(parts, ", "@, i);
    parts_are_contained(
        "Configured sub-agent IDs: "@,
        list,
        ". Use sub_agent_id to select one; omit it to use the fallback."@,
    );
    contained_in_contained(whole, list, parts[i]);
    let mark = if scheduler.fallback_sub_agent_id == Some(entry.id) {
        " [fallback]"@
    } else {
        ""@
    };
    let description = if entry.description.len() == 0 {
        entry.provider.id + ":"@ + entry.provider.model
    } else {
        entry.description
    };
    let line = parts[i];
    assert(line == entry.id + mark + " ("@ + description + ")"@);
    parts_are_contained(Seq::empty(), entry.id, mark + " ("@ + description + ")"@);
    assert(Seq::<char>::empty() + entry.id + (mark + " ("@ + description + ")"@) =~= line);
    contained_in_contained(whole, line, entry.id);
    parts_are_contained(Seq::empty(), entry.id + mark, " ("@ + description + ")"@);
    assert(Seq::<char>::empty() + (entry.id + mark) + (" ("@ + description + ")"@) =~= line);
    contained_in_contained(whole, line, entry.id + mark);
    parts_are_contained(entry.id + mark + " ("@, description, ")"@);
    contained_in_contained(whole, line, description);
    if entry.description.len() == 0 {
        parts_are_contained(Seq::empty(), entry.description, whole);
        assert(Seq::<char>::empty() + entry.description + whole =~= whole);
    }
}

/// A report of a task tells all that is known of it; waiting for tasks ends once none of them
/// runs, and lasts as long as asked within its limits.
pub proof fn reports_tell_everything(snapshot: AgentSnapshotView, snapshots: Seq<AgentSnapshotView>, asked: nat)
    ensures
        member(snapshot_data(snapshot), "id"@) == Some(JsonView::Text(snapshot.id)),
        member(snapshot_data(snapshot), "status"@) == Some(JsonView::Text(snapshot.status)),
        member(snapshot_data(snapshot), "task"@) == Some(JsonView::Text(snapshot.task)),
        member(snapshot_data(snapshot), "output"@) == Some(JsonView::Text(snapshot.output)),
        all_ended(Seq::empty()),
        snapshot.status == "running"@ ==> !all_ended(snapshots.push(snapshot)),
        snapshot.status != "running"@ ==> (all_ended(snapshots.push(snapshot)) <==> all_ended(
            snapshots,
        )),
        10 <= asked <= 3_600_000 ==> wait_limit(asked) == asked,
        10 <= wait_limit(asked) <= 3_600_000,
{
    reveal_strlit("id");
    reveal_strlit("status");
    reveal_strlit("task");
    reveal_strlit("output");
    reveal_strlit("elapsed_ms");
    assert("id"@.len() == 2 && "status"@.len() == 6);
    assert("task"@.len() == 4 && "output"@.len() == 6);
    assert("elapsed_ms"@.len() == 10 && "output"@[0] == 'o');
    assert("status"@[0] == 's');
    let fields = snapshot_data(snapshot)->Object_0;
    member_at(fields, 0);
    member_at(fields, 1);
    member_at(fields, 2);
    member_at(fields, 3);
    let more = snapshots.push(snapshot);
    assert(more[more.len() - 1] == snapshot);
    if snapshot.status != "running"@ {
        if all_ended(more) {
            assert forall|i: int| 0 <= i < snapshots.len() implies (#[trigger] snapshots[i]).status
                != "running"@ by {
                assert(more[i] == snapshots[i]);
            }
        }
    }
}

// ---------------------------------------------------------------------------
// Questions to the user
// ---------------------------------------------------------------------------

/// Who asks the user something waits under the identifier of the question, and the client is told
/// of it; what is waited for already stays waited for.
pub proof fn questions_are_waited_for(
    task: SessionTaskView,
    call: ToolCallView,
    reason: Seq<char>,
    id: Seq<char>,
    questions: Seq<JsonView>,
    request: FileTransferRequestView,
)
    ensures
        ({
            let asked = approval_sought(task, call, reason);
            let put = questions_put(task, id, questions);
            let sought = files_sought(task, request);
            &&& asked.approvals.contains(call.id) && task.approvals.is_prefix_of(asked.approvals)
            &&& asked.questions == task.questions && asked.running == task.running
            &&& asked.unacked_events.len() == task.unacked_events.len() + 1
            &&& put.questions == task.questions.push(id) && put.approvals == task.approvals
            &&& put.unacked_events.len() == task.unacked_events.len() + 1
            &&& sought.file_requests.contains(request.request_id)
                && task.file_requests.is_prefix_of(sought.file_requests)
            &&& sought.unacked_events.len() == task.unacked_events.len() + 1
            &&& task.connected ==> asked.outbox.len() == task.outbox.len() + 1 && put.outbox.len()
                == task.outbox.len() + 1 && sought.outbox.len() == task.outbox.len() + 1
        }),
{
    let asked = approval_sought(task, call, reason);
    let sought = files_sought(task, request);
    if !task.approvals.contains(call.id) {
        assert(asked.approvals[asked.approvals.len() - 1] == call.id);
    }
    if !task.file_requests.contains(request.request_id) {
        assert(sought.file_requests[sought.file_requests.len() - 1] == request.request_id);
    }
}

} // verus!
