//! What the reports on turns, the overview of tasks, the prompts, the search and the printed
//! lines are for.

use vstd::prelude::*;
use crate::cli::model_line;
use crate::cli::one_line;
use crate::cli::padded;
use crate::cli::printed_event;
use crate::cli::session_line;
use crate::cli::ModelChoiceView;
use crate::cli::Stream;
use crate::events::AgentEventView;
use crate::events::ContextStatus;
use crate::json::member;
use crate::json::JsonView;
use crate::numbers::decimal;
use crate::observer::BrowserObserverView;
use crate::observer::compression_data;
use crate::observer::content_event;
use crate::observer::context_shares;
use crate::observer::counted;
use crate::observer::effort_stats;
use crate::observer::EffortStats;
use crate::observer::follow_up;
use crate::observer::list_estimate;
use crate::observer::loop_data;
use crate::observer::message_estimate;
use crate::observer::named_estimate;
use crate::observer::noted_downloads;
use crate::observer::retry_data;
use crate::observer::running_turn;
use crate::observer::shown_in_short;
use crate::observer::stats_of;
use crate::observer::step_data;
use crate::observer::step_in_progress;
use crate::observer::text_estimate;
use crate::observer::told;
use crate::observer::token_estimate;
use crate::observer::tool_done_data;
use crate::observer::tool_start_data;
use crate::observer::totals_now;
use crate::observer::totals_of;
use crate::observer::usage_data;
use crate::observer::usage_event_data;
use crate::observer::usage_report;
use crate::observer::with_turn;
use crate::observer::BrowserUsageState;
use crate::observer::EventFactsView;
use crate::observer::ObserverAction;
use crate::observer::RateTextsView;
use crate::observer::ReasoningAggregate;
use crate::observer::UsageReport;
use crate::overview::health_data;
use crate::overview::managed_row;
use crate::overview::managed_rows;
use crate::overview::provider_list_data;
use crate::overview::recorded_task;
use crate::overview::row_data;
use crate::overview::running_rows;
use crate::overview::session_data;
use crate::overview::session_row;
use crate::overview::session_rows;
use crate::overview::task_list_data;
use crate::overview::task_rows;
use crate::overview::ManagedTaskView;
use crate::overview::SessionDetailsView;
use crate::overview::SessionRowView;
use crate::overview::SessionSummaryView;
use crate::overview::TaskRowView;
use crate::prompts::device_layout;
use crate::prompts::identity;
use crate::prompts::named_list;
use crate::prompts::project_kinds;
use crate::prompts::project_part;
use crate::prompts::terminal_layout;
use crate::prompts::terminal_prompt;
use crate::prompts::web_prompt;
use crate::provider::provider_data;
use crate::provider::ProviderDocumentView;
use crate::provider::ProviderSettingsView;
use crate::search::between_terms;
use crate::search::finds_entry;
use crate::search::finds_model;
use crate::search::lower_text;
use crate::search::occurrences;
use crate::search::points;
use crate::search::search_terms;
use crate::search::term_score;
use crate::search::terms_among;
use crate::search::SessionCardView;
use crate::search::terms_score;
use crate::session::LoopStateView;
use crate::session::LoopStatus;
use crate::session::PlanStepStatus;
use crate::session::PlanStepView;
use crate::session::PlanView;
use crate::session::TokenUsage;
use crate::session::ToolCallView;
use crate::session::ToolResultView;
use crate::settings::number_data;
use crate::table::lookup;
use crate::task::call_download;
use crate::task::numbered;
use crate::task::SessionTaskView;
use crate::text::contains;
use crate::text::ends_with;
use crate::text::is_blank;
use crate::text::joined;
use crate::text::lower;
use crate::text::occurs_at;
use crate::text::starts_with;
use crate::text::trimmed;
use crate::text_laws::contained_in_contained;
use crate::text_laws::joined_holds_its_parts;
use crate::text_laws::member_at;
use crate::text_laws::parts_are_contained;

verus! {

// ---------------------------------------------------------------------------
// Reports
// ---------------------------------------------------------------------------

proof fn numbered_member(fields: Seq<(Seq<char>, JsonView)>, i: int, number: u64)
    requires
        0 <= i < fields.len(),
        forall|k: int| 0 <= k < i ==> (#[trigger] fields[k]).0 != fields[i].0,
        fields[i].0 != "event_seq"@,
    ensures
        member(numbered(JsonView::Object(fields), number), fields[i].0) == Some(fields[i].1),
{
    member_at(fields, i);
    crate::text_laws::assigned_fields_are_read_back(
        fields,
        "event_seq"@,
        number_data(number as nat),
        fields[i].0,
    );
}

/// What the model says reaches the client whole, each kind under its own name.
pub proof fn words_of_the_model_are_told(
    task: SessionTaskView,
    calls: Seq<(Seq<char>, Seq<char>)>,
    text: Seq<char>,
    facts: EventFactsView,
)
    ensures
        ({
            let said = told(task, calls, AgentEventView::Text(text), facts).unacked_events;
            let part = told(task, calls, AgentEventView::TextDelta(text), facts).unacked_events;
            let thought = told(
                task,
                calls,
                AgentEventView::ReasoningDelta(text),
                facts,
            ).unacked_events;
            let spoken = told(task, calls, AgentEventView::SpeakText(text), facts).unacked_events;
            &&& said.len() == task.unacked_events.len() + 1 && said.drop_last()
                == task.unacked_events
            &&& member(said.last(), "content"@) == Some(JsonView::Text(text))
            &&& member(said.last(), "event_type"@) == Some(JsonView::Text("text_chunk"@))
            &&& member(part.last(), "content"@) == Some(JsonView::Text(text))
            &&& member(part.last(), "event_type"@) == Some(JsonView::Text("text_chunk"@))
            &&& member(thought.last(), "content"@) == Some(JsonView::Text(text))
            &&& member(thought.last(), "event_type"@) == Some(JsonView::Text("reasoning_chunk"@))
            &&& member(spoken.last(), "content"@) == Some(JsonView::Text(text))
            &&& member(spoken.last(), "event_type"@) == Some(JsonView::Text("speak_text"@))
        }),
{
    reveal(told);
    reveal_strlit("event_type");
    reveal_strlit("content");
    reveal_strlit("event_seq");
    assert("event_type"@.len() == 10 && "content"@.len() == 7);
    assert("event_seq"@.len() == 9);
    let n = task.next_event_seq;
    numbered_member(content_event("text_chunk"@, text)->Object_0, 0, n);
    numbered_member(content_event("text_chunk"@, text)->Object_0, 1, n);
    numbered_member(content_event("reasoning_chunk"@, text)->Object_0, 0, n);
    numbered_member(content_event("reasoning_chunk"@, text)->Object_0, 1, n);
    numbered_member(content_event("speak_text"@, text)->Object_0, 0, n);
    numbered_member(content_event("speak_text"@, text)->Object_0, 1, n);
    let said = told(task, calls, AgentEventView::Text(text), facts).unacked_events;
    assert(said.drop_last() =~= task.unacked_events);
}

/// The start of a call is told with the call, and the task shows its tool; the end of it is told
/// with what it gave, and the task shows none.
pub proof fn calls_are_told(
    task: SessionTaskView,
    calls: Seq<(Seq<char>, Seq<char>)>,
    call: ToolCallView,
    result: ToolResultView,
    facts: EventFactsView,
)
    ensures
        ({
            let begun = told(task, calls, AgentEventView::ToolStarted(call), facts);
            let done = told(task, calls, AgentEventView::ToolFinished { call, result }, facts);
            let first = begun.unacked_events[task.unacked_events.len() as int];
            let last = done.unacked_events.last();
            &&& begun.unacked_events.len() == task.unacked_events.len() + 2
            &&& begun.current_tool == Some(call.name) && begun.phase == "running"@
            &&& member(first, "call_id"@) == Some(JsonView::Text(call.id))
            &&& member(first, "tool_name"@) == Some(JsonView::Text(call.name))
            &&& member(first, "arguments"@) == Some(call.arguments)
            &&& done.unacked_events.len() == task.unacked_events.len() + 1
            &&& done.current_tool is None
            &&& member(last, "call_id"@) == Some(JsonView::Text(call.id))
            &&& member(last, "is_error"@) == Some(JsonView::Bool(!result.success))
            &&& result.output.len() <= 1_000 ==> member(last, "result_preview"@) == Some(
                JsonView::Text(result.output),
            )
            &&& result.output.len() > 1_000 ==> (member(last, "result_preview"@) matches Some(
                JsonView::Text(shown),
            ) && shown.take(1_000) == result.output.take(1_000) && shown.len() == 1_003)
        }),
{
    reveal(told);
    reveal_strlit("event_type");
    reveal_strlit("call_id");
    reveal_strlit("tool_name");
    reveal_strlit("arguments");
    reveal_strlit("elapsed");
    reveal_strlit("result_preview");
    reveal_strlit("is_error");
    reveal_strlit("images");
    reveal_strlit("event_seq");
    reveal_strlit("...");
    assert("event_type"@.len() == 10 && "call_id"@.len() == 7);
    assert("tool_name"@.len() == 9 && "arguments"@.len() == 9);
    assert("elapsed"@.len() == 7 && "result_preview"@.len() == 14);
    assert("is_error"@.len() == 8 && "images"@.len() == 6);
    assert("event_seq"@.len() == 9 && "..."@.len() == 3);
    assert("arguments"@[0] == 'a' && "call_id"@[0] == 'c');
    assert("elapsed"@[0] == 'e' && "event_seq"@[0] == 'e');
    assert("tool_name"@[0] == 't');
    let n = task.next_event_seq;
    let s = tool_start_data(call)->Object_0;
    numbered_member(s, 1, n);
    numbered_member(s, 2, n);
    numbered_member(s, 3, n);
    let d = tool_done_data(call, result, facts)->Object_0;
    numbered_member(d, 1, n);
    numbered_member(d, 4, n);
    numbered_member(d, 5, n);
    if result.output.len() > 1_000 {
        assert(shown_in_short(result.output).take(1_000) =~= result.output.take(1_000));
    }
}

/// The step of a plan that is under way is the first that is, and is told; a plan without one
/// tells nothing.
pub proof fn steps_under_way_are_found(steps: Seq<PlanStepView>, from: int)
    requires
        0 <= from <= steps.len(),
    ensures
        match step_in_progress(steps, from) {
            Some(at) => from <= at < steps.len() && steps[at].status == PlanStepStatus::InProgress
                && forall|k: int|
                from <= k < at ==> (#[trigger] steps[k]).status != PlanStepStatus::InProgress,
            None => forall|k: int|
                from <= k < steps.len() ==> (#[trigger] steps[k]).status
                    != PlanStepStatus::InProgress,
        },
    decreases steps.len() - from,
{
    if from < steps.len() && steps[from].status != PlanStepStatus::InProgress {
        steps_under_way_are_found(steps, from + 1);
    }
}

/// The tokens that are shown are those that the turn told of: the totals of the session, and the
/// sum of the requests of the turn.
pub proof fn tokens_are_counted(
    state: BrowserUsageState,
    total: TokenUsage,
    request: TokenUsage,
    status: ContextStatus,
)
    requires
        state.turn_input_tokens + request.input_tokens <= u64::MAX,
        state.turn_output_tokens + request.output_tokens <= u64::MAX,
    ensures
        ({
            let after = counted(state, AgentEventView::ModelUsage { total, request });
            let ended = counted(state, AgentEventView::TurnCompleted { total, turn: request });
            let seen = counted(state, AgentEventView::ContextUpdated(status));
            &&& after.input_tokens == total.input_tokens && after.output_tokens
                == total.output_tokens && after.cached_input_tokens == total.cached_input_tokens
            &&& after.turn_input_tokens == state.turn_input_tokens + request.input_tokens
            &&& after.turn_output_tokens == state.turn_output_tokens + request.output_tokens
            &&& after.turn_active
            &&& ended.input_tokens == total.input_tokens && ended.turn_input_tokens
                == request.input_tokens && !ended.turn_active
            &&& seen.context_used_tokens == status.used_tokens && seen.context_window_tokens
                == status.context_window && seen.input_tokens == state.input_tokens
        }),
{
}

/// A report gives the tokens as they were counted, their sum, and the share of the window and of
/// the cache.
pub proof fn reports_give_the_count(state: BrowserUsageState)
    ensures
        ({
            let report = usage_report(state);
            &&& report.input_tokens == state.input_tokens && report.output_tokens
                == state.output_tokens && report.cached_input_tokens == state.cached_input_tokens
            &&& state.input_tokens + state.output_tokens <= u64::MAX ==> report.total_tokens
                == state.input_tokens + state.output_tokens
            &&& state.context_window_tokens > 0 && state.context_used_tokens
                <= state.context_window_tokens ==> report.context_ratio.numerator
                == state.context_used_tokens && report.context_ratio.denominator
                == state.context_window_tokens
            &&& !state.cache_data_available ==> report.cache_hit_rate is None
            &&& state.cache_data_available && 0 < state.cache_observed_input_tokens
                && state.cached_input_tokens <= state.cache_observed_input_tokens ==> (
            report.cache_hit_rate matches Some(rate) && rate.numerator
                == state.cached_input_tokens && rate.denominator
                == state.cache_observed_input_tokens)
        }),
{
}

/// The numbers of a report stand in what is sent to the client.
pub proof fn sent_reports_hold_the_numbers(report: UsageReport, rates: RateTextsView)
    ensures
        member(usage_data(report, rates), "input_tokens"@) == Some(
            JsonView::Number(decimal(report.input_tokens as nat)),
        ),
        member(usage_data(report, rates), "output_tokens"@) == Some(
            JsonView::Number(decimal(report.output_tokens as nat)),
        ),
        member(usage_data(report, rates), "total_tokens"@) == Some(
            JsonView::Number(decimal(report.total_tokens as nat)),
        ),
        member(usage_data(report, rates), "context_used_tokens"@) == Some(
            JsonView::Number(decimal(report.context_used_tokens as nat)),
        ),
        member(usage_data(report, rates), "cache_data_available"@) == Some(
            JsonView::Bool(report.cache_hit_rate is Some),
        ),
{
    reveal(usage_data);
    reveal_strlit("input_tokens");
    reveal_strlit("cached_input_tokens");
    reveal_strlit("output_tokens");
    reveal_strlit("total_tokens");
    reveal_strlit("context_used_tokens");
    reveal_strlit("context_window_tokens");
    reveal_strlit("context_ratio");
    reveal_strlit("cache_hit_rate");
    reveal_strlit("cache_data_available");
    assert("input_tokens"@.len() == 12 && "cached_input_tokens"@.len() == 19);
    assert("output_tokens"@.len() == 13 && "total_tokens"@.len() == 12);
    assert("context_used_tokens"@.len() == 19 && "context_window_tokens"@.len() == 21);
    assert("context_ratio"@.len() == 13 && "cache_hit_rate"@.len() == 14);
    assert("cache_data_available"@.len() == 20 && "cached_input_tokens"@[1] == 'a');
    assert("context_ratio"@[0] == 'c' && "context_used_tokens"@[1] == 'o');
    assert("input_tokens"@[0] == 'i' && "output_tokens"@[0] == 'o');
    assert("total_tokens"@[0] == 't');
    let fields = usage_data(report, rates)->Object_0;
    member_at(fields, 0);
    member_at(fields, 2);
    member_at(fields, 3);
    member_at(fields, 4);
    member_at(fields, 8);
}

/// A turn counts once in the totals of its effort, with its tokens and its time; averages divide
/// by the number of turns.
pub proof fn turns_are_added(totals: ReasoningAggregate, usage: TokenUsage, elapsed_ms: u64)
    requires
        totals.turns < u64::MAX,
        totals.total_tokens + usage.total() <= u64::MAX,
        totals.total_duration_ms + elapsed_ms <= u64::MAX,
    ensures
        with_turn(totals, usage, elapsed_ms).turns == totals.turns + 1,
        with_turn(totals, usage, elapsed_ms).total_tokens == totals.total_tokens + usage.total(),
        with_turn(totals, usage, elapsed_ms).total_duration_ms == totals.total_duration_ms
            + elapsed_ms,
        totals.turns > 0 ==> (effort_stats(totals).average_total_tokens matches Some(average)
            && average == totals.total_tokens / totals.turns),
        totals.turns > 0 ==> (effort_stats(totals).average_duration_ms matches Some(average)
            && average == totals.total_duration_ms / totals.turns),
        totals.turns == 0 ==> effort_stats(totals).average_total_tokens is None,
        effort_stats(totals).turns == totals.turns,
{
}

/// The statistics tell of every effort in its place, and a turn under way counts for its own.
pub proof fn statistics_tell_of_every_effort(
    aggregates: Seq<(Seq<char>, ReasoningAggregate)>,
    usage: TokenUsage,
    elapsed_ms: u64,
    effort: Seq<char>,
)
    ensures
        stats_of(aggregates).len() == 5,
        stats_of(aggregates)[0] == effort_stats(totals_of(aggregates, "auto"@)),
        stats_of(aggregates)[1] == effort_stats(totals_of(aggregates, "low"@)),
        stats_of(aggregates)[2] == effort_stats(totals_of(aggregates, "medium"@)),
        stats_of(aggregates)[3] == effort_stats(totals_of(aggregates, "high"@)),
        stats_of(aggregates)[4] == effort_stats(totals_of(aggregates, "xhigh"@)),
        totals_now(aggregates, None, elapsed_ms, effort) == aggregates,
        totals_of(totals_now(aggregates, Some(usage), elapsed_ms, effort), effort) == with_turn(
            totals_of(aggregates, effort),
            usage,
            elapsed_ms,
        ),
        lookup(aggregates, effort) is None ==> totals_of(aggregates, effort).turns == 0,
{
    crate::observer::turns_count_for_their_effort(aggregates, effort, effort, usage, elapsed_ms);
}

/// The tokens of a turn under way are those counted for it so far; what is told is followed by a
/// report where the count changed.
pub proof fn running_turns_are_reported(state: BrowserUsageState, usage: TokenUsage, status: ContextStatus, text: Seq<char>)
    ensures
        !state.turn_active ==> running_turn(state) is None,
        state.turn_active && state.turn_input_tokens > 0 ==> (running_turn(state) matches Some(now)
            && now.input_tokens == state.turn_input_tokens && now.output_tokens
            == state.turn_output_tokens && now.cached_input_tokens
            == state.turn_cached_input_tokens),
        follow_up(AgentEventView::ModelUsage { total: usage, request: usage })
            == ObserverAction::SendUsage,
        follow_up(AgentEventView::ContextUpdated(status)) == ObserverAction::SendUsage,
        follow_up(AgentEventView::TurnCompleted { total: usage, turn: usage })
            == ObserverAction::StoreAndSendUsage,
        follow_up(AgentEventView::Text(text)) == ObserverAction::Nothing,
{
}

/// Four bytes of text count as a token, and a part of four as one more.
pub proof fn tokens_are_estimated(bytes: nat, rows: Seq<(Seq<char>, Seq<char>)>, row: (Seq<char>, Seq<char>))
    requires
        bytes < 1_000_000_000,
    ensures
        token_estimate(0) == 0,
        token_estimate(1) == 1,
        token_estimate(4) == 1,
        token_estimate(bytes + 4) == token_estimate(bytes) + 1,
        token_estimate(bytes) <= token_estimate(bytes + 1),
        message_estimate(rows.push(row)) >= message_estimate(rows) || message_estimate(
            rows.push(row),
        ) == u64::MAX,
        message_estimate(Seq::empty()) == 0,
        list_estimate(Seq::empty()) == 0,
{
    assert(rows.push(row).drop_last() =~= rows);
}

/// A tool counts to its share of the context: to that of the servers where its name is one of
/// theirs, and to the system's where it is not.
pub proof fn tools_count_to_one_share(
    rows: Seq<(Seq<char>, Seq<char>)>,
    row: (Seq<char>, Seq<char>),
    names: Seq<Seq<char>>,
)
    ensures
        names.contains(row.0) ==> named_estimate(rows.push(row), names, false) == named_estimate(
            rows,
            names,
            false,
        ) && named_estimate(rows.push(row), names, true) == crate::session::capped_sum(
            named_estimate(rows, names, true),
            text_estimate(row.1),
        ),
        !names.contains(row.0) ==> named_estimate(rows.push(row), names, true) == named_estimate(
            rows,
            names,
            true,
        ) && named_estimate(rows.push(row), names, false) == crate::session::capped_sum(
            named_estimate(rows, names, false),
            text_estimate(row.1),
        ),
{
    assert(rows.push(row).drop_last() =~= rows);
}

// ---------------------------------------------------------------------------
// The overview
// ---------------------------------------------------------------------------

proof fn own_rows_hold(rows: Seq<SessionRowView>, managed: Seq<ManagedTaskView>, priority: JsonView, i: int)
    requires
        0 <= i < rows.len(),
        rows[i].task.task_id is Some,
    ensures
        session_rows(rows, managed, priority).contains(
            session_row(
                rows[i],
                rows[i].task.task_id->0,
                recorded_task(managed, rows[i].task.task_id->0),
                priority,
            ),
        ),
    decreases rows.len(),
{
    let shorter = rows.drop_last();
    let before = session_rows(shorter, managed, priority);
    let all = session_rows(rows, managed, priority);
    let id = rows[i].task.task_id->0;
    let row = session_row(rows[i], id, recorded_task(managed, id), priority);
    if i < rows.len() - 1 {
        own_rows_hold(shorter, managed, priority, i);
        let k = choose|k: int| 0 <= k < before.len() && before[k] == row;
        assert(all[k] == row);
    } else {
        assert(all[all.len() - 1] == row);
    }
}

proof fn other_rows_hold(managed: Seq<ManagedTaskView>, listed: Seq<TaskRowView>, i: int)
    requires
        0 <= i < managed.len(),
        !crate::overview::has_row(listed, managed[i].id),
    ensures
        managed_rows(managed, listed).contains(managed_row(managed[i])),
    decreases managed.len(),
{
    let shorter = managed.drop_last();
    let before = managed_rows(shorter, listed);
    let all = managed_rows(managed, listed);
    if i < managed.len() - 1 {
        other_rows_hold(shorter, listed, i);
        let k = choose|k: int| 0 <= k < before.len() && before[k] == managed_row(managed[i]);
        assert(all[k] == managed_row(managed[i]));
    } else {
        assert(all[all.len() - 1] == managed_row(managed[i]));
    }
}

proof fn arranged_holds(rows: Seq<TaskRowView>, row: TaskRowView)
    requires
        rows.contains(row),
    ensures
        crate::overview::arranged(rows).contains(row),
{
    crate::overview::tasks_stand_in_order(rows);
    let after = crate::overview::arranged(rows);
    rows.to_multiset_ensures();
    after.to_multiset_ensures();
    assert(rows.to_multiset().count(row) > 0);
    assert(after.to_multiset().count(row) > 0);
}

/// Every task of a session is listed under its identifier, with its title, its phase and its
/// tool.
pub proof fn tasks_of_sessions_are_listed(
    rows: Seq<SessionRowView>,
    managed: Seq<ManagedTaskView>,
    priority: JsonView,
    i: int,
)
    requires
        0 <= i < rows.len(),
        rows[i].task.task_id is Some,
    ensures
        exists|k: int|
            0 <= k < task_rows(rows, managed, priority).len() && shows_task(
                #[trigger] task_rows(rows, managed, priority)[k],
                rows[i],
            ),
{
    reveal(session_row);
    let own = session_rows(rows, managed, priority);
    let all = own + managed_rows(managed, own);
    let id = rows[i].task.task_id->0;
    let row = session_row(rows[i], id, recorded_task(managed, id), priority);
    own_rows_hold(rows, managed, priority, i);
    let k = choose|k: int| 0 <= k < own.len() && own[k] == row;
    assert(all[k] == row);
    arranged_holds(all, row);
    let after = task_rows(rows, managed, priority);
    let j = choose|j: int| 0 <= j < after.len() && after[j] == row;
    assert(shows_task(after[j], rows[i]));
}

/// Whether a row of the list shows the task of a session.
pub open spec fn shows_task(shown: TaskRowView, row: SessionRowView) -> bool {
    &&& row.task.task_id == Some(shown.task_id)
    &&& shown.session_id == row.session_id
    &&& row.title is Some ==> shown.title == row.title->0
    &&& shown.status == row.task.shown_phase()
    &&& shown.running == row.task.running
    &&& shown.started_at == row.task.started_at
    &&& shown.current_tool == row.task.current_tool
    &&& shown.own
}

/// Every other task on record is listed too, with its state.
pub proof fn recorded_tasks_are_listed(
    rows: Seq<SessionRowView>,
    managed: Seq<ManagedTaskView>,
    priority: JsonView,
    i: int,
)
    requires
        0 <= i < managed.len(),
        !crate::overview::has_row(session_rows(rows, managed, priority), managed[i].id),
    ensures
        exists|k: int|
            0 <= k < task_rows(rows, managed, priority).len() && (
            #[trigger] task_rows(rows, managed, priority)[k]).task_id == managed[i].id
                && task_rows(rows, managed, priority)[k].status == crate::task::status_name(
                managed[i].status,
            ) && task_rows(rows, managed, priority)[k].error == managed[i].error
                && task_rows(rows, managed, priority)[k].session_id == managed[i].session_id,
{
    reveal(managed_row);
    let own = session_rows(rows, managed, priority);
    let others = managed_rows(managed, own);
    let all = own + others;
    other_rows_hold(managed, own, i);
    let k = choose|k: int| 0 <= k < others.len() && others[k] == managed_row(managed[i]);
    assert(all[own.len() + k] == managed_row(managed[i]));
    arranged_holds(all, managed_row(managed[i]));
    let after = task_rows(rows, managed, priority);
    let j = choose|j: int| 0 <= j < after.len() && after[j] == managed_row(managed[i]);
    assert(after[j].task_id == managed[i].id);
}

/// A record is found by its identifier exactly where there is one.
pub proof fn records_are_found(managed: Seq<ManagedTaskView>, id: Seq<char>)
    ensures
        match recorded_task(managed, id) {
            Some(task) => managed.contains(task) && task.id == id,
            None => forall|i: int| 0 <= i < managed.len() ==> (#[trigger] managed[i]).id != id,
        },
    decreases managed.len(),
{
    if managed.len() > 0 {
        let rest = managed.skip(1);
        if managed[0].id == id {
            assert(managed.contains(managed[0]));
        } else {
            records_are_found(rest, id);
            match recorded_task(rest, id) {
                Some(task) => {
                    let j = choose|j: int| 0 <= j < rest.len() && rest[j] == task;
                    assert(managed[j + 1] == task);
                },
                None => {
                    assert forall|i: int| 0 <= i < managed.len() implies (#[trigger] managed[i]).id
                        != id by {
                        if i > 0 {
                            assert(rest[i - 1] == managed[i]);
                        }
                    }
                },
            }
        }
    }
}

/// The list of tasks shows each row, counts those that run and tells the limit.
pub proof fn task_lists_are_whole(rows: Seq<TaskRowView>, limit: nat, row: TaskRowView)
    ensures
        member(task_list_data(rows, limit), "tasks"@) matches Some(JsonView::Array(list))
            && list.len() == rows.len() && forall|i: int|
            0 <= i < rows.len() ==> list[i] == row_data(#[trigger] rows[i]),
        member(task_list_data(rows, limit), "running_count"@) == Some(
            JsonView::Number(decimal(running_rows(rows))),
        ),
        member(task_list_data(rows, limit), "concurrency_limit"@) == Some(
            JsonView::Number(decimal(limit)),
        ),
        row.running ==> running_rows(rows.push(row)) == running_rows(rows) + 1,
        !row.running ==> running_rows(rows.push(row)) == running_rows(rows),
        member(row_data(row), "task_id"@) == Some(JsonView::Text(row.task_id)),
        member(row_data(row), "session_title"@) == Some(JsonView::Text(row.title)),
        member(row_data(row), "status"@) == Some(JsonView::Text(row.status)),
        member(row_data(row), "running"@) == Some(JsonView::Bool(row.running)),
{
    reveal(row_data);
    reveal_strlit("tasks");
    reveal_strlit("running_count");
    reveal_strlit("concurrency_limit");
    reveal_strlit("task_id");
    reveal_strlit("session_id");
    reveal_strlit("session_title");
    reveal_strlit("status");
    reveal_strlit("running");
    assert("tasks"@.len() == 5 && "running_count"@.len() == 13);
    assert("concurrency_limit"@.len() == 17 && "task_id"@.len() == 7);
    assert("session_id"@.len() == 10 && "session_title"@.len() == 13);
    assert("status"@.len() == 6 && "running"@.len() == 7);
    assert("running"@[0] == 'r' && "running_count"@[0] == 'r');
    assert("session_title"@[0] == 's' && "task_id"@[0] == 't');
    let fields = task_list_data(rows, limit)->Object_0;
    member_at(fields, 0);
    member_at(fields, 1);
    member_at(fields, 2);
    assert(rows.push(row).drop_last() =~= rows);
    let r = row_data(row)->Object_0;
    member_at(r, 0);
    member_at(r, 2);
    member_at(r, 3);
    member_at(r, 4);
}

/// A session is shown with what it is about and what it used; the health of the engine with its
/// model.
pub proof fn sessions_are_shown(
    summary: SessionSummaryView,
    details: SessionDetailsView,
    mode: JsonView,
    running: bool,
    active: ProviderSettingsView,
    version: Seq<char>,
    cwd: Seq<char>,
    home: Seq<char>,
    tools: nat,
    arch: Seq<char>,
)
    ensures
        ({
            let shown = session_data(summary, Some(details), mode, running);
            &&& member(shown, "id"@) == Some(JsonView::Text(summary.id))
            &&& member(shown, "title"@) == Some(JsonView::Text(summary.title))
            &&& member(shown, "model"@) == Some(JsonView::Text(summary.model))
            &&& member(shown, "cwd"@) == Some(JsonView::Text(summary.cwd))
            &&& member(shown, "pinned"@) == Some(JsonView::Bool(summary.pinned))
            &&& member(shown, "mode"@) == Some(details.mode)
            &&& member(shown, "running"@) == Some(JsonView::Bool(running))
        }),
        member(health_data(Some(active), version, cwd, home, tools, arch), "status"@) == Some(
            JsonView::Text("ok"@),
        ),
        member(health_data(None, version, cwd, home, tools, arch), "status"@) == Some(
            JsonView::Text("setup_required"@),
        ),
        member(health_data(None, version, cwd, home, tools, arch), "version"@) == Some(
            JsonView::Text(version),
        ),
{
    reveal(session_data);
    reveal(health_data);
    reveal_strlit("id");
    reveal_strlit("provider_id");
    reveal_strlit("model");
    reveal_strlit("cwd");
    reveal_strlit("updated_at");
    reveal_strlit("preview");
    reveal_strlit("title");
    reveal_strlit("title_manually_set");
    reveal_strlit("pinned");
    reveal_strlit("summary");
    reveal_strlit("mode");
    reveal_strlit("created_at");
    reveal_strlit("usage");
    reveal_strlit("running");
    reveal_strlit("status");
    reveal_strlit("version");
    assert("id"@.len() == 2 && "provider_id"@.len() == 11);
    assert("model"@.len() == 5 && "cwd"@.len() == 3);
    assert("updated_at"@.len() == 10 && "preview"@.len() == 7);
    assert("title"@.len() == 5 && "title_manually_set"@.len() == 18);
    assert("pinned"@.len() == 6 && "summary"@.len() == 7);
    assert("mode"@.len() == 4 && "created_at"@.len() == 10);
    assert("usage"@.len() == 5 && "running"@.len() == 7);
    assert("status"@.len() == 6 && "version"@.len() == 7);
    assert("created_at"@[0] == 'c' && "model"@[0] == 'm');
    assert("pinned"@[0] == 'p' && "preview"@[0] == 'p');
    assert("running"@[0] == 'r' && "status"@[0] == 's');
    assert("summary"@[0] == 's' && "title"@[0] == 't');
    assert("updated_at"@[0] == 'u' && "usage"@[0] == 'u');
    assert("version"@[0] == 'v');
    let fields = session_data(summary, Some(details), mode, running)->Object_0;
    member_at(fields, 0);
    member_at(fields, 2);
    member_at(fields, 3);
    member_at(fields, 6);
    member_at(fields, 8);
    member_at(fields, 10);
    member_at(fields, 13);
    member_at(health_data(Some(active), version, cwd, home, tools, arch)->Object_0, 0);
    member_at(health_data(None, version, cwd, home, tools, arch)->Object_0, 0);
    member_at(health_data(None, version, cwd, home, tools, arch)->Object_0, 1);
}

/// The list of the providers shows each of them and marks the one in use.
pub proof fn provider_lists_are_whole(document: ProviderDocumentView)
    ensures
        member(provider_list_data(document), "providers"@) matches Some(JsonView::Array(list))
            && list.len() == document.providers.len() && forall|i: int|
            0 <= i < list.len() ==> #[trigger] list[i] == provider_data(
                document.providers[i].0,
                document.providers[i].1,
                document.providers[i].0 == document.active,
            ),
        member(provider_list_data(document), "active"@) == Some(JsonView::Text(document.active)),
{
    reveal_strlit("providers");
    reveal_strlit("active");
    assert("providers"@.len() == 9 && "active"@.len() == 6);
    let fields = provider_list_data(document)->Object_0;
    member_at(fields, 0);
    member_at(fields, 1);
}

// ---------------------------------------------------------------------------
// Prompts
// ---------------------------------------------------------------------------

proof fn ends_hold(before: Seq<char>, part: Seq<char>)
    ensures
        contains(before + part, part),
{
    parts_are_contained(before, part, Seq::empty());
    assert(before + part + Seq::<char>::empty() =~= before + part);
}

proof fn front_holds(part: Seq<char>, after: Seq<char>, inner: Seq<char>)
    requires
        contains(part, inner),
    ensures
        contains(part + after, inner),
{
    parts_are_contained(Seq::empty(), part, after);
    assert(Seq::<char>::empty() + part + after =~= part + after);
    contained_in_contained(part + after, part, inner);
}

proof fn end_holds(before: Seq<char>, part: Seq<char>, inner: Seq<char>)
    requires
        contains(part, inner),
    ensures
        contains(before + part, inner),
{
    ends_hold(before, part);
    contained_in_contained(before + part, part, inner);
}

/// The lists in a prompt name each of their entries, and an empty list is left out; an own
/// identity and the rules of the project stand in it whole.
pub proof fn parts_of_prompts_are_whole(
    heading: Seq<char>,
    list: Seq<Seq<char>>,
    i: int,
    custom: Seq<char>,
    instructions: Seq<char>,
)
    ensures
        0 <= i < list.len() ==> contains(named_list(heading, list), list[i]),
        list.len() == 0 ==> named_list(heading, list).len() == 0,
        !is_blank(custom) ==> contains(identity(custom), trimmed(custom)),
        is_blank(custom) ==> identity(custom).len() == 0,
        !is_blank(instructions) ==> ends_with(project_part(instructions), instructions),
        is_blank(instructions) ==> project_part(instructions).len() == 0,
{
    if 0 <= i < list.len() {
        joined_holds_its_parts(list, ", "@, i);
        end_holds(heading, joined(list, ", "@), list[i]);
    }
    parts_are_contained("## Custom Identity (身份定位)\n"@, trimmed(custom), "\n\n"@);
    parts_are_contained("\n\nProject instructions:\n"@, instructions, Seq::empty());
}

/// The prompt of the terminal tells where it works, what is installed, what is remembered and
/// what the project asks for.
#[verifier::rlimit(40)]
pub proof fn terminal_prompts_tell_everything(
    home: Seq<char>,
    cwd: Seq<char>,
    policy: crate::agents::AccessMode,
    label: Seq<char>,
    skills: Seq<Seq<char>>,
    servers: Seq<Seq<char>>,
    custom: Seq<char>,
    memory: Seq<char>,
    instructions: Seq<char>,
    i: int,
)
    ensures
        ({
            let whole = terminal_prompt(
                home,
                cwd,
                policy,
                label,
                skills,
                servers,
                custom,
                memory,
                instructions,
            );
            &&& contains(whole, cwd)
            &&& contains(whole, home)
            &&& contains(whole, memory)
            &&& !is_blank(custom) ==> contains(whole, trimmed(custom))
            &&& !is_blank(instructions) ==> contains(whole, instructions)
            &&& 0 <= i < skills.len() ==> contains(whole, skills[i])
            &&& 0 <= i < servers.len() ==> contains(whole, servers[i])
        }),
{
    let a = identity(custom);
    let b = a + crate::prompts::TERMINAL_ROLE@ + crate::prompts::access_rule(policy);
    let layout = terminal_layout(cwd, home, label);
    let c = b + layout;
    let d = c + crate::prompts::TERMINAL_PATH_RULE@ + crate::prompts::TERMINAL_SETUP_RULE@
        + crate::prompts::TERMINAL_SKILLS_RULE@;
    let e = d + named_list("\nInstalled skills: "@, skills);
    let f = e + named_list("\nConfigured MCP servers: "@, servers);
    let remembered = if memory.len() == 0 {
        Seq::empty()
    } else {
        "\n\nPersistent memory (local overrides project and global):\n"@ + memory
    };
    let g = f + remembered;
    let whole = g + project_part(instructions);
    assert(whole == terminal_prompt(
        home,
        cwd,
        policy,
        label,
        skills,
        servers,
        custom,
        memory,
        instructions,
    ));
    parts_of_prompts_are_whole("\nInstalled skills: "@, skills, i, custom, instructions);
    parts_of_prompts_are_whole("\nConfigured MCP servers: "@, servers, i, custom, instructions);
    layout_holds(cwd, home, label);
    grows(c, crate::prompts::TERMINAL_PATH_RULE@, crate::prompts::TERMINAL_SETUP_RULE@, crate::prompts::TERMINAL_SKILLS_RULE@);
    grows(e, named_list("\nConfigured MCP servers: "@, servers), remembered, project_part(instructions));
    end_holds(b, layout, cwd);
    end_holds(b, layout, home);
    carried(c, d, e, cwd, named_list("\nInstalled skills: "@, skills));
    carried(c, d, e, home, named_list("\nInstalled skills: "@, skills));
    contained_in_contained(whole, e, cwd);
    contained_in_contained(whole, e, home);
    if 0 <= i < skills.len() {
        end_holds(d, named_list("\nInstalled skills: "@, skills), skills[i]);
        contained_in_contained(whole, e, skills[i]);
    }
    if 0 <= i < servers.len() {
        end_holds(e, named_list("\nConfigured MCP servers: "@, servers), servers[i]);
        grows(f, remembered, project_part(instructions), Seq::empty());
        assert(f + remembered + project_part(instructions) + Seq::<char>::empty() =~= whole);
        contained_in_contained(whole, f, servers[i]);
    }
    if memory.len() > 0 {
        ends_hold("\n\nPersistent memory (local overrides project and global):\n"@, memory);
        end_holds(f, remembered, memory);
        front_holds(g, project_part(instructions), memory);
    } else {
        parts_are_contained(Seq::empty(), memory, whole);
        assert(Seq::<char>::empty() + memory + whole =~= whole);
    }
    if !is_blank(custom) {
        front_holds(a, crate::prompts::TERMINAL_ROLE@, trimmed(custom));
        front_holds(
            a + crate::prompts::TERMINAL_ROLE@,
            crate::prompts::access_rule(policy),
            trimmed(custom),
        );
        front_holds(b, layout, trimmed(custom));
        carried(c, d, e, trimmed(custom), named_list("\nInstalled skills: "@, skills));
        contained_in_contained(whole, e, trimmed(custom));
    }
    if !is_blank(instructions) {
        ends_hold("\n\nProject instructions:\n"@, instructions);
        end_holds(g, project_part(instructions), instructions);
    }
}

proof fn grows(start: Seq<char>, a: Seq<char>, b: Seq<char>, c: Seq<char>)
    ensures
        contains(start + a + b + c, start),
{
    parts_are_contained(Seq::empty(), start, a + b + c);
    assert(Seq::<char>::empty() + start + (a + b + c) =~= start + a + b + c);
}

proof fn carried(c: Seq<char>, d: Seq<char>, e: Seq<char>, inner: Seq<char>, list: Seq<char>)
    requires
        contains(c, inner),
        contains(d, c),
        e == d + list,
    ensures
        contains(e, inner),
{
    contained_in_contained(d, c, inner);
    front_holds(d, list, inner);
}

proof fn layout_holds(cwd: Seq<char>, home: Seq<char>, label: Seq<char>)
    ensures
        contains(terminal_layout(cwd, home, label), cwd),
        contains(terminal_layout(cwd, home, label), home),
        contains(terminal_layout(cwd, home, label), label),
{
    let a = "\n\nFilesystem layout:\n- Working directory: "@;
    let b = "\n- Coomi home: "@;
    let c = "\nAccess policy: "@;
    let whole = terminal_layout(cwd, home, label);
    parts_are_contained(a, cwd, b + home + c + label);
    assert(a + cwd + (b + home + c + label) =~= whole);
    parts_are_contained(a + cwd + b, home, c + label);
    assert(a + cwd + b + home + (c + label) =~= whole);
    ends_hold(a + cwd + b + home + c, label);
}

/// The layout of the device tells where the engine works, where it is at home and what it may
/// do.
pub proof fn device_layouts_tell_the_places(cwd: Seq<char>, home: Seq<char>, label: Seq<char>)
    ensures
        contains(device_layout(cwd, home, label), cwd),
        contains(device_layout(cwd, home, label), home),
        ends_with(device_layout(cwd, home, label), label),
{
    reveal(device_layout);
    let s1 = Seq::<char>::empty() + "\n\nEnvironment directory architecture:\n- Android host working directory (file tools and exports): "@;
    let s2 = s1 + cwd;
    ends_hold(s1, cwd);
    let s3 = s2 + "\n- Android host Coomi engine home: "@;
    front_holds(s2, "\n- Android host Coomi engine home: "@, cwd);
    let s4 = s3 + home;
    front_holds(s3, home, cwd);
    ends_hold(s3, home);
    let s5 = s4 + "\n- Engine configuration: "@;
    front_holds(s4, "\n- Engine configuration: "@, cwd);
    front_holds(s4, "\n- Engine configuration: "@, home);
    let s6 = s5 + home;
    front_holds(s5, home, cwd);
    front_holds(s5, home, home);
    let s7 = s6 + "/config (providers.json, mcp_servers.json, skills.json, settings.json)\n- Installed Skills: "@;
    front_holds(s6, "/config (providers.json, mcp_servers.json, skills.json, settings.json)\n- Installed Skills: "@, cwd);
    front_holds(s6, "/config (providers.json, mcp_servers.json, skills.json, settings.json)\n- Installed Skills: "@, home);
    let s8 = s7 + home;
    front_holds(s7, home, cwd);
    front_holds(s7, home, home);
    let s9 = s8 + "/skills; Skill tools read this host directory\n- Sessions, memory, cache and tasks: "@;
    front_holds(s8, "/skills; Skill tools read this host directory\n- Sessions, memory, cache and tasks: "@, cwd);
    front_holds(s8, "/skills; Skill tools read this host directory\n- Sessions, memory, cache and tasks: "@, home);
    let s10 = s9 + home;
    front_holds(s9, home, cwd);
    front_holds(s9, home, home);
    let s11 = s10 + "/sessions, "@;
    front_holds(s10, "/sessions, "@, cwd);
    front_holds(s10, "/sessions, "@, home);
    let s12 = s11 + home;
    front_holds(s11, home, cwd);
    front_holds(s11, home, home);
    let s13 = s12 + "/memory, "@;
    front_holds(s12, "/memory, "@, cwd);
    front_holds(s12, "/memory, "@, home);
    let s14 = s13 + home;
    front_holds(s13, home, cwd);
    front_holds(s13, home, home);
    let s15 = s14 + "/cache and "@;
    front_holds(s14, "/cache and "@, cwd);
    front_holds(s14, "/cache and "@, home);
    let s16 = s15 + home;
    front_holds(s15, home, cwd);
    front_holds(s15, home, home);
    let s17 = s16 + "/tasks\n- Runtime state and verified archives: "@;
    front_holds(s16, "/tasks\n- Runtime state and verified archives: "@, cwd);
    front_holds(s16, "/tasks\n- Runtime state and verified archives: "@, home);
    let s18 = s17 + home;
    front_holds(s17, home, cwd);
    front_holds(s17, home, home);
    let s19 = s18 + "/runtime-v2/state.json and "@;
    front_holds(s18, "/runtime-v2/state.json and "@, cwd);
    front_holds(s18, "/runtime-v2/state.json and "@, home);
    let s20 = s19 + home;
    front_holds(s19, home, cwd);
    front_holds(s19, home, home);
    let s21 = s20 + "/runtime-v2/downloads\n- Runtime versions/rootfs: "@;
    front_holds(s20, "/runtime-v2/downloads\n- Runtime versions/rootfs: "@, cwd);
    front_holds(s20, "/runtime-v2/downloads\n- Runtime versions/rootfs: "@, home);
    let s22 = s21 + home;
    front_holds(s21, home, cwd);
    front_holds(s21, home, home);
    let s23 = s22 + "/runtime-v2/versions/<version>\n- Persistent ProotLinux guest home on the host: "@;
    front_holds(s22, "/runtime-v2/versions/<version>\n- Persistent ProotLinux guest home on the host: "@, cwd);
    front_holds(s22, "/runtime-v2/versions/<version>\n- Persistent ProotLinux guest home on the host: "@, home);
    let s24 = s23 + home;
    front_holds(s23, home, cwd);
    front_holds(s23, home, home);
    let s25 = s24 + "/runtime-v2/home\n- Inside ProotLinux, /workspace maps exactly to the Android host working directory above\n- Inside ProotLinux, /home/coomi maps to "@;
    front_holds(s24, "/runtime-v2/home\n- Inside ProotLinux, /workspace maps exactly to the Android host working directory above\n- Inside ProotLinux, /home/coomi maps to "@, cwd);
    front_holds(s24, "/runtime-v2/home\n- Inside ProotLinux, /workspace maps exactly to the Android host working directory above\n- Inside ProotLinux, /home/coomi maps to "@, home);
    let s26 = s25 + home;
    front_holds(s25, home, cwd);
    front_holds(s25, home, home);
    let s27 = s26 + "/runtime-v2/home and is the persistent guest home\n- Inside ProotLinux, /tmp maps to "@;
    front_holds(s26, "/runtime-v2/home and is the persistent guest home\n- Inside ProotLinux, /tmp maps to "@, cwd);
    front_holds(s26, "/runtime-v2/home and is the persistent guest home\n- Inside ProotLinux, /tmp maps to "@, home);
    let s28 = s27 + home;
    front_holds(s27, home, cwd);
    front_holds(s27, home, home);
    let s29 = s28 + "/runtime-v2/tmp and /usr/local/bin/proot is the verified launcher\n- Custom Coomi development checkout: /home/coomi/custom_coomi in shell commands, backed by "@;
    front_holds(s28, "/runtime-v2/tmp and /usr/local/bin/proot is the verified launcher\n- Custom Coomi development checkout: /home/coomi/custom_coomi in shell commands, backed by "@, cwd);
    front_holds(s28, "/runtime-v2/tmp and /usr/local/bin/proot is the verified launcher\n- Custom Coomi development checkout: /home/coomi/custom_coomi in shell commands, backed by "@, home);
    let s30 = s29 + home;
    front_holds(s29, home, cwd);
    front_holds(s29, home, home);
    let s31 = s30 + "/runtime-v2/home/custom_coomi on the host\n- MCP definitions live at "@;
    front_holds(s30, "/runtime-v2/home/custom_coomi on the host\n- MCP definitions live at "@, cwd);
    front_holds(s30, "/runtime-v2/home/custom_coomi on the host\n- MCP definitions live at "@, home);
    let s32 = s31 + home;
    front_holds(s31, home, cwd);
    front_holds(s31, home, home);
    let s33 = s32 + "/config/mcp_servers.json. MCP stdio processes are started by the Android host engine unless their configuration explicitly launches through ProotLinux\nPath rules: shell commands use guest paths such as /workspace and /home/coomi; built-in file tools and file export use the corresponding Android host absolute paths. Never treat a legacy Termux path as proof that ProotLinux is unavailable.\nAccess policy: "@;
    front_holds(s32, "/config/mcp_servers.json. MCP stdio processes are started by the Android host engine unless their configuration explicitly launches through ProotLinux\nPath rules: shell commands use guest paths such as /workspace and /home/coomi; built-in file tools and file export use the corresponding Android host absolute paths. Never treat a legacy Termux path as proof that ProotLinux is unavailable.\nAccess policy: "@, cwd);
    front_holds(s32, "/config/mcp_servers.json. MCP stdio processes are started by the Android host engine unless their configuration explicitly launches through ProotLinux\nPath rules: shell commands use guest paths such as /workspace and /home/coomi; built-in file tools and file export use the corresponding Android host absolute paths. Never treat a legacy Termux path as proof that ProotLinux is unavailable.\nAccess policy: "@, home);
    let s34 = s33 + label;
    front_holds(s33, label, cwd);
    front_holds(s33, label, home);
    assert(s34 == device_layout(cwd, home, label));
    parts_are_contained(s33, label, Seq::empty());
}

/// The prompt of the web bridge holds an own identity, names what is installed, and holds the
/// rules of the project and where the engine works.
pub proof fn web_prompts_tell_everything(
    home: Seq<char>,
    cwd: Seq<char>,
    policy: crate::agents::AccessMode,
    label: Seq<char>,
    skills: Seq<Seq<char>>,
    custom: Seq<char>,
    instructions: Seq<char>,
    guest: bool,
    memory: bool,
    i: int,
)
    ensures
        ({
            let whole = web_prompt(
                home,
                cwd,
                policy,
                label,
                skills,
                custom,
                instructions,
                guest,
                memory,
            );
            &&& contains(whole, cwd)
            &&& contains(whole, home)
            &&& !is_blank(custom) ==> contains(whole, trimmed(custom))
            &&& !is_blank(instructions) ==> contains(whole, instructions)
            &&& 0 <= i < skills.len() ==> contains(whole, skills[i])
        }),
{
    let layout = device_layout(cwd, home, label);
    let list = named_list("\nInstalled skills: "@, skills);
    let project = project_part(instructions);
    let runtime = if guest {
        crate::prompts::GUEST_RUNTIME@
    } else {
        Seq::empty()
    };
    let privacy = if memory {
        Seq::empty()
    } else {
        crate::prompts::PRIVACY_RULE@
    };
    let a = identity(custom);
    let b = a + crate::prompts::WEB_ROLE@ + crate::prompts::WEB_COMMUNICATION@
        + crate::prompts::WEB_DOWNLOADS@;
    let c = b + crate::prompts::WEB_SKILLS@ + crate::prompts::access_rule(policy);
    let d = c + layout;
    let e = d + crate::prompts::SOURCE_MAP@ + runtime + crate::prompts::WEB_PATH_RULE@;
    let f = e + list;
    let g = f + project;
    let whole = g + privacy;
    assert(whole == web_prompt(
        home,
        cwd,
        policy,
        label,
        skills,
        custom,
        instructions,
        guest,
        memory,
    ));
    parts_of_prompts_are_whole("\nInstalled skills: "@, skills, i, custom, instructions);
    device_layouts_tell_the_places(cwd, home, label);
    grows(d, crate::prompts::SOURCE_MAP@, runtime, crate::prompts::WEB_PATH_RULE@);
    grows(e, list, project, privacy);
    end_holds(c, layout, cwd);
    end_holds(c, layout, home);
    contained_in_contained(e, d, cwd);
    contained_in_contained(e, d, home);
    contained_in_contained(whole, e, cwd);
    contained_in_contained(whole, e, home);
    if 0 <= i < skills.len() {
        end_holds(e, list, skills[i]);
        front_holds(f, project, skills[i]);
        front_holds(g, privacy, skills[i]);
    }
    if !is_blank(instructions) {
        ends_hold("\n\nProject instructions:\n"@, instructions);
        end_holds(f, project, instructions);
        front_holds(g, privacy, instructions);
    }
    if !is_blank(custom) {
        grows(
            a,
            crate::prompts::WEB_ROLE@,
            crate::prompts::WEB_COMMUNICATION@,
            crate::prompts::WEB_DOWNLOADS@,
        );
        grows(b, crate::prompts::WEB_SKILLS@, crate::prompts::access_rule(policy), layout);
        contained_in_contained(b, a, trimmed(custom));
        contained_in_contained(d, b, trimmed(custom));
        contained_in_contained(e, d, trimmed(custom));
        contained_in_contained(whole, e, trimmed(custom));
    }
}

proof fn kinds_hold(
    markers: Seq<(Seq<char>, Seq<char>)>,
    files: Seq<Seq<char>>,
    i: int,
)
    requires
        0 <= i < markers.len(),
        files.contains(markers[i].0),
    ensures
        project_kinds(markers, files).contains(markers[i].1),
    decreases markers.len(),
{
    let shorter = markers.drop_last();
    let before = project_kinds(shorter, files);
    let all = project_kinds(markers, files);
    if i < markers.len() - 1 {
        kinds_hold(shorter, files, i);
        let k = choose|k: int| 0 <= k < before.len() && before[k] == markers[i].1;
        assert(all[k] == markers[i].1);
    } else if !before.contains(markers[i].1) {
        assert(all[all.len() - 1] == markers[i].1);
    }
}

/// The kinds of a project are those whose files it has.
pub proof fn projects_are_recognised(files: Seq<Seq<char>>)
    ensures
        files.contains("Cargo.toml"@) ==> project_kinds(
            crate::prompts::project_markers(),
            files,
        ).contains("rust"@),
        files.contains("package.json"@) ==> project_kinds(
            crate::prompts::project_markers(),
            files,
        ).contains("node"@),
        files.contains("go.mod"@) ==> project_kinds(
            crate::prompts::project_markers(),
            files,
        ).contains("go"@),
        files.contains("pyproject.toml"@) ==> project_kinds(
            crate::prompts::project_markers(),
            files,
        ).contains("python"@),
        files.len() == 0 ==> project_kinds(crate::prompts::project_markers(), files).len() == 0,
{
    let markers = crate::prompts::project_markers();
    if files.contains(markers[0].0) {
        kinds_hold(markers, files, 0);
    }
    if files.contains(markers[1].0) {
        kinds_hold(markers, files, 1);
    }
    if files.contains(markers[4].0) {
        kinds_hold(markers, files, 4);
    }
    if files.contains(markers[5].0) {
        kinds_hold(markers, files, 5);
    }
    if files.len() == 0 {
        no_kinds(markers, files);
    }
}

proof fn no_kinds(markers: Seq<(Seq<char>, Seq<char>)>, files: Seq<Seq<char>>)
    requires
        files.len() == 0,
    ensures
        project_kinds(markers, files).len() == 0,
    decreases markers.len(),
{
    if markers.len() > 0 {
        no_kinds(markers.drop_last(), files);
    }
}

// ---------------------------------------------------------------------------
// Search
// ---------------------------------------------------------------------------

proof fn something_occurs(hay: Seq<char>, needle: Seq<char>, from: int, at: int)
    requires
        0 <= from <= at,
        occurs_at(hay, needle, at),
    ensures
        occurrences(hay, needle, from) > 0,
    decreases at - from,
{
    if from < at && !occurs_at(hay, needle, from) {
        something_occurs(hay, needle, from + 1, at);
    }
}

proof fn nothing_occurs(hay: Seq<char>, needle: Seq<char>, from: int)
    requires
        !contains(hay, needle),
        0 <= from,
    ensures
        occurrences(hay, needle, from) == 0,
    decreases hay.len() + 1 - from,
{
    if from <= hay.len() {
        assert(!occurs_at(hay, needle, from));
        nothing_occurs(hay, needle, from + 1);
    }
}

/// A text counts for a term exactly where it holds it, each time by its weight.
pub proof fn terms_count_where_they_stand(text: Seq<char>, term: Seq<char>, each: nat, each_compact: nat)
    requires
        each > 0,
    ensures
        contains(text, term) <==> occurrences(text, term, 0) > 0,
        contains(text, term) ==> points(text, term, each, each_compact) == each * occurrences(
            text,
            term,
            0,
        ) && points(text, term, each, each_compact) > 0,
        !contains(text, term) && !contains(crate::search::compact(text), term) ==> points(
            text,
            term,
            each,
            each_compact,
        ) == 0,
{
    if contains(text, term) {
        let at = choose|i: int| occurs_at(text, term, i);
        something_occurs(text, term, 0, at);
        let hits = occurrences(text, term, 0);
        assert(each * hits > 0) by (nonlinear_arith)
            requires
                each > 0,
                hits > 0,
        ;
    } else {
        nothing_occurs(text, term, 0);
    }
    if !contains(crate::search::compact(text), term) {
        nothing_occurs(crate::search::compact(text), term, 0);
    }
}

/// A session is found by a term that its title, its summary, its preview or its model holds; one
/// in the title weighs five times one in the preview.
pub proof fn sessions_are_found_by_their_words(card: SessionCardView, term: Seq<char>)
    ensures
        contains(lower_text(card.title), term) ==> term_score(card, term) >= 5,
        contains(lower_text(card.summary), term) ==> term_score(card, term) >= 3,
        contains(lower_text(card.preview), term) ==> term_score(card, term) >= 1,
        contains(lower_text(card.model), term) ==> term_score(card, term) >= 1,
{
    terms_count_where_they_stand(lower_text(card.title), term, 5, 2);
    terms_count_where_they_stand(lower_text(card.summary), term, 3, 1);
    terms_count_where_they_stand(lower_text(card.preview), term, 1, 1);
    if contains(lower_text(card.title), term) {
        let hits = occurrences(lower_text(card.title), term, 0);
        assert(5 * hits >= 5) by (nonlinear_arith)
            requires
                hits > 0,
        ;
    }
    if contains(lower_text(card.summary), term) {
        let hits = occurrences(lower_text(card.summary), term, 0);
        assert(3 * hits >= 3) by (nonlinear_arith)
            requires
                hits > 0,
        ;
    }
}

/// Each term of a query of at least two characters is looked for in lower case, and shorter ones
/// are not.
pub proof fn terms_are_looked_for(parts: Seq<Seq<char>>, term: Seq<char>)
    ensures
        term.len() >= 2 ==> terms_among(parts.push(term)) == terms_among(parts).push(
            lower_text(term),
        ),
        term.len() < 2 ==> terms_among(parts.push(term)) == terms_among(parts),
        terms_among(Seq::empty()).len() == 0,
{
    assert(parts.push(term).drop_last() =~= parts);
}

/// Entries and models are found by a part of their names in any case; an empty query finds all.
pub proof fn entries_are_found_by_parts_of_names(id: Seq<char>, name: Seq<char>, query: Seq<char>)
    ensures
        finds_entry(id, name, Seq::empty()),
        contains(lower(name), query) ==> finds_entry(id, name, query),
        contains(lower(id), query) ==> finds_entry(id, name, query),
        query.len() > 0 && !contains(lower(name), query) && !contains(lower(id), query)
            ==> !finds_entry(id, name, query),
{
}

// ---------------------------------------------------------------------------
// Printed lines
// ---------------------------------------------------------------------------

/// The words of the model are printed to the output and nothing else is; calls are printed with
/// their names and whether they succeeded.
pub proof fn words_are_printed(text: Seq<char>, call: ToolCallView, result: ToolResultView)
    ensures
        printed_event(AgentEventView::Text(text)) matches Some(printed) && printed.stream
            == Stream::Output && contains(printed.text, text),
        printed_event(AgentEventView::TextDelta(text)) matches Some(printed) && printed.stream
            == Stream::Output && printed.text == text,
        printed_event(AgentEventView::ReasoningDelta(text)) matches Some(printed) && printed.stream
            == Stream::Errors && printed.text == text,
        printed_event(AgentEventView::ToolStarted(call)) matches Some(printed) && printed.stream
            == Stream::Errors && contains(printed.text, call.name),
        printed_event(AgentEventView::ToolFinished { call, result }) matches Some(printed)
            && printed.stream == Stream::Errors && contains(printed.text, call.name)
            && contains(printed.text, if result.success {
            " ok] "@
        } else {
            " error] "@
        }),
{
    reveal(printed_event);
    parts_are_contained("\n"@, text, "\n"@);
    let a = "[tool "@;
    let start = "] "@ + one_line(crate::codec::compact_text(call.arguments)) + "\n"@;
    parts_are_contained(a, call.name, start);
    assert(a + call.name + start =~= a + call.name + "] "@ + one_line(
        crate::codec::compact_text(call.arguments),
    ) + "\n"@);
    let word = if result.success {
        "ok"@
    } else {
        "error"@
    };
    let mark = if result.success {
        " ok] "@
    } else {
        " error] "@
    };
    reveal_strlit(" ok] ");
    reveal_strlit(" error] ");
    reveal_strlit("ok");
    reveal_strlit("error");
    reveal_strlit(" ");
    reveal_strlit("] ");
    assert(mark =~= " "@ + word + "] "@);
    let rest = one_line(result.output) + "\n"@;
    let whole = a + call.name + " "@ + word + "] "@ + one_line(result.output) + "\n"@;
    parts_are_contained(a, call.name, mark + rest);
    assert(a + call.name + (mark + rest) =~= whole);
    parts_are_contained(a + call.name, mark, rest);
    assert(a + call.name + mark + rest =~= whole);
}

/// The lines for sessions name them; a short line is kept whole.
pub proof fn lines_name_what_they_list(
    width: nat,
    id: Seq<char>,
    updated: Seq<char>,
    provider_id: Seq<char>,
    model: Seq<char>,
    title: Seq<char>,
    about: Seq<char>,
)
    ensures
        starts_with(session_line(id, updated, provider_id, model, title, about), id),
        title.len() > 0 ==> ends_with(
            session_line(id, updated, provider_id, model, title, about),
            title,
        ),
        title.len() == 0 ==> ends_with(
            session_line(id, updated, provider_id, model, title, about),
            about,
        ),
        starts_with(padded(id, width), id),
        padded(id, width).len() >= width,
        joined(crate::pieces::words(about), " "@).len() <= 180 ==> one_line(about) == joined(
            crate::pieces::words(about),
            " "@,
        ),
{
    let line = session_line(id, updated, provider_id, model, title, about);
    assert(line.take(id.len() as int) =~= id);
    let tail = if title.len() == 0 {
        about
    } else {
        title
    };
    assert(line.skip(line.len() - tail.len()) =~= tail);
    assert(padded(id, width).take(id.len() as int) =~= id);
}

/// The line of a model names it and how it is chosen, and marks the one in use.
pub proof fn model_lines_name_models(index: nat, choice: ModelChoiceView, active: Seq<char>)
    ensures
        contains(model_line(index, choice, active), choice.selector),
        contains(model_line(index, choice, active), choice.model),
        choice.provider_id == active && !choice.is_fast ==> ends_with(
            model_line(index, choice, active),
            " *"@,
        ),
{
    let number = crate::cli::aligned(decimal(index + 1), 2) + ". "@;
    let selector = padded(choice.selector, 24);
    let fast = if choice.is_fast {
        " [fast]"@
    } else {
        ""@
    };
    let mark = if choice.provider_id == active && !choice.is_fast {
        " *"@
    } else {
        ""@
    };
    let named = number + selector;
    let shown = named + " "@ + choice.provider_display + " / "@;
    let line = shown + choice.model;
    let whole = line + fast + mark;
    assert(whole == model_line(index, choice, active));
    assert(contains(selector, choice.selector)) by {
        let blank = if choice.selector.len() >= 24 {
            Seq::empty()
        } else {
            crate::cli::blanks((24 - choice.selector.len()) as nat)
        };
        parts_are_contained(Seq::empty(), choice.selector, blank);
        assert(Seq::<char>::empty() + choice.selector + blank =~= selector);
    }
    end_holds(number, selector, choice.selector);
    grows(named, " "@, choice.provider_display, " / "@);
    contained_in_contained(shown, named, choice.selector);
    front_holds(shown, choice.model, choice.selector);
    front_holds(line, fast, choice.selector);
    front_holds(line + fast, mark, choice.selector);
    ends_hold(shown, choice.model);
    front_holds(line, fast, choice.model);
    front_holds(line + fast, mark, choice.model);
    parts_are_contained(line + fast, mark, Seq::empty());
}

// ---------------------------------------------------------------------------
// Other events
// ---------------------------------------------------------------------------

/// A wait before a request, a summary, a step of a plan and the state of a loop are told with
/// their numbers.
pub proof fn other_events_are_told(
    task: SessionTaskView,
    calls: Seq<(Seq<char>, Seq<char>)>,
    facts: EventFactsView,
    attempt: u8,
    max_attempts: u8,
    delay_ms: u64,
    message: Seq<char>,
    automatic: bool,
    before_tokens: u64,
    after_tokens: u64,
)
    ensures
        ({
            let waited = told(
                task,
                calls,
                AgentEventView::ConnectionRetry { attempt, max_attempts, delay_ms, message },
                facts,
            ).unacked_events.last();
            let summed = told(
                task,
                calls,
                AgentEventView::CompactionCompleted { automatic, before_tokens, after_tokens },
                facts,
            ).unacked_events.last();
            &&& member(waited, "attempt"@) == Some(JsonView::Number(decimal(attempt as nat)))
            &&& member(waited, "delay_ms"@) == Some(JsonView::Number(decimal(delay_ms as nat)))
            &&& member(waited, "message"@) == Some(JsonView::Text(message))
            &&& member(summed, "before"@) == Some(JsonView::Number(decimal(before_tokens as nat)))
            &&& member(summed, "after"@) == Some(JsonView::Number(decimal(after_tokens as nat)))
        }),
{
    reveal(told);
    reveal_strlit("event_type");
    reveal_strlit("attempt");
    reveal_strlit("max_attempts");
    reveal_strlit("delay_ms");
    reveal_strlit("message");
    reveal_strlit("before");
    reveal_strlit("after");
    reveal_strlit("event_seq");
    assert("event_type"@.len() == 10 && "attempt"@.len() == 7);
    assert("max_attempts"@.len() == 12 && "delay_ms"@.len() == 8);
    assert("message"@.len() == 7 && "before"@.len() == 6);
    assert("after"@.len() == 5 && "event_seq"@.len() == 9);
    assert("attempt"@[0] == 'a' && "message"@[0] == 'm');
    let n = task.next_event_seq;
    let w = retry_data(
        attempt as nat,
        max_attempts as nat,
        delay_ms as nat,
        message,
    )->Object_0;
    numbered_member(w, 1, n);
    numbered_member(w, 3, n);
    numbered_member(w, 4, n);
    let c = compression_data(before_tokens as nat, after_tokens as nat)->Object_0;
    numbered_member(c, 1, n);
    numbered_member(c, 2, n);
}

/// The step of a plan that is told is the one under way, by its number and its text; a loop is
/// told by how many turns it took.
pub proof fn steps_and_loops_are_told(
    task: SessionTaskView,
    calls: Seq<(Seq<char>, Seq<char>)>,
    facts: EventFactsView,
    plan: PlanView,
    state: LoopStateView,
)
    ensures
        ({
            let stepped = told(task, calls, AgentEventView::PlanUpdated(plan), facts);
            let looped = told(
                task,
                calls,
                AgentEventView::LoopUpdated(state),
                facts,
            ).unacked_events.last();
            &&& step_in_progress(plan.steps, 0) is None ==> stepped == task
            &&& step_in_progress(plan.steps, 0) matches Some(at) ==> member(
                stepped.unacked_events.last(),
                "step_description"@,
            ) == Some(JsonView::Text(plan.steps[at].step)) && member(
                stepped.unacked_events.last(),
                "step_index"@,
            ) == Some(JsonView::Number(decimal((at + 1) as nat)))
            &&& member(looped, "current_step"@) == Some(
                JsonView::Number(decimal(state.turns_completed as nat)),
            )
            &&& state.status == LoopStatus::Active ==> member(looped, "status"@) == Some(
                JsonView::Text("active"@),
            )
            &&& state.status == LoopStatus::Complete ==> member(looped, "status"@) == Some(
                JsonView::Text("complete"@),
            )
        }),
{
    reveal(told);
    reveal_strlit("event_type");
    reveal_strlit("step_index");
    reveal_strlit("step_description");
    reveal_strlit("total_steps");
    reveal_strlit("current_step");
    reveal_strlit("status");
    reveal_strlit("event_seq");
    assert("event_type"@.len() == 10 && "step_index"@.len() == 10);
    assert("step_description"@.len() == 16 && "total_steps"@.len() == 11);
    assert("current_step"@.len() == 12 && "status"@.len() == 6);
    assert("event_seq"@.len() == 9 && "event_type"@[0] == 'e');
    assert("step_index"@[0] == 's');
    let n = task.next_event_seq;
    if let Some(at) = step_in_progress(plan.steps, 0) {
        let s = step_data(plan, at)->Object_0;
        numbered_member(s, 1, n);
        numbered_member(s, 2, n);
    }
    let l = loop_data(state)->Object_0;
    numbered_member(l, 1, n);
    numbered_member(l, 3, n);
}

/// A download is noted under its call from the start of the call to its end.
pub proof fn downloads_are_noted(
    calls: Seq<(Seq<char>, Seq<char>)>,
    call: ToolCallView,
    result: ToolResultView,
    other: Seq<char>,
)
    ensures
        call_download(call) matches Some(label) ==> lookup(
            noted_downloads(calls, AgentEventView::ToolStarted(call)),
            call.id,
        ) == Some(label),
        call_download(call) is None ==> noted_downloads(calls, AgentEventView::ToolStarted(call))
            == calls,
        lookup(noted_downloads(calls, AgentEventView::ToolFinished { call, result }), call.id)
            is None,
        other != call.id ==> lookup(
            noted_downloads(calls, AgentEventView::ToolFinished { call, result }),
            other,
        ) == lookup(calls, other),
{
    if let Some(label) = call_download(call) {
        crate::table::put_is_found(calls, call.id, label, call.id);
    }
    crate::text_laws::removals_touch_one_key(calls, call.id, other);
}

/// The context is divided into the shares of its parts, each under its name.
pub proof fn shares_have_their_names(
    prompt: Seq<char>,
    messages: Seq<(Seq<char>, Seq<char>)>,
    tools: Seq<(Seq<char>, Seq<char>)>,
    servers: Seq<Seq<char>>,
    skills: Seq<Seq<char>>,
)
    ensures
        ({
            let shares = context_shares(prompt, messages, tools, servers, skills);
            &&& lookup(shares, "messages"@) == Some(message_estimate(messages) as u64)
            &&& lookup(shares, "system_prompt"@) == Some(text_estimate(prompt) as u64)
            &&& lookup(shares, "skills"@) == Some(list_estimate(skills) as u64)
            &&& lookup(shares, "mcp_tools"@) == Some(named_estimate(tools, servers, true) as u64)
            &&& lookup(shares, "system_tools"@) == Some(
                named_estimate(tools, servers, false) as u64,
            )
        }),
{
    reveal_strlit("mcp_tools");
    reveal_strlit("messages");
    reveal_strlit("other");
    reveal_strlit("skills");
    reveal_strlit("system_prompt");
    reveal_strlit("system_tools");
    assert("mcp_tools"@.len() == 9 && "messages"@.len() == 8);
    assert("other"@.len() == 5 && "skills"@.len() == 6);
    assert("system_prompt"@.len() == 13 && "system_tools"@.len() == 12);
    let shares = context_shares(prompt, messages, tools, servers, skills);
    row_at(shares, 0);
    row_at(shares, 1);
    row_at(shares, 3);
    row_at(shares, 4);
    row_at(shares, 5);
}

proof fn row_at(pairs: Seq<(Seq<char>, u64)>, i: int)
    requires
        0 <= i < pairs.len(),
        forall|k: int| 0 <= k < i ==> (#[trigger] pairs[k]).0 != pairs[i].0,
    ensures
        lookup(pairs, pairs[i].0) == Some(pairs[i].1),
    decreases pairs.len(),
{
    if i > 0 {
        let rest = pairs.skip(1);
        assert(rest[i - 1] == pairs[i]);
        assert forall|k: int| 0 <= k < i - 1 implies (#[trigger] rest[k]).0 != rest[i - 1].0 by {
            assert(rest[k] == pairs[k + 1]);
        }
        row_at(rest, i - 1);
        assert(pairs[0].0 != pairs[i].0);
    }
}

/// A report that is sent holds the count of tokens and the shares of the context.
pub proof fn sent_reports_are_whole(
    observer: BrowserObserverView,
    rates: RateTextsView,
    stats: Seq<EffortStats>,
)
    ensures
        member(usage_event_data(observer, rates, stats), "event_type"@) == Some(
            JsonView::Text("usage_update"@),
        ),
        member(usage_event_data(observer, rates, stats), "usage"@) == Some(
            usage_data(usage_report(observer.usage), rates),
        ),
        member(usage_event_data(observer, rates, stats), "context_categories"@) matches Some(
            JsonView::Object(shares),
        ) && shares.len() == observer.context_categories.len() && forall|i: int|
            0 <= i < shares.len() ==> #[trigger] shares[i] == (
                observer.context_categories[i].0,
                JsonView::Number(decimal(observer.context_categories[i].1 as nat)),
            ),
{
    reveal_strlit("event_type");
    reveal_strlit("usage");
    reveal_strlit("reasoning_efforts");
    reveal_strlit("context_categories");
    assert("event_type"@.len() == 10 && "usage"@.len() == 5);
    assert("reasoning_efforts"@.len() == 17 && "context_categories"@.len() == 18);
    let fields = usage_event_data(observer, rates, stats)->Object_0;
    member_at(fields, 0);
    member_at(fields, 1);
    member_at(fields, 3);
}

/// The points of a session are the sum over the terms of the query; a model is found by a part of
/// its names.
pub proof fn points_are_summed(
    card: SessionCardView,
    terms: Seq<Seq<char>>,
    term: Seq<char>,
    choice: ModelChoiceView,
    query: Seq<char>,
)
    ensures
        terms_score(card, terms.push(term)) == terms_score(card, terms) + term_score(card, term),
        terms_score(card, Seq::empty()) == 0,
        finds_model(choice, Seq::empty()),
        contains(lower(choice.model), query) ==> finds_model(choice, query),
        contains(lower(choice.selector), query) ==> finds_model(choice, query),
        query.len() > 0 && !contains(lower(choice.model), query) && !contains(
            lower(choice.selector),
            query,
        ) && !contains(lower(choice.provider_display), query) ==> !finds_model(choice, query),
        !between_terms('_') && !between_terms('-') && !between_terms('.'),
{
    assert(terms.push(term).drop_last() =~= terms);
}

/// A query of one term, without anything between terms in it, is looked for as that term.
pub proof fn single_terms_are_looked_for(term: Seq<char>)
    requires
        term.len() >= 2,
        forall|k: int| 0 <= k < term.len() ==> !between_terms(#[trigger] term[k]),
    ensures
        search_terms(term) == seq![lower_text(term)],
{
    let cut = |c: char| between_terms(c);
    let whole = crate::pieces::split_on(term, cut);
    one_piece(term, cut);
    assert(whole == seq![term]);
    assert(whole.drop_last() =~= Seq::empty());
    reveal_with_fuel(terms_among, 2);
    assert(terms_among(whole) =~= seq![lower_text(term)]);
}

proof fn one_piece(s: Seq<char>, cut: spec_fn(char) -> bool)
    requires
        forall|k: int| 0 <= k < s.len() ==> !cut(#[trigger] s[k]),
    ensures
        crate::pieces::split_on(s, cut) == seq![s],
    decreases s.len(),
{
    if s.len() > 0 {
        let shorter = s.drop_last();
        assert forall|k: int| 0 <= k < shorter.len() implies !cut(#[trigger] shorter[k]) by {
            assert(!cut(s[k]));
        }
        one_piece(shorter, cut);
        assert(!cut(s[s.len() - 1]));
        assert(shorter.push(s.last()) =~= s);
        let before = seq![shorter];
        assert(before.drop_last().push(before.last().push(s.last())) =~= seq![s]);
    } else {
        assert(s =~= Seq::empty());
    }
}

} // verus!
