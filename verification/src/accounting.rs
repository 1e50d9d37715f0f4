//! What a turn leaves behind: the end hook, the account of the loop, and the summary of a
//! history that has grown too long.

use vstd::prelude::*;
use crate::agent::Agent;
use crate::events::AgentEvent;
use crate::events::AgentEventView;
use crate::events::ContextStatus;
use crate::events::Effect;
use crate::events::EffectView;
use crate::failure::error_text;
use crate::failure::hits_usage_limit;
use crate::failure::is_usage_limit_error;
use crate::failure::AgentError;
use crate::failure::AgentErrorView;
use crate::failure::ProviderFailure;
use crate::failure::ProviderFailureView;
use crate::json::field_trees;
use crate::json::field_trees_push;
use crate::json::object_view;
use crate::json::Json;
use crate::json::JsonView;
use crate::session::add_capped;
use crate::session::capped_sum;
use crate::session::floored_difference;
use crate::session::sub_floored;
use crate::session::system_message;
use crate::session::user_message;
use crate::session::ChatMessage;
use crate::session::ChatMessageView;
use crate::session::LoopStateView;
use crate::session::LoopStatus;
use crate::session::ModelRequest;
use crate::session::ModelRequestView;
use crate::session::Session;
use crate::session::SessionView;
use crate::session::TokenUsage;
use crate::text::blank;
use crate::turn::all_imageless;
use crate::turn::checkpoint;
use crate::turn::emit;
use crate::turn::imageless;
use crate::turn::with_context;
use crate::views::duplicate_all;
use crate::views::group_views;
use crate::views::views;
use crate::views::Duplicate;

verus! {

broadcast use {group_views, object_view, field_trees_push};

/// What a hook answered.
#[derive(Debug)]
pub enum HookReply {
    /// Nothing.
    Silent,
    /// Some context for the model.
    Context(String),
    /// It failed.
    Failed(String),
}

/// What a `HookReply` holds.
#[verifier::ext_equal]
pub enum HookReplyView {
    Silent,
    Context(Seq<char>),
    Failed(Seq<char>),
}

impl View for HookReply {
    type V = HookReplyView;

    open spec fn view(&self) -> HookReplyView {
        match *self {
            HookReply::Silent => HookReplyView::Silent,
            HookReply::Context(a0) => HookReplyView::Context(a0@),
            HookReply::Failed(a0) => HookReplyView::Failed(a0@),
        }
    }
}

/// How a turn ended.
#[derive(Debug)]
pub enum TurnResult {
    /// With a reply.
    Reply(String),
    /// With an error.
    Error(AgentError),
}

/// What a `TurnResult` holds.
#[verifier::ext_equal]
pub enum TurnResultView {
    Reply(Seq<char>),
    Error(AgentErrorView),
}

impl View for TurnResult {
    type V = TurnResultView;

    open spec fn view(&self) -> TurnResultView {
        match *self {
            TurnResult::Reply(a0) => TurnResultView::Reply(a0@),
            TurnResult::Error(a0) => TurnResultView::Error(a0@),
        }
    }
}

// ---------------------------------------------------------------------------
// Hook payloads
// ---------------------------------------------------------------------------

/// What the session-start hook is told.
pub open spec fn session_start_data(session: SessionView) -> JsonView {
    JsonView::Object(
        seq![
            ("session_id"@, JsonView::Text(session.id)),
            ("cwd"@, JsonView::Text(session.cwd)),
        ],
    )
}

/// What the turn-start hook is told.
pub open spec fn turn_start_data(session: SessionView, prompt: ChatMessageView) -> JsonView {
    JsonView::Object(
        seq![
            ("session_id"@, JsonView::Text(session.id)),
            ("prompt"@, JsonView::Text(prompt.content)),
            ("internal"@, JsonView::Bool(prompt.internal)),
        ],
    )
}

/// What the turn-end hook is told.
pub open spec fn turn_end_data(session: SessionView, result: TurnResultView) -> JsonView {
    JsonView::Object(
        seq![
            ("session_id"@, JsonView::Text(session.id)),
            ("success"@, JsonView::Bool(result is Reply)),
            (
                "error"@,
                match result {
                    TurnResultView::Reply(_) => JsonView::Null,
                    TurnResultView::Error(error) => JsonView::Text(error_text(error)),
                },
            ),
        ],
    )
}

/// Builds what the session-start hook is told.
pub fn session_start_payload(session: &Session) -> (result: Json)
    ensures
        result@ == session_start_data(session@),
{
    let mut fields: Vec<(String, Json)> = Vec::new();
    fields.push(("session_id".to_owned(), Json::text(&session.id)));
    fields.push(("cwd".to_owned(), Json::text(&session.cwd)));
    assert(field_trees(fields@) =~= session_start_data(session@)->Object_0);
    Json::Object(fields)
}

/// Builds what the turn-start hook is told.
pub fn turn_start_payload(session: &Session, prompt: &ChatMessage) -> (result: Json)
    ensures
        result@ == turn_start_data(session@, prompt@),
{
    let mut fields: Vec<(String, Json)> = Vec::new();
    fields.push(("session_id".to_owned(), Json::text(&session.id)));
    fields.push(("prompt".to_owned(), Json::text(&prompt.content)));
    fields.push(("internal".to_owned(), Json::Bool(prompt.internal)));
    assert(field_trees(fields@) =~= turn_start_data(session@, prompt@)->Object_0);
    Json::Object(fields)
}

/// Builds what the turn-end hook is told.
pub fn turn_end_payload(session: &Session, outcome: &TurnResult) -> (result: Json)
    ensures
        result@ == turn_end_data(session@, outcome@),
{
    let mut fields: Vec<(String, Json)> = Vec::new();
    fields.push(("session_id".to_owned(), Json::text(&session.id)));
    let (success, error) = match outcome {
        TurnResult::Reply(_) => (true, Json::Null),
        TurnResult::Error(error) => (false, Json::Text(error.describe())),
    };
    fields.push(("success".to_owned(), Json::Bool(success)));
    fields.push(("error".to_owned(), error));
    assert(field_trees(fields@) =~= turn_end_data(session@, outcome@)->Object_0);
    Json::Object(fields)
}

// ---------------------------------------------------------------------------
// The loop's account
// ---------------------------------------------------------------------------

/// The state of an active loop after a turn: a spent budget stops it before a refusal of the
/// provider does.
pub open spec fn status_after(
    status: LoopStatus,
    budget: Option<u64>,
    tokens_used: nat,
    error: Option<AgentErrorView>,
) -> LoopStatus {
    if status != LoopStatus::Active {
        status
    } else if budget is Some && tokens_used >= budget->0 {
        LoopStatus::BudgetLimited
    } else if error is Some && hits_usage_limit(error->0) {
        LoopStatus::UsageLimited
    } else {
        status
    }
}

/// The account of a loop after a turn.
pub open spec fn accounted(
    state: LoopStateView,
    usage: TokenUsage,
    usage_before: u64,
    seconds: u64,
    error: Option<AgentErrorView>,
) -> LoopStateView {
    let tokens_used = capped_sum(
        state.tokens_used as nat,
        floored_difference(usage.total(), usage_before as nat),
    );
    LoopStateView {
        tokens_used: tokens_used as u64,
        time_used_seconds: capped_sum(state.time_used_seconds as nat, seconds as nat) as u64,
        turns_completed: capped_sum(state.turns_completed as nat, 1) as u64,
        status: status_after(state.status, state.token_budget, tokens_used, error),
        ..state
    }
}

/// Books a turn on the account of the session's loop.
pub fn update_loop_accounting(
    session: &mut Session,
    usage_before: u64,
    elapsed_seconds: u64,
    error: Option<&AgentError>,
    effects: &mut Vec<Effect>,
)
    ensures
        match old(session)@.loop_state {
            Some(state) => {
                let after = accounted(
                    state,
                    old(session)@.usage,
                    usage_before,
                    elapsed_seconds,
                    match error {
                        Some(e) => Some(e@),
                        None => None,
                    },
                );
                &&& final(session)@ == (SessionView { loop_state: Some(after), ..old(session)@ })
                &&& views(final(effects)@) == views(old(effects)@).push(
                    emit(AgentEventView::LoopUpdated(after)),
                )
            },
            None => *final(session) == *old(session) && *final(effects) == *old(effects),
        },
{
    let mut state = match &session.loop_state {
        Some(state) => state.duplicate(),
        None => {
            return ;
        },
    };
    let spent: u64 = sub_floored(session.usage.total_tokens(), usage_before);
    state.tokens_used = add_capped(state.tokens_used, spent);
    state.time_used_seconds = add_capped(state.time_used_seconds, elapsed_seconds);
    state.turns_completed = add_capped(state.turns_completed, 1);
    if state.status == LoopStatus::Active {
        let spent_out = match state.token_budget {
            Some(budget) => state.tokens_used >= budget,
            None => false,
        };
        if spent_out {
            state.status = LoopStatus::BudgetLimited;
        } else if let Some(e) = error {
            if is_usage_limit_error(e) {
                state.status = LoopStatus::UsageLimited;
            }
        }
    }
    effects.push(Effect::Emit(AgentEvent::LoopUpdated(state.duplicate())));
    session.loop_state = Some(state);
}

/// How a turn ends once its end hook has answered: a failing hook turns a reply into an
/// error and leaves an error as it is.
pub open spec fn result_after_hook(result: TurnResultView, hook: HookReplyView) -> TurnResultView {
    match (result, hook) {
        (TurnResultView::Reply(_), HookReplyView::Failed(message)) => TurnResultView::Error(
            AgentErrorView::Hook(message),
        ),
        _ => result,
    }
}

/// The session once the end hook of a turn has answered.
pub open spec fn session_after_hook(session: SessionView, hook: HookReplyView) -> SessionView {
    match hook {
        HookReplyView::Context(context) => with_context(session, context),
        _ => session,
    }
}

/// The error of a turn.
pub open spec fn error_of(result: TurnResultView) -> Option<AgentErrorView> {
    match result {
        TurnResultView::Error(error) => Some(error),
        TurnResultView::Reply(_) => None,
    }
}

/// What the account of a loop tells the observers.
pub open spec fn account_effects(
    session: SessionView,
    usage_before: TokenUsage,
    seconds: u64,
    result: TurnResultView,
) -> Seq<EffectView> {
    (match session.loop_state {
        Some(state) => seq![
            emit(
                AgentEventView::LoopUpdated(
                    accounted(
                        state,
                        session.usage,
                        usage_before.total() as u64,
                        seconds,
                        error_of(result),
                    ),
                ),
            ),
        ],
        None => Seq::empty(),
    }) + (match result {
        TurnResultView::Reply(_) => seq![
            emit(
                AgentEventView::TurnCompleted {
                    total: session.usage,
                    turn: session.usage.since(usage_before),
                },
            ),
        ],
        TurnResultView::Error(_) => Seq::empty(),
    })
}

/// Closes a turn: takes the answer of its end hook, books it on the loop's account, and
/// tells what it used where it ended with a reply.
pub fn close_turn(
    session: &mut Session,
    usage_before: &TokenUsage,
    elapsed_seconds: u64,
    result: TurnResult,
    hook: HookReply,
    effects: &mut Vec<Effect>,
) -> (closed: TurnResult)
    ensures
        closed@ == result_after_hook(result@, hook@),
        ({
            let informed = session_after_hook(old(session)@, hook@);
            &&& final(session)@ == (SessionView {
                loop_state: match informed.loop_state {
                    Some(state) => Some(
                        accounted(
                            state,
                            informed.usage,
                            usage_before.total() as u64,
                            elapsed_seconds,
                            error_of(closed@),
                        ),
                    ),
                    None => None,
                },
                ..informed
            })
            &&& views(final(effects)@) == views(old(effects)@) + account_effects(
                informed,
                *usage_before,
                elapsed_seconds,
                closed@,
            )
        }),
{
    let closed = match hook {
        HookReply::Context(context) => {
            if !blank(&context) {
                session.messages.push(ChatMessage::internal_user(context));
            }
            result
        },
        HookReply::Failed(message) => match result {
            TurnResult::Reply(_) => TurnResult::Error(AgentError::Hook(message)),
            TurnResult::Error(error) => TurnResult::Error(error),
        },
        HookReply::Silent => result,
    };
    let ghost informed = session@;
    assert(informed == session_after_hook(old(session)@, hook@));
    let before: u64 = usage_before.total_tokens();
    match &closed {
        TurnResult::Reply(_) => {
            update_loop_accounting(session, before, elapsed_seconds, None, effects);
            effects.push(
                Effect::Emit(
                    AgentEvent::TurnCompleted {
                        total: session.usage,
                        turn: session.usage.saturating_sub(usage_before),
                    },
                ),
            );
        },
        TurnResult::Error(error) => {
            update_loop_accounting(session, before, elapsed_seconds, Some(error), effects);
        },
    }
    assert(views(effects@) =~= views(old(effects)@) + account_effects(
        informed,
        *usage_before,
        elapsed_seconds,
        closed@,
    ));
    closed
}

/// A loop never loses tokens, time or turns from its account, and a loop that is not active
/// stays in its state.
pub proof fn accounts_only_grow(
    state: LoopStateView,
    usage: TokenUsage,
    usage_before: u64,
    seconds: u64,
    error: Option<AgentErrorView>,
)
    ensures
        ({
            let after = accounted(state, usage, usage_before, seconds, error);
            &&& after.tokens_used >= state.tokens_used
            &&& after.time_used_seconds >= state.time_used_seconds
            &&& after.turns_completed >= state.turns_completed
            &&& after.objective == state.objective
            &&& state.status != LoopStatus::Active ==> after.status == state.status
        }),
{
}

/// After a turn an active loop has not spent its budget.
pub proof fn active_loops_are_within_budget(
    state: LoopStateView,
    usage: TokenUsage,
    usage_before: u64,
    seconds: u64,
    error: Option<AgentErrorView>,
)
    ensures
        ({
            let after = accounted(state, usage, usage_before, seconds, error);
            after.status == LoopStatus::Active && after.token_budget is Some ==> after.tokens_used
                < after.token_budget->0
        }),
{
}

// ---------------------------------------------------------------------------
// Summarising the history
// ---------------------------------------------------------------------------

/// How many tokens the history may have when it is summarised: the context window less the
/// room for the reply, and at least one.
pub open spec fn history_limit(context_window: nat, max_output_tokens: nat) -> nat {
    let room = floored_difference(context_window, max_output_tokens);
    if room < 1 {
        1
    } else {
        room
    }
}

/// Returns how many tokens the history may have when it is summarised. With the overhead of
/// the instruction in place of the reply it gives the room that is left beside it.
pub fn compaction_limit(context_window: u64, max_output_tokens: u64) -> (result: u64)
    ensures
        result as nat == history_limit(context_window as nat, max_output_tokens as nat),
        result >= 1,
{
    let room: u64 = sub_floored(context_window, max_output_tokens);
    if room < 1 {
        1
    } else {
        room
    }
}

/// Tells that summarising begins.
pub fn start_compaction(automatic: bool, effects: &mut Vec<Effect>)
    ensures
        views(final(effects)@) == views(old(effects)@).push(
            emit(AgentEventView::CompactionStarted { automatic }),
        ),
{
    effects.push(Effect::Emit(AgentEvent::CompactionStarted { automatic }));
}

/// The history as it is handed over for summarising: without images.
pub fn compaction_history(messages: &Vec<ChatMessage>) -> (result: Vec<ChatMessage>)
    ensures
        views(result@) == all_imageless(views(messages@)),
{
    let ghost wanted = all_imageless(views(messages@));
    let mut result: Vec<ChatMessage> = Vec::new();
    let mut i: usize = 0;
    while i < messages.len()
        invariant
            i <= messages@.len(),
            wanted == all_imageless(views(messages@)),
            views(result@) == wanted.take(i as int),
        decreases messages@.len() - i,
    {
        let mut message = messages[i].duplicate();
        message.images = Vec::new();
        assert(message@ == imageless(views(messages@)[i as int]));
        result.push(message);
        assert(wanted.take(i + 1) =~= wanted.take(i as int).push(wanted[i as int]));
        i = i + 1;
    }
    assert(wanted.take(i as int) =~= wanted);
    result
}

/// The request that has the model summarise a history.
pub open spec fn summary_request(
    system_prompt: Seq<char>,
    model: Seq<char>,
    history: Seq<ChatMessageView>,
    instruction: Seq<char>,
) -> ModelRequestView {
    ModelRequestView {
        model,
        messages: seq![system_message(system_prompt)] + history + seq![user_message(instruction)],
        tools: Seq::empty(),
        reasoning_effort: None,
    }
}

/// Builds the request that has the model summarise a history.
pub fn build_summary_request(
    agent: &Agent,
    model: &str,
    history: &Vec<ChatMessage>,
    instruction: &str,
) -> (result: ModelRequest)
    ensures
        result@ == summary_request(agent@.system_prompt, model@, views(history@), instruction@),
{
    let mut messages: Vec<ChatMessage> = Vec::new();
    messages.push(ChatMessage::system(agent.system_prompt.clone()));
    let mut rest = duplicate_all(history);
    let ghost first = messages@;
    let ghost copied = rest@;
    messages.append(&mut rest);
    assert(messages@ == first + copied);
    messages.push(ChatMessage::user(instruction.to_owned()));
    let result = ModelRequest {
        model: model.to_owned(),
        messages,
        tools: Vec::new(),
        reasoning_effort: None,
    };
    assert(result@.messages =~= seq![system_message(agent@.system_prompt)] + views(history@)
        + seq![user_message(instruction@)]);
    assert(result@.tools =~= Seq::empty());
    result
}

/// Takes a summarised history into the session and tells what it saved.
pub fn finish_compaction(
    session: &mut Session,
    messages: Vec<ChatMessage>,
    usage: &TokenUsage,
    automatic: bool,
    before_tokens: u64,
    status: ContextStatus,
    effects: &mut Vec<Effect>,
)
    ensures
        final(session)@ == (SessionView {
            messages: views(messages@),
            usage: old(session)@.usage.plus(*usage),
            ..old(session)@
        }),
        views(final(effects)@) == views(old(effects)@) + seq![
            emit(
                AgentEventView::CompactionCompleted {
                    automatic,
                    before_tokens,
                    after_tokens: status.used_tokens,
                },
            ),
            emit(AgentEventView::ContextUpdated(status)),
        ],
{
    session.messages = messages;
    session.usage.add_usage(usage);
    effects.push(
        Effect::Emit(
            AgentEvent::CompactionCompleted {
                automatic,
                before_tokens,
                after_tokens: status.used_tokens,
            },
        ),
    );
    effects.push(Effect::Emit(AgentEvent::ContextUpdated(status)));
    assert(views(effects@) =~= views(old(effects)@) + seq![
        emit(
            AgentEventView::CompactionCompleted {
                automatic,
                before_tokens,
                after_tokens: status.used_tokens,
            },
        ),
        emit(AgentEventView::ContextUpdated(status)),
    ]);
}

/// Checks that a session has something to summarise.
pub fn check_compactable(session: &Session) -> (result: Result<(), AgentError>)
    ensures
        result is Ok <==> session@.messages.len() > 0,
        match result {
            Ok(_) => true,
            Err(error) => error@ == AgentErrorView::Compaction(
                ProviderFailureView {
                    message: "the current session has no context to compact"@,
                    chain: "the current session has no context to compact"@,
                    request: None,
                },
            ),
        },
{
    if session.messages.len() == 0 {
        return Err(
            AgentError::Compaction(
                ProviderFailure {
                    message: "the current session has no context to compact".to_owned(),
                    chain: "the current session has no context to compact".to_owned(),
                    request: None,
                },
            ),
        );
    }
    Ok(())
}

/// Ends a summary that was asked for on its own: the session changed and is saved.
pub fn finish_manual_compaction(agent: &Agent, effects: &mut Vec<Effect>)
    ensures
        views(final(effects)@) == views(old(effects)@) + (seq![EffectView::Touch] + checkpoint(
            agent@,
        )),
{
    effects.push(Effect::Touch);
    agent.run_checkpoint(effects);
    assert(views(effects@) =~= views(old(effects)@) + (seq![EffectView::Touch] + checkpoint(
        agent@,
    )));
}

} // verus!
