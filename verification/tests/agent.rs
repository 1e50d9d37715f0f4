use coomi::accounting::close_turn;
use coomi::accounting::compaction_limit;
use coomi::accounting::finish_manual_compaction;
use coomi::accounting::session_start_payload;
use coomi::accounting::turn_end_payload;
use coomi::accounting::turn_start_payload;
use coomi::accounting::update_loop_accounting;
use coomi::accounting::HookReply;
use coomi::accounting::TurnResult;
use coomi::agent::loop_prompt;
use coomi::agent::recovery_prompt;
use coomi::agent::Agent;
use coomi::compaction::Compaction;
use coomi::compaction::CompactionAction;
use coomi::compaction::CompactionEvent;
use coomi::compaction::CompactionSetting;
use coomi::events::AgentEvent;
use coomi::events::ContextStatus;
use coomi::events::Effect;
use coomi::failure::is_context_window_error;
use coomi::failure::is_image_compatibility_error;
use coomi::failure::is_transient_provider_error;
use coomi::failure::is_usage_limit_error;
use coomi::failure::retry_delay_ms;
use coomi::failure::AgentError;
use coomi::failure::ProviderErrorKind;
use coomi::failure::ProviderFailure;
use coomi::failure::ProviderRequestError;
use coomi::json::Json;
use coomi::session::ChatMessage;
use coomi::session::ImageContent;
use coomi::session::InvalidToolCall;
use coomi::session::LoopState;
use coomi::session::LoopStatus;
use coomi::session::ModelRequest;
use coomi::session::ModelResponse;
use coomi::session::Role;
use coomi::session::Session;
use coomi::session::TokenUsage;
use coomi::session::ToolCall;
use coomi::session::ToolResult;
use coomi::session::ToolSpec;
use coomi::step::request_has_images;
use coomi::tools::tool_call_fingerprint;
use coomi::tools::CallFacts;
use coomi::tools::CallMode;
use coomi::turn::HookKind;
use coomi::turn::TurnAction;
use coomi::turn::TurnEvent;
use coomi::views::duplicate_all;
use coomi::views::Duplicate;

fn session(provider: &str, model: &str) -> Session {
    Session::new("s-1".to_string(), provider.to_string(), model.to_string(), ".".to_string())
}

fn reply(content: &str) -> ModelResponse {
    ModelResponse {
        content: content.to_string(),
        tool_calls: vec![],
        invalid_tool_calls: vec![],
        usage: TokenUsage::zero(),
    }
}

fn asking(calls: Vec<ToolCall>) -> ModelResponse {
    ModelResponse {
        content: String::new(),
        tool_calls: calls,
        invalid_tool_calls: vec![],
        usage: TokenUsage::zero(),
    }
}

fn call(id: &str, name: &str, key: &str, value: &str) -> ToolCall {
    ToolCall {
        id: id.to_string(),
        name: name.to_string(),
        arguments: Json::Object(vec![(key.to_string(), Json::Text(value.to_string()))]),
    }
}

fn spec(name: &str) -> ToolSpec {
    ToolSpec {
        name: name.to_string(),
        description: name.to_string(),
        parameters: Json::Object(vec![("type".to_string(), Json::Text("object".to_string()))]),
    }
}

fn usage(input: u64, output: u64) -> TokenUsage {
    let mut usage = TokenUsage::zero();
    usage.input_tokens = input;
    usage.output_tokens = output;
    usage
}

fn status(used: u64, window: u64) -> ContextStatus {
    ContextStatus {
        used_tokens: used,
        used_percent: used * 100 / window,
        context_window: window,
        effective_context_window: window,
    }
}

fn failure(message: &str) -> ProviderFailure {
    ProviderFailure {
        message: message.to_string(),
        chain: message.to_string(),
        request: None,
    }
}

fn classified(status: u16, retry_after_ms: u64, retryable: bool, detail: &str) -> ProviderFailure {
    ProviderFailure {
        message: detail.to_string(),
        chain: detail.to_string(),
        request: Some(ProviderRequestError {
            phase: "response_body".to_string(),
            kind: ProviderErrorKind::Http,
            status: Some(status),
            retry_after_ms: Some(retry_after_ms),
            request_id: None,
            retryable,
            detail: detail.to_string(),
        }),
    }
}

/// What surrounds a turn: the model, the tools, the messages that wait and the size of the
/// context at which the history is summarised.
struct World<P, T> {
    provider: P,
    tool: T,
    specs: Vec<ToolSpec>,
    read_only: bool,
    waiting: Vec<String>,
    limit: Option<u64>,
    hooks: Vec<HookKind>,
    delays: Vec<u64>,
    modes: Vec<&'static str>,
}

fn world<P, T>(provider: P, tool: T) -> World<P, T> {
    World {
        provider,
        tool,
        specs: vec![spec("echo")],
        read_only: false,
        waiting: vec![],
        limit: None,
        hooks: vec![],
        delays: vec![],
        modes: vec![],
    }
}

fn estimate(messages: &[ChatMessage]) -> u64 {
    let letters: usize = messages.iter().map(|message| message.content.chars().count()).sum();
    letters as u64 / 4
}

fn setting(session: &Session) -> CompactionSetting {
    CompactionSetting {
        model: session.model.clone(),
        tools: vec![spec("echo")],
        instruction: "Summarise".to_string(),
        context_window: 100,
        max_output_tokens: 20,
        before_tokens: estimate(&session.messages),
    }
}

fn finish_summary<P>(
    agent: &Agent,
    session: &mut Session,
    provider: &mut P,
    begun: (Compaction, CompactionAction),
    effects: &mut Vec<Effect>,
) -> Result<(), AgentError>
where
    P: FnMut(&ModelRequest) -> Result<ModelResponse, ProviderFailure>,
{
    let (mut compaction, mut action) = begun;
    loop {
        let event = match action {
            CompactionAction::Fit { messages, .. } => CompactionEvent::Fitted(messages),
            CompactionAction::AskRemote(_) => CompactionEvent::NotOffered { prompt_overhead: 5 },
            CompactionAction::Order(messages) => CompactionEvent::Rebuilt(messages),
            CompactionAction::Summarise(request) => match provider(&request) {
                Ok(response) => CompactionEvent::Replied(response),
                Err(failure) => CompactionEvent::Failed(failure),
            },
            CompactionAction::Compress { summary, .. } => {
                let mut message = ChatMessage::user(summary);
                message.compaction_summary = true;
                CompactionEvent::Rebuilt(vec![message])
            }
            CompactionAction::Measure(_) => CompactionEvent::Measured(status(10, 100)),
            CompactionAction::Finish => return Ok(()),
            CompactionAction::Fail(error) => return Err(error),
            CompactionAction::Rejected => panic!("the summary refused an event"),
        };
        action = compaction.step(agent, session, event, effects);
    }
}

fn summarise<P>(
    agent: &Agent,
    session: &mut Session,
    provider: &mut P,
    automatic: bool,
    effects: &mut Vec<Effect>,
)
where
    P: FnMut(&ModelRequest) -> Result<ModelResponse, ProviderFailure>,
{
    let begun = Compaction::begin(&session.messages, setting(session), automatic, effects);
    finish_summary(agent, session, provider, begun, effects).expect("summary");
}

fn drive<P, T>(
    agent: &Agent,
    session: &mut Session,
    prompt: &str,
    world: &mut World<P, T>,
    effects: &mut Vec<Effect>,
) -> Result<String, AgentError>
where
    P: FnMut(&ModelRequest) -> Result<ModelResponse, ProviderFailure>,
    T: FnMut(&ToolCall) -> ToolResult,
{
    let (mut turn, mut action) = agent.run_turn(
        session,
        prompt.to_string(),
        session.provider_id.clone(),
        session.model.clone(),
        duplicate_all(&world.specs),
    );
    loop {
        let event = match action {
            TurnAction::RunHook(kind) => {
                world.hooks.push(kind);
                TurnEvent::HookSilent
            }
            TurnAction::AwaitSafePoint => TurnEvent::Passed,
            TurnAction::Prepare => {
                let used = estimate(&session.messages);
                TurnEvent::Prepared {
                    messages: duplicate_all(&session.messages),
                    status: status(used, 100),
                    should_compact: match world.limit {
                        Some(limit) => used >= limit,
                        None => false,
                    },
                }
            }
            TurnAction::Compact { automatic } => {
                summarise(agent, session, &mut world.provider, automatic, effects);
                TurnEvent::Compacted
            }
            TurnAction::Send => match (world.provider)(&turn.request) {
                Ok(response) => TurnEvent::Replied(response),
                Err(failure) => TurnEvent::Failed(failure),
            },
            TurnAction::Wait { delay_ms } => {
                world.delays.push(delay_ms);
                TurnEvent::Resumed
            }
            TurnAction::Observe => TurnEvent::Observed {
                status: status(1, 100),
                facts: turn
                    .response
                    .tool_calls
                    .iter()
                    .map(|_| CallFacts { read_only: world.read_only, resource: None })
                    .collect(),
            },
            TurnAction::RunTools => {
                let mut results = vec![];
                for scheduled in &turn.scheduled {
                    results.push(match &scheduled.mode {
                        CallMode::Blocked(reason) => {
                            world.modes.push("blocked");
                            ToolResult::error(reason.clone())
                        }
                        CallMode::Parallel => {
                            world.modes.push("parallel");
                            (world.tool)(&scheduled.call)
                        }
                        CallMode::Serial => {
                            world.modes.push("serial");
                            (world.tool)(&scheduled.call)
                        }
                    });
                }
                TurnEvent::ToolsDone(results)
            }
            TurnAction::DrainQueue => TurnEvent::Queued(std::mem::take(&mut world.waiting)),
            TurnAction::Finish(output) => return Ok(output),
            TurnAction::Fail(error) => return Err(error),
            TurnAction::Rejected => panic!("the turn refused an event"),
        };
        action = turn.step(agent, session, event, effects);
    }
}

fn echo(call: &ToolCall) -> ToolResult {
    ToolResult::success(call.arguments.text_member("value").unwrap_or_default())
}

fn compactions(effects: &[Effect]) -> usize {
    effects
        .iter()
        .filter(|effect| matches!(effect, Effect::Emit(AgentEvent::CompactionCompleted { .. })))
        .count()
}

#[test]
fn completes_a_native_tool_loop() {
    let mut session = session("mock", "mock-model");
    let mut calls = 0;
    let mut world = world(
        |request: &ModelRequest| {
            calls += 1;
            if calls == 1 {
                return Ok(asking(vec![call("call-1", "echo", "value", "ok")]));
            }
            assert!(request.messages.iter().any(|message| {
                message.role == Role::Tool && message.content.contains("success: ok")
            }));
            Ok(reply("done"))
        },
        echo,
    );
    let output = drive(
        &Agent::new("test".to_string()),
        &mut session,
        "run",
        &mut world,
        &mut vec![],
    )
    .expect("agent turn");
    assert_eq!(output, "done");
    assert_eq!(session.messages.len(), 4);
}

#[test]
fn independent_read_tools_run_concurrently_and_keep_result_order() {
    let mut session = session("mock", "mock-model");
    let mut calls = 0;
    let mut world = world(
        |request: &ModelRequest| {
            calls += 1;
            if calls == 1 {
                return Ok(asking(vec![
                    call("first", "read_file", "path", "a"),
                    call("second", "read_file", "path", "b"),
                ]));
            }
            let outputs: Vec<&ChatMessage> = request
                .messages
                .iter()
                .filter(|message| message.role == Role::Tool)
                .collect();
            assert_eq!(outputs.len(), 2);
            assert!(outputs[0].content.contains("first"));
            assert!(outputs[1].content.contains("second"));
            Ok(reply("done"))
        },
        |call: &ToolCall| ToolResult::success(call.id.clone()),
    );
    world.specs = vec![spec("read_file")];
    world.read_only = true;
    drive(&Agent::new("test".to_string()), &mut session, "read", &mut world, &mut vec![])
        .expect("parallel reads should complete");
    assert_eq!(world.modes, vec!["parallel", "parallel"]);
}

#[test]
fn queued_input_continues_the_active_model_loop() {
    let mut session = session("mock", "queued");
    let mut calls = 0;
    let mut world = world(
        |request: &ModelRequest| {
            calls += 1;
            if calls == 1 {
                return Ok(reply("ready for follow-up"));
            }
            assert!(request.messages.iter().any(|message| {
                message.role == Role::User && message.content == "also check tests"
            }));
            Ok(reply("done"))
        },
        echo,
    );
    world.waiting.push("also check tests".to_string());
    let output = drive(
        &Agent::new("test".to_string()).with_input_queue(),
        &mut session,
        "start",
        &mut world,
        &mut vec![],
    )
    .expect("queued turn");
    assert_eq!(output, "done");
}

fn compacting(request: &ModelRequest) -> Result<ModelResponse, ProviderFailure> {
    if request.tools.is_empty() {
        let mut summary = reply("summary");
        summary.usage = usage(40, 4);
        return Ok(summary);
    }
    let mut done = reply("done");
    done.usage = usage(50, 2);
    Ok(done)
}

#[test]
fn auto_compaction_replaces_history_with_summary() {
    let mut session = session("mock", "tiny");
    session.messages.push(ChatMessage::user("x".repeat(500)));
    let mut world = world(compacting, echo);
    world.limit = Some(90);
    let mut effects = vec![];
    drive(&Agent::new("test".to_string()), &mut session, "continue", &mut world, &mut effects)
        .expect("compacted turn");
    assert_eq!(compactions(&effects), 1);
    assert!(session.messages.iter().any(|message| message.compaction_summary));
    assert_eq!(session.usage.input_tokens, 90);
    assert_eq!(session.usage.output_tokens, 6);
}

#[test]
fn manual_compaction_is_a_standalone_operation() {
    let mut session = session("mock", "tiny");
    session.messages.push(ChatMessage::user("keep this context".to_string()));
    let agent = Agent::new("test".to_string()).with_checkpoint();
    let mut effects = vec![];
    let history = duplicate_all(&session.messages);
    let made = setting(&session);
    let begun = agent
        .compact_session(&mut session, history, status(5, 100), made, &mut effects)
        .expect("manual compaction");
    let mut calls = 0;
    let mut provider = |request: &ModelRequest| {
        calls += 1;
        compacting(request)
    };
    finish_summary(&agent, &mut session, &mut provider, begun, &mut effects).expect("summary");
    finish_manual_compaction(&agent, &mut effects);
    assert_eq!(calls, 1);
    assert_eq!(compactions(&effects), 1);
    assert!(session
        .messages
        .last()
        .is_some_and(|message| message.compaction_summary && message.content.contains("summary")));
    assert!(matches!(effects.last(), Some(Effect::Checkpoint)));
}

#[test]
fn empty_sessions_are_not_compacted() {
    let mut session = session("mock", "tiny");
    let made = setting(&session);
    let error = Agent::new("test".to_string())
        .compact_session(&mut session, vec![], status(0, 100), made, &mut vec![])
        .expect_err("nothing to compact");
    assert!(error.describe().contains("the current session has no context to compact"));
}

#[test]
fn transient_retry_excludes_non_retryable_http_statuses() {
    for status in [400, 401, 402, 403, 404] {
        assert!(!is_transient_provider_error(&failure(&format!(
            "provider returned HTTP {status}: connection field invalid"
        ))));
    }
    for status in [429, 502, 503, 504] {
        assert!(is_transient_provider_error(&failure(&format!(
            "provider returned HTTP {status}"
        ))));
    }
    assert!(is_transient_provider_error(&failure("provider stream failed: connection reset")));
}

#[test]
fn invalid_tool_arguments_get_one_correction_and_never_execute() {
    let mut session = session("mock", "invalid-tool");
    let mut requests: Vec<Vec<ChatMessage>> = vec![];
    let mut runs = 0;
    let mut world = world(
        |request: &ModelRequest| {
            requests.push(duplicate_all(&request.messages));
            Ok(ModelResponse {
                content: String::new(),
                tool_calls: vec![],
                invalid_tool_calls: vec![InvalidToolCall {
                    id: "call-1".to_string(),
                    name: "echo".to_string(),
                    reason: "tool arguments are not valid JSON".to_string(),
                }],
                usage: TokenUsage::zero(),
            })
        },
        |_: &ToolCall| {
            runs += 1;
            ToolResult::success("unexpected".to_string())
        },
    );
    let output = drive(
        &Agent::new("test".to_string()),
        &mut session,
        "run",
        &mut world,
        &mut vec![],
    )
    .expect("second invalid call should remain recoverable");
    assert!(output.contains("仍未通过校验"));
    assert_eq!(runs, 0);
    assert_eq!(requests.len(), 2);
    assert!(requests[1].iter().any(|message| {
        message.internal
            && message.content.contains("tool_call_correction")
            && message.content.contains("json_schema")
    }));
}

fn runs_of_a_failing_call(output: &'static str) -> (usize, Vec<&'static str>) {
    let mut session = session("mock", "repeated-tool");
    let mut round = 0;
    let mut runs = 0;
    let mut world = world(
        |_: &ModelRequest| {
            let id = format!("call-{round}");
            round += 1;
            if round <= 3 {
                return Ok(asking(vec![call(&id, "echo", "value", "same")]));
            }
            Ok(reply("done"))
        },
        |_: &ToolCall| {
            runs += 1;
            ToolResult::error(output.to_string())
        },
    );
    drive(&Agent::new("test".to_string()), &mut session, "run", &mut world, &mut vec![])
        .expect("turn remains recoverable");
    let modes = world.modes;
    (runs, modes)
}

#[test]
fn unchanged_generic_failure_is_executed_at_most_twice() {
    let (runs, modes) = runs_of_a_failing_call("process exited with code 1");
    assert_eq!(runs, 2);
    assert_eq!(modes, vec!["serial", "serial", "blocked"]);
}

#[test]
fn unchanged_permission_failure_is_not_retried() {
    let (runs, modes) = runs_of_a_failing_call("permission denied by sandbox policy");
    assert_eq!(runs, 1);
    assert_eq!(modes, vec!["serial", "blocked", "blocked"]);
}

#[test]
fn image_protocol_error_retries_same_round_without_images() {
    let mut session = session("mock", "image-fallback");
    let mut image_message = ChatMessage::user("inspect this image".to_string());
    image_message.images.push(ImageContent {
        media_type: "image/png".to_string(),
        data: "BASE64".to_string(),
    });
    session.messages.push(image_message);
    let mut calls = 0;
    let mut world = world(
        |request: &ModelRequest| {
            calls += 1;
            if calls == 1 {
                assert!(request_has_images(request));
                let mut refused =
                    classified(400, 0, false, "provider rejected image input (image_url)");
                refused.request.as_mut().expect("classified").retry_after_ms = None;
                return Err(refused);
            }
            assert!(!request_has_images(request));
            Ok(reply("recovered"))
        },
        echo,
    );
    let mut effects = vec![];
    let output = drive(
        &Agent::new("test".to_string()).with_vision_fallback(),
        &mut session,
        "continue",
        &mut world,
        &mut effects,
    )
    .expect("image fallback turn");
    assert_eq!(output, "recovered");
    assert_eq!(calls, 2);
    assert!(effects.iter().any(|effect| matches!(effect, Effect::VisionFallback)));
}

#[test]
fn transient_provider_failure_retries_at_most_twice() {
    let mut session = session("mock", "transient");
    let mut calls = 0;
    let mut world = world(
        |_: &ModelRequest| {
            calls += 1;
            Err(classified(429, 0, true, "provider rate or token limit was exceeded"))
        },
        echo,
    );
    drive(&Agent::new("test".to_string()), &mut session, "run", &mut world, &mut vec![])
        .expect_err("transient failure should stop after retries");
    assert_eq!(world.delays.len(), 2);
    assert_eq!(calls, 3);
}

#[test]
fn structured_retry_policy_and_delay_are_bounded() {
    for (status, retryable) in [(400, false), (404, false), (429, true), (503, true)] {
        let retry_after_ms = if status == 429 { 90_000 } else { 0 };
        let error = classified(status, retry_after_ms, retryable, "classified");
        assert_eq!(is_transient_provider_error(&error), retryable);
        if status == 429 {
            assert_eq!(retry_delay_ms(&error, 1, 1_000, 30_000), 30_000);
        }
    }
}

#[test]
fn delays_double_up_to_the_limit() {
    let error = failure("a");
    assert_eq!(retry_delay_ms(&error, 1, 1_000, 30_000), 1_147);
    assert_eq!(retry_delay_ms(&error, 2, 1_000, 30_000), 2_147);
    assert_eq!(retry_delay_ms(&error, 3, 1_000, 30_000), 4_147);
    assert_eq!(retry_delay_ms(&error, 9, 1_000, 30_000), 30_000);
}

fn looping(budget: Option<u64>) -> LoopState {
    LoopState {
        objective: "finish".to_string(),
        status: LoopStatus::Active,
        token_budget: budget,
        tokens_used: 0,
        time_used_seconds: 0,
        blocked_streak: 0,
        turns_completed: 0,
    }
}

#[test]
fn loop_accounting_stops_at_the_token_budget() {
    let mut session = session("mock", "model");
    session.usage.input_tokens = 30;
    session.loop_state = Some(looping(Some(20)));
    update_loop_accounting(&mut session, 0, 2, None, &mut vec![]);
    let state = session.loop_state.expect("loop state");
    assert_eq!(state.status, LoopStatus::BudgetLimited);
    assert_eq!(state.tokens_used, 30);
    assert_eq!(state.turns_completed, 1);
    assert_eq!(state.time_used_seconds, 2);
}

#[test]
fn spent_quotas_stop_a_loop() {
    let mut session = session("mock", "model");
    session.loop_state = Some(looping(None));
    let error = AgentError::Provider(failure("usage limit reached"));
    assert!(is_usage_limit_error(&error));
    update_loop_accounting(&mut session, 0, 1, Some(&error), &mut vec![]);
    assert_eq!(session.loop_state.expect("loop state").status, LoopStatus::UsageLimited);
}

#[test]
fn loops_within_their_budget_stay_active() {
    let mut session = session("mock", "model");
    session.usage = usage(7, 3);
    session.loop_state = Some(looping(Some(20)));
    let mut effects = vec![];
    update_loop_accounting(&mut session, 4, 5, None, &mut effects);
    let state = session.loop_state.expect("loop state");
    assert_eq!(state.status, LoopStatus::Active);
    assert_eq!(state.tokens_used, 6);
    assert!(matches!(&effects[0], Effect::Emit(AgentEvent::LoopUpdated(told)) if told.tokens_used == 6));
}

#[test]
fn failing_end_hooks_turn_a_reply_into_an_error() {
    let mut session = session("mock", "model");
    let before = TokenUsage::zero();
    let mut effects = vec![];
    let closed = close_turn(
        &mut session,
        &before,
        1,
        TurnResult::Reply("done".to_string()),
        HookReply::Failed("blocked".to_string()),
        &mut effects,
    );
    assert!(matches!(closed, TurnResult::Error(AgentError::Hook(message)) if message == "blocked"));
    let closed = close_turn(
        &mut session,
        &before,
        1,
        TurnResult::Reply("done".to_string()),
        HookReply::Silent,
        &mut effects,
    );
    assert!(matches!(closed, TurnResult::Reply(text) if text == "done"));
    assert!(matches!(
        effects.last(),
        Some(Effect::Emit(AgentEvent::TurnCompleted { .. }))
    ));
}

#[test]
fn too_many_tool_rounds_end_the_turn() {
    let mut session = session("mock", "model");
    let mut round = 0;
    let mut world = world(
        |_: &ModelRequest| {
            round += 1;
            let id = format!("call-{round}");
            let value = format!("{round}");
            Ok(asking(vec![call(&id, "echo", "value", &value)]))
        },
        echo,
    );
    let agent = Agent::new("test".to_string()).with_max_tool_rounds(2);
    let error = drive(&agent, &mut session, "run", &mut world, &mut vec![])
        .expect_err("the rounds are limited");
    assert!(matches!(error, AgentError::ToolRoundLimit { limit: 2 }));
    assert_eq!(world.modes.len(), 2);
}

#[test]
fn a_full_context_is_summarised_and_tried_again() {
    let mut session = session("mock", "tiny");
    session.messages.push(ChatMessage::user("earlier".to_string()));
    let mut refused = false;
    let mut world = world(
        |request: &ModelRequest| {
            if request.tools.is_empty() {
                return Ok(reply("summary"));
            }
            if !refused {
                refused = true;
                return Err(failure("maximum context length exceeded"));
            }
            Ok(reply("done"))
        },
        echo,
    );
    assert!(is_context_window_error(&failure("maximum context length exceeded")));
    let mut effects = vec![];
    let output = drive(
        &Agent::new("test".to_string()),
        &mut session,
        "continue",
        &mut world,
        &mut effects,
    )
    .expect("second attempt");
    assert_eq!(output, "done");
    assert_eq!(compactions(&effects), 1);
}

#[test]
fn images_are_refused_only_where_they_are_named() {
    assert!(is_image_compatibility_error(&classified(400, 0, false, "image_url is not supported")));
    assert!(!is_image_compatibility_error(&classified(400, 0, false, "bad temperature")));
}

#[test]
fn stopped_turns_end_with_the_reason() {
    let mut session = session("mock", "model");
    let agent = Agent::new("test".to_string()).with_turn_control();
    let (mut turn, action) = agent.run_turn(
        &session,
        "run".to_string(),
        "mock".to_string(),
        "model".to_string(),
        vec![],
    );
    assert!(matches!(action, TurnAction::RunHook(HookKind::SessionStart)));
    let mut effects = vec![];
    let action = turn.step(&agent, &mut session, TurnEvent::HookSilent, &mut effects);
    assert!(matches!(action, TurnAction::RunHook(HookKind::TurnStart)));
    let action = turn.step(&agent, &mut session, TurnEvent::HookSilent, &mut effects);
    assert!(matches!(action, TurnAction::AwaitSafePoint));
    let action = turn.step(
        &agent,
        &mut session,
        TurnEvent::Stopped("cancelled".to_string()),
        &mut effects,
    );
    assert!(matches!(action, TurnAction::Fail(AgentError::Control(reason)) if reason == "cancelled"));
}

#[test]
fn events_out_of_place_are_refused() {
    let mut session = session("mock", "model");
    let agent = Agent::new("test".to_string());
    let (mut turn, _) = agent.run_turn(
        &session,
        "run".to_string(),
        "mock".to_string(),
        "model".to_string(),
        vec![],
    );
    let mut effects = vec![];
    let action = turn.step(&agent, &mut session, TurnEvent::Resumed, &mut effects);
    assert!(matches!(action, TurnAction::Rejected));
    assert_eq!(session.messages.len(), 0);
    assert_eq!(effects.len(), 0);
}

#[test]
fn equal_calls_have_equal_fingerprints() {
    let one = tool_call_fingerprint(&call("1", "echo", "value", "same"));
    let other = tool_call_fingerprint(&call("2", "echo", "value", "same"));
    let different = tool_call_fingerprint(&call("1", "echo", "value", "other"));
    assert_eq!(one, other);
    assert_ne!(one, different);
    assert_eq!(one.len(), 32);
    assert!(one.chars().all(|letter| letter.is_ascii_hexdigit()));
}

#[test]
fn hooks_are_told_about_the_session_and_the_turn() {
    let session = session("mock", "model");
    assert_eq!(
        session_start_payload(&session).to_text(),
        "{\"cwd\":\".\",\"session_id\":\"s-1\"}"
    );
    assert_eq!(
        turn_start_payload(&session, &ChatMessage::user("run".to_string())).to_text(),
        "{\"internal\":false,\"prompt\":\"run\",\"session_id\":\"s-1\"}"
    );
    let failed = TurnResult::Error(AgentError::Hook("blocked".to_string()));
    let payload = turn_end_payload(&session, &failed);
    assert_eq!(payload.bool_member("success"), Some(false));
    assert!(payload.text_member("error").expect("error").contains("blocked"));
}

#[test]
fn providers_that_summarise_by_themselves_spare_the_model() {
    let mut session = session("mock", "tiny");
    let mut picture = ChatMessage::user("earlier".to_string());
    picture.images.push(ImageContent {
        media_type: "image/png".to_string(),
        data: "AAAA".to_string(),
    });
    session.messages.push(picture);
    let agent = Agent::new("prompt".to_string());
    let mut effects = vec![];
    let made = setting(&session);
    let (mut summary, action) = Compaction::begin(&session.messages, made, true, &mut effects);
    let fitted = match action {
        CompactionAction::Fit { messages, limit } => {
            assert_eq!(limit, 80);
            assert!(messages[0].images.is_empty());
            messages
        }
        _ => panic!("the history is cut first"),
    };
    let action = summary.step(&agent, &mut session, CompactionEvent::Fitted(fitted), &mut effects);
    match action {
        CompactionAction::AskRemote(request) => {
            assert_eq!(request.model, "tiny");
            assert_eq!(request.system_prompt, "prompt");
            assert_eq!(request.tools.len(), 1);
            assert_eq!(request.messages[0].content, "earlier");
        }
        _ => panic!("the provider is asked"),
    }
    let answered = CompactionEvent::Answered {
        messages: vec![ChatMessage::user("short".to_string())],
        usage: usage(7, 2),
    };
    let action = summary.step(&agent, &mut session, answered, &mut effects);
    let ordered = match action {
        CompactionAction::Order(messages) => messages,
        _ => panic!("the answer is put in order"),
    };
    assert_eq!(session.messages[0].content, "earlier");
    summary.step(&agent, &mut session, CompactionEvent::Rebuilt(ordered), &mut effects);
    let measured = CompactionEvent::Measured(status(3, 100));
    let action = summary.step(&agent, &mut session, measured, &mut effects);
    assert!(matches!(action, CompactionAction::Finish));
    assert_eq!(session.messages[0].content, "short");
    assert_eq!(session.usage.input_tokens, 7);
    assert!(matches!(
        effects[1],
        Effect::Emit(AgentEvent::CompactionCompleted { automatic: true, before_tokens: 1, after_tokens: 3 })
    ));
}

#[test]
fn failed_summaries_leave_the_session_alone() {
    let mut session = session("mock", "tiny");
    session.messages.push(ChatMessage::user("keep".to_string()));
    let agent = Agent::new("prompt".to_string());
    let mut effects = vec![];
    let begun = Compaction::begin(&session.messages, setting(&session), true, &mut effects);
    let mut provider = |_: &ModelRequest| Err(failure("no summary today"));
    let error = finish_summary(&agent, &mut session, &mut provider, begun, &mut effects)
        .expect_err("the request failed");
    assert!(error.describe().contains("no summary today"));
    assert_eq!(session.messages[0].content, "keep");
    assert_eq!(compactions(&effects), 0);
}

#[test]
fn summaries_make_room_for_the_instruction() {
    let mut session = session("mock", "tiny");
    session.messages.push(ChatMessage::user("earlier".to_string()));
    let agent = Agent::new("prompt".to_string());
    let mut effects = vec![];
    let made = setting(&session);
    let (mut summary, _) = Compaction::begin(&session.messages, made, true, &mut effects);
    let fitted = CompactionEvent::Fitted(duplicate_all(&session.messages));
    summary.step(&agent, &mut session, fitted, &mut effects);
    let absent = CompactionEvent::NotOffered { prompt_overhead: 30 };
    let action = summary.step(&agent, &mut session, absent, &mut effects);
    assert!(matches!(action, CompactionAction::Fit { limit: 50, .. }));
    let early = CompactionEvent::Measured(status(1, 100));
    let action = summary.step(&agent, &mut session, early, &mut effects);
    assert!(matches!(action, CompactionAction::Rejected));
}

#[test]
fn held_back_calls_fail_for_their_reason() {
    let mut session = session("mock", "model");
    let agent = Agent::new("test".to_string());
    let mut effects = vec![];
    let (mut turn, mut action) = agent.run_turn(
        &session,
        "run".to_string(),
        "mock".to_string(),
        "model".to_string(),
        vec![spec("echo")],
    );
    let mut sent = false;
    loop {
        let event = match action {
            TurnAction::RunHook(_) => TurnEvent::HookSilent,
            TurnAction::AwaitSafePoint => TurnEvent::Passed,
            TurnAction::Prepare => TurnEvent::Prepared {
                messages: duplicate_all(&session.messages),
                status: status(1, 100),
                should_compact: false,
            },
            TurnAction::Send if sent => break,
            TurnAction::Send => {
                sent = true;
                TurnEvent::Replied(asking(vec![
                    call("1", "echo", "value", "a"),
                    call("2", "echo", "value", "a"),
                ]))
            }
            TurnAction::Observe => TurnEvent::Observed {
                status: status(1, 100),
                facts: vec![
                    CallFacts { read_only: false, resource: None },
                    CallFacts { read_only: false, resource: None },
                ],
            },
            TurnAction::RunTools => TurnEvent::ToolsDone(vec![
                ToolResult::success("a".to_string()),
                ToolResult::success("never ran".to_string()),
            ]),
            _ => panic!("an unexpected action"),
        };
        action = turn.step(&agent, &mut session, event, &mut effects);
    }
    let answers: Vec<&str> = session
        .messages
        .iter()
        .filter(|message| message.role == Role::Tool)
        .map(|message| message.content.as_str())
        .collect();
    assert_eq!(
        answers,
        ["success: a", "error: 已阻止同一批次中的重复工具调用；请合并调用或修改参数。"]
    );
}

#[test]
fn waits_without_a_wish_need_no_order_of_the_limits() {
    assert_eq!(retry_delay_ms(&failure(""), 1, 5_000, 1_000), 1_000);
}

#[test]
fn summaries_leave_room_for_the_reply() {
    assert_eq!(compaction_limit(100, 40), 60);
    assert_eq!(compaction_limit(40, 100), 1);
}

#[test]
fn copies_hold_the_same() {
    let one = call("1", "echo", "value", "same");
    let copy = one.duplicate();
    assert_eq!(copy.id, "1");
    assert_eq!(copy.arguments.to_text(), "{\"value\":\"same\"}");
}

#[test]
fn recovery_and_loops_are_prompted_for() {
    let mut session = session("mock", "model");
    assert!(!recovery_prompt().is_empty());
    session.loop_state = Some(looping(None));
    assert!(loop_prompt(&session).contains("finish"));
    let agent = Agent::new("test".to_string());
    let (turn, _) = agent.continue_loop(&session, "mock".to_string(), "model".to_string(), vec![]);
    assert!(turn.prompt.internal);
    let (turn, _) =
        agent.continue_interrupted_turn(&session, "mock".to_string(), "model".to_string(), vec![]);
    assert!(turn.prompt.internal);
    assert_eq!(turn.prompt.content, recovery_prompt());
}
