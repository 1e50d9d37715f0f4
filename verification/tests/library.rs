use coomi::agents::fork_history;
use coomi::agents::snapshots_json;
use coomi::agents::wait_limit_ms;
use coomi::agents::AccessMode;
use coomi::agents::AgentScheduler;
use coomi::agents::ConfiguredSubAgent;
use coomi::agents::ProviderRef;
use coomi::cli::approves;
use coomi::cli::check_session_choice;
use coomi::cli::compact_json;
use coomi::cli::preview;
use coomi::cli::print_models;
use coomi::cli::print_session;
use coomi::cli::show_session_line;
use coomi::cli::terminal_event;
use coomi::cli::ModelChoice;
use coomi::cli::Stream;
use coomi::events::AgentEvent;
use coomi::json::Json;
use coomi::numbers::parse_u64;
use coomi::numbers::print_u64;
use coomi::observer::add_reasoning_sample;
use coomi::observer::estimated_tokens;
use coomi::observer::report_effort;
use coomi::observer::update_reasoning_stats;
use coomi::observer::BrowserObserver;
use coomi::observer::EventFacts;
use coomi::observer::ObserverAction;
use coomi::observer::ReasoningAggregate;
use coomi::pieces::split_lines;
use coomi::pieces::split_words;
use coomi::prompts::terminal_system_prompt;
use coomi::provider::activate_provider;
use coomi::provider::commit_provider;
use coomi::provider::copy_provider;
use coomi::provider::mask_key;
use coomi::provider::models_in_body;
use coomi::provider::reveal_provider_key;
use coomi::provider::upsert_provider;
use coomi::provider::AutoCompactScope;
use coomi::provider::ProviderDocument;
use coomi::provider::ProviderSettings;
use coomi::provider::RemoteCompactionMode;
use coomi::redact::accept_analysis;
use coomi::redact::check_trace_size;
use coomi::redact::prepare_failure_trace;
use coomi::redact::sanitize_diagnostic_string;
use coomi::redact::sanitize_identifier;
use coomi::redact::sanitize_trace_value;
use coomi::session::ChatMessage;
use coomi::session::LoopState;
use coomi::session::LoopStatus;
use coomi::session::TokenUsage;
use coomi::session::ToolCall;
use coomi::subagents::drop_provider_subagents;
use coomi::subagents::SubAgentEntry;
use coomi::subagents::SubAgentSettings;
use coomi::table::table_get;
use coomi::table::table_put;
use coomi::table::table_remove;
use coomi::task::SessionTask;
use coomi::text::join;
use coomi::text::take_chars;
use coomi::text::to_lower;
use coomi::text::trim;
use coomi::tools::book_result;
use coomi::tools::find_failure;
use coomi::tools::schedule_calls;
use coomi::tools::tool_call_fingerprint;
use coomi::tools::truncate_chars;
use coomi::tools::CallFacts;
use coomi::tools::CallMode;
use coomi::webturn::append_continuation;
use coomi::webturn::begin_waiting;
use coomi::webturn::begin_work;
use coomi::webturn::build_prompt_context;
use coomi::webturn::PromptParts;

fn json(text: &str) -> Json {
    Json::parse(text.as_bytes()).expect("JSON")
}

fn text(value: &str) -> String {
    value.to_string()
}

// Texts, numbers and tables

#[test]
fn json_is_read_and_written() {
    assert_eq!(json(r#" {"b": [1, true, null], "a": "x\n"} "#).to_text(), r#"{"a":"x\n","b":[1,true,null]}"#);
    assert_eq!(json("12").as_u64(), Some(12));
    assert_eq!(json("-1").as_u64(), None);
    assert!(Json::parse(b"{").is_err());
    assert!(Json::parse(&[0xff]).is_err());
}

#[test]
fn numbers_are_read_back() {
    for n in [0, 9, 10, 12_345, u64::MAX] {
        assert_eq!(parse_u64(&print_u64(n)), Some(n));
    }
    assert_eq!(parse_u64("18446744073709551616"), None);
    assert_eq!(parse_u64("+5"), Some(5));
    assert_eq!(parse_u64(""), None);
    assert_eq!(parse_u64("-5"), None);
}

#[test]
fn texts_are_cut_and_joined() {
    assert_eq!(split_words("  a  b\tc "), vec!["a", "b", "c"]);
    assert_eq!(split_lines("a\r\nb\n"), vec!["a", "b"]);
    assert_eq!(join(&vec![text("a"), text("b")], ", "), "a, b");
    assert_eq!(trim("\u{3000} x \n"), "x");
    assert_eq!(take_chars("äöü", 2), "äö");
    assert_eq!(to_lower("ABC-Ä"), "abc-Ä");
    assert_eq!(truncate_chars("short", 10), "short");
}

#[test]
fn tables_keep_their_keys_in_order() {
    let mut rows: Vec<(String, String)> = vec![];
    for key in ["b", "a", "c", "a"] {
        table_put(&mut rows, text(key), format!("{key}!"));
    }
    let keys: Vec<&str> = rows.iter().map(|row| row.0.as_str()).collect();
    assert_eq!(keys, vec!["a", "b", "c"]);
    assert_eq!(table_get(&rows, "b").map(String::as_str), Some("b!"));
    table_remove(&mut rows, "b");
    assert!(table_get(&rows, "b").is_none());
    assert!(table_get(&rows, "a").is_some());
}

// Providers

fn provider(key: &str) -> ProviderSettings {
    ProviderSettings {
        display: text("Demo"),
        provider_type: text("openai_compatible"),
        tool_protocol: None,
        base_url: text("https://example.test/v1"),
        model: text("main"),
        fast_model: None,
        api_key: text(key),
        context_window: Some(256_000),
        effective_context_window_percent: None,
        auto_compact_token_limit: None,
        auto_compact_scope: AutoCompactScope::Total,
        max_output_tokens: None,
        supports_remote_compaction: None,
        remote_compaction_mode: RemoteCompactionMode::Legacy,
        supports_vision: false,
        supports_native_tools: true,
        supports_web_search: false,
        supports_parallel_tool_calls: false,
        model_context_windows: vec![],
        extra: vec![],
    }
}

fn document() -> ProviderDocument {
    ProviderDocument {
        active: text("demo"),
        providers: vec![(text("demo"), provider("secret-123456"))],
    }
}

#[test]
fn masks_hide_all_but_the_end() {
    assert_eq!(mask_key("secret-123456"), "****3456");
    assert_eq!(mask_key("abc"), "****abc");
    assert_eq!(mask_key(""), "");
}

#[test]
fn saved_providers_are_found_under_their_id() {
    let mut document = document();
    let input = json(
        r#"{"id": "other", "name": "Other", "type": "openai_compatible", "model": "m", "baseUrl": "https://o.test", "apiKey": "k"}"#,
    );
    let change = upsert_provider(&document, &input, &provider("")).expect("saved");
    commit_provider(&mut document, change);
    let saved = table_get(&document.providers, "other").expect("found");
    assert_eq!(saved.model, "m");
    assert_eq!(saved.display, "Other");
    assert_eq!(document.active, "demo");
    assert_eq!(table_get(&document.providers, "demo").expect("kept").model, "main");
}

#[test]
fn providers_that_cannot_be_saved_are_refused() {
    let document = document();
    for input in [
        r#"{"name": "Other"}"#,
        r#"{"id": "x", "type": "telepathy"}"#,
        r#"{"id": "x", "type": "openai_compatible", "contextWindow": 31999}"#,
        r#"{"id": "x", "type": "openai_compatible", "models": "m"}"#,
        r#"{"id": "x", "type": "openai_compatible", "model": "m"}"#,
    ] {
        let refused = upsert_provider(&document, &json(input), &provider(""));
        assert_eq!(refused.expect_err(input).code(), 400);
    }
}

#[test]
fn keys_are_revealed_only_of_known_providers() {
    let document = document();
    assert_eq!(reveal_provider_key(&document, "demo").expect("known"), "secret-123456");
    assert!(reveal_provider_key(&document, "other").is_err());
    assert!(activate_provider(&document, "demo").is_ok());
    assert!(activate_provider(&document, "other").is_err());
}

#[test]
fn copies_get_names_of_their_own() {
    let mut document = document();
    let one = copy_provider(&mut document, "demo").expect("copied");
    let other = copy_provider(&mut document, "demo").expect("copied");
    assert_ne!(one, other);
    assert_eq!(document.providers.len(), 3);
}

#[test]
fn offered_models_are_read() {
    let answer = br#"{"data": [{"id": "a"}, {"id": "b"}, {"id": "a"}]}"#;
    assert_eq!(models_in_body(answer).expect("models"), vec!["a", "b"]);
    assert!(models_in_body(b"not json").is_err());
}

#[test]
fn helpers_of_a_removed_provider_go() {
    let helper = |id: &str, provider: &str| SubAgentEntry {
        id: text(id),
        provider_id: text(provider),
        model: text("m"),
        description: String::new(),
    };
    let value = SubAgentSettings {
        agents: vec![helper("a", "demo"), helper("b", "other")],
        fallback_id: Some(text("a")),
    };
    let left = drop_provider_subagents(&value, "demo").expect("changed");
    assert_eq!(left.agents.len(), 1);
    assert_eq!(left.agents[0].id, "b");
    assert_ne!(left.fallback_id.as_deref(), Some("a"));
    assert!(drop_provider_subagents(&value, "third").is_none());
}

// What may be shown

#[test]
fn secrets_are_covered_at_any_depth() {
    let value = json(r#"{"a": {"token": "abc", "list": ["x", {"password": "p"}]}}"#);
    let shown = sanitize_trace_value(&value, "", 0).to_text();
    assert!(!shown.contains("abc"));
    assert!(shown.contains("[redacted_secret]"));
    assert_eq!(sanitize_trace_value(&value, "", 6).to_text(), "\"[max_depth]\"");
    assert_eq!(sanitize_trace_value(&value, "", usize::MAX).to_text(), "\"[max_depth]\"");
}

#[test]
fn words_that_tell_too_much_are_covered() {
    assert_eq!(
        sanitize_diagnostic_string("see /data/user/0/x and https://a.example", 200),
        "see [redacted_path] and [redacted_url]"
    );
    assert_eq!(sanitize_identifier("read file<b>", 80), "readfileb");
    assert_eq!(sanitize_identifier("abcdef", 3), "abc");
}

#[test]
fn traces_are_checked() {
    assert_eq!(prepare_failure_trace(&vec![]).expect_err("empty").code(), 400);
    assert!(check_trace_size("{}").is_ok());
    assert!(check_trace_size(&"x".repeat(1_000_000)).is_err());
    assert!(accept_analysis("  ").is_err());
    assert_eq!(accept_analysis("fine").expect("report"), "fine");
}

// What the browser is told

#[test]
fn efforts_are_averaged() {
    let mut totals = ReasoningAggregate {
        turns: 0,
        total_input_tokens: 0,
        total_cached_input_tokens: 0,
        cache_observed_input_tokens: 0,
        total_tokens: 0,
        total_duration_ms: 0,
        cache_turns: 0,
    };
    let mut usage = TokenUsage::zero();
    usage.input_tokens = 100;
    usage.output_tokens = 50;
    add_reasoning_sample(&mut totals, &usage, 1_000);
    add_reasoning_sample(&mut totals, &usage, 3_000);
    let stats = report_effort(&totals);
    assert_eq!(stats.turns, 2);
    assert_eq!(stats.average_duration_ms, Some(2_000));
    assert_eq!(stats.average_total_tokens, Some(150));
    let mut all = vec![];
    update_reasoning_stats(&mut all, "high", &usage, 10);
    update_reasoning_stats(&mut all, "low", &usage, 10);
    update_reasoning_stats(&mut all, "high", &usage, 10);
    assert_eq!(table_get(&all, "high").expect("effort").turns, 2);
    assert_eq!(table_get(&all, "low").expect("effort").turns, 1);
}

#[test]
fn texts_reach_the_browser() {
    let mut observer = BrowserObserver::new(text("medium"), 0, 0, 0, 0, vec![]);
    let mut task = SessionTask::new();
    let facts = EventFacts { elapsed: text("1"), images: vec![] };
    let action =
        observer.on_event(&mut task, &AgentEvent::TextDelta(text("hello")), &facts);
    assert!(matches!(action, ObserverAction::Nothing));
    let event = task.unacked_events.last().expect("event");
    assert_eq!(event.text_member("event_type").as_deref(), Some("text_chunk"));
    assert_eq!(event.text_member("content").as_deref(), Some("hello"));
}

#[test]
fn ended_loops_are_told_however_long_they_were() {
    let mut observer = BrowserObserver::new(text("medium"), 0, 0, 0, 0, vec![]);
    let mut task = SessionTask::new();
    let facts = EventFacts { elapsed: text("1"), images: vec![] };
    let state = LoopState {
        objective: text("all"),
        status: LoopStatus::Complete,
        token_budget: None,
        tokens_used: 0,
        time_used_seconds: 0,
        blocked_streak: 0,
        turns_completed: u64::MAX,
    };
    observer.on_event(&mut task, &AgentEvent::LoopUpdated(state), &facts);
    let event = task.unacked_events.last().expect("event");
    assert_eq!(event.u64_member("total_steps"), Some(u64::MAX));
}

#[test]
fn tokens_are_estimated_by_length() {
    assert_eq!(estimated_tokens(""), 0);
    assert!(estimated_tokens("abcdefgh") >= estimated_tokens("abcd"));
}

// Helpers at work

fn scheduler() -> AgentScheduler {
    AgentScheduler::new(
        text("/project"),
        text("/home"),
        ProviderRef { id: text("demo"), model: text("main") },
        AccessMode::ReadOnly,
        text("prompt"),
    )
}

#[test]
fn helpers_are_limited_and_found() {
    let mut scheduler = scheduler();
    let limit = scheduler.max_agents;
    let mut ids = vec![];
    for _ in 0..limit {
        let (id, _) = scheduler.spawn("look", &vec![], None, 0).expect("taken on");
        ids.push(id);
    }
    assert!(scheduler.spawn("look", &vec![], None, 0).is_err());
    assert_eq!(scheduler.snapshots(&ids, 5).len(), limit);
    scheduler.finish(&ids[0], None);
    assert_eq!(scheduler.snapshots(&ids, 5)[0].status, "completed");
    assert!(scheduler.spawn("look", &vec![], None, 0).is_ok());
    assert!(snapshots_json(&scheduler.snapshots(&ids, 5)).to_text().contains(&ids[0]));
}

#[test]
fn waits_end_when_the_time_is_up_or_nothing_runs() {
    let mut scheduler = scheduler();
    let (id, _) = scheduler.spawn("look", &vec![], None, 0).expect("taken on");
    let ids = vec![id.clone()];
    assert!(scheduler.wait(&ids, 10, 0, 60_000).is_none());
    assert!(scheduler.wait(&ids, 10, wait_limit_ms(60_000), 60_000).is_some());
    scheduler.close(&id, 10).expect("closed");
    assert!(scheduler.wait(&ids, 10, 0, 60_000).is_some());
    assert!(scheduler.close("unknown", 10).is_err());
}

#[test]
fn helpers_are_chosen_by_name_or_by_default() {
    let helper = ConfiguredSubAgent {
        id: text("worker"),
        provider: ProviderRef { id: text("demo"), model: text("fast") },
        description: text("quick"),
    };
    let scheduler = scheduler().with_sub_agents(vec![helper], Some(text("worker")));
    let named = scheduler.select(Some("worker")).expect("known").expect("chosen");
    assert_eq!(named.provider.model, "fast");
    let usual = scheduler.select(None).expect("fallback").expect("chosen");
    assert_eq!(usual.id, "worker");
    assert!(scheduler.select(Some("nobody")).is_err());
    assert!(scheduler.sub_agent_summary().contains("worker"));
}

#[test]
fn forks_keep_the_latest_turns() {
    let messages = vec![
        ChatMessage::user(text("one")),
        ChatMessage::assistant(text("1"), vec![]),
        ChatMessage::user(text("two")),
        ChatMessage::assistant(text("2"), vec![]),
    ];
    assert_eq!(fork_history(&messages, Some("all")).expect("all").len(), 4);
    assert_eq!(fork_history(&messages, Some("none")).expect("none").len(), 0);
    let last = fork_history(&messages, Some("1")).expect("one turn");
    assert_eq!(last.len(), 2);
    assert_eq!(last[0].content, "two");
    assert!(fork_history(&messages, Some("some")).is_err());
}

// Tools

fn call(id: &str, value: &str) -> ToolCall {
    ToolCall {
        id: text(id),
        name: text("echo"),
        arguments: Json::Object(vec![(text("value"), Json::Text(text(value)))]),
    }
}

#[test]
fn failures_are_booked_by_call() {
    let one = tool_call_fingerprint(&call("1", "a"));
    let other = tool_call_fingerprint(&call("2", "b"));
    let failures = book_result(vec![], &one, true, false, "exit code 1");
    let failures = book_result(failures, &one, true, false, "exit code 1");
    assert_eq!(find_failure(&failures, &one).executions, 2);
    assert_eq!(find_failure(&failures, &other).executions, 0);
    let failures = book_result(failures, &one, true, true, "fine");
    assert_eq!(find_failure(&failures, &one).executions, 0);
}

#[test]
fn batches_run_each_call_once_and_keep_writers_apart() {
    let fact = |read_only: bool, resource: &str| CallFacts {
        read_only,
        resource: Some(text(resource)),
    };
    let calls = vec![call("1", "a"), call("2", "a"), call("3", "b"), call("4", "c")];
    let facts = vec![fact(true, "x"), fact(true, "x"), fact(true, "y"), fact(false, "y")];
    let scheduled = schedule_calls(&calls, &facts, &vec![]);
    assert!(matches!(scheduled[0].mode, CallMode::Parallel));
    assert!(matches!(scheduled[1].mode, CallMode::Blocked(_)));
    assert!(matches!(scheduled[2].mode, CallMode::Serial));
    assert!(matches!(scheduled[3].mode, CallMode::Serial));
}

// The command line

#[test]
fn lines_are_shortened() {
    let long = "word ".repeat(100);
    assert!(preview(&long).chars().count() <= 183);
    assert_eq!(preview("a\n b"), "a b");
    assert_eq!(compact_json(&json(r#"{"a": 1}"#)), r#"{"a":1}"#);
}

#[test]
fn answers_approve_or_not() {
    assert!(approves("y\n"));
    assert!(approves(" YES "));
    assert!(!approves(""));
    assert!(!approves("no"));
    assert!(check_session_choice(true, true).is_err());
    assert!(check_session_choice(true, false).is_ok());
}

#[test]
fn models_are_listed_with_the_one_in_use() {
    let choice = |model: &str| ModelChoice {
        provider_id: text("demo"),
        provider_display: text("Demo"),
        selector: format!("demo:{model}"),
        model: text(model),
        is_fast: false,
    };
    let mut fast = choice("b");
    fast.is_fast = true;
    let lines = print_models(&vec![choice("a"), fast], "demo");
    assert_eq!(lines[0], format!(" 1. {:<24} Demo / a *", "demo:a"));
    assert_eq!(lines[1], format!(" 2. {:<24} Demo / b [fast]", "demo:b"));
}

#[test]
fn sessions_are_listed_with_their_date() {
    assert_eq!(
        print_session("id", 1_431_648_059, "demo", "main", "", "about").as_deref(),
        Some("id  2015-05-15 00:00  demo/main  about")
    );
    assert_eq!(print_session("id", i64::MAX, "demo", "main", "", "about"), None);
    assert_eq!(
        show_session_line("id", "now", "demo", "main", "title", "about"),
        "id  now  demo/main  title"
    );
}

#[test]
fn deltas_go_to_the_output() {
    let printed = terminal_event(&AgentEvent::TextDelta(text("hi"))).expect("printed");
    assert!(matches!(printed.stream, Stream::Output));
    assert_eq!(printed.text, "hi");
}

#[test]
fn terminal_prompts_begin_with_the_identity() {
    let told = |custom: &str| {
        terminal_system_prompt(
            "/home",
            "/project",
            AccessMode::ReadOnly,
            "read-only",
            &vec![],
            &vec![],
            custom,
            "",
            "",
        )
    };
    assert!(told("I am Ku").starts_with("## Custom Identity"));
    assert!(told("  ").starts_with("You are Coomi, a pragmatic terminal coding agent."));
}

// Turns of the browser

#[test]
fn turns_wait_before_they_work() {
    let mut task = SessionTask::new();
    task.begin_turn(text("t"), 1);
    task.running = true;
    assert_eq!(begin_waiting(&mut task).expect("waiting"), "t");
    assert!(begin_work(&mut task, &vec![text("src/")]).is_err());
    assert!(begin_work(&mut task, &vec![]).is_ok());
    assert_eq!(task.phase, "running");
}

#[test]
fn memories_join_the_prompt_only_where_they_may() {
    let parts = |memory: Option<&str>| PromptParts {
        life: None,
        skills: String::new(),
        servers: String::new(),
        memory: memory.map(text),
    };
    assert!(build_prompt_context(text("system"), &parts(Some("remembered"))).contains("remembered"));
    assert!(!build_prompt_context(text("system"), &parts(None)).contains("remembered"));
    let mut output = text("one");
    append_continuation(&mut output, "two");
    assert!(output.starts_with("one") && output.ends_with("two"));
}
