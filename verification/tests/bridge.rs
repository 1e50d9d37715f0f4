use coomi::access::restore_tasks;
use coomi::agent::Agent;
use coomi::agents::AccessMode;
use coomi::agents::AgentScheduler;
use coomi::agents::ProviderRef;
use coomi::bridge::list_memory;
use coomi::bridge::task_detail;
use coomi::bridge::update_memory;
use coomi::bridge::MemoryEdit;
use coomi::bridge::MemoryRecord;
use coomi::catalog::build_registry_payload;
use coomi::catalog::choose_registry;
use coomi::catalog::registry_index;
use coomi::catalog::registry_is_fresh;
use coomi::catalog::registry_sources;
use coomi::commands::give_up_turn;
use coomi::commands::TurnKind;
use coomi::events::AgentEvent;
use coomi::json::Json;
use coomi::observer::current_turn;
use coomi::observer::estimate_context_categories;
use coomi::observer::load_reasoning_stats;
use coomi::observer::reasoning_efforts;
use coomi::observer::send_usage;
use coomi::observer::BrowserObserver;
use coomi::observer::EventFacts;
use coomi::observer::ObserverAction;
use coomi::observer::RateTexts;
use coomi::overview::ManagedTask;
use coomi::paths::blocked_private_dirs;
use coomi::paths::cognitive_extension_root;
use coomi::paths::cognitive_state_root;
use coomi::paths::registry_disk_cache_path;
use coomi::paths::requested_text;
use coomi::paths::sibling_url;
use coomi::paths::task_checkpoints_path;
use coomi::paths::usage_summary_path;
use coomi::prompts::project_types_for;
use coomi::prompts::side_session_prompt;
use coomi::provider::key_placement;
use coomi::provider::provider_protocol_settings;
use coomi::provider::AutoCompactScope;
use coomi::provider::KeyPlacement;
use coomi::provider::ProviderDocument;
use coomi::provider::ProviderProtocol;
use coomi::provider::ProviderSettings;
use coomi::provider::RemoteCompactionMode;
use coomi::runtime::after_health_check;
use coomi::runtime::check_cognitive_runtime;
use coomi::runtime::cognitive_install;
use coomi::runtime::cognitive_install_failure;
use coomi::runtime::cognitive_status;
use coomi::runtime::HealthStep;
use coomi::runtime::InstallStatus;
use coomi::session::ChatMessage;
use coomi::session::ImageContent;
use coomi::session::Session;
use coomi::session::TokenUsage;
use coomi::settings::default_max_concurrent_tasks;
use coomi::settings::DEFAULT_MAX_CONCURRENT_SESSION_TASKS;
use coomi::subagents::migrate_legacy_subagent_settings;
use coomi::subagents::resolve_configured_subagents;
use coomi::subagents::subagent_selector;
use coomi::subagents::SubAgentEntry;
use coomi::subagents::SubAgentSettings;
use coomi::table::table_get;
use coomi::task::SessionTask;
use coomi::task::TaskStatus;
use coomi::webturn::counts_for_memory;
use coomi::webturn::maybe_degrade_vision;
use coomi::webturn::routes_skills;
use coomi::webturn::select_provider;
use coomi::webturn::turn_directory;

fn json(text: &str) -> Json {
    Json::parse(text.as_bytes()).expect("JSON")
}

fn text(value: &str) -> String {
    value.to_string()
}

fn session() -> Session {
    Session::new(text("s"), text("demo"), text("main"), text("/project"))
}

fn provider(kind: &str, key: &str) -> ProviderSettings {
    ProviderSettings {
        display: text("Demo"),
        provider_type: text(kind),
        tool_protocol: None,
        base_url: text("https://example.test/v1"),
        model: text("main"),
        fast_model: None,
        api_key: text(key),
        context_window: None,
        effective_context_window_percent: None,
        auto_compact_token_limit: None,
        auto_compact_scope: AutoCompactScope::Total,
        max_output_tokens: None,
        supports_remote_compaction: None,
        remote_compaction_mode: RemoteCompactionMode::Legacy,
        supports_vision: false,
        supports_native_tools: true,
        supports_web_search: false,
        supports_parallel_tool_calls: false,
        model_context_windows: vec![],
        extra: vec![],
    }
}

fn record(id: &str, session: &str, status: TaskStatus) -> ManagedTask {
    ManagedTask {
        id: text(id),
        session_id: text(session),
        kind: text("agent"),
        status,
        created_at_ms: 2_500,
        priority: Json::Text(text("normal")),
        resources: Json::Array(vec![]),
        skills: Json::Array(vec![]),
        model: None,
        retries: 0,
        error: None,
        lock_wait_ms: 0,
    }
}

#[test]
fn restored_tasks_are_those_of_the_last_records() {
    let tasks = restore_tasks(&vec![
        record("t1", "a", TaskStatus::Completed),
        record("t2", "b", TaskStatus::Interrupted),
        record("t3", "a", TaskStatus::Running),
    ]);
    assert_eq!(tasks.len(), 2);
    let a = table_get(&tasks, "a").expect("session a");
    assert_eq!(a.task_id.as_deref(), Some("t3"));
    assert_eq!(a.phase, "running");
    assert_eq!(a.started_at, 2);
    assert!(!a.running);
    assert_eq!(table_get(&tasks, "b").expect("session b").phase, "interrupted");
}

#[test]
fn agents_keep_their_limits() {
    let agent = Agent::new(text("p")).with_forced_compaction(true).with_max_parallel_tools(0);
    assert!(agent.force_compaction);
    assert_eq!(agent.max_parallel_tools, 1);
    let agent = Agent::new(text("p")).with_provider_retry_policy(9, 2_000, 1_000);
    assert!(agent.reconnect_initial_delay_ms <= agent.reconnect_max_delay_ms);
}

#[test]
fn helpers_write_their_output() {
    let mut scheduler = AgentScheduler::new(
        text("/project"),
        text("/home"),
        ProviderRef { id: text("demo"), model: text("main") },
        AccessMode::ReadOnly,
        text("prompt"),
    )
    .without_persistent_memory();
    assert!(!scheduler.persistent_memory);
    let (id, _) = scheduler.spawn("look", &vec![], None, 0).expect("taken on");
    scheduler.observe(&id, &AgentEvent::TextDelta(text("found ")));
    scheduler.observe(&id, &AgentEvent::TextDelta(text("it")));
    scheduler.observe(&id, &AgentEvent::StreamReset);
    let ids = vec![id.clone()];
    assert_eq!(scheduler.snapshots(&ids, 7)[0].output, "found it");
    assert_eq!(scheduler.snapshots(&ids, 7)[0].elapsed_ms, 7);
    scheduler.finish(&id, Some("broken"));
    let ended = &scheduler.snapshots(&ids, 7)[0];
    assert_eq!(ended.status, "failed");
    assert!(ended.output.contains("broken"));
}

#[test]
fn memories_are_listed_and_moved() {
    let listed = list_memory(&vec![MemoryRecord {
        name: text("note"),
        description: text("a note"),
        content: text("remember"),
        scope: Json::Text(text("global")),
        memory_type: Json::Text(text("user")),
        lifecycle: Json::Null,
        hit_count: Json::Number(text("3")),
        last_triggered: Json::Null,
        created: Json::Null,
        updated: Json::Null,
    }]);
    assert!(listed.to_text().contains("remember"));
    let edit = MemoryEdit {
        name: None,
        scope: text("project"),
        description: text("a note"),
        memory_type: text("user"),
        content: text("remember"),
    };
    assert!(update_memory(&edit, true, &Some(text("global"))).expect("found"));
    assert!(!update_memory(&edit, true, &Some(text("project"))).expect("found"));
    assert_eq!(update_memory(&edit, false, &None).expect_err("missing").code(), 400);
}

#[test]
fn tasks_are_shown_with_their_logs() {
    let shown = task_detail("/home", "t1", Some(json(r#"{"id": "t1"}"#)), json("[]"))
        .expect("task");
    assert!(shown.to_text().contains("/home/tasks/t1/events.jsonl"));
    assert!(task_detail("/home", "t1", None, json("[]")).is_err());
}

#[test]
fn the_market_falls_back_to_what_was_kept() {
    let empty = build_registry_payload(&None, &Some(json("5")), &None);
    assert_eq!(empty.get("registry").expect("registry").to_text(), "null");
    let kept = json(r#"{"registry": {"skills": []}}"#);
    let (shown, keep) = choose_registry(empty.copy(), Some(kept.copy()));
    assert_eq!(shown.to_text(), kept.to_text());
    assert!(!keep);
    let (shown, keep) = choose_registry(kept.copy(), None);
    assert_eq!(shown.to_text(), kept.to_text());
    assert!(keep);
    let index = registry_index(&json("{}"), &json("{}"), &vec![text("a")]);
    assert_eq!(index.get("installed").expect("installed").to_text(), r#"["a"]"#);
    assert!(index.to_text().contains("workflows"));
}

#[test]
fn the_registry_is_fetched_from_where_it_was_set() {
    let usual = registry_sources(&None, &None);
    assert_eq!(usual.registry.len(), 2);
    assert!(usual.github[1].ends_with("@main/stats-github.json"));
    assert_eq!(usual.app.len(), 1);
    let own = registry_sources(&Some(text("https://a.test/r.json")), &Some(text("https://b.test")));
    assert_eq!(own.registry, vec!["https://a.test/r.json"]);
    assert_eq!(own.github, vec!["https://a.test/stats-github.json"]);
    assert_eq!(own.app, vec!["https://b.test"]);
    assert!(registry_is_fresh(599));
    assert!(!registry_is_fresh(600));
}

#[test]
fn requests_name_what_they_are_about() {
    let body = json(r#"{"path": "/a", "from": 3}"#);
    assert_eq!(requested_text(&body, "path").expect("path"), "/a");
    assert_eq!(requested_text(&body, "from").expect_err("no text").message, "missing from");
    assert!(side_session_prompt("base").starts_with("base\n\nThis is a temporary Side Session."));
}

#[test]
fn turns_that_could_not_be_recorded_do_not_run() {
    let mut task = SessionTask::new();
    task.running = true;
    assert_eq!(
        give_up_turn(&mut task, TurnKind::Retry, "no disk"),
        "failed to create retry task: no disk"
    );
    assert!(!task.running);
    assert_eq!(
        give_up_turn(&mut task, TurnKind::Message, "no disk"),
        "failed to create task: no disk"
    );
}

#[test]
fn pauses_wait_for_safe_points() {
    let mut task = SessionTask::new();
    task.running = true;
    assert!(!task.reach_safe_point());
    assert_eq!(task.phase, "running");
    task.pause_requested = true;
    assert!(task.reach_safe_point());
    assert_eq!(task.phase, "paused");
}

#[test]
fn usage_reaches_the_browser() {
    let mut observer = BrowserObserver::new(text("medium"), 0, 0, 0, 0, vec![]);
    let mut task = SessionTask::new();
    let facts = EventFacts { elapsed: text("1"), images: vec![] };
    let mut used = TokenUsage::zero();
    used.input_tokens = 10;
    used.output_tokens = 5;
    let event = AgentEvent::ModelUsage { total: used, request: used };
    let action = observer.on_event(&mut task, &event, &facts);
    assert!(!matches!(action, ObserverAction::Nothing));
    let stats =
        load_reasoning_stats(&vec![], &current_turn(&observer.usage), 1_000, "medium");
    let count = reasoning_efforts().len();
    assert_eq!(stats.len(), count);
    let rates = RateTexts {
        context: text("0.5"),
        cache: text("0"),
        turn_cache: text("0"),
        efforts: vec![text("0"); count],
    };
    send_usage(&observer, &mut task, &rates, &stats);
    let sent = task.unacked_events.last().expect("event").to_text();
    assert!(sent.contains("\"total_tokens\":15"));
    assert!(sent.contains("0.5"));
}

#[test]
fn contexts_are_divided() {
    let shares = estimate_context_categories(
        "system prompt",
        &vec![(text("hello there"), String::new())],
        &vec![(text("mcp_tool"), text("described")), (text("read_file"), text("described"))],
        &vec![text("mcp_tool")],
        &vec![text("explore")],
    );
    let names: Vec<&str> = shares.iter().map(|share| share.0.as_str()).collect();
    assert_eq!(
        names,
        vec!["mcp_tools", "messages", "other", "skills", "system_prompt", "system_tools"]
    );
    assert!(table_get(&shares, "messages").is_none_or(|tokens| *tokens > 0));
    assert_eq!(shares[2].1, 0);
}

#[test]
fn files_have_their_places() {
    assert_eq!(task_checkpoints_path("/home"), "/home/task_checkpoints.json");
    for path in [
        registry_disk_cache_path("/home"),
        cognitive_extension_root("/home"),
        cognitive_state_root("/home"),
        usage_summary_path("/home"),
    ] {
        assert!(path.starts_with("/home/"));
    }
    assert!(blocked_private_dirs("/home").contains(&text("/home/sessions")));
    assert_eq!(sibling_url("https://a.test/x/registry.json", "stats.json"), "https://a.test/x/stats.json");
}

#[test]
fn projects_are_known_by_their_files() {
    assert_eq!(
        project_types_for(&vec![text("go.mod"), text("build.gradle"), text("settings.gradle")]),
        vec!["android", "go"]
    );
    assert!(project_types_for(&vec![]).is_empty());
}

#[test]
fn keys_go_where_the_provider_wants_them() {
    assert!(matches!(key_placement(&provider("gemini_native", "k")), KeyPlacement::Query));
    assert!(matches!(key_placement(&provider("anthropic_messages", "k")), KeyPlacement::Header));
    assert!(matches!(key_placement(&provider("openai_compatible", "k")), KeyPlacement::Bearer));
    assert!(matches!(key_placement(&provider("openai_compatible", "")), KeyPlacement::Nowhere));
    assert!(matches!(
        provider_protocol_settings(&provider("gemini_native", "k")),
        ProviderProtocol::Gemini
    ));
}

#[test]
fn unhealthy_guests_are_deployed_again_only_on_request() {
    assert!(matches!(after_health_check(true, Ok(())), HealthStep::AlreadyReady));
    assert!(matches!(after_health_check(true, Err(text("x"))), HealthStep::Redeploy(_)));
    assert!(matches!(
        after_health_check(false, Err(text("x"))),
        HealthStep::Refuse(message) if message == "runtime action failed: x"
    ));
}

#[test]
fn lives_need_the_guest_system() {
    assert!(check_cognitive_runtime(true, true).is_ok());
    assert_eq!(
        check_cognitive_runtime(false, true).expect_err("no guest").message,
        "ProotLinux runtime is not ready"
    );
    assert_eq!(
        check_cognitive_runtime(true, false).expect_err("no extension").message,
        "Coomi Life is not installed"
    );
    assert!(cognitive_install(true, InstallStatus::Downloading).is_err());
    assert!(cognitive_install(true, InstallStatus::Ready).is_ok());
    assert_eq!(cognitive_install_failure(true, "x"), "Coomi Life health check failed: x");
    let shown = cognitive_status(true, false, "mine", Json::Null);
    assert_eq!(shown.bool_member("installed"), Some(true));
    assert_eq!(shown.text_member("profile_id").as_deref(), Some("mine"));
}

fn helper(id: &str) -> SubAgentEntry {
    SubAgentEntry {
        id: text(id),
        provider_id: text("demo"),
        model: text("main"),
        description: String::new(),
    }
}

#[test]
fn helpers_without_a_provider_are_left_out() {
    assert_eq!(subagent_selector(&helper("a")), "demo:main");
    let settings = SubAgentSettings {
        agents: vec![helper("a"), helper("b")],
        fallback_id: Some(text("a")),
    };
    let found = vec![None, Some(ProviderRef { id: text("demo"), model: text("main") })];
    let (resolved, fallback) = resolve_configured_subagents(&settings, &found);
    assert_eq!(resolved.len(), 1);
    assert_eq!(resolved[0].id, "b");
    assert_eq!(fallback.as_deref(), Some("b"));
}

#[test]
fn helpers_of_providers_are_moved_once() {
    let mut settings = provider("openai_compatible", "k");
    settings.extra = vec![(text("models"), json(r#"["main"]"#))];
    let mut document = ProviderDocument {
        active: text("demo"),
        providers: vec![(text("demo"), settings)],
    };
    let current = SubAgentSettings { agents: vec![], fallback_id: None };
    let moved = migrate_legacy_subagent_settings(
        &json("{}"),
        current,
        &mut document,
        &vec![Some(vec![helper("a")])],
    )
    .expect("moved");
    assert!(moved.store);
    let again = migrate_legacy_subagent_settings(
        &json(r#"{"sub_agents": []}"#),
        SubAgentSettings { agents: vec![], fallback_id: None },
        &mut document,
        &vec![None],
    )
    .expect("kept");
    assert!(!again.store);
    assert_eq!(default_max_concurrent_tasks(), DEFAULT_MAX_CONCURRENT_SESSION_TASKS);
}

#[test]
fn turns_find_their_provider_and_directory() {
    assert_eq!(select_provider(&Some(text("x")), &Some(session())).as_deref(), Some("x"));
    assert_eq!(select_provider(&None, &Some(session())).as_deref(), Some("demo"));
    assert_eq!(select_provider(&None, &None), None);
    assert_eq!(turn_directory(&session(), true, "/cwd"), "/project");
    assert_eq!(turn_directory(&session(), false, "/cwd"), "/cwd");
    assert!(counts_for_memory(true, false, "hello"));
    assert!(!counts_for_memory(false, false, "hello"));
    assert!(!counts_for_memory(true, true, "hello"));
    assert!(routes_skills(false, "a request of some length"));
    assert!(!routes_skills(false, "short"));
}

#[test]
fn refused_images_are_noted_once() {
    let mut session = session();
    assert!(!maybe_degrade_vision(&session, false, "HTTP 400: image_url is not supported"));
    let mut message = ChatMessage::user(text("look"));
    message.images.push(ImageContent { media_type: text("image/png"), data: text("x") });
    session.messages.push(message);
    assert!(maybe_degrade_vision(&session, false, "HTTP 400: image_url is not supported"));
    assert!(!maybe_degrade_vision(&session, true, "HTTP 400: image_url is not supported"));
    assert!(!maybe_degrade_vision(&session, false, "bad temperature"));
}
