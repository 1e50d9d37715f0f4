use coomi::access::allowed_origins;
use coomi::access::approve;
use coomi::access::auth_layer;
use coomi::access::engine_fingerprint;
use coomi::access::expire_file_request;
use coomi::access::load_task_checkpoints;
use coomi::access::origin_allowed;
use coomi::access::request_file_transfer;
use coomi::access::request_user_input;
use coomi::access::FileTransferRequest;
use coomi::access::Gate;
use coomi::api::ApiError;
use coomi::bridge::begin_scheduled_turn;
use coomi::bridge::cancel_task;
use coomi::bridge::check_discovery;
use coomi::bridge::create_memory;
use coomi::bridge::keeps_models;
use coomi::bridge::run_schedule_now;
use coomi::bridge::scheduled_session;
use coomi::bridge::MemoryEdit;
use coomi::catalog::check_mcp_parameters;
use coomi::catalog::install_skill_remote;
use coomi::catalog::installed_mcp_enabled;
use coomi::catalog::parse_assignments;
use coomi::catalog::remove_mcp_server;
use coomi::catalog::get_hooks;
use coomi::catalog::set_hooks;
use coomi::catalog::uninstall_mcp_catalog;
use coomi::catalog::CatalogParameter;
use coomi::catalog::McpCatalogEntry;
use coomi::commands::choose_model;
use coomi::commands::coomi_envelope;
use coomi::commands::connect;
use coomi::commands::guide_chunks;
use coomi::commands::handle_command;
use coomi::commands::is_retryable_error_text;
use coomi::commands::model_saved;
use coomi::commands::open_envelope;
use coomi::commands::record_guide;
use coomi::commands::tell_guide;
use coomi::commands::GuideStep;
use coomi::commands::CommandAction;
use coomi::commands::ConnectionState;
use coomi::commands::SessionMode;
use coomi::commands::NEWBIE_GUIDE;
use coomi::json::Json;
use coomi::observer::load_reasoning_aggregates;
use coomi::observer::save_reasoning_aggregates;
use coomi::observer::ReasoningAggregate;
use coomi::observer::ReasoningStatsDocument;
use coomi::overview::list_tasks;
use coomi::overview::ManagedTask;
use coomi::paths::abs_path;
use coomi::paths::canonicalize_android_path;
use coomi::paths::check_deletable;
use coomi::paths::is_within;
use coomi::paths::mime_for;
use coomi::paths::normalize_path;
use coomi::paths::sandboxed_path;
use coomi::runtime::cognitive_action;
use coomi::runtime::after_rollback;
use coomi::runtime::next_stage;
use coomi::runtime::runtime_v2_action;
use coomi::runtime::validate_cognitive_profile;
use coomi::runtime::CognitiveActionRequest;
use coomi::runtime::CognitiveCall;
use coomi::runtime::InstallStage;
use coomi::runtime::InstallStatus;
use coomi::runtime::ManifestReading;
use coomi::runtime::RuntimeStep;
use coomi::runtime::StageResult;
use coomi::schedule::next_due;
use coomi::schedule::save_schedule;
use coomi::schedule::started_run;
use coomi::schedule::summarize_scheduled_output;
use coomi::schedule::trigger_run;
use coomi::schedule::upsert_schedule;
use coomi::schedule::validate_schedule_entry;
use coomi::schedule::Moment;
use coomi::schedule::ScheduleEntry;
use coomi::schedule::SchedulePayload;
use coomi::schedule::ScheduleStore;
use coomi::schedule::Scheduler;
use coomi::session::ChatMessage;
use coomi::session::ImageContent;
use coomi::session::LoopState;
use coomi::session::LoopStatus;
use coomi::session::Role;
use coomi::session::Session;
use coomi::session::ToolCall;
use coomi::settings::configured_connection_settings;
use coomi::settings::load_permission_mode;
use coomi::settings::read_settings;
use coomi::settings::save_permission_mode;
use coomi::settings::set_connection_settings;
use coomi::settings::ConnectionSettings;
use coomi::settings::PermissionMode;
use coomi::task::parse_session_id;
use coomi::task::phase_status;
use coomi::task::plain_event;
use coomi::task::task_action;
use coomi::task::SessionTask;
use coomi::task::TaskCommand;
use coomi::task::TaskStatus;
use coomi::webrun::wait_step;
use coomi::webrun::RunAction;
use coomi::webrun::RunEvent;
use coomi::webrun::WaitAction;
use coomi::webrun::WaitEvent;
use coomi::webrun::WaitPhase;
use coomi::webrun::WebRun;

fn json(text: &str) -> Json {
    Json::parse(text.as_bytes()).expect("JSON")
}

fn text(value: &str) -> String {
    value.to_string()
}

// Settings

#[test]
fn connection_settings_are_read_back() {
    let mut settings = read_settings(None);
    let wanted = ConnectionSettings {
        provider_retry_count: 3,
        ws_retry_count: 4,
        reconnect_initial_delay_ms: 500,
        reconnect_max_delay_ms: 9_000,
        max_concurrent_tasks: 2,
    };
    set_connection_settings(&mut settings, &wanted).expect("valid settings");
    let stored = settings.to_text().into_bytes();
    let found = configured_connection_settings(&read_settings(Some(&stored)));
    assert_eq!(found.provider_retry_count, 3);
    assert_eq!(found.ws_retry_count, 4);
    assert_eq!(found.reconnect_initial_delay_ms, 500);
    assert_eq!(found.reconnect_max_delay_ms, 9_000);
    assert_eq!(found.max_concurrent_tasks, 2);
}

#[test]
fn connection_settings_out_of_range_are_refused() {
    let mut settings = read_settings(None);
    let wrong = ConnectionSettings {
        provider_retry_count: 200,
        ws_retry_count: 4,
        reconnect_initial_delay_ms: 500,
        reconnect_max_delay_ms: 9_000,
        max_concurrent_tasks: 2,
    };
    let error = set_connection_settings(&mut settings, &wrong).expect_err("too many retries");
    assert_eq!(error.code(), 400);
    assert_eq!(settings.to_text(), "{}");
}

#[test]
fn broken_settings_files_read_as_empty() {
    assert_eq!(read_settings(Some(&b"not json".to_vec())).to_text(), "{}");
    assert_eq!(read_settings(Some(&b"[1]".to_vec())).to_text(), "{}");
}

#[test]
fn permission_modes_are_read_back() {
    for mode in [PermissionMode::Ask, PermissionMode::Auto, PermissionMode::Full] {
        let stored = save_permission_mode(mode).to_text().into_bytes();
        assert_eq!(load_permission_mode(Some(&stored)), mode);
    }
}

// Schedules

fn entry(id: &str, cron: &str) -> ScheduleEntry {
    ScheduleEntry {
        id: text(id),
        cron: text(cron),
        prompt: text("check the mail"),
        notify: true,
        enabled: true,
        created_at: text("2025-01-01"),
    }
}

fn moment(hour: u32, minute: u32) -> Moment {
    Moment {
        date: text("2025-01-01"),
        clock: format!("{hour:02}:{minute:02}"),
        hour,
        minute,
    }
}

#[test]
fn daily_tasks_run_once_in_their_minute() {
    let mut store = ScheduleStore::empty();
    store.upsert(entry("a", "30 8"));
    let mut scheduler = Scheduler::new(store);
    assert!(next_due(&mut scheduler, &moment(8, 29)).is_none());
    assert_eq!(next_due(&mut scheduler, &moment(8, 30)).expect("due").id, "a");
    assert!(next_due(&mut scheduler, &moment(8, 30)).is_none());
}

#[test]
fn stored_tasks_are_found_replaced_and_removed() {
    let mut store = ScheduleStore::empty();
    store.upsert(entry("a", "30 8"));
    store.upsert(entry("b", "0 9"));
    store.upsert(entry("a", "0 10"));
    assert_eq!(store.schedules.len(), 2);
    assert_eq!(store.find("a").expect("stored").cron, "0 10");
    assert!(store.remove("a"));
    assert!(!store.remove("a"));
    assert!(store.find("a").is_none());
    assert!(store.find("b").is_some());
}

#[test]
fn the_record_keeps_the_latest_runs() {
    let mut store = ScheduleStore::empty();
    for i in 0..205 {
        store.record_run(started_run(&i.to_string(), text("a"), text("now")));
    }
    assert_eq!(store.runs.len(), 200);
    assert_eq!(store.runs[0].id, "run-5");
    store.finish_run("run-204", "succeeded", "fine", "later");
    assert_eq!(store.runs[199].status, "succeeded");
    assert_eq!(store.recent_runs()[0].id, "run-204");
}

#[test]
fn tasks_without_an_id_get_one() {
    let payload = |id: &str, cron: &str| SchedulePayload {
        id: text(id),
        cron: text(cron),
        prompt: text(" check "),
        notify: None,
        enabled: Some(false),
    };
    let mut store = ScheduleStore::empty();
    let id = upsert_schedule(&mut store, &payload("", " 5 * "), text("now")).expect("saved");
    assert!(id.starts_with("sched-"));
    assert_eq!(id.len(), 42);
    let saved = store.find(&id).expect("stored");
    assert_eq!(saved.cron, "5 *");
    assert_eq!(saved.prompt, "check");
    assert!(saved.notify && !saved.enabled);
    assert_eq!(
        save_schedule(&mut store, &payload("", "5 *"), "x", text("now")).expect("saved"),
        "sched-x"
    );
    assert!(upsert_schedule(&mut store, &payload("a", "60 *"), text("now")).is_err());
    assert_eq!(store.schedules.len(), 2);
    let run = trigger_run(&mut store, &id, "now");
    assert!(run.starts_with("run-"));
    assert_eq!(store.runs[0].id, run);
    assert_eq!(store.runs[0].status, "running");
}

#[test]
fn schedules_without_a_time_are_refused() {
    assert!(validate_schedule_entry(&entry("a", "30 8")).is_ok());
    assert_eq!(validate_schedule_entry(&entry("a", "soon")).expect_err("no time").code(), 400);
    let mut silent = entry("a", "30 8");
    silent.prompt = text("  ");
    assert_eq!(validate_schedule_entry(&silent).expect_err("no prompt").code(), 400);
}

#[test]
fn schedules_run_in_their_own_session() {
    assert_ne!(scheduled_session("a"), scheduled_session("b"));
    let mut store = ScheduleStore::empty();
    store.upsert(entry("a", "30 8"));
    assert_eq!(run_schedule_now(&store, "a").expect("stored").id, "a");
    assert_eq!(run_schedule_now(&store, "b").expect_err("unknown").code(), 404);
    let mut task = SessionTask::new();
    assert!(begin_scheduled_turn(&mut task, "a").is_ok());
    assert!(begin_scheduled_turn(&mut task, "a").is_err());
}

#[test]
fn scheduled_output_is_summed_up() {
    let events = vec![
        json(r#"{"event_type": "text_chunk", "content": "first passage"}"#),
        json(r#"{"event_type": "tool_done", "content": "skip"}"#),
        json(r#"{"event_type": "text_chunk", "content": " last passage "}"#),
        json(r#"{"event_type": "text_chunk", "content": "  "}"#),
        json(r#"{"event_type": "turn_end"}"#),
    ];
    assert_eq!(summarize_scheduled_output(&events), "last passage");
    assert_eq!(summarize_scheduled_output(&vec![]), "任务执行完成（无文本输出）");
    let long = "长".repeat(700);
    let event = Json::Object(vec![
        (text("content"), Json::Text(long)),
        (text("event_type"), Json::Text(text("text_chunk"))),
    ]);
    assert_eq!(summarize_scheduled_output(&vec![event]), "长".repeat(500));
}

// Tasks

#[test]
fn session_identifiers_are_written_in_one_way() {
    let id = parse_session_id("67E5504410B1426F9247BB680E5FE0C8").expect("identifier");
    assert_eq!(id, "67e55044-10b1-426f-9247-bb680e5fe0c8");
    assert_eq!(parse_session_id("nonsense").expect_err("no identifier").code(), 400);
}

#[test]
fn events_wait_until_they_are_confirmed() {
    let mut task = SessionTask::new();
    for _ in 0..3 {
        task.push_event(plain_event("tick"));
    }
    assert_eq!(task.unacked_events.len(), 3);
    assert_eq!(task.unacked_events[2].u64_member("event_seq"), Some(3));
    task.acknowledge_through(2);
    assert_eq!(task.unacked_events.len(), 1);
    task.acknowledge_through(2);
    assert_eq!(task.unacked_events.len(), 1);
    let sent = connect(&mut task, None);
    assert!(sent.iter().any(|event| event.u64_member("event_seq") == Some(3)));
}

#[test]
fn stopping_twice_is_stopping_once() {
    let mut task = SessionTask::new();
    task.begin_turn(text("t"), 1);
    task.running = true;
    assert!(task.stop());
    let events = task.unacked_events.len();
    assert!(!task.stop());
    assert_eq!(task.unacked_events.len(), events);
    assert!(!task.running);
}

#[test]
fn names_of_states_are_phases() {
    for status in [
        TaskStatus::Queued,
        TaskStatus::Running,
        TaskStatus::Paused,
        TaskStatus::Completed,
        TaskStatus::Interrupted,
    ] {
        assert_eq!(phase_status(&status.name()), status);
    }
}

#[test]
fn actions_on_tasks_are_checked() {
    let (_, command) = task_action(Some(SessionTask::new()), "pause", false);
    assert!(matches!(command, Ok(TaskCommand::RequestPause)));
    let (_, command) = task_action(Some(SessionTask::new()), "explode", false);
    assert_eq!(command.expect_err("unknown action").code(), 400);
    let mut nothing = None;
    assert_eq!(cancel_task(&mut nothing).expect_err("no task").code(), 400);
}

#[test]
fn checkpoints_name_sessions() {
    let file = br#"[{"session_id": "a"}, {"other": 1}, {"session_id": "b"}]"#.to_vec();
    let none: Vec<ManagedTask> = vec![];
    let named = load_task_checkpoints(&none, Some(&file)).expect("a list");
    assert_eq!(named, vec!["a", "b"]);
    assert!(load_task_checkpoints(&none, None).is_none());
    assert!(load_task_checkpoints(&none, Some(&b"{".to_vec())).is_none());
    assert!(load_task_checkpoints(&none, Some(&b"{}".to_vec())).is_none());
    let recorded = vec![ManagedTask {
        id: text("t"),
        session_id: text("s"),
        kind: text("agent"),
        status: TaskStatus::Completed,
        created_at_ms: 0,
        priority: Json::Null,
        resources: Json::Null,
        skills: Json::Null,
        model: None,
        retries: 0,
        error: None,
        lock_wait_ms: 0,
    }];
    assert!(load_task_checkpoints(&recorded, Some(&file)).is_none());
}

#[test]
fn empty_task_lists_are_listed() {
    let listed = list_tasks(&vec![], &vec![], &Json::Text(text("normal")), 5);
    assert_eq!(listed.u64_member("running_count"), Some(0));
}

// Access

#[test]
fn requests_need_the_token() {
    let right = text("Bearer secret");
    let wrong = text("Bearer other");
    let passed = |header: Option<&String>, path: &str| auth_layer(path, header, None, "secret");
    assert!(matches!(passed(Some(&right), "/api/sessions"), Gate::Pass));
    assert!(matches!(passed(Some(&wrong), "/api/sessions"), Gate::Refuse));
    assert!(matches!(passed(None, "/api/sessions"), Gate::Refuse));
}

#[test]
fn only_local_pages_connect() {
    assert!(!allowed_origins(8_080).is_empty());
    for origin in allowed_origins(8_080) {
        assert!(origin_allowed(8_080, Some(&origin)));
    }
    assert!(!origin_allowed(8_080, Some(&text("https://evil.example"))));
}

fn shell() -> ToolCall {
    ToolCall { id: text("c"), name: text("local_shell"), arguments: json("{}") }
}

#[test]
fn deletions_are_asked_about_unless_everything_is_allowed() {
    let mut task = SessionTask::new();
    assert!(!approve(&mut task, PermissionMode::Auto, &shell(), "may delete data"));
    assert!(!approve(&mut task, PermissionMode::Ask, &shell(), "reads metadata"));
    assert!(approve(&mut task, PermissionMode::Full, &shell(), "may delete data"));
}

#[test]
fn questions_get_identifiers_of_their_own() {
    let mut task = SessionTask::new();
    let (one, _) = request_user_input(&mut task, vec![json("{}")], Some(60_000)).expect("asked");
    let (other, _) = request_user_input(&mut task, vec![json("{}")], None).expect("asked");
    assert_ne!(one, other);
    assert_eq!(task.questions.len(), 2);
}

#[test]
fn file_transfers_are_offered_to_the_client() {
    let mut task = SessionTask::new();
    let request = FileTransferRequest {
        request_id: text("r"),
        operation: text("export"),
        path: Some(text("/a.txt")),
        suggested_name: None,
        multiple: false,
    };
    assert!(request_file_transfer(&mut task, &request) > 0);
    assert_eq!(task.unacked_events.len(), 1);
    assert_eq!(task.file_requests, vec![request.request_id.clone()]);
    expire_file_request(&mut task, &request.request_id);
    assert!(task.file_requests.is_empty());
}

#[test]
fn files_are_handed_on_once() {
    let mut context = connection();
    let mut task = SessionTask::new();
    task.file_requests = vec![text("r1"), text("r2")];
    let payload =
        json(r#"{"command": "file_transfer_result", "request_id": "r1", "paths": ["/a", 3, "/b"]}"#);
    let action = handle_command(&mut context, &mut task, &payload, true, None);
    assert!(matches!(
        action,
        CommandAction::Files { request_id, paths, waiting: true }
            if request_id == "r1" && paths == ["/a", "/b"]
    ));
    assert_eq!(task.file_requests, vec!["r2"]);
    let action = handle_command(&mut context, &mut task, &payload, true, None);
    assert!(matches!(action, CommandAction::Files { waiting: false, .. }));
    assert_eq!(task.file_requests, vec!["r2"]);
}

#[test]
fn chosen_models_count_once_they_are_saved() {
    let mut context = connection();
    let failed = model_saved(&mut context, "p", "m", Err(text("disk full")));
    assert_eq!(failed, Err(text("failed to persist model: disk full")));
    assert!(context.selected_model.is_none());
    assert!(model_saved(&mut context, "p", "m", Ok(())).is_ok());
    assert_eq!(context.selected_model.as_deref(), Some("p:m"));
    let error = choose_model(&Err(text("no file")), "p", "m").expect_err("no document");
    assert_eq!(error, "failed to load providers: no file");
}

// The course of a turn

fn looping(status: LoopStatus) -> Session {
    let mut session = Session::new(text("s"), text("p"), text("m"), text("/"));
    session.loop_state = Some(LoopState {
        objective: text("all"),
        status,
        token_budget: None,
        tokens_used: 0,
        time_used_seconds: 0,
        blocked_streak: 0,
        turns_completed: 0,
    });
    session
}

fn done(answer: Result<&str, &str>) -> RunEvent {
    RunEvent::Ended { result: answer.map(text).map_err(text), degraded: false }
}

#[test]
fn failed_turns_are_saved_too() {
    let mut session = looping(LoopStatus::Active);
    let mut message = ChatMessage::user(text("look"));
    message.images.push(ImageContent { media_type: text("image/png"), data: text("AA") });
    session.messages.push(message);
    let (mut run, action) = WebRun::begin(SessionMode::Agent, false);
    assert!(matches!(action, RunAction::Run { recovery: false }));
    let action = run.step(&session, done(Err("image_url is not supported")));
    assert!(matches!(action, RunAction::Save { degrade: true, touch: false }));
    let action = run.step(&session, RunEvent::Saved);
    assert!(matches!(action, RunAction::Fail(reason) if reason == "image_url is not supported"));
    assert!(matches!(run.step(&session, RunEvent::Saved), RunAction::Rejected));
}

#[test]
fn loops_go_on_after_success_and_are_told_whole() {
    let session = looping(LoopStatus::Active);
    let (mut run, _) = WebRun::begin(SessionMode::Life, false);
    run.step(&session, done(Ok("one")));
    assert!(matches!(run.step(&session, RunEvent::Saved), RunAction::ContinueLoop));
    let action = run.step(&session, done(Ok("two")));
    assert!(matches!(action, RunAction::Save { degrade: false, touch: true }));
    let finished = looping(LoopStatus::Complete);
    let action = run.step(&finished, RunEvent::Saved);
    assert!(matches!(action, RunAction::TellLife(told) if told == "one\n\ntwo"));
    assert!(matches!(run.step(&finished, RunEvent::Told), RunAction::Finish));
}

#[test]
fn sessions_that_cannot_be_saved_end_the_turn() {
    let session = looping(LoopStatus::Active);
    let (mut run, _) = WebRun::begin(SessionMode::Agent, true);
    run.step(&session, done(Ok("one")));
    let action = run.step(&session, RunEvent::Failed(text("disk full")));
    assert!(matches!(action, RunAction::Fail(reason) if reason == "disk full"));
}

#[test]
fn tasks_wait_for_their_resources() {
    let mut task = SessionTask::new();
    task.running = true;
    let mut phase = WaitPhase::SafePoint;
    assert!(matches!(wait_step(&mut phase, &mut task, WaitEvent::Passed), WaitAction::Acquire));
    let action = wait_step(&mut phase, &mut task, WaitEvent::Busy);
    assert!(matches!(action, WaitAction::Sleep { delay_ms: 100 }));
    let action = wait_step(&mut phase, &mut task, WaitEvent::Slept);
    assert!(matches!(action, WaitAction::AwaitSafePoint));
    wait_step(&mut phase, &mut task, WaitEvent::Passed);
    assert!(matches!(wait_step(&mut phase, &mut task, WaitEvent::Acquired), WaitAction::Compare));
    let changed = WaitEvent::Compared(vec![text("a.rs"), text("b.rs")]);
    let action = wait_step(&mut phase, &mut task, changed);
    assert!(matches!(action, WaitAction::Conflict(why) if why == "external state changed: a.rs, b.rs"));
    assert_eq!(task.phase, "conflict");
    let mut cancelled = SessionTask::new();
    let mut phase = WaitPhase::SafePoint;
    let action = wait_step(&mut phase, &mut cancelled, WaitEvent::Passed);
    assert!(matches!(action, WaitAction::Fail(why) if why == "task was cancelled"));
}

#[test]
fn engines_are_told_apart_by_their_bytes() {
    let one = engine_fingerprint(b"one", "1.0");
    assert_eq!(one, engine_fingerprint(b"one", "1.0"));
    assert_ne!(one, engine_fingerprint(b"two", "1.0"));
}

// Commands of clients

fn connection() -> ConnectionState {
    ConnectionState {
        permission: PermissionMode::Auto,
        plan_mode: false,
        session_mode: SessionMode::Agent,
        selected_model: None,
        reasoning_effort: text("medium"),
        max_tool_rounds: 10,
        voice_broadcast: false,
    }
}

#[test]
fn one_turn_runs_at_a_time() {
    let mut context = connection();
    let mut task = SessionTask::new();
    let message = json(r#"{"command": "send_message", "text": "hello"}"#);
    let action = handle_command(&mut context, &mut task, &message, true, None);
    assert!(matches!(action, CommandAction::StartTurn(prompt) if prompt == "hello"));
    assert!(task.running);
    let action = handle_command(&mut context, &mut task, &message, true, None);
    assert!(!matches!(action, CommandAction::StartTurn(_)));
}

#[test]
fn unknown_commands_fail_and_change_nothing() {
    let mut context = connection();
    let mut task = SessionTask::new();
    let action = handle_command(&mut context, &mut task, &json(r#"{"command": "dance"}"#), true, None);
    assert!(matches!(action, CommandAction::Fail(_)));
    assert!(!task.running);
    assert_eq!(task.unacked_events.len(), 0);
}

#[test]
fn guides_are_sent_in_pieces() {
    let chunks = guide_chunks(NEWBIE_GUIDE);
    assert_eq!(chunks.concat(), NEWBIE_GUIDE);
    assert!(chunks.iter().all(|chunk| chunk.chars().count() <= 16));
}

#[test]
fn guides_are_told_and_written_down() {
    let pieces = guide_chunks("sixteen letters!and more");
    let mut task = SessionTask::new();
    assert_eq!(tell_guide(&mut task, &pieces, 0), GuideStep::Wait { delay_ms: 220 });
    assert_eq!(tell_guide(&mut task, &pieces, 1), GuideStep::Next);
    assert_eq!(tell_guide(&mut task, &pieces, 2), GuideStep::Done);
    let told: Vec<String> = task.unacked_events.iter().map(|event| event.to_text()).collect();
    assert_eq!(
        told,
        [
            r#"{"content":"sixteen letters!","event_seq":1,"event_type":"text_chunk"}"#,
            r#"{"content":"and more","event_seq":2,"event_type":"text_chunk"}"#,
            r#"{"event_seq":3,"event_type":"turn_end"}"#,
        ]
    );
    let mut session = Session::new(text("s"), text("p"), text("m"), text("/"));
    record_guide(&mut session, "Title", "Body");
    assert_eq!(session.messages.len(), 2);
    assert_eq!(session.messages[0].role, Role::User);
    assert_eq!(session.messages[0].content, "Title");
    assert_eq!(session.messages[1].role, Role::Assistant);
    assert_eq!(session.messages[1].content, "Body");
}

#[test]
fn unconfirmed_events_are_all_kept() {
    let mut task = SessionTask::new();
    task.connected = true;
    for _ in 0..2_500 {
        task.push_event(plain_event("tick"));
    }
    task.push_event(Json::Null);
    assert_eq!(task.unacked_events.len(), 2_501);
    assert_eq!(task.outbox.len(), 2_501);
    assert_eq!(task.unacked_events[0].u64_member("event_seq"), Some(1));
    assert_eq!(task.unacked_events[2_500].to_text(), r#"{"event_seq":2501}"#);
    task.acknowledge_through(2_000);
    assert_eq!(task.unacked_events.len(), 501);
    assert_eq!(task.unacked_events[0].u64_member("event_seq"), Some(2_001));
}

#[test]
fn stored_hooks_are_read() {
    assert_eq!(get_hooks(None).to_text(), r#"{"hooks":{}}"#);
    assert_eq!(get_hooks(Some(&b"{".to_vec())).to_text(), r#"{"hooks":{}}"#);
    let stored = br#"{"hooks": {"turn_end": []}}"#.to_vec();
    assert_eq!(get_hooks(Some(&stored)).to_text(), r#"{"hooks":{"turn_end":[]}}"#);
}

#[test]
fn damaged_configurations_are_not_written_over() {
    let (none, removed) = uninstall_mcp_catalog(None, "/c.json", "git").expect("no file");
    assert!(none.is_none() && !removed);
    let stored = br#"{"servers": {"git": {}, "web": {}}}"#.to_vec();
    let (left, removed) = uninstall_mcp_catalog(Some(&stored), "/c.json", "git").expect("a document");
    assert!(removed);
    assert_eq!(left.expect("a document").to_text(), r#"{"servers":{"web":{}}}"#);
    let error = uninstall_mcp_catalog(Some(&b"{".to_vec()), "/c.json", "git").expect_err("damaged");
    assert_eq!(error.code(), 500);
    assert!(error.message.starts_with("invalid MCP config /c.json: "));
}

#[test]
fn stored_totals_count_in_their_version_only() {
    let totals = vec![(text("low"), ReasoningAggregate {
        turns: 1,
        total_input_tokens: 2,
        total_cached_input_tokens: 3,
        cache_observed_input_tokens: 4,
        total_tokens: 5,
        total_duration_ms: 6,
        cache_turns: 7,
    })];
    let stored = save_reasoning_aggregates(&totals);
    assert_eq!(stored.schema_version, 2);
    let older = ReasoningStatsDocument { schema_version: 1, efforts: stored.efforts.clone() };
    let found = load_reasoning_aggregates(Some(stored));
    assert_eq!(found.len(), 1);
    assert_eq!(found[0].0, "low");
    assert_eq!(found[0].1.total_duration_ms, 6);
    assert!(load_reasoning_aggregates(Some(older)).is_empty());
    assert!(load_reasoning_aggregates(None).is_empty());
}

#[test]
fn envelopes_are_opened_again() {
    let sent = coomi_envelope("event", Some(&text("id-1")), "now", json(r#"{"a": 1}"#));
    let (id, payload) = open_envelope(sent.to_text().as_bytes()).expect("envelope");
    assert_eq!(id.as_deref(), Some("id-1"));
    assert_eq!(payload.to_text(), r#"{"a":1}"#);
    assert!(open_envelope(b"{").is_err());
}

#[test]
fn some_errors_are_worth_another_try() {
    assert!(is_retryable_error_text("connection reset by peer"));
    assert!(!is_retryable_error_text("invalid api key"));
}

// Paths

#[test]
fn paths_are_normalised_inside_the_root() {
    assert_eq!(normalize_path("/a/./b//c").expect("path"), vec!["a", "b", "c"]);
    assert!(normalize_path("/a/../b").expect("path") == vec!["b"]);
    assert_eq!(abs_path("relative").expect_err("relative").code(), 400);
    assert!(is_within("/root/a", "/root"));
    assert!(!is_within("/rootling", "/root"));
}

#[test]
fn paths_outside_the_sandbox_are_refused() {
    let exists = vec![true, true];
    let inside = vec![text("/"), text("/sandbox")];
    assert_eq!(
        sandboxed_path("/sandbox", &exists, &inside, "/sandbox").expect("inside"),
        "/sandbox"
    );
    let outside = vec![text("/"), text("/etc")];
    let error = sandboxed_path("/sandbox", &exists, &outside, "/sandbox").expect_err("a link");
    assert_eq!(error.code(), 400);
}

#[test]
fn app_data_has_one_name() {
    let one = canonicalize_android_path("/data/user/0/com.coomi.android/files");
    assert_eq!(canonicalize_android_path(&one), one);
}

#[test]
fn needed_directories_are_not_deleted() {
    assert!(check_deletable("/home", "/project", "/home", None).is_err());
    assert!(check_deletable("/project", "/project", "/home", None).is_err());
    assert!(check_deletable("/project/a", "/project", "/home", None).is_ok());
}

#[test]
fn files_have_types() {
    assert_eq!(mime_for("/a/photo.png"), "image/png");
    assert_eq!(mime_for("/a/unknown.zzz"), "application/octet-stream");
}

// Catalogues

#[test]
fn missing_parameters_are_named() {
    let entries = vec![McpCatalogEntry {
        id: text("github"),
        name: text("GitHub"),
        description: String::new(),
        transport: Json::Null,
        parameters: Json::Null,
        required_parameters: vec![CatalogParameter { key: text("token"), label: text("Token") }],
    }];
    let error = check_mcp_parameters(&entries, "github", &vec![]).expect_err("token is missing");
    assert_eq!(error.code(), 400);
    let values = vec![(text("token"), text("t"))];
    assert!(check_mcp_parameters(&entries, "github", &values).is_ok());
}

#[test]
fn removed_servers_leave_the_configuration() {
    let document = json(r#"{"servers": {"git": {"command": "npx"}, "own": {"url": "x"}}}"#);
    let (left, removed) = remove_mcp_server(&document, "git");
    assert!(removed);
    assert!(!left.to_text().contains("git"));
    let (_, removed) = remove_mcp_server(&left, "git");
    assert!(!removed);
    let file = left.to_text().into_bytes();
    assert_eq!(installed_mcp_enabled(Some(&file)), vec![(text("own"), true)]);
}

#[test]
fn assignments_need_a_key() {
    assert_eq!(
        parse_assignments(&vec![text("a=b=c")]).expect("assignment"),
        vec![(text("a"), text("b=c"))]
    );
    assert!(parse_assignments(&vec![text("nothing")]).is_err());
}

#[test]
fn remote_skills_stay_in_their_place() {
    let good = json(r#"{"id": "my-skill", "repository": "owner/repo", "ref": "main"}"#);
    assert_eq!(install_skill_remote(&good).expect("skill").id, "my-skill");
    let bad = json(r#"{"id": "../x", "repository": "owner/repo", "ref": "main"}"#);
    assert_eq!(install_skill_remote(&bad).expect_err("leads upward").code(), 400);
}

#[test]
fn keyword_hooks_wait_at_the_start_of_a_turn() {
    let hooks = |event: &str, entry: &str| json(&format!("{{\"hooks\": {{\"{event}\": [{entry}]}}}}"));
    let plain = r#"{"command": "date"}"#;
    let keyed = r#"{"command": "date", "keyword_match": "exact", "keyword": "now"}"#;
    let nameless = r#"{"command": "date", "keyword_match": "exact", "keyword": " "}"#;
    assert!(set_hooks(&hooks("turn_end", plain)).is_ok());
    assert!(set_hooks(&hooks("turn_start", keyed)).is_ok());
    assert_eq!(set_hooks(&hooks("turn_end", keyed)).expect_err("too late").code(), 400);
    assert_eq!(set_hooks(&hooks("turn_start", nameless)).expect_err("no keyword").code(), 400);
    assert_eq!(set_hooks(&hooks("dance", plain)).expect_err("no event").code(), 400);
    assert_eq!(set_hooks(&hooks("turn_end", "{}")).expect_err("no command").code(), 400);
    assert_eq!(set_hooks(&json("3")).expect_err("no object").code(), 400);
}

// The guest system and lives

#[test]
fn the_guest_system_is_not_removed() {
    let named = || ManifestReading::Version(text("m"));
    let step = runtime_v2_action("remove", InstallStatus::Ready, &None, named());
    assert!(matches!(step, RuntimeStep::Refuse(_)));
    let step = runtime_v2_action("dance", InstallStatus::Ready, &None, named());
    assert!(matches!(step, RuntimeStep::Refuse(_)));
}

#[test]
fn installations_need_a_manifest() {
    let refused = |manifest| match runtime_v2_action("install", InstallStatus::Ready, &None, manifest) {
        RuntimeStep::Refuse(message) => message,
        _ => panic!("the manifest is not there"),
    };
    let missing = ManifestReading::Missing { path: text("/m.json"), error: text("no such file") };
    assert_eq!(refused(missing), "runtime manifest is not available at /m.json: no such file");
    assert_eq!(refused(ManifestReading::Invalid(text("bad"))), "invalid runtime manifest: bad");
    assert!(after_rollback(Ok(())).is_ok());
    let error = after_rollback(Err(text("nothing before"))).expect_err("no version before");
    assert_eq!(error.message, "runtime action failed: nothing before");
    assert_eq!(error.code(), 400);
}

#[test]
fn installations_go_through_their_stages() {
    let mut stage = InstallStage::Acquire;
    for _ in 0..6 {
        stage = next_stage(stage, StageResult::Done);
    }
    assert_eq!(stage, InstallStage::Completed);
    assert_eq!(next_stage(InstallStage::Unpack, StageResult::Failed), InstallStage::Failed);
    assert_eq!(next_stage(InstallStage::Failed, StageResult::Done), InstallStage::Failed);
}

#[test]
fn lives_have_names_that_can_stand_in_a_path() {
    assert!(validate_cognitive_profile("my-life_1").is_ok());
    assert_eq!(validate_cognitive_profile("../x").expect_err("a path").code(), 400);
    let request = CognitiveActionRequest {
        profile_id: text("mine"),
        name: text("Mine"),
        address: text("you"),
        preset: text("calm"),
        paused: None,
        query: String::new(),
        limit: None,
    };
    assert!(matches!(
        cognitive_action("state", &request, "/home"),
        Ok(CognitiveCall::State { profile }) if profile == "mine"
    ));
    assert!(cognitive_action("dance", &request, "/home").is_err());
}

// The rest of the bridge

#[test]
fn memories_are_checked_before_they_are_kept() {
    let edit = |name: Option<&str>, content: &str| MemoryEdit {
        name: name.map(text),
        scope: text("global"),
        description: text("a note"),
        memory_type: text("user"),
        content: text(content),
    };
    assert_eq!(create_memory(&edit(Some("note"), "x"), false).expect("kept"), "note");
    assert_eq!(create_memory(&edit(None, "x"), false).expect_err("no name").code(), 400);
}

#[test]
fn refused_discoveries_are_told() {
    assert!(check_discovery(true, "200", "").is_ok());
    let error = check_discovery(false, "401 Unauthorized", "no key").expect_err("refused");
    assert_eq!(error.code(), 502);
    assert!(!keeps_models(&Some(json(r#"{"persist": false}"#))));
    assert!(keeps_models(&Some(json(r#"{"persist": true}"#))));
}

#[test]
fn errors_have_their_codes() {
    assert_eq!(ApiError::bad_request("x").code(), 400);
    assert_eq!(ApiError::forbidden("x").code(), 403);
    assert_eq!(ApiError::not_found("x").code(), 404);
    assert_eq!(ApiError::internal("x").code(), 500);
    assert_eq!(ApiError::bad_gateway("x").code(), 502);
}
