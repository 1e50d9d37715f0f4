use coomi::agents::AccessMode;
use coomi::catalog::CatalogParameter;
use coomi::catalog::McpCatalogEntry;
use coomi::catalog::SkillEntry;
use coomi::cli::ModelChoice;
use coomi::editor::Editor;
use coomi::events::AgentEvent;
use coomi::events::ContextStatus;
use coomi::json::Json;
use coomi::provider::AutoCompactScope;
use coomi::provider::ProviderDocument;
use coomi::provider::ProviderSettings;
use coomi::provider::RemoteCompactionMode;
use coomi::provider_form::activate_selected_provider;
use coomi::provider_form::begin_provider_form;
use coomi::provider_form::delete_provider;
use coomi::provider_form::optional_string;
use coomi::provider_form::parse_bool;
use coomi::provider_form::parse_optional_bool;
use coomi::provider_form::parse_optional_u64;
use coomi::provider_form::parse_optional_u8;
use coomi::provider_form::providers_written;
use coomi::provider_form::save_provider_form;
use coomi::search::catalog_matches;
use coomi::search::model_matches;
use coomi::search::ranked_sessions;
use coomi::search::session_search_score;
use coomi::search::SessionCard;
use coomi::session::ChatMessage;
use coomi::session::LoopStatus;
use coomi::session::Session;
use coomi::session::ToolCall;
use coomi::session::ToolResult;
use coomi::timeline::rebuild_timeline;
use coomi::timeline::NoticeKind;
use coomi::timeline::TimelineEntry;
use coomi::timeline::ToolState;
use coomi::tui::ConfiguredMcp;
use coomi::tui::DeleteTarget;
use coomi::tui::InstalledSkill;
use coomi::tui::OverlayKind;
use coomi::tui::PendingApproval;
use coomi::tui::PendingUserInput;
use coomi::tui::PolicyLabels;
use coomi::tui::ProvidersUse;
use coomi::tui::SettingsTab;
use coomi::tui::TuiAction;
use coomi::tui::TuiState;
use coomi::tui::UserInputOption;
use coomi::tui::UserInputQuestion;
use coomi::tui::UserInputRequest;
use coomi::tui::{AfterSave, MemoryRequest};
use coomi::tui_commands::create_loop;
use coomi::tui_commands::execute_slash_command;
use coomi::tui_commands::memory_answered;
use coomi::tui_commands::new_session;
use coomi::tui_commands::set_loop_status;
use coomi::tui_commands::submit_editor;
use coomi::tui_commands::take_prompt;
use coomi::tui_commands::AutoConfigIntent;
use coomi::tui_commands::MemoryItem;
use coomi::tui_commands::MemoryReply;
use coomi::tui_events::handle_runtime_event;
use coomi::tui_events::open_settings;
use coomi::tui_events::resolve_by_default;
use coomi::tui_events::start_agent_turn;
use coomi::tui_events::start_side_session;
use coomi::tui_events::start_side_session_at_random;
use coomi::tui_events::RuntimeEvent;
use coomi::tui_events::SettingsFacts;
use coomi::tui_keys::handle_escape;
use coomi::tui_keys::handle_key;
use coomi::tui_keys::handle_user_input_key;
use coomi::tui_keys::press_key;
use coomi::tui_keys::request_selected_mcp_delete;
use coomi::tui_keys::Key;
use coomi::tui_keys::KeyCode;
use coomi::tui_overlays::activate_catalog_selection;
use coomi::tui_overlays::command_menu;
use coomi::tui_overlays::find_commands;
use coomi::tui_overlays::move_overlay_selection;
use coomi::tui_overlays::session_loaded;
use coomi::tui_settings::settings_mcp_items;
use coomi::tui_settings::settings_skill_items;

fn provider(display: &str, model: &str) -> ProviderSettings {
    ProviderSettings {
        display: display.to_string(),
        provider_type: "generic".to_string(),
        tool_protocol: None,
        base_url: "http://localhost/v1".to_string(),
        model: model.to_string(),
        fast_model: None,
        api_key: String::new(),
        context_window: None,
        effective_context_window_percent: None,
        auto_compact_token_limit: None,
        auto_compact_scope: AutoCompactScope::Total,
        max_output_tokens: None,
        supports_remote_compaction: None,
        remote_compaction_mode: RemoteCompactionMode::Legacy,
        supports_vision: false,
        supports_native_tools: true,
        supports_web_search: false,
        supports_parallel_tool_calls: false,
        model_context_windows: vec![],
        extra: vec![],
    }
}

fn document() -> ProviderDocument {
    ProviderDocument {
        active: "demo".to_string(),
        providers: vec![("demo".to_string(), provider("Demo", "demo-model"))],
    }
}

fn server(id: &str, name: &str) -> McpCatalogEntry {
    McpCatalogEntry {
        id: id.to_string(),
        name: name.to_string(),
        description: name.to_string(),
        transport: Json::Text("stdio".to_string()),
        parameters: Json::Array(vec![]),
        required_parameters: if id == "github" {
            vec![CatalogParameter { key: "token".to_string(), label: "Token".to_string() }]
        } else {
            vec![]
        },
    }
}

fn skill(id: &str) -> SkillEntry {
    SkillEntry {
        id: id.to_string(),
        name: id.to_string(),
        description: id.to_string(),
        repository: "owner/skills".to_string(),
        git_ref: "main".to_string(),
        subdir: id.to_string(),
    }
}

fn test_state() -> TuiState {
    TuiState::new(
        "/home/demo".to_string(),
        "/home/demo".to_string(),
        Session::new(
            "00000000-0000-0000-0000-000000000001".to_string(),
            "demo".to_string(),
            "demo-model".to_string(),
            "/home/demo".to_string(),
        ),
        vec![ModelChoice {
            provider_id: "demo".to_string(),
            provider_display: "Demo".to_string(),
            selector: "demo:demo-model".to_string(),
            model: "demo-model".to_string(),
            is_fast: false,
        }],
        vec![],
        vec![
            server("filesystem", "Filesystem"),
            server("git", "Git"),
            server("github", "GitHub"),
            server("playwright", "Playwright"),
            server("memory", "Memory"),
        ],
        vec![skill("explore"), skill("review")],
        AccessMode::WorkspaceWrite,
        PolicyLabels {
            read_only: "read-only".to_string(),
            workspace_write: "workspace-write".to_string(),
            full_access: "full-access".to_string(),
        },
        false,
    )
}

fn facts() -> SettingsFacts {
    SettingsFacts { document: document(), mcp_servers: vec![], skills: vec![] }
}

fn plain(code: KeyCode) -> Key {
    Key { code, control: false, alt: false, shift: false }
}

fn control(character: char) -> Key {
    Key { code: KeyCode::Char(character), control: true, alt: false, shift: false }
}

fn card(title: &str, summary: &str, preview: &str, model: &str) -> SessionCard {
    SessionCard {
        id: "00000000-0000-0000-0000-000000000000".to_string(),
        model: model.to_string(),
        title: title.to_string(),
        summary: summary.to_string(),
        preview: preview.to_string(),
    }
}

#[test]
fn session_search_score_matches_shared_corpus() {
    let cases = [
        ("rust", card("Rust rust", "", "", "m"), 10),
        ("rust", card("", "rust notes", "", "m"), 3),
        ("rust", card("", "", "about RUST", "m"), 1),
        ("rust", card("", "", "", "rust-coder"), 1),
        ("rust", card("ru st", "ru st", "ru st", "m"), 4),
        ("rust", card("Rust", "rust", "rust", "rust"), 10),
        ("r", card("r r r", "r", "r", "r"), 0),
        ("", card("anything", "", "", "m"), 0),
        ("整理 目录", card("整理下载目录", "", "", "m"), 10),
        ("a+b, c#", card("a+b in c#", "", "", "m"), 10),
        ("0000", card("", "", "", "m"), 0),
        ("000000", card("", "", "", "m"), 1),
        ("ÉTÉ", card("été", "", "", "m"), 5),
    ];
    let mut checked = 0;
    for (query, card, expect) in &cases {
        let got = session_search_score(card, query);
        checked += 1;
        assert_eq!(got, *expect, "query={query:?} title={:?}", card.title);
    }
    assert!(checked >= 6);
}

#[test]
fn sessions_are_ranked_by_their_score() {
    let cards = vec![
        card("", "", "rust", "m"),
        card("other", "", "", "m"),
        card("rust", "", "", "m"),
        card("", "", "rust", "m"),
    ];
    assert_eq!(ranked_sessions(&cards, "rust"), vec![2, 0, 3]);
    assert_eq!(ranked_sessions(&cards, "  "), vec![0, 1, 2, 3]);
}

#[test]
fn models_and_catalog_entries_are_found_by_any_name() {
    let state = test_state();
    assert!(model_matches(&state.models[0], "demo"));
    assert!(model_matches(&state.models[0], ""));
    assert!(!model_matches(&state.models[0], "other"));
    assert!(catalog_matches("git", "Git", "git"));
    assert!(!catalog_matches("git", "Git", "hub"));
}

#[test]
fn shortcuts_open_coomi_overlays() {
    let mut state = test_state();
    handle_key(&mut state, control('k'), 0, "id");
    assert_eq!(
        state.overlay.as_ref().map(|overlay| overlay.kind),
        Some(OverlayKind::Commands)
    );
}

#[test]
fn active_turn_protects_session_and_scroll_tracks_distance_from_tail() {
    let mut state = test_state();
    let session_id = state.session.id.clone();
    state.busy = true;

    new_session(&mut state);
    assert_eq!(state.session.id, session_id);
    assert!(state.status.contains("active turn"));

    state.follow_tail = true;
    state.scroll = 40;
    state.scroll_up(8);
    assert_eq!(state.scroll, 8);
    assert!(!state.follow_tail);
    state.scroll_down(8);
    assert_eq!(state.scroll, 0);
    assert!(state.follow_tail);
}

#[test]
fn idle_states_begin_sessions_of_their_own() {
    let mut state = test_state();
    let session_id = state.session.id.clone();
    let actions = new_session(&mut state);
    assert_ne!(state.session.id, session_id);
    assert_eq!(state.session.id.len(), 36);
    assert_eq!(state.session.model, "demo-model");
    assert!(matches!(actions[0], TuiAction::SaveSession(AfterSave::ListSessions)));
    let first = state.session.id.clone();
    new_session(&mut state);
    assert_ne!(state.session.id, first);
}

#[test]
fn slash_status_and_memory_are_control_plane_commands() {
    let mut state = test_state();

    execute_slash_command(&mut state, "/status", "id");
    let actions = execute_slash_command(&mut state, "/memory add Prefer concise output", "id");
    let saved = match &actions[0] {
        TuiAction::AskMemory(MemoryRequest::Save {
            scope,
            memory_type,
            name,
            content,
            description,
        }) => MemoryItem {
            name: name.clone(),
            memory_type: memory_type.clone(),
            scope: Some(scope.clone()),
            description: description.clone(),
            stale: false,
            updated: "now".to_string(),
            content: content.clone(),
        },
        _ => panic!("add memory"),
    };
    assert_eq!(saved.content, "Prefer concise output");
    assert_eq!(saved.scope.as_deref(), Some("Local"));
    assert_eq!(saved.memory_type, "User");
    let actions = execute_slash_command(&mut state, "/memory search concise", "id");
    assert!(matches!(
        &actions[0],
        TuiAction::AskMemory(MemoryRequest::Search { query, limit: 10 }) if query == "concise"
    ));
    let reply = MemoryReply::Saved { name: saved.name.clone(), path: "/m.md".to_string() };
    memory_answered(&mut state, &reply);
    let actions = execute_slash_command(&mut state, "/memory list", "id");
    assert!(matches!(actions[0], TuiAction::AskMemory(MemoryRequest::List)));
    memory_answered(&mut state, &MemoryReply::Listed(vec![saved]));

    assert!(state.session.messages.is_empty());
    assert!(state.timeline.iter().any(|entry| {
        matches!(entry, TimelineEntry::Notice { text, .. } if text.contains("persistent memory item"))
    }));
}

#[test]
fn provider_capability_values_are_validated() {
    assert_eq!(parse_bool("ON", "feature"), Ok(true));
    assert_eq!(parse_bool("false", "feature"), Ok(false));
    assert!(parse_bool("sometimes", "feature").is_err());
    assert_eq!(parse_optional_u64("128000", "window"), Ok(Some(128_000)));
}

#[test]
fn blank_values_are_left_out() {
    assert_eq!(parse_optional_u64("  ", "window"), Ok(None));
    assert!(parse_optional_u64("-1", "window").is_err());
    assert_eq!(parse_optional_u8("255", "percent"), Ok(Some(255)));
    assert!(parse_optional_u8("256", "percent").is_err());
    assert_eq!(parse_optional_bool("", "feature"), Ok(None));
    assert_eq!(parse_optional_bool("yes", "feature"), Ok(Some(true)));
    assert_eq!(optional_string(" x "), Some("x".to_string()));
    assert_eq!(optional_string(" "), None);
}

fn question() -> UserInputQuestion {
    UserInputQuestion {
        id: "scope".to_string(),
        header: "Scope".to_string(),
        question: "Choose a scope".to_string(),
        options: vec![
            UserInputOption {
                label: "Workspace".to_string(),
                description: "Current workspace".to_string(),
            },
            UserInputOption {
                label: "Global".to_string(),
                description: "All workspaces".to_string(),
            },
        ],
    }
}

fn asked() -> PendingUserInput {
    PendingUserInput {
        request: UserInputRequest { questions: vec![question()], auto_resolution_ms: None },
        question_index: 0,
        option_index: 1,
        other_editor: None,
        answers: vec![],
        reply: 7,
    }
}

#[test]
fn user_questions_support_all_arrow_keys_and_enter() {
    let mut state = test_state();
    state.pending_user_input = Some(asked());

    handle_user_input_key(&mut state, plain(KeyCode::Left));
    assert_eq!(
        state.pending_user_input.as_ref().map(|pending| pending.option_index),
        Some(0)
    );
    handle_user_input_key(&mut state, plain(KeyCode::Right));
    handle_user_input_key(&mut state, plain(KeyCode::Up));
    handle_user_input_key(&mut state, plain(KeyCode::Down));
    assert_eq!(
        state.pending_user_input.as_ref().map(|pending| pending.option_index),
        Some(1)
    );
    let actions = handle_user_input_key(&mut state, plain(KeyCode::Enter));
    assert!(state.pending_user_input.is_none());
    assert!(matches!(
        &actions[0],
        TuiAction::AnswerQuestions { reply: 7, answers }
            if answers.len() == 1 && answers[0].0 == "scope" && answers[0].1 == "Global"
    ));
}

#[test]
fn blank_answers_are_ignored() {
    let mut state = test_state();
    let mut pending = asked();
    pending.question_index = 1;
    pending.other_editor = Some(Editor::new());
    state.pending_user_input = Some(pending);
    assert!(handle_user_input_key(&mut state, plain(KeyCode::Enter)).is_empty());
    assert!(state.pending_user_input.is_some_and(|pending| pending.other_editor.is_some()));
}

#[test]
fn servers_are_chosen_where_no_page_is_open() {
    let mut state = test_state();
    let actions = activate_catalog_selection(&mut state, 0, "git");
    assert!(matches!(&actions[0], TuiAction::ConfigureMcp { id, .. } if id == "git"));
    assert!(activate_catalog_selection(&mut state, 1, "git").is_empty());
    assert!(state.mcp_form.is_some());
    assert!(activate_catalog_selection(&mut state, 9, "").is_empty());
}

#[test]
fn questions_are_resolved_by_their_first_option() {
    let request = UserInputRequest { questions: vec![question()], auto_resolution_ms: Some(5) };
    assert_eq!(
        resolve_by_default(&request),
        vec![("scope".to_string(), "Workspace".to_string())]
    );
}

#[test]
fn settings_merge_curated_catalogs_and_confirm_installed_deletions() {
    let mut state = test_state();
    let actions = state.open_overlay(OverlayKind::Settings);
    assert!(matches!(actions[0], TuiAction::ReadSettings(None)));
    open_settings(&mut state, None, Ok(facts()));
    assert_eq!(settings_mcp_items(&state).len(), 5);
    assert_eq!(settings_skill_items(&state).len(), state.skill_entries.len());

    let position = state
        .mcp_entries
        .iter()
        .position(|entry| entry.id == "filesystem")
        .expect("filesystem entry");
    let settings = state.settings.as_mut().expect("settings");
    settings.tab = SettingsTab::Mcp;
    settings.mcp_servers.push(ConfiguredMcp {
        name: "filesystem".to_string(),
        transport: "stdio".to_string(),
        enabled: true,
        target: "npx".to_string(),
    });
    settings.selected = position;
    request_selected_mcp_delete(&mut state);
    assert!(matches!(
        &state.confirm_delete,
        Some(DeleteTarget::Mcp(name)) if name == "filesystem"
    ));
}

#[test]
fn servers_and_skills_of_their_own_are_listed_behind_the_catalog() {
    let mut state = test_state();
    let mut read = facts();
    read.mcp_servers.push(ConfiguredMcp {
        name: "own".to_string(),
        transport: "http".to_string(),
        enabled: false,
        target: "http://localhost".to_string(),
    });
    read.skills.push(InstalledSkill {
        name: "explore".to_string(),
        enabled: true,
        source_type: "catalog".to_string(),
    });
    open_settings(&mut state, Some(SettingsTab::Skills), Ok(read));
    let servers = settings_mcp_items(&state);
    assert_eq!(servers.len(), 6);
    assert_eq!(servers[5].id(), "own");
    let skills = settings_skill_items(&state);
    assert_eq!(skills.len(), 2);
    assert!(skills[0].installed.is_some());
    assert!(skills[1].installed.is_none());
}

#[test]
fn tabs_of_the_settings_go_round() {
    let mut tab = SettingsTab::Providers;
    for _ in 0..4 {
        tab = tab.next();
    }
    assert_eq!(tab, SettingsTab::Providers);
    assert_eq!(tab.previous(), SettingsTab::Runtime);
    assert_eq!(tab.next(), SettingsTab::Mcp);
}

#[test]
fn policies_are_cycled_while_no_turn_runs() {
    let mut state = test_state();
    state.cycle_policy();
    assert_ne!(state.policy, AccessMode::WorkspaceWrite);
    let chosen = state.policy;
    state.busy = true;
    state.cycle_policy();
    assert_eq!(state.policy, chosen);
}

#[test]
fn editors_type_at_the_cursor() {
    let mut editor = Editor::new();
    editor.insert_str("añb");
    editor.move_left();
    editor.insert('x');
    assert_eq!(editor.text(), "añxb");
    editor.backspace();
    assert_eq!(editor.text(), "añb");
    editor.delete();
    assert_eq!(editor.text(), "añ");
    editor.move_home();
    editor.delete();
    assert_eq!(editor.text(), "ñ");
    editor.move_end();
    editor.insert('!');
    assert_eq!(editor.take(), "ñ!");
    assert!(editor.is_empty());
}

#[test]
fn typed_prompts_start_a_turn() {
    let mut state = test_state();
    for letter in "hi".chars() {
        handle_key(&mut state, plain(KeyCode::Char(letter)), 0, "id");
    }
    assert_eq!(state.editor.text(), "hi");
    let actions = submit_editor(&mut state);
    assert!(state.editor.is_empty());
    assert!(matches!(&actions[0], TuiAction::DetectConfig(prompt) if prompt == "hi"));
    let actions = take_prompt(&mut state, "hi".to_string(), None, "id", 1);
    assert!(matches!(
        &actions[0],
        TuiAction::PrepareTurn { prompt, continuation: false } if prompt == "hi"
    ));
    let actions = start_agent_turn(&mut state, "hi".to_string(), false, Ok("hi".to_string()));
    assert!(state.busy);
    assert!(matches!(&actions[0], TuiAction::RunTurn { prompt, .. } if prompt == "hi"));
    assert!(matches!(&state.timeline[0], TimelineEntry::User(text) if text == "hi"));
}

#[test]
fn prompts_wait_while_a_turn_runs() {
    let mut state = test_state();
    start_agent_turn(&mut state, "first".to_string(), false, Ok("first".to_string()));
    let actions = take_prompt(&mut state, "second".to_string(), None, "id", 1);
    assert!(matches!(&actions[0], TuiAction::QueueInput(text) if text == "second"));
    assert_eq!(state.queue, vec!["second".to_string()]);
}

#[test]
fn pasted_configurations_are_asked_about() {
    let mut state = test_state();
    let found = AutoConfigIntent::Skill("owner/skills".to_string());
    take_prompt(&mut state, "install owner/skills".to_string(), Some(found), "id", 9);
    let pending = state.pending_approval.as_ref().expect("approval");
    assert_eq!(pending.reply, 9);
}

#[test]
fn approvals_are_answered_before_anything_else() {
    let mut state = test_state();
    state.pending_approval = Some(PendingApproval {
        call: ToolCall {
            id: "c".to_string(),
            name: "local_shell".to_string(),
            arguments: Json::Object(vec![]),
        },
        reason: "shell".to_string(),
        reply: 3,
    });
    let actions = handle_key(&mut state, plain(KeyCode::Char('y')), 0, "id");
    assert!(matches!(actions[0], TuiAction::AnswerApproval { reply: 3, approved: true }));
    assert!(state.pending_approval.is_none());
    assert!(state.editor.is_empty());
}

#[test]
fn escape_stops_a_turn_and_escape_twice_leaves() {
    let mut state = test_state();
    start_agent_turn(&mut state, "first".to_string(), false, Ok("first".to_string()));
    let actions = handle_escape(&mut state, 1_000);
    assert!(!state.busy);
    assert!(actions.iter().any(|action| matches!(action, TuiAction::AbortTurn)));
    handle_escape(&mut state, 2_000);
    assert!(!state.quit);
    handle_escape(&mut state, 2_700);
    assert!(state.quit);
}

#[test]
fn slow_escapes_do_not_leave() {
    let mut state = test_state();
    handle_escape(&mut state, 1_000);
    handle_escape(&mut state, 1_701);
    assert!(!state.quit);
    state.editor.set("draft");
    handle_escape(&mut state, 1_702);
    assert!(state.editor.is_empty());
    assert!(!state.quit);
}

#[test]
fn events_of_earlier_turns_change_nothing() {
    let mut state = test_state();
    start_agent_turn(&mut state, "first".to_string(), false, Ok("first".to_string()));
    let current = state.active_generation.expect("turn");
    let entries = state.timeline.len();
    handle_runtime_event(
        &mut state,
        RuntimeEvent::Agent {
            generation: current + 1,
            event: AgentEvent::TextDelta("late".to_string()),
        },
    );
    assert_eq!(state.timeline.len(), entries);
    handle_runtime_event(
        &mut state,
        RuntimeEvent::Agent {
            generation: current,
            event: AgentEvent::TextDelta("now".to_string()),
        },
    );
    assert!(matches!(state.timeline.last(), Some(TimelineEntry::Assistant(text)) if text == "now"));
}

#[test]
fn finished_turns_leave_nothing_open() {
    let mut state = test_state();
    start_agent_turn(&mut state, "first".to_string(), false, Ok("first".to_string()));
    let generation = state.active_generation.expect("turn");
    let mut session = Session::new(
        state.session.id.clone(),
        "demo".to_string(),
        "demo-model".to_string(),
        "/home/demo".to_string(),
    );
    session.messages.push(ChatMessage::user("first".to_string()));
    let actions = handle_runtime_event(
        &mut state,
        RuntimeEvent::TurnFinished { generation, session, error: None },
    );
    assert!(!state.busy);
    assert!(state.active_generation.is_none());
    assert_eq!(state.session.messages.len(), 1);
    assert!(actions
        .iter()
        .any(|action| matches!(action, TuiAction::SaveSession(AfterSave::TurnEnd(None)))));
}

#[test]
fn side_questions_leave_the_session_alone() {
    let mut state = test_state();
    let before = state.session.messages.len();
    let actions = start_side_session(&mut state, "why".to_string(), "side".to_string(), None);
    assert!(state.side_busy);
    assert!(matches!(&actions[0], TuiAction::RunSide { session, .. } if session.id == "side"));
    assert_eq!(state.session.messages.len(), before);
    let actions = start_side_session_at_random(&mut state, "why".to_string(), None);
    assert!(matches!(&actions[0], TuiAction::RunSide { session, .. } if session.id.len() == 36));
    let failure = Some("no model".to_string());
    assert!(start_side_session_at_random(&mut state, "why".to_string(), failure).is_empty());
}

#[test]
fn results_finish_their_own_call() {
    let mut state = test_state();
    start_agent_turn(&mut state, "go".to_string(), false, Ok("go".to_string()));
    let generation = state.active_generation.expect("turn");
    let call = |id: &str| ToolCall {
        id: id.to_string(),
        name: "echo".to_string(),
        arguments: Json::Object(vec![]),
    };
    for id in ["a", "b"] {
        let event = AgentEvent::ToolStarted(call(id));
        handle_runtime_event(&mut state, RuntimeEvent::Agent { generation, event });
    }
    let event = AgentEvent::ToolFinished {
        call: call("a"),
        result: ToolResult::success("fine".to_string()),
    };
    handle_runtime_event(&mut state, RuntimeEvent::Agent { generation, event });
    let running = state
        .timeline
        .iter()
        .filter(|entry| matches!(entry, TimelineEntry::Tool { state: ToolState::Running, .. }))
        .count();
    assert_eq!(running, 1);
}

#[test]
fn internal_messages_stay_out_of_the_timeline() {
    let messages = vec![
        ChatMessage::system("rules".to_string()),
        ChatMessage::internal_user("secret instruction".to_string()),
        ChatMessage::user("hello".to_string()),
        ChatMessage::assistant("hi".to_string(), vec![]),
    ];
    let entries = rebuild_timeline(&messages);
    assert_eq!(entries.len(), 2);
    assert!(matches!(&entries[0], TimelineEntry::User(text) if text == "hello"));
    assert!(matches!(&entries[1], TimelineEntry::Assistant(text) if text == "hi"));
}

#[test]
fn loops_are_created_paused_and_kept() {
    let mut state = test_state();
    create_loop(&mut state, "ship it");
    let created = state.session.loop_state.as_ref().expect("loop");
    assert_eq!(created.objective, "ship it");
    assert_eq!(created.status, LoopStatus::Active);
    set_loop_status(&mut state, LoopStatus::Paused);
    let paused = state.session.loop_state.as_ref().expect("loop");
    assert_eq!(paused.status, LoopStatus::Paused);
    assert_eq!(paused.objective, "ship it");
}

#[test]
fn unknown_commands_are_told() {
    let mut state = test_state();
    let actions = execute_slash_command(&mut state, "/nonsense", "id");
    assert!(actions.is_empty());
    assert!(state.status.contains("nonsense") || !state.timeline.is_empty());
}

#[test]
fn commands_are_found_by_their_words() {
    let menu = command_menu();
    assert_eq!(find_commands(&menu, "").len(), menu.len());
    assert_eq!(find_commands(&menu, "zzzz").len(), 0);
    for place in find_commands(&menu, "model") {
        let item = &menu[place];
        let text = format!("{} {}", item.label, item.detail).to_lowercase();
        assert!(text.contains("model"));
    }
}

#[test]
fn selections_stay_inside_the_list() {
    let mut state = test_state();
    state.open_overlay(OverlayKind::Models);
    move_overlay_selection(&mut state, false, 10);
    assert_eq!(state.overlay.as_ref().expect("overlay").selected, 0);
    move_overlay_selection(&mut state, true, 3);
    assert_eq!(state.overlay.as_ref().expect("overlay").selected, 0);
}

#[test]
fn resumed_sessions_work_in_this_directory() {
    let mut state = test_state();
    let mut other = Session::new(
        "other".to_string(),
        "demo".to_string(),
        "demo-model".to_string(),
        "/elsewhere".to_string(),
    );
    other.messages.push(ChatMessage::user("old".to_string()));
    session_loaded(&mut state, other);
    assert_eq!(state.session.id, "other");
    assert_eq!(state.session.cwd, "/home/demo");
    assert_eq!(state.timeline.len(), 1);
}

#[test]
fn unchanged_forms_write_the_same_provider() {
    let mut state = test_state();
    open_settings(&mut state, None, Ok(facts()));
    let settings = state.settings.as_mut().expect("settings");
    begin_provider_form(settings, Some("demo".to_string()));
    let actions = save_provider_form(&mut state);
    match &actions[0] {
        TuiAction::WriteProviders { document, after: ProvidersUse::Save } => {
            assert_eq!(document.providers.len(), 1);
            assert_eq!(document.providers[0].0, "demo");
            assert_eq!(document.providers[0].1.model, "demo-model");
            assert_eq!(document.active, "demo");
        }
        _ => panic!("the document is written"),
    }
}

#[test]
fn the_last_provider_stays() {
    let mut state = test_state();
    open_settings(&mut state, None, Ok(facts()));
    let actions = delete_provider(&mut state, "demo".to_string());
    assert!(actions.is_empty());
    assert_eq!(state.settings.expect("settings").document.providers.len(), 1);
}

#[test]
fn chosen_providers_become_active() {
    let mut state = test_state();
    let mut read = facts();
    read.document.providers.push(("other".to_string(), provider("Other", "other-model")));
    open_settings(&mut state, None, Ok(read));
    state.settings.as_mut().expect("settings").selected = 1;
    let actions = activate_selected_provider(&mut state);
    match actions.into_iter().next() {
        Some(TuiAction::WriteProviders { document, after: ProvidersUse::Activate(id) }) => {
            assert_eq!(id, "other");
            assert_eq!(document.active, "other");
            providers_written(
                &mut state,
                ProvidersUse::Activate(id),
                document,
                Ok(()),
            );
            assert_eq!(state.settings.expect("settings").document.active, "other");
        }
        _ => panic!("the document is written"),
    }
}

#[test]
fn pastes_go_where_text_is_typed() {
    let mut state = test_state();
    state.paste("two\nlines");
    assert_eq!(state.editor.text(), "two\nlines");
    state.open_overlay(OverlayKind::Commands);
    assert!(state.accepts_text_input());
}

#[test]
fn keys_ask_for_random_identifiers_themselves() {
    let mut state = test_state();
    let session_id = state.session.id.clone();
    press_key(&mut state, control('k'), 0);
    press_key(&mut state, plain(KeyCode::Enter), 0);
    assert_ne!(state.session.id, session_id);
    assert_eq!(state.session.id.len(), 36);
}

#[test]
fn notices_end_up_in_the_timeline() {
    let mut state = test_state();
    state.push_notice(NoticeKind::Warning, "careful".to_string());
    assert!(matches!(
        state.timeline.last(),
        Some(TimelineEntry::Notice { kind: NoticeKind::Warning, text }) if text == "careful"
    ));
    handle_runtime_event(
        &mut state,
        RuntimeEvent::UpdateCurrent("1.0.0".to_string()),
    );
    assert!(state.update_status.contains("1.0.0"));
}

#[test]
fn contexts_are_measured_by_their_events() {
    let mut state = test_state();
    start_agent_turn(&mut state, "go".to_string(), false, Ok("go".to_string()));
    let generation = state.active_generation.expect("turn");
    let event = AgentEvent::ContextUpdated(ContextStatus {
        used_tokens: 5,
        used_percent: 5,
        context_window: 100,
        effective_context_window: 100,
    });
    handle_runtime_event(&mut state, RuntimeEvent::Agent { generation, event });
    assert_eq!(state.context_status.used_tokens, 5);
}
