//! What the commands of a client, the events of a session and the scheduled tasks are for.

use vstd::prelude::*;
use crate::access::access_of;
use crate::access::answer_wait;
use crate::access::approval_event;
use crate::access::approved_unasked;
use crate::access::file_event;
use crate::access::gate;
use crate::access::header_token;
use crate::access::listed_sessions;
use crate::access::minimal_health;
use crate::access::own_origins;
use crate::access::query_token;
use crate::access::question_event;
use crate::access::FileTransferRequestView;
use crate::access::Gate;
use crate::access::restored;
use crate::access::sessions_to_migrate;
use crate::api::bad_gateway;
use crate::api::bad_request;
use crate::api::forbidden;
use crate::api::http_code;
use crate::api::internal_error;
use crate::api::not_found;
use crate::bridge::installed_data;
use crate::bridge::InstalledServerView;
use crate::bridge::ListedSessionView;
use crate::bridge::memories_data;
use crate::bridge::memory_data;
use crate::bridge::MemoryRecordView;
use crate::bridge::sessions_data;
use crate::bridge::task_answer;
use crate::codec::json_document;
use crate::commands::ack_data;
use crate::commands::chosen_model;
use crate::commands::commanded;
use crate::commands::error_event;
use crate::commands::envelope_data;
use crate::commands::envelope_parts;
use crate::commands::failure_data;
use crate::commands::failure_event;
use crate::commands::given_text;
use crate::commands::guide;
use crate::commands::loaded_event;
use crate::commands::model_committed;
use crate::commands::model_in;
use crate::commands::opened_envelope;
use crate::commands::opening_events;
use crate::commands::retryable;
use crate::commands::setting_command;
use crate::commands::task_after_turn;
use crate::commands::turn_command;
use crate::commands::with_active_model;
use crate::commands::with_guide;
use crate::commands::CommandActionView;
use crate::commands::ConnectionStateView;
use crate::commands::SessionMode;
use crate::commands::TurnKind;
use crate::json::member;
use crate::json::JsonView;
use crate::numbers::decimal;
use crate::numbers::decimal_is_digits;
use crate::numbers::decimal_reads_back;
use crate::overview::ManagedTaskView;
use crate::overview::session_data;
use crate::pieces::is_word;
use crate::pieces::words;
use crate::provider::activation_verdict;
use crate::provider::models_of;
use crate::provider::ProviderDocumentView;
use crate::provider::ProviderSettingsView;
use crate::schedule::admits;
use crate::schedule::after_scan;
use crate::schedule::closed_run;
use crate::schedule::due;
use crate::schedule::entry_verdict;
use crate::schedule::find_entry;
use crate::schedule::last_passage;
use crate::schedule::new_run;
use crate::schedule::newest_first;
use crate::schedule::requested_entry;
use crate::schedule::run_summary;
use crate::schedule::schedule_saved;
use crate::schedule::MomentView;
use crate::schedule::ScheduleEntryView;
use crate::schedule::SchedulePayloadView;
use crate::schedule::ScheduleRunView;
use crate::schedule::ScheduleStoreView;
use crate::schedule::SchedulerView;
use crate::session::ChatMessageView;
use crate::session::Role;
use crate::session::SessionView;
use crate::session::TokenUsage;
use crate::session::ToolCallView;
use crate::session::ToolResultView;
use crate::settings::PermissionMode;
use crate::table::lookup;
use crate::task::acted;
use crate::task::call_download;
use crate::task::downloads;
use crate::task::event_data;
use crate::task::metadata_fault;
use crate::task::named_process;
use crate::task::next_download;
use crate::task::numbered;
use crate::task::requested_command;
use crate::task::short_command;
use crate::task::DownloadTaskStateView;
use crate::task::SessionTaskView;
use crate::task::status_name;
use crate::task::TaskCommand;
use crate::task::TaskStatus;
use crate::text::contains;
use crate::text::ends_with;
use crate::text::is_blank;
use crate::text::is_digit;
use crate::text::is_space;
use crate::text::joined;
use crate::text::lower;
use crate::text::starts_with;
use crate::text::trimmed;
use crate::text_laws::member_at;
use crate::text_laws::parts_are_contained;
use crate::tui::InstalledSkillView;
use crate::webrun::keeps_images_back;
use crate::webrun::run_begun;
use crate::webrun::run_stepped;
use crate::webrun::waited;
use crate::webrun::RunActionView;
use crate::webrun::RunEventView;
use crate::webrun::RunPhase;
use crate::webrun::WaitActionView;
use crate::webrun::WaitEventView;
use crate::webrun::WaitPhase;
use crate::webrun::WebRunView;
use crate::webturn::blames_images;
use crate::webturn::continued;
use crate::webturn::full_prompt;
use crate::webturn::has_image;
use crate::webturn::has_user_message;
use crate::webturn::policy_of;
use crate::webturn::start_fault;
use crate::webturn::turn_selector;
use crate::webturn::PromptPartsView;

verus! {

// ---------------------------------------------------------------------------
// Commands
// ---------------------------------------------------------------------------

/// Whether a payload is a command of a name.
pub open spec fn asks_for(payload: JsonView, name: Seq<char>) -> bool {
    member(payload, "command"@) == Some(JsonView::Text(name))
}

proof fn commands_differ()
    ensures
        "send_message"@ != "cancel"@,
        "ack_event"@ != "send_message"@ && "ack_event"@ != "cancel"@,
        "jump_in"@ != "send_message"@ && "jump_in"@ != "cancel"@ && "jump_in"@ != "ack_event"@,
        "approve_tool"@ != "send_message"@ && "approve_tool"@ != "cancel"@ && "approve_tool"@
            != "ack_event"@ && "approve_tool"@ != "jump_in"@,
        "answer_question"@ != "send_message"@ && "answer_question"@ != "cancel"@
            && "answer_question"@ != "ack_event"@ && "answer_question"@ != "jump_in"@
            && "answer_question"@ != "approve_tool"@,
        "file_transfer_result"@ != "send_message"@ && "file_transfer_result"@ != "cancel"@
            && "file_transfer_result"@ != "ack_event"@ && "file_transfer_result"@ != "jump_in"@
            && "file_transfer_result"@ != "approve_tool"@ && "file_transfer_result"@
            != "answer_question"@,
        "send_guide"@ != "send_message"@ && "send_guide"@ != "cancel"@ && "send_guide"@
            != "ack_event"@ && "send_guide"@ != "jump_in"@ && "send_guide"@ != "approve_tool"@
            && "send_guide"@ != "answer_question"@ && "send_guide"@ != "file_transfer_result"@,
        "retry_turn"@ != "send_message"@ && "retry_turn"@ != "cancel"@ && "retry_turn"@
            != "ack_event"@ && "retry_turn"@ != "jump_in"@ && "retry_turn"@ != "approve_tool"@
            && "retry_turn"@ != "answer_question"@ && "retry_turn"@ != "file_transfer_result"@
            && "retry_turn"@ != "send_guide"@,
{
    reveal_strlit("send_message");
    reveal_strlit("cancel");
    reveal_strlit("ack_event");
    reveal_strlit("jump_in");
    reveal_strlit("approve_tool");
    reveal_strlit("answer_question");
    reveal_strlit("file_transfer_result");
    reveal_strlit("send_guide");
    reveal_strlit("retry_turn");
    assert("send_message"@.len() == 12 && "cancel"@.len() == 6);
    assert("ack_event"@.len() == 9 && "jump_in"@.len() == 7);
    assert("approve_tool"@.len() == 12 && "answer_question"@.len() == 15);
    assert("file_transfer_result"@.len() == 20 && "send_guide"@.len() == 10);
    assert("retry_turn"@.len() == 10 && "approve_tool"@[0] == 'a');
    assert("retry_turn"@[0] == 'r' && "send_guide"@[0] == 's');
    assert("send_message"@[0] == 's');
}

/// A turn that a message starts has the trimmed text of the message at the end of its prompt;
/// out of planning mode the prompt is that text.
pub proof fn prompts_hold_the_message(
    context: ConnectionStateView,
    task: SessionTaskView,
    payload: JsonView,
    ready: bool,
    record: Option<TaskStatus>,
    text: Seq<char>,
)
    requires
        asks_for(payload, "send_message"@),
        member(payload, "text"@) == Some(JsonView::Text(text)),
    ensures
        commanded(context, task, payload, ready, record).action matches CommandActionView::StartTurn(
            prompt,
        ) ==> {
            &&& ends_with(prompt, trimmed(text))
            &&& !context.plan_mode ==> prompt == trimmed(text)
            &&& context.plan_mode ==> prompt.len() > trimmed(text).len() && starts_with(
                prompt,
                "Work in planning mode."@,
            )
        },
{
    reveal(turn_command);
    commands_differ();
    let said = trimmed(text);
    let o = commanded(context, task, payload, ready, record);
    if let CommandActionView::StartTurn(prompt) = o.action {
        assert(prompt.skip(prompt.len() - said.len()) =~= said);
        if context.plan_mode {
            reveal_strlit("Work in planning mode.");
            reveal_strlit(
                "Work in planning mode. Inspect the project and return an actionable plan before making changes.\n\n",
            );
            assert(prompt.take("Work in planning mode."@.len() as int)
                =~= "Work in planning mode."@);
        }
    }
}

/// A message starts a turn unless it is blank, a built-in command, comes while a turn runs or
/// before a model is set up; each of these is answered in its own way.
pub proof fn messages_start_turns(
    context: ConnectionStateView,
    task: SessionTaskView,
    payload: JsonView,
    ready: bool,
    record: Option<TaskStatus>,
    text: Seq<char>,
)
    requires
        asks_for(payload, "send_message"@),
        member(payload, "text"@) == Some(JsonView::Text(text)),
    ensures
        ({
            let o = commanded(context, task, payload, ready, record);
            let built_in = lower(trimmed(text)) == "/memory"@ || lower(trimmed(text))
                == "/compact"@;
            &&& o.context == context
            &&& trimmed(text).len() == 0 ==> o.action == CommandActionView::Fail(
                "message text is required"@,
            )
            &&& lower(trimmed(text)) == "/memory"@ ==> o.action is ShowMemory
            &&& lower(trimmed(text)) == "/compact"@ && !task.running ==> o.action is StartCompaction
            &&& trimmed(text).len() > 0 && !built_in && !ready ==> o.action is Configure
            &&& trimmed(text).len() > 0 && !built_in && ready && !task.running ==> o.action
                is StartTurn && o.task == (SessionTaskView { running: true, ..task })
            &&& trimmed(text).len() > 0 && !built_in && ready && task.running ==> o.action is Fail
                && o.task == task
        }),
{
    reveal(turn_command);
    commands_differ();
    reveal_strlit("/memory");
    reveal_strlit("/compact");
    assert(lower("/memory"@) =~= "/memory"@);
    assert(lower("/compact"@) =~= "/compact"@);
    assert(lower(trimmed(text)).len() == trimmed(text).len());
}

/// What the client answers is handed on to who waits under the same identifier, and is waited
/// for no longer: a decision, the answers to questions, the paths of files.
pub proof fn answers_reach_who_waits(
    context: ConnectionStateView,
    task: SessionTaskView,
    payload: JsonView,
    ready: bool,
    record: Option<TaskStatus>,
    id: Seq<char>,
    decision: Seq<char>,
    paths: Seq<JsonView>,
)
    ensures
        ({
            let o = commanded(context, task, payload, ready, record);
            &&& asks_for(payload, "approve_tool"@) && member(payload, "call_id"@) == Some(
                JsonView::Text(id),
            ) && member(payload, "decision"@) == Some(JsonView::Text(decision)) ==> o.action == (
            CommandActionView::Approve {
                call_id: id,
                allow: decision == "allow"@ || decision == "always"@,
                waiting: task.approvals.contains(id),
            }) && !o.task.approvals.contains(id) && o.task.questions == task.questions
            &&& asks_for(payload, "answer_question"@) && member(payload, "call_id"@) == Some(
                JsonView::Text(id),
            ) ==> o.action is Answer && o.action->Answer_call_id == id && o.action->Answer_waiting
                == task.questions.contains(id) && !o.task.questions.contains(id)
                && o.task.approvals == task.approvals
            &&& asks_for(payload, "file_transfer_result"@) && member(payload, "request_id"@)
                == Some(JsonView::Text(id)) && member(payload, "paths"@) == Some(
                JsonView::Array(paths),
            ) ==> o.action is Files && o.action->request_id == id && o.action->Files_waiting
                == task.file_requests.contains(id) && !o.task.file_requests.contains(id)
                && o.action->paths == crate::json::texts_among(paths)
        }),
{
    reveal(turn_command);
    commands_differ();
    crate::commands::requests_are_answered_once(task, id, id.push('x'));
    assert(id.push('x').len() != id.len());
}

/// The answers to questions that are handed on are those that the client gave, under their
/// names.
pub proof fn answers_are_handed_on(
    context: ConnectionStateView,
    task: SessionTaskView,
    payload: JsonView,
    ready: bool,
    record: Option<TaskStatus>,
    fields: Seq<(Seq<char>, JsonView)>,
    i: int,
    text: Seq<char>,
)
    requires
        asks_for(payload, "answer_question"@),
        member(payload, "answers"@) == Some(JsonView::Object(fields)),
        0 <= i < fields.len(),
        fields[i].1 == JsonView::Text(text),
        forall|k: int| i < k < fields.len() ==> (#[trigger] fields[k]).0 != fields[i].0,
    ensures
        ({
            let o = commanded(context, task, payload, ready, record);
            o.action is Answer && crate::table::lookup(o.action->answers, fields[i].0) == Some(text)
        }),
{
    reveal(turn_command);
    commands_differ();
    values_hold(fields, i, text);
}

proof fn values_hold(fields: Seq<(Seq<char>, JsonView)>, i: int, text: Seq<char>)
    requires
        0 <= i < fields.len(),
        fields[i].1 == JsonView::Text(text),
        forall|k: int| i < k < fields.len() ==> (#[trigger] fields[k]).0 != fields[i].0,
    ensures
        crate::table::lookup(crate::catalog::given_values(fields), fields[i].0) == Some(text),
    decreases fields.len(),
{
    let before = crate::catalog::given_values(fields.drop_last());
    let value = match fields.last().1 {
        JsonView::Text(t) => t,
        _ => ""@,
    };
    crate::table::put_is_found(before, fields.last().0, value, fields[i].0);
    if i < fields.len() - 1 {
        values_hold(fields.drop_last(), i, text);
    }
}

/// A message that is put in while a turn runs is handed on as it is, unless it is blank; a
/// confirmed number confirms the events up to it; a cancelled turn stops; a repeated one runs.
pub proof fn running_turns_are_steered(
    context: ConnectionStateView,
    task: SessionTaskView,
    payload: JsonView,
    ready: bool,
    record: Option<TaskStatus>,
    text: Seq<char>,
    number: nat,
)
    requires
        number <= u64::MAX,
    ensures
        ({
            let o = commanded(context, task, payload, ready, record);
            &&& asks_for(payload, "jump_in"@) && member(payload, "text"@) == Some(
                JsonView::Text(text),
            ) && !is_blank(text) ==> o.action == CommandActionView::QueueInput(text) && o.task
                == task
            &&& asks_for(payload, "ack_event"@) && member(payload, "event_seq"@) == Some(
                JsonView::Number(decimal(number)),
            ) ==> o.action is Ack && o.task == task.acknowledged(number)
            &&& asks_for(payload, "cancel"@) ==> o.action is Stop && !o.task.running && (
            task.running ==> o.task.phase == "cancelled"@ && o.task.unacked_events.len()
                == task.unacked_events.len() + 2)
            &&& asks_for(payload, "retry_turn"@) && !task.running ==> o.action is Retry
                && o.task.running
            &&& asks_for(payload, "retry_turn"@) && task.running ==> o.action is Fail
            &&& o.context == context || !(asks_for(payload, "jump_in"@) || asks_for(
                payload,
                "ack_event"@,
            ) || asks_for(payload, "cancel"@) || asks_for(payload, "retry_turn"@))
        }),
{
    reveal(turn_command);
    commands_differ();
    decimal_is_digits(number);
    decimal_reads_back(number);
}

proof fn settings_differ(command: Seq<char>)
    requires
        command == "set_permission_mode"@ || command == "enter_plan_mode"@ || command
            == "exit_plan_mode"@ || command == "set_session_mode"@ || command == "select_model"@
            || command == "set_reasoning_effort"@ || command == "set_max_tool_rounds"@ || command
            == "set_voice_broadcast"@,
    ensures
        command != "send_message"@ && command != "cancel"@ && command != "ack_event"@,
        command != "jump_in"@ && command != "approve_tool"@ && command != "answer_question"@,
        command != "file_transfer_result"@ && command != "send_guide"@ && command
            != "retry_turn"@,
        command == "enter_plan_mode"@ ==> command != "set_permission_mode"@,
        command == "exit_plan_mode"@ ==> command != "set_permission_mode"@ && command
            != "enter_plan_mode"@,
        command == "set_session_mode"@ ==> command != "set_permission_mode"@ && command
            != "enter_plan_mode"@ && command != "exit_plan_mode"@,
        command == "select_model"@ ==> command != "set_permission_mode"@ && command
            != "enter_plan_mode"@ && command != "exit_plan_mode"@ && command
            != "set_session_mode"@,
        command == "set_reasoning_effort"@ ==> command != "set_permission_mode"@ && command
            != "enter_plan_mode"@ && command != "exit_plan_mode"@ && command
            != "set_session_mode"@ && command != "select_model"@,
        command == "set_max_tool_rounds"@ ==> command != "set_permission_mode"@ && command
            != "enter_plan_mode"@ && command != "exit_plan_mode"@ && command
            != "set_session_mode"@ && command != "select_model"@ && command
            != "set_reasoning_effort"@,
        command == "set_voice_broadcast"@ ==> command != "set_permission_mode"@ && command
            != "enter_plan_mode"@ && command != "exit_plan_mode"@ && command
            != "set_session_mode"@ && command != "select_model"@ && command
            != "set_reasoning_effort"@ && command != "set_max_tool_rounds"@,
{
    reveal_strlit("send_message");
    reveal_strlit("cancel");
    reveal_strlit("ack_event");
    reveal_strlit("jump_in");
    reveal_strlit("approve_tool");
    reveal_strlit("answer_question");
    reveal_strlit("file_transfer_result");
    reveal_strlit("send_guide");
    reveal_strlit("retry_turn");
    reveal_strlit("set_permission_mode");
    reveal_strlit("enter_plan_mode");
    reveal_strlit("exit_plan_mode");
    reveal_strlit("set_session_mode");
    reveal_strlit("select_model");
    reveal_strlit("set_reasoning_effort");
    reveal_strlit("set_max_tool_rounds");
    reveal_strlit("set_voice_broadcast");
    assert("send_message"@.len() == 12 && "cancel"@.len() == 6);
    assert("ack_event"@.len() == 9 && "jump_in"@.len() == 7);
    assert("approve_tool"@.len() == 12 && "answer_question"@.len() == 15);
    assert("file_transfer_result"@.len() == 20 && "send_guide"@.len() == 10);
    assert("retry_turn"@.len() == 10 && "set_permission_mode"@.len() == 19);
    assert("enter_plan_mode"@.len() == 15 && "exit_plan_mode"@.len() == 14);
    assert("set_session_mode"@.len() == 16 && "select_model"@.len() == 12);
    assert("set_reasoning_effort"@.len() == 20 && "set_max_tool_rounds"@.len() == 19);
    assert("set_voice_broadcast"@.len() == 19 && "answer_question"@[0] == 'a');
    assert("approve_tool"@[0] == 'a' && "enter_plan_mode"@[0] == 'e');
    assert("file_transfer_result"@[0] == 'f' && "retry_turn"@[0] == 'r');
    assert("select_model"@[0] == 's' && "select_model"@[2] == 'l');
    assert("send_guide"@[0] == 's' && "send_message"@[0] == 's');
    assert("send_message"@[2] == 'n' && "set_max_tool_rounds"@[4] == 'm');
    assert("set_permission_mode"@[4] == 'p' && "set_reasoning_effort"@[0] == 's');
    assert("set_voice_broadcast"@[4] == 'v');
}

/// A mode that the client sets holds for the connection from then on: the permission mode, which
/// is stored too, and planning mode. Nothing else changes.
pub proof fn modes_hold_once_set(
    context: ConnectionStateView,
    task: SessionTaskView,
    payload: JsonView,
    ready: bool,
    record: Option<TaskStatus>,
    name: Seq<char>,
)
    ensures
        ({
            let o = commanded(context, task, payload, ready, record);
            let named = member(payload, "mode"@) == Some(JsonView::Text(name));
            &&& asks_for(payload, "enter_plan_mode"@) ==> o.context == (ConnectionStateView {
                plan_mode: true,
                ..context
            }) && o.action is Ack && o.task == task
            &&& asks_for(payload, "exit_plan_mode"@) ==> o.context == (ConnectionStateView {
                plan_mode: false,
                ..context
            }) && o.action is Ack && o.task == task
            &&& asks_for(payload, "set_permission_mode"@) ==> o.action
                == CommandActionView::SavePermission(o.context.permission) && o.context == (
            ConnectionStateView { permission: o.context.permission, ..context })
            &&& asks_for(payload, "set_permission_mode"@) && named && name == "auto"@
                ==> o.context.permission == PermissionMode::Auto
            &&& asks_for(payload, "set_permission_mode"@) && named && name == "full"@
                ==> o.context.permission == PermissionMode::Full
            &&& asks_for(payload, "set_permission_mode"@) && named && name != "auto"@ && name
                != "full"@ ==> o.context.permission == PermissionMode::Ask
            &&& asks_for(payload, "set_session_mode"@) && named && name == "life"@ ==> o.context
                == (ConnectionStateView { session_mode: SessionMode::Life, ..context })
            &&& asks_for(payload, "set_session_mode"@) && named && name == "agent"@ ==> o.context
                == (ConnectionStateView { session_mode: SessionMode::Agent, ..context })
            &&& asks_for(payload, "set_session_mode"@) && named && name != "agent"@ && name
                != "life"@ ==> o.action is Fail && o.context == context
        }),
{
    reveal_strlit("auto");
    reveal_strlit("full");
    reveal_strlit("agent");
    reveal_strlit("life");
    assert("auto"@.len() == 4 && "full"@.len() == 4);
    assert("agent"@.len() == 5 && "life"@.len() == 4);
    assert("auto"@[0] == 'a' && "full"@[0] == 'f');
    assert("life"@[0] == 'l');
    reveal(turn_command);
    reveal(setting_command);
    let command = given_text(payload, "command"@);
    if asks_for(payload, "enter_plan_mode"@) || asks_for(payload, "exit_plan_mode"@) || asks_for(
        payload,
        "set_permission_mode"@,
    ) || asks_for(payload, "set_session_mode"@) {
        settings_differ(command);
    }
}

/// A setting that the client sends holds for the connection and is stored under its key as it
/// was sent; one out of range is refused.
pub proof fn settings_hold_once_set(
    context: ConnectionStateView,
    task: SessionTaskView,
    payload: JsonView,
    ready: bool,
    record: Option<TaskStatus>,
    text: Seq<char>,
    other: Seq<char>,
    number: nat,
    enabled: bool,
)
    requires
        number <= u64::MAX,
    ensures
        ({
            let o = commanded(context, task, payload, ready, record);
            let known = text == "auto"@ || text == "low"@ || text == "medium"@ || text == "high"@
                || text == "xhigh"@;
            let effort = asks_for(payload, "set_reasoning_effort"@) && member(payload, "effort"@)
                == Some(JsonView::Text(text));
            let rounds = asks_for(payload, "set_max_tool_rounds"@) && member(payload, "rounds"@)
                == Some(JsonView::Number(decimal(number)));
            let voice = asks_for(payload, "set_voice_broadcast"@) && member(payload, "enabled"@)
                == Some(JsonView::Bool(enabled));
            let model = asks_for(payload, "select_model"@) && member(payload, "provider_id"@)
                == Some(JsonView::Text(text)) && member(payload, "model"@) == Some(
                JsonView::Text(other),
            );
            &&& effort && known ==> o.context.reasoning_effort == text && o.action is SaveSetting
                && o.action->key == "reasoning_effort"@ && o.action->value == JsonView::Text(text)
            &&& effort && !known ==> o.action is Fail && o.context == context
            &&& rounds && 1 <= number <= 512 ==> o.context.max_tool_rounds == number && o.action
                is SaveSetting && o.action->key == "max_tool_rounds"@ && o.action->value
                == JsonView::Number(decimal(number))
            &&& rounds && !(1 <= number <= 512) ==> o.action is Fail && o.context == context
            &&& voice ==> o.context.voice_broadcast == enabled && o.action is SaveSetting
                && o.action->key == "voice_broadcast"@ && o.action->value == JsonView::Bool(
                enabled,
            )
            &&& model && text.len() > 0 && other.len() > 0 ==> o.action == (
            CommandActionView::SelectModel { provider: text, model: other })
            &&& model && (text.len() == 0 || other.len() == 0) ==> o.action is Fail
            &&& effort || rounds || voice || model ==> o.task == task && o.context.permission
                == context.permission && o.context.plan_mode == context.plan_mode
                && o.context.session_mode == context.session_mode
        }),
{
    reveal(turn_command);
    reveal(setting_command);
    let command = given_text(payload, "command"@);
    if asks_for(payload, "set_reasoning_effort"@) || asks_for(payload, "set_max_tool_rounds"@)
        || asks_for(payload, "set_voice_broadcast"@) || asks_for(payload, "select_model"@) {
        settings_differ(command);
    }
    decimal_is_digits(number);
    decimal_reads_back(number);
}

/// A model that is selected is one that its provider declares, and becomes the one in use.
pub proof fn selected_models_are_declared(
    document: ProviderDocumentView,
    context: ConnectionStateView,
    provider: Seq<char>,
    model: Seq<char>,
)
    ensures
        match model_in(document, provider, model) {
            Ok(settings) => {
                &&& settings.model == model
                &&& crate::table::lookup(document.providers, provider) is Some
                &&& models_of(crate::table::lookup(document.providers, provider)->0).contains(model)
                &&& with_active_model(document, provider, settings).active == provider
                &&& crate::table::lookup(
                    with_active_model(document, provider, settings).providers,
                    provider,
                ) == Some(settings)
            },
            Err(_) => true,
        },
        model_committed(context, provider, model, true).selected_model == Some(
            provider + seq![':'] + model,
        ),
        model_committed(context, provider, model, false) == context,
{
    reveal_strlit(":");
    assert(provider + ":"@ + model =~= provider + seq![':'] + model);
    if let Ok(settings) = model_in(document, provider, model) {
        crate::table::put_is_found(document.providers, provider, settings, provider);
    }
}

/// A turn that ended tells the client so: its last event says that the turn is over, a failure
/// is told before it with its message, and the task runs no longer.
pub proof fn ended_turns_are_told(task: SessionTaskView, kind: TurnKind, message: Seq<char>)
    requires
        task.next_event_seq < u64::MAX - 2,
    ensures
        ({
            let well = task_after_turn(task, kind, None);
            let badly = task_after_turn(task, kind, Some(message));
            &&& !well.running && well.phase == "completed"@
            &&& !badly.running && badly.phase == "failed"@
            &&& well.unacked_events.len() == task.unacked_events.len() + 1
            &&& badly.unacked_events.len() == task.unacked_events.len() + 2
            &&& task.unacked_events.is_prefix_of(well.unacked_events)
            &&& task.unacked_events.is_prefix_of(badly.unacked_events)
            &&& member(well.unacked_events.last(), "event_type"@) == Some(
                JsonView::Text("turn_end"@),
            )
            &&& member(badly.unacked_events.last(), "event_type"@) == Some(
                JsonView::Text("turn_end"@),
            )
        }),
{
    ends_are_marked(task.next_event_seq);
    ends_are_marked(crate::task::after(task.next_event_seq));
}

proof fn ends_are_marked(number: u64)
    ensures
        member(numbered(event_data("turn_end"@), number), "event_type"@) == Some(
            JsonView::Text("turn_end"@),
        ),
{
    let fields = seq![("event_type"@, JsonView::Text("turn_end"@))];
    reveal_strlit("event_type");
    reveal_strlit("event_seq");
    assert("event_type"@.len() != "event_seq"@.len());
    crate::text_laws::assigned_fields_are_read_back(
        fields,
        "event_seq"@,
        crate::settings::number_data(number as nat),
        "event_type"@,
    );
    member_at(fields, 0);
}

/// The event that tells of a failure carries its message. It asks whether to try again where the
/// failure may pass by itself or the rounds were used up.
pub proof fn failures_are_told_with_their_message(message: Seq<char>)
    ensures
        retryable(message) || contains(message, "tool round limit reached"@) ==> member(
            failure_event(TurnKind::Message, message),
            "event_type"@,
        ) == Some(JsonView::Text("retry_confirmation"@)) && member(
            failure_event(TurnKind::Message, message),
            "detail"@,
        ) == Some(JsonView::Text(message)),
        !(retryable(message) || contains(message, "tool round limit reached"@)) ==> member(
            failure_event(TurnKind::Message, message),
            "event_type"@,
        ) == Some(JsonView::Text("agent_error"@)) && member(
            failure_event(TurnKind::Message, message),
            "message"@,
        ) == Some(JsonView::Text(message)),
        member(failure_event(TurnKind::Retry, message), "message"@) == Some(
            JsonView::Text(message),
        ),
        member(failure_event(TurnKind::Compaction, message), "message"@) matches Some(
            JsonView::Text(told),
        ) && ends_with(told, message),
{
    reveal_strlit("event_type");
    reveal_strlit("message");
    reveal_strlit("detail");
    assert("event_type"@.len() == 10 && "message"@.len() == 7 && "detail"@.len() == 6);
    let plain = error_event(message);
    let fields = plain->Object_0;
    member_at(fields, 0);
    member_at(fields, 1);
    let asked = crate::commands::retry_question(message)->Object_0;
    member_at(asked, 0);
    member_at(asked, 2);
    let prefix = "上下文压缩失败："@;
    let third = error_event(prefix + message)->Object_0;
    member_at(third, 1);
    parts_are_contained(prefix, message, Seq::empty());
}

/// A failure may pass by itself exactly where its text, in any case, names a passing condition
/// and no final one.
pub proof fn final_failures_are_not_retried(message: Seq<char>)
    ensures
        contains(lower(message), "http 401"@) ==> !retryable(message),
        contains(lower(message), "http 404"@) ==> !retryable(message),
        contains(lower(message), "timed out"@) && !contains(lower(message), "http 4"@)
            ==> retryable(message),
        contains(lower(message), "503"@) && !contains(lower(message), "http 4"@) ==> retryable(
            message,
        ),
        retryable(message) ==> retryable(lower(message)),
{
    reveal(retryable);
    let text = lower(message);
    let stop = crate::commands::final_statuses();
    let pass = crate::commands::passing_failures();
    assert(stop[1] == "http 401"@ && stop[4] == "http 404"@);
    assert(pass[0] == "timed out"@ && pass[8] == "503"@);
    if !contains(text, "http 4"@) {
        assert forall|i: int| 0 <= i < stop.len() implies !contains(text, #[trigger] stop[i]) by {
            reveal_strlit("http 4");
            reveal_strlit("http 400");
            reveal_strlit("http 401");
            reveal_strlit("http 402");
            reveal_strlit("http 403");
            reveal_strlit("http 404");
            let short = "http 4"@;
            assert(stop[i].len() == 8);
            assert(stop[i] =~= short + stop[i].skip(6)) by {
                assert(stop[i].take(6) =~= short);
            }
            parts_are_contained(Seq::empty(), short, stop[i].skip(6));
            assert(Seq::<char>::empty() + short + stop[i].skip(6) =~= stop[i]);
            if contains(text, stop[i]) {
                crate::text_laws::contained_in_contained(text, stop[i], short);
            }
        }
    }
    if message.len() > 0 {
        crate::text_laws::lower_case_changes_capitals_only(message, 0);
    } else {
        assert(lower(text) =~= text);
    }
}

/// An envelope carries its payload and the identifier of the request, and both are read from it
/// again.
pub proof fn envelopes_are_opened_again(
    kind: Seq<char>,
    id: Option<Seq<char>>,
    time: Seq<char>,
    payload: JsonView,
)
    ensures
        envelope_parts(envelope_data(kind, id, time, payload)) == (id, payload),
        member(envelope_data(kind, id, time, payload), "type"@) == Some(JsonView::Text(kind)),
{
    reveal_strlit("v");
    reveal_strlit("type");
    reveal_strlit("ts");
    reveal_strlit("payload");
    reveal_strlit("id");
    assert("v"@.len() == 1 && "type"@.len() == 4);
    assert("ts"@.len() == 2 && "payload"@.len() == 7);
    assert("id"@.len() == 2 && "id"@[0] == 'i');
    assert("ts"@[0] == 't');
    let fields = envelope_data(kind, id, time, payload)->Object_0;
    member_at(fields, 1);
    member_at(fields, 3);
    if id is Some {
        member_at(fields, 4);
    } else {
        crate::text_laws::members_are_found_by_name(fields, "id"@);
    }
}

/// A client that connects is told whether a turn runs, and then again all that it has not
/// confirmed.
pub proof fn connecting_clients_are_brought_up_to_date(
    task: SessionTaskView,
    loaded: Option<JsonView>,
)
    ensures
        ({
            let sent = opening_events(task, loaded);
            let first: int = if loaded is Some {
                1
            } else {
                0
            };
            &&& sent.len() == first + 1 + task.unacked_events.len()
            &&& loaded is Some ==> sent[0] == loaded->0
            &&& member(sent[first], "running"@) == Some(JsonView::Bool(task.running))
            &&& forall|i: int|
                #![trigger task.unacked_events[i]]
                0 <= i < task.unacked_events.len() ==> sent[first + 1 + i]
                    == task.unacked_events[i]
        }),
{
    reveal_strlit("event_type");
    reveal_strlit("running");
    assert("event_type"@.len() == 10 && "running"@.len() == 7);
    member_at(crate::commands::state_event(task.running)->Object_0, 1);
}

/// A guide that was told stands in the history as asked and answered.
pub proof fn guides_stand_in_the_history(session: SessionView, title: Seq<char>, body: Seq<char>)
    ensures
        ({
            let after = with_guide(session, title, body).messages;
            let n = session.messages.len() as int;
            &&& after.len() == n + 2
            &&& session.messages.is_prefix_of(after)
            &&& after[n].role == Role::User && after[n].content == title
            &&& after[n + 1].role == Role::Assistant && after[n + 1].content == body
        }),
{
}

// ---------------------------------------------------------------------------
// Tasks
// ---------------------------------------------------------------------------

/// What is told of a session keeps every field that it was told with.
pub proof fn told_events_keep_their_fields(
    task: SessionTaskView,
    fields: Seq<(Seq<char>, JsonView)>,
    key: Seq<char>,
)
    requires
        key != "event_seq"@,
    ensures
        ({
            let after = task.pushed(JsonView::Object(fields));
            &&& after.unacked_events.len() == task.unacked_events.len() + 1
            &&& after.unacked_events.drop_last() == task.unacked_events
            &&& member(after.unacked_events.last(), key) == member(JsonView::Object(fields), key)
            &&& task.connected ==> after.outbox == task.outbox.push(after.unacked_events.last())
            &&& !task.connected ==> after.outbox == task.outbox
            &&& after.running == task.running && after.phase == task.phase
        }),
{
    let after = task.pushed(JsonView::Object(fields));
    crate::text_laws::assigned_fields_are_read_back(
        fields,
        "event_seq"@,
        crate::settings::number_data(task.next_event_seq as nat),
        key,
    );
    assert(after.unacked_events.drop_last() =~= task.unacked_events);
}

/// A task that begins is queued under its identifier with nothing left over from the one before.
pub proof fn begun_tasks_start_afresh(task: SessionTaskView, id: Seq<char>, now: u64)
    ensures
        ({
            let after = task.begun(id, now);
            &&& after.task_id == Some(id) && after.phase == "queued"@ && after.started_at == now
            &&& after.unacked_events.len() == 0 && after.current_tool is None && after.download
                is None && !after.pause_requested
            &&& after.next_event_seq == task.next_event_seq && after.connected == task.connected
                && after.running == task.running && after.approvals == task.approvals
        }),
        !task.finished("completed"@).running,
        task.finished("completed"@).phase == "completed"@,
        task.finished("completed"@).unacked_events == task.unacked_events,
{
}

/// A task waits for approval or input while someone is asked; else it is in its own phase.
pub proof fn shown_phases_tell_what_is_waited_for(task: SessionTaskView)
    ensures
        task.running && task.approvals.len() > 0 ==> task.shown_phase() == "awaiting_approval"@,
        task.running && task.approvals.len() == 0 && task.questions.len() > 0
            ==> task.shown_phase() == "awaiting_input"@,
        !task.running || (task.approvals.len() == 0 && task.questions.len() == 0)
            ==> task.shown_phase() == task.phase,
{
}

/// What a client asks of a task is done to it: it pauses, goes on, stops or is queued again.
pub proof fn task_actions_do_what_they_say(task: SessionTaskView, priority: bool)
    ensures
        acted(task, "pause"@).pause_requested && acted(task, "pause"@).phase == "pause_pending"@,
        !acted(task, "resume"@).pause_requested && acted(task, "resume"@).phase == "running"@,
        !acted(task, "cancel"@).running,
        acted(task, "retry"@).phase == "queued"@,
        acted(task, "priority"@) == task,
        requested_command(true, "pause"@, priority) matches Ok(command) && command
            == TaskCommand::RequestPause,
        requested_command(true, "resume"@, priority) matches Ok(command) && command
            == TaskCommand::Resume,
        requested_command(true, "cancel"@, priority) matches Ok(command) && command
            == TaskCommand::Stop,
        requested_command(false, "cancel"@, priority) matches Ok(command) && command
            == TaskCommand::Cancel,
        requested_command(false, "retry"@, priority) matches Ok(command) && command
            == TaskCommand::Retry,
        requested_command(false, "priority"@, true) matches Ok(command) && command
            == TaskCommand::SetPriority,
        requested_command(false, "priority"@, false) is Err,
{
    reveal_strlit("pause");
    reveal_strlit("resume");
    reveal_strlit("cancel");
    reveal_strlit("retry");
    reveal_strlit("priority");
    assert("pause"@.len() == 5 && "resume"@.len() == 6);
    assert("cancel"@.len() == 6 && "retry"@.len() == 5);
    assert("priority"@.len() == 8 && "cancel"@[0] == 'c');
    assert("pause"@[0] == 'p' && "resume"@[0] == 'r');
    assert("retry"@[0] == 'r');
}

/// A shell command that fetches something is shown as a download under the command itself, at
/// most seventy-two characters of it; another tool is none.
pub proof fn downloads_are_recognised(call: ToolCallView, command: Seq<char>)
    requires
        member(call.arguments, "command"@) == Some(JsonView::Text(command)),
    ensures
        call.name == "shell"@ && contains(lower(command), "git clone"@) ==> (call_download(
            call,
        ) matches Some(label) && label.len() <= 72),
        call.name == "shell"@ && contains(lower(command), "curl "@) ==> call_download(call) is Some,
        call.name == "local_shell"@ && member(call.arguments, "action"@) == Some(
            JsonView::Text("exec"@),
        ) && contains(lower(command), "pip install"@) ==> call_download(call) is Some,
        call.name != "shell"@ && call.name != "local_shell"@ ==> call_download(call) is None,
        joined(words(command), " "@).len() <= 72 ==> short_command(command) == joined(
            words(command),
            " "@,
        ),
        joined(words(command), " "@).len() > 72 ==> short_command(command).len() == 72
            && short_command(command).take(69) == joined(words(command), " "@).take(69),
{
    reveal(downloads);
    let list = crate::task::download_markers();
    assert(list[0] == "curl "@ && list[2] == "git clone"@ && list[8] == "pip install"@);
    reveal_strlit("shell");
    reveal_strlit("local_shell");
    reveal_strlit("...");
    assert("shell"@.len() == 5 && "local_shell"@.len() == 11);
    let compact = joined(words(command), " "@);
    if compact.len() > 72 {
        assert(short_command(command).take(69) =~= compact.take(69));
    }
}

/// A download ends as failed where its call failed; a call that started none leaves the shown
/// download as it is, unless it waited for that download.
pub proof fn downloads_follow_their_calls(
    download: Option<DownloadTaskStateView>,
    call: ToolCallView,
    result: ToolResultView,
    label: Seq<char>,
)
    ensures
        next_download(download, call, result, Some(label)) matches Some(now) && now.label == label
            && (!result.success ==> now.status == "failed"@) && (result.success && now.process_id
            is None ==> now.status == "completed"@) && (result.success && now.process_id is Some
            ==> now.status == "downloading"@),
        call.name != "local_shell"@ ==> next_download(download, call, result, None) == download,
        download matches Some(before) ==> (next_download(download, call, result, None) matches Some(
            now,
        ) && now.label == before.label && now.process_id == before.process_id && (now.status
            == before.status || now.status == (if !result.success {
            "failed"@
        } else if contains(result.output, "process still running"@) {
            "downloading"@
        } else {
            "completed"@
        }))),
{
}

// ---------------------------------------------------------------------------
// Access
// ---------------------------------------------------------------------------

/// A request that shows the token of the server in its header passes; so does every request
/// where the server has none, and whatever is not of the interface.
pub proof fn the_token_opens_the_gate(path: Seq<char>, query: Option<Seq<char>>, token: Seq<char>)
    ensures
        token.len() > 0 ==> gate(path, Some("Bearer "@ + token), query, token) == Gate::Pass,
        token.len() == 0 && path != "/api/runtime/health"@ ==> gate(path, None, query, token)
            == Gate::Pass,
        !starts_with(path, "/api/"@) && !starts_with(path, "/ws/"@) ==> gate(
            path,
            None,
            query,
            token,
        ) == Gate::Pass,
{
    let prefix = "Bearer "@;
    let header = prefix + token;
    assert(header.take(prefix.len() as int) =~= prefix);
    assert(header.skip(prefix.len() as int) =~= token);
}

/// Pages of this computer at the port of the server are known, under both of its names.
pub proof fn own_pages_are_known(port: u16)
    ensures
        own_origins(port).contains("http://127.0.0.1:"@ + decimal(port as nat)),
        own_origins(port).contains("http://localhost:"@ + decimal(port as nat)),
        own_origins(port).len() == 2,
{
    assert(own_origins(port)[0] == "http://127.0.0.1:"@ + decimal(port as nat));
    assert(own_origins(port)[1] == "http://localhost:"@ + decimal(port as nat));
}

/// What the user is asked to approve tells which call it is about and why.
pub proof fn approvals_tell_the_call(call: ToolCallView, reason: Seq<char>)
    ensures
        member(approval_event(call, reason), "call_id"@) == Some(JsonView::Text(call.id)),
        member(approval_event(call, reason), "tool_name"@) == Some(JsonView::Text(call.name)),
        member(approval_event(call, reason), "arguments"@) == Some(call.arguments),
        member(approval_event(call, reason), "risk_summary"@) == Some(JsonView::Text(reason)),
        member(approval_event(call, reason), "event_type"@) == Some(
            JsonView::Text("tool_approval_request"@),
        ),
{
    reveal_strlit("event_type");
    reveal_strlit("call_id");
    reveal_strlit("tool_name");
    reveal_strlit("arguments");
    reveal_strlit("access");
    reveal_strlit("risk_summary");
    assert("event_type"@.len() == 10 && "call_id"@.len() == 7);
    assert("tool_name"@.len() == 9 && "arguments"@.len() == 9);
    assert("access"@.len() == 6 && "risk_summary"@.len() == 12);
    assert("arguments"@[0] == 'a' && "tool_name"@[0] == 't');
    let fields = approval_event(call, reason)->Object_0;
    member_at(fields, 0);
    member_at(fields, 1);
    member_at(fields, 2);
    member_at(fields, 3);
    member_at(fields, 5);
}

/// What is asked without approval, and how grave it is called, follows from the reason: writing
/// and deleting are told apart from reading.
pub proof fn access_follows_the_reason(reason: Seq<char>)
    ensures
        approved_unasked(PermissionMode::Full, reason),
        !contains(lower(reason), "delete"@) ==> approved_unasked(PermissionMode::Auto, reason),
        contains(lower(reason), "overwrite"@) ==> access_of(reason) == "destructive"@,
        contains(lower(reason), "write"@) ==> access_of(reason) == "write"@ || access_of(reason)
            == "destructive"@,
        !contains(lower(reason), "delete"@) && !contains(lower(reason), "write"@) && !contains(
            lower(reason),
            "destructive"@,
        ) && !contains(lower(reason), "overwrite"@) && !contains(lower(reason), "change"@)
            && !contains(lower(reason), "process"@) ==> access_of(reason) == "read_only"@,
{
}

/// Questions are put under their identifier, all of them and in order; a request for files tells
/// what is to be done with which file.
pub proof fn questions_are_put_whole(
    id: Seq<char>,
    questions: Seq<JsonView>,
    request: FileTransferRequestView,
    asked: u64,
)
    ensures
        member(question_event(id, questions), "call_id"@) == Some(JsonView::Text(id)),
        member(question_event(id, questions), "questions"@) == Some(JsonView::Array(questions)),
        member(file_event(request), "request_id"@) == Some(JsonView::Text(request.request_id)),
        member(file_event(request), "operation"@) == Some(JsonView::Text(request.operation)),
        request.path is Some ==> member(file_event(request), "path"@) == Some(
            JsonView::Text(request.path->0),
        ),
        member(file_event(request), "multiple"@) == Some(JsonView::Bool(request.multiple)),
        1_000 <= asked <= 300_000 ==> answer_wait(Some(asked)) == asked,
        1_000 <= answer_wait(Some(asked)) <= 300_000,
        answer_wait(None) == 300_000,
{
    reveal_strlit("event_type");
    reveal_strlit("call_id");
    reveal_strlit("questions");
    reveal_strlit("request_id");
    reveal_strlit("operation");
    reveal_strlit("path");
    reveal_strlit("suggested_name");
    reveal_strlit("multiple");
    assert("event_type"@.len() == 10 && "call_id"@.len() == 7);
    assert("questions"@.len() == 9 && "request_id"@.len() == 10);
    assert("operation"@.len() == 9 && "path"@.len() == 4);
    assert("suggested_name"@.len() == 14 && "multiple"@.len() == 8);
    assert("event_type"@[0] == 'e' && "operation"@[0] == 'o');
    assert("questions"@[0] == 'q' && "request_id"@[0] == 'r');
    let q = question_event(id, questions)->Object_0;
    member_at(q, 1);
    member_at(q, 2);
    let f = file_event(request)->Object_0;
    member_at(f, 1);
    member_at(f, 2);
    member_at(f, 3);
    member_at(f, 5);
}

// ---------------------------------------------------------------------------
// Turns of the web bridge
// ---------------------------------------------------------------------------

/// The prompt of a turn begins with the system prompt and holds every part that was put
/// together for it.
pub proof fn prompts_hold_their_parts(system: Seq<char>, parts: PromptPartsView)
    ensures
        starts_with(full_prompt(system, parts), system),
        contains(full_prompt(system, parts), parts.skills),
        contains(full_prompt(system, parts), parts.servers),
        parts.life is Some ==> contains(full_prompt(system, parts), parts.life->0),
        parts.memory is Some ==> contains(full_prompt(system, parts), parts.memory->0),
{
    let none = Seq::<char>::empty();
    let life = match parts.life {
        Some(text) => text,
        None => none,
    };
    let before_skills = if parts.skills.len() == 0 {
        none
    } else {
        "\n\nProactively routed Skills (already read; user and project rules take precedence):"@
    };
    let before_servers = if parts.servers.len() == 0 {
        none
    } else {
        "\n\n"@
    };
    let memory = match parts.memory {
        Some(text) => text,
        None => none,
    };
    let before_memory = if memory.len() == 0 {
        none
    } else {
        "\n\nPersistent memory (core and frequently hit memories first):\n"@
    };
    let a = before_skills + parts.skills;
    let b = before_servers + parts.servers;
    let c = before_memory + memory;
    assert(none + none =~= none);
    assert(a =~= if parts.skills.len() == 0 {
        none
    } else {
        a
    });
    assert(b =~= if parts.servers.len() == 0 {
        none
    } else {
        b
    });
    assert(c =~= if memory.len() == 0 {
        none
    } else {
        c
    });
    assert(full_prompt(system, parts) == system + life + a + b + c);
    five_parts_stand_in_the_whole(system, life, a, b, c);
    end_is_contained(before_skills, parts.skills);
    end_is_contained(before_servers, parts.servers);
    end_is_contained(before_memory, memory);
    let whole = system + life + a + b + c;
    crate::text_laws::contained_in_contained(whole, a, parts.skills);
    crate::text_laws::contained_in_contained(whole, b, parts.servers);
    crate::text_laws::contained_in_contained(whole, c, memory);
}

proof fn end_is_contained(before: Seq<char>, part: Seq<char>)
    ensures
        contains(before + part, part),
{
    parts_are_contained(before, part, Seq::empty());
    assert(before + part + Seq::<char>::empty() =~= before + part);
}

proof fn five_parts_stand_in_the_whole(
    a: Seq<char>,
    b: Seq<char>,
    c: Seq<char>,
    d: Seq<char>,
    e: Seq<char>,
)
    ensures
        starts_with(a + b + c + d + e, a),
        contains(a + b + c + d + e, b),
        contains(a + b + c + d + e, c),
        contains(a + b + c + d + e, d),
        contains(a + b + c + d + e, e),
{
    let whole = a + b + c + d + e;
    assert(whole.take(a.len() as int) =~= a);
    assert(contains(whole, b)) by {
        parts_are_contained(a, b, c + d + e);
        assert(a + b + (c + d + e) =~= whole);
    }
    assert(contains(whole, c)) by {
        parts_are_contained(a + b, c, d + e);
        assert(a + b + c + (d + e) =~= whole);
    }
    assert(contains(whole, d)) by {
        parts_are_contained(a + b + c, d, e);
    }
    assert(contains(whole, e)) by {
        end_is_contained(a + b + c + d, e);
    }
}

/// A turn uses the model that was selected, else the one that the session used; asking for
/// approval keeps to the workspace, and the other modes do not.
pub proof fn turns_use_what_was_chosen(
    selected: Seq<char>,
    session: SessionView,
    text: Seq<char>,
    more: Seq<char>,
)
    ensures
        turn_selector(Some(selected), Some(session)) == Some(selected),
        session.provider_id.len() > 0 ==> turn_selector(None, Some(session)) == Some(
            session.provider_id,
        ),
        turn_selector(None, None) is None,
        policy_of(PermissionMode::Ask) != policy_of(PermissionMode::Full),
        policy_of(PermissionMode::Auto) == policy_of(PermissionMode::Full),
        starts_with(continued(text, more), text),
        !is_blank(more) ==> ends_with(continued(text, more), more),
        is_blank(more) ==> continued(text, more) == text,
{
    let all = continued(text, more);
    assert(all.take(text.len() as int) =~= text);
    if !is_blank(more) {
        assert(all.skip(all.len() - more.len()) =~= more);
    }
}

/// A run that ended well hands on all that was said: to the life of the agent where it has one,
/// and to the next round of a loop that goes on; a failure is handed on as it is.
pub proof fn runs_hand_on_what_was_said(
    run: WebRunView,
    session: SessionView,
    answer: Seq<char>,
    message: Seq<char>,
)
    requires
        run.phase == RunPhase::Save,
    ensures
        ({
            let (next, action) = run_stepped(
                WebRunView { outcome: Ok(answer), ..run },
                session,
                RunEventView::Saved,
            );
            &&& !run.looped ==> next.text == answer
            &&& run.looped ==> starts_with(next.text, run.text) && (!is_blank(answer) ==> ends_with(
                next.text,
                answer,
            ))
            &&& action matches RunActionView::TellLife(told) ==> told == next.text && run.life
        }),
        run_stepped(
            WebRunView { outcome: Err(message), ..run },
            session,
            RunEventView::Saved,
        ).1 == RunActionView::Fail(message),
        run_stepped(run, session, RunEventView::Failed(message)).1 == RunActionView::Fail(message),
{
    turns_use_what_was_chosen(Seq::empty(), session, run.text, answer);
}

/// A turn waits for its resources, works once it has them and nothing changed meanwhile, and
/// tells of every conflict otherwise.
pub proof fn conflicts_are_told(
    task: SessionTaskView,
    conflicts: Seq<Seq<char>>,
    message: Seq<char>,
    i: int,
)
    ensures
        waited(WaitPhase::Baseline, task, WaitEventView::Compared(Seq::empty())).action is Work,
        0 <= i < conflicts.len() ==> (waited(
            WaitPhase::Baseline,
            task,
            WaitEventView::Compared(conflicts),
        ).action matches WaitActionView::Conflict(told) && contains(told, conflicts[i])),
        waited(WaitPhase::Acquire, task, WaitEventView::Busy).action is Sleep,
        waited(WaitPhase::Acquire, task, WaitEventView::Acquired).action is Compare,
        waited(WaitPhase::Pause, task, WaitEventView::Slept).action is AwaitSafePoint,
        waited(WaitPhase::SafePoint, task, WaitEventView::Passed).action is Acquire <==> task.running,
        waited(WaitPhase::Acquire, task, WaitEventView::Failed(message)).action
            == WaitActionView::Fail(message),
{
    if 0 <= i < conflicts.len() {
        let list = joined(conflicts, ", "@);
        let all = "external state changed: "@ + list;
        crate::text_laws::joined_holds_its_parts(conflicts, ", "@, i);
        parts_are_contained("external state changed: "@, list, Seq::empty());
        assert(all + Seq::<char>::empty() =~= all);
        crate::text_laws::contained_in_contained(all, list, conflicts[i]);
    }
}

// ---------------------------------------------------------------------------
// Scheduled tasks
// ---------------------------------------------------------------------------

proof fn stars_are_words()
    ensures
        is_word("*"@),
        "*"@ == seq!['*'],
        crate::numbers::parsed("*"@, u32::MAX as nat) is None,
{
    reveal_strlit("*");
    assert("*"@ =~= seq!['*']);
    assert(!is_space('*') && !is_digit('*'));
    crate::text_laws::numbers_are_read_and_written(0, u32::MAX as nat, "*"@);
}

proof fn numbers_are_words(n: nat)
    ensures
        is_word(decimal(n)),
{
    decimal_is_digits(n);
    let s = decimal(n);
    assert forall|i: int| 0 <= i < s.len() implies !is_space(#[trigger] s[i]) by {
        assert(is_digit(s[i]));
    }
}

proof fn two_words(first: Seq<char>, second: Seq<char>)
    requires
        is_word(first),
        is_word(second),
    ensures
        words(first + seq![' '] + second) == seq![first, second],
{
    let parts = seq![first, second];
    crate::pieces::joined_words_are_words(parts);
    reveal_with_fuel(joined, 3);
    assert(parts.drop_last() =~= seq![first]);
    assert(joined(parts, seq![' ']) =~= first + seq![' '] + second);
}

/// A field `*` admits every value, and a number admits itself alone.
pub proof fn stars_admit_everything(m: nat, h: nat, minute: nat, hour: nat)
    requires
        m <= u32::MAX,
        h <= u32::MAX,
    ensures
        admits(seq!['*', ' ', '*'], minute, hour),
        admits(decimal(m) + seq![' ', '*'], minute, hour) <==> minute == m,
        admits(seq!['*', ' '] + decimal(h), minute, hour) <==> hour == h,
        admits(decimal(m) + seq![' '] + decimal(h), minute, hour) <==> minute == m && hour == h,
{
    stars_are_words();
    numbers_are_words(m);
    numbers_are_words(h);
    decimal_reads_back(m);
    decimal_reads_back(h);
    crate::text_laws::numbers_are_read_and_written(m, u32::MAX as nat, Seq::empty());
    crate::text_laws::numbers_are_read_and_written(h, u32::MAX as nat, Seq::empty());
    two_words("*"@, "*"@);
    two_words(decimal(m), "*"@);
    two_words("*"@, decimal(h));
    two_words(decimal(m), decimal(h));
    assert("*"@ + seq![' '] + "*"@ =~= seq!['*', ' ', '*']);
    assert(decimal(m) + seq![' '] + "*"@ =~= decimal(m) + seq![' ', '*']);
    assert("*"@ + seq![' '] + decimal(h) =~= seq!['*', ' '] + decimal(h));
}

/// A time of other than two fields is refused and never comes.
pub proof fn times_have_two_fields(entry: ScheduleEntryView, minute: nat, hour: nat)
    requires
        words(entry.cron).len() != 2,
    ensures
        !admits(entry.cron, minute, hour),
        entry_verdict(entry) is Err,
{
}

/// A task at a minute of the day or an hour of it, or at every one, is accepted if it has a
/// prompt; a minute or an hour that no day has is refused.
pub proof fn times_of_the_day_are_accepted(entry: ScheduleEntryView, m: nat, h: nat)
    requires
        m <= u32::MAX,
        h <= u32::MAX,
        !is_blank(entry.prompt),
    ensures
        entry.cron == seq!['*', ' ', '*'] ==> entry_verdict(entry) is Ok,
        entry.cron == decimal(m) + seq![' '] + decimal(h) ==> (entry_verdict(entry) is Ok <==> m
            <= 59 && h <= 23),
        entry.cron == decimal(m) + seq![' ', '*'] ==> (entry_verdict(entry) is Ok <==> m <= 59),
        entry.cron == seq!['*', ' '] + decimal(h) ==> (entry_verdict(entry) is Ok <==> h <= 23),
{
    stars_are_words();
    numbers_are_words(m);
    numbers_are_words(h);
    decimal_reads_back(m);
    decimal_reads_back(h);
    crate::text_laws::numbers_are_read_and_written(m, u32::MAX as nat, Seq::empty());
    crate::text_laws::numbers_are_read_and_written(h, u32::MAX as nat, Seq::empty());
    two_words("*"@, "*"@);
    two_words(decimal(m), "*"@);
    two_words("*"@, decimal(h));
    two_words(decimal(m), decimal(h));
    assert("*"@ + seq![' '] + "*"@ =~= seq!['*', ' ', '*']);
    assert(decimal(m) + seq![' '] + "*"@ =~= decimal(m) + seq![' ', '*']);
    assert("*"@ + seq![' '] + decimal(h) =~= seq!['*', ' '] + decimal(h));
    decimal_is_digits(m);
    decimal_is_digits(h);
    assert(is_digit(decimal(m)[0]) && is_digit(decimal(h)[0]) && !is_digit('*'));
}

/// A task without a prompt is refused.
pub proof fn tasks_need_a_prompt(entry: ScheduleEntryView)
    requires
        is_blank(entry.prompt),
    ensures
        entry_verdict(entry) is Err,
{
}

/// A task that is saved is found under its identifier with the time and the prompt that were
/// sent, and is on unless it was sent as off; one that is refused changes nothing.
pub proof fn saved_tasks_are_as_sent(
    store: ScheduleStoreView,
    payload: SchedulePayloadView,
    random: Seq<char>,
    created_at: Seq<char>,
)
    ensures
        ({
            let (after, answer) = schedule_saved(store, payload, random, created_at);
            match answer {
                Ok(id) => {
                    &&& find_entry(after.schedules, id) matches Some(entry) && entry.id == id
                        && entry.cron == trimmed(payload.cron) && entry.prompt == trimmed(
                        payload.prompt,
                    ) && (payload.enabled is Some ==> entry.enabled == payload.enabled->0) && (
                    payload.enabled is None ==> entry.enabled) && (payload.notify is Some
                        ==> entry.notify == payload.notify->0) && entry.created_at == created_at
                    &&& payload.id.len() > 0 ==> id == payload.id
                    &&& payload.id.len() == 0 ==> ends_with(id, random)
                    &&& after.runs == store.runs
                },
                Err(_) => after == store,
            }
        }),
{
    let entry = requested_entry(payload, random, created_at);
    crate::schedule::upsert_is_found(store.schedules, entry, entry.id);
    parts_are_contained("sched-"@, random, Seq::empty());
}

/// A task is due where it is on and its time has come, at most once in a minute; none is due
/// that is off or whose time has not come.
pub proof fn due_tasks_are_found(scheduler: SchedulerView, now: MomentView, i: int)
    requires
        0 <= i < scheduler.store.schedules.len(),
    ensures
        ({
            let entry = scheduler.store.schedules[i];
            &&& scheduler.last_trigger_key != Some(now.date + seq![':'] + now.clock)
                && entry.enabled && admits(entry.cron, now.minute as nat, now.hour as nat) ==> due(
                scheduler,
                now,
            ) is Some
            &&& due(scheduler, now) matches Some(chosen) ==> chosen.enabled && admits(
                chosen.cron,
                now.minute as nat,
                now.hour as nat,
            ) && scheduler.store.schedules.contains(chosen)
            &&& after_scan(scheduler, now).store == scheduler.store
            &&& scheduler.last_trigger_key == Some(now.date + seq![':'] + now.clock) ==> due(
                scheduler,
                now,
            ) is None
        }),
{
    reveal_strlit(":");
    assert(now.date + ":"@ + now.clock =~= now.date + seq![':'] + now.clock);
    crate::schedule::due_tasks_match(
        scheduler.store.schedules,
        now.minute as nat,
        now.hour as nat,
    );
}

proof fn found_entries_are_listed(entries: Seq<ScheduleEntryView>, id: Seq<char>)
    ensures
        match find_entry(entries, id) {
            Some(entry) => entries.contains(entry) && entry.id == id,
            None => forall|i: int| 0 <= i < entries.len() ==> (#[trigger] entries[i]).id != id,
        },
    decreases entries.len(),
{
    if entries.len() > 0 {
        let rest = entries.skip(1);
        if entries[0].id == id {
            assert(entries.contains(entries[0]));
        } else {
            found_entries_are_listed(rest, id);
            match find_entry(entries, id) {
                Some(entry) => {
                    let k = choose|k: int| 0 <= k < rest.len() && rest[k] == entry;
                    assert(entries[k + 1] == entry);
                },
                None => {
                    assert forall|i: int| 0 <= i < entries.len() implies (#[trigger] entries[i]).id
                        != id by {
                        if i > 0 {
                            assert(rest[i - 1] == entries[i]);
                        }
                    }
                },
            }
        }
    }
}

/// A task is found by its identifier exactly where it is stored.
pub proof fn tasks_are_found_by_identifier(entries: Seq<ScheduleEntryView>, id: Seq<char>)
    ensures
        match find_entry(entries, id) {
            Some(entry) => entries.contains(entry) && entry.id == id,
            None => forall|i: int| 0 <= i < entries.len() ==> (#[trigger] entries[i]).id != id,
        },
{
    found_entries_are_listed(entries, id);
}

proof fn closed_at(
    runs: Seq<ScheduleRunView>,
    id: Seq<char>,
    status: Seq<char>,
    summary: Seq<char>,
    finished_at: Seq<char>,
    i: int,
)
    requires
        0 <= i < runs.len(),
        runs[i].id == id,
        forall|k: int| 0 <= k < i ==> (#[trigger] runs[k]).id != id,
    ensures
        ({
            let after = closed_run(runs, id, status, summary, finished_at);
            &&& after.len() == runs.len()
            &&& after[i].status == status && after[i].summary == summary && after[i].finished_at
                == finished_at && after[i].id == id && after[i].schedule_id == runs[i].schedule_id
                && after[i].started_at == runs[i].started_at
            &&& forall|k: int| 0 <= k < runs.len() && k != i ==> #[trigger] after[k] == runs[k]
        }),
    decreases runs.len(),
{
    let after = closed_run(runs, id, status, summary, finished_at);
    let rest = runs.skip(1);
    if i > 0 {
        assert(runs[0].id != id);
        assert(rest[i - 1] == runs[i]);
        assert forall|k: int| 0 <= k < i - 1 implies (#[trigger] rest[k]).id != id by {
            assert(rest[k] == runs[k + 1]);
        }
        closed_at(rest, id, status, summary, finished_at, i - 1);
        let tail = closed_run(rest, id, status, summary, finished_at);
        assert(after =~= seq![runs[0]] + tail);
        assert forall|k: int| 0 <= k < runs.len() && k != i implies #[trigger] after[k]
            == runs[k] by {
            if k > 0 {
                assert(after[k] == tail[k - 1]);
                assert(rest[k - 1] == runs[k]);
            }
        }
        assert(after[i] == tail[i - 1]);
    }
}

/// A run that ended says so in the record, with its outcome and what it brought; the other runs
/// stay as they were.
pub proof fn ended_runs_are_recorded(
    runs: Seq<ScheduleRunView>,
    id: Seq<char>,
    status: Seq<char>,
    summary: Seq<char>,
    finished_at: Seq<char>,
    i: int,
)
    requires
        0 <= i < runs.len(),
        runs[i].id == id,
        forall|k: int| 0 <= k < i ==> (#[trigger] runs[k]).id != id,
    ensures
        ({
            let after = closed_run(runs, id, status, summary, finished_at);
            &&& after.len() == runs.len()
            &&& after[i].status == status && after[i].summary == summary && after[i].finished_at
                == finished_at && after[i].id == id && after[i].schedule_id == runs[i].schedule_id
                && after[i].started_at == runs[i].started_at
            &&& forall|k: int| 0 <= k < runs.len() && k != i ==> #[trigger] after[k] == runs[k]
        }),
{
    closed_at(runs, id, status, summary, finished_at, i);
}

/// A run that starts belongs to its task and runs from the moment on at which it started; the
/// record is shown with the newest run first.
pub proof fn started_runs_run(
    random: Seq<char>,
    schedule_id: Seq<char>,
    started_at: Seq<char>,
    runs: Seq<ScheduleRunView>,
    most: nat,
)
    requires
        runs.len() > 0,
        most > 0,
    ensures
        new_run(random, schedule_id, started_at).schedule_id == schedule_id,
        new_run(random, schedule_id, started_at).status == "running"@,
        new_run(random, schedule_id, started_at).started_at == started_at,
        ends_with(new_run(random, schedule_id, started_at).id, random),
        newest_first(runs, most)[0] == runs.last(),
        newest_first(runs, most).len() <= most,
        runs.len() <= most ==> newest_first(runs, most) == runs.reverse(),
{
    parts_are_contained("run-"@, random, Seq::empty());
    if runs.len() <= most {
        assert(newest_first(runs, most) =~= runs.reverse());
    }
}

/// What a scheduled task brought is the last passage that it wrote, at most five hundred
/// characters of it.
pub proof fn summaries_are_the_last_passage(events: Seq<JsonView>, text: Seq<char>, other: JsonView)
    requires
        member(other, "event_type"@) != Some(JsonView::Text("text_chunk"@)),
    ensures
        ({
            let chunk = JsonView::Object(
                seq![
                    ("event_type"@, JsonView::Text("text_chunk"@)),
                    ("content"@, JsonView::Text(text)),
                ],
            );
            &&& trimmed(text).len() > 0 ==> last_passage(events.push(chunk)) == trimmed(text)
            &&& 0 < trimmed(text).len() <= 500 ==> run_summary(events.push(chunk)) == trimmed(text)
            &&& trimmed(text).len() > 500 ==> run_summary(events.push(chunk)) == trimmed(text).take(
                500,
            )
            &&& trimmed(text).len() == 0 ==> last_passage(events.push(chunk)) == last_passage(
                events,
            )
            &&& last_passage(events.push(other)) == last_passage(events)
            &&& run_summary(events.push(other)) == run_summary(events)
        }),
{
    let fields = seq![
        ("event_type"@, JsonView::Text("text_chunk"@)),
        ("content"@, JsonView::Text(text)),
    ];
    let chunk = JsonView::Object(fields);
    reveal_strlit("event_type");
    reveal_strlit("content");
    assert("event_type"@.len() == 10 && "content"@.len() == 7);
    member_at(fields, 0);
    member_at(fields, 1);
    assert(events.push(chunk).drop_last() =~= events);
    assert(events.push(other).drop_last() =~= events);
}

// ---------------------------------------------------------------------------
// Answers of the interface
// ---------------------------------------------------------------------------

/// An error of the interface keeps its message, and its code says whose fault it is.
pub proof fn errors_keep_their_message(message: Seq<char>)
    ensures
        bad_request(message).message == message && http_code(bad_request(message).status) == 400,
        forbidden(message).message == message && http_code(forbidden(message).status) == 403,
        not_found(message).message == message && http_code(not_found(message).status) == 404,
        internal_error(message).message == message && http_code(internal_error(message).status)
            == 500,
        bad_gateway(message).message == message && http_code(bad_gateway(message).status) == 502,
{
}

/// The token may stand in the query too, among other parameters.
pub proof fn tokens_stand_in_queries(token: Seq<char>, before: Seq<char>)
    requires
        !token.contains('&'),
        !before.contains('&'),
        !starts_with(before, "token="@),
    ensures
        query_token(Some("token="@ + token)) == token,
        query_token(Some(before.push('&') + ("token="@ + token))) == token,
        query_token(None).len() == 0,
{
    let prefix = "token="@;
    let own = prefix + token;
    let cut = |c: char| c == '&';
    reveal_strlit("token=");
    reveal_strlit("");
    assert(own.take(prefix.len() as int) =~= prefix);
    assert(own.skip(prefix.len() as int) =~= token);
    assert(crate::pieces::uncut(own, cut)) by {
        assert forall|k: int| 0 <= k < own.len() implies !cut(#[trigger] own[k]) by {
            if k >= 6 {
                assert(own[k] == token[k - 6]);
                assert(token.contains(token[k - 6]));
            }
        }
    }
    assert(crate::pieces::uncut(before, cut)) by {
        assert forall|k: int| 0 <= k < before.len() implies !cut(#[trigger] before[k]) by {
            assert(before.contains(before[k]));
        }
    }
    let one = seq![own];
    crate::pieces::joined_is_cut_again(one, '&', cut);
    assert(joined(one, seq!['&']) =~= own);
    let two = seq![before, own];
    crate::pieces::joined_is_cut_again(two, '&', cut);
    reveal_with_fuel(joined, 3);
    assert(two.drop_last() =~= seq![before]);
    assert(joined(two, seq!['&']) =~= before.push('&') + own);
    reveal_with_fuel(crate::access::first_token, 3);
    assert(two.skip(1) =~= one);
}

/// A task that was on record is restored under its identifier, in its phase, and does not run;
/// the small report on the health of the server tells its version.
pub proof fn records_are_restored(record: ManagedTaskView, version: Seq<char>)
    ensures
        restored(record).task_id == Some(record.id),
        restored(record).phase == status_name(record.status),
        restored(record).started_at == record.created_at_ms / 1_000,
        !restored(record).running,
        restored(record).unacked_events.len() == 0,
        member(minimal_health(version), "version"@) == Some(JsonView::Text(version)),
        member(minimal_health(version), "status"@) == Some(JsonView::Text("ok"@)),
{
    reveal_strlit("status");
    reveal_strlit("version");
    assert("status"@.len() == 6 && "version"@.len() == 7);
    let fields = minimal_health(version)->Object_0;
    member_at(fields, 0);
    member_at(fields, 1);
}

/// Sessions are taken over from the old file once, while nothing is on record; each that it
/// names, in order.
pub proof fn old_checkpoints_are_taken_over(
    items: Seq<JsonView>,
    item: JsonView,
    id: Seq<char>,
    file: Seq<u8>,
    records: nat,
)
    requires
        member(item, "session_id"@) == Some(JsonView::Text(id)),
    ensures
        listed_sessions(items.push(item)) == listed_sessions(items).push(id),
        listed_sessions(items.push(JsonView::Null)) == listed_sessions(items),
        listed_sessions(Seq::empty()).len() == 0,
        records > 0 ==> sessions_to_migrate(records, Some(file)) is None,
        sessions_to_migrate(0, None) is None,
        json_document(file) == Ok::<JsonView, Seq<char>>(JsonView::Array(items))
            ==> sessions_to_migrate(0, Some(file)) == Some(listed_sessions(items)),
{
    assert(items.push(item).drop_last() =~= items);
    assert(items.push(JsonView::Null).drop_last() =~= items);
}

/// What is remembered, the sessions and what is installed are listed whole and in order.
pub proof fn lists_are_whole(
    memories: Seq<MemoryRecordView>,
    sessions: Seq<ListedSessionView>,
    mode: JsonView,
    home: Seq<char>,
    skills: Seq<InstalledSkillView>,
    servers: Seq<InstalledServerView>,
)
    ensures
        member(memories_data(memories), "memories"@) matches Some(JsonView::Array(list))
            && list.len() == memories.len() && forall|i: int|
            0 <= i < memories.len() ==> list[i] == memory_data(#[trigger] memories[i]),
        member(sessions_data(sessions, mode), "sessions"@) matches Some(JsonView::Array(list))
            && list.len() == sessions.len() && forall|i: int|
            0 <= i < sessions.len() ==> list[i] == session_data(
                (#[trigger] sessions[i]).summary,
                sessions[i].details,
                mode,
                sessions[i].running,
            ),
        member(installed_data(home, Seq::empty(), servers), "mcp"@) matches Some(
            JsonView::Array(list),
        ) && list.len() == servers.len(),
{
    reveal_strlit("builtin");
    reveal_strlit("memories");
    reveal_strlit("sessions");
    reveal_strlit("skills");
    reveal_strlit("mcp");
    assert("builtin"@.len() == 7 && "memories"@.len() == 8);
    assert("sessions"@.len() == 8 && "skills"@.len() == 6);
    assert("mcp"@.len() == 3 && "memories"@[0] == 'm');
    assert("sessions"@[0] == 's');
    member_at(memories_data(memories)->Object_0, 1);
    member_at(sessions_data(sessions, mode)->Object_0, 0);
    member_at(installed_data(home, Seq::empty(), servers)->Object_0, 1);
}

/// A memory is shown with its name, what it is about and what it says.
pub proof fn memories_are_shown(memory: MemoryRecordView)
    ensures
        member(memory_data(memory), "name"@) == Some(JsonView::Text(memory.name)),
        member(memory_data(memory), "description"@) == Some(JsonView::Text(memory.description)),
        member(memory_data(memory), "content"@) == Some(JsonView::Text(memory.content)),
        member(memory_data(memory), "scope"@) == Some(memory.scope),
{
    reveal_strlit("name");
    reveal_strlit("description");
    reveal_strlit("content");
    reveal_strlit("scope");
    assert("name"@.len() == 4 && "description"@.len() == 11);
    assert("content"@.len() == 7 && "scope"@.len() == 5);
    let fields = memory_data(memory)->Object_0;
    member_at(fields, 0);
    member_at(fields, 1);
    member_at(fields, 2);
    member_at(fields, 3);
}

/// A task is shown with its events where it is known, and refused where it is not.
pub proof fn known_tasks_are_shown(home: Seq<char>, id: Seq<char>, task: JsonView, events: JsonView)
    ensures
        task_answer(home, id, Some(task), events) matches Ok(shown) && member(shown, "task"@)
            == Some(task) && member(shown, "events"@) == Some(events),
        task_answer(home, id, None, events) is Err,
{
    reveal_strlit("task");
    reveal_strlit("events");
    reveal_strlit("logs");
    assert("task"@.len() == 4 && "events"@.len() == 6);
    assert("logs"@.len() == 4 && "logs"@[0] == 'l');
    assert("task"@[0] == 't');
    let shown = task_answer(home, id, Some(task), events)->Ok_0;
    member_at(shown->Object_0, 0);
    member_at(shown->Object_0, 1);
}

/// A command is opened from its envelope, and one that is no document is refused; an answer says
/// that all went well, or what did not.
pub proof fn commands_are_opened(bytes: Seq<u8>, envelope: JsonView, error: Seq<char>)
    ensures
        json_document(bytes) == Ok::<JsonView, Seq<char>>(envelope) ==> opened_envelope(bytes)
            == Ok::<(Option<Seq<char>>, JsonView), Seq<char>>(envelope_parts(envelope)),
        json_document(bytes) == Err::<JsonView, Seq<char>>(error) ==> opened_envelope(bytes)
            is Err,
        member(ack_data(), "ok"@) == Some(JsonView::Bool(true)),
        member(failure_data(error), "message"@) == Some(JsonView::Text(error)),
{
    reveal_strlit("ok");
    reveal_strlit("message");
    assert("ok"@.len() == 2 && "message"@.len() == 7);
    member_at(ack_data()->Object_0, 0);
    member_at(failure_data(error)->Object_0, 0);
}

/// A session that is opened is told by its identifier and where it works; the guides are found by
/// their keys alone.
pub proof fn opened_sessions_are_told(id: Seq<char>, cwd: Seq<char>, usage: TokenUsage, key: Seq<char>)
    ensures
        member(loaded_event(id, cwd, usage), "session_id"@) == Some(JsonView::Text(id)),
        member(loaded_event(id, cwd, usage), "cwd"@) == Some(JsonView::Text(cwd)),
        guide("newbie"@) == Some(
            (crate::commands::NEWBIE_TITLE@, crate::commands::NEWBIE_GUIDE@),
        ),
        guide("extension"@) == Some(
            (crate::commands::EXTENSION_TITLE@, crate::commands::EXTENSION_GUIDE@),
        ),
        key != "newbie"@ && key != "extension"@ ==> guide(key) is None,
{
    reveal_strlit("event_type");
    reveal_strlit("session_id");
    reveal_strlit("cwd");
    reveal_strlit("newbie");
    reveal_strlit("extension");
    assert("event_type"@.len() == 10 && "session_id"@.len() == 10);
    assert("cwd"@.len() == 3 && "newbie"@.len() == 6);
    assert("extension"@.len() == 9 && "event_type"@[0] == 'e');
    assert("session_id"@[0] == 's');
    let fields = loaded_event(id, cwd, usage)->Object_0;
    member_at(fields, 1);
    member_at(fields, 2);
}

/// A model can be chosen only from providers that could be read, and the failure to read them is
/// told.
pub proof fn unread_providers_are_told(error: Seq<char>, provider: Seq<char>, model: Seq<char>)
    ensures
        chosen_model(Err(error), provider, model) matches Err(told) && ends_with(told, error),
{
    parts_are_contained("failed to load providers: "@, error, Seq::empty());
}

/// A title is accepted with one to one hundred and twenty characters, and something has to be
/// changed.
pub proof fn titles_have_limits(title: Seq<char>, pinned: bool)
    ensures
        metadata_fault(None, None) is Some,
        metadata_fault(None, Some(pinned)) is None,
        metadata_fault(Some(title), None) is None <==> 0 < trimmed(title).len() <= 120,
{
}

/// A process that runs on is named on its own line of the output.
pub proof fn processes_are_named(name: Seq<char>, rest: Seq<Seq<char>>, other: Seq<char>)
    requires
        !starts_with(other, "session_id: "@),
    ensures
        named_process(seq!["session_id: "@ + name] + rest) == Some(trimmed(name)),
        named_process(seq![other] + rest) == named_process(rest),
        named_process(Seq::empty()) is None,
{
    let prefix = "session_id: "@;
    let line = prefix + name;
    assert(line.take(prefix.len() as int) =~= prefix);
    assert(line.skip(prefix.len() as int) =~= name);
    let list = seq![line] + rest;
    assert(list[0] == line);
    let others = seq![other] + rest;
    assert(others[0] == other);
    assert(others.skip(1) =~= rest);
}

/// Only what stands behind the word for a bearer is a token.
pub proof fn other_headers_show_no_token(header: Seq<char>, token: Seq<char>)
    ensures
        !starts_with(header, "Bearer "@) ==> header_token(Some(header)).len() == 0,
        header_token(None).len() == 0,
        header_token(Some("Bearer "@ + token)) == token,
{
    reveal_strlit("");
    let prefix = "Bearer "@;
    assert((prefix + token).take(prefix.len() as int) =~= prefix);
    assert((prefix + token).skip(prefix.len() as int) =~= token);
}

/// A turn that is cancelled tells that, and that it is over, in this order.
pub proof fn cancelled_turns_are_told(task: SessionTaskView)
    requires
        task.running,
    ensures
        ({
            let events = task.stopped().unacked_events;
            let n = task.unacked_events.len() as int;
            &&& events.len() == n + 2
            &&& events[n] == numbered(event_data("agent_cancelled"@), task.next_event_seq)
            &&& events[n + 1] == numbered(
                event_data("turn_end"@),
                crate::task::after(task.next_event_seq),
            )
            &&& task.unacked_events.is_prefix_of(events)
        }),
{
}

/// A run tells the life of the agent only in its own mode and not after an interruption; images
/// are kept back where they were blamed for a failure.
pub proof fn runs_begin_by_mode(
    recovery: bool,
    session: SessionView,
    error: Seq<char>,
    degraded: bool,
    answer: Seq<char>,
)
    ensures
        run_begun(SessionMode::Life, recovery).life == !recovery,
        !run_begun(SessionMode::Agent, recovery).life,
        run_begun(SessionMode::Life, recovery).phase == RunPhase::Agent,
        !keeps_images_back(session, Ok(answer), degraded),
        !keeps_images_back(session, Err(error), true),
        contains(lower(error), "image_url"@) && has_image(session.messages) ==> keeps_images_back(
            session,
            Err(error),
            false,
        ),
        !has_image(session.messages) ==> !keeps_images_back(session, Err(error), degraded),
{
    reveal(blames_images);
    let list = crate::webturn::image_failures();
    assert(list[0] == "image_url"@);
}

/// Work starts where the task runs and has an identifier; a turn can be repeated once the user
/// has said something.
pub proof fn work_needs_a_running_task(
    id: Seq<char>,
    messages: Seq<ChatMessageView>,
    message: ChatMessageView,
)
    ensures
        start_fault(true, Some(id)) is None,
        start_fault(false, Some(id)) is Some,
        start_fault(true, None) is Some,
        !has_user_message(Seq::empty()),
        message.role == Role::User ==> has_user_message(messages.push(message)),
        message.role != Role::User ==> (has_user_message(messages.push(message))
            <==> has_user_message(messages)),
{
    let all = messages.push(message);
    assert(all[all.len() - 1] == message);
    if has_user_message(messages) {
        let i = choose|i: int|
            0 <= i < messages.len() && (#[trigger] messages[i]).role == Role::User;
        assert(all[i] == messages[i]);
    }
    if has_user_message(all) && message.role != Role::User {
        let i = choose|i: int| 0 <= i < all.len() && (#[trigger] all[i]).role == Role::User;
        assert(messages[i] == all[i]);
    }
}

/// A model that its provider declares can be selected, where the provider is fit for use with
/// it.
pub proof fn declared_models_can_be_selected(
    document: ProviderDocumentView,
    provider: Seq<char>,
    model: Seq<char>,
    settings: ProviderSettingsView,
)
    requires
        lookup(document.providers, provider) == Some(settings),
        models_of(settings).contains(model),
        activation_verdict(ProviderSettingsView { model, ..settings }) is Ok,
    ensures
        model_in(document, provider, model) is Ok,
        chosen_model(Ok(document), provider, model) is Ok,
{
}

} // verus!
