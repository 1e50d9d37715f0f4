//! What a client asks of a session over its connection.

use vstd::prelude::*;
use crate::catalog::given_values;
use crate::codec::json_document;
use crate::codec::parse_json;
use crate::json::Json;
use crate::json::JsonView;
use crate::json::array_view;
use crate::json::bool_of;
use crate::json::field_trees;
use crate::json::member;
use crate::json::object_view;
use crate::json::text_of;
use crate::json::texts_among;
use crate::json::u64_of;
use crate::json_ops::Fields;
use crate::json_ops::collect_texts;
use crate::observer::content_event;
use crate::observer::text_event;
use crate::overview::usage_totals;
use crate::provider::ProviderDocument;
use crate::provider::ProviderDocumentView;
use crate::provider::ProviderSettings;
use crate::provider::ProviderSettingsView;
use crate::provider::activation_verdict;
use crate::provider::models_of;
use crate::provider::provider_models;
use crate::provider::validate_provider_activation;
use crate::session::ChatMessage;
use crate::session::Session;
use crate::session::SessionView;
use crate::session::TokenUsage;
use crate::session::ToolCall;
use crate::session::assistant_message;
use crate::session::user_message;
use crate::settings::PermissionMode;
use crate::settings::is_effort;
use crate::settings::known_effort;
use crate::settings::mode_of;
use crate::settings::number_data;
use crate::table::duplicate_pairs;
use crate::table::lookup;
use crate::table::pairs_of;
use crate::table::put;
use crate::table::table_get;
use crate::table::table_put;
use crate::task::SessionTask;
use crate::task::SessionTaskView;
use crate::task::TaskStatus;
use crate::task::all_pushed;
use crate::task::event_data;
use crate::task::plain_event;
use crate::text::blank;
use crate::text::clone_texts;
use crate::text::contains;
use crate::text::has;
use crate::text::is_blank;
use crate::text::joined;
use crate::text::list_has;
use crate::text::lower;
use crate::text::same;
use crate::text::same_ignoring_case;
use crate::text::texts;
use crate::text::texts_empty;
use crate::text::texts_push;
use crate::text::to_lower;
use crate::text::trim;
use crate::text::trimmed;
use crate::views::Duplicate;
use crate::views::duplicate_opt;
use crate::views::opt;
use crate::views::views;
use crate::views::views_empty;
use crate::views::views_push;

verus! {

broadcast use {texts_push, texts_empty, views_push, views_empty, array_view, object_view};

/// What a session is for.
#[derive(Clone, Copy, Debug, PartialEq, Eq, Structural)]
pub enum SessionMode {
    Agent,
    Life,
}

/// What a turn was started for.
#[derive(Clone, Copy, Debug, PartialEq, Eq, Structural)]
pub enum TurnKind {
    Message,
    Compaction,
    Retry,
}

/// What a client has set for its connection.
#[derive(Debug)]
pub struct ConnectionState {
    pub permission: PermissionMode,
    pub plan_mode: bool,
    pub session_mode: SessionMode,
    pub selected_model: Option<String>,
    pub reasoning_effort: String,
    pub max_tool_rounds: usize,
    pub voice_broadcast: bool,
}

/// What a `ConnectionState` holds.
#[verifier::ext_equal]
pub struct ConnectionStateView {
    pub permission: PermissionMode,
    pub plan_mode: bool,
    pub session_mode: SessionMode,
    pub selected_model: Option<Seq<char>>,
    pub reasoning_effort: Seq<char>,
    pub max_tool_rounds: usize,
    pub voice_broadcast: bool,
}

impl View for ConnectionState {
    type V = ConnectionStateView;

    open spec fn view(&self) -> ConnectionStateView {
        ConnectionStateView {
            permission: self.permission,
            plan_mode: self.plan_mode,
            session_mode: self.session_mode,
            selected_model: opt(self.selected_model),
            reasoning_effort: self.reasoning_effort@,
            max_tool_rounds: self.max_tool_rounds,
            voice_broadcast: self.voice_broadcast,
        }
    }
}

impl Duplicate for ConnectionState {
    fn duplicate(&self) -> (result: Self) {
        ConnectionState {
            permission: self.permission,
            plan_mode: self.plan_mode,
            session_mode: self.session_mode,
            selected_model: duplicate_opt(&self.selected_model),
            reasoning_effort: self.reasoning_effort.clone(),
            max_tool_rounds: self.max_tool_rounds,
            voice_broadcast: self.voice_broadcast,
        }
    }
}

/// What a command comes to. Everything but a failure is confirmed to the client.
#[derive(Debug)]
pub enum CommandAction {
    /// Nothing more is to be done.
    Ack,
    /// The client is told what is wrong.
    Fail(String),
    /// The report of the memory is shown.
    ShowMemory,
    /// The history is summarised.
    StartCompaction,
    /// The client is told to set up a provider.
    Configure,
    /// A turn starts with a prompt.
    StartTurn(String),
    /// The turn that is running is stopped.
    Stop,
    /// A text joins the turn that is running.
    QueueInput(String),
    /// A call is decided on; where it waits, the decision is handed over.
    Approve { call_id: String, allow: bool, waiting: bool },
    /// A question is answered; where it waits, the answers are handed over.
    Answer { call_id: String, answers: Vec<(String, String)>, waiting: bool },
    /// Files were chosen.
    Files { request_id: String, paths: Vec<String>, waiting: bool },
    /// The permission mode is stored.
    SavePermission(PermissionMode),
    /// A model is to be used from now on.
    SelectModel { provider: String, model: String },
    /// A setting is stored.
    SaveSetting { key: String, value: Json, purpose: String },
    /// A guide is shown.
    SendGuide { title: String, body: String },
    /// The last turn is taken up again, with its recorded task where that still waits.
    Retry { reuse: bool },
}

/// What a `CommandAction` holds.
#[verifier::ext_equal]
pub enum CommandActionView {
    Ack,
    Fail(Seq<char>),
    ShowMemory,
    StartCompaction,
    Configure,
    StartTurn(Seq<char>),
    Stop,
    QueueInput(Seq<char>),
    Approve { call_id: Seq<char>, allow: bool, waiting: bool },
    Answer { call_id: Seq<char>, answers: Seq<(Seq<char>, Seq<char>)>, waiting: bool },
    Files { request_id: Seq<char>, paths: Seq<Seq<char>>, waiting: bool },
    SavePermission(PermissionMode),
    SelectModel { provider: Seq<char>, model: Seq<char> },
    SaveSetting { key: Seq<char>, value: JsonView, purpose: Seq<char> },
    SendGuide { title: Seq<char>, body: Seq<char> },
    Retry { reuse: bool },
}

impl View for CommandAction {
    type V = CommandActionView;

    open spec fn view(&self) -> CommandActionView {
        match *self {
            CommandAction::Ack => CommandActionView::Ack,
            CommandAction::Fail(a0) => CommandActionView::Fail(a0@),
            CommandAction::ShowMemory => CommandActionView::ShowMemory,
            CommandAction::StartCompaction => CommandActionView::StartCompaction,
            CommandAction::Configure => CommandActionView::Configure,
            CommandAction::StartTurn(a0) => CommandActionView::StartTurn(a0@),
            CommandAction::Stop => CommandActionView::Stop,
            CommandAction::QueueInput(a0) => CommandActionView::QueueInput(a0@),
            CommandAction::Approve { call_id, allow, waiting } => CommandActionView::Approve { call_id: call_id@, allow: allow, waiting: waiting },
            CommandAction::Answer { call_id, answers, waiting } => CommandActionView::Answer { call_id: call_id@, answers: pairs_of(answers@), waiting: waiting },
            CommandAction::Files { request_id, paths, waiting } => CommandActionView::Files { request_id: request_id@, paths: texts(paths@), waiting: waiting },
            CommandAction::SavePermission(a0) => CommandActionView::SavePermission(a0),
            CommandAction::SelectModel { provider, model } => CommandActionView::SelectModel { provider: provider@, model: model@ },
            CommandAction::SaveSetting { key, value, purpose } => CommandActionView::SaveSetting { key: key@, value: value@, purpose: purpose@ },
            CommandAction::SendGuide { title, body } => CommandActionView::SendGuide { title: title@, body: body@ },
            CommandAction::Retry { reuse } => CommandActionView::Retry { reuse: reuse },
        }
    }
}

impl Duplicate for CommandAction {
    fn duplicate(&self) -> (result: Self) {
        match self {
            CommandAction::Ack => CommandAction::Ack,
            CommandAction::Fail(a0) => CommandAction::Fail(a0.clone()),
            CommandAction::ShowMemory => CommandAction::ShowMemory,
            CommandAction::StartCompaction => CommandAction::StartCompaction,
            CommandAction::Configure => CommandAction::Configure,
            CommandAction::StartTurn(a0) => CommandAction::StartTurn(a0.clone()),
            CommandAction::Stop => CommandAction::Stop,
            CommandAction::QueueInput(a0) => CommandAction::QueueInput(a0.clone()),
            CommandAction::Approve { call_id, allow, waiting } => CommandAction::Approve { call_id: call_id.clone(), allow: *allow, waiting: *waiting },
            CommandAction::Answer { call_id, answers, waiting } => CommandAction::Answer { call_id: call_id.clone(), answers: duplicate_pairs(answers), waiting: *waiting },
            CommandAction::Files { request_id, paths, waiting } => CommandAction::Files { request_id: request_id.clone(), paths: clone_texts(paths), waiting: *waiting },
            CommandAction::SavePermission(a0) => CommandAction::SavePermission(*a0),
            CommandAction::SelectModel { provider, model } => CommandAction::SelectModel { provider: provider.clone(), model: model.clone() },
            CommandAction::SaveSetting { key, value, purpose } => CommandAction::SaveSetting { key: key.clone(), value: value.duplicate(), purpose: purpose.clone() },
            CommandAction::SendGuide { title, body } => CommandAction::SendGuide { title: title.clone(), body: body.clone() },
            CommandAction::Retry { reuse } => CommandAction::Retry { reuse: *reuse },
        }
    }
}

// ---------------------------------------------------------------------------
// Messages
// ---------------------------------------------------------------------------

/// A text of a command, or the empty text.
pub open spec fn given_text(payload: JsonView, key: Seq<char>) -> Seq<char> {
    match text_of(member(payload, key)) {
        Some(text) => text,
        None => ""@,
    }
}

fn read_text(payload: &Json, key: &str) -> (result: String)
    ensures
        result@ == given_text(payload@, key@),
{
    match payload.text_member(key) {
        Some(text) => text,
        None => "".to_owned(),
    }
}

/// A prompt as it is sent to the model.
pub open spec fn sent_prompt(prompt: Seq<char>, planning: bool) -> Seq<char> {
    if planning {
        "Work in planning mode. Inspect the project and return an actionable plan before making changes.\n\n"@
            + prompt
    } else {
        prompt
    }
}

/// What a message comes to.
pub open spec fn message_action(
    context: ConnectionStateView,
    running: bool,
    prompt: Seq<char>,
    ready: bool,
) -> CommandActionView {
    if prompt.len() == 0 {
        CommandActionView::Fail("message text is required"@)
    } else if lower(prompt) == lower("/memory"@) {
        CommandActionView::ShowMemory
    } else if lower(prompt) == lower("/compact"@) {
        if running {
            CommandActionView::Fail("a turn is already running"@)
        } else {
            CommandActionView::StartCompaction
        }
    } else if !ready {
        CommandActionView::Configure
    } else if running {
        CommandActionView::Fail("a turn is already running"@)
    } else {
        CommandActionView::StartTurn(sent_prompt(prompt, context.plan_mode))
    }
}

/// The task after a message: a turn that starts runs.
pub open spec fn task_after_message(task: SessionTaskView, action: CommandActionView)
    -> SessionTaskView {
    match action {
        CommandActionView::StartCompaction => SessionTaskView { running: true, ..task },
        CommandActionView::StartTurn(_) => SessionTaskView { running: true, ..task },
        CommandActionView::Retry { .. } => SessionTaskView { running: true, ..task },
        _ => task,
    }
}

fn send_message(
    context: &ConnectionState,
    task: &mut SessionTask,
    payload: &Json,
    ready: bool,
) -> (action: CommandAction)
    ensures
        action@ == message_action(
            context@,
            old(task)@.running,
            trimmed(given_text(payload@, "text"@)),
            ready,
        ),
        final(task)@ == task_after_message(old(task)@, action@),
{
    let prompt = trim(&read_text(payload, "text"));
    if prompt.as_str().is_empty() {
        return CommandAction::Fail("message text is required".to_owned());
    }
    if same_ignoring_case(&prompt, "/memory") {
        return CommandAction::ShowMemory;
    }
    if same_ignoring_case(&prompt, "/compact") {
        if task.running {
            return CommandAction::Fail("a turn is already running".to_owned());
        }
        task.running = true;
        return CommandAction::StartCompaction;
    }
    if !ready {
        return CommandAction::Configure;
    }
    if task.running {
        return CommandAction::Fail("a turn is already running".to_owned());
    }
    task.running = true;
    if context.plan_mode {
        let mut text =
            "Work in planning mode. Inspect the project and return an actionable plan before making changes.\n\n".to_owned();
        text.push_str(&prompt);
        return CommandAction::StartTurn(text);
    }
    CommandAction::StartTurn(prompt)
}

// ---------------------------------------------------------------------------
// Answers
// ---------------------------------------------------------------------------

/// A list without a text.
pub open spec fn removed(list: Seq<Seq<char>>, text: Seq<char>) -> Seq<Seq<char>>
    decreases list.len(),
{
    if list.len() == 0 {
        Seq::empty()
    } else if list.last() == text {
        removed(list.drop_last(), text)
    } else {
        removed(list.drop_last(), text).push(list.last())
    }
}

/// Removes a text from a list.
pub fn remove_text(list: &Vec<String>, text: &str) -> (result: Vec<String>)
    ensures
        texts(result@) == removed(texts(list@), text@),
{
    let ghost all = texts(list@);
    let mut kept: Vec<String> = Vec::new();
    let mut i: usize = 0;
    while i < list.len()
        invariant
            i <= list@.len(),
            all == texts(list@),
            texts(kept@) == removed(all.take(i as int), text@),
        decreases list@.len() - i,
    {
        let ghost part = all.take(i + 1);
        assert(part.drop_last() =~= all.take(i as int));
        assert(part.last() == list@[i as int]@);
        if !same(&list[i], text) {
            kept.push(list[i].clone());
        }
        i = i + 1;
    }
    assert(all.take(i as int) =~= all);
    kept
}

/// Whether a decision allows a call.
pub open spec fn allows(decision: Option<Seq<char>>) -> bool {
    decision == Some("allow"@) || decision == Some("always"@)
}

/// The answers that a command gives.
pub open spec fn given_answers(payload: JsonView) -> Seq<(Seq<char>, Seq<char>)> {
    match member(payload, "answers"@) {
        Some(JsonView::Object(fields)) => given_values(fields),
        _ => Seq::empty(),
    }
}

/// The paths that a command gives.
pub open spec fn given_paths(payload: JsonView) -> Seq<Seq<char>> {
    match member(payload, "paths"@) {
        Some(JsonView::Array(items)) => texts_among(items),
        _ => Seq::empty(),
    }
}

fn approve_tool(task: &mut SessionTask, payload: &Json) -> (action: CommandAction)
    ensures
        ({
            let id = given_text(payload@, "call_id"@);
            &&& action@ == CommandActionView::Approve {
                call_id: id,
                allow: allows(text_of(member(payload@, "decision"@))),
                waiting: old(task)@.approvals.contains(id),
            }
            &&& final(task)@ == (SessionTaskView {
                approvals: removed(old(task)@.approvals, id),
                ..old(task)@
            })
        }),
{
    let call_id = read_text(payload, "call_id");
    let allow = match payload.text_member("decision") {
        Some(decision) => same(&decision, "allow") || same(&decision, "always"),
        None => false,
    };
    let waiting = list_has(&task.approvals, &call_id);
    task.approvals = remove_text(&task.approvals, &call_id);
    CommandAction::Approve { call_id, allow, waiting }
}

fn read_answers(payload: &Json) -> (result: Vec<(String, String)>)
    ensures
        pairs_of(result@) == given_answers(payload@),
{
    let mut answers: Vec<(String, String)> = Vec::new();
    assert(pairs_of(answers@) =~= Seq::empty());
    match payload.get("answers") {
        Some(Json::Object(fields)) => {
            let ghost all = field_trees(fields@);
            let mut i: usize = 0;
            assert(all.take(0) =~= Seq::empty());
            while i < fields.len()
                invariant
                    i <= fields@.len(),
                    all == field_trees(fields@),
                    pairs_of(answers@) == given_values(all.take(i as int)),
                decreases fields@.len() - i,
            {
                let ghost part = all.take(i + 1);
                assert(part.drop_last() =~= all.take(i as int));
                assert(part.last() == (fields@[i as int].0@, fields@[i as int].1@));
                let value = match &fields[i].1 {
                    Json::Text(text) => text.clone(),
                    _ => "".to_owned(),
                };
                table_put(&mut answers, fields[i].0.clone(), value);
                i = i + 1;
            }
            assert(all.take(i as int) =~= all);
        },
        _ => {},
    }
    answers
}

fn answer_question(task: &mut SessionTask, payload: &Json) -> (action: CommandAction)
    ensures
        ({
            let id = given_text(payload@, "call_id"@);
            &&& action@ == CommandActionView::Answer {
                call_id: id,
                answers: given_answers(payload@),
                waiting: old(task)@.questions.contains(id),
            }
            &&& final(task)@ == (SessionTaskView {
                questions: removed(old(task)@.questions, id),
                ..old(task)@
            })
        }),
{
    let call_id = read_text(payload, "call_id");
    let answers = read_answers(payload);
    let waiting = list_has(&task.questions, &call_id);
    task.questions = remove_text(&task.questions, &call_id);
    CommandAction::Answer { call_id, answers, waiting }
}

fn read_paths(payload: &Json) -> (result: Vec<String>)
    ensures
        texts(result@) == given_paths(payload@),
{
    match payload.get("paths") {
        Some(Json::Array(items)) => collect_texts(items),
        _ => Vec::new(),
    }
}

fn take_files(task: &mut SessionTask, payload: &Json) -> (action: CommandAction)
    ensures
        ({
            let id = given_text(payload@, "request_id"@);
            &&& action@ == CommandActionView::Files {
                request_id: id,
                paths: given_paths(payload@),
                waiting: old(task)@.file_requests.contains(id),
            }
            &&& final(task)@ == (SessionTaskView {
                file_requests: removed(old(task)@.file_requests, id),
                ..old(task)@
            })
        }),
{
    let request_id = read_text(payload, "request_id");
    let waiting = list_has(&task.file_requests, &request_id);
    task.file_requests = remove_text(&task.file_requests, &request_id);
    CommandAction::Files { request_id, paths: read_paths(payload), waiting }
}

// ---------------------------------------------------------------------------
// Settings
// ---------------------------------------------------------------------------

/// The mode that a command names.
pub open spec fn named_mode(name: Option<Seq<char>>) -> Option<SessionMode> {
    if name == Some("agent"@) {
        Some(SessionMode::Agent)
    } else if name == Some("life"@) {
        Some(SessionMode::Life)
    } else {
        None
    }
}

fn read_mode(payload: &Json) -> (result: Option<SessionMode>)
    ensures
        result == named_mode(text_of(member(payload@, "mode"@))),
{
    match payload.text_member("mode") {
        Some(name) => if same(&name, "agent") {
            Some(SessionMode::Agent)
        } else if same(&name, "life") {
            Some(SessionMode::Life)
        } else {
            None
        },
        None => None,
    }
}

fn read_permission(payload: &Json) -> (result: PermissionMode)
    ensures
        result == mode_of(text_of(member(payload@, "mode"@))),
{
    match payload.text_member("mode") {
        Some(name) => if same(&name, "auto") {
            PermissionMode::Auto
        } else if same(&name, "full") {
            PermissionMode::Full
        } else {
            PermissionMode::Ask
        },
        None => PermissionMode::Ask,
    }
}

/// The number of rounds that a command gives.
pub open spec fn given_rounds(payload: JsonView) -> nat {
    match u64_of(member(payload, "rounds"@)) {
        Some(rounds) => rounds,
        None => 192,
    }
}

/// Whether a command switches something on.
pub open spec fn given_switch(payload: JsonView) -> bool {
    bool_of(member(payload, "enabled"@)) == Some(true)
}

/// The guide with a key.
pub open spec fn guide(key: Seq<char>) -> Option<(Seq<char>, Seq<char>)> {
    if key == "newbie"@ {
        Some((NEWBIE_TITLE@, NEWBIE_GUIDE@))
    } else if key == "extension"@ {
        Some((EXTENSION_TITLE@, EXTENSION_GUIDE@))
    } else {
        None
    }
}

/// The title of the guide for beginners.
pub const NEWBIE_TITLE: &'static str = "Coomi 新手使用指南";

/// The guide for beginners.
pub const NEWBIE_GUIDE: &'static str = "欢迎使用 Coomi！我是运行在**你手机本地 Linux 环境**里的智能体，不是网页聊天框：\n\n- **真实执行**：我可以直接读写手机文件、跑命令、装环境、调用接口——不是只会“建议”。\n- **三种模式**：快速（读写自动放行）、计划（先给方案再动手）、谨慎（每次写入都问你），在空态上方切换。\n- **联网能力**：搜索用 web_search，读网页用 fetch，下载文件 / 调 API 可用 shell / curl / wget。\n- **文件交互**：需要你手机里的文件时说一声，会弹出系统选择器；做好的成果（如 APK）可直接导出。\n- **技能（Skills）**：内置 explore / review / research 等技能，在「技能市场」还能安装更多，按需自动加载。\n\n**开始吧**：直接告诉我想做什么，比如“整理我的下载目录”或“看看这个 GitHub 项目”。";

/// The title of the guide to extensions.
pub const EXTENSION_TITLE: &'static str = "自定义拓展进化指南";

/// The guide to extensions.
pub const EXTENSION_GUIDE: &'static str = "Coomi 支持通过 **MCP 服务器** 和 **技能（Skills）** 两大机制进行拓展升级，把能力边界延伸到你想用的任何工具。\n\n**一、MCP 服务器 —— 接入外部工具**\n在「SKILL / MCP 管理 → 仓库」里一键安装现成的 MCP，例如：\n- **filesystem**：更强的文件读写\n- **git**：仓库操作\n- **github**：GitHub 仓库 / Issue / PR\n- **playwright**：自动化浏览器操作\n安装后我就能直接调用这些能力完成任务。\n\n**二、技能（Skills）—— 自定义能力包**\n技能 = 一个目录 + SKILL.md 指令，按需加载。你可以：\n- 让我帮你写一个专属技能（把「怎么做一件事」沉淀成可复用步骤）\n- 从技能市场安装社区技能\n- Coomi 已内置 explore / review / research 等技能\n\n**三、可拓展的典型场景**\n- 🎨 **图像生成**：配置支持生图的 MCP，对我说「画一张…」\n- 👁 **图像理解**：配置视觉模型或识图 MCP，让我看懂图片内容\n- ⚡ **快捷启动软件**：写一个「启动 XX」技能，以后一句话就帮你打开\n- 🔍 **自动化任务**：定时/批量任务、网页抓取、数据整理\n- 🌐 **更多 API 接入**：任何有 HTTP 接口的服务都能通过 MCP 接入\n\n**四、怎么开始**\n直接告诉我你想拓展的方向，比如「我想让 Coomi 能生成图片」或「帮我写个一键整理下载目录的技能」，我会带你一步步配置完成。\n\n之后随时可以继续问：装完怎么用、出错了怎么办、怎么自定义一个技能。";

fn send_guide(payload: &Json) -> (action: CommandAction)
    ensures
        action@ == match guide(given_text(payload@, "key"@)) {
            Some((title, body)) => CommandActionView::SendGuide { title, body },
            None => CommandActionView::Fail("unknown guide key"@),
        },
{
    let key = read_text(payload, "key");
    if same(&key, "newbie") {
        return CommandAction::SendGuide {
            title: NEWBIE_TITLE.to_owned(),
            body: NEWBIE_GUIDE.to_owned(),
        };
    }
    if same(&key, "extension") {
        return CommandAction::SendGuide {
            title: EXTENSION_TITLE.to_owned(),
            body: EXTENSION_GUIDE.to_owned(),
        };
    }
    CommandAction::Fail("unknown guide key".to_owned())
}

// ---------------------------------------------------------------------------
// Commands
// ---------------------------------------------------------------------------

/// What a command leaves behind and comes to.
pub struct CommandOutcome {
    pub context: ConnectionStateView,
    pub task: SessionTaskView,
    pub action: CommandActionView,
}

/// A command that changes nothing.
pub open spec fn unchanged(
    context: ConnectionStateView,
    task: SessionTaskView,
    action: CommandActionView,
) -> CommandOutcome {
    CommandOutcome { context, task, action }
}

/// What a command about the turn comes to, where it is one.
#[verifier::opaque]
pub open spec fn turn_command(
    context: ConnectionStateView,
    task: SessionTaskView,
    payload: JsonView,
    ready: bool,
    record: Option<TaskStatus>,
) -> Option<CommandOutcome> {
    let command = given_text(payload, "command"@);
    if command == "send_message"@ {
        let action = message_action(
            context,
            task.running,
            trimmed(given_text(payload, "text"@)),
            ready,
        );
        Some(CommandOutcome { context, task: task_after_message(task, action), action })
    } else if command == "cancel"@ {
        Some(unchanged(context, task.stopped(), CommandActionView::Stop))
    } else if command == "ack_event"@ {
        let number = match u64_of(member(payload, "event_seq"@)) {
            Some(n) => n,
            None => 0,
        };
        Some(unchanged(context, task.acknowledged(number), CommandActionView::Ack))
    } else if command == "jump_in"@ {
        let text = given_text(payload, "text"@);
        Some(
            unchanged(
                context,
                task,
                if is_blank(text) {
                    CommandActionView::Ack
                } else {
                    CommandActionView::QueueInput(text)
                },
            ),
        )
    } else if command == "approve_tool"@ {
        let id = given_text(payload, "call_id"@);
        Some(
            unchanged(
                context,
                SessionTaskView { approvals: removed(task.approvals, id), ..task },
                CommandActionView::Approve {
                    call_id: id,
                    allow: allows(text_of(member(payload, "decision"@))),
                    waiting: task.approvals.contains(id),
                },
            ),
        )
    } else if command == "answer_question"@ {
        let id = given_text(payload, "call_id"@);
        Some(
            unchanged(
                context,
                SessionTaskView { questions: removed(task.questions, id), ..task },
                CommandActionView::Answer {
                    call_id: id,
                    answers: given_answers(payload),
                    waiting: task.questions.contains(id),
                },
            ),
        )
    } else if command == "file_transfer_result"@ {
        let id = given_text(payload, "request_id"@);
        Some(
            unchanged(
                context,
                SessionTaskView { file_requests: removed(task.file_requests, id), ..task },
                CommandActionView::Files {
                    request_id: id,
                    paths: given_paths(payload),
                    waiting: task.file_requests.contains(id),
                },
            ),
        )
    } else if command == "send_guide"@ {
        Some(
            unchanged(
                context,
                task,
                match guide(given_text(payload, "key"@)) {
                    Some((title, body)) => CommandActionView::SendGuide { title, body },
                    None => CommandActionView::Fail("unknown guide key"@),
                },
            ),
        )
    } else if command == "retry_turn"@ {
        Some(
            if task.running {
                unchanged(
                    context,
                    task,
                    CommandActionView::Fail("a turn is already running"@),
                )
            } else {
                CommandOutcome {
                    context,
                    task: SessionTaskView { running: true, ..task },
                    action: CommandActionView::Retry {
                        reuse: task.task_id is Some && record == Some(TaskStatus::Queued),
                    },
                }
            },
        )
    } else {
        None
    }
}

/// What a command about the connection comes to.
#[verifier::opaque]
pub open spec fn setting_command(context: ConnectionStateView, payload: JsonView) -> (
    ConnectionStateView,
    CommandActionView,
) {
    let command = given_text(payload, "command"@);
    if command == "set_permission_mode"@ {
        let mode = mode_of(text_of(member(payload, "mode"@)));
        (
            ConnectionStateView { permission: mode, ..context },
            CommandActionView::SavePermission(mode),
        )
    } else if command == "enter_plan_mode"@ {
        (ConnectionStateView { plan_mode: true, ..context }, CommandActionView::Ack)
    } else if command == "exit_plan_mode"@ {
        (ConnectionStateView { plan_mode: false, ..context }, CommandActionView::Ack)
    } else if command == "set_session_mode"@ {
        match named_mode(text_of(member(payload, "mode"@))) {
            Some(mode) => (
                ConnectionStateView { session_mode: mode, ..context },
                CommandActionView::Ack,
            ),
            None => (context, CommandActionView::Fail("invalid session mode"@)),
        }
    } else if command == "select_model"@ {
        let provider = given_text(payload, "provider_id"@);
        let model = given_text(payload, "model"@);
        if provider.len() == 0 || model.len() == 0 {
            (context, CommandActionView::Fail("provider_id and model are required"@))
        } else {
            (context, CommandActionView::SelectModel { provider, model })
        }
    } else if command == "set_reasoning_effort"@ {
        let effort = given_text(payload, "effort"@);
        if !is_effort(effort) {
            (context, CommandActionView::Fail("invalid reasoning effort"@))
        } else {
            (
                ConnectionStateView { reasoning_effort: effort, ..context },
                CommandActionView::SaveSetting {
                    key: "reasoning_effort"@,
                    value: JsonView::Text(effort),
                    purpose: "reasoning effort"@,
                },
            )
        }
    } else if command == "set_max_tool_rounds"@ {
        let rounds = given_rounds(payload);
        if rounds < 1 || rounds > 512 {
            (context, CommandActionView::Fail("tool rounds must be between 1 and 512"@))
        } else {
            (
                ConnectionStateView { max_tool_rounds: rounds as usize, ..context },
                CommandActionView::SaveSetting {
                    key: "max_tool_rounds"@,
                    value: number_data(rounds),
                    purpose: "tool rounds"@,
                },
            )
        }
    } else if command == "set_voice_broadcast"@ {
        let enabled = given_switch(payload);
        (
            ConnectionStateView { voice_broadcast: enabled, ..context },
            CommandActionView::SaveSetting {
                key: "voice_broadcast"@,
                value: JsonView::Bool(enabled),
                purpose: "voice broadcast"@,
            },
        )
    } else {
        (context, CommandActionView::Fail("unsupported command: "@ + command))
    }
}

/// What a command comes to.
pub open spec fn commanded(
    context: ConnectionStateView,
    task: SessionTaskView,
    payload: JsonView,
    ready: bool,
    record: Option<TaskStatus>,
) -> CommandOutcome {
    match turn_command(context, task, payload, ready, record) {
        Some(outcome) => outcome,
        None => {
            let (after, action) = setting_command(context, payload);
            CommandOutcome { context: after, task, action }
        },
    }
}

fn handle_turn_command(
    context: &ConnectionState,
    task: &mut SessionTask,
    payload: &Json,
    ready: bool,
    record: Option<TaskStatus>,
) -> (result: Option<CommandAction>)
    ensures
        match turn_command(context@, old(task)@, payload@, ready, record) {
            Some(outcome) => result is Some && result->0@ == outcome.action && final(task)@
                == outcome.task && outcome.context == context@,
            None => result is None && final(task)@ == old(task)@,
        },
{
    proof {
        reveal(turn_command);
    }
    let command = read_text(payload, "command");
    if same(&command, "send_message") {
        return Some(send_message(context, task, payload, ready));
    }
    if same(&command, "cancel") {
        task.stop();
        return Some(CommandAction::Stop);
    }
    if same(&command, "ack_event") {
        let number: u64 = match payload.u64_member("event_seq") {
            Some(number) => number,
            None => 0,
        };
        task.acknowledge_through(number);
        return Some(CommandAction::Ack);
    }
    if same(&command, "jump_in") {
        let text = read_text(payload, "text");
        if blank(&text) {
            return Some(CommandAction::Ack);
        }
        return Some(CommandAction::QueueInput(text));
    }
    if same(&command, "approve_tool") {
        return Some(approve_tool(task, payload));
    }
    if same(&command, "answer_question") {
        return Some(answer_question(task, payload));
    }
    if same(&command, "file_transfer_result") {
        return Some(take_files(task, payload));
    }
    if same(&command, "send_guide") {
        return Some(send_guide(payload));
    }
    if same(&command, "retry_turn") {
        if task.running {
            return Some(CommandAction::Fail("a turn is already running".to_owned()));
        }
        task.running = true;
        let queued = match record {
            Some(status) => status == TaskStatus::Queued,
            None => false,
        };
        return Some(CommandAction::Retry { reuse: task.task_id.is_some() && queued });
    }
    None
}

fn handle_setting_command(context: &mut ConnectionState, payload: &Json) -> (action: CommandAction)
    ensures
        final(context)@ == setting_command(old(context)@, payload@).0,
        action@ == setting_command(old(context)@, payload@).1,
{
    proof {
        reveal(setting_command);
    }
    let command = read_text(payload, "command");
    if same(&command, "set_permission_mode") {
        let mode = read_permission(payload);
        context.permission = mode;
        return CommandAction::SavePermission(mode);
    }
    if same(&command, "enter_plan_mode") {
        context.plan_mode = true;
        return CommandAction::Ack;
    }
    if same(&command, "exit_plan_mode") {
        context.plan_mode = false;
        return CommandAction::Ack;
    }
    if same(&command, "set_session_mode") {
        return match read_mode(payload) {
            Some(mode) => {
                context.session_mode = mode;
                CommandAction::Ack
            },
            None => CommandAction::Fail("invalid session mode".to_owned()),
        };
    }
    if same(&command, "select_model") {
        let provider = read_text(payload, "provider_id");
        let model = read_text(payload, "model");
        if provider.as_str().is_empty() || model.as_str().is_empty() {
            return CommandAction::Fail("provider_id and model are required".to_owned());
        }
        return CommandAction::SelectModel { provider, model };
    }
    if same(&command, "set_reasoning_effort") {
        let effort = read_text(payload, "effort");
        if !known_effort(&effort) {
            return CommandAction::Fail("invalid reasoning effort".to_owned());
        }
        context.reasoning_effort = effort.clone();
        return CommandAction::SaveSetting {
            key: "reasoning_effort".to_owned(),
            value: Json::Text(effort),
            purpose: "reasoning effort".to_owned(),
        };
    }
    if same(&command, "set_max_tool_rounds") {
        let rounds: u64 = match payload.u64_member("rounds") {
            Some(rounds) => rounds,
            None => 192,
        };
        if rounds < 1 || rounds > 512 {
            return CommandAction::Fail("tool rounds must be between 1 and 512".to_owned());
        }
        context.max_tool_rounds = rounds as usize;
        return CommandAction::SaveSetting {
            key: "max_tool_rounds".to_owned(),
            value: Json::number(rounds),
            purpose: "tool rounds".to_owned(),
        };
    }
    if same(&command, "set_voice_broadcast") {
        let enabled = match payload.bool_member("enabled") {
            Some(enabled) => enabled,
            None => false,
        };
        context.voice_broadcast = enabled;
        return CommandAction::SaveSetting {
            key: "voice_broadcast".to_owned(),
            value: Json::Bool(enabled),
            purpose: "voice broadcast".to_owned(),
        };
    }
    CommandAction::Fail("unsupported command: ".to_owned().concat(&command))
}

/// Decides on a command. `ready` tells whether a provider is set up, `record` is the state of
/// the recorded task of the session.
pub fn handle_command(
    context: &mut ConnectionState,
    task: &mut SessionTask,
    payload: &Json,
    ready: bool,
    record: Option<TaskStatus>,
) -> (action: CommandAction)
    ensures
        ({
            let outcome = commanded(old(context)@, old(task)@, payload@, ready, record);
            &&& final(context)@ == outcome.context
            &&& final(task)@ == outcome.task
            &&& action@ == outcome.action
        }),
{
    match handle_turn_command(context, task, payload, ready, record) {
        Some(action) => action,
        None => handle_setting_command(context, payload),
    }
}

/// What the client is told where a setting could not be stored.
pub fn setting_failure(purpose: &str, message: &str) -> (result: String)
    ensures
        result@ == "failed to persist "@ + purpose@ + ": "@ + message@,
{
    let mut text = "failed to persist ".to_owned();
    text.push_str(purpose);
    text.push_str(": ");
    text.push_str(message);
    text
}

/// The provider with the model that a command chooses, or what is wrong. `loaded` is the
/// document of the providers, or why it could not be read.
pub open spec fn chosen_model(
    loaded: Result<ProviderDocumentView, Seq<char>>,
    provider: Seq<char>,
    model: Seq<char>,
) -> Result<ProviderSettingsView, Seq<char>> {
    match loaded {
        Err(error) => Err("failed to load providers: "@ + error),
        Ok(document) => model_in(document, provider, model),
    }
}

/// The provider with a model, where it declares the model and can be used with it, or what is
/// wrong.
pub open spec fn model_in(
    document: ProviderDocumentView,
    provider: Seq<char>,
    model: Seq<char>,
) -> Result<ProviderSettingsView, Seq<char>> {
    match lookup(document.providers, provider) {
        None => Err("provider not found"@),
        Some(settings) => if !models_of(settings).contains(model) {
            Err("model is not declared for this provider"@)
        } else {
            let candidate = ProviderSettingsView { model, ..settings };
            match activation_verdict(candidate) {
                Ok(_) => Ok(candidate),
                Err(error) => Err(error.message),
            }
        },
    }
}

/// A document of the providers or why it could not be read, as its view.
pub open spec fn document_of(loaded: Result<ProviderDocument, String>) -> Result<
    ProviderDocumentView,
    Seq<char>,
> {
    match loaded {
        Ok(document) => Ok(document@),
        Err(error) => Err(error@),
    }
}

/// Finds and checks the provider with the model that a command chooses. Its credentials are
/// still to be tried.
pub fn choose_model(loaded: &Result<ProviderDocument, String>, provider: &str, model: &str) -> (result:
    Result<ProviderSettings, String>)
    ensures
        match result {
            Ok(settings) => chosen_model(document_of(*loaded), provider@, model@) == Ok::<
                ProviderSettingsView,
                Seq<char>,
            >(settings@),
            Err(message) => chosen_model(document_of(*loaded), provider@, model@) == Err::<
                ProviderSettingsView,
                Seq<char>,
            >(message@),
        },
{
    let document = match loaded {
        Ok(document) => document,
        Err(error) => {
            return Err("failed to load providers: ".to_owned().concat(error));
        },
    };
    match table_get(&document.providers, provider) {
        None => Err("provider not found".to_owned()),
        Some(settings) => {
            if !list_has(&provider_models(settings), model) {
                return Err("model is not declared for this provider".to_owned());
            }
            let mut candidate = settings.duplicate();
            candidate.model = model.to_owned();
            match validate_provider_activation(&candidate) {
                Ok(_) => Ok(candidate),
                Err(error) => Err(error.message),
            }
        },
    }
}

/// The document with a checked model in use.
pub open spec fn with_active_model(
    document: ProviderDocumentView,
    provider: Seq<char>,
    settings: ProviderSettingsView,
) -> ProviderDocumentView {
    ProviderDocumentView {
        active: provider,
        providers: put(document.providers, provider, settings),
    }
}

/// Writes a checked model to the document. The connection uses it once the document is saved.
pub fn commit_model(document: &mut ProviderDocument, provider: &str, settings: ProviderSettings)
    ensures
        final(document)@ == with_active_model(old(document)@, provider@, settings@),
{
    document.active = provider.to_owned();
    table_put(&mut document.providers, provider.to_owned(), settings);
}

/// The connection after the document with a chosen model was saved, or not.
pub open spec fn model_committed(
    context: ConnectionStateView,
    provider: Seq<char>,
    model: Seq<char>,
    saved: bool,
) -> ConnectionStateView {
    if saved {
        ConnectionStateView { selected_model: Some(provider + ":"@ + model), ..context }
    } else {
        context
    }
}

/// Takes the outcome of saving the document with a chosen model: from then on the connection
/// uses the model. Where it was not saved, the connection keeps its choice and the client is
/// told why.
pub fn model_saved(
    context: &mut ConnectionState,
    provider: &str,
    model: &str,
    saved: Result<(), String>,
) -> (result: Result<(), String>)
    ensures
        final(context)@ == model_committed(old(context)@, provider@, model@, saved is Ok),
        match saved {
            Ok(_) => result is Ok,
            Err(error) => result is Err && result->Err_0@ == "failed to persist model: "@ + error@,
        },
{
    match saved {
        Ok(_) => {
            let mut selector = provider.to_owned();
            selector.push_str(":");
            selector.push_str(model);
            context.selected_model = Some(selector);
            Ok(())
        },
        Err(error) => Err("failed to persist model: ".to_owned().concat(&error)),
    }
}

// ---------------------------------------------------------------------------
// Ends of turns
// ---------------------------------------------------------------------------

/// Whether a text holds one of some texts.
pub open spec fn holds_any(text: Seq<char>, needles: Seq<Seq<char>>) -> bool {
    exists|i: int| 0 <= i < needles.len() && contains(text, #[trigger] needles[i])
}

/// Answers after which a request is not made again.
pub open spec fn final_statuses() -> Seq<Seq<char>> {
    seq!["http 400"@, "http 401"@, "http 402"@, "http 403"@, "http 404"@]
}

/// What failures that pass are called.
pub open spec fn passing_failures() -> Seq<Seq<char>> {
    seq!["timed out"@, "timeout"@, "connection"@, "dns"@, "reset"@, "broken pipe"@, "stream failed"@, "502"@, "503"@, "504"@, "429"@, "temporarily unavailable"@]
}

/// Whether a failure may pass by itself.
#[verifier::opaque]
pub open spec fn retryable(message: Seq<char>) -> bool {
    !holds_any(lower(message), final_statuses()) && holds_any(lower(message), passing_failures())
}

/// Tells whether a failure may pass by itself.
pub fn is_retryable_error_text(message: &str) -> (result: bool)
    ensures
        result == retryable(message@),
{
    let text = to_lower(message);
    proof {
        reveal(retryable);
        let no = final_statuses();
        let yes = passing_failures();
        assert(no.len() == 5 && yes.len() == 12);
        assert(no[0] == "http 400"@);
        assert(no[1] == "http 401"@);
        assert(no[2] == "http 402"@);
        assert(no[3] == "http 403"@);
        assert(no[4] == "http 404"@);
        assert(yes[0] == "timed out"@);
        assert(yes[1] == "timeout"@);
        assert(yes[2] == "connection"@);
        assert(yes[3] == "dns"@);
        assert(yes[4] == "reset"@);
        assert(yes[5] == "broken pipe"@);
        assert(yes[6] == "stream failed"@);
        assert(yes[7] == "502"@);
        assert(yes[8] == "503"@);
        assert(yes[9] == "504"@);
        assert(yes[10] == "429"@);
        assert(yes[11] == "temporarily unavailable"@);
    }
    if has(&text, "http 400") || has(&text, "http 401") || has(&text, "http 402") || has(&text, "http 403") || has(&text, "http 404") {
        return false;
    }
    has(&text, "timed out") || has(&text, "timeout") || has(&text, "connection") || has(&text, "dns") || has(&text, "reset") || has(&text, "broken pipe") || has(&text, "stream failed") || has(&text, "502") || has(&text, "503") || has(&text, "504") || has(&text, "429") || has(&text, "temporarily unavailable")
}

/// The event of an error.
pub open spec fn error_event(message: Seq<char>) -> JsonView {
    JsonView::Object(
        seq![
            ("event_type"@, JsonView::Text("agent_error"@)),
            ("message"@, JsonView::Text(message)),
            ("is_fatal"@, JsonView::Bool(false)),
        ],
    )
}

/// The event that asks whether a turn is to be taken up again.
pub open spec fn retry_question(message: Seq<char>) -> JsonView {
    JsonView::Object(
        seq![
            ("event_type"@, JsonView::Text("retry_confirmation"@)),
            (
                "message"@,
                JsonView::Text(
                    if contains(message, "tool round limit reached"@) {
                        "已达到本轮工具调用上限，任务已暂停"@
                    } else {
                        "自动恢复失败，任务已暂停"@
                    },
                ),
            ),
            ("detail"@, JsonView::Text(message)),
        ],
    )
}

/// The event of a turn that failed.
pub open spec fn failure_event(kind: TurnKind, message: Seq<char>) -> JsonView {
    match kind {
        TurnKind::Message => if retryable(message) || contains(
            message,
            "tool round limit reached"@,
        ) {
            retry_question(message)
        } else {
            error_event(message)
        },
        TurnKind::Compaction => error_event("上下文压缩失败："@ + message),
        TurnKind::Retry => error_event(message),
    }
}

fn show_error(message: &str) -> (result: Json)
    ensures
        result@ == error_event(message@),
        result@ is Object,
{
    let mut fields = Fields::new();
    fields.add("event_type", Json::text("agent_error"));
    fields.add("message", Json::text(message));
    fields.add("is_fatal", Json::Bool(false));
    assert(fields@ =~= error_event(message@)->Object_0);
    fields.done()
}

fn show_failure(kind: TurnKind, message: &str) -> (result: Json)
    ensures
        result@ == failure_event(kind, message@),
        result@ is Object,
{
    match kind {
        TurnKind::Message => {
            let limit = has(message, "tool round limit reached");
            if is_retryable_error_text(message) || limit {
                let mut fields = Fields::new();
                fields.add("event_type", Json::text("retry_confirmation"));
                fields.add(
                    "message",
                    Json::text(
                        if limit {
                            "已达到本轮工具调用上限，任务已暂停"
                        } else {
                            "自动恢复失败，任务已暂停"
                        },
                    ),
                );
                fields.add("detail", Json::text(message));
                assert(fields@ =~= retry_question(message@)->Object_0);
                fields.done()
            } else {
                show_error(message)
            }
        },
        TurnKind::Compaction => show_error(&"上下文压缩失败：".to_owned().concat(message)),
        TurnKind::Retry => show_error(message),
    }
}

/// The task at the end of a turn.
pub open spec fn task_after_turn(task: SessionTaskView, kind: TurnKind, error: Option<Seq<char>>)
    -> SessionTaskView {
    let noted = match error {
        Some(message) => task.pushed(failure_event(kind, message)),
        None => task,
    };
    noted.pushed(event_data("turn_end"@)).finished(
        if error is Some {
            "failed"@
        } else {
            "completed"@
        },
    )
}

/// Ends a turn: tells the client of its failure, where it failed, and that it ended.
pub fn finish_turn(task: &mut SessionTask, kind: TurnKind, error: Option<&String>)
    ensures
        final(task)@ == task_after_turn(
            old(task)@,
            kind,
            match error {
                Some(message) => Some(message@),
                None => None,
            },
        ),
{
    if let Some(message) = error {
        task.push_event(show_failure(kind, message));
    }
    task.push_event(plain_event("turn_end"));
    if error.is_some() {
        task.finish("failed");
    } else {
        task.finish("completed");
    }
}

/// Gives up a turn that could not be recorded. Returns what the client is told.
pub fn give_up_turn(task: &mut SessionTask, kind: TurnKind, message: &str) -> (result: String)
    ensures
        final(task)@ == (SessionTaskView { running: false, ..old(task)@ }),
        result@ == (if kind == TurnKind::Retry {
            "failed to create retry task: "@
        } else {
            "failed to create task: "@
        }) + message@,
{
    task.running = false;
    if kind == TurnKind::Retry {
        "failed to create retry task: ".to_owned().concat(message)
    } else {
        "failed to create task: ".to_owned().concat(message)
    }
}

// ---------------------------------------------------------------------------
// Guides
// ---------------------------------------------------------------------------

/// A text in pieces of sixteen characters; the last may be shorter.
pub open spec fn chunks(s: Seq<char>) -> Seq<Seq<char>>
    decreases s.len(),
{
    if s.len() == 0 {
        Seq::empty()
    } else if s.len() <= 16 {
        seq![s]
    } else {
        seq![s.take(16)] + chunks(s.skip(16))
    }
}

/// Cuts a guide into the pieces in which it is shown.
pub fn guide_chunks(body: &str) -> (result: Vec<String>)
    ensures
        texts(result@) == chunks(body@),
{
    let count: usize = body.unicode_len();
    let mut result: Vec<String> = Vec::new();
    let mut at: usize = 0;
    assert(body@.skip(0) =~= body@);
    assert(texts(result@) + chunks(body@) =~= chunks(body@));
    while at < count
        invariant
            at <= count,
            count == body@.len(),
            chunks(body@) == texts(result@) + chunks(body@.skip(at as int)),
        decreases count - at,
    {
        let ghost rest = body@.skip(at as int);
        let ghost before = texts(result@);
        let end: usize = if count - at <= 16 {
            count
        } else {
            at + 16
        };
        let piece = body.substring_char(at, end).to_owned();
        result.push(piece);
        proof {
            if rest.len() <= 16 {
                assert(piece@ =~= rest);
                assert(body@.skip(end as int) =~= Seq::empty());
                assert(chunks(body@.skip(end as int)) =~= Seq::empty());
                assert(before + seq![rest] =~= before.push(piece@) + chunks(
                    body@.skip(end as int),
                ));
            } else {
                assert(piece@ =~= rest.take(16));
                assert(rest.skip(16) =~= body@.skip(end as int));
                assert(before + (seq![rest.take(16)] + chunks(rest.skip(16))) =~= before.push(
                    piece@,
                ) + chunks(body@.skip(end as int)));
            }
        }
        at = end;
    }
    assert(body@.skip(at as int) =~= Seq::empty());
    assert(chunks(body@.skip(at as int)) =~= Seq::empty());
    assert(texts(result@) =~= chunks(body@));
    result
}

/// How many milliseconds pass after a full piece of a guide.
pub const GUIDE_PAUSE_MS: u64 = 220;

/// What follows an event of a guide.
#[derive(Clone, Copy, Debug, PartialEq, Eq, Structural)]
pub enum GuideStep {
    /// The next event, after so many milliseconds.
    Wait { delay_ms: u64 },
    /// The next event, at once.
    Next,
    /// Nothing.
    Done,
}

/// What a client is told of a guide: its pieces, and then that the turn is over.
pub open spec fn guide_events(pieces: Seq<Seq<char>>) -> Seq<JsonView> {
    pieces.map_values(|piece: Seq<char>| content_event("text_chunk"@, piece)).push(
        event_data("turn_end"@),
    )
}

/// What follows an event of a guide: a pause after a full piece, none after a shorter one.
pub open spec fn guide_step(pieces: Seq<Seq<char>>, at: int) -> GuideStep {
    if at >= pieces.len() {
        GuideStep::Done
    } else if pieces[at].len() >= 16 {
        GuideStep::Wait { delay_ms: GUIDE_PAUSE_MS }
    } else {
        GuideStep::Next
    }
}

/// Tells the client the next event of a guide that was cut into pieces, and says what follows.
pub fn tell_guide(task: &mut SessionTask, pieces: &Vec<String>, at: usize) -> (result: GuideStep)
    requires
        at <= pieces@.len(),
    ensures
        final(task)@ == old(task)@.pushed(guide_events(texts(pieces@))[at as int]),
        result == guide_step(texts(pieces@), at as int),
{
    let ghost list = texts(pieces@);
    if at >= pieces.len() {
        task.push_event(plain_event("turn_end"));
        return GuideStep::Done;
    }
    assert(list[at as int] == pieces@[at as int]@);
    assert(guide_events(list)[at as int] == content_event("text_chunk"@, list[at as int]));
    task.push_event(text_event("text_chunk", &pieces[at]));
    if pieces[at].as_str().unicode_len() >= 16 {
        GuideStep::Wait { delay_ms: GUIDE_PAUSE_MS }
    } else {
        GuideStep::Next
    }
}

/// A session with a guide in its history: the title as the user's message, the guide as the
/// answer.
pub open spec fn with_guide(session: SessionView, title: Seq<char>, body: Seq<char>) -> SessionView {
    SessionView {
        messages: session.messages + seq![
            user_message(title),
            assistant_message(body, Seq::empty()),
        ],
        ..session
    }
}

/// Writes a guide to the history of a session.
pub fn record_guide(session: &mut Session, title: &str, body: &str)
    ensures
        final(session)@ == with_guide(old(session)@, title@, body@),
{
    let calls: Vec<ToolCall> = Vec::new();
    assert(views(calls@) =~= Seq::empty());
    session.messages.push(ChatMessage::user(title.to_owned()));
    session.messages.push(ChatMessage::assistant(body.to_owned(), calls));
    assert(views(session.messages@) =~= views(old(session).messages@) + seq![
        user_message(title@),
        assistant_message(body@, Seq::empty()),
    ]);
}

// ---------------------------------------------------------------------------
// Envelopes
// ---------------------------------------------------------------------------

/// A message to a client. `time` is the time, written as a number.
pub open spec fn envelope_data(
    kind: Seq<char>,
    id: Option<Seq<char>>,
    time: Seq<char>,
    payload: JsonView,
) -> JsonView {
    let front = seq![
        ("v"@, number_data(1)),
        ("type"@, JsonView::Text(kind)),
        ("ts"@, JsonView::Number(time)),
        ("payload"@, payload),
    ];
    JsonView::Object(
        match id {
            Some(text) => front.push(("id"@, JsonView::Text(text))),
            None => front,
        },
    )
}

/// Writes a message to a client.
pub fn coomi_envelope(kind: &str, id: Option<&String>, time: &str, payload: Json) -> (result: Json)
    ensures
        result@ == envelope_data(
            kind@,
            match id {
                Some(text) => Some(text@),
                None => None,
            },
            time@,
            payload@,
        ),
{
    let mut fields = Fields::new();
    fields.add("v", Json::number(1));
    fields.add("type", Json::text(kind));
    fields.add("ts", Json::Number(time.to_owned()));
    fields.add("payload", payload);
    if let Some(text) = id {
        fields.add("id", Json::text(text));
    }
    assert(fields@ =~= envelope_data(
        kind@,
        match id {
            Some(text) => Some(text@),
            None => None,
        },
        time@,
        payload@,
    )->Object_0);
    fields.done()
}

/// The confirmation of a command.
pub open spec fn ack_data() -> JsonView {
    JsonView::Object(seq![("ok"@, JsonView::Bool(true))])
}

/// The payload of a failure.
pub open spec fn failure_data(message: Seq<char>) -> JsonView {
    JsonView::Object(
        seq![
            ("message"@, JsonView::Text(message)),
            ("code"@, JsonView::Text("bridge_error"@)),
        ],
    )
}

/// The confirmation of a command.
pub fn ack_payload() -> (result: Json)
    ensures
        result@ == ack_data(),
{
    let mut fields = Fields::new();
    fields.add("ok", Json::Bool(true));
    assert(fields@ =~= ack_data()->Object_0);
    fields.done()
}

/// The payload of a failure.
pub fn error_payload(message: &str) -> (result: Json)
    ensures
        result@ == failure_data(message@),
{
    let mut fields = Fields::new();
    fields.add("message", Json::text(message));
    fields.add("code", Json::text("bridge_error"));
    assert(fields@ =~= failure_data(message@)->Object_0);
    fields.done()
}

/// The id and the payload of a message, or what is wrong with it.
pub open spec fn opened_envelope(bytes: Seq<u8>) -> Result<(Option<Seq<char>>, JsonView), Seq<char>> {
    match json_document(bytes) {
        Ok(envelope) => Ok(envelope_parts(envelope)),
        Err(_) => Err("invalid JSON command"@),
    }
}

/// The id and the payload of a parsed message.
pub open spec fn envelope_parts(envelope: JsonView) -> (Option<Seq<char>>, JsonView) {
    (
        text_of(member(envelope, "id"@)),
        match member(envelope, "payload"@) {
            Some(payload) => payload,
            None => JsonView::Null,
        },
    )
}

/// Takes a parsed message apart.
pub fn split_envelope(envelope: &Json) -> (result: (Option<String>, Json))
    ensures
        opt(result.0) == envelope_parts(envelope@).0,
        result.1@ == envelope_parts(envelope@).1,
{
    let payload = match envelope.get("payload") {
        Some(payload) => payload.copy(),
        None => Json::Null,
    };
    (envelope.text_member("id"), payload)
}

/// Reads a message of a client.
pub fn open_envelope(bytes: &[u8]) -> (result: Result<(Option<String>, Json), String>)
    ensures
        match result {
            Ok((id, payload)) => opened_envelope(bytes@) == Ok::<
                (Option<Seq<char>>, JsonView),
                Seq<char>,
            >((opt(id), payload@)),
            Err(message) => opened_envelope(bytes@) == Err::<
                (Option<Seq<char>>, JsonView),
                Seq<char>,
            >(message@),
        },
{
    match parse_json(bytes) {
        Ok(envelope) => Ok(split_envelope(&envelope)),
        Err(_) => Err("invalid JSON command".to_owned()),
    }
}

/// The event that tells a client of a stored session.
pub open spec fn loaded_event(id: Seq<char>, cwd: Seq<char>, usage: TokenUsage) -> JsonView {
    JsonView::Object(
        seq![
            ("event_type"@, JsonView::Text("session_loaded"@)),
            ("session_id"@, JsonView::Text(id)),
            ("cwd"@, JsonView::Text(cwd)),
            (
                "usage"@,
                usage_totals(
                    usage.input_tokens as nat,
                    usage.output_tokens as nat,
                    usage.total() as nat,
                ),
            ),
        ],
    )
}

/// The event that tells a client whether a turn runs.
pub open spec fn state_event(running: bool) -> JsonView {
    JsonView::Object(
        seq![
            ("event_type"@, JsonView::Text("session_state"@)),
            ("running"@, JsonView::Bool(running)),
        ],
    )
}

/// The events that a client is sent when it connects: what is stored, whether a turn runs,
/// and everything that it has not confirmed, in order.
pub open spec fn opening_events(
    task: SessionTaskView,
    loaded: Option<JsonView>,
) -> Seq<JsonView> {
    (match loaded {
        Some(event) => seq![event],
        None => Seq::empty(),
    }) + seq![state_event(task.running)] + task.unacked_events
}

/// The event that tells a client of a stored session.
pub fn session_loaded_event(id: &str, cwd: &str, usage: &TokenUsage) -> (result: Json)
    ensures
        result@ == loaded_event(id@, cwd@, *usage),
{
    let ghost wanted = loaded_event(id@, cwd@, *usage)->Object_0;
    let mut totals = Fields::new();
    totals.add("input_tokens", Json::number(usage.input_tokens));
    totals.add("output_tokens", Json::number(usage.output_tokens));
    totals.add("total_tokens", Json::number(usage.total_tokens()));
    assert(totals@ =~= wanted[3].1->Object_0);
    let mut fields = Fields::new();
    fields.add("event_type", Json::text("session_loaded"));
    fields.add("session_id", Json::text(id));
    fields.add("cwd", Json::text(cwd));
    fields.add("usage", totals.done());
    assert(fields@ =~= wanted);
    fields.done()
}

/// Connects a client. Returns the events that it is sent.
pub fn connect(task: &mut SessionTask, loaded: Option<Json>) -> (result: Vec<Json>)
    ensures
        final(task)@ == (SessionTaskView { connected: true, ..old(task)@ }),
        views(result@) == opening_events(old(task)@, opt(loaded)),
{
    task.connected = true;
    let mut events: Vec<Json> = Vec::new();
    let ghost first = match opt(loaded) {
        Some(event) => seq![event],
        None => Seq::empty(),
    };
    if let Some(event) = loaded {
        events.push(event);
    }
    assert(views(events@) =~= first);
    let mut fields = Fields::new();
    fields.add("event_type", Json::text("session_state"));
    fields.add("running", Json::Bool(task.running));
    assert(fields@ =~= state_event(task@.running)->Object_0);
    events.push(fields.done());
    let ghost head = first + seq![state_event(task@.running)];
    assert(views(events@) =~= head);
    let ghost waiting = task@.unacked_events;
    let mut i: usize = 0;
    assert(head + waiting.take(0) =~= head);
    while i < task.unacked_events.len()
        invariant
            i <= task.unacked_events@.len(),
            waiting == views(task.unacked_events@),
            views(events@) == head + waiting.take(i as int),
        decreases task.unacked_events@.len() - i,
    {
        events.push(task.unacked_events[i].copy());
        assert(waiting[i as int] == task.unacked_events@[i as int]@);
        assert((head + waiting.take(i as int)).push(waiting[i as int]) =~= head + waiting.take(
            i + 1,
        ));
        i = i + 1;
    }
    assert(waiting.take(i as int) =~= waiting);
    events
}

/// Lets go of a client. The turn that runs goes on.
pub fn disconnect(task: &mut SessionTask)
    ensures
        final(task)@ == (SessionTaskView { connected: false, ..old(task)@ }),
{
    task.connected = false;
}

/// The event that tells a client to set up a provider.
pub open spec fn configuration_event() -> JsonView {
    JsonView::Object(
        seq![
            ("event_type"@, JsonView::Text("configuration_required"@)),
            ("message"@, JsonView::Text("请先配置并启用一个可用的模型供应商"@)),
            ("route"@, JsonView::Text("/providers"@)),
        ],
    )
}

/// The event that tells a client to set up a provider.
pub fn configuration_required() -> (result: Json)
    ensures
        result@ == configuration_event(),
{
    let mut fields = Fields::new();
    fields.add("event_type", Json::text("configuration_required"));
    fields.add("message", Json::text("请先配置并启用一个可用的模型供应商"));
    fields.add("route", Json::text("/providers"));
    assert(fields@ =~= configuration_event()->Object_0);
    fields.done()
}

// ---------------------------------------------------------------------------
// Laws
// ---------------------------------------------------------------------------

/// While a turn runs no other one starts, whatever the client asks.
pub proof fn one_turn_at_a_time(
    context: ConnectionStateView,
    task: SessionTaskView,
    payload: JsonView,
    ready: bool,
    record: Option<TaskStatus>,
)
    requires
        task.running,
    ensures
        ({
            let action = commanded(context, task, payload, ready, record).action;
            !(action is StartTurn) && !(action is StartCompaction) && !(action is Retry)
        }),
{
    reveal(turn_command);
    reveal(setting_command);
}

/// A turn that starts is marked as running.
pub proof fn started_turns_run(
    context: ConnectionStateView,
    task: SessionTaskView,
    payload: JsonView,
    ready: bool,
    record: Option<TaskStatus>,
)
    ensures
        ({
            let outcome = commanded(context, task, payload, ready, record);
            outcome.action is StartTurn || outcome.action is StartCompaction || outcome.action is Retry
                ==> outcome.task.running && !task.running
        }),
{
    reveal(turn_command);
    reveal(setting_command);
}

/// A command that fails changes nothing.
pub proof fn failed_commands_change_nothing(
    context: ConnectionStateView,
    task: SessionTaskView,
    payload: JsonView,
    ready: bool,
    record: Option<TaskStatus>,
)
    ensures
        ({
            let outcome = commanded(context, task, payload, ready, record);
            outcome.action is Fail ==> outcome.context == context && outcome.task == task
        }),
{
    reveal(turn_command);
    reveal(setting_command);
}

/// What was taken off a list is not on it, and everything else stays.
proof fn removed_is_off(list: Seq<Seq<char>>, text: Seq<char>)
    ensures
        !removed(list, text).contains(text),
        forall|other: Seq<char>|
            other != text ==> (#[trigger] removed(list, text).contains(other) <==> list.contains(
                other,
            )),
    decreases list.len(),
{
    if list.len() > 0 {
        let before = list.drop_last();
        let kept = removed(before, text);
        removed_is_off(before, text);
        assert(list =~= before.push(list.last()));
        assert forall|other: Seq<char>| other != text implies (#[trigger] removed(
            list,
            text,
        ).contains(other) <==> list.contains(other)) by {
            if list.last() != text {
                if kept.contains(other) {
                    let k = choose|k: int| 0 <= k < kept.len() && kept[k] == other;
                    assert(kept.push(list.last())[k] == other);
                }
                if other == list.last() {
                    assert(kept.push(list.last())[kept.len() as int] == other);
                }
                if kept.push(list.last()).contains(other) && other != list.last() {
                    let k = choose|k: int|
                        0 <= k < kept.len() + 1 && kept.push(list.last())[k] == other;
                    assert(kept[k] == other);
                }
            }
            if before.contains(other) {
                let k = choose|k: int| 0 <= k < before.len() && before[k] == other;
                assert(list[k] == other);
            }
            if list.contains(other) && other != list.last() {
                let k = choose|k: int| 0 <= k < list.len() && list[k] == other;
                assert(before[k] == other);
            }
            if other == list.last() {
                assert(list[list.len() - 1] == other);
            }
        }
        if list.last() != text && kept.push(list.last()).contains(text) {
            let k = choose|k: int| 0 <= k < kept.len() + 1 && kept.push(list.last())[k] == text;
            assert(kept[k] == text);
        }
    }
}

/// A request that waits for the client is answered once: a second answer to it finds nothing
/// that waits, and the other requests wait on.
pub proof fn requests_are_answered_once(task: SessionTaskView, id: Seq<char>, other: Seq<char>)
    requires
        other != id,
    ensures
        !removed(task.approvals, id).contains(id),
        !removed(task.questions, id).contains(id),
        !removed(task.file_requests, id).contains(id),
        removed(task.approvals, id).contains(other) <==> task.approvals.contains(other),
        removed(task.questions, id).contains(other) <==> task.questions.contains(other),
        removed(task.file_requests, id).contains(other) <==> task.file_requests.contains(other),
{
    removed_is_off(task.approvals, id);
    removed_is_off(task.questions, id);
    removed_is_off(task.file_requests, id);
}

/// A guide that is told event by event is told whole, and the end of the turn comes last.
pub proof fn guides_are_told_whole(task: SessionTaskView, body: Seq<char>, at: int)
    requires
        0 <= at <= chunks(body).len(),
    ensures
        all_pushed(task, guide_events(chunks(body)).take(at)).pushed(
            guide_events(chunks(body))[at],
        ) == all_pushed(task, guide_events(chunks(body)).take(at + 1)),
        guide_events(chunks(body)).take((chunks(body).len() + 1) as int) == guide_events(chunks(body)),
        guide_events(chunks(body)).last() == event_data("turn_end"@),
        guide_step(chunks(body), at) is Done <==> at == chunks(body).len(),
{
    let events = guide_events(chunks(body));
    assert(events.take(at + 1).drop_last() =~= events.take(at));
    assert(events.take(at + 1).last() == events[at]);
    assert(events.take((chunks(body).len() + 1) as int) =~= events);
}

/// The pieces of a guide make up the guide, and none is longer than sixteen characters.
pub proof fn chunks_make_up_the_text(s: Seq<char>)
    ensures
        joined(chunks(s), Seq::empty()) == s,
        forall|i: int| 0 <= i < chunks(s).len() ==> 0 < (#[trigger] chunks(s)[i]).len() <= 16,
    decreases s.len(),
{
    if s.len() == 0 {
        assert(joined(chunks(s), Seq::empty()) =~= s);
    } else if s.len() <= 16 {
        assert(joined(chunks(s), Seq::empty()) =~= s);
    } else {
        let rest = s.skip(16);
        chunks_make_up_the_text(rest);
        joined_behind(s.take(16), chunks(rest));
        assert(s.take(16) + rest =~= s);
        assert forall|i: int| 0 <= i < chunks(s).len() implies 0 < (#[trigger] chunks(s)[i]).len()
            <= 16 by {
            if i > 0 {
                assert(chunks(s)[i] == chunks(rest)[i - 1]);
            }
        }
    }
}

proof fn joined_behind(first: Seq<char>, others: Seq<Seq<char>>)
    ensures
        joined(seq![first] + others, Seq::empty()) == first + joined(others, Seq::empty()),
    decreases others.len(),
{
    let all = seq![first] + others;
    if others.len() == 0 {
        assert(all =~= seq![first]);
        assert(first + joined(others, Seq::empty()) =~= first);
    } else {
        joined_behind(first, others.drop_last());
        assert(all.drop_last() =~= seq![first] + others.drop_last());
        assert(all.last() == others.last());
        if others.len() == 1 {
            assert(others.drop_last() =~= Seq::empty());
            assert(joined(all, Seq::empty()) =~= first + joined(others, Seq::empty()));
        } else {
            assert(joined(all, Seq::empty()) =~= first + joined(others, Seq::empty()));
        }
    }
}

/// A client that comes back is sent everything that it has not confirmed, in order.
pub proof fn reconnecting_resends_everything(task: SessionTaskView, loaded: Option<JsonView>)
    ensures
        ({
            let sent = opening_events(task, loaded);
            sent.skip(sent.len() - task.unacked_events.len()) == task.unacked_events
        }),
{
    let sent = opening_events(task, loaded);
    assert(sent.skip(sent.len() - task.unacked_events.len()) =~= task.unacked_events);
}

} // verus!
