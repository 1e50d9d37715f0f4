//! Answers of the bridge that need no session: memory, schedules, tasks, installed parts.

use vstd::prelude::*;
use crate::api::ApiError;
use crate::api::ApiErrorView;
use crate::api::answer;
use crate::api::bad_gateway;
use crate::api::bad_request;
use crate::api::not_found;
use crate::api::verdict;
use crate::json::Json;
use crate::json::JsonView;
use crate::json::array_view;
use crate::json::trees;
use crate::json::trees_push;
use crate::json_ops::Fields;
use crate::observer::preview;
use crate::observer::shown_in_short;
use crate::overview::SessionDetails;
use crate::overview::SessionDetailsView;
use crate::overview::SessionSummary;
use crate::overview::SessionSummaryView;
use crate::overview::session_data;
use crate::overview::show_session;
use crate::paths::path_under;
use crate::paths::under;
use crate::provider::ProviderDocument;
use crate::provider::ProviderDocumentView;
use crate::schedule::ScheduleEntry;
use crate::schedule::ScheduleStore;
use crate::schedule::find_entry;
use crate::task::SessionTask;
use crate::task::SessionTaskView;
use crate::text::same;
use crate::tui::InstalledSkill;
use crate::tui::InstalledSkillView;
use crate::views::group_views;
use crate::views::opt;
use crate::views::views;

verus! {

broadcast use {group_views, trees_push, array_view};

/// An entry of the memory as a client writes it.
#[derive(Debug)]
pub struct MemoryEdit {
    pub name: Option<String>,
    pub scope: String,
    pub description: String,
    pub memory_type: String,
    pub content: String,
}

/// What a `MemoryEdit` holds.
#[verifier::ext_equal]
pub struct MemoryEditView {
    pub name: Option<Seq<char>>,
    pub scope: Seq<char>,
    pub description: Seq<char>,
    pub memory_type: Seq<char>,
    pub content: Seq<char>,
}

impl View for MemoryEdit {
    type V = MemoryEditView;

    open spec fn view(&self) -> MemoryEditView {
        MemoryEditView {
            name: opt(self.name),
            scope: self.scope@,
            description: self.description@,
            memory_type: self.memory_type@,
            content: self.content@,
        }
    }
}

/// An entry of the memory as it is stored; what is only passed on is a tree.
#[derive(Debug)]
pub struct MemoryRecord {
    pub name: String,
    pub description: String,
    pub content: String,
    pub scope: Json,
    pub memory_type: Json,
    pub lifecycle: Json,
    pub hit_count: Json,
    pub last_triggered: Json,
    pub created: Json,
    pub updated: Json,
}

/// What a `MemoryRecord` holds.
#[verifier::ext_equal]
pub struct MemoryRecordView {
    pub name: Seq<char>,
    pub description: Seq<char>,
    pub content: Seq<char>,
    pub scope: JsonView,
    pub memory_type: JsonView,
    pub lifecycle: JsonView,
    pub hit_count: JsonView,
    pub last_triggered: JsonView,
    pub created: JsonView,
    pub updated: JsonView,
}

impl View for MemoryRecord {
    type V = MemoryRecordView;

    open spec fn view(&self) -> MemoryRecordView {
        MemoryRecordView {
            name: self.name@,
            description: self.description@,
            content: self.content@,
            scope: self.scope@,
            memory_type: self.memory_type@,
            lifecycle: self.lifecycle@,
            hit_count: self.hit_count@,
            last_triggered: self.last_triggered@,
            created: self.created@,
            updated: self.updated@,
        }
    }
}

/// A session as it is listed.
#[derive(Debug)]
pub struct ListedSession {
    pub summary: SessionSummary,
    pub details: Option<SessionDetails>,
    pub running: bool,
}

/// What a `ListedSession` holds.
#[verifier::ext_equal]
pub struct ListedSessionView {
    pub summary: SessionSummaryView,
    pub details: Option<SessionDetailsView>,
    pub running: bool,
}

impl View for ListedSession {
    type V = ListedSessionView;

    open spec fn view(&self) -> ListedSessionView {
        ListedSessionView {
            summary: self.summary@,
            details: opt(self.details),
            running: self.running,
        }
    }
}

/// A server as it is listed.
#[derive(Debug)]
pub struct InstalledServer {
    pub name: String,
    pub enabled: bool,
    pub transport: String,
}

/// What a `InstalledServer` holds.
#[verifier::ext_equal]
pub struct InstalledServerView {
    pub name: Seq<char>,
    pub enabled: bool,
    pub transport: Seq<char>,
}

impl View for InstalledServer {
    type V = InstalledServerView;

    open spec fn view(&self) -> InstalledServerView {
        InstalledServerView {
            name: self.name@,
            enabled: self.enabled,
            transport: self.transport@,
        }
    }
}

// ---------------------------------------------------------------------------
// Memory
// ---------------------------------------------------------------------------

/// An entry of the memory as clients see it.
pub open spec fn memory_data(m: MemoryRecordView) -> JsonView {
    JsonView::Object(
        seq![
            ("name"@, JsonView::Text(m.name)),
            ("description"@, JsonView::Text(m.description)),
            ("content"@, JsonView::Text(m.content)),
            ("scope"@, m.scope),
            ("type"@, m.memory_type),
            ("lifecycle"@, m.lifecycle),
            ("hit_count"@, m.hit_count),
            ("last_triggered"@, m.last_triggered),
            ("created"@, m.created),
            ("updated"@, m.updated),
        ],
    )
}

/// Shows an entry of the memory.
pub fn memory_json(m: &MemoryRecord) -> (result: Json)
    ensures
        result@ == memory_data(m@),
{
    let mut fields = Fields::new();
    fields.add("name", Json::text(&m.name));
    fields.add("description", Json::text(&m.description));
    fields.add("content", Json::text(&m.content));
    fields.add("scope", m.scope.copy());
    fields.add("type", m.memory_type.copy());
    fields.add("lifecycle", m.lifecycle.copy());
    fields.add("hit_count", m.hit_count.copy());
    fields.add("last_triggered", m.last_triggered.copy());
    fields.add("created", m.created.copy());
    fields.add("updated", m.updated.copy());
    assert(fields@ =~= memory_data(m@)->Object_0);
    fields.done()
}

/// Entries of the memory as clients see them.
pub open spec fn memories_data(list: Seq<MemoryRecordView>) -> JsonView {
    JsonView::Object(
        seq![
            ("builtin"@, JsonView::Bool(true)),
            ("memories"@, JsonView::Array(list.map_values(|m: MemoryRecordView| memory_data(m)))),
        ],
    )
}

/// Shows the entries of the memory.
pub fn list_memory(list: &Vec<MemoryRecord>) -> (result: Json)
    ensures
        result@ == memories_data(views(list@)),
{
    let ghost wanted = views(list@).map_values(|m: MemoryRecordView| memory_data(m));
    let mut items: Vec<Json> = Vec::new();
    let mut i: usize = 0;
    assert(trees(items@) =~= wanted.take(0));
    while i < list.len()
        invariant
            i <= list@.len(),
            wanted == views(list@).map_values(|m: MemoryRecordView| memory_data(m)),
            trees(items@) == wanted.take(i as int),
        decreases list@.len() - i,
    {
        let ghost before = items@;
        let item = memory_json(&list[i]);
        items.push(item);
        assert(wanted[i as int] == item@);
        assert(trees(items@) =~= trees(before).push(item@));
        assert(wanted.take(i + 1) =~= wanted.take(i as int).push(wanted[i as int]));
        i = i + 1;
    }
    assert(wanted.take(i as int) =~= wanted);
    let mut fields = Fields::new();
    fields.add("builtin", Json::Bool(true));
    fields.add("memories", Json::Array(items));
    assert(fields@ =~= memories_data(views(list@))->Object_0);
    fields.done()
}

/// Under which name a new entry is saved. `known` tells whether there is one of that name.
pub fn create_memory(edit: &MemoryEdit, known: bool) -> (result: Result<String, ApiError>)
    ensures
        answer(result) == match edit@.name {
            None => Err(bad_request("missing memory name"@)),
            Some(name) => if known {
                Err(bad_request("memory already exists"@))
            } else {
                Ok(name)
            },
        },
{
    match &edit.name {
        None => Err(ApiError::bad_request("missing memory name")),
        Some(name) => {
            if known {
                Err(ApiError::bad_request("memory already exists"))
            } else {
                Ok(name.clone())
            }
        },
    }
}

/// Whether an entry is removed from where it stands before it is saved: it belongs elsewhere
/// now. `found` tells whether there is such an entry, `scope` where it stands.
pub fn update_memory(edit: &MemoryEdit, found: bool, scope: &Option<String>) -> (result: Result<bool, ApiError>)
    ensures
        answer(result) == if found {
            Ok(opt(*scope) != Some(edit@.scope))
        } else {
            Err(bad_request("memory not found"@))
        },
{
    if !found {
        return Err(ApiError::bad_request("memory not found"));
    }
    match scope {
        Some(current) => Ok(!same(current, &edit.scope)),
        None => Ok(true),
    }
}

// ---------------------------------------------------------------------------
// Sessions, servers and skills
// ---------------------------------------------------------------------------

/// Sessions as clients see them.
pub open spec fn sessions_data(list: Seq<ListedSessionView>, mode: JsonView) -> JsonView {
    JsonView::Object(
        seq![
            (
                "sessions"@,
                JsonView::Array(
                    list.map_values(
                        |s: ListedSessionView| session_data(s.summary, s.details, mode, s.running),
                    ),
                ),
            ),
        ],
    )
}

/// Shows the sessions. `mode` is the mode of a session that could not be read.
pub fn list_sessions(list: &Vec<ListedSession>, mode: &Json) -> (result: Json)
    ensures
        result@ == sessions_data(views(list@), mode@),
{
    let ghost wanted = views(list@).map_values(
        |s: ListedSessionView| session_data(s.summary, s.details, mode@, s.running),
    );
    let mut items: Vec<Json> = Vec::new();
    let mut i: usize = 0;
    assert(trees(items@) =~= wanted.take(0));
    while i < list.len()
        invariant
            i <= list@.len(),
            wanted == views(list@).map_values(
                |s: ListedSessionView| session_data(s.summary, s.details, mode@, s.running),
            ),
            trees(items@) == wanted.take(i as int),
        decreases list@.len() - i,
    {
        let ghost before = items@;
        let item = show_session(&list[i].summary, &list[i].details, mode, list[i].running);
        items.push(item);
        assert(wanted[i as int] == item@);
        assert(trees(items@) =~= trees(before).push(item@));
        assert(wanted.take(i + 1) =~= wanted.take(i as int).push(wanted[i as int]));
        i = i + 1;
    }
    assert(wanted.take(i as int) =~= wanted);
    let mut fields = Fields::new();
    fields.add("sessions", Json::Array(items));
    assert(fields@ =~= sessions_data(views(list@), mode@)->Object_0);
    fields.done()
}

/// An installed skill as clients see it.
pub open spec fn skill_data(home: Seq<char>, skill: InstalledSkillView) -> JsonView {
    JsonView::Object(
        seq![
            ("id"@, JsonView::Text(skill.name)),
            ("name"@, JsonView::Text(skill.name)),
            ("enabled"@, JsonView::Bool(skill.enabled)),
            ("path"@, JsonView::Text(under(under(home, "skills"@), skill.name))),
        ],
    )
}

/// A configured server as clients see it.
pub open spec fn server_data(home: Seq<char>, server: InstalledServerView) -> JsonView {
    JsonView::Object(
        seq![
            ("id"@, JsonView::Text(server.name)),
            ("name"@, JsonView::Text(server.name)),
            ("enabled"@, JsonView::Bool(server.enabled)),
            ("transport"@, JsonView::Text(server.transport)),
            ("path"@, JsonView::Text(under(under(home, "config"@), "mcp_servers.json"@))),
        ],
    )
}

fn show_skill(home: &str, skill: &InstalledSkill) -> (result: Json)
    ensures
        result@ == skill_data(home@, skill@),
{
    let mut fields = Fields::new();
    fields.add("id", Json::text(&skill.name));
    fields.add("name", Json::text(&skill.name));
    fields.add("enabled", Json::Bool(skill.enabled));
    fields.add("path", Json::text(&path_under(&path_under(home, "skills"), &skill.name)));
    assert(fields@ =~= skill_data(home@, skill@)->Object_0);
    fields.done()
}

fn show_server(home: &str, server: &InstalledServer) -> (result: Json)
    ensures
        result@ == server_data(home@, server@),
{
    let mut fields = Fields::new();
    fields.add("id", Json::text(&server.name));
    fields.add("name", Json::text(&server.name));
    fields.add("enabled", Json::Bool(server.enabled));
    fields.add("transport", Json::text(&server.transport));
    fields.add("path", Json::text(&path_under(&path_under(home, "config"), "mcp_servers.json")));
    assert(fields@ =~= server_data(home@, server@)->Object_0);
    fields.done()
}

/// What is installed, as clients see it.
pub open spec fn installed_data(
    home: Seq<char>,
    skills: Seq<InstalledSkillView>,
    servers: Seq<InstalledServerView>,
) -> JsonView {
    JsonView::Object(
        seq![
            (
                "skills"@,
                JsonView::Array(skills.map_values(|s: InstalledSkillView| skill_data(home, s))),
            ),
            (
                "mcp"@,
                JsonView::Array(servers.map_values(|s: InstalledServerView| server_data(home, s))),
            ),
        ],
    )
}

fn show_skills(home: &str, skills: &Vec<InstalledSkill>) -> (result: Vec<Json>)
    ensures
        trees(result@) == views(skills@).map_values(|s: InstalledSkillView| skill_data(home@, s)),
{
    let ghost wanted = views(skills@).map_values(|s: InstalledSkillView| skill_data(home@, s));
    let mut items: Vec<Json> = Vec::new();
    let mut i: usize = 0;
    assert(trees(items@) =~= wanted.take(0));
    while i < skills.len()
        invariant
            i <= skills@.len(),
            wanted == views(skills@).map_values(|s: InstalledSkillView| skill_data(home@, s)),
            trees(items@) == wanted.take(i as int),
        decreases skills@.len() - i,
    {
        let ghost before = items@;
        let item = show_skill(home, &skills[i]);
        items.push(item);
        assert(wanted[i as int] == item@);
        assert(trees(items@) =~= trees(before).push(item@));
        assert(wanted.take(i + 1) =~= wanted.take(i as int).push(wanted[i as int]));
        i = i + 1;
    }
    assert(wanted.take(i as int) =~= wanted);
    items
}

fn show_servers(home: &str, servers: &Vec<InstalledServer>) -> (result: Vec<Json>)
    ensures
        trees(result@) == views(servers@).map_values(|s: InstalledServerView| server_data(home@, s)),
{
    let ghost wanted = views(servers@).map_values(|s: InstalledServerView| server_data(home@, s));
    let mut items: Vec<Json> = Vec::new();
    let mut i: usize = 0;
    assert(trees(items@) =~= wanted.take(0));
    while i < servers.len()
        invariant
            i <= servers@.len(),
            wanted == views(servers@).map_values(|s: InstalledServerView| server_data(home@, s)),
            trees(items@) == wanted.take(i as int),
        decreases servers@.len() - i,
    {
        let ghost before = items@;
        let item = show_server(home, &servers[i]);
        items.push(item);
        assert(wanted[i as int] == item@);
        assert(trees(items@) =~= trees(before).push(item@));
        assert(wanted.take(i + 1) =~= wanted.take(i as int).push(wanted[i as int]));
        i = i + 1;
    }
    assert(wanted.take(i as int) =~= wanted);
    items
}

/// Shows what is installed.
pub fn runtime_installed(home: &str, skills: &Vec<InstalledSkill>, servers: &Vec<InstalledServer>) -> (result: Json)
    ensures
        result@ == installed_data(home@, views(skills@), views(servers@)),
{
    let mut fields = Fields::new();
    fields.add("skills", Json::Array(show_skills(home, skills)));
    fields.add("mcp", Json::Array(show_servers(home, servers)));
    assert(fields@ =~= installed_data(home@, views(skills@), views(servers@))->Object_0);
    fields.done()
}

// ---------------------------------------------------------------------------
// Tasks and schedules
// ---------------------------------------------------------------------------

/// A task with its history as clients see it.
pub open spec fn task_data(home: Seq<char>, id: Seq<char>, task: JsonView, events: JsonView) -> JsonView {
    let folder = under(under(home, "tasks"@), id);
    JsonView::Object(
        seq![
            ("task"@, task),
            ("events"@, events),
            (
                "logs"@,
                JsonView::Object(
                    seq![
                        ("events"@, JsonView::Text(under(folder, "events.jsonl"@))),
                        ("output"@, JsonView::Text(under(folder, "output.log"@))),
                    ],
                ),
            ),
        ],
    )
}

/// The answer to a request for a task, where there is one.
pub open spec fn task_answer(
    home: Seq<char>,
    id: Seq<char>,
    task: Option<JsonView>,
    events: JsonView,
) -> Result<JsonView, ApiErrorView> {
    match task {
        Some(task) => Ok(task_data(home, id, task, events)),
        None => Err(bad_request("task not found"@)),
    }
}

/// Shows a task with its history.
pub fn task_detail(home: &str, id: &str, task: Option<Json>, events: Json) -> (result: Result<Json, ApiError>)
    ensures
        answer(result) == task_answer(home@, id@, opt(task), events@),
{
    let task = match task {
        Some(task) => task,
        None => {
            return Err(ApiError::bad_request("task not found"));
        },
    };
    let folder = path_under(&path_under(home, "tasks"), id);
    let mut logs = Fields::new();
    logs.add("events", Json::text(&path_under(&folder, "events.jsonl")));
    logs.add("output", Json::text(&path_under(&folder, "output.log")));
    let ghost wanted = task_data(home@, id@, task@, events@);
    assert(logs@ =~= wanted->Object_0[2].1->Object_0);
    let mut fields = Fields::new();
    fields.add("task", task);
    fields.add("events", events);
    fields.add("logs", logs.done());
    assert(fields@ =~= wanted->Object_0);
    Ok(fields.done())
}

/// Stops the task of a session. Tells whether it ran.
pub fn cancel_task(task: &mut Option<SessionTask>) -> (result: Result<bool, ApiError>)
    ensures
        match *old(task) {
            None => answer(result) == Err::<bool, ApiErrorView>(bad_request("task not found"@)) && *final(task) is None,
            Some(running) => answer(result) == Ok::<bool, ApiErrorView>(running@.running) && opt(*final(task))
                == Some(running@.stopped()),
        },
{
    match task {
        Some(running) => Ok(running.stop()),
        None => Err(ApiError::bad_request("task not found")),
    }
}

/// The session in which a scheduled task runs.
pub open spec fn schedule_session(id: Seq<char>) -> Seq<char> {
    "sched-"@ + id
}

/// Returns the session in which a scheduled task runs.
pub fn scheduled_session(id: &str) -> (result: String)
    ensures
        result@ == schedule_session(id@),
{
    let mut text = "sched-".to_owned();
    text.push_str(id);
    text
}

/// Returns the scheduled task that is to run at once.
pub fn run_schedule_now(store: &ScheduleStore, id: &str) -> (result: Result<ScheduleEntry, ApiError>)
    ensures
        answer(result) == match find_entry(store@.schedules, id@) {
            Some(entry) => Ok(entry),
            None => Err(not_found("schedule not found"@)),
        },
{
    match store.find(id) {
        Some(entry) => Ok(entry),
        None => Err(ApiError::not_found("schedule not found")),
    }
}

/// Takes a scheduled task on, unless it runs.
pub fn begin_scheduled_turn(task: &mut SessionTask, id: &str) -> (result: Result<(), String>)
    ensures
        match result {
            Ok(_) => !old(task)@.running && final(task)@ == (SessionTaskView {
                running: true,
                ..old(task)@
            }),
            Err(message) => old(task)@.running && message@ == "scheduled task already running for "@
                + id@ && final(task)@ == old(task)@,
        },
{
    if task.running {
        let mut text = "scheduled task already running for ".to_owned();
        text.push_str(id);
        return Err(text);
    }
    task.running = true;
    Ok(())
}

/// Ends the turn of a scheduled task.
pub fn end_scheduled_turn(task: &mut SessionTask, succeeded: bool)
    ensures
        final(task)@ == old(task)@.finished(
            if succeeded {
                "completed"@
            } else {
                "failed"@
            },
        ),
{
    task.finish(
        if succeeded {
            "completed"
        } else {
            "failed"
        },
    );
}

// ---------------------------------------------------------------------------
// Providers
// ---------------------------------------------------------------------------

/// No providers.
pub open spec fn no_providers() -> ProviderDocumentView {
    ProviderDocumentView { active: Seq::empty(), providers: Seq::empty() }
}

/// Returns a document without providers.
pub fn empty_provider_document() -> (result: ProviderDocument)
    ensures
        result@ == no_providers(),
{
    let result = ProviderDocument { active: String::new(), providers: Vec::new() };
    assert(result@.providers =~= Seq::empty());
    assert(result@.active =~= Seq::<char>::empty());
    result
}

/// Returns the document that is written at the start, where there is none.
pub fn ensure_provider_document(present: bool) -> (result: Option<ProviderDocument>)
    ensures
        opt(result) == if present {
            None
        } else {
            Some(no_providers())
        },
{
    if present {
        None
    } else {
        Some(empty_provider_document())
    }
}

/// Checks the answer of a provider that was asked for its models. `status` is how the answer
/// names its state.
pub fn check_discovery(succeeded: bool, status: &str, body: &str) -> (result: Result<(), ApiError>)
    ensures
        verdict(result) == if succeeded {
            Ok(())
        } else {
            Err(
                bad_gateway(
                    "model discovery returned HTTP "@ + status@ + ": "@ + shown_in_short(body@),
                ),
            )
        },
{
    if succeeded {
        return Ok(());
    }
    let mut text = "model discovery returned HTTP ".to_owned();
    text.push_str(status);
    text.push_str(": ");
    text.push_str(&preview(body));
    Err(ApiError::bad_gateway(&text))
}

/// Whether models that were discovered are kept: so it is unless the request says otherwise.
pub fn keeps_models(body: &Option<Json>) -> (result: bool)
    ensures
        result == match opt(*body) {
            Some(value) => match crate::json::bool_of(crate::json::member(value, "persist"@)) {
                Some(persist) => persist,
                None => true,
            },
            None => true,
        },
{
    match body {
        Some(value) => match value.bool_member("persist") {
            Some(persist) => persist,
            None => true,
        },
        None => true,
    }
}

// ---------------------------------------------------------------------------
// Laws
// ---------------------------------------------------------------------------

/// Different scheduled tasks run in different sessions.
pub proof fn schedules_have_their_own_sessions(a: Seq<char>, b: Seq<char>)
    requires
        schedule_session(a) == schedule_session(b),
    ensures
        a == b,
{
    reveal_strlit("sched-");
    assert(a =~= schedule_session(a).skip(6));
    assert(b =~= schedule_session(b).skip(6));
}

} // verus!
