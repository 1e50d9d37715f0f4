//! What clients are shown: the tasks, the sessions and the health of the bridge.

use vstd::prelude::*;
use crate::json::Json;
use crate::json::JsonView;
use crate::json::array_view;
use crate::json::nullable_text;
use crate::json::trees;
use crate::json_ops::Fields;
use crate::json_ops::text_or_null;
use crate::provider::ProviderDocument;
use crate::provider::ProviderDocumentView;
use crate::provider::ProviderSettingsView;
use crate::provider::provider_data;
use crate::provider::provider_json;
use crate::session::TokenUsage;
use crate::settings::number_data;
use crate::table::lookup;
use crate::table::table_get;
use crate::task::SessionTask;
use crate::task::SessionTaskView;
use crate::task::TaskStatus;
use crate::task::status_name;
use crate::text::same;
use crate::text::texts_empty;
use crate::text::texts_push;
use crate::views::Duplicate;
use crate::views::duplicate_opt;
use crate::views::opt;
use crate::views::views;
use crate::views::views_empty;
use crate::views::views_push;

verus! {

broadcast use {texts_push, texts_empty, views_push, views_empty, array_view};

/// A task as it is recorded.
#[derive(Debug)]
pub struct ManagedTask {
    pub id: String,
    pub session_id: String,
    pub kind: String,
    pub status: TaskStatus,
    pub created_at_ms: u64,
    pub priority: Json,
    pub resources: Json,
    pub skills: Json,
    pub model: Option<String>,
    pub retries: u64,
    pub error: Option<String>,
    pub lock_wait_ms: u64,
}

/// What a `ManagedTask` holds.
#[verifier::ext_equal]
pub struct ManagedTaskView {
    pub id: Seq<char>,
    pub session_id: Seq<char>,
    pub kind: Seq<char>,
    pub status: TaskStatus,
    pub created_at_ms: u64,
    pub priority: JsonView,
    pub resources: JsonView,
    pub skills: JsonView,
    pub model: Option<Seq<char>>,
    pub retries: u64,
    pub error: Option<Seq<char>>,
    pub lock_wait_ms: u64,
}

impl View for ManagedTask {
    type V = ManagedTaskView;

    open spec fn view(&self) -> ManagedTaskView {
        ManagedTaskView {
            id: self.id@,
            session_id: self.session_id@,
            kind: self.kind@,
            status: self.status,
            created_at_ms: self.created_at_ms,
            priority: self.priority@,
            resources: self.resources@,
            skills: self.skills@,
            model: opt(self.model),
            retries: self.retries,
            error: opt(self.error),
            lock_wait_ms: self.lock_wait_ms,
        }
    }
}

impl Duplicate for ManagedTask {
    fn duplicate(&self) -> (result: Self) {
        ManagedTask {
            id: self.id.clone(),
            session_id: self.session_id.clone(),
            kind: self.kind.clone(),
            status: self.status,
            created_at_ms: self.created_at_ms,
            priority: self.priority.duplicate(),
            resources: self.resources.duplicate(),
            skills: self.skills.duplicate(),
            model: duplicate_opt(&self.model),
            retries: self.retries,
            error: duplicate_opt(&self.error),
            lock_wait_ms: self.lock_wait_ms,
        }
    }
}

/// A session with its task and its title.
#[derive(Debug)]
pub struct SessionRow {
    pub session_id: String,
    pub task: SessionTask,
    pub title: Option<String>,
}

/// What a `SessionRow` holds.
#[verifier::ext_equal]
pub struct SessionRowView {
    pub session_id: Seq<char>,
    pub task: SessionTaskView,
    pub title: Option<Seq<char>>,
}

impl View for SessionRow {
    type V = SessionRowView;

    open spec fn view(&self) -> SessionRowView {
        SessionRowView {
            session_id: self.session_id@,
            task: self.task@,
            title: opt(self.title),
        }
    }
}

impl Duplicate for SessionRow {
    fn duplicate(&self) -> (result: Self) {
        SessionRow {
            session_id: self.session_id.clone(),
            task: self.task.duplicate(),
            title: duplicate_opt(&self.title),
        }
    }
}

/// A row of the task list.
#[derive(Debug)]
pub struct TaskRow {
    pub task_id: String,
    pub session_id: String,
    pub title: String,
    pub status: String,
    pub running: bool,
    pub started_at: u64,
    /// Whether the row comes from the task of a session.
    pub own: bool,
    pub current_tool: Option<String>,
    pub kind: Option<String>,
    pub download_label: Option<String>,
    pub download_status: Option<String>,
    pub priority: Json,
    pub resources: Json,
    pub skills: Json,
    pub model: Option<String>,
    pub retries: u64,
    pub error: Option<String>,
    pub lock_wait_ms: u64,
}

/// What a `TaskRow` holds.
#[verifier::ext_equal]
pub struct TaskRowView {
    pub task_id: Seq<char>,
    pub session_id: Seq<char>,
    pub title: Seq<char>,
    pub status: Seq<char>,
    pub running: bool,
    pub started_at: u64,
    pub own: bool,
    pub current_tool: Option<Seq<char>>,
    pub kind: Option<Seq<char>>,
    pub download_label: Option<Seq<char>>,
    pub download_status: Option<Seq<char>>,
    pub priority: JsonView,
    pub resources: JsonView,
    pub skills: JsonView,
    pub model: Option<Seq<char>>,
    pub retries: u64,
    pub error: Option<Seq<char>>,
    pub lock_wait_ms: u64,
}

impl View for TaskRow {
    type V = TaskRowView;

    open spec fn view(&self) -> TaskRowView {
        TaskRowView {
            task_id: self.task_id@,
            session_id: self.session_id@,
            title: self.title@,
            status: self.status@,
            running: self.running,
            started_at: self.started_at,
            own: self.own,
            current_tool: opt(self.current_tool),
            kind: opt(self.kind),
            download_label: opt(self.download_label),
            download_status: opt(self.download_status),
            priority: self.priority@,
            resources: self.resources@,
            skills: self.skills@,
            model: opt(self.model),
            retries: self.retries,
            error: opt(self.error),
            lock_wait_ms: self.lock_wait_ms,
        }
    }
}

impl Duplicate for TaskRow {
    fn duplicate(&self) -> (result: Self) {
        TaskRow {
            task_id: self.task_id.clone(),
            session_id: self.session_id.clone(),
            title: self.title.clone(),
            status: self.status.clone(),
            running: self.running,
            started_at: self.started_at,
            own: self.own,
            current_tool: duplicate_opt(&self.current_tool),
            kind: duplicate_opt(&self.kind),
            download_label: duplicate_opt(&self.download_label),
            download_status: duplicate_opt(&self.download_status),
            priority: self.priority.duplicate(),
            resources: self.resources.duplicate(),
            skills: self.skills.duplicate(),
            model: duplicate_opt(&self.model),
            retries: self.retries,
            error: duplicate_opt(&self.error),
            lock_wait_ms: self.lock_wait_ms,
        }
    }
}

// ---------------------------------------------------------------------------
// Tasks
// ---------------------------------------------------------------------------

/// The first recorded task with an id.
pub open spec fn recorded_task(managed: Seq<ManagedTaskView>, id: Seq<char>) -> Option<
    ManagedTaskView,
>
    decreases managed.len(),
{
    if managed.len() == 0 {
        None
    } else if managed[0].id == id {
        Some(managed[0])
    } else {
        recorded_task(managed.skip(1), id)
    }
}

/// A list without items.
pub open spec fn no_items() -> JsonView {
    JsonView::Array(Seq::empty())
}

/// The row of the task of a session.
#[verifier::opaque]
pub open spec fn session_row(
    row: SessionRowView,
    id: Seq<char>,
    record: Option<ManagedTaskView>,
    priority: JsonView,
) -> TaskRowView {
    TaskRowView {
        task_id: id,
        session_id: row.session_id,
        title: match row.title {
            Some(title) => title,
            None => "新对话"@,
        },
        status: row.task.shown_phase(),
        running: row.task.running,
        started_at: row.task.started_at,
        own: true,
        current_tool: row.task.current_tool,
        kind: match row.task.download {
            Some(_) => Some("download"@),
            None => None,
        },
        download_label: match row.task.download {
            Some(download) => Some(download.label),
            None => None,
        },
        download_status: match row.task.download {
            Some(download) => Some(download.status),
            None => None,
        },
        priority: match record {
            Some(task) => task.priority,
            None => priority,
        },
        resources: match record {
            Some(task) => task.resources,
            None => no_items(),
        },
        skills: match record {
            Some(task) => task.skills,
            None => no_items(),
        },
        model: match record {
            Some(task) => task.model,
            None => None,
        },
        retries: match record {
            Some(task) => task.retries,
            None => 0,
        },
        error: match record {
            Some(task) => task.error,
            None => None,
        },
        lock_wait_ms: match record {
            Some(task) => task.lock_wait_ms,
            None => 0,
        },
    }
}

/// The rows of the sessions that have a task.
pub open spec fn session_rows(
    rows: Seq<SessionRowView>,
    managed: Seq<ManagedTaskView>,
    priority: JsonView,
) -> Seq<TaskRowView>
    decreases rows.len(),
{
    if rows.len() == 0 {
        Seq::empty()
    } else {
        let before = session_rows(rows.drop_last(), managed, priority);
        match rows.last().task.task_id {
            Some(id) => before.push(
                session_row(rows.last(), id, recorded_task(managed, id), priority),
            ),
            None => before,
        }
    }
}

/// The title of a recorded task.
pub open spec fn kind_title(kind: Seq<char>) -> Seq<char> {
    if kind == "runtime_install"@ {
        "ProotLinux Runtime"@
    } else if kind == "cognitive_install"@ {
        "Coomi Life"@
    } else {
        kind
    }
}

/// The row of a recorded task.
#[verifier::opaque]
pub open spec fn managed_row(task: ManagedTaskView) -> TaskRowView {
    TaskRowView {
        task_id: task.id,
        session_id: task.session_id,
        title: kind_title(task.kind),
        status: status_name(task.status),
        running: task.status.under_way(),
        started_at: (task.created_at_ms / 1_000) as u64,
        own: false,
        current_tool: None,
        kind: Some(task.kind),
        download_label: None,
        download_status: None,
        priority: task.priority,
        resources: task.resources,
        skills: task.skills,
        model: task.model,
        retries: task.retries,
        error: task.error,
        lock_wait_ms: task.lock_wait_ms,
    }
}

/// Whether a row has an id.
pub open spec fn has_row(rows: Seq<TaskRowView>, id: Seq<char>) -> bool {
    exists|i: int| 0 <= i < rows.len() && (#[trigger] rows[i]).task_id == id
}

/// The rows of the recorded tasks that no session has.
pub open spec fn managed_rows(managed: Seq<ManagedTaskView>, listed: Seq<TaskRowView>) -> Seq<
    TaskRowView,
>
    decreases managed.len(),
{
    if managed.len() == 0 {
        Seq::empty()
    } else {
        let before = managed_rows(managed.drop_last(), listed);
        if has_row(listed, managed.last().id) {
            before
        } else {
            before.push(managed_row(managed.last()))
        }
    }
}

/// Whether a row is a download under way.
pub open spec fn downloading(row: TaskRowView) -> bool {
    row.kind == Some("download"@) && row.running
}

/// Whether a row comes before another one: downloads under way first, then what started last.
pub open spec fn ahead(a: TaskRowView, b: TaskRowView) -> bool {
    if downloading(a) != downloading(b) {
        downloading(a)
    } else {
        a.started_at > b.started_at
    }
}

/// Rows in order with one more, which goes behind all that it does not come before.
pub open spec fn placed(rows: Seq<TaskRowView>, row: TaskRowView) -> Seq<TaskRowView>
    decreases rows.len(),
{
    if rows.len() > 0 && ahead(row, rows.last()) {
        placed(rows.drop_last(), row).push(rows.last())
    } else {
        rows.push(row)
    }
}

/// Rows in order; rows that do not come before one another stay as they are.
pub open spec fn arranged(rows: Seq<TaskRowView>) -> Seq<TaskRowView>
    decreases rows.len(),
{
    if rows.len() == 0 {
        Seq::empty()
    } else {
        placed(arranged(rows.drop_last()), rows.last())
    }
}

/// The rows of the task list, in order.
pub open spec fn task_rows(
    rows: Seq<SessionRowView>,
    managed: Seq<ManagedTaskView>,
    priority: JsonView,
) -> Seq<TaskRowView> {
    let own = session_rows(rows, managed, priority);
    arranged(own + managed_rows(managed, own))
}

/// The number of rows that are under way.
pub open spec fn running_rows(rows: Seq<TaskRowView>) -> nat
    decreases rows.len(),
{
    if rows.len() == 0 {
        0
    } else {
        running_rows(rows.drop_last()) + if rows.last().running {
            1nat
        } else {
            0nat
        }
    }
}

/// A row as clients see it.
#[verifier::opaque]
pub open spec fn row_data(row: TaskRowView) -> JsonView {
    let front = seq![
        ("task_id"@, JsonView::Text(row.task_id)),
        ("session_id"@, JsonView::Text(row.session_id)),
        ("session_title"@, JsonView::Text(row.title)),
        ("status"@, JsonView::Text(row.status)),
        ("running"@, JsonView::Bool(row.running)),
        ("started_at"@, number_data(row.started_at as nat)),
        ("task_kind"@, nullable_text(row.kind)),
    ];
    let middle = if row.own {
        seq![
            ("current_tool"@, nullable_text(row.current_tool)),
            ("download_label"@, nullable_text(row.download_label)),
            ("download_status"@, nullable_text(row.download_status)),
        ]
    } else {
        Seq::empty()
    };
    JsonView::Object(
        front + middle + seq![
            ("priority"@, row.priority),
            ("resources"@, row.resources),
            ("skills"@, row.skills),
            ("model"@, nullable_text(row.model)),
            ("retries"@, number_data(row.retries as nat)),
            ("error"@, nullable_text(row.error)),
            ("lock_wait_ms"@, number_data(row.lock_wait_ms as nat)),
        ],
    )
}

/// The task list as clients see it.
pub open spec fn task_list_data(rows: Seq<TaskRowView>, limit: nat) -> JsonView {
    JsonView::Object(
        seq![
            ("tasks"@, JsonView::Array(Seq::new(rows.len(), |i: int| row_data(rows[i])))),
            ("running_count"@, number_data(running_rows(rows))),
            ("concurrency_limit"@, number_data(limit)),
        ],
    )
}

fn find_record<'a>(managed: &'a Vec<ManagedTask>, id: &str) -> (result: Option<&'a ManagedTask>)
    ensures
        match result {
            Some(task) => recorded_task(views(managed@), id@) == Some(task@),
            None => recorded_task(views(managed@), id@) is None,
        },
{
    let ghost all = views(managed@);
    let mut i: usize = 0;
    assert(all.skip(0) =~= all);
    while i < managed.len()
        invariant
            i <= managed@.len(),
            all == views(managed@),
            recorded_task(all, id@) == recorded_task(all.skip(i as int), id@),
        decreases managed@.len() - i,
    {
        assert(all.skip(i as int)[0] == managed@[i as int]@);
        assert(all.skip(i as int).skip(1) =~= all.skip(i + 1));
        if same(&managed[i].id, id) {
            return Some(&managed[i]);
        }
        i = i + 1;
    }
    None
}

fn empty_list() -> (result: Json)
    ensures
        result@ == no_items(),
{
    let items: Vec<Json> = Vec::new();
    assert(trees(items@) =~= Seq::empty());
    Json::Array(items)
}

/// A record that may be absent, as its view.
pub open spec fn record_view(record: Option<&ManagedTask>) -> Option<ManagedTaskView> {
    match record {
        Some(task) => Some(task@),
        None => None,
    }
}

fn own_row(row: &SessionRow, id: &String, record: Option<&ManagedTask>, priority: &Json) -> (result:
    TaskRow)
    ensures
        result@ == session_row(row@, id@, record_view(record), priority@),
{
    proof {
        reveal(session_row);
    }
    let task = &row.task;
    let title = match &row.title {
        Some(title) => title.clone(),
        None => "新对话".to_owned(),
    };
    let (kind, download_label, download_status) = match &task.download {
        Some(download) => (
            Some("download".to_owned()),
            Some(download.label.clone()),
            Some(download.status.clone()),
        ),
        None => (None, None, None),
    };
    match record {
        Some(found) => TaskRow {
            task_id: id.clone(),
            session_id: row.session_id.clone(),
            title,
            status: task.current_phase(),
            running: task.running,
            started_at: task.started_at,
            own: true,
            current_tool: duplicate_opt(&task.current_tool),
            kind,
            download_label,
            download_status,
            priority: found.priority.copy(),
            resources: found.resources.copy(),
            skills: found.skills.copy(),
            model: duplicate_opt(&found.model),
            retries: found.retries,
            error: duplicate_opt(&found.error),
            lock_wait_ms: found.lock_wait_ms,
        },
        None => TaskRow {
            task_id: id.clone(),
            session_id: row.session_id.clone(),
            title,
            status: task.current_phase(),
            running: task.running,
            started_at: task.started_at,
            own: true,
            current_tool: duplicate_opt(&task.current_tool),
            kind,
            download_label,
            download_status,
            priority: priority.copy(),
            resources: empty_list(),
            skills: empty_list(),
            model: None,
            retries: 0,
            error: None,
            lock_wait_ms: 0,
        },
    }
}

fn record_row(task: &ManagedTask) -> (result: TaskRow)
    ensures
        result@ == managed_row(task@),
{
    proof {
        reveal(managed_row);
    }
    let title = if same(&task.kind, "runtime_install") {
        "ProotLinux Runtime".to_owned()
    } else if same(&task.kind, "cognitive_install") {
        "Coomi Life".to_owned()
    } else {
        task.kind.clone()
    };
    TaskRow {
        task_id: task.id.clone(),
        session_id: task.session_id.clone(),
        title,
        status: task.status.name(),
        running: task.status.is_under_way(),
        started_at: task.created_at_ms / 1_000,
        own: false,
        current_tool: None,
        kind: Some(task.kind.clone()),
        download_label: None,
        download_status: None,
        priority: task.priority.copy(),
        resources: task.resources.copy(),
        skills: task.skills.copy(),
        model: duplicate_opt(&task.model),
        retries: task.retries,
        error: duplicate_opt(&task.error),
        lock_wait_ms: task.lock_wait_ms,
    }
}

fn is_downloading(row: &TaskRow) -> (result: bool)
    ensures
        result == downloading(row@),
{
    match &row.kind {
        Some(kind) => same(kind, "download") && row.running,
        None => false,
    }
}

fn comes_ahead(a: &TaskRow, b: &TaskRow) -> (result: bool)
    ensures
        result == ahead(a@, b@),
{
    let first = is_downloading(a);
    let second = is_downloading(b);
    if first != second {
        first
    } else {
        a.started_at > b.started_at
    }
}

fn place_row(rows: &mut Vec<TaskRow>, row: TaskRow)
    ensures
        views(final(rows)@) == placed(views(old(rows)@), row@),
{
    let ghost all = views(rows@);
    let mut at: usize = rows.len();
    assert(all.take(at as int) =~= all);
    assert(placed(all, row@) + all.skip(at as int) =~= placed(all, row@));
    while at > 0 && comes_ahead(&row, &rows[at - 1])
        invariant
            at <= rows.len(),
            rows@ == old(rows)@,
            all == views(rows@),
            placed(all, row@) == placed(all.take(at as int), row@) + all.skip(at as int),
        decreases at,
    {
        let ghost part = all.take(at as int);
        assert(part.last() == rows@[at - 1]@);
        assert(part.drop_last() =~= all.take(at - 1));
        assert(placed(all.take(at - 1), row@).push(part.last()) + all.skip(at as int) =~= placed(
            all.take(at - 1),
            row@,
        ) + all.skip(at - 1));
        at = at - 1;
    }
    proof {
        let part = all.take(at as int);
        if at > 0 {
            assert(part.last() == rows@[at - 1]@);
        }
        assert(placed(part, row@) == part.push(row@));
        assert(part.push(row@) + all.skip(at as int) =~= all.insert(at as int, row@));
    }
    rows.insert(at, row);
    assert(views(rows@) =~= all.insert(at as int, row@));
}

/// Lists the tasks, in order. `priority` is the priority of a task that has no record.
pub fn list_task_rows(rows: &Vec<SessionRow>, managed: &Vec<ManagedTask>, priority: &Json) -> (result:
    Vec<TaskRow>)
    ensures
        views(result@) == task_rows(views(rows@), views(managed@), priority@),
{
    let ghost sessions = views(rows@);
    let ghost records = views(managed@);
    let mut own: Vec<TaskRow> = Vec::new();
    let mut i: usize = 0;
    while i < rows.len()
        invariant
            i <= rows@.len(),
            sessions == views(rows@),
            records == views(managed@),
            views(own@) == session_rows(sessions.take(i as int), records, priority@),
        decreases rows@.len() - i,
    {
        let ghost part = sessions.take(i + 1);
        assert(part.drop_last() =~= sessions.take(i as int));
        assert(part.last() == rows@[i as int]@);
        if let Some(id) = &rows[i].task.task_id {
            let record = find_record(managed, id);
            own.push(own_row(&rows[i], id, record, priority));
        }
        i = i + 1;
    }
    assert(sessions.take(i as int) =~= sessions);
    let ghost listed = views(own@);
    let mut others: Vec<TaskRow> = Vec::new();
    let mut k: usize = 0;
    while k < managed.len()
        invariant
            k <= managed@.len(),
            records == views(managed@),
            listed == views(own@),
            views(others@) == managed_rows(records.take(k as int), listed),
        decreases managed@.len() - k,
    {
        let ghost part = records.take(k + 1);
        assert(part.drop_last() =~= records.take(k as int));
        assert(part.last() == managed@[k as int]@);
        if !lists(&own, &managed[k].id) {
            others.push(record_row(&managed[k]));
        }
        k = k + 1;
    }
    assert(records.take(k as int) =~= records);
    let ghost all = listed + views(others@);
    let mut sorted: Vec<TaskRow> = Vec::new();
    let mut a: usize = 0;
    while a < own.len()
        invariant
            a <= own@.len(),
            all == views(own@) + views(others@),
            views(sorted@) == arranged(all.take(a as int)),
        decreases own@.len() - a,
    {
        let ghost part = all.take(a + 1);
        assert(part.drop_last() =~= all.take(a as int));
        assert(part.last() == own@[a as int]@);
        place_row(&mut sorted, own[a].duplicate());
        a = a + 1;
    }
    let mut b: usize = 0;
    while b < others.len()
        invariant
            b <= others@.len(),
            all == views(own@) + views(others@),
            views(sorted@) == arranged(all.take(own@.len() + b)),
        decreases others@.len() - b,
    {
        let ghost part = all.take(own@.len() + b + 1);
        assert(part.drop_last() =~= all.take(own@.len() + b));
        assert(part.last() == others@[b as int]@);
        place_row(&mut sorted, others[b].duplicate());
        b = b + 1;
    }
    assert(all.take(own@.len() + b) =~= all);
    sorted
}

fn lists(rows: &Vec<TaskRow>, id: &str) -> (result: bool)
    ensures
        result == has_row(views(rows@), id@),
{
    let mut i: usize = 0;
    while i < rows.len()
        invariant
            i <= rows@.len(),
            forall|k: int| 0 <= k < i ==> (#[trigger] views(rows@)[k]).task_id != id@,
        decreases rows@.len() - i,
    {
        if same(&rows[i].task_id, id) {
            assert(views(rows@)[i as int].task_id == id@);
            return true;
        }
        i = i + 1;
    }
    false
}

fn show_row(row: &TaskRow) -> (result: Json)
    ensures
        result@ == row_data(row@),
{
    let mut fields = Fields::new();
    fields.add("task_id", Json::text(&row.task_id));
    fields.add("session_id", Json::text(&row.session_id));
    fields.add("session_title", Json::text(&row.title));
    fields.add("status", Json::text(&row.status));
    fields.add("running", Json::Bool(row.running));
    fields.add("started_at", Json::number(row.started_at));
    fields.add("task_kind", text_or_null(&row.kind));
    if row.own {
        fields.add("current_tool", text_or_null(&row.current_tool));
        fields.add("download_label", text_or_null(&row.download_label));
        fields.add("download_status", text_or_null(&row.download_status));
    }
    fields.add("priority", row.priority.copy());
    fields.add("resources", row.resources.copy());
    fields.add("skills", row.skills.copy());
    fields.add("model", text_or_null(&row.model));
    fields.add("retries", Json::number(row.retries));
    fields.add("error", text_or_null(&row.error));
    fields.add("lock_wait_ms", Json::number(row.lock_wait_ms));
    proof {
        reveal(row_data);
        assert(fields@ =~= row_data(row@)->Object_0);
    }
    fields.done()
}

/// Shows the tasks. `priority` is the priority of a task that has no record, `limit` the
/// number of tasks that may run at a time.
pub fn list_tasks(rows: &Vec<SessionRow>, managed: &Vec<ManagedTask>, priority: &Json, limit: usize)
    -> (result: Json)
    ensures
        result@ == task_list_data(
            task_rows(views(rows@), views(managed@), priority@),
            limit as nat,
        ),
{
    let sorted = list_task_rows(rows, managed, priority);
    let ghost all = views(sorted@);
    let ghost wanted = Seq::new(all.len(), |i: int| row_data(all[i]));
    let mut items: Vec<Json> = Vec::new();
    let mut count: usize = 0;
    let mut i: usize = 0;
    assert(trees(items@) =~= wanted.take(0));
    while i < sorted.len()
        invariant
            i <= sorted@.len(),
            all == views(sorted@),
            wanted == Seq::new(all.len(), |i: int| row_data(all[i])),
            trees(items@) == wanted.take(i as int),
            count == running_rows(all.take(i as int)),
            count <= i,
        decreases sorted@.len() - i,
    {
        let ghost part = all.take(i + 1);
        assert(part.drop_last() =~= all.take(i as int));
        assert(part.last() == sorted@[i as int]@);
        let ghost before = items@;
        let item = show_row(&sorted[i]);
        items.push(item);
        assert(trees(items@) =~= trees(before).push(item@));
        assert(wanted.take(i + 1) =~= wanted.take(i as int).push(wanted[i as int]));
        if sorted[i].running {
            count = count + 1;
        }
        i = i + 1;
    }
    assert(all.take(i as int) =~= all);
    assert(wanted.take(i as int) =~= wanted);
    let mut fields = Fields::new();
    fields.add("tasks", Json::Array(items));
    fields.add("running_count", Json::number(count as u64));
    fields.add("concurrency_limit", Json::number(limit as u64));
    assert(fields@ =~= task_list_data(all, limit as nat)->Object_0);
    fields.done()
}

/// A stored session in short.
#[derive(Debug)]
pub struct SessionSummary {
    pub id: String,
    pub provider_id: String,
    pub model: String,
    pub cwd: String,
    pub updated_at: Json,
    pub preview: Json,
    pub title: String,
    pub title_manually_set: bool,
    pub pinned: bool,
    pub summary: Json,
}

/// What a `SessionSummary` holds.
#[verifier::ext_equal]
pub struct SessionSummaryView {
    pub id: Seq<char>,
    pub provider_id: Seq<char>,
    pub model: Seq<char>,
    pub cwd: Seq<char>,
    pub updated_at: JsonView,
    pub preview: JsonView,
    pub title: Seq<char>,
    pub title_manually_set: bool,
    pub pinned: bool,
    pub summary: JsonView,
}

impl View for SessionSummary {
    type V = SessionSummaryView;

    open spec fn view(&self) -> SessionSummaryView {
        SessionSummaryView {
            id: self.id@,
            provider_id: self.provider_id@,
            model: self.model@,
            cwd: self.cwd@,
            updated_at: self.updated_at@,
            preview: self.preview@,
            title: self.title@,
            title_manually_set: self.title_manually_set,
            pinned: self.pinned,
            summary: self.summary@,
        }
    }
}

impl Duplicate for SessionSummary {
    fn duplicate(&self) -> (result: Self) {
        SessionSummary {
            id: self.id.clone(),
            provider_id: self.provider_id.clone(),
            model: self.model.clone(),
            cwd: self.cwd.clone(),
            updated_at: self.updated_at.duplicate(),
            preview: self.preview.duplicate(),
            title: self.title.clone(),
            title_manually_set: self.title_manually_set,
            pinned: self.pinned,
            summary: self.summary.duplicate(),
        }
    }
}

/// What only the whole session tells.
#[derive(Debug)]
pub struct SessionDetails {
    pub mode: Json,
    pub created_at: Json,
    pub usage: TokenUsage,
}

/// What a `SessionDetails` holds.
#[verifier::ext_equal]
pub struct SessionDetailsView {
    pub mode: JsonView,
    pub created_at: JsonView,
    pub usage: TokenUsage,
}

impl View for SessionDetails {
    type V = SessionDetailsView;

    open spec fn view(&self) -> SessionDetailsView {
        SessionDetailsView {
            mode: self.mode@,
            created_at: self.created_at@,
            usage: self.usage,
        }
    }
}

impl Duplicate for SessionDetails {
    fn duplicate(&self) -> (result: Self) {
        SessionDetails {
            mode: self.mode.duplicate(),
            created_at: self.created_at.duplicate(),
            usage: self.usage,
        }
    }
}

// ---------------------------------------------------------------------------
// Sessions
// ---------------------------------------------------------------------------

/// The tokens of a session as clients see them.
pub open spec fn usage_totals(input: nat, output: nat, total: nat) -> JsonView {
    JsonView::Object(
        seq![
            ("input_tokens"@, number_data(input)),
            ("output_tokens"@, number_data(output)),
            ("total_tokens"@, number_data(total)),
        ],
    )
}

/// A session as clients see it. What the whole session would tell is replaced where it could
/// not be read.
#[verifier::opaque]
pub open spec fn session_data(
    summary: SessionSummaryView,
    details: Option<SessionDetailsView>,
    mode: JsonView,
    running: bool,
) -> JsonView {
    JsonView::Object(
        seq![
            ("id"@, JsonView::Text(summary.id)),
            ("provider_id"@, JsonView::Text(summary.provider_id)),
            ("model"@, JsonView::Text(summary.model)),
            ("cwd"@, JsonView::Text(summary.cwd)),
            ("updated_at"@, summary.updated_at),
            ("preview"@, summary.preview),
            ("title"@, JsonView::Text(summary.title)),
            ("title_manually_set"@, JsonView::Bool(summary.title_manually_set)),
            ("pinned"@, JsonView::Bool(summary.pinned)),
            ("summary"@, summary.summary),
            (
                "mode"@,
                match details {
                    Some(found) => found.mode,
                    None => mode,
                },
            ),
            (
                "created_at"@,
                match details {
                    Some(found) => found.created_at,
                    None => summary.updated_at,
                },
            ),
            (
                "usage"@,
                match details {
                    Some(found) => usage_totals(
                        found.usage.input_tokens as nat,
                        found.usage.output_tokens as nat,
                        found.usage.total() as nat,
                    ),
                    None => usage_totals(0, 0, 0),
                },
            ),
            ("running"@, JsonView::Bool(running)),
        ],
    )
}

fn show_totals(input: u64, output: u64, total: u64) -> (result: Json)
    ensures
        result@ == usage_totals(input as nat, output as nat, total as nat),
{
    let mut fields = Fields::new();
    fields.add("input_tokens", Json::number(input));
    fields.add("output_tokens", Json::number(output));
    fields.add("total_tokens", Json::number(total));
    assert(fields@ =~= usage_totals(input as nat, output as nat, total as nat)->Object_0);
    fields.done()
}

/// Shows a session. `mode` is the mode of a session that could not be read.
pub fn show_session(
    summary: &SessionSummary,
    details: &Option<SessionDetails>,
    mode: &Json,
    running: bool,
) -> (result: Json)
    ensures
        result@ == session_data(summary@, opt(*details), mode@, running),
{
    let (shown_mode, created_at, usage) = match details {
        Some(found) => (
            found.mode.copy(),
            found.created_at.copy(),
            show_totals(
                found.usage.input_tokens,
                found.usage.output_tokens,
                found.usage.total_tokens(),
            ),
        ),
        None => (mode.copy(), summary.updated_at.copy(), show_totals(0, 0, 0)),
    };
    let mut fields = Fields::new();
    fields.add("id", Json::text(&summary.id));
    fields.add("provider_id", Json::text(&summary.provider_id));
    fields.add("model", Json::text(&summary.model));
    fields.add("cwd", Json::text(&summary.cwd));
    fields.add("updated_at", summary.updated_at.copy());
    fields.add("preview", summary.preview.copy());
    fields.add("title", Json::text(&summary.title));
    fields.add("title_manually_set", Json::Bool(summary.title_manually_set));
    fields.add("pinned", Json::Bool(summary.pinned));
    fields.add("summary", summary.summary.copy());
    fields.add("mode", shown_mode);
    fields.add("created_at", created_at);
    fields.add("usage", usage);
    fields.add("running", Json::Bool(running));
    proof {
        reveal(session_data);
        assert(fields@ =~= session_data(summary@, opt(*details), mode@, running)->Object_0);
    }
    fields.done()
}

// ---------------------------------------------------------------------------
// Providers and health
// ---------------------------------------------------------------------------

/// The providers as clients see them.
pub open spec fn provider_list_data(document: ProviderDocumentView) -> JsonView {
    JsonView::Object(
        seq![
            (
                "providers"@,
                JsonView::Array(
                    Seq::new(
                        document.providers.len(),
                        |i: int|
                            provider_data(
                                document.providers[i].0,
                                document.providers[i].1,
                                document.providers[i].0 == document.active,
                            ),
                    ),
                ),
            ),
            ("active"@, JsonView::Text(document.active)),
        ],
    )
}

/// Shows the providers.
pub fn list_providers(document: &ProviderDocument) -> (result: Json)
    ensures
        result@ == provider_list_data(document@),
{
    let ghost wanted = provider_list_data(document@)->Object_0[0].1->Array_0;
    let mut items: Vec<Json> = Vec::new();
    let mut i: usize = 0;
    assert(trees(items@) =~= wanted.take(0));
    while i < document.providers.len()
        invariant
            i <= document.providers.len(),
            wanted == provider_list_data(document@)->Object_0[0].1->Array_0,
            trees(items@) == wanted.take(i as int),
        decreases document.providers.len() - i,
    {
        let ghost before = items@;
        let id = &document.providers[i].0;
        assert(document@.providers[i as int] == (
            document.providers@[i as int].0@,
            document.providers@[i as int].1@,
        ));
        let item = provider_json(id, &document.providers[i].1, same(id, &document.active));
        items.push(item);
        assert(trees(items@) =~= trees(before).push(item@));
        assert(wanted.take(i + 1) =~= wanted.take(i as int).push(wanted[i as int]));
        i = i + 1;
    }
    assert(wanted.take(i as int) =~= wanted);
    let mut fields = Fields::new();
    fields.add("providers", Json::Array(items));
    fields.add("active", Json::text(&document.active));
    assert(fields@ =~= provider_list_data(document@)->Object_0);
    fields.done()
}

/// The health of the bridge as clients see it. Without a provider in use it has to be set up
/// first.
#[verifier::opaque]
pub open spec fn health_data(
    active: Option<ProviderSettingsView>,
    version: Seq<char>,
    cwd: Seq<char>,
    home: Seq<char>,
    tools: nat,
    arch: Seq<char>,
) -> JsonView {
    JsonView::Object(
        seq![
            (
                "status"@,
                JsonView::Text(
                    if active is Some {
                        "ok"@
                    } else {
                        "setup_required"@
                    },
                ),
            ),
            ("version"@, JsonView::Text(version)),
            ("cwd"@, JsonView::Text(cwd)),
            ("home"@, JsonView::Text(home)),
            (
                "engine"@,
                JsonView::Object(
                    seq![
                        ("initialized"@, JsonView::Bool(active is Some)),
                        (
                            "llm"@,
                            match active {
                                Some(provider) => JsonView::Text(provider.model),
                                None => JsonView::Null,
                            },
                        ),
                        ("tools"@, number_data(tools)),
                    ],
                ),
            ),
            ("runtime"@, JsonView::Text("Rust "@ + version + " ("@ + arch + ")"@)),
        ],
    )
}

/// Shows the health of the bridge.
pub fn runtime_health(
    document: &Option<ProviderDocument>,
    version: &str,
    cwd: &str,
    home: &str,
    tools: usize,
    arch: &str,
) -> (result: Json)
    ensures
        result@ == health_data(
            match *document {
                Some(doc) => lookup(doc@.providers, doc@.active),
                None => None,
            },
            version@,
            cwd@,
            home@,
            tools as nat,
            arch@,
        ),
{
    let active = match document {
        Some(doc) => table_get(&doc.providers, &doc.active),
        None => None,
    };
    let ghost found = match document {
        Some(doc) => lookup(doc@.providers, doc@.active),
        None => None,
    };
    let llm = match active {
        Some(provider) => Json::text(&provider.model),
        None => Json::Null,
    };
    let mut engine = Fields::new();
    engine.add("initialized", Json::Bool(active.is_some()));
    engine.add("llm", llm);
    engine.add("tools", Json::number(tools as u64));
    let mut runtime = "Rust ".to_owned();
    runtime.push_str(version);
    runtime.push_str(" (");
    runtime.push_str(arch);
    runtime.push_str(")");
    let mut fields = Fields::new();
    fields.add(
        "status",
        Json::text(
            if active.is_some() {
                "ok"
            } else {
                "setup_required"
            },
        ),
    );
    fields.add("version", Json::text(version));
    fields.add("cwd", Json::text(cwd));
    fields.add("home", Json::text(home));
    proof {
        reveal(health_data);
        let wanted = health_data(found, version@, cwd@, home@, tools as nat, arch@)->Object_0;
        assert(engine@ =~= wanted[4].1->Object_0);
    }
    fields.add("engine", engine.done());
    fields.add("runtime", Json::Text(runtime));
    proof {
        let wanted = health_data(found, version@, cwd@, home@, tools as nat, arch@)->Object_0;
        assert(fields@ =~= wanted);
    }
    fields.done()
}

// ---------------------------------------------------------------------------
// Laws
// ---------------------------------------------------------------------------

/// Whether rows stand in order.
pub open spec fn in_row_order(rows: Seq<TaskRowView>) -> bool {
    forall|i: int, j: int|
        0 <= i < j < rows.len() ==> !ahead(#[trigger] rows[j], #[trigger] rows[i])
}

/// The task list stands in order and holds each row as often as it was there.
pub proof fn tasks_stand_in_order(rows: Seq<TaskRowView>)
    ensures
        in_row_order(arranged(rows)),
        arranged(rows).to_multiset() == rows.to_multiset(),
    decreases rows.len(),
{
    broadcast use vstd::seq_lib::group_to_multiset_ensures;

    if rows.len() == 0 {
        assert(arranged(rows) =~= rows);
    } else {
        tasks_stand_in_order(rows.drop_last());
        placing_keeps_order(arranged(rows.drop_last()), rows.last());
        assert(rows =~= rows.drop_last().push(rows.last()));
    }
}

proof fn placing_keeps_order(rows: Seq<TaskRowView>, row: TaskRowView)
    requires
        in_row_order(rows),
    ensures
        in_row_order(placed(rows, row)),
        placed(rows, row).to_multiset() == rows.to_multiset().insert(row),
        forall|i: int|
            0 <= i < placed(rows, row).len() ==> #[trigger] placed(rows, row)[i] == row
                || rows.contains(placed(rows, row)[i]),
    decreases rows.len(),
{
    broadcast use vstd::seq_lib::group_to_multiset_ensures;

    let now = placed(rows, row);
    if rows.len() > 0 && ahead(row, rows.last()) {
        let front = rows.drop_last();
        assert forall|i: int, j: int| 0 <= i < j < front.len() implies !ahead(
            #[trigger] front[j],
            #[trigger] front[i],
        ) by {
            assert(front[j] == rows[j] && front[i] == rows[i]);
        }
        placing_keeps_order(front, row);
        let inner = placed(front, row);
        assert(rows =~= front.push(rows.last()));
        assert(now.to_multiset() =~= inner.to_multiset().insert(rows.last()));
        assert(rows.to_multiset() =~= front.to_multiset().insert(rows.last()));
        assert(now.to_multiset() =~= rows.to_multiset().insert(row));
        assert forall|i: int| 0 <= i < inner.len() implies !ahead(rows.last(), #[trigger] inner[i])
            && (inner[i] == row || rows.contains(inner[i])) by {
            if inner[i] != row {
                let k = choose|k: int| 0 <= k < front.len() && front[k] == inner[i];
                assert(rows[k] == inner[i]);
                assert(!ahead(rows[rows.len() - 1], rows[k]));
            }
        }
        assert forall|i: int, j: int| 0 <= i < j < now.len() implies !ahead(
            #[trigger] now[j],
            #[trigger] now[i],
        ) by {
            assert(now[i] == inner[i]);
            if j < inner.len() {
                assert(now[j] == inner[j]);
            }
        }
        assert(rows.contains(rows.last())) by {
            assert(rows[rows.len() - 1] == rows.last());
        }
    } else {
        assert forall|i: int, j: int| 0 <= i < j < now.len() implies !ahead(
            #[trigger] now[j],
            #[trigger] now[i],
        ) by {
            assert(now[i] == rows[i]);
            if j < rows.len() {
                assert(now[j] == rows[j]);
            } else {
                let last = rows[rows.len() - 1];
                assert(i < rows.len() - 1 ==> !ahead(rows[rows.len() - 1], rows[i]));
            }
        }
        assert forall|i: int| 0 <= i < now.len() implies #[trigger] now[i] == row || rows.contains(
            now[i],
        ) by {
            if i < rows.len() {
                assert(now[i] == rows[i]);
            }
        }
    }
}

/// A recorded task that a session has is listed once only: with its session.
pub proof fn session_tasks_are_listed_once(
    managed: Seq<ManagedTaskView>,
    listed: Seq<TaskRowView>,
    id: Seq<char>,
)
    requires
        has_row(listed, id),
    ensures
        !has_row(managed_rows(managed, listed), id),
    decreases managed.len(),
{
    if managed.len() > 0 {
        session_tasks_are_listed_once(managed.drop_last(), listed, id);
        reveal(managed_row);
        let before = managed_rows(managed.drop_last(), listed);
        let now = managed_rows(managed, listed);
        if has_row(now, id) {
            let k = choose|k: int| 0 <= k < now.len() && (#[trigger] now[k]).task_id == id;
            if k < before.len() {
                assert(before[k].task_id == id);
            }
        }
    }
}

} // verus!
