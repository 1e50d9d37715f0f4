//! Who may reach the bridge, and who decides on risky calls.

use vstd::prelude::*;
use crate::codec::digest_hex;
use crate::codec::fresh_uuid;
use crate::codec::json_document;
use crate::codec::md5_hex;
use crate::codec::parse_json;
use crate::commands::remove_text;
use crate::commands::removed;
use crate::json::Json;
use crate::json::JsonView;
use crate::json::array_view;
use crate::json::member;
use crate::json::nullable_text;
use crate::json::text_of;
use crate::json::trees;
use crate::json_ops::Fields;
use crate::json_ops::text_or_null;
use crate::numbers::decimal;
use crate::numbers::print_u64;
use crate::overview::ManagedTask;
use crate::overview::ManagedTaskView;
use crate::pieces::split_char;
use crate::pieces::split_on;
use crate::session::ToolCall;
use crate::session::ToolCallView;
use crate::settings::PermissionMode;
use crate::settings::content;
use crate::task::SessionTask;
use crate::task::SessionTaskView;
use crate::table::lookup;
use crate::table::pairs_of;
use crate::table::put;
use crate::table::put_is_found;
use crate::table::table_put;
use crate::task::idle_task;
use crate::task::status_name;
use crate::text::begins;
use crate::text::contains;
use crate::text::has;
use crate::text::list_has;
use crate::text::lower;
use crate::text::same;
use crate::text::starts_with;
use crate::text::texts;
use crate::text::texts_empty;
use crate::text::texts_push;
use crate::text::to_lower;
use crate::views::Duplicate;
use crate::views::duplicate_opt;
use crate::views::opt;
use crate::views::views;

verus! {

broadcast use {texts_push, texts_empty, array_view};

/// What is done with a request.
#[derive(Clone, Copy, Debug, PartialEq, Eq, Structural)]
pub enum Gate {
    /// It is served.
    Pass,
    /// It is told only that the bridge is there.
    Minimal,
    /// It is refused.
    Refuse,
}

/// A request for files of the device.
#[derive(Debug)]
pub struct FileTransferRequest {
    pub request_id: String,
    pub operation: String,
    pub path: Option<String>,
    pub suggested_name: Option<String>,
    pub multiple: bool,
}

/// What a `FileTransferRequest` holds.
#[verifier::ext_equal]
pub struct FileTransferRequestView {
    pub request_id: Seq<char>,
    pub operation: Seq<char>,
    pub path: Option<Seq<char>>,
    pub suggested_name: Option<Seq<char>>,
    pub multiple: bool,
}

impl View for FileTransferRequest {
    type V = FileTransferRequestView;

    open spec fn view(&self) -> FileTransferRequestView {
        FileTransferRequestView {
            request_id: self.request_id@,
            operation: self.operation@,
            path: opt(self.path),
            suggested_name: opt(self.suggested_name),
            multiple: self.multiple,
        }
    }
}

impl Duplicate for FileTransferRequest {
    fn duplicate(&self) -> (result: Self) {
        FileTransferRequest {
            request_id: self.request_id.clone(),
            operation: self.operation.clone(),
            path: duplicate_opt(&self.path),
            suggested_name: duplicate_opt(&self.suggested_name),
            multiple: self.multiple,
        }
    }
}

// ---------------------------------------------------------------------------
// Tokens and origins
// ---------------------------------------------------------------------------

/// What stands behind a prefix, or nothing.
pub open spec fn behind(s: Seq<char>, prefix: Seq<char>) -> Option<Seq<char>> {
    if starts_with(s, prefix) {
        Some(s.skip(prefix.len() as int))
    } else {
        None
    }
}

fn strip(text: &str, prefix: &str) -> (result: Option<String>)
    ensures
        opt(result) == behind(text@, prefix@),
{
    if begins(text, prefix) {
        let count: usize = text.unicode_len();
        let skip: usize = prefix.unicode_len();
        let rest = text.substring_char(skip, count).to_owned();
        assert(rest@ =~= text@.skip(skip as int));
        Some(rest)
    } else {
        None
    }
}

/// The token in the header of a request, or the empty text.
pub open spec fn header_token(header: Option<Seq<char>>) -> Seq<char> {
    match header {
        Some(value) => match behind(value, "Bearer "@) {
            Some(token) => token,
            None => ""@,
        },
        None => ""@,
    }
}

/// The first token among the parts of a query.
pub open spec fn first_token(parts: Seq<Seq<char>>) -> Seq<char>
    decreases parts.len(),
{
    if parts.len() == 0 {
        ""@
    } else {
        match behind(parts[0], "token="@) {
            Some(token) => token,
            None => first_token(parts.skip(1)),
        }
    }
}

/// The token in the query of a request, or the empty text.
pub open spec fn query_token(query: Option<Seq<char>>) -> Seq<char> {
    match query {
        Some(text) => first_token(split_on(text, |c: char| c == '&')),
        None => ""@,
    }
}

/// What is done with a request. Everything but the interface needs the token, where there is
/// one; the question whether the bridge is there is answered in any case.
pub open spec fn gate(
    path: Seq<char>,
    header: Option<Seq<char>>,
    query: Option<Seq<char>>,
    token: Seq<char>,
) -> Gate {
    let shown = header_token(header) == token || query_token(query) == token;
    if !starts_with(path, "/api/"@) && !starts_with(path, "/ws/"@) {
        Gate::Pass
    } else if path == "/api/runtime/health"@ {
        if token.len() > 0 && shown {
            Gate::Pass
        } else {
            Gate::Minimal
        }
    } else if token.len() == 0 || shown {
        Gate::Pass
    } else {
        Gate::Refuse
    }
}

/// A text that may be absent, as its view.
pub open spec fn text_view(value: Option<&String>) -> Option<Seq<char>> {
    match value {
        Some(text) => Some(text@),
        None => None,
    }
}

fn find_header_token(header: Option<&String>) -> (result: String)
    ensures
        result@ == header_token(text_view(header)),
{
    match header {
        Some(value) => match strip(value, "Bearer ") {
            Some(token) => token,
            None => "".to_owned(),
        },
        None => "".to_owned(),
    }
}

fn find_query_token(query: Option<&String>) -> (result: String)
    ensures
        result@ == query_token(text_view(query)),
{
    match query {
        Some(text) => {
            let parts = split_char(text, '&');
            let ghost all = texts(parts@);
            let mut i: usize = 0;
            assert(all.skip(0) =~= all);
            while i < parts.len()
                invariant
                    i <= parts@.len(),
                    all == texts(parts@),
                    query_token(text_view(query)) == first_token(all.skip(i as int)),
                decreases parts@.len() - i,
            {
                assert(all.skip(i as int)[0] == parts@[i as int]@);
                assert(all.skip(i as int).skip(1) =~= all.skip(i + 1));
                if let Some(token) = strip(&parts[i], "token=") {
                    return token;
                }
                i = i + 1;
            }
            "".to_owned()
        },
        None => "".to_owned(),
    }
}

/// Decides what is done with a request.
pub fn auth_layer(path: &str, header: Option<&String>, query: Option<&String>, token: &str) -> (result:
    Gate)
    ensures
        result == gate(path@, text_view(header), text_view(query), token@),
{
    if !begins(path, "/api/") && !begins(path, "/ws/") {
        return Gate::Pass;
    }
    let shown = same(&find_header_token(header), token) || same(&find_query_token(query), token);
    if same(path, "/api/runtime/health") {
        if !token.is_empty() && shown {
            return Gate::Pass;
        }
        return Gate::Minimal;
    }
    if token.is_empty() || shown {
        return Gate::Pass;
    }
    Gate::Refuse
}

/// The pages that may talk to the bridge.
pub open spec fn own_origins(port: u16) -> Seq<Seq<char>> {
    seq![
        "http://127.0.0.1:"@ + decimal(port as nat),
        "http://localhost:"@ + decimal(port as nat),
    ]
}

/// Returns the pages that may talk to the bridge.
pub fn allowed_origins(port: u16) -> (result: Vec<String>)
    ensures
        texts(result@) == own_origins(port),
{
    let number = print_u64(port as u64);
    let mut list: Vec<String> = Vec::new();
    list.push("http://127.0.0.1:".to_owned().concat(&number));
    list.push("http://localhost:".to_owned().concat(&number));
    assert(texts(list@) =~= own_origins(port));
    list
}

/// Tells whether a connection may be opened: from a page of the bridge, or from no page at all.
pub fn origin_allowed(port: u16, origin: Option<&String>) -> (result: bool)
    ensures
        result == match origin {
            Some(text) => own_origins(port).contains(text@),
            None => true,
        },
{
    match origin {
        Some(text) => {
            let list = allowed_origins(port);
            assert(own_origins(port).len() == 2);
            assert(own_origins(port)[0] == list@[0]@ && own_origins(port)[1] == list@[1]@);
            same(text, &list[0]) || same(text, &list[1])
        },
        None => true,
    }
}

/// The bridge without its token, as anybody may see it.
pub open spec fn minimal_health(version: Seq<char>) -> JsonView {
    JsonView::Object(
        seq![("status"@, JsonView::Text("ok"@)), ("version"@, JsonView::Text(version))],
    )
}

/// Shows that the bridge is there, and nothing else.
pub fn show_minimal_health(version: &str) -> (result: Json)
    ensures
        result@ == minimal_health(version@),
{
    let mut fields = Fields::new();
    fields.add("status", Json::text("ok"));
    fields.add("version", Json::text(version));
    assert(fields@ =~= minimal_health(version@)->Object_0);
    fields.done()
}

/// Returns the mark of a program: the digest of its bytes and its version.
pub fn engine_fingerprint(bytes: &[u8], version: &str) -> (result: String)
    ensures
        result@ == md5_hex(bytes@) + " "@ + version@,
{
    let mut text = digest_hex(bytes);
    text.push_str(" ");
    text.push_str(version);
    text
}

// ---------------------------------------------------------------------------
// Tasks of an earlier run
// ---------------------------------------------------------------------------

/// The task of a session as it is taken up from its record.
pub open spec fn restored(record: ManagedTaskView) -> SessionTaskView {
    SessionTaskView {
        task_id: Some(record.id),
        started_at: (record.created_at_ms / 1_000) as u64,
        phase: status_name(record.status),
        ..idle_task()
    }
}

/// Takes up the task of a session from its record.
pub fn restore_task(record: &ManagedTask) -> (result: SessionTask)
    ensures
        result@ == restored(record@),
{
    let mut task = SessionTask::new();
    task.task_id = Some(record.id.clone());
    task.started_at = record.created_at_ms / 1_000;
    let phase = record.status.name();
    task.set_phase(&phase);
    task
}

/// The tasks of all sessions as they are taken up: of several records of a session the last
/// one counts.
pub open spec fn all_restored(records: Seq<ManagedTaskView>) -> Seq<(Seq<char>, SessionTaskView)>
    decreases records.len(),
{
    if records.len() == 0 {
        Seq::empty()
    } else {
        put(all_restored(records.drop_last()), records.last().session_id, restored(records.last()))
    }
}

/// Takes up the tasks of all sessions from their records.
pub fn restore_tasks(records: &Vec<ManagedTask>) -> (result: Vec<(String, SessionTask)>)
    ensures
        pairs_of(result@) == all_restored(views(records@)),
{
    let ghost all = views(records@);
    let mut tasks: Vec<(String, SessionTask)> = Vec::new();
    assert(pairs_of(tasks@) =~= Seq::empty());
    assert(all.take(0) =~= Seq::empty());
    let mut i: usize = 0;
    while i < records.len()
        invariant
            i <= records@.len(),
            all == views(records@),
            pairs_of(tasks@) == all_restored(all.take(i as int)),
        decreases records@.len() - i,
    {
        let ghost part = all.take(i + 1);
        assert(part.drop_last() =~= all.take(i as int));
        assert(part.last() == records@[i as int]@);
        table_put(&mut tasks, records[i].session_id.clone(), restore_task(&records[i]));
        i = i + 1;
    }
    assert(all.take(i as int) =~= all);
    tasks
}

/// No task of an earlier run goes on by itself: whatever was recorded, it is taken up without
/// running and without a request that waits.
pub proof fn restored_tasks_do_not_run(records: Seq<ManagedTaskView>, session: Seq<char>)
    ensures
        match lookup(all_restored(records), session) {
            Some(task) => !task.running && task.approvals.len() == 0 && task.questions.len() == 0
                && task.file_requests.len() == 0,
            None => forall|i: int| 0 <= i < records.len() ==> (#[trigger] records[i]).session_id
                != session,
        },
    decreases records.len(),
{
    if records.len() > 0 {
        let rest = records.drop_last();
        let last = records.last();
        restored_tasks_do_not_run(rest, session);
        put_is_found(all_restored(rest), last.session_id, restored(last), session);
        assert forall|i: int| 0 <= i < records.len() && lookup(all_restored(records), session)
            is None implies (#[trigger] records[i]).session_id != session by {
            if i < rest.len() {
                assert(rest[i] == records[i]);
            }
        }
    }
}

/// The sessions that a list names.
pub open spec fn listed_sessions(items: Seq<JsonView>) -> Seq<Seq<char>>
    decreases items.len(),
{
    if items.len() == 0 {
        Seq::empty()
    } else {
        let before = listed_sessions(items.drop_last());
        match text_of(member(items.last(), "session_id"@)) {
            Some(id) => before.push(id),
            None => before,
        }
    }
}

/// The sessions that a file of checkpoints names, where it holds a list.
pub open spec fn checkpoint_sessions(file: Option<Seq<u8>>) -> Option<Seq<Seq<char>>> {
    match file {
        Some(bytes) => match json_document(bytes) {
            Ok(JsonView::Array(items)) => Some(listed_sessions(items)),
            _ => None,
        },
        None => None,
    }
}

/// The sessions that get a record from the file of checkpoints. The file counts only while
/// there are no records; it is put aside once it was taken over.
pub open spec fn sessions_to_migrate(records: nat, file: Option<Seq<u8>>) -> Option<
    Seq<Seq<char>>,
> {
    if records == 0 {
        checkpoint_sessions(file)
    } else {
        None
    }
}

/// Reads the sessions that a list names.
pub fn sessions_in(items: &Vec<Json>) -> (result: Vec<String>)
    ensures
        texts(result@) == listed_sessions(trees(items@)),
{
    let ghost all = trees(items@);
    let mut result: Vec<String> = Vec::new();
    let mut i: usize = 0;
    while i < items.len()
        invariant
            i <= items@.len(),
            all == trees(items@),
            texts(result@) == listed_sessions(all.take(i as int)),
        decreases items@.len() - i,
    {
        let ghost part = all.take(i + 1);
        assert(part.drop_last() =~= all.take(i as int));
        assert(part.last() == items@[i as int]@);
        if let Some(id) = items[i].text_member("session_id") {
            result.push(id);
        }
        i = i + 1;
    }
    assert(all.take(i as int) =~= all);
    result
}

/// Reads the sessions that get a record from the file of checkpoints. Nothing comes back where
/// there are records already or the file holds no list: then the file is left alone.
pub fn load_task_checkpoints(records: &Vec<ManagedTask>, file: Option<&Vec<u8>>) -> (result: Option<
    Vec<String>,
>)
    ensures
        match result {
            Some(sessions) => sessions_to_migrate(records@.len(), content(file)) == Some(
                texts(sessions@),
            ),
            None => sessions_to_migrate(records@.len(), content(file)) is None,
        },
{
    if records.len() > 0 {
        return None;
    }
    match file {
        Some(bytes) => match parse_json(bytes.as_slice()) {
            Ok(Json::Array(items)) => Some(sessions_in(&items)),
            _ => None,
        },
        None => None,
    }
}

// ---------------------------------------------------------------------------
// Approval
// ---------------------------------------------------------------------------

/// How far a call reaches, by the reason for which it needs approval.
pub open spec fn access_of(reason: Seq<char>) -> Seq<char> {
    let text = lower(reason);
    if contains(text, "delete"@) || contains(text, "overwrite"@) || contains(
        text,
        "destructive"@,
    ) {
        "destructive"@
    } else if contains(text, "write"@) || contains(text, "change"@) || contains(
        text,
        "process"@,
    ) {
        "write"@
    } else {
        "read_only"@
    }
}

/// Tells how far a call reaches, by the reason for which it needs approval.
pub fn approval_access(reason: &str) -> (result: String)
    ensures
        result@ == access_of(reason@),
{
    let text = to_lower(reason);
    let kind = if has(&text, "delete") || has(&text, "overwrite") || has(&text, "destructive") {
        "destructive"
    } else if has(&text, "write") || has(&text, "change") || has(&text, "process") {
        "write"
    } else {
        "read_only"
    };
    kind.to_owned()
}

/// Whether a call is approved without asking.
pub open spec fn approved_unasked(mode: PermissionMode, reason: Seq<char>) -> bool {
    mode == PermissionMode::Full || (mode == PermissionMode::Auto && !contains(
        lower(reason),
        "delete"@,
    ))
}

/// The event that asks for approval.
pub open spec fn approval_event(call: ToolCallView, reason: Seq<char>) -> JsonView {
    JsonView::Object(
        seq![
            ("event_type"@, JsonView::Text("tool_approval_request"@)),
            ("call_id"@, JsonView::Text(call.id)),
            ("tool_name"@, JsonView::Text(call.name)),
            ("arguments"@, call.arguments),
            ("access"@, JsonView::Text(access_of(reason))),
            ("risk_summary"@, JsonView::Text(reason)),
        ],
    )
}

/// A task that asks for the approval of a call.
pub open spec fn approval_sought(task: SessionTaskView, call: ToolCallView, reason: Seq<char>)
    -> SessionTaskView {
    (SessionTaskView {
        approvals: if task.approvals.contains(call.id) {
            task.approvals
        } else {
            task.approvals.push(call.id)
        },
        ..task
    }).pushed(approval_event(call, reason))
}

/// A task that puts questions to the user.
pub open spec fn questions_put(task: SessionTaskView, id: Seq<char>, questions: Seq<JsonView>)
    -> SessionTaskView {
    (SessionTaskView { questions: task.questions.push(id), ..task }).pushed(
        question_event(id, questions),
    )
}

/// A task that asks for files.
pub open spec fn files_sought(task: SessionTaskView, request: FileTransferRequestView)
    -> SessionTaskView {
    (SessionTaskView {
        file_requests: if task.file_requests.contains(request.request_id) {
            task.file_requests
        } else {
            task.file_requests.push(request.request_id)
        },
        ..task
    }).pushed(file_event(request))
}

/// Asks the client to approve a call, unless it is approved without asking. Tells whether it
/// is approved already.
pub fn approve(task: &mut SessionTask, mode: PermissionMode, call: &ToolCall, reason: &str) -> (approved:
    bool)
    ensures
        approved == approved_unasked(mode, reason@),
        final(task)@ == if approved {
            old(task)@
        } else {
            approval_sought(old(task)@, call@, reason@)
        },
{
    if mode == PermissionMode::Full {
        return true;
    }
    if mode == PermissionMode::Auto {
        let deletes = has(&to_lower(reason), "delete");
        if !deletes {
            return true;
        }
    }
    if !list_has(&task.approvals, &call.id) {
        task.approvals.push(call.id.clone());
    }
    let mut fields = Fields::new();
    fields.add("event_type", Json::text("tool_approval_request"));
    fields.add("call_id", Json::text(&call.id));
    fields.add("tool_name", Json::text(&call.name));
    fields.add("arguments", call.arguments.copy());
    fields.add("access", Json::Text(approval_access(reason)));
    fields.add("risk_summary", Json::text(reason));
    assert(fields@ =~= approval_event(call@, reason@)->Object_0);
    task.push_event(fields.done());
    false
}

/// The event that asks questions.
pub open spec fn question_event(id: Seq<char>, questions: Seq<JsonView>) -> JsonView {
    JsonView::Object(
        seq![
            ("event_type"@, JsonView::Text("user_question_request"@)),
            ("call_id"@, JsonView::Text(id)),
            ("questions"@, JsonView::Array(questions)),
        ],
    )
}

/// How long an answer is waited for.
pub open spec fn answer_wait(asked: Option<u64>) -> u64 {
    match asked {
        Some(ms) => if ms < 1_000 {
            1_000
        } else if ms > 300_000 {
            300_000
        } else {
            ms
        },
        None => 300_000,
    }
}

/// Asks the client questions under an id.
pub fn ask_under(task: &mut SessionTask, id: String, questions: Vec<Json>)
    ensures
        final(task)@ == questions_put(old(task)@, id@, trees(questions@)),
{
    task.questions.push(id.clone());
    let mut fields = Fields::new();
    fields.add("event_type", Json::text("user_question_request"));
    fields.add("call_id", Json::Text(id));
    fields.add("questions", Json::Array(questions));
    assert(fields@ =~= question_event(id@, trees(questions@))->Object_0);
    task.push_event(fields.done());
}

/// Asks the client questions, where there are any. Returns the id under which they wait, which
/// is new, and how long an answer is waited for.
pub fn request_user_input(task: &mut SessionTask, questions: Vec<Json>, auto_resolution_ms: Option<u64>)
    -> (result: Option<(String, u64)>)
    ensures
        match result {
            Some((id, wait)) => questions@.len() > 0 && wait == answer_wait(auto_resolution_ms)
                && starts_with(id@, "question-"@) && final(task)@ == questions_put(
                old(task)@,
                id@,
                trees(questions@),
            ),
            None => questions@.len() == 0 && final(task)@ == old(task)@,
        },
{
    if questions.len() == 0 {
        return None;
    }
    let id = "question-".to_owned().concat(&fresh_uuid());
    assert(id@.take("question-"@.len() as int) =~= "question-"@);
    let wait: u64 = match auto_resolution_ms {
        Some(ms) => if ms < 1_000 {
            1_000
        } else if ms > 300_000 {
            300_000
        } else {
            ms
        },
        None => 300_000,
    };
    ask_under(task, id.clone(), questions);
    Some((id, wait))
}

/// The event that asks for files.
pub open spec fn file_event(request: FileTransferRequestView) -> JsonView {
    JsonView::Object(
        seq![
            ("event_type"@, JsonView::Text("file_transfer_request"@)),
            ("request_id"@, JsonView::Text(request.request_id)),
            ("operation"@, JsonView::Text(request.operation)),
            ("path"@, nullable_text(request.path)),
            ("suggested_name"@, nullable_text(request.suggested_name)),
            ("multiple"@, JsonView::Bool(request.multiple)),
        ],
    )
}

/// Asks the client for files. Returns how many seconds are waited for them: handing a file out
/// takes less time than choosing one.
pub fn request_file_transfer(task: &mut SessionTask, request: &FileTransferRequest) -> (seconds: u64)
    ensures
        final(task)@ == files_sought(old(task)@, request@),
        seconds == if request@.operation == "export"@ {
            30
        } else {
            600u64
        },
{
    if !list_has(&task.file_requests, &request.request_id) {
        task.file_requests.push(request.request_id.clone());
    }
    let mut fields = Fields::new();
    fields.add("event_type", Json::text("file_transfer_request"));
    fields.add("request_id", Json::text(&request.request_id));
    fields.add("operation", Json::text(&request.operation));
    fields.add("path", text_or_null(&request.path));
    fields.add("suggested_name", text_or_null(&request.suggested_name));
    fields.add("multiple", Json::Bool(request.multiple));
    assert(fields@ =~= file_event(request@)->Object_0);
    task.push_event(fields.done());
    if same(&request.operation, "export") {
        30
    } else {
        600
    }
}

/// Gives up a request for files that nobody answered in time.
pub fn expire_file_request(task: &mut SessionTask, request_id: &str)
    ensures
        final(task)@ == (SessionTaskView {
            file_requests: removed(old(task)@.file_requests, request_id@),
            ..old(task)@
        }),
{
    task.file_requests = remove_text(&task.file_requests, request_id);
}

// ---------------------------------------------------------------------------
// Laws
// ---------------------------------------------------------------------------

/// Where there is a token, a request that does not show it reaches nothing but the interface
/// and the bare answer that the bridge is there.
pub proof fn the_token_is_needed(
    path: Seq<char>,
    header: Option<Seq<char>>,
    query: Option<Seq<char>>,
    token: Seq<char>,
)
    requires
        token.len() > 0,
        header_token(header) != token,
        query_token(query) != token,
        starts_with(path, "/api/"@) || starts_with(path, "/ws/"@),
    ensures
        gate(path, header, query, token) != Gate::Pass,
        path != "/api/runtime/health"@ ==> gate(path, header, query, token) == Gate::Refuse,
{
}

/// Where deletion is the reason, a call is approved without asking only where everything is.
pub proof fn deletions_are_asked_about(mode: PermissionMode, reason: Seq<char>)
    requires
        contains(lower(reason), "delete"@),
    ensures
        approved_unasked(mode, reason) == (mode == PermissionMode::Full),
        access_of(reason) == "destructive"@,
{
}

/// Where the user wants to be asked, every call that needs approval is asked about.
pub proof fn asking_asks(reason: Seq<char>)
    ensures
        !approved_unasked(PermissionMode::Ask, reason),
{
}

} // verus!
