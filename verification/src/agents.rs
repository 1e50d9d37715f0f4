//! Sub-agents: delegated tasks that run beside the main conversation.

use vstd::prelude::*;
use crate::codec::fresh_uuid;
use crate::events::AgentEvent;
use crate::events::AgentEventView;
use crate::failure::clamped;
use crate::json::array_view;
use crate::json::field_trees;
use crate::json::field_trees_push;
use crate::json::object_view;
use crate::json::trees;
use crate::json::trees_push;
use crate::json::Json;
use crate::json::JsonView;
use crate::numbers::decimal;
use crate::numbers::parse_up_to;
use crate::numbers::parsed;
use crate::numbers::print_u128;
use crate::numbers::print_usize;
use crate::order::precedes;
use crate::order::text_precedes;
use crate::session::ChatMessage;
use crate::session::ChatMessageView;
use crate::session::Role;
use crate::text::blank;
use crate::text::is_blank;
use crate::text::join;
use crate::text::joined;
use crate::text::same;
use crate::text::texts;
use crate::text::texts_empty;
use crate::text::texts_push;
use crate::views::duplicate_all;
use crate::views::duplicate_opt;
use crate::views::group_views;
use crate::views::opt;
use crate::views::views;
use crate::views::Duplicate;

verus! {

broadcast use {group_views, texts_push, texts_empty, array_view, object_view, field_trees_push, trees_push};

/// What an agent may do to files and processes.
#[derive(Clone, Copy, Debug, PartialEq, Eq, Structural)]
pub enum AccessMode {
    ReadOnly,
    WorkspaceWrite,
    FullAccess,
}

/// A model of a provider.
#[derive(Debug)]
pub struct ProviderRef {
    pub id: String,
    pub model: String,
}

/// What a `ProviderRef` holds.
#[verifier::ext_equal]
pub struct ProviderRefView {
    pub id: Seq<char>,
    pub model: Seq<char>,
}

impl View for ProviderRef {
    type V = ProviderRefView;

    open spec fn view(&self) -> ProviderRefView {
        ProviderRefView {
            id: self.id@,
            model: self.model@,
        }
    }
}

impl Duplicate for ProviderRef {
    fn duplicate(&self) -> (result: Self) {
        ProviderRef {
            id: self.id.clone(),
            model: self.model.clone(),
        }
    }
}

/// A model that tasks can be delegated to.
#[derive(Debug)]
pub struct ConfiguredSubAgent {
    pub id: String,
    pub provider: ProviderRef,
    pub description: String,
}

/// What a `ConfiguredSubAgent` holds.
#[verifier::ext_equal]
pub struct ConfiguredSubAgentView {
    pub id: Seq<char>,
    pub provider: ProviderRefView,
    pub description: Seq<char>,
}

impl View for ConfiguredSubAgent {
    type V = ConfiguredSubAgentView;

    open spec fn view(&self) -> ConfiguredSubAgentView {
        ConfiguredSubAgentView {
            id: self.id@,
            provider: self.provider@,
            description: self.description@,
        }
    }
}

impl Duplicate for ConfiguredSubAgent {
    fn duplicate(&self) -> (result: Self) {
        ConfiguredSubAgent {
            id: self.id.clone(),
            provider: self.provider.duplicate(),
            description: self.description.clone(),
        }
    }
}

/// How a delegated task stands.
#[derive(Debug)]
pub struct AgentSnapshot {
    pub id: String,
    pub status: String,
    pub task: String,
    pub output: String,
    pub elapsed_ms: u128,
}

/// What a `AgentSnapshot` holds.
#[verifier::ext_equal]
pub struct AgentSnapshotView {
    pub id: Seq<char>,
    pub status: Seq<char>,
    pub task: Seq<char>,
    pub output: Seq<char>,
    pub elapsed_ms: u128,
}

impl View for AgentSnapshot {
    type V = AgentSnapshotView;

    open spec fn view(&self) -> AgentSnapshotView {
        AgentSnapshotView {
            id: self.id@,
            status: self.status@,
            task: self.task@,
            output: self.output@,
            elapsed_ms: self.elapsed_ms,
        }
    }
}

impl Duplicate for AgentSnapshot {
    fn duplicate(&self) -> (result: Self) {
        AgentSnapshot {
            id: self.id.clone(),
            status: self.status.clone(),
            task: self.task.clone(),
            output: self.output.clone(),
            elapsed_ms: self.elapsed_ms,
        }
    }
}

/// A delegated task.
#[derive(Debug)]
pub struct AgentRecord {
    pub id: String,
    pub task: String,
    pub status: String,
    pub output: String,
    pub started_ms: u128,
}

/// What a `AgentRecord` holds.
#[verifier::ext_equal]
pub struct AgentRecordView {
    pub id: Seq<char>,
    pub task: Seq<char>,
    pub status: Seq<char>,
    pub output: Seq<char>,
    pub started_ms: u128,
}

impl View for AgentRecord {
    type V = AgentRecordView;

    open spec fn view(&self) -> AgentRecordView {
        AgentRecordView {
            id: self.id@,
            task: self.task@,
            status: self.status@,
            output: self.output@,
            started_ms: self.started_ms,
        }
    }
}

impl Duplicate for AgentRecord {
    fn duplicate(&self) -> (result: Self) {
        AgentRecord {
            id: self.id.clone(),
            task: self.task.clone(),
            status: self.status.clone(),
            output: self.output.clone(),
            started_ms: self.started_ms,
        }
    }
}

/// The delegated tasks of a conversation.
#[derive(Debug)]
pub struct AgentScheduler {
    pub cwd: String,
    pub home: String,
    pub provider: ProviderRef,
    pub sub_agents: Vec<ConfiguredSubAgent>,
    pub fallback_sub_agent_id: Option<String>,
    pub policy: AccessMode,
    pub system_prompt: String,
    pub persistent_memory: bool,
    /// How many tasks may run at once.
    pub max_agents: usize,
    /// The tasks, in the order of their ids.
    pub agents: Vec<AgentRecord>,
}

/// What a `AgentScheduler` holds.
#[verifier::ext_equal]
pub struct AgentSchedulerView {
    pub cwd: Seq<char>,
    pub home: Seq<char>,
    pub provider: ProviderRefView,
    pub sub_agents: Seq<ConfiguredSubAgentView>,
    pub fallback_sub_agent_id: Option<Seq<char>>,
    pub policy: AccessMode,
    pub system_prompt: Seq<char>,
    pub persistent_memory: bool,
    pub max_agents: usize,
    pub agents: Seq<AgentRecordView>,
}

impl View for AgentScheduler {
    type V = AgentSchedulerView;

    open spec fn view(&self) -> AgentSchedulerView {
        AgentSchedulerView {
            cwd: self.cwd@,
            home: self.home@,
            provider: self.provider@,
            sub_agents: views(self.sub_agents@),
            fallback_sub_agent_id: opt(self.fallback_sub_agent_id),
            policy: self.policy,
            system_prompt: self.system_prompt@,
            persistent_memory: self.persistent_memory,
            max_agents: self.max_agents,
            agents: views(self.agents@),
        }
    }
}

impl Duplicate for AgentScheduler {
    fn duplicate(&self) -> (result: Self) {
        AgentScheduler {
            cwd: self.cwd.clone(),
            home: self.home.clone(),
            provider: self.provider.duplicate(),
            sub_agents: duplicate_all(&self.sub_agents),
            fallback_sub_agent_id: duplicate_opt(&self.fallback_sub_agent_id),
            policy: self.policy,
            system_prompt: self.system_prompt.clone(),
            persistent_memory: self.persistent_memory,
            max_agents: self.max_agents,
            agents: duplicate_all(&self.agents),
        }
    }
}

// ---------------------------------------------------------------------------
// Forked history
// ---------------------------------------------------------------------------

/// The positions of the user's messages.
pub open spec fn user_positions(messages: Seq<ChatMessageView>) -> Seq<int>
    decreases messages.len(),
{
    if messages.len() == 0 {
        Seq::empty()
    } else {
        let before = user_positions(messages.drop_last());
        if messages.last().role == Role::User {
            before.push(messages.len() - 1)
        } else {
            before
        }
    }
}

/// Where the last `turns` messages of the user begin; all of them where there are fewer.
pub open spec fn fork_start(messages: Seq<ChatMessageView>, turns: nat) -> int {
    let positions = user_positions(messages);
    if positions.len() == 0 {
        0
    } else if positions.len() <= turns {
        positions[0]
    } else {
        positions[positions.len() - turns]
    }
}

/// The part of a conversation that a delegated task starts with: nothing, everything, or
/// everything from one of the user's last messages on.
pub open spec fn forked(messages: Seq<ChatMessageView>, fork_turns: Option<Seq<char>>) -> Result<
    Seq<ChatMessageView>,
    Seq<char>,
> {
    let wanted = match fork_turns {
        Some(text) => text,
        None => "all"@,
    };
    if wanted == "none"@ {
        Ok(Seq::empty())
    } else if wanted == "all"@ {
        Ok(messages)
    } else {
        match parsed(wanted, usize::MAX as nat) {
            None => Err("fork_turns must be none, all, or a positive integer"@),
            Some(turns) => if turns == 0 {
                Err("fork_turns must be positive"@)
            } else {
                Ok(messages.skip(fork_start(messages, turns)))
            },
        }
    }
}

/// What a fallible step comes to.
pub open spec fn outcome<T: View>(result: Result<T, String>) -> Result<T::V, Seq<char>> {
    match result {
        Ok(value) => Ok(value@),
        Err(message) => Err(message@),
    }
}

/// The positions are those of the user's messages, in order.
proof fn user_positions_are_in_range(messages: Seq<ChatMessageView>)
    ensures
        user_positions(messages).len() <= messages.len(),
        forall|i: int|
            0 <= i < user_positions(messages).len() ==> 0 <= #[trigger] user_positions(messages)[i]
                < messages.len() && messages[user_positions(messages)[i]].role == Role::User,
        forall|i: int, j: int|
            0 <= i < j < user_positions(messages).len() ==> (#[trigger] user_positions(messages)[i])
                < (#[trigger] user_positions(messages)[j]),
    decreases messages.len(),
{
    if messages.len() > 0 {
        user_positions_are_in_range(messages.drop_last());
    }
}

/// Finds the positions of the user's messages.
fn find_user_positions(messages: &Vec<ChatMessage>) -> (result: Vec<usize>)
    ensures
        result@.len() == user_positions(views(messages@)).len(),
        forall|i: int|
            0 <= i < result@.len() ==> (#[trigger] result@[i]) as int == user_positions(
                views(messages@),
            )[i],
{
    let ghost all = views(messages@);
    let mut result: Vec<usize> = Vec::new();
    let mut i: usize = 0;
    while i < messages.len()
        invariant
            i <= messages@.len(),
            all == views(messages@),
            result@.len() == user_positions(all.take(i as int)).len(),
            forall|k: int|
                0 <= k < result@.len() ==> (#[trigger] result@[k]) as int == user_positions(
                    all.take(i as int),
                )[k],
        decreases messages@.len() - i,
    {
        let ghost part = all.take(i + 1);
        assert(part.drop_last() =~= all.take(i as int));
        assert(part.last() == messages@[i as int]@);
        if messages[i].role == Role::User {
            result.push(i);
        }
        i = i + 1;
    }
    assert(all.take(i as int) =~= all);
    result
}

/// Copies the messages from a position on.
fn copy_from(messages: &Vec<ChatMessage>, start: usize) -> (result: Vec<ChatMessage>)
    requires
        start <= messages@.len(),
    ensures
        views(result@) == views(messages@).skip(start as int),
{
    let ghost all = views(messages@);
    let mut result: Vec<ChatMessage> = Vec::new();
    let mut i: usize = start;
    while i < messages.len()
        invariant
            start <= i <= messages@.len(),
            all == views(messages@),
            views(result@) == all.subrange(start as int, i as int),
        decreases messages@.len() - i,
    {
        result.push(messages[i].duplicate());
        assert(all.subrange(start as int, i + 1) =~= all.subrange(start as int, i as int).push(
            all[i as int],
        ));
        i = i + 1;
    }
    assert(all.subrange(start as int, i as int) =~= all.skip(start as int));
    result
}

/// Takes the part of a conversation that a delegated task starts with.
pub fn fork_history(messages: &Vec<ChatMessage>, fork_turns: Option<&str>) -> (result: Result<
    Vec<ChatMessage>,
    String,
>)
    ensures
        ({
            let wanted = forked(
                views(messages@),
                match fork_turns {
                    Some(text) => Some(text@),
                    None => None,
                },
            );
            match result {
                Ok(history) => wanted == Ok::<Seq<ChatMessageView>, Seq<char>>(views(history@)),
                Err(message) => wanted == Err::<Seq<ChatMessageView>, Seq<char>>(message@),
            }
        }),
{
    let wanted = match fork_turns {
        Some(text) => text,
        None => "all",
    };
    if same(wanted, "none") {
        let history: Vec<ChatMessage> = Vec::new();
        assert(views(history@) =~= Seq::<ChatMessageView>::empty());
        return Ok(history);
    }
    if same(wanted, "all") {
        return Ok(duplicate_all(messages));
    }
    match parse_up_to(wanted, usize::MAX as u64) {
        None => Err("fork_turns must be none, all, or a positive integer".to_owned()),
        Some(n) => {
            if n == 0 {
                return Err("fork_turns must be positive".to_owned());
            }
            let turns: usize = n as usize;
            proof {
                user_positions_are_in_range(views(messages@));
            }
            let positions = find_user_positions(messages);
            let start: usize = if positions.len() == 0 {
                0
            } else if positions.len() <= turns {
                positions[0]
            } else {
                positions[positions.len() - turns]
            };
            Ok(copy_from(messages, start))
        },
    }
}

// ---------------------------------------------------------------------------
// Records
// ---------------------------------------------------------------------------

/// Whether records stand in the order of their ids, each id once.
pub open spec fn records_ordered(records: Seq<AgentRecordView>) -> bool {
    forall|i: int, j: int|
        0 <= i < j < records.len() ==> precedes(
            (#[trigger] records[i]).id,
            (#[trigger] records[j]).id,
        )
}

/// The record with an id.
pub open spec fn find_record(records: Seq<AgentRecordView>, id: Seq<char>) -> Option<AgentRecordView>
    decreases records.len(),
{
    if records.len() == 0 {
        None
    } else if records[0].id == id {
        Some(records[0])
    } else {
        find_record(records.skip(1), id)
    }
}

/// Records with one more, at its place in the order. It replaces the one with its id.
pub open spec fn with_record(records: Seq<AgentRecordView>, record: AgentRecordView) -> Seq<
    AgentRecordView,
>
    decreases records.len(),
{
    if records.len() == 0 {
        seq![record]
    } else if records[0].id == record.id {
        seq![record] + records.skip(1)
    } else if precedes(record.id, records[0].id) {
        seq![record] + records
    } else {
        seq![records[0]] + with_record(records.skip(1), record)
    }
}

/// How many tasks are running.
pub open spec fn running_count(records: Seq<AgentRecordView>) -> nat
    decreases records.len(),
{
    if records.len() == 0 {
        0
    } else {
        running_count(records.skip(1)) + if records[0].status == "running"@ {
            1nat
        } else {
            0nat
        }
    }
}

/// How a task stands at `now_ms`.
pub open spec fn snapshot_of(record: AgentRecordView, now_ms: u128) -> AgentSnapshotView {
    AgentSnapshotView {
        id: record.id,
        status: record.status,
        task: record.task,
        output: record.output,
        elapsed_ms: if now_ms < record.started_ms {
            0
        } else {
            (now_ms - record.started_ms) as u128
        },
    }
}

/// How all tasks stand.
pub open spec fn all_snapshots(records: Seq<AgentRecordView>, now_ms: u128) -> Seq<
    AgentSnapshotView,
> {
    Seq::new(records.len(), |i: int| snapshot_of(records[i], now_ms))
}

/// How the tasks with the given ids stand, in the order of the ids; unknown ids are left out.
pub open spec fn chosen_snapshots(
    records: Seq<AgentRecordView>,
    ids: Seq<Seq<char>>,
    now_ms: u128,
) -> Seq<AgentSnapshotView>
    decreases ids.len(),
{
    if ids.len() == 0 {
        Seq::empty()
    } else {
        let before = chosen_snapshots(records, ids.drop_last(), now_ms);
        match find_record(records, ids.last()) {
            Some(record) => before.push(snapshot_of(record, now_ms)),
            None => before,
        }
    }
}

/// How the tasks stand that are asked for; without ids, all of them.
pub open spec fn snapshots_at(
    records: Seq<AgentRecordView>,
    ids: Seq<Seq<char>>,
    now_ms: u128,
) -> Seq<AgentSnapshotView> {
    if ids.len() == 0 {
        all_snapshots(records, now_ms)
    } else {
        chosen_snapshots(records, ids, now_ms)
    }
}

/// Records in which the one with an id got another state and more output.
pub open spec fn updated_record(
    records: Seq<AgentRecordView>,
    id: Seq<char>,
    status: Option<Seq<char>>,
    more: Seq<char>,
) -> Seq<AgentRecordView>
    decreases records.len(),
{
    if records.len() == 0 {
        records
    } else if records[0].id == id {
        seq![
            AgentRecordView {
                status: match status {
                    Some(text) => text,
                    None => records[0].status,
                },
                output: records[0].output + more,
                ..records[0]
            },
        ] + records.skip(1)
    } else {
        seq![records[0]] + updated_record(records.skip(1), id, status, more)
    }
}

/// What a failure adds to the output of a task.
pub open spec fn failure_note(output: Seq<char>, error: Seq<char>) -> Seq<char> {
    (if output.len() == 0 {
        Seq::empty()
    } else {
        "\n\n"@
    }) + ("agent failed: "@ + error)
}

/// Copies a snapshot list entry.
fn take_snapshot(record: &AgentRecord, now_ms: u128) -> (result: AgentSnapshot)
    ensures
        result@ == snapshot_of(record@, now_ms),
{
    let elapsed_ms: u128 = if now_ms < record.started_ms {
        0
    } else {
        now_ms - record.started_ms
    };
    AgentSnapshot {
        id: record.id.clone(),
        status: record.status.clone(),
        task: record.task.clone(),
        output: record.output.clone(),
        elapsed_ms,
    }
}

/// Finds the record with an id.
fn position_of(records: &Vec<AgentRecord>, id: &str) -> (result: Option<usize>)
    ensures
        match result {
            Some(i) => i < records@.len() && records@[i as int]@.id == id@ && find_record(
                views(records@),
                id@,
            ) == Some(records@[i as int]@) && forall|k: int|
                0 <= k < i ==> (#[trigger] records@[k])@.id != id@,
            None => find_record(views(records@), id@) is None && forall|k: int|
                0 <= k < records@.len() ==> (#[trigger] records@[k])@.id != id@,
        },
{
    let ghost all = views(records@);
    let mut i: usize = 0;
    assert(all.skip(0) =~= all);
    while i < records.len()
        invariant
            i <= records@.len(),
            all == views(records@),
            find_record(all, id@) == find_record(all.skip(i as int), id@),
            forall|k: int| 0 <= k < i ==> (#[trigger] records@[k])@.id != id@,
        decreases records@.len() - i,
    {
        assert(all.skip(i as int)[0] == records@[i as int]@);
        if same(&records[i].id, id) {
            return Some(i);
        }
        assert(all.skip(i as int).skip(1) =~= all.skip(i + 1));
        i = i + 1;
    }
    None
}

proof fn updated_record_at(
    records: Seq<AgentRecordView>,
    id: Seq<char>,
    status: Option<Seq<char>>,
    more: Seq<char>,
    i: int,
)
    requires
        0 <= i < records.len(),
        records[i].id == id,
        forall|k: int| 0 <= k < i ==> (#[trigger] records[k]).id != id,
    ensures
        updated_record(records, id, status, more) == records.update(
            i,
            AgentRecordView {
                status: match status {
                    Some(text) => text,
                    None => records[i].status,
                },
                output: records[i].output + more,
                ..records[i]
            },
        ),
    decreases i,
{
    let changed = AgentRecordView {
        status: match status {
            Some(text) => text,
            None => records[i].status,
        },
        output: records[i].output + more,
        ..records[i]
    };
    if i == 0 {
        assert(updated_record(records, id, status, more) =~= records.update(0, changed));
    } else {
        let rest = records.skip(1);
        assert forall|k: int| 0 <= k < i - 1 implies (#[trigger] rest[k]).id != id by {
            assert(rest[k] == records[k + 1]);
        }
        assert(records[0].id != id);
        updated_record_at(rest, id, status, more, i - 1);
        assert(updated_record(records, id, status, more) =~= records.update(i, changed));
    }
}

proof fn updated_record_absent(
    records: Seq<AgentRecordView>,
    id: Seq<char>,
    status: Option<Seq<char>>,
    more: Seq<char>,
)
    requires
        forall|k: int| 0 <= k < records.len() ==> (#[trigger] records[k]).id != id,
    ensures
        updated_record(records, id, status, more) == records,
    decreases records.len(),
{
    if records.len() > 0 {
        let rest = records.skip(1);
        assert forall|k: int| 0 <= k < rest.len() implies (#[trigger] rest[k]).id != id by {
            assert(rest[k] == records[k + 1]);
        }
        assert(records[0].id != id);
        updated_record_absent(rest, id, status, more);
        assert(updated_record(records, id, status, more) =~= records);
    }
}

/// Where a record stands in the order, it goes.
proof fn with_record_at(records: Seq<AgentRecordView>, record: AgentRecordView, i: int)
    requires
        0 <= i <= records.len(),
        forall|k: int|
            0 <= k < i ==> (#[trigger] records[k]).id != record.id && !precedes(
                record.id,
                records[k].id,
            ),
        i < records.len() ==> records[i].id == record.id || precedes(record.id, records[i].id),
    ensures
        with_record(records, record) == if i < records.len() && records[i].id == record.id {
            records.update(i, record)
        } else {
            records.insert(i, record)
        },
    decreases i,
{
    let target = if i < records.len() && records[i].id == record.id {
        records.update(i, record)
    } else {
        records.insert(i, record)
    };
    if i == 0 {
        assert(with_record(records, record) =~= target);
    } else {
        let rest = records.skip(1);
        assert(records[0].id != record.id);
        assert forall|k: int| 0 <= k < i - 1 implies (#[trigger] rest[k]).id != record.id
            && !precedes(record.id, rest[k].id) by {
            assert(rest[k] == records[k + 1]);
        }
        if i < records.len() {
            assert(rest[i - 1] == records[i]);
        }
        with_record_at(rest, record, i - 1);
        assert(with_record(records, record) =~= target);
    }
}

// ---------------------------------------------------------------------------
// The scheduler
// ---------------------------------------------------------------------------

/// Why a task is not taken on.
pub open spec fn spawn_refusal(scheduler: AgentSchedulerView, task: Seq<char>) -> Option<Seq<char>> {
    if is_blank(task) {
        Some("agent task must not be empty"@)
    } else if running_count(scheduler.agents) >= scheduler.max_agents {
        Some(
            "agent concurrency limit reached ("@ + decimal(scheduler.max_agents as nat) + ")"@,
        )
    } else {
        None
    }
}

/// What taking on a task with a given id comes to: the conversation that it starts with.
pub open spec fn spawned(
    scheduler: AgentSchedulerView,
    task: Seq<char>,
    parent: Seq<ChatMessageView>,
    fork_turns: Option<Seq<char>>,
) -> Result<Seq<ChatMessageView>, Seq<char>> {
    match spawn_refusal(scheduler, task) {
        Some(message) => Err(message),
        None => forked(parent, fork_turns),
    }
}

/// The scheduler with a task taken on.
pub open spec fn with_task(
    scheduler: AgentSchedulerView,
    id: Seq<char>,
    task: Seq<char>,
    now_ms: u128,
) -> AgentSchedulerView {
    AgentSchedulerView {
        agents: with_record(
            scheduler.agents,
            AgentRecordView {
                id,
                task,
                status: "running"@,
                output: Seq::empty(),
                started_ms: now_ms,
            },
        ),
        ..scheduler
    }
}

/// The sub-agent with an id.
pub open spec fn find_sub_agent(list: Seq<ConfiguredSubAgentView>, id: Seq<char>) -> Option<
    ConfiguredSubAgentView,
>
    decreases list.len(),
{
    if list.len() == 0 {
        None
    } else if list[0].id == id {
        Some(list[0])
    } else {
        find_sub_agent(list.skip(1), id)
    }
}

/// The sub-agent that a task goes to: none where none is configured, else the one asked for,
/// else the fallback.
pub open spec fn selected(scheduler: AgentSchedulerView, asked: Option<Seq<char>>) -> Result<
    Option<ConfiguredSubAgentView>,
    Seq<char>,
> {
    if scheduler.sub_agents.len() == 0 {
        Ok(None)
    } else {
        let requested = if asked is Some {
            asked
        } else {
            scheduler.fallback_sub_agent_id
        };
        match requested {
            None => Err("no fallback sub-agent is configured"@),
            Some(id) => match find_sub_agent(scheduler.sub_agents, id) {
                None => Err("unknown configured sub-agent: "@ + id),
                Some(entry) => Ok(Some(entry)),
            },
        }
    }
}

/// The system prompt of a delegated task.
pub open spec fn delegate_prompt(
    system_prompt: Seq<char>,
    chosen: Option<ConfiguredSubAgentView>,
) -> Seq<char> {
    let role = match chosen {
        Some(entry) => if entry.description.len() > 0 {
            " Your configured role is: "@ + entry.description + "."@
        } else {
            Seq::empty()
        },
        None => Seq::empty(),
    };
    system_prompt + "\n\nYou are a delegated Coomi sub-agent."@ + role
        + " Complete the assigned task independently and return a concise result to the parent agent."@
}

/// How one sub-agent is listed.
pub open spec fn listed(entry: ConfiguredSubAgentView, fallback: Option<Seq<char>>) -> Seq<char> {
    let description = if entry.description.len() == 0 {
        entry.provider.id + ":"@ + entry.provider.model
    } else {
        entry.description
    };
    entry.id + (if fallback == Some(entry.id) {
        " [fallback]"@
    } else {
        ""@
    }) + " ("@ + description + ")"@
}

/// How all sub-agents are listed.
pub open spec fn all_listed(list: Seq<ConfiguredSubAgentView>, fallback: Option<Seq<char>>) -> Seq<
    Seq<char>,
> {
    Seq::new(list.len(), |i: int| listed(list[i], fallback))
}

/// What the model is told of the sub-agents.
pub open spec fn summary_text(scheduler: AgentSchedulerView) -> Seq<char> {
    if scheduler.sub_agents.len() == 0 {
        "No dedicated sub-agent models are configured; omit sub_agent_id to use the main model."@
    } else {
        "Configured sub-agent IDs: "@ + joined(
            all_listed(scheduler.sub_agents, scheduler.fallback_sub_agent_id),
            ", "@,
        ) + ". Use sub_agent_id to select one; omit it to use the fallback."@
    }
}

/// A chosen sub-agent, as its view.
pub open spec fn choice_view(result: Result<Option<ConfiguredSubAgent>, String>) -> Result<
    Option<ConfiguredSubAgentView>,
    Seq<char>,
> {
    match result {
        Ok(choice) => Ok(opt(choice)),
        Err(message) => Err(message@),
    }
}

/// The tasks after an event of one of them: what it wrote is added to its output.
pub open spec fn heard(scheduler: AgentSchedulerView, id: Seq<char>, event: AgentEventView)
    -> AgentSchedulerView {
    match event {
        AgentEventView::Text(text) => AgentSchedulerView {
            agents: updated_record(scheduler.agents, id, None, text),
            ..scheduler
        },
        AgentEventView::TextDelta(text) => AgentSchedulerView {
            agents: updated_record(scheduler.agents, id, None, text),
            ..scheduler
        },
        _ => scheduler,
    }
}

/// The tasks after one of them ended, with an error or without.
pub open spec fn ended(scheduler: AgentSchedulerView, id: Seq<char>, error: Option<Seq<char>>)
    -> AgentSchedulerView {
    match (find_record(scheduler.agents, id), error) {
        (None, _) => scheduler,
        (Some(_), None) => AgentSchedulerView {
            agents: updated_record(scheduler.agents, id, Some("completed"@), Seq::empty()),
            ..scheduler
        },
        (Some(record), Some(message)) => AgentSchedulerView {
            agents: updated_record(
                scheduler.agents,
                id,
                Some("failed"@),
                failure_note(record.output, message),
            ),
            ..scheduler
        },
    }
}

impl AgentScheduler {
    /// A scheduler without sub-agents or tasks.
    pub fn new(
        cwd: String,
        home: String,
        provider: ProviderRef,
        policy: AccessMode,
        system_prompt: String,
    ) -> (result: AgentScheduler)
        ensures
            result@ == (AgentSchedulerView {
                cwd: cwd@,
                home: home@,
                provider: provider@,
                sub_agents: Seq::empty(),
                fallback_sub_agent_id: None,
                policy,
                system_prompt: system_prompt@,
                persistent_memory: true,
                max_agents: 5,
                agents: Seq::empty(),
            }),
    {
        let result = AgentScheduler {
            cwd,
            home,
            provider,
            sub_agents: Vec::new(),
            fallback_sub_agent_id: None,
            policy,
            system_prompt,
            persistent_memory: true,
            max_agents: 5,
            agents: Vec::new(),
        };
        assert(result@.sub_agents =~= Seq::empty());
        assert(result@.agents =~= Seq::empty());
        result
    }

    /// Sets the sub-agents and the one that is taken where none is asked for.
    pub fn with_sub_agents(
        self,
        sub_agents: Vec<ConfiguredSubAgent>,
        fallback_sub_agent_id: Option<String>,
    ) -> (result: AgentScheduler)
        ensures
            result@ == (AgentSchedulerView {
                sub_agents: views(sub_agents@),
                fallback_sub_agent_id: opt(fallback_sub_agent_id),
                ..self@
            }),
    {
        AgentScheduler { sub_agents, fallback_sub_agent_id, ..self }
    }

    /// Keeps delegated tasks from the memory.
    pub fn without_persistent_memory(self) -> (result: AgentScheduler)
        ensures
            result@ == (AgentSchedulerView { persistent_memory: false, ..self@ }),
    {
        AgentScheduler { persistent_memory: false, ..self }
    }

    /// What the model is told of the sub-agents.
    pub fn sub_agent_summary(&self) -> (result: String)
        ensures
            result@ == summary_text(self@),
    {
        if self.sub_agents.len() == 0 {
            return "No dedicated sub-agent models are configured; omit sub_agent_id to use the main model.".to_owned();
        }
        let ghost wanted = all_listed(self@.sub_agents, self@.fallback_sub_agent_id);
        let mut parts: Vec<String> = Vec::new();
        let mut i: usize = 0;
        while i < self.sub_agents.len()
            invariant
                i <= self.sub_agents@.len(),
                wanted == all_listed(views(self.sub_agents@), opt(self.fallback_sub_agent_id)),
                texts(parts@) == wanted.take(i as int),
            decreases self.sub_agents@.len() - i,
        {
            let entry = &self.sub_agents[i];
            assert(views(self.sub_agents@)[i as int] == entry@);
            let is_fallback = match &self.fallback_sub_agent_id {
                Some(id) => same(id, &entry.id),
                None => false,
            };
            let mut line = entry.id.clone();
            line.push_str(
                if is_fallback {
                    " [fallback]"
                } else {
                    ""
                },
            );
            line.push_str(" (");
            let ghost opened = line@;
            if entry.description.as_str().is_empty() {
                line.push_str(&entry.provider.id);
                line.push_str(":");
                line.push_str(&entry.provider.model);
            } else {
                line.push_str(&entry.description);
            }
            line.push_str(")");
            assert(line@ =~= listed(entry@, opt(self.fallback_sub_agent_id)));
            parts.push(line);
            assert(wanted.take(i + 1) =~= wanted.take(i as int).push(wanted[i as int]));
            i = i + 1;
        }
        assert(wanted.take(i as int) =~= wanted);
        let mut result = "Configured sub-agent IDs: ".to_owned();
        result.push_str(&join(&parts, ", "));
        result.push_str(". Use sub_agent_id to select one; omit it to use the fallback.");
        result
    }

    /// Counts the tasks that are running.
    fn count_running(&self) -> (result: usize)
        ensures
            result as nat == running_count(self@.agents),
    {
        let ghost all = self@.agents;
        let mut count: usize = 0;
        let mut i: usize = self.agents.len();
        assert(all.skip(i as int).len() == 0);
        while i > 0
            invariant
                i <= self.agents@.len(),
                all == views(self.agents@),
                count as nat == running_count(all.skip(i as int)),
                count <= self.agents.len() - i,
            decreases i,
        {
            i = i - 1;
            assert(all.skip(i as int)[0] == self.agents@[i as int]@);
            assert(all.skip(i as int).skip(1) =~= all.skip(i + 1));
            if same(&self.agents[i].status, "running") {
                count = count + 1;
            }
        }
        assert(all.skip(0) =~= all);
        count
    }

    /// Puts a record at its place.
    fn put(&mut self, record: AgentRecord)
        ensures
            final(self)@ == (AgentSchedulerView {
                agents: with_record(old(self)@.agents, record@),
                ..old(self)@
            }),
    {
        let ghost all = self@.agents;
        let mut i: usize = 0;
        while i < self.agents.len() && self.agents[i].id != record.id && !text_precedes(
            &record.id,
            &self.agents[i].id,
        )
            invariant
                i <= self.agents@.len(),
                self@ == old(self)@,
                all == views(self.agents@),
                forall|k: int|
                    0 <= k < i ==> (#[trigger] all[k]).id != record@.id && !precedes(
                        record@.id,
                        all[k].id,
                    ),
            decreases self.agents@.len() - i,
        {
            assert(all[i as int] == self.agents@[i as int]@);
            i = i + 1;
        }
        proof {
            if i < self.agents@.len() {
                assert(all[i as int] == self.agents@[i as int]@);
            }
            with_record_at(all, record@, i as int);
        }
        if i < self.agents.len() && self.agents[i].id == record.id {
            self.agents.set(i, record);
            assert(views(self.agents@) =~= all.update(i as int, record@));
        } else {
            self.agents.insert(i, record);
            assert(views(self.agents@) =~= all.insert(i as int, record@));
        }
    }

    /// Takes on a task under the id `id`, where nothing speaks against it. Returns the
    /// conversation that it starts with.
    pub fn take_on(
        &mut self,
        id: &str,
        task: &str,
        parent_messages: &Vec<ChatMessage>,
        fork_turns: Option<&str>,
        now_ms: u128,
    ) -> (result: Result<Vec<ChatMessage>, String>)
        ensures
            ({
                let wanted = spawned(
                    old(self)@,
                    task@,
                    views(parent_messages@),
                    match fork_turns {
                        Some(text) => Some(text@),
                        None => None,
                    },
                );
                match result {
                    Ok(history) => {
                        &&& wanted == Ok::<Seq<ChatMessageView>, Seq<char>>(views(history@))
                        &&& final(self)@ == with_task(old(self)@, id@, task@, now_ms)
                    },
                    Err(message) => {
                        &&& wanted == Err::<Seq<ChatMessageView>, Seq<char>>(message@)
                        &&& final(self)@ == old(self)@
                    },
                }
            }),
    {
        if blank(task) {
            return Err("agent task must not be empty".to_owned());
        }
        if self.count_running() >= self.max_agents {
            let mut message = "agent concurrency limit reached (".to_owned();
            message.push_str(&print_usize(self.max_agents));
            message.push_str(")");
            return Err(message);
        }
        let history = match fork_history(parent_messages, fork_turns) {
            Ok(history) => history,
            Err(message) => {
                return Err(message);
            },
        };
        self.put(
            AgentRecord {
                id: id.to_owned(),
                task: task.to_owned(),
                status: "running".to_owned(),
                output: String::new(),
                started_ms: now_ms,
            },
        );
        Ok(history)
    }

    /// Takes on a task under a random id. Returns the id and the conversation that the task
    /// starts with.
    pub fn spawn(
        &mut self,
        task: &str,
        parent_messages: &Vec<ChatMessage>,
        fork_turns: Option<&str>,
        now_ms: u128,
    ) -> (result: Result<(String, Vec<ChatMessage>), String>)
        ensures
            ({
                let wanted = spawned(
                    old(self)@,
                    task@,
                    views(parent_messages@),
                    match fork_turns {
                        Some(text) => Some(text@),
                        None => None,
                    },
                );
                match result {
                    Ok(pair) => {
                        &&& wanted == Ok::<Seq<ChatMessageView>, Seq<char>>(views(pair.1@))
                        &&& final(self)@ == with_task(old(self)@, pair.0@, task@, now_ms)
                        &&& pair.0@.len() == 36
                    },
                    Err(message) => {
                        &&& wanted == Err::<Seq<ChatMessageView>, Seq<char>>(message@)
                        &&& final(self)@ == old(self)@
                    },
                }
            }),
    {
        let id = fresh_uuid();
        match self.take_on(&id, task, parent_messages, fork_turns, now_ms) {
            Ok(history) => Ok((id, history)),
            Err(message) => Err(message),
        }
    }

    /// Chooses the sub-agent that a task goes to.
    pub fn select(&self, sub_agent_id: Option<&str>) -> (result: Result<
        Option<ConfiguredSubAgent>,
        String,
    >)
        ensures
            choice_view(result) == selected(
                self@,
                match sub_agent_id {
                    Some(id) => Some(id@),
                    None => None,
                },
            ),
    {
        if self.sub_agents.len() == 0 {
            return Ok(None);
        }
        let requested: String = match sub_agent_id {
            Some(id) => id.to_owned(),
            None => match &self.fallback_sub_agent_id {
                Some(id) => id.clone(),
                None => {
                    return Err("no fallback sub-agent is configured".to_owned());
                },
            },
        };
        let ghost all = self@.sub_agents;
        let mut i: usize = 0;
        assert(all.skip(0) =~= all);
        while i < self.sub_agents.len()
            invariant
                i <= self.sub_agents@.len(),
                all == views(self.sub_agents@),
                all == self@.sub_agents,
                all.len() > 0,
                Some(requested@) == (if sub_agent_id is Some {
                    Some(sub_agent_id->0@)
                } else {
                    self@.fallback_sub_agent_id
                }),
                find_sub_agent(all, requested@) == find_sub_agent(
                    all.skip(i as int),
                    requested@,
                ),
            decreases self.sub_agents@.len() - i,
        {
            assert(all.skip(i as int)[0] == self.sub_agents@[i as int]@);
            if self.sub_agents[i].id == requested {
                return Ok(Some(self.sub_agents[i].duplicate()));
            }
            assert(all.skip(i as int).skip(1) =~= all.skip(i + 1));
            i = i + 1;
        }
        Err("unknown configured sub-agent: ".to_owned().concat(&requested))
    }

    /// Writes the system prompt of a delegated task.
    pub fn delegate_prompt(&self, chosen: &Option<ConfiguredSubAgent>) -> (result: String)
        ensures
            result@ == delegate_prompt(self@.system_prompt, opt(*chosen)),
    {
        let mut result = self.system_prompt.clone();
        result.push_str("\n\nYou are a delegated Coomi sub-agent.");
        if let Some(entry) = chosen {
            if !entry.description.as_str().is_empty() {
                result.push_str(" Your configured role is: ");
                result.push_str(&entry.description);
                result.push_str(".");
            }
        }
        result.push_str(" Complete the assigned task independently and return a concise result to the parent agent.");
        assert(result@ =~= delegate_prompt(self@.system_prompt, opt(*chosen)));
        result
    }

    /// Changes the state of a task and adds to its output.
    fn update(&mut self, id: &str, status: Option<&str>, more: &str) -> (found: bool)
        ensures
            found == (find_record(old(self)@.agents, id@) is Some),
            final(self)@ == (AgentSchedulerView {
                agents: updated_record(
                    old(self)@.agents,
                    id@,
                    match status {
                        Some(text) => Some(text@),
                        None => None,
                    },
                    more@,
                ),
                ..old(self)@
            }),
    {
        let ghost all = self@.agents;
        let ghost wanted = match status {
            Some(text) => Some(text@),
            None => None,
        };
        match position_of(&self.agents, id) {
            Some(i) => {
                proof {
                    assert forall|k: int| 0 <= k < i implies (#[trigger] all[k]).id != id@ by {
                        assert(all[k] == self.agents@[k]@);
                    }
                    assert(all[i as int] == self.agents@[i as int]@);
                    updated_record_at(all, id@, wanted, more@, i as int);
                }
                let mut record = self.agents[i].duplicate();
                if let Some(text) = status {
                    record.status = text.to_owned();
                }
                record.output.push_str(more);
                let ghost changed = record@;
                self.agents.set(i, record);
                assert(views(self.agents@) =~= all.update(i as int, changed));
                true
            },
            None => {
                proof {
                    assert forall|k: int| 0 <= k < all.len() implies (#[trigger] all[k]).id
                        != id@ by {
                        assert(all[k] == self.agents@[k]@);
                    }
                    updated_record_absent(all, id@, wanted, more@);
                }
                false
            },
        }
    }

    /// Adds what a delegated task wrote to its output; other events leave it.
    pub fn observe(&mut self, id: &str, event: &AgentEvent)
        ensures
            final(self)@ == heard(old(self)@, id@, event@),
    {
        match event {
            AgentEvent::Text(text) => {
                self.update(id, None, text);
            },
            AgentEvent::TextDelta(text) => {
                self.update(id, None, text);
            },
            _ => {},
        }
    }

    /// Books that a task ended, with an error or without.
    pub fn finish(&mut self, id: &str, error: Option<&str>)
        ensures
            final(self)@ == ended(
                old(self)@,
                id@,
                match error {
                    Some(message) => Some(message@),
                    None => None,
                },
            ),
    {
        match position_of(&self.agents, id) {
            None => {},
            Some(i) => match error {
                None => {
                    let nothing = String::new();
                    assert(nothing@ =~= Seq::<char>::empty());
                    self.update(id, Some("completed"), &nothing);
                },
                Some(message) => {
                    let mut note = String::new();
                    if !self.agents[i].output.as_str().is_empty() {
                        note.push_str("\n\n");
                    }
                    note.push_str("agent failed: ");
                    note.push_str(message);
                    assert(note@ =~= failure_note(self.agents@[i as int]@.output, message@));
                    self.update(id, Some("failed"), &note);
                },
            },
        }
    }

    /// Closes a task and returns how it stands.
    pub fn close(&mut self, id: &str, now_ms: u128) -> (result: Result<AgentSnapshot, String>)
        ensures
            match find_record(old(self)@.agents, id@) {
                None => {
                    &&& outcome(result) == Err::<AgentSnapshotView, Seq<char>>(
                        "unknown agent: "@ + id@,
                    )
                    &&& final(self)@ == old(self)@
                },
                Some(record) => {
                    &&& outcome(result) == Ok::<AgentSnapshotView, Seq<char>>(
                        snapshot_of(AgentRecordView { status: "closed"@, ..record }, now_ms),
                    )
                    &&& final(self)@ == (AgentSchedulerView {
                        agents: updated_record(
                            old(self)@.agents,
                            id@,
                            Some("closed"@),
                            Seq::empty(),
                        ),
                        ..old(self)@
                    })
                },
            },
    {
        let ghost all = self@.agents;
        match position_of(&self.agents, id) {
            None => Err("unknown agent: ".to_owned().concat(id)),
            Some(i) => {
                proof {
                    assert forall|k: int| 0 <= k < i implies (#[trigger] all[k]).id != id@ by {
                        assert(all[k] == self.agents@[k]@);
                    }
                    assert(all[i as int] == self.agents@[i as int]@);
                    updated_record_at(all, id@, Some("closed"@), Seq::empty(), i as int);
                }
                let mut record = self.agents[i].duplicate();
                record.status = "closed".to_owned();
                let snapshot = take_snapshot(&record, now_ms);
                let ghost changed = record@;
                assert(changed.output =~= all[i as int].output + Seq::<char>::empty());
                self.agents.set(i, record);
                assert(views(self.agents@) =~= all.update(i as int, changed));
                Ok(snapshot)
            },
        }
    }

    /// How the tasks stand that are asked for; without ids, all of them.
    pub fn snapshots(&self, ids: &Vec<String>, now_ms: u128) -> (result: Vec<AgentSnapshot>)
        ensures
            views(result@) == snapshots_at(self@.agents, texts(ids@), now_ms),
    {
        let ghost all = self@.agents;
        let mut result: Vec<AgentSnapshot> = Vec::new();
        if ids.len() == 0 {
            let ghost wanted = all_snapshots(all, now_ms);
            let mut i: usize = 0;
            while i < self.agents.len()
                invariant
                    i <= self.agents@.len(),
                    all == views(self.agents@),
                    wanted == all_snapshots(all, now_ms),
                    views(result@) == wanted.take(i as int),
                decreases self.agents@.len() - i,
            {
                assert(all[i as int] == self.agents@[i as int]@);
                result.push(take_snapshot(&self.agents[i], now_ms));
                assert(wanted.take(i + 1) =~= wanted.take(i as int).push(wanted[i as int]));
                i = i + 1;
            }
            assert(wanted.take(i as int) =~= wanted);
            return result;
        }
        let ghost wanted = texts(ids@);
        let mut i: usize = 0;
        while i < ids.len()
            invariant
                i <= ids@.len(),
                all == views(self.agents@),
                wanted == texts(ids@),
                views(result@) == chosen_snapshots(all, wanted.take(i as int), now_ms),
            decreases ids@.len() - i,
        {
            let ghost part = wanted.take(i + 1);
            assert(part.drop_last() =~= wanted.take(i as int));
            assert(part.last() == ids@[i as int]@);
            if let Some(p) = position_of(&self.agents, &ids[i]) {
                result.push(take_snapshot(&self.agents[p], now_ms));
            }
            i = i + 1;
        }
        assert(wanted.take(i as int) =~= wanted);
        result
    }
}

/// How long a wait for tasks may last: what is asked for, from 10 milliseconds to an hour.
pub open spec fn wait_limit(timeout_ms: nat) -> nat {
    clamped(timeout_ms, 10, 3_600_000)
}

/// Returns how long a wait for tasks may last.
pub fn wait_limit_ms(timeout_ms: u64) -> (result: u64)
    ensures
        result as nat == wait_limit(timeout_ms as nat),
{
    crate::agent::clamp_u64(timeout_ms, 10, 3_600_000)
}

/// Whether none of the tasks is running.
pub open spec fn all_ended(snapshots: Seq<AgentSnapshotView>) -> bool {
    forall|i: int| 0 <= i < snapshots.len() ==> (#[trigger] snapshots[i]).status != "running"@
}

/// Tells whether a wait is over: no task is running, or the time is up.
pub fn wait_is_over(snapshots: &Vec<AgentSnapshot>, waited_ms: u64, timeout_ms: u64) -> (result:
    bool)
    ensures
        result == (all_ended(views(snapshots@)) || waited_ms as nat >= wait_limit(
            timeout_ms as nat,
        )),
{
    if waited_ms >= wait_limit_ms(timeout_ms) {
        return true;
    }
    let mut i: usize = 0;
    while i < snapshots.len()
        invariant
            i <= snapshots@.len(),
            (waited_ms as nat) < wait_limit(timeout_ms as nat),
            forall|k: int|
                0 <= k < i ==> (#[trigger] views(snapshots@)[k]).status != "running"@,
        decreases snapshots@.len() - i,
    {
        assert(views(snapshots@)[i as int] == snapshots@[i as int]@);
        if same(&snapshots[i].status, "running") {
            return false;
        }
        i = i + 1;
    }
    true
}

/// A snapshot as the model reads it.
pub open spec fn snapshot_data(snapshot: AgentSnapshotView) -> JsonView {
    JsonView::Object(
        seq![
            ("id"@, JsonView::Text(snapshot.id)),
            ("status"@, JsonView::Text(snapshot.status)),
            ("task"@, JsonView::Text(snapshot.task)),
            ("output"@, JsonView::Text(snapshot.output)),
            ("elapsed_ms"@, JsonView::Text(decimal(snapshot.elapsed_ms as nat))),
        ],
    )
}

/// Writes snapshots as the model reads them.
pub fn snapshots_json(snapshots: &Vec<AgentSnapshot>) -> (result: Json)
    ensures
        result@ == JsonView::Array(
            Seq::new(snapshots@.len(), |i: int| snapshot_data(snapshots@[i]@)),
        ),
{
    let ghost wanted = Seq::new(snapshots@.len(), |i: int| snapshot_data(snapshots@[i]@));
    let mut items: Vec<Json> = Vec::new();
    let mut i: usize = 0;
    assert(trees(items@) =~= wanted.take(0));
    while i < snapshots.len()
        invariant
            i <= snapshots@.len(),
            wanted == Seq::new(snapshots@.len(), |i: int| snapshot_data(snapshots@[i]@)),
            trees(items@) == wanted.take(i as int),
        decreases snapshots@.len() - i,
    {
        let snapshot = &snapshots[i];
        let mut fields: Vec<(String, Json)> = Vec::new();
        fields.push(("id".to_owned(), Json::text(&snapshot.id)));
        fields.push(("status".to_owned(), Json::text(&snapshot.status)));
        fields.push(("task".to_owned(), Json::text(&snapshot.task)));
        fields.push(("output".to_owned(), Json::text(&snapshot.output)));
        fields.push(("elapsed_ms".to_owned(), Json::Text(print_u128(snapshot.elapsed_ms))));
        assert(field_trees(fields@) =~= snapshot_data(snapshot@)->Object_0);
        items.push(Json::Object(fields));
        assert(wanted.take(i + 1) =~= wanted.take(i as int).push(wanted[i as int]));
        i = i + 1;
    }
    assert(wanted.take(i as int) =~= wanted);
    Json::Array(items)
}

// ---------------------------------------------------------------------------
// Laws
// ---------------------------------------------------------------------------

/// A forked history is the end of the conversation; asked for a number of turns it begins
/// with a message of the user, where there is one, and keeps that many of the user's
/// messages.
pub proof fn forks_keep_the_latest_turns(messages: Seq<ChatMessageView>, turns: nat)
    requires
        turns > 0,
    ensures
        ({
            let start = fork_start(messages, turns);
            &&& 0 <= start <= messages.len()
            &&& user_positions(messages).len() > 0 ==> start < messages.len()
                && messages[start].role == Role::User
            &&& user_positions(messages).len() >= turns ==> user_positions(
                messages,
            )[user_positions(messages).len() - turns] == start
        }),
{
    user_positions_are_in_range(messages);
}

/// One more record adds at most one running task.
proof fn one_more_runs(records: Seq<AgentRecordView>, record: AgentRecordView)
    ensures
        running_count(with_record(records, record)) <= running_count(records) + 1,
    decreases records.len(),
{
    let after = with_record(records, record);
    if records.len() == 0 {
        assert(after.skip(1).len() == 0);
        assert(running_count(after.skip(1)) == 0);
    } else if records[0].id == record.id {
        assert(after.skip(1) =~= records.skip(1));
    } else if precedes(record.id, records[0].id) {
        assert(after.skip(1) =~= records);
    } else {
        one_more_runs(records.skip(1), record);
        assert(after.skip(1) =~= with_record(records.skip(1), record));
    }
}

/// Taking on a task never brings the running tasks above the limit.
pub proof fn tasks_stay_within_the_limit(
    scheduler: AgentSchedulerView,
    id: Seq<char>,
    task: Seq<char>,
    parent: Seq<ChatMessageView>,
    fork_turns: Option<Seq<char>>,
    now_ms: u128,
)
    requires
        spawned(scheduler, task, parent, fork_turns) is Ok,
    ensures
        running_count(with_task(scheduler, id, task, now_ms).agents) <= scheduler.max_agents,
{
    one_more_runs(
        scheduler.agents,
        AgentRecordView {
            id,
            task,
            status: "running"@,
            output: Seq::empty(),
            started_ms: now_ms,
        },
    );
}

/// A task that was taken on is found under its id.
pub proof fn taken_tasks_are_found(records: Seq<AgentRecordView>, record: AgentRecordView)
    requires
        records_ordered(records),
    ensures
        find_record(with_record(records, record), record.id) == Some(record),
    decreases records.len(),
{
    let after = with_record(records, record);
    if records.len() > 0 && records[0].id != record.id && !precedes(record.id, records[0].id) {
        let rest = records.skip(1);
        assert forall|i: int, j: int| 0 <= i < j < rest.len() implies precedes(
            (#[trigger] rest[i]).id,
            (#[trigger] rest[j]).id,
        ) by {
            assert(rest[i] == records[i + 1] && rest[j] == records[j + 1]);
        }
        taken_tasks_are_found(rest, record);
        assert(after[0] == records[0]);
        assert(after.skip(1) =~= with_record(rest, record));
    } else {
        assert(after[0] == record);
    }
}

} // verus!
