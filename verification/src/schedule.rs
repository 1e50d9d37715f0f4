//! Scheduled tasks: which of them are due, and a record of how they ran.

use vstd::prelude::*;
use crate::api::bad_request;
use crate::api::verdict;
use crate::api::ApiError;
use crate::api::ApiErrorView;
use crate::codec::fresh_uuid;
use crate::json::member;
use crate::json::text_of;
use crate::json::trees;
use crate::json::Json;
use crate::json::JsonView;
use crate::numbers::decimal;
use crate::numbers::parse_up_to;
use crate::numbers::parsed;
use crate::numbers::print_u64;
use crate::pieces::split_words;
use crate::pieces::words;
use crate::text::is_blank;
use crate::text::blank;
use crate::text::same;
use crate::text::take_chars;
use crate::text::texts;
use crate::text::texts_empty;
use crate::text::texts_push;
use crate::text::trim;
use crate::text::trimmed;
use crate::views::duplicate_all;
use crate::views::duplicate_opt;
use crate::views::group_views;
use crate::views::opt;
use crate::views::views;
use crate::views::Duplicate;

verus! {

broadcast use {group_views, texts_push, texts_empty};

/// How many runs are kept on record.
pub const MAX_RUNS: usize = 200;

/// A task that runs at a time of day.
#[derive(Debug)]
pub struct ScheduleEntry {
    pub id: String,
    /// Minute and hour, each a number or `*`.
    pub cron: String,
    pub prompt: String,
    pub notify: bool,
    pub enabled: bool,
    pub created_at: String,
}

/// What a `ScheduleEntry` holds.
#[verifier::ext_equal]
pub struct ScheduleEntryView {
    pub id: Seq<char>,
    pub cron: Seq<char>,
    pub prompt: Seq<char>,
    pub notify: bool,
    pub enabled: bool,
    pub created_at: Seq<char>,
}

impl View for ScheduleEntry {
    type V = ScheduleEntryView;

    open spec fn view(&self) -> ScheduleEntryView {
        ScheduleEntryView {
            id: self.id@,
            cron: self.cron@,
            prompt: self.prompt@,
            notify: self.notify,
            enabled: self.enabled,
            created_at: self.created_at@,
        }
    }
}

impl Duplicate for ScheduleEntry {
    fn duplicate(&self) -> (result: Self) {
        ScheduleEntry {
            id: self.id.clone(),
            cron: self.cron.clone(),
            prompt: self.prompt.clone(),
            notify: self.notify,
            enabled: self.enabled,
            created_at: self.created_at.clone(),
        }
    }
}

/// How a task ran.
#[derive(Debug)]
pub struct ScheduleRun {
    pub id: String,
    pub schedule_id: String,
    pub started_at: String,
    pub finished_at: String,
    pub status: String,
    pub summary: String,
}

/// What a `ScheduleRun` holds.
#[verifier::ext_equal]
pub struct ScheduleRunView {
    pub id: Seq<char>,
    pub schedule_id: Seq<char>,
    pub started_at: Seq<char>,
    pub finished_at: Seq<char>,
    pub status: Seq<char>,
    pub summary: Seq<char>,
}

impl View for ScheduleRun {
    type V = ScheduleRunView;

    open spec fn view(&self) -> ScheduleRunView {
        ScheduleRunView {
            id: self.id@,
            schedule_id: self.schedule_id@,
            started_at: self.started_at@,
            finished_at: self.finished_at@,
            status: self.status@,
            summary: self.summary@,
        }
    }
}

impl Duplicate for ScheduleRun {
    fn duplicate(&self) -> (result: Self) {
        ScheduleRun {
            id: self.id.clone(),
            schedule_id: self.schedule_id.clone(),
            started_at: self.started_at.clone(),
            finished_at: self.finished_at.clone(),
            status: self.status.clone(),
            summary: self.summary.clone(),
        }
    }
}

/// All tasks and the record of their runs.
#[derive(Debug)]
pub struct ScheduleStore {
    pub schedules: Vec<ScheduleEntry>,
    /// The latest runs, the oldest first.
    pub runs: Vec<ScheduleRun>,
}

/// What a `ScheduleStore` holds.
#[verifier::ext_equal]
pub struct ScheduleStoreView {
    pub schedules: Seq<ScheduleEntryView>,
    pub runs: Seq<ScheduleRunView>,
}

impl View for ScheduleStore {
    type V = ScheduleStoreView;

    open spec fn view(&self) -> ScheduleStoreView {
        ScheduleStoreView {
            schedules: views(self.schedules@),
            runs: views(self.runs@),
        }
    }
}

impl Duplicate for ScheduleStore {
    fn duplicate(&self) -> (result: Self) {
        ScheduleStore {
            schedules: duplicate_all(&self.schedules),
            runs: duplicate_all(&self.runs),
        }
    }
}

/// A minute of local time.
#[derive(Debug)]
pub struct Moment {
    pub date: String,
    /// Hour and minute, as a clock shows them.
    pub clock: String,
    pub hour: u32,
    pub minute: u32,
}

/// What a `Moment` holds.
#[verifier::ext_equal]
pub struct MomentView {
    pub date: Seq<char>,
    pub clock: Seq<char>,
    pub hour: u32,
    pub minute: u32,
}

impl View for Moment {
    type V = MomentView;

    open spec fn view(&self) -> MomentView {
        MomentView {
            date: self.date@,
            clock: self.clock@,
            hour: self.hour,
            minute: self.minute,
        }
    }
}

impl Duplicate for Moment {
    fn duplicate(&self) -> (result: Self) {
        Moment {
            date: self.date.clone(),
            clock: self.clock.clone(),
            hour: self.hour,
            minute: self.minute,
        }
    }
}

/// The tasks and the minute that last had one run.
#[derive(Debug)]
pub struct Scheduler {
    pub store: ScheduleStore,
    pub last_trigger_key: Option<String>,
}

/// What a `Scheduler` holds.
#[verifier::ext_equal]
pub struct SchedulerView {
    pub store: ScheduleStoreView,
    pub last_trigger_key: Option<Seq<char>>,
}

impl View for Scheduler {
    type V = SchedulerView;

    open spec fn view(&self) -> SchedulerView {
        SchedulerView {
            store: self.store@,
            last_trigger_key: opt(self.last_trigger_key),
        }
    }
}

impl Duplicate for Scheduler {
    fn duplicate(&self) -> (result: Self) {
        Scheduler {
            store: self.store.duplicate(),
            last_trigger_key: duplicate_opt(&self.last_trigger_key),
        }
    }
}

/// A task as a client asks for it.
#[derive(Debug)]
pub struct SchedulePayload {
    pub id: String,
    pub cron: String,
    pub prompt: String,
    pub notify: Option<bool>,
    pub enabled: Option<bool>,
}

/// What a `SchedulePayload` holds.
#[verifier::ext_equal]
pub struct SchedulePayloadView {
    pub id: Seq<char>,
    pub cron: Seq<char>,
    pub prompt: Seq<char>,
    pub notify: Option<bool>,
    pub enabled: Option<bool>,
}

impl View for SchedulePayload {
    type V = SchedulePayloadView;

    open spec fn view(&self) -> SchedulePayloadView {
        SchedulePayloadView {
            id: self.id@,
            cron: self.cron@,
            prompt: self.prompt@,
            notify: self.notify,
            enabled: self.enabled,
        }
    }
}

impl Duplicate for SchedulePayload {
    fn duplicate(&self) -> (result: Self) {
        SchedulePayload {
            id: self.id.clone(),
            cron: self.cron.clone(),
            prompt: self.prompt.clone(),
            notify: self.notify,
            enabled: self.enabled,
        }
    }
}

// ---------------------------------------------------------------------------
// Times of day
// ---------------------------------------------------------------------------

/// Whether a field of a time of day admits a value: the number itself, or `*`.
pub open spec fn field_admits(part: Seq<char>, value: nat) -> bool {
    match parsed(part, u32::MAX as nat) {
        Some(n) => n == value,
        None => part == "*"@,
    }
}

/// Whether a time of day admits a minute. It has two fields, minute and hour.
pub open spec fn admits(cron: Seq<char>, minute: nat, hour: nat) -> bool {
    let parts = words(cron);
    parts.len() == 2 && field_admits(parts[0], minute) && field_admits(parts[1], hour)
}

fn field_matches(part: &str, value: u32) -> (result: bool)
    ensures
        result == field_admits(part@, value as nat),
{
    match parse_up_to(part, u32::MAX as u64) {
        Some(n) => n == value as u64,
        None => same(part, "*"),
    }
}

impl ScheduleEntry {
    /// Tells whether the task is due at `now`.
    pub fn matches_now(&self, now: &Moment) -> (result: bool)
        ensures
            result == admits(self.cron@, now.minute as nat, now.hour as nat),
    {
        let parts = split_words(&self.cron);
        assert(texts(parts@).len() == parts@.len());
        if parts.len() != 2 {
            return false;
        }
        assert(texts(parts@)[0] == parts@[0]@ && texts(parts@)[1] == parts@[1]@);
        let minute_ok = field_matches(&parts[0], now.minute);
        let hour_ok = field_matches(&parts[1], now.hour);
        minute_ok && hour_ok
    }
}

/// Whether a field is `*` or a number.
pub open spec fn field_verdict(part: Seq<char>, number: nat, highest: nat, too_high: Seq<char>)
    -> Result<(), ApiErrorView> {
    if part == "*"@ {
        Ok(())
    } else {
        match parsed(part, u32::MAX as nat) {
            None => Err(
                bad_request(
                    "cron field "@ + decimal(number) + " must be * or a number: "@ + part,
                ),
            ),
            Some(n) => if n > highest {
                Err(bad_request(too_high))
            } else {
                Ok(())
            },
        }
    }
}

/// What is wrong with a task, if anything: its time of day first, then its prompt.
pub open spec fn entry_verdict(entry: ScheduleEntryView) -> Result<(), ApiErrorView> {
    let parts = words(entry.cron);
    if parts.len() != 2 {
        Err(bad_request("cron must be two fields: minute hour (e.g. \"30 8\")"@))
    } else if field_verdict(parts[0], 1, 59, "minute must be 0-59"@) is Err {
        field_verdict(parts[0], 1, 59, "minute must be 0-59"@)
    } else if field_verdict(parts[1], 2, 23, "hour must be 0-23"@) is Err {
        field_verdict(parts[1], 2, 23, "hour must be 0-23"@)
    } else if is_blank(entry.prompt) {
        Err(bad_request("prompt must not be empty"@))
    } else {
        Ok(())
    }
}

fn check_field(part: &str, number: u64, highest: u64, too_high: &str) -> (result: Result<
    (),
    ApiError,
>)
    ensures
        verdict(result) == field_verdict(part@, number as nat, highest as nat, too_high@),
{
    if same(part, "*") {
        return Ok(());
    }
    match parse_up_to(part, u32::MAX as u64) {
        None => {
            let mut message = "cron field ".to_owned();
            message.push_str(&print_u64(number));
            message.push_str(" must be * or a number: ");
            message.push_str(part);
            Err(ApiError::bad_request(&message))
        },
        Some(n) => {
            if n > highest {
                Err(ApiError::bad_request(too_high))
            } else {
                Ok(())
            }
        },
    }
}

/// Checks a task.
pub fn validate_schedule_entry(entry: &ScheduleEntry) -> (result: Result<(), ApiError>)
    ensures
        verdict(result) == entry_verdict(entry@),
{
    let parts = split_words(&entry.cron);
    assert(texts(parts@).len() == parts@.len());
    if parts.len() != 2 {
        return Err(
            ApiError::bad_request("cron must be two fields: minute hour (e.g. \"30 8\")"),
        );
    }
    assert(texts(parts@)[0] == parts@[0]@ && texts(parts@)[1] == parts@[1]@);
    match check_field(&parts[0], 1, 59, "minute must be 0-59") {
        Err(error) => {
            return Err(error);
        },
        Ok(_) => {},
    }
    match check_field(&parts[1], 2, 23, "hour must be 0-23") {
        Err(error) => {
            return Err(error);
        },
        Ok(_) => {},
    }
    if blank(&entry.prompt) {
        return Err(ApiError::bad_request("prompt must not be empty"));
    }
    Ok(())
}

/// What a stored task is where the file does not tell: it is switched on.
pub fn default_true() -> (result: bool)
    ensures
        result,
{
    true
}

/// The task that a client asks for. Without an id it gets one with `random` in it.
pub open spec fn requested_entry(
    payload: SchedulePayloadView,
    random: Seq<char>,
    created_at: Seq<char>,
) -> ScheduleEntryView {
    ScheduleEntryView {
        id: if payload.id.len() == 0 {
            "sched-"@ + random
        } else {
            payload.id
        },
        cron: trimmed(payload.cron),
        prompt: trimmed(payload.prompt),
        notify: payload.notify.unwrap_or(true),
        enabled: payload.enabled.unwrap_or(true),
        created_at,
    }
}

/// Builds and checks the task that a client asks for.
pub fn entry_from_payload(payload: &SchedulePayload, random: &str, created_at: String) -> (result:
    Result<ScheduleEntry, ApiError>)
    ensures
        ({
            let entry = requested_entry(payload@, random@, created_at@);
            match result {
                Ok(built) => built@ == entry && entry_verdict(entry) is Ok,
                Err(error) => entry_verdict(entry) == Err::<(), ApiErrorView>(error@),
            }
        }),
{
    let entry = ScheduleEntry {
        id: if payload.id.as_str().is_empty() {
            "sched-".to_owned().concat(random)
        } else {
            payload.id.clone()
        },
        cron: trim(&payload.cron),
        prompt: trim(&payload.prompt),
        notify: payload.notify.unwrap_or(true),
        enabled: payload.enabled.unwrap_or(true),
        created_at,
    };
    match validate_schedule_entry(&entry) {
        Ok(_) => Ok(entry),
        Err(error) => Err(error),
    }
}

// ---------------------------------------------------------------------------
// The store
// ---------------------------------------------------------------------------

/// The first task with an id.
pub open spec fn find_entry(entries: Seq<ScheduleEntryView>, id: Seq<char>) -> Option<
    ScheduleEntryView,
>
    decreases entries.len(),
{
    if entries.len() == 0 {
        None
    } else if entries[0].id == id {
        Some(entries[0])
    } else {
        find_entry(entries.skip(1), id)
    }
}

/// Tasks with one more: it takes the place of the first with its id, or comes last.
pub open spec fn upserted(entries: Seq<ScheduleEntryView>, entry: ScheduleEntryView) -> Seq<
    ScheduleEntryView,
>
    decreases entries.len(),
{
    if entries.len() == 0 {
        seq![entry]
    } else if entries[0].id == entry.id {
        seq![entry] + entries.skip(1)
    } else {
        seq![entries[0]] + upserted(entries.skip(1), entry)
    }
}

/// The tasks that do not have an id.
pub open spec fn without_id(entries: Seq<ScheduleEntryView>, id: Seq<char>) -> Seq<
    ScheduleEntryView,
>
    decreases entries.len(),
{
    if entries.len() == 0 {
        Seq::empty()
    } else if entries.last().id == id {
        without_id(entries.drop_last(), id)
    } else {
        without_id(entries.drop_last(), id).push(entries.last())
    }
}

/// The record with one more run; the oldest leave where it grows too long.
pub open spec fn recorded(runs: Seq<ScheduleRunView>, run: ScheduleRunView) -> Seq<ScheduleRunView> {
    let all = runs.push(run);
    if all.len() > MAX_RUNS {
        all.skip(all.len() - MAX_RUNS)
    } else {
        all
    }
}

/// The record with the first run of an id closed.
pub open spec fn closed_run(
    runs: Seq<ScheduleRunView>,
    id: Seq<char>,
    status: Seq<char>,
    summary: Seq<char>,
    finished_at: Seq<char>,
) -> Seq<ScheduleRunView>
    decreases runs.len(),
{
    if runs.len() == 0 {
        runs
    } else if runs[0].id == id {
        seq![ScheduleRunView { status, summary, finished_at, ..runs[0] }] + runs.skip(1)
    } else {
        seq![runs[0]] + closed_run(runs.skip(1), id, status, summary, finished_at)
    }
}

/// What precedes the first task with an id stays when the task is put in place.
proof fn upserted_at(entries: Seq<ScheduleEntryView>, entry: ScheduleEntryView, i: int)
    requires
        0 <= i < entries.len(),
        entries[i].id == entry.id,
        forall|k: int| 0 <= k < i ==> (#[trigger] entries[k]).id != entry.id,
    ensures
        upserted(entries, entry) == entries.update(i, entry),
    decreases i,
{
    if i == 0 {
        assert(upserted(entries, entry) =~= entries.update(0, entry));
    } else {
        let rest = entries.skip(1);
        assert forall|k: int| 0 <= k < i - 1 implies (#[trigger] rest[k]).id != entry.id by {
            assert(rest[k] == entries[k + 1]);
        }
        assert(entries[0].id != entry.id);
        upserted_at(rest, entry, i - 1);
        assert(upserted(entries, entry) =~= entries.update(i, entry));
    }
}

/// Where no task has the id, the task comes last.
proof fn upserted_last(entries: Seq<ScheduleEntryView>, entry: ScheduleEntryView)
    requires
        forall|k: int| 0 <= k < entries.len() ==> (#[trigger] entries[k]).id != entry.id,
    ensures
        upserted(entries, entry) == entries.push(entry),
    decreases entries.len(),
{
    if entries.len() == 0 {
        assert(upserted(entries, entry) =~= entries.push(entry));
    } else {
        let rest = entries.skip(1);
        assert forall|k: int| 0 <= k < rest.len() implies (#[trigger] rest[k]).id != entry.id by {
            assert(rest[k] == entries[k + 1]);
        }
        assert(entries[0].id != entry.id);
        upserted_last(rest, entry);
        assert(upserted(entries, entry) =~= entries.push(entry));
    }
}

impl ScheduleStore {
    /// A store without tasks.
    pub fn empty() -> (result: ScheduleStore)
        ensures
            result@.schedules.len() == 0,
            result@.runs.len() == 0,
    {
        ScheduleStore { schedules: Vec::new(), runs: Vec::new() }
    }

    /// Adds a task, or puts it in the place of the one with its id. Returns the id.
    pub fn upsert(&mut self, entry: ScheduleEntry) -> (id: String)
        ensures
            id@ == entry.id@,
            final(self)@ == (ScheduleStoreView {
                schedules: upserted(old(self)@.schedules, entry@),
                ..old(self)@
            }),
    {
        let id = entry.id.clone();
        let ghost before = self@.schedules;
        let mut i: usize = 0;
        while i < self.schedules.len()
            invariant
                i <= self.schedules@.len(),
                before == views(self.schedules@),
                self@ == old(self)@,
                id@ == entry@.id,
                before == old(self)@.schedules,
                forall|k: int| 0 <= k < i ==> (#[trigger] before[k]).id != entry@.id,
            decreases self.schedules@.len() - i,
        {
            assert(before[i as int] == self.schedules@[i as int]@);
            if self.schedules[i].id == entry.id {
                proof {
                    upserted_at(before, entry@, i as int);
                }
                self.schedules.set(i, entry);
                assert(views(self.schedules@) =~= before.update(i as int, entry@));
                return id;
            }
            i = i + 1;
        }
        proof {
            upserted_last(before, entry@);
        }
        self.schedules.push(entry);
        id
    }

    /// Removes the tasks with an id. Tells whether there were any.
    pub fn remove(&mut self, id: &str) -> (removed: bool)
        ensures
            final(self)@ == (ScheduleStoreView {
                schedules: without_id(old(self)@.schedules, id@),
                ..old(self)@
            }),
            removed == (without_id(old(self)@.schedules, id@).len() != old(self)@.schedules.len()),
    {
        let ghost before = self@.schedules;
        let count: usize = self.schedules.len();
        let mut kept: Vec<ScheduleEntry> = Vec::new();
        let mut i: usize = 0;
        while i < self.schedules.len()
            invariant
                i <= self.schedules@.len(),
                before == views(self.schedules@),
                views(kept@) == without_id(before.take(i as int), id@),
            decreases self.schedules@.len() - i,
        {
            let ghost part = before.take(i + 1);
            assert(part.drop_last() =~= before.take(i as int));
            assert(part.last() == self.schedules@[i as int]@);
            if !same(&self.schedules[i].id, id) {
                kept.push(self.schedules[i].duplicate());
            }
            i = i + 1;
        }
        assert(before.take(i as int) =~= before);
        let removed = kept.len() != count;
        assert(kept@.len() == views(kept@).len());
        self.schedules = kept;
        removed
    }

    /// Records a run. The record keeps the latest 200.
    pub fn record_run(&mut self, run: ScheduleRun)
        ensures
            final(self)@ == (ScheduleStoreView {
                runs: recorded(old(self)@.runs, run@),
                ..old(self)@
            }),
    {
        let ghost before = self@.runs;
        self.runs.push(run);
        if self.runs.len() > MAX_RUNS {
            let surplus: usize = self.runs.len() - MAX_RUNS;
            let ghost all = self.runs@;
            let kept = self.runs.split_off(surplus);
            assert(kept@ =~= all.skip(surplus as int));
            assert(views(kept@) =~= views(all).skip(surplus as int));
            self.runs = kept;
        }
    }

    /// Closes the run with an id.
    pub fn finish_run(&mut self, id: &str, status: &str, summary: &str, finished_at: &str)
        ensures
            final(self)@ == (ScheduleStoreView {
                runs: closed_run(old(self)@.runs, id@, status@, summary@, finished_at@),
                ..old(self)@
            }),
    {
        let ghost before = self@.runs;
        let mut i: usize = 0;
        while i < self.runs.len()
            invariant
                i <= self.runs@.len(),
                before == views(self.runs@),
                self@ == old(self)@,
                before == old(self)@.runs,
                forall|k: int| 0 <= k < i ==> (#[trigger] before[k]).id != id@,
            decreases self.runs@.len() - i,
        {
            assert(before[i as int] == self.runs@[i as int]@);
            if same(&self.runs[i].id, id) {
                let mut run = self.runs[i].duplicate();
                run.status = status.to_owned();
                run.summary = summary.to_owned();
                run.finished_at = finished_at.to_owned();
                let ghost item = run@;
                self.runs.set(i, run);
                assert(views(self.runs@) =~= before.update(i as int, item));
                proof {
                    closed_run_at(before, id@, status@, summary@, finished_at@, i as int);
                }
                return ;
            }
            i = i + 1;
        }
        proof {
            closed_run_absent(before, id@, status@, summary@, finished_at@);
        }
    }

    /// The task with an id.
    pub fn find(&self, id: &str) -> (result: Option<ScheduleEntry>)
        ensures
            opt(result) == find_entry(self@.schedules, id@),
    {
        let ghost all = self@.schedules;
        let mut i: usize = 0;
        assert(all.skip(0) =~= all);
        while i < self.schedules.len()
            invariant
                i <= self.schedules@.len(),
                all == views(self.schedules@),
                find_entry(all, id@) == find_entry(all.skip(i as int), id@),
            decreases self.schedules@.len() - i,
        {
            assert(all.skip(i as int)[0] == self.schedules@[i as int]@);
            if same(&self.schedules[i].id, id) {
                return Some(self.schedules[i].duplicate());
            }
            assert(all.skip(i as int).skip(1) =~= all.skip(i + 1));
            i = i + 1;
        }
        None
    }

    /// The latest runs, the newest first, 50 at most.
    pub fn recent_runs(&self) -> (result: Vec<ScheduleRun>)
        ensures
            views(result@) == newest_first(self@.runs, 50),
    {
        let ghost all = self@.runs;
        let ghost wanted = newest_first(all, 50);
        let mut result: Vec<ScheduleRun> = Vec::new();
        let mut i: usize = self.runs.len();
        while i > 0 && result.len() < 50
            invariant
                i <= self.runs@.len(),
                all == views(self.runs@),
                wanted == newest_first(all, 50),
                result@.len() == self.runs@.len() - i,
                result@.len() <= 50,
                views(result@) == wanted.take(result@.len() as int),
            decreases i,
        {
            i = i - 1;
            let run = self.runs[i].duplicate();
            assert(run@ == wanted[result@.len() as int]);
            let ghost n = result@.len() as int;
            result.push(run);
            assert(wanted.take(n + 1) =~= wanted.take(n).push(wanted[n]));
        }
        assert(wanted.take(result@.len() as int) =~= wanted);
        result
    }
}

/// The last items of a list, the last one first, `most` at most.
pub open spec fn newest_first(runs: Seq<ScheduleRunView>, most: nat) -> Seq<ScheduleRunView> {
    Seq::new(
        if runs.len() < most {
            runs.len()
        } else {
            most
        },
        |i: int| runs[runs.len() - 1 - i],
    )
}

proof fn closed_run_at(
    runs: Seq<ScheduleRunView>,
    id: Seq<char>,
    status: Seq<char>,
    summary: Seq<char>,
    finished_at: Seq<char>,
    i: int,
)
    requires
        0 <= i < runs.len(),
        runs[i].id == id,
        forall|k: int| 0 <= k < i ==> (#[trigger] runs[k]).id != id,
    ensures
        closed_run(runs, id, status, summary, finished_at) == runs.update(
            i,
            ScheduleRunView { status, summary, finished_at, ..runs[i] },
        ),
    decreases i,
{
    let closed = ScheduleRunView { status, summary, finished_at, ..runs[i] };
    if i == 0 {
        assert(closed_run(runs, id, status, summary, finished_at) =~= runs.update(0, closed));
    } else {
        let rest = runs.skip(1);
        assert forall|k: int| 0 <= k < i - 1 implies (#[trigger] rest[k]).id != id by {
            assert(rest[k] == runs[k + 1]);
        }
        assert(runs[0].id != id);
        closed_run_at(rest, id, status, summary, finished_at, i - 1);
        assert(closed_run(runs, id, status, summary, finished_at) =~= runs.update(i, closed));
    }
}

proof fn closed_run_absent(
    runs: Seq<ScheduleRunView>,
    id: Seq<char>,
    status: Seq<char>,
    summary: Seq<char>,
    finished_at: Seq<char>,
)
    requires
        forall|k: int| 0 <= k < runs.len() ==> (#[trigger] runs[k]).id != id,
    ensures
        closed_run(runs, id, status, summary, finished_at) == runs,
    decreases runs.len(),
{
    if runs.len() > 0 {
        let rest = runs.skip(1);
        assert forall|k: int| 0 <= k < rest.len() implies (#[trigger] rest[k]).id != id by {
            assert(rest[k] == runs[k + 1]);
        }
        assert(runs[0].id != id);
        closed_run_absent(rest, id, status, summary, finished_at);
        assert(closed_run(runs, id, status, summary, finished_at) =~= runs);
    }
}

// ---------------------------------------------------------------------------
// Due tasks
// ---------------------------------------------------------------------------

/// The minute by which a trigger is remembered.
pub open spec fn trigger_key(now: MomentView) -> Seq<char> {
    now.date + ":"@ + now.clock
}

/// The first enabled task that is due at a minute.
pub open spec fn first_due(entries: Seq<ScheduleEntryView>, minute: nat, hour: nat) -> Option<
    ScheduleEntryView,
>
    decreases entries.len(),
{
    if entries.len() == 0 {
        None
    } else if entries[0].enabled && admits(entries[0].cron, minute, hour) {
        Some(entries[0])
    } else {
        first_due(entries.skip(1), minute, hour)
    }
}

/// The task that runs at `now`: none where one already ran in this minute.
pub open spec fn due(scheduler: SchedulerView, now: MomentView) -> Option<ScheduleEntryView> {
    if scheduler.last_trigger_key == Some(trigger_key(now)) {
        None
    } else {
        first_due(scheduler.store.schedules, now.minute as nat, now.hour as nat)
    }
}

/// The scheduler after it was asked at `now`.
pub open spec fn after_scan(scheduler: SchedulerView, now: MomentView) -> SchedulerView {
    if due(scheduler, now) is Some {
        SchedulerView { last_trigger_key: Some(trigger_key(now)), ..scheduler }
    } else {
        scheduler
    }
}

impl Scheduler {
    /// A scheduler for the tasks of a store.
    pub fn new(store: ScheduleStore) -> (result: Scheduler)
        ensures
            result@ == (SchedulerView { store: store@, last_trigger_key: None }),
    {
        Scheduler { store, last_trigger_key: None }
    }
}

/// Returns the task that is to run at `now`, and remembers the minute.
pub fn next_due(scheduler: &mut Scheduler, now: &Moment) -> (result: Option<ScheduleEntry>)
    ensures
        opt(result) == due(old(scheduler)@, now@),
        final(scheduler)@ == after_scan(old(scheduler)@, now@),
{
    if scheduler.store.schedules.len() == 0 {
        return None;
    }
    let mut key = now.date.clone();
    key.push_str(":");
    key.push_str(&now.clock);
    assert(key@ == trigger_key(now@));
    if let Some(last) = &scheduler.last_trigger_key {
        if same(last, &key) {
            return None;
        }
    }
    let ghost all = scheduler@.store.schedules;
    let mut i: usize = 0;
    assert(all.skip(0) =~= all);
    while i < scheduler.store.schedules.len()
        invariant
            i <= scheduler.store.schedules@.len(),
            scheduler@ == old(scheduler)@,
            all == views(scheduler.store.schedules@),
            all == old(scheduler)@.store.schedules,
            key@ == trigger_key(now@),
            old(scheduler)@.last_trigger_key != Some(trigger_key(now@)),
            first_due(all, now@.minute as nat, now@.hour as nat) == first_due(
                all.skip(i as int),
                now@.minute as nat,
                now@.hour as nat,
            ),
        decreases scheduler.store.schedules@.len() - i,
    {
        assert(all.skip(i as int)[0] == scheduler.store.schedules@[i as int]@);
        if scheduler.store.schedules[i].enabled && scheduler.store.schedules[i].matches_now(now) {
            let entry = scheduler.store.schedules[i].duplicate();
            scheduler.last_trigger_key = Some(key);
            return Some(entry);
        }
        assert(all.skip(i as int).skip(1) =~= all.skip(i + 1));
        i = i + 1;
    }
    None
}

// ---------------------------------------------------------------------------
// Summaries
// ---------------------------------------------------------------------------

/// Whether an event carries text of the model, and which.
pub open spec fn chunk_text(event: JsonView) -> Option<Seq<char>> {
    if text_of(member(event, "event_type"@)) == Some("text_chunk"@) {
        text_of(member(event, "content"@))
    } else {
        None
    }
}

/// The last text of the model among events that is not blank, without the blanks around it; an
/// empty text where there is none.
pub open spec fn last_passage(events: Seq<JsonView>) -> Seq<char>
    decreases events.len(),
{
    if events.len() == 0 {
        Seq::empty()
    } else {
        match chunk_text(events.last()) {
            Some(text) if trimmed(text).len() > 0 => trimmed(text),
            _ => last_passage(events.drop_last()),
        }
    }
}

/// The summary of a run: the last passage of the model, 500 characters at most.
pub open spec fn run_summary(events: Seq<JsonView>) -> Seq<char> {
    let text = last_passage(events);
    if text.len() == 0 {
        "任务执行完成（无文本输出）"@
    } else if text.len() > 500 {
        text.take(500)
    } else {
        text
    }
}

/// Finds the last text of the model among the first `end` events that is not blank.
fn find_passage(events: &Vec<Json>, end: usize) -> (result: String)
    requires
        end <= events@.len(),
    ensures
        result@ == last_passage(trees(events@).take(end as int)),
    decreases end,
{
    let ghost part = trees(events@).take(end as int);
    if end == 0 {
        return String::new();
    }
    assert(part.drop_last() =~= trees(events@).take(end - 1));
    assert(part.last() == events@[end - 1]@);
    let event = &events[end - 1];
    let is_chunk = match event.text_member("event_type") {
        Some(kind) => same(&kind, "text_chunk"),
        None => false,
    };
    if is_chunk {
        if let Some(content) = event.text_member("content") {
            let text = trim(&content);
            if !text.as_str().is_empty() {
                return text;
            }
        }
    }
    find_passage(events, end - 1)
}

/// Summarises a run from the events of its task.
pub fn summarize_scheduled_output(events: &Vec<Json>) -> (result: String)
    ensures
        result@ == run_summary(trees(events@)),
        result@.len() <= 500,
{
    proof {
        reveal_strlit("任务执行完成（无文本输出）");
    }
    let text = find_passage(events, events.len());
    assert(trees(events@).take(events@.len() as int) =~= trees(events@));
    if text.as_str().is_empty() {
        "任务执行完成（无文本输出）".to_owned()
    } else if text.as_str().unicode_len() > 500 {
        take_chars(&text, 500)
    } else {
        text
    }
}

/// The record of a run that has just been triggered.
pub open spec fn new_run(random: Seq<char>, schedule_id: Seq<char>, started_at: Seq<char>)
    -> ScheduleRunView {
    ScheduleRunView {
        id: "run-"@ + random,
        schedule_id,
        started_at,
        finished_at: started_at,
        status: "running"@,
        summary: "已触发，正在执行"@,
    }
}

/// Makes the record of a run that has just been triggered.
pub fn started_run(random: &str, schedule_id: String, started_at: String) -> (result: ScheduleRun)
    ensures
        result@ == new_run(random@, schedule_id@, started_at@),
{
    ScheduleRun {
        id: "run-".to_owned().concat(random),
        schedule_id,
        started_at: started_at.clone(),
        finished_at: started_at,
        status: "running".to_owned(),
        summary: "已触发，正在执行".to_owned(),
    }
}

/// Notes that a task was triggered, under a random id. Returns the id of the run.
pub fn trigger_run(store: &mut ScheduleStore, schedule_id: &str, started_at: &str) -> (id: String)
    ensures
        exists|random: Seq<char>|
            {
                let run = #[trigger] new_run(random, schedule_id@, started_at@);
                &&& random.len() == 36
                &&& id@ == run.id
                &&& final(store)@ == (ScheduleStoreView {
                    runs: recorded(old(store)@.runs, run),
                    ..old(store)@
                })
            },
{
    let random = fresh_uuid();
    let run = started_run(&random, schedule_id.to_owned(), started_at.to_owned());
    assert(run@ == new_run(random@, schedule_id@, started_at@));
    let id = run.id.clone();
    store.record_run(run);
    id
}

/// The store after a client asked for a task, and what the client is told: the id of the task
/// or what is wrong with it.
pub open spec fn schedule_saved(
    store: ScheduleStoreView,
    payload: SchedulePayloadView,
    random: Seq<char>,
    created_at: Seq<char>,
) -> (ScheduleStoreView, Result<Seq<char>, ApiErrorView>) {
    let entry = requested_entry(payload, random, created_at);
    match entry_verdict(entry) {
        Ok(_) => (
            ScheduleStoreView { schedules: upserted(store.schedules, entry), ..store },
            Ok(entry.id),
        ),
        Err(error) => (store, Err(error)),
    }
}

/// Puts the task that a client asks for in the store. Returns its id.
pub fn save_schedule(
    store: &mut ScheduleStore,
    payload: &SchedulePayload,
    random: &str,
    created_at: String,
) -> (result: Result<String, ApiError>)
    ensures
        ({
            let (after, told) = schedule_saved(old(store)@, payload@, random@, created_at@);
            &&& final(store)@ == after
            &&& match result {
                Ok(id) => told == Ok::<Seq<char>, ApiErrorView>(id@),
                Err(error) => told == Err::<Seq<char>, ApiErrorView>(error@),
            }
        }),
{
    match entry_from_payload(payload, random, created_at) {
        Ok(entry) => Ok(store.upsert(entry)),
        Err(error) => Err(error),
    }
}

/// Puts the task that a client asks for in the store; one without an id gets a random one.
/// Returns its id.
pub fn upsert_schedule(store: &mut ScheduleStore, payload: &SchedulePayload, created_at: String)
    -> (result: Result<String, ApiError>)
    ensures
        exists|random: Seq<char>|
            {
                let (after, told) = #[trigger] schedule_saved(
                    old(store)@,
                    payload@,
                    random,
                    created_at@,
                );
                &&& random.len() == 36
                &&& final(store)@ == after
                &&& match result {
                    Ok(id) => told == Ok::<Seq<char>, ApiErrorView>(id@),
                    Err(error) => told == Err::<Seq<char>, ApiErrorView>(error@),
                }
            },
{
    let random = fresh_uuid();
    save_schedule(store, payload, &random, created_at)
}

// ---------------------------------------------------------------------------
// Laws
// ---------------------------------------------------------------------------

/// A task that was put in the store is found under its id, and every other task is found as
/// before.
pub proof fn upsert_is_found(
    entries: Seq<ScheduleEntryView>,
    entry: ScheduleEntryView,
    other: Seq<char>,
)
    ensures
        find_entry(upserted(entries, entry), entry.id) == Some(entry),
        other != entry.id ==> find_entry(upserted(entries, entry), other) == find_entry(
            entries,
            other,
        ),
    decreases entries.len(),
{
    let after = upserted(entries, entry);
    if entries.len() == 0 {
        assert(after[0] == entry);
        assert(after.skip(1).len() == 0);
        assert(find_entry(after.skip(1), other) is None);
    } else if entries[0].id == entry.id {
        assert(after[0] == entry);
        assert(after.skip(1) =~= entries.skip(1));
    } else {
        upsert_is_found(entries.skip(1), entry, other);
        assert(after[0] == entries[0]);
        assert(after.skip(1) =~= upserted(entries.skip(1), entry));
    }
}

/// Putting a task in the store adds at most one.
pub proof fn upsert_adds_at_most_one(entries: Seq<ScheduleEntryView>, entry: ScheduleEntryView)
    ensures
        upserted(entries, entry).len() == entries.len() + if find_entry(entries, entry.id) is Some {
            0int
        } else {
            1int
        },
    decreases entries.len(),
{
    if entries.len() > 0 && entries[0].id != entry.id {
        upsert_adds_at_most_one(entries.skip(1), entry);
    }
}

/// Whether no two tasks share an id.
pub open spec fn ids_differ(entries: Seq<ScheduleEntryView>) -> bool {
    forall|i: int, j: int|
        0 <= i < j < entries.len() ==> (#[trigger] entries[i]).id != (#[trigger] entries[j]).id
}

/// A store in which no two tasks share an id stays such a store.
pub proof fn upsert_keeps_ids_apart(entries: Seq<ScheduleEntryView>, entry: ScheduleEntryView)
    requires
        ids_differ(entries),
    ensures
        ids_differ(upserted(entries, entry)),
{
    if exists|i: int| 0 <= i < entries.len() && (#[trigger] entries[i]).id == entry.id {
        let i = choose|i: int| 0 <= i < entries.len() && (#[trigger] entries[i]).id == entry.id;
        assert forall|k: int| 0 <= k < i implies (#[trigger] entries[k]).id != entry.id by {
            assert(entries[k].id != entries[i].id);
        }
        upserted_at(entries, entry, i);
    } else {
        upserted_last(entries, entry);
    }
}

/// After a removal nothing is found under the id, and every other task is still there.
pub proof fn removal_is_complete(
    entries: Seq<ScheduleEntryView>,
    id: Seq<char>,
    other: ScheduleEntryView,
)
    ensures
        forall|i: int|
            0 <= i < without_id(entries, id).len() ==> (#[trigger] without_id(entries, id)[i]).id
                != id,
        other.id != id ==> (without_id(entries, id).contains(other) <==> entries.contains(other)),
        without_id(entries, id).len() <= entries.len(),
        without_id(entries, id).len() == entries.len() ==> without_id(entries, id) == entries,
    decreases entries.len(),
{
    if entries.len() > 0 {
        let init = entries.drop_last();
        removal_is_complete(init, id, other);
        let kept = without_id(init, id);
        assert(entries =~= init.push(entries.last()));
        if entries.last().id == id {
            assert(without_id(entries, id) == kept);
            if other.id != id && entries.contains(other) {
                let k = choose|k: int| 0 <= k < entries.len() && entries[k] == other;
                assert(k < init.len());
                assert(init[k] == other);
            }
            if kept.contains(other) {
                let k = choose|k: int| 0 <= k < init.len() && init[k] == other;
                assert(init.contains(other) ==> entries[k] == other);
            }
        } else {
            let after = kept.push(entries.last());
            assert(without_id(entries, id) == after);
            if after.len() == entries.len() {
                assert(kept == init);
                assert(after =~= entries);
            }
            if other.id != id {
                if after.contains(other) {
                    let k = choose|k: int| 0 <= k < after.len() && after[k] == other;
                    if k < kept.len() {
                        assert(kept[k] == other);
                        assert(init.contains(other));
                        let m = choose|m: int| 0 <= m < init.len() && init[m] == other;
                        assert(entries[m] == other);
                    } else {
                        assert(entries[entries.len() - 1] == other);
                    }
                }
                if entries.contains(other) {
                    let k = choose|k: int| 0 <= k < entries.len() && entries[k] == other;
                    if k < init.len() {
                        assert(init[k] == other);
                        assert(kept.contains(other));
                        let m = choose|m: int| 0 <= m < kept.len() && kept[m] == other;
                        assert(after[m] == other);
                    } else {
                        assert(after[kept.len() as int] == other);
                    }
                }
            }
        }
    }
}

/// The record holds at most 200 runs, the newest one last, and drops only the oldest.
pub proof fn record_keeps_the_latest(runs: Seq<ScheduleRunView>, run: ScheduleRunView)
    requires
        runs.len() <= MAX_RUNS,
    ensures
        recorded(runs, run).len() <= MAX_RUNS,
        recorded(runs, run).last() == run,
        recorded(runs, run).is_suffix_of(runs.push(run)),
        runs.len() < MAX_RUNS ==> recorded(runs, run) == runs.push(run),
{
    let all = runs.push(run);
    if all.len() > MAX_RUNS {
        assert(all.skip(all.len() - MAX_RUNS) =~= all.subrange(
            all.len() - MAX_RUNS,
            all.len() as int,
        ));
    } else {
        assert(all =~= all.subrange(0, all.len() as int));
    }
}

/// The task that runs is enabled and due, and stands in the store.
pub proof fn due_tasks_match(entries: Seq<ScheduleEntryView>, minute: nat, hour: nat)
    ensures
        match first_due(entries, minute, hour) {
            Some(entry) => entry.enabled && admits(entry.cron, minute, hour) && entries.contains(
                entry,
            ),
            None => forall|i: int|
                0 <= i < entries.len() ==> !((#[trigger] entries[i]).enabled && admits(
                    entries[i].cron,
                    minute,
                    hour,
                )),
        },
    decreases entries.len(),
{
    if entries.len() > 0 {
        if entries[0].enabled && admits(entries[0].cron, minute, hour) {
            assert(entries.contains(entries[0]));
        } else {
            let rest = entries.skip(1);
            due_tasks_match(rest, minute, hour);
            match first_due(rest, minute, hour) {
                Some(entry) => {
                    let k = choose|k: int| 0 <= k < rest.len() && rest[k] == entry;
                    assert(entries[k + 1] == entry);
                },
                None => {
                    assert forall|i: int| 0 <= i < entries.len() implies !((
                    #[trigger] entries[i]).enabled && admits(entries[i].cron, minute, hour)) by {
                        if i > 0 {
                            assert(rest[i - 1] == entries[i]);
                        }
                    }
                },
            }
        }
    }
}

/// In one minute at most one task runs, however often the scheduler is asked.
pub proof fn a_minute_triggers_once(scheduler: SchedulerView, now: MomentView, again: MomentView)
    requires
        due(scheduler, now) is Some,
        trigger_key(again) == trigger_key(now),
    ensures
        due(after_scan(scheduler, now), again) is None,
        after_scan(after_scan(scheduler, now), again) == after_scan(scheduler, now),
{
}

} // verus!
