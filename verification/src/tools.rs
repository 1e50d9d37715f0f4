//! Tool calls: which of them run, which run side by side, and which are held back.

use vstd::prelude::*;
use vstd::utf8::encode_utf8;
use crate::codec::compact_text;
use crate::codec::digest_hex;
use crate::codec::md5_hex;
use crate::codec::write_compact;
use crate::session::InvalidToolCall;
use crate::session::InvalidToolCallView;
use crate::session::ToolCall;
use crate::session::ToolCallView;
use crate::session::ToolSpec;
use crate::session::ToolSpecView;
use crate::text::contains;
use crate::text::has;
use crate::text::join;
use crate::text::joined;
use crate::text::lower;
use crate::text::same;
use crate::text::take_chars;
use crate::text::texts;
use crate::text::texts_empty;
use crate::text::texts_push;
use crate::text::to_lower;
use crate::views::duplicate_opt;
use crate::views::group_views;
use crate::views::opt;
use crate::views::views;
use crate::views::Duplicate;

verus! {

broadcast use {group_views, texts_push, texts_empty};

/// How a call with given tool and arguments has failed so far in a turn.
#[derive(Clone, Copy, Debug, PartialEq, Eq, Structural)]
pub struct ToolFailureState {
    /// How often it ran and failed.
    pub executions: u8,
    /// Whether its last failure says that the same call cannot work.
    pub requires_changed_call: bool,
}

/// A call that failed, by its fingerprint.
#[derive(Debug)]
pub struct ToolFailure {
    pub fingerprint: String,
    pub state: ToolFailureState,
}

/// What a `ToolFailure` holds.
#[verifier::ext_equal]
pub struct ToolFailureView {
    pub fingerprint: Seq<char>,
    pub state: ToolFailureState,
}

impl View for ToolFailure {
    type V = ToolFailureView;

    open spec fn view(&self) -> ToolFailureView {
        ToolFailureView {
            fingerprint: self.fingerprint@,
            state: self.state,
        }
    }
}

impl Duplicate for ToolFailure {
    fn duplicate(&self) -> (result: Self) {
        ToolFailure {
            fingerprint: self.fingerprint.clone(),
            state: self.state,
        }
    }
}

/// What is known of a call before it runs.
#[derive(Debug)]
pub struct CallFacts {
    /// Whether the tool is known and only reads.
    pub read_only: bool,
    /// What the call works on, where that is known.
    pub resource: Option<String>,
}

/// What a `CallFacts` holds.
#[verifier::ext_equal]
pub struct CallFactsView {
    pub read_only: bool,
    pub resource: Option<Seq<char>>,
}

impl View for CallFacts {
    type V = CallFactsView;

    open spec fn view(&self) -> CallFactsView {
        CallFactsView {
            read_only: self.read_only,
            resource: opt(self.resource),
        }
    }
}

impl Duplicate for CallFacts {
    fn duplicate(&self) -> (result: Self) {
        CallFacts {
            read_only: self.read_only,
            resource: duplicate_opt(&self.resource),
        }
    }
}

/// How a call is to run.
#[derive(Debug)]
pub enum CallMode {
    /// Not at all, for this reason.
    Blocked(String),
    /// Side by side with other such calls.
    Parallel,
    /// Alone among the calls of this kind.
    Serial,
}

/// What a `CallMode` holds.
#[verifier::ext_equal]
pub enum CallModeView {
    Blocked(Seq<char>),
    Parallel,
    Serial,
}

impl View for CallMode {
    type V = CallModeView;

    open spec fn view(&self) -> CallModeView {
        match *self {
            CallMode::Blocked(a0) => CallModeView::Blocked(a0@),
            CallMode::Parallel => CallModeView::Parallel,
            CallMode::Serial => CallModeView::Serial,
        }
    }
}

impl Duplicate for CallMode {
    fn duplicate(&self) -> (result: Self) {
        match self {
            CallMode::Blocked(a0) => CallMode::Blocked(a0.clone()),
            CallMode::Parallel => CallMode::Parallel,
            CallMode::Serial => CallMode::Serial,
        }
    }
}

/// A call and how it is to run.
#[derive(Debug)]
pub struct ScheduledCall {
    pub call: ToolCall,
    pub fingerprint: String,
    pub mode: CallMode,
}

/// What a `ScheduledCall` holds.
#[verifier::ext_equal]
pub struct ScheduledCallView {
    pub call: ToolCallView,
    pub fingerprint: Seq<char>,
    pub mode: CallModeView,
}

impl View for ScheduledCall {
    type V = ScheduledCallView;

    open spec fn view(&self) -> ScheduledCallView {
        ScheduledCallView {
            call: self.call@,
            fingerprint: self.fingerprint@,
            mode: self.mode@,
        }
    }
}

impl Duplicate for ScheduledCall {
    fn duplicate(&self) -> (result: Self) {
        ScheduledCall {
            call: self.call.duplicate(),
            fingerprint: self.fingerprint.clone(),
            mode: self.mode.duplicate(),
        }
    }
}

// ---------------------------------------------------------------------------
// Cutting and describing
// ---------------------------------------------------------------------------

/// A text cut to `max` characters, with a mark where something was cut off.
pub open spec fn truncated(s: Seq<char>, max: nat) -> Seq<char> {
    if s.len() <= max {
        s
    } else {
        s.take(max as int) + "...[truncated]"@
    }
}

/// Cuts `input` to `max_chars` characters and marks the cut.
pub fn truncate_chars(input: &str, max_chars: usize) -> (result: String)
    ensures
        result@ == truncated(input@, max_chars as nat),
{
    if input.unicode_len() <= max_chars {
        return input.to_owned();
    }
    take_chars(input, max_chars).concat("...[truncated]")
}

/// The first tool of the given name.
pub open spec fn find_spec(specs: Seq<ToolSpecView>, name: Seq<char>) -> Option<ToolSpecView>
    decreases specs.len(),
{
    if specs.len() == 0 {
        None
    } else if specs[0].name == name {
        Some(specs[0])
    } else {
        find_spec(specs.skip(1), name)
    }
}

/// The schema that the model is shown for a tool.
pub open spec fn shown_schema(specs: Seq<ToolSpecView>, name: Seq<char>) -> Seq<char> {
    match find_spec(specs, name) {
        Some(spec) => truncated(compact_text(spec.parameters), 4_000),
        None => "unavailable; do not guess fields"@,
    }
}

/// What the model is told about one invalid call, given the schema that it is shown.
pub open spec fn problem_text(call: InvalidToolCallView, schema: Seq<char>) -> Seq<char> {
    "tool_name: "@ + call.name + "\nvalidation_stage: arguments\nfield_error: "@ + call.reason
        + "\njson_schema: "@ + schema
}

/// Writes what the model is told about one invalid call, given the schema that it is shown.
pub fn describe_problem(call: &InvalidToolCall, schema: &str) -> (result: String)
    ensures
        result@ == problem_text(call@, schema@),
{
    let mut result = "tool_name: ".to_owned();
    result.push_str(&call.name);
    result.push_str("\nvalidation_stage: arguments\nfield_error: ");
    result.push_str(&call.reason);
    result.push_str("\njson_schema: ");
    result.push_str(schema);
    result
}

/// Writes what the model is told about one invalid call.
pub fn tool_correction_problem(call: &InvalidToolCall, specs: &Vec<ToolSpec>) -> (result: String)
    ensures
        result@ == problem_text(call@, shown_schema(views(specs@), call.name@)),
{
    let ghost all = views(specs@);
    let mut i: usize = 0;
    assert(all.skip(0) =~= all);
    while i < specs.len()
        invariant
            i <= specs@.len(),
            all == views(specs@),
            find_spec(all, call.name@) == find_spec(all.skip(i as int), call.name@),
        decreases specs@.len() - i,
    {
        assert(all.skip(i as int)[0] == specs@[i as int]@);
        if same(&specs[i].name, &call.name) {
            let schema = truncate_chars(&write_compact(&specs[i].parameters), 4_000);
            return describe_problem(call, &schema);
        }
        assert(all.skip(i as int).skip(1) =~= all.skip(i + 1));
        i = i + 1;
    }
    describe_problem(call, "unavailable; do not guess fields")
}

/// What the model is told about every invalid call of a reply.
pub open spec fn problems(
    calls: Seq<InvalidToolCallView>,
    specs: Seq<ToolSpecView>,
) -> Seq<Seq<char>> {
    Seq::new(calls.len(), |i: int| problem_text(calls[i], shown_schema(specs, calls[i].name)))
}

/// The message that asks the model to correct its calls.
#[verifier::opaque]
pub open spec fn correction_request(
    calls: Seq<InvalidToolCallView>,
    specs: Seq<ToolSpecView>,
) -> Seq<char> {
    "<tool_call_correction>The previous tool call was not executed because its arguments were invalid. Return the same tool call once more with exactly one valid JSON object matching the supplied schema. Do not use Markdown fences or explanatory text.\n"@
        + joined(problems(calls, specs), "\n\n"@) + "</tool_call_correction>"@
}

/// Writes the message that asks the model to correct its calls.
pub fn correction_message(calls: &Vec<InvalidToolCall>, specs: &Vec<ToolSpec>) -> (result: String)
    ensures
        result@ == correction_request(views(calls@), views(specs@)),
{
    proof {
        reveal(correction_request);
    }
    let ghost wanted = problems(views(calls@), views(specs@));
    let mut parts: Vec<String> = Vec::new();
    let mut i: usize = 0;
    while i < calls.len()
        invariant
            i <= calls@.len(),
            wanted == problems(views(calls@), views(specs@)),
            texts(parts@) == wanted.take(i as int),
        decreases calls@.len() - i,
    {
        let problem = tool_correction_problem(&calls[i], specs);
        assert(views(calls@)[i as int] == calls@[i as int]@);
        parts.push(problem);
        assert(wanted.take(i + 1) =~= wanted.take(i as int).push(wanted[i as int]));
        i = i + 1;
    }
    assert(wanted.take(i as int) =~= wanted);
    let mut result = "<tool_call_correction>The previous tool call was not executed because its arguments were invalid. Return the same tool call once more with exactly one valid JSON object matching the supplied schema. Do not use Markdown fences or explanatory text.\n".to_owned();
    result.push_str(&join(&parts, "\n\n"));
    result.push_str("</tool_call_correction>");
    result
}

// ---------------------------------------------------------------------------
// Fingerprints and failures
// ---------------------------------------------------------------------------

/// The bytes by which a call is recognised: the tool's name, a zero byte, the arguments.
pub open spec fn call_bytes(name: Seq<char>, arguments: Seq<char>) -> Seq<u8> {
    encode_utf8(name) + seq![0u8] + encode_utf8(arguments)
}

/// The fingerprint of a call: two calls of one tool with the same arguments have the same.
pub open spec fn fingerprint(call: ToolCallView) -> Seq<char> {
    md5_hex(call_bytes(call.name, compact_text(call.arguments)))
}

/// Returns the bytes by which a call is recognised.
pub fn fingerprint_bytes(name: &str, arguments: &str) -> (result: Vec<u8>)
    ensures
        result@ == call_bytes(name@, arguments@),
{
    let mut bytes: Vec<u8> = Vec::new();
    bytes.extend_from_slice(name.as_bytes());
    bytes.push(0);
    bytes.extend_from_slice(arguments.as_bytes());
    assert(bytes@ =~= call_bytes(name@, arguments@));
    bytes
}

/// Returns the fingerprint of a call.
pub fn tool_call_fingerprint(call: &ToolCall) -> (result: String)
    ensures
        result@ == fingerprint(call@),
{
    let arguments = write_compact(&call.arguments);
    let bytes = fingerprint_bytes(&call.name, &arguments);
    digest_hex(&bytes)
}

/// Whether a failure says that the same call cannot work: it is not allowed, its arguments
/// are wrong, or what it names is not there.
#[verifier::opaque]
pub open spec fn asks_for_change(output: Seq<char>) -> bool {
    let text = lower(output);
    ||| contains(text, "permission denied"@)
    ||| contains(text, "not permitted"@)
    ||| contains(text, "policy"@)
    ||| contains(text, "sandbox"@)
    ||| contains(text, "invalid argument"@)
    ||| contains(text, "invalid parameter"@)
    ||| contains(text, "missing required"@)
    ||| contains(text, "not found"@)
    ||| contains(text, "no such file"@)
    ||| contains(text, "old_string"@)
    ||| contains(text, "权限"@)
    ||| contains(text, "策略"@)
    ||| contains(text, "参数"@)
    ||| contains(text, "不存在"@)
    ||| contains(text, "未找到"@)
}

/// Tells whether a failure says that the same call cannot work.
pub fn tool_failure_requires_changed_call(output: &str) -> (result: bool)
    ensures
        result == asks_for_change(output@),
{
    proof {
        reveal(asks_for_change);
    }
    let text = to_lower(output);
    has(&text, "permission denied") || has(&text, "not permitted") || has(&text, "policy") || has(
        &text,
        "sandbox",
    ) || has(&text, "invalid argument") || has(&text, "invalid parameter") || has(
        &text,
        "missing required",
    ) || has(&text, "not found") || has(&text, "no such file") || has(&text, "old_string") || has(
        &text,
        "权限",
    ) || has(&text, "策略") || has(&text, "参数") || has(&text, "不存在") || has(&text, "未找到")
}

/// The state of a call that has not failed.
pub open spec fn no_failure() -> ToolFailureState {
    ToolFailureState { executions: 0, requires_changed_call: false }
}

/// How the call with a fingerprint has failed so far.
pub open spec fn failure_of(failures: Seq<ToolFailureView>, print: Seq<char>) -> ToolFailureState
    decreases failures.len(),
{
    if failures.len() == 0 {
        no_failure()
    } else if failures.last().fingerprint == print {
        failures.last().state
    } else {
        failure_of(failures.drop_last(), print)
    }
}

/// The failures without those of one call.
pub open spec fn forget(failures: Seq<ToolFailureView>, print: Seq<char>) -> Seq<ToolFailureView>
    decreases failures.len(),
{
    if failures.len() == 0 {
        Seq::empty()
    } else if failures.last().fingerprint == print {
        forget(failures.drop_last(), print)
    } else {
        forget(failures.drop_last(), print).push(failures.last())
    }
}

/// The state of a call after it ran once more and failed.
pub open spec fn failed_again(state: ToolFailureState, output: Seq<char>) -> ToolFailureState {
    ToolFailureState {
        executions: if state.executions == u8::MAX {
            u8::MAX
        } else {
            (state.executions + 1) as u8
        },
        requires_changed_call: asks_for_change(output),
    }
}

/// The failures after a call ended. A success clears the call's failures; a failure counts
/// only where the call really ran.
#[verifier::opaque]
pub open spec fn failures_after(
    failures: Seq<ToolFailureView>,
    print: Seq<char>,
    executed: bool,
    success: bool,
    output: Seq<char>,
) -> Seq<ToolFailureView> {
    if success {
        forget(failures, print)
    } else if executed {
        forget(failures, print).push(
            ToolFailureView {
                fingerprint: print,
                state: failed_again(failure_of(failures, print), output),
            },
        )
    } else {
        failures
    }
}

/// Returns how the call with a fingerprint has failed so far.
pub fn find_failure(failures: &Vec<ToolFailure>, print: &str) -> (result: ToolFailureState)
    ensures
        result == failure_of(views(failures@), print@),
{
    let mut i: usize = failures.len();
    assert(views(failures@).take(i as int) =~= views(failures@));
    while i > 0
        invariant
            i <= failures@.len(),
            failure_of(views(failures@), print@) == failure_of(
                views(failures@).take(i as int),
                print@,
            ),
        decreases i,
    {
        let ghost part = views(failures@).take(i as int);
        assert(part.last() == failures@[i - 1]@);
        if same(&failures[i - 1].fingerprint, print) {
            return failures[i - 1].state;
        }
        assert(part.drop_last() =~= views(failures@).take(i - 1));
        i = i - 1;
    }
    ToolFailureState { executions: 0, requires_changed_call: false }
}

/// Removes the failures of one call.
pub fn forget_failure(failures: &Vec<ToolFailure>, print: &str) -> (result: Vec<ToolFailure>)
    ensures
        views(result@) == forget(views(failures@), print@),
{
    let mut kept: Vec<ToolFailure> = Vec::new();
    let mut i: usize = 0;
    while i < failures.len()
        invariant
            i <= failures@.len(),
            views(kept@) == forget(views(failures@).take(i as int), print@),
        decreases failures@.len() - i,
    {
        let ghost part = views(failures@).take(i + 1);
        assert(part.drop_last() =~= views(failures@).take(i as int));
        assert(part.last() == failures@[i as int]@);
        if !same(&failures[i].fingerprint, print) {
            kept.push(failures[i].duplicate());
        }
        i = i + 1;
    }
    assert(views(failures@).take(i as int) =~= views(failures@));
    kept
}

/// Books how a call ended.
pub fn book_result(
    failures: Vec<ToolFailure>,
    print: &str,
    executed: bool,
    success: bool,
    output: &str,
) -> (result: Vec<ToolFailure>)
    ensures
        views(result@) == failures_after(views(failures@), print@, executed, success, output@),
{
    proof {
        reveal(failures_after);
    }
    if success {
        forget_failure(&failures, print)
    } else if executed {
        let previous = find_failure(&failures, print);
        let mut kept = forget_failure(&failures, print);
        let executions: u8 = if previous.executions == u8::MAX {
            u8::MAX
        } else {
            previous.executions + 1
        };
        kept.push(
            ToolFailure {
                fingerprint: print.to_owned(),
                state: ToolFailureState {
                    executions,
                    requires_changed_call: tool_failure_requires_changed_call(output),
                },
            },
        );
        kept
    } else {
        failures
    }
}

// ---------------------------------------------------------------------------
// Scheduling
// ---------------------------------------------------------------------------

/// Whether a call is held back: it stands in the batch before, its last failure asks for a
/// change, or it has run and failed twice.
pub open spec fn held_back(previous: ToolFailureState, repeated: bool) -> bool {
    repeated || previous.requires_changed_call || previous.executions >= 2
}

/// Why a call is held back.
pub open spec fn block_reason(previous: ToolFailureState, repeated: bool) -> Seq<char> {
    if repeated {
        "已阻止同一批次中的重复工具调用；请合并调用或修改参数。"@
    } else if previous.requires_changed_call {
        "相同工具与参数此前因权限、策略、参数或路径问题失败，已阻止原样重试；请修改参数、路径或改用其他工具。"@
    } else {
        "相同工具与参数已达到最多一次重试上限，已阻止继续执行；请修改参数或切换工具。"@
    }
}

/// Returns why a call is held back.
pub fn tool_retry_block_reason(previous: ToolFailureState, repeated_in_batch: bool) -> (result:
    String)
    ensures
        result@ == block_reason(previous, repeated_in_batch),
{
    if repeated_in_batch {
        return "已阻止同一批次中的重复工具调用；请合并调用或修改参数。".to_owned();
    }
    if previous.requires_changed_call {
        return "相同工具与参数此前因权限、策略、参数或路径问题失败，已阻止原样重试；请修改参数、路径或改用其他工具。".to_owned();
    }
    "相同工具与参数已达到最多一次重试上限，已阻止继续执行；请修改参数或切换工具。".to_owned()
}

/// The fingerprints of a batch of calls.
pub open spec fn prints(calls: Seq<ToolCallView>) -> Seq<Seq<char>> {
    Seq::new(calls.len(), |i: int| fingerprint(calls[i]))
}

/// Whether a call that may change something works on `resource`.
pub open spec fn may_change(facts: Seq<CallFactsView>, resource: Seq<char>) -> bool {
    exists|j: int|
        0 <= j < facts.len() && !(#[trigger] facts[j]).read_only && facts[j].resource == Some(
            resource,
        )
}

/// Whether a call may run side by side with others: it only reads, and nothing in the batch
/// may change what it reads.
pub open spec fn runs_parallel(facts: Seq<CallFactsView>, i: int) -> bool {
    facts[i].read_only && match facts[i].resource {
        Some(resource) => !may_change(facts, resource),
        None => true,
    }
}

/// How call number `i` of a batch runs.
pub open spec fn mode_of(
    marks: Seq<Seq<char>>,
    facts: Seq<CallFactsView>,
    failures: Seq<ToolFailureView>,
    i: int,
) -> CallModeView {
    let repeated = marks.take(i).contains(marks[i]);
    let previous = failure_of(failures, marks[i]);
    if held_back(previous, repeated) {
        CallModeView::Blocked(block_reason(previous, repeated))
    } else if runs_parallel(facts, i) {
        CallModeView::Parallel
    } else {
        CallModeView::Serial
    }
}

/// How the calls of a batch run, given their fingerprints.
#[verifier::opaque]
pub open spec fn scheduled(
    calls: Seq<ToolCallView>,
    marks: Seq<Seq<char>>,
    facts: Seq<CallFactsView>,
    failures: Seq<ToolFailureView>,
) -> Seq<ScheduledCallView> {
    Seq::new(
        calls.len(),
        |i: int|
            ScheduledCallView {
                call: calls[i],
                fingerprint: marks[i],
                mode: mode_of(marks, facts, failures, i),
            },
    )
}

/// Tells whether a call that may change something works on `resource`.
fn changes_resource(facts: &Vec<CallFacts>, resource: &str) -> (result: bool)
    ensures
        result == may_change(views(facts@), resource@),
{
    let mut i: usize = 0;
    while i < facts.len()
        invariant
            i <= facts@.len(),
            forall|j: int|
                0 <= j < i ==> !(!(#[trigger] views(facts@)[j]).read_only && views(
                    facts@,
                )[j].resource == Some(resource@)),
        decreases facts@.len() - i,
    {
        assert(views(facts@)[i as int] == facts@[i as int]@);
        if !facts[i].read_only {
            if let Some(other) = &facts[i].resource {
                if same(other, resource) {
                    return true;
                }
            }
        }
        i = i + 1;
    }
    false
}

/// Decides how the calls of a batch run, given their fingerprints.
pub fn schedule_marked(
    calls: &Vec<ToolCall>,
    marks: &Vec<String>,
    facts: &Vec<CallFacts>,
    failures: &Vec<ToolFailure>,
) -> (result: Vec<ScheduledCall>)
    requires
        marks@.len() == calls@.len(),
        facts@.len() == calls@.len(),
    ensures
        views(result@) == scheduled(
            views(calls@),
            texts(marks@),
            views(facts@),
            views(failures@),
        ),
{
    proof {
        reveal(scheduled);
    }
    let ghost wanted = scheduled(views(calls@), texts(marks@), views(facts@), views(failures@));
    let mut result: Vec<ScheduledCall> = Vec::new();
    let mut seen: Vec<String> = Vec::new();
    let mut i: usize = 0;
    while i < calls.len()
        invariant
            i <= calls@.len(),
            marks@.len() == calls@.len(),
            facts@.len() == calls@.len(),
            wanted == scheduled(views(calls@), texts(marks@), views(facts@), views(failures@)),
            texts(seen@) == texts(marks@).take(i as int),
            views(result@) == wanted.take(i as int),
        decreases calls@.len() - i,
    {
        proof {
            reveal(scheduled);
        }
        let repeated = crate::text::list_has(&seen, &marks[i]);
        let previous = find_failure(failures, &marks[i]);
        assert(texts(marks@)[i as int] == marks@[i as int]@);
        assert(views(facts@)[i as int] == facts@[i as int]@);
        let mode = if repeated || previous.requires_changed_call || previous.executions >= 2 {
            CallMode::Blocked(tool_retry_block_reason(previous, repeated))
        } else {
            let free = match &facts[i].resource {
                Some(resource) => !changes_resource(facts, resource),
                None => true,
            };
            if facts[i].read_only && free {
                CallMode::Parallel
            } else {
                CallMode::Serial
            }
        };
        let item = ScheduledCall {
            call: calls[i].duplicate(),
            fingerprint: marks[i].clone(),
            mode,
        };
        assert(item@ == wanted[i as int]);
        result.push(item);
        seen.push(marks[i].clone());
        assert(wanted.take(i + 1) =~= wanted.take(i as int).push(wanted[i as int]));
        assert(texts(marks@).take(i + 1) =~= texts(marks@).take(i as int).push(
            texts(marks@)[i as int],
        ));
        i = i + 1;
    }
    assert(wanted.take(i as int) =~= wanted);
    result
}

/// Decides how the calls of a batch run.
pub fn schedule_calls(
    calls: &Vec<ToolCall>,
    facts: &Vec<CallFacts>,
    failures: &Vec<ToolFailure>,
) -> (result: Vec<ScheduledCall>)
    requires
        facts@.len() == calls@.len(),
    ensures
        views(result@) == scheduled(
            views(calls@),
            prints(views(calls@)),
            views(facts@),
            views(failures@),
        ),
{
    let ghost wanted = prints(views(calls@));
    let mut marks: Vec<String> = Vec::new();
    let mut i: usize = 0;
    while i < calls.len()
        invariant
            i <= calls@.len(),
            wanted == prints(views(calls@)),
            texts(marks@) == wanted.take(i as int),
        decreases calls@.len() - i,
    {
        assert(views(calls@)[i as int] == calls@[i as int]@);
        marks.push(tool_call_fingerprint(&calls[i]));
        assert(wanted.take(i + 1) =~= wanted.take(i as int).push(wanted[i as int]));
        i = i + 1;
    }
    assert(wanted.take(i as int) =~= wanted);
    assert(texts(marks@).len() == marks@.len());
    schedule_marked(calls, &marks, facts, failures)
}

// ---------------------------------------------------------------------------
// Laws
// ---------------------------------------------------------------------------

/// Forgetting a call clears its failures and leaves those of the others.
pub proof fn forget_clears_one(failures: Seq<ToolFailureView>, print: Seq<char>, other: Seq<char>)
    ensures
        failure_of(forget(failures, print), print) == no_failure(),
        other != print ==> failure_of(forget(failures, print), other) == failure_of(
            failures,
            other,
        ),
    decreases failures.len(),
{
    if failures.len() > 0 {
        forget_clears_one(failures.drop_last(), print, other);
        if failures.last().fingerprint != print {
            assert(forget(failures, print).drop_last() =~= forget(failures.drop_last(), print));
        }
    }
}

/// Booking how a call ended changes what is known of that call as `failed_again` says, clears
/// it on success, and leaves what is known of every other call.
pub proof fn booking_touches_one_call(
    failures: Seq<ToolFailureView>,
    print: Seq<char>,
    executed: bool,
    success: bool,
    output: Seq<char>,
    other: Seq<char>,
)
    ensures
        ({
            let after = failures_after(failures, print, executed, success, output);
            &&& failure_of(after, print) == if success {
                no_failure()
            } else if executed {
                failed_again(failure_of(failures, print), output)
            } else {
                failure_of(failures, print)
            }
            &&& other != print ==> failure_of(after, other) == failure_of(failures, other)
        }),
{
    reveal(failures_after);
    forget_clears_one(failures, print, other);
    let after = failures_after(failures, print, executed, success, output);
    if !success && executed {
        assert(after.drop_last() =~= forget(failures, print));
    }
}

/// How often a call runs when the model asks for it `asked` times, alone in its batch, and
/// every run fails with `output`; `state` is what is known of the call before.
pub open spec fn runs_of(state: ToolFailureState, asked: nat, output: Seq<char>) -> nat
    decreases asked,
{
    if asked == 0 {
        0
    } else if held_back(state, false) {
        runs_of(state, (asked - 1) as nat, output)
    } else {
        1 + runs_of(failed_again(state, output), (asked - 1) as nat, output)
    }
}

/// A call that is held back stays held back as long as nothing else happens to it.
proof fn held_back_stays(state: ToolFailureState, asked: nat, output: Seq<char>)
    requires
        held_back(state, false),
    ensures
        runs_of(state, asked, output) == 0,
    decreases asked,
{
    if asked > 0 {
        held_back_stays(state, (asked - 1) as nat, output);
    }
}

/// An unchanged call that keeps failing runs at most twice, and only once where its failure
/// asks for a changed call, however often the model asks for it.
pub proof fn unchanged_failure_runs_at_most_twice(asked: nat, output: Seq<char>)
    ensures
        runs_of(no_failure(), asked, output) <= 2,
        asks_for_change(output) ==> runs_of(no_failure(), asked, output) <= 1,
        asked >= 1 ==> runs_of(no_failure(), asked, output) >= 1,
        asked >= 2 && !asks_for_change(output) ==> runs_of(no_failure(), asked, output) == 2,
{
    let first = failed_again(no_failure(), output);
    let second = failed_again(first, output);
    if asked >= 1 {
        if held_back(first, false) {
            held_back_stays(first, (asked - 1) as nat, output);
        } else if asked >= 2 {
            held_back_stays(second, (asked - 2) as nat, output);
            reveal_with_fuel(runs_of, 3);
        } else {
            reveal_with_fuel(runs_of, 3);
        }
    }
}

/// In one batch no two calls that run have the same fingerprint.
pub proof fn batch_runs_each_call_once(
    calls: Seq<ToolCallView>,
    marks: Seq<Seq<char>>,
    facts: Seq<CallFactsView>,
    failures: Seq<ToolFailureView>,
    i: int,
    j: int,
)
    requires
        marks.len() == calls.len(),
        0 <= i < j < calls.len(),
        marks[i] == marks[j],
    ensures
        scheduled(calls, marks, facts, failures)[j].mode is Blocked,
{
    reveal(scheduled);
    assert(marks.take(j)[i] == marks[j]);
}

/// A call that runs side by side with others reads nothing that any call of the batch may
/// change.
pub proof fn parallel_calls_read_what_nobody_changes(
    calls: Seq<ToolCallView>,
    marks: Seq<Seq<char>>,
    facts: Seq<CallFactsView>,
    failures: Seq<ToolFailureView>,
    i: int,
    j: int,
)
    requires
        marks.len() == calls.len(),
        facts.len() == calls.len(),
        0 <= i < calls.len(),
        0 <= j < calls.len(),
        scheduled(calls, marks, facts, failures)[i].mode is Parallel,
        !facts[j].read_only,
    ensures
        facts[i].read_only,
        facts[i].resource is Some ==> facts[j].resource != facts[i].resource,
{
    reveal(scheduled);
}

/// A call whose last failure asks for a change, or that has failed twice, is held back until
/// it succeeds or changes.
pub proof fn exhausted_calls_are_held_back(
    calls: Seq<ToolCallView>,
    marks: Seq<Seq<char>>,
    facts: Seq<CallFactsView>,
    failures: Seq<ToolFailureView>,
    i: int,
)
    requires
        marks.len() == calls.len(),
        0 <= i < calls.len(),
        failure_of(failures, marks[i]).requires_changed_call || failure_of(
            failures,
            marks[i],
        ).executions >= 2,
    ensures
        scheduled(calls, marks, facts, failures)[i].mode is Blocked,
{
    reveal(scheduled);
}

} // verus!
