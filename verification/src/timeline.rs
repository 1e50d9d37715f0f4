//! The timeline of the terminal: what was said and done, as it is shown.

use vstd::prelude::*;
use crate::json::Json;
use crate::json::JsonView;
use crate::json_ops::Fields;
use crate::session::ChatMessage;
use crate::session::ChatMessageView;
use crate::session::Role;
use crate::session::ToolCall;
use crate::session::ToolCallView;
use crate::table::lookup;
use crate::table::pairs_of;
use crate::table::put;
use crate::table::table_get;
use crate::table::table_put;
use crate::table::table_remove;
use crate::table::without;
use crate::text::begins;
use crate::text::same;
use crate::text::starts_with;
use crate::views::Duplicate;
use crate::views::group_views;
use crate::views::views;

verus! {

broadcast use {group_views};

/// How grave a notice is.
#[derive(Clone, Copy, Debug, PartialEq, Eq, Structural)]
pub enum NoticeKind {
    Success,
    Warning,
    Error,
}

/// How far a tool call has come.
#[derive(Debug)]
pub enum ToolState {
    /// It has not ended.
    Running,
    /// It ended.
    Complete { success: bool, output: String },
}

/// What a `ToolState` holds.
#[verifier::ext_equal]
pub enum ToolStateView {
    Running,
    Complete { success: bool, output: Seq<char> },
}

impl View for ToolState {
    type V = ToolStateView;

    open spec fn view(&self) -> ToolStateView {
        match *self {
            ToolState::Running => ToolStateView::Running,
            ToolState::Complete { success, output } => ToolStateView::Complete { success: success, output: output@ },
        }
    }
}

/// One entry of the timeline.
#[derive(Debug)]
pub enum TimelineEntry {
    /// The user wrote.
    User(String),
    /// The model wrote.
    Assistant(String),
    /// The model reasoned.
    Reasoning(String),
    /// The user wrote in a side session.
    SideUser(String),
    /// The model wrote in a side session.
    SideAssistant(String),
    /// A tool was called.
    Tool { id: String, name: String, arguments: Json, state: ToolState },
    /// The program tells something.
    Notice { kind: NoticeKind, text: String },
}

/// What a `TimelineEntry` holds.
#[verifier::ext_equal]
pub enum TimelineEntryView {
    User(Seq<char>),
    Assistant(Seq<char>),
    Reasoning(Seq<char>),
    SideUser(Seq<char>),
    SideAssistant(Seq<char>),
    Tool { id: Seq<char>, name: Seq<char>, arguments: JsonView, state: ToolStateView },
    Notice { kind: NoticeKind, text: Seq<char> },
}

impl View for TimelineEntry {
    type V = TimelineEntryView;

    open spec fn view(&self) -> TimelineEntryView {
        match *self {
            TimelineEntry::User(a0) => TimelineEntryView::User(a0@),
            TimelineEntry::Assistant(a0) => TimelineEntryView::Assistant(a0@),
            TimelineEntry::Reasoning(a0) => TimelineEntryView::Reasoning(a0@),
            TimelineEntry::SideUser(a0) => TimelineEntryView::SideUser(a0@),
            TimelineEntry::SideAssistant(a0) => TimelineEntryView::SideAssistant(a0@),
            TimelineEntry::Tool { id, name, arguments, state } => TimelineEntryView::Tool { id: id@, name: name@, arguments: arguments@, state: state@ },
            TimelineEntry::Notice { kind, text } => TimelineEntryView::Notice { kind: kind, text: text@ },
        }
    }
}

// ---------------------------------------------------------------------------
// The timeline of a stored session
// ---------------------------------------------------------------------------

/// Calls with further ones, each under its identifier.
pub open spec fn with_calls(
    known: Seq<(Seq<char>, ToolCallView)>,
    calls: Seq<ToolCallView>,
) -> Seq<(Seq<char>, ToolCallView)>
    decreases calls.len(),
{
    if calls.len() == 0 {
        known
    } else {
        put(with_calls(known, calls.drop_last()), calls.last().id, calls.last())
    }
}

/// The entry of a tool message whose call is known or not.
pub open spec fn tool_entry(
    message: ChatMessageView,
    call: Option<ToolCallView>,
) -> TimelineEntryView {
    TimelineEntryView::Tool {
        id: match message.tool_call_id {
            Some(id) => id,
            None => Seq::empty(),
        },
        name: match call {
            Some(call) => call.name,
            None => "tool"@,
        },
        arguments: match call {
            Some(call) => call.arguments,
            None => JsonView::Object(Seq::empty()),
        },
        state: ToolStateView::Complete {
            success: starts_with(message.content, "success:"@),
            output: message.content,
        },
    }
}

/// The entries for messages, and the calls that no message has answered yet.
pub open spec fn replayed(messages: Seq<ChatMessageView>) -> (
    Seq<TimelineEntryView>,
    Seq<(Seq<char>, ToolCallView)>,
)
    decreases messages.len(),
{
    if messages.len() == 0 {
        (Seq::empty(), Seq::empty())
    } else {
        let (entries, calls) = replayed(messages.drop_last());
        let message = messages.last();
        match message.role {
            Role::User => if message.internal {
                (entries, calls)
            } else {
                (entries.push(TimelineEntryView::User(message.content)), calls)
            },
            Role::Assistant => (
                if message.content.len() == 0 {
                    entries
                } else {
                    entries.push(TimelineEntryView::Assistant(message.content))
                },
                with_calls(calls, message.tool_calls),
            ),
            Role::Tool => {
                let id = match message.tool_call_id {
                    Some(id) => id,
                    None => Seq::empty(),
                };
                (entries.push(tool_entry(message, lookup(calls, id))), without(calls, id))
            },
            Role::System => (entries, calls),
        }
    }
}

fn learn_calls(known: &mut Vec<(String, ToolCall)>, calls: &Vec<ToolCall>)
    ensures
        pairs_of(final(known)@) == with_calls(pairs_of(old(known)@), views(calls@)),
{
    let ghost all = views(calls@);
    let ghost before = pairs_of(known@);
    let mut i: usize = 0;
    assert(all.take(0) =~= Seq::<ToolCallView>::empty());
    while i < calls.len()
        invariant
            i <= calls@.len(),
            all == views(calls@),
            pairs_of(known@) == with_calls(before, all.take(i as int)),
        decreases calls@.len() - i,
    {
        assert(all.take(i + 1).drop_last() =~= all.take(i as int));
        assert(all.take(i + 1).last() == calls@[i as int]@);
        table_put(known, calls[i].id.clone(), calls[i].duplicate());
        i = i + 1;
    }
    assert(all.take(i as int) =~= all);
}

/// Returns the timeline of a stored session.
pub fn rebuild_timeline(messages: &Vec<ChatMessage>) -> (result: Vec<TimelineEntry>)
    ensures
        views(result@) == replayed(views(messages@)).0,
{
    let ghost all = views(messages@);
    let mut entries: Vec<TimelineEntry> = Vec::new();
    let mut calls: Vec<(String, ToolCall)> = Vec::new();
    let mut i: usize = 0;
    assert(all.take(0) =~= Seq::<ChatMessageView>::empty());
    assert(pairs_of(calls@) =~= Seq::<(Seq<char>, ToolCallView)>::empty());
    while i < messages.len()
        invariant
            i <= messages@.len(),
            all == views(messages@),
            (views(entries@), pairs_of(calls@)) == replayed(all.take(i as int)),
        decreases messages@.len() - i,
    {
        let message = &messages[i];
        assert(all.take(i + 1).drop_last() =~= all.take(i as int));
        assert(all.take(i + 1).last() == message@);
        match message.role {
            Role::User => {
                if !message.internal {
                    entries.push(TimelineEntry::User(message.content.clone()));
                }
            },
            Role::Assistant => {
                if !message.content.as_str().is_empty() {
                    entries.push(TimelineEntry::Assistant(message.content.clone()));
                }
                learn_calls(&mut calls, &message.tool_calls);
            },
            Role::Tool => {
                let id = match &message.tool_call_id {
                    Some(id) => id.clone(),
                    None => String::new(),
                };
                let mut name = "tool".to_owned();
                let mut arguments = Fields::new().done();
                if let Some(call) = table_get(&calls, &id) {
                    name = call.name.clone();
                    arguments = call.arguments.duplicate();
                }
                table_remove(&mut calls, &id);
                let entry = TimelineEntry::Tool {
                    id,
                    name,
                    arguments,
                    state: ToolState::Complete {
                        success: begins(&message.content, "success:"),
                        output: message.content.clone(),
                    },
                };
                entries.push(entry);
            },
            Role::System => {},
        }
        i = i + 1;
    }
    assert(all.take(i as int) =~= all);
    entries
}

/// What the timeline of a stored session shows as written by the user, the user wrote: messages
/// that are kept from the user do not appear.
pub proof fn hidden_messages_stay_hidden(messages: Seq<ChatMessageView>, text: Seq<char>)
    requires
        replayed(messages).0.contains(TimelineEntryView::User(text)),
    ensures
        exists|i: int|
            0 <= i < messages.len() && (#[trigger] messages[i]).role == Role::User
                && !messages[i].internal && messages[i].content == text,
    decreases messages.len(),
{
    let entries = replayed(messages).0;
    let k = choose|k: int| 0 <= k < entries.len() && entries[k] == TimelineEntryView::User(text);
    let earlier = replayed(messages.drop_last()).0;
    if k < earlier.len() && entries[k] == earlier[k] {
        assert(earlier.contains(TimelineEntryView::User(text)));
        hidden_messages_stay_hidden(messages.drop_last(), text);
        let i = choose|i: int|
            0 <= i < messages.drop_last().len() && (#[trigger] messages.drop_last()[i]).role
                == Role::User && !messages.drop_last()[i].internal
                && messages.drop_last()[i].content == text;
        assert(messages[i] == messages.drop_last()[i]);
    } else {
        assert(messages[messages.len() - 1] == messages.last());
    }
}

// ---------------------------------------------------------------------------
// Changes
// ---------------------------------------------------------------------------

/// Entries after a piece of text from the model: it goes on with the text before it.
pub open spec fn with_text(entries: Seq<TimelineEntryView>, text: Seq<char>) -> Seq<TimelineEntryView> {
    if entries.len() > 0 && entries.last() is Assistant {
        entries.drop_last().push(TimelineEntryView::Assistant(entries.last()->Assistant_0 + text))
    } else {
        entries.push(TimelineEntryView::Assistant(text))
    }
}

/// Entries after a piece of reasoning from the model: it goes on with the reasoning before it.
pub open spec fn with_reasoning(entries: Seq<TimelineEntryView>, text: Seq<char>) -> Seq<TimelineEntryView> {
    if entries.len() > 0 && entries.last() is Reasoning {
        entries.drop_last().push(TimelineEntryView::Reasoning(entries.last()->Reasoning_0 + text))
    } else {
        entries.push(TimelineEntryView::Reasoning(text))
    }
}

/// Entries after a piece of text from the model of a side session.
pub open spec fn with_side_text(entries: Seq<TimelineEntryView>, text: Seq<char>) -> Seq<TimelineEntryView> {
    if entries.len() > 0 && entries.last() is SideAssistant {
        entries.drop_last().push(
            TimelineEntryView::SideAssistant(entries.last()->SideAssistant_0 + text),
        )
    } else {
        entries.push(TimelineEntryView::SideAssistant(text))
    }
}

/// Entries after a tool call ended: the last entry of that call is complete.
pub open spec fn with_result(
    entries: Seq<TimelineEntryView>,
    id: Seq<char>,
    success: bool,
    output: Seq<char>,
) -> Seq<TimelineEntryView>
    decreases entries.len(),
{
    if entries.len() == 0 {
        entries
    } else {
        match entries.last() {
            TimelineEntryView::Tool { id: own, name, arguments, .. } if own == id => {
                entries.drop_last().push(
                    TimelineEntryView::Tool {
                        id: own,
                        name,
                        arguments,
                        state: ToolStateView::Complete { success, output },
                    },
                )
            },
            _ => with_result(entries.drop_last(), id, success, output).push(entries.last()),
        }
    }
}

/// Adds a piece of text from the model.
pub fn add_text(entries: &mut Vec<TimelineEntry>, text: &str)
    ensures
        views(final(entries)@) == with_text(views(old(entries)@), text@),
{
    let ghost before = views(entries@);
    match entries.pop() {
        Some(TimelineEntry::Assistant(current)) => {
            assert(views(entries@) =~= before.drop_last());
            let mut current = current;
            current.push_str(text);
            entries.push(TimelineEntry::Assistant(current));
        },
        Some(other) => {
            assert(views(entries@) =~= before.drop_last());
            entries.push(other);
            assert(views(entries@) =~= before);
            entries.push(TimelineEntry::Assistant(text.to_owned()));
        },
        None => {
            entries.push(TimelineEntry::Assistant(text.to_owned()));
        },
    }
}

/// Adds a piece of reasoning from the model.
pub fn add_reasoning(entries: &mut Vec<TimelineEntry>, text: &str)
    ensures
        views(final(entries)@) == with_reasoning(views(old(entries)@), text@),
{
    let ghost before = views(entries@);
    match entries.pop() {
        Some(TimelineEntry::Reasoning(current)) => {
            assert(views(entries@) =~= before.drop_last());
            let mut current = current;
            current.push_str(text);
            entries.push(TimelineEntry::Reasoning(current));
        },
        Some(other) => {
            assert(views(entries@) =~= before.drop_last());
            entries.push(other);
            assert(views(entries@) =~= before);
            entries.push(TimelineEntry::Reasoning(text.to_owned()));
        },
        None => {
            entries.push(TimelineEntry::Reasoning(text.to_owned()));
        },
    }
}

/// Adds a piece of text from the model of a side session.
pub fn add_side_text(entries: &mut Vec<TimelineEntry>, text: &str)
    ensures
        views(final(entries)@) == with_side_text(views(old(entries)@), text@),
{
    let ghost before = views(entries@);
    match entries.pop() {
        Some(TimelineEntry::SideAssistant(current)) => {
            assert(views(entries@) =~= before.drop_last());
            let mut current = current;
            current.push_str(text);
            entries.push(TimelineEntry::SideAssistant(current));
        },
        Some(other) => {
            assert(views(entries@) =~= before.drop_last());
            entries.push(other);
            assert(views(entries@) =~= before);
            entries.push(TimelineEntry::SideAssistant(text.to_owned()));
        },
        None => {
            entries.push(TimelineEntry::SideAssistant(text.to_owned()));
        },
    }
}

fn is_call(entry: &TimelineEntry, id: &str) -> (result: bool)
    ensures
        result == (entry@ is Tool && entry@->Tool_id == id@),
{
    match entry {
        TimelineEntry::Tool { id: own, .. } => same(own, id),
        _ => false,
    }
}

/// The entry of a call is changed where it stands last.
proof fn result_at(entries: Seq<TimelineEntryView>, id: Seq<char>, success: bool, output: Seq<char>, at: int)
    requires
        0 <= at < entries.len(),
        entries[at] is Tool && entries[at]->Tool_id == id,
        forall|k: int| at < k < entries.len() ==> !((#[trigger] entries[k]) is Tool && entries[k]->Tool_id == id),
    ensures
        with_result(entries, id, success, output) == entries.update(
            at,
            TimelineEntryView::Tool {
                id,
                name: entries[at]->Tool_name,
                arguments: entries[at]->Tool_arguments,
                state: ToolStateView::Complete { success, output },
            },
        ),
    decreases entries.len(),
{
    let wanted = TimelineEntryView::Tool {
        id,
        name: entries[at]->Tool_name,
        arguments: entries[at]->Tool_arguments,
        state: ToolStateView::Complete { success, output },
    };
    if at == entries.len() - 1 {
        assert(entries.update(at, wanted) =~= entries.drop_last().push(wanted));
    } else {
        assert(!(entries[entries.len() - 1] is Tool && entries[entries.len() - 1]->Tool_id == id));
        result_at(entries.drop_last(), id, success, output, at);
        assert(entries.update(at, wanted) =~= entries.drop_last().update(at, wanted).push(entries.last()));
    }
}

/// Nothing changes where the call has no entry.
proof fn result_nowhere(entries: Seq<TimelineEntryView>, id: Seq<char>, success: bool, output: Seq<char>)
    requires
        forall|k: int| 0 <= k < entries.len() ==> !((#[trigger] entries[k]) is Tool && entries[k]->Tool_id == id),
    ensures
        with_result(entries, id, success, output) == entries,
    decreases entries.len(),
{
    if entries.len() > 0 {
        assert(!(entries[entries.len() - 1] is Tool && entries[entries.len() - 1]->Tool_id == id));
        result_nowhere(entries.drop_last(), id, success, output);
        assert(entries.drop_last().push(entries.last()) =~= entries);
    }
}

/// Completes the last entry of a tool call, if it has one.
pub fn finish_call(entries: &mut Vec<TimelineEntry>, id: &str, success: bool, output: String)
    ensures
        views(final(entries)@) == with_result(views(old(entries)@), id@, success, output@),
{
    let ghost before = views(entries@);
    let mut i: usize = entries.len();
    while i > 0
        invariant
            i <= entries@.len(),
            views(entries@) == before,
            before == views(old(entries)@),
            forall|k: int| i <= k < before.len() ==> !((#[trigger] before[k]) is Tool && before[k]->Tool_id == id@),
        decreases i,
    {
        i = i - 1;
        assert(before[i as int] == entries@[i as int]@);
        if is_call(&entries[i], id) {
            proof {
                result_at(before, id@, success, output@, i as int);
            }
            let old_entry = entries.remove(i);
            if let TimelineEntry::Tool { id: own, name, arguments, .. } = old_entry {
                entries.insert(
                    i,
                    TimelineEntry::Tool {
                        id: own,
                        name,
                        arguments,
                        state: ToolState::Complete { success, output },
                    },
                );
            }
            assert(views(entries@) =~= with_result(before, id@, success, output@));
            return;
        }
    }
    proof {
        result_nowhere(before, id@, success, output@);
    }
}

/// The end of a call changes no other entry.
pub proof fn results_change_one_entry(
    entries: Seq<TimelineEntryView>,
    id: Seq<char>,
    success: bool,
    output: Seq<char>,
    at: int,
)
    requires
        0 <= at < entries.len(),
        !(entries[at] is Tool && entries[at]->Tool_id == id),
    ensures
        with_result(entries, id, success, output).len() == entries.len(),
        with_result(entries, id, success, output)[at] == entries[at],
    decreases entries.len(),
{
    result_keeps_length(entries, id, success, output);
    if at < entries.len() - 1 {
        result_keeps_length(entries.drop_last(), id, success, output);
        if !(entries.last() is Tool && entries.last()->Tool_id == id) {
            results_change_one_entry(entries.drop_last(), id, success, output, at);
        }
    } else {
        result_keeps_length(entries.drop_last(), id, success, output);
    }
}

proof fn result_keeps_length(entries: Seq<TimelineEntryView>, id: Seq<char>, success: bool, output: Seq<char>)
    ensures
        with_result(entries, id, success, output).len() == entries.len(),
    decreases entries.len(),
{
    if entries.len() > 0 {
        result_keeps_length(entries.drop_last(), id, success, output);
    }
}

} // verus!
