//! The command line: what it prints and what it accepts.

use vstd::prelude::*;
use crate::codec::compact_text;
use crate::codec::date_text;
use crate::codec::write_date;
use crate::events::AgentEvent;
use crate::events::AgentEventView;
use crate::json::Json;
use crate::numbers::decimal;
use crate::numbers::print_u64;
use crate::numbers::print_usize;
use crate::pieces::single_spaced;
use crate::pieces::words;
use crate::session::LoopStatus;
use crate::session::Session;
use crate::session::TokenUsage;
use crate::text::blank;
use crate::text::first_chars;
use crate::text::is_blank;
use crate::text::join;
use crate::text::joined;
use crate::text::lower;
use crate::text::same;
use crate::text::take_chars;
use crate::text::texts;
use crate::text::texts_empty;
use crate::text::texts_push;
use crate::text::to_lower;
use crate::text::trim;
use crate::text::trimmed;
use crate::views::Duplicate;
use crate::views::opt;
use crate::views::views;

verus! {

broadcast use {texts_push, texts_empty};

/// Where a text is printed.
#[derive(Clone, Copy, Debug, PartialEq, Eq, Structural)]
pub enum Stream {
    Output,
    Errors,
}

/// What is done about a call that needs approval.
#[derive(Clone, Copy, Debug, PartialEq, Eq, Structural)]
pub enum ApprovalStep {
    Approve,
    Refuse,
    /// The user is asked.
    Ask,
}

/// A text that is printed.
#[derive(Debug)]
pub struct Printed {
    pub stream: Stream,
    pub text: String,
}

/// What a `Printed` holds.
#[verifier::ext_equal]
pub struct PrintedView {
    pub stream: Stream,
    pub text: Seq<char>,
}

impl View for Printed {
    type V = PrintedView;

    open spec fn view(&self) -> PrintedView {
        PrintedView {
            stream: self.stream,
            text: self.text@,
        }
    }
}

impl Duplicate for Printed {
    fn duplicate(&self) -> (result: Self) {
        Printed {
            stream: self.stream,
            text: self.text.clone(),
        }
    }
}

/// A model that can be chosen.
#[derive(Debug)]
pub struct ModelChoice {
    pub provider_id: String,
    pub provider_display: String,
    pub selector: String,
    pub model: String,
    pub is_fast: bool,
}

/// What a `ModelChoice` holds.
#[verifier::ext_equal]
pub struct ModelChoiceView {
    pub provider_id: Seq<char>,
    pub provider_display: Seq<char>,
    pub selector: Seq<char>,
    pub model: Seq<char>,
    pub is_fast: bool,
}

impl View for ModelChoice {
    type V = ModelChoiceView;

    open spec fn view(&self) -> ModelChoiceView {
        ModelChoiceView {
            provider_id: self.provider_id@,
            provider_display: self.provider_display@,
            selector: self.selector@,
            model: self.model@,
            is_fast: self.is_fast,
        }
    }
}

impl Duplicate for ModelChoice {
    fn duplicate(&self) -> (result: Self) {
        ModelChoice {
            provider_id: self.provider_id.clone(),
            provider_display: self.provider_display.clone(),
            selector: self.selector.clone(),
            model: self.model.clone(),
            is_fast: self.is_fast,
        }
    }
}

// ---------------------------------------------------------------------------
// Short texts
// ---------------------------------------------------------------------------

/// A text on one line, at most 180 characters.
pub open spec fn one_line(s: Seq<char>) -> Seq<char> {
    let line = joined(words(s), " "@);
    if line.len() > 180 {
        first_chars(line, 180) + "..."@
    } else {
        line
    }
}

/// Returns a text on one line, at most 180 characters.
pub fn preview(value: &str) -> (result: String)
    ensures
        result@ == one_line(value@),
{
    let line = single_spaced(value);
    if line.as_str().unicode_len() > 180 {
        take_chars(&line, 180).concat("...")
    } else {
        line
    }
}

/// Returns a tree on one line, at most 180 characters.
pub fn compact_json(value: &Json) -> (result: String)
    ensures
        result@ == one_line(compact_text(value@)),
{
    preview(&value.to_text())
}

/// Blanks.
pub open spec fn blanks(n: nat) -> Seq<char> {
    Seq::new(n, |i: int| ' ')
}

/// A text with blanks behind it up to a width.
pub open spec fn padded(s: Seq<char>, width: nat) -> Seq<char> {
    if s.len() >= width {
        s
    } else {
        s + blanks((width - s.len()) as nat)
    }
}

/// A text with blanks before it up to a width.
pub open spec fn aligned(s: Seq<char>, width: nat) -> Seq<char> {
    if s.len() >= width {
        s
    } else {
        blanks((width - s.len()) as nat) + s
    }
}

fn spaces(n: usize) -> (result: String)
    ensures
        result@ == blanks(n as nat),
{
    let mut text = String::new();
    let mut i: usize = 0;
    assert(text@ =~= blanks(0));
    while i < n
        invariant
            i <= n,
            text@ == blanks(i as nat),
        decreases n - i,
    {
        text.push(' ');
        assert(blanks((i + 1) as nat) =~= blanks(i as nat).push(' '));
        i = i + 1;
    }
    text
}

fn pad(text: &str, width: usize) -> (result: String)
    ensures
        result@ == padded(text@, width as nat),
{
    let count: usize = text.unicode_len();
    if count >= width {
        text.to_owned()
    } else {
        text.to_owned().concat(&spaces(width - count))
    }
}

fn align(text: &str, width: usize) -> (result: String)
    ensures
        result@ == aligned(text@, width as nat),
{
    let count: usize = text.unicode_len();
    if count >= width {
        text.to_owned()
    } else {
        spaces(width - count).concat(text)
    }
}

// ---------------------------------------------------------------------------
// Events
// ---------------------------------------------------------------------------

/// The name of the state of a loop.
pub open spec fn status_label(status: LoopStatus) -> Seq<char> {
    match status {
        LoopStatus::Active => "Active"@,
        LoopStatus::Paused => "Paused"@,
        LoopStatus::BudgetLimited => "BudgetLimited"@,
        LoopStatus::UsageLimited => "UsageLimited"@,
        LoopStatus::Complete => "Complete"@,
        LoopStatus::Blocked => "Blocked"@,
    }
}

/// Returns the name of the state of a loop.
pub fn loop_label(status: LoopStatus) -> (result: String)
    ensures
        result@ == status_label(status),
{
    match status {
        LoopStatus::Active => "Active".to_owned(),
        LoopStatus::Paused => "Paused".to_owned(),
        LoopStatus::BudgetLimited => "BudgetLimited".to_owned(),
        LoopStatus::UsageLimited => "UsageLimited".to_owned(),
        LoopStatus::Complete => "Complete".to_owned(),
        LoopStatus::Blocked => "Blocked".to_owned(),
    }
}

/// The line of tokens.
pub open spec fn usage_line(usage: TokenUsage) -> Seq<char> {
    "[usage input="@ + decimal(usage.input_tokens as nat) + " cached="@ + decimal(
        usage.cached_input_tokens as nat,
    ) + " output="@ + decimal(usage.output_tokens as nat) + " total="@ + decimal(usage.total())
        + "]\n"@
}

/// Returns the line of tokens.
pub fn print_usage(usage: &TokenUsage) -> (result: String)
    ensures
        result@ == usage_line(*usage),
{
    let mut text = "[usage input=".to_owned();
    text.push_str(&print_u64(usage.input_tokens));
    text.push_str(" cached=");
    text.push_str(&print_u64(usage.cached_input_tokens));
    text.push_str(" output=");
    text.push_str(&print_u64(usage.output_tokens));
    text.push_str(" total=");
    text.push_str(&print_u64(usage.total_tokens()));
    text.push_str("]\n");
    text
}

/// A text for the output.
pub open spec fn to_output(text: Seq<char>) -> Option<PrintedView> {
    Some(PrintedView { stream: Stream::Output, text })
}

/// A text for the errors.
pub open spec fn to_errors(text: Seq<char>) -> Option<PrintedView> {
    Some(PrintedView { stream: Stream::Errors, text })
}

/// What is printed for an event.
#[verifier::opaque]
pub open spec fn printed_event(event: AgentEventView) -> Option<PrintedView> {
    match event {
        AgentEventView::ModelStarted { round, .. } => if round > 1 {
            to_errors("[model round "@ + decimal(round as nat) + "]\n"@)
        } else {
            None
        },
        AgentEventView::Text(text) => to_output("\n"@ + text + "\n"@),
        AgentEventView::TextDelta(text) => to_output(text),
        AgentEventView::ReasoningDelta(text) => to_errors(text),
        AgentEventView::ConnectionRetry { message, .. } => to_errors("\n"@ + message + "\n"@),
        AgentEventView::StreamReset => to_errors(
            "\n[discarding interrupted partial response]\n"@,
        ),
        AgentEventView::ContextUpdated(status) => to_errors(
            "[context "@ + decimal(status.used_percent as nat) + "% "@ + decimal(
                status.used_tokens as nat,
            ) + "/"@ + decimal(status.effective_context_window as nat) + "]\n"@,
        ),
        AgentEventView::CompactionStarted { automatic } => to_errors(
            "[context compaction "@ + (if automatic {
                "automatic"@
            } else {
                "manual"@
            }) + "]\n"@,
        ),
        AgentEventView::CompactionCompleted { before_tokens, after_tokens, .. } => to_errors(
            "[context compacted "@ + decimal(before_tokens as nat) + " -> "@ + decimal(
                after_tokens as nat,
            ) + "]\n"@,
        ),
        AgentEventView::PlanUpdated(plan) => to_errors(
            "[plan updated "@ + decimal(plan.steps.len()) + " step(s)]\n"@,
        ),
        AgentEventView::LoopUpdated(state) => to_errors(
            "[loop "@ + status_label(state.status) + "] "@ + state.objective + "\n"@,
        ),
        AgentEventView::QueuedInputAccepted(messages) => to_errors(
            "[queued input accepted: "@ + decimal(messages.len()) + "]\n"@,
        ),
        AgentEventView::ToolStarted(call) => to_errors(
            "[tool "@ + call.name + "] "@ + one_line(compact_text(call.arguments)) + "\n"@,
        ),
        AgentEventView::ToolFinished { call, result } => to_errors(
            "[tool "@ + call.name + " "@ + (if result.success {
                "ok"@
            } else {
                "error"@
            }) + "] "@ + one_line(result.output) + "\n"@,
        ),
        AgentEventView::TurnCompleted { total, .. } => to_errors(usage_line(total)),
        _ => None,
    }
}

fn errors(text: String) -> (result: Option<Printed>)
    ensures
        opt(result) == to_errors(text@),
{
    Some(Printed { stream: Stream::Errors, text })
}

/// Returns what is printed for an event, where anything is.
pub fn terminal_event(event: &AgentEvent) -> (result: Option<Printed>)
    ensures
        opt(result) == printed_event(event@),
{
    proof {
        reveal(printed_event);
    }
    match event {
        AgentEvent::ModelStarted { round, .. } => {
            if *round > 1 {
                let mut text = "[model round ".to_owned();
                text.push_str(&print_usize(*round));
                text.push_str("]\n");
                errors(text)
            } else {
                None
            }
        },
        AgentEvent::Text(text) => {
            let mut line = "\n".to_owned();
            line.push_str(text);
            line.push_str("\n");
            Some(Printed { stream: Stream::Output, text: line })
        },
        AgentEvent::TextDelta(text) => Some(
            Printed { stream: Stream::Output, text: text.clone() },
        ),
        AgentEvent::ReasoningDelta(text) => errors(text.clone()),
        AgentEvent::ConnectionRetry { message, .. } => {
            let mut line = "\n".to_owned();
            line.push_str(message);
            line.push_str("\n");
            errors(line)
        },
        AgentEvent::StreamReset => errors(
            "\n[discarding interrupted partial response]\n".to_owned(),
        ),
        AgentEvent::ContextUpdated(status) => {
            let mut text = "[context ".to_owned();
            text.push_str(&print_u64(status.used_percent));
            text.push_str("% ");
            text.push_str(&print_u64(status.used_tokens));
            text.push_str("/");
            text.push_str(&print_u64(status.effective_context_window));
            text.push_str("]\n");
            errors(text)
        },
        AgentEvent::CompactionStarted { automatic } => {
            let mut text = "[context compaction ".to_owned();
            text.push_str(
                if *automatic {
                    "automatic"
                } else {
                    "manual"
                },
            );
            text.push_str("]\n");
            errors(text)
        },
        AgentEvent::CompactionCompleted { before_tokens, after_tokens, .. } => {
            let mut text = "[context compacted ".to_owned();
            text.push_str(&print_u64(*before_tokens));
            text.push_str(" -> ");
            text.push_str(&print_u64(*after_tokens));
            text.push_str("]\n");
            errors(text)
        },
        AgentEvent::PlanUpdated(plan) => {
            let mut text = "[plan updated ".to_owned();
            text.push_str(&print_usize(plan.steps.len()));
            text.push_str(" step(s)]\n");
            errors(text)
        },
        AgentEvent::LoopUpdated(state) => {
            let mut text = "[loop ".to_owned();
            text.push_str(&loop_label(state.status));
            text.push_str("] ");
            text.push_str(&state.objective);
            text.push_str("\n");
            errors(text)
        },
        AgentEvent::QueuedInputAccepted(messages) => {
            let mut text = "[queued input accepted: ".to_owned();
            text.push_str(&print_usize(messages.len()));
            text.push_str("]\n");
            errors(text)
        },
        AgentEvent::ToolStarted(call) => {
            let mut text = "[tool ".to_owned();
            text.push_str(&call.name);
            text.push_str("] ");
            text.push_str(&compact_json(&call.arguments));
            text.push_str("\n");
            errors(text)
        },
        AgentEvent::ToolFinished { call, result } => {
            let mut text = "[tool ".to_owned();
            text.push_str(&call.name);
            text.push_str(" ");
            text.push_str(
                if result.success {
                    "ok"
                } else {
                    "error"
                },
            );
            text.push_str("] ");
            text.push_str(&preview(&result.output));
            text.push_str("\n");
            errors(text)
        },
        AgentEvent::TurnCompleted { total, .. } => errors(print_usage(total)),
        _ => None,
    }
}

// ---------------------------------------------------------------------------
// Approval
// ---------------------------------------------------------------------------

/// Decides what is done about a call that needs approval: everything or nothing without the
/// user, else the user is asked.
pub fn approval_step(approve_all: bool, interactive: bool) -> (result: ApprovalStep)
    ensures
        result == if approve_all {
            ApprovalStep::Approve
        } else if !interactive {
            ApprovalStep::Refuse
        } else {
            ApprovalStep::Ask
        },
{
    if approve_all {
        ApprovalStep::Approve
    } else if !interactive {
        ApprovalStep::Refuse
    } else {
        ApprovalStep::Ask
    }
}

/// Tells whether an answer approves a call.
pub fn approves(answer: &str) -> (result: bool)
    ensures
        result == (lower(trimmed(answer@)) == "y"@ || lower(trimmed(answer@)) == "yes"@),
{
    let text = to_lower(&trim(answer));
    same(&text, "y") || same(&text, "yes")
}

// ---------------------------------------------------------------------------
// Arguments
// ---------------------------------------------------------------------------

/// Checks the session that a command names: by its id or as the last one, not both.
pub fn check_session_choice(last: bool, id: bool) -> (result: Result<(), String>)
    ensures
        match result {
            Ok(_) => !(last && id),
            Err(message) => last && id && message@ == "--last cannot be combined with ID"@,
        },
{
    if last && id {
        return Err("--last cannot be combined with ID".to_owned());
    }
    Ok(())
}

/// Checks the prompt of a command: its words, or what was read where it has none.
pub fn command_prompt(words: &Vec<String>, read: &str) -> (result: Result<String, String>)
    ensures
        ({
            let prompt = if words@.len() == 0 {
                read@
            } else {
                joined(texts(words@), " "@)
            };
            match result {
                Ok(text) => text@ == prompt && !is_blank(prompt),
                Err(message) => is_blank(prompt) && message@ == "prompt must not be empty"@,
            }
        }),
{
    let prompt = if words.len() == 0 {
        read.to_owned()
    } else {
        join(words, " ")
    };
    if blank(&prompt) {
        return Err("prompt must not be empty".to_owned());
    }
    Ok(prompt)
}

/// Returns the text that the provider of a session is looked up by: what the command line
/// says, else the provider and the model of the session.
pub fn provider_for_session(session: &Session, selector: Option<&String>) -> (result: String)
    ensures
        result@ == match selector {
            Some(text) => text@,
            None => session@.provider_id + ":"@ + session@.model,
        },
{
    match selector {
        Some(text) => text.clone(),
        None => {
            let mut text = session.provider_id.clone();
            text.push_str(":");
            text.push_str(&session.model);
            text
        },
    }
}

// ---------------------------------------------------------------------------
// Lists
// ---------------------------------------------------------------------------

/// The line of a model. The model in use is marked.
pub open spec fn model_line(index: nat, choice: ModelChoiceView, active: Seq<char>) -> Seq<char> {
    aligned(decimal(index + 1), 2) + ". "@ + padded(choice.selector, 24) + " "@
        + choice.provider_display + " / "@ + choice.model + (if choice.is_fast {
        " [fast]"@
    } else {
        ""@
    }) + (if choice.provider_id == active && !choice.is_fast {
        " *"@
    } else {
        ""@
    })
}

/// Returns the line of a model.
pub fn show_model(index: usize, choice: &ModelChoice, active: &str) -> (result: String)
    requires
        index < usize::MAX,
    ensures
        result@ == model_line(index as nat, choice@, active@),
{
    let mut line = align(&print_usize(index + 1), 2);
    line.push_str(". ");
    line.push_str(&pad(&choice.selector, 24));
    line.push_str(" ");
    line.push_str(&choice.provider_display);
    line.push_str(" / ");
    line.push_str(&choice.model);
    line.push_str(
        if choice.is_fast {
            " [fast]"
        } else {
            ""
        },
    );
    line.push_str(
        if same(&choice.provider_id, active) && !choice.is_fast {
            " *"
        } else {
            ""
        },
    );
    line
}

/// The lines of the models.
pub open spec fn model_lines(choices: Seq<ModelChoiceView>, active: Seq<char>) -> Seq<Seq<char>> {
    Seq::new(choices.len(), |i: int| model_line(i as nat, choices[i], active))
}

/// Returns the lines of the models.
pub fn print_models(choices: &Vec<ModelChoice>, active: &str) -> (result: Vec<String>)
    ensures
        texts(result@) == model_lines(views(choices@), active@),
{
    let ghost wanted = model_lines(views(choices@), active@);
    let mut lines: Vec<String> = Vec::new();
    let mut i: usize = 0;
    assert(wanted.take(0) =~= Seq::empty());
    while i < choices.len()
        invariant
            i <= choices.len(),
            wanted == model_lines(views(choices@), active@),
            texts(lines@) == wanted.take(i as int),
        decreases choices.len() - i,
    {
        lines.push(show_model(i, &choices[i], active));
        assert(wanted.take(i + 1) =~= wanted.take(i as int).push(wanted[i as int]));
        i = i + 1;
    }
    assert(wanted.take(i as int) =~= wanted);
    lines
}

/// The line of a stored session: what it is about stands for a title that it does not have.
pub open spec fn session_line(
    id: Seq<char>,
    updated: Seq<char>,
    provider_id: Seq<char>,
    model: Seq<char>,
    title: Seq<char>,
    about: Seq<char>,
) -> Seq<char> {
    id + "  "@ + updated + "  "@ + provider_id + "/"@ + model + "  "@ + (if title.len() == 0 {
        about
    } else {
        title
    })
}

/// Returns the line of a stored session. `updated` is the written time of its last change.
pub fn show_session_line(
    id: &str,
    updated: &str,
    provider_id: &str,
    model: &str,
    title: &str,
    about: &str,
) -> (result: String)
    ensures
        result@ == session_line(id@, updated@, provider_id@, model@, title@, about@),
{
    let mut line = id.to_owned();
    line.push_str("  ");
    line.push_str(updated);
    line.push_str("  ");
    line.push_str(provider_id);
    line.push_str("/");
    line.push_str(model);
    line.push_str("  ");
    line.push_str(
        if title.is_empty() {
            about
        } else {
            title
        },
    );
    line
}

/// Returns the line of a stored session that was last changed so many seconds after the start
/// of 1970, or nothing where the calendar has no such time.
pub fn print_session(
    id: &str,
    updated_seconds: i64,
    provider_id: &str,
    model: &str,
    title: &str,
    about: &str,
) -> (result: Option<String>)
    ensures
        opt(result) == match date_text(updated_seconds, "%Y-%m-%d %H:%M"@) {
            Some(updated) => Some(
                session_line(id@, updated, provider_id@, model@, title@, about@),
            ),
            None => None,
        },
{
    match write_date(updated_seconds, "%Y-%m-%d %H:%M") {
        Some(updated) => Some(show_session_line(id, &updated, provider_id, model, title, about)),
        None => None,
    }
}

/// Returns the line of an entry of the catalog.
pub fn catalog_line(id: &str, name: &str, description: &str, width: usize) -> (result: String)
    ensures
        result@ == padded(id@, 20) + " "@ + padded(name@, width as nat) + " "@ + description@,
{
    let mut line = pad(id, 20);
    line.push_str(" ");
    line.push_str(&pad(name, width));
    line.push_str(" ");
    line.push_str(description);
    line
}

// ---------------------------------------------------------------------------
// Laws
// ---------------------------------------------------------------------------

/// A text on one line has at most 183 characters.
pub proof fn lines_are_short(s: Seq<char>)
    ensures
        one_line(s).len() <= 183,
{
    reveal_strlit("...");
}

} // verus!
