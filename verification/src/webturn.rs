//! What surrounds a turn that a browser asked for: how it is set up and what is kept of it.

use vstd::prelude::*;
use crate::agent::Agent;
use crate::agent::AgentView;
use crate::agents::AccessMode;
use crate::commands::SessionMode;
use crate::commands::holds_any;
use crate::failure::clamped;
use crate::failure::smaller;
use crate::json::Json;
use crate::json::JsonView;
use crate::json_ops::Fields;
use crate::session::ChatMessageView;
use crate::session::LoopStatus;
use crate::session::Role;
use crate::session::Session;
use crate::session::SessionView;
use crate::session::new_session;
use crate::settings::ConnectionSettings;
use crate::settings::PermissionMode;
use crate::settings::number_data;
use crate::task::SessionTask;
use crate::task::SessionTaskView;
use crate::text::blank;
use crate::text::has;
use crate::text::is_blank;
use crate::text::join;
use crate::text::joined;
use crate::text::lower;
use crate::text::texts;
use crate::text::texts_empty;
use crate::text::texts_push;
use crate::text::to_lower;
use crate::views::Duplicate;
use crate::views::duplicate_opt;
use crate::views::opt;

verus! {

broadcast use {texts_push, texts_empty};

/// What joins the prompt of a turn beside the system prompt.
#[derive(Debug)]
pub struct PromptParts {
    /// What the life of the session adds.
    pub life: Option<String>,
    /// The instructions of the skills that the request called for.
    pub skills: String,
    /// The MCP servers.
    pub servers: String,
    /// What is remembered, where past sessions may be read.
    pub memory: Option<String>,
}

/// What a `PromptParts` holds.
#[verifier::ext_equal]
pub struct PromptPartsView {
    pub life: Option<Seq<char>>,
    pub skills: Seq<char>,
    pub servers: Seq<char>,
    pub memory: Option<Seq<char>>,
}

impl View for PromptParts {
    type V = PromptPartsView;

    open spec fn view(&self) -> PromptPartsView {
        PromptPartsView {
            life: opt(self.life),
            skills: self.skills@,
            servers: self.servers@,
            memory: opt(self.memory),
        }
    }
}

impl Duplicate for PromptParts {
    fn duplicate(&self) -> (result: Self) {
        PromptParts {
            life: duplicate_opt(&self.life),
            skills: self.skills.clone(),
            servers: self.servers.clone(),
            memory: duplicate_opt(&self.memory),
        }
    }
}

// ---------------------------------------------------------------------------
// Before the turn
// ---------------------------------------------------------------------------

/// What stands against a turn that got its turn in the queue.
pub open spec fn start_fault(running: bool, task_id: Option<Seq<char>>) -> Option<Seq<char>> {
    if !running {
        Some("task was cancelled"@)
    } else if task_id is None {
        Some("managed task id is missing"@)
    } else {
        None
    }
}

/// Lets a task wait for what it needs. A task that was cancelled meanwhile, or that is not
/// recorded, does not start.
pub fn begin_waiting(task: &mut SessionTask) -> (result: Result<String, String>)
    ensures
        match result {
            Ok(id) => start_fault(old(task)@.running, old(task)@.task_id) is None
                && old(task)@.task_id == Some(id@) && final(task)@ == (SessionTaskView {
                phase: "waiting_lock"@,
                ..old(task)@
            }),
            Err(message) => start_fault(old(task)@.running, old(task)@.task_id) == Some(message@)
                && final(task)@ == old(task)@,
        },
{
    if !task.running {
        return Err("task was cancelled".to_owned());
    }
    let id = match &task.task_id {
        Some(id) => id.clone(),
        None => {
            return Err("managed task id is missing".to_owned());
        },
    };
    task.set_phase("waiting_lock");
    Ok(id)
}

/// What a task is stopped with where files changed since it was asked for.
pub open spec fn conflict_summary(conflicts: Seq<Seq<char>>) -> Seq<char> {
    "external state changed: "@ + joined(conflicts, ", "@)
}

/// Starts the work of a task, unless files changed since it was asked for.
pub fn begin_work(task: &mut SessionTask, conflicts: &Vec<String>) -> (result: Result<(), String>)
    ensures
        match result {
            Ok(_) => conflicts@.len() == 0 && final(task)@ == (SessionTaskView {
                phase: "running"@,
                ..old(task)@
            }),
            Err(summary) => conflicts@.len() > 0 && summary@ == conflict_summary(texts(conflicts@))
                && final(task)@ == (SessionTaskView { phase: "conflict"@, ..old(task)@ }),
        },
{
    if conflicts.len() > 0 {
        task.set_phase("conflict");
        return Err("external state changed: ".to_owned().concat(&join(conflicts, ", ")));
    }
    task.set_phase("running");
    Ok(())
}

/// The provider that a turn asks for: the one that the client chose, else the one that the
/// session used.
pub open spec fn turn_selector(selected: Option<Seq<char>>, existing: Option<SessionView>) -> Option<
    Seq<char>,
> {
    match selected {
        Some(text) => Some(text),
        None => match existing {
            Some(session) => if session.provider_id.len() > 0 {
                Some(session.provider_id)
            } else {
                None
            },
            None => None,
        },
    }
}

/// Returns the provider that a turn asks for.
pub fn select_provider(selected: &Option<String>, existing: &Option<Session>) -> (result: Option<
    String,
>)
    ensures
        opt(result) == turn_selector(opt(*selected), opt(*existing)),
{
    match selected {
        Some(text) => Some(text.clone()),
        None => match existing {
            Some(session) => if session.provider_id.as_str().is_empty() {
                None
            } else {
                Some(session.provider_id.clone())
            },
            None => None,
        },
    }
}

/// A session that has no working directory yet gets one; its model is the one of the turn.
pub open spec fn prepared(
    session: SessionView,
    provider_id: Seq<char>,
    model: Seq<char>,
    cwd: Seq<char>,
) -> SessionView {
    SessionView {
        provider_id,
        model,
        cwd: if session.cwd.len() == 0 {
            cwd
        } else {
            session.cwd
        },
        ..session
    }
}

/// Takes up a stored session, or makes a new one where none is stored. A stored session that
/// cannot be read is left alone.
pub fn load_or_create_web_session(
    loaded: Result<Session, String>,
    stored: bool,
    id: &str,
    provider_id: &str,
    model: &str,
    cwd: &str,
) -> (result: Result<Session, String>)
    ensures
        match loaded {
            Ok(session) => result is Ok && result->Ok_0@ == prepared(
                session@,
                provider_id@,
                model@,
                cwd@,
            ),
            Err(error) => if stored {
                result is Err && result->Err_0@ == "session "@ + id@
                    + " is unreadable/corrupt ("@ + error@ + "); its file is kept on disk"@
            } else {
                result is Ok && result->Ok_0@ == new_session(id@, provider_id@, model@, cwd@)
            },
        },
{
    let mut session = match loaded {
        Ok(session) => session,
        Err(error) => {
            if stored {
                let mut message = "session ".to_owned();
                message.push_str(id);
                message.push_str(" is unreadable/corrupt (");
                message.push_str(&error);
                message.push_str("); its file is kept on disk");
                return Err(message);
            }
            Session::new(id.to_owned(), provider_id.to_owned(), model.to_owned(), cwd.to_owned())
        },
    };
    if session.cwd.as_str().is_empty() {
        session.cwd = cwd.to_owned();
    }
    session.switch_model(provider_id, model);
    Ok(session)
}

/// Returns the directory that a turn works in: that of the session, while it is there.
pub fn turn_directory(session: &Session, present: bool, cwd: &str) -> (result: String)
    ensures
        result@ == if present {
            session@.cwd
        } else {
            cwd@
        },
{
    if present {
        session.cwd.clone()
    } else {
        cwd.to_owned()
    }
}

/// What tools may do under a permission mode.
pub open spec fn policy_of(mode: PermissionMode) -> AccessMode {
    match mode {
        PermissionMode::Ask => AccessMode::WorkspaceWrite,
        PermissionMode::Auto => AccessMode::FullAccess,
        PermissionMode::Full => AccessMode::FullAccess,
    }
}

/// Returns what tools may do under a permission mode.
pub fn access_policy(mode: PermissionMode) -> (result: AccessMode)
    ensures
        result == policy_of(mode),
{
    match mode {
        PermissionMode::Ask => AccessMode::WorkspaceWrite,
        PermissionMode::Auto => AccessMode::FullAccess,
        PermissionMode::Full => AccessMode::FullAccess,
    }
}

/// Tells whether a message counts for the memory: not while past sessions are kept from the
/// model, and not when a turn is taken up again.
pub fn counts_for_memory(memory: bool, recovery: bool, prompt: &str) -> (result: bool)
    ensures
        result == (memory && !recovery && !is_blank(prompt@)),
{
    memory && !recovery && !blank(prompt)
}

/// Tells whether skills are looked for: for requests of some length.
pub fn routes_skills(recovery: bool, prompt: &str) -> (result: bool)
    ensures
        result == (!recovery && prompt@.len() >= 24),
{
    !recovery && prompt.unicode_len() >= 24
}

/// Tells whether the life of a session takes part in a turn: in sessions for a life, and not
/// when a turn is taken up again.
pub fn should_run_cognitive_turn(mode: SessionMode, recovery: bool) -> (result: bool)
    ensures
        result == (mode == SessionMode::Life && !recovery),
{
    mode == SessionMode::Life && !recovery
}

/// The prompt of a turn.
pub open spec fn full_prompt(system: Seq<char>, parts: PromptPartsView) -> Seq<char> {
    system + (match parts.life {
        Some(text) => text,
        None => Seq::empty(),
    }) + (if parts.skills.len() == 0 {
        Seq::empty()
    } else {
        "\n\nProactively routed Skills (already read; user and project rules take precedence):"@
            + parts.skills
    }) + (if parts.servers.len() == 0 {
        Seq::empty()
    } else {
        "\n\n"@ + parts.servers
    }) + (match parts.memory {
        Some(text) => if text.len() == 0 {
            Seq::empty()
        } else {
            "\n\nPersistent memory (core and frequently hit memories first):\n"@ + text
        },
        None => Seq::empty(),
    })
}

fn push_behind(text: &mut String, heading: &str, part: &str)
    ensures
        final(text)@ == old(text)@ + (if part@.len() == 0 {
            Seq::empty()
        } else {
            heading@ + part@
        }),
{
    if !part.is_empty() {
        text.push_str(heading);
        text.push_str(part);
    }
    assert(text@ =~= old(text)@ + (if part@.len() == 0 {
        Seq::empty()
    } else {
        heading@ + part@
    }));
}

/// Writes the prompt of a turn.
pub fn build_prompt_context(system: String, parts: &PromptParts) -> (result: String)
    ensures
        result@ == full_prompt(system@, parts@),
{
    let mut prompt = system;
    let ghost before = prompt@;
    if let Some(text) = &parts.life {
        prompt.push_str(text);
    }
    assert(prompt@ =~= before + (match parts@.life {
        Some(text) => text,
        None => Seq::empty(),
    }));
    push_behind(
        &mut prompt,
        "\n\nProactively routed Skills (already read; user and project rules take precedence):",
        &parts.skills,
    );
    push_behind(&mut prompt, "\n\n", &parts.servers);
    let ghost last = prompt@;
    if let Some(text) = &parts.memory {
        push_behind(
            &mut prompt,
            "\n\nPersistent memory (core and frequently hit memories first):\n",
            text,
        );
    }
    assert(prompt@ =~= last + (match parts@.memory {
        Some(text) => if text.len() == 0 {
            Seq::empty()
        } else {
            "\n\nPersistent memory (core and frequently hit memories first):\n"@ + text
        },
        None => Seq::empty(),
    }));
    prompt
}

/// Makes the agent of a turn. `degraded` tells whether the model refused the images of the
/// session before.
pub fn configure_agent(
    prompt: String,
    rounds: usize,
    connection: &ConnectionSettings,
    voice: bool,
    effort: String,
    degraded: bool,
) -> (result: Agent)
    ensures
        result@.valid(),
        ({
            let initial = clamped(connection.reconnect_initial_delay_ms as nat, 500, 60_000);
            let longest = clamped(connection.reconnect_max_delay_ms as nat, 1_000, 120_000);
            result@ == (AgentView {
                system_prompt: prompt@,
                max_tool_rounds: clamped(rounds as nat, 1, 512) as usize,
                provider_retry_count: smaller(connection.provider_retry_count as nat, 10) as u8,
                reconnect_initial_delay_ms: initial as u64,
                reconnect_max_delay_ms: (if longest < initial {
                    initial
                } else {
                    longest
                }) as u64,
                max_parallel_tools: 5,
                force_compaction: false,
                input_queue: true,
                vision_replay: !degraded,
                vision_fallback: true,
                reasoning_effort: Some(effort@),
                checkpoint: true,
                turn_control: true,
                voice_broadcast: voice,
            })
        }),
{
    Agent::new(prompt).with_max_tool_rounds(rounds).with_provider_retry_policy(
        connection.provider_retry_count,
        connection.reconnect_initial_delay_ms,
        connection.reconnect_max_delay_ms,
    ).with_voice_broadcast(voice).with_reasoning_effort(
        effort,
    ).with_input_queue().with_turn_control().with_vision_replay(
        !degraded,
    ).with_vision_fallback().with_checkpoint()
}

// ---------------------------------------------------------------------------
// After the turn
// ---------------------------------------------------------------------------

/// Whether a message holds an image.
pub open spec fn has_image(messages: Seq<ChatMessageView>) -> bool {
    exists|i: int| 0 <= i < messages.len() && (#[trigger] messages[i]).images.len() > 0
}

/// What failures that are about images are called.
pub open spec fn image_failures() -> Seq<Seq<char>> {
    seq!["image_url"@, "input_image"@, "inline_data"@, "media_type"@, "multimodal"@, "vision is not supported"@, "expected `text`"@]
}

/// Whether a failure is about images.
#[verifier::opaque]
pub open spec fn blames_images(error: Seq<char>) -> bool {
    holds_any(lower(error), image_failures())
}

fn about_images(error: &str) -> (result: bool)
    ensures
        result == blames_images(error@),
{
    let text = to_lower(error);
    proof {
        reveal(blames_images);
        let list = image_failures();
        assert(list.len() == 7);
        assert(list[0] == "image_url"@);
        assert(list[1] == "input_image"@);
        assert(list[2] == "inline_data"@);
        assert(list[3] == "media_type"@);
        assert(list[4] == "multimodal"@);
        assert(list[5] == "vision is not supported"@);
        assert(list[6] == "expected `text`"@);
    }
    has(&text, "image_url") || has(&text, "input_image") || has(&text, "inline_data") || has(&text, "media_type") || has(&text, "multimodal") || has(&text, "vision is not supported") || has(&text, "expected `text`")
}

/// Tells whether images are to be kept from the model from now on: where a session with images
/// failed with an error that is about images. `degraded` tells whether that was noted before.
pub fn maybe_degrade_vision(session: &Session, degraded: bool, error: &str) -> (result: bool)
    ensures
        result == (has_image(session@.messages) && !degraded && blames_images(error@)),
{
    let ghost messages = session@.messages;
    let mut found = false;
    let mut i: usize = 0;
    while i < session.messages.len() && !found
        invariant
            i <= session.messages.len(),
            messages == session@.messages,
            found ==> has_image(messages),
            !found ==> forall|k: int| 0 <= k < i ==> (#[trigger] messages[k]).images.len() == 0,
        decreases session.messages.len() - i,
    {
        assert(messages[i as int] == session.messages@[i as int]@);
        if session.messages[i].images.len() > 0 {
            assert(messages[i as int].images.len() > 0);
            found = true;
        }
        i = i + 1;
    }
    if !found {
        assert(!has_image(messages));
        return false;
    }
    !degraded && about_images(error)
}

/// Tells whether the loop of a session goes on.
pub fn loop_continues(session: &Session) -> (result: bool)
    ensures
        result == (session@.loop_state is Some && session@.loop_state->0.status
            == LoopStatus::Active),
{
    match &session.loop_state {
        Some(state) => state.status == LoopStatus::Active,
        None => false,
    }
}

/// The text of a turn with one more answer behind it.
pub open spec fn continued(text: Seq<char>, more: Seq<char>) -> Seq<char> {
    if is_blank(more) {
        text
    } else if text.len() == 0 {
        text + more
    } else {
        text + "\n\n"@ + more
    }
}

/// Puts one more answer behind the text of a turn.
pub fn append_continuation(text: &mut String, more: &str)
    ensures
        final(text)@ == continued(old(text)@, more@),
{
    if !blank(more) {
        if !text.as_str().is_empty() {
            text.push_str("\n\n");
        }
        text.push_str(more);
    }
}

// ---------------------------------------------------------------------------
// Taking up a turn again
// ---------------------------------------------------------------------------

/// Whether the user said something.
pub open spec fn has_user_message(messages: Seq<ChatMessageView>) -> bool {
    exists|i: int| 0 <= i < messages.len() && (#[trigger] messages[i]).role == Role::User
}

/// The event that tells a client that a turn is taken up again.
pub open spec fn resume_event() -> JsonView {
    JsonView::Object(
        seq![
            ("event_type"@, JsonView::Text("connection_retry"@)),
            ("attempt"@, number_data(1)),
            ("max_attempts"@, number_data(1)),
            ("delay"@, number_data(0)),
            ("message"@, JsonView::Text("正在恢复上一轮任务"@)),
        ],
    )
}

/// Takes up the last turn of a session again. Without a message of the user there is none.
pub fn retry_turn(task: &mut SessionTask, session: &Session) -> (result: Result<(), String>)
    ensures
        match result {
            Ok(_) => has_user_message(session@.messages) && final(task)@ == old(task)@.pushed(
                resume_event(),
            ),
            Err(message) => !has_user_message(session@.messages) && message@
                == "no user message to retry"@ && final(task)@ == old(task)@,
        },
{
    let ghost messages = session@.messages;
    let mut i: usize = 0;
    while i < session.messages.len()
        invariant
            i <= session.messages.len(),
            messages == session@.messages,
            task@ == old(task)@,
            forall|k: int| 0 <= k < i ==> (#[trigger] messages[k]).role != Role::User,
        decreases session.messages.len() - i,
    {
        assert(messages[i as int] == session.messages@[i as int]@);
        if session.messages[i].role == Role::User {
            assert(messages[i as int].role == Role::User);
            let mut fields = Fields::new();
            fields.add("event_type", Json::text("connection_retry"));
            fields.add("attempt", Json::number(1));
            fields.add("max_attempts", Json::number(1));
            fields.add("delay", Json::number(0));
            fields.add("message", Json::text("正在恢复上一轮任务"));
            assert(fields@ =~= resume_event()->Object_0);
            task.push_event(fields.done());
            return Ok(());
        }
        i = i + 1;
    }
    Err("no user message to retry".to_owned())
}

// ---------------------------------------------------------------------------
// Laws
// ---------------------------------------------------------------------------

/// A session keeps its history and, once it has one, its working directory; only its model
/// changes.
pub proof fn sessions_keep_their_history(
    session: SessionView,
    provider_id: Seq<char>,
    model: Seq<char>,
    cwd: Seq<char>,
)
    ensures
        prepared(session, provider_id, model, cwd).messages == session.messages,
        session.cwd.len() > 0 ==> prepared(session, provider_id, model, cwd).cwd == session.cwd,
        prepared(session, provider_id, model, cwd).id == session.id,
        prepared(session, provider_id, model, cwd).usage == session.usage,
{
}

/// While past sessions are kept from the model, nothing that is remembered joins the prompt.
pub proof fn memory_stays_out_of_the_prompt(system: Seq<char>, parts: PromptPartsView)
    requires
        parts.memory is None,
    ensures
        full_prompt(system, parts) == full_prompt(
            system,
            PromptPartsView { memory: Some(Seq::empty()), ..parts },
        ),
{
}

} // verus!
