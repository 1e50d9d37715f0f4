//! Sessions: messages, tool calls, token usage, the plan and the loop.

use vstd::prelude::*;
use crate::json::Json;
use crate::json::JsonView;
use crate::views::duplicate_all;
use crate::views::duplicate_opt;
use crate::views::opt;
use crate::views::views;
use crate::views::Duplicate;

verus! {

/// Who wrote a message.
#[derive(Clone, Copy, Debug, PartialEq, Eq, Structural)]
pub enum Role {
    System,
    User,
    Assistant,
    Tool,
}

/// The state of a loop, a standing objective that the agent works on turn after turn.
#[derive(Clone, Copy, Debug, PartialEq, Eq, Structural)]
pub enum LoopStatus {
    /// The next turn continues the objective.
    Active,
    /// The user stopped it for now.
    Paused,
    /// Its token budget is used up.
    BudgetLimited,
    /// The provider refused further use.
    UsageLimited,
    /// The objective is reached.
    Complete,
    /// The agent cannot go on.
    Blocked,
}

/// The state of one step of a plan.
#[derive(Clone, Copy, Debug, PartialEq, Eq, Structural)]
pub enum PlanStepStatus {
    Pending,
    InProgress,
    Completed,
}

/// Token counts.
#[derive(Clone, Copy, Debug, PartialEq, Eq, Structural)]
pub struct TokenUsage {
    pub input_tokens: u64,
    pub cached_input_tokens: u64,
    pub cache_observed_input_tokens: u64,
    pub output_tokens: u64,
    pub cache_data_available: bool,
}

/// An image that goes with a message.
#[derive(Debug)]
pub struct ImageContent {
    pub media_type: String,
    pub data: String,
}

/// What a `ImageContent` holds.
#[verifier::ext_equal]
pub struct ImageContentView {
    pub media_type: Seq<char>,
    pub data: Seq<char>,
}

impl View for ImageContent {
    type V = ImageContentView;

    open spec fn view(&self) -> ImageContentView {
        ImageContentView {
            media_type: self.media_type@,
            data: self.data@,
        }
    }
}

impl Duplicate for ImageContent {
    fn duplicate(&self) -> (result: Self) {
        ImageContent {
            media_type: self.media_type.clone(),
            data: self.data.clone(),
        }
    }
}

/// A call of a tool that the model asks for.
#[derive(Debug)]
pub struct ToolCall {
    pub id: String,
    pub name: String,
    pub arguments: Json,
}

/// What a `ToolCall` holds.
#[verifier::ext_equal]
pub struct ToolCallView {
    pub id: Seq<char>,
    pub name: Seq<char>,
    pub arguments: JsonView,
}

impl View for ToolCall {
    type V = ToolCallView;

    open spec fn view(&self) -> ToolCallView {
        ToolCallView {
            id: self.id@,
            name: self.name@,
            arguments: self.arguments@,
        }
    }
}

impl Duplicate for ToolCall {
    fn duplicate(&self) -> (result: Self) {
        ToolCall {
            id: self.id.clone(),
            name: self.name.clone(),
            arguments: self.arguments.duplicate(),
        }
    }
}

/// One message of a conversation.
#[derive(Debug)]
pub struct ChatMessage {
    pub role: Role,
    pub content: String,
    /// The call that a tool message answers.
    pub tool_call_id: Option<String>,
    pub tool_calls: Vec<ToolCall>,
    pub images: Vec<ImageContent>,
    pub provider_items: Vec<Json>,
    /// Whether the message is kept from the user.
    pub internal: bool,
    /// Whether the message stands for history that was summarised.
    pub compaction_summary: bool,
}

/// What a `ChatMessage` holds.
#[verifier::ext_equal]
pub struct ChatMessageView {
    pub role: Role,
    pub content: Seq<char>,
    pub tool_call_id: Option<Seq<char>>,
    pub tool_calls: Seq<ToolCallView>,
    pub images: Seq<ImageContentView>,
    pub provider_items: Seq<JsonView>,
    pub internal: bool,
    pub compaction_summary: bool,
}

impl View for ChatMessage {
    type V = ChatMessageView;

    open spec fn view(&self) -> ChatMessageView {
        ChatMessageView {
            role: self.role,
            content: self.content@,
            tool_call_id: opt(self.tool_call_id),
            tool_calls: views(self.tool_calls@),
            images: views(self.images@),
            provider_items: views(self.provider_items@),
            internal: self.internal,
            compaction_summary: self.compaction_summary,
        }
    }
}

impl Duplicate for ChatMessage {
    fn duplicate(&self) -> (result: Self) {
        ChatMessage {
            role: self.role,
            content: self.content.clone(),
            tool_call_id: duplicate_opt(&self.tool_call_id),
            tool_calls: duplicate_all(&self.tool_calls),
            images: duplicate_all(&self.images),
            provider_items: duplicate_all(&self.provider_items),
            internal: self.internal,
            compaction_summary: self.compaction_summary,
        }
    }
}

/// One step of a plan.
#[derive(Debug)]
pub struct PlanStep {
    pub step: String,
    pub status: PlanStepStatus,
}

/// What a `PlanStep` holds.
#[verifier::ext_equal]
pub struct PlanStepView {
    pub step: Seq<char>,
    pub status: PlanStepStatus,
}

impl View for PlanStep {
    type V = PlanStepView;

    open spec fn view(&self) -> PlanStepView {
        PlanStepView {
            step: self.step@,
            status: self.status,
        }
    }
}

impl Duplicate for PlanStep {
    fn duplicate(&self) -> (result: Self) {
        PlanStep {
            step: self.step.clone(),
            status: self.status,
        }
    }
}

/// The steps that the agent has set itself.
#[derive(Debug)]
pub struct Plan {
    pub steps: Vec<PlanStep>,
}

/// What a `Plan` holds.
#[verifier::ext_equal]
pub struct PlanView {
    pub steps: Seq<PlanStepView>,
}

impl View for Plan {
    type V = PlanView;

    open spec fn view(&self) -> PlanView {
        PlanView {
            steps: views(self.steps@),
        }
    }
}

impl Duplicate for Plan {
    fn duplicate(&self) -> (result: Self) {
        Plan {
            steps: duplicate_all(&self.steps),
        }
    }
}

/// A standing objective and what it has cost so far.
#[derive(Debug)]
pub struct LoopState {
    pub objective: String,
    pub status: LoopStatus,
    pub token_budget: Option<u64>,
    pub tokens_used: u64,
    pub time_used_seconds: u64,
    pub blocked_streak: u32,
    pub turns_completed: u64,
}

/// What a `LoopState` holds.
#[verifier::ext_equal]
pub struct LoopStateView {
    pub objective: Seq<char>,
    pub status: LoopStatus,
    pub token_budget: Option<u64>,
    pub tokens_used: u64,
    pub time_used_seconds: u64,
    pub blocked_streak: u32,
    pub turns_completed: u64,
}

impl View for LoopState {
    type V = LoopStateView;

    open spec fn view(&self) -> LoopStateView {
        LoopStateView {
            objective: self.objective@,
            status: self.status,
            token_budget: self.token_budget,
            tokens_used: self.tokens_used,
            time_used_seconds: self.time_used_seconds,
            blocked_streak: self.blocked_streak,
            turns_completed: self.turns_completed,
        }
    }
}

impl Duplicate for LoopState {
    fn duplicate(&self) -> (result: Self) {
        LoopState {
            objective: self.objective.clone(),
            status: self.status,
            token_budget: self.token_budget,
            tokens_used: self.tokens_used,
            time_used_seconds: self.time_used_seconds,
            blocked_streak: self.blocked_streak,
            turns_completed: self.turns_completed,
        }
    }
}

/// A conversation and what belongs to it.
#[derive(Debug)]
pub struct Session {
    pub id: String,
    pub provider_id: String,
    pub model: String,
    pub cwd: String,
    pub messages: Vec<ChatMessage>,
    pub usage: TokenUsage,
    pub plan: Option<Plan>,
    pub loop_state: Option<LoopState>,
    /// Whether the session-start hook has run.
    pub hooks_started: bool,
    pub title: String,
    pub title_manually_set: bool,
    pub pinned: bool,
}

/// What a `Session` holds.
#[verifier::ext_equal]
pub struct SessionView {
    pub id: Seq<char>,
    pub provider_id: Seq<char>,
    pub model: Seq<char>,
    pub cwd: Seq<char>,
    pub messages: Seq<ChatMessageView>,
    pub usage: TokenUsage,
    pub plan: Option<PlanView>,
    pub loop_state: Option<LoopStateView>,
    pub hooks_started: bool,
    pub title: Seq<char>,
    pub title_manually_set: bool,
    pub pinned: bool,
}

impl View for Session {
    type V = SessionView;

    open spec fn view(&self) -> SessionView {
        SessionView {
            id: self.id@,
            provider_id: self.provider_id@,
            model: self.model@,
            cwd: self.cwd@,
            messages: views(self.messages@),
            usage: self.usage,
            plan: opt(self.plan),
            loop_state: opt(self.loop_state),
            hooks_started: self.hooks_started,
            title: self.title@,
            title_manually_set: self.title_manually_set,
            pinned: self.pinned,
        }
    }
}

impl Duplicate for Session {
    fn duplicate(&self) -> (result: Self) {
        Session {
            id: self.id.clone(),
            provider_id: self.provider_id.clone(),
            model: self.model.clone(),
            cwd: self.cwd.clone(),
            messages: duplicate_all(&self.messages),
            usage: self.usage,
            plan: duplicate_opt(&self.plan),
            loop_state: duplicate_opt(&self.loop_state),
            hooks_started: self.hooks_started,
            title: self.title.clone(),
            title_manually_set: self.title_manually_set,
            pinned: self.pinned,
        }
    }
}

/// A tool that the model may call.
#[derive(Debug)]
pub struct ToolSpec {
    pub name: String,
    pub description: String,
    pub parameters: Json,
}

/// What a `ToolSpec` holds.
#[verifier::ext_equal]
pub struct ToolSpecView {
    pub name: Seq<char>,
    pub description: Seq<char>,
    pub parameters: JsonView,
}

impl View for ToolSpec {
    type V = ToolSpecView;

    open spec fn view(&self) -> ToolSpecView {
        ToolSpecView {
            name: self.name@,
            description: self.description@,
            parameters: self.parameters@,
        }
    }
}

impl Duplicate for ToolSpec {
    fn duplicate(&self) -> (result: Self) {
        ToolSpec {
            name: self.name.clone(),
            description: self.description.clone(),
            parameters: self.parameters.duplicate(),
        }
    }
}

/// A tool call whose arguments did not pass validation.
#[derive(Debug)]
pub struct InvalidToolCall {
    pub id: String,
    pub name: String,
    pub reason: String,
}

/// What a `InvalidToolCall` holds.
#[verifier::ext_equal]
pub struct InvalidToolCallView {
    pub id: Seq<char>,
    pub name: Seq<char>,
    pub reason: Seq<char>,
}

impl View for InvalidToolCall {
    type V = InvalidToolCallView;

    open spec fn view(&self) -> InvalidToolCallView {
        InvalidToolCallView {
            id: self.id@,
            name: self.name@,
            reason: self.reason@,
        }
    }
}

impl Duplicate for InvalidToolCall {
    fn duplicate(&self) -> (result: Self) {
        InvalidToolCall {
            id: self.id.clone(),
            name: self.name.clone(),
            reason: self.reason.clone(),
        }
    }
}

/// What a tool gave back.
#[derive(Debug)]
pub struct ToolResult {
    pub success: bool,
    pub output: String,
    pub images: Vec<ImageContent>,
    pub plan: Option<Plan>,
    pub loop_state: Option<LoopState>,
    pub additional_context: Option<String>,
}

/// What a `ToolResult` holds.
#[verifier::ext_equal]
pub struct ToolResultView {
    pub success: bool,
    pub output: Seq<char>,
    pub images: Seq<ImageContentView>,
    pub plan: Option<PlanView>,
    pub loop_state: Option<LoopStateView>,
    pub additional_context: Option<Seq<char>>,
}

impl View for ToolResult {
    type V = ToolResultView;

    open spec fn view(&self) -> ToolResultView {
        ToolResultView {
            success: self.success,
            output: self.output@,
            images: views(self.images@),
            plan: opt(self.plan),
            loop_state: opt(self.loop_state),
            additional_context: opt(self.additional_context),
        }
    }
}

impl Duplicate for ToolResult {
    fn duplicate(&self) -> (result: Self) {
        ToolResult {
            success: self.success,
            output: self.output.clone(),
            images: duplicate_all(&self.images),
            plan: duplicate_opt(&self.plan),
            loop_state: duplicate_opt(&self.loop_state),
            additional_context: duplicate_opt(&self.additional_context),
        }
    }
}

/// A request to the model.
#[derive(Debug)]
pub struct ModelRequest {
    pub model: String,
    pub messages: Vec<ChatMessage>,
    pub tools: Vec<ToolSpec>,
    pub reasoning_effort: Option<String>,
}

/// What a `ModelRequest` holds.
#[verifier::ext_equal]
pub struct ModelRequestView {
    pub model: Seq<char>,
    pub messages: Seq<ChatMessageView>,
    pub tools: Seq<ToolSpecView>,
    pub reasoning_effort: Option<Seq<char>>,
}

impl View for ModelRequest {
    type V = ModelRequestView;

    open spec fn view(&self) -> ModelRequestView {
        ModelRequestView {
            model: self.model@,
            messages: views(self.messages@),
            tools: views(self.tools@),
            reasoning_effort: opt(self.reasoning_effort),
        }
    }
}

impl Duplicate for ModelRequest {
    fn duplicate(&self) -> (result: Self) {
        ModelRequest {
            model: self.model.clone(),
            messages: duplicate_all(&self.messages),
            tools: duplicate_all(&self.tools),
            reasoning_effort: duplicate_opt(&self.reasoning_effort),
        }
    }
}

/// A reply of the model.
#[derive(Debug)]
pub struct ModelResponse {
    pub content: String,
    pub tool_calls: Vec<ToolCall>,
    pub invalid_tool_calls: Vec<InvalidToolCall>,
    pub usage: TokenUsage,
}

/// What a `ModelResponse` holds.
#[verifier::ext_equal]
pub struct ModelResponseView {
    pub content: Seq<char>,
    pub tool_calls: Seq<ToolCallView>,
    pub invalid_tool_calls: Seq<InvalidToolCallView>,
    pub usage: TokenUsage,
}

impl View for ModelResponse {
    type V = ModelResponseView;

    open spec fn view(&self) -> ModelResponseView {
        ModelResponseView {
            content: self.content@,
            tool_calls: views(self.tool_calls@),
            invalid_tool_calls: views(self.invalid_tool_calls@),
            usage: self.usage,
        }
    }
}

impl Duplicate for ModelResponse {
    fn duplicate(&self) -> (result: Self) {
        ModelResponse {
            content: self.content.clone(),
            tool_calls: duplicate_all(&self.tool_calls),
            invalid_tool_calls: duplicate_all(&self.invalid_tool_calls),
            usage: self.usage,
        }
    }
}

/// A sum that stays at the largest value where it would pass it.
pub open spec fn capped_sum(a: nat, b: nat) -> nat {
    if a + b > u64::MAX {
        u64::MAX as nat
    } else {
        a + b
    }
}

/// A difference that stays at zero where it would pass it.
pub open spec fn floored_difference(a: nat, b: nat) -> nat {
    if a < b {
        0
    } else {
        (a - b) as nat
    }
}

/// Adds without passing the largest value.
pub fn add_capped(a: u64, b: u64) -> (result: u64)
    ensures
        result as nat == capped_sum(a as nat, b as nat),
{
    if a > u64::MAX - b {
        u64::MAX
    } else {
        a + b
    }
}

/// Subtracts without passing zero.
pub fn sub_floored(a: u64, b: u64) -> (result: u64)
    ensures
        result as nat == floored_difference(a as nat, b as nat),
{
    if a < b {
        0
    } else {
        a - b
    }
}

impl TokenUsage {
    /// Input and output tokens together.
    pub open spec fn total(self) -> nat {
        capped_sum(self.input_tokens as nat, self.output_tokens as nat)
    }

    /// Two counts together.
    pub open spec fn plus(self, other: TokenUsage) -> TokenUsage {
        TokenUsage {
            input_tokens: capped_sum(self.input_tokens as nat, other.input_tokens as nat) as u64,
            cached_input_tokens: capped_sum(
                self.cached_input_tokens as nat,
                other.cached_input_tokens as nat,
            ) as u64,
            cache_observed_input_tokens: capped_sum(
                self.cache_observed_input_tokens as nat,
                other.cache_observed_input_tokens as nat,
            ) as u64,
            output_tokens: capped_sum(self.output_tokens as nat, other.output_tokens as nat) as u64,
            cache_data_available: self.cache_data_available || other.cache_data_available,
        }
    }

    /// What a count grew by since `earlier`.
    pub open spec fn since(self, earlier: TokenUsage) -> TokenUsage {
        TokenUsage {
            input_tokens: floored_difference(
                self.input_tokens as nat,
                earlier.input_tokens as nat,
            ) as u64,
            cached_input_tokens: floored_difference(
                self.cached_input_tokens as nat,
                earlier.cached_input_tokens as nat,
            ) as u64,
            cache_observed_input_tokens: floored_difference(
                self.cache_observed_input_tokens as nat,
                earlier.cache_observed_input_tokens as nat,
            ) as u64,
            output_tokens: floored_difference(
                self.output_tokens as nat,
                earlier.output_tokens as nat,
            ) as u64,
            cache_data_available: self.cache_data_available,
        }
    }

    /// No tokens at all.
    pub open spec fn none() -> TokenUsage {
        TokenUsage {
            input_tokens: 0,
            cached_input_tokens: 0,
            cache_observed_input_tokens: 0,
            output_tokens: 0,
            cache_data_available: false,
        }
    }

    /// No tokens at all.
    pub fn zero() -> (result: TokenUsage)
        ensures
            result == TokenUsage::none(),
    {
        TokenUsage {
            input_tokens: 0,
            cached_input_tokens: 0,
            cache_observed_input_tokens: 0,
            output_tokens: 0,
            cache_data_available: false,
        }
    }

    /// Input and output tokens together.
    pub fn total_tokens(&self) -> (result: u64)
        ensures
            result as nat == self.total(),
    {
        add_capped(self.input_tokens, self.output_tokens)
    }

    /// Adds another count to this one.
    pub fn add_usage(&mut self, other: &TokenUsage)
        ensures
            *final(self) == old(self).plus(*other),
    {
        self.input_tokens = add_capped(self.input_tokens, other.input_tokens);
        self.cached_input_tokens = add_capped(self.cached_input_tokens, other.cached_input_tokens);
        self.cache_observed_input_tokens =
        add_capped(self.cache_observed_input_tokens, other.cache_observed_input_tokens);
        self.output_tokens = add_capped(self.output_tokens, other.output_tokens);
        self.cache_data_available = self.cache_data_available || other.cache_data_available;
    }

    /// What this count grew by since `earlier`.
    pub fn saturating_sub(&self, earlier: &TokenUsage) -> (result: TokenUsage)
        ensures
            result == self.since(*earlier),
    {
        TokenUsage {
            input_tokens: sub_floored(self.input_tokens, earlier.input_tokens),
            cached_input_tokens: sub_floored(self.cached_input_tokens, earlier.cached_input_tokens),
            cache_observed_input_tokens: sub_floored(
                self.cache_observed_input_tokens,
                earlier.cache_observed_input_tokens,
            ),
            output_tokens: sub_floored(self.output_tokens, earlier.output_tokens),
            cache_data_available: self.cache_data_available,
        }
    }
}

/// A message that only carries text.
pub open spec fn plain_message(role: Role, content: Seq<char>, internal: bool) -> ChatMessageView {
    ChatMessageView {
        role,
        content,
        tool_call_id: None,
        tool_calls: Seq::empty(),
        images: Seq::empty(),
        provider_items: Seq::empty(),
        internal,
        compaction_summary: false,
    }
}

/// A message of the system.
pub open spec fn system_message(content: Seq<char>) -> ChatMessageView {
    plain_message(Role::System, content, false)
}

/// A message of the user.
pub open spec fn user_message(content: Seq<char>) -> ChatMessageView {
    plain_message(Role::User, content, false)
}

/// A message in the user's place that is kept from the user.
pub open spec fn internal_message(content: Seq<char>) -> ChatMessageView {
    plain_message(Role::User, content, true)
}

/// A message of the model.
pub open spec fn assistant_message(
    content: Seq<char>,
    calls: Seq<ToolCallView>,
) -> ChatMessageView {
    ChatMessageView { tool_calls: calls, ..plain_message(Role::Assistant, content, false) }
}

/// The answer to a tool call.
pub open spec fn tool_message(
    call_id: Seq<char>,
    content: Seq<char>,
    images: Seq<ImageContentView>,
) -> ChatMessageView {
    ChatMessageView {
        tool_call_id: Some(call_id),
        images,
        ..plain_message(Role::Tool, content, false)
    }
}

impl ChatMessage {
    fn plain(role: Role, content: String, internal: bool) -> (result: ChatMessage)
        ensures
            result@ == plain_message(role, content@, internal),
    {
        let result = ChatMessage {
            role,
            content,
            tool_call_id: None,
            tool_calls: Vec::new(),
            images: Vec::new(),
            provider_items: Vec::new(),
            internal,
            compaction_summary: false,
        };
        assert(views(result.tool_calls@) =~= Seq::<ToolCallView>::empty());
        assert(views(result.images@) =~= Seq::<ImageContentView>::empty());
        assert(views(result.provider_items@) =~= Seq::<JsonView>::empty());
        result
    }

    /// A message of the system.
    pub fn system(content: String) -> (result: ChatMessage)
        ensures
            result@ == system_message(content@),
    {
        ChatMessage::plain(Role::System, content, false)
    }

    /// A message of the user.
    pub fn user(content: String) -> (result: ChatMessage)
        ensures
            result@ == user_message(content@),
    {
        ChatMessage::plain(Role::User, content, false)
    }

    /// A message in the user's place that is kept from the user.
    pub fn internal_user(content: String) -> (result: ChatMessage)
        ensures
            result@ == internal_message(content@),
    {
        ChatMessage::plain(Role::User, content, true)
    }

    /// A message of the model.
    pub fn assistant(content: String, tool_calls: Vec<ToolCall>) -> (result: ChatMessage)
        ensures
            result@ == assistant_message(content@, views(tool_calls@)),
    {
        let mut result = ChatMessage::plain(Role::Assistant, content, false);
        result.tool_calls = tool_calls;
        result
    }

    /// The answer to a tool call.
    pub fn tool(call_id: String, content: String, images: Vec<ImageContent>) -> (result: ChatMessage)
        ensures
            result@ == tool_message(call_id@, content@, views(images@)),
    {
        let mut result = ChatMessage::plain(Role::Tool, content, false);
        result.tool_call_id = Some(call_id);
        result.images = images;
        result
    }
}

/// A result that only carries text.
pub open spec fn plain_result(success: bool, output: Seq<char>) -> ToolResultView {
    ToolResultView {
        success,
        output,
        images: Seq::empty(),
        plan: None,
        loop_state: None,
        additional_context: None,
    }
}

impl ToolResult {
    fn plain(success: bool, output: String) -> (result: ToolResult)
        ensures
            result@ == plain_result(success, output@),
    {
        let result = ToolResult {
            success,
            output,
            images: Vec::new(),
            plan: None,
            loop_state: None,
            additional_context: None,
        };
        assert(views(result.images@) =~= Seq::<ImageContentView>::empty());
        result
    }

    /// The result of a call that worked.
    pub fn success(output: String) -> (result: ToolResult)
        ensures
            result@ == plain_result(true, output@),
    {
        ToolResult::plain(true, output)
    }

    /// The result of a call that failed.
    pub fn error(output: String) -> (result: ToolResult)
        ensures
            result@ == plain_result(false, output@),
    {
        ToolResult::plain(false, output)
    }
}

/// An empty session for a model.
pub open spec fn new_session(
    id: Seq<char>,
    provider_id: Seq<char>,
    model: Seq<char>,
    cwd: Seq<char>,
) -> SessionView {
    SessionView {
        id,
        provider_id,
        model,
        cwd,
        messages: Seq::empty(),
        usage: TokenUsage {
            input_tokens: 0,
            cached_input_tokens: 0,
            cache_observed_input_tokens: 0,
            output_tokens: 0,
            cache_data_available: false,
        },
        plan: None,
        loop_state: None,
        hooks_started: false,
        title: Seq::empty(),
        title_manually_set: false,
        pinned: false,
    }
}

impl Session {
    /// An empty session for a model.
    pub fn new(id: String, provider_id: String, model: String, cwd: String) -> (result: Session)
        ensures
            result@ == new_session(id@, provider_id@, model@, cwd@),
    {
        let result = Session {
            id,
            provider_id,
            model,
            cwd,
            messages: Vec::new(),
            usage: TokenUsage::zero(),
            plan: None,
            loop_state: None,
            hooks_started: false,
            title: String::new(),
            title_manually_set: false,
            pinned: false,
        };
        assert(views(result.messages@) =~= Seq::<ChatMessageView>::empty());
        result
    }

    /// Makes another model the session's model.
    pub fn switch_model(&mut self, provider_id: &str, model: &str)
        ensures
            final(self)@ == (SessionView { provider_id: provider_id@, model: model@, ..old(self)@ }),
    {
        self.provider_id = provider_id.to_owned();
        self.model = model.to_owned();
    }
}

} // verus!
