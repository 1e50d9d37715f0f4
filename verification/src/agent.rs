//! The agent: how its turns are to run.

use vstd::prelude::*;
use crate::session::LoopStateView;
use crate::session::LoopStatus;
use crate::session::Session;
use crate::views::duplicate_opt;
use crate::views::opt;
use crate::views::Duplicate;

verus! {

/// How the turns of an agent run.
#[derive(Debug)]
pub struct Agent {
    pub system_prompt: String,
    /// How many requests with tool calls one turn may make.
    pub max_tool_rounds: usize,
    /// How often a request that failed for a passing reason is made again.
    pub provider_retry_count: u8,
    pub reconnect_initial_delay_ms: u64,
    pub reconnect_max_delay_ms: u64,
    /// How many tool calls may run side by side.
    pub max_parallel_tools: usize,
    /// Whether the first request of a turn is preceded by a summary.
    pub force_compaction: bool,
    /// Whether messages may join a running turn.
    pub input_queue: bool,
    /// Whether requests repeat the images of earlier messages.
    pub vision_replay: bool,
    /// Whether somebody wants to know that the model refuses images.
    pub vision_fallback: bool,
    pub reasoning_effort: Option<String>,
    /// Whether the session is saved at each step that must not be lost.
    pub checkpoint: bool,
    /// Whether somebody may pause or stop the turn between rounds.
    pub turn_control: bool,
    /// Whether replies are read aloud.
    pub voice_broadcast: bool,
}

/// What a `Agent` holds.
#[verifier::ext_equal]
pub struct AgentView {
    pub system_prompt: Seq<char>,
    pub max_tool_rounds: usize,
    pub provider_retry_count: u8,
    pub reconnect_initial_delay_ms: u64,
    pub reconnect_max_delay_ms: u64,
    pub max_parallel_tools: usize,
    pub force_compaction: bool,
    pub input_queue: bool,
    pub vision_replay: bool,
    pub vision_fallback: bool,
    pub reasoning_effort: Option<Seq<char>>,
    pub checkpoint: bool,
    pub turn_control: bool,
    pub voice_broadcast: bool,
}

impl View for Agent {
    type V = AgentView;

    open spec fn view(&self) -> AgentView {
        AgentView {
            system_prompt: self.system_prompt@,
            max_tool_rounds: self.max_tool_rounds,
            provider_retry_count: self.provider_retry_count,
            reconnect_initial_delay_ms: self.reconnect_initial_delay_ms,
            reconnect_max_delay_ms: self.reconnect_max_delay_ms,
            max_parallel_tools: self.max_parallel_tools,
            force_compaction: self.force_compaction,
            input_queue: self.input_queue,
            vision_replay: self.vision_replay,
            vision_fallback: self.vision_fallback,
            reasoning_effort: opt(self.reasoning_effort),
            checkpoint: self.checkpoint,
            turn_control: self.turn_control,
            voice_broadcast: self.voice_broadcast,
        }
    }
}

impl Duplicate for Agent {
    fn duplicate(&self) -> (result: Self) {
        Agent {
            system_prompt: self.system_prompt.clone(),
            max_tool_rounds: self.max_tool_rounds,
            provider_retry_count: self.provider_retry_count,
            reconnect_initial_delay_ms: self.reconnect_initial_delay_ms,
            reconnect_max_delay_ms: self.reconnect_max_delay_ms,
            max_parallel_tools: self.max_parallel_tools,
            force_compaction: self.force_compaction,
            input_queue: self.input_queue,
            vision_replay: self.vision_replay,
            vision_fallback: self.vision_fallback,
            reasoning_effort: duplicate_opt(&self.reasoning_effort),
            checkpoint: self.checkpoint,
            turn_control: self.turn_control,
            voice_broadcast: self.voice_broadcast,
        }
    }
}

impl AgentView {
    /// Whether the limits are within their ranges.
    pub open spec fn valid(self) -> bool {
        &&& 1 <= self.max_tool_rounds <= 512
        &&& self.provider_retry_count <= 10
        &&& 500 <= self.reconnect_initial_delay_ms <= 60_000
        &&& 1_000 <= self.reconnect_max_delay_ms <= 120_000
        &&& self.reconnect_initial_delay_ms <= self.reconnect_max_delay_ms
        &&& 1 <= self.max_parallel_tools <= 16
    }
}

/// Brings `value` into `low..=high`.
fn clamp_usize(value: usize, low: usize, high: usize) -> (result: usize)
    requires
        low <= high,
    ensures
        result as nat == crate::failure::clamped(value as nat, low as nat, high as nat),
{
    if value < low {
        low
    } else if value > high {
        high
    } else {
        value
    }
}

/// Brings `value` into `low..=high`.
pub fn clamp_u64(value: u64, low: u64, high: u64) -> (result: u64)
    requires
        low <= high,
    ensures
        result as nat == crate::failure::clamped(value as nat, low as nat, high as nat),
{
    if value < low {
        low
    } else if value > high {
        high
    } else {
        value
    }
}

impl Agent {
    /// An agent with the default limits.
    pub fn new(system_prompt: String) -> (result: Agent)
        ensures
            result@.valid(),
            result@ == (AgentView {
                system_prompt: system_prompt@,
                max_tool_rounds: 192,
                provider_retry_count: 2,
                reconnect_initial_delay_ms: 1_000,
                reconnect_max_delay_ms: 10_000,
                max_parallel_tools: 5,
                force_compaction: false,
                input_queue: false,
                vision_replay: true,
                vision_fallback: false,
                reasoning_effort: None,
                checkpoint: false,
                turn_control: false,
                voice_broadcast: false,
            }),
    {
        Agent {
            system_prompt,
            max_tool_rounds: 192,
            provider_retry_count: 2,
            reconnect_initial_delay_ms: 1_000,
            reconnect_max_delay_ms: 10_000,
            max_parallel_tools: 5,
            force_compaction: false,
            input_queue: false,
            vision_replay: true,
            vision_fallback: false,
            reasoning_effort: None,
            checkpoint: false,
            turn_control: false,
            voice_broadcast: false,
        }
    }

    /// Has the session saved at each step that must not be lost.
    pub fn with_checkpoint(self) -> (result: Agent)
        ensures
            result@ == (AgentView { checkpoint: true, ..self@ }),
            self@.valid() ==> result@.valid(),
    {
        Agent { checkpoint: true, ..self }
    }

    /// Lets somebody pause or stop the turn between rounds.
    pub fn with_turn_control(self) -> (result: Agent)
        ensures
            result@ == (AgentView { turn_control: true, ..self@ }),
            self@.valid() ==> result@.valid(),
    {
        Agent { turn_control: true, ..self }
    }

    /// Sets whether the first request of a turn is preceded by a summary.
    pub fn with_forced_compaction(self, force_compaction: bool) -> (result: Agent)
        ensures
            result@ == (AgentView { force_compaction, ..self@ }),
            self@.valid() ==> result@.valid(),
    {
        Agent { force_compaction: force_compaction, ..self }
    }

    /// Sets how many requests with tool calls one turn may make, from 1 to 512.
    pub fn with_max_tool_rounds(self, max_tool_rounds: usize) -> (result: Agent)
        ensures
            result@ == (AgentView {
                max_tool_rounds: crate::failure::clamped(max_tool_rounds as nat, 1, 512) as usize,
                ..self@
            }),
            self@.valid() ==> result@.valid(),
    {
        Agent { max_tool_rounds: clamp_usize(max_tool_rounds, 1, 512), ..self }
    }

    /// Sets whether replies are read aloud.
    pub fn with_voice_broadcast(self, voice_broadcast: bool) -> (result: Agent)
        ensures
            result@ == (AgentView { voice_broadcast, ..self@ }),
            self@.valid() ==> result@.valid(),
    {
        Agent { voice_broadcast: voice_broadcast, ..self }
    }

    /// Sets how often a request that failed for a passing reason is made again, and how long
    /// to wait before. The longest wait is never below the initial one.
    pub fn with_provider_retry_policy(
        self,
        retry_count: u8,
        initial_delay_ms: u64,
        max_delay_ms: u64,
    ) -> (result: Agent)
        ensures
            ({
                let initial = crate::failure::clamped(initial_delay_ms as nat, 500, 60_000);
                let longest = crate::failure::clamped(max_delay_ms as nat, 1_000, 120_000);
                result@ == (AgentView {
                    provider_retry_count: crate::failure::smaller(retry_count as nat, 10) as u8,
                    reconnect_initial_delay_ms: initial as u64,
                    reconnect_max_delay_ms: (if longest < initial {
                        initial
                    } else {
                        longest
                    }) as u64,
                    ..self@
                })
            }),
            self@.valid() ==> result@.valid(),
    {
        let initial: u64 = clamp_u64(initial_delay_ms, 500, 60_000);
        let longest: u64 = clamp_u64(max_delay_ms, 1_000, 120_000);
        Agent {
            provider_retry_count: if retry_count < 10 {
                retry_count
            } else {
                10
            },
            reconnect_initial_delay_ms: initial,
            reconnect_max_delay_ms: if longest < initial {
                initial
            } else {
                longest
            },
            ..self
        }
    }

    /// Sets how many tool calls may run side by side, from 1 to 16.
    pub fn with_max_parallel_tools(self, max_parallel_tools: usize) -> (result: Agent)
        ensures
            result@ == (AgentView {
                max_parallel_tools: crate::failure::clamped(
                    max_parallel_tools as nat,
                    1,
                    16,
                ) as usize,
                ..self@
            }),
            self@.valid() ==> result@.valid(),
    {
        Agent { max_parallel_tools: clamp_usize(max_parallel_tools, 1, 16), ..self }
    }

    /// Lets messages join a running turn.
    pub fn with_input_queue(self) -> (result: Agent)
        ensures
            result@ == (AgentView { input_queue: true, ..self@ }),
            self@.valid() ==> result@.valid(),
    {
        Agent { input_queue: true, ..self }
    }

    /// Sets whether requests repeat the images of earlier messages.
    pub fn with_vision_replay(self, vision_replay: bool) -> (result: Agent)
        ensures
            result@ == (AgentView { vision_replay, ..self@ }),
            self@.valid() ==> result@.valid(),
    {
        Agent { vision_replay: vision_replay, ..self }
    }

    /// Has it told when the model refuses images.
    pub fn with_vision_fallback(self) -> (result: Agent)
        ensures
            result@ == (AgentView { vision_fallback: true, ..self@ }),
            self@.valid() ==> result@.valid(),
    {
        Agent { vision_fallback: true, ..self }
    }

    /// Sets how hard the model should think.
    pub fn with_reasoning_effort(self, effort: String) -> (result: Agent)
        ensures
            result@ == (AgentView { reasoning_effort: Some(effort@), ..self@ }),
            self@.valid() ==> result@.valid(),
    {
        Agent { reasoning_effort: Some(effort), ..self }
    }
}

/// The instruction that resumes a turn after a network failure.
pub open spec fn recovery_instruction() -> Seq<char> {
    "<recovery_context>The previous turn was interrupted by a temporary network or upstream service failure. Continue from the current session checkpoint, complete only the unfinished work, and do not repeat completed tool operations.</recovery_context>"@
}

/// The instruction that resumes a turn after a network failure.
pub fn recovery_prompt() -> (result: String)
    ensures
        result@ == recovery_instruction(),
{
    "<recovery_context>The previous turn was interrupted by a temporary network or upstream service failure. Continue from the current session checkpoint, complete only the unfinished work, and do not repeat completed tool operations.</recovery_context>".to_owned()
}

/// The instruction that continues a loop. Without an active loop its objective is empty.
pub open spec fn loop_instruction(state: Option<LoopStateView>) -> Seq<char> {
    let objective = match state {
        Some(current) => if current.status == LoopStatus::Active {
            current.objective
        } else {
            Seq::empty()
        },
        None => Seq::empty(),
    };
    "<loop_context>\nContinue working autonomously toward the active Loop objective: "@ + objective
        + "\nMake concrete progress, use tools when needed, and only mark the Loop complete when the objective is fully achieved.\n</loop_context>"@
}

/// The instruction that continues the loop of `session`.
pub fn loop_prompt(session: &Session) -> (result: String)
    ensures
        result@ == loop_instruction(session@.loop_state),
{
    let mut result = "<loop_context>\nContinue working autonomously toward the active Loop objective: ".to_owned();
    let ghost before = result@;
    if let Some(state) = &session.loop_state {
        if state.status == LoopStatus::Active {
            result.push_str(&state.objective);
        }
    }
    result.push_str("\nMake concrete progress, use tools when needed, and only mark the Loop complete when the objective is fully achieved.\n</loop_context>");
    assert(result@ =~= loop_instruction(session@.loop_state));
    result
}

} // verus!
