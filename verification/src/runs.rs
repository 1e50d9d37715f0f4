//! How turns of an agent begin.

use vstd::prelude::*;
use crate::accounting::check_compactable;
use crate::agent::Agent;
use crate::agent::AgentView;
use crate::agent::loop_instruction;
use crate::agent::loop_prompt;
use crate::agent::recovery_instruction;
use crate::agent::recovery_prompt;
use crate::agents::AgentScheduler;
use crate::agents::AgentSnapshot;
use crate::agents::all_ended;
use crate::agents::snapshots_at;
use crate::agents::wait_is_over;
use crate::agents::wait_limit;
use crate::compaction::Compaction;
use crate::compaction::CompactionAction;
use crate::compaction::CompactionActionView;
use crate::compaction::CompactionSetting;
use crate::compaction::compaction_begun;
use crate::events::AgentEvent;
use crate::events::AgentEventView;
use crate::events::ContextStatus;
use crate::events::Effect;
use crate::failure::AgentError;
use crate::session::ChatMessage;
use crate::session::ChatMessageView;
use crate::session::Session;
use crate::session::SessionView;
use crate::session::ToolSpec;
use crate::session::internal_message;
use crate::session::user_message;
use crate::text::texts;
use crate::turn::HookKind;
use crate::turn::Turn;
use crate::turn::TurnAction;
use crate::turn::TurnActionView;
use crate::turn::TurnPhase;
use crate::turn::TurnView;
use crate::turn::all_imageless;
use crate::turn::checkpoint;
use crate::turn::emit;
use crate::views::group_views;
use crate::views::views;

verus! {

broadcast use {group_views};

/// Whether a turn stands at its beginning: it waits for a hook and nothing has happened.
pub open spec fn is_opening(
    turn: TurnView,
    action: TurnActionView,
    agent: AgentView,
    session: SessionView,
    prompt: ChatMessageView,
) -> bool {
    &&& turn.prompt == prompt
    &&& turn.phase == if session.hooks_started {
        TurnPhase::TurnHook
    } else {
        TurnPhase::SessionHook
    }
    &&& action == TurnActionView::RunHook(
        if session.hooks_started {
            HookKind::TurnStart
        } else {
            HookKind::SessionStart
        },
    )
    &&& turn.round == 0
    &&& turn.attempt == 0
    &&& turn.replay == agent.vision_replay
    &&& !turn.compacted
    &&& !turn.corrected
    &&& !turn.stripped
    &&& turn.failures.len() == 0
    &&& turn.scheduled.len() == 0
}

impl Agent {
    /// Begins a turn with a message of the user.
    pub fn run_turn(
        &self,
        session: &Session,
        prompt: String,
        provider: String,
        model: String,
        tools: Vec<ToolSpec>,
    ) -> (result: (Turn, TurnAction))
        ensures
            is_opening(result.0@, result.1@, self@, session@, user_message(prompt@)),
            result.0@.provider == provider@,
            result.0@.model == model@,
            result.0@.tools == views(tools@),
    {
        Turn::open(self, session, ChatMessage::user(prompt), provider, model, tools)
    }

    /// Goes on with a turn that was interrupted. The instruction for it is kept from the user.
    pub fn continue_interrupted_turn(
        &self,
        session: &Session,
        provider: String,
        model: String,
        tools: Vec<ToolSpec>,
    ) -> (result: (Turn, TurnAction))
        ensures
            is_opening(
                result.0@,
                result.1@,
                self@,
                session@,
                internal_message(recovery_instruction()),
            ),
            result.0@.provider == provider@,
            result.0@.model == model@,
            result.0@.tools == views(tools@),
    {
        Turn::open(
            self,
            session,
            ChatMessage::internal_user(recovery_prompt()),
            provider,
            model,
            tools,
        )
    }

    /// Begins a turn that works on the objective of the loop.
    pub fn continue_loop(
        &self,
        session: &Session,
        provider: String,
        model: String,
        tools: Vec<ToolSpec>,
    ) -> (result: (Turn, TurnAction))
        ensures
            is_opening(
                result.0@,
                result.1@,
                self@,
                session@,
                internal_message(loop_instruction(session@.loop_state)),
            ),
            result.0@.provider == provider@,
            result.0@.model == model@,
            result.0@.tools == views(tools@),
    {
        Turn::open(
            self,
            session,
            ChatMessage::internal_user(loop_prompt(session)),
            provider,
            model,
            tools,
        )
    }

    /// Begins a summary that was asked for on its own. `messages` is the history in order,
    /// `status` how full the context is with it.
    pub fn compact_session(
        &self,
        session: &mut Session,
        messages: Vec<ChatMessage>,
        status: ContextStatus,
        setting: CompactionSetting,
        effects: &mut Vec<Effect>,
    ) -> (result: Result<(Compaction, CompactionAction), AgentError>)
        ensures
            result is Ok <==> old(session)@.messages.len() > 0,
            result is Ok ==> result->Ok_0.0@ == compaction_begun(setting@, false)
                && result->Ok_0.1@ == (CompactionActionView::Fit {
                messages: all_imageless(views(messages@)),
                limit: setting@.limit(),
            }),
            result is Ok ==> final(session)@ == (SessionView {
                messages: views(messages@),
                ..old(session)@
            }) && views(final(effects)@) == views(old(effects)@) + seq![
                emit(AgentEventView::ContextUpdated(status)),
                emit(AgentEventView::CompactionStarted { automatic: false }),
            ],
            result is Err ==> *final(session) == *old(session) && *final(effects) == *old(effects)
                && result->Err_0@ is Compaction && result->Err_0@->Compaction_0.message
                == "the current session has no context to compact"@,
    {
        check_compactable(session)?;
        session.messages = messages;
        effects.push(Effect::Emit(AgentEvent::ContextUpdated(status)));
        let begun = Compaction::begin(&session.messages, setting, false, effects);
        assert(views(effects@) =~= views(old(effects)@) + seq![
            emit(AgentEventView::ContextUpdated(status)),
            emit(AgentEventView::CompactionStarted { automatic: false }),
        ]);
        Ok(begun)
    }

    /// Has the session saved, where that is wanted.
    pub fn run_checkpoint(&self, effects: &mut Vec<Effect>)
        ensures
            views(final(effects)@) == views(old(effects)@) + checkpoint(self@),
    {
        if self.checkpoint {
            effects.push(Effect::Checkpoint);
        }
        assert(views(effects@) =~= views(old(effects)@) + checkpoint(self@));
    }
}

impl AgentScheduler {
    /// Looks whether a wait for tasks is over: none of them runs, or the time is up. Gives how
    /// they stand if it is.
    pub fn wait(&self, ids: &Vec<String>, now_ms: u128, waited_ms: u64, timeout_ms: u64) -> (result:
        Option<Vec<AgentSnapshot>>)
        ensures
            ({
                let snapshots = snapshots_at(self@.agents, texts(ids@), now_ms);
                match result {
                    Some(found) => views(found@) == snapshots && (all_ended(snapshots)
                        || waited_ms >= wait_limit(timeout_ms as nat)),
                    None => !all_ended(snapshots) && waited_ms < wait_limit(timeout_ms as nat),
                }
            }),
    {
        let snapshots = self.snapshots(ids, now_ms);
        if wait_is_over(&snapshots, waited_ms, timeout_ms) {
            Some(snapshots)
        } else {
            None
        }
    }
}

/// The instructions that the program itself gives are kept from the user.
pub proof fn instructions_stay_hidden(session: SessionView)
    ensures
        internal_message(recovery_instruction()).internal,
        internal_message(loop_instruction(session.loop_state)).internal,
        forall|text: Seq<char>| !(#[trigger] user_message(text)).internal,
{
}

} // verus!
