//! A worker's answer.
use crate::model::{any, as_text, Model};
use crate::protocol::config::{AgentConfig, AgentConfigV, WorkerState, WorkerStateV};
use crate::protocol::effect::{EffectKind, EffectStatus};
use crate::protocol::message::{DraftMessage, DraftMessageV};
use crate::protocol::wire::{ChannelView, ChannelViewV};
use crate::session::caller::{Caller, CallerV};
use crate::session::decision::{Action, ActionV, Trigger};
use crate::session::effects;
use crate::session::error::SessionError;
use crate::session::events::{
    ChannelsUpdated, ChannelsUpdatedV, DecisionCompleted, DecisionCompletedV, EventPayload,
    EventPayloadV, TurnStarted, TurnStartedV,
};
use crate::session::run::Ran;
use crate::session::state::SessionState;
use crate::session::working::{Working, WorkingV};
use vstd::prelude::*;

verus! {

pub open spec fn working() -> spec_fn(ActionV) -> bool {
    |a: ActionV| a.starts_work()
}

fn any_starts_work(actions: &Vec<Action>) -> (r: bool)
    ensures
        r == any(actions.v(), working()),
{
    let mut i: usize = 0;
    while i < actions.len()
        invariant
            i <= actions@.len(),
            forall|j: int| 0 <= j < i ==> !working()(#[trigger] actions.v()[j]),
        decreases actions@.len() - i,
    {
        if actions[i].starts_work() {
            assert(working()(actions.v()[i as int]));
            return true;
        }
        i = i + 1;
    }
    false
}

impl WorkingV {
    /// What a worker writes with its answer: its view of the conversation, its
    /// state and its config. Work on a branch the view leaves is given up.
    #[verifier::opaque]
    pub open spec fn author(
        self,
        decision_id: Seq<char>,
        transcript: Seq<DraftMessageV>,
        state: Option<WorkerStateV>,
        agent: Option<AgentConfigV>,
    ) -> WorkingV {
        let answered = self.emit(
            EventPayloadV::DecisionCompleted(DecisionCompletedV { id: decision_id }),
        );
        let seen = answered.emit_batch(
            answered.state.reconcile_transcript(transcript, answered.ids),
        );
        let cleared = seen.emit_all(seen.state.void_stranded_work(seen.state.head_id));
        let stated = cleared.emit_all(cleared.state.worker_state_events(state));
        stated.emit_all(stated.state.agent_config_events(agent))
    }

    /// Work that comes of a client's action runs in a turn of its own.
    #[verifier::opaque]
    pub open spec fn action_turn(self, decision_id: Seq<char>) -> WorkingV {
        let closed = if self.state.phase is Finalizing {
            self.emit_all(self.state.finalize_run(None))
        } else {
            self
        };
        closed.emit(
            EventPayloadV::TurnStarted(TurnStartedV { turn_id: "action:"@ + decision_id }),
        )
    }

    /// A worker answers. An answer to a question that is not out changes
    /// nothing.
    #[verifier::opaque]
    pub open spec fn submit_decision(
        self,
        decision_id: Seq<char>,
        transcript: Seq<DraftMessageV>,
        actions: Seq<ActionV>,
        state: Option<WorkerStateV>,
        agent: Option<AgentConfigV>,
        channels: Seq<ChannelViewV>,
        caller: CallerV,
    ) -> Ran {
        if !caller.is_worker_or_system() {
            self.denied()
        } else if !self.state.has_status(
            EffectKind::Decision,
            decision_id,
            EffectStatus::Pending,
        ) {
            self.fine()
        } else {
            let trigger = self.state.trigger(decision_id)->0;
            let authored = self.author(decision_id, transcript, state, agent);
            let opened = if trigger is ClientAction && any(actions, working())
                && !(authored.state.phase is Active) {
                authored.action_turn(decision_id)
            } else {
                authored
            };
            let shown = if channels.len() > 0 {
                opened.emit(
                    EventPayloadV::ChannelsUpdated(
                        ChannelsUpdatedV {
                            decision_id,
                            finishes_turn: trigger is TurnFinished,
                            channels,
                        },
                    ),
                )
            } else {
                opened
            };
            shown.apply_actions(actions, decision_id, shown.state.engine()).fine()
        }
    }
}

impl Working {
    pub(crate) fn author(
        &mut self,
        decision_id: &str,
        transcript: Vec<DraftMessage>,
        state: Option<WorkerState>,
        agent: Option<AgentConfig>,
    )
        ensures
            final(self).v() == old(self).v().author(
                decision_id@,
                transcript.v(),
                state.v(),
                agent.v(),
            ),
    {
        proof {
            reveal(WorkingV::author);
        }
        self.emit(
            EventPayload::DecisionCompleted(DecisionCompleted { id: decision_id.to_owned() }),
        );
        let events = self.state.reconcile_transcript(transcript, &mut self.ids);
        self.emit_all(events);
        let events = self.state.void_stranded_work(as_text(&self.state.head_id));
        self.emit_all(events);
        let events = self.state.worker_state_events(state);
        self.emit_all(events);
        let events = self.state.agent_config_events(agent);
        self.emit_all(events);
    }

    pub(crate) fn action_turn(&mut self, decision_id: &str)
        ensures
            final(self).v() == old(self).v().action_turn(decision_id@),
    {
        proof {
            reveal(WorkingV::action_turn);
        }
        if self.state.phase.finalizing().is_some() {
            let events = self.state.finalize_run(None);
            self.emit_all(events);
        }
        let turn_id = "action:".to_owned().concat(decision_id);
        self.emit(EventPayload::TurnStarted(TurnStarted { turn_id }));
    }

    pub(crate) fn submit_decision(
        &mut self,
        decision_id: String,
        transcript: Vec<DraftMessage>,
        actions: Vec<Action>,
        state: Option<WorkerState>,
        agent: Option<AgentConfig>,
        channels: Vec<ChannelView>,
        caller: &Caller,
    ) -> (r: Result<(), SessionError>)
        ensures
            (Ran { w: final(self).v(), r: r.v() }) == old(self).v().submit_decision(
                decision_id@,
                transcript.v(),
                actions.v(),
                state.v(),
                agent.v(),
                channels.v(),
                caller.v(),
            ),
    {
        proof {
            reveal(WorkingV::submit_decision);
        }
        match SessionState::ensure_worker_or_system(caller) {
            Err(e) => {
                return Err(e);
            },
            Ok(_) => {},
        }
        let pending = match self.state.tracking(EffectKind::Decision, &decision_id) {
            Some(t) => t.state == EffectStatus::Pending,
            None => false,
        };
        if !pending {
            return Ok(());
        }
        proof {
            crate::model::lemma_position(
                self.v().state.effects,
                crate::session::state::named(EffectKind::Decision, decision_id@),
            );
        }
        let (is_action, finishes_turn) = match self.state.worker_decision(&decision_id) {
            Some(d) => match &d.trigger {
                Trigger::ClientAction { .. } => (true, false),
                Trigger::TurnFinished { .. } => (false, true),
                _ => (false, false),
            },
            None => (false, false),
        };
        self.author(&decision_id, transcript, state, agent);
        if is_action && any_starts_work(&actions) && !self.state.phase.is_active() {
            self.action_turn(&decision_id);
        }
        if channels.len() > 0 {
            self.emit(
                EventPayload::ChannelsUpdated(
                    ChannelsUpdated { decision_id: decision_id.dup(), finishes_turn, channels },
                ),
            );
        }
        self.apply_actions(actions, &decision_id);
        Ok(())
    }
}

} // verus!
