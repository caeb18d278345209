//! What a child session answers.
use crate::model::{append_one, one, Model};
use crate::protocol::effect::EffectKind;
use crate::protocol::error::{ErrorInfo, ErrorInfoV};
use crate::protocol::json::{Json, JsonV};
use crate::protocol::llm::{Usage, UsageV};
use crate::session::caller::{Caller, CallerV};
use crate::session::decision::{Trigger, TriggerV};
use crate::session::effects;
use crate::session::effects::decision::dropped;
use crate::session::effects::subagent::{answered_turn, notice_message};
use crate::session::error::SessionError;
use crate::session::events::{
    DecisionDropped, EventPayload, EventPayloadV, SubagentTurnCompleted, SubagentTurnCompletedV,
};
use crate::session::outcome::{
    asked, decision_queued, Batch, Outcome, OutcomeV, SettleError, SettleErrorV,
};
use crate::session::run::Ran;
use crate::session::state::SessionState;
use crate::session::working::{Working, WorkingV};
use crate::text;
use rust_decimal::Decimal;
use vstd::prelude::*;

verus! {

fn has(texts: &Vec<String>, text: &str) -> (r: bool)
    ensures
        r == texts.v().contains(text@),
{
    let mut i: usize = 0;
    while i < texts.len()
        invariant
            i <= texts@.len(),
            forall|j: int| 0 <= j < i ==> texts.v()[j] != text@,
        decreases texts@.len() - i,
    {
        if text::eq(texts[i].as_str(), text) {
            assert(texts.v()[i as int] == text@);
            return true;
        }
        i = i + 1;
    }
    false
}

impl WorkingV {
    /// A child session finishes a turn. A call that waits for it is answered.
    /// A result nobody waits for is told once, together with those that wait
    /// to be told.
    #[verifier::opaque]
    pub open spec fn complete_subagent_turn(
        self,
        session_id: Seq<char>,
        turn_id: Seq<char>,
        data: JsonV,
        cost: Decimal,
        token_usage: UsageV,
        error: Option<ErrorInfoV>,
        caller: CallerV,
    ) -> Ran {
        if !(caller is System) {
            self.denied()
        } else {
            match self.state.subagent_awaiting(session_id) {
                Some(e) => match error {
                    Some(error) => self.settle_effect(
                        EffectKind::Subagent,
                        e.id,
                        None,
                        OutcomeV::Error(SettleErrorV::new(error, false)),
                        caller,
                    ),
                    None => self.emit_batch(
                        answered_turn(
                            e.id,
                            session_id,
                            e.subagent()->0.agent_id,
                            data,
                            cost,
                            token_usage,
                            self.ids,
                        ),
                    ).fine(),
                },
                None => if self.state.detached_turns.contains(turn_id) {
                    self.fine()
                } else {
                    match self.state.subagent_detached(session_id) {
                        None => self.fine(),
                        Some(e) => self.emit_batch(
                            self.detached_result(
                                session_id,
                                e.subagent()->0.agent_id,
                                SubagentTurnCompletedV {
                                    id: e.id,
                                    cost,
                                    token_usage,
                                    data,
                                    turn_id: Some(turn_id),
                                    error,
                                },
                            ),
                        ).fine(),
                    }
                },
            }
        }
    }

    #[verifier::opaque]
    pub open spec fn detached_result(
        self,
        session_id: Seq<char>,
        agent_id: Seq<char>,
        completed: SubagentTurnCompletedV,
    ) -> Batch {
        let notice = notice_message(session_id, agent_id, completed);
        let event = EventPayloadV::SubagentTurnCompleted(completed);
        match self.state.queued_subagent_notice() {
            Some(prior) => Batch::of(
                seq![
                    event,
                    dropped(prior.decision_id),
                    asked(
                        self.ids,
                        TriggerV::SubagentNotice {
                            messages: prior.messages.push(notice),
                            sessions: prior.sessions.push(session_id),
                            turn_id: prior.turn_id,
                        },
                    ),
                ],
                self.ids.rest(),
            ),
            None => Batch::of(
                seq![
                    event,
                    asked(
                        self.ids.rest(),
                        TriggerV::SubagentNotice {
                            messages: seq![notice],
                            sessions: seq![session_id],
                            turn_id: self.ids.id(),
                        },
                    ),
                ],
                self.ids.rest().rest(),
            ),
        }
    }
}

impl Working {
    pub(crate) fn complete_subagent_turn(
        &mut self,
        session_id: String,
        turn_id: String,
        data: Json,
        cost: Decimal,
        token_usage: Usage,
        error: Option<ErrorInfo>,
        caller: &Caller,
    ) -> (r: Result<(), SessionError>)
        ensures
            (Ran { w: final(self).v(), r: r.v() }) == old(self).v().complete_subagent_turn(
                session_id@,
                turn_id@,
                data.v(),
                cost,
                token_usage.v(),
                error.v(),
                caller.v(),
            ),
    {
        proof {
            reveal(WorkingV::complete_subagent_turn);
        }
        match SessionState::ensure_internal(caller) {
            Err(e) => {
                return Err(e);
            },
            Ok(_) => {},
        }
        match self.state.subagent_awaiting(&session_id) {
            Some(e) => {
                let id = e.id.dup();
                let agent_id = match e.subagent() {
                    Some(call) => call.agent_id.dup(),
                    None => String::new(),
                };
                return match error {
                    Some(error) => {
                        let outcome = Outcome::Error(SettleError::new(error, false));
                        self.settle_effect(EffectKind::Subagent, id, None, outcome, caller)
                    },
                    None => {
                        let events = effects::subagent::complete_turn(
                            id,
                            session_id,
                            agent_id,
                            data,
                            cost,
                            token_usage,
                            &mut self.ids,
                        );
                        self.emit_all(events);
                        Ok(())
                    },
                };
            },
            None => {},
        }
        if has(&self.state.detached_turns, &turn_id) {
            return Ok(());
        }
        let (id, agent_id) = match self.state.subagent_detached(&session_id) {
            None => {
                return Ok(());
            },
            Some(e) => {
                let agent_id = match e.subagent() {
                    Some(call) => call.agent_id.dup(),
                    None => String::new(),
                };
                (e.id.dup(), agent_id)
            },
        };
        let completed = SubagentTurnCompleted {
            id,
            cost,
            token_usage,
            data,
            turn_id: Some(turn_id),
            error,
        };
        let events = self.tell_result(session_id, agent_id, completed);
        self.emit_all(events);
        Ok(())
    }

    pub(crate) fn tell_result(
        &mut self,
        session_id: String,
        agent_id: String,
        completed: SubagentTurnCompleted,
    ) -> (r: Vec<EventPayload>)
        ensures
            Batch::of(r.v(), final(self).v().ids) == old(self).v().detached_result(
                session_id@,
                agent_id@,
                completed.v(),
            ),
            final(self).v() == (WorkingV { ids: final(self).v().ids, ..old(self).v() }),
    {
        proof {
            reveal(WorkingV::detached_result);
        }
        let ghost expected = self.v().detached_result(session_id@, agent_id@, completed.v());
        let notice = effects::subagent::notice(&session_id, &agent_id, &completed);
        let mut events = one(EventPayload::SubagentTurnCompleted(completed));
        let trigger = match self.state.queued_subagent_notice() {
            Some(prior) => {
                let mut messages = prior.messages.dup();
                let mut sessions = prior.sessions.dup();
                append_one(&mut messages, notice);
                append_one(&mut sessions, session_id);
                append_one(
                    &mut events,
                    EventPayload::DecisionDropped(DecisionDropped { id: prior.decision_id.dup() }),
                );
                Trigger::SubagentNotice { messages, sessions, turn_id: prior.turn_id.dup() }
            },
            None => {
                let turn_id = self.ids.new_call_id();
                Trigger::SubagentNotice { messages: one(notice), sessions: one(session_id), turn_id }
            },
        };
        append_one(&mut events, decision_queued(&mut self.ids, trigger));
        assert(events.v() =~= expected.events);
        events
    }
}

} // verus!
