//! A session while a command runs.
//!
//! Whatever happens goes through [`Working::emit`]: the event is put into the
//! session and kept for the log, so that the session is at all times what its
//! events say.
use crate::model::{append_one, one, Model};
use crate::protocol::effect::{EffectKind, RetryPolicy};
use crate::session::apply::ApplyContext;
use crate::session::decision::{Trigger, TriggerV};
use crate::session::effects;
use crate::session::effects::timeout_error;
use crate::session::events::{
    CallVoidedV, ConnectorSyncRequested, ConnectorSyncRequestedV, DecisionDispatched,
    DecisionDispatchedV, EventPayload, EventPayloadV,
};
use crate::session::ids::{Ids, IdsV};
use crate::session::outcome::{asked, void_events, Batch, Outcome, OutcomeV};
use crate::session::retry::RetryTarget;
use crate::session::schedule::{next_step, ScheduleStep, ScheduleStepV};
use crate::session::state::{SessionState, SessionStateV};
use vstd::prelude::*;

verus! {

/// A session while a command runs. Instants are in nanoseconds of the Unix
/// epoch.
pub struct Working {
    pub state: SessionState,
    /// The sequence number of the last event.
    pub seq: u64,
    /// When the command arrived.
    pub now: i128,
    /// What the schedule goes by.
    pub plan_now: i128,
    /// What happened so far.
    pub events: Vec<EventPayload>,
    /// Names for what the command starts.
    pub ids: Ids,
}

/// The value of [`Working`].
#[verifier::ext_equal]
pub struct WorkingV {
    pub state: SessionStateV,
    pub seq: u64,
    pub now: i128,
    pub plan_now: i128,
    pub events: Seq<EventPayloadV>,
    pub ids: IdsV,
}

/// The number behind `seq`.
pub open spec fn next_seq(seq: u64) -> u64 {
    if seq == u64::MAX {
        0
    } else {
        (seq + 1) as u64
    }
}

impl WorkingV {
    pub open spec fn new(state: SessionStateV, seq: u64, now: i128, ids: IdsV) -> WorkingV {
        WorkingV { state, seq, now, plan_now: now, events: Seq::empty(), ids }
    }

    /// Something happens.
    pub open spec fn emit(self, event: EventPayloadV) -> WorkingV {
        WorkingV {
            state: self.state.apply(
                event,
                ApplyContext { occurred_at: self.now, sequence: next_seq(self.seq) },
            ),
            seq: next_seq(self.seq),
            events: self.events.push(event),
            ..self
        }
    }

    /// Several things happen, one after the other.
    pub open spec fn emit_all(self, events: Seq<EventPayloadV>) -> WorkingV
        decreases events.len(),
    {
        if events.len() == 0 {
            self
        } else {
            self.emit_all(events.drop_last()).emit(events.last())
        }
    }

    /// The events of a step happen, which took some of the ids.
    pub open spec fn emit_batch(self, batch: Batch) -> WorkingV {
        WorkingV { ids: batch.ids, ..self }.emit_all(batch.events)
    }

    /// The worker is asked.
    pub open spec fn ask(self, trigger: TriggerV) -> WorkingV {
        self.emit_batch(Batch::of(seq![asked(self.ids, trigger)], self.ids.rest()))
    }

    /// A piece of work goes out, and the worker is asked to run it if it does.
    #[verifier::opaque]
    pub open spec fn dispatch(self, kind: EffectKind, id: Seq<char>) -> WorkingV {
        let out = self.emit_all(self.state.dispatch(kind, id));
        match out.state.execute_trigger(kind, id) {
            Some(trigger) => out.ask(trigger),
            None => out,
        }
    }

    /// A piece of work fails because it ran out.
    #[verifier::opaque]
    pub open spec fn time_out(self, kind: EffectKind, id: Seq<char>) -> WorkingV {
        let total = match self.state.tracking(kind, id) {
            Some(t) => t.total_deadline is Some && t.total_deadline->0 <= self.plan_now,
            None => false,
        };
        self.emit_batch(
            self.state.settle(kind, id, OutcomeV::Error(timeout_error(total)), self.ids),
        )
    }

    /// One step of the schedule.
    #[verifier::opaque]
    pub open spec fn execute(self, step: ScheduleStepV) -> WorkingV {
        match step {
            ScheduleStepV::RequestFetch { connection_id } => self.emit(
                EventPayloadV::ConnectorSyncRequested(
                    ConnectorSyncRequestedV {
                        path: connection_id,
                        attempt: 0,
                        retry: RetryPolicy::resolved(
                            None,
                            self.state.retry_config(),
                            RetryTarget::ConnectorSync,
                        ),
                    },
                ),
            ),
            ScheduleStepV::Dispatch { kind, id } => self.dispatch(kind, id),
            ScheduleStepV::VoidPhantom { kind, id } => self.emit(
                EventPayloadV::CallVoided(CallVoidedV { kind, id }),
            ),
            ScheduleStepV::TimeOut { kind, id } => self.time_out(kind, id),
            ScheduleStepV::Retry { kind, id } => self.emit_all(self.state.retry(kind, id)),
            ScheduleStepV::RedispatchDecision { decision_id } => self.emit(
                EventPayloadV::DecisionDispatched(DecisionDispatchedV { id: decision_id }),
            ),
        }
    }
}

/// One event is emitted as itself.
pub proof fn lemma_emit_one(w: WorkingV, event: EventPayloadV)
    ensures
        w.emit_all(seq![event]) == w.emit(event),
{
    reveal_with_fuel(WorkingV::emit_all, 2);
    assert(seq![event].drop_last() =~= Seq::empty());
}

/// Emitting events and then others is emitting them all.
pub proof fn lemma_emit_all_split(w: WorkingV, a: Seq<EventPayloadV>, b: Seq<EventPayloadV>)
    ensures
        w.emit_all(a + b) == w.emit_all(a).emit_all(b),
    decreases b.len(),
{
    if b.len() == 0 {
        assert(a + b =~= a);
    } else {
        lemma_emit_all_split(w, a, b.drop_last());
        assert((a + b).drop_last() =~= a + b.drop_last());
        assert((a + b).last() == b.last());
    }
}

impl Working {
    pub open spec fn v(&self) -> WorkingV {
        WorkingV {
            state: self.state.v(),
            seq: self.seq,
            now: self.now,
            plan_now: self.plan_now,
            events: self.events.v(),
            ids: self.ids.v(),
        }
    }

    /// A session, before a command that arrives at `now`. `seq` numbers its
    /// last event, and `ids` names what the command starts.
    pub fn new(state: SessionState, seq: u64, now: i128, ids: Ids) -> (r: Working)
        ensures
            r.v() == WorkingV::new(state.v(), seq, now, ids.v()),
    {
        Working { state, seq, now, plan_now: now, events: crate::model::none(), ids }
    }

    /// Something happens.
    pub fn emit(&mut self, payload: EventPayload)
        ensures
            final(self).v() == old(self).v().emit(payload.v()),
    {
        self.seq = if self.seq == u64::MAX {
            0
        } else {
            self.seq + 1
        };
        self.state.apply(
            &payload,
            &ApplyContext { occurred_at: self.now, sequence: self.seq },
        );
        append_one(&mut self.events, payload);
    }

    /// Several things happen, one after the other.
    pub fn emit_all(&mut self, events: Vec<EventPayload>)
        ensures
            final(self).v() == old(self).v().emit_all(events.v()),
    {
        let ghost all = events.v();
        let mut i: usize = 0;
        assert(all.take(0) =~= Seq::empty());
        while i < events.len()
            invariant
                i <= events@.len(),
                all == events.v(),
                self.v() == old(self).v().emit_all(all.take(i as int)),
            decreases events@.len() - i,
        {
            assert(all.take(i + 1).drop_last() =~= all.take(i as int));
            assert(all.take(i + 1).last() == events@[i as int].v());
            self.emit(events[i].dup());
            i = i + 1;
        }
        assert(all.take(i as int) =~= all);
    }

    /// What happened.
    pub fn into_events(self) -> (r: Vec<EventPayload>)
        ensures
            r.v() == self.v().events,
    {
        self.events
    }

    /// Asks the worker, and returns the id of the question.
    pub fn queue_decision(&mut self, trigger: Trigger) -> (r: String)
        ensures
            final(self).v() == old(self).v().ask(trigger.v()),
            r@ == old(self).v().ids.id(),
    {
        let ghost before = self.v();
        let ghost asked_event = asked(self.ids.v(), trigger.v());
        let id = self.ids.new_call_id();
        let event = EventPayload::DecisionQueued(
            crate::session::events::DecisionQueued { id: id.dup(), trigger },
        );
        proof {
            lemma_emit_one(WorkingV { ids: before.ids.rest(), ..before }, asked_event);
        }
        self.emit(event);
        id
    }

    fn dispatch(&mut self, kind: EffectKind, id: String)
        ensures
            final(self).v() == old(self).v().dispatch(kind, id@),
    {
        proof {
            reveal(WorkingV::dispatch);
        }
        let events = effects::dispatch(&self.state, kind, &id);
        self.emit_all(events);
        match effects::execute_trigger(&self.state, kind, &id) {
            Some(trigger) => {
                let _ = self.queue_decision(trigger);
            },
            None => {},
        }
    }

    fn time_out(&mut self, kind: EffectKind, id: String)
        ensures
            final(self).v() == old(self).v().time_out(kind, id@),
    {
        proof {
            reveal(WorkingV::time_out);
        }
        let total = match self.state.tracking(kind, &id) {
            Some(t) => t.total_expired(self.plan_now),
            None => false,
        };
        let outcome = Outcome::Error(effects::timed_out(total));
        let events = effects::settle(&self.state, kind, &id, outcome, &mut self.ids);
        self.emit_all(events);
    }

    /// One step of the schedule.
    pub fn execute(&mut self, step: ScheduleStep)
        ensures
            final(self).v() == old(self).v().execute(step.v()),
    {
        proof {
            reveal(WorkingV::execute);
        }
        match step {
            ScheduleStep::RequestFetch { connection_id } => {
                let config = self.state.retry_config();
                let retry = RetryPolicy::resolve(None, config.as_ref(), RetryTarget::ConnectorSync);
                self.emit(
                    EventPayload::ConnectorSyncRequested(
                        ConnectorSyncRequested { path: connection_id, attempt: 0, retry },
                    ),
                );
            },
            ScheduleStep::Dispatch { kind, id } => self.dispatch(kind, id),
            ScheduleStep::VoidPhantom { kind, id } => {
                proof {
                    lemma_emit_one(
                        self.v(),
                        EventPayloadV::CallVoided(CallVoidedV { kind, id: id@ }),
                    );
                }
                self.emit_all(void_events(kind, id));
            },
            ScheduleStep::TimeOut { kind, id } => self.time_out(kind, id),
            ScheduleStep::Retry { kind, id } => {
                let events = effects::retry(&self.state, kind, &id);
                self.emit_all(events);
            },
            ScheduleStep::RedispatchDecision { decision_id } => {
                self.emit(
                    EventPayload::DecisionDispatched(DecisionDispatched { id: decision_id }),
                );
            },
        }
    }

    /// Does what is to be done, until nothing is.
    pub fn schedule(&mut self)
        ensures
            final(self).v() == old(self).v().scheduled(false),
    {
        let mut swept = false;
        loop
            invariant
                self.v().scheduled(swept) == old(self).v().scheduled(false),
            decreases
                    if swept {
                        0nat
                    } else {
                        1nat
                    },
                    self.v().state.waiting(),
                    self.v().state.unfetched(),
        {
            let step = match next_step(&self.state, self.plan_now, swept) {
                Some(step) => step,
                None => {
                    return;
                },
            };
            proof {
                crate::session::progress::lemma_step_progresses(self.v(), swept, step.v());
            }
            swept = swept || step.is_sweep();
            self.execute(step);
        }
    }
}

} // verus!
