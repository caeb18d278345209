//! A decision of the worker.
use crate::model::{append_one, collect, extend, lemma_collect_step, one, seen, Model};
use crate::protocol::effect::{EffectKind, EffectStatus};
use crate::session::caller::Caller;
use crate::session::decision::{Trigger, TriggerV};
use crate::session::deps::{in_order, same_deps, sorted, Dep, DepV};
use crate::session::effects::connector;
use crate::session::error::SessionError;
use crate::session::events::{
    DecisionDispatched, DecisionDispatchedV, DecisionDropped, DecisionDroppedV, DecisionErrored,
    DecisionErroredV, EventPayload, EventPayloadV, TurnStarted, TurnStartedV,
};
use crate::session::outcome::{Outcome, OutcomeV, Settle, SettleError, SettleErrorV};
use crate::session::state::{
    EffectEntry, EffectEntryV, EffectTracking, QueueEntry, SessionState, SessionStateV,
};
use crate::text;
use vstd::prelude::*;

verus! {

pub struct DecisionSpec;

/// Whether a decision keeps others back: one is out with the worker at a time,
/// and nothing overtakes the first decision of a session while it is retried.
pub open spec fn keeps_back(e: EffectEntryV, id: Seq<char>) -> bool {
    match e.trigger() {
        Some(trigger) => e.tracking.state == EffectStatus::Pending || (trigger
            == TriggerV::SessionStart && e.tracking.state == EffectStatus::RetryScheduled && e.id
            != id),
        None => false,
    }
}

pub open spec fn kept_back_by(id: Seq<char>) -> spec_fn(EffectEntryV) -> Option<DepV> {
    |e: EffectEntryV|
        if keeps_back(e, id) {
            Some(DepV::DecisionSettled { decision_id: e.id })
        } else {
            None
        }
}

/// A decision that is dropped.
pub open spec fn dropped(id: Seq<char>) -> EventPayloadV {
    EventPayloadV::DecisionDropped(DecisionDroppedV { id })
}

/// A queued decision that holds no turn, as one that is dropped.
pub open spec fn droppable() -> spec_fn(EffectEntryV) -> Option<EventPayloadV> {
    |e: EffectEntryV|
        match e.trigger() {
            Some(trigger) => if e.tracking.state == EffectStatus::Queued
                && trigger.deferred_turn_id() is None {
                Some(dropped(e.id))
            } else {
                None
            },
            None => None,
        }
}

pub open spec fn queued_only() -> spec_fn(EffectEntryV) -> Option<EffectEntryV> {
    |e: EffectEntryV|
        if e.kind() == EffectKind::Decision && e.tracking.state == EffectStatus::Queued {
            Some(e)
        } else {
            None
        }
}

/// A decision that is out with the worker, and whether a failure would end it.
pub open spec fn pending_only() -> spec_fn(EffectEntryV) -> Option<(Seq<char>, bool)> {
    |e: EffectEntryV|
        if e.kind() == EffectKind::Decision && e.tracking.state == EffectStatus::Pending {
            Some((e.id, e.tracking.ends(true)))
        } else {
            None
        }
}

/// Why a decision does not go out, though it is its turn.
pub enum DecisionPark {
    Interrupt(String),
    Turn(String),
}

impl SessionStateV {
    /// What holds a decision aside: an interrupt of its branch, or the turn
    /// that runs while it holds a turn of its own.
    pub open spec fn decision_park(self, trigger: TriggerV) -> Option<DepV> {
        match self.decision_stop(trigger) {
            Some(i) => Some(DepV::InterruptResumed { interrupt_id: i.interrupt_id }),
            None => match (trigger.deferred_turn_id(), self.phase.turn_id()) {
                (Some(_), Some(turn_id)) => Some(DepV::TurnSettled { turn_id }),
                _ => None,
            },
        }
    }

    pub open spec fn decision_parked(self, id: Seq<char>) -> Option<DepV> {
        match self.trigger(id) {
            Some(trigger) => self.decision_park(trigger),
            None => None,
        }
    }

    /// What a decision waits for: the decisions that keep it back, and the
    /// offers that the agent is owed.
    pub open spec fn decision_deps(self, id: Seq<char>) -> Seq<DepV> {
        collect(self.effects, kept_back_by(id)) + self.owed()
    }

    pub open spec fn turn_completed(self, turn_id: Seq<char>) -> bool {
        self.completed_turn_ids.contains(turn_id)
    }

    /// A decision goes out to the worker. One that holds a turn starts it; one
    /// whose turn is over, or that is gone, is dropped.
    pub open spec fn dispatch_decision(self, id: Seq<char>) -> Seq<EventPayloadV> {
        let out = EventPayloadV::DecisionDispatched(DecisionDispatchedV { id });
        match self.trigger(id) {
            None => seq![dropped(id)],
            Some(trigger) => match trigger.deferred_turn_id() {
                None => seq![out],
                Some(turn_id) => if self.turn_completed(turn_id) {
                    seq![dropped(id)]
                } else {
                    seq![EventPayloadV::TurnStarted(TurnStartedV { turn_id }), out]
                },
            },
        }
    }

    /// A decision fails. One that cannot be tried again ends the run, unless a
    /// client's action asked for it, which belongs to no turn.
    pub open spec fn fail_decision_events(self, id: Seq<char>, e: SettleErrorV) -> Seq<
        EventPayloadV,
    > {
        match self.tracking(EffectKind::Decision, id) {
            None => Seq::empty(),
            Some(t) => seq![
                EventPayloadV::DecisionErrored(
                    DecisionErroredV { id, error: e.error, retryable: e.retryable },
                ),
            ] + (if t.ends(e.retryable) {
                self.end_by_decision(id, e)
            } else {
                Seq::empty()
            }),
        }
    }

    pub open spec fn end_by_decision(self, id: Seq<char>, e: SettleErrorV) -> Seq<EventPayloadV> {
        match self.trigger(id) {
            Some(TriggerV::ClientAction { .. }) => Seq::empty(),
            _ => self.fail_run(e.error),
        }
    }

    pub open spec fn settle_decision(self, id: Seq<char>, outcome: OutcomeV) -> Seq<EventPayloadV> {
        match outcome {
            OutcomeV::Error(e) => self.fail_decision_events(id, e),
            _ => Seq::empty(),
        }
    }

    /// The queued decisions, without those that hold a turn, dropped.
    pub open spec fn drop_queued_decisions(self) -> Seq<EventPayloadV> {
        collect(self.effects, droppable())
    }

    pub open spec fn queued_decisions(self) -> Seq<EffectEntryV> {
        collect(self.effects, queued_only())
    }

    pub open spec fn pending_decisions(self) -> Seq<(Seq<char>, bool)> {
        collect(self.effects, pending_only())
    }
}

/// Whether an outcome of a decision is taken: only while it is out.
pub open spec fn taken(tracking: Option<EffectTracking>) -> Settle {
    match tracking {
        Some(t) => if t.state == EffectStatus::Pending {
            Settle::Live
        } else {
            Settle::Drop
        },
        None => Settle::Drop,
    }
}

pub fn resolve_pending(tracking: Option<EffectTracking>) -> (r: Settle)
    ensures
        r == taken(tracking),
{
    match tracking {
        Some(t) => if t.state == EffectStatus::Pending {
            Settle::Live
        } else {
            Settle::Drop
        },
        None => Settle::Drop,
    }
}

impl DecisionSpec {
    pub fn kind(&self) -> (r: EffectKind)
        ensures
            r == EffectKind::Decision,
    {
        EffectKind::Decision
    }

    pub fn authorize(&self, _state: &SessionState, _id: &str, caller: &Caller) -> (r: Result<
        (),
        SessionError,
    >)
        ensures
            r.v() == crate::session::authorize::allowed(caller.v().is_worker_or_system()),
    {
        SessionState::ensure_worker_or_system(caller)
    }

    pub fn resolve(
        &self,
        state: &SessionState,
        id: &str,
        _attempt: Option<u32>,
        _caller: &Caller,
    ) -> (r: Result<Settle, SessionError>)
        ensures
            r == Ok::<Settle, SessionError>(taken(state.v().tracking(EffectKind::Decision, id@))),
    {
        Ok(resolve_pending(state.tracking(EffectKind::Decision, id)))
    }

    pub fn settle(&self, state: &SessionState, id: &str, outcome: Outcome) -> (r: Vec<EventPayload>)
        ensures
            r.v() == state.v().settle_decision(id@, outcome.v()),
    {
        match outcome {
            Outcome::Error(e) => match state.tracking(EffectKind::Decision, id) {
                None => crate::model::none(),
                Some(t) => {
                    let mut events = one(self.errored(state, id, &e));
                    if t.is_terminal_failure(e.retryable) {
                        extend(&mut events, self.terminal(state, id, &e));
                    } else {
                        assert(events.v() =~= events.v() + Seq::<EventPayloadV>::empty());
                    }
                    events
                },
            },
            _ => crate::model::none(),
        }
    }

    pub fn errored(&self, _state: &SessionState, id: &str, e: &SettleError) -> (r: EventPayload)
        ensures
            r.v() == EventPayloadV::DecisionErrored(
                DecisionErroredV { id: id@, error: e.v().error, retryable: e.v().retryable },
            ),
    {
        EventPayload::DecisionErrored(
            DecisionErrored { id: id.to_owned(), error: e.error.dup(), retryable: e.retryable },
        )
    }

    pub fn terminal(&self, state: &SessionState, id: &str, e: &SettleError) -> (r: Vec<EventPayload>)
        ensures
            r.v() == state.v().end_by_decision(id@, e.v()),
    {
        let turnless = match state.worker_decision(id) {
            Some(d) => match &d.trigger {
                Trigger::ClientAction { .. } => true,
                _ => false,
            },
            None => false,
        };
        if turnless {
            return crate::model::none();
        }
        state.fail_run(&e.error)
    }

    pub fn requeues_on_retry(&self) -> (r: bool)
        ensures
            !r,
    {
        false
    }

    pub fn voids_when_missing(&self) -> (r: bool)
        ensures
            !r,
    {
        false
    }

    pub fn park(&self, state: &SessionState, id: &str) -> (r: Option<Dep>)
        ensures
            r.v() == state.v().decision_parked(id@),
    {
        match state.worker_decision(id) {
            Some(d) => match state.decision_park(&d.trigger) {
                Some(DecisionPark::Interrupt(interrupt_id)) => Some(
                    Dep::InterruptResumed { interrupt_id },
                ),
                Some(DecisionPark::Turn(turn_id)) => Some(Dep::TurnSettled { turn_id }),
                None => None,
            },
            None => None,
        }
    }

    /// What a decision waits for, in the order of the labels.
    pub fn deps(&self, state: &SessionState, entry: &QueueEntry) -> (r: Vec<Dep>)
        ensures
            in_order(r.v()),
            same_deps(r.v(), state.v().decision_deps(entry.id@)),
    {
        let mut deps: Vec<Dep> = crate::model::none();
        let mut i: usize = 0;
        let ghost all = state.v().effects;
        assert(all.take(0) =~= Seq::empty());
        while i < state.effects.len()
            invariant
                i <= state.effects@.len(),
                all == state.v().effects,
                deps.v() == collect(all.take(i as int), kept_back_by(entry.id@)),
            decreases state.effects@.len() - i,
        {
            proof {
                lemma_collect_step(all, kept_back_by(entry.id@), i as int);
            }
            let e = &state.effects[i];
            assert(all[i as int] == e.v());
            let back = match e.decision() {
                Some(d) => {
                    let start = match &d.trigger {
                        Trigger::SessionStart => true,
                        _ => false,
                    };
                    e.tracking.state == EffectStatus::Pending || (start && e.tracking.state
                        == EffectStatus::RetryScheduled && !text::eq(
                        e.id.as_str(),
                        entry.id.as_str(),
                    ))
                },
                None => false,
            };
            if back {
                append_one(&mut deps, Dep::DecisionSettled { decision_id: e.id.dup() });
            }
            i = i + 1;
        }
        assert(all.take(i as int) =~= all);
        extend(&mut deps, connector::owed(state));
        sorted(&deps)
    }

    pub fn dispatch(&self, state: &SessionState, id: &str) -> (r: Vec<EventPayload>)
        ensures
            r.v() == state.v().dispatch_decision(id@),
    {
        let mut events: Vec<EventPayload> = crate::model::none();
        match state.worker_decision(id) {
            None => {
                return one(EventPayload::DecisionDropped(DecisionDropped { id: id.to_owned() }));
            },
            Some(decision) => match decision.trigger.deferred_turn_id() {
                Some(turn_id) => {
                    if state.has_completed(turn_id) {
                        return one(
                            EventPayload::DecisionDropped(DecisionDropped { id: id.to_owned() }),
                        );
                    }
                    append_one(
                        &mut events,
                        EventPayload::TurnStarted(TurnStarted { turn_id: turn_id.to_owned() }),
                    );
                },
                None => {},
            },
        }
        append_one(
            &mut events,
            EventPayload::DecisionDispatched(DecisionDispatched { id: id.to_owned() }),
        );
        assert(events.v() =~= state.v().dispatch_decision(id@));
        events
    }
}

impl SessionState {
    /// What holds a decision aside.
    pub fn decision_park(&self, trigger: &Trigger) -> (r: Option<DecisionPark>)
        ensures
            (match r {
                Some(DecisionPark::Interrupt(id)) => Some(
                    DepV::InterruptResumed { interrupt_id: id@ },
                ),
                Some(DecisionPark::Turn(id)) => Some(DepV::TurnSettled { turn_id: id@ }),
                None => None,
            }) == self.v().decision_park(trigger.v()),
    {
        match self.decision_stop(trigger) {
            Some(i) => Some(DecisionPark::Interrupt(i.interrupt_id.dup())),
            None => match (trigger.deferred_turn_id(), self.phase.turn_id()) {
                (Some(_), Some(turn_id)) => Some(DecisionPark::Turn(turn_id.to_owned())),
                _ => None,
            },
        }
    }

    /// Whether a turn is over.
    pub fn has_completed(&self, turn_id: &str) -> (r: bool)
        ensures
            r == self.v().turn_completed(turn_id@),
    {
        let mut i: usize = 0;
        while i < self.completed_turn_ids.len()
            invariant
                i <= self.completed_turn_ids@.len(),
                forall|j: int| 0 <= j < i ==> self.v().completed_turn_ids[j] != turn_id@,
            decreases self.completed_turn_ids@.len() - i,
        {
            if text::eq(self.completed_turn_ids[i].as_str(), turn_id) {
                assert(self.v().completed_turn_ids[i as int] == turn_id@);
                return true;
            }
            i = i + 1;
        }
        false
    }

    /// The decisions that wait.
    pub fn queued_decisions(&self) -> (r: Vec<&EffectEntry>)
        ensures
            seen(r@) == self.v().queued_decisions(),
    {
        let mut out: Vec<&EffectEntry> = Vec::new();
        let mut i: usize = 0;
        let ghost all = self.v().effects;
        assert(all.take(0) =~= Seq::empty());
        assert(seen(out@) =~= Seq::empty());
        while i < self.effects.len()
            invariant
                i <= self.effects@.len(),
                all == self.v().effects,
                seen(out@) == collect(all.take(i as int), queued_only()),
            decreases self.effects@.len() - i,
        {
            proof {
                lemma_collect_step(all, queued_only(), i as int);
            }
            let e = &self.effects[i];
            assert(all[i as int] == e.v());
            if e.kind() == EffectKind::Decision && e.tracking.state == EffectStatus::Queued {
                crate::model::append_ref(&mut out, e);
            }
            i = i + 1;
        }
        assert(all.take(i as int) =~= all);
        out
    }

    /// Drops the decisions that wait, but for those that hold a turn.
    pub fn drop_queued_decisions(&self) -> (r: Vec<EventPayload>)
        ensures
            r.v() == self.v().drop_queued_decisions(),
    {
        let mut out: Vec<EventPayload> = crate::model::none();
        let mut i: usize = 0;
        let ghost all = self.v().effects;
        assert(all.take(0) =~= Seq::empty());
        while i < self.effects.len()
            invariant
                i <= self.effects@.len(),
                all == self.v().effects,
                out.v() == collect(all.take(i as int), droppable()),
            decreases self.effects@.len() - i,
        {
            proof {
                lemma_collect_step(all, droppable(), i as int);
            }
            let e = &self.effects[i];
            assert(all[i as int] == e.v());
            match e.decision() {
                Some(d) => {
                    if e.tracking.state == EffectStatus::Queued
                        && d.trigger.deferred_turn_id().is_none() {
                        append_one(
                            &mut out,
                            EventPayload::DecisionDropped(DecisionDropped { id: e.id.dup() }),
                        );
                    }
                },
                None => {},
            }
            i = i + 1;
        }
        assert(all.take(i as int) =~= all);
        out
    }

    /// The decisions that are out with the worker, each with whether a failure
    /// would end it.
    pub fn pending_decisions(&self) -> (r: Vec<(String, bool)>)
        ensures
            r@.len() == self.v().pending_decisions().len(),
            forall|i: int|
                0 <= i < r@.len() ==> (r@[i].0@, (#[trigger] r@[i]).1)
                    == self.v().pending_decisions()[i],
    {
        let mut out: Vec<(String, bool)> = Vec::new();
        let mut i: usize = 0;
        let ghost all = self.v().effects;
        assert(all.take(0) =~= Seq::empty());
        while i < self.effects.len()
            invariant
                i <= self.effects@.len(),
                all == self.v().effects,
                out@.len() == collect(all.take(i as int), pending_only()).len(),
                forall|j: int|
                    0 <= j < out@.len() ==> (out@[j].0@, (#[trigger] out@[j]).1) == collect(
                        all.take(i as int),
                        pending_only(),
                    )[j],
            decreases self.effects@.len() - i,
        {
            proof {
                lemma_collect_step(all, pending_only(), i as int);
            }
            let e = &self.effects[i];
            assert(all[i as int] == e.v());
            if e.kind() == EffectKind::Decision && e.tracking.state == EffectStatus::Pending {
                out.push((e.id.dup(), e.tracking.is_terminal_failure(true)));
            }
            i = i + 1;
        }
        assert(all.take(i as int) =~= all);
        out
    }

    /// Whether a decision is out with the worker.
    pub fn has_pending_worker_decision(&self) -> (r: bool)
        ensures
            r == (self.v().pending_decisions().len() > 0),
    {
        self.pending_decisions().len() > 0
    }

    /// Whether a decision waits.
    pub fn has_queued_worker_decision(&self) -> (r: bool)
        ensures
            r == (self.v().queued_decisions().len() > 0),
    {
        let queued = self.queued_decisions();
        assert(seen(queued@).len() == queued@.len());
        queued.len() > 0
    }
}

} // verus!
