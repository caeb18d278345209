//! The end of a turn.
//!
//! ```text
//! Queued -dispatch-> (removed), emits turn.completed + session.done
//! ```
//!
//! Not work, and not tracked: a turn's end has no record in the effect table
//! and no deadline of its own. It is a kind because it queues, waits, and
//! dispatches like one: the queue is what orders it after the finalizer.
//!
//! Ending a turn takes two passes. `FinishTurn` queues `turn.finished` with the
//! turn's frozen output, which is what puts this entry in the queue; the turn
//! completes only once that finalizer settles. A `done` echo from the worker
//! emits `TurnCompleted` itself and removes the entry before the plan reaches
//! it; this entry covers a finalizer that settles any other way.
use crate::model::{append_one, extend, first, lemma_position, lemma_position_is, one, Model};
use crate::protocol::effect::EffectKind;
use crate::protocol::error::{ErrorInfo, ErrorInfoV};
use crate::protocol::json::{json_null, Json};
use crate::session::decision::{Trigger, TriggerV};
use crate::session::deps::{Dep, DepV};
use crate::session::events::{
    EventPayload, EventPayloadV, SessionDone, TurnCompleted, TurnCompletedV,
};
use crate::session::outcome::Outcome;
use crate::session::state::{
    EffectEntryV, EffectTracking, QueueEntry, SessionState, SessionStateV, TurnPhase, TurnPhaseV,
};
use crate::text;
use vstd::prelude::*;

verus! {

pub struct TurnEndSpec;

/// Whether a piece of work is the decision that ends a turn.
pub open spec fn finalizer_of(turn_id: Seq<char>) -> spec_fn(EffectEntryV) -> bool {
    |e: EffectEntryV|
        match e.trigger() {
            Some(TriggerV::TurnFinished { turn_id: t, .. }) => t == turn_id,
            _ => false,
        }
}

/// The end of a session's activity.
pub open spec fn done() -> EventPayloadV {
    EventPayloadV::SessionDone(SessionDone {  })
}

/// What runs: work that waits, is out, or is to be tried again.
pub open spec fn unsettled() -> spec_fn(EffectKind, EffectTracking, Option<Seq<char>>) -> bool {
    |kind: EffectKind, tracking: EffectTracking, anchor: Option<Seq<char>>| tracking.open()
}

impl SessionStateV {
    /// What a turn's end waits for: the first decision that finishes the turn.
    pub open spec fn turn_end_deps(self, turn_id: Seq<char>) -> Seq<DepV> {
        match first(self.effects, finalizer_of(turn_id)) {
            Some(e) => seq![DepV::DecisionSettled { decision_id: e.id }],
            None => Seq::empty(),
        }
    }

    /// The run terminal from the in-flight `finalizing` output: `TurnCompleted`
    /// (carrying `error` when the finalizer failed terminally) and
    /// `SessionDone`. A bare `SessionDone` if nothing is finalizing.
    #[verifier::opaque]
    pub open spec fn finalize_run(self, error: Option<ErrorInfoV>) -> Seq<EventPayloadV> {
        match self.phase {
            TurnPhaseV::Finalizing(f) => seq![
                EventPayloadV::TurnCompleted(
                    TurnCompletedV {
                        turn_id: f.turn_id,
                        data: f.data,
                        turn_cost: f.cost,
                        turn_token_usage: f.usage,
                        error,
                    },
                ),
                done(),
            ],
            _ => seq![done()],
        }
    }

    /// The end of a turn as a failed run: void what is in flight, drop what is
    /// queued, then report the failure against the turn that was running. A
    /// finalizer that fails reports it against the output already held, and
    /// where no turn runs there is none to end.
    #[verifier::opaque]
    pub open spec fn fail_run(self, error: ErrorInfoV) -> Seq<EventPayloadV> {
        let cleared = self.void_effects(unsettled()) + self.drop_queued_decisions();
        match self.phase {
            TurnPhaseV::Finalizing(_) => self.finalize_run(Some(error)),
            TurnPhaseV::Active { turn_id } => cleared + seq![
                EventPayloadV::TurnCompleted(
                    TurnCompletedV {
                        turn_id,
                        data: json_null(),
                        turn_cost: self.turn_cost,
                        turn_token_usage: self.turn_token_usage,
                        error: Some(error),
                    },
                ),
                done(),
            ],
            TurnPhaseV::Idle => cleared,
        }
    }
}

impl TurnEndSpec {
    pub fn kind(&self) -> (r: EffectKind)
        ensures
            r == EffectKind::TurnEnd,
    {
        EffectKind::TurnEnd
    }

    /// Never: there is no effect to settle, and no deadline to sweep.
    pub fn settle(&self, _state: &SessionState, _id: &str, _outcome: Outcome) -> (r: Vec<
        EventPayload,
    >)
        ensures
            r.v() == Seq::<EventPayloadV>::empty(),
    {
        crate::model::none()
    }

    /// A turn's end has no record of its own, so an entry for one is never
    /// inconsistent state.
    pub fn voids_when_missing(&self) -> (r: bool)
        ensures
            !r,
    {
        false
    }

    /// The turn completes when its `turn.finished` finalizer settles.
    pub fn deps(&self, state: &SessionState, entry: &QueueEntry) -> (r: Vec<Dep>)
        ensures
            r.v() == state.v().turn_end_deps(entry.id@),
    {
        let ghost all = state.v().effects;
        let ghost ends = finalizer_of(entry.id@);
        let mut i: usize = 0;
        while i < state.effects.len()
            invariant
                i <= state.effects@.len(),
                all == state.v().effects,
                ends == finalizer_of(entry.id@),
                forall|j: int| 0 <= j < i ==> !ends(#[trigger] all[j]),
            decreases state.effects@.len() - i,
        {
            let e = &state.effects[i];
            assert(all[i as int] == e.v());
            let found = match e.decision() {
                Some(d) => match &d.trigger {
                    Trigger::TurnFinished { turn_id, .. } => text::eq(
                        turn_id.as_str(),
                        entry.id.as_str(),
                    ),
                    _ => false,
                },
                None => false,
            };
            if found {
                proof {
                    lemma_position_is(all, ends, i as int);
                }
                return one(Dep::DecisionSettled { decision_id: e.id.dup() });
            }
            i = i + 1;
        }
        proof {
            lemma_position(all, ends);
        }
        crate::model::none()
    }

    pub fn dispatch(&self, state: &SessionState, _id: &str) -> (r: Vec<EventPayload>)
        ensures
            r.v() == state.v().finalize_run(None),
    {
        state.finalize_run(None)
    }
}

impl SessionState {
    /// The run terminal from the in-flight `finalizing` output.
    pub fn finalize_run(&self, error: Option<&ErrorInfo>) -> (r: Vec<EventPayload>)
        ensures
            r.v() == self.v().finalize_run(
                match error {
                    Some(error) => Some(error.v()),
                    None => None,
                },
            ),
    {
        proof {
            reveal(SessionStateV::finalize_run);
        }
        match self.phase.finalizing() {
            Some(f) => {
                let error = match error {
                    Some(error) => Some(error.dup()),
                    None => None,
                };
                let mut events = one(
                    EventPayload::TurnCompleted(
                        TurnCompleted {
                            turn_id: f.turn_id.dup(),
                            data: f.data.dup(),
                            turn_cost: f.cost,
                            turn_token_usage: f.usage.dup(),
                            error,
                        },
                    ),
                );
                append_one(&mut events, EventPayload::SessionDone(SessionDone {  }));
                assert(events.v() =~= seq![events.v()[0], done()]);
                events
            },
            None => one(EventPayload::SessionDone(SessionDone {  })),
        }
    }

    /// End the turn as a failed run.
    pub fn fail_run(&self, error: &ErrorInfo) -> (r: Vec<EventPayload>)
        ensures
            r.v() == self.v().fail_run(error.v()),
    {
        proof {
            reveal(SessionStateV::fail_run);
        }
        // The finalizer itself failed: the frozen output is already held, and
        // `finalize_run` reports it against the turn that produced it.
        if self.phase.finalizing().is_some() {
            return self.finalize_run(Some(error));
        }
        let stranded = |kind: EffectKind, tracking: &EffectTracking, anchor: Option<&str>| -> (r:
            bool)
            ensures
                r == tracking.open(),
            { tracking.is_open() };
        let mut events = self.void_effects(stranded, Ghost(unsettled()));
        extend(&mut events, self.drop_queued_decisions());
        // No turn to end: a `session.start` that failed before any client
        // input. The decision's error event is the whole record. A completed
        // turn is `Idle` and a finalizing one returned above, so `Active` is
        // exactly the case that still owes a terminal.
        match &self.phase {
            TurnPhase::Active { turn_id } => {
                let ghost cleared = events.v();
                append_one(
                    &mut events,
                    EventPayload::TurnCompleted(
                        TurnCompleted {
                            turn_id: turn_id.dup(),
                            data: Json::null(),
                            turn_cost: self.turn_cost,
                            turn_token_usage: self.turn_token_usage.dup(),
                            error: Some(error.dup()),
                        },
                    ),
                );
                append_one(&mut events, EventPayload::SessionDone(SessionDone {  }));
                assert(events.v() =~= self.v().fail_run(error.v()));
                events
            },
            _ => events,
        }
    }
}

} // verus!
