//! How turns start.
use crate::model::{any, one, Model};
use crate::protocol::config::{ClientContext, ClientContextV};
use crate::protocol::message::{DraftMessage, DraftMessageV, Role};
use crate::protocol::wire::{ClientPayload, ClientPayloadV};
use crate::session::caller::{Caller, CallerV};
use crate::session::command::{TurnTarget, TurnTargetV};
use crate::session::decision::{Trigger, TriggerV};
use crate::session::error::{SessionError, SessionErrorV};
use crate::session::events::{EventPayload, EventPayloadV, TurnStarted, TurnStartedV};
use crate::session::run::Ran;
use crate::session::state::{EffectEntryV, SessionState, SessionStateV, TurnPhase, TurnPhaseV};
use crate::session::working::{Working, WorkingV};
use crate::text;
use vstd::prelude::*;

verus! {

/// A client's message waits for its turn; its view and its actions do not.
pub open spec fn can_wait(payload: ClientPayloadV) -> bool {
    payload is Message || payload is Append
}

pub open spec fn holds_turn(turn_id: Seq<char>) -> spec_fn(EffectEntryV) -> bool {
    |e: EffectEntryV| e.trigger() is Some && e.trigger()->0.deferred_turn_id() == Some(turn_id)
}

impl SessionStateV {
    /// Why a turn cannot start: it ran before, it runs, or it waits to run.
    #[verifier::opaque]
    pub open spec fn turn_taken(self, turn_id: Seq<char>) -> Option<SessionErrorV> {
        if self.turn_completed(turn_id) {
            Some(SessionErrorV::TurnAlreadyCompleted { turn_id })
        } else if self.phase.turn_id() == Some(turn_id) || any(
            self.queued_decisions(),
            holds_turn(turn_id),
        ) {
            Some(SessionErrorV::TurnAlreadyActive { turn_id })
        } else {
            None
        }
    }

    /// The turn an input holds until the one that runs is over.
    #[verifier::opaque]
    pub open spec fn deferred_turn(
        self,
        target: TurnTargetV,
        queue: bool,
        payload: ClientPayloadV,
    ) -> Result<Option<Seq<char>>, SessionErrorV> {
        match target {
            TurnTargetV::Open(turn_id) => if queue && can_wait(payload) && self.phase.turn_id()
                is Some {
                match self.turn_taken(turn_id) {
                    Some(e) => Err(e),
                    None => Ok(Some(turn_id)),
                }
            } else {
                Ok(None)
            },
            _ => Ok(None),
        }
    }
}

impl WorkingV {
    /// A turn starts. One that is being finished ends first; one that runs is
    /// in the way.
    #[verifier::opaque]
    pub open spec fn begin_turn(self, target: TurnTargetV) -> Ran {
        match target {
            TurnTargetV::Detached => self.fine(),
            TurnTargetV::Continue(turn_id) => if self.state.phase is Active {
                self.fine()
            } else {
                self.open_turn(turn_id)
            },
            TurnTargetV::Open(turn_id) => self.open_turn(turn_id),
        }
    }

    pub open spec fn open_turn(self, turn_id: Seq<char>) -> Ran {
        let started = EventPayloadV::TurnStarted(TurnStartedV { turn_id });
        match self.state.turn_taken(turn_id) {
            Some(e) => self.refused(e),
            None => match self.state.phase {
                TurnPhaseV::Active { turn_id: active } => self.refused(
                    SessionErrorV::TurnAlreadyActive { turn_id: active },
                ),
                TurnPhaseV::Finalizing(_) => self.emit_all(self.state.finalize_run(None)).emit(
                    started,
                ).fine(),
                TurnPhaseV::Idle => self.emit(started).fine(),
            },
        }
    }

    /// A client submits.
    #[verifier::opaque]
    pub open spec fn submit(
        self,
        payload: ClientPayloadV,
        turn: TurnTargetV,
        queue: bool,
        caller: CallerV,
    ) -> Ran {
        if !self.state.owned_by(caller) {
            self.denied()
        } else {
            match self.state.deferred_turn(turn, queue, payload) {
                Err(e) => self.refused(e),
                Ok(deferred) => {
                    let begun = if deferred is None {
                        self.begin_turn(turn)
                    } else {
                        self.fine()
                    };
                    match begun.r {
                        Err(_) => begun,
                        Ok(_) => match begun.w.state.client_payload(
                            payload,
                            caller,
                            deferred,
                            begun.w.ids,
                        ) {
                            Err(e) => begun.w.refused(e),
                            Ok(batch) => begun.w.emit_batch(batch).fine(),
                        },
                    }
                },
            }
        }
    }

    /// A message is sent by the engine.
    #[verifier::opaque]
    pub open spec fn send(
        self,
        message: DraftMessageV,
        turn_id: Option<Seq<char>>,
        caller: CallerV,
    ) -> Ran {
        if !(caller is System) {
            self.denied()
        } else if self.state.head_parked() && message.role == Role::User {
            self.refused(SessionErrorV::SessionInterrupted)
        } else {
            let begun = self.begin_turn(
                match turn_id {
                    Some(turn_id) => TurnTargetV::Open(turn_id),
                    None => TurnTargetV::Detached,
                },
            );
            if begun.r is Ok && message.role == Role::User {
                begun.w.ask(
                    TriggerV::ClientMessage {
                        messages: seq![message],
                        client: ClientContextV::empty(),
                        turn_id: None,
                    },
                ).fine()
            } else {
                begun
            }
        }
    }
}

impl SessionState {
    pub(crate) fn holds_queued_turn(&self, turn_id: &str) -> (r: bool)
        ensures
            r == any(self.v().queued_decisions(), holds_turn(turn_id@)),
    {
        let queued = self.queued_decisions();
        let ghost all = self.v().queued_decisions();
        let mut i: usize = 0;
        while i < queued.len()
            invariant
                i <= queued@.len(),
                all == self.v().queued_decisions(),
                crate::model::seen(queued@) == all,
                forall|j: int| 0 <= j < i ==> !holds_turn(turn_id@)(#[trigger] all[j]),
            decreases queued@.len() - i,
        {
            let e = queued[i];
            assert(all[i as int] == e.v());
            let found = match e.decision() {
                Some(d) => match d.trigger.deferred_turn_id() {
                    Some(held) => text::eq(held, turn_id),
                    None => false,
                },
                None => false,
            };
            if found {
                assert(holds_turn(turn_id@)(all[i as int]));
                return true;
            }
            i = i + 1;
        }
        assert(all.len() == queued@.len());
        false
    }

    /// Whether a turn cannot start: it ran before, it runs, or it waits to run.
    pub fn turn_taken(&self, turn_id: &str) -> (r: Result<(), SessionError>)
        ensures
            r.v() == (match self.v().turn_taken(turn_id@) {
                Some(e) => Err::<(), SessionErrorV>(e),
                None => Ok(()),
            }),
    {
        proof {
            reveal(SessionStateV::turn_taken);
        }
        if self.has_completed(turn_id) {
            return Err(SessionError::TurnAlreadyCompleted { turn_id: turn_id.to_owned() });
        }
        let running = match self.phase.turn_id() {
            Some(running) => text::eq(running, turn_id),
            None => false,
        };
        if running || self.holds_queued_turn(turn_id) {
            return Err(SessionError::TurnAlreadyActive { turn_id: turn_id.to_owned() });
        }
        Ok(())
    }

    /// The turn an input holds until the one that runs is over.
    pub fn deferred_turn(&self, target: &TurnTarget, queue: bool, payload: &ClientPayload) -> (r:
        Result<Option<String>, SessionError>)
        ensures
            r.v() == self.v().deferred_turn(target.v(), queue, payload.v()),
    {
        proof {
            reveal(SessionStateV::deferred_turn);
        }
        let deferrable = queue && match payload {
            ClientPayload::Message(_) => true,
            ClientPayload::Append(_) => true,
            _ => false,
        };
        match target {
            TurnTarget::Open(turn_id) => {
                if !deferrable || self.phase.turn_id().is_none() {
                    return Ok(None);
                }
                match self.turn_taken(turn_id) {
                    Ok(_) => Ok(Some(turn_id.dup())),
                    Err(e) => Err(e),
                }
            },
            _ => Ok(None),
        }
    }
}

impl Working {
    pub(crate) fn begin_turn(&mut self, target: TurnTarget) -> (r: Result<(), SessionError>)
        ensures
            (Ran { w: final(self).v(), r: r.v() }) == old(self).v().begin_turn(target.v()),
    {
        proof {
            reveal(WorkingV::begin_turn);
        }
        let turn_id = match target {
            TurnTarget::Detached => {
                return Ok(());
            },
            TurnTarget::Continue(id) => {
                if self.state.phase.is_active() {
                    return Ok(());
                }
                id
            },
            TurnTarget::Open(id) => id,
        };
        match self.state.turn_taken(&turn_id) {
            Err(e) => {
                return Err(e);
            },
            Ok(_) => {},
        }
        match &self.state.phase {
            TurnPhase::Active { turn_id: active } => {
                return Err(SessionError::TurnAlreadyActive { turn_id: active.dup() });
            },
            TurnPhase::Finalizing(_) => {
                let events = self.state.finalize_run(None);
                self.emit_all(events);
            },
            TurnPhase::Idle => {},
        }
        self.emit(EventPayload::TurnStarted(TurnStarted { turn_id }));
        Ok(())
    }

    pub(crate) fn submit(&mut self, payload: ClientPayload, turn: TurnTarget, queue: bool, caller: &Caller) -> (r:
        Result<(), SessionError>)
        ensures
            (Ran { w: final(self).v(), r: r.v() }) == old(self).v().submit(
                payload.v(),
                turn.v(),
                queue,
                caller.v(),
            ),
    {
        proof {
            reveal(WorkingV::submit);
        }
        match self.state.ensure_owns_session(caller) {
            Err(e) => {
                return Err(e);
            },
            Ok(_) => {},
        }
        let deferred = match self.state.deferred_turn(&turn, queue, &payload) {
            Err(e) => {
                return Err(e);
            },
            Ok(deferred) => deferred,
        };
        if deferred.is_none() {
            match self.begin_turn(turn) {
                Err(e) => {
                    return Err(e);
                },
                Ok(_) => {},
            }
        }
        match self.state.client_payload_events(payload, caller, deferred, &mut self.ids) {
            Err(e) => Err(e),
            Ok(events) => {
                self.emit_all(events);
                Ok(())
            },
        }
    }

    pub(crate) fn send(&mut self, message: DraftMessage, turn_id: Option<String>, caller: &Caller) -> (r:
        Result<(), SessionError>)
        ensures
            (Ran { w: final(self).v(), r: r.v() }) == old(self).v().send(
                message.v(),
                turn_id.v(),
                caller.v(),
            ),
    {
        proof {
            reveal(WorkingV::send);
        }
        match SessionState::ensure_internal(caller) {
            Err(e) => {
                return Err(e);
            },
            Ok(_) => {},
        }
        if self.state.head_parked() && message.role == Role::User {
            return Err(SessionError::SessionInterrupted);
        }
        let target = match turn_id {
            Some(turn_id) => TurnTarget::Open(turn_id),
            None => TurnTarget::Detached,
        };
        match self.begin_turn(target) {
            Err(e) => {
                return Err(e);
            },
            Ok(_) => {},
        }
        if message.role == Role::User {
            let _ = self.queue_decision(
                Trigger::ClientMessage {
                    messages: one(message),
                    client: ClientContext::default(),
                    turn_id: None,
                },
            );
        }
        Ok(())
    }
}

} // verus!
