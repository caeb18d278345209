//! How a session stops, goes on, and ends.
use crate::model::{append_one, as_text, collect, lemma_collect_step, text_of, Model};
use crate::protocol::effect::{EffectKind, EffectStatus};
use crate::protocol::identity::InterruptOrigin;
use crate::protocol::json::{Json, JsonV};
use crate::session::caller::{Caller, CallerV};
use crate::session::decision::{Trigger, TriggerV};
use crate::session::effects;
use crate::session::effects::voids_when_running;
use crate::session::error::SessionError;
use crate::session::events::{
    CallVoided, CallVoidedV, EventPayload, EventPayloadV, InterruptResumed, InterruptResumedV,
    SessionInterrupted, SessionInterruptedV,
};
use crate::session::run::Ran;
use crate::session::state::{
    EffectEntryV, EffectTracking, SessionState, SessionStateV, SessionStatus,
};
use crate::session::working::{Working, WorkingV};
use vstd::prelude::*;

verus! {

/// What a cancelled session gives up: what is open, and what runs elsewhere
/// for it.
pub open spec fn given_up() -> spec_fn(EffectKind, EffectTracking, Option<Seq<char>>) -> bool {
    |kind: EffectKind, tracking: EffectTracking, anchor: Option<Seq<char>>|
        tracking.open() || (tracking.state == EffectStatus::Running && voids_when_running(kind))
}

impl SessionStateV {
    /// The calls to a model that an interrupt at a node takes back.
    pub open spec fn interrupted_call(self, node: Option<Seq<char>>) -> spec_fn(
        EffectEntryV,
    ) -> Option<EventPayloadV> {
        |e: EffectEntryV|
            if e.kind() == EffectKind::LlmCall && (e.tracking.state == EffectStatus::Queued
                || e.tracking.state == EffectStatus::Pending) && self.on_path(node, e.anchor) {
                Some(
                    EventPayloadV::CallVoided(
                        CallVoidedV { kind: EffectKind::LlmCall, id: e.id },
                    ),
                )
            } else {
                None
            }
    }
}

impl WorkingV {
    /// The session stops where it stands, unless it does already. Calls to a
    /// model on that branch are taken back.
    #[verifier::opaque]
    pub open spec fn raise_interrupt(
        self,
        origin: InterruptOrigin,
        interrupt_id: Seq<char>,
        reason: Seq<char>,
        payload: JsonV,
    ) -> WorkingV {
        if self.state.head_parked() {
            self
        } else {
            let anchor = self.state.head_id;
            let stopped = self.emit(
                EventPayloadV::SessionInterrupted(
                    SessionInterruptedV { interrupt_id, origin, reason, payload, anchor },
                ),
            );
            stopped.emit_all(
                collect(stopped.state.effects, stopped.state.interrupted_call(anchor)),
            )
        }
    }

    /// An interrupt is resumed by a caller who ranks as high as whoever raised
    /// it. The worker is told where it stopped the conversation.
    #[verifier::opaque]
    pub open spec fn resume_interrupt(
        self,
        interrupt_id: Seq<char>,
        payload: JsonV,
        caller: CallerV,
    ) -> Ran {
        if !self.state.owned_by(caller) {
            self.denied()
        } else {
            match self.state.open_interrupt(interrupt_id) {
                None => self.fine(),
                Some(open) => if caller.origin().rank() < open.origin.rank() {
                    self.denied()
                } else {
                    let resumed = self.emit(
                        EventPayloadV::InterruptResumed(
                            InterruptResumedV { interrupt_id, payload },
                        ),
                    );
                    if self.state.on_path(self.state.head_id, open.anchor) {
                        resumed.ask(TriggerV::InterruptResumed { interrupt_id, payload }).fine()
                    } else {
                        resumed.fine()
                    }
                },
            }
        }
    }

    /// The session is over, unless it is already.
    #[verifier::opaque]
    pub open spec fn cancel(self, caller: CallerV) -> Ran {
        if !caller.is_operator_or_system() {
            self.denied()
        } else if self.state.status is Done {
            self.fine()
        } else {
            let cancelled = self.emit(EventPayloadV::SessionCancelled);
            cancelled.emit_all(cancelled.state.void_effects(given_up())).fine()
        }
    }
}

impl SessionState {
    pub(crate) fn interrupted_calls(&self, node: Option<&str>) -> (r: Vec<EventPayload>)
        ensures
            r.v() == collect(self.v().effects, self.v().interrupted_call(text_of(node))),
    {
        let mut out: Vec<EventPayload> = crate::model::none();
        let mut i: usize = 0;
        let ghost all = self.v().effects;
        let ghost takes = self.v().interrupted_call(text_of(node));
        assert(all.take(0) =~= Seq::empty());
        while i < self.effects.len()
            invariant
                i <= self.effects@.len(),
                all == self.v().effects,
                takes == self.v().interrupted_call(text_of(node)),
                out.v() == collect(all.take(i as int), takes),
            decreases self.effects@.len() - i,
        {
            proof {
                lemma_collect_step(all, takes, i as int);
            }
            let e = &self.effects[i];
            assert(all[i as int] == e.v());
            if e.kind() == EffectKind::LlmCall && (e.tracking.state == EffectStatus::Queued
                || e.tracking.state == EffectStatus::Pending) && self.at(node).anchor_on_path(
                as_text(&e.anchor),
            ) {
                append_one(
                    &mut out,
                    EventPayload::CallVoided(
                        CallVoided { kind: EffectKind::LlmCall, id: e.id.dup() },
                    ),
                );
            }
            i = i + 1;
        }
        assert(all.take(i as int) =~= all);
        out
    }
}

impl Working {
    pub(crate) fn raise_interrupt(
        &mut self,
        origin: InterruptOrigin,
        interrupt_id: String,
        reason: String,
        payload: Json,
    )
        ensures
            final(self).v() == old(self).v().raise_interrupt(
                origin,
                interrupt_id@,
                reason@,
                payload.v(),
            ),
    {
        proof {
            reveal(WorkingV::raise_interrupt);
        }
        if self.state.head_parked() {
            return;
        }
        let anchor = self.state.head_id.dup();
        self.emit(
            EventPayload::SessionInterrupted(
                SessionInterrupted { interrupt_id, origin, reason, payload, anchor: anchor.dup() },
            ),
        );
        self.void_llm_calls_for_interrupt(anchor);
    }

    pub(crate) fn void_llm_calls_for_interrupt(&mut self, node: Option<String>)
        ensures
            final(self).v() == old(self).v().emit_all(
                collect(
                    old(self).v().state.effects,
                    old(self).v().state.interrupted_call(node.v()),
                ),
            ),
    {
        let events = self.state.interrupted_calls(as_text(&node));
        self.emit_all(events);
    }

    pub(crate) fn resume_interrupt(&mut self, interrupt_id: String, payload: Json, caller: &Caller) -> (r:
        Result<(), SessionError>)
        ensures
            (Ran { w: final(self).v(), r: r.v() }) == old(self).v().resume_interrupt(
                interrupt_id@,
                payload.v(),
                caller.v(),
            ),
    {
        proof {
            reveal(WorkingV::resume_interrupt);
        }
        match self.state.ensure_owns_session(caller) {
            Err(e) => {
                return Err(e);
            },
            Ok(_) => {},
        }
        let parked_head = match self.state.open_interrupt(&interrupt_id) {
            None => {
                return Ok(());
            },
            Some(open) => {
                if SessionState::caller_interrupt_origin(caller).privilege()
                    < open.origin.privilege() {
                    return Err(SessionError::SessionAccessDenied);
                }
                self.state.at_head().anchor_on_path(as_text(&open.anchor))
            },
        };
        self.emit(
            EventPayload::InterruptResumed(
                InterruptResumed { interrupt_id: interrupt_id.dup(), payload: payload.dup() },
            ),
        );
        if parked_head {
            let _ = self.queue_decision(Trigger::InterruptResumed { interrupt_id, payload });
        }
        Ok(())
    }

    pub(crate) fn cancel(&mut self, caller: &Caller) -> (r: Result<(), SessionError>)
        ensures
            (Ran { w: final(self).v(), r: r.v() }) == old(self).v().cancel(caller.v()),
    {
        proof {
            reveal(WorkingV::cancel);
        }
        match SessionState::ensure_operator_or_system(caller) {
            Err(e) => {
                return Err(e);
            },
            Ok(_) => {},
        }
        match self.state.status {
            SessionStatus::Done => {
                return Ok(());
            },
            _ => {},
        }
        self.emit(EventPayload::SessionCancelled);
        let stranded = |kind: EffectKind, tracking: &EffectTracking, anchor: Option<&str>| -> (r:
            bool)
            ensures
                r == (tracking.open() || (tracking.state == EffectStatus::Running
                    && voids_when_running(kind))),
            {
                tracking.is_open() || (tracking.state == EffectStatus::Running && kind
                    == EffectKind::Subagent)
            };
        let events = self.state.void_effects(stranded, Ghost(given_up()));
        self.emit_all(events);
        Ok(())
    }
}

} // verus!
