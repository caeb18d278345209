//! What a worker decides to do.
use crate::model::{any, one, Model, Same};
use crate::protocol::config::{BoundServerV, ConnectionPath, ConnectionPathV};
use crate::protocol::effect::{EffectKind, RetryPolicy};
use crate::protocol::identity::InterruptOrigin;
use crate::session::caller::{Caller, CallerV};
use crate::session::command::{CommandPayload, CommandPayloadV};
use crate::session::decision::{Action, ActionV};
use crate::session::events::{
    ConnectorSyncRequested, ConnectorSyncRequestedV, EventPayload, EventPayloadV,
    SessionMessageRequested, SessionMessageRequestedV,
};
use crate::session::retry::RetryTarget;
use crate::session::state::{SessionState, SessionStateV};
use crate::session::working::{Working, WorkingV};
use vstd::prelude::*;

verus! {

pub open spec fn at_path(path: ConnectionPathV) -> spec_fn(BoundServerV) -> bool {
    |server: BoundServerV| server.path == path
}

impl SessionStateV {
    /// Whether the worker may resume an interrupt.
    pub open spec fn worker_may_resume(self, id: Seq<char>) -> bool {
        match self.open_interrupt(id) {
            Some(open) => InterruptOrigin::Machine.rank() >= open.origin.rank(),
            None => true,
        }
    }

    /// Whether a connection can be fetched again: the agent reaches it, and the
    /// last fetch is over.
    #[verifier::opaque]
    pub open spec fn may_fetch_again(self, path: ConnectionPathV) -> bool {
        any(self.head_servers(), at_path(path)) && match self.tracking(
            EffectKind::ConnectorSync,
            path.written(),
        ) {
            Some(t) => !t.in_flight(),
            None => false,
        }
    }

    /// The engine, for this session.
    pub open spec fn engine(self) -> CallerV {
        CallerV::System {
            tenant_id: match self.owner {
                Some(owner) => owner.tenant_id,
                None => Seq::empty(),
            },
        }
    }
}

impl WorkingV {
    /// One action of a worker. An action that is refused is passed over.
    #[verifier::opaque]
    pub open spec fn apply_action(
        self,
        action: ActionV,
        decision_id: Seq<char>,
        engine: CallerV,
    ) -> WorkingV {
        match action {
            ActionV::SendMessage { session_id, message } => self.emit(
                EventPayloadV::SessionMessageRequested(
                    SessionMessageRequestedV { target_session_id: session_id, message },
                ),
            ),
            ActionV::Interrupt { interrupt_id, reason, payload } => self.raise_interrupt(
                InterruptOrigin::Frontend,
                interrupt_id,
                reason,
                payload,
            ),
            ActionV::ResolveInterrupt { interrupt_id, payload } => if self.state.worker_may_resume(
            interrupt_id) {
                self.run_command(
                    CommandPayloadV::ResumeInterrupt { interrupt_id, payload },
                    engine,
                ).w
            } else {
                self
            },
            ActionV::SyncConnector { path } => if self.state.may_fetch_again(path) {
                self.emit(
                    EventPayloadV::ConnectorSyncRequested(
                        ConnectorSyncRequestedV {
                            path,
                            attempt: 0,
                            retry: RetryPolicy::resolved(
                                None,
                                self.state.retry_config(),
                                RetryTarget::ConnectorSync,
                            ),
                        },
                    ),
                )
            } else {
                self
            },
            ActionV::Done { data } => self.run_command(
                if self.state.phase is Finalizing {
                    CommandPayloadV::CompleteTurn
                } else {
                    CommandPayloadV::FinishTurn { data }
                },
                engine,
            ).w,
            ActionV::Fail { error } => self.emit_all(self.state.fail_run(error)),
            _ => match action.command(decision_id) {
                Some(cmd) => self.run_command(cmd, engine).w,
                None => self,
            },
        }
    }

    /// The actions of a worker, one after the other.
    pub open spec fn apply_actions(
        self,
        actions: Seq<ActionV>,
        decision_id: Seq<char>,
        engine: CallerV,
    ) -> WorkingV
        decreases actions.len(),
    {
        if actions.len() == 0 {
            self
        } else {
            self.apply_actions(actions.drop_last(), decision_id, engine).apply_action(
                actions.last(),
                decision_id,
                engine,
            )
        }
    }
}

impl SessionState {
    pub(crate) fn may_fetch_again(&self, path: &ConnectionPath) -> (r: bool)
        ensures
            r == self.v().may_fetch_again(path.v()),
    {
        proof {
            reveal(SessionStateV::may_fetch_again);
        }
        let servers = self.head_servers();
        let ghost all = servers.v();
        let mut named = false;
        let mut i: usize = 0;
        while i < servers.len()
            invariant
                i <= servers@.len(),
                all == servers.v(),
                named == (exists|j: int| 0 <= j < i && at_path(path.v())(#[trigger] all[j])),
            decreases servers@.len() - i,
        {
            assert(all[i as int] == servers@[i as int].v());
            if servers[i].path.same(path) {
                assert(at_path(path.v())(all[i as int]));
                named = true;
            }
            i = i + 1;
        }
        let settled = match self.tracking(EffectKind::ConnectorSync, &path.to_string()) {
            Some(t) => !t.is_in_flight(),
            None => false,
        };
        named && settled
    }

    pub(crate) fn engine(&self) -> (r: Caller)
        ensures
            r.v() == self.v().engine(),
    {
        Caller::System {
            tenant_id: match &self.owner {
                Some(owner) => owner.tenant_id.dup(),
                None => String::new(),
            },
        }
    }
}

impl Working {
    pub(crate) fn apply_action(&mut self, action: Action, decision_id: &str, engine: &Caller)
        ensures
            final(self).v() == old(self).v().apply_action(action.v(), decision_id@, engine.v()),
    {
        proof {
            reveal(WorkingV::apply_action);
        }
        match action {
            Action::SendMessage { session_id, message } => {
                self.emit(
                    EventPayload::SessionMessageRequested(
                        SessionMessageRequested { target_session_id: session_id, message },
                    ),
                );
            },
            Action::Interrupt { interrupt_id, reason, payload } => {
                self.raise_interrupt(InterruptOrigin::Frontend, interrupt_id, reason, payload);
            },
            Action::ResolveInterrupt { interrupt_id, payload } => {
                let allowed = match self.state.open_interrupt(&interrupt_id) {
                    Some(open) => InterruptOrigin::Machine.privilege() >= open.origin.privilege(),
                    None => true,
                };
                if allowed {
                    let _ = self.run_command(
                        CommandPayload::ResumeInterrupt { interrupt_id, payload },
                        engine,
                    );
                }
            },
            Action::SyncConnector { path } => {
                if self.state.may_fetch_again(&path) {
                    let config = self.state.retry_config();
                    let retry = RetryPolicy::resolve(
                        None,
                        config.as_ref(),
                        RetryTarget::ConnectorSync,
                    );
                    self.emit(
                        EventPayload::ConnectorSyncRequested(
                            ConnectorSyncRequested { path, attempt: 0, retry },
                        ),
                    );
                }
            },
            Action::Done { data } => {
                let cmd = if self.state.phase.finalizing().is_some() {
                    CommandPayload::CompleteTurn
                } else {
                    CommandPayload::FinishTurn { data }
                };
                let _ = self.run_command(cmd, engine);
            },
            Action::Fail { error } => {
                let events = self.state.fail_run(&error);
                self.emit_all(events);
            },
            other => match other.into_command(decision_id) {
                Some(cmd) => {
                    let _ = self.run_command(cmd, engine);
                },
                None => {},
            },
        }
    }

    pub(crate) fn apply_actions(&mut self, actions: Vec<Action>, decision_id: &str)
        ensures
            final(self).v() == old(self).v().apply_actions(
                actions.v(),
                decision_id@,
                old(self).v().state.engine(),
            ),
    {
        let engine = self.state.engine();
        let ghost all = actions.v();
        let mut i: usize = 0;
        assert(all.take(0) =~= Seq::empty());
        while i < actions.len()
            invariant
                i <= actions@.len(),
                all == actions.v(),
                engine.v() == old(self).v().state.engine(),
                self.v() == old(self).v().apply_actions(
                    all.take(i as int),
                    decision_id@,
                    engine.v(),
                ),
            decreases actions@.len() - i,
        {
            assert(all.take(i + 1).drop_last() =~= all.take(i as int));
            assert(all.take(i + 1).last() == actions@[i as int].v());
            self.apply_action(actions[i].dup(), decision_id, &engine);
            i = i + 1;
        }
        assert(all.take(i as int) =~= all);
    }
}

} // verus!
