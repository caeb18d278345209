//! What a command does.
pub mod actions;
pub mod answers;
pub mod children;
pub mod interrupts;
pub mod restart;
pub mod turns;

use crate::model::Model;
use crate::protocol::config::{AgentConfig, AgentConfigV};
use crate::protocol::effect::{EffectKind, RetryPolicy};
use crate::protocol::identity::{SessionOwner, SessionOwnerV, WorkerRef, WorkerRefV};
use crate::session::caller::{Caller, CallerV};
use crate::session::command::{CommandPayload, CommandPayloadV};
use crate::session::decision::{Trigger, TriggerV};
use crate::session::effects;
use crate::session::effects::llm::{LlmAsk, LlmAskV};
use crate::session::effects::subagent::{Spawn, SpawnV};
use crate::session::error::{SessionError, SessionErrorV};
use crate::session::events::{EventPayload, EventPayloadV, SessionCreated, SessionCreatedV};
use crate::session::outcome::{Outcome, OutcomeV, Settle};
use crate::session::state::{SessionState, SessionStateV};
use crate::session::working::{Working, WorkingV};
use vstd::prelude::*;

verus! {

/// A session after a command, and what the command answers.
pub struct Ran {
    pub w: WorkingV,
    pub r: Result<(), SessionErrorV>,
}

impl SessionStateV {
    /// A caller stays within the tenant of the session.
    pub open spec fn in_tenant(self, caller: CallerV) -> bool {
        match self.owner {
            Some(owner) => caller.tenant() == owner.tenant_id,
            None => true,
        }
    }
}

impl WorkingV {
    pub open spec fn fine(self) -> Ran {
        Ran { w: self, r: Ok(()) }
    }

    pub open spec fn refused(self, e: SessionErrorV) -> Ran {
        Ran { w: self, r: Err(e) }
    }

    pub open spec fn denied(self) -> Ran {
        self.refused(SessionErrorV::SessionAccessDenied)
    }

    /// A piece of work settles, if the caller may settle it and it is still
    /// out.
    #[verifier::opaque]
    pub open spec fn settle_effect(
        self,
        kind: EffectKind,
        id: Seq<char>,
        attempt: Option<u32>,
        outcome: OutcomeV,
        caller: CallerV,
    ) -> Ran {
        match self.state.authorize(kind, id, caller) {
            Err(e) => self.refused(e),
            Ok(_) => match self.state.resolve(kind, id, attempt, caller) {
                Err(e) => self.refused(e),
                Ok(Settle::Drop) => self.fine(),
                Ok(Settle::Live) => self.emit_batch(
                    self.state.settle(kind, id, outcome, self.ids),
                ).fine(),
            },
        }
    }

    /// A command to a session that exists, other than a worker's answer.
    #[verifier::opaque]
    pub open spec fn run_command(self, cmd: CommandPayloadV, caller: CallerV) -> Ran {
        if !self.state.in_tenant(caller) {
            self.denied()
        } else {
            match cmd {
                CommandPayloadV::CreateSession { .. } => self.refused(
                    SessionErrorV::SessionAlreadyCreated,
                ),
                CommandPayloadV::SubmitClientPayload { payload, turn, queue } => self.submit(
                    payload,
                    turn,
                    queue,
                    caller,
                ),
                CommandPayloadV::SendMessage { message, turn_id, .. } => self.send(
                    message,
                    turn_id,
                    caller,
                ),
                CommandPayloadV::RequestLlmCall {
                    call_id,
                    llm,
                    request,
                    stream,
                    retry,
                    handler,
                    format,
                } => if caller is System {
                    self.emit_all(
                        self.state.request_llm(
                            LlmAskV { call_id, llm, request, stream, retry, handler, format },
                        ),
                    ).fine()
                } else {
                    self.denied()
                },
                CommandPayloadV::SettleEffect { kind, id, attempt, outcome } => self.settle_effect(
                    kind,
                    id,
                    attempt,
                    outcome,
                    caller,
                ),
                CommandPayloadV::RequestToolCall {
                    tool_call_id,
                    name,
                    arguments,
                    retry,
                } => if caller is System {
                    self.emit_all(
                        self.state.request_tool(tool_call_id, name, arguments, retry),
                    ).fine()
                } else {
                    self.denied()
                },
                CommandPayloadV::RequestSubagent {
                    session_id,
                    agent_id,
                    tool_call_id,
                    message,
                    retry,
                    decision_id,
                    mode,
                } => if caller is System {
                    self.emit_batch(
                        self.state.request_subagent(
                            SpawnV {
                                tool_call_id,
                                agent_id,
                                session_id,
                                message,
                                retry,
                                decision_id,
                                mode,
                            },
                            self.ids,
                        ),
                    ).fine()
                } else {
                    self.denied()
                },
                CommandPayloadV::CompleteSubagentTurn {
                    session_id,
                    turn_id,
                    data,
                    cost,
                    token_usage,
                    error,
                    ..
                } => self.complete_subagent_turn(
                    session_id,
                    turn_id,
                    data,
                    cost,
                    token_usage,
                    error,
                    caller,
                ),
                CommandPayloadV::Interrupt { interrupt_id, reason, payload } => if self.state.owned_by(
                caller) {
                    self.raise_interrupt(caller.origin(), interrupt_id, reason, payload).fine()
                } else {
                    self.denied()
                },
                CommandPayloadV::ResumeInterrupt {
                    interrupt_id,
                    payload,
                } => self.resume_interrupt(interrupt_id, payload, caller),
                CommandPayloadV::SubmitWorkerDecision { .. } => self.fine(),
                CommandPayloadV::CancelSession => self.cancel(caller),
                CommandPayloadV::FinishTurn { data } => if caller is System {
                    self.emit_batch(self.state.finish_turn(data, self.ids)).fine()
                } else {
                    self.denied()
                },
                CommandPayloadV::CompleteTurn => if caller is System {
                    self.emit_all(self.state.finalize_run(None)).fine()
                } else {
                    self.denied()
                },
                CommandPayloadV::Wake { now } => if caller is System {
                    WorkingV { plan_now: now, ..self }.fine()
                } else {
                    self.denied()
                },
                CommandPayloadV::ReconcileDispatch => if caller is System {
                    self.reconcile_dispatch().fine()
                } else {
                    self.denied()
                },
            }
        }
    }

    /// A command to a session that exists.
    #[verifier::opaque]
    pub open spec fn run_active(self, cmd: CommandPayloadV, caller: CallerV) -> Ran {
        match cmd {
            CommandPayloadV::SubmitWorkerDecision {
                decision_id,
                transcript,
                actions,
                state,
                agent,
                channels,
            } => if !self.state.in_tenant(caller) {
                self.denied()
            } else {
                self.submit_decision(
                    decision_id,
                    transcript,
                    actions,
                    state,
                    agent,
                    channels,
                    caller,
                )
            },
            _ => self.run_command(cmd, caller),
        }
    }

    /// A session is created. A frontend creates its own, and brings neither a
    /// config nor the address of a worker.
    #[verifier::opaque]
    pub open spec fn create(
        self,
        agent_id: Seq<char>,
        owner: SessionOwnerV,
        ancestry: Seq<Seq<char>>,
        worker_retry: RetryPolicy,
        agent: Option<AgentConfigV>,
        worker: Option<WorkerRefV>,
        caller: CallerV,
    ) -> Ran {
        if caller.tenant() != owner.tenant_id {
            self.denied()
        } else if caller is Frontend && (!caller.owns(owner) || agent is Some || worker is Some
            && worker->0.url is Some) {
            self.denied()
        } else {
            let created = self.emit(
                EventPayloadV::SessionCreated(
                    SessionCreatedV { agent_id, identity: owner, ancestry, worker_retry, worker },
                ),
            );
            created.emit_all(created.state.agent_config_events(agent)).ask(
                TriggerV::SessionStart,
            ).fine()
        }
    }

    /// A command, before what follows from it.
    pub open spec fn run_first(self, cmd: CommandPayloadV, caller: CallerV) -> Ran {
        if self.state.agent_id is Some {
            if cmd is CreateSession {
                self.refused(SessionErrorV::SessionAlreadyCreated)
            } else {
                self.run_active(cmd, caller)
            }
        } else {
            match cmd {
                CommandPayloadV::CreateSession {
                    agent_id,
                    owner,
                    ancestry,
                    worker_retry,
                    agent,
                    worker,
                } => self.create(agent_id, owner, ancestry, worker_retry, agent, worker, caller),
                _ => self.refused(SessionErrorV::SessionNotCreated),
            }
        }
    }

    /// A command, and what follows from it. Nothing follows from a refused
    /// command, nor from the end of a session.
    pub open spec fn run(self, cmd: CommandPayloadV, caller: CallerV) -> Ran {
        let ran = self.run_first(cmd, caller);
        if ran.r is Err || cmd is CancelSession {
            ran
        } else {
            ran.w.scheduled(false).fine()
        }
    }
}

impl SessionState {
    pub(crate) fn ensure_in_tenant(&self, caller: &Caller) -> (r: Result<(), SessionError>)
        ensures
            r.v() == crate::session::authorize::allowed(self.v().in_tenant(caller.v())),
    {
        match &self.owner {
            Some(owner) => SessionState::ensure_tenant_matches(caller, &owner.tenant_id),
            None => Ok(()),
        }
    }
}

impl Working {
    pub(crate) fn settle_effect(
        &mut self,
        kind: EffectKind,
        id: String,
        attempt: Option<u32>,
        outcome: Outcome,
        caller: &Caller,
    ) -> (r: Result<(), SessionError>)
        ensures
            (Ran { w: final(self).v(), r: r.v() }) == old(self).v().settle_effect(
                kind,
                id@,
                attempt,
                outcome.v(),
                caller.v(),
            ),
    {
        proof {
            reveal(WorkingV::settle_effect);
        }
        match effects::authorize(&self.state, kind, &id, caller) {
            Err(e) => {
                return Err(e);
            },
            Ok(_) => {},
        }
        match effects::resolve(&self.state, kind, &id, attempt, caller) {
            Err(e) => Err(e),
            Ok(Settle::Drop) => Ok(()),
            Ok(Settle::Live) => {
                let events = effects::settle(&self.state, kind, &id, outcome, &mut self.ids);
                self.emit_all(events);
                Ok(())
            },
        }
    }

    pub(crate) fn run_wake(&mut self, now: i128)
        ensures
            final(self).v() == (WorkingV { plan_now: now, ..old(self).v() }),
    {
        self.plan_now = now;
    }

    pub(crate) fn emit_result(&mut self, events: Result<Vec<EventPayload>, SessionError>) -> (r: Result<
        (),
        SessionError,
    >)
        ensures
            (Ran { w: final(self).v(), r: r.v() }) == (match events.v() {
                Ok(events) => old(self).v().emit_all(events).fine(),
                Err(e) => old(self).v().refused(e),
            }),
    {
        match events {
            Ok(events) => {
                self.emit_all(events);
                Ok(())
            },
            Err(e) => Err(e),
        }
    }

    /// A command to a session that exists, other than a worker's answer.
    #[verifier::rlimit(40)]
    pub(crate) fn run_command(&mut self, cmd: CommandPayload, caller: &Caller) -> (r: Result<(), SessionError>)
        ensures
            (Ran { w: final(self).v(), r: r.v() }) == old(self).v().run_command(
                cmd.v(),
                caller.v(),
            ),
    {
        proof {
            reveal(WorkingV::run_command);
        }
        match self.state.ensure_in_tenant(caller) {
            Err(e) => {
                return Err(e);
            },
            Ok(_) => {},
        }
        match cmd {
            CommandPayload::CreateSession { .. } => Err(SessionError::SessionAlreadyCreated),
            CommandPayload::SubmitClientPayload { payload, turn, queue } => self.submit(
                payload,
                turn,
                queue,
                caller,
            ),
            CommandPayload::SendMessage { message, stream: _, turn_id, parent_id: _ } => self.send(
                message,
                turn_id,
                caller,
            ),
            CommandPayload::RequestLlmCall {
                call_id,
                llm,
                request,
                stream,
                retry,
                handler,
                format,
            } => {
                let ask = LlmAsk { call_id, llm, request, stream, retry, handler, format };
                let events = effects::llm::request(&self.state, ask, caller);
                self.emit_result(events)
            },
            CommandPayload::SettleEffect { kind, id, attempt, outcome } => self.settle_effect(
                kind,
                id,
                attempt,
                outcome,
                caller,
            ),
            CommandPayload::RequestToolCall { tool_call_id, name, arguments, retry } => {
                let events = effects::tool::request(
                    &self.state,
                    tool_call_id,
                    name,
                    arguments,
                    retry,
                    caller,
                );
                self.emit_result(events)
            },
            CommandPayload::RequestSubagent {
                session_id,
                agent_id,
                tool_call_id,
                message,
                retry,
                decision_id,
                mode,
            } => {
                let spawn = Spawn {
                    tool_call_id,
                    agent_id,
                    session_id,
                    message,
                    retry,
                    decision_id,
                    mode,
                };
                let events = effects::subagent::request(&self.state, spawn, caller, &mut self.ids);
                self.emit_result(events)
            },
            CommandPayload::CompleteSubagentTurn {
                session_id,
                agent_id: _,
                turn_id,
                data,
                cost,
                token_usage,
                error,
            } => self.complete_subagent_turn(
                session_id,
                turn_id,
                data,
                cost,
                token_usage,
                error,
                caller,
            ),
            CommandPayload::Interrupt { interrupt_id, reason, payload } => {
                match self.state.ensure_owns_session(caller) {
                    Err(e) => {
                        return Err(e);
                    },
                    Ok(_) => {},
                }
                let origin = SessionState::caller_interrupt_origin(caller);
                self.raise_interrupt(origin, interrupt_id, reason, payload);
                Ok(())
            },
            CommandPayload::ResumeInterrupt { interrupt_id, payload } => self.resume_interrupt(
                interrupt_id,
                payload,
                caller,
            ),
            CommandPayload::SubmitWorkerDecision { .. } => Ok(()),
            CommandPayload::CancelSession => self.cancel(caller),
            CommandPayload::FinishTurn { data } => {
                let events = self.state.finish_turn_events(data, caller, &mut self.ids);
                self.emit_result(events)
            },
            CommandPayload::CompleteTurn => {
                match SessionState::ensure_internal(caller) {
                    Err(e) => {
                        return Err(e);
                    },
                    Ok(_) => {},
                }
                let events = self.state.finalize_run(None);
                self.emit_all(events);
                Ok(())
            },
            CommandPayload::Wake { now } => {
                match SessionState::ensure_internal(caller) {
                    Err(e) => {
                        return Err(e);
                    },
                    Ok(_) => {},
                }
                self.run_wake(now);
                Ok(())
            },
            CommandPayload::ReconcileDispatch => {
                match SessionState::ensure_internal(caller) {
                    Err(e) => {
                        return Err(e);
                    },
                    Ok(_) => {},
                }
                self.run_reconcile_dispatch();
                Ok(())
            },
        }
    }

    /// A command to a session that exists.
    pub(crate) fn run_active(&mut self, cmd: CommandPayload, caller: &Caller) -> (r: Result<(), SessionError>)
        ensures
            (Ran { w: final(self).v(), r: r.v() }) == old(self).v().run_active(
                cmd.v(),
                caller.v(),
            ),
    {
        proof {
            reveal(WorkingV::run_active);
        }
        match cmd {
            CommandPayload::SubmitWorkerDecision {
                decision_id,
                transcript,
                actions,
                state,
                agent,
                channels,
            } => {
                match self.state.ensure_in_tenant(caller) {
                    Err(e) => {
                        return Err(e);
                    },
                    Ok(_) => {},
                }
                self.submit_decision(
                    decision_id,
                    transcript,
                    actions,
                    state,
                    agent,
                    channels,
                    caller,
                )
            },
            other => self.run_command(other, caller),
        }
    }

    pub(crate) fn create(
        &mut self,
        agent_id: String,
        owner: SessionOwner,
        ancestry: Vec<String>,
        worker_retry: RetryPolicy,
        agent: Option<AgentConfig>,
        worker: Option<WorkerRef>,
        caller: &Caller,
    ) -> (r: Result<(), SessionError>)
        ensures
            (Ran { w: final(self).v(), r: r.v() }) == old(self).v().create(
                agent_id@,
                owner.v(),
                ancestry.v(),
                worker_retry,
                agent.v(),
                worker.v(),
                caller.v(),
            ),
    {
        proof {
            reveal(WorkingV::create);
        }
        match SessionState::ensure_tenant_matches(caller, &owner.tenant_id) {
            Err(e) => {
                return Err(e);
            },
            Ok(_) => {},
        }
        let frontend = match caller {
            Caller::Frontend { .. } => true,
            _ => false,
        };
        if frontend && !caller.owns(&owner) {
            return Err(SessionError::SessionAccessDenied);
        }
        let addressed = match &worker {
            Some(worker) => worker.url.is_some(),
            None => false,
        };
        if agent.is_some() || addressed {
            match SessionState::ensure_operator_or_system(caller) {
                Err(e) => {
                    return Err(e);
                },
                Ok(_) => {},
            }
        }
        self.emit(
            EventPayload::SessionCreated(
                Box::new(
                    SessionCreated { agent_id, identity: owner, ancestry, worker_retry, worker },
                ),
            ),
        );
        let events = self.state.agent_config_events(agent);
        self.emit_all(events);
        let _ = self.queue_decision(Trigger::SessionStart);
        Ok(())
    }

    /// Runs a command, and does what follows from it.
    pub fn run(&mut self, cmd: CommandPayload, caller: &Caller) -> (r: Result<(), SessionError>)
        ensures
            (Ran { w: final(self).v(), r: r.v() }) == old(self).v().run(cmd.v(), caller.v()),
    {
        let cancelling = match cmd {
            CommandPayload::CancelSession => true,
            _ => false,
        };
        if self.state.agent_id.is_some() {
            match cmd {
                CommandPayload::CreateSession { .. } => {
                    return Err(SessionError::SessionAlreadyCreated);
                },
                other => match self.run_active(other, caller) {
                    Err(e) => {
                        return Err(e);
                    },
                    Ok(_) => {},
                },
            }
        } else {
            match cmd {
                CommandPayload::CreateSession {
                    agent_id,
                    owner,
                    ancestry,
                    worker_retry,
                    agent,
                    worker,
                } => {
                    match self.create(agent_id, owner, ancestry, worker_retry, agent, worker, caller) {
                        Err(e) => {
                            return Err(e);
                        },
                        Ok(_) => {},
                    }
                },
                _ => {
                    return Err(SessionError::SessionNotCreated);
                },
            }
        }
        if !cancelling {
            self.schedule();
        }
        Ok(())
    }
}

} // verus!
