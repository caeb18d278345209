//! What each event does to a session.
use crate::model::{
    append_one, as_text, collect, extend, lemma_collect_step, lemma_position, position, put,
    put_first, take_out, Model,
};
use crate::protocol::config::SpawnMode;
use crate::protocol::effect::{AuthNeed, EffectKind, EffectStatus, RetryPolicy};
use crate::protocol::json::{decimal, decimal_sum, no_cost, Json, JsonKind};
use crate::protocol::llm::{LlmRequest, LlmRequestV, Usage, UsageV};
use crate::protocol::message::{NewMessage, NewMessageV};
use crate::session::decision::{Trigger, TriggerV};
use crate::session::events::{
    AgentConfigUpdated, AgentConfigUpdatedV, CallVoided, CallVoidedV, ConnectorSyncCompleted,
    ConnectorSyncCompletedV, ConnectorSyncErrored, ConnectorSyncErroredV, ConnectorSyncRequested,
    ConnectorSyncRequestedV, ConnectorTarget, ConnectorTargetV, DecisionErrored, DecisionErroredV,
    DecisionQueued, DecisionQueuedV, EventPayload, EventPayloadV, LlmCallCompleted,
    LlmCallCompletedV, LlmCallDispatched, LlmCallDispatchedV, LlmCallRequested, LlmCallRequestedV,
    SessionCreated, SessionCreatedV, SessionInterrupted, SessionInterruptedV, SubagentErrored,
    SubagentErroredV, SubagentRequested, SubagentRequestedV, SubagentTurnCompleted,
    SubagentTurnCompletedV, ToolCallCompleted, ToolCallCompletedV, ToolCallErrored,
    ToolCallErroredV, ToolCallRequested, ToolCallRequestedV, WorkerStateUpdated,
    WorkerStateUpdatedV,
};
use crate::session::state::{
    find_effect, find_queued, named, queued_as, AgentVersion, AgentVersionV, ConnectorSync,
    ConnectorSyncV, EffectBody, EffectBodyV, EffectEntry, EffectEntryV, EffectTracking, Finalizing,
    FinalizingV, LlmCall, LlmCallV, Logged, LoggedV, QueueEntry, QueueEntryV, SessionState,
    SessionStateV, SessionStatus, SessionStatusV, StateVersion, StateVersionV, SubagentCall,
    SubagentCallV, ToolCallState, ToolCallStateV, TurnPhase, TurnPhaseV, WorkerDecision,
    WorkerDecisionV,
};
use crate::text;
use vstd::prelude::*;

verus! {

/// When an event happened, and its place among the events of the session.
#[derive(Debug, Clone, Copy, PartialEq, Eq, Structural)]
pub struct ApplyContext {
    /// In nanoseconds of the Unix epoch.
    pub occurred_at: i128,
    pub sequence: u64,
}

impl EffectBodyV {
    pub open spec fn kind(self) -> EffectKind {
        match self {
            EffectBodyV::Tool(_) => EffectKind::ToolCall,
            EffectBodyV::Subagent(_) => EffectKind::Subagent,
            EffectBodyV::Llm(_) => EffectKind::LlmCall,
            EffectBodyV::Connector(_) => EffectKind::ConnectorSync,
            EffectBodyV::Decision(_) => EffectKind::Decision,
        }
    }
}

impl UsageV {
    /// The counts of two calls together, as far as they can be counted.
    pub open spec fn with(self, other: UsageV) -> UsageV {
        if self.fits(other) {
            self.plus(other)
        } else {
            self
        }
    }
}

/// What a child's turn came to, in text.
pub open spec fn outcome_text(p: SubagentTurnCompletedV) -> Seq<char> {
    match p.error {
        Some(error) => error.message,
        None => p.data.plain_text(),
    }
}

impl SessionStateV {
    /// Writes a piece of work: over the one of the same kind and id, if there
    /// is one, else behind the others.
    pub open spec fn put_effect(self, e: EffectEntryV) -> SessionStateV {
        match self.effect_at(e.kind(), e.id) {
            Some(i) => SessionStateV { effects: self.effects.update(i, e), ..self },
            None => SessionStateV { effects: self.effects.push(e), ..self },
        }
    }

    /// Takes a piece of work out of the table.
    pub open spec fn remove_effect(self, kind: EffectKind, id: Seq<char>) -> SessionStateV {
        match self.effect_at(kind, id) {
            Some(i) => SessionStateV { effects: self.effects.remove(i), ..self },
            None => self,
        }
    }

    /// Writes where a piece of work stands.
    pub open spec fn set_tracking(
        self,
        kind: EffectKind,
        id: Seq<char>,
        tracking: EffectTracking,
    ) -> SessionStateV {
        match self.effect_at(kind, id) {
            Some(i) => SessionStateV {
                effects: self.effects.update(i, EffectEntryV { tracking, ..self.effects[i] }),
                ..self
            },
            None => self,
        }
    }

    /// Puts a piece of work at the end of the queue, unless it waits already.
    pub open spec fn enqueue(self, kind: EffectKind, id: Seq<char>) -> SessionStateV {
        match position(self.schedule_queue, queued_as(kind, id)) {
            Some(_) => self,
            None => SessionStateV {
                schedule_queue: self.schedule_queue.push(QueueEntryV { kind, id }),
                ..self
            },
        }
    }

    /// Puts a piece of work before whatever waits.
    pub open spec fn jump(self, kind: EffectKind, id: Seq<char>) -> SessionStateV {
        let rest = self.dequeue(kind, id);
        SessionStateV {
            schedule_queue: seq![QueueEntryV { kind, id }] + rest.schedule_queue,
            ..rest
        }
    }

    /// Takes a piece of work out of the queue.
    pub open spec fn dequeue(self, kind: EffectKind, id: Seq<char>) -> SessionStateV {
        match position(self.schedule_queue, queued_as(kind, id)) {
            Some(i) => SessionStateV { schedule_queue: self.schedule_queue.remove(i), ..self },
            None => self,
        }
    }

    /// Work is asked for. A further attempt stays where the first was asked
    /// for, and all attempts together have one limit.
    pub open spec fn ask(
        self,
        id: Seq<char>,
        attempt: u32,
        retry: RetryPolicy,
        body: EffectBodyV,
        at: i128,
    ) -> SessionStateV {
        let fresh = EffectTracking::asked(retry, attempt, at);
        let entry = match self.effect(body.kind(), id) {
            Some(e) if attempt > 0 => EffectEntryV {
                id,
                anchor: e.anchor,
                tracking: EffectTracking { total_deadline: e.tracking.total_deadline, ..fresh },
                body,
            },
            _ => EffectEntryV { id, anchor: self.head_id, tracking: fresh, body },
        };
        self.put_effect(entry).enqueue(body.kind(), id)
    }

    /// Work starts.
    pub open spec fn begin(self, kind: EffectKind, id: Seq<char>, at: i128) -> SessionStateV {
        let out = self.dequeue(kind, id);
        match self.tracking(kind, id) {
            Some(t) => out.set_tracking(kind, id, t.begun(at)),
            None => out,
        }
    }

    /// A call to a model starts, with the tools it goes out with.
    pub open spec fn begin_llm(self, p: LlmCallDispatchedV, at: i128) -> SessionStateV {
        let begun = self.begin(EffectKind::LlmCall, p.id, at);
        match begun.effect(EffectKind::LlmCall, p.id) {
            Some(e) => begun.put_effect(
                EffectEntryV {
                    body: EffectBodyV::Llm(
                        LlmCallV {
                            request: LlmRequestV {
                                tools: p.tools,
                                messages: p.messages,
                                ..e.llm()->0.request
                            },
                            announced: e.llm()->0.announced + p.announced,
                            ..e.llm()->0
                        },
                    ),
                    ..e
                },
            ),
            None => begun,
        }
    }

    /// Work enters a status that it does not run out of, and no longer waits.
    pub open spec fn enter(self, kind: EffectKind, id: Seq<char>, state: EffectStatus) -> SessionStateV {
        let entered = match self.tracking(kind, id) {
            Some(t) => self.set_tracking(kind, id, t.with_state(state)),
            None => self,
        };
        entered.dequeue(kind, id)
    }

    /// A decision is asked. The question that ends a turn fixes the turn's
    /// output, and the turn's end waits behind it. The one that follows an
    /// interrupt goes before whatever the interrupt held up.
    pub open spec fn ask_decision(self, p: DecisionQueuedV, at: i128, seq: u64) -> SessionStateV {
        let asked = self.ask(
            p.id,
            0,
            self.worker_retry,
            EffectBodyV::Decision(
                WorkerDecisionV { trigger: p.trigger, source_event_sequence: seq },
            ),
            at,
        );
        match p.trigger {
            TriggerV::SessionStart => SessionStateV { session_start_failed: false, ..asked },
            TriggerV::TurnFinished { turn_id, data, cost, usage } => SessionStateV {
                phase: TurnPhaseV::Finalizing(FinalizingV { turn_id, data, cost, usage }),
                ..asked
            }.enqueue(EffectKind::TurnEnd, turn_id),
            TriggerV::InterruptResumed { .. } => asked.jump(EffectKind::Decision, p.id),
            _ => asked,
        }
    }

    /// A decision is gone: answered, dropped, or failed for good.
    pub open spec fn forget_decision(self, id: Seq<char>) -> SessionStateV {
        self.remove_effect(EffectKind::Decision, id).dequeue(EffectKind::Decision, id)
    }

    pub open spec fn fail_decision(self, p: DecisionErroredV, at: i128) -> SessionStateV {
        match self.tracking(EffectKind::Decision, p.id) {
            Some(t) => if t.ends(p.retryable) {
                SessionStateV {
                    session_start_failed: self.session_start_failed || self.trigger(p.id) == Some(
                        TriggerV::SessionStart,
                    ),
                    ..self.forget_decision(p.id)
                }
            } else {
                self.fail(EffectKind::Decision, p.id, p.retryable, at)
            },
            None => self,
        }
    }

    pub open spec fn complete_tool(self, p: ToolCallCompletedV) -> SessionStateV {
        match self.effect(EffectKind::ToolCall, p.id) {
            Some(e) => self.put_effect(
                EffectEntryV {
                    tracking: e.tracking.with_state(EffectStatus::Completed),
                    body: EffectBodyV::Tool(
                        ToolCallStateV {
                            result: Some(p.result.rendered()),
                            is_error: p.result.is_error,
                            ..e.tool()->0
                        },
                    ),
                    ..e
                },
            ).dequeue(EffectKind::ToolCall, p.id),
            None => self,
        }
    }

    /// A call that failed for good holds why. One that a connection refused
    /// for its credential marks the connection too.
    pub open spec fn fail_tool(self, p: ToolCallErroredV, at: i128) -> SessionStateV {
        match self.effect(EffectKind::ToolCall, p.id) {
            Some(e) => {
                let tool = e.tool()->0;
                let failed = self.put_effect(
                    EffectEntryV {
                        tracking: e.tracking.failed(p.retryable, at),
                        body: EffectBodyV::Tool(
                            if e.tracking.ends(p.retryable) {
                                ToolCallStateV {
                                    result: Some(p.error.message),
                                    is_error: true,
                                    ..tool
                                }
                            } else {
                                tool
                            },
                        ),
                        ..e
                    },
                ).dequeue(EffectKind::ToolCall, p.id);
                match (tool.target, p.auth) {
                    (Some(ConnectorTargetV::Remote { path, .. }), Some(auth)) => failed.mark_auth(
                        path.written(),
                        Some(auth),
                    ),
                    _ => failed,
                }
            },
            None => self,
        }
    }

    /// Writes what a connection needs before it answers again.
    pub open spec fn mark_auth(self, id: Seq<char>, auth: Option<AuthNeed>) -> SessionStateV {
        match self.effect(EffectKind::ConnectorSync, id) {
            Some(e) => self.put_effect(
                EffectEntryV {
                    body: EffectBodyV::Connector(ConnectorSyncV { auth, ..e.connector()->0 }),
                    ..e
                },
            ),
            None => self,
        }
    }

    /// A call to a model answered. Its cost and counts go to the turn.
    pub open spec fn complete_llm(self, p: LlmCallCompletedV) -> SessionStateV {
        SessionStateV {
            turn_cost: match p.response.cost {
                Some(cost) => decimal_sum(self.turn_cost, cost),
                None => self.turn_cost,
            },
            turn_token_usage: match p.response.usage {
                Some(usage) => self.turn_token_usage.with(usage),
                None => self.turn_token_usage,
            },
            ..self.enter(EffectKind::LlmCall, p.id, EffectStatus::Completed)
        }
    }

    /// Work fails, for now or for good, and no longer waits.
    pub open spec fn fail(
        self,
        kind: EffectKind,
        id: Seq<char>,
        retryable: bool,
        at: i128,
    ) -> SessionStateV {
        match self.tracking(kind, id) {
            Some(t) => self.set_tracking(kind, id, t.failed(retryable, at)).dequeue(kind, id),
            None => self,
        }
    }

    /// A call nobody waits for is answered as soon as it starts.
    pub open spec fn start_subagent(self, id: Seq<char>) -> SessionStateV {
        match self.effect(EffectKind::Subagent, id) {
            Some(e) => self.enter(
                EffectKind::Subagent,
                id,
                if e.subagent()->0.mode == SpawnMode::Detached {
                    EffectStatus::Completed
                } else {
                    EffectStatus::Running
                },
            ),
            None => self,
        }
    }

    pub open spec fn fail_subagent(self, p: SubagentErroredV, at: i128) -> SessionStateV {
        match self.effect(EffectKind::Subagent, p.id) {
            Some(e) => self.put_effect(
                EffectEntryV {
                    tracking: e.tracking.failed(p.retryable, at),
                    body: EffectBodyV::Subagent(
                        if e.tracking.ends(p.retryable) {
                            SubagentCallV {
                                result: Some(p.error.message),
                                is_error: true,
                                ..e.subagent()->0
                            }
                        } else {
                            e.subagent()->0
                        },
                    ),
                    ..e
                },
            ).dequeue(EffectKind::Subagent, p.id),
            None => self,
        }
    }

    /// A child finished a turn: the call holds what it came to, and the
    /// session bears the cost.
    pub open spec fn complete_subagent(self, p: SubagentTurnCompletedV) -> SessionStateV {
        let paid = SessionStateV {
            subagent_cost: decimal_sum(self.subagent_cost, p.cost),
            detached_turns: match p.turn_id {
                Some(turn_id) => self.detached_turns.push(turn_id),
                None => self.detached_turns,
            },
            ..self
        };
        match self.effect(EffectKind::Subagent, p.id) {
            Some(e) => paid.put_effect(
                EffectEntryV {
                    tracking: e.tracking.with_state(EffectStatus::Completed),
                    body: EffectBodyV::Subagent(
                        SubagentCallV {
                            result: Some(outcome_text(p)),
                            is_error: p.error is Some,
                            ..e.subagent()->0
                        },
                    ),
                    ..e
                },
            ).dequeue(EffectKind::Subagent, p.id),
            None => paid,
        }
    }

    /// A connection's offer is fetched. It does not wait its turn, and what
    /// the connection offered before stands until the answer.
    pub open spec fn ask_sync(self, p: ConnectorSyncRequestedV, at: i128) -> SessionStateV {
        let id = p.path.written();
        let fresh = EffectTracking::asked(p.retry, p.attempt, at).begun(at);
        let entry = match self.effect(EffectKind::ConnectorSync, id) {
            Some(e) => EffectEntryV {
                tracking: EffectTracking {
                    total_deadline: if p.attempt > 0 {
                        e.tracking.total_deadline
                    } else {
                        fresh.total_deadline
                    },
                    ..fresh
                },
                ..e
            },
            None => EffectEntryV {
                id,
                anchor: None,
                tracking: fresh,
                body: EffectBodyV::Connector(
                    ConnectorSyncV {
                        path: p.path,
                        prefix: None,
                        tools: Seq::empty(),
                        instructions: None,
                        auth: None,
                    },
                ),
            },
        };
        self.put_effect(entry)
    }

    /// A connection answered with its offer, so its credential is good.
    pub open spec fn complete_sync(self, p: ConnectorSyncCompletedV) -> SessionStateV {
        match self.effect(EffectKind::ConnectorSync, p.id) {
            Some(e) => self.put_effect(
                EffectEntryV {
                    tracking: e.tracking.with_state(EffectStatus::Completed),
                    body: EffectBodyV::Connector(
                        ConnectorSyncV {
                            path: e.connector()->0.path,
                            prefix: p.prefix,
                            tools: p.tools,
                            instructions: p.instructions,
                            auth: None,
                        },
                    ),
                    ..e
                },
            ),
            None => self,
        }
    }

    pub open spec fn fail_sync(self, p: ConnectorSyncErroredV, at: i128) -> SessionStateV {
        self.fail(EffectKind::ConnectorSync, p.id, p.retryable, at).mark_auth(p.id, p.auth)
    }

    /// Work that is given up counts as failed, and no longer waits.
    pub open spec fn void(self, p: CallVoidedV) -> SessionStateV {
        self.enter(p.kind, p.id, EffectStatus::Failed)
    }

    /// Whether an interrupt takes a decision back from the worker.
    pub open spec fn recalls(self, i: SessionInterruptedV, e: EffectEntryV) -> bool {
        e.tracking.state == EffectStatus::Pending && match e.trigger() {
            Some(trigger) => SessionStateV::holds_back(trigger) && self.on_path(
                self.decision_node(trigger),
                i.anchor,
            ),
            None => false,
        }
    }

    pub open spec fn kept_through(self, i: SessionInterruptedV) -> spec_fn(EffectEntryV) -> Option<
        EffectEntryV,
    > {
        |e: EffectEntryV|
            if self.recalls(i, e) {
                None
            } else {
                Some(e)
            }
    }

    /// The session stops: what the worker was deciding there is taken back.
    pub open spec fn interrupt(self, i: SessionInterruptedV) -> SessionStateV {
        SessionStateV {
            open_interrupts: self.open_interrupts.push(i),
            effects: collect(self.effects, self.kept_through(i)),
            ..self
        }
    }

    pub open spec fn resume(self, id: Seq<char>) -> SessionStateV {
        SessionStateV {
            open_interrupts: collect(self.open_interrupts, other_than(id)),
            ..self
        }
    }

    pub open spec fn start_turn(self, turn_id: Seq<char>) -> SessionStateV {
        SessionStateV {
            phase: TurnPhaseV::Active { turn_id },
            turn_cost: decimal(0, 0),
            turn_token_usage: UsageV::zero(),
            ..self
        }
    }

    pub open spec fn complete_turn(self, turn_id: Seq<char>) -> SessionStateV {
        SessionStateV {
            phase: TurnPhaseV::Idle,
            completed_turn_ids: self.completed_turn_ids.push(turn_id),
            ..self
        }.dequeue(EffectKind::TurnEnd, turn_id)
    }

    /// The session is over: no decision is left, and nothing waits.
    pub open spec fn cancel(self) -> SessionStateV {
        SessionStateV {
            status: SessionStatusV::Done,
            phase: TurnPhaseV::Idle,
            effects: collect(self.effects, but_decisions()),
            schedule_queue: Seq::empty(),
            ..self
        }
    }

    pub open spec fn create(self, p: SessionCreatedV) -> SessionStateV {
        SessionStateV {
            agent_id: Some(p.agent_id),
            owner: Some(p.identity),
            ancestry: p.ancestry,
            worker_retry: p.worker_retry,
            worker: p.worker,
            ..self
        }
    }

    pub open spec fn write_agent(self, p: AgentConfigUpdatedV, seq: u64) -> SessionStateV {
        SessionStateV {
            agent_versions: self.agent_versions.push(
                LoggedV { seq, entry: AgentVersionV { value: p.config, anchor: p.anchor } },
            ),
            ..self
        }
    }

    pub open spec fn write_state(self, p: WorkerStateUpdatedV, seq: u64) -> SessionStateV {
        SessionStateV {
            state_versions: self.state_versions.push(
                LoggedV { seq, entry: StateVersionV { value: p.state, anchor: p.anchor } },
            ),
            ..self
        }
    }

    pub open spec fn ask_tool(self, p: ToolCallRequestedV, at: i128) -> SessionStateV {
        let body = EffectBodyV::Tool(
            ToolCallStateV {
                name: p.name,
                arguments: p.arguments,
                handler: p.handler,
                target: p.target,
                result: None,
                is_error: false,
            },
        );
        self.ask(p.id, p.attempt, p.retry, body, at)
    }

    /// A call to a model is asked for. A further attempt keeps what the first
    /// told the model of.
    pub open spec fn ask_llm(self, p: LlmCallRequestedV, at: i128) -> SessionStateV {
        let body = EffectBodyV::Llm(
            LlmCallV {
                llm: p.llm,
                format: p.format,
                request: p.request,
                stream: p.stream,
                handler: p.handler,
                defer_tools_strategy: p.defer_tools_strategy,
                announced: match self.effect(EffectKind::LlmCall, p.id) {
                    Some(e) if p.attempt > 0 => e.llm()->0.announced,
                    _ => Seq::empty(),
                },
            },
        );
        self.ask(p.id, p.attempt, p.retry, body, at)
    }

    pub open spec fn ask_subagent(self, p: SubagentRequestedV, at: i128) -> SessionStateV {
        let body = EffectBodyV::Subagent(
            SubagentCallV {
                session_id: p.session_id,
                agent_id: p.agent_id,
                message: p.message,
                mode: p.mode,
                decision_id: p.decision_id,
                result: None,
                is_error: false,
            },
        );
        self.ask(p.id, p.attempt, p.retry, body, at)
    }

    /// A message is recorded, and the conversation stands at it.
    pub open spec fn record(self, p: NewMessageV) -> SessionStateV {
        SessionStateV { nodes: self.nodes.push(p), head_id: Some(p.message.id), ..self }
    }

    pub open spec fn move_head(self, head_id: Seq<char>) -> SessionStateV {
        SessionStateV { head_id: Some(head_id), ..self }
    }

    /// The session after an event.
    #[verifier::opaque]
    pub open spec fn apply(self, event: EventPayloadV, ctx: ApplyContext) -> SessionStateV {
        let at = ctx.occurred_at;
        match event {
            EventPayloadV::SessionCreated(p) => self.create(p),
            EventPayloadV::AgentConfigUpdated(p) => self.write_agent(p, ctx.sequence),
            EventPayloadV::WorkerStateUpdated(p) => self.write_state(p, ctx.sequence),
            EventPayloadV::DecisionQueued(p) => self.ask_decision(p, at, ctx.sequence),
            EventPayloadV::DecisionDispatched(p) => self.begin(EffectKind::Decision, p.id, at),
            EventPayloadV::DecisionCompleted(p) => self.forget_decision(p.id),
            EventPayloadV::DecisionDropped(p) => self.forget_decision(p.id),
            EventPayloadV::DecisionErrored(p) => self.fail_decision(p, at),
            EventPayloadV::ToolCallRequested(p) => self.ask_tool(p, at),
            EventPayloadV::ToolCallDispatched(p) => self.begin(EffectKind::ToolCall, p.id, at),
            EventPayloadV::ToolCallCompleted(p) => self.complete_tool(p),
            EventPayloadV::ToolCallErrored(p) => self.fail_tool(p, at),
            EventPayloadV::LlmCallRequested(p) => self.ask_llm(p, at),
            EventPayloadV::LlmCallDispatched(p) => self.begin_llm(p, at),
            EventPayloadV::LlmCallCompleted(p) => self.complete_llm(p),
            EventPayloadV::LlmCallErrored(p) => self.fail(
                EffectKind::LlmCall,
                p.id,
                p.retryable,
                at,
            ),
            EventPayloadV::SubagentRequested(p) => self.ask_subagent(p, at),
            EventPayloadV::SubagentDispatched(p) => self.begin(EffectKind::Subagent, p.id, at),
            EventPayloadV::SubagentStarted(p) => self.start_subagent(p.id),
            EventPayloadV::SubagentErrored(p) => self.fail_subagent(p, at),
            EventPayloadV::SubagentTurnCompleted(p) => self.complete_subagent(p),
            EventPayloadV::ConnectorSyncRequested(p) => self.ask_sync(p, at),
            EventPayloadV::ConnectorSyncCompleted(p) => self.complete_sync(p),
            EventPayloadV::ConnectorSyncErrored(p) => self.fail_sync(p, at),
            EventPayloadV::CallVoided(p) => self.void(p),
            EventPayloadV::NewMessage(p) => self.record(p),
            EventPayloadV::HeadMoved(p) => self.move_head(p.head_id),
            EventPayloadV::SessionInterrupted(p) => self.interrupt(p),
            EventPayloadV::InterruptResumed(p) => self.resume(p.interrupt_id),
            EventPayloadV::TurnStarted(p) => self.start_turn(p.turn_id),
            EventPayloadV::TurnCompleted(p) => self.complete_turn(p.turn_id),
            EventPayloadV::SessionDone(_) => self,
            EventPayloadV::SessionCancelled => self.cancel(),
            EventPayloadV::ChannelsUpdated(_) => self,
            EventPayloadV::SessionMessageRequested(_) => self,
        }
    }
}

pub open spec fn other_than(id: Seq<char>) -> spec_fn(SessionInterruptedV) -> Option<
    SessionInterruptedV,
> {
    |i: SessionInterruptedV|
        if i.interrupt_id == id {
            None
        } else {
            Some(i)
        }
}

pub open spec fn but_decisions() -> spec_fn(EffectEntryV) -> Option<EffectEntryV> {
    |e: EffectEntryV|
        if e.kind() == EffectKind::Decision {
            None
        } else {
            Some(e)
        }
}

impl SessionState {
    fn put_effect(&mut self, e: EffectEntry)
        ensures
            final(self).v() == old(self).v().put_effect(e.v()),
    {
        match find_effect(&self.effects, e.kind(), &e.id) {
            Some(i) => put(&mut self.effects, i, e),
            None => append_one(&mut self.effects, e),
        }
    }

    fn remove_effect(&mut self, kind: EffectKind, id: &str)
        ensures
            final(self).v() == old(self).v().remove_effect(kind, id@),
    {
        match find_effect(&self.effects, kind, id) {
            Some(i) => {
                let _ = take_out(&mut self.effects, i);
            },
            None => {},
        }
    }

    fn set_tracking(&mut self, kind: EffectKind, id: &str, tracking: EffectTracking)
        ensures
            final(self).v() == old(self).v().set_tracking(kind, id@, tracking),
    {
        match find_effect(&self.effects, kind, id) {
            Some(i) => {
                let e = &self.effects[i];
                let changed = EffectEntry {
                    id: e.id.dup(),
                    anchor: e.anchor.dup(),
                    tracking,
                    body: e.body.dup(),
                };
                put(&mut self.effects, i, changed);
            },
            None => {},
        }
    }

    fn enqueue(&mut self, kind: EffectKind, id: String)
        ensures
            final(self).v() == old(self).v().enqueue(kind, id@),
    {
        if find_queued(&self.schedule_queue, kind, &id).is_none() {
            append_one(&mut self.schedule_queue, QueueEntry { kind, id });
        }
    }

    fn jump(&mut self, kind: EffectKind, id: String)
        ensures
            final(self).v() == old(self).v().jump(kind, id@),
    {
        self.dequeue(kind, &id);
        put_first(&mut self.schedule_queue, QueueEntry { kind, id });
    }

    fn dequeue(&mut self, kind: EffectKind, id: &str)
        ensures
            final(self).v() == old(self).v().dequeue(kind, id@),
    {
        match find_queued(&self.schedule_queue, kind, id) {
            Some(i) => {
                let _ = take_out(&mut self.schedule_queue, i);
            },
            None => {},
        }
    }

    fn ask(
        &mut self,
        id: &String,
        attempt: u32,
        retry: RetryPolicy,
        kind: EffectKind,
        body: EffectBody,
        at: i128,
    )
        requires
            body.v().kind() == kind,
        ensures
            final(self).v() == old(self).v().ask(id@, attempt, retry, body.v(), at),
    {
        let fresh = EffectTracking::queued(retry, attempt, at);
        let mut anchor = self.head_id.dup();
        let mut tracking = fresh;
        match self.effect(kind, id) {
            Some(e) => {
                if attempt > 0 {
                    anchor = e.anchor.dup();
                    tracking = EffectTracking {
                        total_deadline: e.tracking.total_deadline,
                        state: fresh.state,
                        retry: fresh.retry,
                        deadline: fresh.deadline,
                    };
                }
            },
            None => {},
        }
        self.put_effect(EffectEntry { id: id.dup(), anchor, tracking, body });
        self.enqueue(kind, id.dup());
    }

    fn begin(&mut self, kind: EffectKind, id: &str, at: i128)
        ensures
            final(self).v() == old(self).v().begin(kind, id@, at),
    {
        let tracking = self.tracking(kind, id);
        self.dequeue(kind, id);
        match tracking {
            Some(t) => self.set_tracking(kind, id, t.start(at)),
            None => {},
        }
    }

    fn begin_llm(&mut self, p: &LlmCallDispatched, at: i128)
        ensures
            final(self).v() == old(self).v().begin_llm(p.v(), at),
    {
        self.begin(EffectKind::LlmCall, &p.id, at);
        proof {
            lemma_position(self.v().effects, named(EffectKind::LlmCall, p.id@));
        }
        let entry = match self.effect(EffectKind::LlmCall, &p.id) {
            Some(e) => match e.llm() {
                Some(call) => {
                    let mut announced = call.announced.dup();
                    extend(&mut announced, p.announced.dup());
                    EffectEntry {
                        id: e.id.dup(),
                        anchor: e.anchor.dup(),
                        tracking: e.tracking,
                        body: EffectBody::Llm(
                            LlmCall {
                                llm: call.llm.dup(),
                                format: call.format,
                                request: LlmRequest {
                                    tools: p.tools.dup(),
                                    messages: p.messages.dup(),
                                    ..call.request.dup()
                                },
                                stream: call.stream,
                                handler: call.handler,
                                defer_tools_strategy: call.defer_tools_strategy,
                                announced,
                            },
                        ),
                    }
                },
                None => {
                    return;
                },
            },
            None => {
                return;
            },
        };
        self.put_effect(entry);
    }

    fn enter(&mut self, kind: EffectKind, id: &str, state: EffectStatus)
        ensures
            final(self).v() == old(self).v().enter(kind, id@, state),
    {
        match self.tracking(kind, id) {
            Some(t) => self.set_tracking(kind, id, t.enter(state)),
            None => {},
        }
        self.dequeue(kind, id);
    }

    fn ask_decision(&mut self, p: &DecisionQueued, at: i128, seq: u64)
        ensures
            final(self).v() == old(self).v().ask_decision(p.v(), at, seq),
    {
        let retry = self.worker_retry;
        self.ask(
            &p.id,
            0,
            retry,
            EffectKind::Decision,
            EffectBody::Decision(
                WorkerDecision { trigger: p.trigger.dup(), source_event_sequence: seq },
            ),
            at,
        );
        match &p.trigger {
            Trigger::SessionStart => {
                self.session_start_failed = false;
            },
            Trigger::TurnFinished { turn_id, data, cost, usage } => {
                self.phase = TurnPhase::Finalizing(
                    Finalizing {
                        turn_id: turn_id.dup(),
                        data: data.dup(),
                        cost: *cost,
                        usage: usage.dup(),
                    },
                );
                self.enqueue(EffectKind::TurnEnd, turn_id.dup());
            },
            Trigger::InterruptResumed { .. } => {
                self.jump(EffectKind::Decision, p.id.dup());
            },
            _ => {},
        }
    }

    fn forget_decision(&mut self, id: &str)
        ensures
            final(self).v() == old(self).v().forget_decision(id@),
    {
        self.remove_effect(EffectKind::Decision, id);
        self.dequeue(EffectKind::Decision, id);
    }

    fn fail_decision(&mut self, p: &DecisionErrored, at: i128)
        ensures
            final(self).v() == old(self).v().fail_decision(p.v(), at),
    {
        let start = match self.worker_decision(&p.id) {
            Some(d) => match d.trigger {
                Trigger::SessionStart => true,
                _ => false,
            },
            None => false,
        };
        match self.tracking(EffectKind::Decision, &p.id) {
            Some(t) => {
                if t.is_terminal_failure(p.retryable) {
                    self.forget_decision(&p.id);
                    self.session_start_failed = self.session_start_failed || start;
                } else {
                    self.fail(EffectKind::Decision, &p.id, p.retryable, at);
                }
            },
            None => {},
        }
    }

    fn complete_tool(&mut self, p: &ToolCallCompleted)
        ensures
            final(self).v() == old(self).v().complete_tool(p.v()),
    {
        proof {
            lemma_position(self.effects.v(), named(EffectKind::ToolCall, p.id@));
        }
        match self.effect(EffectKind::ToolCall, &p.id) {
            Some(e) => match e.tool() {
                Some(tool) => {
                    let done = EffectEntry {
                        id: e.id.dup(),
                        anchor: e.anchor.dup(),
                        tracking: e.tracking.enter(EffectStatus::Completed),
                        body: EffectBody::Tool(
                            ToolCallState {
                                name: tool.name.dup(),
                                arguments: tool.arguments.dup(),
                                handler: tool.handler,
                                target: tool.target.dup(),
                                result: Some(p.result.rendered()),
                                is_error: p.result.is_error,
                            },
                        ),
                    };
                    self.put_effect(done);
                    self.dequeue(EffectKind::ToolCall, &p.id);
                },
                None => {},
            },
            None => {},
        }
    }

    fn fail_tool(&mut self, p: &ToolCallErrored, at: i128)
        ensures
            final(self).v() == old(self).v().fail_tool(p.v(), at),
    {
        proof {
            lemma_position(self.effects.v(), named(EffectKind::ToolCall, p.id@));
        }
        match self.effect(EffectKind::ToolCall, &p.id) {
            Some(e) => match e.tool() {
                Some(tool) => {
                    let mut body = tool.dup();
                    if e.tracking.is_terminal_failure(p.retryable) {
                        body.result = Some(p.error.message.dup());
                        body.is_error = true;
                    }
                    let target = tool.target.dup();
                    let failed = EffectEntry {
                        id: e.id.dup(),
                        anchor: e.anchor.dup(),
                        tracking: e.tracking.fail(p.retryable, at),
                        body: EffectBody::Tool(body),
                    };
                    self.put_effect(failed);
                    self.dequeue(EffectKind::ToolCall, &p.id);
                    match (target, p.auth) {
                        (Some(ConnectorTarget::Remote { path, .. }), Some(auth)) => {
                            self.mark_auth(&path.to_string(), Some(auth));
                        },
                        _ => {},
                    }
                },
                None => {},
            },
            None => {},
        }
    }

    fn mark_auth(&mut self, id: &str, auth: Option<AuthNeed>)
        ensures
            final(self).v() == old(self).v().mark_auth(id@, auth),
    {
        proof {
            lemma_position(self.effects.v(), named(EffectKind::ConnectorSync, id@));
        }
        match self.effect(EffectKind::ConnectorSync, id) {
            Some(e) => match e.connector() {
                Some(sync) => {
                    let mut body = sync.dup();
                    body.auth = auth;
                    let marked = EffectEntry {
                        id: e.id.dup(),
                        anchor: e.anchor.dup(),
                        tracking: e.tracking,
                        body: EffectBody::Connector(body),
                    };
                    self.put_effect(marked);
                },
                None => {},
            },
            None => {},
        }
    }

    fn complete_llm(&mut self, p: &LlmCallCompleted)
        ensures
            final(self).v() == old(self).v().complete_llm(p.v()),
    {
        self.enter(EffectKind::LlmCall, &p.id, EffectStatus::Completed);
        match p.response.cost {
            Some(cost) => {
                self.turn_cost = self.turn_cost.saturating_add(cost);
            },
            None => {},
        }
        match &p.response.usage {
            Some(usage) => {
                if self.turn_token_usage.can_add(usage) {
                    self.turn_token_usage.add(usage);
                }
            },
            None => {},
        }
    }

    fn fail(&mut self, kind: EffectKind, id: &str, retryable: bool, at: i128)
        ensures
            final(self).v() == old(self).v().fail(kind, id@, retryable, at),
    {
        match self.tracking(kind, id) {
            Some(t) => {
                self.set_tracking(kind, id, t.fail(retryable, at));
                self.dequeue(kind, id);
            },
            None => {},
        }
    }

    fn start_subagent(&mut self, id: &str)
        ensures
            final(self).v() == old(self).v().start_subagent(id@),
    {
        match self.subagent(id) {
            Some(call) => {
                let state = if call.mode == SpawnMode::Detached {
                    EffectStatus::Completed
                } else {
                    EffectStatus::Running
                };
                self.enter(EffectKind::Subagent, id, state);
            },
            None => {},
        }
    }

    fn fail_subagent(&mut self, p: &SubagentErrored, at: i128)
        ensures
            final(self).v() == old(self).v().fail_subagent(p.v(), at),
    {
        proof {
            lemma_position(self.effects.v(), named(EffectKind::Subagent, p.id@));
        }
        match self.effect(EffectKind::Subagent, &p.id) {
            Some(e) => match e.subagent() {
                Some(call) => {
                    let mut body = call.dup();
                    if e.tracking.is_terminal_failure(p.retryable) {
                        body.result = Some(p.error.message.dup());
                        body.is_error = true;
                    }
                    let failed = EffectEntry {
                        id: e.id.dup(),
                        anchor: e.anchor.dup(),
                        tracking: e.tracking.fail(p.retryable, at),
                        body: EffectBody::Subagent(body),
                    };
                    self.put_effect(failed);
                    self.dequeue(EffectKind::Subagent, &p.id);
                },
                None => {},
            },
            None => {},
        }
    }

    fn complete_subagent(&mut self, p: &SubagentTurnCompleted)
        ensures
            final(self).v() == old(self).v().complete_subagent(p.v()),
    {
        proof {
            lemma_position(self.effects.v(), named(EffectKind::Subagent, p.id@));
        }
        self.subagent_cost = self.subagent_cost.saturating_add(p.cost);
        match &p.turn_id {
            Some(turn_id) => append_one(&mut self.detached_turns, turn_id.dup()),
            None => {},
        }
        match self.effect(EffectKind::Subagent, &p.id) {
            Some(e) => match e.subagent() {
                Some(call) => {
                    let mut body = call.dup();
                    body.result = Some(turn_text(p));
                    body.is_error = p.error.is_some();
                    let done = EffectEntry {
                        id: e.id.dup(),
                        anchor: e.anchor.dup(),
                        tracking: e.tracking.enter(EffectStatus::Completed),
                        body: EffectBody::Subagent(body),
                    };
                    self.put_effect(done);
                    self.dequeue(EffectKind::Subagent, &p.id);
                },
                None => {},
            },
            None => {},
        }
    }

    fn ask_sync(&mut self, p: &ConnectorSyncRequested, at: i128)
        ensures
            final(self).v() == old(self).v().ask_sync(p.v(), at),
    {
        let id = p.path.to_string();
        let fresh = EffectTracking::queued(p.retry, p.attempt, at).start(at);
        proof {
            lemma_position(self.effects.v(), named(EffectKind::ConnectorSync, id@));
        }
        let entry = match self.effect(EffectKind::ConnectorSync, &id) {
            Some(e) => EffectEntry {
                id: e.id.dup(),
                anchor: e.anchor.dup(),
                tracking: EffectTracking {
                    state: fresh.state,
                    retry: fresh.retry,
                    deadline: fresh.deadline,
                    total_deadline: if p.attempt > 0 {
                        e.tracking.total_deadline
                    } else {
                        fresh.total_deadline
                    },
                },
                body: e.body.dup(),
            },
            None => EffectEntry {
                id,
                anchor: None,
                tracking: fresh,
                body: EffectBody::Connector(
                    ConnectorSync {
                        path: p.path.dup(),
                        prefix: None,
                        tools: crate::model::none(),
                        instructions: None,
                        auth: None,
                    },
                ),
            },
        };
        self.put_effect(entry);
    }

    fn complete_sync(&mut self, p: &ConnectorSyncCompleted)
        ensures
            final(self).v() == old(self).v().complete_sync(p.v()),
    {
        proof {
            lemma_position(self.effects.v(), named(EffectKind::ConnectorSync, p.id@));
        }
        match self.effect(EffectKind::ConnectorSync, &p.id) {
            Some(e) => match e.connector() {
                Some(sync) => {
                    let done = EffectEntry {
                        id: e.id.dup(),
                        anchor: e.anchor.dup(),
                        tracking: e.tracking.enter(EffectStatus::Completed),
                        body: EffectBody::Connector(
                            ConnectorSync {
                                path: sync.path.dup(),
                                prefix: p.prefix.dup(),
                                tools: p.tools.dup(),
                                instructions: p.instructions.dup(),
                                auth: None,
                            },
                        ),
                    };
                    self.put_effect(done);
                },
                None => {},
            },
            None => {},
        }
    }

    fn fail_sync(&mut self, p: &ConnectorSyncErrored, at: i128)
        ensures
            final(self).v() == old(self).v().fail_sync(p.v(), at),
    {
        self.fail(EffectKind::ConnectorSync, &p.id, p.retryable, at);
        self.mark_auth(&p.id, p.auth);
    }

    fn void(&mut self, p: &CallVoided)
        ensures
            final(self).v() == old(self).v().void(p.v()),
    {
        self.enter(p.kind, &p.id, EffectStatus::Failed);
    }

    fn recalls(&self, i: &SessionInterrupted, e: &EffectEntry) -> (r: bool)
        ensures
            r == self.v().recalls(i.v(), e.v()),
    {
        if e.tracking.state != EffectStatus::Pending {
            return false;
        }
        match e.decision() {
            Some(d) => match &d.trigger {
                Trigger::ClientAction { .. } => false,
                Trigger::InterruptResumed { .. } => false,
                Trigger::ClientTranscript { messages, new_from, .. } => {
                    let node = if 0 < *new_from && *new_from <= messages.len() {
                        as_text(&messages[*new_from - 1].id)
                    } else {
                        None
                    };
                    self.at(node).anchor_on_path(as_text(&i.anchor))
                },
                trigger => {
                    let node = self.branch_of(self.trigger_anchor(trigger));
                    self.at(node).anchor_on_path(as_text(&i.anchor))
                },
            },
            None => false,
        }
    }

    fn interrupt(&mut self, i: &SessionInterrupted)
        ensures
            final(self).v() == old(self).v().interrupt(i.v()),
    {
        let ghost before = self.v();
        let ghost keep = self.v().kept_through(i.v());
        let mut kept: Vec<EffectEntry> = crate::model::none();
        let mut k: usize = 0;
        assert(self.effects.v().take(0) =~= Seq::empty());
        while k < self.effects.len()
            invariant
                k <= self.effects@.len(),
                before == self.v(),
                keep == self.v().kept_through(i.v()),
                kept.v() == collect(self.effects.v().take(k as int), keep),
            decreases self.effects@.len() - k,
        {
            proof {
                lemma_collect_step(self.effects.v(), keep, k as int);
            }
            if !self.recalls(i, &self.effects[k]) {
                append_one(&mut kept, self.effects[k].dup());
            }
            k = k + 1;
        }
        assert(self.effects.v().take(k as int) =~= self.effects.v());
        self.effects = kept;
        append_one(&mut self.open_interrupts, i.dup());
    }

    fn resume(&mut self, id: &str)
        ensures
            final(self).v() == old(self).v().resume(id@),
    {
        let mut kept: Vec<SessionInterrupted> = crate::model::none();
        let mut k: usize = 0;
        assert(self.open_interrupts.v().take(0) =~= Seq::empty());
        while k < self.open_interrupts.len()
            invariant
                k <= self.open_interrupts@.len(),
                self.v() == old(self).v(),
                kept.v() == collect(self.open_interrupts.v().take(k as int), other_than(id@)),
            decreases self.open_interrupts@.len() - k,
        {
            proof {
                lemma_collect_step(self.open_interrupts.v(), other_than(id@), k as int);
            }
            if !text::eq(self.open_interrupts[k].interrupt_id.as_str(), id) {
                append_one(&mut kept, self.open_interrupts[k].dup());
            }
            k = k + 1;
        }
        assert(self.open_interrupts.v().take(k as int) =~= self.open_interrupts.v());
        self.open_interrupts = kept;
    }

    fn start_turn(&mut self, turn_id: &String)
        ensures
            final(self).v() == old(self).v().start_turn(turn_id@),
    {
        self.phase = TurnPhase::Active { turn_id: turn_id.dup() };
        self.turn_cost = no_cost();
        self.turn_token_usage = Usage::default();
    }

    fn complete_turn(&mut self, turn_id: &String)
        ensures
            final(self).v() == old(self).v().complete_turn(turn_id@),
    {
        self.phase = TurnPhase::Idle;
        append_one(&mut self.completed_turn_ids, turn_id.dup());
        self.dequeue(EffectKind::TurnEnd, turn_id);
    }

    fn cancel(&mut self)
        ensures
            final(self).v() == old(self).v().cancel(),
    {
        let mut kept: Vec<EffectEntry> = crate::model::none();
        let mut k: usize = 0;
        assert(self.effects.v().take(0) =~= Seq::empty());
        while k < self.effects.len()
            invariant
                k <= self.effects@.len(),
                self.v() == old(self).v(),
                kept.v() == collect(self.effects.v().take(k as int), but_decisions()),
            decreases self.effects@.len() - k,
        {
            proof {
                lemma_collect_step(self.effects.v(), but_decisions(), k as int);
            }
            if self.effects[k].kind() != EffectKind::Decision {
                append_one(&mut kept, self.effects[k].dup());
            }
            k = k + 1;
        }
        assert(self.effects.v().take(k as int) =~= self.effects.v());
        self.effects = kept;
        self.status = SessionStatus::Done;
        self.phase = TurnPhase::Idle;
        self.schedule_queue = crate::model::none();
    }

    fn ask_tool(&mut self, p: &ToolCallRequested, at: i128)
        ensures
            final(self).v() == old(self).v().ask_tool(p.v(), at),
    {
        let body = EffectBody::Tool(
            ToolCallState {
                name: p.name.dup(),
                arguments: p.arguments.dup(),
                handler: p.handler,
                target: p.target.dup(),
                result: None,
                is_error: false,
            },
        );
        self.ask(&p.id, p.attempt, p.retry, EffectKind::ToolCall, body, at);
    }

    fn ask_llm(&mut self, p: &LlmCallRequested, at: i128)
        ensures
            final(self).v() == old(self).v().ask_llm(p.v(), at),
    {
        proof {
            lemma_position(self.v().effects, named(EffectKind::LlmCall, p.id@));
        }
        let mut announced: Vec<String> = crate::model::none();
        if p.attempt > 0 {
            match self.effect(EffectKind::LlmCall, &p.id) {
                Some(e) => match e.llm() {
                    Some(call) => {
                        announced = call.announced.dup();
                    },
                    None => {},
                },
                None => {},
            }
        }
        let body = EffectBody::Llm(
            LlmCall {
                llm: p.llm.dup(),
                format: p.format,
                request: p.request.dup(),
                stream: p.stream,
                handler: p.handler,
                defer_tools_strategy: p.defer_tools_strategy,
                announced,
            },
        );
        self.ask(&p.id, p.attempt, p.retry, EffectKind::LlmCall, body, at);
    }

    fn ask_subagent(&mut self, p: &SubagentRequested, at: i128)
        ensures
            final(self).v() == old(self).v().ask_subagent(p.v(), at),
    {
        let body = EffectBody::Subagent(
            SubagentCall {
                session_id: p.session_id.dup(),
                agent_id: p.agent_id.dup(),
                message: p.message.dup(),
                mode: p.mode,
                decision_id: p.decision_id.dup(),
                result: None,
                is_error: false,
            },
        );
        self.ask(&p.id, p.attempt, p.retry, EffectKind::Subagent, body, at);
    }

    fn create(&mut self, p: &SessionCreated)
        ensures
            final(self).v() == old(self).v().create(p.v()),
    {
        self.agent_id = Some(p.agent_id.dup());
        self.owner = Some(p.identity.dup());
        self.ancestry = p.ancestry.dup();
        self.worker_retry = p.worker_retry;
        self.worker = p.worker.dup();
    }

    fn write_agent(&mut self, p: &AgentConfigUpdated, seq: u64)
        ensures
            final(self).v() == old(self).v().write_agent(p.v(), seq),
    {
        let entry = AgentVersion { value: p.config.dup(), anchor: p.anchor.dup() };
        append_one(&mut self.agent_versions, Logged { seq, entry });
    }

    fn write_state(&mut self, p: &WorkerStateUpdated, seq: u64)
        ensures
            final(self).v() == old(self).v().write_state(p.v(), seq),
    {
        let entry = StateVersion { value: p.state.dup(), anchor: p.anchor.dup() };
        append_one(&mut self.state_versions, Logged { seq, entry });
    }

    fn record(&mut self, p: &NewMessage)
        ensures
            final(self).v() == old(self).v().record(p.v()),
    {
        append_one(&mut self.nodes, p.dup());
        self.head_id = Some(p.message.id.dup());
    }

    fn move_head(&mut self, head_id: &String)
        ensures
            final(self).v() == old(self).v().move_head(head_id@),
    {
        self.head_id = Some(head_id.dup());
    }

    /// An event of a decision.
    fn apply_decision(&mut self, event: &EventPayload, ctx: &ApplyContext)
        requires
            event.v() is DecisionQueued || event.v() is DecisionDispatched
                || event.v() is DecisionCompleted || event.v() is DecisionDropped
                || event.v() is DecisionErrored,
        ensures
            final(self).v() == old(self).v().apply(event.v(), *ctx),
    {
        proof {
            reveal(SessionStateV::apply);
        }
        let at = ctx.occurred_at;
        match event {
            EventPayload::DecisionQueued(p) => self.ask_decision(p, at, ctx.sequence),
            EventPayload::DecisionDispatched(p) => self.begin(EffectKind::Decision, &p.id, at),
            EventPayload::DecisionCompleted(p) => self.forget_decision(&p.id),
            EventPayload::DecisionDropped(p) => self.forget_decision(&p.id),
            EventPayload::DecisionErrored(p) => self.fail_decision(p, at),
            _ => {},
        }
    }

    /// An event of a tool call.
    fn apply_tool(&mut self, event: &EventPayload, ctx: &ApplyContext)
        requires
            event.v() is ToolCallRequested || event.v() is ToolCallDispatched
                || event.v() is ToolCallCompleted || event.v() is ToolCallErrored,
        ensures
            final(self).v() == old(self).v().apply(event.v(), *ctx),
    {
        proof {
            reveal(SessionStateV::apply);
        }
        let at = ctx.occurred_at;
        match event {
            EventPayload::ToolCallRequested(p) => self.ask_tool(p, at),
            EventPayload::ToolCallDispatched(p) => self.begin(EffectKind::ToolCall, &p.id, at),
            EventPayload::ToolCallCompleted(p) => self.complete_tool(p),
            EventPayload::ToolCallErrored(p) => self.fail_tool(p, at),
            _ => {},
        }
    }

    /// An event of a call to a model.
    fn apply_llm(&mut self, event: &EventPayload, ctx: &ApplyContext)
        requires
            event.v() is LlmCallRequested || event.v() is LlmCallDispatched
                || event.v() is LlmCallCompleted || event.v() is LlmCallErrored,
        ensures
            final(self).v() == old(self).v().apply(event.v(), *ctx),
    {
        proof {
            reveal(SessionStateV::apply);
        }
        let at = ctx.occurred_at;
        match event {
            EventPayload::LlmCallRequested(p) => self.ask_llm(p, at),
            EventPayload::LlmCallDispatched(p) => self.begin_llm(p, at),
            EventPayload::LlmCallCompleted(p) => self.complete_llm(p),
            EventPayload::LlmCallErrored(p) => self.fail(EffectKind::LlmCall, &p.id, p.retryable, at),
            _ => {},
        }
    }

    /// An event of a call to a subagent.
    fn apply_subagent(&mut self, event: &EventPayload, ctx: &ApplyContext)
        requires
            event.v() is SubagentRequested || event.v() is SubagentDispatched
                || event.v() is SubagentStarted || event.v() is SubagentErrored
                || event.v() is SubagentTurnCompleted,
        ensures
            final(self).v() == old(self).v().apply(event.v(), *ctx),
    {
        proof {
            reveal(SessionStateV::apply);
        }
        let at = ctx.occurred_at;
        match event {
            EventPayload::SubagentRequested(p) => self.ask_subagent(p, at),
            EventPayload::SubagentDispatched(p) => self.begin(EffectKind::Subagent, &p.id, at),
            EventPayload::SubagentStarted(p) => self.start_subagent(&p.id),
            EventPayload::SubagentErrored(p) => self.fail_subagent(p, at),
            EventPayload::SubagentTurnCompleted(p) => self.complete_subagent(p),
            _ => {},
        }
    }

    /// An event of a fetch.
    fn apply_sync(&mut self, event: &EventPayload, ctx: &ApplyContext)
        requires
            event.v() is ConnectorSyncRequested || event.v() is ConnectorSyncCompleted
                || event.v() is ConnectorSyncErrored,
        ensures
            final(self).v() == old(self).v().apply(event.v(), *ctx),
    {
        proof {
            reveal(SessionStateV::apply);
        }
        let at = ctx.occurred_at;
        match event {
            EventPayload::ConnectorSyncRequested(p) => self.ask_sync(p, at),
            EventPayload::ConnectorSyncCompleted(p) => self.complete_sync(p),
            EventPayload::ConnectorSyncErrored(p) => self.fail_sync(p, at),
            _ => {},
        }
    }

    /// An event of a turn, an interrupt, or the end of the session.
    fn apply_turn(&mut self, event: &EventPayload, ctx: &ApplyContext)
        requires
            event.v() is SessionInterrupted || event.v() is InterruptResumed
                || event.v() is TurnStarted || event.v() is TurnCompleted
                || event.v() is SessionCancelled,
        ensures
            final(self).v() == old(self).v().apply(event.v(), *ctx),
    {
        proof {
            reveal(SessionStateV::apply);
        }
        match event {
            EventPayload::SessionInterrupted(p) => self.interrupt(p),
            EventPayload::InterruptResumed(p) => self.resume(&p.interrupt_id),
            EventPayload::TurnStarted(p) => self.start_turn(&p.turn_id),
            EventPayload::TurnCompleted(p) => self.complete_turn(&p.turn_id),
            EventPayload::SessionCancelled => self.cancel(),
            _ => {},
        }
    }

    /// Any other event.
    fn apply_record(&mut self, event: &EventPayload, ctx: &ApplyContext)
        requires
            event.v() is SessionCreated || event.v() is AgentConfigUpdated
                || event.v() is WorkerStateUpdated || event.v() is CallVoided
                || event.v() is NewMessage || event.v() is HeadMoved || event.v() is SessionDone
                || event.v() is ChannelsUpdated || event.v() is SessionMessageRequested,
        ensures
            final(self).v() == old(self).v().apply(event.v(), *ctx),
    {
        proof {
            reveal(SessionStateV::apply);
        }
        match event {
            EventPayload::SessionCreated(p) => self.create(p),
            EventPayload::AgentConfigUpdated(p) => self.write_agent(p, ctx.sequence),
            EventPayload::WorkerStateUpdated(p) => self.write_state(p, ctx.sequence),
            EventPayload::CallVoided(p) => self.void(p),
            EventPayload::NewMessage(p) => self.record(p),
            EventPayload::HeadMoved(p) => self.move_head(&p.head_id),
            _ => {},
        }
    }

    /// Puts an event into the session.
    pub fn apply(&mut self, event: &EventPayload, ctx: &ApplyContext)
        ensures
            final(self).v() == old(self).v().apply(event.v(), *ctx),
    {
        match event {
            EventPayload::DecisionQueued(_) => self.apply_decision(event, ctx),
            EventPayload::DecisionDispatched(_) => self.apply_decision(event, ctx),
            EventPayload::DecisionCompleted(_) => self.apply_decision(event, ctx),
            EventPayload::DecisionDropped(_) => self.apply_decision(event, ctx),
            EventPayload::DecisionErrored(_) => self.apply_decision(event, ctx),
            EventPayload::ToolCallRequested(_) => self.apply_tool(event, ctx),
            EventPayload::ToolCallDispatched(_) => self.apply_tool(event, ctx),
            EventPayload::ToolCallCompleted(_) => self.apply_tool(event, ctx),
            EventPayload::ToolCallErrored(_) => self.apply_tool(event, ctx),
            EventPayload::LlmCallRequested(_) => self.apply_llm(event, ctx),
            EventPayload::LlmCallDispatched(_) => self.apply_llm(event, ctx),
            EventPayload::LlmCallCompleted(_) => self.apply_llm(event, ctx),
            EventPayload::LlmCallErrored(_) => self.apply_llm(event, ctx),
            EventPayload::SubagentRequested(_) => self.apply_subagent(event, ctx),
            EventPayload::SubagentDispatched(_) => self.apply_subagent(event, ctx),
            EventPayload::SubagentStarted(_) => self.apply_subagent(event, ctx),
            EventPayload::SubagentErrored(_) => self.apply_subagent(event, ctx),
            EventPayload::SubagentTurnCompleted(_) => self.apply_subagent(event, ctx),
            EventPayload::ConnectorSyncRequested(_) => self.apply_sync(event, ctx),
            EventPayload::ConnectorSyncCompleted(_) => self.apply_sync(event, ctx),
            EventPayload::ConnectorSyncErrored(_) => self.apply_sync(event, ctx),
            EventPayload::SessionInterrupted(_) => self.apply_turn(event, ctx),
            EventPayload::InterruptResumed(_) => self.apply_turn(event, ctx),
            EventPayload::TurnStarted(_) => self.apply_turn(event, ctx),
            EventPayload::TurnCompleted(_) => self.apply_turn(event, ctx),
            EventPayload::SessionCancelled => self.apply_turn(event, ctx),
            _ => self.apply_record(event, ctx),
        }
    }
}

/// What a child's turn came to, in text.
pub fn turn_text(p: &SubagentTurnCompleted) -> (r: String)
    ensures
        r@ == outcome_text(p.v()),
{
    match &p.error {
        Some(error) => error.message.dup(),
        None => json_text_of(&p.data),
    }
}

/// A document as the text of an answer.
pub fn json_text_of(data: &Json) -> (r: String)
    ensures
        r@ == data.v().plain_text(),
{
    match &data.kind {
        JsonKind::Text(text) => text.dup(),
        JsonKind::Null => String::new(),
        JsonKind::Other => data.text.dup(),
    }
}

} // verus!
