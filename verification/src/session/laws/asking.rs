//! What it does to a session that work is asked for, and goes out.
use crate::model::{lemma_position, position};
use crate::protocol::effect::{EffectKind, EffectStatus, RetryPolicy};
use crate::protocol::llm::LlmRequestV;
use crate::session::apply::ApplyContext;
use crate::session::decision::TriggerV;
use crate::session::events::{
    ConnectorSyncRequestedV, DecisionDispatchedV, DecisionQueuedV, EventPayloadV,
    LlmCallDispatchedV, LlmCallRequestedV, SubagentDispatchedV, SubagentRequestedV,
    ToolCallDispatchedV, ToolCallRequestedV,
};
use crate::session::laws::table::{
    lemma_ask, lemma_found, lemma_kept_on, lemma_put, lemma_set, only_work, others_kept,
};
use crate::session::state::{
    limit, queued_as, ConnectorSyncV, EffectBodyV, EffectEntryV, EffectTracking, FinalizingV,
    LlmCallV, QueueEntryV, RetryState, SessionStateV, SubagentCallV, ToolCallStateV, TurnPhaseV,
    WorkerDecisionV,
};
use vstd::prelude::*;

verus! {

/// Where work stands that was just asked for.
pub open spec fn fresh(policy: RetryPolicy, attempts: u32, at: i128) -> EffectTracking {
    EffectTracking {
        state: EffectStatus::Queued,
        retry: RetryState { policy, attempts, next_at: None },
        deadline: limit(at, policy.queue_timeout_secs),
        total_deadline: limit(at, policy.total_timeout_secs),
    }
}

/// Whether something waits in the queue.
pub open spec fn waits(s: SessionStateV, kind: EffectKind, id: Seq<char>) -> bool {
    s.schedule_queue.contains(QueueEntryV { kind, id })
}

proof fn lemma_enqueued(s: SessionStateV, kind: EffectKind, id: Seq<char>)
    ensures
        waits(s.enqueue(kind, id), kind, id),
        s.enqueue(kind, id) == (SessionStateV {
            schedule_queue: s.enqueue(kind, id).schedule_queue,
            ..s
        }),
        forall|q: QueueEntryV|
            s.schedule_queue.contains(q) ==> s.enqueue(kind, id).schedule_queue.contains(q),
{
    lemma_position(s.schedule_queue, queued_as(kind, id));
    let t = s.enqueue(kind, id);
    let q = QueueEntryV { kind, id };
    match position(s.schedule_queue, queued_as(kind, id)) {
        Some(i) => {
            assert(t.schedule_queue[i] == q);
        },
        None => {
            assert(t.schedule_queue.last() == q);
            assert forall|q: QueueEntryV| s.schedule_queue.contains(
                q,
            ) implies t.schedule_queue.contains(q) by {
                let i = choose|i: int| 0 <= i < s.schedule_queue.len() && s.schedule_queue[i] == q;
                assert(t.schedule_queue[i] == q);
            }
        },
    }
}

/// A question to the worker waits at the node the session stands at, under the
/// worker's own policy. The question that ends a turn fixes what the turn came
/// to, and the turn's end waits behind it. The news that an interrupt was
/// resumed goes first.
pub proof fn law_a_question_waits(s: SessionStateV, p: DecisionQueuedV, ctx: ApplyContext)
    ensures
        ({
            let t = s.apply(EventPayloadV::DecisionQueued(p), ctx);
            &&& t.effect(EffectKind::Decision, p.id) == Some(
                EffectEntryV {
                    id: p.id,
                    anchor: s.head_id,
                    tracking: fresh(s.worker_retry, 0, ctx.occurred_at),
                    body: EffectBodyV::Decision(
                        WorkerDecisionV {
                            trigger: p.trigger,
                            source_event_sequence: ctx.sequence,
                        },
                    ),
                },
            )
            &&& others_kept(s, t, EffectKind::Decision, p.id)
            &&& waits(t, EffectKind::Decision, p.id)
            &&& t.phase == match p.trigger {
                TriggerV::TurnFinished { turn_id, data, cost, usage } => TurnPhaseV::Finalizing(
                    FinalizingV { turn_id, data, cost, usage },
                ),
                _ => s.phase,
            }
            &&& match p.trigger {
                TriggerV::TurnFinished { turn_id, .. } => waits(t, EffectKind::TurnEnd, turn_id),
                TriggerV::InterruptResumed { .. } => t.schedule_queue[0] == (QueueEntryV {
                    kind: EffectKind::Decision,
                    id: p.id,
                }),
                _ => true,
            }
            &&& t.session_start_failed == (s.session_start_failed && p.trigger
                != TriggerV::SessionStart)
            &&& t == (SessionStateV {
                effects: t.effects,
                schedule_queue: t.schedule_queue,
                phase: t.phase,
                session_start_failed: t.session_start_failed,
                ..s
            })
        }),
{
    reveal(SessionStateV::apply);
    let body = EffectBodyV::Decision(
        WorkerDecisionV { trigger: p.trigger, source_event_sequence: ctx.sequence },
    );
    lemma_ask(s, p.id, 0, s.worker_retry, body, ctx.occurred_at);
    let asked = s.ask(p.id, 0, s.worker_retry, body, ctx.occurred_at);
    lemma_asked_waits(s, p.id, 0, s.worker_retry, body, ctx.occurred_at);
    let t = s.apply(EventPayloadV::DecisionQueued(p), ctx);
    lemma_kept_on(s, asked, t, EffectKind::Decision, p.id);
    match p.trigger {
        TriggerV::TurnFinished { turn_id, data, cost, usage } => {
            let closing = SessionStateV {
                phase: TurnPhaseV::Finalizing(FinalizingV { turn_id, data, cost, usage }),
                ..asked
            };
            lemma_enqueued(closing, EffectKind::TurnEnd, turn_id);
        },
        TriggerV::InterruptResumed { .. } => {
            assert(t.schedule_queue[0] == QueueEntryV { kind: EffectKind::Decision, id: p.id });
        },
        _ => {},
    }
}

proof fn lemma_asked_waits(
    s: SessionStateV,
    id: Seq<char>,
    attempt: u32,
    retry: RetryPolicy,
    body: EffectBodyV,
    at: i128,
)
    ensures
        waits(s.ask(id, attempt, retry, body, at), body.kind(), id),
        forall|q: QueueEntryV|
            s.schedule_queue.contains(q) ==> s.ask(
                id,
                attempt,
                retry,
                body,
                at,
            ).schedule_queue.contains(q),
{
    let first = EffectTracking::asked(retry, attempt, at);
    let entry = match s.effect(body.kind(), id) {
        Some(e) if attempt > 0 => EffectEntryV {
            id,
            anchor: e.anchor,
            tracking: EffectTracking { total_deadline: e.tracking.total_deadline, ..first },
            body,
        },
        _ => EffectEntryV { id, anchor: s.head_id, tracking: first, body },
    };
    lemma_put(s, entry);
    lemma_enqueued(s.put_effect(entry), body.kind(), id);
}

/// Whether work of one kind and id was asked for: it waits with what it is to
/// do. A first attempt belongs to the node the session stands at. A further one
/// keeps the node, and the limit on all attempts together.
pub open spec fn was_asked(
    s: SessionStateV,
    t: SessionStateV,
    id: Seq<char>,
    attempt: u32,
    retry: RetryPolicy,
    body: EffectBodyV,
    kind: EffectKind,
    at: i128,
) -> bool {
    let before = s.effect(kind, id);
    let again = attempt > 0 && before is Some;
    &&& t.effect(kind, id) == Some(
        EffectEntryV {
            id,
            anchor: if again {
                before->0.anchor
            } else {
                s.head_id
            },
            tracking: EffectTracking {
                total_deadline: if again {
                    before->0.tracking.total_deadline
                } else {
                    limit(at, retry.total_timeout_secs)
                },
                ..fresh(retry, attempt, at)
            },
            body,
        },
    )
    &&& others_kept(s, t, kind, id)
    &&& only_work(s, t)
    &&& waits(t, kind, id)
}

/// A tool call that is asked for waits, as it was asked for.
pub proof fn law_a_tool_call_waits(s: SessionStateV, p: ToolCallRequestedV, ctx: ApplyContext)
    ensures
        was_asked(
            s,
            s.apply(EventPayloadV::ToolCallRequested(p), ctx),
            p.id,
            p.attempt,
            p.retry,
            EffectBodyV::Tool(
                ToolCallStateV {
                    name: p.name,
                    arguments: p.arguments,
                    handler: p.handler,
                    target: p.target,
                    result: None,
                    is_error: false,
                },
            ),
            EffectKind::ToolCall,
            ctx.occurred_at,
        ),
{
    reveal(SessionStateV::apply);
    let body = EffectBodyV::Tool(
        ToolCallStateV {
            name: p.name,
            arguments: p.arguments,
            handler: p.handler,
            target: p.target,
            result: None,
            is_error: false,
        },
    );
    lemma_ask(s, p.id, p.attempt, p.retry, body, ctx.occurred_at);
    lemma_asked_waits(s, p.id, p.attempt, p.retry, body, ctx.occurred_at);
}

/// A call to a model that is asked for waits, as it was asked for. A further
/// attempt remembers what the model was told.
pub proof fn law_a_model_call_waits(s: SessionStateV, p: LlmCallRequestedV, ctx: ApplyContext)
    ensures
        was_asked(
            s,
            s.apply(EventPayloadV::LlmCallRequested(p), ctx),
            p.id,
            p.attempt,
            p.retry,
            EffectBodyV::Llm(
                LlmCallV {
                    llm: p.llm,
                    format: p.format,
                    request: p.request,
                    stream: p.stream,
                    handler: p.handler,
                    defer_tools_strategy: p.defer_tools_strategy,
                    announced: if p.attempt > 0 && s.effect(EffectKind::LlmCall, p.id) is Some {
                        s.effect(EffectKind::LlmCall, p.id)->0.llm()->0.announced
                    } else {
                        Seq::empty()
                    },
                },
            ),
            EffectKind::LlmCall,
            ctx.occurred_at,
        ),
{
    reveal(SessionStateV::apply);
    let body = EffectBodyV::Llm(
        LlmCallV {
            llm: p.llm,
            format: p.format,
            request: p.request,
            stream: p.stream,
            handler: p.handler,
            defer_tools_strategy: p.defer_tools_strategy,
            announced: match s.effect(EffectKind::LlmCall, p.id) {
                Some(e) if p.attempt > 0 => e.llm()->0.announced,
                _ => Seq::empty(),
            },
        },
    );
    lemma_ask(s, p.id, p.attempt, p.retry, body, ctx.occurred_at);
    lemma_asked_waits(s, p.id, p.attempt, p.retry, body, ctx.occurred_at);
}

/// A call to a subagent that is asked for waits, as it was asked for.
pub proof fn law_a_child_call_waits(s: SessionStateV, p: SubagentRequestedV, ctx: ApplyContext)
    ensures
        was_asked(
            s,
            s.apply(EventPayloadV::SubagentRequested(p), ctx),
            p.id,
            p.attempt,
            p.retry,
            EffectBodyV::Subagent(
                SubagentCallV {
                    session_id: p.session_id,
                    agent_id: p.agent_id,
                    message: p.message,
                    mode: p.mode,
                    decision_id: p.decision_id,
                    result: None,
                    is_error: false,
                },
            ),
            EffectKind::Subagent,
            ctx.occurred_at,
        ),
{
    reveal(SessionStateV::apply);
    let body = EffectBodyV::Subagent(
        SubagentCallV {
            session_id: p.session_id,
            agent_id: p.agent_id,
            message: p.message,
            mode: p.mode,
            decision_id: p.decision_id,
            result: None,
            is_error: false,
        },
    );
    lemma_ask(s, p.id, p.attempt, p.retry, body, ctx.occurred_at);
    lemma_asked_waits(s, p.id, p.attempt, p.retry, body, ctx.occurred_at);
}

/// Where work stands once it is out: the attempt runs from now on.
pub open spec fn out_since(t: EffectTracking, at: i128) -> EffectTracking {
    EffectTracking {
        state: EffectStatus::Pending,
        retry: RetryState {
            policy: t.retry.policy,
            attempts: if t.state == EffectStatus::RetryScheduled && t.retry.attempts < u32::MAX {
                (t.retry.attempts + 1) as u32
            } else {
                t.retry.attempts
            },
            next_at: None,
        },
        deadline: limit(at, t.retry.policy.run_timeout_secs),
        total_deadline: t.total_deadline,
    }
}

/// Work that goes out is out, and its attempt runs from then on.
pub proof fn law_work_goes_out(s: SessionStateV, kind: EffectKind, id: Seq<char>, ctx: ApplyContext)
    requires
        kind == EffectKind::Decision || kind == EffectKind::ToolCall || kind
            == EffectKind::Subagent,
    ensures
        ({
            let t = s.apply(
                match kind {
                    EffectKind::Decision => EventPayloadV::DecisionDispatched(
                        DecisionDispatchedV { id },
                    ),
                    EffectKind::ToolCall => EventPayloadV::ToolCallDispatched(
                        ToolCallDispatchedV { id },
                    ),
                    _ => EventPayloadV::SubagentDispatched(SubagentDispatchedV { id }),
                },
                ctx,
            );
            &&& t.effect(kind, id) == match s.effect(kind, id) {
                Some(e) => Some(
                    EffectEntryV { tracking: out_since(e.tracking, ctx.occurred_at), ..e },
                ),
                None => None,
            }
            &&& others_kept(s, t, kind, id)
            &&& only_work(s, t)
        }),
{
    reveal(SessionStateV::apply);
    lemma_begun(s, kind, id, ctx.occurred_at);
}

/// What two changes to one piece of work keep.
pub proof fn lemma_kept_through(
    s: SessionStateV,
    t: SessionStateV,
    u: SessionStateV,
    kind: EffectKind,
    id: Seq<char>,
)
    requires
        others_kept(s, t, kind, id),
        others_kept(t, u, kind, id),
    ensures
        others_kept(s, u, kind, id),
{
    assert forall|k: EffectKind, i: Seq<char>| !(k == kind && i == id) implies #[trigger] u.effect(
        k,
        i,
    ) == s.effect(k, i) by {
        assert(t.effect(k, i) == s.effect(k, i));
    }
}

proof fn lemma_begun(s: SessionStateV, kind: EffectKind, id: Seq<char>, at: i128)
    ensures
        s.begin(kind, id, at).effect(kind, id) == match s.effect(kind, id) {
            Some(e) => Some(EffectEntryV { tracking: out_since(e.tracking, at), ..e }),
            None => None,
        },
        others_kept(s, s.begin(kind, id, at), kind, id),
        only_work(s, s.begin(kind, id, at)),
{
    let out = s.dequeue(kind, id);
    assert(out.effects == s.effects);
    match s.effect(kind, id) {
        Some(e) => {
            assert(e.tracking.begun(at) == out_since(e.tracking, at));
            lemma_set(out, kind, id, out_since(e.tracking, at));
            lemma_kept_on(s, s, out, kind, id);
            lemma_kept_through(s, out, s.begin(kind, id, at), kind, id);
        },
        None => {},
    }
}

/// A call to a model that goes out is out, with the tools and the messages it
/// goes out with, and with what it tells the model of.
pub proof fn law_a_model_call_goes_out(s: SessionStateV, p: LlmCallDispatchedV, ctx: ApplyContext)
    ensures
        ({
            let t = s.apply(EventPayloadV::LlmCallDispatched(p), ctx);
            &&& t.effect(EffectKind::LlmCall, p.id) == match s.effect(EffectKind::LlmCall, p.id) {
                Some(e) => Some(
                    EffectEntryV {
                        tracking: out_since(e.tracking, ctx.occurred_at),
                        body: EffectBodyV::Llm(
                            LlmCallV {
                                request: LlmRequestV {
                                    tools: p.tools,
                                    messages: p.messages,
                                    ..e.llm()->0.request
                                },
                                announced: e.llm()->0.announced + p.announced,
                                ..e.llm()->0
                            },
                        ),
                        ..e
                    },
                ),
                None => None,
            }
            &&& others_kept(s, t, EffectKind::LlmCall, p.id)
            &&& only_work(s, t)
        }),
{
    reveal(SessionStateV::apply);
    let kind = EffectKind::LlmCall;
    lemma_begun(s, kind, p.id, ctx.occurred_at);
    let begun = s.begin(kind, p.id, ctx.occurred_at);
    match begun.effect(kind, p.id) {
        Some(e) => {
            lemma_found(begun, kind, p.id);
            let sent = EffectEntryV {
                body: EffectBodyV::Llm(
                    LlmCallV {
                        request: LlmRequestV {
                            tools: p.tools,
                            messages: p.messages,
                            ..e.llm()->0.request
                        },
                        announced: e.llm()->0.announced + p.announced,
                        ..e.llm()->0
                    },
                ),
                ..e
            };
            lemma_put(begun, sent);
        },
        None => {},
    }
}

/// A fetch is out as soon as it is asked for. It belongs to no node, and keeps
/// what the connection offered before until it is answered.
pub proof fn law_a_fetch_is_out(s: SessionStateV, p: ConnectorSyncRequestedV, ctx: ApplyContext)
    ensures
        ({
            let t = s.apply(EventPayloadV::ConnectorSyncRequested(p), ctx);
            let id = p.path.written();
            let before = s.effect(EffectKind::ConnectorSync, id);
            let e = t.effect(EffectKind::ConnectorSync, id)->0;
            &&& t.effect(EffectKind::ConnectorSync, id) is Some
            &&& e.tracking == (EffectTracking {
                state: EffectStatus::Pending,
                retry: RetryState { policy: p.retry, attempts: p.attempt, next_at: None },
                deadline: limit(ctx.occurred_at, p.retry.run_timeout_secs),
                total_deadline: if p.attempt > 0 && before is Some {
                    before->0.tracking.total_deadline
                } else {
                    limit(ctx.occurred_at, p.retry.total_timeout_secs)
                },
            })
            &&& before is Some ==> e.body == before->0.body && e.anchor == before->0.anchor
            &&& before is None ==> e.anchor is None && e.body == EffectBodyV::Connector(
                ConnectorSyncV {
                    path: p.path,
                    prefix: None,
                    tools: Seq::empty(),
                    instructions: None,
                    auth: None,
                },
            )
            &&& others_kept(s, t, EffectKind::ConnectorSync, id)
            &&& only_work(s, t)
            &&& t.schedule_queue == s.schedule_queue
        }),
{
    reveal(SessionStateV::apply);
    let id = p.path.written();
    lemma_found(s, EffectKind::ConnectorSync, id);
    let first = EffectTracking::asked(p.retry, p.attempt, ctx.occurred_at).begun(ctx.occurred_at);
    let entry = match s.effect(EffectKind::ConnectorSync, id) {
        Some(e) => EffectEntryV {
            tracking: EffectTracking {
                total_deadline: if p.attempt > 0 {
                    e.tracking.total_deadline
                } else {
                    first.total_deadline
                },
                ..first
            },
            ..e
        },
        None => EffectEntryV {
            id,
            anchor: None,
            tracking: first,
            body: EffectBodyV::Connector(
                ConnectorSyncV {
                    path: p.path,
                    prefix: None,
                    tools: Seq::empty(),
                    instructions: None,
                    auth: None,
                },
            ),
        },
    };
    lemma_put(s, entry);
}

} // verus!
