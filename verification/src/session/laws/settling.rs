//! What it does to a session that work settles.
use crate::protocol::config::SpawnMode;
use crate::protocol::effect::{AuthNeed, EffectKind, EffectStatus};
use crate::protocol::json::decimal_sum;
use crate::session::apply::ApplyContext;
use crate::session::events::{
    CallVoidedV, ConnectorSyncCompletedV, EventPayloadV, LlmCallCompletedV, LlmCallErroredV,
    SubagentStartedV, ToolCallCompletedV,
};
use crate::session::laws::asking::waits;
use crate::session::laws::table::{
    lemma_found, lemma_kept_on, lemma_put, lemma_set, only_work, others_kept,
};
use crate::session::retry::{backoff, later};
use crate::session::state::{
    ConnectorSyncV, EffectBodyV, EffectEntryV, EffectTracking, RetryState, SessionStateV,
    ToolCallStateV,
};
use vstd::prelude::*;

verus! {

/// Where work stands that came to an end.
pub open spec fn over(t: EffectTracking, state: EffectStatus) -> EffectTracking {
    EffectTracking { state, deadline: None, ..t }
}

/// Whether a failure is the last one: no other attempt can help, or none is
/// left.
pub open spec fn is_last(t: EffectTracking, retryable: bool) -> bool {
    !retryable || t.retry.attempts + 1 >= t.retry.policy.max_attempts
}

/// Where work stands after a failure: it is over, or waits until the next
/// attempt.
pub open spec fn after_failure(t: EffectTracking, retryable: bool, at: i128) -> EffectTracking {
    if is_last(t, retryable) {
        over(t, EffectStatus::Failed)
    } else {
        EffectTracking {
            state: EffectStatus::RetryScheduled,
            retry: RetryState {
                next_at: Some(later(at, backoff(t.retry.policy, t.retry.attempts) as int)),
                ..t.retry
            },
            deadline: None,
            ..t
        }
    }
}

/// A tool call that is answered keeps the answer.
pub proof fn law_a_tool_call_keeps_its_answer(
    s: SessionStateV,
    p: ToolCallCompletedV,
    ctx: ApplyContext,
)
    ensures
        ({
            let t = s.apply(EventPayloadV::ToolCallCompleted(p), ctx);
            &&& t.effect(EffectKind::ToolCall, p.id) == match s.effect(
                EffectKind::ToolCall,
                p.id,
            ) {
                Some(e) => Some(
                    EffectEntryV {
                        tracking: over(e.tracking, EffectStatus::Completed),
                        body: EffectBodyV::Tool(
                            ToolCallStateV {
                                result: Some(p.result.rendered()),
                                is_error: p.result.is_error,
                                ..e.tool()->0
                            },
                        ),
                        ..e
                    },
                ),
                None => None,
            }
            &&& others_kept(s, t, EffectKind::ToolCall, p.id)
            &&& only_work(s, t)
        }),
{
    reveal(SessionStateV::apply);
    let kind = EffectKind::ToolCall;
    lemma_found(s, kind, p.id);
    match s.effect(kind, p.id) {
        Some(e) => {
            let done = EffectEntryV {
                tracking: e.tracking.with_state(EffectStatus::Completed),
                body: EffectBodyV::Tool(
                    ToolCallStateV {
                        result: Some(p.result.rendered()),
                        is_error: p.result.is_error,
                        ..e.tool()->0
                    },
                ),
                ..e
            };
            lemma_put(s, done);
            lemma_kept_on(
                s,
                s.put_effect(done),
                s.apply(EventPayloadV::ToolCallCompleted(p), ctx),
                kind,
                p.id,
            );
        },
        None => {},
    }
}

pub proof fn lemma_marked(
    s: SessionStateV,
    id: Seq<char>,
    auth: Option<AuthNeed>,
)
    ensures
        s.mark_auth(id, auth).effect(EffectKind::ConnectorSync, id) == match s.effect(
            EffectKind::ConnectorSync,
            id,
        ) {
            Some(e) => Some(
                EffectEntryV {
                    body: EffectBodyV::Connector(ConnectorSyncV { auth, ..e.connector()->0 }),
                    ..e
                },
            ),
            None => None,
        },
        others_kept(s, s.mark_auth(id, auth), EffectKind::ConnectorSync, id),
        only_work(s, s.mark_auth(id, auth)),
{
    lemma_found(s, EffectKind::ConnectorSync, id);
    match s.effect(EffectKind::ConnectorSync, id) {
        Some(e) => lemma_put(
            s,
            EffectEntryV {
                body: EffectBodyV::Connector(ConnectorSyncV { auth, ..e.connector()->0 }),
                ..e
            },
        ),
        None => {},
    }
}

/// A call to a model that is answered is over, and the turn pays for it.
pub proof fn law_a_model_call_is_paid_for(
    s: SessionStateV,
    p: LlmCallCompletedV,
    ctx: ApplyContext,
)
    ensures
        ({
            let t = s.apply(EventPayloadV::LlmCallCompleted(p), ctx);
            &&& t.effect(EffectKind::LlmCall, p.id) == match s.effect(EffectKind::LlmCall, p.id) {
                Some(e) => Some(
                    EffectEntryV { tracking: over(e.tracking, EffectStatus::Completed), ..e },
                ),
                None => None,
            }
            &&& others_kept(s, t, EffectKind::LlmCall, p.id)
            &&& t.turn_cost == if p.response.cost is Some {
                decimal_sum(s.turn_cost, p.response.cost->0)
            } else {
                s.turn_cost
            }
            &&& t.turn_token_usage == if p.response.usage is Some {
                s.turn_token_usage.with(p.response.usage->0)
            } else {
                s.turn_token_usage
            }
            &&& only_work(
                SessionStateV {
                    turn_cost: t.turn_cost,
                    turn_token_usage: t.turn_token_usage,
                    ..s
                },
                t,
            )
        }),
{
    reveal(SessionStateV::apply);
    let kind = EffectKind::LlmCall;
    lemma_entered(s, kind, p.id, EffectStatus::Completed);
    lemma_kept_on(
        s,
        s.enter(kind, p.id, EffectStatus::Completed),
        s.apply(EventPayloadV::LlmCallCompleted(p), ctx),
        kind,
        p.id,
    );
}

proof fn lemma_entered(s: SessionStateV, kind: EffectKind, id: Seq<char>, state: EffectStatus)
    ensures
        s.enter(kind, id, state).effect(kind, id) == match s.effect(kind, id) {
            Some(e) => Some(EffectEntryV { tracking: over(e.tracking, state), ..e }),
            None => None,
        },
        others_kept(s, s.enter(kind, id, state), kind, id),
        only_work(s, s.enter(kind, id, state)),
{
    match s.effect(kind, id) {
        Some(e) => {
            lemma_set(s, kind, id, over(e.tracking, state));
            assert(e.tracking.with_state(state) == over(e.tracking, state));
            let t = s.set_tracking(kind, id, over(e.tracking, state));
            lemma_kept_on(s, t, s.enter(kind, id, state), kind, id);
        },
        None => {},
    }
}

/// A call to a model that fails waits for another attempt, or is over.
pub proof fn law_a_model_call_fails(s: SessionStateV, p: LlmCallErroredV, ctx: ApplyContext)
    ensures
        ({
            let t = s.apply(EventPayloadV::LlmCallErrored(p), ctx);
            &&& t.effect(EffectKind::LlmCall, p.id) == match s.effect(EffectKind::LlmCall, p.id) {
                Some(e) => Some(
                    EffectEntryV {
                        tracking: after_failure(e.tracking, p.retryable, ctx.occurred_at),
                        ..e
                    },
                ),
                None => None,
            }
            &&& others_kept(s, t, EffectKind::LlmCall, p.id)
            &&& only_work(s, t)
        }),
{
    reveal(SessionStateV::apply);
    lemma_failed(s, EffectKind::LlmCall, p.id, p.retryable, ctx.occurred_at);
}

pub proof fn lemma_failed(
    s: SessionStateV,
    kind: EffectKind,
    id: Seq<char>,
    retryable: bool,
    at: i128,
)
    ensures
        s.fail(kind, id, retryable, at).effect(kind, id) == match s.effect(kind, id) {
            Some(e) => Some(
                EffectEntryV { tracking: after_failure(e.tracking, retryable, at), ..e },
            ),
            None => None,
        },
        others_kept(s, s.fail(kind, id, retryable, at), kind, id),
        only_work(s, s.fail(kind, id, retryable, at)),
{
    match s.effect(kind, id) {
        Some(e) => {
            assert(e.tracking.failed(retryable, at) == after_failure(e.tracking, retryable, at));
            lemma_set(s, kind, id, after_failure(e.tracking, retryable, at));
            let t = s.set_tracking(kind, id, after_failure(e.tracking, retryable, at));
            lemma_kept_on(s, t, s.fail(kind, id, retryable, at), kind, id);
        },
        None => {},
    }
}

/// A child session that took a call runs. Nobody waits for a detached one, so
/// that its call is over.
pub proof fn law_a_child_starts(s: SessionStateV, id: Seq<char>, ctx: ApplyContext)
    requires
        s.effect(EffectKind::Subagent, id) is Some,
    ensures
        ({
            let t = s.apply(EventPayloadV::SubagentStarted(SubagentStartedV { id }), ctx);
            let e = s.effect(EffectKind::Subagent, id)->0;
            &&& t.effect(EffectKind::Subagent, id) == Some(
                EffectEntryV {
                    tracking: over(
                        e.tracking,
                        if e.subagent()->0.mode == SpawnMode::Detached {
                            EffectStatus::Completed
                        } else {
                            EffectStatus::Running
                        },
                    ),
                    ..e
                },
            )
            &&& others_kept(s, t, EffectKind::Subagent, id)
            &&& only_work(s, t)
        }),
{
    reveal(SessionStateV::apply);
    lemma_entered(s, EffectKind::Subagent, id, EffectStatus::Completed);
    lemma_entered(s, EffectKind::Subagent, id, EffectStatus::Running);
}

/// A fetch that is answered keeps what the connection offers, in place of what
/// it offered before, and asks for nobody.
pub proof fn law_a_fetch_keeps_its_answer(
    s: SessionStateV,
    p: ConnectorSyncCompletedV,
    ctx: ApplyContext,
)
    ensures
        ({
            let t = s.apply(EventPayloadV::ConnectorSyncCompleted(p), ctx);
            &&& t.effect(EffectKind::ConnectorSync, p.id) == match s.effect(
                EffectKind::ConnectorSync,
                p.id,
            ) {
                Some(e) => Some(
                    EffectEntryV {
                        tracking: over(e.tracking, EffectStatus::Completed),
                        body: EffectBodyV::Connector(
                            ConnectorSyncV {
                                path: e.connector()->0.path,
                                prefix: p.prefix,
                                tools: p.tools,
                                instructions: p.instructions,
                                auth: None,
                            },
                        ),
                        ..e
                    },
                ),
                None => None,
            }
            &&& others_kept(s, t, EffectKind::ConnectorSync, p.id)
            &&& only_work(s, t)
        }),
{
    reveal(SessionStateV::apply);
    lemma_found(s, EffectKind::ConnectorSync, p.id);
    match s.effect(EffectKind::ConnectorSync, p.id) {
        Some(e) => lemma_put(
            s,
            EffectEntryV {
                tracking: e.tracking.with_state(EffectStatus::Completed),
                body: EffectBodyV::Connector(
                    ConnectorSyncV {
                        path: e.connector()->0.path,
                        prefix: p.prefix,
                        tools: p.tools,
                        instructions: p.instructions,
                        auth: None,
                    },
                ),
                ..e
            },
        ),
        None => {},
    }
}

/// A call that is given up is over, and nothing else changes.
pub proof fn law_a_call_is_given_up(s: SessionStateV, p: CallVoidedV, ctx: ApplyContext)
    ensures
        ({
            let t = s.apply(EventPayloadV::CallVoided(p), ctx);
            &&& t.effect(p.kind, p.id) == match s.effect(p.kind, p.id) {
                Some(e) => Some(
                    EffectEntryV { tracking: over(e.tracking, EffectStatus::Failed), ..e },
                ),
                None => None,
            }
            &&& others_kept(s, t, p.kind, p.id)
            &&& only_work(s, t)
        }),
{
    reveal(SessionStateV::apply);
    lemma_entered(s, p.kind, p.id, EffectStatus::Failed);
}

} // verus!
