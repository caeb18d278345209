//! What it does to a session that work fails.
use crate::model::lemma_position;
use crate::protocol::effect::{AuthNeed, EffectKind, EffectStatus};
use crate::protocol::json::decimal_sum;
use crate::session::apply::ApplyContext;
use crate::session::decision::TriggerV;
use crate::session::events::{
    ConnectorSyncErroredV, ConnectorTargetV, DecisionErroredV, EventPayloadV, SubagentErroredV,
    SubagentTurnCompletedV, ToolCallErroredV,
};
use crate::session::laws::asking::{lemma_kept_through, waits};
use crate::session::laws::settling::{after_failure, is_last, lemma_failed, lemma_marked, over};
use crate::session::laws::table::{
    lemma_found, lemma_kept_on, lemma_put, lemma_remove, only_work, others_kept,
};
use crate::session::state::{
    named, ConnectorSyncV, EffectBodyV, EffectEntryV, SessionStateV, SubagentCallV, ToolCallStateV,
};
use vstd::prelude::*;

verus! {

/// Whether a tool call goes to a connection.
pub open spec fn names_connection(target: Option<ConnectorTargetV>, id: Seq<char>) -> bool {
    match target {
        Some(ConnectorTargetV::Remote { path, .. }) => path.written() == id,
        _ => false,
    }
}

/// A connection that asks for a person.
pub open spec fn with_auth(e: Option<EffectEntryV>, auth: Option<AuthNeed>) -> Option<EffectEntryV> {
    match e {
        Some(e) => Some(
            EffectEntryV {
                body: EffectBodyV::Connector(ConnectorSyncV { auth, ..e.connector()->0 }),
                ..e
            },
        ),
        None => None,
    }
}

/// A tool call that fails waits for another attempt, or is over and keeps the
/// reason. A connection that asks for a person is marked with what it asks for.
#[verifier::spinoff_prover]
pub proof fn law_a_tool_call_fails(
    s: SessionStateV,
    p: ToolCallErroredV,
    connection: Seq<char>,
    ctx: ApplyContext,
)
    requires
        s.effect(EffectKind::ToolCall, p.id) is Some,
    ensures
        ({
            let t = s.apply(EventPayloadV::ToolCallErrored(p), ctx);
            let e = s.effect(EffectKind::ToolCall, p.id)->0;
            &&& t.effect(EffectKind::ToolCall, p.id) == Some(
                EffectEntryV {
                    tracking: after_failure(e.tracking, p.retryable, ctx.occurred_at),
                    body: EffectBodyV::Tool(
                        ToolCallStateV {
                            result: if is_last(e.tracking, p.retryable) {
                                Some(p.error.message)
                            } else {
                                e.tool()->0.result
                            },
                            is_error: is_last(e.tracking, p.retryable) || e.tool()->0.is_error,
                            ..e.tool()->0
                        },
                    ),
                    ..e
                },
            )
            &&& forall|k: EffectKind, i: Seq<char>|
                k != EffectKind::ConnectorSync && !(k == EffectKind::ToolCall && i == p.id)
                    ==> #[trigger] t.effect(k, i) == s.effect(k, i)
            &&& t.effect(EffectKind::ConnectorSync, connection) == if p.auth is Some
                && names_connection(e.tool()->0.target, connection) {
                with_auth(s.effect(EffectKind::ConnectorSync, connection), p.auth)
            } else {
                s.effect(EffectKind::ConnectorSync, connection)
            }
            &&& only_work(s, t)
        }),
{
    reveal(SessionStateV::apply);
    let kind = EffectKind::ToolCall;
    let at = ctx.occurred_at;
    lemma_found(s, kind, p.id);
    let e = s.effect(kind, p.id)->0;
    let tool = e.tool()->0;
    let entry = EffectEntryV {
        tracking: e.tracking.failed(p.retryable, at),
        body: EffectBodyV::Tool(
            if e.tracking.ends(p.retryable) {
                ToolCallStateV { result: Some(p.error.message), is_error: true, ..tool }
            } else {
                tool
            },
        ),
        ..e
    };
    lemma_put(s, entry);
    let failed = s.put_effect(entry).dequeue(kind, p.id);
    lemma_kept_on(s, s.put_effect(entry), failed, kind, p.id);
    match (tool.target, p.auth) {
        (Some(ConnectorTargetV::Remote { path, .. }), Some(auth)) => {
            lemma_marked(failed, path.written(), Some(auth));
        },
        _ => {},
    }
}

/// A call to a subagent that fails waits for another attempt, or is over and
/// keeps the reason.
pub proof fn law_a_child_call_fails(s: SessionStateV, p: SubagentErroredV, ctx: ApplyContext)
    requires
        s.effect(EffectKind::Subagent, p.id) is Some,
    ensures
        ({
            let t = s.apply(EventPayloadV::SubagentErrored(p), ctx);
            let e = s.effect(EffectKind::Subagent, p.id)->0;
            &&& t.effect(EffectKind::Subagent, p.id) == Some(
                EffectEntryV {
                    tracking: after_failure(e.tracking, p.retryable, ctx.occurred_at),
                    body: EffectBodyV::Subagent(
                        SubagentCallV {
                            result: if is_last(e.tracking, p.retryable) {
                                Some(p.error.message)
                            } else {
                                e.subagent()->0.result
                            },
                            is_error: is_last(e.tracking, p.retryable) || e.subagent()->0.is_error,
                            ..e.subagent()->0
                        },
                    ),
                    ..e
                },
            )
            &&& others_kept(s, t, EffectKind::Subagent, p.id)
            &&& only_work(s, t)
        }),
{
    reveal(SessionStateV::apply);
    let kind = EffectKind::Subagent;
    lemma_found(s, kind, p.id);
    let e = s.effect(kind, p.id)->0;
    let failed = EffectEntryV {
            tracking: e.tracking.failed(p.retryable, ctx.occurred_at),
            body: EffectBodyV::Subagent(
                if e.tracking.ends(p.retryable) {
                    SubagentCallV {
                        result: Some(p.error.message),
                        is_error: true,
                        ..e.subagent()->0
                    }
                } else {
                    e.subagent()->0
                },
            ),
            ..e
        };
    lemma_put(s, failed);
    lemma_kept_on(
        s,
        s.put_effect(failed),
        s.apply(EventPayloadV::SubagentErrored(p), ctx),
        kind,
        p.id,
    );
}

/// A child's turn that is over is paid for, and its call keeps what the turn
/// came to: its answer, or why it failed. A turn that nobody waited for is
/// remembered by its id.
pub proof fn law_a_childs_turn_is_kept(
    s: SessionStateV,
    p: SubagentTurnCompletedV,
    ctx: ApplyContext,
)
    ensures
        ({
            let t = s.apply(EventPayloadV::SubagentTurnCompleted(p), ctx);
            &&& t.effect(EffectKind::Subagent, p.id) == match s.effect(
                EffectKind::Subagent,
                p.id,
            ) {
                Some(e) => Some(
                    EffectEntryV {
                        tracking: over(e.tracking, EffectStatus::Completed),
                        body: EffectBodyV::Subagent(
                            SubagentCallV {
                                result: Some(
                                    if p.error is Some {
                                        p.error->0.message
                                    } else {
                                        p.data.plain_text()
                                    },
                                ),
                                is_error: p.error is Some,
                                ..e.subagent()->0
                            },
                        ),
                        ..e
                    },
                ),
                None => None,
            }
            &&& others_kept(s, t, EffectKind::Subagent, p.id)
            &&& t.subagent_cost == decimal_sum(s.subagent_cost, p.cost)
            &&& t.detached_turns == if p.turn_id is Some {
                s.detached_turns.push(p.turn_id->0)
            } else {
                s.detached_turns
            }
            &&& only_work(
                SessionStateV {
                    subagent_cost: t.subagent_cost,
                    detached_turns: t.detached_turns,
                    ..s
                },
                t,
            )
        }),
{
    reveal(SessionStateV::apply);
    let kind = EffectKind::Subagent;
    lemma_found(s, kind, p.id);
    let t = s.apply(EventPayloadV::SubagentTurnCompleted(p), ctx);
    let paid = SessionStateV {
        subagent_cost: decimal_sum(s.subagent_cost, p.cost),
        detached_turns: match p.turn_id {
            Some(turn_id) => s.detached_turns.push(turn_id),
            None => s.detached_turns,
        },
        ..s
    };
    match s.effect(kind, p.id) {
        Some(e) => {
            let done = EffectEntryV {
                tracking: e.tracking.with_state(EffectStatus::Completed),
                body: EffectBodyV::Subagent(
                    SubagentCallV {
                        result: Some(crate::session::apply::outcome_text(p)),
                        is_error: p.error is Some,
                        ..e.subagent()->0
                    },
                ),
                ..e
            };
            lemma_put(paid, done);
            lemma_kept_on(paid, paid.put_effect(done), t, kind, p.id);
        },
        None => {},
    }
    lemma_kept_on(s, s, paid, kind, p.id);
    lemma_kept_through(s, paid, t, kind, p.id);
}

/// A fetch that fails waits for another attempt, or is over. What a person has
/// to do is marked, and what the connection offered before is kept.
pub proof fn law_a_fetch_fails(s: SessionStateV, p: ConnectorSyncErroredV, ctx: ApplyContext)
    ensures
        ({
            let t = s.apply(EventPayloadV::ConnectorSyncErrored(p), ctx);
            &&& t.effect(EffectKind::ConnectorSync, p.id) == match s.effect(
                EffectKind::ConnectorSync,
                p.id,
            ) {
                Some(e) => Some(
                    EffectEntryV {
                        tracking: after_failure(e.tracking, p.retryable, ctx.occurred_at),
                        body: EffectBodyV::Connector(
                            ConnectorSyncV { auth: p.auth, ..e.connector()->0 },
                        ),
                        ..e
                    },
                ),
                None => None,
            }
            &&& others_kept(s, t, EffectKind::ConnectorSync, p.id)
            &&& only_work(s, t)
        }),
{
    reveal(SessionStateV::apply);
    let kind = EffectKind::ConnectorSync;
    lemma_failed(s, kind, p.id, p.retryable, ctx.occurred_at);
    lemma_marked(s.fail(kind, p.id, p.retryable, ctx.occurred_at), p.id, p.auth);
}

/// A decision that fails waits for another attempt. Where none is left the
/// question is gone; a session that was not started remembers it.
pub proof fn law_a_decision_fails(s: SessionStateV, p: DecisionErroredV, ctx: ApplyContext)
    requires
        s.effect(EffectKind::Decision, p.id) is Some,
    ensures
        ({
            let t = s.apply(EventPayloadV::DecisionErrored(p), ctx);
            let e = s.effect(EffectKind::Decision, p.id)->0;
            &&& !is_last(e.tracking, p.retryable) ==> t.effect(EffectKind::Decision, p.id) == Some(
                EffectEntryV {
                    tracking: after_failure(e.tracking, true, ctx.occurred_at),
                    ..e
                },
            )
            &&& is_last(e.tracking, p.retryable) ==> t.effects.len() == s.effects.len() - 1
            &&& t.session_start_failed == (s.session_start_failed || is_last(
                e.tracking,
                p.retryable,
            ) && e.trigger() == Some(TriggerV::SessionStart))
            &&& others_kept(s, t, EffectKind::Decision, p.id)
            &&& only_work(
                SessionStateV { session_start_failed: t.session_start_failed, ..s },
                t,
            )
        }),
{
    reveal(SessionStateV::apply);
    let kind = EffectKind::Decision;
    lemma_position(s.effects, named(kind, p.id));
    lemma_failed(s, kind, p.id, p.retryable, ctx.occurred_at);
    lemma_remove(s, kind, p.id);
    let t = s.apply(EventPayloadV::DecisionErrored(p), ctx);
    let e = s.effect(kind, p.id)->0;
    if is_last(e.tracking, p.retryable) {
        lemma_kept_on(s, s.remove_effect(kind, p.id), t, kind, p.id);
    }
}

} // verus!
