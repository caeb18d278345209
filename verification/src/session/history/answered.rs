//! The worker is given a decision in one way only.
use crate::model::lemma_position;
use crate::protocol::effect::{AuthNeed, EffectKind, EffectStatus, RetryPolicy};
use crate::protocol::json::decimal_sum;
use crate::session::apply::{but_decisions, ApplyContext};
use crate::session::events::EventPayloadV;
use crate::session::history::tidy::{is_out, lemma_kept};
use crate::session::state::{
    named, ConnectorSyncV, EffectBodyV, EffectEntryV, EffectTracking, SessionStateV,
    WorkerDecisionV,
};
use vstd::prelude::*;

verus! {

/// Whether the worker holds no decision that it did not hold before.
pub open spec fn outs_kept(s: SessionStateV, t: SessionStateV) -> bool {
    forall|k: int|
        0 <= k < t.effects.len() && is_out(#[trigger] t.effects[k]) ==> s.effects.contains(
            t.effects[k],
        )
}

pub proof fn lemma_outs_same(s: SessionStateV, t: SessionStateV)
    requires
        t.effects == s.effects,
    ensures
        outs_kept(s, t),
{
    assert forall|k: int|
        0 <= k < t.effects.len() && is_out(
            #[trigger] t.effects[k],
        ) implies s.effects.contains(t.effects[k]) by {
        assert(s.effects[k] == t.effects[k]);
    }
}

pub proof fn lemma_outs_on(a: SessionStateV, b: SessionStateV, c: SessionStateV)
    requires
        outs_kept(a, b),
        outs_kept(b, c),
    ensures
        outs_kept(a, c),
{
    assert forall|k: int|
        0 <= k < c.effects.len() && is_out(
            #[trigger] c.effects[k],
        ) implies a.effects.contains(c.effects[k]) by {
        assert(b.effects.contains(c.effects[k]));
        let j = choose|j: int| 0 <= j < b.effects.len() && b.effects[j] == c.effects[k];
        assert(is_out(b.effects[j]));
    }
}

proof fn lemma_put(s: SessionStateV, e: EffectEntryV)
    requires
        !is_out(e),
    ensures
        outs_kept(s, s.put_effect(e)),
{
    lemma_position(s.effects, named(e.kind(), e.id));
    let t = s.put_effect(e);
    assert forall|k: int|
        0 <= k < t.effects.len() && is_out(
            #[trigger] t.effects[k],
        ) implies s.effects.contains(t.effects[k]) by {
        assert(t.effects[k] != e);
        assert(s.effects[k] == t.effects[k]);
    }
}

proof fn lemma_set(s: SessionStateV, kind: EffectKind, id: Seq<char>, tracking: EffectTracking)
    requires
        kind != EffectKind::Decision || tracking.state != EffectStatus::Pending,
    ensures
        outs_kept(s, s.set_tracking(kind, id, tracking)),
{
    lemma_position(s.effects, named(kind, id));
    let t = s.set_tracking(kind, id, tracking);
    assert forall|k: int|
        0 <= k < t.effects.len() && is_out(
            #[trigger] t.effects[k],
        ) implies s.effects.contains(t.effects[k]) by {
        match s.effect_at(kind, id) {
            Some(i) => {
                assert(named(kind, id)(s.effects[i]));
                assert(k != i);
            },
            None => {},
        }
        assert(s.effects[k] == t.effects[k]);
    }
}

proof fn lemma_remove(s: SessionStateV, kind: EffectKind, id: Seq<char>)
    ensures
        outs_kept(s, s.remove_effect(kind, id)),
{
    lemma_position(s.effects, named(kind, id));
    let t = s.remove_effect(kind, id);
    assert forall|k: int|
        0 <= k < t.effects.len() && is_out(
            #[trigger] t.effects[k],
        ) implies s.effects.contains(t.effects[k]) by {
        match s.effect_at(kind, id) {
            Some(i) => {
                let j = if k < i {
                    k
                } else {
                    k + 1
                };
                assert(s.effects[j] == t.effects[k]);
            },
            None => {
                assert(s.effects[k] == t.effects[k]);
            },
        }
    }
}

proof fn lemma_ask(
    s: SessionStateV,
    id: Seq<char>,
    attempt: u32,
    retry: RetryPolicy,
    body: EffectBodyV,
    at: i128,
)
    ensures
        outs_kept(s, s.ask(id, attempt, retry, body, at)),
{
    let fresh = EffectTracking::asked(retry, attempt, at);
    let entry = match s.effect(body.kind(), id) {
        Some(e) if attempt > 0 => EffectEntryV {
            id,
            anchor: e.anchor,
            tracking: EffectTracking { total_deadline: e.tracking.total_deadline, ..fresh },
            body,
        },
        _ => EffectEntryV { id, anchor: s.head_id, tracking: fresh, body },
    };
    lemma_put(s, entry);
}

proof fn lemma_begin(s: SessionStateV, kind: EffectKind, id: Seq<char>, at: i128)
    requires
        kind != EffectKind::Decision,
    ensures
        outs_kept(s, s.begin(kind, id, at)),
{
    lemma_outs_same(s, s.dequeue(kind, id));
    match s.tracking(kind, id) {
        Some(t) => {
            lemma_set(s.dequeue(kind, id), kind, id, t.begun(at));
            lemma_outs_on(s, s.dequeue(kind, id), s.begin(kind, id, at));
        },
        None => {},
    }
}

proof fn lemma_enter(s: SessionStateV, kind: EffectKind, id: Seq<char>, state: EffectStatus)
    requires
        state != EffectStatus::Pending,
    ensures
        outs_kept(s, s.enter(kind, id, state)),
{
    match s.tracking(kind, id) {
        Some(t) => lemma_set(s, kind, id, t.with_state(state)),
        None => lemma_outs_same(s, s),
    }
}

proof fn lemma_fail(s: SessionStateV, kind: EffectKind, id: Seq<char>, retryable: bool, at: i128)
    ensures
        outs_kept(s, s.fail(kind, id, retryable, at)),
{
    match s.tracking(kind, id) {
        Some(t) => lemma_set(s, kind, id, t.failed(retryable, at)),
        None => lemma_outs_same(s, s),
    }
}

proof fn lemma_mark_auth(s: SessionStateV, id: Seq<char>, auth: Option<AuthNeed>)
    ensures
        outs_kept(s, s.mark_auth(id, auth)),
{
    match s.effect(EffectKind::ConnectorSync, id) {
        Some(e) => lemma_put(
            s,
            EffectEntryV {
                body: EffectBodyV::Connector(ConnectorSyncV { auth, ..e.connector()->0 }),
                ..e
            },
        ),
        None => lemma_outs_same(s, s),
    }
}

/// Work of another kind is written.
proof fn lemma_puts(s: SessionStateV)
    ensures
        forall|e: EffectEntryV|
            e.kind() != EffectKind::Decision ==> outs_kept(s, #[trigger] s.put_effect(e)),
{
    assert forall|e: EffectEntryV| e.kind() != EffectKind::Decision implies outs_kept(
        s,
        #[trigger] s.put_effect(e),
    ) by {
        lemma_put(s, e);
    }
}

proof fn lemma_decisions(s: SessionStateV, event: EventPayloadV, ctx: ApplyContext)
    requires
        event is DecisionQueued || event is DecisionCompleted || event is DecisionDropped || event
            is DecisionErrored,
    ensures
        outs_kept(s, s.apply(event, ctx)),
{
    reveal(SessionStateV::apply);
    let kind = EffectKind::Decision;
    match event {
        EventPayloadV::DecisionQueued(p) => {
            let body = EffectBodyV::Decision(
                WorkerDecisionV { trigger: p.trigger, source_event_sequence: ctx.sequence },
            );
            let asked = s.ask(p.id, 0, s.worker_retry, body, ctx.occurred_at);
            lemma_ask(s, p.id, 0, s.worker_retry, body, ctx.occurred_at);
            lemma_outs_same(asked, s.apply(event, ctx));
            lemma_outs_on(s, asked, s.apply(event, ctx));
        },
        EventPayloadV::DecisionCompleted(p) => lemma_remove(s, kind, p.id),
        EventPayloadV::DecisionDropped(p) => lemma_remove(s, kind, p.id),
        EventPayloadV::DecisionErrored(p) => {
            lemma_remove(s, kind, p.id);
            lemma_fail(s, kind, p.id, p.retryable, ctx.occurred_at);
            lemma_outs_same(s, s);
        },
        _ => {},
    }
}

proof fn lemma_tools(s: SessionStateV, event: EventPayloadV, ctx: ApplyContext)
    requires
        event is ToolCallRequested || event is ToolCallDispatched || event is ToolCallCompleted
            || event is ToolCallErrored,
    ensures
        outs_kept(s, s.apply(event, ctx)),
{
    reveal(SessionStateV::apply);
    lemma_puts(s);
    lemma_outs_same(s, s);
    let at = ctx.occurred_at;
    match event {
        EventPayloadV::ToolCallRequested(p) => {
            assert forall|b: EffectBodyV| outs_kept(
                s,
                #[trigger] s.ask(p.id, p.attempt, p.retry, b, at),
            ) by {
                lemma_ask(s, p.id, p.attempt, p.retry, b, at);
            }
        },
        EventPayloadV::ToolCallDispatched(p) => lemma_begin(s, EffectKind::ToolCall, p.id, at),
        EventPayloadV::ToolCallErrored(p) => {
            assert forall|t: SessionStateV, path: Seq<char>| outs_kept(s, t) implies outs_kept(
                s,
                #[trigger] t.mark_auth(path, p.auth),
            ) by {
                lemma_mark_auth(t, path, p.auth);
                lemma_outs_on(s, t, t.mark_auth(path, p.auth));
            }
        },
        _ => {},
    }
}

proof fn lemma_models(s: SessionStateV, event: EventPayloadV, ctx: ApplyContext)
    requires
        event is LlmCallRequested || event is LlmCallDispatched || event is LlmCallCompleted
            || event is LlmCallErrored,
    ensures
        outs_kept(s, s.apply(event, ctx)),
{
    reveal(SessionStateV::apply);
    let at = ctx.occurred_at;
    let kind = EffectKind::LlmCall;
    match event {
        EventPayloadV::LlmCallRequested(p) => {
            assert forall|b: EffectBodyV| outs_kept(
                s,
                #[trigger] s.ask(p.id, p.attempt, p.retry, b, at),
            ) by {
                lemma_ask(s, p.id, p.attempt, p.retry, b, at);
            }
        },
        EventPayloadV::LlmCallDispatched(p) => {
            let begun = s.begin(kind, p.id, at);
            lemma_begin(s, kind, p.id, at);
            lemma_puts(begun);
            lemma_outs_same(begun, begun);
            lemma_outs_on(s, begun, s.apply(event, ctx));
        },
        EventPayloadV::LlmCallCompleted(p) => {
            let entered = s.enter(kind, p.id, EffectStatus::Completed);
            lemma_enter(s, kind, p.id, EffectStatus::Completed);
            lemma_outs_same(entered, s.apply(event, ctx));
            lemma_outs_on(s, entered, s.apply(event, ctx));
        },
        EventPayloadV::LlmCallErrored(p) => lemma_fail(s, kind, p.id, p.retryable, at),
        _ => {},
    }
}

proof fn lemma_children(s: SessionStateV, event: EventPayloadV, ctx: ApplyContext)
    requires
        event is SubagentRequested || event is SubagentDispatched || event is SubagentStarted
            || event is SubagentErrored || event is SubagentTurnCompleted,
    ensures
        outs_kept(s, s.apply(event, ctx)),
{
    reveal(SessionStateV::apply);
    lemma_puts(s);
    lemma_outs_same(s, s);
    let at = ctx.occurred_at;
    let kind = EffectKind::Subagent;
    match event {
        EventPayloadV::SubagentRequested(p) => {
            assert forall|b: EffectBodyV| outs_kept(
                s,
                #[trigger] s.ask(p.id, p.attempt, p.retry, b, at),
            ) by {
                lemma_ask(s, p.id, p.attempt, p.retry, b, at);
            }
        },
        EventPayloadV::SubagentDispatched(p) => lemma_begin(s, kind, p.id, at),
        EventPayloadV::SubagentStarted(p) => {
            lemma_enter(s, kind, p.id, EffectStatus::Completed);
            lemma_enter(s, kind, p.id, EffectStatus::Running);
        },
        EventPayloadV::SubagentTurnCompleted(p) => {
            let paid = SessionStateV {
                subagent_cost: decimal_sum(s.subagent_cost, p.cost),
                detached_turns: match p.turn_id {
                    Some(turn_id) => s.detached_turns.push(turn_id),
                    None => s.detached_turns,
                },
                ..s
            };
            lemma_outs_same(s, paid);
            lemma_puts(paid);
            lemma_outs_same(paid, paid);
            lemma_outs_on(s, paid, s.apply(event, ctx));
        },
        _ => {},
    }
}

proof fn lemma_connectors(s: SessionStateV, event: EventPayloadV, ctx: ApplyContext)
    requires
        event is ConnectorSyncRequested || event is ConnectorSyncCompleted || event
            is ConnectorSyncErrored,
    ensures
        outs_kept(s, s.apply(event, ctx)),
{
    reveal(SessionStateV::apply);
    lemma_puts(s);
    lemma_outs_same(s, s);
    let kind = EffectKind::ConnectorSync;
    match event {
        EventPayloadV::ConnectorSyncRequested(p) => {
            lemma_position(s.effects, named(kind, p.path.written()));
        },
        EventPayloadV::ConnectorSyncErrored(p) => {
            let failed = s.fail(kind, p.id, p.retryable, ctx.occurred_at);
            lemma_fail(s, kind, p.id, p.retryable, ctx.occurred_at);
            lemma_mark_auth(failed, p.id, p.auth);
            lemma_outs_on(s, failed, s.apply(event, ctx));
        },
        _ => {},
    }
}

proof fn lemma_rest(s: SessionStateV, event: EventPayloadV, ctx: ApplyContext)
    requires
        event is SessionCreated || event is AgentConfigUpdated || event is WorkerStateUpdated
            || event is CallVoided || event is NewMessage || event is HeadMoved || event
            is TurnStarted || event is TurnCompleted || event is SessionDone || event
            is ChannelsUpdated || event is SessionMessageRequested || event is SessionInterrupted
            || event is InterruptResumed || event is SessionCancelled,
    ensures
        outs_kept(s, s.apply(event, ctx)),
{
    reveal(SessionStateV::apply);
    match event {
        EventPayloadV::CallVoided(p) => lemma_enter(s, p.kind, p.id, EffectStatus::Failed),
        EventPayloadV::SessionInterrupted(i) => lemma_kept(s.effects, s.kept_through(i)),
        EventPayloadV::SessionCancelled => lemma_kept(s.effects, but_decisions()),
        _ => lemma_outs_same(s, s.apply(event, ctx)),
    }
}

/// Only being sent out puts a decision into the hands of the worker.
pub proof fn lemma_outs_kept(s: SessionStateV, event: EventPayloadV, ctx: ApplyContext)
    requires
        !(event is DecisionDispatched),
    ensures
        outs_kept(s, s.apply(event, ctx)),
{
    match event {
        EventPayloadV::DecisionDispatched(_) => {},
        EventPayloadV::DecisionQueued(_) => lemma_decisions(s, event, ctx),
        EventPayloadV::DecisionCompleted(_) => lemma_decisions(s, event, ctx),
        EventPayloadV::DecisionDropped(_) => lemma_decisions(s, event, ctx),
        EventPayloadV::DecisionErrored(_) => lemma_decisions(s, event, ctx),
        EventPayloadV::ToolCallRequested(_) => lemma_tools(s, event, ctx),
        EventPayloadV::ToolCallDispatched(_) => lemma_tools(s, event, ctx),
        EventPayloadV::ToolCallCompleted(_) => lemma_tools(s, event, ctx),
        EventPayloadV::ToolCallErrored(_) => lemma_tools(s, event, ctx),
        EventPayloadV::LlmCallRequested(_) => lemma_models(s, event, ctx),
        EventPayloadV::LlmCallDispatched(_) => lemma_models(s, event, ctx),
        EventPayloadV::LlmCallCompleted(_) => lemma_models(s, event, ctx),
        EventPayloadV::LlmCallErrored(_) => lemma_models(s, event, ctx),
        EventPayloadV::SubagentRequested(_) => lemma_children(s, event, ctx),
        EventPayloadV::SubagentDispatched(_) => lemma_children(s, event, ctx),
        EventPayloadV::SubagentStarted(_) => lemma_children(s, event, ctx),
        EventPayloadV::SubagentErrored(_) => lemma_children(s, event, ctx),
        EventPayloadV::SubagentTurnCompleted(_) => lemma_children(s, event, ctx),
        EventPayloadV::ConnectorSyncRequested(_) => lemma_connectors(s, event, ctx),
        EventPayloadV::ConnectorSyncCompleted(_) => lemma_connectors(s, event, ctx),
        EventPayloadV::ConnectorSyncErrored(_) => lemma_connectors(s, event, ctx),
        _ => lemma_rest(s, event, ctx),
    }
}

} // verus!
