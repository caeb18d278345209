//! What holds of every session.
use crate::model::{collect, lemma_position, position};
use crate::protocol::effect::{EffectKind, EffectStatus};
use crate::session::aggregate::replay;
use crate::session::apply::{but_decisions, ApplyContext};
use crate::session::effects::decision::pending_only;
use crate::session::events::EventPayloadV;
use crate::session::history::orderly;
use crate::session::state::{
    named, queued_as, EffectEntryV, EffectTracking, QueueEntryV, SessionStateV, TurnPhaseV,
};
use crate::session::working::next_seq;
use vstd::prelude::*;

verus! {

/// Whether the worker holds a decision.
pub open spec fn is_out(e: EffectEntryV) -> bool {
    e.kind() == EffectKind::Decision && e.tracking.state == EffectStatus::Pending
}

/// Whether two pieces of work can stand in one table: they are not the same,
/// and not both decisions that the worker holds.
pub open spec fn apart(a: EffectEntryV, b: EffectEntryV) -> bool {
    !a.names(b.kind(), b.id) && !(is_out(a) && is_out(b))
}

pub open spec fn all_apart(effects: Seq<EffectEntryV>) -> bool {
    forall|i: int, j: int| 0 <= i < j < effects.len() ==> apart(#[trigger] effects[i], #[trigger] effects[j])
}

/// Whether nothing waits twice.
pub open spec fn waits_once(queue: Seq<QueueEntryV>) -> bool {
    forall|i: int, j: int| 0 <= i < j < queue.len() ==> #[trigger] queue[i] != #[trigger] queue[j]
}

impl SessionStateV {
    /// What holds of every session: each piece of work stands in the table
    /// once and waits once, the worker holds one decision at most, and the end
    /// of a turn that is being finished waits in the queue.
    #[verifier::opaque]
    pub open spec fn tidy(self) -> bool {
        all_apart(self.effects) && waits_once(self.schedule_queue) && match self.phase {
            TurnPhaseV::Finalizing(f) => self.schedule_queue.contains(
                QueueEntryV { kind: EffectKind::TurnEnd, id: f.turn_id },
            ),
            _ => true,
        }
    }
}

pub proof fn lemma_put(s: SessionStateV, e: EffectEntryV)
    requires
        s.tidy(),
        !is_out(e),
    ensures
        s.put_effect(e).tidy(),
        s.put_effect(e).phase == s.phase,
{
    reveal(SessionStateV::tidy);
    lemma_position(s.effects, named(e.kind(), e.id));
    let after = s.put_effect(e).effects;
    assert forall|i: int, j: int| 0 <= i < j < after.len() implies apart(
        #[trigger] after[i],
        #[trigger] after[j],
    ) by {
        match s.effect_at(e.kind(), e.id) {
            Some(k) => {
                assert(named(e.kind(), e.id)(s.effects[k]));
                assert(apart(s.effects[i], s.effects[j]));
            },
            None => {
                if j < s.effects.len() {
                    assert(apart(s.effects[i], s.effects[j]));
                } else {
                    assert(!named(e.kind(), e.id)(s.effects[i]));
                }
            },
        }
    }
}

pub proof fn lemma_set(s: SessionStateV, kind: EffectKind, id: Seq<char>, t: EffectTracking)
    requires
        s.tidy(),
        kind == EffectKind::Decision && t.state == EffectStatus::Pending
            ==> s.pending_decisions().len() == 0,
    ensures
        s.set_tracking(kind, id, t).tidy(),
        s.set_tracking(kind, id, t).phase == s.phase,
{
    reveal(SessionStateV::tidy);
    lemma_position(s.effects, named(kind, id));
    if s.pending_decisions().len() == 0 {
        lemma_none_is_out(s.effects);
    }
    let after = s.set_tracking(kind, id, t).effects;
    match s.effect_at(kind, id) {
        Some(k) => {
            assert(named(kind, id)(s.effects[k]));
            assert forall|i: int, j: int| 0 <= i < j < after.len() implies apart(
                #[trigger] after[i],
                #[trigger] after[j],
            ) by {
                assert(apart(s.effects[i], s.effects[j]));
            }
        },
        None => {},
    }
}

proof fn lemma_none_is_out(effects: Seq<EffectEntryV>)
    requires
        collect(effects, pending_only()).len() == 0,
    ensures
        forall|i: int| 0 <= i < effects.len() ==> !is_out(#[trigger] effects[i]),
    decreases effects.len(),
{
    if effects.len() > 0 {
        let front = effects.drop_last();
        lemma_none_is_out(front);
        assert forall|i: int| 0 <= i < effects.len() implies !is_out(#[trigger] effects[i]) by {
            if i < front.len() {
                assert(front[i] == effects[i]);
            }
        }
    }
}

pub proof fn lemma_remove(s: SessionStateV, kind: EffectKind, id: Seq<char>)
    requires
        s.tidy(),
    ensures
        s.remove_effect(kind, id).tidy(),
        s.remove_effect(kind, id).phase == s.phase,
{
    reveal(SessionStateV::tidy);
    lemma_position(s.effects, named(kind, id));
    let after = s.remove_effect(kind, id).effects;
    match s.effect_at(kind, id) {
        Some(k) => {
            assert forall|i: int, j: int| 0 <= i < j < after.len() implies apart(
                #[trigger] after[i],
                #[trigger] after[j],
            ) by {
                let a = if i < k {
                    i
                } else {
                    i + 1
                };
                let b = if j < k {
                    j
                } else {
                    j + 1
                };
                assert(apart(s.effects[a], s.effects[b]));
            }
        },
        None => {},
    }
}

/// What is kept stood in the table.
pub proof fn lemma_kept(effects: Seq<EffectEntryV>, f: spec_fn(EffectEntryV) -> Option<EffectEntryV>)
    requires
        forall|e: EffectEntryV| (#[trigger] f(e)) is Some ==> f(e)->0 == e,
    ensures
        forall|i: int|
            0 <= i < collect(effects, f).len() ==> effects.contains(
                #[trigger] collect(effects, f)[i],
            ),
    decreases effects.len(),
{
    if effects.len() > 0 {
        let front = effects.drop_last();
        lemma_kept(front, f);
        assert forall|i: int| 0 <= i < collect(effects, f).len() implies effects.contains(
            #[trigger] collect(effects, f)[i],
        ) by {
            let e = collect(effects, f)[i];
            if i < collect(front, f).len() {
                assert(front.contains(collect(front, f)[i]));
                let k = choose|k: int| 0 <= k < front.len() && front[k] == e;
                assert(effects[k] == e);
            } else {
                assert(effects[effects.len() - 1] == e);
            }
        }
    }
}

pub proof fn lemma_keep(effects: Seq<EffectEntryV>, f: spec_fn(EffectEntryV) -> Option<EffectEntryV>)
    requires
        all_apart(effects),
        forall|e: EffectEntryV| (#[trigger] f(e)) is Some ==> f(e)->0 == e,
    ensures
        all_apart(collect(effects, f)),
    decreases effects.len(),
{
    if effects.len() > 0 {
        let front = effects.drop_last();
        assert forall|i: int, j: int| 0 <= i < j < front.len() implies apart(
            #[trigger] front[i],
            #[trigger] front[j],
        ) by {
            assert(apart(effects[i], effects[j]));
        }
        lemma_keep(front, f);
        lemma_kept(front, f);
        let kept = collect(front, f);
        let after = collect(effects, f);
        assert forall|i: int, j: int| 0 <= i < j < after.len() implies apart(
            #[trigger] after[i],
            #[trigger] after[j],
        ) by {
            if j < kept.len() {
                assert(apart(kept[i], kept[j]));
            } else {
                assert(front.contains(kept[i]));
                let k = choose|k: int| 0 <= k < front.len() && front[k] == kept[i];
                assert(apart(effects[k], effects[effects.len() - 1]));
            }
        }
    }
}

proof fn lemma_enqueue(s: SessionStateV, kind: EffectKind, id: Seq<char>)
    requires
        s.tidy(),
    ensures
        s.enqueue(kind, id).tidy(),
        s.enqueue(kind, id).phase == s.phase,
        s.enqueue(kind, id).schedule_queue.contains(QueueEntryV { kind, id }),
        forall|q: QueueEntryV|
            s.schedule_queue.contains(q) ==> #[trigger] s.enqueue(
                kind,
                id,
            ).schedule_queue.contains(q),
{
    reveal(SessionStateV::tidy);
    lemma_position(s.schedule_queue, queued_as(kind, id));
    let queue = s.schedule_queue;
    let after = s.enqueue(kind, id).schedule_queue;
    let entry = QueueEntryV { kind, id };
    match position(queue, queued_as(kind, id)) {
        Some(i) => {
            assert(queue[i] == entry);
        },
        None => {
            assert(after[queue.len() as int] == entry);
            assert forall|i: int, j: int| 0 <= i < j < after.len() implies #[trigger] after[i]
                != #[trigger] after[j] by {
                if j == queue.len() {
                    assert(!queued_as(kind, id)(queue[i]));
                }
            }
            assert forall|q: QueueEntryV| queue.contains(q) implies after.contains(q) by {
                let i = choose|i: int| 0 <= i < queue.len() && queue[i] == q;
                assert(after[i] == q);
            }
        },
    }
}

pub proof fn lemma_dequeue(s: SessionStateV, kind: EffectKind, id: Seq<char>)
    requires
        s.tidy(),
        kind == EffectKind::TurnEnd ==> !(s.phase is Finalizing),
    ensures
        s.dequeue(kind, id).tidy(),
        s.dequeue(kind, id).phase == s.phase,
        !s.dequeue(kind, id).schedule_queue.contains(QueueEntryV { kind, id }),
{
    reveal(SessionStateV::tidy);
    lemma_position(s.schedule_queue, queued_as(kind, id));
    let queue = s.schedule_queue;
    let after = s.dequeue(kind, id).schedule_queue;
    match position(queue, queued_as(kind, id)) {
        Some(k) => {
            assert forall|i: int, j: int| 0 <= i < j < after.len() implies #[trigger] after[i]
                != #[trigger] after[j] by {
                let a = if i < k {
                    i
                } else {
                    i + 1
                };
                let b = if j < k {
                    j
                } else {
                    j + 1
                };
                assert(queue[a] != queue[b]);
            }
            assert forall|q: QueueEntryV| queue.contains(q) && q != queue[k] implies after.contains(
                q,
            ) by {
                let i = choose|i: int| 0 <= i < queue.len() && queue[i] == q;
                if i < k {
                    assert(after[i] == q);
                } else {
                    assert(after[i - 1] == q);
                }
            }
            if after.contains(QueueEntryV { kind, id }) {
                let i = choose|i: int| 0 <= i < after.len() && after[i] == (QueueEntryV { kind, id });
                if i < k {
                    assert(queue[i] == queue[k]);
                } else {
                    assert(queue[i + 1] == queue[k]);
                }
            }
        },
        None => {
            if after.contains(QueueEntryV { kind, id }) {
                let i = choose|i: int| 0 <= i < after.len() && after[i] == (QueueEntryV { kind, id });
                assert(queued_as(kind, id)(queue[i]));
            }
        },
    }
}

proof fn lemma_jump(s: SessionStateV, kind: EffectKind, id: Seq<char>)
    requires
        s.tidy(),
        kind != EffectKind::TurnEnd,
    ensures
        s.jump(kind, id).tidy(),
{
    lemma_dequeue(s, kind, id);
    reveal(SessionStateV::tidy);
    let rest = s.dequeue(kind, id).schedule_queue;
    let entry = QueueEntryV { kind, id };
    let after = s.jump(kind, id).schedule_queue;
    assert forall|i: int, j: int| 0 <= i < j < after.len() implies #[trigger] after[i]
        != #[trigger] after[j] by {
        if i == 0 {
            assert(after[j] == rest[j - 1]);
            assert(rest.contains(rest[j - 1]));
        } else {
            assert(after[i] == rest[i - 1] && after[j] == rest[j - 1]);
        }
    }
    assert forall|q: QueueEntryV| rest.contains(q) implies after.contains(q) by {
        let i = choose|i: int| 0 <= i < rest.len() && rest[i] == q;
        assert(after[i + 1] == q);
    }
}

/// Fields that nothing here speaks of may change.
pub proof fn lemma_same(s: SessionStateV, t: SessionStateV)
    requires
        s.tidy(),
        t.effects == s.effects,
        t.schedule_queue == s.schedule_queue,
        t.phase == s.phase || !(t.phase is Finalizing),
    ensures
        t.tidy(),
{
    reveal(SessionStateV::tidy);
}

pub proof fn lemma_begin(s: SessionStateV, kind: EffectKind, id: Seq<char>, at: i128)
    requires
        s.tidy(),
        kind != EffectKind::TurnEnd,
        kind == EffectKind::Decision ==> s.pending_decisions().len() == 0,
    ensures
        s.begin(kind, id, at).tidy(),
{
    lemma_dequeue(s, kind, id);
    match s.tracking(kind, id) {
        Some(t) => lemma_set(s.dequeue(kind, id), kind, id, t.begun(at)),
        None => {},
    }
}

proof fn lemma_enter(s: SessionStateV, kind: EffectKind, id: Seq<char>, state: EffectStatus)
    requires
        s.tidy(),
        kind != EffectKind::TurnEnd,
        state != EffectStatus::Pending,
    ensures
        s.enter(kind, id, state).tidy(),
        s.enter(kind, id, state).phase == s.phase,
{
    let entered = match s.tracking(kind, id) {
        Some(t) => {
            lemma_set(s, kind, id, t.with_state(state));
            s.set_tracking(kind, id, t.with_state(state))
        },
        None => s,
    };
    lemma_dequeue(entered, kind, id);
}

pub proof fn lemma_ask(
    s: SessionStateV,
    id: Seq<char>,
    attempt: u32,
    retry: crate::protocol::effect::RetryPolicy,
    body: crate::session::state::EffectBodyV,
    at: i128,
)
    requires
        s.tidy(),
    ensures
        s.ask(id, attempt, retry, body, at).tidy(),
        s.ask(id, attempt, retry, body, at).phase == s.phase,
{
    let fresh = EffectTracking::asked(retry, attempt, at);
    let entry = match s.effect(body.kind(), id) {
        Some(e) if attempt > 0 => EffectEntryV {
            id,
            anchor: e.anchor,
            tracking: EffectTracking { total_deadline: e.tracking.total_deadline, ..fresh },
            body,
        },
        _ => EffectEntryV { id, anchor: s.head_id, tracking: fresh, body },
    };
    lemma_put(s, entry);
    lemma_enqueue(s.put_effect(entry), body.kind(), id);
}

proof fn lemma_forget(s: SessionStateV, id: Seq<char>)
    requires
        s.tidy(),
    ensures
        s.forget_decision(id).tidy(),
        s.forget_decision(id).phase == s.phase,
{
    lemma_remove(s, EffectKind::Decision, id);
    lemma_dequeue(s.remove_effect(EffectKind::Decision, id), EffectKind::Decision, id);
}

proof fn lemma_found(s: SessionStateV, kind: EffectKind, id: Seq<char>)
    ensures
        match s.effect(kind, id) {
            Some(e) => e.names(kind, id),
            None => true,
        },
{
    lemma_position(s.effects, named(kind, id));
}

proof fn lemma_mark_auth(
    s: SessionStateV,
    id: Seq<char>,
    auth: Option<crate::protocol::effect::AuthNeed>,
)
    requires
        s.tidy(),
    ensures
        s.mark_auth(id, auth).tidy(),
{
    match s.effect(EffectKind::ConnectorSync, id) {
        Some(e) => lemma_put(
            s,
            EffectEntryV {
                body: crate::session::state::EffectBodyV::Connector(
                    crate::session::state::ConnectorSyncV { auth, ..e.connector()->0 },
                ),
                ..e
            },
        ),
        None => {},
    }
}

pub proof fn lemma_fail(s: SessionStateV, kind: EffectKind, id: Seq<char>, retryable: bool, at: i128)
    requires
        s.tidy(),
        kind != EffectKind::TurnEnd,
    ensures
        s.fail(kind, id, retryable, at).tidy(),
{
    match s.tracking(kind, id) {
        Some(t) => {
            lemma_set(s, kind, id, t.failed(retryable, at));
            lemma_dequeue(s.set_tracking(kind, id, t.failed(retryable, at)), kind, id);
        },
        None => {},
    }
}

proof fn lemma_decisions(s: SessionStateV, event: EventPayloadV, ctx: ApplyContext)
    requires
        s.tidy(),
        s.allows(event),
        event is DecisionQueued || event is DecisionDispatched || event is DecisionCompleted
            || event is DecisionDropped || event is DecisionErrored,
    ensures
        s.apply(event, ctx).tidy(),
{
    reveal(SessionStateV::apply);
    let at = ctx.occurred_at;
    match event {
        EventPayloadV::DecisionQueued(p) => {
            let body = crate::session::state::EffectBodyV::Decision(
                crate::session::state::WorkerDecisionV {
                    trigger: p.trigger,
                    source_event_sequence: ctx.sequence,
                },
            );
            lemma_ask(s, p.id, 0, s.worker_retry, body, at);
            let asked = s.ask(p.id, 0, s.worker_retry, body, at);
            match p.trigger {
                crate::session::decision::TriggerV::SessionStart => lemma_same(
                    asked,
                    s.apply(event, ctx),
                ),
                crate::session::decision::TriggerV::TurnFinished { turn_id, .. } => {
                    let idle = SessionStateV { phase: TurnPhaseV::Idle, ..asked };
                    lemma_same(asked, idle);
                    lemma_enqueue(idle, EffectKind::TurnEnd, turn_id);
                    reveal(SessionStateV::tidy);
                    assert(s.apply(event, ctx).schedule_queue == idle.enqueue(
                        EffectKind::TurnEnd,
                        turn_id,
                    ).schedule_queue);
                    assert(s.apply(event, ctx).effects == idle.effects);
                },
                crate::session::decision::TriggerV::InterruptResumed { .. } => lemma_jump(
                    asked,
                    EffectKind::Decision,
                    p.id,
                ),
                _ => {},
            }
        },
        EventPayloadV::DecisionDispatched(p) => lemma_begin(s, EffectKind::Decision, p.id, at),
        EventPayloadV::DecisionCompleted(p) => lemma_forget(s, p.id),
        EventPayloadV::DecisionDropped(p) => lemma_forget(s, p.id),
        EventPayloadV::DecisionErrored(p) => {
            lemma_forget(s, p.id);
            lemma_fail(s, EffectKind::Decision, p.id, p.retryable, at);
            match s.tracking(EffectKind::Decision, p.id) {
                Some(t) => if t.ends(p.retryable) {
                    lemma_same(s.forget_decision(p.id), s.apply(event, ctx));
                },
                None => {},
            }
        },
        _ => {},
    }
}

proof fn lemma_tools(s: SessionStateV, event: EventPayloadV, ctx: ApplyContext)
    requires
        s.tidy(),
        event is ToolCallRequested || event is ToolCallDispatched || event is ToolCallCompleted
            || event is ToolCallErrored,
    ensures
        s.apply(event, ctx).tidy(),
{
    reveal(SessionStateV::apply);
    let at = ctx.occurred_at;
    assert forall|e: EffectEntryV, id: Seq<char>|
        e.kind() == EffectKind::ToolCall implies (#[trigger] s.put_effect(e).dequeue(
        EffectKind::ToolCall,
        id,
    )).tidy() by {
        lemma_put(s, e);
        lemma_dequeue(s.put_effect(e), EffectKind::ToolCall, id);
    }
    match event {
        EventPayloadV::ToolCallRequested(p) => {
            let body = crate::session::state::EffectBodyV::Tool(
                crate::session::state::ToolCallStateV {
                    name: p.name,
                    arguments: p.arguments,
                    handler: p.handler,
                    target: p.target,
                    result: None,
                    is_error: false,
                },
            );
            lemma_ask(s, p.id, p.attempt, p.retry, body, at);
        },
        EventPayloadV::ToolCallDispatched(p) => lemma_begin(s, EffectKind::ToolCall, p.id, at),
        EventPayloadV::ToolCallErrored(p) => {
            assert forall|t: SessionStateV, id: Seq<char>| t.tidy() implies #[trigger] t.mark_auth(
                id,
                p.auth,
            ).tidy() by {
                lemma_mark_auth(t, id, p.auth);
            }
        },
        _ => {},
    }
}

proof fn lemma_models(s: SessionStateV, event: EventPayloadV, ctx: ApplyContext)
    requires
        s.tidy(),
        event is LlmCallRequested || event is LlmCallDispatched || event is LlmCallCompleted
            || event is LlmCallErrored,
    ensures
        s.apply(event, ctx).tidy(),
{
    reveal(SessionStateV::apply);
    let at = ctx.occurred_at;
    match event {
        EventPayloadV::LlmCallRequested(p) => {
            let body = crate::session::state::EffectBodyV::Llm(
                crate::session::state::LlmCallV {
                    llm: p.llm,
                    format: p.format,
                    request: p.request,
                    stream: p.stream,
                    handler: p.handler,
                    defer_tools_strategy: p.defer_tools_strategy,
                    announced: match s.effect(EffectKind::LlmCall, p.id) {
                        Some(e) if p.attempt > 0 => e.llm()->0.announced,
                        _ => Seq::empty(),
                    },
                },
            );
            lemma_ask(s, p.id, p.attempt, p.retry, body, at);
        },
        EventPayloadV::LlmCallDispatched(p) => {
            lemma_begin(s, EffectKind::LlmCall, p.id, at);
            let begun = s.begin(EffectKind::LlmCall, p.id, at);
            assert forall|e: EffectEntryV|
                e.kind() == EffectKind::LlmCall implies #[trigger] begun.put_effect(e).tidy() by {
                lemma_put(begun, e);
            }
        },
        EventPayloadV::LlmCallCompleted(p) => {
            lemma_enter(s, EffectKind::LlmCall, p.id, EffectStatus::Completed);
            lemma_same(
                s.enter(EffectKind::LlmCall, p.id, EffectStatus::Completed),
                s.apply(event, ctx),
            );
        },
        EventPayloadV::LlmCallErrored(p) => lemma_fail(
            s,
            EffectKind::LlmCall,
            p.id,
            p.retryable,
            at,
        ),
        _ => {},
    }
}

proof fn lemma_children(s: SessionStateV, event: EventPayloadV, ctx: ApplyContext)
    requires
        s.tidy(),
        event is SubagentRequested || event is SubagentDispatched || event is SubagentStarted
            || event is SubagentErrored || event is SubagentTurnCompleted,
    ensures
        s.apply(event, ctx).tidy(),
{
    reveal(SessionStateV::apply);
    let at = ctx.occurred_at;
    match event {
        EventPayloadV::SubagentRequested(p) => {
            let body = crate::session::state::EffectBodyV::Subagent(
                crate::session::state::SubagentCallV {
                    session_id: p.session_id,
                    agent_id: p.agent_id,
                    message: p.message,
                    mode: p.mode,
                    decision_id: p.decision_id,
                    result: None,
                    is_error: false,
                },
            );
            lemma_ask(s, p.id, p.attempt, p.retry, body, at);
        },
        EventPayloadV::SubagentDispatched(p) => lemma_begin(s, EffectKind::Subagent, p.id, at),
        EventPayloadV::SubagentStarted(p) => {
            lemma_enter(s, EffectKind::Subagent, p.id, EffectStatus::Completed);
            lemma_enter(s, EffectKind::Subagent, p.id, EffectStatus::Running);
        },
        EventPayloadV::SubagentErrored(p) => {
            assert forall|e: EffectEntryV|
                e.kind() == EffectKind::Subagent implies (#[trigger] s.put_effect(e).dequeue(
                EffectKind::Subagent,
                p.id,
            )).tidy() by {
                lemma_put(s, e);
                lemma_dequeue(s.put_effect(e), EffectKind::Subagent, p.id);
            }
        },
        EventPayloadV::SubagentTurnCompleted(p) => {
            let paid = SessionStateV {
                subagent_cost: crate::protocol::json::decimal_sum(s.subagent_cost, p.cost),
                detached_turns: match p.turn_id {
                    Some(turn_id) => s.detached_turns.push(turn_id),
                    None => s.detached_turns,
                },
                ..s
            };
            lemma_same(s, paid);
            assert forall|e: EffectEntryV|
                e.kind() == EffectKind::Subagent implies (#[trigger] paid.put_effect(e).dequeue(
                EffectKind::Subagent,
                p.id,
            )).tidy() by {
                lemma_put(paid, e);
                lemma_dequeue(paid.put_effect(e), EffectKind::Subagent, p.id);
            }
        },
        _ => {},
    }
}

proof fn lemma_connectors(s: SessionStateV, event: EventPayloadV, ctx: ApplyContext)
    requires
        s.tidy(),
        event is ConnectorSyncRequested || event is ConnectorSyncCompleted
            || event is ConnectorSyncErrored,
    ensures
        s.apply(event, ctx).tidy(),
{
    reveal(SessionStateV::apply);
    assert forall|e: EffectEntryV|
        e.kind() == EffectKind::ConnectorSync implies #[trigger] s.put_effect(e).tidy() by {
        lemma_put(s, e);
    }
    match event {
        EventPayloadV::ConnectorSyncRequested(p) => {
            lemma_found(s, EffectKind::ConnectorSync, p.path.written());
        },
        EventPayloadV::ConnectorSyncErrored(p) => {
            lemma_fail(s, EffectKind::ConnectorSync, p.id, p.retryable, ctx.occurred_at);
            lemma_mark_auth(
                s.fail(EffectKind::ConnectorSync, p.id, p.retryable, ctx.occurred_at),
                p.id,
                p.auth,
            );
        },
        _ => {},
    }
}

proof fn lemma_interrupts(s: SessionStateV, event: EventPayloadV, ctx: ApplyContext)
    requires
        s.tidy(),
        event is SessionInterrupted || event is InterruptResumed || event is SessionCancelled,
    ensures
        s.apply(event, ctx).tidy(),
{
    reveal(SessionStateV::apply);
    match event {
        EventPayloadV::SessionInterrupted(i) => {
            reveal(SessionStateV::tidy);
            lemma_keep(s.effects, s.kept_through(i));
        },
        EventPayloadV::InterruptResumed(_) => lemma_same(s, s.apply(event, ctx)),
        EventPayloadV::SessionCancelled => {
            reveal(SessionStateV::tidy);
            lemma_keep(s.effects, but_decisions());
        },
        _ => {},
    }
}

proof fn lemma_rest(s: SessionStateV, event: EventPayloadV, ctx: ApplyContext)
    requires
        s.tidy(),
        s.allows(event),
        event is SessionCreated || event is AgentConfigUpdated || event is WorkerStateUpdated
            || event is CallVoided || event is NewMessage || event is HeadMoved
            || event is TurnStarted || event is TurnCompleted || event is SessionDone
            || event is ChannelsUpdated || event is SessionMessageRequested,
    ensures
        s.apply(event, ctx).tidy(),
{
    reveal(SessionStateV::apply);
    match event {
        EventPayloadV::CallVoided(p) => {
            lemma_enter(s, p.kind, p.id, EffectStatus::Failed);
        },
        EventPayloadV::TurnCompleted(p) => {
            let ended = SessionStateV {
                phase: TurnPhaseV::Idle,
                completed_turn_ids: s.completed_turn_ids.push(p.turn_id),
                ..s
            };
            lemma_same(s, ended);
            lemma_dequeue(ended, EffectKind::TurnEnd, p.turn_id);
        },
        _ => lemma_same(s, s.apply(event, ctx)),
    }
}

/// Whatever may happen to a session leaves it tidy.
pub proof fn lemma_tidy_apply(s: SessionStateV, event: EventPayloadV, ctx: ApplyContext)
    requires
        s.tidy(),
        s.allows(event),
    ensures
        s.apply(event, ctx).tidy(),
{
    match event {
        EventPayloadV::DecisionQueued(_) => lemma_decisions(s, event, ctx),
        EventPayloadV::DecisionDispatched(_) => lemma_decisions(s, event, ctx),
        EventPayloadV::DecisionCompleted(_) => lemma_decisions(s, event, ctx),
        EventPayloadV::DecisionDropped(_) => lemma_decisions(s, event, ctx),
        EventPayloadV::DecisionErrored(_) => lemma_decisions(s, event, ctx),
        EventPayloadV::ToolCallRequested(_) => lemma_tools(s, event, ctx),
        EventPayloadV::ToolCallDispatched(_) => lemma_tools(s, event, ctx),
        EventPayloadV::ToolCallCompleted(_) => lemma_tools(s, event, ctx),
        EventPayloadV::ToolCallErrored(_) => lemma_tools(s, event, ctx),
        EventPayloadV::LlmCallRequested(_) => lemma_models(s, event, ctx),
        EventPayloadV::LlmCallDispatched(_) => lemma_models(s, event, ctx),
        EventPayloadV::LlmCallCompleted(_) => lemma_models(s, event, ctx),
        EventPayloadV::LlmCallErrored(_) => lemma_models(s, event, ctx),
        EventPayloadV::SubagentRequested(_) => lemma_children(s, event, ctx),
        EventPayloadV::SubagentDispatched(_) => lemma_children(s, event, ctx),
        EventPayloadV::SubagentStarted(_) => lemma_children(s, event, ctx),
        EventPayloadV::SubagentErrored(_) => lemma_children(s, event, ctx),
        EventPayloadV::SubagentTurnCompleted(_) => lemma_children(s, event, ctx),
        EventPayloadV::ConnectorSyncRequested(_) => lemma_connectors(s, event, ctx),
        EventPayloadV::ConnectorSyncCompleted(_) => lemma_connectors(s, event, ctx),
        EventPayloadV::ConnectorSyncErrored(_) => lemma_connectors(s, event, ctx),
        EventPayloadV::SessionInterrupted(_) => lemma_interrupts(s, event, ctx),
        EventPayloadV::InterruptResumed(_) => lemma_interrupts(s, event, ctx),
        EventPayloadV::SessionCancelled => lemma_interrupts(s, event, ctx),
        _ => lemma_rest(s, event, ctx),
    }
}

/// Events that happen in order leave a session tidy.
pub proof fn lemma_tidy_replay(
    state: SessionStateV,
    seq: u64,
    at: i128,
    events: Seq<EventPayloadV>,
)
    requires
        state.tidy(),
        orderly(state, seq, at, events),
    ensures
        replay(state, seq, at, events).0.tidy(),
    decreases events.len(),
{
    if events.len() > 0 {
        let front = events.drop_last();
        lemma_tidy_replay(state, seq, at, front);
        let before = replay(state, seq, at, front);
        lemma_tidy_apply(
            before.0,
            events.last(),
            ApplyContext { occurred_at: at, sequence: next_seq(before.1) },
        );
    }
}

/// A session before its first event is tidy.
pub proof fn lemma_new_is_tidy(session_id: Seq<char>)
    ensures
        SessionStateV::new(session_id).tidy(),
{
    reveal(SessionStateV::tidy);
}

} // verus!
