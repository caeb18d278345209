//! Work waits in the queue exactly while it is queued.
use crate::model::{lemma_position, position};
use crate::protocol::effect::{EffectKind, EffectStatus, RetryPolicy};
use crate::protocol::json::decimal_sum;
use crate::session::aggregate::replay;
use crate::session::apply::ApplyContext;
use crate::session::decision::TriggerV;
use crate::session::events::{ConnectorTargetV, EventPayloadV};
use crate::session::history::orderly;
use crate::session::history::tidy::{
    apart, lemma_ask, lemma_begin, lemma_kept, lemma_put, lemma_tidy_replay,
};
use crate::session::state::{
    named, queued_as, EffectBodyV, EffectEntryV, EffectTracking, LlmCallV, QueueEntryV,
    SessionStateV, SubagentCallV, ToolCallStateV, TurnPhaseV, WorkerDecisionV,
};
use crate::session::working::next_seq;
use vstd::prelude::*;

verus! {

/// The entry of the queue that stands for a piece of work.
pub open spec fn entry_of(e: EffectEntryV) -> QueueEntryV {
    QueueEntryV { kind: e.kind(), id: e.id }
}

impl SessionStateV {
    /// Whether work waits exactly while it is queued. A fetch never waits, and
    /// once a session is cancelled nothing does.
    #[verifier::opaque]
    pub open spec fn waits_right(self) -> bool {
        forall|k: int|
            0 <= k < self.effects.len() && (#[trigger] self.effects[k]).kind()
                != EffectKind::ConnectorSync ==> well_placed(self, self.effects[k])
    }
}

pub open spec fn well_placed(s: SessionStateV, e: EffectEntryV) -> bool {
    let waits = s.schedule_queue.contains(entry_of(e));
    let queued = e.tracking.state == EffectStatus::Queued;
    (waits ==> queued) && (queued && !(s.status is Done) ==> waits)
}

/// Whether the work in one table is that of another, but for one piece.
spec fn same_but(s: SessionStateV, t: SessionStateV, kind: EffectKind, id: Seq<char>) -> bool {
    forall|k: int|
        0 <= k < t.effects.len() ==> (#[trigger] t.effects[k]).names(kind, id)
            || s.effects.contains(t.effects[k])
}

/// Whether what waits is the same, but for one piece.
spec fn queue_same_but(s: SessionStateV, t: SessionStateV, kind: EffectKind, id: Seq<char>) -> bool {
    forall|q: QueueEntryV|
        q != (QueueEntryV { kind, id }) ==> #[trigger] t.schedule_queue.contains(q)
            == s.schedule_queue.contains(q)
}

/// Whether a piece of work, if it is in the table, stands where it should.
spec fn placed(t: SessionStateV, kind: EffectKind, id: Seq<char>) -> bool {
    forall|k: int|
        0 <= k < t.effects.len() && (#[trigger] t.effects[k]).names(kind, id) && kind
            != EffectKind::ConnectorSync ==> well_placed(t, t.effects[k])
}

proof fn lemma_link(s: SessionStateV, t: SessionStateV, kind: EffectKind, id: Seq<char>)
    requires
        s.waits_right(),
        t.status == s.status,
        same_but(s, t, kind, id),
        queue_same_but(s, t, kind, id),
        placed(t, kind, id),
    ensures
        t.waits_right(),
{
    reveal(SessionStateV::waits_right);
    assert forall|k: int|
        0 <= k < t.effects.len() && (#[trigger] t.effects[k]).kind()
            != EffectKind::ConnectorSync implies well_placed(t, t.effects[k]) by {
        let e = t.effects[k];
        if !e.names(kind, id) {
            assert(s.effects.contains(e));
            let j = choose|j: int| 0 <= j < s.effects.len() && s.effects[j] == e;
            assert(well_placed(s, s.effects[j]));
            assert(entry_of(e) != (QueueEntryV { kind, id }));
        }
    }
}

proof fn lemma_put_same(s: SessionStateV, e: EffectEntryV)
    requires
        s.tidy(),
    ensures
        same_but(s, s.put_effect(e), e.kind(), e.id),
        forall|k: int|
            0 <= k < s.put_effect(e).effects.len() && (#[trigger] s.put_effect(e).effects[k]).names(
                e.kind(),
                e.id,
            ) ==> s.put_effect(e).effects[k] == e,
{
    reveal(SessionStateV::tidy);
    lemma_position(s.effects, named(e.kind(), e.id));
    let t = s.put_effect(e);
    assert forall|k: int| 0 <= k < t.effects.len() implies (#[trigger] t.effects[k]).names(
        e.kind(),
        e.id,
    ) || s.effects.contains(t.effects[k]) by {
        if k < s.effects.len() {
            if t.effects[k] != e {
                assert(t.effects[k] == s.effects[k]);
            }
        }
    }
    assert forall|k: int|
        0 <= k < t.effects.len() && (#[trigger] t.effects[k]).names(
            e.kind(),
            e.id,
        ) implies t.effects[k] == e by {
        match s.effect_at(e.kind(), e.id) {
            Some(i) => {
                assert(named(e.kind(), e.id)(s.effects[i]));
                if k != i {
                    if k < i {
                        assert(apart(s.effects[k], s.effects[i]));
                    } else {
                        assert(apart(s.effects[i], s.effects[k]));
                    }
                }
            },
            None => {
                if k < s.effects.len() {
                    assert(!named(e.kind(), e.id)(s.effects[k]));
                }
            },
        }
    }
}

proof fn lemma_set_same(s: SessionStateV, kind: EffectKind, id: Seq<char>, tracking: EffectTracking)
    requires
        s.tidy(),
    ensures
        same_but(s, s.set_tracking(kind, id, tracking), kind, id),
        forall|k: int|
            0 <= k < s.set_tracking(kind, id, tracking).effects.len() && (#[trigger] s.set_tracking(
                kind,
                id,
                tracking,
            ).effects[k]).names(kind, id) ==> s.set_tracking(kind, id, tracking).effects[k].tracking
                == tracking,
{
    reveal(SessionStateV::tidy);
    lemma_position(s.effects, named(kind, id));
    let t = s.set_tracking(kind, id, tracking);
    match s.effect_at(kind, id) {
        Some(i) => {
            assert(named(kind, id)(s.effects[i]));
            assert forall|k: int| 0 <= k < t.effects.len() implies (#[trigger] t.effects[k]).names(
                kind,
                id,
            ) || s.effects.contains(t.effects[k]) by {
                if k != i {
                    assert(t.effects[k] == s.effects[k]);
                }
            }
            assert forall|k: int|
                0 <= k < t.effects.len() && (#[trigger] t.effects[k]).names(
                    kind,
                    id,
                ) implies t.effects[k].tracking == tracking by {
                if k != i {
                    if k < i {
                        assert(apart(s.effects[k], s.effects[i]));
                    } else {
                        assert(apart(s.effects[i], s.effects[k]));
                    }
                }
            }
        },
        None => {
            assert forall|k: int| 0 <= k < t.effects.len() implies !(
            #[trigger] t.effects[k]).names(kind, id) && s.effects.contains(t.effects[k]) by {
                assert(!named(kind, id)(s.effects[k]));
            }
        },
    }
}

proof fn lemma_remove_same(s: SessionStateV, kind: EffectKind, id: Seq<char>)
    requires
        s.tidy(),
    ensures
        same_but(s, s.remove_effect(kind, id), kind, id),
        forall|k: int|
            0 <= k < s.remove_effect(kind, id).effects.len() ==> !(#[trigger] s.remove_effect(
                kind,
                id,
            ).effects[k]).names(kind, id),
{
    reveal(SessionStateV::tidy);
    lemma_position(s.effects, named(kind, id));
    let t = s.remove_effect(kind, id);
    match s.effect_at(kind, id) {
        Some(i) => {
            assert(named(kind, id)(s.effects[i]));
            assert forall|k: int| 0 <= k < t.effects.len() implies !(
            #[trigger] t.effects[k]).names(kind, id) && s.effects.contains(t.effects[k]) by {
                let j = if k < i {
                    k
                } else {
                    k + 1
                };
                assert(t.effects[k] == s.effects[j]);
                if j < i {
                    assert(apart(s.effects[j], s.effects[i]));
                } else {
                    assert(apart(s.effects[i], s.effects[j]));
                }
            }
        },
        None => {
            assert forall|k: int| 0 <= k < t.effects.len() implies !(
            #[trigger] t.effects[k]).names(kind, id) && s.effects.contains(t.effects[k]) by {
                assert(!named(kind, id)(s.effects[k]));
            }
        },
    }
}

proof fn lemma_dequeue_same(s: SessionStateV, kind: EffectKind, id: Seq<char>)
    requires
        crate::session::history::tidy::waits_once(s.schedule_queue),
    ensures
        queue_same_but(s, s.dequeue(kind, id), kind, id),
        !s.dequeue(kind, id).schedule_queue.contains(QueueEntryV { kind, id }),
{
    lemma_position(s.schedule_queue, queued_as(kind, id));
    let queue = s.schedule_queue;
    let after = s.dequeue(kind, id).schedule_queue;
    let entry = QueueEntryV { kind, id };
    match position(queue, queued_as(kind, id)) {
        Some(i) => {
            assert(queue[i] == entry);
            assert forall|q: QueueEntryV| q != entry implies #[trigger] after.contains(q)
                == queue.contains(q) by {
                if queue.contains(q) {
                    let j = choose|j: int| 0 <= j < queue.len() && queue[j] == q;
                    if j < i {
                        assert(after[j] == q);
                    } else {
                        assert(after[j - 1] == q);
                    }
                }
                if after.contains(q) {
                    let j = choose|j: int| 0 <= j < after.len() && after[j] == q;
                    if j < i {
                        assert(queue[j] == q);
                    } else {
                        assert(queue[j + 1] == q);
                    }
                }
            }
            if after.contains(entry) {
                let j = choose|j: int| 0 <= j < after.len() && after[j] == entry;
                if j < i {
                    assert(queue[j] != queue[i]);
                } else {
                    assert(queue[i] != queue[j + 1]);
                }
            }
        },
        None => {
            if after.contains(entry) {
                let j = choose|j: int| 0 <= j < after.len() && after[j] == entry;
                assert(queued_as(kind, id)(queue[j]));
            }
        },
    }
}

proof fn lemma_enqueue_same(s: SessionStateV, kind: EffectKind, id: Seq<char>)
    ensures
        queue_same_but(s, s.enqueue(kind, id), kind, id),
        s.enqueue(kind, id).schedule_queue.contains(QueueEntryV { kind, id }),
{
    lemma_position(s.schedule_queue, queued_as(kind, id));
    let queue = s.schedule_queue;
    let after = s.enqueue(kind, id).schedule_queue;
    let entry = QueueEntryV { kind, id };
    match position(queue, queued_as(kind, id)) {
        Some(i) => {
            assert(queue[i] == entry);
        },
        None => {
            assert(after[queue.len() as int] == entry);
            assert forall|q: QueueEntryV| q != entry implies #[trigger] after.contains(q)
                == queue.contains(q) by {
                if queue.contains(q) {
                    let j = choose|j: int| 0 <= j < queue.len() && queue[j] == q;
                    assert(after[j] == q);
                }
                if after.contains(q) {
                    let j = choose|j: int| 0 <= j < after.len() && after[j] == q;
                    assert(queue[j] == q);
                }
            }
        },
    }
}

proof fn lemma_jump_same(s: SessionStateV, kind: EffectKind, id: Seq<char>)
    requires
        crate::session::history::tidy::waits_once(s.schedule_queue),
    ensures
        queue_same_but(s, s.jump(kind, id), kind, id),
        s.jump(kind, id).schedule_queue.contains(QueueEntryV { kind, id }),
{
    lemma_dequeue_same(s, kind, id);
    let rest = s.dequeue(kind, id).schedule_queue;
    let after = s.jump(kind, id).schedule_queue;
    let entry = QueueEntryV { kind, id };
    assert(after[0] == entry);
    assert forall|q: QueueEntryV| q != entry implies #[trigger] after.contains(q)
        == s.schedule_queue.contains(q) by {
        if rest.contains(q) {
            let j = choose|j: int| 0 <= j < rest.len() && rest[j] == q;
            assert(after[j + 1] == q);
        }
        if after.contains(q) {
            let j = choose|j: int| 0 <= j < after.len() && after[j] == q;
            assert(rest[j - 1] == q);
        }
    }
}

/// Work that is written as no longer queued leaves the queue.
proof fn lemma_put_off(s: SessionStateV, e: EffectEntryV)
    requires
        s.tidy(),
        s.waits_right(),
        e.tracking.state != EffectStatus::Queued,
    ensures
        s.put_effect(e).dequeue(e.kind(), e.id).waits_right(),
{
    reveal(SessionStateV::tidy);
    let t = s.put_effect(e);
    lemma_put_same(s, e);
    lemma_dequeue_same(t, e.kind(), e.id);
    lemma_link(s, t.dequeue(e.kind(), e.id), e.kind(), e.id);
}

/// Work of which only a detail changes stays where it is.
proof fn lemma_put_on(s: SessionStateV, e: EffectEntryV)
    requires
        s.tidy(),
        s.waits_right(),
        e.kind() == EffectKind::ConnectorSync || (s.effect(e.kind(), e.id) is Some && s.effect(
            e.kind(),
            e.id,
        )->0.tracking.state == e.tracking.state),
    ensures
        s.put_effect(e).waits_right(),
{
    let t = s.put_effect(e);
    lemma_put_same(s, e);
    assert(placed(t, e.kind(), e.id)) by {
        if e.kind() != EffectKind::ConnectorSync {
            reveal(SessionStateV::waits_right);
            lemma_position(s.effects, named(e.kind(), e.id));
            let i = position(s.effects, named(e.kind(), e.id))->0;
            assert(named(e.kind(), e.id)(s.effects[i]));
            assert(well_placed(s, s.effects[i]));
            assert(entry_of(s.effects[i]) == entry_of(e));
        }
    }
    lemma_link(s, t, e.kind(), e.id);
}

proof fn lemma_set_off(s: SessionStateV, kind: EffectKind, id: Seq<char>, t: EffectTracking)
    requires
        s.tidy(),
        s.waits_right(),
        t.state != EffectStatus::Queued,
    ensures
        s.set_tracking(kind, id, t).dequeue(kind, id).waits_right(),
{
    reveal(SessionStateV::tidy);
    let set = s.set_tracking(kind, id, t);
    lemma_set_same(s, kind, id, t);
    lemma_dequeue_same(set, kind, id);
    lemma_link(s, set.dequeue(kind, id), kind, id);
}

proof fn lemma_enter(s: SessionStateV, kind: EffectKind, id: Seq<char>, state: EffectStatus)
    requires
        s.tidy(),
        s.waits_right(),
        state != EffectStatus::Queued,
    ensures
        s.enter(kind, id, state).waits_right(),
{
    match s.tracking(kind, id) {
        Some(t) => lemma_set_off(s, kind, id, t.with_state(state)),
        None => lemma_nobody(s, kind, id),
    }
}

/// An entry that stands for nothing leaves the queue.
proof fn lemma_nobody(s: SessionStateV, kind: EffectKind, id: Seq<char>)
    requires
        s.tidy(),
        s.waits_right(),
        s.effect(kind, id) is None,
    ensures
        s.dequeue(kind, id).waits_right(),
{
    reveal(SessionStateV::tidy);
    lemma_position(s.effects, named(kind, id));
    lemma_dequeue_same(s, kind, id);
    let t = s.dequeue(kind, id);
    assert forall|k: int| 0 <= k < t.effects.len() implies !(#[trigger] t.effects[k]).names(kind, id)
        && s.effects.contains(t.effects[k]) by {
        assert(!named(kind, id)(s.effects[k]));
    }
    lemma_link(s, t, kind, id);
}

proof fn lemma_fail(s: SessionStateV, kind: EffectKind, id: Seq<char>, retryable: bool, at: i128)
    requires
        s.tidy(),
        s.waits_right(),
    ensures
        s.fail(kind, id, retryable, at).waits_right(),
{
    match s.tracking(kind, id) {
        Some(t) => lemma_set_off(s, kind, id, t.failed(retryable, at)),
        None => {},
    }
}

proof fn lemma_begins(s: SessionStateV, kind: EffectKind, id: Seq<char>, at: i128)
    requires
        s.tidy(),
        s.waits_right(),
    ensures
        s.begin(kind, id, at).waits_right(),
{
    match s.tracking(kind, id) {
        Some(t) => {
            lemma_set_off(s, kind, id, t.begun(at));
            let a = s.set_tracking(kind, id, t.begun(at)).dequeue(kind, id);
            let b = s.begin(kind, id, at);
            assert(a.effects == b.effects && a.schedule_queue == b.schedule_queue);
            lemma_same(a, b);
        },
        None => lemma_nobody(s, kind, id),
    }
}

proof fn lemma_same(s: SessionStateV, t: SessionStateV)
    requires
        s.waits_right(),
        t.effects == s.effects,
        t.schedule_queue == s.schedule_queue,
        t.status == s.status,
    ensures
        t.waits_right(),
{
    reveal(SessionStateV::waits_right);
    assert forall|k: int|
        0 <= k < t.effects.len() && (#[trigger] t.effects[k]).kind()
            != EffectKind::ConnectorSync implies well_placed(t, t.effects[k]) by {
        assert(well_placed(s, s.effects[k]));
    }
}

proof fn lemma_asks(
    s: SessionStateV,
    id: Seq<char>,
    attempt: u32,
    retry: RetryPolicy,
    body: EffectBodyV,
    at: i128,
)
    requires
        s.tidy(),
        s.waits_right(),
    ensures
        s.ask(id, attempt, retry, body, at).waits_right(),
{
    let fresh = EffectTracking::asked(retry, attempt, at);
    let entry = match s.effect(body.kind(), id) {
        Some(e) if attempt > 0 => EffectEntryV {
            id,
            anchor: e.anchor,
            tracking: EffectTracking { total_deadline: e.tracking.total_deadline, ..fresh },
            body,
        },
        _ => EffectEntryV { id, anchor: s.head_id, tracking: fresh, body },
    };
    let put = s.put_effect(entry);
    lemma_put_same(s, entry);
    lemma_enqueue_same(put, body.kind(), id);
    lemma_link(s, put.enqueue(body.kind(), id), body.kind(), id);
}

proof fn lemma_decisions(s: SessionStateV, event: EventPayloadV, ctx: ApplyContext)
    requires
        s.tidy(),
        s.waits_right(),
        event is DecisionQueued || event is DecisionDispatched || event is DecisionCompleted
            || event is DecisionDropped || event is DecisionErrored,
    ensures
        s.apply(event, ctx).waits_right(),
{
    reveal(SessionStateV::apply);
    let at = ctx.occurred_at;
    match event {
        EventPayloadV::DecisionQueued(p) => {
            let body = EffectBodyV::Decision(
                WorkerDecisionV { trigger: p.trigger, source_event_sequence: ctx.sequence },
            );
            lemma_asks(s, p.id, 0, s.worker_retry, body, at);
            lemma_ask(s, p.id, 0, s.worker_retry, body, at);
            let asked = s.ask(p.id, 0, s.worker_retry, body, at);
            match p.trigger {
                TriggerV::SessionStart => lemma_same(asked, s.apply(event, ctx)),
                TriggerV::TurnFinished { turn_id, .. } => {
                    let t = s.apply(event, ctx);
                    lemma_enqueue_same(asked, EffectKind::TurnEnd, turn_id);
                    assert(t.schedule_queue == asked.enqueue(
                        EffectKind::TurnEnd,
                        turn_id,
                    ).schedule_queue);
                    assert(t.effects == asked.effects);
                    assert forall|k: int| 0 <= k < t.effects.len() implies !(
                    #[trigger] t.effects[k]).names(EffectKind::TurnEnd, turn_id)
                        && asked.effects.contains(t.effects[k]) by {
                        assert(asked.effects[k] == t.effects[k]);
                    }
                    assert(same_but(asked, t, EffectKind::TurnEnd, turn_id));
                    lemma_link(asked, t, EffectKind::TurnEnd, turn_id);
                },
                TriggerV::InterruptResumed { .. } => {
                    reveal(SessionStateV::tidy);
                    let t = asked.jump(EffectKind::Decision, p.id);
                    lemma_jump_same(asked, EffectKind::Decision, p.id);
                    assert forall|k: int| 0 <= k < t.effects.len() implies asked.effects.contains(
                        #[trigger] t.effects[k],
                    ) by {
                        assert(asked.effects[k] == t.effects[k]);
                    }
                    assert(placed(t, EffectKind::Decision, p.id)) by {
                        reveal(SessionStateV::waits_right);
                        let fresh = EffectTracking::asked(s.worker_retry, 0, at);
                        let entry = EffectEntryV {
                            id: p.id,
                            anchor: s.head_id,
                            tracking: fresh,
                            body,
                        };
                        lemma_put_same(s, entry);
                    }
                    lemma_link(asked, t, EffectKind::Decision, p.id);
                },
                _ => {},
            }
        },
        EventPayloadV::DecisionDispatched(p) => lemma_begins(s, EffectKind::Decision, p.id, at),
        EventPayloadV::DecisionCompleted(p) => lemma_forget(s, p.id),
        EventPayloadV::DecisionDropped(p) => lemma_forget(s, p.id),
        EventPayloadV::DecisionErrored(p) => {
            lemma_forget(s, p.id);
            lemma_fail(s, EffectKind::Decision, p.id, p.retryable, at);
            match s.tracking(EffectKind::Decision, p.id) {
                Some(t) => if t.ends(p.retryable) {
                    lemma_same(s.forget_decision(p.id), s.apply(event, ctx));
                },
                None => {},
            }
        },
        _ => {},
    }
}

proof fn lemma_forget(s: SessionStateV, id: Seq<char>)
    requires
        s.tidy(),
        s.waits_right(),
    ensures
        s.forget_decision(id).waits_right(),
{
    reveal(SessionStateV::tidy);
    let kind = EffectKind::Decision;
    let removed = s.remove_effect(kind, id);
    lemma_remove_same(s, kind, id);
    lemma_dequeue_same(removed, kind, id);
    lemma_link(s, removed.dequeue(kind, id), kind, id);
}

proof fn lemma_mark_auth(
    s: SessionStateV,
    id: Seq<char>,
    auth: Option<crate::protocol::effect::AuthNeed>,
)
    requires
        s.tidy(),
        s.waits_right(),
    ensures
        s.mark_auth(id, auth).waits_right(),
{
    match s.effect(EffectKind::ConnectorSync, id) {
        Some(e) => lemma_put_on(
            s,
            EffectEntryV {
                body: EffectBodyV::Connector(
                    crate::session::state::ConnectorSyncV { auth, ..e.connector()->0 },
                ),
                ..e
            },
        ),
        None => {},
    }
}

proof fn lemma_tools(s: SessionStateV, event: EventPayloadV, ctx: ApplyContext)
    requires
        s.tidy(),
        s.waits_right(),
        event is ToolCallRequested || event is ToolCallDispatched || event is ToolCallCompleted
            || event is ToolCallErrored,
    ensures
        s.apply(event, ctx).waits_right(),
{
    reveal(SessionStateV::apply);
    let at = ctx.occurred_at;
    let kind = EffectKind::ToolCall;
    match event {
        EventPayloadV::ToolCallRequested(p) => {
            let body = EffectBodyV::Tool(
                ToolCallStateV {
                    name: p.name,
                    arguments: p.arguments,
                    handler: p.handler,
                    target: p.target,
                    result: None,
                    is_error: false,
                },
            );
            lemma_asks(s, p.id, p.attempt, p.retry, body, at);
        },
        EventPayloadV::ToolCallDispatched(p) => lemma_begins(s, kind, p.id, at),
        EventPayloadV::ToolCallCompleted(p) => {
            lemma_found(s, kind, p.id);
            assert forall|e: EffectEntryV|
                e.names(kind, p.id) && e.tracking.state
                    != EffectStatus::Queued implies #[trigger] s.put_effect(e).dequeue(
                kind,
                p.id,
            ).waits_right() by {
                lemma_put_off(s, e);
            }
        },
        EventPayloadV::ToolCallErrored(p) => {
            lemma_found(s, kind, p.id);
            match s.effect(kind, p.id) {
                Some(e) => {
                    let tool = e.tool()->0;
                    let failed = EffectEntryV {
                        tracking: e.tracking.failed(p.retryable, at),
                        body: EffectBodyV::Tool(
                            if e.tracking.ends(p.retryable) {
                                ToolCallStateV {
                                    result: Some(p.error.message),
                                    is_error: true,
                                    ..tool
                                }
                            } else {
                                tool
                            },
                        ),
                        ..e
                    };
                    lemma_put_off(s, failed);
                    lemma_put(s, failed);
                    let off = s.put_effect(failed).dequeue(kind, p.id);
                    crate::session::history::tidy::lemma_dequeue(s.put_effect(failed), kind, p.id);
                    match (tool.target, p.auth) {
                        (Some(ConnectorTargetV::Remote { path, .. }), Some(auth)) => {
                            lemma_mark_auth(off, path.written(), Some(auth));
                        },
                        _ => {},
                    }
                },
                None => {},
            }
        },
        _ => {},
    }
}

proof fn lemma_found(s: SessionStateV, kind: EffectKind, id: Seq<char>)
    ensures
        match s.effect(kind, id) {
            Some(e) => e.names(kind, id),
            None => true,
        },
{
    lemma_position(s.effects, named(kind, id));
}

proof fn lemma_models(s: SessionStateV, event: EventPayloadV, ctx: ApplyContext)
    requires
        s.tidy(),
        s.waits_right(),
        event is LlmCallRequested || event is LlmCallDispatched || event is LlmCallCompleted
            || event is LlmCallErrored,
    ensures
        s.apply(event, ctx).waits_right(),
{
    reveal(SessionStateV::apply);
    let at = ctx.occurred_at;
    let kind = EffectKind::LlmCall;
    match event {
        EventPayloadV::LlmCallRequested(p) => {
            let body = EffectBodyV::Llm(
                LlmCallV {
                    llm: p.llm,
                    format: p.format,
                    request: p.request,
                    stream: p.stream,
                    handler: p.handler,
                    defer_tools_strategy: p.defer_tools_strategy,
                    announced: match s.effect(kind, p.id) {
                        Some(e) if p.attempt > 0 => e.llm()->0.announced,
                        _ => Seq::empty(),
                    },
                },
            );
            lemma_asks(s, p.id, p.attempt, p.retry, body, at);
        },
        EventPayloadV::LlmCallDispatched(p) => {
            lemma_begins(s, kind, p.id, at);
            lemma_begin(s, kind, p.id, at);
            let begun = s.begin(kind, p.id, at);
            lemma_found(begun, kind, p.id);
            match begun.effect(kind, p.id) {
                Some(was) => {
                    assert forall|e: EffectEntryV|
                        e.names(kind, p.id) && e.tracking == was.tracking implies (
                    #[trigger] begun.put_effect(e)).waits_right() by {
                        lemma_put_on(begun, e);
                    }
                },
                None => {},
            }
        },
        EventPayloadV::LlmCallCompleted(p) => {
            lemma_enter(s, kind, p.id, EffectStatus::Completed);
            lemma_same(s.enter(kind, p.id, EffectStatus::Completed), s.apply(event, ctx));
        },
        EventPayloadV::LlmCallErrored(p) => lemma_fail(s, kind, p.id, p.retryable, at),
        _ => {},
    }
}

proof fn lemma_children(s: SessionStateV, event: EventPayloadV, ctx: ApplyContext)
    requires
        s.tidy(),
        s.waits_right(),
        event is SubagentRequested || event is SubagentDispatched || event is SubagentStarted
            || event is SubagentErrored || event is SubagentTurnCompleted,
    ensures
        s.apply(event, ctx).waits_right(),
{
    reveal(SessionStateV::apply);
    let at = ctx.occurred_at;
    let kind = EffectKind::Subagent;
    match event {
        EventPayloadV::SubagentRequested(p) => {
            let body = EffectBodyV::Subagent(
                SubagentCallV {
                    session_id: p.session_id,
                    agent_id: p.agent_id,
                    message: p.message,
                    mode: p.mode,
                    decision_id: p.decision_id,
                    result: None,
                    is_error: false,
                },
            );
            lemma_asks(s, p.id, p.attempt, p.retry, body, at);
        },
        EventPayloadV::SubagentDispatched(p) => lemma_begins(s, kind, p.id, at),
        EventPayloadV::SubagentStarted(p) => {
            lemma_enter(s, kind, p.id, EffectStatus::Completed);
            lemma_enter(s, kind, p.id, EffectStatus::Running);
        },
        EventPayloadV::SubagentErrored(p) => {
            lemma_found(s, kind, p.id);
            assert forall|e: EffectEntryV|
                e.names(kind, p.id) && e.tracking.state
                    != EffectStatus::Queued implies #[trigger] s.put_effect(e).dequeue(
                kind,
                p.id,
            ).waits_right() by {
                lemma_put_off(s, e);
            }
        },
        EventPayloadV::SubagentTurnCompleted(p) => {
            let paid = SessionStateV {
                subagent_cost: decimal_sum(s.subagent_cost, p.cost),
                detached_turns: match p.turn_id {
                    Some(turn_id) => s.detached_turns.push(turn_id),
                    None => s.detached_turns,
                },
                ..s
            };
            lemma_same(s, paid);
            crate::session::history::tidy::lemma_same(s, paid);
            lemma_found(s, kind, p.id);
            assert forall|e: EffectEntryV|
                e.names(kind, p.id) && e.tracking.state
                    != EffectStatus::Queued implies #[trigger] paid.put_effect(e).dequeue(
                kind,
                p.id,
            ).waits_right() by {
                lemma_put_off(paid, e);
            }
        },
        _ => {},
    }
}

proof fn lemma_connectors(s: SessionStateV, event: EventPayloadV, ctx: ApplyContext)
    requires
        s.tidy(),
        s.waits_right(),
        event is ConnectorSyncRequested || event is ConnectorSyncCompleted
            || event is ConnectorSyncErrored,
    ensures
        s.apply(event, ctx).waits_right(),
{
    reveal(SessionStateV::apply);
    let kind = EffectKind::ConnectorSync;
    assert forall|e: EffectEntryV| e.kind() == kind implies (#[trigger] s.put_effect(
        e,
    )).waits_right() by {
        lemma_put_on(s, e);
    }
    match event {
        EventPayloadV::ConnectorSyncRequested(p) => {
            lemma_found(s, kind, p.path.written());
        },
        EventPayloadV::ConnectorSyncErrored(p) => {
            lemma_fail(s, kind, p.id, p.retryable, ctx.occurred_at);
            crate::session::history::tidy::lemma_fail(s, kind, p.id, p.retryable, ctx.occurred_at);
            lemma_mark_auth(s.fail(kind, p.id, p.retryable, ctx.occurred_at), p.id, p.auth);
        },
        _ => {},
    }
}

proof fn lemma_rest(s: SessionStateV, event: EventPayloadV, ctx: ApplyContext)
    requires
        s.tidy(),
        s.waits_right(),
        event is SessionCreated || event is AgentConfigUpdated || event is WorkerStateUpdated
            || event is CallVoided || event is NewMessage || event is HeadMoved
            || event is TurnStarted || event is TurnCompleted || event is SessionDone
            || event is ChannelsUpdated || event is SessionMessageRequested || event
            is SessionInterrupted || event is InterruptResumed || event is SessionCancelled,
    ensures
        s.apply(event, ctx).waits_right(),
{
    reveal(SessionStateV::apply);
    let t = s.apply(event, ctx);
    match event {
        EventPayloadV::CallVoided(p) => lemma_enter(s, p.kind, p.id, EffectStatus::Failed),
        EventPayloadV::TurnCompleted(p) => {
            let kind = EffectKind::TurnEnd;
            let ended = SessionStateV {
                phase: TurnPhaseV::Idle,
                completed_turn_ids: s.completed_turn_ids.push(p.turn_id),
                ..s
            };
            reveal(SessionStateV::tidy);
            lemma_same(s, ended);
            lemma_dequeue_same(ended, kind, p.turn_id);
            assert forall|k: int| 0 <= k < t.effects.len() implies !(
            #[trigger] t.effects[k]).names(kind, p.turn_id) && ended.effects.contains(
                t.effects[k],
            ) by {
                assert(ended.effects[k] == t.effects[k]);
            }
            assert(same_but(ended, t, kind, p.turn_id));
            lemma_link(ended, t, kind, p.turn_id);
        },
        EventPayloadV::SessionInterrupted(i) => {
            lemma_kept(s.effects, s.kept_through(i));
            lemma_fewer(s, t);
        },
        EventPayloadV::SessionCancelled => {
            reveal(SessionStateV::waits_right);
        },
        _ => lemma_same(s, t),
    }
}

proof fn lemma_fewer(s: SessionStateV, t: SessionStateV)
    requires
        s.waits_right(),
        t.schedule_queue == s.schedule_queue,
        t.status == s.status,
        forall|k: int| 0 <= k < t.effects.len() ==> s.effects.contains(#[trigger] t.effects[k]),
    ensures
        t.waits_right(),
{
    reveal(SessionStateV::waits_right);
    assert forall|k: int|
        0 <= k < t.effects.len() && (#[trigger] t.effects[k]).kind()
            != EffectKind::ConnectorSync implies well_placed(t, t.effects[k]) by {
        assert(s.effects.contains(t.effects[k]));
        let j = choose|j: int| 0 <= j < s.effects.len() && s.effects[j] == t.effects[k];
        assert(well_placed(s, s.effects[j]));
    }
}

/// Whatever may happen to a session leaves its queue right.
pub proof fn lemma_waits_apply(s: SessionStateV, event: EventPayloadV, ctx: ApplyContext)
    requires
        s.tidy(),
        s.waits_right(),
    ensures
        s.apply(event, ctx).waits_right(),
{
    match event {
        EventPayloadV::DecisionQueued(_) => lemma_decisions(s, event, ctx),
        EventPayloadV::DecisionDispatched(_) => lemma_decisions(s, event, ctx),
        EventPayloadV::DecisionCompleted(_) => lemma_decisions(s, event, ctx),
        EventPayloadV::DecisionDropped(_) => lemma_decisions(s, event, ctx),
        EventPayloadV::DecisionErrored(_) => lemma_decisions(s, event, ctx),
        EventPayloadV::ToolCallRequested(_) => lemma_tools(s, event, ctx),
        EventPayloadV::ToolCallDispatched(_) => lemma_tools(s, event, ctx),
        EventPayloadV::ToolCallCompleted(_) => lemma_tools(s, event, ctx),
        EventPayloadV::ToolCallErrored(_) => lemma_tools(s, event, ctx),
        EventPayloadV::LlmCallRequested(_) => lemma_models(s, event, ctx),
        EventPayloadV::LlmCallDispatched(_) => lemma_models(s, event, ctx),
        EventPayloadV::LlmCallCompleted(_) => lemma_models(s, event, ctx),
        EventPayloadV::LlmCallErrored(_) => lemma_models(s, event, ctx),
        EventPayloadV::SubagentRequested(_) => lemma_children(s, event, ctx),
        EventPayloadV::SubagentDispatched(_) => lemma_children(s, event, ctx),
        EventPayloadV::SubagentStarted(_) => lemma_children(s, event, ctx),
        EventPayloadV::SubagentErrored(_) => lemma_children(s, event, ctx),
        EventPayloadV::SubagentTurnCompleted(_) => lemma_children(s, event, ctx),
        EventPayloadV::ConnectorSyncRequested(_) => lemma_connectors(s, event, ctx),
        EventPayloadV::ConnectorSyncCompleted(_) => lemma_connectors(s, event, ctx),
        EventPayloadV::ConnectorSyncErrored(_) => lemma_connectors(s, event, ctx),
        _ => lemma_rest(s, event, ctx),
    }
}

/// Events that happen in order leave a session's queue right.
pub proof fn lemma_waits_replay(
    state: SessionStateV,
    seq: u64,
    at: i128,
    events: Seq<EventPayloadV>,
)
    requires
        state.tidy(),
        state.waits_right(),
        orderly(state, seq, at, events),
    ensures
        replay(state, seq, at, events).0.waits_right(),
    decreases events.len(),
{
    if events.len() > 0 {
        let front = events.drop_last();
        lemma_tidy_replay(state, seq, at, front);
        lemma_waits_replay(state, seq, at, front);
        let before = replay(state, seq, at, front);
        lemma_waits_apply(
            before.0,
            events.last(),
            ApplyContext { occurred_at: at, sequence: next_seq(before.1) },
        );
    }
}

/// Nothing waits in a session before its first event.
pub proof fn lemma_new_waits_right(session_id: Seq<char>)
    ensures
        SessionStateV::new(session_id).waits_right(),
{
    reveal(SessionStateV::waits_right);
}

} // verus!
