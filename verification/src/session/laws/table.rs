//! How the table of work changes, entry by entry.
use crate::model::{lemma_position, lemma_position_is};
use crate::protocol::effect::{EffectKind, EffectStatus, RetryPolicy};
use crate::session::decision::TriggerV;
use crate::session::events::{DecisionQueuedV, EventPayloadV};
use crate::session::history::tidy::apart;
use crate::session::outcome::asked;
use crate::session::state::{
    named, EffectBodyV, EffectEntryV, EffectTracking, SessionStateV, WorkerDecisionV,
};
use crate::session::working::{lemma_emit_one, next_seq, WorkingV};
use vstd::prelude::*;

verus! {

/// Whether all work but that of one kind and id is as it was.
pub open spec fn others_kept(
    s: SessionStateV,
    t: SessionStateV,
    kind: EffectKind,
    id: Seq<char>,
) -> bool {
    forall|k: EffectKind, i: Seq<char>|
        !(k == kind && i == id) ==> #[trigger] t.effect(k, i) == s.effect(k, i)
}

/// Whether all but the work and the queue is as it was.
pub open spec fn only_work(s: SessionStateV, t: SessionStateV) -> bool {
    t == (SessionStateV { effects: t.effects, schedule_queue: t.schedule_queue, ..s })
}

/// What is found under a kind and an id is of that kind and has that id.
pub proof fn lemma_found(s: SessionStateV, kind: EffectKind, id: Seq<char>)
    ensures
        s.effect(kind, id) is Some ==> s.effect(kind, id)->0.kind() == kind && s.effect(
            kind,
            id,
        )->0.id == id && s.effects.contains(s.effect(kind, id)->0),
        s.effect(kind, id) is None ==> forall|j: int|
            0 <= j < s.effects.len() ==> !(#[trigger] s.effects[j]).names(kind, id),
{
    lemma_position(s.effects, named(kind, id));
    if s.effect(kind, id) is None {
        assert forall|j: int| 0 <= j < s.effects.len() implies !(#[trigger] s.effects[j]).names(
            kind,
            id,
        ) by {
            assert(!named(kind, id)(s.effects[j]));
        }
    }
}

pub proof fn lemma_put(s: SessionStateV, e: EffectEntryV)
    ensures
        s.put_effect(e).effect(e.kind(), e.id) == Some(e),
        others_kept(s, s.put_effect(e), e.kind(), e.id),
        only_work(s, s.put_effect(e)),
        s.put_effect(e).schedule_queue == s.schedule_queue,
{
    let t = s.put_effect(e);
    let p = named(e.kind(), e.id);
    lemma_position(s.effects, p);
    let at = match s.effect_at(e.kind(), e.id) {
        Some(k) => k,
        None => s.effects.len() as int,
    };
    assert(t.effects[at] == e);
    assert forall|j: int| 0 <= j < at implies !p(#[trigger] t.effects[j]) by {
        assert(t.effects[j] == s.effects[j]);
    }
    assert(p(t.effects[at]));
    lemma_position_is(t.effects, p, at);
    assert forall|k: EffectKind, i: Seq<char>| !(k == e.kind() && i == e.id) implies #[trigger] t.effect(
        k,
        i,
    ) == s.effect(k, i) by {
        lemma_other(s.effects, t.effects, at, k, i);
    }
}

/// In a tidy session each piece of work is the one its kind and id name.
pub proof fn lemma_tidy_found(s: SessionStateV, k: int)
    requires
        s.tidy(),
        0 <= k < s.effects.len(),
    ensures
        s.effect(s.effects[k].kind(), s.effects[k].id) == Some(s.effects[k]),
{
    reveal(SessionStateV::tidy);
    let e = s.effects[k];
    let p = named(e.kind(), e.id);
    assert forall|j: int| 0 <= j < k implies !p(#[trigger] s.effects[j]) by {
        assert(apart(s.effects[j], s.effects[k]));
    }
    assert(p(s.effects[k]));
    lemma_position_is(s.effects, p, k);
}

/// What is found depends on the table alone.
pub proof fn lemma_kept_on(
    s: SessionStateV,
    t: SessionStateV,
    u: SessionStateV,
    kind: EffectKind,
    id: Seq<char>,
)
    requires
        others_kept(s, t, kind, id),
        u.effects == t.effects,
    ensures
        others_kept(s, u, kind, id),
        u.effect(kind, id) == t.effect(kind, id),
{
    assert forall|k: EffectKind, i: Seq<char>| !(k == kind && i == id) implies #[trigger] u.effect(
        k,
        i,
    ) == s.effect(k, i) by {
        assert(t.effect(k, i) == s.effect(k, i));
    }
}

/// One entry that is not looked for is all that differs.
proof fn lemma_other(
    a: Seq<EffectEntryV>,
    b: Seq<EffectEntryV>,
    at: int,
    kind: EffectKind,
    id: Seq<char>,
)
    requires
        0 <= at <= a.len(),
        b.len() == a.len() || b.len() == a.len() + 1 && at == a.len(),
        at < b.len(),
        forall|j: int| 0 <= j < b.len() && j != at ==> #[trigger] b[j] == a[j],
        !b[at].names(kind, id),
        at < a.len() ==> !a[at].names(kind, id),
    ensures
        crate::model::first(b, named(kind, id)) == crate::model::first(a, named(kind, id)),
{
    let p = named(kind, id);
    lemma_position(a, p);
    lemma_position(b, p);
    match crate::model::position(a, p) {
        Some(m) => {
            assert(m != at);
            assert(b[m] == a[m]);
            assert forall|j: int| 0 <= j < m implies !p(#[trigger] b[j]) by {
                if j != at {
                    assert(b[j] == a[j]);
                }
            }
            lemma_position_is(b, p, m);
        },
        None => {
            assert forall|j: int| 0 <= j < b.len() implies !p(#[trigger] b[j]) by {
                if j != at {
                    assert(b[j] == a[j]);
                    assert(!p(a[j]));
                }
            }
        },
    }
}

pub proof fn lemma_set(s: SessionStateV, kind: EffectKind, id: Seq<char>, tracking: EffectTracking)
    ensures
        s.effect(kind, id) is Some ==> s.set_tracking(kind, id, tracking).effect(kind, id) == Some(
            EffectEntryV { tracking, ..s.effect(kind, id)->0 },
        ),
        s.effect(kind, id) is None ==> s.set_tracking(kind, id, tracking) == s,
        others_kept(s, s.set_tracking(kind, id, tracking), kind, id),
        only_work(s, s.set_tracking(kind, id, tracking)),
        s.set_tracking(kind, id, tracking).schedule_queue == s.schedule_queue,
{
    lemma_position(s.effects, named(kind, id));
    match s.effect_at(kind, id) {
        Some(k) => {
            let e = EffectEntryV { tracking, ..s.effects[k] };
            assert(e.kind() == kind && e.id == id);
            lemma_put(s, e);
        },
        None => {},
    }
}

/// Without an entry the others are still found.
pub proof fn lemma_remove(s: SessionStateV, kind: EffectKind, id: Seq<char>)
    ensures
        others_kept(s, s.remove_effect(kind, id), kind, id),
        only_work(s, s.remove_effect(kind, id)),
        s.remove_effect(kind, id).schedule_queue == s.schedule_queue,
{
    let t = s.remove_effect(kind, id);
    lemma_position(s.effects, named(kind, id));
    match s.effect_at(kind, id) {
        Some(at) => {
            assert forall|k: EffectKind, i: Seq<char>| !(k == kind && i == id) implies #[trigger] t.effect(
                k,
                i,
            ) == s.effect(k, i) by {
                lemma_without(s.effects, at, k, i);
            }
        },
        None => {},
    }
}

proof fn lemma_without(a: Seq<EffectEntryV>, at: int, kind: EffectKind, id: Seq<char>)
    requires
        0 <= at < a.len(),
        !a[at].names(kind, id),
    ensures
        crate::model::first(a.remove(at), named(kind, id)) == crate::model::first(
            a,
            named(kind, id),
        ),
{
    let p = named(kind, id);
    let b = a.remove(at);
    lemma_position(a, p);
    lemma_position(b, p);
    assert forall|j: int| 0 <= j < b.len() implies #[trigger] b[j] == a[if j < at {
        j
    } else {
        j + 1
    }] by {}
    match crate::model::position(a, p) {
        Some(m) => {
            let n = if m < at {
                m
            } else {
                m - 1
            };
            assert(b[n] == a[m]);
            assert forall|j: int| 0 <= j < n implies !p(#[trigger] b[j]) by {
                if j < at {
                    assert(!p(a[j]));
                } else {
                    assert(!p(a[j + 1]));
                }
            }
            lemma_position_is(b, p, n);
        },
        None => {
            assert forall|j: int| 0 <= j < b.len() implies !p(#[trigger] b[j]) by {
                if j < at {
                    assert(!p(a[j]));
                } else {
                    assert(!p(a[j + 1]));
                }
            }
        },
    }
}

/// Asking for work puts it into the table.
pub proof fn lemma_ask(
    s: SessionStateV,
    id: Seq<char>,
    attempt: u32,
    retry: RetryPolicy,
    body: EffectBodyV,
    at: i128,
)
    ensures
        ({
            let t = s.ask(id, attempt, retry, body, at);
            let e = t.effect(body.kind(), id);
            let fresh = EffectTracking::asked(retry, attempt, at);
            &&& e is Some
            &&& e->0.id == id
            &&& e->0.body == body
            &&& attempt == 0 || s.effect(body.kind(), id) is None ==> e->0.anchor == s.head_id
                && e->0.tracking == fresh
            &&& attempt > 0 && s.effect(body.kind(), id) is Some ==> e->0.anchor == s.effect(
                body.kind(),
                id,
            )->0.anchor && e->0.tracking == (EffectTracking {
                total_deadline: s.effect(body.kind(), id)->0.tracking.total_deadline,
                ..fresh
            })
            &&& others_kept(s, t, body.kind(), id)
            &&& only_work(s, t)
        }),
{
    let fresh = EffectTracking::asked(retry, attempt, at);
    let entry = match s.effect(body.kind(), id) {
        Some(e) if attempt > 0 => EffectEntryV {
            id,
            anchor: e.anchor,
            tracking: EffectTracking { total_deadline: e.tracking.total_deadline, ..fresh },
            body,
        },
        _ => EffectEntryV { id, anchor: s.head_id, tracking: fresh, body },
    };
    assert(entry.kind() == body.kind());
    lemma_put(s, entry);
    let t = s.put_effect(entry);
    lemma_kept_on(s, t, s.ask(id, attempt, retry, body, at), body.kind(), id);
}

/// A question to the worker waits in the table.
pub proof fn lemma_question(w: WorkingV, id: Seq<char>, trigger: TriggerV)
    ensures
        ({
            let t = w.emit(EventPayloadV::DecisionQueued(DecisionQueuedV { id, trigger })).state;
            &&& t.trigger(id) == Some(trigger)
            &&& t.has_status(EffectKind::Decision, id, EffectStatus::Queued)
            &&& others_kept(w.state, t, EffectKind::Decision, id)
            &&& !(trigger is TurnFinished) && trigger != TriggerV::SessionStart ==> only_work(
                w.state,
                t,
            )
            &&& t.turn_cost == w.state.turn_cost
            &&& t.turn_token_usage == w.state.turn_token_usage
        }),
{
    reveal(SessionStateV::apply);
    let body = EffectBodyV::Decision(
        WorkerDecisionV { trigger, source_event_sequence: next_seq(w.seq) },
    );
    lemma_ask(w.state, id, 0, w.state.worker_retry, body, w.now);
    let asked = w.state.ask(id, 0, w.state.worker_retry, body, w.now);
    let t = w.emit(EventPayloadV::DecisionQueued(DecisionQueuedV { id, trigger })).state;
    lemma_kept_on(w.state, asked, t, EffectKind::Decision, id);
}

/// Two events, one after the other.
pub proof fn lemma_emit_two(w: WorkingV, a: EventPayloadV, b: EventPayloadV)
    ensures
        w.emit_all(seq![a, b]) == w.emit(a).emit(b),
{
    reveal_with_fuel(WorkingV::emit_all, 3);
    assert(seq![a, b].drop_last() =~= seq![a]);
    assert(seq![a].drop_last() =~= Seq::empty());
}

/// The worker is asked one thing.
pub proof fn lemma_asked(w: WorkingV, trigger: TriggerV)
    ensures
        ({
            let t = w.ask(trigger);
            let id = w.ids.id();
            &&& t.events == w.events.push(
                EventPayloadV::DecisionQueued(DecisionQueuedV { id, trigger }),
            )
            &&& t.state.trigger(id) == Some(trigger)
            &&& t.state.has_status(EffectKind::Decision, id, EffectStatus::Queued)
            &&& others_kept(w.state, t.state, EffectKind::Decision, id)
            &&& !(trigger is TurnFinished) && trigger != TriggerV::SessionStart ==> only_work(
                w.state,
                t.state,
            )
        }),
{
    let ready = WorkingV { ids: w.ids.rest(), ..w };
    lemma_emit_one(ready, asked(w.ids, trigger));
    lemma_question(ready, w.ids.id(), trigger);
}

} // verus!
