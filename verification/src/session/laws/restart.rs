//! What a restart of the engine loses.
use crate::model::collect;
use crate::protocol::effect::{EffectKind, EffectStatus};
use crate::protocol::error::{ErrorCode, ErrorInfoV};
use crate::session::caller::CallerV;
use crate::session::command::CommandPayloadV;
use crate::session::decision::LlmHandler;
use crate::session::effects::decision::pending_only;
use crate::session::events::{DecisionErroredV, EventPayloadV, LlmCallErroredV};
use crate::session::history::tidy::lemma_tidy_apply;
use crate::session::laws::calls::{lemma_told, model_failure, next_event};
use crate::session::laws::failing::law_a_decision_fails;
use crate::session::laws::settling::{after_failure, is_last, law_a_model_call_fails};
use crate::session::laws::table::{lemma_found, lemma_tidy_found};
use crate::session::progress::lemma_collected;
use crate::session::run::restart::orphaned;
use crate::session::state::{EffectEntryV, SessionStateV};
use crate::session::working::{lemma_emit_one, WorkingV};
use vstd::prelude::*;

verus! {

/// What lost work fails with.
pub open spec fn lost_error() -> ErrorInfoV {
    ErrorInfoV {
        message: "dispatch lost on engine restart"@,
        code: ErrorCode::Internal,
        param: None,
        detail: None,
    }
}

/// Whether a call to a model is lost when the engine restarts: it is out, and
/// the engine itself runs it.
pub open spec fn is_lost(e: EffectEntryV) -> bool {
    e.tracking.state == EffectStatus::Pending && e.llm() is Some && e.llm()->0.handler
        == LlmHandler::Server
}

/// The calls that are lost, by their ids: those and no others.
proof fn lemma_orphans(effects: Seq<EffectEntryV>, id: Seq<char>)
    ensures
        collect(effects, orphaned()).contains(id) <==> exists|k: int|
            0 <= k < effects.len() && is_lost(#[trigger] effects[k]) && effects[k].id == id,
    decreases effects.len(),
{
    if effects.len() > 0 {
        let front = effects.drop_last();
        let last = effects.last();
        lemma_orphans(front, id);
        let c = collect(front, orphaned());
        let all = collect(effects, orphaned());
        if exists|k: int|
            0 <= k < effects.len() && is_lost(#[trigger] effects[k]) && effects[k].id == id {
            let k = choose|k: int|
                0 <= k < effects.len() && is_lost(#[trigger] effects[k]) && effects[k].id == id;
            if k < front.len() {
                assert(front[k] == effects[k]);
                let j = choose|j: int| 0 <= j < c.len() && c[j] == id;
                assert(all[j] == id);
            } else {
                assert(all[c.len() as int] == id);
            }
        }
        if all.contains(id) {
            let j = choose|j: int| 0 <= j < all.len() && all[j] == id;
            if j < c.len() {
                assert(c[j] == id);
                let k = choose|k: int|
                    0 <= k < front.len() && is_lost(#[trigger] front[k]) && front[k].id == id;
                assert(effects[k] == front[k]);
            } else {
                assert(is_lost(effects[effects.len() - 1]));
            }
        }
    }
}

/// One call is lost.
proof fn lemma_lose_call(w: WorkingV, lost: Seq<char>, id: Seq<char>)
    ensures
        ({
            let t = w.lose(EffectKind::LlmCall, lost);
            let e = w.state.effect(EffectKind::LlmCall, id);
            &&& t.state.effect(EffectKind::LlmCall, id) == if id == lost && e is Some {
                Some(
                    EffectEntryV { tracking: after_failure(e->0.tracking, true, w.now), ..e->0 },
                )
            } else {
                e
            }
            &&& t.now == w.now
            &&& t.events.len() >= w.events.len()
            &&& t.events.take(w.events.len() as int) == w.events
            &&& w.state.effect(EffectKind::LlmCall, lost) is Some ==> t.events.len()
                > w.events.len() && t.events[w.events.len() as int]
                == EventPayloadV::LlmCallErrored(
                LlmCallErroredV { id: lost, error: lost_error(), retryable: true },
            )
        }),
{
    reveal(WorkingV::lose);
    reveal(SessionStateV::settle);
    let kind = EffectKind::LlmCall;
    match w.state.effect(kind, lost) {
        None => {
            assert(w.lose(kind, lost).events == w.events);
            assert(w.events.take(w.events.len() as int) =~= w.events);
        },
        Some(e) => {
            let p = LlmCallErroredV { id: lost, error: lost_error(), retryable: true };
            law_a_model_call_fails(w.state, p, next_event(w));
            let told = if is_last(e.tracking, true) {
                Some(model_failure(lost, lost_error()))
            } else {
                None
            };
            lemma_told(w, EventPayloadV::LlmCallErrored(p), told, kind, id);
            let t = w.lose(kind, lost);
            assert(t.events.take(w.events.len() as int) =~= w.events);
            if id != lost {
                assert(w.state.apply(EventPayloadV::LlmCallErrored(p), next_event(w)).effect(
                    kind,
                    id,
                ) == w.state.effect(kind, id));
            }
        },
    }
}

/// The calls are lost, and no others.
proof fn lemma_lose_calls(w: WorkingV, ids: Seq<Seq<char>>, id: Seq<char>)
    ensures
        ({
            let t = w.lose_calls(ids);
            let e = w.state.effect(EffectKind::LlmCall, id);
            &&& t.state.effect(EffectKind::LlmCall, id) == if ids.contains(id) && e is Some {
                Some(
                    EffectEntryV { tracking: after_failure(e->0.tracking, true, w.now), ..e->0 },
                )
            } else {
                e
            }
            &&& t.now == w.now
            &&& t.events.len() >= w.events.len()
            &&& t.events.take(w.events.len() as int) == w.events
            &&& ids.contains(id) && e is Some ==> t.events.contains(
                EventPayloadV::LlmCallErrored(
                    LlmCallErroredV { id, error: lost_error(), retryable: true },
                ),
            )
        }),
    decreases ids.len(),
{
    if ids.len() == 0 {
        assert(w.events.take(w.events.len() as int) =~= w.events);
    } else {
        let front = ids.drop_last();
        let last = ids.last();
        lemma_lose_calls(w, front, id);
        let mid = w.lose_calls(front);
        let t = w.lose_calls(ids);
        lemma_lose_call(mid, last, id);
        assert(ids =~= front.push(last));
        assert(ids.contains(id) <==> front.contains(id) || id == last) by {
            if front.contains(id) {
                let i = choose|i: int| 0 <= i < front.len() && front[i] == id;
                assert(ids[i] == id);
            }
            if id == last {
                assert(ids[ids.len() - 1] == id);
            }
            if ids.contains(id) {
                let i = choose|i: int| 0 <= i < ids.len() && ids[i] == id;
                if i < front.len() {
                    assert(front[i] == id);
                }
            }
        }
        assert(t.events.take(w.events.len() as int) =~= w.events) by {
            assert forall|i: int| 0 <= i < w.events.len() implies t.events[i] == w.events[i] by {
                assert(t.events.take(mid.events.len() as int)[i] == t.events[i]);
                assert(mid.events.take(w.events.len() as int)[i] == mid.events[i]);
            }
        }
        let e = w.state.effect(EffectKind::LlmCall, id);
        let event = EventPayloadV::LlmCallErrored(
            LlmCallErroredV { id, error: lost_error(), retryable: true },
        );
        if ids.contains(id) && e is Some {
            if front.contains(id) {
                let i = choose|i: int| 0 <= i < mid.events.len() && mid.events[i] == event;
                assert(t.events.take(mid.events.len() as int)[i] == t.events[i]);
                assert(t.events[i] == event);
                lemma_fails_the_same(e->0.tracking, w.now);
            } else {
                assert(t.events[mid.events.len() as int] == event);
            }
        }
    }
}

/// Work that failed and fails again stands where it stood.
proof fn lemma_fails_the_same(t: crate::session::state::EffectTracking, at: i128)
    ensures
        after_failure(after_failure(t, true, at), true, at) == after_failure(t, true, at),
{
}

/// With attempts left, a decision that is lost waits for the next one, and no
/// call is touched.
proof fn lemma_lose_decision(w: WorkingV, id: Seq<char>, kind: EffectKind, other: Seq<char>)
    requires
        w.state.tracking(EffectKind::Decision, id) is Some,
        !is_last(w.state.tracking(EffectKind::Decision, id)->0, true),
        kind != EffectKind::Decision,
    ensures
        ({
            let t = w.lose(EffectKind::Decision, id);
            let e = w.state.effect(EffectKind::Decision, id)->0;
            let errored = EventPayloadV::DecisionErrored(
                DecisionErroredV { id, error: lost_error(), retryable: true },
            );
            &&& t == w.emit(errored)
            &&& t.state.effect(EffectKind::Decision, id) == Some(
                EffectEntryV { tracking: after_failure(e.tracking, true, w.now), ..e },
            )
            &&& t.state.effect(kind, other) == w.state.effect(kind, other)
        }),
{
    reveal(WorkingV::lose);
    reveal(SessionStateV::settle);
    let p = DecisionErroredV { id, error: lost_error(), retryable: true };
    law_a_decision_fails(w.state, p, next_event(w));
    let events = w.state.settle(
        EffectKind::Decision,
        id,
        crate::session::run::restart::lost(),
        w.ids,
    ).events;
    assert(events =~= seq![EventPayloadV::DecisionErrored(p)]);
    lemma_emit_one(w, EventPayloadV::DecisionErrored(p));
}

/// In a tidy session at most one decision is out, and it is found by its id.
proof fn lemma_one_pending(s: SessionStateV)
    requires
        s.tidy(),
    ensures
        s.pending_decisions().len() <= 1,
        forall|k: int|
            0 <= k < s.pending_decisions().len() ==> ({
                let id = (#[trigger] s.pending_decisions()[k]).0;
                &&& s.has_status(EffectKind::Decision, id, EffectStatus::Pending)
                &&& s.pending_decisions()[k].1 == s.tracking(EffectKind::Decision, id)->0.ends(true)
            }),
{
    crate::session::laws::law_one_decision_is_out(s);
    assert forall|k: int| 0 <= k < s.pending_decisions().len() implies ({
        let id = (#[trigger] s.pending_decisions()[k]).0;
        &&& s.has_status(EffectKind::Decision, id, EffectStatus::Pending)
        &&& s.pending_decisions()[k].1 == s.tracking(EffectKind::Decision, id)->0.ends(true)
    }) by {
        lemma_collected(s.effects, pending_only(), k);
        let i = choose|i: int|
            0 <= i < s.effects.len() && pending_only()(#[trigger] s.effects[i]) == Some(
                s.pending_decisions()[k],
            );
        lemma_tidy_found(s, i);
    }
}

/// When the engine restarts, the calls to models that it ran itself are lost:
/// each of them fails, as one that may be tried again. A call that the worker
/// runs, and one that is not out, is as it was. So where no decision that is out
/// has used up its attempts.
pub proof fn law_a_restart_loses_the_engines_calls(w: WorkingV, id: Seq<char>, caller: CallerV)
    requires
        w.state.in_tenant(caller),
        caller is System,
        w.state.tidy(),
        forall|d: Seq<char>|
            (#[trigger] w.state.has_status(EffectKind::Decision, d, EffectStatus::Pending))
                ==> !is_last(w.state.tracking(EffectKind::Decision, d)->0, true),
    ensures
        ({
            let ran = w.run_command(CommandPayloadV::ReconcileDispatch, caller);
            let e = w.state.effect(EffectKind::LlmCall, id);
            &&& ran.r is Ok
            &&& ran.w.state.effect(EffectKind::LlmCall, id) == if e is Some && is_lost(e->0) {
                Some(
                    EffectEntryV { tracking: after_failure(e->0.tracking, true, w.now), ..e->0 },
                )
            } else {
                e
            }
            &&& e is Some && is_lost(e->0) ==> ran.w.events.contains(
                EventPayloadV::LlmCallErrored(
                    LlmCallErroredV { id, error: lost_error(), retryable: true },
                ),
            )
        }),
{
    reveal(WorkingV::run_command);
    reveal(WorkingV::reconcile_dispatch);
    reveal_with_fuel(WorkingV::lose_decisions, 3);
    let kind = EffectKind::LlmCall;
    let pending = w.state.pending_decisions();
    lemma_one_pending(w.state);
    if pending.len() == 1 {
        let d = pending[0].0;
        lemma_lose_decision(w, d, kind, id);
        lemma_tidy_apply(
            w.state,
            EventPayloadV::DecisionErrored(
                DecisionErroredV { id: d, error: lost_error(), retryable: true },
            ),
            next_event(w),
        );
    }
    let decided = w.lose_decisions(pending);
    assert(!decided.1);
    let mid = decided.0;
    assert(mid.state.tidy());
    assert(mid.state.effect(kind, id) == w.state.effect(kind, id));
    let ids = collect(mid.state.effects, orphaned());
    lemma_lose_calls(mid, ids, id);
    lemma_orphans(mid.state.effects, id);
    lemma_found(mid.state, kind, id);
    let e = mid.state.effect(kind, id);
    if ids.contains(id) {
        let k = choose|k: int|
            0 <= k < mid.state.effects.len() && is_lost(#[trigger] mid.state.effects[k])
                && mid.state.effects[k].id == id;
        lemma_tidy_found(mid.state, k);
    }
    if e is Some && is_lost(e->0) {
        let k = choose|k: int|
            0 <= k < mid.state.effects.len() && mid.state.effects[k] == e->0;
        assert(is_lost(mid.state.effects[k]));
    }
}

/// When the engine restarts, the decision that the worker holds is lost too: it
/// waits to be asked again.
pub proof fn law_a_restart_asks_again(w: WorkingV, id: Seq<char>, caller: CallerV)
    requires
        w.state.in_tenant(caller),
        caller is System,
        w.state.tidy(),
        w.state.has_status(EffectKind::Decision, id, EffectStatus::Pending),
    ensures
        ({
            let ran = w.run_command(CommandPayloadV::ReconcileDispatch, caller);
            &&& ran.r is Ok
            &&& ran.w.events.len() > w.events.len()
            &&& ran.w.events[w.events.len() as int] == EventPayloadV::DecisionErrored(
                DecisionErroredV { id, error: lost_error(), retryable: true },
            )
        }),
{
    reveal(WorkingV::run_command);
    reveal(WorkingV::reconcile_dispatch);
    reveal(WorkingV::lose);
    reveal(SessionStateV::settle);
    reveal_with_fuel(WorkingV::lose_decisions, 3);
    let pending = w.state.pending_decisions();
    lemma_one_pending(w.state);
    lemma_found(w.state, EffectKind::Decision, id);
    lemma_is_pending(w.state.effects, id);
    assert(pending.len() == 1 && pending[0].0 == id);
    let events = w.state.settle(
        EffectKind::Decision,
        id,
        crate::session::run::restart::lost(),
        w.ids,
    ).events;
    let errored = EventPayloadV::DecisionErrored(
        DecisionErroredV { id, error: lost_error(), retryable: true },
    );
    assert(events[0] == errored);
    let mid = w.lose(EffectKind::Decision, id);
    lemma_emits(w, events);
    if !pending[0].1 {
        let ids = collect(mid.state.effects, orphaned());
        lemma_lose_calls(mid, ids, id);
        let t = mid.lose_calls(ids);
        assert(t.events.take(mid.events.len() as int)[w.events.len() as int]
            == mid.events[w.events.len() as int]);
    }
}

/// What is emitted stands behind what was there.
pub proof fn lemma_emits(w: WorkingV, events: Seq<EventPayloadV>)
    ensures
        w.emit_all(events).events == w.events + events,
    decreases events.len(),
{
    if events.len() == 0 {
        assert(w.events + events =~= w.events);
    } else {
        lemma_emits(w, events.drop_last());
        assert(w.events + events =~= (w.events + events.drop_last()).push(events.last()));
    }
}

proof fn lemma_is_pending(effects: Seq<EffectEntryV>, id: Seq<char>)
    requires
        exists|k: int|
            0 <= k < effects.len() && (#[trigger] effects[k]).names(EffectKind::Decision, id)
                && effects[k].tracking.state == EffectStatus::Pending,
    ensures
        exists|j: int|
            0 <= j < collect(effects, pending_only()).len() && (#[trigger] collect(
                effects,
                pending_only(),
            )[j]).0 == id,
    decreases effects.len(),
{
    let k = choose|k: int|
        0 <= k < effects.len() && (#[trigger] effects[k]).names(EffectKind::Decision, id)
            && effects[k].tracking.state == EffectStatus::Pending;
    let front = effects.drop_last();
    let c = collect(front, pending_only());
    let all = collect(effects, pending_only());
    if k < front.len() {
        assert(front[k] == effects[k]);
        lemma_is_pending(front, id);
        let j = choose|j: int| 0 <= j < c.len() && (#[trigger] c[j]).0 == id;
        assert(all[j].0 == id);
    } else {
        assert(all[c.len() as int].0 == id);
    }
}

} // verus!
