//! What the schedule does happens in order.
use crate::model::{collect, lemma_position, position};
use crate::protocol::effect::EffectKind;
use crate::protocol::error::ErrorInfoV;
use crate::session::apply::ApplyContext;
use crate::session::decision::TriggerV;
use crate::session::effects::decision::{dropped, kept_back_by, pending_only};
use crate::session::effects::timeout_error;
use crate::session::effects::turn_end::{done, unsettled};
use crate::session::events::{DecisionDispatchedV, EventPayloadV};
use crate::session::history::batches::{lemma_cleared_calm, lemma_retry_calm, lemma_settle_calm};
use crate::session::history::{
    all_calm, lemma_calm, lemma_calm_both, lemma_grows_emit, lemma_grows_on, lemma_leads_batch,
    lemma_leads_calm, lemma_leads_emit, lemma_leads_on, lemma_leads_same,
};
use crate::session::outcome::{asked, Batch, OutcomeV};
use crate::session::progress::{lemma_collected, lemma_step_progresses};
use crate::session::schedule::{still_open, ScheduleStepV};
use crate::session::state::{EffectEntryV, QueueEntryV, SessionStateV, TurnPhaseV};
use crate::session::working::{lemma_emit_all_split, lemma_emit_one, next_seq, WorkingV};
use vstd::prelude::*;

verus! {

pub proof fn lemma_leads_ask(w: WorkingV, trigger: TriggerV)
    requires
        !(trigger is TurnFinished),
    ensures
        w.leads_to(w.ask(trigger)),
        w.ask(trigger).state.phase == w.state.phase,
{
    lemma_leads_batch(w, Batch::of(seq![asked(w.ids, trigger)], w.ids.rest()));
}

/// The end of a turn is the end of the turn that runs, and none runs then.
pub proof fn lemma_leads_finalize(w: WorkingV, error: Option<ErrorInfoV>)
    ensures
        w.leads_to(w.emit_all(w.state.finalize_run(error))),
        w.state.phase is Finalizing ==> w.emit_all(w.state.finalize_run(error)).state.phase is Idle,
{
    reveal(SessionStateV::finalize_run);
    let events = w.state.finalize_run(error);
    match w.state.phase {
        TurnPhaseV::Finalizing(f) => {
            lemma_complete_turn(w, events[0]);
            assert(events =~= seq![events[0], done()]);
        },
        _ => {
            lemma_leads_calm(w, events);
        },
    }
}

/// The turn that runs completes, and the session is done with it.
proof fn lemma_complete_turn(w: WorkingV, event: EventPayloadV)
    requires
        event is TurnCompleted,
        w.state.allows(event),
    ensures
        w.leads_to(w.emit_all(seq![event, done()])),
        w.emit_all(seq![event, done()]).state.phase is Idle,
{
    let events = seq![event, done()];
    assert(events.drop_last() =~= seq![event]);
    lemma_emit_one(w, event);
    lemma_leads_emit(w, event);
    let ended = w.emit(event);
    assert(ended.state.phase is Idle) by {
        reveal(SessionStateV::apply);
    }
    lemma_calm(
        ended.state,
        done(),
        ApplyContext { occurred_at: ended.now, sequence: next_seq(ended.seq) },
    );
    lemma_leads_emit(ended, done());
    lemma_leads_on(w, ended, ended.emit(done()));
    assert(w.emit_all(events) == ended.emit(done()));
}

/// A run that fails ends the turn that runs, whatever stood before it.
pub proof fn lemma_leads_fail_run(
    w: WorkingV,
    before: Seq<EventPayloadV>,
    s: SessionStateV,
    error: ErrorInfoV,
)
    requires
        all_calm(before),
        s.phase == w.state.phase,
    ensures
        w.leads_to(w.emit_all(before + s.fail_run(error))),
{
    reveal(SessionStateV::fail_run);
    reveal(SessionStateV::finalize_run);
    let cleared = s.void_effects(unsettled()) + s.drop_queued_decisions();
    lemma_cleared_calm(s);
    let events = s.fail_run(error);
    match s.phase {
        TurnPhaseV::Finalizing(_) => {
            lemma_leads_calm(w, before);
            let mid = w.emit_all(before);
            lemma_complete_turn(mid, events[0]);
            assert(events =~= seq![events[0], done()]);
            lemma_emit_all_split(w, before, events);
            lemma_leads_on(w, mid, mid.emit_all(events));
        },
        TurnPhaseV::Active { turn_id } => {
            let front = before + cleared;
            lemma_calm_both(before, cleared);
            lemma_leads_calm(w, front);
            let mid = w.emit_all(front);
            let last = seq![events[cleared.len() as int], done()];
            assert(events =~= cleared + last);
            assert(before + events =~= front + last);
            lemma_complete_turn(mid, last[0]);
            lemma_emit_all_split(w, front, last);
            lemma_leads_on(w, mid, mid.emit_all(last));
        },
        TurnPhaseV::Idle => {
            lemma_calm_both(before, cleared);
            lemma_leads_calm(w, before + cleared);
        },
    }
}

pub proof fn lemma_leads_settle(w: WorkingV, kind: EffectKind, id: Seq<char>, outcome: OutcomeV)
    ensures
        w.leads_to(w.emit_batch(w.state.settle(kind, id, outcome, w.ids))),
{
    let batch = w.state.settle(kind, id, outcome, w.ids);
    if kind == EffectKind::Decision {
        reveal(SessionStateV::settle);
        let named = WorkingV { ids: batch.ids, ..w };
        lemma_leads_same(w, named);
        match (outcome, w.state.tracking(kind, id)) {
            (OutcomeV::Error(e), Some(t)) => {
                let before = seq![batch.events[0]];
                let failed = w.state.fail_run(e.error);
                lemma_leads_fail_run(named, before, w.state, e.error);
                lemma_leads_calm(named, before);
                assert(batch.events =~= before || batch.events =~= before + failed);
            },
            _ => {
                lemma_leads_calm(named, batch.events);
            },
        }
        lemma_leads_on(w, named, named.emit_all(batch.events));
    } else {
        lemma_settle_calm(w.state, kind, id, outcome, w.ids);
        lemma_leads_batch(w, batch);
    }
}

/// While nothing keeps a decision back, the worker holds none.
proof fn lemma_none_out(effects: Seq<EffectEntryV>, id: Seq<char>)
    requires
        collect(effects, kept_back_by(id)).len() == 0,
    ensures
        collect(effects, pending_only()).len() == 0,
    decreases effects.len(),
{
    if effects.len() > 0 {
        lemma_none_out(effects.drop_last(), id);
    }
}

/// What the queue lets through waits for nothing, and nothing holds it aside.
proof fn lemma_let_through(s: SessionStateV, queue: Seq<QueueEntryV>, k: int)
    requires
        0 <= k < s.queue_steps(queue).len(),
    ensures
        match s.queue_steps(queue)[k] {
            ScheduleStepV::Dispatch { kind, id } => {
                let q = QueueEntryV { kind, id };
                s.due(q) && s.park(q) is None && s.deps(q).len() == 0
            },
            ScheduleStepV::VoidPhantom { kind, id } => crate::session::effects::is_call(kind),
            _ => false,
        },
    decreases queue.len(),
{
    if queue.len() > 0 {
        let q = queue[0];
        let rest = queue.drop_first();
        let steps = s.queue_steps(queue);
        if s.phantom(q) {
            if k > 0 {
                lemma_let_through(s, rest, k - 1);
                assert(steps[k] == s.queue_steps(rest)[k - 1]);
            }
        } else if !s.due(q) || s.park(q) is Some {
            lemma_let_through(s, rest, k);
        } else if s.deps(q).len() > 0 {
        } else {
            if k > 0 {
                lemma_let_through(s, rest, k - 1);
                assert(steps[k] == s.queue_steps(rest)[k - 1]);
            } else {
                assert(q == (QueueEntryV { kind: q.kind, id: q.id }));
            }
        }
    }
}

proof fn lemma_grows_dispatch_decision(w: WorkingV, id: Seq<char>)
    requires
        w.state.park(QueueEntryV { kind: EffectKind::Decision, id }) is None,
        w.state.deps(QueueEntryV { kind: EffectKind::Decision, id }).len() == 0,
    ensures
        w.grows_to(w.emit_all(w.state.dispatch_decision(id))),
{
    reveal(SessionStateV::park);
    reveal(SessionStateV::deps);
    lemma_none_out(w.state.effects, id);
    let out = EventPayloadV::DecisionDispatched(DecisionDispatchedV { id });
    let events = w.state.dispatch_decision(id);
    if events =~= seq![dropped(id)] {
        lemma_leads_calm(w, events);
    } else if events =~= seq![out] {
        lemma_emit_one(w, out);
        lemma_grows_emit(w, out);
    } else {
        let start = events[0];
        assert(events =~= seq![start, out]);
        assert(events.drop_last() =~= seq![start]);
        lemma_emit_one(w, start);
        lemma_grows_emit(w, start);
        let begun = w.emit(start);
        assert(begun.state.effects == w.state.effects) by {
            reveal(SessionStateV::apply);
        }
        lemma_grows_emit(begun, out);
        lemma_grows_on(w, begun, begun.emit(out));
        assert(w.emit_all(events) == begun.emit(out));
    }
}

proof fn lemma_grows_dispatch(w: WorkingV, kind: EffectKind, id: Seq<char>)
    requires
        w.state.park(QueueEntryV { kind, id }) is None,
        w.state.deps(QueueEntryV { kind, id }).len() == 0,
    ensures
        w.grows_to(w.dispatch(kind, id)),
{
    reveal(WorkingV::dispatch);
    reveal(SessionStateV::dispatch);
    reveal(SessionStateV::execute_trigger);
    let events = w.state.dispatch(kind, id);
    let out = w.emit_all(events);
    match kind {
        EffectKind::Decision => lemma_grows_dispatch_decision(w, id),
        EffectKind::TurnEnd => lemma_leads_finalize(w, None),
        _ => lemma_leads_calm(w, events),
    }
    match out.state.execute_trigger(kind, id) {
        Some(trigger) => {
            lemma_leads_ask(out, trigger);
            lemma_grows_on(w, out, out.ask(trigger));
        },
        None => {},
    }
}

/// Each step of the schedule happens in order.
pub proof fn lemma_grows_execute(w: WorkingV, swept: bool, step: ScheduleStepV)
    requires
        w.state.next_step(w.plan_now, swept) == Some(step),
    ensures
        w.grows_to(w.execute(step)),
{
    reveal(WorkingV::execute);
    let s = w.state;
    let plan = s.plan(w.plan_now);
    lemma_position(plan, still_open(swept));
    let at = position(plan, still_open(swept))->0;
    let fetches = collect(s.head_servers(), s.fetch_step());
    let queue = s.queue_steps(s.schedule_queue);
    let sweeps = collect(s.effects, s.sweep_of(w.plan_now));
    if at < fetches.len() {
        assert(step == fetches[at]);
        lemma_collected(s.head_servers(), s.fetch_step(), at);
    } else if at < fetches.len() + queue.len() {
        assert(step == queue[at - fetches.len()]);
        lemma_let_through(s, s.schedule_queue, at - fetches.len());
    } else {
        assert(step == sweeps[at - fetches.len() - queue.len()]);
        lemma_collected(s.effects, s.sweep_of(w.plan_now), at - fetches.len() - queue.len());
    }
    match step {
        ScheduleStepV::RequestFetch { .. } => {
            let event = w.execute(step).events.last();
            lemma_grows_emit(w, event);
        },
        ScheduleStepV::Dispatch { kind, id } => lemma_grows_dispatch(w, kind, id),
        ScheduleStepV::VoidPhantom { .. } => {
            let event = w.execute(step).events.last();
            lemma_grows_emit(w, event);
        },
        ScheduleStepV::TimeOut { kind, id } => {
            reveal(WorkingV::time_out);
            lemma_leads_settle(w, kind, id, OutcomeV::Error(timeout_error(true)));
            lemma_leads_settle(w, kind, id, OutcomeV::Error(timeout_error(false)));
        },
        ScheduleStepV::Retry { kind, id } => {
            lemma_retry_calm(w.state, kind, id);
            lemma_leads_calm(w, w.state.retry(kind, id));
        },
        ScheduleStepV::RedispatchDecision { decision_id } => {
            lemma_grows_emit(
                w,
                EventPayloadV::DecisionDispatched(DecisionDispatchedV { id: decision_id }),
            );
        },
    }
}

/// The schedule happens in order.
pub proof fn lemma_grows_scheduled(w: WorkingV, swept: bool)
    ensures
        w.grows_to(w.scheduled(swept)),
    decreases
            if swept {
                0nat
            } else {
                1nat
            },
            w.state.waiting(),
            w.state.unfetched(),
{
    match w.state.next_step(w.plan_now, swept) {
        None => {
            lemma_leads_same(w, w);
        },
        Some(step) => {
            lemma_step_progresses(w, swept, step);
            lemma_grows_execute(w, swept, step);
            let after = w.execute(step);
            lemma_grows_scheduled(after, swept || step.is_sweep());
            lemma_grows_on(w, after, after.scheduled(swept || step.is_sweep()));
        },
    }
}

} // verus!
