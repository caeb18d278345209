//! Why the schedule comes to an end.
//!
//! A step of the queue takes an entry out of it. Where that asks the worker to
//! run a call, an entry comes back, but one that weighs less. A fetch leaves
//! the queue alone, and one connection fewer is to be fetched. The clock is
//! served once.
use crate::model::{collect, first, lemma_position, position};
use crate::protocol::config::{BoundServerV, ConnectionPathV};
use crate::protocol::effect::{EffectKind, EffectStatus, RetryPolicy};
use crate::session::decision::TriggerV;
use crate::session::effects::turn_end::done;
use crate::session::events::{
    CallVoidedV, ConnectorSyncRequestedV, DecisionDispatchedV, DecisionQueuedV, EventPayloadV,
};
use crate::session::outcome::asked;
use crate::session::schedule::{still_open, ScheduleStepV};
use crate::session::state::{
    named, queued_as, EffectBodyV, EffectEntryV, QueueEntryV, SessionStateV, TurnPhaseV,
};
use crate::session::working::{lemma_emit_one, next_seq, WorkingV};
use vstd::prelude::*;

verus! {

/// How much an entry of the queue weighs: a call that the worker runs brings a
/// decision.
pub open spec fn weight(kind: EffectKind) -> nat {
    match kind {
        EffectKind::Decision => 1,
        EffectKind::TurnEnd => 1,
        _ => 2,
    }
}

/// How much a queue weighs.
pub open spec fn queue_weight(queue: Seq<QueueEntryV>) -> nat
    decreases queue.len(),
{
    if queue.len() == 0 {
        0
    } else {
        queue_weight(queue.drop_last()) + weight(queue.last().kind)
    }
}

impl SessionStateV {
    /// How much waits.
    pub open spec fn waiting(self) -> nat {
        queue_weight(self.schedule_queue)
    }

    /// How many connections are still to be fetched for the first time.
    pub open spec fn unfetched(self) -> nat {
        collect(self.head_servers(), self.fetch_step()).len()
    }
}

impl WorkingV {
    /// What is to be done is done, until nothing is. The clock is served once,
    /// unless it was already.
    pub open spec fn scheduled(self, swept: bool) -> WorkingV
        decreases
                if swept {
                    0nat
                } else {
                    1nat
                },
                self.state.waiting(),
                self.state.unfetched(),
        via Self::schedule_ends
    {
        match self.state.next_step(self.plan_now, swept) {
            None => self,
            Some(step) => self.execute(step).scheduled(swept || step.is_sweep()),
        }
    }

    #[via_fn]
    proof fn schedule_ends(self, swept: bool) {
        match self.state.next_step(self.plan_now, swept) {
            None => {},
            Some(step) => {
                lemma_step_progresses(self, swept, step);
            },
        }
    }
}

proof fn lemma_weight_remove(queue: Seq<QueueEntryV>, i: int)
    requires
        0 <= i < queue.len(),
    ensures
        queue_weight(queue) == queue_weight(queue.remove(i)) + weight(queue[i].kind),
    decreases queue.len(),
{
    if i == queue.len() - 1 {
        assert(queue.remove(i) =~= queue.drop_last());
    } else {
        lemma_weight_remove(queue.drop_last(), i);
        assert(queue.remove(i).drop_last() =~= queue.drop_last().remove(i));
        assert(queue.remove(i).last() == queue.last());
    }
}

/// Taking an entry out of the queue makes it lighter by that entry.
proof fn lemma_dequeue(s: SessionStateV, kind: EffectKind, id: Seq<char>)
    ensures
        s.dequeue(kind, id).waiting() <= s.waiting(),
        position(s.schedule_queue, queued_as(kind, id)) is Some ==> s.dequeue(kind, id).waiting()
            + weight(kind) == s.waiting(),
{
    lemma_position(s.schedule_queue, queued_as(kind, id));
    match position(s.schedule_queue, queued_as(kind, id)) {
        Some(i) => {
            lemma_weight_remove(s.schedule_queue, i);
        },
        None => {},
    }
}

/// Putting an entry into the queue makes it heavier by that entry at most.
proof fn lemma_enqueue(s: SessionStateV, kind: EffectKind, id: Seq<char>)
    ensures
        s.enqueue(kind, id).waiting() <= s.waiting() + weight(kind),
{
    let grown = s.schedule_queue.push(QueueEntryV { kind, id });
    assert(grown.drop_last() =~= s.schedule_queue);
}

/// What the queue gives up to do stands in it.
pub proof fn lemma_queue_step(s: SessionStateV, queue: Seq<QueueEntryV>, k: int)
    requires
        0 <= k < s.queue_steps(queue).len(),
    ensures
        match s.queue_steps(queue)[k] {
            ScheduleStepV::Dispatch { kind, id } => exists|j: int|
                0 <= j < queue.len() && (#[trigger] queue[j]).kind == kind && queue[j].id == id
                    && s.due(queue[j]),
            ScheduleStepV::VoidPhantom { kind, id } => exists|j: int|
                0 <= j < queue.len() && (#[trigger] queue[j]).kind == kind && queue[j].id == id,
            _ => false,
        },
    decreases queue.len(),
{
    if queue.len() > 0 {
        let q = queue[0];
        let rest = queue.drop_first();
        let steps = s.queue_steps(queue);
        if s.phantom(q) {
            if k > 0 {
                lemma_queue_step(s, rest, k - 1);
                assert(steps[k] == s.queue_steps(rest)[k - 1]);
                lemma_shift(queue, rest);
            }
        } else if !s.due(q) || s.park(q) is Some {
            lemma_queue_step(s, rest, k);
            lemma_shift(queue, rest);
        } else if s.deps(q).len() > 0 {
        } else {
            if k > 0 {
                lemma_queue_step(s, rest, k - 1);
                assert(steps[k] == s.queue_steps(rest)[k - 1]);
                lemma_shift(queue, rest);
            }
        }
    }
}

proof fn lemma_shift(queue: Seq<QueueEntryV>, rest: Seq<QueueEntryV>)
    requires
        queue.len() > 0,
        rest == queue.drop_first(),
    ensures
        forall|j: int| 0 <= j < rest.len() ==> #[trigger] rest[j] == queue[j + 1],
{
}

proof fn lemma_in_queue(queue: Seq<QueueEntryV>, kind: EffectKind, id: Seq<char>, j: int)
    requires
        0 <= j < queue.len(),
        queue[j].kind == kind,
        queue[j].id == id,
    ensures
        position(queue, queued_as(kind, id)) is Some,
{
    lemma_position(queue, queued_as(kind, id));
}

/// Work that starts leaves the queue.
proof fn lemma_begin(s: SessionStateV, kind: EffectKind, id: Seq<char>, at: i128)
    requires
        position(s.schedule_queue, queued_as(kind, id)) is Some,
    ensures
        s.begin(kind, id, at).waiting() + weight(kind) == s.waiting(),
{
    lemma_dequeue(s, kind, id);
}

/// A question that ends no turn, and follows no interrupt, brings one entry at
/// most.
proof fn lemma_asked(w: WorkingV, trigger: TriggerV)
    requires
        !(trigger is TurnFinished),
        !(trigger is InterruptResumed),
    ensures
        w.ask(trigger).state.waiting() <= w.state.waiting() + 1,
{
    reveal(SessionStateV::apply);
    let event = asked(w.ids, trigger);
    lemma_emit_one(WorkingV { ids: w.ids.rest(), ..w }, event);
    let p = DecisionQueuedV { id: w.ids.id(), trigger };
    let s = w.state;
    let body = EffectBodyV::Decision(
        crate::session::state::WorkerDecisionV { trigger, source_event_sequence: next_seq(w.seq) },
    );
    let e = s.ask(p.id, 0, s.worker_retry, body, w.now);
    assert(forall|x: EffectEntryV| s.put_effect(x).schedule_queue == s.schedule_queue);
    assert forall|x: EffectEntryV| s.put_effect(x).enqueue(EffectKind::Decision, p.id).waiting()
        <= s.waiting() + 1 by {
        lemma_enqueue(s.put_effect(x), EffectKind::Decision, p.id);
    }
}

proof fn lemma_dispatch_call(w: WorkingV, kind: EffectKind, id: Seq<char>)
    requires
        kind == EffectKind::ToolCall || kind == EffectKind::LlmCall || kind == EffectKind::Subagent,
        position(w.state.schedule_queue, queued_as(kind, id)) is Some,
    ensures
        w.dispatch(kind, id).state.waiting() < w.state.waiting(),
{
    reveal(SessionStateV::apply);
    reveal(WorkingV::dispatch);
    reveal(SessionStateV::dispatch);
    reveal(SessionStateV::execute_trigger);
    let event = w.state.dispatch(kind, id)[0];
    lemma_emit_one(w, event);
    lemma_begin(w.state, kind, id, w.now);
    let out = w.emit(event);
    match out.state.execute_trigger(kind, id) {
        Some(trigger) => {
            lemma_asked(out, trigger);
        },
        None => {},
    }
}

proof fn lemma_dispatch_decision(w: WorkingV, id: Seq<char>)
    requires
        position(w.state.schedule_queue, queued_as(EffectKind::Decision, id)) is Some,
    ensures
        w.dispatch(EffectKind::Decision, id).state.waiting() < w.state.waiting(),
{
    reveal(SessionStateV::apply);
    reveal(WorkingV::dispatch);
    reveal(SessionStateV::dispatch);
    reveal(SessionStateV::execute_trigger);
    let events = w.state.dispatch_decision(id);
    let out = EventPayloadV::DecisionDispatched(DecisionDispatchedV { id });
    let kind = EffectKind::Decision;
    if events.len() == 1 {
        lemma_emit_one(w, events[0]);
        assert(events =~= seq![events[0]]);
        if events[0] == out {
            lemma_begin(w.state, kind, id, w.now);
        } else {
            let gone = w.state.remove_effect(kind, id);
            lemma_dequeue(gone, kind, id);
        }
    } else {
        assert(events.drop_last() =~= seq![events[0]]);
        lemma_emit_one(w, events[0]);
        lemma_begin(w.emit(events[0]).state, kind, id, w.now);
    }
}

proof fn lemma_dispatch_turn_end(w: WorkingV, id: Seq<char>)
    requires
        position(w.state.schedule_queue, queued_as(EffectKind::TurnEnd, id)) is Some,
        w.state.phase is Finalizing,
        w.state.phase->Finalizing_0.turn_id == id,
    ensures
        w.dispatch(EffectKind::TurnEnd, id).state.waiting() < w.state.waiting(),
{
    reveal(SessionStateV::apply);
    reveal(WorkingV::dispatch);
    reveal(SessionStateV::dispatch);
    reveal(SessionStateV::execute_trigger);
    reveal(SessionStateV::finalize_run);
    let events = w.state.finalize_run(None);
    assert(events.drop_last() =~= seq![events[0]]);
    lemma_emit_one(w, events[0]);
    let ended = SessionStateV {
        phase: TurnPhaseV::Idle,
        completed_turn_ids: w.state.completed_turn_ids.push(id),
        ..w.state
    };
    lemma_dequeue(ended, EffectKind::TurnEnd, id);
}

proof fn lemma_void_phantom(w: WorkingV, kind: EffectKind, id: Seq<char>)
    requires
        position(w.state.schedule_queue, queued_as(kind, id)) is Some,
    ensures
        w.emit(EventPayloadV::CallVoided(CallVoidedV { kind, id })).state.waiting()
            < w.state.waiting(),
{
    reveal(SessionStateV::apply);
    let s = w.state;
    let entered = match s.tracking(kind, id) {
        Some(t) => s.set_tracking(kind, id, t.with_state(EffectStatus::Failed)),
        None => s,
    };
    lemma_dequeue(entered, kind, id);
}

/// Where fewer elements are taken, less is collected.
proof fn lemma_collect_fewer<A, B>(
    s: Seq<A>,
    f: spec_fn(A) -> Option<B>,
    g: spec_fn(A) -> Option<B>,
)
    requires
        forall|i: int| 0 <= i < s.len() ==> ((#[trigger] g(s[i])) is Some ==> f(s[i]) is Some),
    ensures
        collect(s, g).len() <= collect(s, f).len(),
        (exists|i: int| 0 <= i < s.len() && f(#[trigger] s[i]) is Some && g(s[i]) is None)
            ==> collect(s, g).len() < collect(s, f).len(),
    decreases s.len(),
{
    if s.len() > 0 {
        let t = s.drop_last();
        assert forall|i: int| 0 <= i < t.len() implies (#[trigger] g(t[i])) is None || f(t[i])
            is Some by {
            assert(t[i] == s[i]);
            assert(g(s[i]) is Some ==> f(s[i]) is Some);
        }
        lemma_collect_fewer(t, f, g);
        assert(g(s[s.len() - 1]) is Some ==> f(s[s.len() - 1]) is Some);
        if exists|i: int| 0 <= i < s.len() && f(#[trigger] s[i]) is Some && g(s[i]) is None {
            let i = choose|i: int| 0 <= i < s.len() && f(#[trigger] s[i]) is Some && g(s[i]) is None;
            if i < t.len() {
                assert(t[i] == s[i]);
            }
        }
    }
}

/// What is collected comes of an element.
pub proof fn lemma_collected<A, B>(s: Seq<A>, f: spec_fn(A) -> Option<B>, k: int)
    requires
        0 <= k < collect(s, f).len(),
    ensures
        exists|i: int| 0 <= i < s.len() && f(#[trigger] s[i]) == Some(collect(s, f)[k]),
    decreases s.len(),
{
    if s.len() > 0 {
        let t = s.drop_last();
        if k < collect(t, f).len() {
            lemma_collected(t, f, k);
            let i = choose|i: int| 0 <= i < t.len() && f(#[trigger] t[i]) == Some(collect(t, f)[k]);
            assert(s[i] == t[i]);
        } else {
            assert(f(s[s.len() - 1]) == Some(collect(s, f)[k]));
        }
    }
}

/// A fetch leaves one connection fewer to be fetched.
proof fn lemma_fetch(w: WorkingV, path: ConnectionPathV, server: int, retry: RetryPolicy)
    requires
        0 <= server < w.state.head_servers().len(),
        w.state.head_servers()[server].path == path,
        !w.state.fetched_before(w.state.head_servers()[server]),
    ensures
        ({
            let after = w.emit(
                EventPayloadV::ConnectorSyncRequested(
                    ConnectorSyncRequestedV { path, attempt: 0, retry },
                ),
            ).state;
            after.waiting() == w.state.waiting() && after.unfetched() < w.state.unfetched()
        }),
{
    reveal(SessionStateV::apply);
    let s = w.state;
    let p = ConnectorSyncRequestedV { path, attempt: 0, retry };
    let after = s.ask_sync(p, w.now);
    let kind = EffectKind::ConnectorSync;
    let id = path.written();
    let n = s.effects.len();
    assert(s.effect_at(kind, id) is None) by {
        lemma_position(s.effects, named(kind, id));
    }
    assert(after.effects.len() == n + 1);
    assert(after.effects.drop_last() =~= s.effects);
    assert(after.effects.last().names(kind, id));
    assert(after.head_servers() =~= s.head_servers());
    let servers = s.head_servers();
    assert forall|other: BoundServerV| #[trigger] s.fetched_before(other) implies after.fetched_before(
        other,
    ) by {
        lemma_position(s.effects, named(kind, other.path.written()));
        lemma_position(after.effects, named(kind, other.path.written()));
        let i = position(s.effects, named(kind, other.path.written()))->0;
        assert(after.effects[i] == s.effects[i]);
    }
    assert(after.fetched_before(servers[server])) by {
        lemma_position(after.effects, named(kind, id));
        assert(after.effects[n as int].names(kind, id));
    }
    let f = s.fetch_step();
    let g = after.fetch_step();
    assert forall|i: int| 0 <= i < servers.len() implies (#[trigger] g(servers[i])) is None || f(
        servers[i],
    ) is Some by {
        assert(s.fetched_before(servers[i]) ==> after.fetched_before(servers[i]));
    }
    assert(f(servers[server]) is Some && g(servers[server]) is None);
    lemma_collect_fewer(servers, f, g);
}

/// Each step of the schedule brings it closer to its end.
pub proof fn lemma_step_progresses(w: WorkingV, swept: bool, step: ScheduleStepV)
    requires
        w.state.next_step(w.plan_now, swept) == Some(step),
    ensures
        step.is_sweep() ==> !swept,
        !step.is_sweep() ==> {
            let after = w.execute(step).state;
            after.waiting() < w.state.waiting() || after.waiting() == w.state.waiting()
                && after.unfetched() < w.state.unfetched()
        },
{
    reveal(WorkingV::execute);
    let s = w.state;
    let plan = s.plan(w.plan_now);
    lemma_position(plan, still_open(swept));
    let at = position(plan, still_open(swept))->0;
    let fetches = collect(s.head_servers(), s.fetch_step());
    let queue = s.queue_steps(s.schedule_queue);
    let sweeps = collect(s.effects, s.sweep_of(w.plan_now));
    if at < fetches.len() {
        assert(step == fetches[at]);
        lemma_collected(s.head_servers(), s.fetch_step(), at);
        let i = choose|i: int|
            0 <= i < s.head_servers().len() && s.fetch_step()(#[trigger] s.head_servers()[i])
                == Some(fetches[at]);
        let path = s.head_servers()[i].path;
        lemma_fetch(
            w,
            path,
            i,
            RetryPolicy::resolved(
                None,
                s.retry_config(),
                crate::session::retry::RetryTarget::ConnectorSync,
            ),
        );
    } else if at < fetches.len() + queue.len() {
        let k = at - fetches.len();
        assert(step == queue[k]);
        lemma_queue_step(s, s.schedule_queue, k);
        match step {
            ScheduleStepV::Dispatch { kind, id } => {
                let j = choose|j: int|
                    0 <= j < s.schedule_queue.len() && (#[trigger] s.schedule_queue[j]).kind == kind
                        && s.schedule_queue[j].id == id && s.due(s.schedule_queue[j]);
                lemma_in_queue(s.schedule_queue, kind, id, j);
                match kind {
                    EffectKind::Decision => lemma_dispatch_decision(w, id),
                    EffectKind::TurnEnd => lemma_dispatch_turn_end(w, id),
                    EffectKind::ConnectorSync => {},
                    _ => lemma_dispatch_call(w, kind, id),
                }
            },
            ScheduleStepV::VoidPhantom { kind, id } => {
                let j = choose|j: int|
                    0 <= j < s.schedule_queue.len() && (#[trigger] s.schedule_queue[j]).kind == kind
                        && s.schedule_queue[j].id == id;
                lemma_in_queue(s.schedule_queue, kind, id, j);
                lemma_void_phantom(w, kind, id);
            },
            _ => {},
        }
    } else {
        let k = at - fetches.len() - queue.len();
        assert(step == sweeps[k]);
        lemma_collected(s.effects, s.sweep_of(w.plan_now), k);
        assert(step.is_sweep());
    }
}

} // verus!
