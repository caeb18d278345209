//! What happens without being asked.
use crate::model::{any, collect};
use crate::protocol::effect::{EffectKind, EffectStatus, RetryPolicy};
use crate::session::decision::TriggerV;
use crate::session::deps::DepV;
use crate::session::effects::connector::servers_for;
use crate::session::events::{
    CallVoidedV, ConnectorSyncRequestedV, DecisionDispatchedV, EventPayloadV,
};
use crate::session::progress::lemma_collected;
use crate::session::retry::RetryTarget;
use crate::session::schedule::{still_open, ScheduleStepV};
use crate::session::state::{EffectEntryV, EffectTracking, QueueEntryV, SessionStateV};
use crate::session::working::WorkingV;
use vstd::prelude::*;

verus! {

/// Whether work has not settled and is not with a child that runs.
pub open spec fn is_open(t: EffectTracking) -> bool {
    t.state == EffectStatus::Queued || t.state == EffectStatus::Pending || t.state
        == EffectStatus::RetryScheduled
}

/// Whether an attempt ran out, or all of them did.
pub open spec fn ran_out(t: EffectTracking, now: i128) -> bool {
    (t.deadline is Some && t.deadline->0 <= now) || (t.total_deadline is Some
        && t.total_deadline->0 <= now)
}

/// What is collected holds what each element gives.
pub proof fn lemma_gives<A, B>(s: Seq<A>, f: spec_fn(A) -> Option<B>, k: int)
    requires
        0 <= k < s.len(),
        f(s[k]) is Some,
    ensures
        collect(s, f).contains(f(s[k])->0),
    decreases s.len(),
{
    let front = s.drop_last();
    let c = collect(front, f);
    let all = collect(s, f);
    if k < front.len() {
        assert(front[k] == s[k]);
        lemma_gives(front, f, k);
        let j = choose|j: int| 0 <= j < c.len() && c[j] == f(s[k])->0;
        assert(all[j] == c[j]);
    } else {
        assert(all[c.len() as int] == f(s[k])->0);
    }
}

proof fn lemma_planned(s: SessionStateV, now: i128, step: ScheduleStepV)
    requires
        collect(s.effects, s.sweep_of(now)).contains(step),
    ensures
        s.plan(now).contains(step),
{
    let sweeps = collect(s.effects, s.sweep_of(now));
    let before = collect(s.head_servers(), s.fetch_step()) + s.queue_steps(s.schedule_queue);
    let j = choose|j: int| 0 <= j < sweeps.len() && sweeps[j] == step;
    assert(s.plan(now)[before.len() + j] == step);
}

/// Work whose clock runs and that ran out is timed out. What waits for another
/// attempt is tried again once its time has come, and not before; a decision
/// only while the worker holds none.
pub proof fn law_due_work_is_planned(s: SessionStateV, now: i128, k: int)
    requires
        0 <= k < s.effects.len(),
        !s.clock_stopped(s.effects[k]),
    ensures
        ({
            let e = s.effects[k];
            let t = e.tracking;
            let due = t.state == EffectStatus::RetryScheduled && t.retry.next_at is Some
                && t.retry.next_at->0 <= now && !ran_out(t, now);
            &&& is_open(t) && ran_out(t, now) ==> s.plan(now).contains(
                ScheduleStepV::TimeOut { kind: e.kind(), id: e.id },
            )
            &&& due && e.kind() != EffectKind::Decision ==> s.plan(now).contains(
                ScheduleStepV::Retry { kind: e.kind(), id: e.id },
            )
            &&& due && e.kind() == EffectKind::Decision && s.pending_decisions().len() == 0
                ==> s.plan(now).contains(ScheduleStepV::RedispatchDecision { decision_id: e.id })
        }),
{
    let f = s.sweep_of(now);
    if f(s.effects[k]) is Some {
        lemma_gives(s.effects, f, k);
        lemma_planned(s, now, f(s.effects[k])->0);
    }
}

/// Nothing is timed out that has not run out, and nothing is tried again before
/// its time.
pub proof fn law_nothing_is_planned_early(s: SessionStateV, now: i128, k: int)
    requires
        0 <= k < s.plan(now).len(),
        s.plan(now)[k] is TimeOut || s.plan(now)[k] is Retry || s.plan(now)[k]
            is RedispatchDecision,
    ensures
        exists|i: int|
            0 <= i < s.effects.len() && !s.clock_stopped(#[trigger] s.effects[i])
                && match s.plan(now)[k] {
                ScheduleStepV::TimeOut { kind, id } => s.effects[i].kind() == kind
                    && s.effects[i].id == id && is_open(s.effects[i].tracking) && ran_out(
                    s.effects[i].tracking,
                    now,
                ),
                ScheduleStepV::Retry { kind, id } => s.effects[i].kind() == kind
                    && s.effects[i].id == id && kind != EffectKind::Decision
                    && s.effects[i].tracking.state == EffectStatus::RetryScheduled
                    && s.effects[i].tracking.retry.next_at is Some
                    && s.effects[i].tracking.retry.next_at->0 <= now,
                ScheduleStepV::RedispatchDecision { decision_id } => s.effects[i].kind()
                    == EffectKind::Decision && s.effects[i].id == decision_id
                    && s.effects[i].tracking.state == EffectStatus::RetryScheduled
                    && s.effects[i].tracking.retry.next_at is Some
                    && s.effects[i].tracking.retry.next_at->0 <= now
                    && s.pending_decisions().len() == 0,
                _ => false,
            },
{
    let fetches = collect(s.head_servers(), s.fetch_step());
    let steps = s.queue_steps(s.schedule_queue);
    let sweeps = collect(s.effects, s.sweep_of(now));
    let step = s.plan(now)[k];
    if k < fetches.len() {
        lemma_collected(s.head_servers(), s.fetch_step(), k);
        assert(step == fetches[k]);
        assert(false);
    } else if k < fetches.len() + steps.len() {
        let j = k - fetches.len();
        assert(step == steps[j]);
        lemma_queue_is_no_sweep(s, s.schedule_queue, j);
        assert(false);
    } else {
        let j = k - fetches.len() - steps.len();
        assert(step == sweeps[j]);
        lemma_collected(s.effects, s.sweep_of(now), j);
        let i = choose|i: int|
            0 <= i < s.effects.len() && s.sweep_of(now)(#[trigger] s.effects[i]) == Some(sweeps[j]);
        assert(!s.clock_stopped(s.effects[i]));
    }
}

proof fn lemma_queue_is_no_sweep(s: SessionStateV, queue: Seq<QueueEntryV>, j: int)
    requires
        0 <= j < s.queue_steps(queue).len(),
    ensures
        s.queue_steps(queue)[j] is VoidPhantom || s.queue_steps(queue)[j] is Dispatch,
    decreases queue.len(),
{
    let rest = queue.drop_first();
    let q = queue[0];
    if s.phantom(q) {
        if j > 0 {
            lemma_queue_is_no_sweep(s, rest, j - 1);
        }
    } else if !s.due(q) || s.park(q) is Some {
        lemma_queue_is_no_sweep(s, rest, j);
    } else if s.deps(q).len() > 0 {
    } else if j > 0 {
        lemma_queue_is_no_sweep(s, rest, j - 1);
    }
}

/// An interrupt stops the clocks on its branch, but not those of fetches, nor
/// of a client's action and of the news that an interrupt was resumed.
pub proof fn law_some_clocks_never_stop(s: SessionStateV, e: EffectEntryV)
    ensures
        e.kind() == EffectKind::ConnectorSync ==> !s.clock_stopped(e),
        e.trigger() is Some && (e.trigger()->0 is ClientAction || e.trigger()->0
            is InterruptResumed) ==> !s.clock_stopped(e),
        s.open_interrupts.len() == 0 ==> !s.clock_stopped(e),
{
    assert(s.open_interrupts.len() == 0 ==> forall|n: Option<Seq<char>>|
        #[trigger] s.parked_at(n) is None);
}

/// Where the session is stopped, the clocks of the calls made there stop.
pub proof fn law_an_interrupt_stops_clocks(s: SessionStateV, e: EffectEntryV)
    requires
        s.head_parked(),
        e.kind() == EffectKind::ToolCall || e.kind() == EffectKind::LlmCall || e.kind()
            == EffectKind::Subagent,
        s.on_path(s.head_id, e.anchor),
    ensures
        s.clock_stopped(e),
{
}

/// Work that waits first and for nothing goes out. A call that is gone from the
/// table is given up.
pub proof fn law_the_first_in_the_queue_goes_out(s: SessionStateV, now: i128)
    requires
        s.schedule_queue.len() > 0,
    ensures
        ({
            let q = s.schedule_queue[0];
            let call = q.kind == EffectKind::ToolCall || q.kind == EffectKind::LlmCall || q.kind
                == EffectKind::Subagent;
            &&& call && s.effect(q.kind, q.id) is None ==> s.plan(now).contains(
                ScheduleStepV::VoidPhantom { kind: q.kind, id: q.id },
            )
            &&& (q.kind == EffectKind::ToolCall || q.kind == EffectKind::Subagent) && s.effect(
                q.kind,
                q.id,
            ) is Some ==> s.plan(now).contains(
                ScheduleStepV::Dispatch { kind: q.kind, id: q.id },
            )
            &&& q.kind == EffectKind::LlmCall && s.effect(q.kind, q.id) is Some && s.owed().len()
                == 0 ==> s.plan(now).contains(ScheduleStepV::Dispatch { kind: q.kind, id: q.id })
        }),
{
    reveal(SessionStateV::park);
    reveal(SessionStateV::deps);
    let fetches = collect(s.head_servers(), s.fetch_step());
    let steps = s.queue_steps(s.schedule_queue);
    if steps.len() > 0 {
        assert(s.plan(now)[fetches.len() as int] == steps[0]);
    }
}

/// A decision waits while the worker holds another.
pub proof fn law_one_decision_at_a_time(s: SessionStateV, id: Seq<char>, k: int)
    requires
        0 <= k < s.effects.len(),
        s.effects[k].trigger() is Some,
        s.effects[k].tracking.state == EffectStatus::Pending,
    ensures
        s.deps(QueueEntryV { kind: EffectKind::Decision, id }).contains(
            DepV::DecisionSettled { decision_id: s.effects[k].id },
        ),
{
    reveal(SessionStateV::deps);
    let f = crate::session::effects::decision::kept_back_by(id);
    lemma_gives(s.effects, f, k);
    let a = collect(s.effects, f);
    let d = DepV::DecisionSettled { decision_id: s.effects[k].id };
    let j = choose|j: int| 0 <= j < a.len() && a[j] == d;
    assert((a + s.owed())[j] == d);
}

/// What would start a turn stands aside while one runs or is being finished.
pub proof fn law_turns_wait_for_each_other(s: SessionStateV, id: Seq<char>, trigger: TriggerV)
    requires
        s.trigger(id) == Some(trigger),
        s.open_interrupts.len() == 0,
    ensures
        ({
            let holds = match trigger {
                TriggerV::ClientMessage { turn_id, .. } => turn_id is Some,
                TriggerV::SubagentNotice { .. } => true,
                _ => false,
            };
            s.park(QueueEntryV { kind: EffectKind::Decision, id }) is Some <==> holds
                && !(s.phase is Idle)
        }),
{
    reveal(SessionStateV::park);
}

/// Where the session is stopped, what the worker would be asked stands aside
/// until the interrupt is resumed; but a client's action, and the news that one
/// was resumed, do not.
pub proof fn law_a_stopped_session_asks_nothing(s: SessionStateV, id: Seq<char>, trigger: TriggerV)
    requires
        s.trigger(id) == Some(trigger),
        s.parked_at(s.decision_node(trigger)) is Some,
        !(trigger is ClientAction) && !(trigger is InterruptResumed),
    ensures
        s.park(QueueEntryV { kind: EffectKind::Decision, id }) == Some(
            DepV::InterruptResumed {
                interrupt_id: s.parked_at(s.decision_node(trigger))->0.interrupt_id,
            },
        ),
{
    reveal(SessionStateV::park);
}

/// A connection of the agent in force that was never fetched is fetched.
pub proof fn law_new_connections_are_fetched(s: SessionStateV, now: i128, k: int)
    requires
        s.agent_for(s.head_id) is Some,
        0 <= k < servers_for(s.agent_for(s.head_id)->0).len(),
        s.effect(
            EffectKind::ConnectorSync,
            servers_for(s.agent_for(s.head_id)->0)[k].path.written(),
        ) is None,
    ensures
        s.plan(now).contains(
            ScheduleStepV::RequestFetch {
                connection_id: servers_for(s.agent_for(s.head_id)->0)[k].path,
            },
        ),
{
    let servers = s.head_servers();
    lemma_gives(servers, s.fetch_step(), k);
    let fetches = collect(servers, s.fetch_step());
    let step = ScheduleStepV::RequestFetch { connection_id: servers[k].path };
    let j = choose|j: int| 0 <= j < fetches.len() && fetches[j] == step;
    assert(s.plan(now)[j] == step);
}

/// A connection that was never fetched, or whose fetch has not settled, holds
/// calls to models and decisions back.
pub proof fn law_connections_are_waited_for(s: SessionStateV, id: Seq<char>, k: int)
    requires
        s.agent_for(s.head_id) is Some,
        0 <= k < servers_for(s.agent_for(s.head_id)->0).len(),
        ({
            let t = s.tracking(
                EffectKind::ConnectorSync,
                servers_for(s.agent_for(s.head_id)->0)[k].path.written(),
            );
            t is None || t->0.state != EffectStatus::Completed && t->0.state
                != EffectStatus::Failed
        }),
    ensures
        ({
            let d = DepV::ConnectorSettled {
                path: servers_for(s.agent_for(s.head_id)->0)[k].path.written(),
            };
            &&& s.deps(QueueEntryV { kind: EffectKind::LlmCall, id }).contains(d)
            &&& s.deps(QueueEntryV { kind: EffectKind::Decision, id }).contains(d)
        }),
{
    reveal(SessionStateV::deps);
    let servers = s.head_servers();
    lemma_gives(servers, s.owes(), k);
    let d = DepV::ConnectorSettled { path: servers[k].path.written() };
    let owed = s.owed();
    let j = choose|j: int| 0 <= j < owed.len() && owed[j] == d;
    let first = collect(s.effects, crate::session::effects::decision::kept_back_by(id));
    assert((first + owed)[first.len() + j] == d);
}

/// Each step of the schedule does what it says.
pub proof fn law_a_step_does_what_it_says(w: WorkingV, step: ScheduleStepV)
    ensures
        ({
            let after = w.execute(step);
            match step {
                ScheduleStepV::RequestFetch { connection_id } => after.events == w.events.push(
                    EventPayloadV::ConnectorSyncRequested(
                        ConnectorSyncRequestedV {
                            path: connection_id,
                            attempt: 0,
                            retry: RetryPolicy::resolved(
                                None,
                                w.state.retry_config(),
                                RetryTarget::ConnectorSync,
                            ),
                        },
                    ),
                ),
                ScheduleStepV::Dispatch { kind, id } => after == w.dispatch(kind, id),
                ScheduleStepV::VoidPhantom { kind, id } => after.events == w.events.push(
                    EventPayloadV::CallVoided(CallVoidedV { kind, id }),
                ),
                ScheduleStepV::TimeOut { kind, id } => after == w.time_out(kind, id),
                ScheduleStepV::Retry { kind, id } => after.events == w.events + w.state.retry(
                    kind,
                    id,
                ),
                ScheduleStepV::RedispatchDecision { decision_id } => after.events == w.events.push(
                    EventPayloadV::DecisionDispatched(DecisionDispatchedV { id: decision_id }),
                ),
            }
        }),
{
    reveal(WorkingV::execute);
    if let ScheduleStepV::Retry { kind, id } = step {
        crate::session::laws::restart::lemma_emits(w, w.state.retry(kind, id));
    }
}

/// Where nothing is left to do at once, a session wakes no later than any
/// deadline of work whose clock runs, and than any attempt that is due.
pub proof fn law_a_session_wakes_in_time(s: SessionStateV, now: i128, k: int)
    requires
        0 <= k < s.effects.len(),
        !s.clock_stopped(s.effects[k]),
        !any(s.plan(now), still_open(true)),
    ensures
        ({
            let t = s.effects[k].tracking;
            let wake = s.wake_at(now);
            &&& is_open(t) && t.deadline is Some ==> wake is Some && wake->0 <= t.deadline->0
            &&& is_open(t) && t.total_deadline is Some ==> wake is Some && wake->0
                <= t.total_deadline->0
            &&& t.state == EffectStatus::RetryScheduled && t.retry.next_at is Some ==> wake is Some
                && wake->0 <= t.retry.next_at->0
        }),
{
    lemma_earliest(s, s.effects.len() as int, k);
}

proof fn lemma_earliest(s: SessionStateV, n: int, k: int)
    requires
        0 <= k < n <= s.effects.len(),
    ensures
        s.alarm_of()(s.effects[k]) is Some ==> s.earliest(n) is Some && s.earliest(n)->0
            <= s.alarm_of()(s.effects[k])->0,
    decreases n,
{
    if k < n - 1 {
        lemma_earliest(s, n - 1, k);
    }
}

/// A session with something to do at once wakes now.
pub proof fn law_a_busy_session_wakes_now(s: SessionStateV, now: i128, k: int)
    requires
        0 <= k < s.plan(now).len(),
        !(s.plan(now)[k] is TimeOut || s.plan(now)[k] is Retry || s.plan(now)[k]
            is RedispatchDecision),
    ensures
        s.wake_at(now) == Some(now),
{
    assert(still_open(true)(s.plan(now)[k]));
}

} // verus!
