//! What a session does next, without being told.
//!
//! The queue is served in the order of arrival. A piece of work that waits for
//! something keeps back whatever stands behind it; one that an interrupt or a
//! running turn holds aside is passed over.
use crate::model::{
    append_one, as_text, collect, extend, first, lemma_collect_step, lemma_position,
    lemma_position_is, Model,
};
use crate::protocol::config::{BoundServerV, ConnectionPath, ConnectionPathV};
use crate::protocol::effect::{EffectKind, EffectStatus};
use crate::session::effects;
use crate::session::effects::voids_when_missing;
use crate::session::state::{
    EffectEntry, EffectEntryV, QueueEntry, QueueEntryV, SessionState, SessionStateV, TurnPhaseV,
};
use crate::text;
use vstd::prelude::*;

verus! {

#[derive(Debug, PartialEq)]
pub enum ScheduleStep {
    /// Fetch the tools of a connection that was never asked.
    RequestFetch { connection_id: ConnectionPath },
    /// Send out a piece of work whose turn it is.
    Dispatch { kind: EffectKind, id: String },
    /// Give up a call that waits and is not in the table.
    VoidPhantom { kind: EffectKind, id: String },
    /// Fail work that ran out.
    TimeOut { kind: EffectKind, id: String },
    /// Try work again.
    Retry { kind: EffectKind, id: String },
    /// Ask a decision again.
    RedispatchDecision { decision_id: String },
}

/// The value of [`ScheduleStep`].
pub enum ScheduleStepV {
    RequestFetch { connection_id: ConnectionPathV },
    Dispatch { kind: EffectKind, id: Seq<char> },
    VoidPhantom { kind: EffectKind, id: Seq<char> },
    TimeOut { kind: EffectKind, id: Seq<char> },
    Retry { kind: EffectKind, id: Seq<char> },
    RedispatchDecision { decision_id: Seq<char> },
}

impl Model for ScheduleStep {
    type V = ScheduleStepV;

    open spec fn v(&self) -> ScheduleStepV {
        match self {
            ScheduleStep::RequestFetch { connection_id } => ScheduleStepV::RequestFetch {
                connection_id: connection_id.v(),
            },
            ScheduleStep::Dispatch { kind, id } => ScheduleStepV::Dispatch {
                kind: kind.v(),
                id: id.v(),
            },
            ScheduleStep::VoidPhantom { kind, id } => ScheduleStepV::VoidPhantom {
                kind: kind.v(),
                id: id.v(),
            },
            ScheduleStep::TimeOut { kind, id } => ScheduleStepV::TimeOut {
                kind: kind.v(),
                id: id.v(),
            },
            ScheduleStep::Retry { kind, id } => ScheduleStepV::Retry {
                kind: kind.v(),
                id: id.v(),
            },
            ScheduleStep::RedispatchDecision { decision_id } => ScheduleStepV::RedispatchDecision {
                decision_id: decision_id.v(),
            },
        }
    }

    fn dup(&self) -> (r: ScheduleStep) {
        match self {
            ScheduleStep::RequestFetch { connection_id } => ScheduleStep::RequestFetch {
                connection_id: connection_id.dup(),
            },
            ScheduleStep::Dispatch { kind, id } => ScheduleStep::Dispatch {
                kind: kind.dup(),
                id: id.dup(),
            },
            ScheduleStep::VoidPhantom { kind, id } => ScheduleStep::VoidPhantom {
                kind: kind.dup(),
                id: id.dup(),
            },
            ScheduleStep::TimeOut { kind, id } => ScheduleStep::TimeOut {
                kind: kind.dup(),
                id: id.dup(),
            },
            ScheduleStep::Retry { kind, id } => ScheduleStep::Retry {
                kind: kind.dup(),
                id: id.dup(),
            },
            ScheduleStep::RedispatchDecision { decision_id } => ScheduleStep::RedispatchDecision {
                decision_id: decision_id.dup(),
            },
        }
    }
}

impl Clone for ScheduleStep {
    fn clone(&self) -> (r: ScheduleStep)
        ensures
            r.v() == self.v(),
    {
        self.dup()
    }
}

impl ScheduleStepV {
    /// Whether a step comes of the clock.
    pub open spec fn is_sweep(self) -> bool {
        self is TimeOut || self is Retry || self is RedispatchDecision
    }
}

impl ScheduleStep {
    /// Whether a step comes of the clock.
    pub fn is_sweep(&self) -> (r: bool)
        ensures
            r == self.v().is_sweep(),
    {
        match self {
            ScheduleStep::TimeOut { .. } => true,
            ScheduleStep::Retry { .. } => true,
            ScheduleStep::RedispatchDecision { .. } => true,
            _ => false,
        }
    }
}

impl SessionStateV {
    pub open spec fn fetch_step(self) -> spec_fn(BoundServerV) -> Option<ScheduleStepV> {
        |server: BoundServerV|
            if self.fetched_before(server) {
                None
            } else {
                Some(ScheduleStepV::RequestFetch { connection_id: server.path })
            }
    }

    /// Whether an entry can be served at all: the end of a turn while that turn
    /// is being finished, and no fetch, which never waits.
    pub open spec fn due(self, q: QueueEntryV) -> bool {
        match q.kind {
            EffectKind::TurnEnd => match self.phase {
                TurnPhaseV::Finalizing(f) => f.turn_id == q.id,
                _ => false,
            },
            EffectKind::ConnectorSync => false,
            _ => true,
        }
    }

    /// Whether an entry stands for a call that is not in the table.
    pub open spec fn phantom(self, q: QueueEntryV) -> bool {
        voids_when_missing(q.kind) && self.effect(q.kind, q.id) is None
    }

    /// What the queue gives up to do, from its front.
    pub open spec fn queue_steps(self, queue: Seq<QueueEntryV>) -> Seq<ScheduleStepV>
        decreases queue.len(),
    {
        if queue.len() == 0 {
            Seq::empty()
        } else {
            let q = queue[0];
            let rest = queue.drop_first();
            if self.phantom(q) {
                seq![ScheduleStepV::VoidPhantom { kind: q.kind, id: q.id }] + self.queue_steps(rest)
            } else if !self.due(q) || self.park(q) is Some {
                self.queue_steps(rest)
            } else if self.deps(q).len() > 0 {
                Seq::empty()
            } else {
                seq![ScheduleStepV::Dispatch { kind: q.kind, id: q.id }] + self.queue_steps(rest)
            }
        }
    }

    /// Whether an interrupt stops the clock of a piece of work.
    pub open spec fn clock_stopped(self, e: EffectEntryV) -> bool {
        match e.trigger() {
            Some(trigger) => self.decision_stop(trigger) is Some,
            None => e.kind() != EffectKind::ConnectorSync && self.parked_at(
                self.branch_of(e.anchor),
            ) is Some,
        }
    }

    /// What the clock asks of a piece of work. A decision is asked again only
    /// while no other is out.
    pub open spec fn sweep_of(self, now: i128) -> spec_fn(EffectEntryV) -> Option<ScheduleStepV> {
        |e: EffectEntryV|
            if self.clock_stopped(e) {
                None
            } else if e.tracking.open() && e.tracking.expired(now) {
                Some(ScheduleStepV::TimeOut { kind: e.kind(), id: e.id })
            } else if e.tracking.state == EffectStatus::RetryScheduled && e.tracking.retry.next_at
                is Some && e.tracking.retry.next_at->0 <= now {
                if e.kind() != EffectKind::Decision {
                    Some(ScheduleStepV::Retry { kind: e.kind(), id: e.id })
                } else if self.pending_decisions().len() == 0 {
                    Some(ScheduleStepV::RedispatchDecision { decision_id: e.id })
                } else {
                    None
                }
            } else {
                None
            }
    }

    /// What is to be done: fetches, then the queue, then the clock.
    pub open spec fn plan(self, now: i128) -> Seq<ScheduleStepV> {
        collect(self.head_servers(), self.fetch_step()) + self.queue_steps(self.schedule_queue)
            + collect(self.effects, self.sweep_of(now))
    }

    /// The step taken next. The clock is served once.
    pub open spec fn next_step(self, now: i128, swept: bool) -> Option<ScheduleStepV> {
        first(self.plan(now), still_open(swept))
    }
}

pub open spec fn still_open(swept: bool) -> spec_fn(ScheduleStepV) -> bool {
    |step: ScheduleStepV| !(swept && step.is_sweep())
}

fn fetch_steps(state: &SessionState) -> (r: Vec<ScheduleStep>)
    ensures
        r.v() == collect(state.v().head_servers(), state.v().fetch_step()),
{
    let servers = state.head_servers();
    let ghost all = servers.v();
    let ghost step = state.v().fetch_step();
    let mut out: Vec<ScheduleStep> = crate::model::none();
    let mut i: usize = 0;
    assert(all.take(0) =~= Seq::empty());
    while i < servers.len()
        invariant
            i <= servers@.len(),
            all == servers.v(),
            step == state.v().fetch_step(),
            out.v() == collect(all.take(i as int), step),
        decreases servers@.len() - i,
    {
        proof {
            lemma_collect_step(all, step, i as int);
        }
        assert(all[i as int] == servers@[i as int].v());
        if !state.has_effect(EffectKind::ConnectorSync, &servers[i].path.to_string()) {
            append_one(
                &mut out,
                ScheduleStep::RequestFetch { connection_id: servers[i].path.dup() },
            );
        }
        i = i + 1;
    }
    assert(all.take(i as int) =~= all);
    out
}

pub(crate) fn is_due(state: &SessionState, q: &QueueEntry) -> (r: bool)
    ensures
        r == state.v().due(q.v()),
{
    match q.kind {
        EffectKind::TurnEnd => match state.phase.finalizing() {
            Some(f) => text::eq(f.turn_id.as_str(), q.id.as_str()),
            None => false,
        },
        EffectKind::ConnectorSync => false,
        _ => true,
    }
}

pub(crate) fn is_phantom(state: &SessionState, q: &QueueEntry) -> (r: bool)
    ensures
        r == state.v().phantom(q.v()),
{
    let call = q.kind == EffectKind::ToolCall || q.kind == EffectKind::LlmCall || q.kind
        == EffectKind::Subagent;
    call && !state.has_effect(q.kind, &q.id)
}

fn queue_steps(state: &SessionState) -> (r: Vec<ScheduleStep>)
    ensures
        r.v() == state.v().queue_steps(state.v().schedule_queue),
{
    let queue = &state.schedule_queue;
    let ghost all = state.v().queue_steps(queue.v());
    let mut out: Vec<ScheduleStep> = crate::model::none();
    let mut i: usize = 0;
    assert(queue.v().skip(0) =~= queue.v());
    assert(out.v() + all =~= all);
    while i < queue.len()
        invariant
            i <= queue@.len(),
            queue.v() == state.v().schedule_queue,
            all == state.v().queue_steps(queue.v()),
            out.v() + state.v().queue_steps(queue.v().skip(i as int)) == all,
        decreases queue@.len() - i,
    {
        let q = &queue[i];
        let ghost here = queue.v().skip(i as int);
        let ghost before = out.v();
        assert(here[0] == q.v());
        assert(here.drop_first() =~= queue.v().skip(i + 1));
        if is_phantom(state, q) {
            append_one(&mut out, ScheduleStep::VoidPhantom { kind: q.kind, id: q.id.dup() });
            proof {
                let step = ScheduleStepV::VoidPhantom { kind: q.v().kind, id: q.v().id };
                let rest = state.v().queue_steps(queue.v().skip(i + 1));
                assert(before + (seq![step] + rest) =~= out.v() + rest);
            }
        } else if !is_due(state, q) || effects::park(state, q).is_some() {
        } else {
            let deps = effects::deps(state, q);
            if deps.len() > 0 {
                proof {
                    assert(deps.v().contains(deps.v()[0]));
                    assert(state.v().deps(q.v()).contains(deps.v()[0]));
                    assert(out.v() =~= out.v() + Seq::<ScheduleStepV>::empty());
                }
                return out;
            }
            proof {
                if state.v().deps(q.v()).len() > 0 {
                    let d = state.v().deps(q.v())[0];
                    assert(state.v().deps(q.v()).contains(d));
                    assert(deps.v().contains(d));
                }
            }
            append_one(&mut out, ScheduleStep::Dispatch { kind: q.kind, id: q.id.dup() });
            proof {
                let step = ScheduleStepV::Dispatch { kind: q.v().kind, id: q.v().id };
                let rest = state.v().queue_steps(queue.v().skip(i + 1));
                assert(before + (seq![step] + rest) =~= out.v() + rest);
            }
        }
        i = i + 1;
    }
    assert(queue.v().skip(i as int) =~= Seq::empty());
    assert(out.v() + Seq::<ScheduleStepV>::empty() =~= out.v());
    out
}

fn is_clock_stopped(state: &SessionState, e: &EffectEntry) -> (r: bool)
    ensures
        r == state.v().clock_stopped(e.v()),
{
    match e.decision() {
        Some(d) => state.decision_stop(&d.trigger).is_some(),
        None => {
            if e.kind() == EffectKind::ConnectorSync {
                return false;
            }
            let node = state.branch_of(as_text(&e.anchor));
            state.at(node).parked().is_some()
        },
    }
}

fn sweep_step(state: &SessionState, e: &EffectEntry, now: i128, idle: bool) -> (r: Option<ScheduleStep>)
    requires
        idle == (state.v().pending_decisions().len() == 0),
    ensures
        r.v() == state.v().sweep_of(now)(e.v()),
{
    if is_clock_stopped(state, e) {
        return None;
    }
    if e.tracking.is_open() && e.tracking.is_expired(now) {
        return Some(ScheduleStep::TimeOut { kind: e.kind(), id: e.id.dup() });
    }
    let again = match e.tracking.retry.next_at {
        Some(at) => e.tracking.state == EffectStatus::RetryScheduled && at <= now,
        None => false,
    };
    if !again {
        return None;
    }
    if e.kind() != EffectKind::Decision {
        Some(ScheduleStep::Retry { kind: e.kind(), id: e.id.dup() })
    } else if idle {
        Some(ScheduleStep::RedispatchDecision { decision_id: e.id.dup() })
    } else {
        None
    }
}

fn sweep_steps(state: &SessionState, now: i128) -> (r: Vec<ScheduleStep>)
    ensures
        r.v() == collect(state.v().effects, state.v().sweep_of(now)),
{
    let idle = !state.has_pending_worker_decision();
    let ghost all = state.v().effects;
    let ghost sweep = state.v().sweep_of(now);
    let mut out: Vec<ScheduleStep> = crate::model::none();
    let mut i: usize = 0;
    assert(all.take(0) =~= Seq::empty());
    while i < state.effects.len()
        invariant
            i <= state.effects@.len(),
            all == state.v().effects,
            sweep == state.v().sweep_of(now),
            idle == (state.v().pending_decisions().len() == 0),
            out.v() == collect(all.take(i as int), sweep),
        decreases state.effects@.len() - i,
    {
        proof {
            lemma_collect_step(all, sweep, i as int);
        }
        assert(all[i as int] == state.effects@[i as int].v());
        match sweep_step(state, &state.effects[i], now, idle) {
            Some(step) => append_one(&mut out, step),
            None => {},
        }
        i = i + 1;
    }
    assert(all.take(i as int) =~= all);
    out
}

/// What is to be done: fetches, then the queue, then the clock.
pub fn plan(state: &SessionState, now: i128) -> (r: Vec<ScheduleStep>)
    ensures
        r.v() == state.v().plan(now),
{
    let mut steps = fetch_steps(state);
    extend(&mut steps, queue_steps(state));
    extend(&mut steps, sweep_steps(state, now));
    steps
}

/// The step taken next. The clock is served once.
pub fn next_step(state: &SessionState, now: i128, swept: bool) -> (r: Option<ScheduleStep>)
    ensures
        r.v() == state.v().next_step(now, swept),
{
    let steps = plan(state, now);
    let ghost all = steps.v();
    let mut i: usize = 0;
    while i < steps.len()
        invariant
            i <= steps@.len(),
            all == steps.v(),
            all == state.v().plan(now),
            forall|j: int| 0 <= j < i ==> !still_open(swept)(#[trigger] all[j]),
        decreases steps@.len() - i,
    {
        assert(all[i as int] == steps@[i as int].v());
        if !(swept && steps[i].is_sweep()) {
            proof {
                lemma_position_is(all, still_open(swept), i as int);
            }
            return Some(steps[i].dup());
        }
        i = i + 1;
    }
    proof {
        lemma_position(all, still_open(swept));
    }
    None
}

} // verus!
