//! What others see of a session.
use crate::model::{
    any, append_one, as_text, collect, first, lemma_collect_step, lemma_position, lemma_position_is,
    one, position, text_of, Model,
};
use crate::protocol::config::ConnectionPath;
use crate::protocol::effect::{Effect, EffectKind, EffectStatus, EffectV, Handler};
use crate::session::decision::{LlmHandler, ToolHandler, Trigger};
use crate::session::deps::{same_deps, Dep, DepV};
use crate::session::effects;
use crate::session::effects::connector::servers_for;
use crate::session::schedule::{plan, still_open};
use crate::session::state::{
    ConnectorSync, EffectBody, EffectBodyV, EffectEntry, EffectEntryV, EffectTracking, QueueEntryV,
    SessionState, SessionStateV,
};
use crate::session::tree::At;
use crate::text;
use vstd::prelude::*;

verus! {

impl EffectEntryV {
    /// Work as the worker sees it.
    pub open spec fn shown(self) -> EffectV {
        let plain = EffectV {
            id: self.id,
            kind: self.kind(),
            status: self.tracking.state,
            attempt: self.tracking.retry.attempts,
            deadline: self.tracking.deadline,
            anchor: self.anchor,
            name: None,
            arguments: None,
            handler: None,
            stream: None,
            agent_id: None,
            session_id: None,
        };
        match self.body {
            EffectBodyV::Tool(t) => EffectV {
                name: Some(t.name),
                arguments: Some(t.arguments),
                handler: Some(tool_side(t.handler)),
                ..plain
            },
            EffectBodyV::Llm(c) => EffectV {
                handler: Some(llm_side(c.handler)),
                stream: Some(c.stream),
                ..plain
            },
            EffectBodyV::Subagent(c) => EffectV {
                agent_id: Some(c.agent_id),
                session_id: Some(c.session_id),
                ..plain
            },
            _ => plain,
        }
    }
}

pub open spec fn tool_side(h: ToolHandler) -> Handler {
    match h {
        ToolHandler::Worker => Handler::Worker,
        ToolHandler::Client => Handler::Client,
        ToolHandler::Server => Handler::Server,
    }
}

pub open spec fn llm_side(h: LlmHandler) -> Handler {
    match h {
        LlmHandler::Server => Handler::Server,
        LlmHandler::Worker => Handler::Worker,
    }
}

pub open spec fn still_running() -> spec_fn(EffectEntryV) -> Option<EffectV> {
    |e: EffectEntryV|
        if e.kind() != EffectKind::Decision && e.tracking.in_flight() {
            Some(e.shown())
        } else {
            None
        }
}

/// An answer that the worker was told of, or is yet to be told of, and has not
/// recorded.
pub open spec fn other_result(decision_id: Seq<char>) -> spec_fn(EffectEntryV) -> bool {
    |e: EffectEntryV|
        e.id != decision_id && e.trigger() is Some && (e.trigger()->0 is ToolFinished
            || e.trigger()->0 is SubagentFinished)
}

pub open spec fn running_call() -> spec_fn(EffectEntryV) -> bool {
    |e: EffectEntryV|
        (e.kind() == EffectKind::ToolCall || e.kind() == EffectKind::Subagent)
            && e.tracking.in_flight()
}

/// Work that a decision has to wait for.
pub open spec fn outstanding(decision_id: Seq<char>) -> spec_fn(EffectEntryV) -> Option<()> {
    |e: EffectEntryV|
        if running_call()(e) || other_result(decision_id)(e) {
            Some(())
        } else {
            None
        }
}

/// The first instant at which the clock asks something of a piece of work.
pub open spec fn alarm(t: EffectTracking) -> Option<i128> {
    let ends = if t.open() {
        sooner(t.deadline, t.total_deadline)
    } else {
        None
    };
    if t.state == EffectStatus::RetryScheduled {
        sooner(ends, t.retry.next_at)
    } else {
        ends
    }
}

pub open spec fn sooner(a: Option<i128>, b: Option<i128>) -> Option<i128> {
    match (a, b) {
        (Some(x), Some(y)) => if x <= y {
            a
        } else {
            b
        },
        (None, _) => b,
        (_, None) => a,
    }
}

impl SessionStateV {
    /// The work still running, but for decisions.
    pub open spec fn running(self) -> Seq<EffectV> {
        collect(self.effects, still_running())
    }

    /// How much a decision has to wait for: calls that run, and results of
    /// others that are not recorded.
    pub open spec fn pending_work(self, decision_id: Seq<char>) -> nat {
        collect(self.effects, outstanding(decision_id)).len()
    }

    /// The alarms of the work whose clock runs.
    pub open spec fn alarm_of(self) -> spec_fn(EffectEntryV) -> Option<i128> {
        |e: EffectEntryV|
            if self.clock_stopped(e) {
                None
            } else {
                alarm(e.tracking)
            }
    }

    pub open spec fn earliest(self, n: int) -> Option<i128>
        decreases n,
    {
        if n <= 0 {
            None
        } else {
            sooner(self.earliest(n - 1), self.alarm_of()(self.effects[n - 1]))
        }
    }

    /// When a session is to be woken: at once if there is something to do,
    /// else at its first alarm.
    pub open spec fn wake_at(self, now: i128) -> Option<i128> {
        if any(self.plan(now), still_open(true)) {
            Some(now)
        } else {
            self.earliest(self.effects.len() as int)
        }
    }

    /// Whether an entry is passed over, and keeps nothing back.
    pub open spec fn passed_over(self, q: QueueEntryV) -> bool {
        self.phantom(q) || !self.due(q) || self.park(q) is Some
    }

    pub open spec fn keeps_queue_back(self) -> spec_fn(QueueEntryV) -> bool {
        |q: QueueEntryV| !self.passed_over(q) && self.deps(q).len() > 0
    }

    /// The entry that keeps back whatever stands behind it.
    pub open spec fn queue_block(self) -> Option<int> {
        position(self.schedule_queue, self.keeps_queue_back())
    }
}

fn sooner_of(a: Option<i128>, b: Option<i128>) -> (r: Option<i128>)
    ensures
        r == sooner(a, b),
{
    match (a, b) {
        (Some(x), Some(y)) => if x <= y {
            a
        } else {
            b
        },
        (None, _) => b,
        (_, None) => a,
    }
}

fn alarm_at(t: &EffectTracking) -> (r: Option<i128>)
    ensures
        r == alarm(*t),
{
    let ends = if t.is_open() {
        sooner_of(t.deadline, t.total_deadline)
    } else {
        None
    };
    if t.state == EffectStatus::RetryScheduled {
        sooner_of(ends, t.retry.next_at)
    } else {
        ends
    }
}

impl EffectEntry {
    /// Work as the worker sees it.
    pub fn shown(&self) -> (r: Effect)
        ensures
            r.v() == self.v().shown(),
    {
        let mut shown = Effect {
            id: self.id.dup(),
            kind: self.kind(),
            status: self.tracking.state,
            attempt: self.tracking.retry.attempts,
            deadline: self.tracking.deadline,
            anchor: self.anchor.dup(),
            name: None,
            arguments: None,
            handler: None,
            stream: None,
            agent_id: None,
            session_id: None,
        };
        match &self.body {
            EffectBody::Tool(t) => {
                shown.name = Some(t.name.dup());
                shown.arguments = Some(t.arguments.dup());
                shown.handler = Some(Handler::from(t.handler));
            },
            EffectBody::Llm(c) => {
                shown.handler = Some(Handler::from(c.handler));
                shown.stream = Some(c.stream);
            },
            EffectBody::Subagent(c) => {
                shown.agent_id = Some(c.agent_id.dup());
                shown.session_id = Some(c.session_id.dup());
            },
            _ => {},
        }
        shown
    }
}

impl SessionState {
    /// The work still running, but for decisions.
    pub fn effects(&self) -> (r: Vec<Effect>)
        ensures
            r.v() == self.v().running(),
    {
        let mut out: Vec<Effect> = crate::model::none();
        let mut i: usize = 0;
        let ghost all = self.v().effects;
        assert(all.take(0) =~= Seq::empty());
        while i < self.effects.len()
            invariant
                i <= self.effects@.len(),
                all == self.v().effects,
                out.v() == collect(all.take(i as int), still_running()),
            decreases self.effects@.len() - i,
        {
            proof {
                lemma_collect_step(all, still_running(), i as int);
            }
            let e = &self.effects[i];
            assert(all[i as int] == e.v());
            if e.kind() != EffectKind::Decision && e.tracking.is_in_flight() {
                append_one(&mut out, e.shown());
            }
            i = i + 1;
        }
        assert(all.take(i as int) =~= all);
        out
    }

    /// How much a decision has to wait for.
    pub fn pending_work(&self, decision_id: &str) -> (r: usize)
        ensures
            r == self.v().pending_work(decision_id@),
    {
        let ghost all = self.v().effects;
        let ghost counts = outstanding(decision_id@);
        let mut n: usize = 0;
        let mut i: usize = 0;
        assert(all.take(0) =~= Seq::empty());
        while i < self.effects.len()
            invariant
                i <= self.effects@.len(),
                n <= i,
                all == self.v().effects,
                counts == outstanding(decision_id@),
                n == collect(all.take(i as int), counts).len(),
            decreases self.effects@.len() - i,
        {
            proof {
                lemma_collect_step(all, counts, i as int);
            }
            let e = &self.effects[i];
            assert(all[i as int] == e.v());
            let kind = e.kind();
            let runs = (kind == EffectKind::ToolCall || kind == EffectKind::Subagent)
                && e.tracking.is_in_flight();
            let told = match e.decision() {
                Some(d) => match &d.trigger {
                    Trigger::ToolFinished { .. } => !text::eq(e.id.as_str(), decision_id),
                    Trigger::SubagentFinished { .. } => !text::eq(e.id.as_str(), decision_id),
                    _ => false,
                },
                None => false,
            };
            if runs || told {
                n = n + 1;
            }
            i = i + 1;
        }
        assert(all.take(i as int) =~= all);
        n
    }

    /// What a connection offered.
    pub fn connector_sync(&self, path: &ConnectionPath) -> (r: Option<&ConnectorSync>)
        ensures
            match r {
                Some(c) => self.v().effect(EffectKind::ConnectorSync, path.v().written()) is Some
                    && self.v().effect(
                    EffectKind::ConnectorSync,
                    path.v().written(),
                )->0.connector() == Some(c.v()),
                None => self.v().effect(EffectKind::ConnectorSync, path.v().written()) is None,
            },
    {
        let id = path.to_string();
        proof {
            lemma_position(
                self.effects.v(),
                crate::session::state::named(EffectKind::ConnectorSync, id@),
            );
        }
        match self.effect(EffectKind::ConnectorSync, &id) {
            Some(e) => e.connector(),
            None => None,
        }
    }
}

impl<'a> At<'a> {
    /// Whether the agent here is still owed an offer.
    pub fn has_pending_connector_sync(&self) -> (r: bool)
        ensures
            r == (match self.state.v().agent_for(text_of(self.node)) {
                Some(config) => exists|i: int|
                    0 <= i < servers_for(config).len() && !self.state.v().sync_settled(
                        #[trigger] servers_for(config)[i],
                    ),
                None => false,
            }),
    {
        match self.agent() {
            Some(config) => {
                let servers = self.state.servers_for(config);
                let ghost all = servers.v();
                let mut i: usize = 0;
                while i < servers.len()
                    invariant
                        i <= servers@.len(),
                        all == servers.v(),
                        all == servers_for(config.v()),
                        self.state.v().agent_for(text_of(self.node)) == Some(config.v()),
                        forall|j: int|
                            0 <= j < i ==> self.state.v().sync_settled(#[trigger] all[j]),
                    decreases servers@.len() - i,
                {
                    assert(all[i as int] == servers@[i as int].v());
                    if !self.state.sync_settled(&servers[i]) {
                        return true;
                    }
                    i = i + 1;
                }
                false
            },
            None => false,
        }
    }
}

fn is_alarm_off(state: &SessionState, e: &EffectEntry) -> (r: bool)
    ensures
        r == state.v().clock_stopped(e.v()),
{
    match e.decision() {
        Some(d) => state.decision_stop(&d.trigger).is_some(),
        None => {
            if e.kind() == EffectKind::ConnectorSync {
                return false;
            }
            let node = state.branch_of(as_text(&e.anchor));
            state.at(node).parked().is_some()
        },
    }
}

/// When a session is to be woken.
pub fn wake_at(state: &SessionState, now: i128) -> (r: Option<i128>)
    ensures
        r == state.v().wake_at(now),
{
    let steps = plan(state, now);
    let ghost all = steps.v();
    let mut i: usize = 0;
    while i < steps.len()
        invariant
            i <= steps@.len(),
            all == steps.v(),
            all == state.v().plan(now),
            forall|j: int| 0 <= j < i ==> !still_open(true)(#[trigger] all[j]),
        decreases steps@.len() - i,
    {
        assert(all[i as int] == steps@[i as int].v());
        if !steps[i].is_sweep() {
            assert(still_open(true)(all[i as int]));
            return Some(now);
        }
        i = i + 1;
    }
    let mut at: Option<i128> = None;
    let mut k: usize = 0;
    while k < state.effects.len()
        invariant
            k <= state.effects@.len(),
            at == state.v().earliest(k as int),
        decreases state.effects@.len() - k,
    {
        let e = &state.effects[k];
        assert(state.v().effects[k as int] == e.v());
        let alarm = if is_alarm_off(state, e) {
            None
        } else {
            alarm_at(&e.tracking)
        };
        at = sooner_of(at, alarm);
        k = k + 1;
    }
    at
}

/// What a queued piece of work waits for, in words.
pub struct Waiting {
    pub kind: EffectKind,
    pub id: String,
    pub reasons: Vec<String>,
}

/// The labels of dependencies.
pub open spec fn labels(deps: Seq<DepV>) -> Seq<Seq<char>> {
    deps.map_values(|d: DepV| d.label())
}

impl SessionStateV {
    /// Whether `reasons` says what the `i`-th entry of the queue waits for: what
    /// holds it aside, the entry it stands behind, or what it depends on.
    pub open spec fn explains(self, i: int, reasons: Seq<Seq<char>>) -> bool {
        let q = self.schedule_queue[i];
        match self.park(q) {
            Some(dep) => reasons == seq![dep.label()],
            None => match self.queue_block() {
                Some(b) if b < i => reasons == seq![
                    "queued_behind:"@ + self.schedule_queue[b].kind.name() + ":"@
                        + self.schedule_queue[b].id,
                ],
                _ => exists|deps: Seq<DepV>|
                    same_deps(deps, self.deps(q)) && reasons == #[trigger] labels(deps),
            },
        }
    }
}

fn all_labels(deps: &Vec<Dep>) -> (r: Vec<String>)
    ensures
        r.v() == labels(deps.v()),
{
    let mut out: Vec<String> = crate::model::none();
    let mut i: usize = 0;
    while i < deps.len()
        invariant
            i <= deps@.len(),
            out.v() == labels(deps.v()).take(i as int),
        decreases deps@.len() - i,
    {
        append_one(&mut out, deps[i].label());
        i = i + 1;
        assert(out.v() =~= labels(deps.v()).take(i as int));
    }
    assert(out.v() =~= labels(deps.v()));
    out
}

fn find_block(state: &SessionState) -> (r: Option<usize>)
    ensures
        match r {
            Some(b) => b < state.schedule_queue@.len() && state.v().queue_block() == Some(b as int),
            None => state.v().queue_block() is None,
        },
{
    let ghost queue = state.v().schedule_queue;
    let ghost back = state.v().keeps_queue_back();
    let mut i: usize = 0;
    while i < state.schedule_queue.len()
        invariant
            i <= state.schedule_queue@.len(),
            queue == state.v().schedule_queue,
            back == state.v().keeps_queue_back(),
            forall|j: int| 0 <= j < i ==> !back(#[trigger] queue[j]),
        decreases state.schedule_queue@.len() - i,
    {
        let q = &state.schedule_queue[i];
        assert(queue[i as int] == q.v());
        let over = crate::session::schedule::is_phantom(state, q)
            || !crate::session::schedule::is_due(state, q) || effects::park(state, q).is_some();
        let deps = effects::deps(state, q);
        proof {
            if deps@.len() > 0 {
                assert(deps.v().contains(deps.v()[0]));
            }
            if state.v().deps(q.v()).len() > 0 {
                assert(state.v().deps(q.v()).contains(state.v().deps(q.v())[0]));
            }
        }
        if !over && deps.len() > 0 {
            proof {
                lemma_position_is(queue, back, i as int);
            }
            return Some(i);
        }
        i = i + 1;
    }
    proof {
        lemma_position(queue, back);
    }
    None
}

/// What the queued work waits for, in the order of the queue.
pub fn waiting_on(state: &SessionState) -> (r: Vec<Waiting>)
    ensures
        r@.len() == state.v().schedule_queue.len(),
        forall|i: int|
            0 <= i < r@.len() ==> (#[trigger] r@[i]).kind == state.v().schedule_queue[i].kind
                && r@[i].id@ == state.v().schedule_queue[i].id && state.v().explains(
                i,
                r@[i].reasons.v(),
            ),
{
    let block = find_block(state);
    let mut out: Vec<Waiting> = Vec::new();
    let mut i: usize = 0;
    while i < state.schedule_queue.len()
        invariant
            i <= state.schedule_queue@.len(),
            out@.len() == i,
            match block {
                Some(b) => b < state.schedule_queue@.len() && state.v().queue_block() == Some(
                    b as int,
                ),
                None => state.v().queue_block() is None,
            },
            forall|j: int|
                0 <= j < i ==> (#[trigger] out@[j]).kind == state.v().schedule_queue[j].kind
                    && out@[j].id@ == state.v().schedule_queue[j].id && state.v().explains(
                    j,
                    out@[j].reasons.v(),
                ),
        decreases state.schedule_queue@.len() - i,
    {
        let q = &state.schedule_queue[i];
        assert(state.v().schedule_queue[i as int] == q.v());
        let reasons = match effects::park(state, q) {
            Some(dep) => one(dep.label()),
            None => {
                let behind = match block {
                    Some(b) => b < i,
                    None => false,
                };
                if behind {
                    let b = match block {
                        Some(b) => b,
                        None => 0,
                    };
                    let front = &state.schedule_queue[b];
                    assert(state.v().schedule_queue[b as int] == front.v());
                    one(
                        "queued_behind:".to_owned().concat(front.kind.label()).concat(":").concat(
                            front.id.as_str(),
                        ),
                    )
                } else {
                    let deps = effects::deps(state, q);
                    let texts = all_labels(&deps);
                    assert(texts.v() == labels(deps.v()));
                    texts
                }
            },
        };
        assert(state.v().explains(i as int, reasons.v()));
        out.push(Waiting { kind: q.kind, id: q.id.dup(), reasons });
        i = i + 1;
    }
    out
}

} // verus!
