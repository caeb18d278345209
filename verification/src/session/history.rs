//! A session is what its events say.
//!
//! Whatever a command does, it does by events, and each event happens to a
//! session that allows it. Putting the events into the session the command
//! started from gives the session the command left.
pub mod answered;
pub mod batches;
pub mod commands;
pub mod log;
pub mod steps;
pub mod tidy;
pub mod valid;
pub mod waiting;

use crate::session::aggregate::replay;
use crate::session::apply::ApplyContext;
use crate::session::decision::TriggerV;
use crate::session::effects::is_call;
use crate::session::events::EventPayloadV;
use crate::session::history::answered::{lemma_outs_kept, lemma_outs_on, lemma_outs_same, outs_kept};
use crate::session::outcome::Batch;
use crate::session::state::{SessionStateV, TurnPhaseV};
use crate::session::working::{next_seq, WorkingV};
use vstd::prelude::*;

verus! {

/// Whether an event may happen whenever it likes.
pub open spec fn calm(event: EventPayloadV) -> bool {
    match event {
        EventPayloadV::SessionCreated(_) => false,
        EventPayloadV::DecisionDispatched(_) => false,
        EventPayloadV::DecisionQueued(p) => !(p.trigger is TurnFinished),
        EventPayloadV::CallVoided(p) => is_call(p.kind),
        EventPayloadV::TurnStarted(_) => false,
        EventPayloadV::TurnCompleted(_) => false,
        EventPayloadV::SessionInterrupted(_) => false,
        EventPayloadV::InterruptResumed(_) => false,
        EventPayloadV::SessionCancelled => false,
        _ => event.wf(),
    }
}

/// Whether all of them may.
pub open spec fn all_calm(events: Seq<EventPayloadV>) -> bool {
    forall|i: int| 0 <= i < events.len() ==> calm(#[trigger] events[i])
}

impl SessionStateV {
    /// Whether an event may happen to a session as it stands.
    ///
    /// What the event carries is valid. A session is created once and cancelled once. The worker is given one
    /// decision at a time. One turn runs at a time: it starts while none runs,
    /// and only the one that runs is finished and completes. A branch is
    /// interrupted once at a time, and only an open interrupt is resumed. Only
    /// calls are given up.
    pub open spec fn allows(self, event: EventPayloadV) -> bool {
        match event {
            EventPayloadV::SessionCreated(_) => self.agent_id is None && event.wf(),
            EventPayloadV::DecisionDispatched(_) => self.pending_decisions().len() == 0,
            EventPayloadV::DecisionQueued(p) => match p.trigger {
                TriggerV::TurnFinished { turn_id, .. } => self.phase == (TurnPhaseV::Active {
                    turn_id,
                }),
                _ => true,
            },
            EventPayloadV::CallVoided(p) => is_call(p.kind),
            EventPayloadV::TurnStarted(_) => self.phase is Idle,
            EventPayloadV::TurnCompleted(p) => self.phase.turn_id() == Some(p.turn_id),
            EventPayloadV::SessionInterrupted(_) => !self.head_parked(),
            EventPayloadV::InterruptResumed(p) => self.open_interrupt(p.interrupt_id) is Some,
            EventPayloadV::SessionCancelled => !(self.status is Done),
            _ => event.wf(),
        }
    }
}

/// Whether each of the events happens to a session that allows it.
pub open spec fn orderly(
    state: SessionStateV,
    seq: u64,
    at: i128,
    events: Seq<EventPayloadV>,
) -> bool
    decreases events.len(),
{
    events.len() == 0 || orderly(state, seq, at, events.drop_last()) && replay(
        state,
        seq,
        at,
        events.drop_last(),
    ).0.allows(events.last())
}

impl WorkingV {
    /// Whether `after` is this session some events later, and the events that
    /// came since say what it is.
    #[verifier::opaque]
    pub open spec fn grows_to(self, after: WorkingV) -> bool {
        let n = self.events.len();
        let since = after.events.skip(n as int);
        after.now == self.now && after.events.len() >= n && after.events.take(n as int)
            == self.events && (after.state, after.seq) == replay(
            self.state,
            self.seq,
            self.now,
            since,
        ) && orderly(self.state, self.seq, self.now, since)
    }

    /// The same, and the session is still its owner's, and the worker was given
    /// no decision.
    pub open spec fn leads_to(self, after: WorkingV) -> bool {
        self.grows_to(after) && after.state.owner == self.state.owner && outs_kept(
            self.state,
            after.state,
        )
    }
}

/// Events and then others are all the events.
pub proof fn lemma_replay_split(
    state: SessionStateV,
    seq: u64,
    at: i128,
    a: Seq<EventPayloadV>,
    b: Seq<EventPayloadV>,
)
    ensures
        ({
            let mid = replay(state, seq, at, a);
            replay(state, seq, at, a + b) == replay(mid.0, mid.1, at, b) && orderly(
                state,
                seq,
                at,
                a + b,
            ) == (orderly(state, seq, at, a) && orderly(mid.0, mid.1, at, b))
        }),
    decreases b.len(),
{
    if b.len() == 0 {
        assert(a + b =~= a);
    } else {
        lemma_replay_split(state, seq, at, a, b.drop_last());
        assert((a + b).drop_last() =~= a + b.drop_last());
        assert((a + b).last() == b.last());
    }
}

pub proof fn lemma_leads_same(a: WorkingV, b: WorkingV)
    requires
        b == (WorkingV { ids: b.ids, plan_now: b.plan_now, ..a }),
    ensures
        a.leads_to(b),
{
    reveal(WorkingV::grows_to);
    let n = a.events.len();
    assert(b.events.skip(n as int) =~= Seq::empty());
    assert(b.events.take(n as int) =~= a.events);
    lemma_outs_same(a.state, b.state);
}

pub proof fn lemma_grows_on(a: WorkingV, b: WorkingV, c: WorkingV)
    requires
        a.grows_to(b),
        b.grows_to(c),
    ensures
        a.grows_to(c),
{
    reveal(WorkingV::grows_to);
    let n = a.events.len() as int;
    let m = b.events.len() as int;
    lemma_replay_split(a.state, a.seq, a.now, b.events.skip(n), c.events.skip(m));
    assert(c.events.take(m).take(n) =~= c.events.take(n));
    assert(c.events.skip(n) =~= b.events.skip(n) + c.events.skip(m)) by {
        assert forall|i: int| 0 <= i < m - n implies #[trigger] c.events.skip(n)[i]
            == b.events.skip(n)[i] by {
            assert(c.events.take(m)[i + n] == b.events[i + n]);
        }
    }
}

pub proof fn lemma_grows_emit(w: WorkingV, event: EventPayloadV)
    requires
        w.state.allows(event),
    ensures
        w.grows_to(w.emit(event)),
{
    reveal(WorkingV::grows_to);
    let n = w.events.len() as int;
    let since = w.emit(event).events.skip(n);
    assert(since =~= seq![event]);
    assert(since.drop_last() =~= Seq::empty());
    assert(w.emit(event).events.take(n) =~= w.events);
    reveal_with_fuel(replay, 2);
    reveal_with_fuel(orderly, 2);
}

/// Whether two sessions have the same owner and the same configs.
pub open spec fn same_who(s: SessionStateV, t: SessionStateV) -> bool {
    t.owner == s.owner && t.agent_versions == s.agent_versions
}

proof fn lemma_same_who_decisions(s: SessionStateV, event: EventPayloadV, ctx: ApplyContext)
    requires
        event is DecisionQueued || event is DecisionDispatched || event is DecisionCompleted
            || event is DecisionDropped || event is DecisionErrored,
    ensures
        same_who(s, s.apply(event, ctx)),
{
    reveal(SessionStateV::apply);
}

proof fn lemma_same_who_tools(s: SessionStateV, event: EventPayloadV, ctx: ApplyContext)
    requires
        event is ToolCallRequested || event is ToolCallDispatched || event is ToolCallCompleted
            || event is ToolCallErrored,
    ensures
        same_who(s, s.apply(event, ctx)),
{
    reveal(SessionStateV::apply);
}

proof fn lemma_same_who_models(s: SessionStateV, event: EventPayloadV, ctx: ApplyContext)
    requires
        event is LlmCallRequested || event is LlmCallDispatched || event is LlmCallCompleted
            || event is LlmCallErrored,
    ensures
        same_who(s, s.apply(event, ctx)),
{
    reveal(SessionStateV::apply);
}

proof fn lemma_same_who_children(s: SessionStateV, event: EventPayloadV, ctx: ApplyContext)
    requires
        event is SubagentRequested || event is SubagentDispatched || event is SubagentStarted
            || event is SubagentErrored || event is SubagentTurnCompleted,
    ensures
        same_who(s, s.apply(event, ctx)),
{
    reveal(SessionStateV::apply);
}

proof fn lemma_same_who_connectors(s: SessionStateV, event: EventPayloadV, ctx: ApplyContext)
    requires
        event is ConnectorSyncRequested || event is ConnectorSyncCompleted
            || event is ConnectorSyncErrored,
    ensures
        same_who(s, s.apply(event, ctx)),
{
    reveal(SessionStateV::apply);
}

proof fn lemma_same_who_rest(s: SessionStateV, event: EventPayloadV, ctx: ApplyContext)
    requires
        event is WorkerStateUpdated || event is CallVoided || event is NewMessage || event
            is HeadMoved || event is SessionInterrupted || event is InterruptResumed || event
            is TurnStarted || event is TurnCompleted || event is SessionDone || event
            is SessionCancelled || event is ChannelsUpdated || event is SessionMessageRequested,
    ensures
        same_who(s, s.apply(event, ctx)),
{
    reveal(SessionStateV::apply);
}

/// Only its creation gives a session its owner, and only a config that is
/// written changes what an agent is.
pub proof fn lemma_who_kept(s: SessionStateV, event: EventPayloadV, ctx: ApplyContext)
    requires
        !(event is SessionCreated),
    ensures
        s.apply(event, ctx).owner == s.owner,
        !(event is AgentConfigUpdated) ==> s.apply(event, ctx).agent_versions == s.agent_versions,
{
    match event {
        EventPayloadV::SessionCreated(_) => {},
        EventPayloadV::AgentConfigUpdated(_) => {
            reveal(SessionStateV::apply);
        },
        EventPayloadV::DecisionQueued(_) => lemma_same_who_decisions(s, event, ctx),
        EventPayloadV::DecisionDispatched(_) => lemma_same_who_decisions(s, event, ctx),
        EventPayloadV::DecisionCompleted(_) => lemma_same_who_decisions(s, event, ctx),
        EventPayloadV::DecisionDropped(_) => lemma_same_who_decisions(s, event, ctx),
        EventPayloadV::DecisionErrored(_) => lemma_same_who_decisions(s, event, ctx),
        EventPayloadV::ToolCallRequested(_) => lemma_same_who_tools(s, event, ctx),
        EventPayloadV::ToolCallDispatched(_) => lemma_same_who_tools(s, event, ctx),
        EventPayloadV::ToolCallCompleted(_) => lemma_same_who_tools(s, event, ctx),
        EventPayloadV::ToolCallErrored(_) => lemma_same_who_tools(s, event, ctx),
        EventPayloadV::LlmCallRequested(_) => lemma_same_who_models(s, event, ctx),
        EventPayloadV::LlmCallDispatched(_) => lemma_same_who_models(s, event, ctx),
        EventPayloadV::LlmCallCompleted(_) => lemma_same_who_models(s, event, ctx),
        EventPayloadV::LlmCallErrored(_) => lemma_same_who_models(s, event, ctx),
        EventPayloadV::SubagentRequested(_) => lemma_same_who_children(s, event, ctx),
        EventPayloadV::SubagentDispatched(_) => lemma_same_who_children(s, event, ctx),
        EventPayloadV::SubagentStarted(_) => lemma_same_who_children(s, event, ctx),
        EventPayloadV::SubagentErrored(_) => lemma_same_who_children(s, event, ctx),
        EventPayloadV::SubagentTurnCompleted(_) => lemma_same_who_children(s, event, ctx),
        EventPayloadV::ConnectorSyncRequested(_) => lemma_same_who_connectors(s, event, ctx),
        EventPayloadV::ConnectorSyncCompleted(_) => lemma_same_who_connectors(s, event, ctx),
        EventPayloadV::ConnectorSyncErrored(_) => lemma_same_who_connectors(s, event, ctx),
        _ => lemma_same_who_rest(s, event, ctx),
    }
}

pub proof fn lemma_leads_on(a: WorkingV, b: WorkingV, c: WorkingV)
    requires
        a.leads_to(b),
        b.leads_to(c),
    ensures
        a.leads_to(c),
{
    lemma_grows_on(a, b, c);
    lemma_outs_on(a.state, b.state, c.state);
}

pub proof fn lemma_leads_emit(w: WorkingV, event: EventPayloadV)
    requires
        w.state.allows(event),
        !(event is SessionCreated),
        !(event is DecisionDispatched),
    ensures
        w.leads_to(w.emit(event)),
{
    let ctx = ApplyContext { occurred_at: w.now, sequence: next_seq(w.seq) };
    lemma_grows_emit(w, event);
    lemma_who_kept(w.state, event, ctx);
    lemma_outs_kept(w.state, event, ctx);
}

/// Whether two sessions are in the same turn, and are the same session.
pub open spec fn same_turn(s: SessionStateV, t: SessionStateV) -> bool {
    t.phase == s.phase && t.status == s.status && t.agent_id == s.agent_id
        && t.completed_turn_ids == s.completed_turn_ids
}

proof fn lemma_same_turn_decisions(s: SessionStateV, event: EventPayloadV, ctx: ApplyContext)
    requires
        calm(event),
        event is DecisionQueued || event is DecisionCompleted || event is DecisionDropped
            || event is DecisionErrored,
    ensures
        same_turn(s, s.apply(event, ctx)),
{
    reveal(SessionStateV::apply);
}

proof fn lemma_same_turn_tools(s: SessionStateV, event: EventPayloadV, ctx: ApplyContext)
    requires
        calm(event),
        event is ToolCallRequested || event is ToolCallDispatched || event is ToolCallCompleted
            || event is ToolCallErrored,
    ensures
        same_turn(s, s.apply(event, ctx)),
{
    reveal(SessionStateV::apply);
}

proof fn lemma_same_turn_models(s: SessionStateV, event: EventPayloadV, ctx: ApplyContext)
    requires
        calm(event),
        event is LlmCallRequested || event is LlmCallDispatched || event is LlmCallCompleted
            || event is LlmCallErrored,
    ensures
        same_turn(s, s.apply(event, ctx)),
{
    reveal(SessionStateV::apply);
}

proof fn lemma_same_turn_children(s: SessionStateV, event: EventPayloadV, ctx: ApplyContext)
    requires
        calm(event),
        event is SubagentRequested || event is SubagentDispatched || event is SubagentStarted
            || event is SubagentErrored || event is SubagentTurnCompleted,
    ensures
        same_turn(s, s.apply(event, ctx)),
{
    reveal(SessionStateV::apply);
}

proof fn lemma_same_turn_connectors(s: SessionStateV, event: EventPayloadV, ctx: ApplyContext)
    requires
        calm(event),
        event is ConnectorSyncRequested || event is ConnectorSyncCompleted
            || event is ConnectorSyncErrored,
    ensures
        same_turn(s, s.apply(event, ctx)),
{
    reveal(SessionStateV::apply);
}

proof fn lemma_same_turn_rest(s: SessionStateV, event: EventPayloadV, ctx: ApplyContext)
    requires
        calm(event),
        event is AgentConfigUpdated || event is WorkerStateUpdated || event is CallVoided
            || event is NewMessage || event is HeadMoved || event is SessionDone
            || event is ChannelsUpdated || event is SessionMessageRequested,
    ensures
        same_turn(s, s.apply(event, ctx)),
{
    reveal(SessionStateV::apply);
}

/// An event that may happen at any time leaves the turn alone, and who the
/// session is.
pub proof fn lemma_calm(s: SessionStateV, event: EventPayloadV, ctx: ApplyContext)
    requires
        calm(event),
    ensures
        s.allows(event),
        same_turn(s, s.apply(event, ctx)),
{
    match event {
        EventPayloadV::DecisionQueued(_) => lemma_same_turn_decisions(s, event, ctx),
        EventPayloadV::DecisionCompleted(_) => lemma_same_turn_decisions(s, event, ctx),
        EventPayloadV::DecisionDropped(_) => lemma_same_turn_decisions(s, event, ctx),
        EventPayloadV::DecisionErrored(_) => lemma_same_turn_decisions(s, event, ctx),
        EventPayloadV::ToolCallRequested(_) => lemma_same_turn_tools(s, event, ctx),
        EventPayloadV::ToolCallDispatched(_) => lemma_same_turn_tools(s, event, ctx),
        EventPayloadV::ToolCallCompleted(_) => lemma_same_turn_tools(s, event, ctx),
        EventPayloadV::ToolCallErrored(_) => lemma_same_turn_tools(s, event, ctx),
        EventPayloadV::LlmCallRequested(_) => lemma_same_turn_models(s, event, ctx),
        EventPayloadV::LlmCallDispatched(_) => lemma_same_turn_models(s, event, ctx),
        EventPayloadV::LlmCallCompleted(_) => lemma_same_turn_models(s, event, ctx),
        EventPayloadV::LlmCallErrored(_) => lemma_same_turn_models(s, event, ctx),
        EventPayloadV::SubagentRequested(_) => lemma_same_turn_children(s, event, ctx),
        EventPayloadV::SubagentDispatched(_) => lemma_same_turn_children(s, event, ctx),
        EventPayloadV::SubagentStarted(_) => lemma_same_turn_children(s, event, ctx),
        EventPayloadV::SubagentErrored(_) => lemma_same_turn_children(s, event, ctx),
        EventPayloadV::SubagentTurnCompleted(_) => lemma_same_turn_children(s, event, ctx),
        EventPayloadV::ConnectorSyncRequested(_) => lemma_same_turn_connectors(s, event, ctx),
        EventPayloadV::ConnectorSyncCompleted(_) => lemma_same_turn_connectors(s, event, ctx),
        EventPayloadV::ConnectorSyncErrored(_) => lemma_same_turn_connectors(s, event, ctx),
        _ => lemma_same_turn_rest(s, event, ctx),
    }
}

pub proof fn lemma_leads_calm(w: WorkingV, events: Seq<EventPayloadV>)
    requires
        all_calm(events),
    ensures
        w.leads_to(w.emit_all(events)),
        w.emit_all(events).state.phase == w.state.phase,
        w.emit_all(events).state.status == w.state.status,
        w.emit_all(events).state.agent_id == w.state.agent_id,
    decreases events.len(),
{
    if events.len() == 0 {
        lemma_leads_same(w, w);
    } else {
        let front = events.drop_last();
        assert forall|i: int| 0 <= i < front.len() implies calm(#[trigger] front[i]) by {
            assert(front[i] == events[i]);
        }
        lemma_leads_calm(w, front);
        let mid = w.emit_all(front);
        assert(calm(events[events.len() - 1]));
        lemma_calm(
            mid.state,
            events.last(),
            ApplyContext { occurred_at: mid.now, sequence: next_seq(mid.seq) },
        );
        lemma_leads_emit(mid, events.last());
        lemma_leads_on(w, mid, mid.emit(events.last()));
    }
}

pub proof fn lemma_leads_batch(w: WorkingV, batch: Batch)
    requires
        all_calm(batch.events),
    ensures
        w.leads_to(w.emit_batch(batch)),
        w.emit_batch(batch).state.phase == w.state.phase,
{
    let named = WorkingV { ids: batch.ids, ..w };
    lemma_leads_same(w, named);
    lemma_leads_calm(named, batch.events);
    lemma_leads_on(w, named, w.emit_batch(batch));
}

/// Two lots of events that may happen at any time, one behind the other.
pub proof fn lemma_calm_both(a: Seq<EventPayloadV>, b: Seq<EventPayloadV>)
    requires
        all_calm(a),
        all_calm(b),
    ensures
        all_calm(a + b),
{
    assert forall|i: int| 0 <= i < (a + b).len() implies calm(#[trigger] (a + b)[i]) by {
        if i < a.len() {
            assert((a + b)[i] == a[i]);
        } else {
            assert((a + b)[i] == b[i - a.len()]);
        }
    }
}

/// What is collected is calm where each of it is.
pub proof fn lemma_calm_collected<A>(s: Seq<A>, f: spec_fn(A) -> Option<EventPayloadV>)
    requires
        forall|a: A| (#[trigger] f(a)) is Some ==> calm(f(a)->0),
    ensures
        all_calm(crate::model::collect(s, f)),
    decreases s.len(),
{
    if s.len() > 0 {
        lemma_calm_collected(s.drop_last(), f);
        let front = crate::model::collect(s.drop_last(), f);
        match f(s.last()) {
            Some(e) => {
                assert forall|i: int| 0 <= i < front.push(e).len() implies calm(
                    #[trigger] front.push(e)[i],
                ) by {
                    if i < front.len() {
                        assert(front.push(e)[i] == front[i]);
                    }
                }
            },
            None => {},
        }
    }
}

} // verus!
