pub mod connector;
pub mod decision;
pub mod llm;
pub mod subagent;
pub mod tool;
pub mod turn_end;

use crate::model::{append_one, collect, lemma_collect_step, one, seen, text_of, Model};
use crate::protocol::effect::{EffectKind, EffectStatus};
use crate::protocol::error::{ErrorCode, ErrorInfo, ErrorInfoV};
use crate::session::authorize::allowed;
use crate::session::caller::{Caller, CallerV};
use crate::session::decision::{Trigger, TriggerV};
use crate::session::deps::{same_deps, Dep, DepV};
use crate::session::effects::connector::ConnectorSpec;
use crate::session::effects::decision::{taken, DecisionSpec};
use crate::session::effects::llm::LlmSpec;
use crate::session::effects::subagent::SubagentSpec;
use crate::session::effects::tool::ToolSpec;
use crate::session::effects::turn_end::TurnEndSpec;
use crate::session::error::{SessionError, SessionErrorV};
use crate::session::events::{
    CallVoided, CallVoidedV, EventPayload, EventPayloadV, LlmCallDispatched, LlmCallDispatchedV,
    SubagentDispatched, SubagentDispatchedV, ToolCallDispatched, ToolCallDispatchedV,
};
use crate::session::ids::{Ids, IdsV};
use crate::session::offers::notices::notice_of;
use crate::session::outcome::{Batch, Outcome, OutcomeV, Settle, SettleError, SettleErrorV};
use crate::session::state::{
    EffectEntry, EffectEntryV, EffectTracking, QueueEntry, QueueEntryV, SessionState, SessionStateV,
};
use vstd::prelude::*;

verus! {

/// Whether work of a kind is a call that can be given up.
pub open spec fn is_call(kind: EffectKind) -> bool {
    kind == EffectKind::ToolCall || kind == EffectKind::LlmCall || kind == EffectKind::Subagent
}

/// A call that is given up, if it is a stranded one.
pub open spec fn void_if(
    stranded: spec_fn(EffectKind, EffectTracking, Option<Seq<char>>) -> bool,
) -> spec_fn(EffectEntryV) -> Option<EventPayloadV> {
    |e: EffectEntryV|
        if is_call(e.kind()) && stranded(e.kind(), e.tracking, e.anchor) {
            Some(EventPayloadV::CallVoided(CallVoidedV { kind: e.kind(), id: e.id }))
        } else {
            None
        }
}

/// The number of the attempt after the one that failed.
pub open spec fn next_attempt(tracking: EffectTracking) -> u32 {
    if tracking.retry.attempts < u32::MAX {
        (tracking.retry.attempts + 1) as u32
    } else {
        u32::MAX
    }
}

pub fn following(tracking: &EffectTracking) -> (r: u32)
    ensures
        r == next_attempt(*tracking),
{
    if tracking.retry.attempts < u32::MAX {
        tracking.retry.attempts + 1
    } else {
        u32::MAX
    }
}

pub open spec fn of_kind(kind: EffectKind) -> spec_fn(EffectEntryV) -> Option<EffectEntryV> {
    |e: EffectEntryV|
        if e.kind() == kind {
            Some(e)
        } else {
            None
        }
}

impl SessionStateV {
    /// The stranded calls, given up: tool calls, calls to a model and to
    /// subagents, and nothing else.
    pub open spec fn void_effects(
        self,
        stranded: spec_fn(EffectKind, EffectTracking, Option<Seq<char>>) -> bool,
    ) -> Seq<EventPayloadV> {
        collect(self.effects, void_if(stranded))
    }

    pub open spec fn effects_of(self, kind: EffectKind) -> Seq<EffectEntryV> {
        collect(self.effects, of_kind(kind))
    }
}

impl SessionState {
    /// The work of a kind, in the order in which it was asked for.
    pub fn effects_of(&self, kind: EffectKind) -> (r: Vec<&EffectEntry>)
        ensures
            seen(r@) == self.v().effects_of(kind),
    {
        let mut out: Vec<&EffectEntry> = Vec::new();
        let mut i: usize = 0;
        let ghost all = self.v().effects;
        assert(all.take(0) =~= Seq::empty());
        assert(seen(out@) =~= Seq::empty());
        while i < self.effects.len()
            invariant
                i <= self.effects@.len(),
                all == self.v().effects,
                seen(out@) == collect(all.take(i as int), of_kind(kind)),
            decreases self.effects@.len() - i,
        {
            proof {
                lemma_collect_step(all, of_kind(kind), i as int);
            }
            let e = &self.effects[i];
            assert(all[i as int] == e.v());
            if e.kind() == kind {
                crate::model::append_ref(&mut out, e);
            }
            i = i + 1;
        }
        assert(all.take(i as int) =~= all);
        out
    }

    /// Gives up the calls that `stranded` names. It tells by the kind of a
    /// call, where the call stands, and the node it was asked for at, and is
    /// asked of calls only.
    pub fn void_effects<F: Fn(EffectKind, &EffectTracking, Option<&str>) -> bool>(
        &self,
        stranded: F,
        Ghost(is): Ghost<spec_fn(EffectKind, EffectTracking, Option<Seq<char>>) -> bool>,
    ) -> (r: Vec<EventPayload>)
        requires
            forall|k: EffectKind, t: &EffectTracking, a: Option<&str>|
                is_call(k) ==> #[trigger] stranded.requires((k, t, a)),
            forall|k: EffectKind, t: &EffectTracking, a: Option<&str>, yes: bool|
                is_call(k) && #[trigger] stranded.ensures((k, t, a), yes) ==> yes == is(
                    k,
                    *t,
                    text_of(a),
                ),
        ensures
            r.v() == self.v().void_effects(is),
    {
        let mut out: Vec<EventPayload> = crate::model::none();
        let mut i: usize = 0;
        let ghost all = self.v().effects;
        assert(all.take(0) =~= Seq::empty());
        while i < self.effects.len()
            invariant
                i <= self.effects@.len(),
                all == self.v().effects,
                forall|k: EffectKind, t: &EffectTracking, a: Option<&str>|
                    is_call(k) ==> #[trigger] stranded.requires((k, t, a)),
                forall|k: EffectKind, t: &EffectTracking, a: Option<&str>, yes: bool|
                    is_call(k) && #[trigger] stranded.ensures((k, t, a), yes) ==> yes == is(
                        k,
                        *t,
                        text_of(a),
                    ),
                out.v() == collect(all.take(i as int), void_if(is)),
            decreases self.effects@.len() - i,
        {
            proof {
                lemma_collect_step(all, void_if(is), i as int);
            }
            let e = &self.effects[i];
            assert(all[i as int] == e.v());
            let kind = e.kind();
            let call = kind == EffectKind::ToolCall || kind == EffectKind::LlmCall || kind
                == EffectKind::Subagent;
            if call && stranded(kind, &e.tracking, crate::model::as_text(&e.anchor)) {
                append_one(
                    &mut out,
                    EventPayload::CallVoided(CallVoided { kind, id: e.id.dup() }),
                );
            }
            i = i + 1;
        }
        assert(all.take(i as int) =~= all);
        out
    }
}

/// Whether the outcome of a call is taken. The engine may be late, and is then
/// not heard; anybody else is told why.
pub open spec fn resolve_call(
    tracking: Option<EffectTracking>,
    attempt: Option<u32>,
    engine: bool,
) -> Result<Settle, SessionErrorV> {
    match tracking {
        None => if engine {
            Ok(Settle::Drop)
        } else {
            Err(SessionErrorV::EffectNotFound)
        },
        Some(t) => if t.state != EffectStatus::Pending {
            if engine {
                Ok(Settle::Drop)
            } else {
                Err(SessionErrorV::EffectNotPending)
            }
        } else if attempt is Some && attempt->0 != t.retry.attempts {
            if engine {
                Ok(Settle::Drop)
            } else {
                Err(SessionErrorV::EffectAttemptMismatch)
            }
        } else {
            Ok(Settle::Live)
        },
    }
}

/// Whether a call to a subagent can still settle.
pub open spec fn resolve_subagent(tracking: Option<EffectTracking>) -> Settle {
    match tracking {
        Some(t) => if t.state == EffectStatus::Pending || t.state == EffectStatus::Running {
            Settle::Live
        } else {
            Settle::Drop
        },
        None => Settle::Drop,
    }
}

/// What work that runs out fails with. Once all attempts together ran out, no
/// other is made.
pub open spec fn timeout_error(total: bool) -> SettleErrorV {
    SettleErrorV::new(ErrorInfoV::new(ErrorCode::DeadlineExceeded, "deadline exceeded"@), !total)
}

/// Whether a queued piece of work that is gone from the table is given up.
pub open spec fn voids_when_missing(kind: EffectKind) -> bool {
    is_call(kind)
}

/// Whether a session that is cancelled gives up work that runs elsewhere.
pub open spec fn voids_when_running(kind: EffectKind) -> bool {
    kind == EffectKind::Subagent
}

impl SessionStateV {
    /// Who may settle a piece of work.
    #[verifier::opaque]
    pub open spec fn authorize(self, kind: EffectKind, id: Seq<char>, caller: CallerV) -> Result<
        (),
        SessionErrorV,
    > {
        match kind {
            EffectKind::Decision => allowed(caller.is_worker_or_system()),
            EffectKind::ToolCall => self.may_answer_tool(id, caller),
            EffectKind::LlmCall => caller.may_answer_llm(
                match self.effect(EffectKind::LlmCall, id) {
                    Some(e) => e.llm(),
                    None => None,
                },
            ),
            _ => allowed(caller is System),
        }
    }

    /// Whether an outcome is taken.
    #[verifier::opaque]
    pub open spec fn resolve(
        self,
        kind: EffectKind,
        id: Seq<char>,
        attempt: Option<u32>,
        caller: CallerV,
    ) -> Result<Settle, SessionErrorV> {
        match kind {
            EffectKind::Decision => Ok(taken(self.tracking(kind, id))),
            EffectKind::ToolCall => resolve_call(
                self.tracking(kind, id),
                attempt,
                caller is System,
            ),
            EffectKind::LlmCall => resolve_call(self.tracking(kind, id), attempt, caller is System),
            EffectKind::Subagent => Ok(resolve_subagent(self.tracking(kind, id))),
            EffectKind::ConnectorSync => Ok(taken(self.tracking(kind, id))),
            EffectKind::TurnEnd => Ok(Settle::Drop),
        }
    }

    /// A piece of work settles.
    #[verifier::opaque]
    pub open spec fn settle(
        self,
        kind: EffectKind,
        id: Seq<char>,
        outcome: OutcomeV,
        ids: IdsV,
    ) -> Batch {
        match kind {
            EffectKind::Decision => Batch::of(self.settle_decision(id, outcome), ids),
            EffectKind::ToolCall => self.settle_tool(id, outcome, ids),
            EffectKind::LlmCall => self.settle_llm(id, outcome, ids),
            EffectKind::Subagent => self.settle_subagent(id, outcome, ids),
            EffectKind::ConnectorSync => Batch::of(self.settle_sync(id, outcome), ids),
            EffectKind::TurnEnd => Batch::nothing(ids),
        }
    }

    /// A piece of work whose turn it is goes out.
    #[verifier::opaque]
    pub open spec fn dispatch(self, kind: EffectKind, id: Seq<char>) -> Seq<EventPayloadV> {
        match kind {
            EffectKind::Decision => self.dispatch_decision(id),
            EffectKind::ToolCall => seq![
                EventPayloadV::ToolCallDispatched(ToolCallDispatchedV { id }),
            ],
            EffectKind::LlmCall => seq![
                EventPayloadV::LlmCallDispatched(
                    LlmCallDispatchedV {
                        id,
                        tools: self.llm_tools(id),
                        messages: self.llm_prompt(id),
                        announced: self.head_notices().map_values(notice_of()),
                    },
                ),
            ],
            EffectKind::Subagent => seq![
                EventPayloadV::SubagentDispatched(SubagentDispatchedV { id }),
            ],
            EffectKind::ConnectorSync => Seq::empty(),
            EffectKind::TurnEnd => self.finalize_run(None),
        }
    }

    /// What the worker is asked once a piece of work that it runs is out.
    #[verifier::opaque]
    pub open spec fn execute_trigger(self, kind: EffectKind, id: Seq<char>) -> Option<TriggerV> {
        match kind {
            EffectKind::ToolCall => self.tool_execute(id),
            EffectKind::LlmCall => self.llm_execute(id),
            _ => None,
        }
    }

    /// A piece of work is tried again.
    #[verifier::opaque]
    pub open spec fn retry(self, kind: EffectKind, id: Seq<char>) -> Seq<EventPayloadV> {
        match kind {
            EffectKind::ToolCall => self.retry_tool(id),
            EffectKind::LlmCall => self.retry_llm(id),
            EffectKind::Subagent => self.retry_subagent(id),
            EffectKind::ConnectorSync => self.retry_sync(id),
            _ => Seq::empty(),
        }
    }

    /// What holds a queued piece of work aside, so that others go past it.
    #[verifier::opaque]
    pub open spec fn park(self, q: QueueEntryV) -> Option<DepV> {
        match q.kind {
            EffectKind::Decision => self.decision_parked(q.id),
            _ => None,
        }
    }

    /// What a queued piece of work waits for, and others behind it with it.
    #[verifier::opaque]
    pub open spec fn deps(self, q: QueueEntryV) -> Seq<DepV> {
        match q.kind {
            EffectKind::Decision => self.decision_deps(q.id),
            EffectKind::LlmCall => self.owed(),
            EffectKind::TurnEnd => self.turn_end_deps(q.id),
            _ => Seq::empty(),
        }
    }
}

/// Who may settle a piece of work.
pub fn authorize(state: &SessionState, kind: EffectKind, id: &str, caller: &Caller) -> (r: Result<
    (),
    SessionError,
>)
    ensures
        r.v() == state.v().authorize(kind, id@, caller.v()),
{
    proof {
        reveal(SessionStateV::authorize);
    }
    match kind {
        EffectKind::Decision => DecisionSpec.authorize(state, id, caller),
        EffectKind::ToolCall => state.check_tool_call_caller(id, caller),
        EffectKind::LlmCall => state.check_llm_call_caller(state.llm_call(id), caller),
        _ => SessionState::ensure_internal(caller),
    }
}

fn check_call(tracking: Option<EffectTracking>, attempt: Option<u32>, engine: bool) -> (r: Result<
    Settle,
    SessionError,
>)
    ensures
        match (r, resolve_call(tracking, attempt, engine)) {
            (Ok(a), Ok(b)) => a == b,
            (Err(a), Err(b)) => a.v() == b,
            _ => false,
        },
{
    match tracking {
        None => if engine {
            Ok(Settle::Drop)
        } else {
            Err(SessionError::EffectNotFound)
        },
        Some(t) => {
            if t.state != EffectStatus::Pending {
                return if engine {
                    Ok(Settle::Drop)
                } else {
                    Err(SessionError::EffectNotPending)
                };
            }
            let other = match attempt {
                Some(attempt) => attempt != t.retry.attempts,
                None => false,
            };
            if other {
                return if engine {
                    Ok(Settle::Drop)
                } else {
                    Err(SessionError::EffectAttemptMismatch)
                };
            }
            Ok(Settle::Live)
        },
    }
}

/// Whether an outcome is taken.
pub fn resolve(
    state: &SessionState,
    kind: EffectKind,
    id: &str,
    attempt: Option<u32>,
    caller: &Caller,
) -> (r: Result<Settle, SessionError>)
    ensures
        match (r, state.v().resolve(kind, id@, attempt, caller.v())) {
            (Ok(a), Ok(b)) => a == b,
            (Err(a), Err(b)) => a.v() == b,
            _ => false,
        },
{
    proof {
        reveal(SessionStateV::resolve);
    }
    let engine = match caller {
        Caller::System { .. } => true,
        _ => false,
    };
    match kind {
        EffectKind::Decision => DecisionSpec.resolve(state, id, attempt, caller),
        EffectKind::ToolCall => check_call(state.tracking(kind, id), attempt, engine),
        EffectKind::LlmCall => check_call(state.tracking(kind, id), attempt, engine),
        EffectKind::Subagent => match state.tracking(kind, id) {
            Some(t) => if t.state == EffectStatus::Pending || t.state == EffectStatus::Running {
                Ok(Settle::Live)
            } else {
                Ok(Settle::Drop)
            },
            None => Ok(Settle::Drop),
        },
        EffectKind::ConnectorSync => Ok(decision::resolve_pending(state.tracking(kind, id))),
        EffectKind::TurnEnd => Ok(Settle::Drop),
    }
}

/// A piece of work settles.
pub fn settle(state: &SessionState, kind: EffectKind, id: &str, outcome: Outcome, ids: &mut Ids) -> (r:
    Vec<EventPayload>)
    ensures
        Batch::of(r.v(), final(ids).v()) == state.v().settle(
            kind,
            id@,
            outcome.v(),
            old(ids).v(),
        ),
{
    proof {
        reveal(SessionStateV::settle);
    }
    match kind {
        EffectKind::Decision => DecisionSpec.settle(state, id, outcome),
        EffectKind::ToolCall => ToolSpec.settle(state, id, outcome, ids),
        EffectKind::LlmCall => LlmSpec.settle(state, id, outcome, ids),
        EffectKind::Subagent => SubagentSpec.settle(state, id, outcome, ids),
        EffectKind::ConnectorSync => ConnectorSpec.settle(state, id, outcome),
        EffectKind::TurnEnd => TurnEndSpec.settle(state, id, outcome),
    }
}

/// A piece of work whose turn it is goes out.
pub fn dispatch(state: &SessionState, kind: EffectKind, id: &str) -> (r: Vec<EventPayload>)
    ensures
        r.v() == state.v().dispatch(kind, id@),
{
    proof {
        reveal(SessionStateV::dispatch);
    }
    match kind {
        EffectKind::Decision => DecisionSpec.dispatch(state, id),
        EffectKind::ToolCall => one(
            EventPayload::ToolCallDispatched(ToolCallDispatched { id: id.to_owned() }),
        ),
        EffectKind::LlmCall => one(
            EventPayload::LlmCallDispatched(llm::sent(state, id)),
        ),
        EffectKind::Subagent => one(
            EventPayload::SubagentDispatched(SubagentDispatched { id: id.to_owned() }),
        ),
        EffectKind::ConnectorSync => crate::model::none(),
        EffectKind::TurnEnd => TurnEndSpec.dispatch(state, id),
    }
}

/// What the worker is asked once a piece of work that it runs is out.
pub fn execute_trigger(state: &SessionState, kind: EffectKind, id: &str) -> (r: Option<Trigger>)
    ensures
        r.v() == state.v().execute_trigger(kind, id@),
{
    proof {
        reveal(SessionStateV::execute_trigger);
    }
    match kind {
        EffectKind::ToolCall => ToolSpec.execute_trigger(state, id),
        EffectKind::LlmCall => LlmSpec.execute_trigger(state, id),
        _ => None,
    }
}

/// A piece of work is tried again.
pub fn retry(state: &SessionState, kind: EffectKind, id: &str) -> (r: Vec<EventPayload>)
    ensures
        r.v() == state.v().retry(kind, id@),
{
    proof {
        reveal(SessionStateV::retry);
    }
    match kind {
        EffectKind::ToolCall => ToolSpec.retry(state, id),
        EffectKind::LlmCall => LlmSpec.retry(state, id),
        EffectKind::Subagent => SubagentSpec.retry(state, id),
        EffectKind::ConnectorSync => ConnectorSpec.retry(state, id),
        _ => crate::model::none(),
    }
}

/// What work that runs out fails with.
pub fn timed_out(total: bool) -> (r: SettleError)
    ensures
        r.v() == timeout_error(total),
{
    SettleError::new(
        ErrorInfo::new(ErrorCode::DeadlineExceeded, "deadline exceeded".to_owned()),
        !total,
    )
}

/// What holds a queued piece of work aside.
pub fn park(state: &SessionState, q: &QueueEntry) -> (r: Option<Dep>)
    ensures
        r.v() == state.v().park(q.v()),
{
    proof {
        reveal(SessionStateV::park);
    }
    match q.kind {
        EffectKind::Decision => DecisionSpec.park(state, &q.id),
        _ => None,
    }
}

/// What a queued piece of work waits for.
pub fn deps(state: &SessionState, q: &QueueEntry) -> (r: Vec<Dep>)
    ensures
        same_deps(r.v(), state.v().deps(q.v())),
{
    proof {
        reveal(SessionStateV::deps);
    }
    match q.kind {
        EffectKind::Decision => DecisionSpec.deps(state, q),
        EffectKind::LlmCall => connector::owed(state),
        EffectKind::TurnEnd => TurnEndSpec.deps(state, q),
        _ => crate::model::none(),
    }
}

} // verus!
