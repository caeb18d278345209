//! What else happens to a session.
use crate::model::collect;
use crate::protocol::effect::{EffectKind, EffectStatus};
use crate::protocol::json::decimal;
use crate::protocol::llm::UsageV;
use crate::protocol::message::NewMessageV;
use crate::session::apply::ApplyContext;
use crate::session::events::{
    AgentConfigUpdatedV, EventPayloadV, HeadMovedV, InterruptResumedV, SessionCreatedV,
    SessionInterruptedV, TurnCompletedV, TurnStartedV, WorkerStateUpdatedV,
};
use crate::session::state::{
    AgentVersionV, EffectEntryV, LoggedV, SessionStateV, StateVersionV, TurnPhaseV,
};
use vstd::prelude::*;

verus! {

/// A message that is recorded comes last, and the session stands at it.
pub proof fn law_a_message_becomes_the_head(s: SessionStateV, p: NewMessageV, ctx: ApplyContext)
    ensures
        s.apply(EventPayloadV::NewMessage(p), ctx) == (SessionStateV {
            nodes: s.nodes.push(p),
            head_id: Some(p.message.id),
            ..s
        }),
{
    reveal(SessionStateV::apply);
}

/// A head that moves stands where it moved to, and all else stays.
pub proof fn law_the_head_moves(s: SessionStateV, p: HeadMovedV, ctx: ApplyContext)
    ensures
        s.apply(EventPayloadV::HeadMoved(p), ctx) == (SessionStateV {
            head_id: Some(p.head_id),
            ..s
        }),
{
    reveal(SessionStateV::apply);
}

/// A turn that starts runs, and has cost nothing so far.
pub proof fn law_a_turn_starts_at_nothing(s: SessionStateV, p: TurnStartedV, ctx: ApplyContext)
    ensures
        s.apply(EventPayloadV::TurnStarted(p), ctx) == (SessionStateV {
            phase: TurnPhaseV::Active { turn_id: p.turn_id },
            turn_cost: decimal(0, 0),
            turn_token_usage: UsageV {
                input: 0,
                output: 0,
                uncached_input: 0,
                cache_read: 0,
                cache_write: 0,
                total: 0,
                provider: None,
            },
            ..s
        }),
{
    reveal(SessionStateV::apply);
}

/// A session that is created has the agent, the owner, the ancestors, the worker
/// and the policy it was created with.
pub proof fn law_a_session_is_what_it_was_created_as(s: SessionStateV, p: SessionCreatedV, ctx: ApplyContext)
    ensures
        s.apply(EventPayloadV::SessionCreated(p), ctx) == (SessionStateV {
            agent_id: Some(p.agent_id),
            owner: Some(p.identity),
            ancestry: p.ancestry,
            worker_retry: p.worker_retry,
            worker: p.worker,
            ..s
        }),
{
    reveal(SessionStateV::apply);
}

/// A config that is written is added to the earlier ones, at the node and the
/// sequence number of the event.
pub proof fn law_a_config_is_added(s: SessionStateV, p: AgentConfigUpdatedV, ctx: ApplyContext)
    ensures
        s.apply(EventPayloadV::AgentConfigUpdated(p), ctx) == (SessionStateV {
            agent_versions: s.agent_versions.push(
                LoggedV {
                    seq: ctx.sequence,
                    entry: AgentVersionV { value: p.config, anchor: p.anchor },
                },
            ),
            ..s
        }),
{
    reveal(SessionStateV::apply);
}

/// A worker state that is written is added to the earlier ones, at the node and
/// the sequence number of the event.
pub proof fn law_a_state_is_added(s: SessionStateV, p: WorkerStateUpdatedV, ctx: ApplyContext)
    ensures
        s.apply(EventPayloadV::WorkerStateUpdated(p), ctx) == (SessionStateV {
            state_versions: s.state_versions.push(
                LoggedV {
                    seq: ctx.sequence,
                    entry: StateVersionV { value: p.state, anchor: p.anchor },
                },
            ),
            ..s
        }),
{
    reveal(SessionStateV::apply);
}

/// What is only told to others changes nothing.
pub proof fn law_news_change_nothing(s: SessionStateV, e: EventPayloadV, ctx: ApplyContext)
    requires
        e is SessionDone || e is ChannelsUpdated || e is SessionMessageRequested,
    ensures
        s.apply(e, ctx) == s,
{
    reveal(SessionStateV::apply);
}

/// A turn that completes is over and remembered, and its end no longer waits.
/// What it cost stays known until the next one starts.
pub proof fn law_a_turn_that_completes_is_over(
    s: SessionStateV,
    p: TurnCompletedV,
    ctx: ApplyContext,
)
    ensures
        ({
            let t = s.apply(EventPayloadV::TurnCompleted(p), ctx);
            &&& t.phase is Idle
            &&& t.completed_turn_ids == s.completed_turn_ids.push(p.turn_id)
            &&& t.effects == s.effects
            &&& t == (SessionStateV {
                phase: t.phase,
                completed_turn_ids: t.completed_turn_ids,
                schedule_queue: t.schedule_queue,
                ..s
            })
        }),
{
    reveal(SessionStateV::apply);
}

/// An interrupt opens, and a resumed one is no longer open. The other
/// interrupts stay.
pub proof fn law_interrupts_open_and_close(
    s: SessionStateV,
    p: SessionInterruptedV,
    r: InterruptResumedV,
    ctx: ApplyContext,
)
    ensures
        ({
            let t = s.apply(EventPayloadV::SessionInterrupted(p), ctx);
            &&& t.open_interrupts == s.open_interrupts.push(p)
            &&& t == (SessionStateV {
                open_interrupts: t.open_interrupts,
                effects: t.effects,
                ..s
            })
            &&& forall|e: EffectEntryV|
                s.effects.contains(e) && (e.kind() != EffectKind::Decision || e.tracking.state
                    != EffectStatus::Pending) ==> #[trigger] t.effects.contains(e)
        }),
        ({
            let t = s.apply(EventPayloadV::InterruptResumed(r), ctx);
            &&& forall|i: SessionInterruptedV| #[trigger]
                t.open_interrupts.contains(i) <==> s.open_interrupts.contains(i)
                    && i.interrupt_id != r.interrupt_id
            &&& t == (SessionStateV { open_interrupts: t.open_interrupts, ..s })
        }),
{
    reveal(SessionStateV::apply);
    let t = s.apply(EventPayloadV::SessionInterrupted(p), ctx);
    assert forall|e: EffectEntryV|
        s.effects.contains(e) && (e.kind() != EffectKind::Decision || e.tracking.state
            != EffectStatus::Pending) implies #[trigger] t.effects.contains(e) by {
        lemma_collects(s.effects, s.kept_through(p), e);
    }
    let u = s.apply(EventPayloadV::InterruptResumed(r), ctx);
    assert forall|i: SessionInterruptedV| #[trigger]
        u.open_interrupts.contains(i) <==> s.open_interrupts.contains(i) && i.interrupt_id
            != r.interrupt_id by {
        lemma_collects(
            s.open_interrupts,
            crate::session::apply::other_than(r.interrupt_id),
            i,
        );
    }
}

/// What is collected unchanged: just what is let through.
pub proof fn lemma_collects<A>(s: Seq<A>, f: spec_fn(A) -> Option<A>, a: A)
    requires
        forall|b: A| (#[trigger] f(b)) is Some ==> f(b) == Some(b),
    ensures
        collect(s, f).contains(a) <==> s.contains(a) && f(a) is Some,
    decreases s.len(),
{
    if s.len() > 0 {
        let front = s.drop_last();
        lemma_collects(front, f, a);
        assert(s =~= front.push(s.last()));
        assert(s.contains(a) <==> front.contains(a) || a == s.last()) by {
            if front.contains(a) {
                let i = choose|i: int| 0 <= i < front.len() && front[i] == a;
                assert(s[i] == a);
            }
            if a == s.last() {
                assert(s[s.len() - 1] == a);
            }
            if s.contains(a) {
                let i = choose|i: int| 0 <= i < s.len() && s[i] == a;
                if i < front.len() {
                    assert(front[i] == a);
                }
            }
        }
        match f(s.last()) {
            Some(b) => {
                let c = collect(front, f);
                assert(c.push(b).contains(a) <==> c.contains(a) || a == b) by {
                    if c.contains(a) {
                        let i = choose|i: int| 0 <= i < c.len() && c[i] == a;
                        assert(c.push(b)[i] == a);
                    }
                    if a == b {
                        assert(c.push(b)[c.len() as int] == a);
                    }
                    if c.push(b).contains(a) {
                        let i = choose|i: int| 0 <= i < c.push(b).len() && c.push(b)[i] == a;
                        if i < c.len() {
                            assert(c[i] == a);
                        }
                    }
                }
            },
            None => {},
        }
    }
}

} // verus!
