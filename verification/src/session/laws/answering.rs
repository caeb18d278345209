//! What becomes of a worker's answer.
use crate::protocol::config::{AgentConfigV, WorkerStateV};
use crate::protocol::effect::{EffectKind, EffectStatus};
use crate::protocol::message::DraftMessageV;
use crate::session::caller::CallerV;
use crate::session::decision::ActionV;
use crate::session::events::{DecisionCompletedV, EventPayloadV};
use crate::session::laws::restart::lemma_emits;
use crate::session::working::WorkingV;
use vstd::prelude::*;

verus! {

/// What an answer says of the conversation is written behind the answer itself,
/// before all else that it brings.
pub proof fn law_an_answers_messages_are_written(
    w: WorkingV,
    decision_id: Seq<char>,
    transcript: Seq<DraftMessageV>,
    state: Option<WorkerStateV>,
    agent: Option<AgentConfigV>,
)
    ensures
        ({
            let after = w.author(decision_id, transcript, state, agent);
            let done = EventPayloadV::DecisionCompleted(DecisionCompletedV { id: decision_id });
            let answered = w.emit(done);
            let news = answered.state.reconcile_transcript(transcript, answered.ids).events;
            (w.events.push(done) + news).is_prefix_of(after.events)
        }),
{
    reveal(WorkingV::author);
    let done = EventPayloadV::DecisionCompleted(DecisionCompletedV { id: decision_id });
    let answered = w.emit(done);
    let batch = answered.state.reconcile_transcript(transcript, answered.ids);
    lemma_emits(WorkingV { ids: batch.ids, ..answered }, batch.events);
    let seen = answered.emit_batch(batch);
    let voids = seen.state.void_stranded_work(seen.state.head_id);
    lemma_emits(seen, voids);
    let cleared = seen.emit_all(voids);
    let states = cleared.state.worker_state_events(state);
    lemma_emits(cleared, states);
    let stated = cleared.emit_all(states);
    let configs = stated.state.agent_config_events(agent);
    lemma_emits(stated, configs);
    let after = w.author(decision_id, transcript, state, agent);
    let start = w.events.push(done) + batch.events;
    assert(after.events =~= start + (voids + states + configs));
    assert(start =~= after.events.subrange(0, start.len() as int));
}

/// A state that the worker answers with is written at the node the session then
/// stands at, unless it is in force there.
pub proof fn law_an_answers_state_is_written(
    w: WorkingV,
    decision_id: Seq<char>,
    state: WorkerStateV,
)
    requires
        !state.equals(
            w.author(decision_id, Seq::empty(), None, None).state.state_for(
                w.author(decision_id, Seq::empty(), None, None).state.head_id,
            ),
        ),
    ensures
        ({
            let plain = w.author(decision_id, Seq::empty(), None, None);
            let after = w.author(decision_id, Seq::empty(), Some(state), None);
            after == plain.emit(
                EventPayloadV::WorkerStateUpdated(
                    crate::session::events::WorkerStateUpdatedV {
                        state,
                        anchor: plain.state.head_id,
                    },
                ),
            )
        }),
{
    reveal(WorkingV::author);
    reveal(crate::session::state::SessionStateV::worker_state_events);
    reveal(crate::session::state::SessionStateV::agent_config_events);
    let plain = w.author(decision_id, Seq::empty(), None, None);
    crate::session::working::lemma_emit_one(
        plain,
        EventPayloadV::WorkerStateUpdated(
            crate::session::events::WorkerStateUpdatedV { state, anchor: plain.state.head_id },
        ),
    );
}

/// An answer's actions run once what it says is written, as the session's own
/// engine, and one after the other.
pub proof fn law_an_answers_actions_run(
    w: WorkingV,
    decision_id: Seq<char>,
    transcript: Seq<DraftMessageV>,
    actions: Seq<ActionV>,
    action: ActionV,
    state: Option<WorkerStateV>,
    agent: Option<AgentConfigV>,
    caller: CallerV,
)
    requires
        caller is System || caller is ApiKey,
        w.state.has_status(EffectKind::Decision, decision_id, EffectStatus::Pending),
        !(w.state.trigger(decision_id)->0 is ClientAction),
        w.author(decision_id, transcript, state, agent).state.owner is Some,
    ensures
        ({
            let authored = w.author(decision_id, transcript, state, agent);
            let engine = CallerV::System { tenant_id: authored.state.owner->0.tenant_id };
            let before = w.submit_decision(
                decision_id,
                transcript,
                actions,
                state,
                agent,
                Seq::empty(),
                caller,
            );
            let after = w.submit_decision(
                decision_id,
                transcript,
                actions.push(action),
                state,
                agent,
                Seq::empty(),
                caller,
            );
            &&& actions.len() == 0 ==> before.w == authored
            &&& before.r is Ok && after.r is Ok
            &&& after.w == before.w.apply_action(action, decision_id, engine)
        }),
{
    reveal(WorkingV::submit_decision);
    assert(actions.push(action).drop_last() =~= actions);
}

} // verus!
