//! What becomes of a call to a child that runs or ran.
use crate::protocol::config::SpawnMode;
use crate::protocol::effect::EffectKind;
use crate::protocol::error::{ErrorCode, ErrorInfoV};
use crate::session::decision::TriggerV;
use crate::session::effects::subagent::SpawnV;
use crate::session::events::{DecisionDroppedV, DecisionQueuedV, EventPayloadV, SubagentRequestedV};
use crate::session::ids::IdsV;
use crate::session::laws::actions::is_free;
use crate::session::state::SessionStateV;
use vstd::prelude::*;

verus! {

/// Whether a batch only tells the worker that a call was refused.
pub open spec fn is_refusal(
    events: Seq<EventPayloadV>,
    s: SpawnV,
    child: Seq<char>,
    code: ErrorCode,
) -> bool {
    let told = events[0]->DecisionQueued_0.trigger;
    &&& events.len() == 1
    &&& events[0] is DecisionQueued
    &&& told is SubagentFinished
    &&& told->SubagentFinished_id == s.tool_call_id
    &&& !told->SubagentFinished_ok
    &&& told->SubagentFinished_session_id == child
    &&& told->SubagentFinished_agent_id == s.agent_id
    &&& told->SubagentFinished_result is None
    &&& told->SubagentFinished_error is Some
    &&& told->SubagentFinished_error->0.code == code
}

/// A call that goes on with a child is refused where this session started no
/// such child, where the child answers another call, or where it still works
/// detached and is not waited for.
pub proof fn law_a_busy_child_is_refused(state: SessionStateV, s: SpawnV, child: Seq<char>, ids: IdsV)
    requires
        s.session_id == Some(child),
        is_free(state, EffectKind::Subagent, s.tool_call_id),
        s.mode == Some(SpawnMode::Wait) || state.ancestry.len() < state.depth_limit(),
        ({
            let call = state.last_call(child)->0.subagent()->0;
            ||| state.last_call(child) is None
            ||| state.subagent_awaiting(child) is Some
            ||| s.mode != Some(SpawnMode::Wait) && call.mode == SpawnMode::Detached
                && call.result is None
        }),
    ensures
        is_refusal(
            state.request_subagent(s, ids).events,
            s,
            child,
            ErrorCode::HandlerError,
        ),
{
    reveal(SessionStateV::request_subagent);
}

/// A child that is free takes another message: it goes on as the agent it was
/// started as. To wait for it sends none.
pub proof fn law_a_free_child_goes_on(state: SessionStateV, s: SpawnV, child: Seq<char>, ids: IdsV)
    requires
        s.session_id == Some(child),
        is_free(state, EffectKind::Subagent, s.tool_call_id),
        s.mode == Some(SpawnMode::Wait) || state.ancestry.len() < state.depth_limit(),
        state.last_call(child) is Some,
        state.subagent_awaiting(child) is None,
        ({
            let call = state.last_call(child)->0.subagent()->0;
            if s.mode == Some(SpawnMode::Wait) {
                call.result is None
            } else {
                call.mode != SpawnMode::Detached || call.result is Some
            }
        }),
    ensures
        ({
            let call = state.last_call(child)->0.subagent()->0;
            let wait = s.mode == Some(SpawnMode::Wait);
            state.request_subagent(s, ids).events == seq![
                EventPayloadV::SubagentRequested(
                    SubagentRequestedV {
                        id: s.tool_call_id,
                        attempt: 0,
                        session_id: child,
                        agent_id: call.agent_id,
                        message: if wait {
                            None
                        } else {
                            s.message
                        },
                        retry: s.retry,
                        mode: if wait {
                            SpawnMode::Wait
                        } else {
                            state.spawn_mode(call.agent_id, s.mode)
                        },
                        decision_id: s.decision_id,
                    },
                ),
            ]
        }),
{
    reveal(SessionStateV::request_subagent);
}

/// To wait for a child that is done tells its result, or why it failed, at once.
/// What of it still waits to be told is then no longer told.
pub proof fn law_waiting_tells_a_result_once(
    state: SessionStateV,
    s: SpawnV,
    child: Seq<char>,
    ids: IdsV,
)
    requires
        s.session_id == Some(child),
        s.mode == Some(SpawnMode::Wait),
        is_free(state, EffectKind::Subagent, s.tool_call_id),
        state.last_call(child) is Some,
        state.subagent_awaiting(child) is None,
        state.last_call(child)->0.subagent()->0.result is Some,
    ensures
        ({
            let call = state.last_call(child)->0.subagent()->0;
            let events = state.request_subagent(s, ids).events;
            let notice = state.queued_subagent_notice();
            &&& events.len() > 0
            &&& events[0] == EventPayloadV::DecisionQueued(
                DecisionQueuedV {
                    id: ids.id(),
                    trigger: TriggerV::SubagentFinished {
                        id: s.tool_call_id,
                        ok: !call.is_error,
                        session_id: child,
                        agent_id: call.agent_id,
                        result: if call.is_error {
                            None
                        } else {
                            call.result
                        },
                        error: if call.is_error {
                            Some(
                                ErrorInfoV {
                                    message: call.result->0,
                                    code: ErrorCode::HandlerError,
                                    param: None,
                                    detail: None,
                                },
                            )
                        } else {
                            None
                        },
                    },
                },
            )
            &&& notice is None || !notice->0.sessions.contains(child) ==> events.len() == 1
            &&& notice is Some && notice->0.sessions.contains(child) ==> events.len() > 1
                && events[1] == EventPayloadV::DecisionDropped(
                DecisionDroppedV { id: notice->0.decision_id },
            )
            &&& events.len() > 2 ==> ({
                let told = events[2]->DecisionQueued_0.trigger;
                &&& events[2] is DecisionQueued
                &&& told is SubagentNotice
                &&& !told->SubagentNotice_sessions.contains(child)
                &&& told->SubagentNotice_turn_id == notice->0.turn_id
                &&& forall|k: int|
                    0 <= k < told->SubagentNotice_messages.len() ==> notice->0.messages.contains(
                        #[trigger] told->SubagentNotice_messages[k],
                    )
            })
        }),
{
    reveal(SessionStateV::request_subagent);
    if let Some(notice) = state.queued_subagent_notice() {
        lemma_withdrawn(notice.messages, notice.sessions, child);
    }
}

proof fn lemma_withdrawn(
    messages: Seq<crate::protocol::message::DraftMessageV>,
    sessions: Seq<Seq<char>>,
    child: Seq<char>,
)
    ensures
        ({
            let rest = crate::session::effects::subagent::notice_rest(messages, sessions, child);
            &&& !rest.1.contains(child)
            &&& rest.0.len() == rest.1.len()
            &&& forall|k: int|
                0 <= k < rest.0.len() ==> messages.contains(#[trigger] rest.0[k])
        }),
    decreases sessions.len(),
{
    let rest = crate::session::effects::subagent::notice_rest(messages, sessions, child);
    if !(sessions.len() == 0 || messages.len() == 0) {
        let m = messages.drop_first();
        let t = sessions.drop_first();
        lemma_withdrawn(m, t, child);
        let inner = crate::session::effects::subagent::notice_rest(m, t, child);
        assert forall|k: int| 0 <= k < rest.0.len() implies messages.contains(
            #[trigger] rest.0[k],
        ) by {
            if sessions[0] != child && k == 0 {
                assert(messages[0] == rest.0[k]);
            } else {
                let j = if sessions[0] == child {
                    k
                } else {
                    k - 1
                };
                assert(rest.0[k] == inner.0[j]);
                assert(m.contains(inner.0[j]));
                let i = choose|i: int| 0 <= i < m.len() && m[i] == inner.0[j];
                assert(messages[i + 1] == m[i]);
            }
        }
        if rest.1.contains(child) {
            let k = choose|k: int| 0 <= k < rest.1.len() && rest.1[k] == child;
            if sessions[0] == child {
                assert(inner.1[k] == child);
            } else {
                assert(k > 0);
                assert(inner.1[k - 1] == child);
            }
            assert(false);
        }
    }
}

/// A call that was asked for and did not fail is not asked for again.
pub proof fn law_a_child_is_asked_for_once(state: SessionStateV, s: SpawnV, ids: IdsV)
    requires
        !is_free(state, EffectKind::Subagent, s.tool_call_id),
    ensures
        state.request_subagent(s, ids).events.len() == 0,
        state.request_subagent(s, ids).ids == ids,
{
    reveal(SessionStateV::request_subagent);
}

} // verus!
