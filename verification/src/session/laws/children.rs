//! What the turn of a child session does.
use crate::model::{last_of, lemma_position, position};
use crate::protocol::config::SpawnMode;
use crate::protocol::effect::{EffectKind, EffectStatus};
use crate::protocol::error::ErrorInfoV;
use crate::protocol::json::{decimal_sum, JsonKindV, JsonV};
use crate::protocol::llm::UsageV;
use crate::protocol::message::{ContentV, DraftMessageV, Role};
use crate::session::caller::CallerV;
use crate::session::command::CommandPayloadV;
use crate::session::decision::TriggerV;
use crate::session::effects::subagent::{awaits_child, notice_message};
use crate::session::events::{
    DecisionDroppedV, DecisionQueuedV, EventPayloadV, SubagentTurnCompletedV,
};
use crate::session::laws::calls::{
    child_failed, child_is_out, lemma_child_failed, lemma_told, next_event, only_happened,
};
use crate::session::laws::failing::law_a_childs_turn_is_kept;
use crate::session::laws::table::lemma_tidy_found;
use crate::session::outcome::SettleErrorV;
use crate::session::state::{EffectEntryV, SessionStateV};
use crate::session::working::WorkingV;
use rust_decimal::Decimal;
use vstd::prelude::*;

verus! {

/// The command that a child's turn is over.
pub open spec fn turn_over(
    session_id: Seq<char>,
    agent_id: Seq<char>,
    turn_id: Seq<char>,
    data: JsonV,
    cost: Decimal,
    token_usage: UsageV,
    error: Option<ErrorInfoV>,
) -> CommandPayloadV {
    CommandPayloadV::CompleteSubagentTurn {
        session_id,
        agent_id,
        turn_id,
        data,
        cost,
        token_usage,
        error,
    }
}

/// A document as the text of an answer.
pub open spec fn answer_text(data: JsonV) -> Seq<char> {
    match data.kind {
        JsonKindV::Text(text) => text,
        JsonKindV::Null => Seq::empty(),
        JsonKindV::Other => data.text,
    }
}

/// The call that waits for a child is the one in the table, and is to that
/// child.
proof fn lemma_awaiting(s: SessionStateV, child: Seq<char>, e: EffectEntryV)
    requires
        s.tidy(),
        s.subagent_awaiting(child) == Some(e),
    ensures
        s.effect(EffectKind::Subagent, e.id) == Some(e),
        e.kind() == EffectKind::Subagent,
        e.subagent()->0.session_id == child,
        e.tracking.state != EffectStatus::Completed && e.tracking.state != EffectStatus::Failed,
{
    lemma_position(s.effects, awaits_child(child));
    lemma_tidy_found(s, position(s.effects, awaits_child(child))->0);
}

/// A child whose turn fails fails the call that waits for it: the reason is
/// logged and told as it was given, and nothing says that the call was
/// answered. A call that is not yet with the child, or waits for another
/// attempt, is left as it is.
pub proof fn law_a_childs_failure_fails_the_call(
    w: WorkingV,
    session_id: Seq<char>,
    agent_id: Seq<char>,
    turn_id: Seq<char>,
    data: JsonV,
    cost: Decimal,
    token_usage: UsageV,
    error: ErrorInfoV,
    e: EffectEntryV,
    caller: CallerV,
)
    requires
        w.state.in_tenant(caller),
        caller is System,
        w.state.subagent_awaiting(session_id) == Some(e),
        w.state.tidy(),
    ensures
        ({
            let ran = w.run_command(
                turn_over(session_id, agent_id, turn_id, data, cost, token_usage, Some(error)),
                caller,
            );
            &&& ran.r is Ok
            &&& child_is_out(w.state, e.id) ==> child_failed(w, ran.w, e.id, error, false)
                && ran.w.state.has_status(EffectKind::Subagent, e.id, EffectStatus::Failed)
                && ran.w.events.last() == EventPayloadV::DecisionQueued(
                DecisionQueuedV {
                    id: w.ids.id(),
                    trigger: TriggerV::SubagentFinished {
                        id: e.id,
                        ok: false,
                        session_id,
                        agent_id: e.subagent()->0.agent_id,
                        result: None,
                        error: Some(error),
                    },
                },
            )
            &&& !child_is_out(w.state, e.id) ==> ran.w == w
            &&& !ran.w.state.has_status(EffectKind::Subagent, e.id, EffectStatus::Completed)
            &&& forall|k: int|
                w.events.len() <= k < ran.w.events.len() ==> !(#[trigger] ran.w.events[k]
                    is SubagentTurnCompleted)
        }),
{
    reveal(WorkingV::run_command);
    reveal(WorkingV::complete_subagent_turn);
    lemma_awaiting(w.state, session_id, e);
    let settled = SettleErrorV { error, retryable: false, auth: None };
    if child_is_out(w.state, e.id) {
        lemma_child_failed(w, e.id, None, settled, caller);
    } else {
        reveal(WorkingV::settle_effect);
        reveal(SessionStateV::authorize);
        reveal(SessionStateV::resolve);
    }
}

/// A child whose turn is over without failing answers the call that waits for
/// it: the call is completed, keeps the answer and is paid for, and the worker
/// is told the answer and no error.
pub proof fn law_a_childs_answer_answers_the_call(
    w: WorkingV,
    session_id: Seq<char>,
    agent_id: Seq<char>,
    turn_id: Seq<char>,
    data: JsonV,
    cost: Decimal,
    token_usage: UsageV,
    e: EffectEntryV,
    caller: CallerV,
)
    requires
        w.state.in_tenant(caller),
        caller is System,
        w.state.subagent_awaiting(session_id) == Some(e),
        w.state.tidy(),
    ensures
        ({
            let ran = w.run_command(
                turn_over(session_id, agent_id, turn_id, data, cost, token_usage, None),
                caller,
            );
            let call = ran.w.state.effect(EffectKind::Subagent, e.id)->0.subagent()->0;
            &&& ran.r is Ok
            &&& only_happened(
                w,
                ran.w,
                EventPayloadV::SubagentTurnCompleted(
                    SubagentTurnCompletedV {
                        id: e.id,
                        cost,
                        token_usage,
                        data,
                        turn_id: None,
                        error: None,
                    },
                ),
                Some(
                    TriggerV::SubagentFinished {
                        id: e.id,
                        ok: true,
                        session_id,
                        agent_id: e.subagent()->0.agent_id,
                        result: Some(answer_text(data)),
                        error: None,
                    },
                ),
            )
            &&& ran.w.state.has_status(EffectKind::Subagent, e.id, EffectStatus::Completed)
            &&& call.result == Some(answer_text(data)) && !call.is_error
            &&& ran.w.state.subagent_cost == decimal_sum(w.state.subagent_cost, cost)
        }),
{
    reveal(WorkingV::run_command);
    reveal(WorkingV::complete_subagent_turn);
    lemma_awaiting(w.state, session_id, e);
    let p = SubagentTurnCompletedV {
        id: e.id,
        cost,
        token_usage,
        data,
        turn_id: None,
        error: None,
    };
    law_a_childs_turn_is_kept(w.state, p, next_event(w));
    assert(data.plain_text() == answer_text(data));
    lemma_told(
        w,
        EventPayloadV::SubagentTurnCompleted(p),
        Some(
            TriggerV::SubagentFinished {
                id: e.id,
                ok: true,
                session_id,
                agent_id: e.subagent()->0.agent_id,
                result: Some(data.plain_text()),
                error: None,
            },
        ),
        EffectKind::Subagent,
        e.id,
    );
}

/// What nobody waits for and nobody detached, and what was told before, is not
/// told.
pub proof fn law_a_detached_turn_is_told_once(
    w: WorkingV,
    session_id: Seq<char>,
    agent_id: Seq<char>,
    turn_id: Seq<char>,
    data: JsonV,
    cost: Decimal,
    token_usage: UsageV,
    error: Option<ErrorInfoV>,
    caller: CallerV,
)
    requires
        w.state.in_tenant(caller),
        caller is System,
        w.state.subagent_awaiting(session_id) is None,
        w.state.detached_turns.contains(turn_id) || forall|k: int|
            0 <= k < w.state.effects.len() ==> !is_detached(#[trigger] w.state.effects[k], session_id),
    ensures
        ({
            let ran = w.run_command(
                turn_over(session_id, agent_id, turn_id, data, cost, token_usage, error),
                caller,
            );
            ran.r is Ok && ran.w == w
        }),
{
    reveal(WorkingV::run_command);
    reveal(WorkingV::complete_subagent_turn);
    if !w.state.detached_turns.contains(turn_id) {
        lemma_none_detached(w.state.effects, session_id);
    }
}

/// Whether a call runs detached in a child session.
pub open spec fn is_detached(e: EffectEntryV, child: Seq<char>) -> bool {
    e.subagent() is Some && e.subagent()->0.session_id == child && e.subagent()->0.mode
        == SpawnMode::Detached
}

proof fn lemma_none_detached(effects: Seq<EffectEntryV>, child: Seq<char>)
    requires
        forall|k: int| 0 <= k < effects.len() ==> !is_detached(#[trigger] effects[k], child),
    ensures
        last_of(effects, crate::session::effects::subagent::detached_child(child)) is None,
    decreases effects.len(),
{
    if effects.len() > 0 {
        let front = effects.drop_last();
        assert forall|k: int| 0 <= k < front.len() implies !is_detached(#[trigger] front[k], child) by {
            assert(front[k] == effects[k]);
        }
        lemma_none_detached(front, child);
        assert(!is_detached(effects[effects.len() - 1], child));
    }
}

/// What a detached turn is told as: its answer or why it failed, with the
/// session and the agent it comes from.
pub open spec fn is_notice_of(
    m: DraftMessageV,
    session_id: Seq<char>,
    agent_id: Seq<char>,
    text: Seq<char>,
) -> bool {
    m == DraftMessageV {
        id: None,
        role: Role::User,
        content: Some(
            ContentV::Text(
                "<subagent_result session=\""@ + session_id + "\" agent=\""@ + agent_id + "\">"@
                    + text + "</subagent_result>"@,
            ),
        ),
        tool_calls: None,
        tool_call_id: None,
        name: None,
        reasoning: None,
    }
}

/// A detached turn that is over is logged with its result or its failure, and
/// told as a message of its own. Where no other result waits to be told, it
/// opens a turn of its own.
pub proof fn law_a_detached_turn_is_told(
    w: WorkingV,
    session_id: Seq<char>,
    agent_id: Seq<char>,
    turn_id: Seq<char>,
    data: JsonV,
    cost: Decimal,
    token_usage: UsageV,
    error: Option<ErrorInfoV>,
    e: EffectEntryV,
    caller: CallerV,
)
    requires
        w.state.in_tenant(caller),
        caller is System,
        w.state.subagent_awaiting(session_id) is None,
        !w.state.detached_turns.contains(turn_id),
        w.state.subagent_detached(session_id) == Some(e),
    ensures
        ({
            let ran = w.run_command(
                turn_over(session_id, agent_id, turn_id, data, cost, token_usage, error),
                caller,
            );
            let n = w.events.len() as int;
            let prior = w.state.queued_subagent_notice();
            let told = ran.w.events.last()->DecisionQueued_0.trigger;
            &&& ran.r is Ok
            &&& ran.w.events.len() == if prior is Some {
                n + 3
            } else {
                n + 2
            }
            &&& ran.w.events[n] == EventPayloadV::SubagentTurnCompleted(
                SubagentTurnCompletedV {
                    id: e.id,
                    cost,
                    token_usage,
                    data,
                    turn_id: Some(turn_id),
                    error,
                },
            )
            &&& prior is Some ==> ran.w.events[n + 1] == EventPayloadV::DecisionDropped(
                DecisionDroppedV { id: prior->0.decision_id },
            )
            &&& ran.w.events.last() is DecisionQueued
            &&& told is SubagentNotice
            &&& is_notice_of(
                told->SubagentNotice_messages.last(),
                session_id,
                e.subagent()->0.agent_id,
                if error is Some {
                    error->0.message
                } else {
                    answer_text(data)
                },
            )
            &&& told->SubagentNotice_sessions.last() == session_id
            &&& told->SubagentNotice_messages.drop_last() == if prior is Some {
                prior->0.messages
            } else {
                Seq::empty()
            }
            &&& told->SubagentNotice_sessions.drop_last() == if prior is Some {
                prior->0.sessions
            } else {
                Seq::empty()
            }
            &&& told->SubagentNotice_turn_id == if prior is Some {
                prior->0.turn_id
            } else {
                w.ids.id()
            }
        }),
{
    reveal(WorkingV::run_command);
    reveal(WorkingV::complete_subagent_turn);
    reveal(WorkingV::detached_result);
    reveal_with_fuel(WorkingV::emit_all, 4);
    let p = SubagentTurnCompletedV {
        id: e.id,
        cost,
        token_usage,
        data,
        turn_id: Some(turn_id),
        error,
    };
    let agent = e.subagent()->0.agent_id;
    let notice = notice_message(session_id, agent, p);
    let batch = w.detached_result(session_id, agent, p);
    match w.state.queued_subagent_notice() {
        Some(prior) => {
            assert(batch.events.drop_last() =~= seq![batch.events[0], batch.events[1]]);
            assert(batch.events.drop_last().drop_last() =~= seq![batch.events[0]]);
            assert(seq![batch.events[0]].drop_last() =~= Seq::empty());
            assert(prior.messages.push(notice).drop_last() =~= prior.messages);
            assert(prior.sessions.push(session_id).drop_last() =~= prior.sessions);
        },
        None => {
            assert(batch.events.drop_last() =~= seq![batch.events[0]]);
            assert(seq![batch.events[0]].drop_last() =~= Seq::empty());
            assert(seq![notice].drop_last() =~= Seq::empty());
            assert(seq![session_id].drop_last() =~= Seq::empty());
        },
    }
}

} // verus!
