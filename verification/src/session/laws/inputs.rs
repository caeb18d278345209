//! How inputs open turns, how work goes out, and what the engine answers itself.
use crate::model::any;
use crate::protocol::config::ClientContextV;
use crate::protocol::effect::{EffectKind, EffectStatus};
use crate::protocol::message::DraftMessageV;
use crate::protocol::wire::ClientPayloadV;
use crate::session::caller::CallerV;
use crate::session::command::{CommandPayloadV, TurnTargetV};
use crate::session::decision::{ActionV, LlmHandler, TriggerV};
use crate::session::error::SessionErrorV;
use crate::session::events::{
    ConnectorTargetV, DecisionQueuedV, EventPayloadV, SubagentDispatchedV, TurnStartedV,
};
use crate::session::history::commands::lemma_leads_actions;
use crate::session::laws::asking::{law_a_model_call_goes_out, law_work_goes_out};
use crate::session::laws::calls::{next_event, only_happened};
use crate::session::laws::schedule::lemma_gives;
use crate::session::laws::table::{lemma_asked, lemma_found};
use crate::session::laws::turns::{lemma_completes, turn_completed_with};
use crate::session::offers::notices::with_notices;
use crate::session::offers::search::query_of;
use crate::session::run::answers::working;
use crate::session::run::turns::holds_turn;
use crate::session::state::{FinalizingV, SessionStateV, TurnPhaseV};
use crate::session::working::{lemma_emit_one, WorkingV};
use vstd::prelude::*;

verus! {

/// The trigger of a client's message.
pub open spec fn words(message: DraftMessageV, turn_id: Option<Seq<char>>) -> TriggerV {
    TriggerV::ClientMessage { messages: seq![message], client: ClientContextV::empty(), turn_id }
}

/// A message for a turn of its own starts the turn where none runs, and is put
/// to the worker.
pub proof fn law_an_input_opens_its_turn(
    w: WorkingV,
    payload: ClientPayloadV,
    turn_id: Seq<char>,
    queue: bool,
    caller: CallerV,
)
    requires
        w.state.in_tenant(caller),
        w.state.owned_by(caller),
        payload is Message,
        w.state.phase is Idle,
        w.state.turn_taken(turn_id) is None,
        w.state.open_interrupts.len() == 0,
        !w.state.session_start_failed,
    ensures
        ({
            let ran = w.run_command(
                CommandPayloadV::SubmitClientPayload {
                    payload,
                    turn: TurnTargetV::Open(turn_id),
                    queue,
                },
                caller,
            );
            &&& ran.r is Ok
            &&& only_happened(
                w,
                ran.w,
                EventPayloadV::TurnStarted(TurnStartedV { turn_id }),
                Some(words(payload->Message_0.message, None)),
            )
            &&& ran.w.state.phase == (TurnPhaseV::Active { turn_id })
        }),
{
    reveal(WorkingV::run_command);
    reveal(WorkingV::submit);
    reveal(SessionStateV::deferred_turn);
    reveal(WorkingV::begin_turn);
    reveal(SessionStateV::client_payload);
    let begun = w.emit(EventPayloadV::TurnStarted(TurnStartedV { turn_id }));
    assert(begun.state == SessionStateV {
        phase: TurnPhaseV::Active { turn_id },
        turn_cost: begun.state.turn_cost,
        turn_token_usage: begun.state.turn_token_usage,
        ..w.state
    }) by {
        reveal(SessionStateV::apply);
    }
    let told = words(payload->Message_0.message, None);
    lemma_asked(begun, told);
    let batch = begun.state.client_payload(payload, caller, None, begun.ids)->Ok_0;
    assert(batch.events =~= seq![crate::session::outcome::asked(begun.ids, told)]);
}

/// A message for a turn of its own that may wait does so while a turn runs or is
/// being finished: nothing starts, and the question holds the turn.
pub proof fn law_an_input_waits_for_its_turn(
    w: WorkingV,
    payload: ClientPayloadV,
    turn_id: Seq<char>,
    caller: CallerV,
)
    requires
        w.state.in_tenant(caller),
        w.state.owned_by(caller),
        payload is Message,
        !(w.state.phase is Idle),
        w.state.turn_taken(turn_id) is None,
        w.state.open_interrupts.len() == 0,
        !w.state.session_start_failed,
    ensures
        ({
            let ran = w.run_command(
                CommandPayloadV::SubmitClientPayload {
                    payload,
                    turn: TurnTargetV::Open(turn_id),
                    queue: true,
                },
                caller,
            );
            &&& ran.r is Ok
            &&& ran.w.events == w.events.push(
                EventPayloadV::DecisionQueued(
                    DecisionQueuedV {
                        id: w.ids.id(),
                        trigger: words(payload->Message_0.message, Some(turn_id)),
                    },
                ),
            )
            &&& ran.w.state.phase == w.state.phase
        }),
{
    reveal(WorkingV::run_command);
    reveal(WorkingV::submit);
    reveal(SessionStateV::deferred_turn);
    reveal(SessionStateV::client_payload);
    let told = words(payload->Message_0.message, Some(turn_id));
    lemma_asked(w, told);
    let batch = w.state.client_payload(payload, caller, Some(turn_id), w.ids)->Ok_0;
    assert(batch.events =~= seq![crate::session::outcome::asked(w.ids, told)]);
}

/// A message for a turn of its own that may not wait is refused while a turn
/// runs.
pub proof fn law_an_input_that_cannot_wait_is_refused(
    w: WorkingV,
    payload: ClientPayloadV,
    turn_id: Seq<char>,
    caller: CallerV,
)
    requires
        w.state.in_tenant(caller),
        w.state.owned_by(caller),
        w.state.phase is Active,
        !w.state.completed_turn_ids.contains(turn_id),
    ensures
        ({
            let ran = w.run_command(
                CommandPayloadV::SubmitClientPayload {
                    payload,
                    turn: TurnTargetV::Open(turn_id),
                    queue: false,
                },
                caller,
            );
            ran.w == w && ran.r is Err && ran.r->Err_0 is TurnAlreadyActive
        }),
{
    reveal(WorkingV::run_command);
    reveal(WorkingV::submit);
    reveal(SessionStateV::deferred_turn);
    reveal(WorkingV::begin_turn);
    reveal(SessionStateV::turn_taken);
}

/// A turn is taken once it completed, while it runs or is being finished, and
/// while a question that waits holds it; else it is free.
pub proof fn law_a_turn_is_taken_once(s: SessionStateV, turn_id: Seq<char>, k: int)
    ensures
        s.completed_turn_ids.contains(turn_id) ==> s.turn_taken(turn_id) == Some(
            SessionErrorV::TurnAlreadyCompleted { turn_id },
        ),
        !s.completed_turn_ids.contains(turn_id) && match s.phase {
            TurnPhaseV::Active { turn_id: t } => t == turn_id,
            TurnPhaseV::Finalizing(f) => f.turn_id == turn_id,
            TurnPhaseV::Idle => false,
        } ==> s.turn_taken(turn_id) == Some(SessionErrorV::TurnAlreadyActive { turn_id }),
        !s.completed_turn_ids.contains(turn_id) && 0 <= k < s.effects.len()
            && s.effects[k].tracking.state == EffectStatus::Queued && match s.effects[k].trigger() {
            Some(TriggerV::ClientMessage { turn_id: t, .. }) => t == Some(turn_id),
            Some(TriggerV::SubagentNotice { turn_id: t, .. }) => t == turn_id,
            _ => false,
        } ==> s.turn_taken(turn_id) == Some(SessionErrorV::TurnAlreadyActive { turn_id }),
        !s.completed_turn_ids.contains(turn_id) && s.phase is Idle && s.effects.len() == 0
            ==> s.turn_taken(turn_id) is None,
{
    reveal(SessionStateV::turn_taken);
    let f = crate::session::effects::decision::queued_only();
    let queued = s.queued_decisions();
    if 0 <= k < s.effects.len() && f(s.effects[k]) is Some {
        lemma_gives(s.effects, f, k);
        let j = choose|j: int| 0 <= j < queued.len() && queued[j] == s.effects[k];
        if s.effects[k].trigger() is Some && s.effects[k].trigger()->0.deferred_turn_id() == Some(
            turn_id,
        ) {
            assert(holds_turn(turn_id)(queued[j]));
        }
    }
}

/// A call to a model that goes out takes the tools that are offered and the
/// notices that are due with it. Where the worker runs it, the worker is asked
/// to, with the request as it goes out.
pub proof fn law_a_model_call_is_put_to_its_runner(w: WorkingV, id: Seq<char>)
    requires
        w.state.effect(EffectKind::LlmCall, id) is Some,
    ensures
        ({
            let after = w.dispatch(EffectKind::LlmCall, id);
            let e = after.state.effect(EffectKind::LlmCall, id)->0;
            let call = e.llm()->0;
            let before = w.state.effect(EffectKind::LlmCall, id)->0.llm()->0;
            &&& after.state.has_status(EffectKind::LlmCall, id, EffectStatus::Pending)
            &&& call.request.messages == with_notices(
                before.request.messages,
                w.state.head_notices(),
                !w.state.called_before(id),
            )
            &&& call.handler == before.handler && call.llm == before.llm && call.stream
                == before.stream && call.format == before.format
            &&& after.events[w.events.len() as int] is LlmCallDispatched
            &&& before.handler == LlmHandler::Worker ==> after.events.len() == w.events.len() + 2
                && after.state.trigger(w.ids.id()) == Some(
                TriggerV::LlmExecute {
                    id,
                    request: call.request,
                    format: call.format,
                    defer_tools_strategy: call.defer_tools_strategy,
                    stream: call.stream,
                    attempt: e.tracking.retry.attempts,
                    deadline: e.tracking.deadline,
                },
            )
            &&& before.handler == LlmHandler::Server ==> after.events.len() == w.events.len() + 1
        }),
{
    reveal(WorkingV::dispatch);
    reveal(SessionStateV::dispatch);
    reveal(SessionStateV::execute_trigger);
    let kind = EffectKind::LlmCall;
    lemma_found(w.state, kind, id);
    let event = w.state.dispatch(kind, id)[0];
    let p = event->LlmCallDispatched_0;
    law_a_model_call_goes_out(w.state, p, next_event(w));
    lemma_emit_one(w, event);
    let out = w.emit(event);
    match out.state.execute_trigger(kind, id) {
        Some(trigger) => {
            lemma_asked(out, trigger);
            assert(out.ask(trigger).state.effect(kind, id) == out.state.effect(kind, id));
        },
        None => {},
    }
}

/// A call to a subagent that goes out is out, and nobody is asked.
pub proof fn law_a_child_call_goes_out(w: WorkingV, id: Seq<char>)
    requires
        w.state.effect(EffectKind::Subagent, id) is Some,
    ensures
        ({
            let after = w.dispatch(EffectKind::Subagent, id);
            &&& after.events == w.events.push(
                EventPayloadV::SubagentDispatched(SubagentDispatchedV { id }),
            )
            &&& after.state.has_status(EffectKind::Subagent, id, EffectStatus::Pending)
        }),
{
    reveal(WorkingV::dispatch);
    reveal(SessionStateV::dispatch);
    reveal(SessionStateV::execute_trigger);
    law_work_goes_out(w.state, EffectKind::Subagent, id, next_event(w));
    lemma_emit_one(w, EventPayloadV::SubagentDispatched(SubagentDispatchedV { id }));
}

/// The end of a turn whose time has come completes it, with what was fixed.
pub proof fn law_a_turns_end_completes_it(w: WorkingV, f: FinalizingV, id: Seq<char>)
    requires
        w.state.phase == TurnPhaseV::Finalizing(f),
    ensures
        turn_completed_with(w, w.dispatch(EffectKind::TurnEnd, id), f, None),
{
    reveal(WorkingV::dispatch);
    reveal(SessionStateV::dispatch);
    reveal(SessionStateV::execute_trigger);
    lemma_completes(w, f, None);
}

/// A client's action that makes the worker start work outside any turn opens a
/// turn for it, named after the decision.
pub proof fn law_an_action_opens_a_turn(
    w: WorkingV,
    decision_id: Seq<char>,
    transcript: Seq<DraftMessageV>,
    actions: Seq<ActionV>,
    k: int,
    caller: CallerV,
)
    requires
        caller is System || caller is ApiKey,
        w.state.has_status(EffectKind::Decision, decision_id, EffectStatus::Pending),
        w.state.trigger(decision_id)->0 is ClientAction,
        0 <= k < actions.len(),
        actions[k] is CallLlm || actions[k] is CallTool || actions[k] is SpawnSubagent,
        w.author(decision_id, transcript, None, None).state.phase is Idle,
    ensures
        ({
            let ran = w.submit_decision(
                decision_id,
                transcript,
                actions,
                None,
                None,
                Seq::empty(),
                caller,
            );
            let n = w.author(decision_id, transcript, None, None).events.len() as int;
            &&& ran.r is Ok
            &&& ran.w.events.len() > n
            &&& ran.w.events[n] == EventPayloadV::TurnStarted(
                TurnStartedV { turn_id: "action:"@ + decision_id },
            )
        }),
{
    reveal(WorkingV::submit_decision);
    reveal(WorkingV::action_turn);
    reveal(WorkingV::grows_to);
    assert(working()(actions[k]));
    let authored = w.author(decision_id, transcript, None, None);
    let opened = authored.action_turn(decision_id);
    lemma_leads_actions(opened, actions, decision_id, opened.state.engine());
    let after = opened.apply_actions(actions, decision_id, opened.state.engine());
    let n = authored.events.len() as int;
    assert(after.events.take(opened.events.len() as int)[n] == after.events[n]);
}

/// A search answers, as no error, if it says what to look for. A call that names
/// no tool that can be called is answered with an error.
pub proof fn law_the_engine_answers_searches(s: SessionStateV, id: Seq<char>)
    requires
        s.effect(EffectKind::ToolCall, id) is Some,
    ensures
        ({
            let tool = s.effect(EffectKind::ToolCall, id)->0.tool()->0;
            let answer = s.local_connector_answer(id);
            match tool.target {
                Some(ConnectorTargetV::Find) => answer is Some && answer->0.is_error == (query_of(
                    tool.arguments,
                ) is None) && answer->0.content.len() == 1,
                Some(ConnectorTargetV::Call) => answer is Some && answer->0.is_error
                    && answer->0.content.len() == 1,
                _ => answer is None,
            }
        }),
{
}

} // verus!
