//! What each command says and asks.
use crate::protocol::config::{AgentConfigV, ClientContextV, WorkerStateV};
use crate::protocol::effect::{EffectKind, EffectStatus, RetryPolicy};
use crate::protocol::error::{ErrorCode, ErrorInfoV};
use crate::protocol::identity::{InterruptOrigin, SessionOwnerV, WorkerRefV};
use crate::protocol::json::JsonV;
use crate::protocol::message::{DraftMessageV, Role};
use crate::protocol::wire::{ChannelViewV, ClientPayloadV};
use crate::session::caller::CallerV;
use crate::session::command::{CommandPayloadV, TurnTargetV};
use crate::session::decision::{ActionV, ToolHandler, TriggerV};
use crate::session::error::SessionErrorV;
use crate::session::events::{
    ChannelsUpdatedV, DecisionCompletedV, DecisionDispatchedV, DecisionDroppedV, DecisionErroredV,
    DecisionQueuedV, EventPayloadV, InterruptResumedV, LlmCallErroredV, SessionCreatedV,
    SessionDone, SessionInterruptedV, ToolCallDispatchedV, ToolCallErroredV, TurnCompletedV,
    TurnStartedV,
};
use crate::session::laws::asking::law_work_goes_out;
use crate::session::laws::calls::{
    lemma_told, model_failed, model_failure, next_event, only_happened, tool_failed, tool_failure,
};
use crate::session::laws::failing::law_a_tool_call_fails;
use crate::session::laws::restart::lemma_emits;
use crate::session::laws::settling::{is_last, law_a_model_call_fails};
use crate::session::laws::table::{lemma_asked, lemma_found};
use crate::session::outcome::{OutcomeV, SettleErrorV};
use crate::session::state::{SessionStateV, TurnPhaseV};
use crate::session::working::{lemma_emit_one, WorkingV};
use vstd::prelude::*;

verus! {

/// A command to a session that was created runs as it is; an answer of the
/// worker is taken where its tenant is the session's.
pub proof fn law_a_command_runs(w: WorkingV, cmd: CommandPayloadV, caller: CallerV)
    requires
        w.state.agent_id is Some,
        !(cmd is CreateSession),
    ensures
        !(cmd is SubmitWorkerDecision) ==> w.run_first(cmd, caller) == w.run_command(cmd, caller),
        cmd is SubmitWorkerDecision && w.state.in_tenant(caller) ==> w.run_first(cmd, caller)
            == w.submit_decision(
            cmd->SubmitWorkerDecision_decision_id,
            cmd->SubmitWorkerDecision_transcript,
            cmd->SubmitWorkerDecision_actions,
            cmd->SubmitWorkerDecision_state,
            cmd->SubmitWorkerDecision_agent,
            cmd->SubmitWorkerDecision_channels,
            caller,
        ),
{
    reveal(WorkingV::run_active);
}

/// A session that is created is logged as it was asked for, and the worker is
/// asked to start it. The config it is created with is written at its root.
pub proof fn law_a_session_is_created_as_asked(
    w: WorkingV,
    agent_id: Seq<char>,
    owner: SessionOwnerV,
    ancestry: Seq<Seq<char>>,
    worker_retry: RetryPolicy,
    agent: Option<AgentConfigV>,
    worker: Option<WorkerRefV>,
    caller: CallerV,
)
    requires
        w.state.agent_id is None,
        caller.tenant() == owner.tenant_id,
        !(caller is Frontend),
    ensures
        ({
            let ran = w.run_first(
                CommandPayloadV::CreateSession {
                    agent_id,
                    owner,
                    ancestry,
                    worker_retry,
                    agent,
                    worker,
                },
                caller,
            );
            let n = w.events.len() as int;
            let created = EventPayloadV::SessionCreated(
                SessionCreatedV { agent_id, identity: owner, ancestry, worker_retry, worker },
            );
            let start = EventPayloadV::DecisionQueued(
                DecisionQueuedV { id: w.ids.id(), trigger: TriggerV::SessionStart },
            );
            &&& ran.r is Ok
            &&& ran.w.events.len() >= n + 2
            &&& ran.w.events[n] == created
            &&& ran.w.events.last() == start
            &&& agent is None ==> ran.w.events == w.events.push(created).push(start)
            &&& ran.w.state.trigger(w.ids.id()) == Some(TriggerV::SessionStart)
        }),
{
    reveal(WorkingV::create);
    reveal(SessionStateV::agent_config_events);
    let created = w.emit(
        EventPayloadV::SessionCreated(
            SessionCreatedV { agent_id, identity: owner, ancestry, worker_retry, worker },
        ),
    );
    let more = created.state.agent_config_events(agent);
    lemma_emits(created, more);
    let configured = created.emit_all(more);
    lemma_ids_kept(created, more);
    lemma_asked(configured, TriggerV::SessionStart);
    if agent is None {
        assert(more =~= Seq::empty());
        assert(created.events + more =~= created.events);
    }
}

/// What is emitted takes no names.
pub proof fn lemma_ids_kept(w: WorkingV, events: Seq<EventPayloadV>)
    ensures
        w.emit_all(events).ids == w.ids,
        w.emit_all(events).now == w.now,
    decreases events.len(),
{
    if events.len() > 0 {
        lemma_ids_kept(w, events.drop_last());
    }
}

/// An end user creates sessions for themselves only, and sets neither the
/// agent's config nor where the worker is. Nobody creates one for another
/// tenant.
pub proof fn law_an_end_user_creates_plain_sessions(
    w: WorkingV,
    agent_id: Seq<char>,
    owner: SessionOwnerV,
    ancestry: Seq<Seq<char>>,
    worker_retry: RetryPolicy,
    agent: Option<AgentConfigV>,
    worker: Option<WorkerRefV>,
    caller: CallerV,
)
    requires
        w.state.agent_id is None,
        caller.tenant() != owner.tenant_id || caller is Frontend && (
        owner.requester.subject != Some(caller->Frontend_subject) || agent is Some || worker is Some
            && worker->0.url is Some),
    ensures
        ({
            let ran = w.run_first(
                CommandPayloadV::CreateSession {
                    agent_id,
                    owner,
                    ancestry,
                    worker_retry,
                    agent,
                    worker,
                },
                caller,
            );
            ran.w == w && ran.r == Err::<(), _>(SessionErrorV::SessionAccessDenied)
        }),
{
    reveal(WorkingV::create);
}

/// Who may resume an interrupt is told by who raised it.
pub open spec fn raised_by(caller: CallerV) -> InterruptOrigin {
    match caller {
        CallerV::System { .. } => InterruptOrigin::System,
        CallerV::ApiKey { .. } => InterruptOrigin::Machine,
        CallerV::Frontend { .. } => InterruptOrigin::Frontend,
        CallerV::Operator { .. } => InterruptOrigin::Operator,
    }
}

/// Whoever may speak in a session may stop it, at the node it stands at. One
/// that is stopped there is left alone.
pub proof fn law_an_interrupt_is_raised_as_asked(
    w: WorkingV,
    interrupt_id: Seq<char>,
    reason: Seq<char>,
    payload: JsonV,
    caller: CallerV,
)
    requires
        w.state.in_tenant(caller),
        w.state.owned_by(caller),
    ensures
        ({
            let ran = w.run_command(
                CommandPayloadV::Interrupt { interrupt_id, reason, payload },
                caller,
            );
            let raised = SessionInterruptedV {
                interrupt_id,
                origin: raised_by(caller),
                reason,
                payload,
                anchor: w.state.head_id,
            };
            &&& ran.r is Ok
            &&& w.state.head_parked() ==> ran.w == w
            &&& !w.state.head_parked() ==> ran.w.events.len() > w.events.len()
                && ran.w.events[w.events.len() as int] == EventPayloadV::SessionInterrupted(raised)
        }),
{
    reveal(WorkingV::run_command);
    reveal(WorkingV::raise_interrupt);
    if !w.state.head_parked() {
        let stopped = w.emit(
            EventPayloadV::SessionInterrupted(
                SessionInterruptedV {
                    interrupt_id,
                    origin: raised_by(caller),
                    reason,
                    payload,
                    anchor: w.state.head_id,
                },
            ),
        );
        lemma_emits(
            stopped,
            crate::model::collect(
                stopped.state.effects,
                stopped.state.interrupted_call(w.state.head_id),
            ),
        );
    }
}

/// How much an origin may do.
pub open spec fn privilege(origin: InterruptOrigin) -> int {
    match origin {
        InterruptOrigin::Frontend => 0,
        InterruptOrigin::Machine => 1,
        InterruptOrigin::Operator => 2,
        InterruptOrigin::System => 3,
    }
}

/// Whoever has the privilege resumes an interrupt, with what they say. Where the
/// session stands behind the interrupt the worker is told; elsewhere nobody is.
pub proof fn law_an_interrupt_is_resumed_as_asked(
    w: WorkingV,
    open: SessionInterruptedV,
    payload: JsonV,
    caller: CallerV,
)
    requires
        w.state.in_tenant(caller),
        w.state.owned_by(caller),
        w.state.open_interrupt(open.interrupt_id) == Some(open),
        privilege(raised_by(caller)) >= privilege(open.origin),
    ensures
        ({
            let interrupt_id = open.interrupt_id;
            let ran = w.run_command(
                CommandPayloadV::ResumeInterrupt { interrupt_id, payload },
                caller,
            );
            &&& ran.r is Ok
            &&& only_happened(
                w,
                ran.w,
                EventPayloadV::InterruptResumed(InterruptResumedV { interrupt_id, payload }),
                if w.state.on_path(w.state.head_id, open.anchor) {
                    Some(TriggerV::InterruptResumed { interrupt_id, payload })
                } else {
                    None
                },
            )
        }),
{
    reveal(WorkingV::run_command);
    reveal(WorkingV::resume_interrupt);
    let interrupt_id = open.interrupt_id;
    let resumed = w.emit(
        EventPayloadV::InterruptResumed(InterruptResumedV { interrupt_id, payload }),
    );
    if w.state.on_path(w.state.head_id, open.anchor) {
        lemma_asked(resumed, TriggerV::InterruptResumed { interrupt_id, payload });
    }
}

/// A turn of its own starts where none runs. One that is being finished
/// completes first. A turn that ran, or one that runs or waits, is not started
/// again, and none starts beside one that runs.
pub proof fn law_a_turn_is_opened_once(w: WorkingV, turn_id: Seq<char>)
    ensures
        ({
            let ran = w.begin_turn(TurnTargetV::Open(turn_id));
            let started = EventPayloadV::TurnStarted(TurnStartedV { turn_id });
            let ran_before = w.state.completed_turn_ids.contains(turn_id);
            &&& ran_before ==> ran.w == w && ran.r == Err::<(), _>(
                SessionErrorV::TurnAlreadyCompleted { turn_id },
            )
            &&& w.state.phase is Active && !ran_before ==> ran.w == w && ran.r is Err
                && ran.r->Err_0 is TurnAlreadyActive
            &&& ran.r is Ok && w.state.phase is Idle ==> ran.w.events == w.events.push(started)
            &&& ran.r is Ok && w.state.phase is Finalizing ==> ({
                let f = w.state.phase->Finalizing_0;
                ran.w.events == w.events.push(
                    EventPayloadV::TurnCompleted(
                        TurnCompletedV {
                            turn_id: f.turn_id,
                            data: f.data,
                            turn_cost: f.cost,
                            turn_token_usage: f.usage,
                            error: None,
                        },
                    ),
                ).push(EventPayloadV::SessionDone(SessionDone {  })).push(started)
            })
            &&& ran.r is Ok ==> ran.w.state.phase == (TurnPhaseV::Active { turn_id })
        }),
{
    reveal(WorkingV::begin_turn);
    reveal(SessionStateV::turn_taken);
    reveal(SessionStateV::apply);
    if let TurnPhaseV::Finalizing(f) = w.state.phase {
        crate::session::laws::turns::lemma_completes(w, f, None);
    }
}

/// An input for the turn that runs starts none; an input for no turn does not
/// either.
pub proof fn law_a_turn_goes_on(w: WorkingV, turn_id: Seq<char>)
    ensures
        w.begin_turn(TurnTargetV::Detached).w == w,
        w.begin_turn(TurnTargetV::Detached).r is Ok,
        w.state.phase is Active ==> w.begin_turn(TurnTargetV::Continue(turn_id)).w == w
            && w.begin_turn(TurnTargetV::Continue(turn_id)).r is Ok,
        !(w.state.phase is Active) ==> w.begin_turn(TurnTargetV::Continue(turn_id))
            == w.begin_turn(TurnTargetV::Open(turn_id)),
{
    reveal(WorkingV::begin_turn);
}

/// A message that the engine sends in puts a user's words to the worker. A
/// session that is stopped refuses them.
pub proof fn law_a_message_is_put_to_the_worker(
    w: WorkingV,
    message: DraftMessageV,
    stream: bool,
    parent_id: Option<Seq<char>>,
    caller: CallerV,
)
    requires
        w.state.in_tenant(caller),
        caller is System,
        message.role == Role::User,
    ensures
        ({
            let ran = w.run_command(
                CommandPayloadV::SendMessage { message, stream, turn_id: None, parent_id },
                caller,
            );
            &&& w.state.head_parked() ==> ran.w == w && ran.r == Err::<(), _>(
                SessionErrorV::SessionInterrupted,
            )
            &&& !w.state.head_parked() ==> ran.r is Ok && ran.w.events == w.events.push(
                EventPayloadV::DecisionQueued(
                    DecisionQueuedV {
                        id: w.ids.id(),
                        trigger: TriggerV::ClientMessage {
                            messages: seq![message],
                            client: ClientContextV::empty(),
                            turn_id: None,
                        },
                    },
                ),
            )
        }),
{
    reveal(WorkingV::run_command);
    reveal(WorkingV::send);
    reveal(WorkingV::begin_turn);
    lemma_asked(
        w,
        TriggerV::ClientMessage {
            messages: seq![message],
            client: ClientContextV::empty(),
            turn_id: None,
        },
    );
}

/// A client's words and a client's action are put to the worker as they were
/// said. A session that could not be started is started again first.
pub proof fn law_a_client_is_put_to_the_worker(
    s: SessionStateV,
    payload: ClientPayloadV,
    caller: CallerV,
    deferred: Option<Seq<char>>,
    ids: crate::session::ids::IdsV,
)
    requires
        !(payload is Messages),
        !s.head_parked(),
    ensures
        ({
            let r = s.client_payload(payload, caller, deferred, ids);
            let events = r->Ok_0.events;
            &&& r is Ok
            &&& events.len() == if s.session_start_failed {
                2
            } else {
                1int
            }
            &&& s.session_start_failed ==> events[0] == EventPayloadV::DecisionQueued(
                DecisionQueuedV { id: ids.id(), trigger: TriggerV::SessionStart },
            )
            &&& events.last() is DecisionQueued
            &&& events.last()->DecisionQueued_0.trigger == match payload {
                ClientPayloadV::Message(m) => TriggerV::ClientMessage {
                    messages: seq![m.message],
                    client: ClientContextV::empty(),
                    turn_id: deferred,
                },
                ClientPayloadV::Append(a) => TriggerV::ClientMessage {
                    messages: a.messages,
                    client: a.client,
                    turn_id: deferred,
                },
                ClientPayloadV::Action(a) => TriggerV::ClientAction { name: a.name, args: a.args },
                ClientPayloadV::Messages(_) => arbitrary(),
            }
        }),
{
    reveal(SessionStateV::client_payload);
}

/// A session that is stopped takes no words of a user, but it takes actions.
pub proof fn law_a_stopped_session_takes_no_words(
    s: SessionStateV,
    payload: ClientPayloadV,
    caller: CallerV,
    deferred: Option<Seq<char>>,
    ids: crate::session::ids::IdsV,
)
    requires
        s.head_parked(),
    ensures
        match payload {
            ClientPayloadV::Message(m) => m.message.role == Role::User ==> s.client_payload(
                payload,
                caller,
                deferred,
                ids,
            ) == Err::<crate::session::outcome::Batch, _>(SessionErrorV::SessionInterrupted),
            ClientPayloadV::Append(a) => (exists|i: int|
                0 <= i < a.messages.len() && (#[trigger] a.messages[i]).role == Role::User)
                ==> s.client_payload(payload, caller, deferred, ids) == Err::<
                crate::session::outcome::Batch,
                _,
            >(SessionErrorV::SessionInterrupted),
            ClientPayloadV::Action(_) => s.client_payload(payload, caller, deferred, ids) is Ok,
            ClientPayloadV::Messages(_) => true,
        },
{
    reveal(SessionStateV::client_payload);
    if let ClientPayloadV::Append(a) = payload {
        if exists|i: int|
            0 <= i < a.messages.len() && (#[trigger] a.messages[i]).role == Role::User {
            let i = choose|i: int|
                0 <= i < a.messages.len() && (#[trigger] a.messages[i]).role == Role::User;
            assert(crate::session::transcript::by_user()(a.messages[i]));
        }
    }
}

/// A worker's answer is logged first. What it shows on channels is logged with
/// whether it ends the turn, before its actions run.
pub proof fn law_an_answer_is_logged_first(
    w: WorkingV,
    decision_id: Seq<char>,
    transcript: Seq<DraftMessageV>,
    state: Option<WorkerStateV>,
    agent: Option<AgentConfigV>,
    channels: Seq<ChannelViewV>,
    caller: CallerV,
)
    requires
        caller is System || caller is ApiKey,
        w.state.has_status(EffectKind::Decision, decision_id, EffectStatus::Pending),
    ensures
        ({
            let ran = w.submit_decision(
                decision_id,
                transcript,
                Seq::empty(),
                state,
                agent,
                channels,
                caller,
            );
            &&& ran.r is Ok
            &&& ran.w.events.len() > w.events.len()
            &&& ran.w.events[w.events.len() as int] == EventPayloadV::DecisionCompleted(
                DecisionCompletedV { id: decision_id },
            )
            &&& channels.len() > 0 ==> ran.w.events.last() == EventPayloadV::ChannelsUpdated(
                ChannelsUpdatedV {
                    decision_id,
                    finishes_turn: w.state.trigger(decision_id)->0 is TurnFinished,
                    channels,
                },
            )
        }),
{
    reveal(WorkingV::submit_decision);
    reveal(WorkingV::author);
    let answered = w.emit(
        EventPayloadV::DecisionCompleted(DecisionCompletedV { id: decision_id }),
    );
    let batch = answered.state.reconcile_transcript(transcript, answered.ids);
    let ready = WorkingV { ids: batch.ids, ..answered };
    lemma_emits(ready, batch.events);
    let seen = answered.emit_batch(batch);
    let voids = seen.state.void_stranded_work(seen.state.head_id);
    lemma_emits(seen, voids);
    let cleared = seen.emit_all(voids);
    let states = cleared.state.worker_state_events(state);
    lemma_emits(cleared, states);
    let stated = cleared.emit_all(states);
    lemma_emits(stated, stated.state.agent_config_events(agent));
    assert(!crate::model::any(
        Seq::<ActionV>::empty(),
        crate::session::run::answers::working(),
    ));
}

/// A state that the worker writes is logged at the node the session stands at,
/// unless it is the one in force.
pub proof fn law_a_new_state_is_logged(s: SessionStateV, state: WorkerStateV)
    ensures
        ({
            let events = s.worker_state_events(Some(state));
            &&& state.equals(s.state_for(s.head_id)) ==> events.len() == 0
            &&& !state.equals(s.state_for(s.head_id)) ==> events == seq![
                EventPayloadV::WorkerStateUpdated(
                    crate::session::events::WorkerStateUpdatedV { state, anchor: s.head_id },
                ),
            ]
        }),
        s.worker_state_events(None).len() == 0,
{
    reveal(SessionStateV::worker_state_events);
}

/// A config that the worker writes is logged last, at the node the session
/// stands at, unless it is the one in force.
pub proof fn law_a_new_config_is_logged(s: SessionStateV, config: AgentConfigV)
    ensures
        ({
            let events = s.agent_config_events(Some(config));
            let current = s.agent_for(s.head_id);
            let same = current is Some && config.equals(current->0);
            &&& same ==> events.len() == 0
            &&& !same ==> events.len() > 0 && events.last() == EventPayloadV::AgentConfigUpdated(
                crate::session::events::AgentConfigUpdatedV { config, anchor: s.head_id },
            )
        }),
        s.agent_config_events(None).len() == 0,
{
    reveal(SessionStateV::agent_config_events);
}

/// Work that ran out fails with that reason. It may be tried again, unless all
/// its attempts together ran out.
pub proof fn law_work_that_ran_out_fails(w: WorkingV, kind: EffectKind, id: Seq<char>)
    requires
        kind == EffectKind::ToolCall || kind == EffectKind::LlmCall,
        w.state.effect(kind, id) is Some,
    ensures
        ({
            let after = w.time_out(kind, id);
            let t = w.state.tracking(kind, id)->0;
            let retryable = t.total_deadline is None || w.plan_now < t.total_deadline->0;
            let error = ErrorInfoV {
                message: "deadline exceeded"@,
                code: ErrorCode::DeadlineExceeded,
                param: None,
                detail: None,
            };
            &&& kind == EffectKind::ToolCall ==> tool_failed(w, after, id, error, retryable, None)
            &&& kind == EffectKind::LlmCall ==> model_failed(w, after, id, error, retryable)
        }),
{
    reveal(WorkingV::time_out);
    reveal(SessionStateV::settle);
    lemma_found(w.state, kind, id);
    let t = w.state.tracking(kind, id)->0;
    let retryable = t.total_deadline is None || w.plan_now < t.total_deadline->0;
    let error = ErrorInfoV {
        message: "deadline exceeded"@,
        code: ErrorCode::DeadlineExceeded,
        param: None,
        detail: None,
    };
    if kind == EffectKind::ToolCall {
        let p = ToolCallErroredV { id, error, retryable, auth: None };
        law_a_tool_call_fails(w.state, p, Seq::empty(), next_event(w));
        lemma_told(
            w,
            EventPayloadV::ToolCallErrored(p),
            if is_last(t, retryable) {
                Some(tool_failure(w, id, error))
            } else {
                None
            },
            kind,
            id,
        );
    } else {
        let p = LlmCallErroredV { id, error, retryable };
        law_a_model_call_fails(w.state, p, next_event(w));
        lemma_told(
            w,
            EventPayloadV::LlmCallErrored(p),
            if is_last(t, retryable) {
                Some(model_failure(id, error))
            } else {
                None
            },
            kind,
            id,
        );
    }
}

/// A tool call that goes out is out. Where the worker runs it, the worker is
/// asked to, with the attempt and its deadline; nobody else is asked.
pub proof fn law_a_tool_call_is_put_to_its_runner(w: WorkingV, id: Seq<char>)
    requires
        w.state.effect(EffectKind::ToolCall, id) is Some,
    ensures
        ({
            let after = w.dispatch(EffectKind::ToolCall, id);
            let tool = w.state.effect(EffectKind::ToolCall, id)->0.tool()->0;
            let t = after.state.tracking(EffectKind::ToolCall, id)->0;
            &&& after.state.has_status(EffectKind::ToolCall, id, EffectStatus::Pending)
            &&& only_happened(
                w,
                after,
                EventPayloadV::ToolCallDispatched(ToolCallDispatchedV { id }),
                if tool.handler == ToolHandler::Worker {
                    Some(
                        TriggerV::ToolExecute {
                            id,
                            name: tool.name,
                            arguments: tool.arguments,
                            attempt: t.retry.attempts,
                            deadline: t.deadline,
                        },
                    )
                } else {
                    None
                },
            )
        }),
{
    reveal(WorkingV::dispatch);
    reveal(SessionStateV::dispatch);
    reveal(SessionStateV::execute_trigger);
    let kind = EffectKind::ToolCall;
    let event = EventPayloadV::ToolCallDispatched(ToolCallDispatchedV { id });
    law_work_goes_out(w.state, kind, id, next_event(w));
    lemma_emit_one(w, event);
    let out = w.emit(event);
    match out.state.execute_trigger(kind, id) {
        Some(trigger) => {
            lemma_asked(out, trigger);
            assert(out.ask(trigger).state.effect(kind, id) == out.state.effect(kind, id));
        },
        None => {},
    }
}

/// A decision that is put to the worker starts the turn it holds, if it holds
/// one. A decision of a turn that ran before is dropped.
pub proof fn law_a_decision_starts_its_turn(s: SessionStateV, id: Seq<char>, trigger: TriggerV)
    requires
        s.trigger(id) == Some(trigger),
    ensures
        ({
            let events = s.dispatch(EffectKind::Decision, id);
            let out = EventPayloadV::DecisionDispatched(DecisionDispatchedV { id });
            let turn = match trigger {
                TriggerV::ClientMessage { turn_id, .. } => turn_id,
                TriggerV::SubagentNotice { turn_id, .. } => Some(turn_id),
                _ => None,
            };
            match turn {
                None => events == seq![out],
                Some(turn_id) => if s.completed_turn_ids.contains(turn_id) {
                    events == seq![EventPayloadV::DecisionDropped(DecisionDroppedV { id })]
                } else {
                    events == seq![EventPayloadV::TurnStarted(TurnStartedV { turn_id }), out]
                },
            }
        }),
{
    reveal(SessionStateV::dispatch);
}

/// A decision that fails for good ends the run, with the reason; but that of a
/// client's action ends nothing. One that can be tried again ends nothing
/// either.
pub proof fn law_a_lost_decision_ends_the_run(
    w: WorkingV,
    id: Seq<char>,
    attempt: Option<u32>,
    e: SettleErrorV,
    turn_id: Seq<char>,
    caller: CallerV,
)
    requires
        w.state.in_tenant(caller),
        caller is System || caller is ApiKey,
        w.state.has_status(EffectKind::Decision, id, EffectStatus::Pending),
        w.state.phase == (TurnPhaseV::Active { turn_id }),
    ensures
        ({
            let ran = w.run_command(
                CommandPayloadV::SettleEffect {
                    kind: EffectKind::Decision,
                    id,
                    attempt,
                    outcome: OutcomeV::Error(e),
                },
                caller,
            );
            let errored = EventPayloadV::DecisionErrored(
                DecisionErroredV { id, error: e.error, retryable: e.retryable },
            );
            let ends = is_last(w.state.tracking(EffectKind::Decision, id)->0, e.retryable)
                && !(w.state.trigger(id)->0 is ClientAction);
            let n = ran.w.events.len() as int;
            &&& ran.r is Ok
            &&& n > w.events.len()
            &&& ran.w.events[w.events.len() as int] == errored
            &&& !ends ==> ran.w.events == w.events.push(errored)
            &&& ends ==> n >= w.events.len() + 3 && ran.w.events[n - 1]
                == EventPayloadV::SessionDone(SessionDone {  }) && ran.w.events[n - 2]
                is TurnCompleted && ran.w.events[n - 2]->TurnCompleted_0.turn_id == turn_id
                && ran.w.events[n - 2]->TurnCompleted_0.error == Some(e.error)
        }),
{
    reveal(WorkingV::run_command);
    reveal(WorkingV::settle_effect);
    reveal(SessionStateV::authorize);
    reveal(SessionStateV::resolve);
    reveal(SessionStateV::settle);
    reveal(SessionStateV::fail_run);
    lemma_found(w.state, EffectKind::Decision, id);
    let events = w.state.settle(EffectKind::Decision, id, OutcomeV::Error(e), w.ids).events;
    lemma_emits(w, events);
    let errored = EventPayloadV::DecisionErrored(
        DecisionErroredV { id, error: e.error, retryable: e.retryable },
    );
    assert(events[0] == errored);
    if events.len() == 1 {
        assert(w.events + events =~= w.events.push(errored));
    }
}

/// A waking clock sets what the schedule goes by, and nothing else.
pub proof fn law_a_clock_wakes_the_schedule(w: WorkingV, now: i128, caller: CallerV)
    requires
        w.state.in_tenant(caller),
        caller is System,
    ensures
        ({
            let ran = w.run_command(CommandPayloadV::Wake { now }, caller);
            ran.r is Ok && ran.w == (WorkingV { plan_now: now, ..w })
        }),
{
    reveal(WorkingV::run_command);
}

} // verus!
