//! What a command does happens in order.
use crate::model::{any, collect};
use crate::protocol::config::{AgentConfigV, WorkerStateV};
use crate::protocol::effect::{EffectKind, EffectStatus, RetryPolicy};
use crate::protocol::error::ErrorInfoV;
use crate::protocol::identity::{InterruptOrigin, SessionOwnerV, WorkerRefV};
use crate::protocol::json::JsonV;
use crate::protocol::llm::UsageV;
use crate::protocol::message::DraftMessageV;
use crate::protocol::wire::{by_channel, ChannelViewV, ClientPayloadV};
use crate::session::caller::CallerV;
use crate::session::command::{valid_config, CommandPayloadV, TurnTargetV};
use crate::session::decision::{ActionV, TriggerV};
use crate::session::effects::llm::LlmAskV;
use crate::session::effects::subagent::{answered_turn, SpawnV};
use crate::session::events::{
    ChannelsUpdatedV, DecisionCompletedV, EventPayloadV, InterruptResumedV, SessionCreatedV,
    SessionInterruptedV, SubagentTurnCompletedV, TurnStartedV,
};
use crate::session::history::batches::{
    lemma_agent_config_calm, lemma_client_payload_calm, lemma_detached_result_calm,
    lemma_request_llm_calm, lemma_request_subagent_calm, lemma_request_tool_calm,
    lemma_stranded_calm, lemma_transcript_calm, lemma_void_calm, lemma_worker_state_calm,
};
use crate::session::history::steps::{
    lemma_grows_scheduled, lemma_leads_ask, lemma_leads_fail_run, lemma_leads_finalize,
    lemma_leads_settle,
};
use crate::session::history::{
    lemma_calm_collected, lemma_grows_emit, lemma_grows_on, lemma_leads_batch, lemma_leads_calm,
    lemma_leads_emit, lemma_leads_on, lemma_leads_same,
};
use crate::session::outcome::{OutcomeV, SettleErrorV};
use crate::session::run::answers::working;
use crate::session::run::interrupts::given_up;
use crate::session::run::restart::{lost, orphaned};
use crate::session::state::{SessionStateV, TurnPhaseV};
use crate::session::working::{lemma_emit_one, WorkingV};
use rust_decimal::Decimal;
use vstd::prelude::*;

verus! {

pub proof fn lemma_leads_settle_effect(
    w: WorkingV,
    kind: EffectKind,
    id: Seq<char>,
    attempt: Option<u32>,
    outcome: OutcomeV,
    caller: CallerV,
)
    ensures
        w.leads_to(w.settle_effect(kind, id, attempt, outcome, caller).w),
{
    reveal(WorkingV::settle_effect);
    lemma_leads_same(w, w);
    lemma_leads_settle(w, kind, id, outcome);
}

proof fn lemma_leads_open_turn(w: WorkingV, turn_id: Seq<char>)
    ensures
        w.leads_to(w.open_turn(turn_id).w),
{
    let started = EventPayloadV::TurnStarted(TurnStartedV { turn_id });
    lemma_leads_same(w, w);
    match w.state.phase {
        TurnPhaseV::Finalizing(_) => {
            let ended = w.emit_all(w.state.finalize_run(None));
            lemma_leads_finalize(w, None);
            lemma_leads_emit(ended, started);
            lemma_leads_on(w, ended, ended.emit(started));
        },
        TurnPhaseV::Idle => {
            lemma_leads_emit(w, started);
        },
        _ => {},
    }
}

proof fn lemma_leads_begin_turn(w: WorkingV, target: TurnTargetV)
    ensures
        w.leads_to(w.begin_turn(target).w),
{
    reveal(WorkingV::begin_turn);
    lemma_leads_same(w, w);
    match target {
        TurnTargetV::Detached => {},
        TurnTargetV::Continue(turn_id) => lemma_leads_open_turn(w, turn_id),
        TurnTargetV::Open(turn_id) => lemma_leads_open_turn(w, turn_id),
    }
}

proof fn lemma_leads_submit(
    w: WorkingV,
    payload: ClientPayloadV,
    turn: TurnTargetV,
    queue: bool,
    caller: CallerV,
)
    ensures
        w.leads_to(w.submit(payload, turn, queue, caller).w),
{
    reveal(WorkingV::submit);
    lemma_leads_same(w, w);
    match w.state.deferred_turn(turn, queue, payload) {
        Ok(deferred) => {
            let begun = if deferred is None {
                w.begin_turn(turn)
            } else {
                w.fine()
            };
            lemma_leads_begin_turn(w, turn);
            lemma_client_payload_calm(begun.w.state, payload, caller, deferred, begun.w.ids);
            match begun.w.state.client_payload(payload, caller, deferred, begun.w.ids) {
                Ok(batch) => {
                    lemma_leads_batch(begun.w, batch);
                    lemma_leads_on(w, begun.w, begun.w.emit_batch(batch));
                },
                Err(_) => {},
            }
        },
        Err(_) => {},
    }
}

proof fn lemma_leads_send(
    w: WorkingV,
    message: DraftMessageV,
    turn_id: Option<Seq<char>>,
    caller: CallerV,
)
    ensures
        w.leads_to(w.send(message, turn_id, caller).w),
{
    reveal(WorkingV::send);
    lemma_leads_same(w, w);
    let target = match turn_id {
        Some(turn_id) => TurnTargetV::Open(turn_id),
        None => TurnTargetV::Detached,
    };
    lemma_leads_begin_turn(w, target);
    let begun = w.begin_turn(target).w;
    let trigger = TriggerV::ClientMessage {
        messages: seq![message],
        client: crate::protocol::config::ClientContextV::empty(),
        turn_id: None,
    };
    lemma_leads_ask(begun, trigger);
    lemma_leads_on(w, begun, begun.ask(trigger));
}

proof fn lemma_leads_complete_subagent_turn(
    w: WorkingV,
    session_id: Seq<char>,
    turn_id: Seq<char>,
    data: JsonV,
    cost: Decimal,
    token_usage: UsageV,
    error: Option<ErrorInfoV>,
    caller: CallerV,
)
    ensures
        w.leads_to(
            w.complete_subagent_turn(
                session_id,
                turn_id,
                data,
                cost,
                token_usage,
                error,
                caller,
            ).w,
        ),
{
    reveal(WorkingV::complete_subagent_turn);
    lemma_leads_same(w, w);
    match w.state.subagent_awaiting(session_id) {
        Some(e) => match error {
            Some(error) => lemma_leads_settle_effect(
                w,
                EffectKind::Subagent,
                e.id,
                None,
                OutcomeV::Error(SettleErrorV::new(error, false)),
                caller,
            ),
            None => lemma_leads_batch(
                w,
                answered_turn(
                    e.id,
                    session_id,
                    e.subagent()->0.agent_id,
                    data,
                    cost,
                    token_usage,
                    w.ids,
                ),
            ),
        },
        None => match w.state.subagent_detached(session_id) {
            Some(e) => {
                let completed = SubagentTurnCompletedV {
                    id: e.id,
                    cost,
                    token_usage,
                    data,
                    turn_id: Some(turn_id),
                    error,
                };
                let agent_id = e.subagent()->0.agent_id;
                lemma_detached_result_calm(w, session_id, agent_id, completed);
                lemma_leads_batch(w, w.detached_result(session_id, agent_id, completed));
            },
            None => {},
        },
    }
}

proof fn lemma_leads_raise(
    w: WorkingV,
    origin: InterruptOrigin,
    interrupt_id: Seq<char>,
    reason: Seq<char>,
    payload: JsonV,
)
    ensures
        w.leads_to(w.raise_interrupt(origin, interrupt_id, reason, payload)),
{
    reveal(WorkingV::raise_interrupt);
    lemma_leads_same(w, w);
    if !w.state.head_parked() {
        let anchor = w.state.head_id;
        let event = EventPayloadV::SessionInterrupted(
            SessionInterruptedV { interrupt_id, origin, reason, payload, anchor },
        );
        let stopped = w.emit(event);
        let voided = collect(stopped.state.effects, stopped.state.interrupted_call(anchor));
        lemma_leads_emit(w, event);
        lemma_calm_collected(stopped.state.effects, stopped.state.interrupted_call(anchor));
        lemma_leads_calm(stopped, voided);
        lemma_leads_on(w, stopped, stopped.emit_all(voided));
    }
}

proof fn lemma_leads_resume(
    w: WorkingV,
    interrupt_id: Seq<char>,
    payload: JsonV,
    caller: CallerV,
)
    ensures
        w.leads_to(w.resume_interrupt(interrupt_id, payload, caller).w),
{
    reveal(WorkingV::resume_interrupt);
    lemma_leads_same(w, w);
    if w.state.open_interrupt(interrupt_id) is Some {
        let event = EventPayloadV::InterruptResumed(InterruptResumedV { interrupt_id, payload });
        let trigger = TriggerV::InterruptResumed { interrupt_id, payload };
        let resumed = w.emit(event);
        lemma_leads_emit(w, event);
        lemma_leads_ask(resumed, trigger);
        lemma_leads_on(w, resumed, resumed.ask(trigger));
    }
}

proof fn lemma_leads_cancel(w: WorkingV, caller: CallerV)
    ensures
        w.leads_to(w.cancel(caller).w),
{
    reveal(WorkingV::cancel);
    lemma_leads_same(w, w);
    if !(w.state.status is Done) {
        let cancelled = w.emit(EventPayloadV::SessionCancelled);
        let voided = cancelled.state.void_effects(given_up());
        lemma_leads_emit(w, EventPayloadV::SessionCancelled);
        lemma_void_calm(cancelled.state, given_up());
        lemma_leads_calm(cancelled, voided);
        lemma_leads_on(w, cancelled, cancelled.emit_all(voided));
    }
}

proof fn lemma_leads_finish_turn(w: WorkingV, data: JsonV)
    ensures
        w.leads_to(w.emit_batch(w.state.finish_turn(data, w.ids))),
{
    reveal(SessionStateV::finish_turn);
    let batch = w.state.finish_turn(data, w.ids);
    match w.state.phase {
        TurnPhaseV::Active { turn_id } => {
            let named = WorkingV { ids: batch.ids, ..w };
            let event = batch.events[0];
            assert(batch.events =~= seq![event]);
            lemma_leads_same(w, named);
            lemma_emit_one(named, event);
            lemma_leads_emit(named, event);
            lemma_leads_on(w, named, named.emit(event));
        },
        _ => lemma_leads_batch(w, batch),
    }
}

proof fn lemma_leads_lose(w: WorkingV, kind: EffectKind, id: Seq<char>)
    ensures
        w.leads_to(w.lose(kind, id)),
{
    reveal(WorkingV::lose);
    lemma_leads_settle(w, kind, id, lost());
}

proof fn lemma_leads_lose_decisions(w: WorkingV, pending: Seq<(Seq<char>, bool)>)
    ensures
        w.leads_to(w.lose_decisions(pending).0),
    decreases pending.len(),
{
    lemma_leads_same(w, w);
    if pending.len() > 0 {
        let after = w.lose(EffectKind::Decision, pending[0].0);
        lemma_leads_lose(w, EffectKind::Decision, pending[0].0);
        lemma_leads_lose_decisions(after, pending.drop_first());
        lemma_leads_on(w, after, after.lose_decisions(pending.drop_first()).0);
    }
}

proof fn lemma_leads_lose_calls(w: WorkingV, ids: Seq<Seq<char>>)
    ensures
        w.leads_to(w.lose_calls(ids)),
    decreases ids.len(),
{
    lemma_leads_same(w, w);
    if ids.len() > 0 {
        let before = w.lose_calls(ids.drop_last());
        lemma_leads_lose_calls(w, ids.drop_last());
        lemma_leads_lose(before, EffectKind::LlmCall, ids.last());
        lemma_leads_on(w, before, before.lose(EffectKind::LlmCall, ids.last()));
    }
}

proof fn lemma_leads_reconcile(w: WorkingV)
    ensures
        w.leads_to(w.reconcile_dispatch()),
{
    reveal(WorkingV::reconcile_dispatch);
    let decided = w.lose_decisions(w.state.pending_decisions()).0;
    let calls = collect(decided.state.effects, orphaned());
    lemma_leads_lose_decisions(w, w.state.pending_decisions());
    lemma_leads_lose_calls(decided, calls);
    lemma_leads_on(w, decided, decided.lose_calls(calls));
}

pub proof fn lemma_leads_command(w: WorkingV, cmd: CommandPayloadV, caller: CallerV)
    ensures
        w.leads_to(w.run_command(cmd, caller).w),
{
    reveal(WorkingV::run_command);
    lemma_leads_same(w, w);
    match cmd {
        CommandPayloadV::SubmitClientPayload { payload, turn, queue } => lemma_leads_submit(
            w,
            payload,
            turn,
            queue,
            caller,
        ),
        CommandPayloadV::SendMessage { message, turn_id, .. } => lemma_leads_send(
            w,
            message,
            turn_id,
            caller,
        ),
        CommandPayloadV::RequestLlmCall {
            call_id,
            llm,
            request,
            stream,
            retry,
            handler,
            format,
        } => {
            let ask = LlmAskV { call_id, llm, request, stream, retry, handler, format };
            lemma_request_llm_calm(w.state, ask);
            lemma_leads_calm(w, w.state.request_llm(ask));
        },
        CommandPayloadV::SettleEffect { kind, id, attempt, outcome } => lemma_leads_settle_effect(
            w,
            kind,
            id,
            attempt,
            outcome,
            caller,
        ),
        CommandPayloadV::RequestToolCall { tool_call_id, name, arguments, retry } => {
            lemma_request_tool_calm(w.state, tool_call_id, name, arguments, retry);
            lemma_leads_calm(w, w.state.request_tool(tool_call_id, name, arguments, retry));
        },
        CommandPayloadV::RequestSubagent {
            session_id,
            agent_id,
            tool_call_id,
            message,
            retry,
            decision_id,
            mode,
        } => {
            let spawn = SpawnV {
                tool_call_id,
                agent_id,
                session_id,
                message,
                retry,
                decision_id,
                mode,
            };
            lemma_request_subagent_calm(w.state, spawn, w.ids);
            lemma_leads_batch(w, w.state.request_subagent(spawn, w.ids));
        },
        CommandPayloadV::CompleteSubagentTurn {
            session_id,
            turn_id,
            data,
            cost,
            token_usage,
            error,
            ..
        } => lemma_leads_complete_subagent_turn(
            w,
            session_id,
            turn_id,
            data,
            cost,
            token_usage,
            error,
            caller,
        ),
        CommandPayloadV::Interrupt { interrupt_id, reason, payload } => lemma_leads_raise(
            w,
            caller.origin(),
            interrupt_id,
            reason,
            payload,
        ),
        CommandPayloadV::ResumeInterrupt { interrupt_id, payload } => lemma_leads_resume(
            w,
            interrupt_id,
            payload,
            caller,
        ),
        CommandPayloadV::CancelSession => lemma_leads_cancel(w, caller),
        CommandPayloadV::FinishTurn { data } => lemma_leads_finish_turn(w, data),
        CommandPayloadV::CompleteTurn => lemma_leads_finalize(w, None),
        CommandPayloadV::Wake { now } => lemma_leads_same(w, WorkingV { plan_now: now, ..w }),
        CommandPayloadV::ReconcileDispatch => lemma_leads_reconcile(w),
        _ => {},
    }
}

proof fn lemma_leads_action(
    w: WorkingV,
    action: ActionV,
    decision_id: Seq<char>,
    engine: CallerV,
)
    ensures
        w.leads_to(w.apply_action(action, decision_id, engine)),
{
    reveal(WorkingV::apply_action);
    lemma_leads_same(w, w);
    let after = w.apply_action(action, decision_id, engine);
    match action {
        ActionV::SendMessage { .. } => {
            lemma_leads_emit(w, after.events.last());
        },
        ActionV::Interrupt { interrupt_id, reason, payload } => lemma_leads_raise(
            w,
            InterruptOrigin::Frontend,
            interrupt_id,
            reason,
            payload,
        ),
        ActionV::ResolveInterrupt { interrupt_id, payload } => lemma_leads_command(
            w,
            CommandPayloadV::ResumeInterrupt { interrupt_id, payload },
            engine,
        ),
        ActionV::SyncConnector { path } => {
            if w.state.may_fetch_again(path) {
                lemma_leads_emit(w, after.events.last());
            }
        },
        ActionV::Done { data } => {
            lemma_leads_command(w, CommandPayloadV::CompleteTurn, engine);
            lemma_leads_command(w, CommandPayloadV::FinishTurn { data }, engine);
        },
        ActionV::Fail { error } => {
            lemma_leads_fail_run(w, Seq::empty(), w.state, error);
            assert(Seq::empty() + w.state.fail_run(error) =~= w.state.fail_run(error));
        },
        _ => match action.command(decision_id) {
            Some(cmd) => lemma_leads_command(w, cmd, engine),
            None => {},
        },
    }
}

pub proof fn lemma_leads_actions(
    w: WorkingV,
    actions: Seq<ActionV>,
    decision_id: Seq<char>,
    engine: CallerV,
)
    ensures
        w.leads_to(w.apply_actions(actions, decision_id, engine)),
    decreases actions.len(),
{
    lemma_leads_same(w, w);
    if actions.len() > 0 {
        let before = w.apply_actions(actions.drop_last(), decision_id, engine);
        lemma_leads_actions(w, actions.drop_last(), decision_id, engine);
        lemma_leads_action(before, actions.last(), decision_id, engine);
        lemma_leads_on(w, before, before.apply_action(actions.last(), decision_id, engine));
    }
}

/// What an answer writes, once it is taken.
proof fn lemma_leads_authored(
    w: WorkingV,
    decision_id: Seq<char>,
    transcript: Seq<DraftMessageV>,
    state: Option<WorkerStateV>,
    agent: Option<AgentConfigV>,
)
    requires
        valid_config(agent),
    ensures
        w.emit(
            EventPayloadV::DecisionCompleted(DecisionCompletedV { id: decision_id }),
        ).leads_to(w.author(decision_id, transcript, state, agent)),
{
    reveal(WorkingV::author);
    let event = EventPayloadV::DecisionCompleted(DecisionCompletedV { id: decision_id });
    let answered = w.emit(event);
    let read = answered.state.reconcile_transcript(transcript, answered.ids);
    lemma_transcript_calm(answered.state, transcript, answered.ids);
    lemma_leads_batch(answered, read);
    let seen = answered.emit_batch(read);
    let stranded = seen.state.void_stranded_work(seen.state.head_id);
    lemma_stranded_calm(seen.state, seen.state.head_id);
    lemma_leads_calm(seen, stranded);
    let cleared = seen.emit_all(stranded);
    lemma_leads_on(answered, seen, cleared);
    lemma_worker_state_calm(cleared.state, state);
    lemma_leads_calm(cleared, cleared.state.worker_state_events(state));
    let stated = cleared.emit_all(cleared.state.worker_state_events(state));
    lemma_leads_on(answered, cleared, stated);
    lemma_agent_config_calm(stated.state, agent);
    lemma_leads_calm(stated, stated.state.agent_config_events(agent));
    lemma_leads_on(answered, stated, stated.emit_all(stated.state.agent_config_events(agent)));
}

proof fn lemma_leads_action_turn(w: WorkingV, decision_id: Seq<char>)
    requires
        !(w.state.phase is Active),
    ensures
        w.leads_to(w.action_turn(decision_id)),
{
    reveal(WorkingV::action_turn);
    lemma_leads_same(w, w);
    lemma_leads_finalize(w, None);
    let closed = if w.state.phase is Finalizing {
        w.emit_all(w.state.finalize_run(None))
    } else {
        w
    };
    let started = EventPayloadV::TurnStarted(TurnStartedV { turn_id: "action:"@ + decision_id });
    lemma_leads_emit(closed, started);
    lemma_leads_on(w, closed, closed.emit(started));
}

/// What an answer to a decision that is out does, once it is taken.
pub proof fn lemma_leads_answered(
    w: WorkingV,
    decision_id: Seq<char>,
    transcript: Seq<DraftMessageV>,
    actions: Seq<ActionV>,
    state: Option<WorkerStateV>,
    agent: Option<AgentConfigV>,
    channels: Seq<ChannelViewV>,
    caller: CallerV,
)
    requires
        valid_config(agent),
        by_channel(channels),
        caller.is_worker_or_system(),
        w.state.has_status(EffectKind::Decision, decision_id, EffectStatus::Pending),
    ensures
        w.emit(
            EventPayloadV::DecisionCompleted(DecisionCompletedV { id: decision_id }),
        ).leads_to(
            w.submit_decision(
                decision_id,
                transcript,
                actions,
                state,
                agent,
                channels,
                caller,
            ).w,
        ),
{
    reveal(WorkingV::submit_decision);
    let answered = w.emit(
        EventPayloadV::DecisionCompleted(DecisionCompletedV { id: decision_id }),
    );
    let trigger = w.state.trigger(decision_id)->0;
    let authored = w.author(decision_id, transcript, state, agent);
    lemma_leads_authored(w, decision_id, transcript, state, agent);
    let opens = trigger is ClientAction && any(actions, working())
        && !(authored.state.phase is Active);
    let opened = if opens {
        authored.action_turn(decision_id)
    } else {
        authored
    };
    if opens {
        lemma_leads_action_turn(authored, decision_id);
        lemma_leads_on(answered, authored, opened);
    }
    let event = EventPayloadV::ChannelsUpdated(
        ChannelsUpdatedV { decision_id, finishes_turn: trigger is TurnFinished, channels },
    );
    let shown = if channels.len() > 0 {
        opened.emit(event)
    } else {
        opened
    };
    lemma_leads_emit(opened, event);
    if channels.len() > 0 {
        lemma_leads_on(answered, opened, shown);
    }
    lemma_leads_actions(shown, actions, decision_id, shown.state.engine());
    lemma_leads_on(
        answered,
        shown,
        shown.apply_actions(actions, decision_id, shown.state.engine()),
    );
}

proof fn lemma_leads_answer(
    w: WorkingV,
    decision_id: Seq<char>,
    transcript: Seq<DraftMessageV>,
    actions: Seq<ActionV>,
    state: Option<WorkerStateV>,
    agent: Option<AgentConfigV>,
    channels: Seq<ChannelViewV>,
    caller: CallerV,
)
    requires
        valid_config(agent),
        by_channel(channels),
    ensures
        w.leads_to(
            w.submit_decision(
                decision_id,
                transcript,
                actions,
                state,
                agent,
                channels,
                caller,
            ).w,
        ),
{
    reveal(WorkingV::submit_decision);
    lemma_leads_same(w, w);
    if caller.is_worker_or_system() && w.state.has_status(
        EffectKind::Decision,
        decision_id,
        EffectStatus::Pending,
    ) {
        let event = EventPayloadV::DecisionCompleted(DecisionCompletedV { id: decision_id });
        lemma_leads_emit(w, event);
        lemma_leads_answered(
            w,
            decision_id,
            transcript,
            actions,
            state,
            agent,
            channels,
            caller,
        );
        lemma_leads_on(
            w,
            w.emit(event),
            w.submit_decision(
                decision_id,
                transcript,
                actions,
                state,
                agent,
                channels,
                caller,
            ).w,
        );
    }
}

proof fn lemma_leads_create(
    w: WorkingV,
    agent_id: Seq<char>,
    owner: SessionOwnerV,
    ancestry: Seq<Seq<char>>,
    worker_retry: RetryPolicy,
    agent: Option<AgentConfigV>,
    worker: Option<WorkerRefV>,
    caller: CallerV,
)
    requires
        w.state.agent_id is None,
        owner.wf(),
        valid_config(agent),
    ensures
        w.grows_to(
            w.create(agent_id, owner, ancestry, worker_retry, agent, worker, caller).w,
        ),
{
    reveal(WorkingV::create);
    lemma_leads_same(w, w);
    let event = EventPayloadV::SessionCreated(
        SessionCreatedV { agent_id, identity: owner, ancestry, worker_retry, worker },
    );
    lemma_grows_emit(w, event);
    let created = w.emit(event);
    lemma_agent_config_calm(created.state, agent);
    lemma_leads_calm(created, created.state.agent_config_events(agent));
    let set = created.emit_all(created.state.agent_config_events(agent));
    lemma_grows_on(w, created, set);
    lemma_leads_ask(set, TriggerV::SessionStart);
    lemma_grows_on(w, set, set.ask(TriggerV::SessionStart));
}

proof fn lemma_leads_first(w: WorkingV, cmd: CommandPayloadV, caller: CallerV)
    requires
        cmd.wf(),
    ensures
        w.grows_to(w.run_first(cmd, caller).w),
{
    reveal(WorkingV::run_active);
    lemma_leads_same(w, w);
    if w.state.agent_id is Some {
        match cmd {
            CommandPayloadV::SubmitWorkerDecision {
                decision_id,
                transcript,
                actions,
                state,
                agent,
                channels,
            } => lemma_leads_answer(
                w,
                decision_id,
                transcript,
                actions,
                state,
                agent,
                channels,
                caller,
            ),
            _ => lemma_leads_command(w, cmd, caller),
        }
    } else {
        match cmd {
            CommandPayloadV::CreateSession {
                agent_id,
                owner,
                ancestry,
                worker_retry,
                agent,
                worker,
            } => lemma_leads_create(
                w,
                agent_id,
                owner,
                ancestry,
                worker_retry,
                agent,
                worker,
                caller,
            ),
            _ => {},
        }
    }
}

/// Whatever a command does, it does by events, each to a session that allows
/// it.
pub proof fn lemma_leads_run(w: WorkingV, cmd: CommandPayloadV, caller: CallerV)
    requires
        cmd.wf(),
    ensures
        w.grows_to(w.run(cmd, caller).w),
{
    let ran = w.run_first(cmd, caller).w;
    lemma_leads_first(w, cmd, caller);
    lemma_grows_scheduled(ran, false);
    lemma_grows_on(w, ran, ran.scheduled(false));
}

} // verus!
