//! What holds of sessions as a whole.
pub mod actions;
pub mod answering;
pub mod asking;
pub mod calls;
pub mod children;
pub mod commands;
pub mod failing;
pub mod happening;
pub mod inputs;
pub mod limits;
pub mod offering;
pub mod restart;
pub mod schedule;
pub mod settling;
pub mod spawning;
pub mod table;
pub mod transcripts;
pub mod turns;

use crate::model::{any, collect, first, lemma_position, position};
use crate::protocol::config::{AgentConfigV, WorkerStateV};
use crate::protocol::effect::{EffectKind, EffectStatus, RetryPolicy};
use crate::protocol::error::ErrorInfoV;
use crate::protocol::identity::InterruptOrigin;
use crate::protocol::json::JsonV;
use crate::protocol::message::DraftMessageV;
use crate::protocol::wire::{by_channel, ChannelViewV};
use crate::session::aggregate::replay;
use crate::session::apply::{but_decisions, ApplyContext};
use crate::session::caller::CallerV;
use crate::session::command::{valid_config, CommandPayloadV};
use crate::session::decision::ActionV;
use crate::session::effects::decision::{droppable, pending_only};
use crate::session::effects::turn_end::{finalizer_of, unsettled};
use crate::session::effects::{is_call, void_if};
use crate::session::error::SessionErrorV;
use crate::session::events::{CallVoidedV, DecisionCompletedV, EventPayloadV, SessionInterruptedV};
use crate::session::history::batches::{lemma_cleared_calm, lemma_void_calm};
use crate::session::history::commands::{lemma_leads_actions, lemma_leads_answered, lemma_leads_run};
use crate::session::history::tidy::{
    all_apart, apart, is_out, lemma_new_is_tidy, lemma_tidy_apply, lemma_tidy_replay,
};
use crate::session::history::waiting::{lemma_new_waits_right, lemma_waits_replay, well_placed};
use crate::session::history::{all_calm, calm, lemma_calm, lemma_leads_calm, orderly};
use crate::session::ids::IdsV;
use crate::session::outcome::OutcomeV;
use crate::session::progress::{lemma_collected, lemma_queue_step, lemma_step_progresses};
use crate::session::retry::backoff;
use crate::session::run::interrupts::given_up;
use crate::session::schedule::{still_open, ScheduleStepV};
use crate::session::state::{
    named, queued_as, EffectBodyV, EffectEntryV, QueueEntryV, SessionStateV, TurnPhaseV,
    WorkerDecisionV,
};
use crate::session::transcript::{known_by, unknown_to};
use crate::session::tree::stops;
use crate::session::working::{lemma_emit_all_split, lemma_emit_one, next_seq, WorkingV};
use vstd::prelude::*;

verus! {

/// The events of a command say all it did: putting them into the session gives
/// the session and the sequence number that the command left. Each of them
/// happens to a session that allows it.
pub proof fn law_events_say_all(
    state: SessionStateV,
    seq: u64,
    now: i128,
    ids: IdsV,
    cmd: CommandPayloadV,
    caller: CallerV,
)
    requires
        cmd.wf(),
    ensures
        ({
            let after = WorkingV::new(state, seq, now, ids).run(cmd, caller).w;
            replay(state, seq, now, after.events) == (after.state, after.seq) && orderly(
                state,
                seq,
                now,
                after.events,
            )
        }),
{
    let w = WorkingV::new(state, seq, now, ids);
    lemma_leads_run(w, cmd, caller);
    reveal(WorkingV::grows_to);
    let after = w.run(cmd, caller).w;
    assert(after.events.skip(0) =~= after.events);
}

/// A session that is tidy stays so through every event of a command: no work
/// stands in the table twice or waits twice, the worker holds one decision at
/// most, and the end of a turn that is being finished waits in the queue.
pub proof fn law_sessions_stay_tidy(
    state: SessionStateV,
    seq: u64,
    now: i128,
    ids: IdsV,
    cmd: CommandPayloadV,
    caller: CallerV,
    n: int,
)
    requires
        state.tidy(),
        cmd.wf(),
        0 <= n <= WorkingV::new(state, seq, now, ids).run(cmd, caller).w.events.len(),
    ensures
        replay(
            state,
            seq,
            now,
            WorkingV::new(state, seq, now, ids).run(cmd, caller).w.events.take(n),
        ).0.tidy(),
{
    let events = WorkingV::new(state, seq, now, ids).run(cmd, caller).w.events;
    law_events_say_all(state, seq, now, ids, cmd, caller);
    lemma_orderly_prefix(state, seq, now, events, n);
    lemma_tidy_replay(state, seq, now, events.take(n));
}

/// Through every event of a command, work waits in the queue exactly while it
/// is queued.
pub proof fn law_work_waits_while_it_is_queued(
    state: SessionStateV,
    seq: u64,
    now: i128,
    ids: IdsV,
    cmd: CommandPayloadV,
    caller: CallerV,
    n: int,
)
    requires
        state.tidy(),
        state.waits_right(),
        cmd.wf(),
        0 <= n <= WorkingV::new(state, seq, now, ids).run(cmd, caller).w.events.len(),
    ensures
        replay(
            state,
            seq,
            now,
            WorkingV::new(state, seq, now, ids).run(cmd, caller).w.events.take(n),
        ).0.waits_right(),
{
    let events = WorkingV::new(state, seq, now, ids).run(cmd, caller).w.events;
    law_events_say_all(state, seq, now, ids, cmd, caller);
    lemma_orderly_prefix(state, seq, now, events, n);
    lemma_waits_replay(state, seq, now, events.take(n));
}

/// A session starts out tidy, with nothing out of place.
pub proof fn law_sessions_start_tidy(session_id: Seq<char>)
    ensures
        SessionStateV::new(session_id).tidy(),
        SessionStateV::new(session_id).waits_right(),
{
    lemma_new_is_tidy(session_id);
    lemma_new_waits_right(session_id);
}

/// Only queued work goes out: a step that sends out a call or a decision that
/// is in the table finds it queued.
pub proof fn law_only_queued_work_goes_out(
    state: SessionStateV,
    now: i128,
    swept: bool,
    kind: EffectKind,
    id: Seq<char>,
)
    requires
        state.waits_right(),
        state.next_step(now, swept) == Some(ScheduleStepV::Dispatch { kind, id }),
        kind != EffectKind::TurnEnd,
        state.effect(kind, id) is Some,
    ensures
        state.effect(kind, id)->0.tracking.state == EffectStatus::Queued,
{
    reveal(SessionStateV::waits_right);
    let step = ScheduleStepV::Dispatch { kind, id };
    let plan = state.plan(now);
    lemma_position(plan, still_open(swept));
    let at = position(plan, still_open(swept))->0;
    let fetches = collect(state.head_servers(), state.fetch_step());
    let queue = state.queue_steps(state.schedule_queue);
    let sweeps = collect(state.effects, state.sweep_of(now));
    if at < fetches.len() {
        assert(step == fetches[at]);
        lemma_collected(state.head_servers(), state.fetch_step(), at);
    } else if at < fetches.len() + queue.len() {
        let k = at - fetches.len();
        assert(step == queue[k]);
        lemma_queue_step(state, state.schedule_queue, k);
        let j = choose|j: int|
            0 <= j < state.schedule_queue.len() && (#[trigger] state.schedule_queue[j]).kind == kind
                && state.schedule_queue[j].id == id && state.due(state.schedule_queue[j]);
        assert(state.schedule_queue[j] == (QueueEntryV { kind, id }));
        lemma_position(state.effects, named(kind, id));
        let e = position(state.effects, named(kind, id))->0;
        assert(named(kind, id)(state.effects[e]));
        assert(well_placed(state, state.effects[e]));
    } else {
        assert(step == sweeps[at - fetches.len() - queue.len()]);
        lemma_collected(state.effects, state.sweep_of(now), at - fetches.len() - queue.len());
    }
}

/// The worker holds one decision at most.
pub proof fn law_one_decision_is_out(state: SessionStateV)
    requires
        state.tidy(),
    ensures
        state.pending_decisions().len() <= 1,
{
    reveal(SessionStateV::tidy);
    lemma_one_out(state.effects);
}

proof fn lemma_one_out(effects: Seq<EffectEntryV>)
    requires
        all_apart(effects),
    ensures
        collect(effects, pending_only()).len() <= 1,
        collect(effects, pending_only()).len() == 1 ==> exists|i: int|
            0 <= i < effects.len() && is_out(#[trigger] effects[i]),
    decreases effects.len(),
{
    if effects.len() > 0 {
        let front = effects.drop_last();
        assert forall|i: int, j: int| 0 <= i < j < front.len() implies apart(
            #[trigger] front[i],
            #[trigger] front[j],
        ) by {
            assert(apart(effects[i], effects[j]));
        }
        lemma_one_out(front);
        let last = effects.len() - 1;
        if collect(front, pending_only()).len() == 1 {
            let i = choose|i: int| 0 <= i < front.len() && is_out(#[trigger] front[i]);
            assert(effects[i] == front[i]);
            assert(apart(effects[i], effects[last]));
        } else if collect(effects, pending_only()).len() == 1 {
            assert(is_out(effects[last]));
        }
    }
}

/// The end of a turn that is being finished waits in the queue.
pub proof fn law_a_finishing_turn_will_end(state: SessionStateV)
    requires
        state.tidy(),
        state.phase is Finalizing,
    ensures
        state.schedule_queue.contains(
            QueueEntryV {
                kind: EffectKind::TurnEnd,
                id: state.phase->Finalizing_0.turn_id,
            },
        ),
{
    reveal(SessionStateV::tidy);
}

proof fn lemma_orderly_prefix(
    state: SessionStateV,
    seq: u64,
    at: i128,
    events: Seq<EventPayloadV>,
    n: int,
)
    requires
        orderly(state, seq, at, events),
        0 <= n <= events.len(),
    ensures
        orderly(state, seq, at, events.take(n)),
    decreases events.len(),
{
    if n == events.len() {
        assert(events.take(n) =~= events);
    } else {
        lemma_orderly_prefix(state, seq, at, events.drop_last(), n);
        assert(events.drop_last().take(n) =~= events.take(n));
    }
}

/// When the schedule stops there is nothing left to do but what the clock may
/// ask once more.
pub proof fn law_nothing_is_left_to_do(w: WorkingV, swept: bool)
    ensures
        w.scheduled(swept).state.next_step(w.plan_now, true) is None,
        w.scheduled(swept).plan_now == w.plan_now,
    decreases
            if swept {
                0nat
            } else {
                1nat
            },
            w.state.waiting(),
            w.state.unfetched(),
{
    match w.state.next_step(w.plan_now, swept) {
        None => {
            let plan = w.state.plan(w.plan_now);
            lemma_position(plan, still_open(swept));
            lemma_position(plan, still_open(true));
            if position(plan, still_open(true)) is Some {
                let i = position(plan, still_open(true))->0;
                assert(still_open(swept)(plan[i]));
            }
        },
        Some(step) => {
            lemma_step_progresses(w, swept, step);
            lemma_clock_kept(w, step);
            law_nothing_is_left_to_do(w.execute(step), swept || step.is_sweep());
        },
    }
}

proof fn lemma_clock_kept_all(w: WorkingV, events: Seq<EventPayloadV>)
    ensures
        w.emit_all(events).plan_now == w.plan_now,
    decreases events.len(),
{
    if events.len() > 0 {
        lemma_clock_kept_all(w, events.drop_last());
    }
}

proof fn lemma_clock_kept(w: WorkingV, step: ScheduleStepV)
    ensures
        w.execute(step).plan_now == w.plan_now,
{
    reveal(WorkingV::execute);
    reveal(WorkingV::dispatch);
    reveal(WorkingV::time_out);
    assert forall|v: WorkingV, events: Seq<EventPayloadV>| (#[trigger] v.emit_all(events)).plan_now
        == v.plan_now by {
        lemma_clock_kept_all(v, events);
    }
}

/// Ending a turn takes two passes: asking for the end of the turn that runs
/// completes nothing. The worker is asked to finish, what the turn came to is
/// fixed, and the turn's end waits behind the worker's answer.
pub proof fn law_a_turn_ends_in_two_passes(w: WorkingV, data: JsonV, turn_id: Seq<char>)
    requires
        w.state.phase == (TurnPhaseV::Active { turn_id }),
    ensures
        ({
            let asked = w.emit_batch(w.state.finish_turn(data, w.ids)).state;
            asked.phase is Finalizing && asked.phase->Finalizing_0.turn_id == turn_id
                && asked.phase->Finalizing_0.data == data && asked.completed_turn_ids
                == w.state.completed_turn_ids && asked.schedule_queue.contains(
                QueueEntryV { kind: EffectKind::TurnEnd, id: turn_id },
            ) && asked.deps(QueueEntryV { kind: EffectKind::TurnEnd, id: turn_id }).len() == 1
        }),
{
    reveal(SessionStateV::finish_turn);
    reveal(SessionStateV::apply);
    reveal(SessionStateV::deps);
    let batch = w.state.finish_turn(data, w.ids);
    let ready = WorkingV { ids: batch.ids, ..w };
    let event = batch.events[0];
    assert(batch.events =~= seq![event]);
    lemma_emit_one(ready, event);
    let asked = ready.emit(event).state;
    let id = w.ids.id();
    let kind = EffectKind::Decision;
    // The turn's end waits.
    let before = asked_only(w.state, event, w.now, next_seq(w.seq));
    lemma_position(
        before.schedule_queue,
        queued_as(EffectKind::TurnEnd, turn_id),
    );
    let entry = QueueEntryV { kind: EffectKind::TurnEnd, id: turn_id };
    assert(asked.schedule_queue.contains(entry)) by {
        match position(
            before.schedule_queue,
            queued_as(EffectKind::TurnEnd, turn_id),
        ) {
            Some(i) => {
                assert(asked.schedule_queue[i] == entry);
            },
            None => {
                assert(asked.schedule_queue.last() == entry);
                assert(asked.schedule_queue[asked.schedule_queue.len() - 1] == entry);
            },
        }
    }
    // It waits for the decision that was just asked.
    lemma_position(w.state.effects, named(kind, id));
    lemma_position(asked.effects, finalizer_of(turn_id));
    match w.state.effect_at(kind, id) {
        Some(i) => {
            assert(finalizer_of(turn_id)(asked.effects[i]));
        },
        None => {
            let n = w.state.effects.len() as int;
            assert(finalizer_of(turn_id)(asked.effects[n]));
        },
    }
}

/// The session in which a decision was asked, before what its trigger brings.
spec fn asked_only(s: SessionStateV, event: EventPayloadV, at: i128, seq: u64) -> SessionStateV {
    s.ask(
        event->DecisionQueued_0.id,
        0,
        s.worker_retry,
        EffectBodyV::Decision(
            WorkerDecisionV {
                trigger: event->DecisionQueued_0.trigger,
                source_event_sequence: seq,
            },
        ),
        at,
    )
}

/// The end of a turn waits exactly while its finalizer is in the table.
pub proof fn law_a_turns_end_waits_for_its_finalizer(state: SessionStateV, turn_id: Seq<char>)
    ensures
        state.deps(QueueEntryV { kind: EffectKind::TurnEnd, id: turn_id }).len() == 0 <==> !any(
            state.effects,
            finalizer_of(turn_id),
        ),
{
    reveal(SessionStateV::deps);
    lemma_position(state.effects, finalizer_of(turn_id));
}

/// A caller from outside the tenant is refused, whatever they ask.
pub proof fn law_tenants_are_kept_apart(w: WorkingV, cmd: CommandPayloadV, caller: CallerV)
    requires
        w.state.agent_id is Some,
        !w.state.in_tenant(caller),
    ensures
        w.run(cmd, caller) == w.refused(
            if cmd is CreateSession {
                SessionErrorV::SessionAlreadyCreated
            } else {
                SessionErrorV::SessionAccessDenied
            },
        ),
{
    reveal(WorkingV::run_active);
    reveal(WorkingV::run_command);
}

/// Whether only the engine gives a command.
pub open spec fn is_internal(cmd: CommandPayloadV) -> bool {
    match cmd {
        CommandPayloadV::SendMessage { .. } => true,
        CommandPayloadV::RequestLlmCall { .. } => true,
        CommandPayloadV::RequestToolCall { .. } => true,
        CommandPayloadV::RequestSubagent { .. } => true,
        CommandPayloadV::CompleteSubagentTurn { .. } => true,
        CommandPayloadV::FinishTurn { .. } => true,
        CommandPayloadV::CompleteTurn => true,
        CommandPayloadV::Wake { .. } => true,
        CommandPayloadV::ReconcileDispatch => true,
        _ => false,
    }
}

/// What only the engine asks is refused to anyone else.
pub proof fn law_internal_commands_are_the_engines(
    w: WorkingV,
    cmd: CommandPayloadV,
    caller: CallerV,
)
    requires
        w.state.agent_id is Some,
        is_internal(cmd),
        !(caller is System),
    ensures
        w.run(cmd, caller) == w.refused(SessionErrorV::SessionAccessDenied),
{
    reveal(WorkingV::run_active);
    reveal(WorkingV::run_command);
    reveal(WorkingV::send);
    reveal(WorkingV::complete_subagent_turn);
}

/// A frontend that does not own the session neither speaks in it nor stops it.
pub proof fn law_a_session_is_its_owners(w: WorkingV, cmd: CommandPayloadV, caller: CallerV)
    requires
        w.state.agent_id is Some,
        caller is Frontend,
        !w.state.owned_by(caller),
        cmd is SubmitClientPayload || cmd is Interrupt || cmd is ResumeInterrupt
            || cmd is CancelSession,
    ensures
        w.run(cmd, caller) == w.refused(SessionErrorV::SessionAccessDenied),
{
    reveal(WorkingV::run_active);
    reveal(WorkingV::run_command);
    reveal(WorkingV::submit);
    reveal(WorkingV::resume_interrupt);
    reveal(WorkingV::cancel);
}

/// Until a session is created it takes no other command, and it is created
/// once.
pub proof fn law_a_session_is_created_once(w: WorkingV, cmd: CommandPayloadV, caller: CallerV)
    ensures
        w.state.agent_id is None && !(cmd is CreateSession) ==> w.run(cmd, caller) == w.refused(
            SessionErrorV::SessionNotCreated,
        ),
        w.state.agent_id is Some && cmd is CreateSession ==> w.run(cmd, caller) == w.refused(
            SessionErrorV::SessionAlreadyCreated,
        ),
{
    reveal(WorkingV::run_active);
    reveal(WorkingV::run_command);
}

/// To resume an interrupt takes the privilege of whoever raised it, or more.
pub proof fn law_resuming_takes_privilege(
    w: WorkingV,
    interrupt_id: Seq<char>,
    payload: JsonV,
    caller: CallerV,
)
    requires
        w.state.agent_id is Some,
        w.state.open_interrupt(interrupt_id) is Some,
        caller.origin().rank() < w.state.open_interrupt(interrupt_id)->0.origin.rank(),
    ensures
        w.run(CommandPayloadV::ResumeInterrupt { interrupt_id, payload }, caller) == w.refused(
            SessionErrorV::SessionAccessDenied,
        ),
{
    reveal(WorkingV::run_active);
    reveal(WorkingV::run_command);
    reveal(WorkingV::resume_interrupt);
}

/// Resuming an interrupt that is not open does nothing.
pub proof fn law_an_interrupt_is_resumed_once(
    w: WorkingV,
    interrupt_id: Seq<char>,
    payload: JsonV,
    caller: CallerV,
)
    requires
        w.state.owned_by(caller),
        w.state.open_interrupt(interrupt_id) is None,
    ensures
        w.resume_interrupt(interrupt_id, payload, caller) == w.fine(),
{
    reveal(WorkingV::resume_interrupt);
}

/// Where an interrupt is raised the session is stopped.
pub proof fn law_an_interrupt_stops_the_branch(
    w: WorkingV,
    origin: InterruptOrigin,
    interrupt_id: Seq<char>,
    reason: Seq<char>,
    payload: JsonV,
)
    ensures
        w.emit(
            EventPayloadV::SessionInterrupted(
                SessionInterruptedV {
                    interrupt_id,
                    origin,
                    reason,
                    payload,
                    anchor: w.state.head_id,
                },
            ),
        ).state.head_parked(),
{
    reveal(SessionStateV::apply);
    let i = SessionInterruptedV { interrupt_id, origin, reason, payload, anchor: w.state.head_id };
    let after = w.emit(EventPayloadV::SessionInterrupted(i)).state;
    let p = stops(after.nodes, after.head_id);
    lemma_position(after.open_interrupts, p);
    let n = w.state.open_interrupts.len() as int;
    assert(after.open_interrupts[n] == i);
    assert(p(i));
}

/// An answer to a decision the worker does not hold changes nothing.
pub proof fn law_a_late_answer_changes_nothing(
    w: WorkingV,
    decision_id: Seq<char>,
    cmd: CommandPayloadV,
    caller: CallerV,
)
    requires
        cmd is SubmitWorkerDecision,
        cmd->SubmitWorkerDecision_decision_id == decision_id,
        w.state.agent_id is Some,
        w.state.in_tenant(caller),
        caller.is_worker_or_system(),
        !w.state.has_status(EffectKind::Decision, decision_id, EffectStatus::Pending),
    ensures
        w.run_first(cmd, caller) == w.fine(),
{
    reveal(WorkingV::run_active);
    reveal(WorkingV::submit_decision);
}

/// A decision that is answered is no longer out, whatever the answer does: a
/// second answer to it is late.
pub proof fn law_a_decision_is_answered_once(
    w: WorkingV,
    decision_id: Seq<char>,
    transcript: Seq<DraftMessageV>,
    actions: Seq<ActionV>,
    state: Option<WorkerStateV>,
    agent: Option<AgentConfigV>,
    channels: Seq<ChannelViewV>,
    caller: CallerV,
)
    requires
        w.state.tidy(),
        w.state.has_status(EffectKind::Decision, decision_id, EffectStatus::Pending),
        caller.is_worker_or_system(),
        valid_config(agent),
        by_channel(channels),
    ensures
        ({
            let ran = w.submit_decision(
                decision_id,
                transcript,
                actions,
                state,
                agent,
                channels,
                caller,
            );
            ran.r is Ok && !ran.w.state.has_status(
                EffectKind::Decision,
                decision_id,
                EffectStatus::Pending,
            )
        }),
{
    reveal(WorkingV::submit_decision);
    let event = EventPayloadV::DecisionCompleted(DecisionCompletedV { id: decision_id });
    let answered = w.emit(event);
    let after = w.submit_decision(
        decision_id,
        transcript,
        actions,
        state,
        agent,
        channels,
        caller,
    ).w;
    lemma_leads_answered(
        w,
        decision_id,
        transcript,
        actions,
        state,
        agent,
        channels,
        caller,
    );
    lemma_forgotten(w.state, decision_id);
    assert(answered.state.effects == w.state.forget_decision(decision_id).effects) by {
        reveal(SessionStateV::apply);
    }
    lemma_position(after.state.effects, named(EffectKind::Decision, decision_id));
    if after.state.has_status(EffectKind::Decision, decision_id, EffectStatus::Pending) {
        let k = position(after.state.effects, named(EffectKind::Decision, decision_id))->0;
        assert(named(EffectKind::Decision, decision_id)(after.state.effects[k]));
        assert(is_out(after.state.effects[k]));
        assert(answered.state.effects.contains(after.state.effects[k]));
        let j = choose|j: int|
            0 <= j < answered.state.effects.len() && answered.state.effects[j]
                == after.state.effects[k];
        assert(answered.state.effects[j].names(EffectKind::Decision, decision_id));
    }
}

/// A decision that is gone is not in the table.
proof fn lemma_forgotten(s: SessionStateV, id: Seq<char>)
    requires
        s.tidy(),
    ensures
        forall|k: int|
            0 <= k < s.forget_decision(id).effects.len() ==> !(#[trigger] s.forget_decision(
                id,
            ).effects[k]).names(EffectKind::Decision, id),
{
    let kind = EffectKind::Decision;
    reveal(SessionStateV::tidy);
    lemma_position(s.effects, named(kind, id));
    let t = s.forget_decision(id);
    assert forall|k: int| 0 <= k < t.effects.len() implies !(#[trigger] t.effects[k]).names(
        kind,
        id,
    ) by {
        match s.effect_at(kind, id) {
            Some(i) => {
                assert(named(kind, id)(s.effects[i]));
                let j = if k < i {
                    k
                } else {
                    k + 1
                };
                assert(t.effects[k] == s.effects[j]);
                if j < i {
                    assert(apart(s.effects[j], s.effects[i]));
                } else {
                    assert(apart(s.effects[i], s.effects[j]));
                }
            },
            None => {
                assert(t.effects[k] == s.effects[k]);
                assert(!named(kind, id)(s.effects[k]));
            },
        }
    }
}

/// A call that is not out is not settled again: the engine's answer is dropped,
/// and whoever else may answer is told so.
pub proof fn law_a_call_is_settled_once(
    w: WorkingV,
    kind: EffectKind,
    id: Seq<char>,
    attempt: Option<u32>,
    outcome: OutcomeV,
    caller: CallerV,
)
    requires
        kind == EffectKind::ToolCall || kind == EffectKind::LlmCall,
        w.state.tracking(kind, id) is Some,
        w.state.tracking(kind, id)->0.state != EffectStatus::Pending,
        w.state.authorize(kind, id, caller) is Ok,
    ensures
        w.settle_effect(kind, id, attempt, outcome, caller) == (if caller is System {
            w.fine()
        } else {
            w.refused(SessionErrorV::EffectNotPending)
        }),
{
    reveal(WorkingV::settle_effect);
    reveal(SessionStateV::resolve);
}

/// A session is cancelled once, and is over then: no decision is left, nothing
/// waits, and no call is open.
pub proof fn law_cancelling_is_final(w: WorkingV, caller: CallerV)
    requires
        w.state.agent_id is Some,
        w.state.in_tenant(caller),
        caller.is_operator_or_system(),
    ensures
        w.run(CommandPayloadV::CancelSession, caller).w.state.status is Done,
        w.state.status is Done ==> w.run(CommandPayloadV::CancelSession, caller) == w.fine(),
        !(w.state.status is Done) ==> {
            let after = w.run(CommandPayloadV::CancelSession, caller).w.state;
            after.phase is Idle && after.schedule_queue.len() == 0 && after.pending_decisions().len()
                == 0
        },
        !(w.state.status is Done) && w.state.tidy() ==> {
            let after = w.run(CommandPayloadV::CancelSession, caller).w.state;
            forall|i: int|
                0 <= i < after.effects.len() && is_call((#[trigger] after.effects[i]).kind())
                    ==> !after.effects[i].tracking.open()
        },
{
    reveal(WorkingV::run_active);
    reveal(WorkingV::run_command);
    reveal(WorkingV::cancel);
    if !(w.state.status is Done) {
        let cancelled = w.emit(EventPayloadV::SessionCancelled);
        let voided = cancelled.state.void_effects(given_up());
        lemma_void_calm(cancelled.state, given_up());
        lemma_leads_calm(cancelled, voided);
        assert(cancelled.state.status is Done && cancelled.state.phase is Idle
            && cancelled.state.schedule_queue.len() == 0) by {
            reveal(SessionStateV::apply);
        }
        assert(no_decisions(cancelled.state.effects)) by {
            reveal(SessionStateV::apply);
            lemma_but_decisions(w.state.effects);
        }
        assert forall|i: int| 0 <= i < voided.len() implies #[trigger] voided[i] is CallVoided by {
            lemma_collected(cancelled.state.effects, void_if(given_up()), i);
        }
        lemma_voids(cancelled, voided);
        let after = cancelled.emit_all(voided).state;
        lemma_none_pending(after.effects);
        if w.state.tidy() {
            lemma_tidy_apply(
                w.state,
                EventPayloadV::SessionCancelled,
                ApplyContext { occurred_at: w.now, sequence: next_seq(w.seq) },
            );
            reveal(SessionStateV::tidy);
            let before = cancelled.state.effects;
            lemma_voided(cancelled, voided);
            assert forall|i: int|
                0 <= i < after.effects.len() && is_call(
                    (#[trigger] after.effects[i]).kind(),
                ) implies !after.effects[i].tracking.open() by {
                if before[i].tracking.open() {
                    lemma_collects(before, void_if(given_up()), i);
                }
            }
        }
    }
}

/// What is taken of an element is collected.
proof fn lemma_collects<A, B>(s: Seq<A>, f: spec_fn(A) -> Option<B>, i: int)
    requires
        0 <= i < s.len(),
        f(s[i]) is Some,
    ensures
        collect(s, f).contains(f(s[i])->0),
    decreases s.len(),
{
    let front = collect(s.drop_last(), f);
    let all = collect(s, f);
    if i < s.len() - 1 {
        lemma_collects(s.drop_last(), f, i);
        let k = choose|k: int| 0 <= k < front.len() && front[k] == f(s[i])->0;
        assert(all[k] == front[k]);
    } else {
        assert(all[front.len() as int] == f(s[i])->0);
    }
}

/// Whether one of the events gives up this piece of work.
spec fn gives_up(events: Seq<EventPayloadV>, e: EffectEntryV) -> bool {
    events.contains(EventPayloadV::CallVoided(CallVoidedV { kind: e.kind(), id: e.id }))
}

/// What is given up has failed, and the rest is as it was.
proof fn lemma_voided(w: WorkingV, events: Seq<EventPayloadV>)
    requires
        forall|i: int| 0 <= i < events.len() ==> #[trigger] events[i] is CallVoided,
        all_apart(w.state.effects),
    ensures
        w.emit_all(events).state.effects.len() == w.state.effects.len(),
        forall|k: int|
            0 <= k < w.state.effects.len() ==> {
                let before = w.state.effects[k];
                let after = #[trigger] w.emit_all(events).state.effects[k];
                after.kind() == before.kind() && after.id == before.id && (if gives_up(
                    events,
                    before,
                ) {
                    after.tracking.state == EffectStatus::Failed
                } else {
                    after == before
                })
            },
    decreases events.len(),
{
    if events.len() > 0 {
        let front = events.drop_last();
        let last = events.last();
        assert forall|i: int| 0 <= i < front.len() implies #[trigger] front[i] is CallVoided by {
            assert(front[i] == events[i]);
        }
        lemma_voided(w, front);
        assert(events[events.len() - 1] is CallVoided);
        let p = last->CallVoided_0;
        let mid = w.emit_all(front).state;
        let after = w.emit_all(events).state;
        let hit = mid.enter(p.kind, p.id, EffectStatus::Failed);
        assert(after.effects == hit.effects) by {
            reveal(SessionStateV::apply);
        }
        lemma_position(mid.effects, named(p.kind, p.id));
        assert forall|k: int| 0 <= k < w.state.effects.len() implies {
            let before = w.state.effects[k];
            let now = #[trigger] after.effects[k];
            now.kind() == before.kind() && now.id == before.id && (if gives_up(events, before) {
                now.tracking.state == EffectStatus::Failed
            } else {
                now == before
            })
        } by {
            let before = w.state.effects[k];
            let voids = EventPayloadV::CallVoided(
                CallVoidedV { kind: before.kind(), id: before.id },
            );
            assert(mid.effects[k].kind() == before.kind() && mid.effects[k].id == before.id);
            if gives_up(front, before) {
                let i = choose|i: int| 0 <= i < front.len() && front[i] == voids;
                assert(events[i] == voids);
            }
            if last == voids {
                assert(events[events.len() - 1] == voids);
                assert(named(p.kind, p.id)(mid.effects[k]));
                let j = position(mid.effects, named(p.kind, p.id))->0;
                assert(mid.effects[j].names(p.kind, p.id));
                if j < k {
                    assert(apart(w.state.effects[j], w.state.effects[k]));
                    assert(mid.effects[j].kind() == w.state.effects[j].kind());
                }
                assert(j == k);
            } else {
                if gives_up(events, before) && !gives_up(front, before) {
                    let i = choose|i: int| 0 <= i < events.len() && events[i] == voids;
                    assert(i < front.len());
                    assert(front[i] == voids);
                }
                match position(mid.effects, named(p.kind, p.id)) {
                    Some(j) => {
                        assert(mid.effects[j].names(p.kind, p.id));
                        assert(j != k);
                    },
                    None => {},
                }
            }
        }
    }
}

spec fn no_decisions(effects: Seq<EffectEntryV>) -> bool {
    forall|i: int|
        0 <= i < effects.len() ==> (#[trigger] effects[i]).kind() != EffectKind::Decision
}

proof fn lemma_but_decisions(effects: Seq<EffectEntryV>)
    ensures
        no_decisions(collect(effects, but_decisions())),
    decreases effects.len(),
{
    if effects.len() > 0 {
        lemma_but_decisions(effects.drop_last());
    }
}

proof fn lemma_none_pending(effects: Seq<EffectEntryV>)
    requires
        no_decisions(effects),
    ensures
        collect(effects, pending_only()).len() == 0,
    decreases effects.len(),
{
    if effects.len() > 0 {
        let front = effects.drop_last();
        assert forall|i: int| 0 <= i < front.len() implies (#[trigger] front[i]).kind()
            != EffectKind::Decision by {
            assert(front[i] == effects[i]);
        }
        assert(effects[effects.len() - 1].kind() != EffectKind::Decision);
        lemma_none_pending(front);
    }
}

proof fn lemma_voids(w: WorkingV, events: Seq<EventPayloadV>)
    requires
        forall|i: int| 0 <= i < events.len() ==> #[trigger] events[i] is CallVoided,
        no_decisions(w.state.effects),
        w.state.schedule_queue.len() == 0,
    ensures
        no_decisions(w.emit_all(events).state.effects),
        w.emit_all(events).state.schedule_queue.len() == 0,
    decreases events.len(),
{
    if events.len() > 0 {
        let front = events.drop_last();
        assert forall|i: int| 0 <= i < front.len() implies #[trigger] front[i] is CallVoided by {
            assert(front[i] == events[i]);
        }
        lemma_voids(w, front);
        assert(events[events.len() - 1] is CallVoided);
        reveal(SessionStateV::apply);
        let s = w.emit_all(front).state;
        let p = events.last()->CallVoided_0;
        lemma_position(s.effects, named(p.kind, p.id));
        lemma_position(s.schedule_queue, queued_as(p.kind, p.id));
    }
}

/// Whether what is taken of a piece of work is that it is given up.
spec fn gives_up_by(f: spec_fn(EffectEntryV) -> Option<EventPayloadV>) -> bool {
    forall|e: EffectEntryV|
        (#[trigger] f(e)) is Some ==> f(e)->0 == EventPayloadV::CallVoided(
            CallVoidedV { kind: e.kind(), id: e.id },
        )
}

/// Of the work that is given up, none is open any more, and the rest is as it
/// was.
proof fn lemma_given_up(w: WorkingV, f: spec_fn(EffectEntryV) -> Option<EventPayloadV>)
    requires
        w.state.tidy(),
        gives_up_by(f),
    ensures
        ({
            let after = w.emit_all(collect(w.state.effects, f)).state;
            after.effects.len() == w.state.effects.len() && after.nodes == w.state.nodes
                && after.head_id == w.state.head_id && forall|k: int|
                0 <= k < after.effects.len() ==> (#[trigger] after.effects[k]).tracking.state
                    == EffectStatus::Failed || (after.effects[k] == w.state.effects[k] && f(
                    w.state.effects[k],
                ) is None)
        }),
{
    let events = collect(w.state.effects, f);
    assert forall|i: int| 0 <= i < events.len() implies #[trigger] events[i] is CallVoided by {
        lemma_collected(w.state.effects, f, i);
        let k = choose|k: int|
            0 <= k < w.state.effects.len() && f(#[trigger] w.state.effects[k]) == Some(events[i]);
        assert(f(w.state.effects[k]) is Some);
    }
    assert(all_apart(w.state.effects)) by {
        reveal(SessionStateV::tidy);
    }
    lemma_voided(w, events);
    lemma_place_kept(w, events);
    let after = w.emit_all(events).state;
    assert forall|k: int| 0 <= k < after.effects.len() implies (
    #[trigger] after.effects[k]).tracking.state == EffectStatus::Failed || (after.effects[k]
        == w.state.effects[k] && f(w.state.effects[k]) is None) by {
        if f(w.state.effects[k]) is Some {
            lemma_collects(w.state.effects, f, k);
        }
    }
}

/// Giving up calls and dropping decisions leaves the conversation alone.
proof fn lemma_place_kept(w: WorkingV, events: Seq<EventPayloadV>)
    requires
        forall|i: int|
            0 <= i < events.len() ==> #[trigger] events[i] is CallVoided || events[i]
                is DecisionDropped,
    ensures
        w.emit_all(events).state.nodes == w.state.nodes,
        w.emit_all(events).state.head_id == w.state.head_id,
    decreases events.len(),
{
    if events.len() > 0 {
        let front = events.drop_last();
        assert forall|i: int| 0 <= i < front.len() implies #[trigger] front[i] is CallVoided
            || front[i] is DecisionDropped by {
            assert(front[i] == events[i]);
        }
        lemma_place_kept(w, front);
        assert(events[events.len() - 1] is CallVoided || events[events.len() - 1]
            is DecisionDropped);
        reveal(SessionStateV::apply);
    }
}

/// Dropping decisions adds no work.
proof fn lemma_only_fewer(w: WorkingV, events: Seq<EventPayloadV>)
    requires
        forall|i: int| 0 <= i < events.len() ==> #[trigger] events[i] is DecisionDropped,
    ensures
        forall|k: int|
            0 <= k < w.emit_all(events).state.effects.len() ==> w.state.effects.contains(
                #[trigger] w.emit_all(events).state.effects[k],
            ),
    decreases events.len(),
{
    let after = w.emit_all(events).state.effects;
    if events.len() > 0 {
        let front = events.drop_last();
        assert forall|i: int| 0 <= i < front.len() implies #[trigger] front[i]
            is DecisionDropped by {
            assert(front[i] == events[i]);
        }
        lemma_only_fewer(w, front);
        assert(events[events.len() - 1] is DecisionDropped);
        let mid = w.emit_all(front).state;
        let id = events.last()->DecisionDropped_0.id;
        assert(after == mid.remove_effect(EffectKind::Decision, id).effects) by {
            reveal(SessionStateV::apply);
        }
        lemma_position(mid.effects, named(EffectKind::Decision, id));
        assert forall|k: int| 0 <= k < after.len() implies w.state.effects.contains(
            #[trigger] after[k],
        ) by {
            match mid.effect_at(EffectKind::Decision, id) {
                Some(i) => {
                    let j = if k < i {
                        k
                    } else {
                        k + 1
                    };
                    assert(after[k] == mid.effects[j]);
                    assert(w.state.effects.contains(mid.effects[j]));
                },
                None => {
                    assert(after[k] == mid.effects[k]);
                    assert(w.state.effects.contains(mid.effects[k]));
                },
            }
        }
    } else {
        assert forall|k: int| 0 <= k < after.len() implies w.state.effects.contains(
            #[trigger] after[k],
        ) by {
            assert(w.state.effects[k] == after[k]);
        }
    }
}

proof fn lemma_all_dropped(s: SessionStateV, f: spec_fn(EffectEntryV) -> Option<EventPayloadV>)
    requires
        forall|e: EffectEntryV| (#[trigger] f(e)) is Some ==> f(e)->0 is DecisionDropped,
    ensures
        forall|i: int|
            0 <= i < collect(s.effects, f).len() ==> #[trigger] collect(s.effects, f)[i]
                is DecisionDropped,
{
    assert forall|i: int| 0 <= i < collect(s.effects, f).len() implies #[trigger] collect(
        s.effects,
        f,
    )[i] is DecisionDropped by {
        lemma_collected(s.effects, f, i);
        let k = choose|k: int|
            0 <= k < s.effects.len() && f(#[trigger] s.effects[k]) == Some(
                collect(s.effects, f)[i],
            );
        assert(f(s.effects[k]) is Some);
    }
}

/// Once what is stranded is given up, every open call was asked for on the path
/// to the node.
pub proof fn law_no_open_call_is_stranded(w: WorkingV, node: Option<Seq<char>>)
    requires
        w.state.tidy(),
    ensures
        ({
            let after = w.emit_all(w.state.void_stranded_work(node)).state;
            forall|k: int|
                0 <= k < after.effects.len() && is_call((#[trigger] after.effects[k]).kind())
                    && after.effects[k].tracking.open() ==> after.on_path(
                    node,
                    after.effects[k].anchor,
                )
        }),
{
    reveal(SessionStateV::void_stranded_work);
    let s = w.state;
    let voids = collect(s.effects, void_if(s.left_behind(node)));
    let drops = collect(s.effects, s.stale_drop(node));
    lemma_given_up(w, void_if(s.left_behind(node)));
    lemma_all_dropped(s, s.stale_drop(node));
    let cleared = w.emit_all(voids);
    lemma_emit_all_split(w, voids, drops);
    lemma_only_fewer(cleared, drops);
    lemma_place_kept(cleared, drops);
    let after = cleared.emit_all(drops).state;
    assert forall|k: int|
        0 <= k < after.effects.len() && is_call((#[trigger] after.effects[k]).kind())
            && after.effects[k].tracking.open() implies after.on_path(
        node,
        after.effects[k].anchor,
    ) by {
        let e = after.effects[k];
        assert(cleared.state.effects.contains(e));
        let j = choose|j: int| 0 <= j < cleared.state.effects.len() && cleared.state.effects[j] == e;
        assert(cleared.state.effects[j].tracking.state != EffectStatus::Failed);
        assert(void_if(s.left_behind(node))(s.effects[j]) is None);
    }
}

/// Where an interrupt is raised, no call to a model waits or runs on that
/// branch.
pub proof fn law_an_interrupt_gives_up_model_calls(
    w: WorkingV,
    origin: InterruptOrigin,
    interrupt_id: Seq<char>,
    reason: Seq<char>,
    payload: JsonV,
)
    requires
        w.state.tidy(),
        !w.state.head_parked(),
    ensures
        ({
            let after = w.raise_interrupt(origin, interrupt_id, reason, payload).state;
            forall|k: int|
                0 <= k < after.effects.len() && (#[trigger] after.effects[k]).kind()
                    == EffectKind::LlmCall && after.on_path(
                    after.head_id,
                    after.effects[k].anchor,
                ) ==> after.effects[k].tracking.state != EffectStatus::Queued
                    && after.effects[k].tracking.state != EffectStatus::Pending
        }),
{
    reveal(WorkingV::raise_interrupt);
    let anchor = w.state.head_id;
    let event = EventPayloadV::SessionInterrupted(
        SessionInterruptedV { interrupt_id, origin, reason, payload, anchor },
    );
    let stopped = w.emit(event);
    let ctx = ApplyContext { occurred_at: w.now, sequence: next_seq(w.seq) };
    lemma_tidy_apply(w.state, event, ctx);
    assert(stopped.state.head_id == anchor && stopped.state.nodes == w.state.nodes) by {
        reveal(SessionStateV::apply);
    }
    let f = stopped.state.interrupted_call(anchor);
    lemma_given_up(stopped, f);
    let after = stopped.emit_all(collect(stopped.state.effects, f)).state;
    assert forall|k: int|
        0 <= k < after.effects.len() && (#[trigger] after.effects[k]).kind()
            == EffectKind::LlmCall && after.on_path(
            after.head_id,
            after.effects[k].anchor,
        ) implies after.effects[k].tracking.state != EffectStatus::Queued
        && after.effects[k].tracking.state != EffectStatus::Pending by {
        if after.effects[k].tracking.state != EffectStatus::Failed {
            assert(f(stopped.state.effects[k]) is None);
        }
    }
}

/// A run that fails ends its turn, and leaves no call open.
pub proof fn law_a_failed_run_leaves_nothing_open(
    w: WorkingV,
    error: ErrorInfoV,
    turn_id: Seq<char>,
)
    requires
        w.state.tidy(),
        w.state.phase == (TurnPhaseV::Active { turn_id }),
    ensures
        ({
            let after = w.emit_all(w.state.fail_run(error)).state;
            after.phase is Idle && after.completed_turn_ids == w.state.completed_turn_ids.push(
                turn_id,
            ) && forall|k: int|
                0 <= k < after.effects.len() && is_call((#[trigger] after.effects[k]).kind())
                    ==> !after.effects[k].tracking.open()
        }),
{
    reveal(SessionStateV::fail_run);
    let s = w.state;
    let voids = collect(s.effects, void_if(unsettled()));
    let drops = collect(s.effects, droppable());
    let events = s.fail_run(error);
    let done_events = events.skip((voids.len() + drops.len()) as int);
    assert(events =~= (voids + drops) + done_events);
    lemma_given_up(w, void_if(unsettled()));
    lemma_all_dropped(s, droppable());
    let cleared = w.emit_all(voids);
    lemma_emit_all_split(w, voids, drops);
    lemma_only_fewer(cleared, drops);
    let dropped = cleared.emit_all(drops);
    lemma_cleared_calm(s);
    assert(s.void_effects(unsettled()) + s.drop_queued_decisions() == voids + drops);
    lemma_leads_calm(w, voids + drops);
    lemma_turns_kept(w, voids + drops);
    lemma_emit_all_split(w, voids + drops, done_events);
    assert(done_events.len() == 2);
    let ended = done_events[0];
    assert(done_events =~= seq![ended, done_events[1]]);
    assert(done_events.drop_last() =~= seq![ended]);
    lemma_emit_one(dropped, ended);
    let after = dropped.emit_all(done_events).state;
    assert(after.effects == dropped.state.effects && after.phase is Idle
        && after.completed_turn_ids == dropped.state.completed_turn_ids.push(turn_id)) by {
        reveal(SessionStateV::apply);
    }
    assert forall|k: int|
        0 <= k < after.effects.len() && is_call(
            (#[trigger] after.effects[k]).kind(),
        ) implies !after.effects[k].tracking.open() by {
        let e = after.effects[k];
        assert(dropped.state.effects[k] == e);
        assert(cleared.state.effects.contains(e));
        let j = choose|j: int| 0 <= j < cleared.state.effects.len() && cleared.state.effects[j] == e;
        if cleared.state.effects[j].tracking.state != EffectStatus::Failed {
            assert(void_if(unsettled())(s.effects[j]) is None);
        }
    }
}

/// Events that may happen at any time complete no turn.
proof fn lemma_turns_kept(w: WorkingV, events: Seq<EventPayloadV>)
    requires
        all_calm(events),
    ensures
        w.emit_all(events).state.completed_turn_ids == w.state.completed_turn_ids,
    decreases events.len(),
{
    if events.len() > 0 {
        let front = events.drop_last();
        assert forall|i: int| 0 <= i < front.len() implies calm(#[trigger] front[i]) by {
            assert(front[i] == events[i]);
        }
        lemma_turns_kept(w, front);
        assert(calm(events[events.len() - 1]));
        let mid = w.emit_all(front);
        lemma_calm(
            mid.state,
            events.last(),
            ApplyContext { occurred_at: mid.now, sequence: next_seq(mid.seq) },
        );
    }
}

/// What the queue lets through first stands before whatever else it holds, but
/// for what is passed over: nothing overtakes work that waits for something.
pub proof fn law_nothing_overtakes(state: SessionStateV, queue: Seq<QueueEntryV>)
    requires
        state.queue_steps(queue).len() > 0,
    ensures
        exists|j: int|
            0 <= j < queue.len() && (match state.queue_steps(queue)[0] {
                ScheduleStepV::Dispatch { kind, id } => #[trigger] queue[j] == (QueueEntryV {
                    kind,
                    id,
                }) && state.deps(queue[j]).len() == 0,
                ScheduleStepV::VoidPhantom { kind, id } => queue[j] == (QueueEntryV { kind, id })
                    && state.phantom(queue[j]),
                _ => false,
            }) && forall|i: int|
                0 <= i < j ==> !state.due(#[trigger] queue[i]) || state.park(queue[i]) is Some,
    decreases queue.len(),
{
    if queue.len() > 0 {
        let q = queue[0];
        let rest = queue.drop_first();
        let step = state.queue_steps(queue)[0];
        if state.phantom(q) {
            assert(step == (ScheduleStepV::VoidPhantom { kind: q.kind, id: q.id }));
            assert(queue[0] == q);
        } else if !state.due(q) || state.park(q) is Some {
            law_nothing_overtakes(state, rest);
            let j = choose|j: int|
                0 <= j < rest.len() && (match state.queue_steps(rest)[0] {
                    ScheduleStepV::Dispatch { kind, id } => #[trigger] rest[j] == (QueueEntryV {
                        kind,
                        id,
                    }) && state.deps(rest[j]).len() == 0,
                    ScheduleStepV::VoidPhantom { kind, id } => rest[j] == (QueueEntryV { kind, id })
                        && state.phantom(rest[j]),
                    _ => false,
                }) && forall|i: int|
                    0 <= i < j ==> !state.due(#[trigger] rest[i]) || state.park(rest[i]) is Some;
            assert(queue[j + 1] == rest[j]);
            assert forall|i: int| 0 <= i < j + 1 implies !state.due(#[trigger] queue[i])
                || state.park(queue[i]) is Some by {
                if i > 0 {
                    assert(rest[i - 1] == queue[i]);
                }
            }
        } else if state.deps(q).len() > 0 {
        } else {
            assert(step == (ScheduleStepV::Dispatch { kind: q.kind, id: q.id }));
            assert(queue[0] == q);
        }
    }
}

/// The actions of an answer run in order: a list of them does what its first
/// part does, and then the rest, asked for by the engine of the session as it
/// then stands. An action that is refused is dropped: the events of those before
/// it stay, and those behind it run.
pub proof fn law_actions_run_in_order(
    w: WorkingV,
    a: Seq<ActionV>,
    b: Seq<ActionV>,
    decision_id: Seq<char>,
)
    ensures
        ({
            let part = w.apply_actions(a, decision_id, w.state.engine());
            let all = w.apply_actions(a + b, decision_id, w.state.engine());
            all == part.apply_actions(b, decision_id, part.state.engine())
                && part.events.is_prefix_of(all.events)
        }),
{
    let engine = w.state.engine();
    let part = w.apply_actions(a, decision_id, engine);
    lemma_leads_actions(w, a, decision_id, engine);
    lemma_leads_actions(part, b, decision_id, engine);
    lemma_actions_split(w, a, b, decision_id, engine);
    reveal(WorkingV::grows_to);
    let all = part.apply_actions(b, decision_id, engine);
    assert forall|i: int| 0 <= i < part.events.len() implies part.events[i] == all.events[i] by {
        assert(all.events.take(part.events.len() as int)[i] == all.events[i]);
    }
}

/// No actions do nothing.
pub proof fn law_no_actions_do_nothing(w: WorkingV, decision_id: Seq<char>)
    ensures
        w.apply_actions(Seq::empty(), decision_id, w.state.engine()) == w,
{
}

proof fn lemma_actions_split(
    w: WorkingV,
    a: Seq<ActionV>,
    b: Seq<ActionV>,
    decision_id: Seq<char>,
    engine: CallerV,
)
    ensures
        w.apply_actions(a + b, decision_id, engine) == w.apply_actions(
            a,
            decision_id,
            engine,
        ).apply_actions(b, decision_id, engine),
    decreases b.len(),
{
    if b.len() == 0 {
        assert(a + b =~= a);
    } else {
        lemma_actions_split(w, a, b.drop_last(), decision_id, engine);
        assert((a + b).drop_last() =~= a + b.drop_last());
        assert((a + b).last() == b.last());
    }
}

/// Whatever the actions of an answer do, the session stays its owner's, so that
/// the engine asks in the same tenant throughout.
pub proof fn law_actions_keep_the_owner(
    w: WorkingV,
    actions: Seq<ActionV>,
    decision_id: Seq<char>,
    engine: CallerV,
)
    ensures
        w.apply_actions(actions, decision_id, engine).state.owner == w.state.owner,
        w.apply_actions(actions, decision_id, engine).state.engine() == w.state.engine(),
{
    lemma_leads_actions(w, actions, decision_id, engine);
}

/// A wait is never longer than the longest the policy allows, and never
/// shorter than the one before.
pub proof fn law_waits_grow_up_to_a_limit(policy: RetryPolicy, attempts: u32)
    ensures
        backoff(policy, attempts) <= policy.backoff_max_secs,
        attempts > 0 ==> backoff(policy, (attempts - 1) as u32) <= backoff(policy, attempts),
    decreases attempts,
{
    if attempts > 0 {
        law_waits_grow_up_to_a_limit(policy, (attempts - 1) as u32);
    }
}

/// A transcript that says what is recorded already, up to the message the
/// conversation stands at, changes nothing.
pub proof fn law_an_echo_changes_nothing(
    state: SessionStateV,
    transcript: Seq<DraftMessageV>,
    ids: IdsV,
)
    requires
        transcript.len() > 0,
        forall|i: int|
            0 <= i < transcript.len() ==> known_by(
                state.known_ids(),
                #[trigger] transcript[i],
            ),
        transcript.last().id == state.head_id,
    ensures
        state.reconcile_transcript(transcript, ids).events.len() == 0,
        state.reconcile_transcript(transcript, ids).ids == ids,
{
    reveal(SessionStateV::reconcile_transcript);
    let messages = state.normalized(transcript);
    assert forall|i: int| 0 <= i < transcript.len() implies #[trigger] messages[i]
        == transcript[i] by {
        assert(known_by(state.known_ids(), transcript[i]));
    }
    assert(messages =~= transcript);
    lemma_position(messages, unknown_to(state.known_ids()));
}

} // verus!
