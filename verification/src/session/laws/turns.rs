//! What a turn comes to.
use crate::protocol::error::ErrorInfoV;
use crate::protocol::json::{decimal, decimal_sum, json_null, JsonV};
use crate::protocol::llm::UsageV;
use crate::session::aggregate::replay;
use crate::session::apply::ApplyContext;
use crate::session::caller::CallerV;
use crate::session::command::CommandPayloadV;
use crate::session::decision::{ActionV, TriggerV};
use crate::session::events::{
    DecisionQueuedV, EventPayloadV, SessionDone, TurnCompletedV, TurnStartedV,
};
use crate::session::laws::asking::law_a_question_waits;
use crate::session::laws::calls::next_event;
use crate::session::laws::table::lemma_emit_two;
use crate::session::state::{FinalizingV, SessionStateV, TurnPhaseV};
use crate::session::working::{lemma_emit_one, next_seq, WorkingV};
use rust_decimal::Decimal;
use vstd::prelude::*;

verus! {

/// Whether the worker was asked to finish a turn: it is told what the turn came
/// to and what it cost so far, and that is fixed.
pub open spec fn asked_to_finish(
    w: WorkingV,
    after: WorkingV,
    turn_id: Seq<char>,
    data: JsonV,
) -> bool {
    let cost = w.state.turn_cost;
    let usage = w.state.turn_token_usage;
    &&& after.events == w.events.push(
        EventPayloadV::DecisionQueued(
            DecisionQueuedV {
                id: w.ids.id(),
                trigger: TriggerV::TurnFinished { turn_id, data, cost, usage },
            },
        ),
    )
    &&& after.state.phase == TurnPhaseV::Finalizing(FinalizingV { turn_id, data, cost, usage })
    &&& after.state.trigger(w.ids.id()) == Some(
        TriggerV::TurnFinished { turn_id, data, cost, usage },
    )
    &&& after.state.completed_turn_ids == w.state.completed_turn_ids
}

/// Whether a turn completed, with what was fixed for it.
pub open spec fn turn_completed_with(
    w: WorkingV,
    after: WorkingV,
    f: FinalizingV,
    error: Option<ErrorInfoV>,
) -> bool {
    &&& after.events == w.events.push(
        EventPayloadV::TurnCompleted(
            TurnCompletedV {
                turn_id: f.turn_id,
                data: f.data,
                turn_cost: f.cost,
                turn_token_usage: f.usage,
                error,
            },
        ),
    ).push(EventPayloadV::SessionDone(SessionDone {  }))
    &&& after.state.phase is Idle
    &&& after.state.completed_turn_ids == w.state.completed_turn_ids.push(f.turn_id)
    &&& after.state.effects == w.state.effects
}

/// The engine finishes the turn that runs: the worker is asked, with the turn's
/// output, and with the cost and the usage that the turn has run up.
pub proof fn law_a_turn_is_finished_with_what_it_cost(
    w: WorkingV,
    data: JsonV,
    turn_id: Seq<char>,
    caller: CallerV,
)
    requires
        w.state.in_tenant(caller),
        caller is System,
        w.state.phase == (TurnPhaseV::Active { turn_id }),
    ensures
        ({
            let ran = w.run_command(CommandPayloadV::FinishTurn { data }, caller);
            ran.r is Ok && asked_to_finish(w, ran.w, turn_id, data)
        }),
{
    reveal(WorkingV::run_command);
    reveal(SessionStateV::finish_turn);
    let p = DecisionQueuedV {
        id: w.ids.id(),
        trigger: TriggerV::TurnFinished {
            turn_id,
            data,
            cost: w.state.turn_cost,
            usage: w.state.turn_token_usage,
        },
    };
    let ready = WorkingV { ids: w.ids.rest(), ..w };
    law_a_question_waits(w.state, p, next_event(w));
    lemma_emit_one(ready, EventPayloadV::DecisionQueued(p));
}

/// With no turn that runs there is nothing to finish: the session is done.
pub proof fn law_without_a_turn_the_session_is_done(w: WorkingV, data: JsonV, caller: CallerV)
    requires
        w.state.in_tenant(caller),
        caller is System,
        !(w.state.phase is Active),
    ensures
        ({
            let ran = w.run_command(CommandPayloadV::FinishTurn { data }, caller);
            ran.r is Ok && ran.w.events == w.events.push(
                EventPayloadV::SessionDone(SessionDone {  }),
            ) && ran.w.state == w.state
        }),
{
    reveal(WorkingV::run_command);
    reveal(SessionStateV::finish_turn);
    reveal(SessionStateV::apply);
    lemma_emit_one(w, EventPayloadV::SessionDone(SessionDone {  }));
}

/// A turn that is being finished completes with what was fixed when the worker
/// was asked: its output, its cost and its usage.
pub proof fn law_a_turn_completes_with_what_was_fixed(
    w: WorkingV,
    f: FinalizingV,
    caller: CallerV,
)
    requires
        w.state.in_tenant(caller),
        caller is System,
        w.state.phase == TurnPhaseV::Finalizing(f),
    ensures
        ({
            let ran = w.run_command(CommandPayloadV::CompleteTurn, caller);
            ran.r is Ok && turn_completed_with(w, ran.w, f, None)
        }),
{
    reveal(WorkingV::run_command);
    lemma_completes(w, f, None);
}

pub proof fn lemma_completes(w: WorkingV, f: FinalizingV, error: Option<ErrorInfoV>)
    requires
        w.state.phase == TurnPhaseV::Finalizing(f),
    ensures
        turn_completed_with(w, w.emit_all(w.state.finalize_run(error)), f, error),
{
    reveal(SessionStateV::finalize_run);
    reveal(SessionStateV::apply);
    let completed = EventPayloadV::TurnCompleted(
        TurnCompletedV {
            turn_id: f.turn_id,
            data: f.data,
            turn_cost: f.cost,
            turn_token_usage: f.usage,
            error,
        },
    );
    lemma_emit_two(w, completed, EventPayloadV::SessionDone(SessionDone {  }));
}

/// A worker that is done with the turn that runs is asked to finish it, and one
/// that is done with finishing it completes it.
pub proof fn law_done_finishes_and_then_completes(
    w: WorkingV,
    data: JsonV,
    decision_id: Seq<char>,
    engine: CallerV,
)
    requires
        w.state.in_tenant(engine),
        engine is System,
    ensures
        ({
            let after = w.apply_action(ActionV::Done { data }, decision_id, engine);
            match w.state.phase {
                TurnPhaseV::Active { turn_id } => asked_to_finish(w, after, turn_id, data),
                TurnPhaseV::Finalizing(f) => turn_completed_with(w, after, f, None),
                TurnPhaseV::Idle => after.events == w.events.push(
                    EventPayloadV::SessionDone(SessionDone {  }),
                ) && after.state == w.state,
            }
        }),
{
    reveal(WorkingV::apply_action);
    match w.state.phase {
        TurnPhaseV::Active { turn_id } => law_a_turn_is_finished_with_what_it_cost(
            w,
            data,
            turn_id,
            engine,
        ),
        TurnPhaseV::Finalizing(f) => law_a_turn_completes_with_what_was_fixed(w, f, engine),
        TurnPhaseV::Idle => law_without_a_turn_the_session_is_done(w, data, engine),
    }
}

/// A worker that fails a turn ends it at once, with the reason. A turn that runs
/// reports what it cost so far and no output; one that is being finished what
/// was fixed for it.
pub proof fn law_a_failed_turn_says_why(
    w: WorkingV,
    error: ErrorInfoV,
    decision_id: Seq<char>,
    engine: CallerV,
)
    requires
        !(w.state.phase is Idle),
    ensures
        ({
            let after = w.apply_action(ActionV::Fail { error }, decision_id, engine);
            let n = after.events.len();
            &&& n >= 2
            &&& after.events[n - 1] == EventPayloadV::SessionDone(SessionDone {  })
            &&& after.events[n - 2] == EventPayloadV::TurnCompleted(
                match w.state.phase {
                    TurnPhaseV::Finalizing(f) => TurnCompletedV {
                        turn_id: f.turn_id,
                        data: f.data,
                        turn_cost: f.cost,
                        turn_token_usage: f.usage,
                        error: Some(error),
                    },
                    TurnPhaseV::Active { turn_id } => TurnCompletedV {
                        turn_id,
                        data: json_null(),
                        turn_cost: w.state.turn_cost,
                        turn_token_usage: w.state.turn_token_usage,
                        error: Some(error),
                    },
                    TurnPhaseV::Idle => arbitrary(),
                },
            )
        }),
{
    reveal(WorkingV::apply_action);
    reveal(SessionStateV::fail_run);
    reveal(SessionStateV::finalize_run);
    let events = w.state.fail_run(error);
    let k = events.len() as int;
    reveal_with_fuel(WorkingV::emit_all, 3);
    assert(events.drop_last().last() == events[k - 2]);
}

/// What a turn has cost after some events.
pub open spec fn paid(cost: Decimal, events: Seq<EventPayloadV>) -> Decimal
    decreases events.len(),
{
    if events.len() == 0 {
        cost
    } else {
        let before = paid(cost, events.drop_last());
        match events.last() {
            EventPayloadV::LlmCallCompleted(p) => match p.response.cost {
                Some(more) => decimal_sum(before, more),
                None => before,
            },
            _ => before,
        }
    }
}

/// What a turn has used after some events.
pub open spec fn used(usage: UsageV, events: Seq<EventPayloadV>) -> UsageV
    decreases events.len(),
{
    if events.len() == 0 {
        usage
    } else {
        let before = used(usage, events.drop_last());
        match events.last() {
            EventPayloadV::LlmCallCompleted(p) => match p.response.usage {
                Some(more) => if before.input + more.input <= u64::MAX && before.output
                    + more.output <= u64::MAX && before.uncached_input + more.uncached_input
                    <= u64::MAX && before.cache_read + more.cache_read <= u64::MAX
                    && before.cache_write + more.cache_write <= u64::MAX && before.total
                    + more.total <= u64::MAX {
                    UsageV {
                        input: (before.input + more.input) as u64,
                        output: (before.output + more.output) as u64,
                        uncached_input: (before.uncached_input + more.uncached_input) as u64,
                        cache_read: (before.cache_read + more.cache_read) as u64,
                        cache_write: (before.cache_write + more.cache_write) as u64,
                        total: (before.total + more.total) as u64,
                        provider: None,
                    }
                } else {
                    before
                },
                None => before,
            },
            _ => before,
        }
    }
}

/// A turn costs what its calls to models cost, and uses what they use: from the
/// event that starts it on, the answers of models are added up, and nothing
/// else counts.
pub proof fn law_a_turn_costs_what_its_calls_cost(
    s: SessionStateV,
    seq: u64,
    at: i128,
    started: TurnStartedV,
    events: Seq<EventPayloadV>,
)
    requires
        forall|i: int| 0 <= i < events.len() ==> !(#[trigger] events[i] is TurnStarted),
    ensures
        ({
            let running = s.apply(
                EventPayloadV::TurnStarted(started),
                ApplyContext { occurred_at: at, sequence: seq },
            );
            let t = replay(running, seq, at, events).0;
            &&& t.turn_cost == paid(decimal(0, 0), events)
            &&& t.turn_token_usage == used(UsageV::zero(), events)
        }),
{
    reveal(SessionStateV::apply);
    let running = s.apply(
        EventPayloadV::TurnStarted(started),
        ApplyContext { occurred_at: at, sequence: seq },
    );
    lemma_adds_up(running, seq, at, events);
}

proof fn lemma_adds_up(s: SessionStateV, seq: u64, at: i128, events: Seq<EventPayloadV>)
    requires
        forall|i: int| 0 <= i < events.len() ==> !(#[trigger] events[i] is TurnStarted),
    ensures
        replay(s, seq, at, events).0.turn_cost == paid(s.turn_cost, events),
        replay(s, seq, at, events).0.turn_token_usage == used(s.turn_token_usage, events),
    decreases events.len(),
{
    if events.len() > 0 {
        let front = events.drop_last();
        assert forall|i: int| 0 <= i < front.len() implies !(#[trigger] front[i] is TurnStarted) by {
            assert(front[i] == events[i]);
        }
        lemma_adds_up(s, seq, at, front);
        let before = replay(s, seq, at, front);
        let ctx = ApplyContext { occurred_at: at, sequence: next_seq(before.1) };
        assert(!(events[events.len() - 1] is TurnStarted));
        lemma_one_adds_up(before.0, events.last(), ctx);
    }
}

/// Whether what the turn has run up is as it was.
pub open spec fn same_bill(s: SessionStateV, t: SessionStateV) -> bool {
    t.turn_cost == s.turn_cost && t.turn_token_usage == s.turn_token_usage
}

proof fn lemma_bill_decisions(s: SessionStateV, event: EventPayloadV, ctx: ApplyContext)
    requires
        event is DecisionQueued || event is DecisionDispatched || event is DecisionCompleted
            || event is DecisionDropped || event is DecisionErrored,
    ensures
        same_bill(s, s.apply(event, ctx)),
{
    reveal(SessionStateV::apply);
}

proof fn lemma_bill_tools(s: SessionStateV, event: EventPayloadV, ctx: ApplyContext)
    requires
        event is ToolCallRequested || event is ToolCallDispatched || event is ToolCallCompleted
            || event is ToolCallErrored,
    ensures
        same_bill(s, s.apply(event, ctx)),
{
    reveal(SessionStateV::apply);
}

proof fn lemma_bill_models(s: SessionStateV, event: EventPayloadV, ctx: ApplyContext)
    requires
        event is LlmCallRequested || event is LlmCallDispatched || event is LlmCallErrored,
    ensures
        same_bill(s, s.apply(event, ctx)),
{
    reveal(SessionStateV::apply);
}

proof fn lemma_bill_children(s: SessionStateV, event: EventPayloadV, ctx: ApplyContext)
    requires
        event is SubagentRequested || event is SubagentDispatched || event is SubagentStarted
            || event is SubagentErrored || event is SubagentTurnCompleted,
    ensures
        same_bill(s, s.apply(event, ctx)),
{
    reveal(SessionStateV::apply);
}

proof fn lemma_bill_connectors(s: SessionStateV, event: EventPayloadV, ctx: ApplyContext)
    requires
        event is ConnectorSyncRequested || event is ConnectorSyncCompleted
            || event is ConnectorSyncErrored || event is CallVoided,
    ensures
        same_bill(s, s.apply(event, ctx)),
{
    reveal(SessionStateV::apply);
}

proof fn lemma_bill_rest(s: SessionStateV, event: EventPayloadV, ctx: ApplyContext)
    requires
        event is SessionCreated || event is AgentConfigUpdated || event is WorkerStateUpdated
            || event is NewMessage || event is HeadMoved || event is SessionInterrupted
            || event is InterruptResumed || event is TurnCompleted || event is SessionDone
            || event is SessionCancelled || event is ChannelsUpdated
            || event is SessionMessageRequested,
    ensures
        same_bill(s, s.apply(event, ctx)),
{
    reveal(SessionStateV::apply);
}

proof fn lemma_one_adds_up(s: SessionStateV, event: EventPayloadV, ctx: ApplyContext)
    requires
        !(event is TurnStarted),
    ensures
        match event {
            EventPayloadV::LlmCallCompleted(p) => {
                &&& s.apply(event, ctx).turn_cost == match p.response.cost {
                    Some(more) => decimal_sum(s.turn_cost, more),
                    None => s.turn_cost,
                }
                &&& s.apply(event, ctx).turn_token_usage == match p.response.usage {
                    Some(more) => s.turn_token_usage.with(more),
                    None => s.turn_token_usage,
                }
            },
            _ => same_bill(s, s.apply(event, ctx)),
        },
{
    match event {
        EventPayloadV::DecisionQueued(_) => lemma_bill_decisions(s, event, ctx),
        EventPayloadV::DecisionDispatched(_) => lemma_bill_decisions(s, event, ctx),
        EventPayloadV::DecisionCompleted(_) => lemma_bill_decisions(s, event, ctx),
        EventPayloadV::DecisionDropped(_) => lemma_bill_decisions(s, event, ctx),
        EventPayloadV::DecisionErrored(_) => lemma_bill_decisions(s, event, ctx),
        EventPayloadV::ToolCallRequested(_) => lemma_bill_tools(s, event, ctx),
        EventPayloadV::ToolCallDispatched(_) => lemma_bill_tools(s, event, ctx),
        EventPayloadV::ToolCallCompleted(_) => lemma_bill_tools(s, event, ctx),
        EventPayloadV::ToolCallErrored(_) => lemma_bill_tools(s, event, ctx),
        EventPayloadV::LlmCallRequested(_) => lemma_bill_models(s, event, ctx),
        EventPayloadV::LlmCallDispatched(_) => lemma_bill_models(s, event, ctx),
        EventPayloadV::LlmCallErrored(_) => lemma_bill_models(s, event, ctx),
        EventPayloadV::LlmCallCompleted(p) => {
            crate::session::laws::settling::law_a_model_call_is_paid_for(s, p, ctx);
        },
        EventPayloadV::SubagentRequested(_) => lemma_bill_children(s, event, ctx),
        EventPayloadV::SubagentDispatched(_) => lemma_bill_children(s, event, ctx),
        EventPayloadV::SubagentStarted(_) => lemma_bill_children(s, event, ctx),
        EventPayloadV::SubagentErrored(_) => lemma_bill_children(s, event, ctx),
        EventPayloadV::SubagentTurnCompleted(_) => lemma_bill_children(s, event, ctx),
        EventPayloadV::ConnectorSyncRequested(_) => lemma_bill_connectors(s, event, ctx),
        EventPayloadV::ConnectorSyncCompleted(_) => lemma_bill_connectors(s, event, ctx),
        EventPayloadV::ConnectorSyncErrored(_) => lemma_bill_connectors(s, event, ctx),
        EventPayloadV::CallVoided(_) => lemma_bill_connectors(s, event, ctx),
        _ => lemma_bill_rest(s, event, ctx),
    }
}

} // verus!
