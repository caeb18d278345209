//! What an answer to a call does.
use crate::protocol::config::SpawnMode;
use crate::protocol::effect::{AuthNeed, EffectKind, EffectStatus};
use crate::protocol::error::{ErrorCode, ErrorInfoV};
use crate::protocol::json::json_parsed;
use crate::protocol::llm::LlmResponseV;
use crate::protocol::message::{ContentV, DraftMessageV, Role};
use crate::protocol::result::StoredResultV;
use crate::protocol::schema::schema_fault;
use crate::session::apply::ApplyContext;
use crate::session::caller::CallerV;
use crate::session::command::CommandPayloadV;
use crate::session::decision::{LlmHandler, ToolHandler, TriggerV};
use crate::session::events::{
    ConnectorSyncCompletedV, ConnectorSyncErroredV, DecisionQueuedV, EventPayloadV,
    LlmCallCompletedV, LlmCallErroredV, RemoteToolV, SubagentErroredV, SubagentStartedV,
    ToolCallCompletedV, ToolCallErroredV,
};
use crate::session::laws::failing::{
    law_a_child_call_fails, law_a_fetch_fails, law_a_tool_call_fails,
};
use crate::session::laws::settling::{
    is_last, law_a_child_starts, law_a_fetch_keeps_its_answer, law_a_model_call_fails,
    law_a_model_call_is_paid_for, law_a_tool_call_keeps_its_answer,
};
use crate::session::laws::table::{lemma_emit_two, lemma_found, lemma_question, only_work};
use crate::session::outcome::{asked, Batch, OutcomeV, SettleErrorV};
use crate::session::state::{EffectTracking, SessionStateV};
use crate::session::working::{lemma_emit_one, next_seq, WorkingV};
use vstd::prelude::*;

verus! {

/// When and under which number the next event happens.
pub open spec fn next_event(w: WorkingV) -> ApplyContext {
    ApplyContext { occurred_at: w.now, sequence: next_seq(w.seq) }
}

/// Whether an answer is to the attempt that is out.
pub open spec fn is_current(t: EffectTracking, attempt: Option<u32>) -> bool {
    t.state == EffectStatus::Pending && (attempt is None || attempt == Some(t.retry.attempts))
}

/// Whether just this happened, and the worker was asked just this, if anything.
pub open spec fn only_happened(
    w: WorkingV,
    after: WorkingV,
    event: EventPayloadV,
    told: Option<TriggerV>,
) -> bool {
    let question = DecisionQueuedV { id: w.ids.id(), trigger: told->0 };
    &&& after.events == if told is Some {
        w.events.push(event).push(EventPayloadV::DecisionQueued(question))
    } else {
        w.events.push(event)
    }
    &&& told is Some ==> after.state.trigger(w.ids.id()) == told && after.state.has_status(
        EffectKind::Decision,
        w.ids.id(),
        EffectStatus::Queued,
    )
}

/// What happened shows in the table, and so does the question.
pub proof fn lemma_told(
    w: WorkingV,
    event: EventPayloadV,
    told: Option<TriggerV>,
    kind: EffectKind,
    id: Seq<char>,
)
    requires
        told is Some ==> !(told->0 is TurnFinished) && told->0 != TriggerV::SessionStart,
        kind != EffectKind::Decision,
    ensures
        ({
            let mid = w.state.apply(event, next_event(w));
            let after = w.emit_batch(
                match told {
                    Some(told) => Batch::of(seq![event, asked(w.ids, told)], w.ids.rest()),
                    None => Batch::of(seq![event], w.ids),
                },
            );
            &&& only_happened(w, after, event, told)
            &&& after.state.effect(kind, id) == mid.effect(kind, id)
            &&& only_work(mid, after.state)
            &&& after.now == w.now
        }),
{
    match told {
        Some(trigger) => {
            let ready = WorkingV { ids: w.ids.rest(), ..w };
            lemma_emit_two(ready, event, asked(w.ids, trigger));
            let mid = ready.emit(event);
            lemma_question(mid, w.ids.id(), trigger);
            assert(mid.emit(asked(w.ids, trigger)).state.effect(kind, id) == mid.state.effect(
                kind,
                id,
            ));
        },
        None => {
            lemma_emit_one(w, event);
        },
    }
}

/// What a failed tool call is told to the worker as.
pub open spec fn tool_failure(w: WorkingV, id: Seq<char>, error: ErrorInfoV) -> TriggerV {
    TriggerV::ToolFinished {
        id,
        ok: false,
        name: w.state.effect(EffectKind::ToolCall, id)->0.tool()->0.name,
        result: None,
        error: Some(error),
    }
}

/// Whether a tool call failed from one moment to another: the failure is
/// logged as it was given, the call waits for another attempt or is over, and
/// the worker is told once it is over.
pub open spec fn tool_failed(
    w: WorkingV,
    after: WorkingV,
    id: Seq<char>,
    error: ErrorInfoV,
    retryable: bool,
    auth: Option<AuthNeed>,
) -> bool {
    let last = is_last(w.state.tracking(EffectKind::ToolCall, id)->0, retryable);
    &&& only_happened(
        w,
        after,
        EventPayloadV::ToolCallErrored(ToolCallErroredV { id, error, retryable, auth }),
        if last {
            Some(tool_failure(w, id, error))
        } else {
            None
        },
    )
    &&& after.state.has_status(
        EffectKind::ToolCall,
        id,
        if last {
            EffectStatus::Failed
        } else {
            EffectStatus::RetryScheduled
        },
    )
}

/// Whether a tool call was answered from one moment to another.
pub open spec fn tool_answered(
    w: WorkingV,
    after: WorkingV,
    id: Seq<char>,
    result: StoredResultV,
) -> bool {
    &&& only_happened(
        w,
        after,
        EventPayloadV::ToolCallCompleted(ToolCallCompletedV { id, result }),
        Some(
            TriggerV::ToolFinished {
                id,
                ok: !result.is_error,
                name: w.state.effect(EffectKind::ToolCall, id)->0.tool()->0.name,
                result: Some(result),
                error: None,
            },
        ),
    )
    &&& after.state.has_status(EffectKind::ToolCall, id, EffectStatus::Completed)
    &&& after.state.effect(EffectKind::ToolCall, id)->0.tool()->0.result == Some(
        result.rendered(),
    )
}

/// Whether whoever gives an answer may answer a tool call.
pub open spec fn answers_tool(s: SessionStateV, id: Seq<char>, caller: CallerV) -> bool {
    let handler = s.effect(EffectKind::ToolCall, id)->0.tool()->0.handler;
    caller is System || caller is ApiKey && handler != ToolHandler::Server || caller is Frontend
        && s.owned_by(caller) && handler == ToolHandler::Client
}

/// Whoever runs a tool call may say that it failed. The failure is logged as it
/// was given, and once no attempt is left the worker is told of it.
pub proof fn law_a_tool_call_that_fails_is_told(
    w: WorkingV,
    id: Seq<char>,
    attempt: Option<u32>,
    e: SettleErrorV,
    caller: CallerV,
)
    requires
        w.state.in_tenant(caller),
        w.state.tracking(EffectKind::ToolCall, id) is Some,
        is_current(w.state.tracking(EffectKind::ToolCall, id)->0, attempt),
        answers_tool(w.state, id, caller),
    ensures
        ({
            let ran = w.run_command(
                CommandPayloadV::SettleEffect {
                    kind: EffectKind::ToolCall,
                    id,
                    attempt,
                    outcome: OutcomeV::Error(e),
                },
                caller,
            );
            ran.r is Ok && tool_failed(w, ran.w, id, e.error, e.retryable, e.auth)
        }),
{
    lemma_found(w.state, EffectKind::ToolCall, id);
    reveal(WorkingV::run_command);
    reveal(WorkingV::settle_effect);
    reveal(SessionStateV::authorize);
    reveal(SessionStateV::resolve);
    reveal(SessionStateV::settle);
    let p = ToolCallErroredV { id, error: e.error, retryable: e.retryable, auth: e.auth };
    law_a_tool_call_fails(w.state, p, Seq::empty(), next_event(w));
    lemma_told(
        w,
        EventPayloadV::ToolCallErrored(p),
        if is_last(w.state.tracking(EffectKind::ToolCall, id)->0, e.retryable) {
            Some(tool_failure(w, id, e.error))
        } else {
            None
        },
        EffectKind::ToolCall,
        id,
    );
}

/// Whether a tool's answer breaks what the tool declares to answer: it is no
/// document, or one that the schema rules out. An answer that says it is an
/// error is not held to it.
pub open spec fn breaks_schema(s: SessionStateV, id: Seq<char>, result: StoredResultV) -> bool {
    let schema = s.output_schema(id, s.effect(EffectKind::ToolCall, id)->0.tool()->0.name);
    let document = json_parsed(result.rendered());
    schema is Some && !result.is_error && (document is None || schema_fault(
        schema->0,
        document->0,
        "output"@,
    ) is Some)
}

/// Whoever runs a tool call may answer it. The answer is kept, and the worker
/// is told. An answer that breaks what the tool declares fails the call for
/// good.
pub proof fn law_a_tool_call_that_is_answered_is_told(
    w: WorkingV,
    id: Seq<char>,
    attempt: Option<u32>,
    result: StoredResultV,
    caller: CallerV,
)
    requires
        w.state.in_tenant(caller),
        w.state.tracking(EffectKind::ToolCall, id) is Some,
        is_current(w.state.tracking(EffectKind::ToolCall, id)->0, attempt),
        answers_tool(w.state, id, caller),
    ensures
        ({
            let ran = w.run_command(
                CommandPayloadV::SettleEffect {
                    kind: EffectKind::ToolCall,
                    id,
                    attempt,
                    outcome: OutcomeV::Tool { result },
                },
                caller,
            );
            &&& ran.r is Ok
            &&& !breaks_schema(w.state, id, result) ==> tool_answered(w, ran.w, id, result)
            &&& breaks_schema(w.state, id, result) ==> exists|message: Seq<char>|
                "tool output violated its declared schema: "@.is_prefix_of(message)
                    && #[trigger] tool_failed(
                    w,
                    ran.w,
                    id,
                    ErrorInfoV {
                        message,
                        code: ErrorCode::InvalidResponse,
                        param: None,
                        detail: None,
                    },
                    false,
                    None,
                )
        }),
{
    lemma_found(w.state, EffectKind::ToolCall, id);
    reveal(WorkingV::run_command);
    reveal(WorkingV::settle_effect);
    reveal(SessionStateV::authorize);
    reveal(SessionStateV::resolve);
    reveal(SessionStateV::settle);
    let kind = EffectKind::ToolCall;
    let name = w.state.effect(kind, id)->0.tool()->0.name;
    let fault = w.state.output_fault(id, name, result, json_parsed(result.rendered()));
    match fault {
        Some(fault) => {
            let start = "tool output violated its declared schema: "@;
            let message = start + fault;
            assert(start =~= message.subrange(0, start.len() as int));
            let error = ErrorInfoV {
                message,
                code: ErrorCode::InvalidResponse,
                param: None,
                detail: None,
            };
            let p = ToolCallErroredV { id, error, retryable: false, auth: None };
            law_a_tool_call_fails(w.state, p, Seq::empty(), next_event(w));
            lemma_told(
                w,
                EventPayloadV::ToolCallErrored(p),
                Some(tool_failure(w, id, error)),
                kind,
                id,
            );
            let ran = w.run_command(
                CommandPayloadV::SettleEffect { kind, id, attempt, outcome: OutcomeV::Tool { result } },
                caller,
            );
            assert(tool_failed(w, ran.w, id, error, false, None));
        },
        None => {
            let p = ToolCallCompletedV { id, result };
            law_a_tool_call_keeps_its_answer(w.state, p, next_event(w));
            lemma_told(
                w,
                EventPayloadV::ToolCallCompleted(p),
                Some(
                    TriggerV::ToolFinished {
                        id,
                        ok: !result.is_error,
                        name,
                        result: Some(result),
                        error: None,
                    },
                ),
                kind,
                id,
            );
        },
    }
}

/// The message that a model's answer becomes, under the id of the call.
pub open spec fn said(id: Seq<char>, response: LlmResponseV) -> DraftMessageV {
    DraftMessageV {
        id: Some(id),
        role: Role::Assistant,
        content: match response.content {
            Some(text) => Some(ContentV::Text(text)),
            None => None,
        },
        tool_calls: if response.tool_calls.len() == 0 {
            None
        } else {
            Some(response.tool_calls)
        },
        tool_call_id: None,
        name: None,
        reasoning: response.reasoning,
    }
}

/// Whether a call to a model was answered from one moment to another. An answer
/// is cut off if it stopped for its length, and refused if the model or a
/// filter stopped it.
pub open spec fn model_answered(
    w: WorkingV,
    after: WorkingV,
    id: Seq<char>,
    response: LlmResponseV,
) -> bool {
    &&& only_happened(
        w,
        after,
        EventPayloadV::LlmCallCompleted(LlmCallCompletedV { id, response }),
        Some(
            TriggerV::LlmFinished {
                id,
                ok: true,
                message: Some(said(id, response)),
                truncated: response.finish_reason == Some("length"@),
                refused: response.finish_reason == Some("refusal"@) || response.finish_reason
                    == Some("content_filter"@),
                usage: response.usage,
                cost: response.cost,
                error: None,
            },
        ),
    )
    &&& after.state.has_status(EffectKind::LlmCall, id, EffectStatus::Completed)
}

/// Whether a call to a model failed from one moment to another.
pub open spec fn model_failed(
    w: WorkingV,
    after: WorkingV,
    id: Seq<char>,
    error: ErrorInfoV,
    retryable: bool,
) -> bool {
    let last = is_last(w.state.tracking(EffectKind::LlmCall, id)->0, retryable);
    &&& only_happened(
        w,
        after,
        EventPayloadV::LlmCallErrored(LlmCallErroredV { id, error, retryable }),
        if last {
            Some(model_failure(id, error))
        } else {
            None
        },
    )
    &&& after.state.has_status(
        EffectKind::LlmCall,
        id,
        if last {
            EffectStatus::Failed
        } else {
            EffectStatus::RetryScheduled
        },
    )
}

/// What a failed call to a model is told to the worker as.
pub open spec fn model_failure(id: Seq<char>, error: ErrorInfoV) -> TriggerV {
    TriggerV::LlmFinished {
        id,
        ok: false,
        message: None,
        truncated: false,
        refused: false,
        usage: None,
        cost: None,
        error: Some(error),
    }
}

/// Whether whoever gives an answer may answer a call to a model.
pub open spec fn answers_model(s: SessionStateV, id: Seq<char>, caller: CallerV) -> bool {
    caller is System || caller is ApiKey && s.effect(EffectKind::LlmCall, id)->0.llm()->0.handler
        == LlmHandler::Worker
}

/// Whoever runs a call to a model may answer it: the worker is told what the
/// model said, whether it was cut off or refused, and what it cost, and the
/// turn pays.
pub proof fn law_a_model_call_that_is_answered_is_told(
    w: WorkingV,
    id: Seq<char>,
    attempt: Option<u32>,
    response: LlmResponseV,
    caller: CallerV,
)
    requires
        w.state.in_tenant(caller),
        w.state.tracking(EffectKind::LlmCall, id) is Some,
        is_current(w.state.tracking(EffectKind::LlmCall, id)->0, attempt),
        answers_model(w.state, id, caller),
    ensures
        ({
            let ran = w.run_command(
                CommandPayloadV::SettleEffect {
                    kind: EffectKind::LlmCall,
                    id,
                    attempt,
                    outcome: OutcomeV::Llm(response),
                },
                caller,
            );
            &&& ran.r is Ok
            &&& model_answered(w, ran.w, id, response)
            &&& ran.w.state.turn_cost == if response.cost is Some {
                crate::protocol::json::decimal_sum(w.state.turn_cost, response.cost->0)
            } else {
                w.state.turn_cost
            }
            &&& ran.w.state.turn_token_usage == if response.usage is Some {
                w.state.turn_token_usage.with(response.usage->0)
            } else {
                w.state.turn_token_usage
            }
            &&& ran.w.state.phase == w.state.phase
        }),
{
    lemma_found(w.state, EffectKind::LlmCall, id);
    reveal(WorkingV::run_command);
    reveal(WorkingV::settle_effect);
    reveal(SessionStateV::authorize);
    reveal(SessionStateV::resolve);
    reveal(SessionStateV::settle);
    let kind = EffectKind::LlmCall;
    let p = LlmCallCompletedV { id, response };
    law_a_model_call_is_paid_for(w.state, p, next_event(w));
    let told = TriggerV::LlmFinished {
        id,
        ok: true,
        message: Some(response.message(id)),
        truncated: response.truncated(),
        refused: response.refused(),
        usage: response.usage,
        cost: response.cost,
        error: None,
    };
    assert(response.message(id) == said(id, response));
    lemma_told(w, EventPayloadV::LlmCallCompleted(p), Some(told), kind, id);
}

/// Whoever runs a call to a model may say that it failed.
pub proof fn law_a_model_call_that_fails_is_told(
    w: WorkingV,
    id: Seq<char>,
    attempt: Option<u32>,
    e: SettleErrorV,
    caller: CallerV,
)
    requires
        w.state.in_tenant(caller),
        w.state.tracking(EffectKind::LlmCall, id) is Some,
        is_current(w.state.tracking(EffectKind::LlmCall, id)->0, attempt),
        answers_model(w.state, id, caller),
    ensures
        ({
            let ran = w.run_command(
                CommandPayloadV::SettleEffect {
                    kind: EffectKind::LlmCall,
                    id,
                    attempt,
                    outcome: OutcomeV::Error(e),
                },
                caller,
            );
            ran.r is Ok && model_failed(w, ran.w, id, e.error, e.retryable)
        }),
{
    lemma_found(w.state, EffectKind::LlmCall, id);
    reveal(WorkingV::run_command);
    reveal(WorkingV::settle_effect);
    reveal(SessionStateV::authorize);
    reveal(SessionStateV::resolve);
    reveal(SessionStateV::settle);
    let p = LlmCallErroredV { id, error: e.error, retryable: e.retryable };
    law_a_model_call_fails(w.state, p, next_event(w));
    lemma_told(
        w,
        EventPayloadV::LlmCallErrored(p),
        if is_last(w.state.tracking(EffectKind::LlmCall, id)->0, e.retryable) {
            Some(model_failure(id, e.error))
        } else {
            None
        },
        EffectKind::LlmCall,
        id,
    );
}

/// What a failed call to a subagent is told to the worker as.
pub open spec fn child_failure(w: WorkingV, id: Seq<char>, error: ErrorInfoV) -> TriggerV {
    let call = w.state.effect(EffectKind::Subagent, id)->0.subagent()->0;
    TriggerV::SubagentFinished {
        id,
        ok: false,
        session_id: call.session_id,
        agent_id: call.agent_id,
        result: None,
        error: Some(error),
    }
}

/// Whether a call to a subagent failed from one moment to another.
pub open spec fn child_failed(
    w: WorkingV,
    after: WorkingV,
    id: Seq<char>,
    error: ErrorInfoV,
    retryable: bool,
) -> bool {
    let last = is_last(w.state.tracking(EffectKind::Subagent, id)->0, retryable);
    &&& only_happened(
        w,
        after,
        EventPayloadV::SubagentErrored(SubagentErroredV { id, error, retryable }),
        if last {
            Some(child_failure(w, id, error))
        } else {
            None
        },
    )
    &&& after.state.has_status(
        EffectKind::Subagent,
        id,
        if last {
            EffectStatus::Failed
        } else {
            EffectStatus::RetryScheduled
        },
    )
}

/// Whether a call to a subagent is out, or its child runs.
pub open spec fn child_is_out(s: SessionStateV, id: Seq<char>) -> bool {
    s.has_status(EffectKind::Subagent, id, EffectStatus::Pending) || s.has_status(
        EffectKind::Subagent,
        id,
        EffectStatus::Running,
    )
}

/// A call to a subagent that is out may fail. Once no attempt is left the
/// worker is told of it.
pub proof fn law_a_child_call_that_fails_is_told(
    w: WorkingV,
    id: Seq<char>,
    attempt: Option<u32>,
    e: SettleErrorV,
    caller: CallerV,
)
    requires
        w.state.in_tenant(caller),
        caller is System,
        child_is_out(w.state, id),
    ensures
        ({
            let ran = w.run_command(
                CommandPayloadV::SettleEffect {
                    kind: EffectKind::Subagent,
                    id,
                    attempt,
                    outcome: OutcomeV::Error(e),
                },
                caller,
            );
            ran.r is Ok && child_failed(w, ran.w, id, e.error, e.retryable)
        }),
{
    reveal(WorkingV::run_command);
    lemma_child_failed(w, id, attempt, e, caller);
}

pub proof fn lemma_child_failed(
    w: WorkingV,
    id: Seq<char>,
    attempt: Option<u32>,
    e: SettleErrorV,
    caller: CallerV,
)
    requires
        caller is System,
        child_is_out(w.state, id),
    ensures
        ({
            let ran = w.settle_effect(
                EffectKind::Subagent,
                id,
                attempt,
                OutcomeV::Error(e),
                caller,
            );
            ran.r is Ok && child_failed(w, ran.w, id, e.error, e.retryable)
        }),
{
    reveal(WorkingV::settle_effect);
    reveal(SessionStateV::authorize);
    reveal(SessionStateV::resolve);
    reveal(SessionStateV::settle);
    let p = SubagentErroredV { id, error: e.error, retryable: e.retryable };
    law_a_child_call_fails(w.state, p, next_event(w));
    lemma_told(
        w,
        EventPayloadV::SubagentErrored(p),
        if is_last(w.state.tracking(EffectKind::Subagent, id)->0, e.retryable) {
            Some(child_failure(w, id, e.error))
        } else {
            None
        },
        EffectKind::Subagent,
        id,
    );
}

/// A child that took its call runs. For a detached one the worker is told at
/// once that it runs, and the call is over.
pub proof fn law_a_child_that_starts_is_told_if_detached(
    w: WorkingV,
    id: Seq<char>,
    attempt: Option<u32>,
    caller: CallerV,
)
    requires
        w.state.in_tenant(caller),
        caller is System,
        child_is_out(w.state, id),
    ensures
        ({
            let ran = w.run_command(
                CommandPayloadV::SettleEffect {
                    kind: EffectKind::Subagent,
                    id,
                    attempt,
                    outcome: OutcomeV::SubagentStarted,
                },
                caller,
            );
            let call = w.state.effect(EffectKind::Subagent, id)->0.subagent()->0;
            let detached = call.mode == SpawnMode::Detached;
            &&& ran.r is Ok
            &&& only_happened(
                w,
                ran.w,
                EventPayloadV::SubagentStarted(SubagentStartedV { id }),
                if detached {
                    Some(
                        TriggerV::SubagentFinished {
                            id,
                            ok: true,
                            session_id: call.session_id,
                            agent_id: call.agent_id,
                            result: Some(
                                "running detached in session "@ + call.session_id
                                    + "; its result arrives as a message"@,
                            ),
                            error: None,
                        },
                    )
                } else {
                    None
                },
            )
            &&& ran.w.state.has_status(
                EffectKind::Subagent,
                id,
                if detached {
                    EffectStatus::Completed
                } else {
                    EffectStatus::Running
                },
            )
        }),
{
    reveal(WorkingV::run_command);
    reveal(WorkingV::settle_effect);
    reveal(SessionStateV::authorize);
    reveal(SessionStateV::resolve);
    reveal(SessionStateV::settle);
    let call = w.state.effect(EffectKind::Subagent, id)->0.subagent()->0;
    law_a_child_starts(w.state, id, next_event(w));
    lemma_told(
        w,
        EventPayloadV::SubagentStarted(SubagentStartedV { id }),
        if call.mode == SpawnMode::Detached {
            Some(
                TriggerV::SubagentFinished {
                    id,
                    ok: true,
                    session_id: call.session_id,
                    agent_id: call.agent_id,
                    result: Some(
                        "running detached in session "@ + call.session_id
                            + "; its result arrives as a message"@,
                    ),
                    error: None,
                },
            )
        } else {
            None
        },
        EffectKind::Subagent,
        id,
    );
}

/// A fetch that is out may be answered: what the connection offers is kept, and
/// nobody is told.
pub proof fn law_a_fetch_that_is_answered_is_kept(
    w: WorkingV,
    id: Seq<char>,
    attempt: Option<u32>,
    server: Option<Seq<char>>,
    prefix: Option<Seq<char>>,
    tools: Seq<RemoteToolV>,
    instructions: Option<Seq<char>>,
    caller: CallerV,
)
    requires
        w.state.in_tenant(caller),
        caller is System,
        w.state.has_status(EffectKind::ConnectorSync, id, EffectStatus::Pending),
    ensures
        ({
            let ran = w.run_command(
                CommandPayloadV::SettleEffect {
                    kind: EffectKind::ConnectorSync,
                    id,
                    attempt,
                    outcome: OutcomeV::Connector { server, prefix, tools, instructions },
                },
                caller,
            );
            let sync = ran.w.state.effect(EffectKind::ConnectorSync, id)->0.connector()->0;
            &&& ran.r is Ok
            &&& only_happened(
                w,
                ran.w,
                EventPayloadV::ConnectorSyncCompleted(
                    ConnectorSyncCompletedV { id, prefix, tools, instructions },
                ),
                None,
            )
            &&& ran.w.state.has_status(EffectKind::ConnectorSync, id, EffectStatus::Completed)
            &&& sync.tools == tools && sync.prefix == prefix && sync.instructions == instructions
                && sync.auth is None
        }),
{
    reveal(WorkingV::run_command);
    reveal(WorkingV::settle_effect);
    reveal(SessionStateV::authorize);
    reveal(SessionStateV::resolve);
    reveal(SessionStateV::settle);
    let p = ConnectorSyncCompletedV { id, prefix, tools, instructions };
    law_a_fetch_keeps_its_answer(w.state, p, next_event(w));
    lemma_told(
        w,
        EventPayloadV::ConnectorSyncCompleted(p),
        None,
        EffectKind::ConnectorSync,
        id,
    );
}

/// A fetch that is out may fail: it waits for another attempt or is over, and
/// nobody is told.
pub proof fn law_a_fetch_that_fails_is_not_told(
    w: WorkingV,
    id: Seq<char>,
    attempt: Option<u32>,
    e: SettleErrorV,
    caller: CallerV,
)
    requires
        w.state.in_tenant(caller),
        caller is System,
        w.state.has_status(EffectKind::ConnectorSync, id, EffectStatus::Pending),
    ensures
        ({
            let ran = w.run_command(
                CommandPayloadV::SettleEffect {
                    kind: EffectKind::ConnectorSync,
                    id,
                    attempt,
                    outcome: OutcomeV::Error(e),
                },
                caller,
            );
            &&& ran.r is Ok
            &&& only_happened(
                w,
                ran.w,
                EventPayloadV::ConnectorSyncErrored(
                    ConnectorSyncErroredV {
                        id,
                        error: e.error,
                        retryable: e.retryable,
                        auth: e.auth,
                    },
                ),
                None,
            )
            &&& ran.w.state.has_status(
                EffectKind::ConnectorSync,
                id,
                if is_last(w.state.tracking(EffectKind::ConnectorSync, id)->0, e.retryable) {
                    EffectStatus::Failed
                } else {
                    EffectStatus::RetryScheduled
                },
            )
        }),
{
    reveal(WorkingV::run_command);
    reveal(WorkingV::settle_effect);
    reveal(SessionStateV::authorize);
    reveal(SessionStateV::resolve);
    reveal(SessionStateV::settle);
    let p = ConnectorSyncErroredV { id, error: e.error, retryable: e.retryable, auth: e.auth };
    law_a_fetch_fails(w.state, p, next_event(w));
    lemma_told(
        w,
        EventPayloadV::ConnectorSyncErrored(p),
        None,
        EffectKind::ConnectorSync,
        id,
    );
}

/// What comes too late, or for another attempt, changes nothing: the engine is
/// not heard, and whoever else may answer is told why.
pub proof fn law_an_answer_to_another_attempt_is_refused(
    w: WorkingV,
    kind: EffectKind,
    id: Seq<char>,
    attempt: Option<u32>,
    outcome: OutcomeV,
    caller: CallerV,
)
    requires
        w.state.in_tenant(caller),
        kind == EffectKind::ToolCall && answers_tool(w.state, id, caller) || kind
            == EffectKind::LlmCall && answers_model(w.state, id, caller),
        w.state.tracking(kind, id) is Some,
        !is_current(w.state.tracking(kind, id)->0, attempt),
    ensures
        ({
            let ran = w.run_command(
                CommandPayloadV::SettleEffect { kind, id, attempt, outcome },
                caller,
            );
            &&& ran.w == w
            &&& caller is System ==> ran.r is Ok
            &&& !(caller is System) ==> ran.r == Err::<(), _>(
                if w.state.tracking(kind, id)->0.state != EffectStatus::Pending {
                    crate::session::error::SessionErrorV::EffectNotPending
                } else {
                    crate::session::error::SessionErrorV::EffectAttemptMismatch
                },
            )
        }),
{
    lemma_found(w.state, kind, id);
    reveal(WorkingV::run_command);
    reveal(WorkingV::settle_effect);
    reveal(SessionStateV::authorize);
    reveal(SessionStateV::resolve);
}

/// Who does not run a call cannot answer it.
pub proof fn law_only_who_runs_a_call_answers_it(
    w: WorkingV,
    kind: EffectKind,
    id: Seq<char>,
    attempt: Option<u32>,
    outcome: OutcomeV,
    caller: CallerV,
)
    requires
        w.state.in_tenant(caller),
        w.state.effect(kind, id) is Some,
        match kind {
            EffectKind::ToolCall => !answers_tool(w.state, id, caller),
            EffectKind::LlmCall => !answers_model(w.state, id, caller),
            EffectKind::Decision => caller is Frontend || caller is Operator,
            _ => !(caller is System),
        },
    ensures
        ({
            let ran = w.run_command(
                CommandPayloadV::SettleEffect { kind, id, attempt, outcome },
                caller,
            );
            ran.w == w && ran.r is Err
        }),
{
    reveal(WorkingV::run_command);
    reveal(WorkingV::settle_effect);
    reveal(SessionStateV::authorize);
    lemma_found(w.state, kind, id);
    match kind {
        EffectKind::ToolCall => {
            assert(w.state.effect(kind, id)->0.tool() is Some);
            assert(w.state.may_answer_tool(id, caller) is Err);
        },
        EffectKind::LlmCall => {
            assert(w.state.effect(kind, id)->0.llm() is Some);
            assert(caller.may_answer_llm(w.state.effect(kind, id)->0.llm()) is Err);
        },
        EffectKind::Decision => {},
        _ => {},
    }
    assert(w.state.authorize(kind, id, caller) is Err);
}

} // verus!
