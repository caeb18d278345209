//! What each action of a worker does.
use crate::protocol::config::{ConnectionPathV, DeferToolsStrategy, SpawnMode};
use crate::protocol::effect::{
    EffectKind, EffectStatus, Handler, LlmFormat, RetryConfig, RetryOverride, RetryPolicy,
};
use crate::protocol::error::{ErrorCode, ErrorInfoV};
use crate::protocol::identity::InterruptOrigin;
use crate::protocol::json::JsonV;
use crate::protocol::llm::{LlmRequestV, LlmResponseV};
use crate::protocol::message::DraftMessageV;
use crate::protocol::result::StoredResultV;
use crate::session::caller::CallerV;
use crate::session::decision::{ActionV, LlmHandler, ToolHandler, TriggerV};
use crate::session::events::{
    ConnectorSyncRequestedV, EventPayloadV, LlmCallRequestedV, SessionInterruptedV,
    SessionMessageRequestedV, SubagentRequestedV, ToolCallRequestedV,
};
use crate::session::laws::asking::{
    law_a_child_call_waits, law_a_fetch_is_out, law_a_model_call_waits, law_a_tool_call_waits,
};
use crate::session::laws::calls::{
    breaks_schema, is_current, law_a_model_call_that_fails_is_told,
    law_a_model_call_that_is_answered_is_told, law_a_tool_call_that_fails_is_told,
    law_a_tool_call_that_is_answered_is_told, model_answered, model_failed, next_event,
    only_happened, tool_answered, tool_failed,
};
use crate::session::laws::restart::lemma_emits;
use crate::session::laws::table::lemma_asked;
use crate::session::outcome::SettleErrorV;
use crate::session::retry::RetryTarget;
use crate::session::state::SessionStateV;
use crate::session::working::{lemma_emit_one, WorkingV};
use vstd::prelude::*;

verus! {

/// A tool error settles the call it names: the failure is logged with its reason
/// as it was given, and the call is no longer out.
pub proof fn law_a_tool_error_settles_its_call(
    w: WorkingV,
    id: Seq<char>,
    attempt: Option<u32>,
    error: ErrorInfoV,
    retryable: bool,
    decision_id: Seq<char>,
    engine: CallerV,
)
    requires
        engine is System,
        w.state.in_tenant(engine),
        w.state.tracking(EffectKind::ToolCall, id) is Some,
        is_current(w.state.tracking(EffectKind::ToolCall, id)->0, attempt),
    ensures
        ({
            let after = w.apply_action(
                ActionV::ToolError { id, attempt, error, retryable },
                decision_id,
                engine,
            );
            &&& tool_failed(w, after, id, error, retryable, None)
            &&& !after.state.has_status(EffectKind::ToolCall, id, EffectStatus::Pending)
        }),
{
    reveal(WorkingV::apply_action);
    law_a_tool_call_that_fails_is_told(
        w,
        id,
        attempt,
        SettleErrorV { error, retryable, auth: None },
        engine,
    );
}

/// A tool result settles the call it names.
pub proof fn law_a_tool_result_settles_its_call(
    w: WorkingV,
    id: Seq<char>,
    attempt: Option<u32>,
    result: StoredResultV,
    decision_id: Seq<char>,
    engine: CallerV,
)
    requires
        engine is System,
        w.state.in_tenant(engine),
        w.state.tracking(EffectKind::ToolCall, id) is Some,
        is_current(w.state.tracking(EffectKind::ToolCall, id)->0, attempt),
    ensures
        ({
            let after = w.apply_action(
                ActionV::ToolResult { id, attempt, result },
                decision_id,
                engine,
            );
            &&& !breaks_schema(w.state, id, result) ==> tool_answered(w, after, id, result)
            &&& breaks_schema(w.state, id, result) ==> after.state.has_status(
                EffectKind::ToolCall,
                id,
                EffectStatus::Failed,
            )
        }),
{
    reveal(WorkingV::apply_action);
    law_a_tool_call_that_is_answered_is_told(w, id, attempt, result, engine);
}

/// A model's answer settles the call it names.
pub proof fn law_a_model_result_settles_its_call(
    w: WorkingV,
    id: Seq<char>,
    attempt: Option<u32>,
    response: LlmResponseV,
    decision_id: Seq<char>,
    engine: CallerV,
)
    requires
        engine is System,
        w.state.in_tenant(engine),
        w.state.tracking(EffectKind::LlmCall, id) is Some,
        is_current(w.state.tracking(EffectKind::LlmCall, id)->0, attempt),
    ensures
        model_answered(
            w,
            w.apply_action(ActionV::LlmResult { id, attempt, response }, decision_id, engine),
            id,
            response,
        ),
{
    reveal(WorkingV::apply_action);
    law_a_model_call_that_is_answered_is_told(w, id, attempt, response, engine);
}

/// A model's error settles the call it names.
pub proof fn law_a_model_error_settles_its_call(
    w: WorkingV,
    id: Seq<char>,
    attempt: Option<u32>,
    error: ErrorInfoV,
    retryable: bool,
    decision_id: Seq<char>,
    engine: CallerV,
)
    requires
        engine is System,
        w.state.in_tenant(engine),
        w.state.tracking(EffectKind::LlmCall, id) is Some,
        is_current(w.state.tracking(EffectKind::LlmCall, id)->0, attempt),
    ensures
        ({
            let after = w.apply_action(
                ActionV::LlmError { id, attempt, error, retryable },
                decision_id,
                engine,
            );
            &&& model_failed(w, after, id, error, retryable)
            &&& !after.state.has_status(EffectKind::LlmCall, id, EffectStatus::Pending)
        }),
{
    reveal(WorkingV::apply_action);
    law_a_model_call_that_fails_is_told(
        w,
        id,
        attempt,
        SettleErrorV { error, retryable, auth: None },
        engine,
    );
}

/// Whether a call of an id may be asked for: there is none, or it failed.
pub open spec fn is_free(s: SessionStateV, kind: EffectKind, id: Seq<char>) -> bool {
    s.effect(kind, id) is None || s.has_status(kind, id, EffectStatus::Failed)
}

/// A worker that calls a model has the call asked for as it said, once.
pub proof fn law_a_model_is_called_as_asked(
    w: WorkingV,
    id: Seq<char>,
    llm: Seq<char>,
    request: LlmRequestV,
    stream: bool,
    retry: RetryPolicy,
    handler: LlmHandler,
    format: Option<LlmFormat>,
    decision_id: Seq<char>,
    engine: CallerV,
)
    requires
        engine is System,
        w.state.in_tenant(engine),
    ensures
        ({
            let after = w.apply_action(
                ActionV::CallLlm { id, llm, request, stream, retry, handler, format },
                decision_id,
                engine,
            );
            let config = w.state.agent_for(w.state.head_id);
            &&& !is_free(w.state, EffectKind::LlmCall, id) ==> after == w
            &&& is_free(w.state, EffectKind::LlmCall, id) ==> only_happened(
                w,
                after,
                EventPayloadV::LlmCallRequested(
                    LlmCallRequestedV {
                        id,
                        attempt: 0,
                        llm,
                        format,
                        request,
                        stream,
                        retry,
                        handler,
                        defer_tools_strategy: if config is Some {
                            config->0.defer_settings().strategy
                        } else {
                            DeferToolsStrategy::Search
                        },
                    },
                ),
                None,
            ) && after.state.has_status(EffectKind::LlmCall, id, EffectStatus::Queued)
        }),
{
    reveal(WorkingV::apply_action);
    reveal(WorkingV::run_command);
    reveal(SessionStateV::request_llm);
    let p = LlmCallRequestedV {
        id,
        attempt: 0,
        llm,
        format,
        request,
        stream,
        retry,
        handler,
        defer_tools_strategy: w.state.defer_strategy(),
    };
    law_a_model_call_waits(w.state, p, next_event(w));
    lemma_emit_one(w, EventPayloadV::LlmCallRequested(p));
}

/// A worker that calls a tool has the call asked for once: a tool that the agent
/// declares goes to whoever it declares, under its name and with the arguments
/// that were given.
pub proof fn law_a_declared_tool_is_called_as_asked(
    w: WorkingV,
    id: Seq<char>,
    name: Seq<char>,
    arguments: Seq<char>,
    retry: Option<RetryOverride>,
    decision_id: Seq<char>,
    engine: CallerV,
)
    requires
        engine is System,
        w.state.in_tenant(engine),
    ensures
        ({
            let after = w.apply_action(
                ActionV::CallTool { id, name, arguments, retry },
                decision_id,
                engine,
            );
            let declared = w.state.declared_tool(name);
            let client = declared is Some && declared->0.handler == Some(Handler::Client);
            &&& !is_free(w.state, EffectKind::ToolCall, id) ==> after == w
            &&& is_free(w.state, EffectKind::ToolCall, id) ==> after.state.has_status(
                EffectKind::ToolCall,
                id,
                EffectStatus::Queued,
            ) && after.events.len() == w.events.len() + 1
            &&& is_free(w.state, EffectKind::ToolCall, id) && declared is Some ==> only_happened(
                w,
                after,
                EventPayloadV::ToolCallRequested(
                    ToolCallRequestedV {
                        id,
                        attempt: 0,
                        name,
                        arguments,
                        handler: if client {
                            ToolHandler::Client
                        } else {
                            ToolHandler::Worker
                        },
                        target: None,
                        retry: RetryPolicy::resolved(
                            retry,
                            w.state.retry_config(),
                            if client {
                                RetryTarget::ClientTool
                            } else {
                                RetryTarget::WorkerTool
                            },
                        ),
                    },
                ),
                None,
            )
        }),
{
    reveal(WorkingV::apply_action);
    reveal(WorkingV::run_command);
    reveal(SessionStateV::request_tool);
    if is_free(w.state, EffectKind::ToolCall, id) {
        let events = w.state.request_tool(id, name, arguments, retry);
        let p = events[0]->ToolCallRequested_0;
        assert(events =~= seq![EventPayloadV::ToolCallRequested(p)]);
        law_a_tool_call_waits(w.state, p, next_event(w));
        lemma_emit_one(w, EventPayloadV::ToolCallRequested(p));
    }
}

/// A worker that starts a subagent has a new child asked for: its session is
/// named after this one, the decision and the call, and it is what the worker
/// said it should be. Beyond the depth that is allowed it is refused, and the
/// worker is told.
pub proof fn law_a_child_is_started_as_asked(
    w: WorkingV,
    agent_id: Seq<char>,
    tool_call_id: Seq<char>,
    message: Option<DraftMessageV>,
    retry: RetryPolicy,
    mode: Option<SpawnMode>,
    decision_id: Seq<char>,
    engine: CallerV,
)
    requires
        engine is System,
        w.state.in_tenant(engine),
        is_free(w.state, EffectKind::Subagent, tool_call_id),
        mode != Some(SpawnMode::Wait),
    ensures
        ({
            let after = w.apply_action(
                ActionV::SpawnSubagent {
                    session_id: None,
                    agent_id,
                    tool_call_id,
                    message,
                    retry,
                    mode,
                },
                decision_id,
                engine,
            );
            let deep = w.state.ancestry.len() >= w.state.depth_limit();
            let told = after.events.last()->DecisionQueued_0.trigger;
            &&& after.events.len() == w.events.len() + 1
            &&& !deep ==> after.events == w.events.push(
                EventPayloadV::SubagentRequested(
                    SubagentRequestedV {
                        id: tool_call_id,
                        attempt: 0,
                        session_id: w.state.session_id + ":"@ + decision_id + ":"@ + tool_call_id,
                        agent_id,
                        message,
                        retry,
                        mode: w.state.spawn_mode(agent_id, mode),
                        decision_id,
                    },
                ),
            ) && after.state.has_status(EffectKind::Subagent, tool_call_id, EffectStatus::Queued)
            &&& deep ==> after.events.last() is DecisionQueued && told is SubagentFinished
                && told->SubagentFinished_id == tool_call_id && !told->SubagentFinished_ok
                && told->SubagentFinished_agent_id == agent_id
                && told->SubagentFinished_result is None && told->SubagentFinished_error is Some
                && told->SubagentFinished_error->0.code == ErrorCode::BudgetExceeded
                && after.state.effect(EffectKind::Subagent, tool_call_id) == w.state.effect(
                EffectKind::Subagent,
                tool_call_id,
            )
        }),
{
    reveal(WorkingV::apply_action);
    reveal(WorkingV::run_command);
    reveal(SessionStateV::request_subagent);
    let deep = w.state.ancestry.len() >= w.state.depth_limit();
    if deep {
        let after = w.apply_action(
            ActionV::SpawnSubagent {
                session_id: None,
                agent_id,
                tool_call_id,
                message,
                retry,
                mode,
            },
            decision_id,
            engine,
        );
        let trigger = TriggerV::SubagentFinished {
            id: tool_call_id,
            ok: false,
            session_id: Seq::empty(),
            agent_id,
            result: None,
            error: Some(
                ErrorInfoV::new(
                    ErrorCode::BudgetExceeded,
                    "subagent depth limit reached: max_subagent_depth is "@
                        + crate::text::decimal(w.state.depth_limit() as nat),
                ),
            ),
        };
        lemma_asked(w, trigger);
        assert(after == w.ask(trigger));
    } else {
        let p = SubagentRequestedV {
            id: tool_call_id,
            attempt: 0,
            session_id: w.state.session_id + ":"@ + decision_id + ":"@ + tool_call_id,
            agent_id,
            message,
            retry,
            mode: w.state.spawn_mode(agent_id, mode),
            decision_id,
        };
        law_a_child_call_waits(w.state, p, next_event(w));
        lemma_emit_one(w, EventPayloadV::SubagentRequested(p));
    }
}

/// A mode that the agent pins for a subagent counts before the one that was
/// asked for, and a call that says nothing waits for its child.
pub proof fn law_a_pinned_mode_counts(
    s: SessionStateV,
    agent_id: Seq<char>,
    asked: Option<SpawnMode>,
)
    ensures
        ({
            let config = s.agent_for(s.head_id);
            let pinned = config->0.subagent_mode(agent_id);
            let mode = s.spawn_mode(agent_id, asked);
            &&& config is None || pinned is None ==> mode == if asked is Some {
                asked->0
            } else {
                SpawnMode::Blocking
            }
            &&& config is Some && pinned == Some(crate::protocol::config::SubagentMode::Blocking)
                ==> mode == SpawnMode::Blocking
            &&& config is Some && pinned == Some(crate::protocol::config::SubagentMode::Detached)
                ==> mode == SpawnMode::Detached
        }),
{
}

/// A message for another session is passed on as it is, and changes nothing
/// here.
pub proof fn law_a_message_is_passed_on(
    w: WorkingV,
    session_id: Seq<char>,
    message: DraftMessageV,
    decision_id: Seq<char>,
    engine: CallerV,
)
    ensures
        ({
            let after = w.apply_action(
                ActionV::SendMessage { session_id, message },
                decision_id,
                engine,
            );
            &&& after.events == w.events.push(
                EventPayloadV::SessionMessageRequested(
                    SessionMessageRequestedV { target_session_id: session_id, message },
                ),
            )
            &&& after.state == w.state
        }),
{
    reveal(WorkingV::apply_action);
    reveal(SessionStateV::apply);
}

/// A worker may stop a session that runs: the interrupt is open at the node the
/// session stands at, and an end user may resume it. A session that is stopped
/// there is left alone.
pub proof fn law_a_worker_may_stop_the_session(
    w: WorkingV,
    interrupt_id: Seq<char>,
    reason: Seq<char>,
    payload: JsonV,
    decision_id: Seq<char>,
    engine: CallerV,
)
    ensures
        ({
            let after = w.apply_action(
                ActionV::Interrupt { interrupt_id, reason, payload },
                decision_id,
                engine,
            );
            &&& w.state.head_parked() ==> after == w
            &&& !w.state.head_parked() ==> after.events.len() > w.events.len()
                && after.events[w.events.len() as int] == EventPayloadV::SessionInterrupted(
                SessionInterruptedV {
                    interrupt_id,
                    origin: InterruptOrigin::Frontend,
                    reason,
                    payload,
                    anchor: w.state.head_id,
                },
            )
        }),
{
    reveal(WorkingV::apply_action);
    reveal(WorkingV::raise_interrupt);
    if !w.state.head_parked() {
        let stopped = w.emit(
            EventPayloadV::SessionInterrupted(
                SessionInterruptedV {
                    interrupt_id,
                    origin: InterruptOrigin::Frontend,
                    reason,
                    payload,
                    anchor: w.state.head_id,
                },
            ),
        );
        let more = crate::model::collect(
            stopped.state.effects,
            stopped.state.interrupted_call(w.state.head_id),
        );
        lemma_emits(stopped, more);
    }
}

/// A worker may have a connection fetched again that the agent has and that is
/// not being fetched: the fetch is out at once.
pub proof fn law_a_worker_may_fetch_again(
    w: WorkingV,
    path: ConnectionPathV,
    decision_id: Seq<char>,
    engine: CallerV,
)
    ensures
        ({
            let after = w.apply_action(ActionV::SyncConnector { path }, decision_id, engine);
            let servers = w.state.head_servers();
            let t = w.state.tracking(EffectKind::ConnectorSync, path.written());
            let settled = t is Some && (t->0.state == EffectStatus::Completed || t->0.state
                == EffectStatus::Failed);
            let known = exists|i: int| 0 <= i < servers.len() && (#[trigger] servers[i]).path == path;
            &&& !(known && settled) ==> after == w
            &&& known && settled ==> after.events == w.events.push(
                EventPayloadV::ConnectorSyncRequested(
                    ConnectorSyncRequestedV {
                        path,
                        attempt: 0,
                        retry: RetryPolicy::resolved(
                            None,
                            w.state.retry_config(),
                            RetryTarget::ConnectorSync,
                        ),
                    },
                ),
            ) && after.state.has_status(
                EffectKind::ConnectorSync,
                path.written(),
                EffectStatus::Pending,
            )
        }),
{
    reveal(WorkingV::apply_action);
    reveal(SessionStateV::may_fetch_again);
    let servers = w.state.head_servers();
    let p = crate::session::run::actions::at_path(path);
    if exists|i: int| 0 <= i < servers.len() && (#[trigger] servers[i]).path == path {
        let i = choose|i: int| 0 <= i < servers.len() && (#[trigger] servers[i]).path == path;
        assert(p(servers[i]));
    }
    let r = ConnectorSyncRequestedV {
        path,
        attempt: 0,
        retry: RetryPolicy::resolved(None, w.state.retry_config(), RetryTarget::ConnectorSync),
    };
    law_a_fetch_is_out(w.state, r, next_event(w));
}

/// What one policy takes from an override: what it names.
pub open spec fn picked<A>(over: Option<A>, base: A) -> A {
    match over {
        Some(a) => a,
        None => base,
    }
}

/// What one policy takes from an override that may leave a limit as it is.
pub open spec fn limited(over: Option<u32>, base: Option<u32>) -> Option<u32> {
    if over is Some {
        over
    } else {
        base
    }
}

/// A call may set its own limits; what it leaves open the agent's config for its
/// kind of work sets, then the config for all work, and then what is usual.
pub proof fn law_the_nearest_policy_counts(
    asked: RetryOverride,
    kind: RetryOverride,
    general: RetryOverride,
    config: RetryConfig,
    target: RetryTarget,
)
    requires
        config.default == Some(general),
        match target {
            RetryTarget::WorkerTool => config.tool,
            RetryTarget::ClientTool => config.tool,
            RetryTarget::ConnectorTool => config.tool,
            RetryTarget::ConnectorSync => config.connector,
            RetryTarget::Decision => None,
            RetryTarget::Llm => config.llm,
            RetryTarget::Subagent => config.subagent,
        } == Some(kind),
    ensures
        ({
            let p = RetryPolicy::resolved(Some(asked), Some(config), target);
            let usual = RetryPolicy::usual(target);
            &&& p.max_attempts == picked(
                asked.max_attempts,
                picked(kind.max_attempts, picked(general.max_attempts, usual.max_attempts)),
            )
            &&& p.backoff_base_secs == picked(
                asked.backoff_base_secs,
                picked(
                    kind.backoff_base_secs,
                    picked(general.backoff_base_secs, usual.backoff_base_secs),
                ),
            )
            &&& p.backoff_max_secs == picked(
                asked.backoff_max_secs,
                picked(
                    kind.backoff_max_secs,
                    picked(general.backoff_max_secs, usual.backoff_max_secs),
                ),
            )
            &&& p.queue_timeout_secs == limited(
                asked.queue_timeout_secs,
                limited(
                    kind.queue_timeout_secs,
                    limited(general.queue_timeout_secs, usual.queue_timeout_secs),
                ),
            )
            &&& p.run_timeout_secs == limited(
                asked.run_timeout_secs,
                limited(
                    kind.run_timeout_secs,
                    limited(general.run_timeout_secs, usual.run_timeout_secs),
                ),
            )
            &&& p.total_timeout_secs == limited(
                asked.total_timeout_secs,
                limited(
                    kind.total_timeout_secs,
                    limited(general.total_timeout_secs, usual.total_timeout_secs),
                ),
            )
        }),
{
}

/// Without an override and without a config, what is usual counts: tools and
/// subagents are tried once, and the rest three times. Whoever a person has to
/// answer for may take any time.
pub proof fn law_the_usual_policies(target: RetryTarget)
    ensures
        ({
            let p = RetryPolicy::resolved(None, None, target);
            &&& p.max_attempts == if target == RetryTarget::Llm || target == RetryTarget::Decision
                || target == RetryTarget::ConnectorSync {
                3
            } else {
                1u32
            }
            &&& p.run_timeout_secs is None <==> target == RetryTarget::ClientTool || target
                == RetryTarget::Subagent
            &&& target == RetryTarget::ConnectorSync ==> p.run_timeout_secs == Some(30u32)
            &&& target == RetryTarget::ConnectorTool ==> p.run_timeout_secs == Some(60u32)
            &&& target == RetryTarget::Llm || target == RetryTarget::Decision || target
                == RetryTarget::WorkerTool ==> p.run_timeout_secs == Some(300u32)
            &&& p.queue_timeout_secs is None && p.total_timeout_secs is None
            &&& p.backoff_base_secs == 1 && p.backoff_max_secs == 30
        }),
{
}

/// Work that is tried again is the work it was, with the next attempt.
pub proof fn law_what_is_tried_again_is_the_same(s: SessionStateV, id: Seq<char>)
    ensures
        match s.effect(EffectKind::ToolCall, id) {
            Some(e) => s.retry(EffectKind::ToolCall, id) == seq![
                EventPayloadV::ToolCallRequested(
                    ToolCallRequestedV {
                        id,
                        attempt: picked_next(e.tracking.retry.attempts),
                        name: e.tool()->0.name,
                        arguments: e.tool()->0.arguments,
                        handler: e.tool()->0.handler,
                        target: e.tool()->0.target,
                        retry: e.tracking.retry.policy,
                    },
                ),
            ],
            None => s.retry(EffectKind::ToolCall, id).len() == 0,
        },
        match s.effect(EffectKind::LlmCall, id) {
            Some(e) => s.retry(EffectKind::LlmCall, id) == seq![
                EventPayloadV::LlmCallRequested(
                    LlmCallRequestedV {
                        id,
                        attempt: picked_next(e.tracking.retry.attempts),
                        llm: e.llm()->0.llm,
                        format: e.llm()->0.format,
                        request: e.llm()->0.request,
                        stream: e.llm()->0.stream,
                        retry: e.tracking.retry.policy,
                        handler: e.llm()->0.handler,
                        defer_tools_strategy: e.llm()->0.defer_tools_strategy,
                    },
                ),
            ],
            None => s.retry(EffectKind::LlmCall, id).len() == 0,
        },
        match s.effect(EffectKind::Subagent, id) {
            Some(e) => s.retry(EffectKind::Subagent, id) == seq![
                EventPayloadV::SubagentRequested(
                    SubagentRequestedV {
                        id,
                        attempt: picked_next(e.tracking.retry.attempts),
                        session_id: e.subagent()->0.session_id,
                        agent_id: e.subagent()->0.agent_id,
                        message: e.subagent()->0.message,
                        retry: e.tracking.retry.policy,
                        mode: e.subagent()->0.mode,
                        decision_id: e.subagent()->0.decision_id,
                    },
                ),
            ],
            None => s.retry(EffectKind::Subagent, id).len() == 0,
        },
        match s.effect(EffectKind::ConnectorSync, id) {
            Some(e) => e.connector() is Some ==> s.retry(EffectKind::ConnectorSync, id) == seq![
                EventPayloadV::ConnectorSyncRequested(
                    ConnectorSyncRequestedV {
                        path: e.connector()->0.path,
                        attempt: picked_next(e.tracking.retry.attempts),
                        retry: e.tracking.retry.policy,
                    },
                ),
            ],
            None => s.retry(EffectKind::ConnectorSync, id).len() == 0,
        },
{
    reveal(SessionStateV::retry);
}

/// The attempt after one, as far as they are counted.
pub open spec fn picked_next(attempts: u32) -> u32 {
    if attempts == u32::MAX {
        u32::MAX
    } else {
        (attempts + 1) as u32
    }
}

} // verus!
