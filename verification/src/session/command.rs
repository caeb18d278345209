//! What a session is told to do.
use crate::model::{append_one, collect, extend, lemma_collect_step, one, text_of, Model};
use crate::protocol::config::{AgentConfig, AgentConfigV, SpawnMode, WorkerState, WorkerStateV};
use crate::protocol::effect::{EffectKind, EffectStatus, LlmFormat, RetryOverride, RetryPolicy};
use crate::protocol::error::{ErrorInfo, ErrorInfoV};
use crate::protocol::identity::{SessionOwner, SessionOwnerV, WorkerRef, WorkerRefV};
use crate::protocol::json::{Json, JsonV};
use crate::protocol::llm::{LlmRequest, LlmRequestV, Usage, UsageV};
use crate::protocol::message::{DraftMessage, DraftMessageV};
use crate::protocol::wire::{by_channel, ChannelView, ChannelViewV, ClientPayload, ClientPayloadV};
use crate::session::caller::Caller;
use crate::session::decision::{Action, ActionV, LlmHandler, Trigger, TriggerV};
use crate::session::effects::connector;
use crate::session::effects::decision::dropped;
use crate::session::effects::turn_end::done;
use crate::session::error::{SessionError, SessionErrorV};
use crate::session::events::{
    AgentConfigUpdated, AgentConfigUpdatedV, DecisionDropped, EventPayload, EventPayloadV,
    SessionDone, WorkerStateUpdated, WorkerStateUpdatedV,
};
use crate::session::ids::{Ids, IdsV};
use crate::session::outcome::{
    asked, decision_queued, Batch, Outcome, OutcomeV, SettleError, SettleErrorV,
};
use crate::session::state::{
    EffectEntryV, EffectTracking, SessionState, SessionStateV, TurnPhase, TurnPhaseV,
};
use rust_decimal::Decimal;
use vstd::prelude::*;

verus! {

/// A command. Instants are in nanoseconds of the Unix epoch.
#[allow(inconsistent_fields)]
#[derive(Debug, PartialEq)]
pub enum CommandPayload {
    CreateSession {
        agent_id: String,
        owner: SessionOwner,
        ancestry: Vec<String>,
        worker_retry: RetryPolicy,
        agent: Option<AgentConfig>,
        worker: Option<WorkerRef>,
    },
    SubmitClientPayload { payload: ClientPayload, turn: TurnTarget, queue: bool },
    SendMessage {
        message: DraftMessage,
        stream: bool,
        turn_id: Option<String>,
        parent_id: Option<String>,
    },
    RequestLlmCall {
        call_id: String,
        llm: String,
        request: LlmRequest,
        stream: bool,
        retry: RetryPolicy,
        handler: LlmHandler,
        format: Option<LlmFormat>,
    },
    SettleEffect { kind: EffectKind, id: String, attempt: Option<u32>, outcome: Outcome },
    RequestToolCall {
        tool_call_id: String,
        name: String,
        arguments: String,
        retry: Option<RetryOverride>,
    },
    RequestSubagent {
        session_id: Option<String>,
        agent_id: String,
        tool_call_id: String,
        message: Option<DraftMessage>,
        retry: RetryPolicy,
        decision_id: String,
        mode: Option<SpawnMode>,
    },
    CompleteSubagentTurn {
        session_id: String,
        agent_id: String,
        turn_id: String,
        data: Json,
        cost: Decimal,
        token_usage: Usage,
        error: Option<ErrorInfo>,
    },
    Interrupt { interrupt_id: String, reason: String, payload: Json },
    ResumeInterrupt { interrupt_id: String, payload: Json },
    SubmitWorkerDecision {
        decision_id: String,
        transcript: Vec<DraftMessage>,
        actions: Vec<Action>,
        state: Option<WorkerState>,
        agent: Option<AgentConfig>,
        channels: Vec<ChannelView>,
    },
    CancelSession,
    FinishTurn { data: Json },
    CompleteTurn,
    Wake { now: i128 },
    ReconcileDispatch,
}

/// The value of [`CommandPayload`].
#[allow(inconsistent_fields)]
pub enum CommandPayloadV {
    CreateSession { agent_id: Seq<char>, owner: SessionOwnerV, ancestry: Seq<Seq<char>>, worker_retry: RetryPolicy, agent: Option<AgentConfigV>, worker: Option<WorkerRefV> },
    SubmitClientPayload { payload: ClientPayloadV, turn: TurnTargetV, queue: bool },
    SendMessage { message: DraftMessageV, stream: bool, turn_id: Option<Seq<char>>, parent_id: Option<Seq<char>> },
    RequestLlmCall { call_id: Seq<char>, llm: Seq<char>, request: LlmRequestV, stream: bool, retry: RetryPolicy, handler: LlmHandler, format: Option<LlmFormat> },
    SettleEffect { kind: EffectKind, id: Seq<char>, attempt: Option<u32>, outcome: OutcomeV },
    RequestToolCall { tool_call_id: Seq<char>, name: Seq<char>, arguments: Seq<char>, retry: Option<RetryOverride> },
    RequestSubagent { session_id: Option<Seq<char>>, agent_id: Seq<char>, tool_call_id: Seq<char>, message: Option<DraftMessageV>, retry: RetryPolicy, decision_id: Seq<char>, mode: Option<SpawnMode> },
    CompleteSubagentTurn { session_id: Seq<char>, agent_id: Seq<char>, turn_id: Seq<char>, data: JsonV, cost: rust_decimal::Decimal, token_usage: UsageV, error: Option<ErrorInfoV> },
    Interrupt { interrupt_id: Seq<char>, reason: Seq<char>, payload: JsonV },
    ResumeInterrupt { interrupt_id: Seq<char>, payload: JsonV },
    SubmitWorkerDecision { decision_id: Seq<char>, transcript: Seq<DraftMessageV>, actions: Seq<ActionV>, state: Option<WorkerStateV>, agent: Option<AgentConfigV>, channels: Seq<ChannelViewV> },
    CancelSession,
    FinishTurn { data: JsonV },
    CompleteTurn,
    Wake { now: i128 },
    ReconcileDispatch,
}

impl Model for CommandPayload {
    type V = CommandPayloadV;

    open spec fn v(&self) -> CommandPayloadV {
        match self {
            CommandPayload::CreateSession { agent_id, owner, ancestry, worker_retry, agent, worker } => CommandPayloadV::CreateSession {
                agent_id: agent_id.v(),
                owner: owner.v(),
                ancestry: ancestry.v(),
                worker_retry: worker_retry.v(),
                agent: agent.v(),
                worker: worker.v(),
            },
            CommandPayload::SubmitClientPayload { payload, turn, queue } => CommandPayloadV::SubmitClientPayload {
                payload: payload.v(),
                turn: turn.v(),
                queue: queue.v(),
            },
            CommandPayload::SendMessage { message, stream, turn_id, parent_id } => CommandPayloadV::SendMessage {
                message: message.v(),
                stream: stream.v(),
                turn_id: turn_id.v(),
                parent_id: parent_id.v(),
            },
            CommandPayload::RequestLlmCall { call_id, llm, request, stream, retry, handler, format } => CommandPayloadV::RequestLlmCall {
                call_id: call_id.v(),
                llm: llm.v(),
                request: request.v(),
                stream: stream.v(),
                retry: retry.v(),
                handler: handler.v(),
                format: format.v(),
            },
            CommandPayload::SettleEffect { kind, id, attempt, outcome } => CommandPayloadV::SettleEffect {
                kind: kind.v(),
                id: id.v(),
                attempt: attempt.v(),
                outcome: outcome.v(),
            },
            CommandPayload::RequestToolCall { tool_call_id, name, arguments, retry } => CommandPayloadV::RequestToolCall {
                tool_call_id: tool_call_id.v(),
                name: name.v(),
                arguments: arguments.v(),
                retry: retry.v(),
            },
            CommandPayload::RequestSubagent { session_id, agent_id, tool_call_id, message, retry, decision_id, mode } => CommandPayloadV::RequestSubagent {
                session_id: session_id.v(),
                agent_id: agent_id.v(),
                tool_call_id: tool_call_id.v(),
                message: message.v(),
                retry: retry.v(),
                decision_id: decision_id.v(),
                mode: mode.v(),
            },
            CommandPayload::CompleteSubagentTurn { session_id, agent_id, turn_id, data, cost, token_usage, error } => CommandPayloadV::CompleteSubagentTurn {
                session_id: session_id.v(),
                agent_id: agent_id.v(),
                turn_id: turn_id.v(),
                data: data.v(),
                cost: cost.v(),
                token_usage: token_usage.v(),
                error: error.v(),
            },
            CommandPayload::Interrupt { interrupt_id, reason, payload } => CommandPayloadV::Interrupt {
                interrupt_id: interrupt_id.v(),
                reason: reason.v(),
                payload: payload.v(),
            },
            CommandPayload::ResumeInterrupt { interrupt_id, payload } => CommandPayloadV::ResumeInterrupt {
                interrupt_id: interrupt_id.v(),
                payload: payload.v(),
            },
            CommandPayload::SubmitWorkerDecision { decision_id, transcript, actions, state, agent, channels } => CommandPayloadV::SubmitWorkerDecision {
                decision_id: decision_id.v(),
                transcript: transcript.v(),
                actions: actions.v(),
                state: state.v(),
                agent: agent.v(),
                channels: channels.v(),
            },
            CommandPayload::CancelSession => CommandPayloadV::CancelSession,
            CommandPayload::FinishTurn { data } => CommandPayloadV::FinishTurn {
                data: data.v(),
            },
            CommandPayload::CompleteTurn => CommandPayloadV::CompleteTurn,
            CommandPayload::Wake { now } => CommandPayloadV::Wake {
                now: now.v(),
            },
            CommandPayload::ReconcileDispatch => CommandPayloadV::ReconcileDispatch,
        }
    }

    fn dup(&self) -> (r: CommandPayload) {
        match self {
            CommandPayload::CreateSession { agent_id, owner, ancestry, worker_retry, agent, worker } => CommandPayload::CreateSession {
                agent_id: agent_id.dup(),
                owner: owner.dup(),
                ancestry: ancestry.dup(),
                worker_retry: worker_retry.dup(),
                agent: agent.dup(),
                worker: worker.dup(),
            },
            CommandPayload::SubmitClientPayload { payload, turn, queue } => CommandPayload::SubmitClientPayload {
                payload: payload.dup(),
                turn: turn.dup(),
                queue: queue.dup(),
            },
            CommandPayload::SendMessage { message, stream, turn_id, parent_id } => CommandPayload::SendMessage {
                message: message.dup(),
                stream: stream.dup(),
                turn_id: turn_id.dup(),
                parent_id: parent_id.dup(),
            },
            CommandPayload::RequestLlmCall { call_id, llm, request, stream, retry, handler, format } => CommandPayload::RequestLlmCall {
                call_id: call_id.dup(),
                llm: llm.dup(),
                request: request.dup(),
                stream: stream.dup(),
                retry: retry.dup(),
                handler: handler.dup(),
                format: format.dup(),
            },
            CommandPayload::SettleEffect { kind, id, attempt, outcome } => CommandPayload::SettleEffect {
                kind: kind.dup(),
                id: id.dup(),
                attempt: attempt.dup(),
                outcome: outcome.dup(),
            },
            CommandPayload::RequestToolCall { tool_call_id, name, arguments, retry } => CommandPayload::RequestToolCall {
                tool_call_id: tool_call_id.dup(),
                name: name.dup(),
                arguments: arguments.dup(),
                retry: retry.dup(),
            },
            CommandPayload::RequestSubagent { session_id, agent_id, tool_call_id, message, retry, decision_id, mode } => CommandPayload::RequestSubagent {
                session_id: session_id.dup(),
                agent_id: agent_id.dup(),
                tool_call_id: tool_call_id.dup(),
                message: message.dup(),
                retry: retry.dup(),
                decision_id: decision_id.dup(),
                mode: mode.dup(),
            },
            CommandPayload::CompleteSubagentTurn { session_id, agent_id, turn_id, data, cost, token_usage, error } => CommandPayload::CompleteSubagentTurn {
                session_id: session_id.dup(),
                agent_id: agent_id.dup(),
                turn_id: turn_id.dup(),
                data: data.dup(),
                cost: cost.dup(),
                token_usage: token_usage.dup(),
                error: error.dup(),
            },
            CommandPayload::Interrupt { interrupt_id, reason, payload } => CommandPayload::Interrupt {
                interrupt_id: interrupt_id.dup(),
                reason: reason.dup(),
                payload: payload.dup(),
            },
            CommandPayload::ResumeInterrupt { interrupt_id, payload } => CommandPayload::ResumeInterrupt {
                interrupt_id: interrupt_id.dup(),
                payload: payload.dup(),
            },
            CommandPayload::SubmitWorkerDecision { decision_id, transcript, actions, state, agent, channels } => CommandPayload::SubmitWorkerDecision {
                decision_id: decision_id.dup(),
                transcript: transcript.dup(),
                actions: actions.dup(),
                state: state.dup(),
                agent: agent.dup(),
                channels: channels.dup(),
            },
            CommandPayload::CancelSession => CommandPayload::CancelSession,
            CommandPayload::FinishTurn { data } => CommandPayload::FinishTurn {
                data: data.dup(),
            },
            CommandPayload::CompleteTurn => CommandPayload::CompleteTurn,
            CommandPayload::Wake { now } => CommandPayload::Wake {
                now: now.dup(),
            },
            CommandPayload::ReconcileDispatch => CommandPayload::ReconcileDispatch,
        }
    }
}

impl Clone for CommandPayload {
    fn clone(&self) -> (r: CommandPayload)
        ensures
            r.v() == self.v(),
    {
        self.dup()
    }
}

/// Whether a config that may be there is valid.
pub open spec fn valid_config(agent: Option<AgentConfigV>) -> bool {
    match agent {
        Some(agent) => agent.wf(),
        None => true,
    }
}

impl CommandPayloadV {
    /// Whether what a command carries is valid.
    pub open spec fn wf(self) -> bool {
        match self {
            CommandPayloadV::CreateSession { owner, agent, .. } => owner.wf() && valid_config(agent),
            CommandPayloadV::SubmitWorkerDecision { agent, channels, .. } => valid_config(agent)
                && by_channel(channels),
            _ => true,
        }
    }
}

impl CommandPayload {
    pub fn settle(kind: EffectKind, id: String, attempt: Option<u32>, outcome: Outcome) -> (r:
        CommandPayload)
        ensures
            r.v() == (CommandPayloadV::SettleEffect {
                kind,
                id: id@,
                attempt,
                outcome: outcome.v(),
            }),
    {
        CommandPayload::SettleEffect { kind, id, attempt, outcome }
    }
}

/// Which turn an input belongs to.
#[derive(Debug, PartialEq)]
pub enum TurnTarget {
    /// A turn of its own.
    Open(String),
    /// The turn that runs, else one of its own.
    Continue(String),
    /// None.
    Detached,
}

/// The value of [`TurnTarget`].
pub enum TurnTargetV {
    Open(Seq<char>),
    Continue(Seq<char>),
    Detached,
}

impl Model for TurnTarget {
    type V = TurnTargetV;

    open spec fn v(&self) -> TurnTargetV {
        match self {
            TurnTarget::Open(a) => TurnTargetV::Open(a.v()),
            TurnTarget::Continue(a) => TurnTargetV::Continue(a.v()),
            TurnTarget::Detached => TurnTargetV::Detached,
        }
    }

    fn dup(&self) -> (r: TurnTarget) {
        match self {
            TurnTarget::Open(a) => TurnTarget::Open(a.dup()),
            TurnTarget::Continue(a) => TurnTarget::Continue(a.dup()),
            TurnTarget::Detached => TurnTarget::Detached,
        }
    }
}

impl Clone for TurnTarget {
    fn clone(&self) -> (r: TurnTarget)
        ensures
            r.v() == self.v(),
    {
        self.dup()
    }
}

impl ActionV {
    /// The command an action is carried out by, where it is one.
    pub open spec fn command(self, decision_id: Seq<char>) -> Option<CommandPayloadV> {
        match self {
            ActionV::CallLlm { id, llm, request, stream, retry, handler, format } => Some(
                CommandPayloadV::RequestLlmCall {
                    call_id: id,
                    llm,
                    request,
                    stream,
                    retry,
                    handler,
                    format,
                },
            ),
            ActionV::CallTool { id, name, arguments, retry } => Some(
                CommandPayloadV::RequestToolCall { tool_call_id: id, name, arguments, retry },
            ),
            ActionV::SpawnSubagent { session_id, agent_id, tool_call_id, message, retry, mode } => Some(
                CommandPayloadV::RequestSubagent {
                    session_id,
                    agent_id,
                    tool_call_id,
                    message,
                    retry,
                    decision_id,
                    mode,
                },
            ),
            ActionV::ToolResult { id, attempt, result } => Some(
                CommandPayloadV::SettleEffect {
                    kind: EffectKind::ToolCall,
                    id,
                    attempt,
                    outcome: OutcomeV::Tool { result },
                },
            ),
            ActionV::LlmResult { id, attempt, response } => Some(
                CommandPayloadV::SettleEffect {
                    kind: EffectKind::LlmCall,
                    id,
                    attempt,
                    outcome: OutcomeV::Llm(response),
                },
            ),
            ActionV::ToolError { id, attempt, error, retryable } => Some(
                CommandPayloadV::SettleEffect {
                    kind: EffectKind::ToolCall,
                    id,
                    attempt,
                    outcome: OutcomeV::Error(SettleErrorV::new(error, retryable)),
                },
            ),
            ActionV::LlmError { id, attempt, error, retryable } => Some(
                CommandPayloadV::SettleEffect {
                    kind: EffectKind::LlmCall,
                    id,
                    attempt,
                    outcome: OutcomeV::Error(SettleErrorV::new(error, retryable)),
                },
            ),
            _ => None,
        }
    }

    /// Whether an action starts work.
    pub open spec fn starts_work(self) -> bool {
        self is CallLlm || self is CallTool || self is SpawnSubagent
    }
}

impl Action {
    /// The command an action is carried out by, where it is one.
    pub fn into_command(self, decision_id: &str) -> (r: Option<CommandPayload>)
        ensures
            r.v() == self.v().command(decision_id@),
    {
        match self {
            Action::CallLlm { id, llm, request, stream, retry, handler, format } => Some(
                CommandPayload::RequestLlmCall {
                    call_id: id,
                    llm,
                    request,
                    stream,
                    retry,
                    handler,
                    format,
                },
            ),
            Action::CallTool { id, name, arguments, retry } => Some(
                CommandPayload::RequestToolCall { tool_call_id: id, name, arguments, retry },
            ),
            Action::SpawnSubagent { session_id, agent_id, tool_call_id, message, retry, mode } => Some(
                CommandPayload::RequestSubagent {
                    session_id,
                    agent_id,
                    tool_call_id,
                    message,
                    retry,
                    decision_id: decision_id.to_owned(),
                    mode,
                },
            ),
            Action::ToolResult { id, attempt, result } => Some(
                CommandPayload::settle(EffectKind::ToolCall, id, attempt, Outcome::Tool { result }),
            ),
            Action::LlmResult { id, attempt, response } => Some(
                CommandPayload::settle(
                    EffectKind::LlmCall,
                    id,
                    attempt,
                    Outcome::Llm(Box::new(response)),
                ),
            ),
            Action::ToolError { id, attempt, error, retryable } => Some(
                CommandPayload::settle(
                    EffectKind::ToolCall,
                    id,
                    attempt,
                    Outcome::Error(SettleError::new(error, retryable)),
                ),
            ),
            Action::LlmError { id, attempt, error, retryable } => Some(
                CommandPayload::settle(
                    EffectKind::LlmCall,
                    id,
                    attempt,
                    Outcome::Error(SettleError::new(error, retryable)),
                ),
            ),
            Action::SendMessage { .. } => None,
            Action::Interrupt { .. } => None,
            Action::ResolveInterrupt { .. } => None,
            Action::SyncConnector { .. } => None,
            Action::Done { .. } => None,
            Action::Fail { .. } => None,
        }
    }

    /// Whether an action starts work.
    pub fn starts_work(&self) -> (r: bool)
        ensures
            r == self.v().starts_work(),
    {
        match self {
            Action::CallLlm { .. } => true,
            Action::CallTool { .. } => true,
            Action::SpawnSubagent { .. } => true,
            _ => false,
        }
    }
}

impl SessionStateV {
    /// Whether a decision belongs to a branch that the node is not on.
    pub open spec fn stale_decision(self, node: Option<Seq<char>>, trigger: TriggerV) -> bool {
        !self.on_path(node, self.trigger_anchor(trigger))
    }

    /// Whether a call is left behind on a branch that the node is not on.
    pub open spec fn left_behind(self, node: Option<Seq<char>>) -> spec_fn(
        EffectKind,
        EffectTracking,
        Option<Seq<char>>,
    ) -> bool {
        |kind: EffectKind, tracking: EffectTracking, anchor: Option<Seq<char>>|
            tracking.open() && !self.on_path(node, anchor)
    }

    /// A decision that waits and belongs elsewhere, as one that is dropped.
    pub open spec fn stale_drop(self, node: Option<Seq<char>>) -> spec_fn(EffectEntryV) -> Option<
        EventPayloadV,
    > {
        |e: EffectEntryV|
            match e.trigger() {
                Some(trigger) => if (e.tracking.state == EffectStatus::Queued || e.tracking.state
                    == EffectStatus::RetryScheduled) && self.stale_decision(node, trigger) {
                    Some(dropped(e.id))
                } else {
                    None
                },
                None => None,
            }
    }

    /// What a change of branch leaves behind: its calls are given up, and the
    /// decisions about them that wait are dropped.
    #[verifier::opaque]
    pub open spec fn void_stranded_work(self, node: Option<Seq<char>>) -> Seq<EventPayloadV> {
        self.void_effects(self.left_behind(node)) + collect(self.effects, self.stale_drop(node))
    }

    /// The turn is to end: the worker is told its output first. Where no turn
    /// runs the session is done at once.
    #[verifier::opaque]
    pub open spec fn finish_turn(self, data: JsonV, ids: IdsV) -> Batch {
        match self.phase {
            TurnPhaseV::Active { turn_id } => Batch::of(
                seq![
                    asked(
                        ids,
                        TriggerV::TurnFinished {
                            turn_id,
                            data,
                            cost: self.turn_cost,
                            usage: self.turn_token_usage,
                        },
                    ),
                ],
                ids.rest(),
            ),
            _ => Batch::of(seq![done()], ids),
        }
    }

    /// A worker's state is recorded where it differs from the one in force.
    #[verifier::opaque]
    pub open spec fn worker_state_events(self, state: Option<WorkerStateV>) -> Seq<EventPayloadV> {
        match state {
            Some(state) => self.write_worker_state(
                state,
                state.equals(self.state_for(self.head_id)),
            ),
            None => Seq::empty(),
        }
    }

    /// A worker's state is recorded at the head, unless it is the same as the
    /// one in force.
    pub open spec fn write_worker_state(self, state: WorkerStateV, same: bool) -> Seq<EventPayloadV> {
        if same {
            Seq::empty()
        } else {
            seq![
                EventPayloadV::WorkerStateUpdated(
                    WorkerStateUpdatedV { state, anchor: self.head_id },
                ),
            ]
        }
    }

    /// A config is recorded where it differs from the one in force. What it
    /// reaches for the first time is fetched.
    #[verifier::opaque]
    pub open spec fn agent_config_events(self, config: Option<AgentConfigV>) -> Seq<EventPayloadV> {
        match config {
            Some(config) => self.write_agent_config(
                config,
                match self.agent_for(self.head_id) {
                    Some(current) => config.equals(current),
                    None => false,
                },
            ),
            None => Seq::empty(),
        }
    }

    /// A config is recorded at the head, unless it is the same as the one in
    /// force.
    pub open spec fn write_agent_config(self, config: AgentConfigV, same: bool) -> Seq<
        EventPayloadV,
    > {
        if same {
            Seq::empty()
        } else {
            self.sync(config).push(
                EventPayloadV::AgentConfigUpdated(
                    AgentConfigUpdatedV { config, anchor: self.head_id },
                ),
            )
        }
    }
}

impl SessionState {
    /// Whether a decision belongs to a branch that the node is not on.
    pub fn stale_decision(&self, node: Option<&str>, trigger: &Trigger) -> (r: bool)
        ensures
            r == self.v().stale_decision(text_of(node), trigger.v()),
    {
        !self.at(node).anchor_on_path(self.trigger_anchor(trigger))
    }

    /// What a change of branch leaves behind.
    pub fn void_stranded_work(&self, node: Option<&str>) -> (r: Vec<EventPayload>)
        ensures
            r.v() == self.v().void_stranded_work(text_of(node)),
    {
        proof {
            reveal(SessionStateV::void_stranded_work);
        }
        let stranded = |kind: EffectKind, tracking: &EffectTracking, anchor: Option<&str>| -> (r:
            bool)
            ensures
                r == (tracking.open() && !self.v().on_path(text_of(node), text_of(anchor))),
            { tracking.is_open() && !self.at(node).anchor_on_path(anchor) };
        let mut events = self.void_effects(stranded, Ghost(self.v().left_behind(text_of(node))));
        extend(&mut events, self.drop_stale_decisions(node));
        events
    }

    fn drop_stale_decisions(&self, node: Option<&str>) -> (r: Vec<EventPayload>)
        ensures
            r.v() == collect(self.v().effects, self.v().stale_drop(text_of(node))),
    {
        let mut out: Vec<EventPayload> = crate::model::none();
        let mut i: usize = 0;
        let ghost all = self.v().effects;
        let ghost stale = self.v().stale_drop(text_of(node));
        assert(all.take(0) =~= Seq::empty());
        while i < self.effects.len()
            invariant
                i <= self.effects@.len(),
                all == self.v().effects,
                stale == self.v().stale_drop(text_of(node)),
                out.v() == collect(all.take(i as int), stale),
            decreases self.effects@.len() - i,
        {
            proof {
                lemma_collect_step(all, stale, i as int);
            }
            let e = &self.effects[i];
            assert(all[i as int] == e.v());
            match e.decision() {
                Some(d) => {
                    if (e.tracking.state == EffectStatus::Queued || e.tracking.state
                        == EffectStatus::RetryScheduled) && self.stale_decision(node, &d.trigger) {
                        append_one(
                            &mut out,
                            EventPayload::DecisionDropped(DecisionDropped { id: e.id.dup() }),
                        );
                    }
                },
                None => {},
            }
            i = i + 1;
        }
        assert(all.take(i as int) =~= all);
        out
    }

    /// The turn is to end. Only the engine says so.
    pub fn finish_turn_events(&self, data: Json, caller: &Caller, ids: &mut Ids) -> (r: Result<
        Vec<EventPayload>,
        SessionError,
    >)
        ensures
            caller.v() is System ==> r is Ok && Batch::of(r->Ok_0.v(), final(ids).v())
                == self.v().finish_turn(data.v(), old(ids).v()),
            !(caller.v() is System) ==> r.v() == Err::<Seq<EventPayloadV>, SessionErrorV>(
                SessionErrorV::SessionAccessDenied,
            ) && final(ids).v() == old(ids).v(),
    {
        proof {
            reveal(SessionStateV::finish_turn);
        }
        match SessionState::ensure_internal(caller) {
            Err(e) => {
                return Err(e);
            },
            Ok(_) => {},
        }
        match &self.phase {
            TurnPhase::Active { turn_id } => {
                let finished = Trigger::turn_finished(
                    turn_id.dup(),
                    data,
                    self.turn_cost,
                    self.turn_token_usage.dup(),
                );
                Ok(one(decision_queued(ids, finished)))
            },
            _ => Ok(one(EventPayload::SessionDone(SessionDone {  }))),
        }
    }

    /// A worker's state is recorded where it differs from the one in force.
    pub fn worker_state_events(&self, state: Option<WorkerState>) -> (r: Vec<EventPayload>)
        ensures
            r.v() == self.v().worker_state_events(state.v()),
    {
        proof {
            reveal(SessionStateV::worker_state_events);
        }
        match state {
            None => crate::model::none(),
            Some(state) => {
                let same = state.equals(&self.at_head().resolve_state_for());
                self.write_worker_state(state, same)
            },
        }
    }

    /// A worker's state is recorded, unless it is the same as the one in force.
    pub fn write_worker_state(&self, state: WorkerState, same: bool) -> (r: Vec<EventPayload>)
        ensures
            r.v() == self.v().write_worker_state(state.v(), same),
    {
        if same {
            return crate::model::none();
        }
        one(
            EventPayload::WorkerStateUpdated(
                WorkerStateUpdated { state, anchor: self.head_id.dup() },
            ),
        )
    }

    /// A config is recorded where it differs from the one in force.
    pub fn agent_config_events(&self, config: Option<AgentConfig>) -> (r: Vec<EventPayload>)
        ensures
            r.v() == self.v().agent_config_events(config.v()),
    {
        proof {
            reveal(SessionStateV::agent_config_events);
        }
        match config {
            None => crate::model::none(),
            Some(config) => {
                let same = match self.at_head().agent() {
                    Some(current) => config.equals(current),
                    None => false,
                };
                self.write_agent_config(config, same)
            },
        }
    }

    /// A config is recorded, unless it is the same as the one in force.
    pub fn write_agent_config(&self, config: AgentConfig, same: bool) -> (r: Vec<EventPayload>)
        ensures
            r.v() == self.v().write_agent_config(config.v(), same),
    {
        if same {
            return crate::model::none();
        }
        let mut events = connector::sync(self, &config);
        append_one(
            &mut events,
            EventPayload::AgentConfigUpdated(
                AgentConfigUpdated { config, anchor: self.head_id.dup() },
            ),
        );
        events
    }
}

} // verus!
