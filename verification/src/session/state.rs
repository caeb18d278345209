//! What a session is.
use crate::model::{first, lemma_position, lemma_position_is, position, text_of, Model, Same};
use crate::protocol::config::{
    AgentConfig, AgentConfigV, ConnectionPath, ConnectionPathV, DeferToolsStrategy, SpawnMode,
    WorkerState, WorkerStateV,
};
use crate::protocol::effect::{AuthNeed, EffectKind, EffectStatus, LlmFormat, RetryPolicy};
use crate::protocol::identity::{
    InterruptOrigin, SessionOwner, SessionOwnerV, WorkerRef, WorkerRefV,
};
use crate::protocol::json::{decimal, no_cost, Json, JsonV};
use crate::protocol::llm::{LlmRequest, LlmRequestV, Usage, UsageV};
use crate::protocol::message::{DraftMessage, DraftMessageV, NewMessage, NewMessageV};
use crate::session::decision::{LlmHandler, ToolHandler, Trigger, TriggerV};
use crate::session::events::{
    ConnectorTarget, ConnectorTargetV, RemoteTool, RemoteToolV, SessionInterrupted,
    SessionInterruptedV,
};
use crate::session::retry::{after, backoff, backoff_secs, later};
use crate::text;
use rust_decimal::Decimal;
use vstd::prelude::*;

verus! {

/// How often work was tried, and when it is tried again. Instants are in
/// nanoseconds of the Unix epoch.
#[derive(Debug, Clone, Copy, PartialEq, Eq, Structural)]
pub struct RetryState {
    pub policy: RetryPolicy,
    /// Attempts before the one that is running.
    pub attempts: u32,
    pub next_at: Option<i128>,
}

impl Model for RetryState {
    type V = RetryState;

    open spec fn v(&self) -> RetryState {
        *self
    }

    fn dup(&self) -> (r: RetryState) {
        *self
    }
}

impl Same for RetryState {
    fn same(&self, other: &RetryState) -> (r: bool) {
        *self == *other
    }
}

/// Where a piece of work stands.
#[derive(Debug, Clone, Copy, PartialEq, Eq, Structural)]
pub struct EffectTracking {
    pub state: EffectStatus,
    pub retry: RetryState,
    /// When the attempt runs out.
    pub deadline: Option<i128>,
    /// When all attempts together run out.
    pub total_deadline: Option<i128>,
}

impl Model for EffectTracking {
    type V = EffectTracking;

    open spec fn v(&self) -> EffectTracking {
        *self
    }

    fn dup(&self) -> (r: EffectTracking) {
        *self
    }
}

impl Same for EffectTracking {
    fn same(&self, other: &EffectTracking) -> (r: bool) {
        *self == *other
    }
}

/// An instant `secs` after `at`, if there is a limit.
pub open spec fn limit(at: i128, secs: Option<u32>) -> Option<i128> {
    match secs {
        Some(secs) => Some(later(at, secs as int)),
        None => None,
    }
}

fn limit_at(at: i128, secs: Option<u32>) -> (r: Option<i128>)
    ensures
        r == limit(at, secs),
{
    match secs {
        Some(secs) => Some(after(at, secs)),
        None => None,
    }
}

impl EffectTracking {
    /// Work that is asked for at `at` and waits its turn.
    pub open spec fn asked(policy: RetryPolicy, attempts: u32, at: i128) -> EffectTracking {
        EffectTracking {
            state: EffectStatus::Queued,
            retry: RetryState { policy, attempts, next_at: None },
            deadline: limit(at, policy.queue_timeout_secs),
            total_deadline: limit(at, policy.total_timeout_secs),
        }
    }

    /// The work starts at `at`. A decision that is tried again counts the
    /// attempt here, since it is not asked for anew.
    pub open spec fn begun(self, at: i128) -> EffectTracking {
        EffectTracking {
            state: EffectStatus::Pending,
            retry: RetryState {
                attempts: if self.state == EffectStatus::RetryScheduled && self.retry.attempts
                    < u32::MAX {
                    (self.retry.attempts + 1) as u32
                } else {
                    self.retry.attempts
                },
                next_at: None,
                ..self.retry
            },
            deadline: limit(at, self.retry.policy.run_timeout_secs),
            ..self
        }
    }

    pub open spec fn with_state(self, state: EffectStatus) -> EffectTracking {
        EffectTracking { state, deadline: None, ..self }
    }

    /// Whether a failure ends the work: it cannot be tried again, or it was
    /// tried often enough.
    pub open spec fn ends(self, retryable: bool) -> bool {
        !retryable || self.retry.attempts + 1 >= self.retry.policy.max_attempts
    }

    /// The attempt fails at `at`: the work waits for the next one, or it failed
    /// for good.
    pub open spec fn failed(self, retryable: bool, at: i128) -> EffectTracking {
        if self.ends(retryable) {
            self.with_state(EffectStatus::Failed)
        } else {
            EffectTracking {
                state: EffectStatus::RetryScheduled,
                retry: RetryState {
                    next_at: Some(
                        later(at, backoff(self.retry.policy, self.retry.attempts) as int),
                    ),
                    ..self.retry
                },
                deadline: None,
                ..self
            }
        }
    }

    pub open spec fn open(self) -> bool {
        self.state == EffectStatus::Queued || self.state == EffectStatus::Pending || self.state
            == EffectStatus::RetryScheduled
    }

    pub open spec fn in_flight(self) -> bool {
        self.open() || self.state == EffectStatus::Running
    }

    pub open spec fn expired(self, now: i128) -> bool {
        self.deadline is Some && self.deadline->0 <= now || self.total_deadline is Some
            && self.total_deadline->0 <= now
    }

    pub fn queued(policy: RetryPolicy, attempts: u32, at: i128) -> (r: EffectTracking)
        ensures
            r == EffectTracking::asked(policy, attempts, at),
    {
        EffectTracking {
            state: EffectStatus::Queued,
            retry: RetryState { policy, attempts, next_at: None },
            deadline: limit_at(at, policy.queue_timeout_secs),
            total_deadline: limit_at(at, policy.total_timeout_secs),
        }
    }

    pub fn start(self, at: i128) -> (r: EffectTracking)
        ensures
            r == self.begun(at),
    {
        let attempts: u32 = if self.state == EffectStatus::RetryScheduled && self.retry.attempts
            < u32::MAX {
            self.retry.attempts + 1
        } else {
            self.retry.attempts
        };
        EffectTracking {
            state: EffectStatus::Pending,
            retry: RetryState { attempts, next_at: None, policy: self.retry.policy },
            deadline: limit_at(at, self.retry.policy.run_timeout_secs),
            total_deadline: self.total_deadline,
        }
    }

    pub fn enter(self, state: EffectStatus) -> (r: EffectTracking)
        ensures
            r == self.with_state(state),
    {
        EffectTracking {
            state,
            retry: self.retry,
            deadline: None,
            total_deadline: self.total_deadline,
        }
    }

    pub fn fail(self, retryable: bool, at: i128) -> (r: EffectTracking)
        ensures
            r == self.failed(retryable, at),
    {
        if self.is_terminal_failure(retryable) {
            self.enter(EffectStatus::Failed)
        } else {
            EffectTracking {
                state: EffectStatus::RetryScheduled,
                retry: RetryState {
                    next_at: Some(after(at, backoff_secs(&self.retry.policy, self.retry.attempts))),
                    attempts: self.retry.attempts,
                    policy: self.retry.policy,
                },
                deadline: None,
                total_deadline: self.total_deadline,
            }
        }
    }

    pub fn status(&self) -> (r: EffectStatus)
        ensures
            r == self.state,
    {
        self.state
    }

    /// Whether the work waits, runs, or is to be tried again.
    pub fn is_open(&self) -> (r: bool)
        ensures
            r == self.open(),
    {
        self.state == EffectStatus::Queued || self.state == EffectStatus::Pending || self.state
            == EffectStatus::RetryScheduled
    }

    /// Whether the work has not come to an end.
    pub fn is_in_flight(&self) -> (r: bool)
        ensures
            r == self.in_flight(),
    {
        self.is_open() || self.state == EffectStatus::Running
    }

    /// Whether the work came to a result.
    pub fn is_ready(&self) -> (r: bool)
        ensures
            r == (self.state == EffectStatus::Completed),
    {
        self.state == EffectStatus::Completed
    }

    /// Whether a failure would end the work.
    pub fn is_terminal_failure(&self, retryable: bool) -> (r: bool)
        ensures
            r == self.ends(retryable),
    {
        !retryable || self.retry.attempts >= self.retry.policy.max_attempts || self.retry.attempts
            + 1 >= self.retry.policy.max_attempts
    }

    /// Whether all attempts together have run out.
    pub fn total_expired(&self, now: i128) -> (r: bool)
        ensures
            r == (self.total_deadline is Some && self.total_deadline->0 <= now),
    {
        match self.total_deadline {
            Some(at) => at <= now,
            None => false,
        }
    }

    /// Whether the attempt, or all of them, have run out.
    pub fn is_expired(&self, now: i128) -> (r: bool)
        ensures
            r == self.expired(now),
    {
        let attempt = match self.deadline {
            Some(at) => at <= now,
            None => false,
        };
        attempt || self.total_expired(now)
    }
}

/// A tool call.
#[derive(Debug, PartialEq)]
pub struct ToolCallState {
    pub name: String,
    pub arguments: String,
    pub handler: ToolHandler,
    pub target: Option<ConnectorTarget>,
    /// What the call answered, or how it failed.
    pub result: Option<String>,
    pub is_error: bool,
}

/// The value of [`ToolCallState`].
pub struct ToolCallStateV {
    pub name: Seq<char>,
    pub arguments: Seq<char>,
    pub handler: ToolHandler,
    pub target: Option<ConnectorTargetV>,
    pub result: Option<Seq<char>>,
    pub is_error: bool,
}

impl Model for ToolCallState {
    type V = ToolCallStateV;

    open spec fn v(&self) -> ToolCallStateV {
        ToolCallStateV {
            name: self.name.v(),
            arguments: self.arguments.v(),
            handler: self.handler.v(),
            target: self.target.v(),
            result: self.result.v(),
            is_error: self.is_error.v(),
        }
    }

    fn dup(&self) -> (r: ToolCallState) {
        ToolCallState {
            name: self.name.dup(),
            arguments: self.arguments.dup(),
            handler: self.handler.dup(),
            target: self.target.dup(),
            result: self.result.dup(),
            is_error: self.is_error.dup(),
        }
    }
}

impl Clone for ToolCallState {
    fn clone(&self) -> (r: ToolCallState)
        ensures
            r.v() == self.v(),
    {
        self.dup()
    }
}

/// A call to a model.
#[derive(Debug, PartialEq)]
pub struct LlmCall {
    pub llm: String,
    pub format: Option<LlmFormat>,
    pub request: LlmRequest,
    pub stream: bool,
    pub handler: LlmHandler,
    pub defer_tools_strategy: DeferToolsStrategy,
    /// What the call told the model of.
    pub announced: Vec<String>,
}

/// The value of [`LlmCall`].
pub struct LlmCallV {
    pub llm: Seq<char>,
    pub format: Option<LlmFormat>,
    pub request: LlmRequestV,
    pub stream: bool,
    pub handler: LlmHandler,
    pub defer_tools_strategy: DeferToolsStrategy,
    pub announced: Seq<Seq<char>>,
}

impl Model for LlmCall {
    type V = LlmCallV;

    open spec fn v(&self) -> LlmCallV {
        LlmCallV {
            llm: self.llm.v(),
            format: self.format.v(),
            request: self.request.v(),
            stream: self.stream.v(),
            handler: self.handler.v(),
            defer_tools_strategy: self.defer_tools_strategy.v(),
            announced: self.announced.v(),
        }
    }

    fn dup(&self) -> (r: LlmCall) {
        LlmCall {
            llm: self.llm.dup(),
            format: self.format.dup(),
            request: self.request.dup(),
            stream: self.stream.dup(),
            handler: self.handler.dup(),
            defer_tools_strategy: self.defer_tools_strategy.dup(),
            announced: self.announced.dup(),
        }
    }
}

impl Clone for LlmCall {
    fn clone(&self) -> (r: LlmCall)
        ensures
            r.v() == self.v(),
    {
        self.dup()
    }
}

/// A call to a subagent: a turn of a child session.
#[derive(Debug, PartialEq)]
pub struct SubagentCall {
    pub session_id: String,
    pub agent_id: String,
    pub message: Option<DraftMessage>,
    pub mode: SpawnMode,
    pub decision_id: String,
    /// What the child answered, or how it failed.
    pub result: Option<String>,
    pub is_error: bool,
}

/// The value of [`SubagentCall`].
pub struct SubagentCallV {
    pub session_id: Seq<char>,
    pub agent_id: Seq<char>,
    pub message: Option<DraftMessageV>,
    pub mode: SpawnMode,
    pub decision_id: Seq<char>,
    pub result: Option<Seq<char>>,
    pub is_error: bool,
}

impl Model for SubagentCall {
    type V = SubagentCallV;

    open spec fn v(&self) -> SubagentCallV {
        SubagentCallV {
            session_id: self.session_id.v(),
            agent_id: self.agent_id.v(),
            message: self.message.v(),
            mode: self.mode.v(),
            decision_id: self.decision_id.v(),
            result: self.result.v(),
            is_error: self.is_error.v(),
        }
    }

    fn dup(&self) -> (r: SubagentCall) {
        SubagentCall {
            session_id: self.session_id.dup(),
            agent_id: self.agent_id.dup(),
            message: self.message.dup(),
            mode: self.mode.dup(),
            decision_id: self.decision_id.dup(),
            result: self.result.dup(),
            is_error: self.is_error.dup(),
        }
    }
}

impl Clone for SubagentCall {
    fn clone(&self) -> (r: SubagentCall)
        ensures
            r.v() == self.v(),
    {
        self.dup()
    }
}

/// What a connection offered.
#[derive(Debug, PartialEq)]
pub struct ConnectorSync {
    pub path: ConnectionPath,
    pub prefix: Option<String>,
    pub tools: Vec<RemoteTool>,
    pub instructions: Option<String>,
    /// What a person has to do before the connection answers again.
    pub auth: Option<AuthNeed>,
}

/// The value of [`ConnectorSync`].
pub struct ConnectorSyncV {
    pub path: ConnectionPathV,
    pub prefix: Option<Seq<char>>,
    pub tools: Seq<RemoteToolV>,
    pub instructions: Option<Seq<char>>,
    pub auth: Option<AuthNeed>,
}

impl Model for ConnectorSync {
    type V = ConnectorSyncV;

    open spec fn v(&self) -> ConnectorSyncV {
        ConnectorSyncV {
            path: self.path.v(),
            prefix: self.prefix.v(),
            tools: self.tools.v(),
            instructions: self.instructions.v(),
            auth: self.auth.v(),
        }
    }

    fn dup(&self) -> (r: ConnectorSync) {
        ConnectorSync {
            path: self.path.dup(),
            prefix: self.prefix.dup(),
            tools: self.tools.dup(),
            instructions: self.instructions.dup(),
            auth: self.auth.dup(),
        }
    }
}

impl Clone for ConnectorSync {
    fn clone(&self) -> (r: ConnectorSync)
        ensures
            r.v() == self.v(),
    {
        self.dup()
    }
}

/// A question to the worker.
#[derive(Debug, PartialEq)]
pub struct WorkerDecision {
    pub trigger: Trigger,
    /// The sequence number of the event that asked it.
    pub source_event_sequence: u64,
}

/// The value of [`WorkerDecision`].
pub struct WorkerDecisionV {
    pub trigger: TriggerV,
    pub source_event_sequence: u64,
}

impl Model for WorkerDecision {
    type V = WorkerDecisionV;

    open spec fn v(&self) -> WorkerDecisionV {
        WorkerDecisionV {
            trigger: self.trigger.v(),
            source_event_sequence: self.source_event_sequence.v(),
        }
    }

    fn dup(&self) -> (r: WorkerDecision) {
        WorkerDecision {
            trigger: self.trigger.dup(),
            source_event_sequence: self.source_event_sequence.dup(),
        }
    }
}

impl Clone for WorkerDecision {
    fn clone(&self) -> (r: WorkerDecision)
        ensures
            r.v() == self.v(),
    {
        self.dup()
    }
}

#[derive(Debug, PartialEq)]
pub enum EffectBody {
    Tool(ToolCallState),
    Subagent(SubagentCall),
    Llm(LlmCall),
    Connector(ConnectorSync),
    Decision(WorkerDecision),
}

/// The value of [`EffectBody`].
pub enum EffectBodyV {
    Tool(ToolCallStateV),
    Subagent(SubagentCallV),
    Llm(LlmCallV),
    Connector(ConnectorSyncV),
    Decision(WorkerDecisionV),
}

impl Model for EffectBody {
    type V = EffectBodyV;

    open spec fn v(&self) -> EffectBodyV {
        match self {
            EffectBody::Tool(a) => EffectBodyV::Tool(a.v()),
            EffectBody::Subagent(a) => EffectBodyV::Subagent(a.v()),
            EffectBody::Llm(a) => EffectBodyV::Llm(a.v()),
            EffectBody::Connector(a) => EffectBodyV::Connector(a.v()),
            EffectBody::Decision(a) => EffectBodyV::Decision(a.v()),
        }
    }

    fn dup(&self) -> (r: EffectBody) {
        match self {
            EffectBody::Tool(a) => EffectBody::Tool(a.dup()),
            EffectBody::Subagent(a) => EffectBody::Subagent(a.dup()),
            EffectBody::Llm(a) => EffectBody::Llm(a.dup()),
            EffectBody::Connector(a) => EffectBody::Connector(a.dup()),
            EffectBody::Decision(a) => EffectBody::Decision(a.dup()),
        }
    }
}

impl Clone for EffectBody {
    fn clone(&self) -> (r: EffectBody)
        ensures
            r.v() == self.v(),
    {
        self.dup()
    }
}

/// A piece of work the session asked for.
#[derive(Debug, PartialEq)]
pub struct EffectEntry {
    pub id: String,
    /// The node the conversation stood at when the work was asked for.
    pub anchor: Option<String>,
    pub tracking: EffectTracking,
    pub body: EffectBody,
}

/// The value of [`EffectEntry`].
pub struct EffectEntryV {
    pub id: Seq<char>,
    pub anchor: Option<Seq<char>>,
    pub tracking: EffectTracking,
    pub body: EffectBodyV,
}

impl Model for EffectEntry {
    type V = EffectEntryV;

    open spec fn v(&self) -> EffectEntryV {
        EffectEntryV {
            id: self.id.v(),
            anchor: self.anchor.v(),
            tracking: self.tracking.v(),
            body: self.body.v(),
        }
    }

    fn dup(&self) -> (r: EffectEntry) {
        EffectEntry {
            id: self.id.dup(),
            anchor: self.anchor.dup(),
            tracking: self.tracking.dup(),
            body: self.body.dup(),
        }
    }
}

impl Clone for EffectEntry {
    fn clone(&self) -> (r: EffectEntry)
        ensures
            r.v() == self.v(),
    {
        self.dup()
    }
}

impl EffectEntryV {
    pub open spec fn kind(self) -> EffectKind {
        match self.body {
            EffectBodyV::Tool(_) => EffectKind::ToolCall,
            EffectBodyV::Subagent(_) => EffectKind::Subagent,
            EffectBodyV::Llm(_) => EffectKind::LlmCall,
            EffectBodyV::Connector(_) => EffectKind::ConnectorSync,
            EffectBodyV::Decision(_) => EffectKind::Decision,
        }
    }

    /// Whether this is the work of that kind and id.
    pub open spec fn names(self, kind: EffectKind, id: Seq<char>) -> bool {
        self.kind() == kind && self.id == id
    }

    pub open spec fn trigger(self) -> Option<TriggerV> {
        match self.body {
            EffectBodyV::Decision(d) => Some(d.trigger),
            _ => None,
        }
    }

    pub open spec fn tool(self) -> Option<ToolCallStateV> {
        match self.body {
            EffectBodyV::Tool(t) => Some(t),
            _ => None,
        }
    }

    pub open spec fn llm(self) -> Option<LlmCallV> {
        match self.body {
            EffectBodyV::Llm(c) => Some(c),
            _ => None,
        }
    }

    pub open spec fn subagent(self) -> Option<SubagentCallV> {
        match self.body {
            EffectBodyV::Subagent(c) => Some(c),
            _ => None,
        }
    }

    pub open spec fn connector(self) -> Option<ConnectorSyncV> {
        match self.body {
            EffectBodyV::Connector(c) => Some(c),
            _ => None,
        }
    }
}

impl EffectEntry {
    pub fn kind(&self) -> (r: EffectKind)
        ensures
            r == self.v().kind(),
    {
        match &self.body {
            EffectBody::Tool(_) => EffectKind::ToolCall,
            EffectBody::Subagent(_) => EffectKind::Subagent,
            EffectBody::Llm(_) => EffectKind::LlmCall,
            EffectBody::Connector(_) => EffectKind::ConnectorSync,
            EffectBody::Decision(_) => EffectKind::Decision,
        }
    }

    pub fn is(&self, kind: EffectKind, id: &str) -> (r: bool)
        ensures
            r == self.v().names(kind, id@),
    {
        self.kind() == kind && text::eq(self.id.as_str(), id)
    }

    pub fn decision(&self) -> (r: Option<&WorkerDecision>)
        ensures
            match r {
                Some(d) => self.v().body == EffectBodyV::Decision(d.v()),
                None => self.v().trigger() is None,
            },
    {
        match &self.body {
            EffectBody::Decision(d) => Some(d),
            _ => None,
        }
    }

    pub fn tool(&self) -> (r: Option<&ToolCallState>)
        ensures
            match r {
                Some(t) => self.v().tool() == Some(t.v()),
                None => self.v().tool() is None,
            },
    {
        match &self.body {
            EffectBody::Tool(t) => Some(t),
            _ => None,
        }
    }

    pub fn llm(&self) -> (r: Option<&LlmCall>)
        ensures
            match r {
                Some(c) => self.v().llm() == Some(c.v()),
                None => self.v().llm() is None,
            },
    {
        match &self.body {
            EffectBody::Llm(c) => Some(c),
            _ => None,
        }
    }

    pub fn subagent(&self) -> (r: Option<&SubagentCall>)
        ensures
            match r {
                Some(c) => self.v().subagent() == Some(c.v()),
                None => self.v().subagent() is None,
            },
    {
        match &self.body {
            EffectBody::Subagent(c) => Some(c),
            _ => None,
        }
    }

    pub fn connector(&self) -> (r: Option<&ConnectorSync>)
        ensures
            match r {
                Some(c) => self.v().connector() == Some(c.v()),
                None => self.v().connector() is None,
            },
    {
        match &self.body {
            EffectBody::Connector(c) => Some(c),
            _ => None,
        }
    }
}

/// Work that waits its turn.
#[derive(Debug, PartialEq)]
pub struct QueueEntry {
    pub kind: EffectKind,
    pub id: String,
}

/// The value of [`QueueEntry`].
pub struct QueueEntryV {
    pub kind: EffectKind,
    pub id: Seq<char>,
}

impl Model for QueueEntry {
    type V = QueueEntryV;

    open spec fn v(&self) -> QueueEntryV {
        QueueEntryV {
            kind: self.kind.v(),
            id: self.id.v(),
        }
    }

    fn dup(&self) -> (r: QueueEntry) {
        QueueEntry {
            kind: self.kind.dup(),
            id: self.id.dup(),
        }
    }
}

impl Clone for QueueEntry {
    fn clone(&self) -> (r: QueueEntry)
        ensures
            r.v() == self.v(),
    {
        self.dup()
    }
}

/// A turn whose output is fixed and whose last decision is out.
#[derive(Debug, PartialEq)]
pub struct Finalizing {
    pub turn_id: String,
    pub data: Json,
    pub cost: Decimal,
    pub usage: Usage,
}

/// The value of [`Finalizing`].
pub struct FinalizingV {
    pub turn_id: Seq<char>,
    pub data: JsonV,
    pub cost: rust_decimal::Decimal,
    pub usage: UsageV,
}

impl Model for Finalizing {
    type V = FinalizingV;

    open spec fn v(&self) -> FinalizingV {
        FinalizingV {
            turn_id: self.turn_id.v(),
            data: self.data.v(),
            cost: self.cost.v(),
            usage: self.usage.v(),
        }
    }

    fn dup(&self) -> (r: Finalizing) {
        Finalizing {
            turn_id: self.turn_id.dup(),
            data: self.data.dup(),
            cost: self.cost.dup(),
            usage: self.usage.dup(),
        }
    }
}

impl Clone for Finalizing {
    fn clone(&self) -> (r: Finalizing)
        ensures
            r.v() == self.v(),
    {
        self.dup()
    }
}

/// Which turn runs.
#[derive(Debug, PartialEq)]
pub enum TurnPhase {
    Idle,
    Active { turn_id: String },
    Finalizing(Finalizing),
}

/// The value of [`TurnPhase`].
pub enum TurnPhaseV {
    Idle,
    Active { turn_id: Seq<char> },
    Finalizing(FinalizingV),
}

impl Model for TurnPhase {
    type V = TurnPhaseV;

    open spec fn v(&self) -> TurnPhaseV {
        match self {
            TurnPhase::Idle => TurnPhaseV::Idle,
            TurnPhase::Active { turn_id } => TurnPhaseV::Active {
                turn_id: turn_id.v(),
            },
            TurnPhase::Finalizing(a) => TurnPhaseV::Finalizing(a.v()),
        }
    }

    fn dup(&self) -> (r: TurnPhase) {
        match self {
            TurnPhase::Idle => TurnPhase::Idle,
            TurnPhase::Active { turn_id } => TurnPhase::Active {
                turn_id: turn_id.dup(),
            },
            TurnPhase::Finalizing(a) => TurnPhase::Finalizing(a.dup()),
        }
    }
}

impl Clone for TurnPhase {
    fn clone(&self) -> (r: TurnPhase)
        ensures
            r.v() == self.v(),
    {
        self.dup()
    }
}

impl TurnPhaseV {
    pub open spec fn turn_id(self) -> Option<Seq<char>> {
        match self {
            TurnPhaseV::Idle => None,
            TurnPhaseV::Active { turn_id } => Some(turn_id),
            TurnPhaseV::Finalizing(f) => Some(f.turn_id),
        }
    }
}

impl TurnPhase {
    /// The turn that holds the session.
    pub fn turn_id(&self) -> (r: Option<&str>)
        ensures
            text_of(r) == self.v().turn_id(),
    {
        match self {
            TurnPhase::Idle => None,
            TurnPhase::Active { turn_id } => Some(turn_id.as_str()),
            TurnPhase::Finalizing(f) => Some(f.turn_id.as_str()),
        }
    }

    pub fn finalizing(&self) -> (r: Option<&Finalizing>)
        ensures
            match r {
                Some(f) => self.v() == TurnPhaseV::Finalizing(f.v()),
                None => !(self.v() is Finalizing),
            },
    {
        match self {
            TurnPhase::Finalizing(f) => Some(f),
            _ => None,
        }
    }

    pub fn is_active(&self) -> (r: bool)
        ensures
            r == (self.v() is Active),
    {
        match self {
            TurnPhase::Active { .. } => true,
            _ => false,
        }
    }
}

#[derive(Debug, PartialEq)]
pub enum SessionStatus {
    Idle,
    Done,
    Interrupted { interrupt_id: String, origin: InterruptOrigin },
}

/// The value of [`SessionStatus`].
pub enum SessionStatusV {
    Idle,
    Done,
    Interrupted { interrupt_id: Seq<char>, origin: InterruptOrigin },
}

impl Model for SessionStatus {
    type V = SessionStatusV;

    open spec fn v(&self) -> SessionStatusV {
        match self {
            SessionStatus::Idle => SessionStatusV::Idle,
            SessionStatus::Done => SessionStatusV::Done,
            SessionStatus::Interrupted { interrupt_id, origin } => SessionStatusV::Interrupted {
                interrupt_id: interrupt_id.v(),
                origin: origin.v(),
            },
        }
    }

    fn dup(&self) -> (r: SessionStatus) {
        match self {
            SessionStatus::Idle => SessionStatus::Idle,
            SessionStatus::Done => SessionStatus::Done,
            SessionStatus::Interrupted { interrupt_id, origin } => SessionStatus::Interrupted {
                interrupt_id: interrupt_id.dup(),
                origin: origin.dup(),
            },
        }
    }
}

impl Clone for SessionStatus {
    fn clone(&self) -> (r: SessionStatus)
        ensures
            r.v() == self.v(),
    {
        self.dup()
    }
}

/// A config, and the node it was written at.
#[derive(Debug, PartialEq)]
pub struct AgentVersion {
    pub value: AgentConfig,
    pub anchor: Option<String>,
}

/// The value of [`AgentVersion`].
pub struct AgentVersionV {
    pub value: AgentConfigV,
    pub anchor: Option<Seq<char>>,
}

impl Model for AgentVersion {
    type V = AgentVersionV;

    open spec fn v(&self) -> AgentVersionV {
        AgentVersionV {
            value: self.value.v(),
            anchor: self.anchor.v(),
        }
    }

    fn dup(&self) -> (r: AgentVersion) {
        AgentVersion {
            value: self.value.dup(),
            anchor: self.anchor.dup(),
        }
    }
}

impl Clone for AgentVersion {
    fn clone(&self) -> (r: AgentVersion)
        ensures
            r.v() == self.v(),
    {
        self.dup()
    }
}

/// A worker state, and the node it was written at.
#[derive(Debug, PartialEq)]
pub struct StateVersion {
    pub value: WorkerState,
    pub anchor: Option<String>,
}

/// The value of [`StateVersion`].
pub struct StateVersionV {
    pub value: WorkerStateV,
    pub anchor: Option<Seq<char>>,
}

impl Model for StateVersion {
    type V = StateVersionV;

    open spec fn v(&self) -> StateVersionV {
        StateVersionV {
            value: self.value.v(),
            anchor: self.anchor.v(),
        }
    }

    fn dup(&self) -> (r: StateVersion) {
        StateVersion {
            value: self.value.dup(),
            anchor: self.anchor.dup(),
        }
    }
}

impl Clone for StateVersion {
    fn clone(&self) -> (r: StateVersion)
        ensures
            r.v() == self.v(),
    {
        self.dup()
    }
}

/// An entry, and the sequence number of the event that wrote it.
#[derive(Debug, PartialEq)]
pub struct Logged<T> {
    pub seq: u64,
    pub entry: T,
}

/// The value of [`Logged`].
pub struct LoggedV<V> {
    pub seq: u64,
    pub entry: V,
}

impl<T: Model> Model for Logged<T> {
    type V = LoggedV<T::V>;

    open spec fn v(&self) -> LoggedV<T::V> {
        LoggedV { seq: self.seq, entry: self.entry.v() }
    }

    fn dup(&self) -> (r: Logged<T>) {
        Logged { seq: self.seq, entry: self.entry.dup() }
    }
}

/// Everything the events of a session say, put together.
#[derive(Debug, PartialEq)]
pub struct SessionState {
    pub session_id: String,
    pub agent_id: Option<String>,
    pub owner: Option<SessionOwner>,
    pub ancestry: Vec<String>,
    pub worker: Option<WorkerRef>,
    pub worker_retry: RetryPolicy,
    pub nodes: Vec<NewMessage>,
    pub head_id: Option<String>,
    pub status: SessionStatus,
    pub phase: TurnPhase,
    pub turn_cost: Decimal,
    pub turn_token_usage: Usage,
    pub completed_turn_ids: Vec<String>,
    /// No kind and id stand twice.
    pub effects: Vec<EffectEntry>,
    /// In the order of arrival. No kind and id stand twice.
    pub schedule_queue: Vec<QueueEntry>,
    pub open_interrupts: Vec<SessionInterrupted>,
    pub agent_versions: Vec<Logged<AgentVersion>>,
    pub state_versions: Vec<Logged<StateVersion>>,
    pub subagent_cost: Decimal,
    pub detached_turns: Vec<String>,
    pub session_start_failed: bool,
}

/// The value of [`SessionState`].
#[verifier::ext_equal]
pub struct SessionStateV {
    pub session_id: Seq<char>,
    pub agent_id: Option<Seq<char>>,
    pub owner: Option<SessionOwnerV>,
    pub ancestry: Seq<Seq<char>>,
    pub worker: Option<WorkerRefV>,
    pub worker_retry: RetryPolicy,
    pub nodes: Seq<NewMessageV>,
    pub head_id: Option<Seq<char>>,
    pub status: SessionStatusV,
    pub phase: TurnPhaseV,
    pub turn_cost: rust_decimal::Decimal,
    pub turn_token_usage: UsageV,
    pub completed_turn_ids: Seq<Seq<char>>,
    pub effects: Seq<EffectEntryV>,
    pub schedule_queue: Seq<QueueEntryV>,
    pub open_interrupts: Seq<SessionInterruptedV>,
    pub agent_versions: Seq<LoggedV<AgentVersionV>>,
    pub state_versions: Seq<LoggedV<StateVersionV>>,
    pub subagent_cost: rust_decimal::Decimal,
    pub detached_turns: Seq<Seq<char>>,
    pub session_start_failed: bool,
}

impl Model for SessionState {
    type V = SessionStateV;

    open spec fn v(&self) -> SessionStateV {
        SessionStateV {
            session_id: self.session_id.v(),
            agent_id: self.agent_id.v(),
            owner: self.owner.v(),
            ancestry: self.ancestry.v(),
            worker: self.worker.v(),
            worker_retry: self.worker_retry.v(),
            nodes: self.nodes.v(),
            head_id: self.head_id.v(),
            status: self.status.v(),
            phase: self.phase.v(),
            turn_cost: self.turn_cost.v(),
            turn_token_usage: self.turn_token_usage.v(),
            completed_turn_ids: self.completed_turn_ids.v(),
            effects: self.effects.v(),
            schedule_queue: self.schedule_queue.v(),
            open_interrupts: self.open_interrupts.v(),
            agent_versions: self.agent_versions.v(),
            state_versions: self.state_versions.v(),
            subagent_cost: self.subagent_cost.v(),
            detached_turns: self.detached_turns.v(),
            session_start_failed: self.session_start_failed.v(),
        }
    }

    fn dup(&self) -> (r: SessionState) {
        SessionState {
            session_id: self.session_id.dup(),
            agent_id: self.agent_id.dup(),
            owner: self.owner.dup(),
            ancestry: self.ancestry.dup(),
            worker: self.worker.dup(),
            worker_retry: self.worker_retry.dup(),
            nodes: self.nodes.dup(),
            head_id: self.head_id.dup(),
            status: self.status.dup(),
            phase: self.phase.dup(),
            turn_cost: self.turn_cost.dup(),
            turn_token_usage: self.turn_token_usage.dup(),
            completed_turn_ids: self.completed_turn_ids.dup(),
            effects: self.effects.dup(),
            schedule_queue: self.schedule_queue.dup(),
            open_interrupts: self.open_interrupts.dup(),
            agent_versions: self.agent_versions.dup(),
            state_versions: self.state_versions.dup(),
            subagent_cost: self.subagent_cost.dup(),
            detached_turns: self.detached_turns.dup(),
            session_start_failed: self.session_start_failed.dup(),
        }
    }
}

impl Clone for SessionState {
    fn clone(&self) -> (r: SessionState)
        ensures
            r.v() == self.v(),
    {
        self.dup()
    }
}

impl SessionStateV {
    /// A session before its first event.
    pub open spec fn new(session_id: Seq<char>) -> SessionStateV {
        SessionStateV {
            session_id,
            agent_id: None,
            owner: None,
            ancestry: Seq::empty(),
            worker: None,
            worker_retry: RetryPolicy::once(),
            nodes: Seq::empty(),
            head_id: None,
            status: SessionStatusV::Idle,
            phase: TurnPhaseV::Idle,
            turn_cost: decimal(0, 0),
            turn_token_usage: UsageV::zero(),
            completed_turn_ids: Seq::empty(),
            effects: Seq::empty(),
            schedule_queue: Seq::empty(),
            open_interrupts: Seq::empty(),
            agent_versions: Seq::empty(),
            state_versions: Seq::empty(),
            subagent_cost: decimal(0, 0),
            detached_turns: Seq::empty(),
            session_start_failed: false,
        }
    }

    /// Where the work of a kind and id stands in the table.
    pub open spec fn effect_at(self, kind: EffectKind, id: Seq<char>) -> Option<int> {
        position(self.effects, named(kind, id))
    }

    /// The work of a kind and id.
    pub open spec fn effect(self, kind: EffectKind, id: Seq<char>) -> Option<EffectEntryV> {
        first(self.effects, named(kind, id))
    }

    pub open spec fn tracking(self, kind: EffectKind, id: Seq<char>) -> Option<EffectTracking> {
        match self.effect(kind, id) {
            Some(e) => Some(e.tracking),
            None => None,
        }
    }

    pub open spec fn has_status(self, kind: EffectKind, id: Seq<char>, state: EffectStatus) -> bool {
        self.tracking(kind, id) is Some && self.tracking(kind, id)->0.state == state
    }

    /// The trigger of a decision.
    pub open spec fn trigger(self, id: Seq<char>) -> Option<TriggerV> {
        match self.effect(EffectKind::Decision, id) {
            Some(e) => e.trigger(),
            None => None,
        }
    }
}

pub open spec fn named(kind: EffectKind, id: Seq<char>) -> spec_fn(EffectEntryV) -> bool {
    |e: EffectEntryV| e.names(kind, id)
}

pub open spec fn queued_as(kind: EffectKind, id: Seq<char>) -> spec_fn(QueueEntryV) -> bool {
    |q: QueueEntryV| q.kind == kind && q.id == id
}

/// Finds the work of a kind and id.
pub fn find_effect(effects: &Vec<EffectEntry>, kind: EffectKind, id: &str) -> (r: Option<usize>)
    ensures
        match r {
            Some(i) => i < effects@.len() && position(effects.v(), named(kind, id@)) == Some(
                i as int,
            ),
            None => position(effects.v(), named(kind, id@)) is None,
        },
{
    let mut i: usize = 0;
    while i < effects.len()
        invariant
            i <= effects@.len(),
            forall|j: int| 0 <= j < i ==> !named(kind, id@)(#[trigger] effects.v()[j]),
        decreases effects@.len() - i,
    {
        if effects[i].is(kind, id) {
            proof {
                lemma_position_is(effects.v(), named(kind, id@), i as int);
            }
            return Some(i);
        }
        i = i + 1;
    }
    proof {
        lemma_position(effects.v(), named(kind, id@));
    }
    None
}

/// Finds an entry of the queue.
pub fn find_queued(queue: &Vec<QueueEntry>, kind: EffectKind, id: &str) -> (r: Option<usize>)
    ensures
        match r {
            Some(i) => i < queue@.len() && position(queue.v(), queued_as(kind, id@)) == Some(
                i as int,
            ),
            None => position(queue.v(), queued_as(kind, id@)) is None,
        },
{
    let mut i: usize = 0;
    while i < queue.len()
        invariant
            i <= queue@.len(),
            forall|j: int| 0 <= j < i ==> !queued_as(kind, id@)(#[trigger] queue.v()[j]),
        decreases queue@.len() - i,
    {
        if queue[i].kind == kind && text::eq(queue[i].id.as_str(), id) {
            proof {
                lemma_position_is(queue.v(), queued_as(kind, id@), i as int);
            }
            return Some(i);
        }
        i = i + 1;
    }
    proof {
        lemma_position(queue.v(), queued_as(kind, id@));
    }
    None
}

impl SessionState {
    /// A session before its first event.
    pub fn new(session_id: String) -> (r: SessionState)
        ensures
            r.v() == SessionStateV::new(session_id@),
    {
        let r = SessionState {
            session_id,
            agent_id: None,
            owner: None,
            ancestry: crate::model::none(),
            worker: None,
            worker_retry: RetryPolicy::no_retry(),
            nodes: crate::model::none(),
            head_id: None,
            status: SessionStatus::Idle,
            phase: TurnPhase::Idle,
            turn_cost: no_cost(),
            turn_token_usage: Usage::default(),
            completed_turn_ids: crate::model::none(),
            effects: crate::model::none(),
            schedule_queue: crate::model::none(),
            open_interrupts: crate::model::none(),
            agent_versions: crate::model::none(),
            state_versions: crate::model::none(),
            subagent_cost: no_cost(),
            detached_turns: crate::model::none(),
            session_start_failed: false,
        };
        assert(r.v() =~= SessionStateV::new(session_id@));
        r
    }

    /// The work of a kind and id.
    pub fn effect(&self, kind: EffectKind, id: &str) -> (r: Option<&EffectEntry>)
        ensures
            match r {
                Some(e) => self.v().effect(kind, id@) == Some(e.v()),
                None => self.v().effect(kind, id@) is None,
            },
    {
        match find_effect(&self.effects, kind, id) {
            Some(i) => Some(&self.effects[i]),
            None => None,
        }
    }

    pub fn has_effect(&self, kind: EffectKind, id: &str) -> (r: bool)
        ensures
            r == (self.v().effect(kind, id@) is Some),
    {
        self.effect(kind, id).is_some()
    }

    pub fn tracking(&self, kind: EffectKind, id: &str) -> (r: Option<EffectTracking>)
        ensures
            r == self.v().tracking(kind, id@),
    {
        match self.effect(kind, id) {
            Some(e) => Some(e.tracking),
            None => None,
        }
    }

    /// The question a decision asks.
    pub fn worker_decision(&self, id: &str) -> (r: Option<&WorkerDecision>)
        ensures
            match r {
                Some(d) => self.v().trigger(id@) == Some(d.trigger.v()),
                None => self.v().trigger(id@) is None,
            },
    {
        proof {
            lemma_position(self.effects.v(), named(EffectKind::Decision, id@));
        }
        match self.effect(EffectKind::Decision, id) {
            Some(e) => e.decision(),
            None => None,
        }
    }

    pub fn tool_call(&self, id: &str) -> (r: Option<&ToolCallState>)
        ensures
            match r {
                Some(t) => self.v().effect(EffectKind::ToolCall, id@) is Some
                    && self.v().effect(EffectKind::ToolCall, id@)->0.tool() == Some(t.v()),
                None => self.v().effect(EffectKind::ToolCall, id@) is None,
            },
    {
        proof {
            lemma_position(self.effects.v(), named(EffectKind::ToolCall, id@));
        }
        match self.effect(EffectKind::ToolCall, id) {
            Some(e) => e.tool(),
            None => None,
        }
    }

    pub fn llm_call(&self, id: &str) -> (r: Option<&LlmCall>)
        ensures
            match r {
                Some(c) => self.v().effect(EffectKind::LlmCall, id@) is Some && self.v().effect(
                    EffectKind::LlmCall,
                    id@,
                )->0.llm() == Some(c.v()),
                None => self.v().effect(EffectKind::LlmCall, id@) is None,
            },
    {
        proof {
            lemma_position(self.effects.v(), named(EffectKind::LlmCall, id@));
        }
        match self.effect(EffectKind::LlmCall, id) {
            Some(e) => e.llm(),
            None => None,
        }
    }

    pub fn subagent(&self, id: &str) -> (r: Option<&SubagentCall>)
        ensures
            match r {
                Some(c) => self.v().effect(EffectKind::Subagent, id@) is Some && self.v().effect(
                    EffectKind::Subagent,
                    id@,
                )->0.subagent() == Some(c.v()),
                None => self.v().effect(EffectKind::Subagent, id@) is None,
            },
    {
        proof {
            lemma_position(self.effects.v(), named(EffectKind::Subagent, id@));
        }
        match self.effect(EffectKind::Subagent, id) {
            Some(e) => e.subagent(),
            None => None,
        }
    }
}

} // verus!
