//! What happened in a session.
use crate::model::{Model, Same};
use crate::protocol::config::{
    AgentConfig, AgentConfigV, ConnectionPath, ConnectionPathV, DeferToolsStrategy, SpawnMode,
    WorkerState, WorkerStateV,
};
use crate::protocol::effect::{AuthNeed, EffectKind, LlmFormat, RetryPolicy};
use crate::protocol::error::{ErrorInfo, ErrorInfoV};
use crate::protocol::identity::{
    InterruptOrigin, SessionOwner, SessionOwnerV, WorkerRef, WorkerRefV,
};
use crate::protocol::json::{Json, JsonV};
use crate::protocol::llm::{
    LlmRequest, LlmRequestV, LlmResponse, LlmResponseV, LlmTool, LlmToolV, Usage, UsageV,
};
use crate::protocol::message::{DraftMessage, DraftMessageV, NewMessage, NewMessageV};
use crate::protocol::result::{StoredResult, StoredResultV};
use crate::protocol::wire::{by_channel, ChannelView, ChannelViewV};
use crate::session::decision::{LlmHandler, ToolHandler, Trigger, TriggerV};
use rust_decimal::Decimal;
use vstd::prelude::*;

verus! {

#[derive(Debug, PartialEq)]
pub struct SessionCreated {
    pub agent_id: String,
    pub identity: SessionOwner,
    pub ancestry: Vec<String>,
    pub worker_retry: RetryPolicy,
    pub worker: Option<WorkerRef>,
}

/// The value of [`SessionCreated`].
pub struct SessionCreatedV {
    pub agent_id: Seq<char>,
    pub identity: SessionOwnerV,
    pub ancestry: Seq<Seq<char>>,
    pub worker_retry: RetryPolicy,
    pub worker: Option<WorkerRefV>,
}

impl Model for SessionCreated {
    type V = SessionCreatedV;

    open spec fn v(&self) -> SessionCreatedV {
        SessionCreatedV {
            agent_id: self.agent_id.v(),
            identity: self.identity.v(),
            ancestry: self.ancestry.v(),
            worker_retry: self.worker_retry.v(),
            worker: self.worker.v(),
        }
    }

    fn dup(&self) -> (r: SessionCreated) {
        SessionCreated {
            agent_id: self.agent_id.dup(),
            identity: self.identity.dup(),
            ancestry: self.ancestry.dup(),
            worker_retry: self.worker_retry.dup(),
            worker: self.worker.dup(),
        }
    }
}

impl Clone for SessionCreated {
    fn clone(&self) -> (r: SessionCreated)
        ensures
            r.v() == self.v(),
    {
        self.dup()
    }
}

#[derive(Debug, PartialEq)]
pub struct AgentConfigUpdated {
    pub config: AgentConfig,
    pub anchor: Option<String>,
}

/// The value of [`AgentConfigUpdated`].
pub struct AgentConfigUpdatedV {
    pub config: AgentConfigV,
    pub anchor: Option<Seq<char>>,
}

impl Model for AgentConfigUpdated {
    type V = AgentConfigUpdatedV;

    open spec fn v(&self) -> AgentConfigUpdatedV {
        AgentConfigUpdatedV {
            config: self.config.v(),
            anchor: self.anchor.v(),
        }
    }

    fn dup(&self) -> (r: AgentConfigUpdated) {
        AgentConfigUpdated {
            config: self.config.dup(),
            anchor: self.anchor.dup(),
        }
    }
}

impl Clone for AgentConfigUpdated {
    fn clone(&self) -> (r: AgentConfigUpdated)
        ensures
            r.v() == self.v(),
    {
        self.dup()
    }
}

#[derive(Debug, PartialEq)]
pub struct WorkerStateUpdated {
    pub state: WorkerState,
    pub anchor: Option<String>,
}

/// The value of [`WorkerStateUpdated`].
pub struct WorkerStateUpdatedV {
    pub state: WorkerStateV,
    pub anchor: Option<Seq<char>>,
}

impl Model for WorkerStateUpdated {
    type V = WorkerStateUpdatedV;

    open spec fn v(&self) -> WorkerStateUpdatedV {
        WorkerStateUpdatedV {
            state: self.state.v(),
            anchor: self.anchor.v(),
        }
    }

    fn dup(&self) -> (r: WorkerStateUpdated) {
        WorkerStateUpdated {
            state: self.state.dup(),
            anchor: self.anchor.dup(),
        }
    }
}

impl Clone for WorkerStateUpdated {
    fn clone(&self) -> (r: WorkerStateUpdated)
        ensures
            r.v() == self.v(),
    {
        self.dup()
    }
}

#[derive(Debug, PartialEq)]
pub struct DecisionQueued {
    pub id: String,
    pub trigger: Trigger,
}

/// The value of [`DecisionQueued`].
pub struct DecisionQueuedV {
    pub id: Seq<char>,
    pub trigger: TriggerV,
}

impl Model for DecisionQueued {
    type V = DecisionQueuedV;

    open spec fn v(&self) -> DecisionQueuedV {
        DecisionQueuedV {
            id: self.id.v(),
            trigger: self.trigger.v(),
        }
    }

    fn dup(&self) -> (r: DecisionQueued) {
        DecisionQueued {
            id: self.id.dup(),
            trigger: self.trigger.dup(),
        }
    }
}

impl Clone for DecisionQueued {
    fn clone(&self) -> (r: DecisionQueued)
        ensures
            r.v() == self.v(),
    {
        self.dup()
    }
}

#[derive(Debug, PartialEq)]
pub struct DecisionDispatched {
    pub id: String,
}

/// The value of [`DecisionDispatched`].
pub struct DecisionDispatchedV {
    pub id: Seq<char>,
}

impl Model for DecisionDispatched {
    type V = DecisionDispatchedV;

    open spec fn v(&self) -> DecisionDispatchedV {
        DecisionDispatchedV {
            id: self.id.v(),
        }
    }

    fn dup(&self) -> (r: DecisionDispatched) {
        DecisionDispatched {
            id: self.id.dup(),
        }
    }
}

impl Clone for DecisionDispatched {
    fn clone(&self) -> (r: DecisionDispatched)
        ensures
            r.v() == self.v(),
    {
        self.dup()
    }
}

#[derive(Debug, PartialEq)]
pub struct DecisionCompleted {
    pub id: String,
}

/// The value of [`DecisionCompleted`].
pub struct DecisionCompletedV {
    pub id: Seq<char>,
}

impl Model for DecisionCompleted {
    type V = DecisionCompletedV;

    open spec fn v(&self) -> DecisionCompletedV {
        DecisionCompletedV {
            id: self.id.v(),
        }
    }

    fn dup(&self) -> (r: DecisionCompleted) {
        DecisionCompleted {
            id: self.id.dup(),
        }
    }
}

impl Clone for DecisionCompleted {
    fn clone(&self) -> (r: DecisionCompleted)
        ensures
            r.v() == self.v(),
    {
        self.dup()
    }
}

#[derive(Debug, PartialEq)]
pub struct DecisionDropped {
    pub id: String,
}

/// The value of [`DecisionDropped`].
pub struct DecisionDroppedV {
    pub id: Seq<char>,
}

impl Model for DecisionDropped {
    type V = DecisionDroppedV;

    open spec fn v(&self) -> DecisionDroppedV {
        DecisionDroppedV {
            id: self.id.v(),
        }
    }

    fn dup(&self) -> (r: DecisionDropped) {
        DecisionDropped {
            id: self.id.dup(),
        }
    }
}

impl Clone for DecisionDropped {
    fn clone(&self) -> (r: DecisionDropped)
        ensures
            r.v() == self.v(),
    {
        self.dup()
    }
}

#[derive(Debug, PartialEq)]
pub struct DecisionErrored {
    pub id: String,
    pub error: ErrorInfo,
    pub retryable: bool,
}

/// The value of [`DecisionErrored`].
pub struct DecisionErroredV {
    pub id: Seq<char>,
    pub error: ErrorInfoV,
    pub retryable: bool,
}

impl Model for DecisionErrored {
    type V = DecisionErroredV;

    open spec fn v(&self) -> DecisionErroredV {
        DecisionErroredV {
            id: self.id.v(),
            error: self.error.v(),
            retryable: self.retryable.v(),
        }
    }

    fn dup(&self) -> (r: DecisionErrored) {
        DecisionErrored {
            id: self.id.dup(),
            error: self.error.dup(),
            retryable: self.retryable.dup(),
        }
    }
}

impl Clone for DecisionErrored {
    fn clone(&self) -> (r: DecisionErrored)
        ensures
            r.v() == self.v(),
    {
        self.dup()
    }
}

/// What the engine runs for a tool call of its own.
#[derive(Debug, PartialEq)]
pub enum ConnectorTarget {
    /// A tool of a connection.
    Remote { path: ConnectionPath, remote_name: String },
    /// A search of the offered tools.
    Find,
    /// A call that names no tool the engine can run.
    Call,
    /// A skill of a plugin.
    Skill,
    /// A file of the conversation.
    Attachment,
}

/// The value of [`ConnectorTarget`].
pub enum ConnectorTargetV {
    Remote { path: ConnectionPathV, remote_name: Seq<char> },
    Find,
    Call,
    Skill,
    Attachment,
}

impl Model for ConnectorTarget {
    type V = ConnectorTargetV;

    open spec fn v(&self) -> ConnectorTargetV {
        match self {
            ConnectorTarget::Remote { path, remote_name } => ConnectorTargetV::Remote {
                path: path.v(),
                remote_name: remote_name.v(),
            },
            ConnectorTarget::Find => ConnectorTargetV::Find,
            ConnectorTarget::Call => ConnectorTargetV::Call,
            ConnectorTarget::Skill => ConnectorTargetV::Skill,
            ConnectorTarget::Attachment => ConnectorTargetV::Attachment,
        }
    }

    fn dup(&self) -> (r: ConnectorTarget) {
        match self {
            ConnectorTarget::Remote { path, remote_name } => ConnectorTarget::Remote {
                path: path.dup(),
                remote_name: remote_name.dup(),
            },
            ConnectorTarget::Find => ConnectorTarget::Find,
            ConnectorTarget::Call => ConnectorTarget::Call,
            ConnectorTarget::Skill => ConnectorTarget::Skill,
            ConnectorTarget::Attachment => ConnectorTarget::Attachment,
        }
    }
}

impl Clone for ConnectorTarget {
    fn clone(&self) -> (r: ConnectorTarget)
        ensures
            r.v() == self.v(),
    {
        self.dup()
    }
}

#[derive(Debug, PartialEq)]
pub struct ToolCallRequested {
    pub id: String,
    pub attempt: u32,
    pub name: String,
    pub arguments: String,
    pub handler: ToolHandler,
    pub target: Option<ConnectorTarget>,
    pub retry: RetryPolicy,
}

/// The value of [`ToolCallRequested`].
pub struct ToolCallRequestedV {
    pub id: Seq<char>,
    pub attempt: u32,
    pub name: Seq<char>,
    pub arguments: Seq<char>,
    pub handler: ToolHandler,
    pub target: Option<ConnectorTargetV>,
    pub retry: RetryPolicy,
}

impl Model for ToolCallRequested {
    type V = ToolCallRequestedV;

    open spec fn v(&self) -> ToolCallRequestedV {
        ToolCallRequestedV {
            id: self.id.v(),
            attempt: self.attempt.v(),
            name: self.name.v(),
            arguments: self.arguments.v(),
            handler: self.handler.v(),
            target: self.target.v(),
            retry: self.retry.v(),
        }
    }

    fn dup(&self) -> (r: ToolCallRequested) {
        ToolCallRequested {
            id: self.id.dup(),
            attempt: self.attempt.dup(),
            name: self.name.dup(),
            arguments: self.arguments.dup(),
            handler: self.handler.dup(),
            target: self.target.dup(),
            retry: self.retry.dup(),
        }
    }
}

impl Clone for ToolCallRequested {
    fn clone(&self) -> (r: ToolCallRequested)
        ensures
            r.v() == self.v(),
    {
        self.dup()
    }
}

#[derive(Debug, PartialEq)]
pub struct ToolCallDispatched {
    pub id: String,
}

/// The value of [`ToolCallDispatched`].
pub struct ToolCallDispatchedV {
    pub id: Seq<char>,
}

impl Model for ToolCallDispatched {
    type V = ToolCallDispatchedV;

    open spec fn v(&self) -> ToolCallDispatchedV {
        ToolCallDispatchedV {
            id: self.id.v(),
        }
    }

    fn dup(&self) -> (r: ToolCallDispatched) {
        ToolCallDispatched {
            id: self.id.dup(),
        }
    }
}

impl Clone for ToolCallDispatched {
    fn clone(&self) -> (r: ToolCallDispatched)
        ensures
            r.v() == self.v(),
    {
        self.dup()
    }
}

#[derive(Debug, PartialEq)]
pub struct ToolCallCompleted {
    pub id: String,
    pub result: StoredResult,
}

/// The value of [`ToolCallCompleted`].
pub struct ToolCallCompletedV {
    pub id: Seq<char>,
    pub result: StoredResultV,
}

impl Model for ToolCallCompleted {
    type V = ToolCallCompletedV;

    open spec fn v(&self) -> ToolCallCompletedV {
        ToolCallCompletedV {
            id: self.id.v(),
            result: self.result.v(),
        }
    }

    fn dup(&self) -> (r: ToolCallCompleted) {
        ToolCallCompleted {
            id: self.id.dup(),
            result: self.result.dup(),
        }
    }
}

impl Clone for ToolCallCompleted {
    fn clone(&self) -> (r: ToolCallCompleted)
        ensures
            r.v() == self.v(),
    {
        self.dup()
    }
}

#[derive(Debug, PartialEq)]
pub struct ToolCallErrored {
    pub id: String,
    pub error: ErrorInfo,
    pub retryable: bool,
    pub auth: Option<AuthNeed>,
}

/// The value of [`ToolCallErrored`].
pub struct ToolCallErroredV {
    pub id: Seq<char>,
    pub error: ErrorInfoV,
    pub retryable: bool,
    pub auth: Option<AuthNeed>,
}

impl Model for ToolCallErrored {
    type V = ToolCallErroredV;

    open spec fn v(&self) -> ToolCallErroredV {
        ToolCallErroredV {
            id: self.id.v(),
            error: self.error.v(),
            retryable: self.retryable.v(),
            auth: self.auth.v(),
        }
    }

    fn dup(&self) -> (r: ToolCallErrored) {
        ToolCallErrored {
            id: self.id.dup(),
            error: self.error.dup(),
            retryable: self.retryable.dup(),
            auth: self.auth.dup(),
        }
    }
}

impl Clone for ToolCallErrored {
    fn clone(&self) -> (r: ToolCallErrored)
        ensures
            r.v() == self.v(),
    {
        self.dup()
    }
}

#[derive(Debug, PartialEq)]
pub struct LlmCallRequested {
    pub id: String,
    pub attempt: u32,
    pub llm: String,
    pub format: Option<LlmFormat>,
    pub request: LlmRequest,
    pub stream: bool,
    pub retry: RetryPolicy,
    pub handler: LlmHandler,
    pub defer_tools_strategy: DeferToolsStrategy,
}

/// The value of [`LlmCallRequested`].
pub struct LlmCallRequestedV {
    pub id: Seq<char>,
    pub attempt: u32,
    pub llm: Seq<char>,
    pub format: Option<LlmFormat>,
    pub request: LlmRequestV,
    pub stream: bool,
    pub retry: RetryPolicy,
    pub handler: LlmHandler,
    pub defer_tools_strategy: DeferToolsStrategy,
}

impl Model for LlmCallRequested {
    type V = LlmCallRequestedV;

    open spec fn v(&self) -> LlmCallRequestedV {
        LlmCallRequestedV {
            id: self.id.v(),
            attempt: self.attempt.v(),
            llm: self.llm.v(),
            format: self.format.v(),
            request: self.request.v(),
            stream: self.stream.v(),
            retry: self.retry.v(),
            handler: self.handler.v(),
            defer_tools_strategy: self.defer_tools_strategy.v(),
        }
    }

    fn dup(&self) -> (r: LlmCallRequested) {
        LlmCallRequested {
            id: self.id.dup(),
            attempt: self.attempt.dup(),
            llm: self.llm.dup(),
            format: self.format.dup(),
            request: self.request.dup(),
            stream: self.stream.dup(),
            retry: self.retry.dup(),
            handler: self.handler.dup(),
            defer_tools_strategy: self.defer_tools_strategy.dup(),
        }
    }
}

impl Clone for LlmCallRequested {
    fn clone(&self) -> (r: LlmCallRequested)
        ensures
            r.v() == self.v(),
    {
        self.dup()
    }
}

#[derive(Debug, PartialEq)]
pub struct LlmCallDispatched {
    pub id: String,
    /// The tools the request goes out with.
    pub tools: Option<Vec<LlmTool>>,
    /// The prompt, with what the call tells the model.
    pub messages: Vec<DraftMessage>,
    /// What it tells the model of.
    pub announced: Vec<String>,
}

/// The value of [`LlmCallDispatched`].
pub struct LlmCallDispatchedV {
    pub id: Seq<char>,
    pub tools: Option<Seq<LlmToolV>>,
    pub messages: Seq<DraftMessageV>,
    pub announced: Seq<Seq<char>>,
}

impl Model for LlmCallDispatched {
    type V = LlmCallDispatchedV;

    open spec fn v(&self) -> LlmCallDispatchedV {
        LlmCallDispatchedV {
            id: self.id.v(),
            tools: self.tools.v(),
            messages: self.messages.v(),
            announced: self.announced.v(),
        }
    }

    fn dup(&self) -> (r: LlmCallDispatched) {
        LlmCallDispatched {
            id: self.id.dup(),
            tools: self.tools.dup(),
            messages: self.messages.dup(),
            announced: self.announced.dup(),
        }
    }
}

impl Clone for LlmCallDispatched {
    fn clone(&self) -> (r: LlmCallDispatched)
        ensures
            r.v() == self.v(),
    {
        self.dup()
    }
}

#[derive(Debug, PartialEq)]
pub struct LlmCallCompleted {
    pub id: String,
    pub response: LlmResponse,
}

/// The value of [`LlmCallCompleted`].
pub struct LlmCallCompletedV {
    pub id: Seq<char>,
    pub response: LlmResponseV,
}

impl Model for LlmCallCompleted {
    type V = LlmCallCompletedV;

    open spec fn v(&self) -> LlmCallCompletedV {
        LlmCallCompletedV {
            id: self.id.v(),
            response: self.response.v(),
        }
    }

    fn dup(&self) -> (r: LlmCallCompleted) {
        LlmCallCompleted {
            id: self.id.dup(),
            response: self.response.dup(),
        }
    }
}

impl Clone for LlmCallCompleted {
    fn clone(&self) -> (r: LlmCallCompleted)
        ensures
            r.v() == self.v(),
    {
        self.dup()
    }
}

#[derive(Debug, PartialEq)]
pub struct LlmCallErrored {
    pub id: String,
    pub error: ErrorInfo,
    pub retryable: bool,
}

/// The value of [`LlmCallErrored`].
pub struct LlmCallErroredV {
    pub id: Seq<char>,
    pub error: ErrorInfoV,
    pub retryable: bool,
}

impl Model for LlmCallErrored {
    type V = LlmCallErroredV;

    open spec fn v(&self) -> LlmCallErroredV {
        LlmCallErroredV {
            id: self.id.v(),
            error: self.error.v(),
            retryable: self.retryable.v(),
        }
    }

    fn dup(&self) -> (r: LlmCallErrored) {
        LlmCallErrored {
            id: self.id.dup(),
            error: self.error.dup(),
            retryable: self.retryable.dup(),
        }
    }
}

impl Clone for LlmCallErrored {
    fn clone(&self) -> (r: LlmCallErrored)
        ensures
            r.v() == self.v(),
    {
        self.dup()
    }
}

#[derive(Debug, PartialEq)]
pub struct SubagentRequested {
    pub id: String,
    pub attempt: u32,
    pub session_id: String,
    pub agent_id: String,
    pub message: Option<DraftMessage>,
    pub retry: RetryPolicy,
    pub mode: SpawnMode,
    pub decision_id: String,
}

/// The value of [`SubagentRequested`].
pub struct SubagentRequestedV {
    pub id: Seq<char>,
    pub attempt: u32,
    pub session_id: Seq<char>,
    pub agent_id: Seq<char>,
    pub message: Option<DraftMessageV>,
    pub retry: RetryPolicy,
    pub mode: SpawnMode,
    pub decision_id: Seq<char>,
}

impl Model for SubagentRequested {
    type V = SubagentRequestedV;

    open spec fn v(&self) -> SubagentRequestedV {
        SubagentRequestedV {
            id: self.id.v(),
            attempt: self.attempt.v(),
            session_id: self.session_id.v(),
            agent_id: self.agent_id.v(),
            message: self.message.v(),
            retry: self.retry.v(),
            mode: self.mode.v(),
            decision_id: self.decision_id.v(),
        }
    }

    fn dup(&self) -> (r: SubagentRequested) {
        SubagentRequested {
            id: self.id.dup(),
            attempt: self.attempt.dup(),
            session_id: self.session_id.dup(),
            agent_id: self.agent_id.dup(),
            message: self.message.dup(),
            retry: self.retry.dup(),
            mode: self.mode.dup(),
            decision_id: self.decision_id.dup(),
        }
    }
}

impl Clone for SubagentRequested {
    fn clone(&self) -> (r: SubagentRequested)
        ensures
            r.v() == self.v(),
    {
        self.dup()
    }
}

#[derive(Debug, PartialEq)]
pub struct SubagentDispatched {
    pub id: String,
}

/// The value of [`SubagentDispatched`].
pub struct SubagentDispatchedV {
    pub id: Seq<char>,
}

impl Model for SubagentDispatched {
    type V = SubagentDispatchedV;

    open spec fn v(&self) -> SubagentDispatchedV {
        SubagentDispatchedV {
            id: self.id.v(),
        }
    }

    fn dup(&self) -> (r: SubagentDispatched) {
        SubagentDispatched {
            id: self.id.dup(),
        }
    }
}

impl Clone for SubagentDispatched {
    fn clone(&self) -> (r: SubagentDispatched)
        ensures
            r.v() == self.v(),
    {
        self.dup()
    }
}

#[derive(Debug, PartialEq)]
pub struct SubagentStarted {
    pub id: String,
}

/// The value of [`SubagentStarted`].
pub struct SubagentStartedV {
    pub id: Seq<char>,
}

impl Model for SubagentStarted {
    type V = SubagentStartedV;

    open spec fn v(&self) -> SubagentStartedV {
        SubagentStartedV {
            id: self.id.v(),
        }
    }

    fn dup(&self) -> (r: SubagentStarted) {
        SubagentStarted {
            id: self.id.dup(),
        }
    }
}

impl Clone for SubagentStarted {
    fn clone(&self) -> (r: SubagentStarted)
        ensures
            r.v() == self.v(),
    {
        self.dup()
    }
}

#[derive(Debug, PartialEq)]
pub struct SubagentErrored {
    pub id: String,
    pub error: ErrorInfo,
    pub retryable: bool,
}

/// The value of [`SubagentErrored`].
pub struct SubagentErroredV {
    pub id: Seq<char>,
    pub error: ErrorInfoV,
    pub retryable: bool,
}

impl Model for SubagentErrored {
    type V = SubagentErroredV;

    open spec fn v(&self) -> SubagentErroredV {
        SubagentErroredV {
            id: self.id.v(),
            error: self.error.v(),
            retryable: self.retryable.v(),
        }
    }

    fn dup(&self) -> (r: SubagentErrored) {
        SubagentErrored {
            id: self.id.dup(),
            error: self.error.dup(),
            retryable: self.retryable.dup(),
        }
    }
}

impl Clone for SubagentErrored {
    fn clone(&self) -> (r: SubagentErrored)
        ensures
            r.v() == self.v(),
    {
        self.dup()
    }
}

/// A child session finished a turn. `turn_id` is set for a turn nobody waited
/// for.
#[derive(Debug, PartialEq)]
pub struct SubagentTurnCompleted {
    pub id: String,
    pub cost: Decimal,
    pub token_usage: Usage,
    pub data: Json,
    pub turn_id: Option<String>,
    pub error: Option<ErrorInfo>,
}

/// The value of [`SubagentTurnCompleted`].
pub struct SubagentTurnCompletedV {
    pub id: Seq<char>,
    pub cost: rust_decimal::Decimal,
    pub token_usage: UsageV,
    pub data: JsonV,
    pub turn_id: Option<Seq<char>>,
    pub error: Option<ErrorInfoV>,
}

impl Model for SubagentTurnCompleted {
    type V = SubagentTurnCompletedV;

    open spec fn v(&self) -> SubagentTurnCompletedV {
        SubagentTurnCompletedV {
            id: self.id.v(),
            cost: self.cost.v(),
            token_usage: self.token_usage.v(),
            data: self.data.v(),
            turn_id: self.turn_id.v(),
            error: self.error.v(),
        }
    }

    fn dup(&self) -> (r: SubagentTurnCompleted) {
        SubagentTurnCompleted {
            id: self.id.dup(),
            cost: self.cost.dup(),
            token_usage: self.token_usage.dup(),
            data: self.data.dup(),
            turn_id: self.turn_id.dup(),
            error: self.error.dup(),
        }
    }
}

impl Clone for SubagentTurnCompleted {
    fn clone(&self) -> (r: SubagentTurnCompleted)
        ensures
            r.v() == self.v(),
    {
        self.dup()
    }
}

/// What a connection says of one of its tools.
#[derive(Debug, Clone, Copy, Default, PartialEq, Eq, Structural)]
pub struct ToolAnnotations {
    pub read_only: Option<bool>,
    pub destructive: Option<bool>,
    pub idempotent: Option<bool>,
}

impl Model for ToolAnnotations {
    type V = ToolAnnotations;

    open spec fn v(&self) -> ToolAnnotations {
        *self
    }

    fn dup(&self) -> (r: ToolAnnotations) {
        *self
    }
}

impl Same for ToolAnnotations {
    fn same(&self, other: &ToolAnnotations) -> (r: bool) {
        *self == *other
    }
}

/// A tool a connection offers.
#[derive(Debug, PartialEq)]
pub struct RemoteTool {
    pub name: String,
    pub title: Option<String>,
    pub description: String,
    pub input: Option<Json>,
    pub output: Option<Json>,
    pub annotations: ToolAnnotations,
}

/// The value of [`RemoteTool`].
pub struct RemoteToolV {
    pub name: Seq<char>,
    pub title: Option<Seq<char>>,
    pub description: Seq<char>,
    pub input: Option<JsonV>,
    pub output: Option<JsonV>,
    pub annotations: ToolAnnotations,
}

impl Model for RemoteTool {
    type V = RemoteToolV;

    open spec fn v(&self) -> RemoteToolV {
        RemoteToolV {
            name: self.name.v(),
            title: self.title.v(),
            description: self.description.v(),
            input: self.input.v(),
            output: self.output.v(),
            annotations: self.annotations.v(),
        }
    }

    fn dup(&self) -> (r: RemoteTool) {
        RemoteTool {
            name: self.name.dup(),
            title: self.title.dup(),
            description: self.description.dup(),
            input: self.input.dup(),
            output: self.output.dup(),
            annotations: self.annotations.dup(),
        }
    }
}

impl Clone for RemoteTool {
    fn clone(&self) -> (r: RemoteTool)
        ensures
            r.v() == self.v(),
    {
        self.dup()
    }
}

#[derive(Debug, PartialEq)]
pub struct ConnectorSyncRequested {
    pub path: ConnectionPath,
    pub attempt: u32,
    pub retry: RetryPolicy,
}

/// The value of [`ConnectorSyncRequested`].
pub struct ConnectorSyncRequestedV {
    pub path: ConnectionPathV,
    pub attempt: u32,
    pub retry: RetryPolicy,
}

impl Model for ConnectorSyncRequested {
    type V = ConnectorSyncRequestedV;

    open spec fn v(&self) -> ConnectorSyncRequestedV {
        ConnectorSyncRequestedV {
            path: self.path.v(),
            attempt: self.attempt.v(),
            retry: self.retry.v(),
        }
    }

    fn dup(&self) -> (r: ConnectorSyncRequested) {
        ConnectorSyncRequested {
            path: self.path.dup(),
            attempt: self.attempt.dup(),
            retry: self.retry.dup(),
        }
    }
}

impl Clone for ConnectorSyncRequested {
    fn clone(&self) -> (r: ConnectorSyncRequested)
        ensures
            r.v() == self.v(),
    {
        self.dup()
    }
}

#[derive(Debug, PartialEq)]
pub struct ConnectorSyncCompleted {
    pub id: String,
    pub prefix: Option<String>,
    pub tools: Vec<RemoteTool>,
    pub instructions: Option<String>,
}

/// The value of [`ConnectorSyncCompleted`].
pub struct ConnectorSyncCompletedV {
    pub id: Seq<char>,
    pub prefix: Option<Seq<char>>,
    pub tools: Seq<RemoteToolV>,
    pub instructions: Option<Seq<char>>,
}

impl Model for ConnectorSyncCompleted {
    type V = ConnectorSyncCompletedV;

    open spec fn v(&self) -> ConnectorSyncCompletedV {
        ConnectorSyncCompletedV {
            id: self.id.v(),
            prefix: self.prefix.v(),
            tools: self.tools.v(),
            instructions: self.instructions.v(),
        }
    }

    fn dup(&self) -> (r: ConnectorSyncCompleted) {
        ConnectorSyncCompleted {
            id: self.id.dup(),
            prefix: self.prefix.dup(),
            tools: self.tools.dup(),
            instructions: self.instructions.dup(),
        }
    }
}

impl Clone for ConnectorSyncCompleted {
    fn clone(&self) -> (r: ConnectorSyncCompleted)
        ensures
            r.v() == self.v(),
    {
        self.dup()
    }
}

#[derive(Debug, PartialEq)]
pub struct ConnectorSyncErrored {
    pub id: String,
    pub error: ErrorInfo,
    pub retryable: bool,
    pub auth: Option<AuthNeed>,
}

/// The value of [`ConnectorSyncErrored`].
pub struct ConnectorSyncErroredV {
    pub id: Seq<char>,
    pub error: ErrorInfoV,
    pub retryable: bool,
    pub auth: Option<AuthNeed>,
}

impl Model for ConnectorSyncErrored {
    type V = ConnectorSyncErroredV;

    open spec fn v(&self) -> ConnectorSyncErroredV {
        ConnectorSyncErroredV {
            id: self.id.v(),
            error: self.error.v(),
            retryable: self.retryable.v(),
            auth: self.auth.v(),
        }
    }

    fn dup(&self) -> (r: ConnectorSyncErrored) {
        ConnectorSyncErrored {
            id: self.id.dup(),
            error: self.error.dup(),
            retryable: self.retryable.dup(),
            auth: self.auth.dup(),
        }
    }
}

impl Clone for ConnectorSyncErrored {
    fn clone(&self) -> (r: ConnectorSyncErrored)
        ensures
            r.v() == self.v(),
    {
        self.dup()
    }
}

#[derive(Debug, PartialEq)]
pub struct CallVoided {
    pub kind: EffectKind,
    pub id: String,
}

/// The value of [`CallVoided`].
pub struct CallVoidedV {
    pub kind: EffectKind,
    pub id: Seq<char>,
}

impl Model for CallVoided {
    type V = CallVoidedV;

    open spec fn v(&self) -> CallVoidedV {
        CallVoidedV {
            kind: self.kind.v(),
            id: self.id.v(),
        }
    }

    fn dup(&self) -> (r: CallVoided) {
        CallVoided {
            kind: self.kind.dup(),
            id: self.id.dup(),
        }
    }
}

impl Clone for CallVoided {
    fn clone(&self) -> (r: CallVoided)
        ensures
            r.v() == self.v(),
    {
        self.dup()
    }
}

#[derive(Debug, PartialEq)]
pub struct HeadMoved {
    pub head_id: String,
}

/// The value of [`HeadMoved`].
pub struct HeadMovedV {
    pub head_id: Seq<char>,
}

impl Model for HeadMoved {
    type V = HeadMovedV;

    open spec fn v(&self) -> HeadMovedV {
        HeadMovedV {
            head_id: self.head_id.v(),
        }
    }

    fn dup(&self) -> (r: HeadMoved) {
        HeadMoved {
            head_id: self.head_id.dup(),
        }
    }
}

impl Clone for HeadMoved {
    fn clone(&self) -> (r: HeadMoved)
        ensures
            r.v() == self.v(),
    {
        self.dup()
    }
}

/// The session stops on the branch `anchor` stands on, or everywhere if it has
/// none.
#[derive(Debug, PartialEq)]
pub struct SessionInterrupted {
    pub interrupt_id: String,
    pub origin: InterruptOrigin,
    pub reason: String,
    pub payload: Json,
    pub anchor: Option<String>,
}

/// The value of [`SessionInterrupted`].
pub struct SessionInterruptedV {
    pub interrupt_id: Seq<char>,
    pub origin: InterruptOrigin,
    pub reason: Seq<char>,
    pub payload: JsonV,
    pub anchor: Option<Seq<char>>,
}

impl Model for SessionInterrupted {
    type V = SessionInterruptedV;

    open spec fn v(&self) -> SessionInterruptedV {
        SessionInterruptedV {
            interrupt_id: self.interrupt_id.v(),
            origin: self.origin.v(),
            reason: self.reason.v(),
            payload: self.payload.v(),
            anchor: self.anchor.v(),
        }
    }

    fn dup(&self) -> (r: SessionInterrupted) {
        SessionInterrupted {
            interrupt_id: self.interrupt_id.dup(),
            origin: self.origin.dup(),
            reason: self.reason.dup(),
            payload: self.payload.dup(),
            anchor: self.anchor.dup(),
        }
    }
}

impl Clone for SessionInterrupted {
    fn clone(&self) -> (r: SessionInterrupted)
        ensures
            r.v() == self.v(),
    {
        self.dup()
    }
}

#[derive(Debug, PartialEq)]
pub struct InterruptResumed {
    pub interrupt_id: String,
    pub payload: Json,
}

/// The value of [`InterruptResumed`].
pub struct InterruptResumedV {
    pub interrupt_id: Seq<char>,
    pub payload: JsonV,
}

impl Model for InterruptResumed {
    type V = InterruptResumedV;

    open spec fn v(&self) -> InterruptResumedV {
        InterruptResumedV {
            interrupt_id: self.interrupt_id.v(),
            payload: self.payload.v(),
        }
    }

    fn dup(&self) -> (r: InterruptResumed) {
        InterruptResumed {
            interrupt_id: self.interrupt_id.dup(),
            payload: self.payload.dup(),
        }
    }
}

impl Clone for InterruptResumed {
    fn clone(&self) -> (r: InterruptResumed)
        ensures
            r.v() == self.v(),
    {
        self.dup()
    }
}

#[derive(Debug, PartialEq)]
pub struct TurnStarted {
    pub turn_id: String,
}

/// The value of [`TurnStarted`].
pub struct TurnStartedV {
    pub turn_id: Seq<char>,
}

impl Model for TurnStarted {
    type V = TurnStartedV;

    open spec fn v(&self) -> TurnStartedV {
        TurnStartedV {
            turn_id: self.turn_id.v(),
        }
    }

    fn dup(&self) -> (r: TurnStarted) {
        TurnStarted {
            turn_id: self.turn_id.dup(),
        }
    }
}

impl Clone for TurnStarted {
    fn clone(&self) -> (r: TurnStarted)
        ensures
            r.v() == self.v(),
    {
        self.dup()
    }
}

#[derive(Debug, PartialEq)]
pub struct TurnCompleted {
    pub turn_id: String,
    pub data: Json,
    pub turn_cost: Decimal,
    pub turn_token_usage: Usage,
    pub error: Option<ErrorInfo>,
}

/// The value of [`TurnCompleted`].
pub struct TurnCompletedV {
    pub turn_id: Seq<char>,
    pub data: JsonV,
    pub turn_cost: rust_decimal::Decimal,
    pub turn_token_usage: UsageV,
    pub error: Option<ErrorInfoV>,
}

impl Model for TurnCompleted {
    type V = TurnCompletedV;

    open spec fn v(&self) -> TurnCompletedV {
        TurnCompletedV {
            turn_id: self.turn_id.v(),
            data: self.data.v(),
            turn_cost: self.turn_cost.v(),
            turn_token_usage: self.turn_token_usage.v(),
            error: self.error.v(),
        }
    }

    fn dup(&self) -> (r: TurnCompleted) {
        TurnCompleted {
            turn_id: self.turn_id.dup(),
            data: self.data.dup(),
            turn_cost: self.turn_cost.dup(),
            turn_token_usage: self.turn_token_usage.dup(),
            error: self.error.dup(),
        }
    }
}

impl Clone for TurnCompleted {
    fn clone(&self) -> (r: TurnCompleted)
        ensures
            r.v() == self.v(),
    {
        self.dup()
    }
}

#[derive(Debug, Clone, Copy, PartialEq, Eq, Structural)]
pub struct SessionDone {}

impl Model for SessionDone {
    type V = SessionDone;

    open spec fn v(&self) -> SessionDone {
        *self
    }

    fn dup(&self) -> (r: SessionDone) {
        *self
    }
}

impl Same for SessionDone {
    fn same(&self, other: &SessionDone) -> (r: bool) {
        *self == *other
    }
}

#[derive(Debug, PartialEq)]
pub struct ChannelsUpdated {
    pub decision_id: String,
    pub finishes_turn: bool,
    pub channels: Vec<ChannelView>,
}

/// The value of [`ChannelsUpdated`].
pub struct ChannelsUpdatedV {
    pub decision_id: Seq<char>,
    pub finishes_turn: bool,
    pub channels: Seq<ChannelViewV>,
}

impl Model for ChannelsUpdated {
    type V = ChannelsUpdatedV;

    open spec fn v(&self) -> ChannelsUpdatedV {
        ChannelsUpdatedV {
            decision_id: self.decision_id.v(),
            finishes_turn: self.finishes_turn.v(),
            channels: self.channels.v(),
        }
    }

    fn dup(&self) -> (r: ChannelsUpdated) {
        ChannelsUpdated {
            decision_id: self.decision_id.dup(),
            finishes_turn: self.finishes_turn.dup(),
            channels: self.channels.dup(),
        }
    }
}

impl Clone for ChannelsUpdated {
    fn clone(&self) -> (r: ChannelsUpdated)
        ensures
            r.v() == self.v(),
    {
        self.dup()
    }
}

#[derive(Debug, PartialEq)]
pub struct SessionMessageRequested {
    pub target_session_id: String,
    pub message: DraftMessage,
}

/// The value of [`SessionMessageRequested`].
pub struct SessionMessageRequestedV {
    pub target_session_id: Seq<char>,
    pub message: DraftMessageV,
}

impl Model for SessionMessageRequested {
    type V = SessionMessageRequestedV;

    open spec fn v(&self) -> SessionMessageRequestedV {
        SessionMessageRequestedV {
            target_session_id: self.target_session_id.v(),
            message: self.message.v(),
        }
    }

    fn dup(&self) -> (r: SessionMessageRequested) {
        SessionMessageRequested {
            target_session_id: self.target_session_id.dup(),
            message: self.message.dup(),
        }
    }
}

impl Clone for SessionMessageRequested {
    fn clone(&self) -> (r: SessionMessageRequested)
        ensures
            r.v() == self.v(),
    {
        self.dup()
    }
}

/// One thing that happened. The events of a session, in order, are the session.
#[derive(Debug, PartialEq)]
pub enum EventPayload {
    SessionCreated(Box<SessionCreated>),
    AgentConfigUpdated(AgentConfigUpdated),
    WorkerStateUpdated(WorkerStateUpdated),
    DecisionQueued(DecisionQueued),
    DecisionDispatched(DecisionDispatched),
    DecisionCompleted(DecisionCompleted),
    DecisionDropped(DecisionDropped),
    DecisionErrored(DecisionErrored),
    ToolCallRequested(ToolCallRequested),
    ToolCallDispatched(ToolCallDispatched),
    ToolCallCompleted(ToolCallCompleted),
    ToolCallErrored(ToolCallErrored),
    LlmCallRequested(LlmCallRequested),
    LlmCallDispatched(LlmCallDispatched),
    LlmCallCompleted(LlmCallCompleted),
    LlmCallErrored(LlmCallErrored),
    SubagentRequested(SubagentRequested),
    SubagentDispatched(SubagentDispatched),
    SubagentStarted(SubagentStarted),
    SubagentErrored(SubagentErrored),
    SubagentTurnCompleted(SubagentTurnCompleted),
    ConnectorSyncRequested(ConnectorSyncRequested),
    ConnectorSyncCompleted(ConnectorSyncCompleted),
    ConnectorSyncErrored(ConnectorSyncErrored),
    CallVoided(CallVoided),
    NewMessage(NewMessage),
    HeadMoved(HeadMoved),
    SessionInterrupted(SessionInterrupted),
    InterruptResumed(InterruptResumed),
    TurnStarted(TurnStarted),
    TurnCompleted(TurnCompleted),
    SessionDone(SessionDone),
    SessionCancelled,
    ChannelsUpdated(ChannelsUpdated),
    SessionMessageRequested(SessionMessageRequested),
}

/// The value of [`EventPayload`].
pub enum EventPayloadV {
    SessionCreated(SessionCreatedV),
    AgentConfigUpdated(AgentConfigUpdatedV),
    WorkerStateUpdated(WorkerStateUpdatedV),
    DecisionQueued(DecisionQueuedV),
    DecisionDispatched(DecisionDispatchedV),
    DecisionCompleted(DecisionCompletedV),
    DecisionDropped(DecisionDroppedV),
    DecisionErrored(DecisionErroredV),
    ToolCallRequested(ToolCallRequestedV),
    ToolCallDispatched(ToolCallDispatchedV),
    ToolCallCompleted(ToolCallCompletedV),
    ToolCallErrored(ToolCallErroredV),
    LlmCallRequested(LlmCallRequestedV),
    LlmCallDispatched(LlmCallDispatchedV),
    LlmCallCompleted(LlmCallCompletedV),
    LlmCallErrored(LlmCallErroredV),
    SubagentRequested(SubagentRequestedV),
    SubagentDispatched(SubagentDispatchedV),
    SubagentStarted(SubagentStartedV),
    SubagentErrored(SubagentErroredV),
    SubagentTurnCompleted(SubagentTurnCompletedV),
    ConnectorSyncRequested(ConnectorSyncRequestedV),
    ConnectorSyncCompleted(ConnectorSyncCompletedV),
    ConnectorSyncErrored(ConnectorSyncErroredV),
    CallVoided(CallVoidedV),
    NewMessage(NewMessageV),
    HeadMoved(HeadMovedV),
    SessionInterrupted(SessionInterruptedV),
    InterruptResumed(InterruptResumedV),
    TurnStarted(TurnStartedV),
    TurnCompleted(TurnCompletedV),
    SessionDone(SessionDone),
    SessionCancelled,
    ChannelsUpdated(ChannelsUpdatedV),
    SessionMessageRequested(SessionMessageRequestedV),
}

impl Model for EventPayload {
    type V = EventPayloadV;

    open spec fn v(&self) -> EventPayloadV {
        match self {
            EventPayload::SessionCreated(a) => EventPayloadV::SessionCreated(a.v()),
            EventPayload::AgentConfigUpdated(a) => EventPayloadV::AgentConfigUpdated(a.v()),
            EventPayload::WorkerStateUpdated(a) => EventPayloadV::WorkerStateUpdated(a.v()),
            EventPayload::DecisionQueued(a) => EventPayloadV::DecisionQueued(a.v()),
            EventPayload::DecisionDispatched(a) => EventPayloadV::DecisionDispatched(a.v()),
            EventPayload::DecisionCompleted(a) => EventPayloadV::DecisionCompleted(a.v()),
            EventPayload::DecisionDropped(a) => EventPayloadV::DecisionDropped(a.v()),
            EventPayload::DecisionErrored(a) => EventPayloadV::DecisionErrored(a.v()),
            EventPayload::ToolCallRequested(a) => EventPayloadV::ToolCallRequested(a.v()),
            EventPayload::ToolCallDispatched(a) => EventPayloadV::ToolCallDispatched(a.v()),
            EventPayload::ToolCallCompleted(a) => EventPayloadV::ToolCallCompleted(a.v()),
            EventPayload::ToolCallErrored(a) => EventPayloadV::ToolCallErrored(a.v()),
            EventPayload::LlmCallRequested(a) => EventPayloadV::LlmCallRequested(a.v()),
            EventPayload::LlmCallDispatched(a) => EventPayloadV::LlmCallDispatched(a.v()),
            EventPayload::LlmCallCompleted(a) => EventPayloadV::LlmCallCompleted(a.v()),
            EventPayload::LlmCallErrored(a) => EventPayloadV::LlmCallErrored(a.v()),
            EventPayload::SubagentRequested(a) => EventPayloadV::SubagentRequested(a.v()),
            EventPayload::SubagentDispatched(a) => EventPayloadV::SubagentDispatched(a.v()),
            EventPayload::SubagentStarted(a) => EventPayloadV::SubagentStarted(a.v()),
            EventPayload::SubagentErrored(a) => EventPayloadV::SubagentErrored(a.v()),
            EventPayload::SubagentTurnCompleted(a) => EventPayloadV::SubagentTurnCompleted(a.v()),
            EventPayload::ConnectorSyncRequested(a) => EventPayloadV::ConnectorSyncRequested(a.v()),
            EventPayload::ConnectorSyncCompleted(a) => EventPayloadV::ConnectorSyncCompleted(a.v()),
            EventPayload::ConnectorSyncErrored(a) => EventPayloadV::ConnectorSyncErrored(a.v()),
            EventPayload::CallVoided(a) => EventPayloadV::CallVoided(a.v()),
            EventPayload::NewMessage(a) => EventPayloadV::NewMessage(a.v()),
            EventPayload::HeadMoved(a) => EventPayloadV::HeadMoved(a.v()),
            EventPayload::SessionInterrupted(a) => EventPayloadV::SessionInterrupted(a.v()),
            EventPayload::InterruptResumed(a) => EventPayloadV::InterruptResumed(a.v()),
            EventPayload::TurnStarted(a) => EventPayloadV::TurnStarted(a.v()),
            EventPayload::TurnCompleted(a) => EventPayloadV::TurnCompleted(a.v()),
            EventPayload::SessionDone(a) => EventPayloadV::SessionDone(a.v()),
            EventPayload::SessionCancelled => EventPayloadV::SessionCancelled,
            EventPayload::ChannelsUpdated(a) => EventPayloadV::ChannelsUpdated(a.v()),
            EventPayload::SessionMessageRequested(a) => EventPayloadV::SessionMessageRequested(a.v()),
        }
    }

    fn dup(&self) -> (r: EventPayload) {
        match self {
            EventPayload::SessionCreated(a) => EventPayload::SessionCreated(a.dup()),
            EventPayload::AgentConfigUpdated(a) => EventPayload::AgentConfigUpdated(a.dup()),
            EventPayload::WorkerStateUpdated(a) => EventPayload::WorkerStateUpdated(a.dup()),
            EventPayload::DecisionQueued(a) => EventPayload::DecisionQueued(a.dup()),
            EventPayload::DecisionDispatched(a) => EventPayload::DecisionDispatched(a.dup()),
            EventPayload::DecisionCompleted(a) => EventPayload::DecisionCompleted(a.dup()),
            EventPayload::DecisionDropped(a) => EventPayload::DecisionDropped(a.dup()),
            EventPayload::DecisionErrored(a) => EventPayload::DecisionErrored(a.dup()),
            EventPayload::ToolCallRequested(a) => EventPayload::ToolCallRequested(a.dup()),
            EventPayload::ToolCallDispatched(a) => EventPayload::ToolCallDispatched(a.dup()),
            EventPayload::ToolCallCompleted(a) => EventPayload::ToolCallCompleted(a.dup()),
            EventPayload::ToolCallErrored(a) => EventPayload::ToolCallErrored(a.dup()),
            EventPayload::LlmCallRequested(a) => EventPayload::LlmCallRequested(a.dup()),
            EventPayload::LlmCallDispatched(a) => EventPayload::LlmCallDispatched(a.dup()),
            EventPayload::LlmCallCompleted(a) => EventPayload::LlmCallCompleted(a.dup()),
            EventPayload::LlmCallErrored(a) => EventPayload::LlmCallErrored(a.dup()),
            EventPayload::SubagentRequested(a) => EventPayload::SubagentRequested(a.dup()),
            EventPayload::SubagentDispatched(a) => EventPayload::SubagentDispatched(a.dup()),
            EventPayload::SubagentStarted(a) => EventPayload::SubagentStarted(a.dup()),
            EventPayload::SubagentErrored(a) => EventPayload::SubagentErrored(a.dup()),
            EventPayload::SubagentTurnCompleted(a) => EventPayload::SubagentTurnCompleted(a.dup()),
            EventPayload::ConnectorSyncRequested(a) => EventPayload::ConnectorSyncRequested(a.dup()),
            EventPayload::ConnectorSyncCompleted(a) => EventPayload::ConnectorSyncCompleted(a.dup()),
            EventPayload::ConnectorSyncErrored(a) => EventPayload::ConnectorSyncErrored(a.dup()),
            EventPayload::CallVoided(a) => EventPayload::CallVoided(a.dup()),
            EventPayload::NewMessage(a) => EventPayload::NewMessage(a.dup()),
            EventPayload::HeadMoved(a) => EventPayload::HeadMoved(a.dup()),
            EventPayload::SessionInterrupted(a) => EventPayload::SessionInterrupted(a.dup()),
            EventPayload::InterruptResumed(a) => EventPayload::InterruptResumed(a.dup()),
            EventPayload::TurnStarted(a) => EventPayload::TurnStarted(a.dup()),
            EventPayload::TurnCompleted(a) => EventPayload::TurnCompleted(a.dup()),
            EventPayload::SessionDone(a) => EventPayload::SessionDone(a.dup()),
            EventPayload::SessionCancelled => EventPayload::SessionCancelled,
            EventPayload::ChannelsUpdated(a) => EventPayload::ChannelsUpdated(a.dup()),
            EventPayload::SessionMessageRequested(a) => EventPayload::SessionMessageRequested(a.dup()),
        }
    }
}

impl Clone for EventPayload {
    fn clone(&self) -> (r: EventPayload)
        ensures
            r.v() == self.v(),
    {
        self.dup()
    }
}

impl EventPayloadV {
    /// Whether what an event carries is valid.
    pub open spec fn wf(self) -> bool {
        match self {
            EventPayloadV::SessionCreated(p) => p.identity.wf(),
            EventPayloadV::AgentConfigUpdated(p) => p.config.wf(),
            EventPayloadV::ChannelsUpdated(p) => by_channel(p.channels),
            _ => true,
        }
    }
}

} // verus!
