//! Work in flight, and how it is retried.
use crate::model::{Model, Same};
use vstd::prelude::*;

verus! {

#[derive(Debug, Clone, Copy, PartialEq, Eq, Structural)]
pub enum AuthNeed {
    NeverAuthorized,
    Reauthorize,
    TokenRejected,
}

impl Model for AuthNeed {
    type V = AuthNeed;

    open spec fn v(&self) -> AuthNeed {
        *self
    }

    fn dup(&self) -> (r: AuthNeed) {
        *self
    }
}

impl Same for AuthNeed {
    fn same(&self, other: &AuthNeed) -> (r: bool) {
        *self == *other
    }
}

/// Where a call runs. A tool call takes `Worker` (the default), `Client`, or
/// `Server`. The engine sets `Server` for connector tools; a worker cannot.
/// An LLM call has no handler. It runs where its `[llm.*]` block says.
#[derive(Debug, Clone, Copy, PartialEq, Eq, Structural)]
pub enum Handler {
    /// The engine makes the call.
    Server,
    /// The worker executes it.
    Worker,
    /// The client executes it. The session goes idle until it answers.
    /// Tools only.
    Client,
}

impl Model for Handler {
    type V = Handler;

    open spec fn v(&self) -> Handler {
        *self
    }

    fn dup(&self) -> (r: Handler) {
        *self
    }
}

impl Same for Handler {
    fn same(&self, other: &Handler) -> (r: bool) {
        *self == *other
    }
}

/// The shape of a worker-run LLM call. Absent gives the engine's own format.
/// Set gives the provider's own request, response, and stream events.
#[derive(Debug, Clone, Copy, PartialEq, Eq, Structural)]
pub enum LlmFormat {
    /// OpenAI Chat Completions.
    Openai,
    /// Anthropic Messages API.
    Anthropic,
}

impl Model for LlmFormat {
    type V = LlmFormat;

    open spec fn v(&self) -> LlmFormat {
        *self
    }

    fn dup(&self) -> (r: LlmFormat) {
        *self
    }
}

impl Same for LlmFormat {
    fn same(&self, other: &LlmFormat) -> (r: bool) {
        *self == *other
    }
}

#[derive(Debug, Clone, Copy, PartialEq, Eq, Structural)]
pub struct RetryPolicy {
    pub queue_timeout_secs: Option<u32>,
    pub run_timeout_secs: Option<u32>,
    pub total_timeout_secs: Option<u32>,
    /// Total attempts, not retries. `1` gives one try.
    pub max_attempts: u32,
    pub backoff_base_secs: u32,
    pub backoff_max_secs: u32,
}

impl Model for RetryPolicy {
    type V = RetryPolicy;

    open spec fn v(&self) -> RetryPolicy {
        *self
    }

    fn dup(&self) -> (r: RetryPolicy) {
        *self
    }
}

impl Same for RetryPolicy {
    fn same(&self, other: &RetryPolicy) -> (r: bool) {
        *self == *other
    }
}

/// Only the fields it names change. An override cannot make a timeout
/// unbounded.
#[derive(Debug, Clone, Copy, Default, PartialEq, Eq, Structural)]
pub struct RetryOverride {
    pub queue_timeout_secs: Option<u32>,
    pub run_timeout_secs: Option<u32>,
    pub total_timeout_secs: Option<u32>,
    pub max_attempts: Option<u32>,
    pub backoff_base_secs: Option<u32>,
    pub backoff_max_secs: Option<u32>,
}

impl Model for RetryOverride {
    type V = RetryOverride;

    open spec fn v(&self) -> RetryOverride {
        *self
    }

    fn dup(&self) -> (r: RetryOverride) {
        *self
    }
}

impl Same for RetryOverride {
    fn same(&self, other: &RetryOverride) -> (r: bool) {
        *self == *other
    }
}

/// Retry overrides, one for each effect kind. `default` covers the kinds that
/// name nothing. A kind layers on top of `default`.
#[derive(Debug, Clone, Copy, Default, PartialEq, Eq, Structural)]
pub struct RetryConfig {
    pub default: Option<RetryOverride>,
    pub llm: Option<RetryOverride>,
    pub tool: Option<RetryOverride>,
    pub subagent: Option<RetryOverride>,
    pub connector: Option<RetryOverride>,
}

impl Model for RetryConfig {
    type V = RetryConfig;

    open spec fn v(&self) -> RetryConfig {
        *self
    }

    fn dup(&self) -> (r: RetryConfig) {
        *self
    }
}

impl Same for RetryConfig {
    fn same(&self, other: &RetryConfig) -> (r: bool) {
        *self == *other
    }
}

#[derive(Debug, Clone, Copy, PartialEq, Eq, Structural)]
pub enum EffectStatus {
    Pending,
    /// Running, waiting for its result. Off the deadline clock. A subagent
    /// stays here for as long as its child turn takes.
    Running,
    Completed,
    Failed,
    RetryScheduled,
    Queued,
}

impl Model for EffectStatus {
    type V = EffectStatus;

    open spec fn v(&self) -> EffectStatus {
        *self
    }

    fn dup(&self) -> (r: EffectStatus) {
        *self
    }
}

impl Same for EffectStatus {
    fn same(&self, other: &EffectStatus) -> (r: bool) {
        *self == *other
    }
}

/// What kind of work an effect is. One enum for the wire and for scheduling. A
/// decision and a turn's end queue beside the calls and are swept the same way,
/// so they are kinds too. Neither appears on an [`Effect`].
#[derive(Debug, Clone, Copy, PartialEq, Eq, PartialOrd, Ord, Hash, Structural)]
pub enum EffectKind {
    ToolCall,
    Subagent,
    LlmCall,
    /// Fetching one connection's tool list. Its `id` is the connection id.
    ConnectorSync,
    /// A worker decision.
    Decision,
    /// The turn's completion, which waits for the `turn.finished` decision to
    /// settle. Carries the turn id. Never swept, because it has no deadline.
    TurnEnd,
}

impl Model for EffectKind {
    type V = EffectKind;

    open spec fn v(&self) -> EffectKind {
        *self
    }

    fn dup(&self) -> (r: EffectKind) {
        *self
    }
}

impl Same for EffectKind {
    fn same(&self, other: &EffectKind) -> (r: bool) {
        *self == *other
    }
}

impl EffectKind {
    /// The name of the kind.
    pub open spec fn name(self) -> Seq<char> {
        match self {
            EffectKind::ToolCall => "tool_call"@,
            EffectKind::Subagent => "subagent"@,
            EffectKind::LlmCall => "llm_call"@,
            EffectKind::ConnectorSync => "connector_sync"@,
            EffectKind::Decision => "decision"@,
            EffectKind::TurnEnd => "turn_end"@,
        }
    }

    pub fn label(self) -> (r: &'static str)
        ensures
            r@ == self.name(),
    {
        match self {
            EffectKind::ToolCall => "tool_call",
            EffectKind::Subagent => "subagent",
            EffectKind::LlmCall => "llm_call",
            EffectKind::ConnectorSync => "connector_sync",
            EffectKind::Decision => "decision",
            EffectKind::TurnEnd => "turn_end",
        }
    }
}

/// An effect still running, shown on each worker decision. A flat envelope
/// plus the fields of its kind. A connector sync carries none. Its `id` is the
/// connection being fetched. `deadline` is in nanoseconds of the Unix epoch.
#[derive(Debug, PartialEq)]
pub struct Effect {
    pub id: String,
    pub kind: EffectKind,
    pub status: EffectStatus,
    pub attempt: u32,
    pub deadline: Option<i128>,
    /// The tree node the effect was requested at.
    pub anchor: Option<String>,
    pub name: Option<String>,
    pub arguments: Option<String>,
    pub handler: Option<Handler>,
    pub stream: Option<bool>,
    pub agent_id: Option<String>,
    /// The child session a subagent runs in. Its `id` is the model tool call
    /// the subagent answers.
    pub session_id: Option<String>,
}

/// The value of [`Effect`].
pub struct EffectV {
    pub id: Seq<char>,
    pub kind: EffectKind,
    pub status: EffectStatus,
    pub attempt: u32,
    pub deadline: Option<i128>,
    pub anchor: Option<Seq<char>>,
    pub name: Option<Seq<char>>,
    pub arguments: Option<Seq<char>>,
    pub handler: Option<Handler>,
    pub stream: Option<bool>,
    pub agent_id: Option<Seq<char>>,
    pub session_id: Option<Seq<char>>,
}

impl Model for Effect {
    type V = EffectV;

    open spec fn v(&self) -> EffectV {
        EffectV {
            id: self.id.v(),
            kind: self.kind.v(),
            status: self.status.v(),
            attempt: self.attempt.v(),
            deadline: self.deadline.v(),
            anchor: self.anchor.v(),
            name: self.name.v(),
            arguments: self.arguments.v(),
            handler: self.handler.v(),
            stream: self.stream.v(),
            agent_id: self.agent_id.v(),
            session_id: self.session_id.v(),
        }
    }

    fn dup(&self) -> (r: Effect) {
        Effect {
            id: self.id.dup(),
            kind: self.kind.dup(),
            status: self.status.dup(),
            attempt: self.attempt.dup(),
            deadline: self.deadline.dup(),
            anchor: self.anchor.dup(),
            name: self.name.dup(),
            arguments: self.arguments.dup(),
            handler: self.handler.dup(),
            stream: self.stream.dup(),
            agent_id: self.agent_id.dup(),
            session_id: self.session_id.dup(),
        }
    }
}

impl Clone for Effect {
    fn clone(&self) -> (r: Effect)
        ensures
            r.v() == self.v(),
    {
        self.dup()
    }
}

} // verus!
