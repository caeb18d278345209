//! What a worker is asked, and what it answers.
use crate::model::{text_of, Model, Same};
use crate::protocol::config::{
    ClientContext, ClientContextV, ConnectionPath, ConnectionPathV, DeferToolsStrategy, SpawnMode,
};
use crate::protocol::effect::{Handler, LlmFormat, RetryOverride, RetryPolicy};
use crate::protocol::error::{ErrorInfo, ErrorInfoV};
use crate::protocol::json::{Json, JsonV};
use crate::protocol::llm::{LlmRequest, LlmRequestV, LlmResponse, LlmResponseV, Usage, UsageV};
use crate::protocol::message::{DraftMessage, DraftMessageV};
use crate::protocol::result::{StoredResult, StoredResultV, ToolResult, ToolResultV};
use crate::session::retry::RetryTarget;
use rust_decimal::Decimal;
use vstd::prelude::*;

verus! {

impl Handler {
    /// The name of the handler.
    pub open spec fn name(self) -> Seq<char> {
        match self {
            Handler::Server => "server"@,
            Handler::Worker => "worker"@,
            Handler::Client => "client"@,
        }
    }

    pub fn as_str(self) -> (r: &'static str)
        ensures
            r@ == self.name(),
    {
        match self {
            Handler::Server => "server",
            Handler::Worker => "worker",
            Handler::Client => "client",
        }
    }
}

/// Where a tool call runs.
#[derive(Debug, Clone, Copy, Default, PartialEq, Eq, Structural)]
pub enum ToolHandler {
    #[default]
    Worker,
    Client,
    Server,
}

impl Model for ToolHandler {
    type V = ToolHandler;

    open spec fn v(&self) -> ToolHandler {
        *self
    }

    fn dup(&self) -> (r: ToolHandler) {
        *self
    }
}

impl Same for ToolHandler {
    fn same(&self, other: &ToolHandler) -> (r: bool) {
        *self == *other
    }
}

impl ToolHandler {
    /// Where a declared tool runs: on the client if it says so, else on the
    /// worker.
    pub open spec fn of(handler: Option<Handler>) -> ToolHandler {
        if handler == Some(Handler::Client) {
            ToolHandler::Client
        } else {
            ToolHandler::Worker
        }
    }

    /// Where a declared tool runs.
    pub fn declared(handler: Option<Handler>) -> (r: ToolHandler)
        ensures
            r == ToolHandler::of(handler),
    {
        match handler {
            Some(Handler::Client) => ToolHandler::Client,
            _ => ToolHandler::Worker,
        }
    }

    pub open spec fn target(self) -> RetryTarget {
        match self {
            ToolHandler::Worker => RetryTarget::WorkerTool,
            ToolHandler::Client => RetryTarget::ClientTool,
            ToolHandler::Server => RetryTarget::ConnectorTool,
        }
    }

    /// Whose retry policy a call takes.
    pub fn retry_target(self) -> (r: RetryTarget)
        ensures
            r == self.target(),
    {
        match self {
            ToolHandler::Worker => RetryTarget::WorkerTool,
            ToolHandler::Client => RetryTarget::ClientTool,
            ToolHandler::Server => RetryTarget::ConnectorTool,
        }
    }
}

/// Where an LLM call runs.
#[derive(Debug, Clone, Copy, Default, PartialEq, Eq, Structural)]
pub enum LlmHandler {
    #[default]
    Server,
    Worker,
}

impl Model for LlmHandler {
    type V = LlmHandler;

    open spec fn v(&self) -> LlmHandler {
        *self
    }

    fn dup(&self) -> (r: LlmHandler) {
        *self
    }
}

impl Same for LlmHandler {
    fn same(&self, other: &LlmHandler) -> (r: bool) {
        *self == *other
    }
}

impl vstd::std_specs::convert::FromSpecImpl<ToolHandler> for Handler {
    open spec fn obeys_from_spec() -> bool {
        true
    }

    open spec fn from_spec(h: ToolHandler) -> Handler {
        match h {
            ToolHandler::Worker => Handler::Worker,
            ToolHandler::Client => Handler::Client,
            ToolHandler::Server => Handler::Server,
        }
    }
}

impl From<ToolHandler> for Handler {
    fn from(h: ToolHandler) -> (r: Handler) {
        match h {
            ToolHandler::Worker => Handler::Worker,
            ToolHandler::Client => Handler::Client,
            ToolHandler::Server => Handler::Server,
        }
    }
}

impl vstd::std_specs::convert::FromSpecImpl<LlmHandler> for Handler {
    open spec fn obeys_from_spec() -> bool {
        true
    }

    open spec fn from_spec(h: LlmHandler) -> Handler {
        match h {
            LlmHandler::Server => Handler::Server,
            LlmHandler::Worker => Handler::Worker,
        }
    }
}

impl From<LlmHandler> for Handler {
    fn from(h: LlmHandler) -> (r: Handler) {
        match h {
            LlmHandler::Server => Handler::Server,
            LlmHandler::Worker => Handler::Worker,
        }
    }
}

impl vstd::std_specs::convert::TryFromSpecImpl<Handler> for ToolHandler {
    open spec fn obeys_try_from_spec() -> bool {
        true
    }

    open spec fn try_from_spec(h: Handler) -> Result<ToolHandler, Handler> {
        match h {
            Handler::Worker => Ok(ToolHandler::Worker),
            Handler::Client => Ok(ToolHandler::Client),
            Handler::Server => Ok(ToolHandler::Server),
        }
    }
}

impl TryFrom<Handler> for ToolHandler {
    type Error = Handler;

    fn try_from(h: Handler) -> (r: Result<ToolHandler, Handler>) {
        match h {
            Handler::Worker => Ok(ToolHandler::Worker),
            Handler::Client => Ok(ToolHandler::Client),
            Handler::Server => Ok(ToolHandler::Server),
        }
    }
}

impl vstd::std_specs::convert::TryFromSpecImpl<Handler> for LlmHandler {
    open spec fn obeys_try_from_spec() -> bool {
        true
    }

    open spec fn try_from_spec(h: Handler) -> Result<LlmHandler, Handler> {
        match h {
            Handler::Server => Ok(LlmHandler::Server),
            Handler::Worker => Ok(LlmHandler::Worker),
            Handler::Client => Err(h),
        }
    }
}

impl TryFrom<Handler> for LlmHandler {
    type Error = Handler;

    fn try_from(h: Handler) -> (r: Result<LlmHandler, Handler>) {
        match h {
            Handler::Server => Ok(LlmHandler::Server),
            Handler::Worker => Ok(LlmHandler::Worker),
            Handler::Client => Err(h),
        }
    }
}

/// Why a worker is asked to decide. A deadline is in nanoseconds of the Unix
/// epoch.
#[allow(inconsistent_fields)]
#[derive(Debug, PartialEq)]
pub enum Trigger {
    SessionStart,
    ClientMessage { messages: Vec<DraftMessage>, client: ClientContext, turn_id: Option<String> },
    ClientTranscript { messages: Vec<DraftMessage>, new_from: usize, client: ClientContext },
    ClientAction { name: String, args: Option<Json> },
    SubagentNotice { messages: Vec<DraftMessage>, sessions: Vec<String>, turn_id: String },
    ToolExecute {
        id: String,
        name: String,
        arguments: String,
        attempt: u32,
        deadline: Option<i128>,
    },
    LlmExecute {
        id: String,
        request: LlmRequest,
        format: Option<LlmFormat>,
        defer_tools_strategy: DeferToolsStrategy,
        stream: bool,
        attempt: u32,
        deadline: Option<i128>,
    },
    ToolFinished {
        id: String,
        ok: bool,
        name: String,
        result: Option<StoredResult>,
        error: Option<ErrorInfo>,
    },
    SubagentFinished {
        id: String,
        ok: bool,
        session_id: String,
        agent_id: String,
        result: Option<String>,
        error: Option<ErrorInfo>,
    },
    LlmFinished {
        id: String,
        ok: bool,
        message: Option<DraftMessage>,
        truncated: bool,
        refused: bool,
        usage: Option<Usage>,
        cost: Option<Decimal>,
        error: Option<ErrorInfo>,
    },
    InterruptResumed { interrupt_id: String, payload: Json },
    TurnFinished { turn_id: String, data: Json, cost: Decimal, usage: Usage },
}

/// The value of [`Trigger`].
#[allow(inconsistent_fields)]
pub enum TriggerV {
    SessionStart,
    ClientMessage { messages: Seq<DraftMessageV>, client: ClientContextV, turn_id: Option<Seq<char>> },
    ClientTranscript { messages: Seq<DraftMessageV>, new_from: usize, client: ClientContextV },
    ClientAction { name: Seq<char>, args: Option<JsonV> },
    SubagentNotice { messages: Seq<DraftMessageV>, sessions: Seq<Seq<char>>, turn_id: Seq<char> },
    ToolExecute { id: Seq<char>, name: Seq<char>, arguments: Seq<char>, attempt: u32, deadline: Option<i128> },
    LlmExecute { id: Seq<char>, request: LlmRequestV, format: Option<LlmFormat>, defer_tools_strategy: DeferToolsStrategy, stream: bool, attempt: u32, deadline: Option<i128> },
    ToolFinished { id: Seq<char>, ok: bool, name: Seq<char>, result: Option<StoredResultV>, error: Option<ErrorInfoV> },
    SubagentFinished { id: Seq<char>, ok: bool, session_id: Seq<char>, agent_id: Seq<char>, result: Option<Seq<char>>, error: Option<ErrorInfoV> },
    LlmFinished { id: Seq<char>, ok: bool, message: Option<DraftMessageV>, truncated: bool, refused: bool, usage: Option<UsageV>, cost: Option<rust_decimal::Decimal>, error: Option<ErrorInfoV> },
    InterruptResumed { interrupt_id: Seq<char>, payload: JsonV },
    TurnFinished { turn_id: Seq<char>, data: JsonV, cost: rust_decimal::Decimal, usage: UsageV },
}

impl Model for Trigger {
    type V = TriggerV;

    open spec fn v(&self) -> TriggerV {
        match self {
            Trigger::SessionStart => TriggerV::SessionStart,
            Trigger::ClientMessage { messages, client, turn_id } => TriggerV::ClientMessage {
                messages: messages.v(),
                client: client.v(),
                turn_id: turn_id.v(),
            },
            Trigger::ClientTranscript { messages, new_from, client } => TriggerV::ClientTranscript {
                messages: messages.v(),
                new_from: new_from.v(),
                client: client.v(),
            },
            Trigger::ClientAction { name, args } => TriggerV::ClientAction {
                name: name.v(),
                args: args.v(),
            },
            Trigger::SubagentNotice { messages, sessions, turn_id } => TriggerV::SubagentNotice {
                messages: messages.v(),
                sessions: sessions.v(),
                turn_id: turn_id.v(),
            },
            Trigger::ToolExecute { id, name, arguments, attempt, deadline } => TriggerV::ToolExecute {
                id: id.v(),
                name: name.v(),
                arguments: arguments.v(),
                attempt: attempt.v(),
                deadline: deadline.v(),
            },
            Trigger::LlmExecute { id, request, format, defer_tools_strategy, stream, attempt, deadline } => TriggerV::LlmExecute {
                id: id.v(),
                request: request.v(),
                format: format.v(),
                defer_tools_strategy: defer_tools_strategy.v(),
                stream: stream.v(),
                attempt: attempt.v(),
                deadline: deadline.v(),
            },
            Trigger::ToolFinished { id, ok, name, result, error } => TriggerV::ToolFinished {
                id: id.v(),
                ok: ok.v(),
                name: name.v(),
                result: result.v(),
                error: error.v(),
            },
            Trigger::SubagentFinished { id, ok, session_id, agent_id, result, error } => TriggerV::SubagentFinished {
                id: id.v(),
                ok: ok.v(),
                session_id: session_id.v(),
                agent_id: agent_id.v(),
                result: result.v(),
                error: error.v(),
            },
            Trigger::LlmFinished { id, ok, message, truncated, refused, usage, cost, error } => TriggerV::LlmFinished {
                id: id.v(),
                ok: ok.v(),
                message: message.v(),
                truncated: truncated.v(),
                refused: refused.v(),
                usage: usage.v(),
                cost: cost.v(),
                error: error.v(),
            },
            Trigger::InterruptResumed { interrupt_id, payload } => TriggerV::InterruptResumed {
                interrupt_id: interrupt_id.v(),
                payload: payload.v(),
            },
            Trigger::TurnFinished { turn_id, data, cost, usage } => TriggerV::TurnFinished {
                turn_id: turn_id.v(),
                data: data.v(),
                cost: cost.v(),
                usage: usage.v(),
            },
        }
    }

    fn dup(&self) -> (r: Trigger) {
        match self {
            Trigger::SessionStart => Trigger::SessionStart,
            Trigger::ClientMessage { messages, client, turn_id } => Trigger::ClientMessage {
                messages: messages.dup(),
                client: client.dup(),
                turn_id: turn_id.dup(),
            },
            Trigger::ClientTranscript { messages, new_from, client } => Trigger::ClientTranscript {
                messages: messages.dup(),
                new_from: new_from.dup(),
                client: client.dup(),
            },
            Trigger::ClientAction { name, args } => Trigger::ClientAction {
                name: name.dup(),
                args: args.dup(),
            },
            Trigger::SubagentNotice { messages, sessions, turn_id } => Trigger::SubagentNotice {
                messages: messages.dup(),
                sessions: sessions.dup(),
                turn_id: turn_id.dup(),
            },
            Trigger::ToolExecute { id, name, arguments, attempt, deadline } => Trigger::ToolExecute {
                id: id.dup(),
                name: name.dup(),
                arguments: arguments.dup(),
                attempt: attempt.dup(),
                deadline: deadline.dup(),
            },
            Trigger::LlmExecute { id, request, format, defer_tools_strategy, stream, attempt, deadline } => Trigger::LlmExecute {
                id: id.dup(),
                request: request.dup(),
                format: format.dup(),
                defer_tools_strategy: defer_tools_strategy.dup(),
                stream: stream.dup(),
                attempt: attempt.dup(),
                deadline: deadline.dup(),
            },
            Trigger::ToolFinished { id, ok, name, result, error } => Trigger::ToolFinished {
                id: id.dup(),
                ok: ok.dup(),
                name: name.dup(),
                result: result.dup(),
                error: error.dup(),
            },
            Trigger::SubagentFinished { id, ok, session_id, agent_id, result, error } => Trigger::SubagentFinished {
                id: id.dup(),
                ok: ok.dup(),
                session_id: session_id.dup(),
                agent_id: agent_id.dup(),
                result: result.dup(),
                error: error.dup(),
            },
            Trigger::LlmFinished { id, ok, message, truncated, refused, usage, cost, error } => Trigger::LlmFinished {
                id: id.dup(),
                ok: ok.dup(),
                message: message.dup(),
                truncated: truncated.dup(),
                refused: refused.dup(),
                usage: usage.dup(),
                cost: cost.dup(),
                error: error.dup(),
            },
            Trigger::InterruptResumed { interrupt_id, payload } => Trigger::InterruptResumed {
                interrupt_id: interrupt_id.dup(),
                payload: payload.dup(),
            },
            Trigger::TurnFinished { turn_id, data, cost, usage } => Trigger::TurnFinished {
                turn_id: turn_id.dup(),
                data: data.dup(),
                cost: cost.dup(),
                usage: usage.dup(),
            },
        }
    }
}

impl Clone for Trigger {
    fn clone(&self) -> (r: Trigger)
        ensures
            r.v() == self.v(),
    {
        self.dup()
    }
}

impl TriggerV {
    /// The turn that starts when the decision is taken up, if it holds one.
    pub open spec fn deferred_turn_id(self) -> Option<Seq<char>> {
        match self {
            TriggerV::ClientMessage { turn_id, .. } => turn_id,
            TriggerV::SubagentNotice { turn_id, .. } => Some(turn_id),
            _ => None,
        }
    }

    /// An LLM call that answered.
    pub open spec fn llm_ok(
        id: Seq<char>,
        message: DraftMessageV,
        truncated: bool,
        refused: bool,
        usage: Option<UsageV>,
        cost: Option<Decimal>,
    ) -> TriggerV {
        TriggerV::LlmFinished {
            id,
            ok: true,
            message: Some(message),
            truncated,
            refused,
            usage,
            cost,
            error: None,
        }
    }

    /// An LLM call that failed.
    pub open spec fn llm_err(id: Seq<char>, error: ErrorInfoV) -> TriggerV {
        TriggerV::LlmFinished {
            id,
            ok: false,
            message: None,
            truncated: false,
            refused: false,
            usage: None,
            cost: None,
            error: Some(error),
        }
    }
}

impl Trigger {
    /// The turn that starts when the decision is taken up, if it holds one.
    pub fn deferred_turn_id(&self) -> (r: Option<&str>)
        ensures
            text_of(r) == self.v().deferred_turn_id(),
    {
        match self {
            Trigger::ClientMessage { turn_id, .. } => match turn_id {
                Some(turn_id) => Some(turn_id.as_str()),
                None => None,
            },
            Trigger::SubagentNotice { turn_id, .. } => Some(turn_id.as_str()),
            _ => None,
        }
    }

    pub fn llm_ok(
        id: String,
        message: DraftMessage,
        truncated: bool,
        refused: bool,
        usage: Option<Usage>,
        cost: Option<Decimal>,
    ) -> (r: Trigger)
        ensures
            r.v() == TriggerV::llm_ok(id@, message.v(), truncated, refused, usage.v(), cost),
    {
        Trigger::LlmFinished {
            id,
            ok: true,
            message: Some(message),
            truncated,
            refused,
            usage,
            cost,
            error: None,
        }
    }

    pub fn llm_err(id: String, error: ErrorInfo) -> (r: Trigger)
        ensures
            r.v() == TriggerV::llm_err(id@, error.v()),
    {
        Trigger::LlmFinished {
            id,
            ok: false,
            message: None,
            truncated: false,
            refused: false,
            usage: None,
            cost: None,
            error: Some(error),
        }
    }

    pub fn turn_finished(turn_id: String, data: Json, cost: Decimal, usage: Usage) -> (r: Trigger)
        ensures
            r.v() == (TriggerV::TurnFinished {
                turn_id: turn_id@,
                data: data.v(),
                cost,
                usage: usage.v(),
            }),
    {
        Trigger::TurnFinished { turn_id, data, cost, usage }
    }
}

#[derive(Debug, Clone, Copy, PartialEq, Eq, Structural)]
pub enum WorkKind {
    ToolCall,
    LlmCall,
}

impl Model for WorkKind {
    type V = WorkKind;

    open spec fn v(&self) -> WorkKind {
        *self
    }

    fn dup(&self) -> (r: WorkKind) {
        *self
    }
}

impl Same for WorkKind {
    fn same(&self, other: &WorkKind) -> (r: bool) {
        *self == *other
    }
}

/// What a piece of work came to.
#[derive(Debug, PartialEq)]
pub enum EffectResultPayload {
    ToolCall { result: ToolResult },
    LlmCall { response: Box<LlmResponse> },
}

/// The value of [`EffectResultPayload`].
pub enum EffectResultPayloadV {
    ToolCall { result: ToolResultV },
    LlmCall { response: LlmResponseV },
}

impl Model for EffectResultPayload {
    type V = EffectResultPayloadV;

    open spec fn v(&self) -> EffectResultPayloadV {
        match self {
            EffectResultPayload::ToolCall { result } => EffectResultPayloadV::ToolCall {
                result: result.v(),
            },
            EffectResultPayload::LlmCall { response } => EffectResultPayloadV::LlmCall {
                response: response.v(),
            },
        }
    }

    fn dup(&self) -> (r: EffectResultPayload) {
        match self {
            EffectResultPayload::ToolCall { result } => EffectResultPayload::ToolCall {
                result: result.dup(),
            },
            EffectResultPayload::LlmCall { response } => EffectResultPayload::LlmCall {
                response: response.dup(),
            },
        }
    }
}

impl Clone for EffectResultPayload {
    fn clone(&self) -> (r: EffectResultPayload)
        ensures
            r.v() == self.v(),
    {
        self.dup()
    }
}

/// What a worker decided to do.
#[allow(inconsistent_fields)]
#[derive(Debug, PartialEq)]
pub enum Action {
    CallLlm {
        id: String,
        llm: String,
        request: LlmRequest,
        stream: bool,
        retry: RetryPolicy,
        handler: LlmHandler,
        format: Option<LlmFormat>,
    },
    CallTool { id: String, name: String, arguments: String, retry: Option<RetryOverride> },
    ToolResult { id: String, attempt: Option<u32>, result: StoredResult },
    LlmResult { id: String, attempt: Option<u32>, response: LlmResponse },
    ToolError { id: String, attempt: Option<u32>, error: ErrorInfo, retryable: bool },
    LlmError { id: String, attempt: Option<u32>, error: ErrorInfo, retryable: bool },
    SpawnSubagent {
        session_id: Option<String>,
        agent_id: String,
        tool_call_id: String,
        message: Option<DraftMessage>,
        retry: RetryPolicy,
        mode: Option<SpawnMode>,
    },
    SendMessage { session_id: String, message: DraftMessage },
    Interrupt { interrupt_id: String, reason: String, payload: Json },
    ResolveInterrupt { interrupt_id: String, payload: Json },
    SyncConnector { path: ConnectionPath },
    Done { data: Json },
    Fail { error: ErrorInfo },
}

/// The value of [`Action`].
#[allow(inconsistent_fields)]
pub enum ActionV {
    CallLlm { id: Seq<char>, llm: Seq<char>, request: LlmRequestV, stream: bool, retry: RetryPolicy, handler: LlmHandler, format: Option<LlmFormat> },
    CallTool { id: Seq<char>, name: Seq<char>, arguments: Seq<char>, retry: Option<RetryOverride> },
    ToolResult { id: Seq<char>, attempt: Option<u32>, result: StoredResultV },
    LlmResult { id: Seq<char>, attempt: Option<u32>, response: LlmResponseV },
    ToolError { id: Seq<char>, attempt: Option<u32>, error: ErrorInfoV, retryable: bool },
    LlmError { id: Seq<char>, attempt: Option<u32>, error: ErrorInfoV, retryable: bool },
    SpawnSubagent { session_id: Option<Seq<char>>, agent_id: Seq<char>, tool_call_id: Seq<char>, message: Option<DraftMessageV>, retry: RetryPolicy, mode: Option<SpawnMode> },
    SendMessage { session_id: Seq<char>, message: DraftMessageV },
    Interrupt { interrupt_id: Seq<char>, reason: Seq<char>, payload: JsonV },
    ResolveInterrupt { interrupt_id: Seq<char>, payload: JsonV },
    SyncConnector { path: ConnectionPathV },
    Done { data: JsonV },
    Fail { error: ErrorInfoV },
}

impl Model for Action {
    type V = ActionV;

    open spec fn v(&self) -> ActionV {
        match self {
            Action::CallLlm { id, llm, request, stream, retry, handler, format } => ActionV::CallLlm {
                id: id.v(),
                llm: llm.v(),
                request: request.v(),
                stream: stream.v(),
                retry: retry.v(),
                handler: handler.v(),
                format: format.v(),
            },
            Action::CallTool { id, name, arguments, retry } => ActionV::CallTool {
                id: id.v(),
                name: name.v(),
                arguments: arguments.v(),
                retry: retry.v(),
            },
            Action::ToolResult { id, attempt, result } => ActionV::ToolResult {
                id: id.v(),
                attempt: attempt.v(),
                result: result.v(),
            },
            Action::LlmResult { id, attempt, response } => ActionV::LlmResult {
                id: id.v(),
                attempt: attempt.v(),
                response: response.v(),
            },
            Action::ToolError { id, attempt, error, retryable } => ActionV::ToolError {
                id: id.v(),
                attempt: attempt.v(),
                error: error.v(),
                retryable: retryable.v(),
            },
            Action::LlmError { id, attempt, error, retryable } => ActionV::LlmError {
                id: id.v(),
                attempt: attempt.v(),
                error: error.v(),
                retryable: retryable.v(),
            },
            Action::SpawnSubagent { session_id, agent_id, tool_call_id, message, retry, mode } => ActionV::SpawnSubagent {
                session_id: session_id.v(),
                agent_id: agent_id.v(),
                tool_call_id: tool_call_id.v(),
                message: message.v(),
                retry: retry.v(),
                mode: mode.v(),
            },
            Action::SendMessage { session_id, message } => ActionV::SendMessage {
                session_id: session_id.v(),
                message: message.v(),
            },
            Action::Interrupt { interrupt_id, reason, payload } => ActionV::Interrupt {
                interrupt_id: interrupt_id.v(),
                reason: reason.v(),
                payload: payload.v(),
            },
            Action::ResolveInterrupt { interrupt_id, payload } => ActionV::ResolveInterrupt {
                interrupt_id: interrupt_id.v(),
                payload: payload.v(),
            },
            Action::SyncConnector { path } => ActionV::SyncConnector {
                path: path.v(),
            },
            Action::Done { data } => ActionV::Done {
                data: data.v(),
            },
            Action::Fail { error } => ActionV::Fail {
                error: error.v(),
            },
        }
    }

    fn dup(&self) -> (r: Action) {
        match self {
            Action::CallLlm { id, llm, request, stream, retry, handler, format } => Action::CallLlm {
                id: id.dup(),
                llm: llm.dup(),
                request: request.dup(),
                stream: stream.dup(),
                retry: retry.dup(),
                handler: handler.dup(),
                format: format.dup(),
            },
            Action::CallTool { id, name, arguments, retry } => Action::CallTool {
                id: id.dup(),
                name: name.dup(),
                arguments: arguments.dup(),
                retry: retry.dup(),
            },
            Action::ToolResult { id, attempt, result } => Action::ToolResult {
                id: id.dup(),
                attempt: attempt.dup(),
                result: result.dup(),
            },
            Action::LlmResult { id, attempt, response } => Action::LlmResult {
                id: id.dup(),
                attempt: attempt.dup(),
                response: response.dup(),
            },
            Action::ToolError { id, attempt, error, retryable } => Action::ToolError {
                id: id.dup(),
                attempt: attempt.dup(),
                error: error.dup(),
                retryable: retryable.dup(),
            },
            Action::LlmError { id, attempt, error, retryable } => Action::LlmError {
                id: id.dup(),
                attempt: attempt.dup(),
                error: error.dup(),
                retryable: retryable.dup(),
            },
            Action::SpawnSubagent { session_id, agent_id, tool_call_id, message, retry, mode } => Action::SpawnSubagent {
                session_id: session_id.dup(),
                agent_id: agent_id.dup(),
                tool_call_id: tool_call_id.dup(),
                message: message.dup(),
                retry: retry.dup(),
                mode: mode.dup(),
            },
            Action::SendMessage { session_id, message } => Action::SendMessage {
                session_id: session_id.dup(),
                message: message.dup(),
            },
            Action::Interrupt { interrupt_id, reason, payload } => Action::Interrupt {
                interrupt_id: interrupt_id.dup(),
                reason: reason.dup(),
                payload: payload.dup(),
            },
            Action::ResolveInterrupt { interrupt_id, payload } => Action::ResolveInterrupt {
                interrupt_id: interrupt_id.dup(),
                payload: payload.dup(),
            },
            Action::SyncConnector { path } => Action::SyncConnector {
                path: path.dup(),
            },
            Action::Done { data } => Action::Done {
                data: data.dup(),
            },
            Action::Fail { error } => Action::Fail {
                error: error.dup(),
            },
        }
    }
}

impl Clone for Action {
    fn clone(&self) -> (r: Action)
        ensures
            r.v() == self.v(),
    {
        self.dup()
    }
}

} // verus!
