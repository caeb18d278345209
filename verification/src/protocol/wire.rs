//! What clients and workers write and read.
use crate::model::{text_of, Model, Same};
use crate::protocol::config::{
    AgentConfig, AgentConfigV, ClientContext, ClientContextV, ConnectionPath, ConnectionPathV,
    SpawnMode, WorkerState, WorkerStateV,
};
use crate::protocol::effect::{Effect, LlmFormat, RetryOverride};
use crate::protocol::error::{ErrorCode, ErrorInfo, ErrorInfoV};
use crate::protocol::identity::{WorkerIdentity, WorkerRef};
use crate::protocol::json::{Json, JsonV};
use crate::protocol::llm::{LlmTool, LlmToolV, ReasoningConfig, Temperature, Usage, UsageV};
use crate::protocol::message::{DraftMessage, DraftMessageV, Message, MessageTree};
use crate::protocol::result::{StoredResult, StoredResultV, ToolContent, ToolContentV};
use crate::text;
use rust_decimal::Decimal;
use vstd::prelude::*;

verus! {

/// What the engine made of a tool call's arguments, sent with the raw
/// `arguments` string. Always on the wire.
#[derive(Debug, PartialEq)]
pub enum ToolInput {
    /// Parsed, and valid against the `input` schema if the tool declares one,
    /// as far as the engine reads it: the boolean schemas, `type`, `enum`,
    /// `const`, `required`, `properties`, `additionalProperties`, `items`,
    /// `allOf`, `anyOf`, `oneOf` and `not`. `value` is the parsed `arguments`.
    /// The engine never changes it.
    Valid { value: Json },
    /// Parsed to an object that violates the declared `input` schema, in one of
    /// those.
    Invalid { value: Json, error: String },
    /// Not a JSON object. Either malformed JSON or another type.
    Malformed { error: String },
}

/// The value of [`ToolInput`].
pub enum ToolInputV {
    Valid { value: JsonV },
    Invalid { value: JsonV, error: Seq<char> },
    Malformed { error: Seq<char> },
}

impl Model for ToolInput {
    type V = ToolInputV;

    open spec fn v(&self) -> ToolInputV {
        match self {
            ToolInput::Valid { value } => ToolInputV::Valid {
                value: value.v(),
            },
            ToolInput::Invalid { value, error } => ToolInputV::Invalid {
                value: value.v(),
                error: error.v(),
            },
            ToolInput::Malformed { error } => ToolInputV::Malformed {
                error: error.v(),
            },
        }
    }

    fn dup(&self) -> (r: ToolInput) {
        match self {
            ToolInput::Valid { value } => ToolInput::Valid {
                value: value.dup(),
            },
            ToolInput::Invalid { value, error } => ToolInput::Invalid {
                value: value.dup(),
                error: error.dup(),
            },
            ToolInput::Malformed { error } => ToolInput::Malformed {
                error: error.dup(),
            },
        }
    }
}

impl Clone for ToolInput {
    fn clone(&self) -> (r: ToolInput)
        ensures
            r.v() == self.v(),
    {
        self.dup()
    }
}

/// The body of a `client.message`: one message, optionally streamed.
#[derive(Debug, PartialEq)]
pub struct ClientMessage {
    pub message: DraftMessage,
    pub stream: bool,
}

/// The value of [`ClientMessage`].
pub struct ClientMessageV {
    pub message: DraftMessageV,
    pub stream: bool,
}

impl Model for ClientMessage {
    type V = ClientMessageV;

    open spec fn v(&self) -> ClientMessageV {
        ClientMessageV {
            message: self.message.v(),
            stream: self.stream.v(),
        }
    }

    fn dup(&self) -> (r: ClientMessage) {
        ClientMessage {
            message: self.message.dup(),
            stream: self.stream.dup(),
        }
    }
}

impl Clone for ClientMessage {
    fn clone(&self) -> (r: ClientMessage)
        ensures
            r.v() == self.v(),
    {
        self.dup()
    }
}

/// The body of a `client.messages`: the client's full conversation view, optionally streamed.
#[derive(Debug, PartialEq)]
pub struct ClientMessages {
    pub messages: Vec<DraftMessage>,
    pub stream: bool,
    pub client: ClientContext,
}

/// The value of [`ClientMessages`].
pub struct ClientMessagesV {
    pub messages: Seq<DraftMessageV>,
    pub stream: bool,
    pub client: ClientContextV,
}

impl Model for ClientMessages {
    type V = ClientMessagesV;

    open spec fn v(&self) -> ClientMessagesV {
        ClientMessagesV {
            messages: self.messages.v(),
            stream: self.stream.v(),
            client: self.client.v(),
        }
    }

    fn dup(&self) -> (r: ClientMessages) {
        ClientMessages {
            messages: self.messages.dup(),
            stream: self.stream.dup(),
            client: self.client.dup(),
        }
    }
}

impl Clone for ClientMessages {
    fn clone(&self) -> (r: ClientMessages)
        ensures
            r.v() == self.v(),
    {
        self.dup()
    }
}

/// The body of a `client.append`. Messages are added at the session head,
/// against the active path at delivery. A queued append lands after whatever
/// turn beat it, so it cannot fork the tree. A message whose id is already
/// recorded is dropped.
#[derive(Debug, PartialEq)]
pub struct ClientAppend {
    pub messages: Vec<DraftMessage>,
    pub stream: bool,
    pub client: ClientContext,
}

/// The value of [`ClientAppend`].
pub struct ClientAppendV {
    pub messages: Seq<DraftMessageV>,
    pub stream: bool,
    pub client: ClientContextV,
}

impl Model for ClientAppend {
    type V = ClientAppendV;

    open spec fn v(&self) -> ClientAppendV {
        ClientAppendV {
            messages: self.messages.v(),
            stream: self.stream.v(),
            client: self.client.v(),
        }
    }

    fn dup(&self) -> (r: ClientAppend) {
        ClientAppend {
            messages: self.messages.dup(),
            stream: self.stream.dup(),
            client: self.client.dup(),
        }
    }
}

impl Clone for ClientAppend {
    fn clone(&self) -> (r: ClientAppend)
        ensures
            r.v() == self.v(),
    {
        self.dup()
    }
}

/// The payload of a `client.action`: a named action with optional JSON args.
#[derive(Debug, PartialEq)]
pub struct ClientAction {
    pub name: String,
    pub args: Option<Json>,
}

/// The value of [`ClientAction`].
pub struct ClientActionV {
    pub name: Seq<char>,
    pub args: Option<JsonV>,
}

impl Model for ClientAction {
    type V = ClientActionV;

    open spec fn v(&self) -> ClientActionV {
        ClientActionV {
            name: self.name.v(),
            args: self.args.v(),
        }
    }

    fn dup(&self) -> (r: ClientAction) {
        ClientAction {
            name: self.name.dup(),
            args: self.args.dup(),
        }
    }
}

impl Clone for ClientAction {
    fn clone(&self) -> (r: ClientAction)
        ensures
            r.v() == self.v(),
    {
        self.dup()
    }
}

/// What a client submits: a message, its full conversation view, an append
/// batch, or a named action. The engine turns it into events and never stores
/// it as it arrived.
#[derive(Debug, PartialEq)]
pub enum ClientPayload {
    Message(ClientMessage),
    Messages(ClientMessages),
    Append(ClientAppend),
    Action(ClientAction),
}

/// The value of [`ClientPayload`].
pub enum ClientPayloadV {
    Message(ClientMessageV),
    Messages(ClientMessagesV),
    Append(ClientAppendV),
    Action(ClientActionV),
}

impl Model for ClientPayload {
    type V = ClientPayloadV;

    open spec fn v(&self) -> ClientPayloadV {
        match self {
            ClientPayload::Message(a) => ClientPayloadV::Message(a.v()),
            ClientPayload::Messages(a) => ClientPayloadV::Messages(a.v()),
            ClientPayload::Append(a) => ClientPayloadV::Append(a.v()),
            ClientPayload::Action(a) => ClientPayloadV::Action(a.v()),
        }
    }

    fn dup(&self) -> (r: ClientPayload) {
        match self {
            ClientPayload::Message(a) => ClientPayload::Message(a.dup()),
            ClientPayload::Messages(a) => ClientPayload::Messages(a.dup()),
            ClientPayload::Append(a) => ClientPayload::Append(a.dup()),
            ClientPayload::Action(a) => ClientPayload::Action(a.dup()),
        }
    }
}

impl Clone for ClientPayload {
    fn clone(&self) -> (r: ClientPayload)
        ensures
            r.v() == self.v(),
    {
        self.dup()
    }
}

/// Everything a client can send: submit a message, a full view, an append
/// batch, or a named action; resume an interrupt; or settle a client tool.
///
/// Each variant carries only the addressing it needs. The four submit variants
/// carry `agent_id`, which routes the turn and starts the session if it is new,
/// and an optional `turn_id`. A resume or settle names an interrupt or effect
/// and continues whatever turn is running, so it carries neither.
/// `session_id` is on the envelope.
#[allow(inconsistent_fields)]
#[derive(Debug, PartialEq)]
pub enum ClientInput {
    Message {
        agent_id: String,
        turn_id: Option<String>,
        message: DraftMessage,
        stream: bool,
        /// Hold this message for the next turn instead of refusing it while a
        /// turn is running. Off by default.
        queue: bool,
    },
    Messages {
        agent_id: String,
        turn_id: Option<String>,
        messages: Vec<DraftMessage>,
        stream: bool,
        client: ClientContext,
    },
    Append {
        agent_id: String,
        turn_id: Option<String>,
        messages: Vec<DraftMessage>,
        stream: bool,
        client: ClientContext,
        /// Hold this batch for the next turn instead of refusing it while a
        /// turn is running. Off by default.
        queue: bool,
    },
    Action { agent_id: String, turn_id: Option<String>, name: String, args: Option<Json> },
    InterruptResume { resumption: InterruptResumption },
    ToolResult {
        id: String,
        attempt: Option<u32>,
        result: Option<Json>,
        content: Option<Vec<ToolContent>>,
        structured_content: Option<Json>,
        is_error: bool,
    },
    ToolError { id: String, error: String, retryable: bool, attempt: Option<u32> },
}

/// The value of [`ClientInput`].
#[allow(inconsistent_fields)]
pub enum ClientInputV {
    Message { agent_id: Seq<char>, turn_id: Option<Seq<char>>, message: DraftMessageV, stream: bool, queue: bool },
    Messages { agent_id: Seq<char>, turn_id: Option<Seq<char>>, messages: Seq<DraftMessageV>, stream: bool, client: ClientContextV },
    Append { agent_id: Seq<char>, turn_id: Option<Seq<char>>, messages: Seq<DraftMessageV>, stream: bool, client: ClientContextV, queue: bool },
    Action { agent_id: Seq<char>, turn_id: Option<Seq<char>>, name: Seq<char>, args: Option<JsonV> },
    InterruptResume { resumption: InterruptResumptionV },
    ToolResult { id: Seq<char>, attempt: Option<u32>, result: Option<JsonV>, content: Option<Seq<ToolContentV>>, structured_content: Option<JsonV>, is_error: bool },
    ToolError { id: Seq<char>, error: Seq<char>, retryable: bool, attempt: Option<u32> },
}

impl Model for ClientInput {
    type V = ClientInputV;

    open spec fn v(&self) -> ClientInputV {
        match self {
            ClientInput::Message { agent_id, turn_id, message, stream, queue } => ClientInputV::Message {
                agent_id: agent_id.v(),
                turn_id: turn_id.v(),
                message: message.v(),
                stream: stream.v(),
                queue: queue.v(),
            },
            ClientInput::Messages { agent_id, turn_id, messages, stream, client } => ClientInputV::Messages {
                agent_id: agent_id.v(),
                turn_id: turn_id.v(),
                messages: messages.v(),
                stream: stream.v(),
                client: client.v(),
            },
            ClientInput::Append { agent_id, turn_id, messages, stream, client, queue } => ClientInputV::Append {
                agent_id: agent_id.v(),
                turn_id: turn_id.v(),
                messages: messages.v(),
                stream: stream.v(),
                client: client.v(),
                queue: queue.v(),
            },
            ClientInput::Action { agent_id, turn_id, name, args } => ClientInputV::Action {
                agent_id: agent_id.v(),
                turn_id: turn_id.v(),
                name: name.v(),
                args: args.v(),
            },
            ClientInput::InterruptResume { resumption } => ClientInputV::InterruptResume {
                resumption: resumption.v(),
            },
            ClientInput::ToolResult { id, attempt, result, content, structured_content, is_error } => ClientInputV::ToolResult {
                id: id.v(),
                attempt: attempt.v(),
                result: result.v(),
                content: content.v(),
                structured_content: structured_content.v(),
                is_error: is_error.v(),
            },
            ClientInput::ToolError { id, error, retryable, attempt } => ClientInputV::ToolError {
                id: id.v(),
                error: error.v(),
                retryable: retryable.v(),
                attempt: attempt.v(),
            },
        }
    }

    fn dup(&self) -> (r: ClientInput) {
        match self {
            ClientInput::Message { agent_id, turn_id, message, stream, queue } => ClientInput::Message {
                agent_id: agent_id.dup(),
                turn_id: turn_id.dup(),
                message: message.dup(),
                stream: stream.dup(),
                queue: queue.dup(),
            },
            ClientInput::Messages { agent_id, turn_id, messages, stream, client } => ClientInput::Messages {
                agent_id: agent_id.dup(),
                turn_id: turn_id.dup(),
                messages: messages.dup(),
                stream: stream.dup(),
                client: client.dup(),
            },
            ClientInput::Append { agent_id, turn_id, messages, stream, client, queue } => ClientInput::Append {
                agent_id: agent_id.dup(),
                turn_id: turn_id.dup(),
                messages: messages.dup(),
                stream: stream.dup(),
                client: client.dup(),
                queue: queue.dup(),
            },
            ClientInput::Action { agent_id, turn_id, name, args } => ClientInput::Action {
                agent_id: agent_id.dup(),
                turn_id: turn_id.dup(),
                name: name.dup(),
                args: args.dup(),
            },
            ClientInput::InterruptResume { resumption } => ClientInput::InterruptResume {
                resumption: resumption.dup(),
            },
            ClientInput::ToolResult { id, attempt, result, content, structured_content, is_error } => ClientInput::ToolResult {
                id: id.dup(),
                attempt: attempt.dup(),
                result: result.dup(),
                content: content.dup(),
                structured_content: structured_content.dup(),
                is_error: is_error.dup(),
            },
            ClientInput::ToolError { id, error, retryable, attempt } => ClientInput::ToolError {
                id: id.dup(),
                error: error.dup(),
                retryable: retryable.dup(),
                attempt: attempt.dup(),
            },
        }
    }
}

impl Clone for ClientInput {
    fn clone(&self) -> (r: ClientInput)
        ensures
            r.v() == self.v(),
    {
        self.dup()
    }
}

impl ClientInputV {
    /// The agent an input routes on, if it is a submit.
    pub open spec fn agent_id(self) -> Option<Seq<char>> {
        match self {
            ClientInputV::Message { agent_id, .. } => Some(agent_id),
            ClientInputV::Messages { agent_id, .. } => Some(agent_id),
            ClientInputV::Append { agent_id, .. } => Some(agent_id),
            ClientInputV::Action { agent_id, .. } => Some(agent_id),
            _ => None,
        }
    }
}

impl ClientInput {
    /// The submit variants route on an agent; a resume or settle continues
    /// whatever is running.
    pub fn agent_id(&self) -> (r: Option<&str>)
        ensures
            text_of(r) == self.v().agent_id(),
    {
        match self {
            ClientInput::Message { agent_id, .. } => Some(agent_id.as_str()),
            ClientInput::Messages { agent_id, .. } => Some(agent_id.as_str()),
            ClientInput::Append { agent_id, .. } => Some(agent_id.as_str()),
            ClientInput::Action { agent_id, .. } => Some(agent_id.as_str()),
            _ => None,
        }
    }
}

/// The body of an interrupt resume: which interrupt, and the payload delivered
/// to the worker. Shared by the [`ClientInput::InterruptResume`] input and the
/// [`DecisionTrigger::InterruptResumed`] trigger.
#[derive(Debug, PartialEq)]
pub struct InterruptResumption {
    pub interrupt_id: String,
    pub payload: Json,
}

/// The value of [`InterruptResumption`].
pub struct InterruptResumptionV {
    pub interrupt_id: Seq<char>,
    pub payload: JsonV,
}

impl Model for InterruptResumption {
    type V = InterruptResumptionV;

    open spec fn v(&self) -> InterruptResumptionV {
        InterruptResumptionV {
            interrupt_id: self.interrupt_id.v(),
            payload: self.payload.v(),
        }
    }

    fn dup(&self) -> (r: InterruptResumption) {
        InterruptResumption {
            interrupt_id: self.interrupt_id.dup(),
            payload: self.payload.dup(),
        }
    }
}

impl Clone for InterruptResumption {
    fn clone(&self) -> (r: InterruptResumption)
        ensures
            r.v() == self.v(),
    {
        self.dup()
    }
}

/// An interrupt payload in the AG-UI shape. `id` and `reason` live on the
/// interrupt itself.
#[derive(Debug, PartialEq)]
pub struct InterruptPayload {
    /// Markdown. A channel converts it as it needs. Without it, a channel
    /// shows the interrupt's `reason`.
    pub message: Option<String>,
    /// Binds the interrupt to a prior tool call.
    pub tool_call_id: Option<String>,
    /// JSON Schema for the expected resolution payload.
    pub response_schema: Option<Json>,
    /// RFC 3339. Display only.
    pub expires_at: Option<String>,
    /// Free-form, delivered to clients unchanged. `metadata.options` is a
    /// list of [`InterruptOption`], which Slack shows as buttons.
    pub metadata: Option<Json>,
}

/// The value of [`InterruptPayload`].
pub struct InterruptPayloadV {
    pub message: Option<Seq<char>>,
    pub tool_call_id: Option<Seq<char>>,
    pub response_schema: Option<JsonV>,
    pub expires_at: Option<Seq<char>>,
    pub metadata: Option<JsonV>,
}

impl Model for InterruptPayload {
    type V = InterruptPayloadV;

    open spec fn v(&self) -> InterruptPayloadV {
        InterruptPayloadV {
            message: self.message.v(),
            tool_call_id: self.tool_call_id.v(),
            response_schema: self.response_schema.v(),
            expires_at: self.expires_at.v(),
            metadata: self.metadata.v(),
        }
    }

    fn dup(&self) -> (r: InterruptPayload) {
        InterruptPayload {
            message: self.message.dup(),
            tool_call_id: self.tool_call_id.dup(),
            response_schema: self.response_schema.dup(),
            expires_at: self.expires_at.dup(),
            metadata: self.metadata.dup(),
        }
    }
}

impl Clone for InterruptPayload {
    fn clone(&self) -> (r: InterruptPayload)
        ensures
            r.v() == self.v(),
    {
        self.dup()
    }
}

/// One answer under `metadata.options`. Slack shows it as a button. A click
/// resumes with the option's `value`.
#[derive(Debug, PartialEq)]
pub struct InterruptOption {
    pub label: String,
    /// Delivered unchanged as the resolution's `payload`. The worker chooses
    /// what it means.
    pub value: Json,
    /// `primary` or `danger`. Anything else shows plain.
    pub style: Option<String>,
}

/// The value of [`InterruptOption`].
pub struct InterruptOptionV {
    pub label: Seq<char>,
    pub value: JsonV,
    pub style: Option<Seq<char>>,
}

impl Model for InterruptOption {
    type V = InterruptOptionV;

    open spec fn v(&self) -> InterruptOptionV {
        InterruptOptionV {
            label: self.label.v(),
            value: self.value.v(),
            style: self.style.v(),
        }
    }

    fn dup(&self) -> (r: InterruptOption) {
        InterruptOption {
            label: self.label.dup(),
            value: self.value.dup(),
            style: self.style.dup(),
        }
    }
}

impl Clone for InterruptOption {
    fn clone(&self) -> (r: InterruptOption)
        ensures
            r.v() == self.v(),
    {
        self.dup()
    }
}

/// A resume payload a channel wrote: the AG-UI shape plus who resolved it.
#[derive(Debug, PartialEq)]
pub struct InterruptResolution {
    pub status: ResumeStatus,
    pub payload: Json,
    pub responder: Option<InterruptResponder>,
}

/// The value of [`InterruptResolution`].
pub struct InterruptResolutionV {
    pub status: ResumeStatus,
    pub payload: JsonV,
    pub responder: Option<InterruptResponderV>,
}

impl Model for InterruptResolution {
    type V = InterruptResolutionV;

    open spec fn v(&self) -> InterruptResolutionV {
        InterruptResolutionV {
            status: self.status.v(),
            payload: self.payload.v(),
            responder: self.responder.v(),
        }
    }

    fn dup(&self) -> (r: InterruptResolution) {
        InterruptResolution {
            status: self.status.dup(),
            payload: self.payload.dup(),
            responder: self.responder.dup(),
        }
    }
}

impl Clone for InterruptResolution {
    fn clone(&self) -> (r: InterruptResolution)
        ensures
            r.v() == self.v(),
    {
        self.dup()
    }
}

#[derive(Debug, Clone, Copy, PartialEq, Eq, Structural)]
pub enum ResumeStatus {
    Resolved,
    Cancelled,
}

impl Model for ResumeStatus {
    type V = ResumeStatus;

    open spec fn v(&self) -> ResumeStatus {
        *self
    }

    fn dup(&self) -> (r: ResumeStatus) {
        *self
    }
}

impl Same for ResumeStatus {
    fn same(&self, other: &ResumeStatus) -> (r: bool) {
        *self == *other
    }
}

/// Who resolved it. The channel sets this, never the requester.
#[derive(Debug, PartialEq)]
pub struct InterruptResponder {
    /// The channel kind, e.g. `slack`, `ag-ui`.
    pub channel: String,
    /// Channel-native user id.
    pub user: Option<String>,
    /// The chosen option's label, when the resolution was a pick.
    pub label: Option<String>,
    /// The chosen option's `style`, when the resolution was a pick.
    pub style: Option<String>,
}

/// The value of [`InterruptResponder`].
pub struct InterruptResponderV {
    pub channel: Seq<char>,
    pub user: Option<Seq<char>>,
    pub label: Option<Seq<char>>,
    pub style: Option<Seq<char>>,
}

impl Model for InterruptResponder {
    type V = InterruptResponderV;

    open spec fn v(&self) -> InterruptResponderV {
        InterruptResponderV {
            channel: self.channel.v(),
            user: self.user.v(),
            label: self.label.v(),
            style: self.style.v(),
        }
    }

    fn dup(&self) -> (r: InterruptResponder) {
        InterruptResponder {
            channel: self.channel.dup(),
            user: self.user.dup(),
            label: self.label.dup(),
            style: self.style.dup(),
        }
    }
}

impl Clone for InterruptResponder {
    fn clone(&self) -> (r: InterruptResponder)
        ensures
            r.v() == self.v(),
    {
        self.dup()
    }
}

/// How one channel shows a decision. The engine does not read it.
#[derive(Debug, PartialEq)]
pub struct ChannelView {
    /// The channel kind.
    pub channel: String,
    pub shown: Json,
}

/// The value of [`ChannelView`].
pub struct ChannelViewV {
    pub channel: Seq<char>,
    pub shown: JsonV,
}

impl Model for ChannelView {
    type V = ChannelViewV;

    open spec fn v(&self) -> ChannelViewV {
        ChannelViewV {
            channel: self.channel.v(),
            shown: self.shown.v(),
        }
    }

    fn dup(&self) -> (r: ChannelView) {
        ChannelView {
            channel: self.channel.dup(),
            shown: self.shown.dup(),
        }
    }
}

impl Clone for ChannelView {
    fn clone(&self) -> (r: ChannelView)
        ensures
            r.v() == self.v(),
    {
        self.dup()
    }
}

/// Whether the channels stand in the order of their kinds, none of them twice.
pub open spec fn by_channel(channels: Seq<ChannelViewV>) -> bool {
    forall|i: int, j: int|
        0 <= i < j < channels.len() ==> text::less(
            (#[trigger] channels[i]).channel,
            (#[trigger] channels[j]).channel,
        )
}

/// The trigger a worker sees on the wire. There is no `ClientMessage`: the
/// engine turns a bare client message into `ClientTranscript` before it sends
/// it. A deadline is in nanoseconds of the Unix epoch.
#[allow(inconsistent_fields)]
#[derive(Debug, PartialEq)]
pub enum DecisionTrigger {
    /// The first decision of every session; carries no proposal.
    SessionStart,
    ClientTranscript {
        messages: Vec<DraftMessage>,
        new_from: usize,
        /// Inputs the client declared on its run. The engine adds
        /// `client.tools` to the proposed config.
        client: ClientContext,
    },
    ClientAction { name: String, args: Option<Json> },
    /// Answer with `tool.result`/`tool.error`.
    ToolExecute {
        id: String,
        name: String,
        arguments: String,
        /// What the engine made of `arguments` against the tool's `input`
        /// schema: `valid`, `invalid`, or `malformed`. Always on the wire.
        input: ToolInput,
        attempt: u32,
        deadline: Option<i128>,
    },
    ToolFinished {
        id: String,
        ok: bool,
        name: String,
        result: Option<StoredResult>,
        error: Option<ErrorInfo>,
    },
    /// Answer with `llm.result`/`llm.error`.
    LlmExecute {
        id: String,
        /// The neutral `LlmRequest` JSON, or the provider's native request body
        /// when `format` is set.
        request: Json,
        format: Option<LlmFormat>,
        stream: bool,
        attempt: u32,
        deadline: Option<i128>,
    },
    LlmFinished {
        id: String,
        ok: bool,
        message: Option<DraftMessage>,
        truncated: bool,
        /// True when the model declined the request. Without it, a refusal
        /// looks like a turn that ended well and said nothing.
        refused: bool,
        usage: Option<Usage>,
        cost: Option<Decimal>,
        error: Option<ErrorInfo>,
    },
    SubagentFinished {
        id: String,
        ok: bool,
        session_id: String,
        agent_id: String,
        result: Option<String>,
        error: Option<ErrorInfo>,
    },
    InterruptResumed { resumption: InterruptResumption },
    /// Sent after a turn completes, with its final output. The session stays
    /// busy until it is answered. Echo the proposed `done` to finish.
    TurnFinished { turn_id: String, data: Json, cost: Decimal, usage: Usage },
}

/// The value of [`DecisionTrigger`].
#[allow(inconsistent_fields)]
pub enum DecisionTriggerV {
    SessionStart,
    ClientTranscript { messages: Seq<DraftMessageV>, new_from: usize, client: ClientContextV },
    ClientAction { name: Seq<char>, args: Option<JsonV> },
    ToolExecute { id: Seq<char>, name: Seq<char>, arguments: Seq<char>, input: ToolInputV, attempt: u32, deadline: Option<i128> },
    ToolFinished { id: Seq<char>, ok: bool, name: Seq<char>, result: Option<StoredResultV>, error: Option<ErrorInfoV> },
    LlmExecute { id: Seq<char>, request: JsonV, format: Option<LlmFormat>, stream: bool, attempt: u32, deadline: Option<i128> },
    LlmFinished { id: Seq<char>, ok: bool, message: Option<DraftMessageV>, truncated: bool, refused: bool, usage: Option<UsageV>, cost: Option<rust_decimal::Decimal>, error: Option<ErrorInfoV> },
    SubagentFinished { id: Seq<char>, ok: bool, session_id: Seq<char>, agent_id: Seq<char>, result: Option<Seq<char>>, error: Option<ErrorInfoV> },
    InterruptResumed { resumption: InterruptResumptionV },
    TurnFinished { turn_id: Seq<char>, data: JsonV, cost: rust_decimal::Decimal, usage: UsageV },
}

impl Model for DecisionTrigger {
    type V = DecisionTriggerV;

    open spec fn v(&self) -> DecisionTriggerV {
        match self {
            DecisionTrigger::SessionStart => DecisionTriggerV::SessionStart,
            DecisionTrigger::ClientTranscript { messages, new_from, client } => DecisionTriggerV::ClientTranscript {
                messages: messages.v(),
                new_from: new_from.v(),
                client: client.v(),
            },
            DecisionTrigger::ClientAction { name, args } => DecisionTriggerV::ClientAction {
                name: name.v(),
                args: args.v(),
            },
            DecisionTrigger::ToolExecute { id, name, arguments, input, attempt, deadline } => DecisionTriggerV::ToolExecute {
                id: id.v(),
                name: name.v(),
                arguments: arguments.v(),
                input: input.v(),
                attempt: attempt.v(),
                deadline: deadline.v(),
            },
            DecisionTrigger::ToolFinished { id, ok, name, result, error } => DecisionTriggerV::ToolFinished {
                id: id.v(),
                ok: ok.v(),
                name: name.v(),
                result: result.v(),
                error: error.v(),
            },
            DecisionTrigger::LlmExecute { id, request, format, stream, attempt, deadline } => DecisionTriggerV::LlmExecute {
                id: id.v(),
                request: request.v(),
                format: format.v(),
                stream: stream.v(),
                attempt: attempt.v(),
                deadline: deadline.v(),
            },
            DecisionTrigger::LlmFinished { id, ok, message, truncated, refused, usage, cost, error } => DecisionTriggerV::LlmFinished {
                id: id.v(),
                ok: ok.v(),
                message: message.v(),
                truncated: truncated.v(),
                refused: refused.v(),
                usage: usage.v(),
                cost: cost.v(),
                error: error.v(),
            },
            DecisionTrigger::SubagentFinished { id, ok, session_id, agent_id, result, error } => DecisionTriggerV::SubagentFinished {
                id: id.v(),
                ok: ok.v(),
                session_id: session_id.v(),
                agent_id: agent_id.v(),
                result: result.v(),
                error: error.v(),
            },
            DecisionTrigger::InterruptResumed { resumption } => DecisionTriggerV::InterruptResumed {
                resumption: resumption.v(),
            },
            DecisionTrigger::TurnFinished { turn_id, data, cost, usage } => DecisionTriggerV::TurnFinished {
                turn_id: turn_id.v(),
                data: data.v(),
                cost: cost.v(),
                usage: usage.v(),
            },
        }
    }

    fn dup(&self) -> (r: DecisionTrigger) {
        match self {
            DecisionTrigger::SessionStart => DecisionTrigger::SessionStart,
            DecisionTrigger::ClientTranscript { messages, new_from, client } => DecisionTrigger::ClientTranscript {
                messages: messages.dup(),
                new_from: new_from.dup(),
                client: client.dup(),
            },
            DecisionTrigger::ClientAction { name, args } => DecisionTrigger::ClientAction {
                name: name.dup(),
                args: args.dup(),
            },
            DecisionTrigger::ToolExecute { id, name, arguments, input, attempt, deadline } => DecisionTrigger::ToolExecute {
                id: id.dup(),
                name: name.dup(),
                arguments: arguments.dup(),
                input: input.dup(),
                attempt: attempt.dup(),
                deadline: deadline.dup(),
            },
            DecisionTrigger::ToolFinished { id, ok, name, result, error } => DecisionTrigger::ToolFinished {
                id: id.dup(),
                ok: ok.dup(),
                name: name.dup(),
                result: result.dup(),
                error: error.dup(),
            },
            DecisionTrigger::LlmExecute { id, request, format, stream, attempt, deadline } => DecisionTrigger::LlmExecute {
                id: id.dup(),
                request: request.dup(),
                format: format.dup(),
                stream: stream.dup(),
                attempt: attempt.dup(),
                deadline: deadline.dup(),
            },
            DecisionTrigger::LlmFinished { id, ok, message, truncated, refused, usage, cost, error } => DecisionTrigger::LlmFinished {
                id: id.dup(),
                ok: ok.dup(),
                message: message.dup(),
                truncated: truncated.dup(),
                refused: refused.dup(),
                usage: usage.dup(),
                cost: cost.dup(),
                error: error.dup(),
            },
            DecisionTrigger::SubagentFinished { id, ok, session_id, agent_id, result, error } => DecisionTrigger::SubagentFinished {
                id: id.dup(),
                ok: ok.dup(),
                session_id: session_id.dup(),
                agent_id: agent_id.dup(),
                result: result.dup(),
                error: error.dup(),
            },
            DecisionTrigger::InterruptResumed { resumption } => DecisionTrigger::InterruptResumed {
                resumption: resumption.dup(),
            },
            DecisionTrigger::TurnFinished { turn_id, data, cost, usage } => DecisionTrigger::TurnFinished {
                turn_id: turn_id.dup(),
                data: data.dup(),
                cost: cost.dup(),
                usage: usage.dup(),
            },
        }
    }
}

impl Clone for DecisionTrigger {
    fn clone(&self) -> (r: DecisionTrigger)
        ensures
            r.v() == self.v(),
    {
        self.dup()
    }
}

impl DecisionTriggerV {
    /// The wire tag of a trigger.
    pub open spec fn tag(self) -> Seq<char> {
        match self {
            DecisionTriggerV::SessionStart => "session.start"@,
            DecisionTriggerV::ClientTranscript { .. } => "client.messages"@,
            DecisionTriggerV::ClientAction { .. } => "client.action"@,
            DecisionTriggerV::ToolExecute { .. } => "tool.execute"@,
            DecisionTriggerV::ToolFinished { .. } => "tool.finished"@,
            DecisionTriggerV::LlmExecute { .. } => "llm.execute"@,
            DecisionTriggerV::LlmFinished { .. } => "llm.finished"@,
            DecisionTriggerV::SubagentFinished { .. } => "subagent.finished"@,
            DecisionTriggerV::InterruptResumed { .. } => "interrupt.resumed"@,
            DecisionTriggerV::TurnFinished { .. } => "turn.finished"@,
        }
    }

}

impl DecisionTrigger {
    /// Compact wire tag for logs, without the payload.
    pub fn kind(&self) -> (r: &'static str)
        ensures
            r@ == self.v().tag(),
    {
        match self {
            DecisionTrigger::SessionStart => "session.start",
            DecisionTrigger::ClientTranscript { .. } => "client.messages",
            DecisionTrigger::ClientAction { .. } => "client.action",
            DecisionTrigger::ToolExecute { .. } => "tool.execute",
            DecisionTrigger::ToolFinished { .. } => "tool.finished",
            DecisionTrigger::LlmExecute { .. } => "llm.execute",
            DecisionTrigger::LlmFinished { .. } => "llm.finished",
            DecisionTrigger::SubagentFinished { .. } => "subagent.finished",
            DecisionTrigger::InterruptResumed { .. } => "interrupt.resumed",
            DecisionTrigger::TurnFinished { .. } => "turn.finished",
        }
    }
}

/// The action a worker writes on the wire. A settle can leave out the effect
/// id, because the `*.execute` trigger it answers already names it.
#[allow(inconsistent_fields)]
#[derive(Debug, PartialEq)]
pub enum DecisionAction {
    /// A flat LLM request. Every field is optional.
    ///
    /// Without `id`, the engine mints one, and it becomes the assistant node's
    /// id. A field left out comes from the agent config, then from the engine's
    /// default. Without `messages`, the request carries the config's system
    /// message and the decision's view. Given `messages`, no system message is
    /// added.
    CallLlm {
        id: Option<String>,
        /// The `[llm.*]` block this call runs on. Absent uses the config's
        /// `llm`. Naming another block moves this one call elsewhere.
        llm: Option<String>,
        model: Option<String>,
        messages: Option<Vec<DraftMessage>>,
        tools: Option<Vec<LlmTool>>,
        temperature: Option<Temperature>,
        max_completion_tokens: Option<u64>,
        reasoning: Option<ReasoningConfig>,
        stream: Option<bool>,
        /// Layered over the agent config's `llm` policy, or over the engine's
        /// default.
        retry: Option<RetryOverride>,
    },
    /// Without `id`, the engine mints one. A tool the model called carries the
    /// model's id.
    ///
    /// There is no `handler`. The name says where the call runs: a connector
    /// tool on the engine, a `handler: client` tool on the client, anything
    /// else on the worker. The engine knows all three already.
    CallTool {
        id: Option<String>,
        name: String,
        arguments: Json,
        /// Layered over the agent config's policy for this kind, or over the
        /// engine's default for where the tool runs.
        retry: Option<RetryOverride>,
    },
    /// Without `id` and `attempt`, both come from the `tool.execute` trigger
    /// this answers. That ties the result to the attempt that ran.
    ToolResult {
        id: Option<String>,
        attempt: Option<u32>,
        result: Option<Json>,
        content: Option<Vec<ToolContent>>,
        structured_content: Option<Json>,
        is_error: bool,
    },
    /// Without `id` and `attempt`, both come from the `llm.execute` trigger
    /// this answers. That ties the result to the attempt that ran.
    LlmResult {
        id: Option<String>,
        attempt: Option<u32>,
        /// An `LlmResponse`, or the provider's own response when the
        /// `llm.execute` this answers carried a `format`.
        response: Json,
    },
    ToolError {
        id: Option<String>,
        attempt: Option<u32>,
        error: String,
        /// Left out, the failure is final.
        retryable: bool,
        code: Option<ErrorCode>,
        detail: Option<Json>,
    },
    LlmError {
        id: Option<String>,
        attempt: Option<u32>,
        error: String,
        /// Left out, the failure is final.
        retryable: bool,
        code: Option<ErrorCode>,
        detail: Option<Json>,
    },
    SpawnSubagent {
        session_id: Option<String>,
        agent_id: String,
        /// The model tool call this subagent answers. Required.
        tool_call_id: String,
        /// The child's opening message. It travels with the spawn, so it
        /// cannot arrive before the session exists.
        message: Option<DraftMessage>,
        /// Layered over the agent config's `subagent` policy, or over the
        /// engine's default.
        retry: Option<RetryOverride>,
        mode: Option<SpawnMode>,
    },
    SendMessage { session_id: String, message: DraftMessage },
    /// Without `interrupt_id`, the engine mints one to match the later
    /// resume.
    Interrupt { interrupt_id: Option<String>, reason: String, payload: Json },
    /// Resolve an open interrupt and resume the session.
    ResolveInterrupt { interrupt_id: String, payload: Json },
    /// Fetch a connection's tools again, after a person replaced its
    /// credential.
    SyncConnector { path: ConnectionPath },
    Done { data: Json },
    /// End the turn as a failed run.
    Fail { error: ErrorInfo },
}

/// The value of [`DecisionAction`].
#[allow(inconsistent_fields)]
pub enum DecisionActionV {
    CallLlm { id: Option<Seq<char>>, llm: Option<Seq<char>>, model: Option<Seq<char>>, messages: Option<Seq<DraftMessageV>>, tools: Option<Seq<LlmToolV>>, temperature: Option<Temperature>, max_completion_tokens: Option<u64>, reasoning: Option<ReasoningConfig>, stream: Option<bool>, retry: Option<RetryOverride> },
    CallTool { id: Option<Seq<char>>, name: Seq<char>, arguments: JsonV, retry: Option<RetryOverride> },
    ToolResult { id: Option<Seq<char>>, attempt: Option<u32>, result: Option<JsonV>, content: Option<Seq<ToolContentV>>, structured_content: Option<JsonV>, is_error: bool },
    LlmResult { id: Option<Seq<char>>, attempt: Option<u32>, response: JsonV },
    ToolError { id: Option<Seq<char>>, attempt: Option<u32>, error: Seq<char>, retryable: bool, code: Option<ErrorCode>, detail: Option<JsonV> },
    LlmError { id: Option<Seq<char>>, attempt: Option<u32>, error: Seq<char>, retryable: bool, code: Option<ErrorCode>, detail: Option<JsonV> },
    SpawnSubagent { session_id: Option<Seq<char>>, agent_id: Seq<char>, tool_call_id: Seq<char>, message: Option<DraftMessageV>, retry: Option<RetryOverride>, mode: Option<SpawnMode> },
    SendMessage { session_id: Seq<char>, message: DraftMessageV },
    Interrupt { interrupt_id: Option<Seq<char>>, reason: Seq<char>, payload: JsonV },
    ResolveInterrupt { interrupt_id: Seq<char>, payload: JsonV },
    SyncConnector { path: ConnectionPathV },
    Done { data: JsonV },
    Fail { error: ErrorInfoV },
}

impl Model for DecisionAction {
    type V = DecisionActionV;

    open spec fn v(&self) -> DecisionActionV {
        match self {
            DecisionAction::CallLlm { id, llm, model, messages, tools, temperature, max_completion_tokens, reasoning, stream, retry } => DecisionActionV::CallLlm {
                id: id.v(),
                llm: llm.v(),
                model: model.v(),
                messages: messages.v(),
                tools: tools.v(),
                temperature: temperature.v(),
                max_completion_tokens: max_completion_tokens.v(),
                reasoning: reasoning.v(),
                stream: stream.v(),
                retry: retry.v(),
            },
            DecisionAction::CallTool { id, name, arguments, retry } => DecisionActionV::CallTool {
                id: id.v(),
                name: name.v(),
                arguments: arguments.v(),
                retry: retry.v(),
            },
            DecisionAction::ToolResult { id, attempt, result, content, structured_content, is_error } => DecisionActionV::ToolResult {
                id: id.v(),
                attempt: attempt.v(),
                result: result.v(),
                content: content.v(),
                structured_content: structured_content.v(),
                is_error: is_error.v(),
            },
            DecisionAction::LlmResult { id, attempt, response } => DecisionActionV::LlmResult {
                id: id.v(),
                attempt: attempt.v(),
                response: response.v(),
            },
            DecisionAction::ToolError { id, attempt, error, retryable, code, detail } => DecisionActionV::ToolError {
                id: id.v(),
                attempt: attempt.v(),
                error: error.v(),
                retryable: retryable.v(),
                code: code.v(),
                detail: detail.v(),
            },
            DecisionAction::LlmError { id, attempt, error, retryable, code, detail } => DecisionActionV::LlmError {
                id: id.v(),
                attempt: attempt.v(),
                error: error.v(),
                retryable: retryable.v(),
                code: code.v(),
                detail: detail.v(),
            },
            DecisionAction::SpawnSubagent { session_id, agent_id, tool_call_id, message, retry, mode } => DecisionActionV::SpawnSubagent {
                session_id: session_id.v(),
                agent_id: agent_id.v(),
                tool_call_id: tool_call_id.v(),
                message: message.v(),
                retry: retry.v(),
                mode: mode.v(),
            },
            DecisionAction::SendMessage { session_id, message } => DecisionActionV::SendMessage {
                session_id: session_id.v(),
                message: message.v(),
            },
            DecisionAction::Interrupt { interrupt_id, reason, payload } => DecisionActionV::Interrupt {
                interrupt_id: interrupt_id.v(),
                reason: reason.v(),
                payload: payload.v(),
            },
            DecisionAction::ResolveInterrupt { interrupt_id, payload } => DecisionActionV::ResolveInterrupt {
                interrupt_id: interrupt_id.v(),
                payload: payload.v(),
            },
            DecisionAction::SyncConnector { path } => DecisionActionV::SyncConnector {
                path: path.v(),
            },
            DecisionAction::Done { data } => DecisionActionV::Done {
                data: data.v(),
            },
            DecisionAction::Fail { error } => DecisionActionV::Fail {
                error: error.v(),
            },
        }
    }

    fn dup(&self) -> (r: DecisionAction) {
        match self {
            DecisionAction::CallLlm { id, llm, model, messages, tools, temperature, max_completion_tokens, reasoning, stream, retry } => DecisionAction::CallLlm {
                id: id.dup(),
                llm: llm.dup(),
                model: model.dup(),
                messages: messages.dup(),
                tools: tools.dup(),
                temperature: temperature.dup(),
                max_completion_tokens: max_completion_tokens.dup(),
                reasoning: reasoning.dup(),
                stream: stream.dup(),
                retry: retry.dup(),
            },
            DecisionAction::CallTool { id, name, arguments, retry } => DecisionAction::CallTool {
                id: id.dup(),
                name: name.dup(),
                arguments: arguments.dup(),
                retry: retry.dup(),
            },
            DecisionAction::ToolResult { id, attempt, result, content, structured_content, is_error } => DecisionAction::ToolResult {
                id: id.dup(),
                attempt: attempt.dup(),
                result: result.dup(),
                content: content.dup(),
                structured_content: structured_content.dup(),
                is_error: is_error.dup(),
            },
            DecisionAction::LlmResult { id, attempt, response } => DecisionAction::LlmResult {
                id: id.dup(),
                attempt: attempt.dup(),
                response: response.dup(),
            },
            DecisionAction::ToolError { id, attempt, error, retryable, code, detail } => DecisionAction::ToolError {
                id: id.dup(),
                attempt: attempt.dup(),
                error: error.dup(),
                retryable: retryable.dup(),
                code: code.dup(),
                detail: detail.dup(),
            },
            DecisionAction::LlmError { id, attempt, error, retryable, code, detail } => DecisionAction::LlmError {
                id: id.dup(),
                attempt: attempt.dup(),
                error: error.dup(),
                retryable: retryable.dup(),
                code: code.dup(),
                detail: detail.dup(),
            },
            DecisionAction::SpawnSubagent { session_id, agent_id, tool_call_id, message, retry, mode } => DecisionAction::SpawnSubagent {
                session_id: session_id.dup(),
                agent_id: agent_id.dup(),
                tool_call_id: tool_call_id.dup(),
                message: message.dup(),
                retry: retry.dup(),
                mode: mode.dup(),
            },
            DecisionAction::SendMessage { session_id, message } => DecisionAction::SendMessage {
                session_id: session_id.dup(),
                message: message.dup(),
            },
            DecisionAction::Interrupt { interrupt_id, reason, payload } => DecisionAction::Interrupt {
                interrupt_id: interrupt_id.dup(),
                reason: reason.dup(),
                payload: payload.dup(),
            },
            DecisionAction::ResolveInterrupt { interrupt_id, payload } => DecisionAction::ResolveInterrupt {
                interrupt_id: interrupt_id.dup(),
                payload: payload.dup(),
            },
            DecisionAction::SyncConnector { path } => DecisionAction::SyncConnector {
                path: path.dup(),
            },
            DecisionAction::Done { data } => DecisionAction::Done {
                data: data.dup(),
            },
            DecisionAction::Fail { error } => DecisionAction::Fail {
                error: error.dup(),
            },
        }
    }
}

impl Clone for DecisionAction {
    fn clone(&self) -> (r: DecisionAction)
        ensures
            r.v() == self.v(),
    {
        self.dup()
    }
}

/// The messages and actions to author, plus optional state and agent writes.
/// A worker returns one. The engine proposes one too, which the worker echoes
/// or changes.
#[derive(Debug, PartialEq)]
pub struct DecisionResponse {
    pub messages: Vec<DraftMessage>,
    pub actions: Vec<DecisionAction>,
    /// Absent or `null` keeps the current state. Send an empty value to
    /// clear it.
    pub state: Option<WorkerState>,
    /// A new agent config write; omitted keeps the current config.
    pub agent: Option<AgentConfig>,
    /// How each channel shows this decision, in the order of the channels.
    pub channels: Vec<ChannelView>,
}

/// The value of [`DecisionResponse`].
pub struct DecisionResponseV {
    pub messages: Seq<DraftMessageV>,
    pub actions: Seq<DecisionActionV>,
    pub state: Option<WorkerStateV>,
    pub agent: Option<AgentConfigV>,
    pub channels: Seq<ChannelViewV>,
}

impl Model for DecisionResponse {
    type V = DecisionResponseV;

    open spec fn v(&self) -> DecisionResponseV {
        DecisionResponseV {
            messages: self.messages.v(),
            actions: self.actions.v(),
            state: self.state.v(),
            agent: self.agent.v(),
            channels: self.channels.v(),
        }
    }

    fn dup(&self) -> (r: DecisionResponse) {
        DecisionResponse {
            messages: self.messages.dup(),
            actions: self.actions.dup(),
            state: self.state.dup(),
            agent: self.agent.dup(),
            channels: self.channels.dup(),
        }
    }
}

impl Clone for DecisionResponse {
    fn clone(&self) -> (r: DecisionResponse)
        ensures
            r.v() == self.v(),
    {
        self.dup()
    }
}

impl DecisionResponseV {
    pub open spec fn wf(self) -> bool {
        by_channel(self.channels) && match self.agent {
            Some(agent) => agent.wf(),
            None => true,
        }
    }
}

impl Default for DecisionResponse {
    fn default() -> (r: DecisionResponse)
        ensures
            r.v() == (DecisionResponseV {
                messages: Seq::empty(),
                actions: Seq::empty(),
                state: None,
                agent: None,
                channels: Seq::empty(),
            }),
            r.v().wf(),
    {
        DecisionResponse {
            messages: crate::model::none(),
            actions: crate::model::none(),
            state: None,
            agent: None,
            channels: crate::model::none(),
        }
    }
}

impl DecisionResponse {
    /// The response writes nothing, so settling with it changes nothing.
    pub fn authors_nothing(&self) -> (r: bool)
        ensures
            r == (self.v().messages.len() == 0 && self.v().actions.len() == 0 && self.v().state is None
                && self.v().agent is None && self.v().channels.len() == 0),
    {
        self.messages.len() == 0 && self.actions.len() == 0 && self.state.is_none()
            && self.agent.is_none() && self.channels.len() == 0
    }
}

#[derive(Debug)]
pub struct DecisionRequest<'a> {
    pub session_id: &'a str,
    pub decision_id: &'a str,
    pub agent_id: &'a str,
    pub identity: WorkerIdentity,
    pub trigger: &'a DecisionTrigger,
    /// The engine's default continuation for `trigger`. Empty when only the
    /// worker can decide. Accept it by echoing it back.
    pub proposed: &'a DecisionResponse,
    pub state: &'a WorkerState,
    /// The agent config for the active path. Absent when none is set.
    pub agent: &'a Option<AgentConfig>,
    /// The worker this session is pinned to. Absent when the file's own
    /// routing decides.
    pub worker: &'a Option<WorkerRef>,
    pub calls: &'a [Effect],
    /// Count of in-flight `tool_call`/`subagent` calls.
    pub pending_calls: usize,
    pub messages: &'a [Message],
    pub message_tree: &'a MessageTree,
    pub ancestry: &'a [String],
    pub attempts: u32,
    pub deadline: &'a Option<i128>,
    pub turn_id: &'a Option<String>,
}

} // verus!
