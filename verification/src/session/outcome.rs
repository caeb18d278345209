//! What work comes to.
use crate::model::Model;
use crate::protocol::effect::{AuthNeed, EffectKind};
use crate::protocol::error::{ErrorInfo, ErrorInfoV};
use crate::protocol::llm::{LlmResponse, LlmResponseV};
use crate::protocol::result::{StoredResult, StoredResultV};
use crate::session::decision::{Trigger, TriggerV};
use crate::session::events::{
    CallVoided, CallVoidedV, DecisionQueued, DecisionQueuedV, EventPayload, EventPayloadV,
    RemoteTool, RemoteToolV,
};
use crate::session::ids::{Ids, IdsV};
use vstd::prelude::*;

verus! {

/// Why an attempt failed, and whether another one may help.
#[derive(Debug, PartialEq)]
pub struct SettleError {
    pub error: ErrorInfo,
    pub retryable: bool,
    /// What a person has to do before it can help.
    pub auth: Option<AuthNeed>,
}

/// The value of [`SettleError`].
pub struct SettleErrorV {
    pub error: ErrorInfoV,
    pub retryable: bool,
    pub auth: Option<AuthNeed>,
}

impl Model for SettleError {
    type V = SettleErrorV;

    open spec fn v(&self) -> SettleErrorV {
        SettleErrorV {
            error: self.error.v(),
            retryable: self.retryable.v(),
            auth: self.auth.v(),
        }
    }

    fn dup(&self) -> (r: SettleError) {
        SettleError {
            error: self.error.dup(),
            retryable: self.retryable.dup(),
            auth: self.auth.dup(),
        }
    }
}

impl Clone for SettleError {
    fn clone(&self) -> (r: SettleError)
        ensures
            r.v() == self.v(),
    {
        self.dup()
    }
}

impl SettleErrorV {
    pub open spec fn new(error: ErrorInfoV, retryable: bool) -> SettleErrorV {
        SettleErrorV { error, retryable, auth: None }
    }
}

impl SettleError {
    pub fn new(error: ErrorInfo, retryable: bool) -> (r: SettleError)
        ensures
            r.v() == SettleErrorV::new(error.v(), retryable),
    {
        SettleError { error, retryable, auth: None }
    }

    pub fn auth(self, auth: Option<AuthNeed>) -> (r: SettleError)
        ensures
            r.v() == (SettleErrorV { auth, ..self.v() }),
    {
        SettleError { auth, ..self }
    }
}

/// What an attempt came to.
#[derive(Debug, PartialEq)]
pub enum Outcome {
    Tool { result: StoredResult },
    Llm(Box<LlmResponse>),
    Error(SettleError),
    /// The child session took the call.
    SubagentStarted,
    Connector {
        server: Option<String>,
        prefix: Option<String>,
        tools: Vec<RemoteTool>,
        instructions: Option<String>,
    },
}

/// The value of [`Outcome`].
pub enum OutcomeV {
    Tool { result: StoredResultV },
    Llm(LlmResponseV),
    Error(SettleErrorV),
    SubagentStarted,
    Connector { server: Option<Seq<char>>, prefix: Option<Seq<char>>, tools: Seq<RemoteToolV>, instructions: Option<Seq<char>> },
}

impl Model for Outcome {
    type V = OutcomeV;

    open spec fn v(&self) -> OutcomeV {
        match self {
            Outcome::Tool { result } => OutcomeV::Tool {
                result: result.v(),
            },
            Outcome::Llm(a) => OutcomeV::Llm(a.v()),
            Outcome::Error(a) => OutcomeV::Error(a.v()),
            Outcome::SubagentStarted => OutcomeV::SubagentStarted,
            Outcome::Connector { server, prefix, tools, instructions } => OutcomeV::Connector {
                server: server.v(),
                prefix: prefix.v(),
                tools: tools.v(),
                instructions: instructions.v(),
            },
        }
    }

    fn dup(&self) -> (r: Outcome) {
        match self {
            Outcome::Tool { result } => Outcome::Tool {
                result: result.dup(),
            },
            Outcome::Llm(a) => Outcome::Llm(a.dup()),
            Outcome::Error(a) => Outcome::Error(a.dup()),
            Outcome::SubagentStarted => Outcome::SubagentStarted,
            Outcome::Connector { server, prefix, tools, instructions } => Outcome::Connector {
                server: server.dup(),
                prefix: prefix.dup(),
                tools: tools.dup(),
                instructions: instructions.dup(),
            },
        }
    }
}

impl Clone for Outcome {
    fn clone(&self) -> (r: Outcome)
        ensures
            r.v() == self.v(),
    {
        self.dup()
    }
}

impl vstd::std_specs::convert::FromSpecImpl<SettleError> for Outcome {
    open spec fn obeys_from_spec() -> bool {
        true
    }

    open spec fn from_spec(e: SettleError) -> Outcome {
        Outcome::Error(e)
    }
}

impl From<SettleError> for Outcome {
    fn from(e: SettleError) -> (r: Outcome) {
        Outcome::Error(e)
    }
}

/// Whether an outcome is taken.
#[derive(Debug, Clone, Copy, PartialEq, Eq, Structural)]
pub enum Settle {
    Live,
    Drop,
}

/// The events of one step, and the ids left after it.
pub struct Batch {
    pub events: Seq<EventPayloadV>,
    pub ids: IdsV,
}

impl Batch {
    pub open spec fn of(events: Seq<EventPayloadV>, ids: IdsV) -> Batch {
        Batch { events, ids }
    }

    pub open spec fn nothing(ids: IdsV) -> Batch {
        Batch { events: Seq::empty(), ids }
    }
}

/// A question to the worker, under the next id.
pub open spec fn asked(ids: IdsV, trigger: TriggerV) -> EventPayloadV {
    EventPayloadV::DecisionQueued(DecisionQueuedV { id: ids.id(), trigger })
}

/// A question to the worker, under the next id.
pub fn decision_queued(ids: &mut Ids, trigger: Trigger) -> (r: EventPayload)
    ensures
        r.v() == asked(old(ids).v(), trigger.v()),
        final(ids).v() == old(ids).v().rest(),
{
    EventPayload::DecisionQueued(DecisionQueued { id: ids.new_call_id(), trigger })
}

/// Gives up a call.
pub fn void_events(kind: EffectKind, id: String) -> (r: Vec<EventPayload>)
    ensures
        r.v() == seq![EventPayloadV::CallVoided(CallVoidedV { kind, id: id@ })],
{
    crate::model::one(EventPayload::CallVoided(CallVoided { kind, id }))
}

} // verus!
