//! A tool call.
use crate::model::{any, append_one, first, last_of, lemma_position, lemma_position_is, one, Model};
use crate::protocol::effect::{EffectKind, EffectStatus, RetryOverride, RetryPolicy};
use crate::protocol::error::{ErrorCode, ErrorInfo, ErrorInfoV};
use crate::protocol::json::{json_parsed, parse, JsonV};
use crate::protocol::llm::{LlmTool, LlmToolV};
use crate::protocol::message::{NewMessage, NewMessageV, ToolCall, ToolCallV};
use crate::protocol::result::{StoredResult, StoredResultV};
use crate::protocol::schema::{check, schema_fault};
use crate::session::caller::Caller;
use crate::session::decision::{ToolHandler, Trigger, TriggerV};
use crate::session::effects::{following, next_attempt};
use crate::session::error::{SessionError, SessionErrorV};
use crate::session::events::{
    EventPayload, EventPayloadV, ToolCallCompleted, ToolCallCompletedV, ToolCallErrored,
    ToolCallErroredV, ToolCallRequested, ToolCallRequestedV,
};
use crate::session::ids::{Ids, IdsV};
use crate::session::offers::routes::{
    inner_call, inner_document, read_inner_call, read_inner_document,
};
use crate::session::outcome::{
    asked, decision_queued, Batch, Outcome, OutcomeV, SettleError, SettleErrorV,
};
use crate::session::state::{SessionState, SessionStateV};
use crate::text;
use vstd::prelude::*;

verus! {

/// A tool answers, and the worker is told.
pub open spec fn answered(
    id: Seq<char>,
    name: Seq<char>,
    result: StoredResultV,
    ids: IdsV,
) -> Batch {
    let finished = TriggerV::ToolFinished {
        id,
        ok: !result.is_error,
        name,
        result: Some(result),
        error: None,
    };
    Batch::of(
        seq![
            EventPayloadV::ToolCallCompleted(ToolCallCompletedV { id, result }),
            asked(ids, finished),
        ],
        ids.rest(),
    )
}

/// A tool call fails. The worker is told once nothing more is tried.
pub open spec fn failed(
    id: Seq<char>,
    name: Seq<char>,
    ends: bool,
    e: SettleErrorV,
    ids: IdsV,
) -> Batch {
    let errored = EventPayloadV::ToolCallErrored(
        ToolCallErroredV { id, error: e.error, retryable: e.retryable, auth: e.auth },
    );
    if ends {
        let finished = TriggerV::ToolFinished {
            id,
            ok: false,
            name,
            result: None,
            error: Some(e.error),
        };
        Batch::of(seq![errored, asked(ids, finished)], ids.rest())
    } else {
        Batch::of(seq![errored], ids)
    }
}

pub open spec fn calls(id: Seq<char>) -> spec_fn(ToolCallV) -> bool {
    |c: ToolCallV| c.id == id
}

/// Whether a recorded message brought a call.
pub open spec fn brings_call(id: Seq<char>) -> spec_fn(NewMessageV) -> bool {
    |n: NewMessageV| any(n.message.tool_calls, calls(id))
}

pub open spec fn tool_listed(name: Seq<char>) -> spec_fn(LlmToolV) -> bool {
    |t: LlmToolV| t.name == name
}

impl SessionStateV {
    /// Whether work of that kind and id stands in the table and did not fail.
    /// Asking for it again changes nothing.
    pub open spec fn asked_before(self, kind: EffectKind, id: Seq<char>) -> bool {
        match self.tracking(kind, id) {
            Some(t) => t.state != EffectStatus::Failed,
            None => false,
        }
    }

    /// A tool call is asked for. What goes on record is where it goes.
    #[verifier::opaque]
    pub open spec fn request_tool(
        self,
        id: Seq<char>,
        name: Seq<char>,
        arguments: Seq<char>,
        retry: Option<RetryOverride>,
    ) -> Seq<EventPayloadV> {
        let inner = inner_call(arguments);
        let route = self.route(name, arguments, inner, inner_document(inner));
        if self.asked_before(EffectKind::ToolCall, id) {
            Seq::empty()
        } else {
            seq![
                EventPayloadV::ToolCallRequested(
                    ToolCallRequestedV {
                        id,
                        attempt: 0,
                        name: route.name,
                        arguments: route.arguments,
                        handler: route.handler,
                        target: route.target,
                        retry: RetryPolicy::resolved(
                            retry,
                            self.retry_config(),
                            route.handler.target(),
                        ),
                    },
                ),
            ]
        }
    }

    /// What the request to the model that brought a call said of a tool.
    pub open spec fn asked_tool(self, id: Seq<char>, name: Seq<char>) -> Option<LlmToolV> {
        match last_of(self.nodes, brings_call(id)) {
            Some(n) => match self.effect(EffectKind::LlmCall, n.message.id) {
                Some(e) => match e.llm()->0.request.tools {
                    Some(tools) => first(tools, tool_listed(name)),
                    None => None,
                },
                None => None,
            },
            None => None,
        }
    }

    /// The schema the answer to a call goes by: what the model was told of the
    /// tool, else what the agent declares or a connection offers.
    pub open spec fn output_schema(self, id: Seq<char>, name: Seq<char>) -> Option<JsonV> {
        match self.asked_tool(id, name) {
            Some(tool) => tool.output,
            None => match self.declared_tool(name) {
                Some(tool) => tool.output,
                None => match self.offered_tool(name) {
                    Some(tool) => tool.output,
                    None => None,
                },
            },
        }
    }

    /// What is wrong with an answer that parses to `document`. Whatever a tool
    /// says of its own failure is right.
    pub open spec fn output_fault(
        self,
        id: Seq<char>,
        name: Seq<char>,
        result: StoredResultV,
        document: Option<serde_json::Value>,
    ) -> Option<Seq<char>> {
        match self.output_schema(id, name) {
            Some(schema) => if result.is_error {
                None
            } else {
                match document {
                    Some(document) => schema_fault(schema, document, "output"@),
                    None => Some("it is not JSON"@),
                }
            },
            None => None,
        }
    }

    /// A tool answers with what parses to `document`. An answer that breaks the
    /// schema of the tool is a failure for good.
    pub open spec fn settle_answer(
        self,
        id: Seq<char>,
        name: Seq<char>,
        result: StoredResultV,
        document: Option<serde_json::Value>,
        ids: IdsV,
    ) -> Batch {
        match self.output_fault(id, name, result, document) {
            Some(fault) => failed(
                id,
                name,
                true,
                SettleErrorV::new(
                    ErrorInfoV::new(
                        ErrorCode::InvalidResponse,
                        "tool output violated its declared schema: "@ + fault,
                    ),
                    false,
                ),
                ids,
            ),
            None => answered(id, name, result, ids),
        }
    }

    /// A tool call settles: with an answer, which the worker is told, or with
    /// a failure, which it is told once nothing more is tried.
    pub open spec fn settle_tool(self, id: Seq<char>, outcome: OutcomeV, ids: IdsV) -> Batch {
        match self.effect(EffectKind::ToolCall, id) {
            None => Batch::nothing(ids),
            Some(entry) => {
                let name = entry.tool()->0.name;
                match outcome {
                    OutcomeV::Tool { result } => self.settle_answer(
                        id,
                        name,
                        result,
                        json_parsed(result.rendered()),
                        ids,
                    ),
                    OutcomeV::Error(e) => failed(id, name, entry.tracking.ends(e.retryable), e, ids),
                    _ => Batch::nothing(ids),
                }
            },
        }
    }

    /// A tool call is tried again.
    pub open spec fn retry_tool(self, id: Seq<char>) -> Seq<EventPayloadV> {
        match self.effect(EffectKind::ToolCall, id) {
            None => Seq::empty(),
            Some(e) => {
                let tool = e.tool()->0;
                seq![
                    EventPayloadV::ToolCallRequested(
                        ToolCallRequestedV {
                            id,
                            attempt: next_attempt(e.tracking),
                            name: tool.name,
                            arguments: tool.arguments,
                            handler: tool.handler,
                            target: tool.target,
                            retry: e.tracking.retry.policy,
                        },
                    ),
                ]
            },
        }
    }

    /// What a worker is asked when a tool call that it runs goes out.
    pub open spec fn tool_execute(self, id: Seq<char>) -> Option<TriggerV> {
        match self.effect(EffectKind::ToolCall, id) {
            None => None,
            Some(e) => {
                let tool = e.tool()->0;
                if tool.handler == ToolHandler::Worker {
                    Some(
                        TriggerV::ToolExecute {
                            id,
                            name: tool.name,
                            arguments: tool.arguments,
                            attempt: e.tracking.retry.attempts,
                            deadline: e.tracking.deadline,
                        },
                    )
                } else {
                    None
                }
            },
        }
    }
}

impl SessionState {
    /// Whether work of that kind and id stands in the table and did not fail.
    pub fn asked_before(&self, kind: EffectKind, id: &str) -> (r: bool)
        ensures
            r == self.v().asked_before(kind, id@),
    {
        match self.tracking(kind, id) {
            Some(t) => t.state != EffectStatus::Failed,
            None => false,
        }
    }
}

/// A tool call is asked for. Only the engine asks, for the worker.
pub fn request(
    state: &SessionState,
    id: String,
    name: String,
    arguments: String,
    retry: Option<RetryOverride>,
    caller: &Caller,
) -> (r: Result<Vec<EventPayload>, SessionError>)
    ensures
        r.v() == (if caller.v() is System {
            Ok(state.v().request_tool(id@, name@, arguments@, retry))
        } else {
            Err(SessionErrorV::SessionAccessDenied)
        }),
{
    proof {
        reveal(SessionStateV::request_tool);
    }
    match SessionState::ensure_internal(caller) {
        Err(e) => {
            return Err(e);
        },
        Ok(_) => {},
    }
    if state.asked_before(EffectKind::ToolCall, &id) {
        return Ok(crate::model::none());
    }
    let inner = read_inner_call(&arguments);
    let document = read_inner_document(&inner);
    let route = state.route(name, arguments, inner, document);
    let config = state.retry_config();
    let retry = RetryPolicy::resolve(retry, config.as_ref(), route.handler.retry_target());
    Ok(
        one(
            EventPayload::ToolCallRequested(
                ToolCallRequested {
                    id,
                    attempt: 0,
                    name: route.name,
                    arguments: route.arguments,
                    handler: route.handler,
                    target: route.target,
                    retry,
                },
            ),
        ),
    )
}

fn take_answer(id: &str, name: String, result: StoredResult, ids: &mut Ids) -> (r: Vec<EventPayload>)
    ensures
        Batch::of(r.v(), final(ids).v()) == answered(id@, name@, result.v(), old(ids).v()),
{
    let mut events = one(
        EventPayload::ToolCallCompleted(
            ToolCallCompleted { id: id.to_owned(), result: result.dup() },
        ),
    );
    let finished = Trigger::ToolFinished {
        id: id.to_owned(),
        ok: !result.is_error,
        name,
        result: Some(result),
        error: None,
    };
    append_one(&mut events, decision_queued(ids, finished));
    assert(events.v() =~= answered(id@, name@, result.v(), old(ids).v()).events);
    events
}

fn fail_call(id: &str, name: String, ends: bool, e: SettleError, ids: &mut Ids) -> (r: Vec<
    EventPayload,
>)
    ensures
        Batch::of(r.v(), final(ids).v()) == failed(id@, name@, ends, e.v(), old(ids).v()),
{
    let mut events = one(
        EventPayload::ToolCallErrored(
            ToolCallErrored {
                id: id.to_owned(),
                error: e.error.dup(),
                retryable: e.retryable,
                auth: e.auth,
            },
        ),
    );
    if ends {
        let finished = Trigger::ToolFinished {
            id: id.to_owned(),
            ok: false,
            name,
            result: None,
            error: Some(e.error),
        };
        append_one(&mut events, decision_queued(ids, finished));
    }
    assert(events.v() =~= failed(id@, name@, ends, e.v(), old(ids).v()).events);
    events
}

fn is_among(list: &Vec<ToolCall>, id: &str) -> (r: bool)
    ensures
        r == any(list.v(), calls(id@)),
{
    let ghost all = list.v();
    let mut i: usize = 0;
    while i < list.len()
        invariant
            i <= list@.len(),
            all == list.v(),
            forall|j: int| 0 <= j < i ==> !calls(id@)(#[trigger] all[j]),
        decreases list@.len() - i,
    {
        assert(all[i as int] == list@[i as int].v());
        if text::eq(list[i].id.as_str(), id) {
            assert(calls(id@)(all[i as int]));
            return true;
        }
        i = i + 1;
    }
    false
}

fn find_bringing<'a>(state: &'a SessionState, id: &str) -> (r: Option<&'a NewMessage>)
    ensures
        (match r {
            Some(n) => Some(n.v()),
            None => None,
        }) == last_of(state.v().nodes, brings_call(id@)),
{
    let ghost all = state.v().nodes;
    let mut i: usize = state.nodes.len();
    assert(all.take(i as int) =~= all);
    while i > 0
        invariant
            i <= state.nodes@.len(),
            all == state.v().nodes,
            last_of(all.take(i as int), brings_call(id@)) == last_of(all, brings_call(id@)),
        decreases i,
    {
        i = i - 1;
        assert(all.take(i + 1).drop_last() =~= all.take(i as int));
        assert(all.take(i + 1).last() == state.nodes@[i as int].v());
        if is_among(&state.nodes[i].message.tool_calls, id) {
            return Some(&state.nodes[i]);
        }
    }
    None
}

fn find_listed<'a>(tools: &'a Vec<LlmTool>, name: &str) -> (r: Option<&'a LlmTool>)
    ensures
        (match r {
            Some(t) => Some(t.v()),
            None => None,
        }) == first(tools.v(), tool_listed(name@)),
{
    let ghost all = tools.v();
    let mut i: usize = 0;
    while i < tools.len()
        invariant
            i <= tools@.len(),
            all == tools.v(),
            forall|j: int| 0 <= j < i ==> !tool_listed(name@)(#[trigger] all[j]),
        decreases tools@.len() - i,
    {
        assert(all[i as int] == tools@[i as int].v());
        if text::eq(tools[i].name.as_str(), name) {
            proof {
                lemma_position_is(all, tool_listed(name@), i as int);
            }
            return Some(&tools[i]);
        }
        i = i + 1;
    }
    proof {
        lemma_position(all, tool_listed(name@));
    }
    None
}

fn find_asked<'a>(state: &'a SessionState, id: &str, name: &str) -> (r: Option<&'a LlmTool>)
    ensures
        (match r {
            Some(t) => Some(t.v()),
            None => None,
        }) == state.v().asked_tool(id@, name@),
{
    match find_bringing(state, id) {
        Some(n) => {
            proof {
                lemma_position(
                    state.v().effects,
                    crate::session::state::named(EffectKind::LlmCall, n.v().message.id),
                );
            }
            match state.effect(EffectKind::LlmCall, &n.message.id) {
                Some(e) => match e.llm() {
                    Some(call) => match &call.request.tools {
                        Some(tools) => find_listed(tools, name),
                        None => None,
                    },
                    None => None,
                },
                None => None,
            }
        },
        None => None,
    }
}

fn find_output_fault(
    state: &SessionState,
    id: &str,
    name: &str,
    result: &StoredResult,
    document: &Option<serde_json::Value>,
) -> (r: Option<String>)
    ensures
        r.v() == state.v().output_fault(id@, name@, result.v(), *document),
{
    let schema = match find_asked(state, id, name) {
        Some(tool) => tool.output.dup(),
        None => match state.declared_tool(name) {
            Some(tool) => tool.output.dup(),
            None => match state.offered_tool(name) {
                Some(tool) => tool.output,
                None => None,
            },
        },
    };
    match schema {
        Some(schema) => if result.is_error {
            None
        } else {
            match document {
                Some(document) => check(&schema, document, "output"),
                None => Some("it is not JSON".to_owned()),
            }
        },
        None => None,
    }
}

/// A tool answers with what parses to `document`.
pub fn settle_answer(
    state: &SessionState,
    id: &str,
    name: String,
    result: StoredResult,
    document: Option<serde_json::Value>,
    ids: &mut Ids,
) -> (r: Vec<EventPayload>)
    ensures
        Batch::of(r.v(), final(ids).v()) == state.v().settle_answer(
            id@,
            name@,
            result.v(),
            document,
            old(ids).v(),
        ),
{
    match find_output_fault(state, id, name.as_str(), &result, &document) {
        Some(fault) => {
            let message = "tool output violated its declared schema: ".to_owned().concat(
                fault.as_str(),
            );
            let error = ErrorInfo::new(ErrorCode::InvalidResponse, message);
            fail_call(id, name, true, SettleError::new(error, false), ids)
        },
        None => take_answer(id, name, result, ids),
    }
}

pub struct ToolSpec;

impl ToolSpec {
    pub fn settle(&self, state: &SessionState, id: &str, outcome: Outcome, ids: &mut Ids) -> (r:
        Vec<EventPayload>)
        ensures
            Batch::of(r.v(), final(ids).v()) == state.v().settle_tool(
                id@,
                outcome.v(),
                old(ids).v(),
            ),
    {
        proof {
            lemma_position(
                state.v().effects,
                crate::session::state::named(EffectKind::ToolCall, id@),
            );
        }
        let entry = match state.effect(EffectKind::ToolCall, id) {
            Some(entry) => entry,
            None => {
                return crate::model::none();
            },
        };
        let name = match entry.tool() {
            Some(tool) => tool.name.dup(),
            None => String::new(),
        };
        match outcome {
            Outcome::Tool { result } => {
                let document = parse(result.rendered().as_str());
                settle_answer(state, id, name, result, document, ids)
            },
            Outcome::Error(e) => {
                let ends = entry.tracking.is_terminal_failure(e.retryable);
                fail_call(id, name, ends, e, ids)
            },
            _ => crate::model::none(),
        }
    }

    pub fn retry(&self, state: &SessionState, id: &str) -> (r: Vec<EventPayload>)
        ensures
            r.v() == state.v().retry_tool(id@),
    {
        proof {
            lemma_position(
                state.v().effects,
                crate::session::state::named(EffectKind::ToolCall, id@),
            );
        }
        match state.effect(EffectKind::ToolCall, id) {
            Some(e) => match e.tool() {
                Some(tool) => one(
                    EventPayload::ToolCallRequested(
                        ToolCallRequested {
                            id: id.to_owned(),
                            attempt: following(&e.tracking),
                            name: tool.name.dup(),
                            arguments: tool.arguments.dup(),
                            handler: tool.handler,
                            target: tool.target.dup(),
                            retry: e.tracking.retry.policy,
                        },
                    ),
                ),
                None => crate::model::none(),
            },
            None => crate::model::none(),
        }
    }

    pub fn execute_trigger(&self, state: &SessionState, id: &str) -> (r: Option<Trigger>)
        ensures
            r.v() == state.v().tool_execute(id@),
    {
        proof {
            lemma_position(
                state.v().effects,
                crate::session::state::named(EffectKind::ToolCall, id@),
            );
        }
        match state.effect(EffectKind::ToolCall, id) {
            Some(e) => match e.tool() {
                Some(tool) => if tool.handler == ToolHandler::Worker {
                    Some(
                        Trigger::ToolExecute {
                            id: id.to_owned(),
                            name: tool.name.dup(),
                            arguments: tool.arguments.dup(),
                            attempt: e.tracking.retry.attempts,
                            deadline: e.tracking.deadline,
                        },
                    )
                } else {
                    None
                },
                None => None,
            },
            None => None,
        }
    }
}

} // verus!
