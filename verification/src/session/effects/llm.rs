//! A call to a model.
use crate::model::{append_one, collect, extend, lemma_collect_step, lemma_position, one, Model};
use crate::protocol::config::{ConnectorTool, ConnectorToolV, DeferToolsStrategy};
use crate::protocol::effect::{EffectKind, LlmFormat, RetryPolicy};
use crate::protocol::llm::{LlmRequest, LlmRequestV, LlmResponse, LlmResponseV, LlmTool, LlmToolV};
use crate::protocol::message::{Content, ContentV, DraftMessage, DraftMessageV, Role};
use crate::session::caller::Caller;
use crate::session::decision::{LlmHandler, Trigger, TriggerV};
use crate::session::effects::{following, next_attempt};
use crate::session::error::{SessionError, SessionErrorV};
use crate::session::events::{
    EventPayload, EventPayloadV, LlmCallCompleted, LlmCallCompletedV, LlmCallDispatched,
    LlmCallDispatchedV, LlmCallErrored, LlmCallErroredV, LlmCallRequested, LlmCallRequestedV,
};
use crate::session::ids::{Ids, IdsV};
use crate::session::offers::notices::{notice_of, subjects, with_notices};
use crate::session::outcome::{asked, decision_queued, Batch, Outcome, OutcomeV};
use crate::session::state::{named, SessionState, SessionStateV};
use crate::text;
use vstd::prelude::*;

verus! {

/// What an LLM call is asked with.
#[derive(Debug, PartialEq)]
pub struct LlmAsk {
    pub call_id: String,
    pub llm: String,
    pub request: LlmRequest,
    pub stream: bool,
    pub retry: RetryPolicy,
    pub handler: LlmHandler,
    pub format: Option<LlmFormat>,
}

/// The value of [`LlmAsk`].
pub struct LlmAskV {
    pub call_id: Seq<char>,
    pub llm: Seq<char>,
    pub request: LlmRequestV,
    pub stream: bool,
    pub retry: RetryPolicy,
    pub handler: LlmHandler,
    pub format: Option<LlmFormat>,
}

impl Model for LlmAsk {
    type V = LlmAskV;

    open spec fn v(&self) -> LlmAskV {
        LlmAskV {
            call_id: self.call_id.v(),
            llm: self.llm.v(),
            request: self.request.v(),
            stream: self.stream.v(),
            retry: self.retry.v(),
            handler: self.handler.v(),
            format: self.format.v(),
        }
    }

    fn dup(&self) -> (r: LlmAsk) {
        LlmAsk {
            call_id: self.call_id.dup(),
            llm: self.llm.dup(),
            request: self.request.dup(),
            stream: self.stream.dup(),
            retry: self.retry.dup(),
            handler: self.handler.dup(),
            format: self.format.dup(),
        }
    }
}

impl Clone for LlmAsk {
    fn clone(&self) -> (r: LlmAsk)
        ensures
            r.v() == self.v(),
    {
        self.dup()
    }
}

impl LlmResponseV {
    /// The message a response is, under the id of its call.
    pub open spec fn message(self, id: Seq<char>) -> DraftMessageV {
        DraftMessageV {
            id: Some(id),
            role: Role::Assistant,
            content: match self.content {
                Some(text) => Some(ContentV::Text(text)),
                None => None,
            },
            tool_calls: if self.tool_calls.len() > 0 {
                Some(self.tool_calls)
            } else {
                None
            },
            tool_call_id: None,
            name: None,
            reasoning: self.reasoning,
        }
    }

    /// The model ran out of room.
    pub open spec fn truncated(self) -> bool {
        self.finish_reason == Some("length"@)
    }

    /// The model declined.
    pub open spec fn refused(self) -> bool {
        self.finish_reason == Some("refusal"@) || self.finish_reason == Some("content_filter"@)
    }
}

pub open spec fn lists(tools: Seq<LlmToolV>, name: Seq<char>) -> bool {
    exists|i: int| 0 <= i < tools.len() && (#[trigger] tools[i]).name == name
}

pub open spec fn not_listed(tools: Seq<LlmToolV>) -> spec_fn(ConnectorToolV) -> Option<LlmToolV> {
    |t: ConnectorToolV|
        if lists(tools, t.name) {
            None
        } else {
            Some(t.listed())
        }
}

/// The tools of a request, then the offered ones that it does not list.
pub open spec fn merged(listed: Option<Seq<LlmToolV>>, offered: Seq<ConnectorToolV>) -> Option<
    Seq<LlmToolV>,
> {
    let own = match listed {
        Some(tools) => tools,
        None => Seq::empty(),
    };
    let more = collect(offered, not_listed(own));
    if more.len() == 0 {
        listed
    } else {
        Some(own + more)
    }
}

impl SessionStateV {
    /// How the agent's deferred tools reach the model.
    pub open spec fn defer_strategy(self) -> DeferToolsStrategy {
        match self.agent_for(self.head_id) {
            Some(config) => config.defer_settings().strategy,
            None => DeferToolsStrategy::Search,
        }
    }

    /// The tools a call goes out with: those its request lists, then those the
    /// engine offers that it does not.
    pub open spec fn llm_tools(self, id: Seq<char>) -> Option<Seq<LlmToolV>> {
        match self.effect(EffectKind::LlmCall, id) {
            Some(e) => merged(
                e.llm()->0.request.tools,
                self.connector_tools(self.head_id).tools,
            ),
            None => None,
        }
    }

    /// The prompt a call goes out with: that of its request, with what the
    /// model is told.
    pub open spec fn llm_prompt(self, id: Seq<char>) -> Seq<DraftMessageV> {
        match self.effect(EffectKind::LlmCall, id) {
            Some(e) => with_notices(
                e.llm()->0.request.messages,
                self.head_notices(),
                !self.called_before(id),
            ),
            None => Seq::empty(),
        }
    }

    /// A call to a model is asked for.
    #[verifier::opaque]
    pub open spec fn request_llm(self, ask: LlmAskV) -> Seq<EventPayloadV> {
        if self.asked_before(EffectKind::LlmCall, ask.call_id) {
            Seq::empty()
        } else {
            seq![
                EventPayloadV::LlmCallRequested(
                    LlmCallRequestedV {
                        id: ask.call_id,
                        attempt: 0,
                        llm: ask.llm,
                        format: ask.format,
                        request: ask.request,
                        stream: ask.stream,
                        retry: ask.retry,
                        handler: ask.handler,
                        defer_tools_strategy: self.defer_strategy(),
                    },
                ),
            ]
        }
    }

    /// A call to a model settles: with a response, which the worker is told as
    /// a message under the id of the call, or with a failure, which it is told
    /// once nothing more is tried.
    pub open spec fn settle_llm(self, id: Seq<char>, outcome: OutcomeV, ids: IdsV) -> Batch {
        match self.effect(EffectKind::LlmCall, id) {
            None => Batch::nothing(ids),
            Some(entry) => match outcome {
                OutcomeV::Llm(response) => Batch::of(
                    seq![
                        EventPayloadV::LlmCallCompleted(LlmCallCompletedV { id, response }),
                        asked(
                            ids,
                            TriggerV::llm_ok(
                                id,
                                response.message(id),
                                response.truncated(),
                                response.refused(),
                                response.usage,
                                response.cost,
                            ),
                        ),
                    ],
                    ids.rest(),
                ),
                OutcomeV::Error(e) => {
                    let errored = EventPayloadV::LlmCallErrored(
                        LlmCallErroredV { id, error: e.error, retryable: e.retryable },
                    );
                    if entry.tracking.ends(e.retryable) {
                        Batch::of(
                            seq![errored, asked(ids, TriggerV::llm_err(id, e.error))],
                            ids.rest(),
                        )
                    } else {
                        Batch::of(seq![errored], ids)
                    }
                },
                _ => Batch::nothing(ids),
            },
        }
    }

    /// A call to a model is tried again, with the prompt it had.
    pub open spec fn retry_llm(self, id: Seq<char>) -> Seq<EventPayloadV> {
        match self.effect(EffectKind::LlmCall, id) {
            None => Seq::empty(),
            Some(e) => {
                let call = e.llm()->0;
                seq![
                    EventPayloadV::LlmCallRequested(
                        LlmCallRequestedV {
                            id,
                            attempt: next_attempt(e.tracking),
                            llm: call.llm,
                            format: call.format,
                            request: call.request,
                            stream: call.stream,
                            retry: e.tracking.retry.policy,
                            handler: call.handler,
                            defer_tools_strategy: call.defer_tools_strategy,
                        },
                    ),
                ]
            },
        }
    }

    /// What a worker is asked when a call that it runs goes out.
    pub open spec fn llm_execute(self, id: Seq<char>) -> Option<TriggerV> {
        match self.effect(EffectKind::LlmCall, id) {
            None => None,
            Some(e) => {
                let call = e.llm()->0;
                if call.handler == LlmHandler::Worker {
                    Some(
                        TriggerV::LlmExecute {
                            id,
                            request: call.request,
                            format: call.format,
                            defer_tools_strategy: call.defer_tools_strategy,
                            stream: call.stream,
                            attempt: e.tracking.retry.attempts,
                            deadline: e.tracking.deadline,
                        },
                    )
                } else {
                    None
                }
            },
        }
    }
}

/// The message a response is, under the id of its call.
fn message_of(response: &LlmResponse, id: &str) -> (r: DraftMessage)
    ensures
        r.v() == response.v().message(id@),
{
    let content = match &response.content {
        Some(text) => Some(Content::Text(text.dup())),
        None => None,
    };
    let tool_calls = if response.tool_calls.len() > 0 {
        Some(response.tool_calls.dup())
    } else {
        None
    };
    DraftMessage {
        id: Some(id.to_owned()),
        role: Role::Assistant,
        content,
        tool_calls,
        tool_call_id: None,
        name: None,
        reasoning: response.reasoning.dup(),
    }
}

/// A call to a model is asked for. Only the engine asks, for the worker.
pub fn request(state: &SessionState, ask: LlmAsk, caller: &Caller) -> (r: Result<
    Vec<EventPayload>,
    SessionError,
>)
    ensures
        r.v() == (if caller.v() is System {
            Ok(state.v().request_llm(ask.v()))
        } else {
            Err(SessionErrorV::SessionAccessDenied)
        }),
{
    proof {
        reveal(SessionStateV::request_llm);
    }
    match SessionState::ensure_internal(caller) {
        Err(e) => {
            return Err(e);
        },
        Ok(_) => {},
    }
    if state.asked_before(EffectKind::LlmCall, &ask.call_id) {
        return Ok(crate::model::none());
    }
    let defer_tools_strategy = match state.at_head().agent() {
        Some(config) => config.defer_strategy(),
        None => DeferToolsStrategy::Search,
    };
    Ok(
        one(
            EventPayload::LlmCallRequested(
                LlmCallRequested {
                    id: ask.call_id,
                    attempt: 0,
                    llm: ask.llm,
                    format: ask.format,
                    request: ask.request,
                    stream: ask.stream,
                    retry: ask.retry,
                    handler: ask.handler,
                    defer_tools_strategy,
                },
            ),
        ),
    )
}

fn is_listed(tools: &Vec<LlmTool>, name: &str) -> (r: bool)
    ensures
        r == lists(tools.v(), name@),
{
    let mut i: usize = 0;
    while i < tools.len()
        invariant
            i <= tools@.len(),
            forall|j: int| 0 <= j < i ==> (#[trigger] tools.v()[j]).name != name@,
        decreases tools@.len() - i,
    {
        assert(tools.v()[i as int] == tools@[i as int].v());
        if text::eq(tools[i].name.as_str(), name) {
            return true;
        }
        i = i + 1;
    }
    false
}

/// The tools of a request, then the offered ones that it does not list.
pub fn merge(listed: Option<Vec<LlmTool>>, offered: &Vec<ConnectorTool>) -> (r: Option<Vec<LlmTool>>)
    ensures
        r.v() == merged(listed.v(), offered.v()),
{
    let empty = listed.is_none();
    let own = match listed {
        Some(tools) => tools,
        None => crate::model::none(),
    };
    let ghost all = offered.v();
    let ghost f = not_listed(own.v());
    let mut more: Vec<LlmTool> = crate::model::none();
    let mut i: usize = 0;
    assert(all.take(0) =~= Seq::empty());
    while i < offered.len()
        invariant
            i <= offered@.len(),
            all == offered.v(),
            f == not_listed(own.v()),
            more.v() == collect(all.take(i as int), f),
        decreases offered@.len() - i,
    {
        proof {
            lemma_collect_step(all, f, i as int);
        }
        let t = &offered[i];
        assert(all[i as int] == t.v());
        if !is_listed(&own, t.name.as_str()) {
            append_one(&mut more, t.to_llm_tool());
        }
        i = i + 1;
    }
    assert(all.take(i as int) =~= all);
    if more.len() == 0 {
        if empty {
            None
        } else {
            Some(own)
        }
    } else {
        let mut own = own;
        extend(&mut own, more);
        Some(own)
    }
}

/// A call goes out, with its tools and what it tells the model.
pub fn sent(state: &SessionState, id: &str) -> (r: LlmCallDispatched)
    ensures
        r.v() == (LlmCallDispatchedV {
            id: id@,
            tools: state.v().llm_tools(id@),
            messages: state.v().llm_prompt(id@),
            announced: state.v().head_notices().map_values(notice_of()),
        }),
{
    proof {
        lemma_position(state.v().effects, named(EffectKind::LlmCall, id@));
    }
    let notices = state.head_notices();
    let announced = subjects(&notices);
    let call = match state.effect(EffectKind::LlmCall, id) {
        Some(e) => e.llm(),
        None => None,
    };
    match call {
        Some(call) => {
            let offer = state.at_head().connector_tools();
            LlmCallDispatched {
                id: id.to_owned(),
                tools: merge(call.request.tools.dup(), &offer.tools),
                messages: state.prompt_with(id, call.request.messages.dup(), &notices),
                announced,
            }
        },
        None => LlmCallDispatched {
            id: id.to_owned(),
            tools: None,
            messages: crate::model::none(),
            announced,
        },
    }
}

pub struct LlmSpec;

impl LlmSpec {
    pub fn settle(&self, state: &SessionState, id: &str, outcome: Outcome, ids: &mut Ids) -> (r:
        Vec<EventPayload>)
        ensures
            Batch::of(r.v(), final(ids).v()) == state.v().settle_llm(
                id@,
                outcome.v(),
                old(ids).v(),
            ),
    {
        let entry = match state.effect(EffectKind::LlmCall, id) {
            Some(entry) => entry,
            None => {
                return crate::model::none();
            },
        };
        match outcome {
            Outcome::Llm(response) => {
                let message = message_of(&response, id);
                let truncated = crate::model::is_text(&response.finish_reason, "length");
                let refused = crate::model::is_text(&response.finish_reason, "refusal")
                    || crate::model::is_text(&response.finish_reason, "content_filter");
                let finished = Trigger::llm_ok(
                    id.to_owned(),
                    message,
                    truncated,
                    refused,
                    response.usage.dup(),
                    response.cost,
                );
                let mut events = one(
                    EventPayload::LlmCallCompleted(
                        LlmCallCompleted { id: id.to_owned(), response: *response },
                    ),
                );
                append_one(&mut events, decision_queued(ids, finished));
                assert(events.v() =~= state.v().settle_llm(
                    id@,
                    outcome.v(),
                    old(ids).v(),
                ).events);
                events
            },
            Outcome::Error(e) => {
                let mut events = one(
                    EventPayload::LlmCallErrored(
                        LlmCallErrored {
                            id: id.to_owned(),
                            error: e.error.dup(),
                            retryable: e.retryable,
                        },
                    ),
                );
                if entry.tracking.is_terminal_failure(e.retryable) {
                    let finished = Trigger::llm_err(id.to_owned(), e.error);
                    append_one(&mut events, decision_queued(ids, finished));
                }
                assert(events.v() =~= state.v().settle_llm(
                    id@,
                    outcome.v(),
                    old(ids).v(),
                ).events);
                events
            },
            _ => crate::model::none(),
        }
    }

    pub fn retry(&self, state: &SessionState, id: &str) -> (r: Vec<EventPayload>)
        ensures
            r.v() == state.v().retry_llm(id@),
    {
        proof {
            lemma_position(state.v().effects, named(EffectKind::LlmCall, id@));
        }
        match state.effect(EffectKind::LlmCall, id) {
            Some(e) => match e.llm() {
                Some(call) => one(
                    EventPayload::LlmCallRequested(
                        LlmCallRequested {
                            id: id.to_owned(),
                            attempt: following(&e.tracking),
                            llm: call.llm.dup(),
                            format: call.format,
                            request: call.request.dup(),
                            stream: call.stream,
                            retry: e.tracking.retry.policy,
                            handler: call.handler,
                            defer_tools_strategy: call.defer_tools_strategy,
                        },
                    ),
                ),
                None => crate::model::none(),
            },
            None => crate::model::none(),
        }
    }

    pub fn execute_trigger(&self, state: &SessionState, id: &str) -> (r: Option<Trigger>)
        ensures
            r.v() == state.v().llm_execute(id@),
    {
        proof {
            lemma_position(state.v().effects, named(EffectKind::LlmCall, id@));
        }
        match state.effect(EffectKind::LlmCall, id) {
            Some(e) => match e.llm() {
                Some(call) => if call.handler == LlmHandler::Worker {
                    Some(
                        Trigger::LlmExecute {
                            id: id.to_owned(),
                            request: call.request.dup(),
                            format: call.format,
                            defer_tools_strategy: call.defer_tools_strategy,
                            stream: call.stream,
                            attempt: e.tracking.retry.attempts,
                            deadline: e.tracking.deadline,
                        },
                    )
                } else {
                    None
                },
                None => None,
            },
            None => None,
        }
    }
}

} // verus!
