//! What a client or a worker writes into the conversation.
use crate::model::{
    any, append_one, extend, is_text, last_of, lemma_position, lemma_position_is, one, position,
    Model,
};
use crate::protocol::config::{ClientContext, ClientContextV};
use crate::protocol::effect::{EffectKind, EffectStatus};
use crate::protocol::message::{DraftMessage, DraftMessageV, NewMessage, NewMessageV, Role};
use crate::protocol::result::{StoredResult, StoredResultV};
use crate::protocol::wire::{ClientPayload, ClientPayloadV};
use crate::session::caller::{Caller, CallerV};
use crate::session::decision::{ToolHandler, Trigger, TriggerV};
use crate::session::error::{SessionError, SessionErrorV};
use crate::session::events::{
    EventPayload, EventPayloadV, HeadMoved, HeadMovedV, ToolCallCompleted, ToolCallCompletedV,
};
use crate::session::ids::{Ids, IdsV};
use crate::session::outcome::{asked, decision_queued, Batch};
use crate::session::state::{SessionState, SessionStateV};
use crate::text;
use vstd::prelude::*;

verus! {

/// A message of a view that is written.
#[derive(Debug, Clone, Copy, PartialEq, Eq, Structural)]
pub struct Write {
    /// Where it stands in the view.
    pub index: usize,
}

/// Whether a message was recorded under one of these ids.
pub open spec fn known_by(known: Seq<Seq<char>>, m: DraftMessageV) -> bool {
    m.id is Some && known.contains(m.id->0)
}

pub open spec fn unknown_to(known: Seq<Seq<char>>) -> spec_fn(DraftMessageV) -> bool {
    |m: DraftMessageV| !known_by(known, m)
}

/// Where the news of a view begin: at its first message that is not recorded.
/// All that stands behind it is news, on a branch of its own.
pub open spec fn news_from(known: Seq<Seq<char>>, messages: Seq<DraftMessageV>) -> int {
    match position(messages, unknown_to(known)) {
        Some(i) => i,
        None => messages.len() as int,
    }
}

/// What of a view is written.
pub fn plan_reconcile(known: &Vec<String>, messages: &Vec<DraftMessage>) -> (r: Vec<Write>)
    ensures
        r@.len() == messages@.len() - news_from(known.v(), messages.v()),
        forall|i: int|
            0 <= i < r@.len() ==> (#[trigger] r@[i]).index == news_from(known.v(), messages.v())
                + i,
{
    let from = find_news(known, messages);
    let mut out: Vec<Write> = Vec::new();
    let mut i: usize = from;
    while i < messages.len()
        invariant
            from <= i <= messages@.len(),
            out@.len() == i - from,
            forall|j: int| 0 <= j < out@.len() ==> (#[trigger] out@[j]).index == from + j,
        decreases messages@.len() - i,
    {
        out.push(Write { index: i });
        i = i + 1;
    }
    out
}

fn holds(texts: &Vec<String>, text: &str) -> (r: bool)
    ensures
        r == texts.v().contains(text@),
{
    let mut i: usize = 0;
    while i < texts.len()
        invariant
            i <= texts@.len(),
            forall|j: int| 0 <= j < i ==> texts.v()[j] != text@,
        decreases texts@.len() - i,
    {
        if text::eq(texts[i].as_str(), text) {
            assert(texts.v()[i as int] == text@);
            return true;
        }
        i = i + 1;
    }
    false
}

fn find_news(known: &Vec<String>, messages: &Vec<DraftMessage>) -> (r: usize)
    ensures
        r == news_from(known.v(), messages.v()),
        r <= messages@.len(),
{
    let ghost new = unknown_to(known.v());
    let mut i: usize = 0;
    while i < messages.len()
        invariant
            i <= messages@.len(),
            new == unknown_to(known.v()),
            forall|j: int| 0 <= j < i ==> !new(#[trigger] messages.v()[j]),
        decreases messages@.len() - i,
    {
        let recorded = match &messages[i].id {
            Some(id) => holds(known, id),
            None => false,
        };
        if !recorded {
            proof {
                lemma_position_is(messages.v(), new, i as int);
            }
            return i;
        }
        i = i + 1;
    }
    proof {
        lemma_position(messages.v(), new);
    }
    i
}

pub open spec fn answers_call(call: Seq<char>) -> spec_fn(NewMessageV) -> bool {
    |n: NewMessageV| n.message.tool_call_id == Some(call)
}

/// An answer to a tool call that a client runs.
pub struct Completion {
    pub index: usize,
    pub tool_call_id: String,
    pub name: String,
    pub result: String,
}

pub struct CompletionV {
    pub index: int,
    pub tool_call_id: Seq<char>,
    pub name: Seq<char>,
    pub result: Seq<char>,
}

impl Completion {
    pub open spec fn v(self) -> CompletionV {
        CompletionV {
            index: self.index as int,
            tool_call_id: self.tool_call_id@,
            name: self.name@,
            result: self.result@,
        }
    }
}

pub open spec fn completion_values(s: Seq<Completion>) -> Seq<CompletionV> {
    Seq::new(s.len(), |i: int| s[i].v())
}

/// What a message says, in text.
pub open spec fn said(m: DraftMessageV) -> Seq<char> {
    match m.content {
        Some(content) => content.text_owned(),
        None => Seq::empty(),
    }
}

impl SessionStateV {
    /// The ids of the recorded messages.
    pub open spec fn known_ids(self) -> Seq<Seq<char>> {
        self.nodes.map_values(|n: NewMessageV| n.message.id)
    }

    /// A message that repeats the recorded answer to a tool call is that
    /// message.
    pub open spec fn folded(self, m: DraftMessageV) -> DraftMessageV {
        match m.tool_call_id {
            Some(call) => if known_by(self.known_ids(), m) {
                m
            } else {
                match last_of(self.nodes, answers_call(call)) {
                    Some(n) => DraftMessageV { id: Some(n.message.id), ..m },
                    None => m,
                }
            },
            None => m,
        }
    }

    pub open spec fn normalized(self, messages: Seq<DraftMessageV>) -> Seq<DraftMessageV> {
        messages.map_values(|m: DraftMessageV| self.folded(m))
    }

    /// Whether a message needs an id of its own: it has none, or another
    /// message has it.
    pub open spec fn needs_id(self, m: DraftMessageV, used: Seq<Seq<char>>) -> bool {
        match m.id {
            None => true,
            Some(id) => self.known_ids().contains(id) || used.contains(id),
        }
    }

    /// Writes the messages from the `i`-th on, each behind the one before it.
    pub open spec fn write(
        self,
        messages: Seq<DraftMessageV>,
        i: int,
        parent: Option<Seq<char>>,
        used: Seq<Seq<char>>,
        ids: IdsV,
    ) -> Batch
        decreases messages.len() - i,
    {
        if i < 0 || i >= messages.len() {
            Batch::nothing(ids)
        } else {
            let m = messages[i];
            let fresh = self.needs_id(m, used);
            let id = if fresh {
                ids.id()
            } else {
                m.id->0
            };
            let left = if fresh {
                ids.rest()
            } else {
                ids
            };
            let event = EventPayloadV::NewMessage(
                NewMessageV { message: m.record(id), parent_id: parent },
            );
            let rest = self.write(messages, i + 1, Some(id), used.push(id), left);
            Batch::of(seq![event] + rest.events, rest.ids)
        }
    }

    /// A worker's view of the conversation. Its news are written behind what
    /// it repeats; a view without news moves the conversation to where it
    /// ends; no view changes nothing.
    #[verifier::opaque]
    pub open spec fn reconcile_transcript(self, transcript: Seq<DraftMessageV>, ids: IdsV) -> Batch {
        let messages = self.normalized(transcript);
        let from = news_from(self.known_ids(), messages);
        if messages.len() == 0 {
            Batch::nothing(ids)
        } else if from == messages.len() {
            if messages.last().id == self.head_id {
                Batch::nothing(ids)
            } else {
                Batch::of(
                    seq![EventPayloadV::HeadMoved(HeadMovedV { head_id: messages.last().id->0 })],
                    ids,
                )
            }
        } else {
            let parent = if from > 0 {
                messages[from - 1].id
            } else {
                None
            };
            self.write(messages, from, parent, Seq::empty(), ids)
        }
    }

    /// Whether a message answers a tool call that waits for the client.
    pub open spec fn answers_live(self, m: DraftMessageV, caller: CallerV) -> bool {
        m.role == Role::Tool && match m.tool_call_id {
            Some(id) => self.has_status(EffectKind::ToolCall, id, EffectStatus::Pending)
                && self.effect(EffectKind::ToolCall, id)->0.tool()->0.handler == ToolHandler::Client
                && self.may_answer_tool(id, caller) is Ok,
            None => false,
        }
    }

    /// The answers of a view to tool calls that wait for the client, the first
    /// one to each call.
    pub open spec fn completions(self, messages: Seq<DraftMessageV>, caller: CallerV) -> Seq<
        CompletionV,
    >
        decreases messages.len(),
    {
        if messages.len() == 0 {
            Seq::empty()
        } else {
            let before = self.completions(messages.drop_last(), caller);
            let m = messages.last();
            if self.answers_live(m, caller) && !completes(before, m.tool_call_id->0) {
                before.push(
                    CompletionV {
                        index: messages.len() - 1,
                        tool_call_id: m.tool_call_id->0,
                        name: self.effect(EffectKind::ToolCall, m.tool_call_id->0)->0.tool()->0.name,
                        result: said(m),
                    },
                )
            } else {
                before
            }
        }
    }

    /// A session whose first decision failed asks it again.
    pub open spec fn restarted(self, ids: IdsV) -> Batch {
        if self.session_start_failed {
            Batch::of(seq![asked(ids, TriggerV::SessionStart)], ids.rest())
        } else {
            Batch::nothing(ids)
        }
    }

    /// The worker is asked, behind a restart if one is due.
    pub open spec fn put_to_worker(self, trigger: TriggerV, ids: IdsV) -> Batch {
        let start = self.restarted(ids);
        Batch::of(start.events.push(asked(start.ids, trigger)), start.ids.rest())
    }

    /// A client's view of the conversation. The tool calls it answers are
    /// settled. A view that says nothing else is told as their end, any other
    /// as a view. A view that settles nothing is refused where an interrupt
    /// stops the branch it goes on with.
    #[verifier::opaque]
    pub open spec fn client_view(
        self,
        messages: Seq<DraftMessageV>,
        client: ClientContextV,
        caller: CallerV,
        ids: IdsV,
    ) -> Result<Batch, SessionErrorV> {
        let view = self.normalized(messages);
        let from = news_from(self.known_ids(), view);
        let trigger = TriggerV::ClientTranscript { messages: view, new_from: from as usize, client };
        let done = self.completions(view, caller);
        if done.len() == 0 {
            if self.decision_stop(trigger) is Some {
                Err(SessionErrorV::SessionInterrupted)
            } else {
                Ok(self.put_to_worker(trigger, ids))
            }
        } else {
            let last = done.last();
            let told = if nothing_but_answers(view, from, done) {
                TriggerV::ToolFinished {
                    id: last.tool_call_id,
                    ok: true,
                    name: last.name,
                    result: Some(StoredResultV::of_text(last.result)),
                    error: None,
                }
            } else {
                trigger
            };
            let put = self.put_to_worker(told, ids);
            Ok(Batch::of(done.map_values(|c: CompletionV| completed(c)) + put.events, put.ids))
        }
    }

    /// What a client submits. While an interrupt stops the conversation no
    /// user's message is taken.
    #[verifier::opaque]
    pub open spec fn client_payload(
        self,
        payload: ClientPayloadV,
        caller: CallerV,
        deferred: Option<Seq<char>>,
        ids: IdsV,
    ) -> Result<Batch, SessionErrorV> {
        match payload {
            ClientPayloadV::Message(m) => if self.head_parked() && m.message.role == Role::User {
                Err(SessionErrorV::SessionInterrupted)
            } else {
                Ok(
                    self.put_to_worker(
                        TriggerV::ClientMessage {
                            messages: seq![m.message],
                            client: ClientContextV::empty(),
                            turn_id: deferred,
                        },
                        ids,
                    ),
                )
            },
            ClientPayloadV::Append(a) => if self.head_parked() && any(a.messages, by_user()) {
                Err(SessionErrorV::SessionInterrupted)
            } else {
                Ok(
                    self.put_to_worker(
                        TriggerV::ClientMessage {
                            messages: a.messages,
                            client: a.client,
                            turn_id: deferred,
                        },
                        ids,
                    ),
                )
            },
            ClientPayloadV::Messages(v) => self.client_view(v.messages, v.client, caller, ids),
            ClientPayloadV::Action(a) => Ok(
                self.put_to_worker(TriggerV::ClientAction { name: a.name, args: a.args }, ids),
            ),
        }
    }
}

pub open spec fn by_user() -> spec_fn(DraftMessageV) -> bool {
    |m: DraftMessageV| m.role == Role::User
}

/// Whether a call is among the answered ones.
pub open spec fn completes(done: Seq<CompletionV>, id: Seq<char>) -> bool {
    exists|i: int| 0 <= i < done.len() && (#[trigger] done[i]).tool_call_id == id
}

pub open spec fn completed(c: CompletionV) -> EventPayloadV {
    EventPayloadV::ToolCallCompleted(
        ToolCallCompletedV { id: c.tool_call_id, result: StoredResultV::of_text(c.result) },
    )
}

/// Whether the news of a view are answers to these calls and nothing else.
pub open spec fn nothing_but_answers(
    view: Seq<DraftMessageV>,
    from: int,
    done: Seq<CompletionV>,
) -> bool {
    forall|i: int|
        from <= i < view.len() ==> (#[trigger] view[i]).role == Role::Tool && view[i].tool_call_id
            is Some && completes(done, view[i].tool_call_id->0)
}

impl SessionState {
    /// The ids of the recorded messages.
    pub fn known_ids(&self) -> (r: Vec<String>)
        ensures
            r.v() == self.v().known_ids(),
    {
        let mut out: Vec<String> = crate::model::none();
        let mut i: usize = 0;
        while i < self.nodes.len()
            invariant
                i <= self.nodes@.len(),
                out.v() == self.v().known_ids().take(i as int),
            decreases self.nodes@.len() - i,
        {
            append_one(&mut out, self.nodes[i].message.id.dup());
            i = i + 1;
            assert(out.v() =~= self.v().known_ids().take(i as int));
        }
        assert(out.v() =~= self.v().known_ids());
        out
    }

    fn fold(&self, known: &Vec<String>, m: &DraftMessage) -> (r: DraftMessage)
        requires
            known.v() == self.v().known_ids(),
        ensures
            r.v() == self.v().folded(m.v()),
    {
        let call = match &m.tool_call_id {
            Some(call) => call,
            None => {
                return m.dup();
            },
        };
        match &m.id {
            Some(id) => {
                if holds(known, id) {
                    return m.dup();
                }
            },
            None => {},
        }
        let ghost all = self.v().nodes;
        let ghost same = answers_call(call@);
        let mut i: usize = self.nodes.len();
        assert(all.take(i as int) =~= all);
        while i > 0
            invariant
                i <= self.nodes@.len(),
                all == self.v().nodes,
                same == answers_call(call@),
                m.v().tool_call_id == Some(call@),
                !known_by(self.v().known_ids(), m.v()),
                last_of(all, same) == last_of(all.take(i as int), same),
            decreases i,
        {
            let n = &self.nodes[i - 1];
            assert(all.take(i as int).last() == n.v());
            assert(all.take(i as int).drop_last() =~= all.take(i - 1));
            if is_text(&n.message.tool_call_id, call) {
                return DraftMessage {
                    id: Some(n.message.id.dup()),
                    role: m.role,
                    content: m.content.dup(),
                    tool_calls: m.tool_calls.dup(),
                    tool_call_id: m.tool_call_id.dup(),
                    name: m.name.dup(),
                    reasoning: m.reasoning.dup(),
                };
            }
            i = i - 1;
        }
        m.dup()
    }

    fn normalize(&self, known: &Vec<String>, messages: &Vec<DraftMessage>) -> (r: Vec<DraftMessage>)
        requires
            known.v() == self.v().known_ids(),
        ensures
            r.v() == self.v().normalized(messages.v()),
    {
        let mut out: Vec<DraftMessage> = crate::model::none();
        let mut i: usize = 0;
        while i < messages.len()
            invariant
                i <= messages@.len(),
                known.v() == self.v().known_ids(),
                out.v() == self.v().normalized(messages.v()).take(i as int),
            decreases messages@.len() - i,
        {
            append_one(&mut out, self.fold(known, &messages[i]));
            i = i + 1;
            assert(out.v() =~= self.v().normalized(messages.v()).take(i as int));
        }
        assert(out.v() =~= self.v().normalized(messages.v()));
        out
    }

    fn write(
        &self,
        known: &Vec<String>,
        messages: Vec<DraftMessage>,
        from: usize,
        parent: Option<String>,
        ids: &mut Ids,
    ) -> (r: Vec<EventPayload>)
        requires
            known.v() == self.v().known_ids(),
            from <= messages@.len(),
        ensures
            Batch::of(r.v(), final(ids).v()) == self.v().write(
                messages.v(),
                from as int,
                parent.v(),
                Seq::empty(),
                old(ids).v(),
            ),
    {
        let ghost whole = self.v().write(
            messages.v(),
            from as int,
            parent.v(),
            Seq::empty(),
            ids.v(),
        );
        let mut events: Vec<EventPayload> = crate::model::none();
        let mut used: Vec<String> = crate::model::none();
        let mut parent = parent;
        let mut i: usize = from;
        assert(events.v() + whole.events =~= whole.events);
        while i < messages.len()
            invariant
                from <= i <= messages@.len(),
                known.v() == self.v().known_ids(),
                ({
                    let rest = self.v().write(
                        messages.v(),
                        i as int,
                        parent.v(),
                        used.v(),
                        ids.v(),
                    );
                    whole == Batch::of(events.v() + rest.events, rest.ids)
                }),
            decreases messages@.len() - i,
        {
            let m = &messages[i];
            let ghost before = events.v();
            let kept = match &m.id {
                Some(id) => if holds(known, id) || holds(&used, id) {
                    None
                } else {
                    Some(id.dup())
                },
                None => None,
            };
            let id = match kept {
                Some(id) => id,
                None => ids.new_call_id(),
            };
            let event = EventPayload::NewMessage(
                NewMessage { message: m.dup().record(id.dup()), parent_id: parent },
            );
            let ghost written = event.v();
            append_one(&mut used, id.dup());
            parent = Some(id);
            append_one(&mut events, event);
            i = i + 1;
            proof {
                let rest = self.v().write(messages.v(), i as int, parent.v(), used.v(), ids.v());
                assert(before + (seq![written] + rest.events) =~= events.v() + rest.events);
            }
        }
        assert(events.v() + Seq::<EventPayloadV>::empty() =~= events.v());
        events
    }

    /// A worker's view of the conversation.
    pub fn reconcile_transcript(&self, transcript: Vec<DraftMessage>, ids: &mut Ids) -> (r: Vec<
        EventPayload,
    >)
        ensures
            Batch::of(r.v(), final(ids).v()) == self.v().reconcile_transcript(
                transcript.v(),
                old(ids).v(),
            ),
    {
        proof {
            reveal(SessionStateV::reconcile_transcript);
        }
        let known = self.known_ids();
        let messages = self.normalize(&known, &transcript);
        let n = messages.len();
        if n == 0 {
            return crate::model::none();
        }
        let from = find_news(&known, &messages);
        if from == n {
            proof {
                lemma_position(messages.v(), unknown_to(known.v()));
                assert(!unknown_to(known.v())(messages.v()[n - 1]));
            }
            return match &messages[n - 1].id {
                Some(id) => if is_text(&self.head_id, id) {
                    crate::model::none()
                } else {
                    one(EventPayload::HeadMoved(HeadMoved { head_id: id.dup() }))
                },
                None => crate::model::none(),
            };
        }
        let parent = if from > 0 {
            messages[from - 1].id.dup()
        } else {
            None
        };
        self.write(&known, messages, from, parent, ids)
    }

    fn is_live_answer(&self, m: &DraftMessage, caller: &Caller) -> (r: Option<(String, String)>)
        ensures
            match r {
                Some((id, name)) => self.v().answers_live(m.v(), caller.v())
                    && m.v().tool_call_id == Some(id@) && name@ == self.v().effect(
                    EffectKind::ToolCall,
                    id@,
                )->0.tool()->0.name,
                None => !self.v().answers_live(m.v(), caller.v()),
            },
    {
        if m.role != Role::Tool {
            return None;
        }
        let id = match &m.tool_call_id {
            Some(id) => id,
            None => {
                return None;
            },
        };
        let pending = match self.tracking(EffectKind::ToolCall, id) {
            Some(t) => t.state == EffectStatus::Pending,
            None => false,
        };
        if !pending {
            return None;
        }
        let tool = match self.tool_call(id) {
            Some(tool) => tool,
            None => {
                return None;
            },
        };
        if tool.handler != ToolHandler::Client {
            return None;
        }
        match self.check_tool_call_caller(id, caller) {
            Ok(_) => Some((id.dup(), tool.name.dup())),
            Err(_) => None,
        }
    }

    fn find_completions(&self, messages: &Vec<DraftMessage>, caller: &Caller) -> (r: Vec<Completion>)
        ensures
            completion_values(r@) == self.v().completions(messages.v(), caller.v()),
    {
        let mut out: Vec<Completion> = Vec::new();
        let mut i: usize = 0;
        assert(messages.v().take(0) =~= Seq::empty());
        assert(completion_values(out@) =~= Seq::empty());
        while i < messages.len()
            invariant
                i <= messages@.len(),
                completion_values(out@) == self.v().completions(
                    messages.v().take(i as int),
                    caller.v(),
                ),
            decreases messages@.len() - i,
        {
            let m = &messages[i];
            let ghost grown = messages.v().take(i + 1);
            assert(grown.drop_last() =~= messages.v().take(i as int));
            assert(grown.last() == m.v());
            let ghost before = completion_values(out@);
            match self.is_live_answer(m, caller) {
                Some((id, name)) => {
                    if !is_completed(&out, &id) {
                        let result = match &m.content {
                            Some(content) => content.text_owned(),
                            None => String::new(),
                        };
                        let c = Completion { index: i, tool_call_id: id, name, result };
                        let ghost value = c.v();
                        out.push(c);
                        assert(completion_values(out@) =~= before.push(value));
                    }
                },
                None => {},
            }
            i = i + 1;
        }
        assert(messages.v().take(i as int) =~= messages.v());
        out
    }

    fn put_to_worker(&self, trigger: Trigger, ids: &mut Ids) -> (r: Vec<EventPayload>)
        ensures
            Batch::of(r.v(), final(ids).v()) == self.v().put_to_worker(trigger.v(), old(ids).v()),
    {
        let mut events: Vec<EventPayload> = crate::model::none();
        if self.session_start_failed {
            append_one(&mut events, decision_queued(ids, Trigger::SessionStart));
            assert(events.v() =~= seq![asked(old(ids).v(), TriggerV::SessionStart)]);
        }
        append_one(&mut events, decision_queued(ids, trigger));
        events
    }

    fn client_view(
        &self,
        messages: Vec<DraftMessage>,
        client: ClientContext,
        caller: &Caller,
        ids: &mut Ids,
    ) -> (r: Result<Vec<EventPayload>, SessionError>)
        ensures
            match self.v().client_view(messages.v(), client.v(), caller.v(), old(ids).v()) {
                Ok(batch) => r is Ok && Batch::of(r->Ok_0.v(), final(ids).v()) == batch,
                Err(e) => r.v() == Err::<Seq<EventPayloadV>, SessionErrorV>(e) && final(ids).v()
                    == old(ids).v(),
            },
    {
        proof {
            reveal(SessionStateV::client_view);
        }
        let known = self.known_ids();
        let view = self.normalize(&known, &messages);
        let from = find_news(&known, &view);
        let done = self.find_completions(&view, caller);
        let n = done.len();
        assert(completion_values(done@).len() == n);
        if n == 0 {
            let trigger = Trigger::ClientTranscript { messages: view, new_from: from, client };
            if self.decision_stop(&trigger).is_some() {
                return Err(SessionError::SessionInterrupted);
            }
            return Ok(self.put_to_worker(trigger, ids));
        }
        let fast = only_answers(&view, from, &done);
        let mut events = completion_events(&done);
        let told = if fast {
            let last = &done[n - 1];
            assert(completion_values(done@).last() == last.v());
            Trigger::ToolFinished {
                id: last.tool_call_id.dup(),
                ok: true,
                name: last.name.dup(),
                result: Some(StoredResult::text(last.result.dup())),
                error: None,
            }
        } else {
            Trigger::ClientTranscript { messages: view, new_from: from, client }
        };
        extend(&mut events, self.put_to_worker(told, ids));
        Ok(events)
    }

    /// What a client submits.
    pub fn client_payload_events(
        &self,
        payload: ClientPayload,
        caller: &Caller,
        deferred: Option<String>,
        ids: &mut Ids,
    ) -> (r: Result<Vec<EventPayload>, SessionError>)
        ensures
            match self.v().client_payload(payload.v(), caller.v(), deferred.v(), old(ids).v()) {
                Ok(batch) => r is Ok && Batch::of(r->Ok_0.v(), final(ids).v()) == batch,
                Err(e) => r.v() == Err::<Seq<EventPayloadV>, SessionErrorV>(e) && final(ids).v()
                    == old(ids).v(),
            },
    {
        proof {
            reveal(SessionStateV::client_payload);
        }
        match payload {
            ClientPayload::Message(m) => {
                if self.head_parked() && m.message.role == Role::User {
                    return Err(SessionError::SessionInterrupted);
                }
                Ok(
                    self.put_to_worker(
                        Trigger::ClientMessage {
                            messages: one(m.message),
                            client: ClientContext::default(),
                            turn_id: deferred,
                        },
                        ids,
                    ),
                )
            },
            ClientPayload::Append(a) => {
                if self.head_parked() && has_user(&a.messages) {
                    return Err(SessionError::SessionInterrupted);
                }
                Ok(
                    self.put_to_worker(
                        Trigger::ClientMessage {
                            messages: a.messages,
                            client: a.client,
                            turn_id: deferred,
                        },
                        ids,
                    ),
                )
            },
            ClientPayload::Messages(v) => self.client_view(v.messages, v.client, caller, ids),
            ClientPayload::Action(a) => Ok(
                self.put_to_worker(Trigger::ClientAction { name: a.name, args: a.args }, ids),
            ),
        }
    }
}

fn has_user(messages: &Vec<DraftMessage>) -> (r: bool)
    ensures
        r == any(messages.v(), by_user()),
{
    let mut i: usize = 0;
    while i < messages.len()
        invariant
            i <= messages@.len(),
            forall|j: int| 0 <= j < i ==> !by_user()(#[trigger] messages.v()[j]),
        decreases messages@.len() - i,
    {
        if messages[i].role == Role::User {
            assert(by_user()(messages.v()[i as int]));
            return true;
        }
        i = i + 1;
    }
    false
}

fn is_completed(done: &Vec<Completion>, id: &str) -> (r: bool)
    ensures
        r == completes(completion_values(done@), id@),
{
    let mut i: usize = 0;
    while i < done.len()
        invariant
            i <= done@.len(),
            forall|j: int| 0 <= j < i ==> (#[trigger] completion_values(done@)[j]).tool_call_id != id@,
        decreases done@.len() - i,
    {
        assert(completion_values(done@)[i as int] == done@[i as int].v());
        if text::eq(done[i].tool_call_id.as_str(), id) {
            return true;
        }
        i = i + 1;
    }
    false
}

fn only_answers(view: &Vec<DraftMessage>, from: usize, done: &Vec<Completion>) -> (r: bool)
    ensures
        r == nothing_but_answers(view.v(), from as int, completion_values(done@)),
{
    let mut i: usize = from;
    while i < view.len()
        invariant
            from <= i,
            forall|j: int|
                from <= j < i ==> (#[trigger] view.v()[j]).role == Role::Tool
                    && view.v()[j].tool_call_id is Some && completes(
                    completion_values(done@),
                    view.v()[j].tool_call_id->0,
                ),
        decreases view@.len() - i,
    {
        let m = &view[i];
        assert(view.v()[i as int] == m.v());
        let answers = match &m.tool_call_id {
            Some(id) => m.role == Role::Tool && is_completed(done, id),
            None => false,
        };
        if !answers {
            return false;
        }
        i = i + 1;
    }
    true
}

fn completion_events(done: &Vec<Completion>) -> (r: Vec<EventPayload>)
    ensures
        r.v() == completion_values(done@).map_values(|c: CompletionV| completed(c)),
{
    let ghost all = completion_values(done@).map_values(|c: CompletionV| completed(c));
    let mut out: Vec<EventPayload> = crate::model::none();
    let mut i: usize = 0;
    while i < done.len()
        invariant
            i <= done@.len(),
            all == completion_values(done@).map_values(|c: CompletionV| completed(c)),
            out.v() == all.take(i as int),
        decreases done@.len() - i,
    {
        let event = EventPayload::ToolCallCompleted(
            ToolCallCompleted {
                id: done[i].tool_call_id.dup(),
                result: StoredResult::text(done[i].result.dup()),
            },
        );
        assert(event.v() == completed(done@[i as int].v()));
        append_one(&mut out, event);
        i = i + 1;
        assert(out.v() =~= all.take(i as int));
    }
    assert(out.v() =~= all);
    out
}

} // verus!
