//! A call to a subagent: a turn of a child session.
use crate::model::{
    append_one, extend, first, last_of, lemma_position, lemma_position_is, one, Model,
};
use crate::protocol::config::{SpawnMode, SubagentMode, DEFAULT_MAX_SUBAGENT_DEPTH};
use crate::protocol::effect::{EffectKind, EffectStatus, RetryPolicy};
use crate::protocol::error::{ErrorCode, ErrorInfo, ErrorInfoV};
use crate::protocol::json::{Json, JsonV};
use crate::protocol::llm::{Usage, UsageV};
use crate::protocol::message::{Content, ContentV, DraftMessage, DraftMessageV, Role};
use crate::session::apply::{json_text_of, outcome_text, turn_text};
use crate::session::caller::Caller;
use crate::session::decision::{Trigger, TriggerV};
use crate::session::effects::decision::dropped;
use crate::session::effects::{following, next_attempt};
use crate::session::error::{SessionError, SessionErrorV};
use crate::session::events::{
    DecisionDropped, EventPayload, EventPayloadV, SubagentErrored, SubagentErroredV,
    SubagentRequested, SubagentRequestedV, SubagentStarted, SubagentStartedV, SubagentTurnCompleted,
    SubagentTurnCompletedV,
};
use crate::session::ids::{Ids, IdsV};
use crate::session::outcome::{
    asked, decision_queued, Batch, Outcome, OutcomeV, SettleError, SettleErrorV,
};
use crate::session::state::{
    named, EffectEntry, EffectEntryV, SessionState, SessionStateV, SubagentCall, SubagentCallV,
};
use crate::text;
use rust_decimal::Decimal;
use vstd::prelude::*;

verus! {

/// What a subagent is called with.
#[derive(Debug, PartialEq)]
pub struct Spawn {
    pub tool_call_id: String,
    pub agent_id: String,
    /// The child to go on with. Absent starts a new one.
    pub session_id: Option<String>,
    pub message: Option<DraftMessage>,
    pub retry: RetryPolicy,
    pub decision_id: String,
    pub mode: Option<SpawnMode>,
}

/// The value of [`Spawn`].
pub struct SpawnV {
    pub tool_call_id: Seq<char>,
    pub agent_id: Seq<char>,
    pub session_id: Option<Seq<char>>,
    pub message: Option<DraftMessageV>,
    pub retry: RetryPolicy,
    pub decision_id: Seq<char>,
    pub mode: Option<SpawnMode>,
}

impl Model for Spawn {
    type V = SpawnV;

    open spec fn v(&self) -> SpawnV {
        SpawnV {
            tool_call_id: self.tool_call_id.v(),
            agent_id: self.agent_id.v(),
            session_id: self.session_id.v(),
            message: self.message.v(),
            retry: self.retry.v(),
            decision_id: self.decision_id.v(),
            mode: self.mode.v(),
        }
    }

    fn dup(&self) -> (r: Spawn) {
        Spawn {
            tool_call_id: self.tool_call_id.dup(),
            agent_id: self.agent_id.dup(),
            session_id: self.session_id.dup(),
            message: self.message.dup(),
            retry: self.retry.dup(),
            decision_id: self.decision_id.dup(),
            mode: self.mode.dup(),
        }
    }
}

impl Clone for Spawn {
    fn clone(&self) -> (r: Spawn)
        ensures
            r.v() == self.v(),
    {
        self.dup()
    }
}

/// Results that wait to be told to the worker.
pub struct QueuedNotice<'a> {
    pub decision_id: &'a String,
    pub messages: &'a Vec<DraftMessage>,
    pub sessions: &'a Vec<String>,
    pub turn_id: &'a String,
}

pub struct QueuedNoticeV {
    pub decision_id: Seq<char>,
    pub messages: Seq<DraftMessageV>,
    pub sessions: Seq<Seq<char>>,
    pub turn_id: Seq<char>,
}

pub open spec fn calls_child(child: Seq<char>) -> spec_fn(EffectEntryV) -> bool {
    |e: EffectEntryV| e.subagent() is Some && e.subagent()->0.session_id == child
}

pub open spec fn awaits_child(child: Seq<char>) -> spec_fn(EffectEntryV) -> bool {
    |e: EffectEntryV| calls_child(child)(e) && e.tracking.in_flight()
}

pub open spec fn detached_child(child: Seq<char>) -> spec_fn(EffectEntryV) -> bool {
    |e: EffectEntryV| calls_child(child)(e) && e.subagent()->0.mode == SpawnMode::Detached
}

pub open spec fn is_queued_notice() -> spec_fn(EffectEntryV) -> bool {
    |e: EffectEntryV|
        e.tracking.state == EffectStatus::Queued && e.trigger() is Some && e.trigger()->0
            is SubagentNotice
}

/// The worker is told that a call was refused.
pub open spec fn refusal(
    ids: IdsV,
    s: SpawnV,
    session_id: Seq<char>,
    code: ErrorCode,
    message: Seq<char>,
) -> Batch {
    Batch::of(
        seq![
            asked(
                ids,
                TriggerV::SubagentFinished {
                    id: s.tool_call_id,
                    ok: false,
                    session_id,
                    agent_id: s.agent_id,
                    result: None,
                    error: Some(ErrorInfoV::new(code, message)),
                },
            ),
        ],
        ids.rest(),
    )
}

/// The results of other children, with their sessions.
pub open spec fn notice_rest(
    messages: Seq<DraftMessageV>,
    sessions: Seq<Seq<char>>,
    child: Seq<char>,
) -> (Seq<DraftMessageV>, Seq<Seq<char>>)
    decreases sessions.len(),
{
    if sessions.len() == 0 || messages.len() == 0 {
        (Seq::empty(), Seq::empty())
    } else {
        let rest = notice_rest(messages.drop_first(), sessions.drop_first(), child);
        if sessions[0] == child {
            rest
        } else {
            (seq![messages[0]] + rest.0, seq![sessions[0]] + rest.1)
        }
    }
}

/// A result nobody waited for, as a message.
pub open spec fn notice_text(session_id: Seq<char>, agent_id: Seq<char>, text: Seq<char>) -> Seq<
    char,
> {
    "<subagent_result session=\""@ + session_id + "\" agent=\""@ + agent_id + "\">"@ + text
        + "</subagent_result>"@
}

pub open spec fn notice_message(
    session_id: Seq<char>,
    agent_id: Seq<char>,
    completed: SubagentTurnCompletedV,
) -> DraftMessageV {
    DraftMessageV {
        id: None,
        role: Role::User,
        content: Some(
            ContentV::Text(notice_text(session_id, agent_id, outcome_text(completed))),
        ),
        tool_calls: None,
        tool_call_id: None,
        name: None,
        reasoning: None,
    }
}

/// A call to a child is asked for.
pub open spec fn opened(
    s: SpawnV,
    session_id: Seq<char>,
    agent_id: Seq<char>,
    message: Option<DraftMessageV>,
    mode: SpawnMode,
) -> Seq<EventPayloadV> {
    seq![
        EventPayloadV::SubagentRequested(
            SubagentRequestedV {
                id: s.tool_call_id,
                attempt: 0,
                session_id,
                agent_id,
                message,
                retry: s.retry,
                mode,
                decision_id: s.decision_id,
            },
        ),
    ]
}

/// A child takes a call. One that nobody waits for is answered at once.
pub open spec fn started(id: Seq<char>, call: SubagentCallV, ids: IdsV) -> Batch {
    let started = EventPayloadV::SubagentStarted(SubagentStartedV { id });
    if call.mode == SpawnMode::Detached {
        let finished = TriggerV::SubagentFinished {
            id,
            ok: true,
            session_id: call.session_id,
            agent_id: call.agent_id,
            result: Some(detached_text(call.session_id)),
            error: None,
        };
        Batch::of(seq![started, asked(ids, finished)], ids.rest())
    } else {
        Batch::of(seq![started], ids)
    }
}

/// A call fails. The worker is told once nothing more is tried.
pub open spec fn failed(
    id: Seq<char>,
    call: SubagentCallV,
    ends: bool,
    e: SettleErrorV,
    ids: IdsV,
) -> Batch {
    let errored = EventPayloadV::SubagentErrored(
        SubagentErroredV { id, error: e.error, retryable: e.retryable },
    );
    if ends {
        let finished = TriggerV::SubagentFinished {
            id,
            ok: false,
            session_id: call.session_id,
            agent_id: call.agent_id,
            result: None,
            error: Some(e.error),
        };
        Batch::of(seq![errored, asked(ids, finished)], ids.rest())
    } else {
        Batch::of(seq![errored], ids)
    }
}

/// What a call that nobody waits for answers.
pub open spec fn detached_text(session_id: Seq<char>) -> Seq<char> {
    "running detached in session "@ + session_id + "; its result arrives as a message"@
}

impl SessionStateV {
    /// The call to a child that waits for it.
    pub open spec fn subagent_awaiting(self, child: Seq<char>) -> Option<EffectEntryV> {
        first(self.effects, awaits_child(child))
    }

    /// The last call to a child that nobody waits for.
    pub open spec fn subagent_detached(self, child: Seq<char>) -> Option<EffectEntryV> {
        last_of(self.effects, detached_child(child))
    }

    /// The last call to a child.
    pub open spec fn last_call(self, child: Seq<char>) -> Option<EffectEntryV> {
        last_of(self.effects, calls_child(child))
    }

    /// The results that wait to be told to the worker.
    pub open spec fn queued_subagent_notice(self) -> Option<QueuedNoticeV> {
        match first(self.effects, is_queued_notice()) {
            Some(e) => match e.trigger() {
                Some(TriggerV::SubagentNotice { messages, sessions, turn_id }) => Some(
                    QueuedNoticeV { decision_id: e.id, messages, sessions, turn_id },
                ),
                _ => None,
            },
            None => None,
        }
    }

    /// How deep subagents may nest here.
    pub open spec fn depth_limit(self) -> u32 {
        match self.agent_for(self.head_id) {
            Some(config) => config.depth_limit(),
            None => DEFAULT_MAX_SUBAGENT_DEPTH,
        }
    }

    /// How a call returns: as the config pins it, else as it asks.
    pub open spec fn spawn_mode(self, agent_id: Seq<char>, asked: Option<SpawnMode>) -> SpawnMode {
        let pinned = match self.agent_for(self.head_id) {
            Some(config) => config.subagent_mode(agent_id),
            None => None,
        };
        match pinned {
            Some(SubagentMode::Blocking) => SpawnMode::Blocking,
            Some(SubagentMode::Detached) => SpawnMode::Detached,
            _ => match asked {
                Some(mode) => mode,
                None => SpawnMode::Blocking,
            },
        }
    }

    /// The child a call starts. The same call starts the same child.
    pub open spec fn child_id(self, s: SpawnV) -> Seq<char> {
        self.session_id + ":"@ + s.decision_id + ":"@ + s.tool_call_id
    }

    /// A result that was asked for is not told again.
    pub open spec fn withdraw(self, child: Seq<char>, ids: IdsV) -> Batch {
        match self.queued_subagent_notice() {
            Some(notice) => if notice.sessions.contains(child) {
                let rest = notice_rest(notice.messages, notice.sessions, child);
                if rest.0.len() == 0 {
                    Batch::of(seq![dropped(notice.decision_id)], ids)
                } else {
                    Batch::of(
                        seq![
                            dropped(notice.decision_id),
                            asked(
                                ids,
                                TriggerV::SubagentNotice {
                                    messages: rest.0,
                                    sessions: rest.1,
                                    turn_id: notice.turn_id,
                                },
                            ),
                        ],
                        ids.rest(),
                    )
                }
            } else {
                Batch::nothing(ids)
            },
            None => Batch::nothing(ids),
        }
    }

    /// A wait is answered with what the child's last call came to.
    pub open spec fn answer_wait(
        self,
        s: SpawnV,
        child: Seq<char>,
        call: SubagentCallV,
        ids: IdsV,
    ) -> Batch {
        let text = call.result->0;
        let answer = asked(
            ids,
            TriggerV::SubagentFinished {
                id: s.tool_call_id,
                ok: !call.is_error,
                session_id: child,
                agent_id: call.agent_id,
                result: if call.is_error {
                    None
                } else {
                    Some(text)
                },
                error: if call.is_error {
                    Some(ErrorInfoV::new(ErrorCode::HandlerError, text))
                } else {
                    None
                },
            },
        );
        let withdrawn = self.withdraw(child, ids.rest());
        Batch::of(seq![answer] + withdrawn.events, withdrawn.ids)
    }

    /// A subagent is called again in a child this session started.
    pub open spec fn go_on(self, s: SpawnV, child: Seq<char>, ids: IdsV) -> Batch {
        match self.last_call(child) {
            None => refusal(
                ids,
                s,
                child,
                ErrorCode::HandlerError,
                "`"@ + child + "` names no session this agent started"@,
            ),
            Some(entry) => {
                let call = entry.subagent()->0;
                if self.subagent_awaiting(child) is Some {
                    refusal(
                        ids,
                        s,
                        child,
                        ErrorCode::HandlerError,
                        "`"@ + child + "` is already answering another call"@,
                    )
                } else if s.mode == Some(SpawnMode::Wait) {
                    if call.result is Some {
                        self.answer_wait(s, child, call, ids)
                    } else {
                        Batch::of(opened(s, child, call.agent_id, None, SpawnMode::Wait), ids)
                    }
                } else if call.mode == SpawnMode::Detached && call.result is None {
                    refusal(
                        ids,
                        s,
                        child,
                        ErrorCode::HandlerError,
                        "`"@ + child + "` is still working detached"@,
                    )
                } else {
                    let mode = self.spawn_mode(call.agent_id, s.mode);
                    Batch::of(opened(s, child, call.agent_id, s.message, mode), ids)
                }
            },
        }
    }

    /// A subagent is called. A session at the depth limit starts no more, and
    /// a call that stands already is not made again.
    #[verifier::opaque]
    pub open spec fn request_subagent(self, s: SpawnV, ids: IdsV) -> Batch {
        let limit = self.depth_limit();
        if self.asked_before(EffectKind::Subagent, s.tool_call_id) {
            Batch::nothing(ids)
        } else if s.mode != Some(SpawnMode::Wait) && self.ancestry.len() >= limit {
            refusal(
                ids,
                s,
                match s.session_id {
                    Some(child) => child,
                    None => Seq::empty(),
                },
                ErrorCode::BudgetExceeded,
                "subagent depth limit reached: max_subagent_depth is "@ + text::decimal(
                    limit as nat,
                ),
            )
        } else {
            match s.session_id {
                Some(child) => self.go_on(s, child, ids),
                None => {
                    let mode = self.spawn_mode(s.agent_id, s.mode);
                    Batch::of(opened(s, self.child_id(s), s.agent_id, s.message, mode), ids)
                },
            }
        }
    }

    /// A call settles: its child took it, or it failed.
    pub open spec fn settle_subagent(self, id: Seq<char>, outcome: OutcomeV, ids: IdsV) -> Batch {
        match self.effect(EffectKind::Subagent, id) {
            None => Batch::nothing(ids),
            Some(entry) => {
                let call = entry.subagent()->0;
                match outcome {
                    OutcomeV::SubagentStarted => started(id, call, ids),
                    OutcomeV::Error(e) => failed(id, call, entry.tracking.ends(e.retryable), e, ids),
                    _ => Batch::nothing(ids),
                }
            },
        }
    }

    /// A call is tried again, in the same child.
    pub open spec fn retry_subagent(self, id: Seq<char>) -> Seq<EventPayloadV> {
        match self.effect(EffectKind::Subagent, id) {
            None => Seq::empty(),
            Some(e) => {
                let call = e.subagent()->0;
                seq![
                    EventPayloadV::SubagentRequested(
                        SubagentRequestedV {
                            id,
                            attempt: next_attempt(e.tracking),
                            session_id: call.session_id,
                            agent_id: call.agent_id,
                            message: call.message,
                            retry: e.tracking.retry.policy,
                            mode: call.mode,
                            decision_id: call.decision_id,
                        },
                    ),
                ]
            },
        }
    }
}

/// A child answered a call that waits for it.
pub open spec fn answered_turn(
    id: Seq<char>,
    session_id: Seq<char>,
    agent_id: Seq<char>,
    data: JsonV,
    cost: Decimal,
    token_usage: UsageV,
    ids: IdsV,
) -> Batch {
    Batch::of(
        seq![
            EventPayloadV::SubagentTurnCompleted(
                SubagentTurnCompletedV { id, cost, token_usage, data, turn_id: None, error: None },
            ),
            asked(
                ids,
                TriggerV::SubagentFinished {
                    id,
                    ok: true,
                    session_id,
                    agent_id,
                    result: Some(data.plain_text()),
                    error: None,
                },
            ),
        ],
        ids.rest(),
    )
}

/// A child answered a call that waits for it.
pub fn complete_turn(
    id: String,
    session_id: String,
    agent_id: String,
    data: Json,
    cost: Decimal,
    token_usage: Usage,
    ids: &mut Ids,
) -> (r: Vec<EventPayload>)
    ensures
        Batch::of(r.v(), final(ids).v()) == answered_turn(
            id@,
            session_id@,
            agent_id@,
            data.v(),
            cost,
            token_usage.v(),
            old(ids).v(),
        ),
{
    let finished = Trigger::SubagentFinished {
        id: id.dup(),
        ok: true,
        session_id,
        agent_id,
        result: Some(json_text_of(&data)),
        error: None,
    };
    let completed = SubagentTurnCompleted {
        id,
        cost,
        token_usage,
        data,
        turn_id: None,
        error: None,
    };
    let mut events = one(EventPayload::SubagentTurnCompleted(completed));
    append_one(&mut events, decision_queued(ids, finished));
    assert(events.v() =~= answered_turn(
        id@,
        session_id@,
        agent_id@,
        data.v(),
        cost,
        token_usage.v(),
        old(ids).v(),
    ).events);
    events
}

/// A result nobody waited for, as a message.
pub fn notice(session_id: &str, agent_id: &str, completed: &SubagentTurnCompleted) -> (r:
    DraftMessage)
    ensures
        r.v() == notice_message(session_id@, agent_id@, completed.v()),
{
    let text = "<subagent_result session=\"".to_owned().concat(session_id).concat(
        "\" agent=\"",
    ).concat(agent_id).concat("\">").concat(turn_text(completed).as_str()).concat(
        "</subagent_result>",
    );
    DraftMessage {
        id: None,
        role: Role::User,
        content: Some(Content::Text(text)),
        tool_calls: None,
        tool_call_id: None,
        name: None,
        reasoning: None,
    }
}

fn is_child_call(e: &EffectEntry, child: &str) -> (r: bool)
    ensures
        r == calls_child(child@)(e.v()),
{
    match e.subagent() {
        Some(call) => text::eq(call.session_id.as_str(), child),
        None => false,
    }
}

impl SessionState {
    /// The call to a child that waits for it.
    pub fn subagent_awaiting(&self, child: &str) -> (r: Option<&EffectEntry>)
        ensures
            match r {
                Some(e) => self.v().subagent_awaiting(child@) == Some(e.v())
                    && e.v().subagent() is Some,
                None => self.v().subagent_awaiting(child@) is None,
            },
    {
        let ghost all = self.v().effects;
        let ghost waits = awaits_child(child@);
        let mut i: usize = 0;
        while i < self.effects.len()
            invariant
                i <= self.effects@.len(),
                all == self.v().effects,
                waits == awaits_child(child@),
                forall|j: int| 0 <= j < i ==> !waits(#[trigger] all[j]),
            decreases self.effects@.len() - i,
        {
            let e = &self.effects[i];
            assert(all[i as int] == e.v());
            if is_child_call(e, child) && e.tracking.is_in_flight() {
                proof {
                    lemma_position_is(all, waits, i as int);
                }
                return Some(e);
            }
            i = i + 1;
        }
        proof {
            lemma_position(all, waits);
        }
        None
    }

    /// The last call to a child that nobody waits for.
    pub fn subagent_detached(&self, child: &str) -> (r: Option<&EffectEntry>)
        ensures
            match r {
                Some(e) => self.v().subagent_detached(child@) == Some(e.v())
                    && e.v().subagent() is Some,
                None => self.v().subagent_detached(child@) is None,
            },
    {
        let ghost all = self.v().effects;
        let ghost meets = detached_child(child@);
        let mut i: usize = self.effects.len();
        assert(all.take(i as int) =~= all);
        while i > 0
            invariant
                i <= self.effects@.len(),
                all == self.v().effects,
                meets == detached_child(child@),
                last_of(all, meets) == last_of(all.take(i as int), meets),
            decreases i,
        {
            let e = &self.effects[i - 1];
            assert(all.take(i as int).last() == e.v());
            assert(all.take(i as int).drop_last() =~= all.take(i - 1));
            match e.subagent() {
                Some(call) => {
                    if text::eq(call.session_id.as_str(), child) && call.mode
                        == SpawnMode::Detached {
                        return Some(e);
                    }
                },
                None => {},
            }
            i = i - 1;
        }
        None
    }

    /// The last call to a child.
    fn last_call(&self, child: &str) -> (r: Option<&EffectEntry>)
        ensures
            match r {
                Some(e) => self.v().last_call(child@) == Some(e.v()) && e.v().subagent() is Some,
                None => self.v().last_call(child@) is None,
            },
    {
        let ghost all = self.v().effects;
        let ghost meets = calls_child(child@);
        let mut i: usize = self.effects.len();
        assert(all.take(i as int) =~= all);
        while i > 0
            invariant
                i <= self.effects@.len(),
                all == self.v().effects,
                meets == calls_child(child@),
                last_of(all, meets) == last_of(all.take(i as int), meets),
            decreases i,
        {
            let e = &self.effects[i - 1];
            assert(all.take(i as int).last() == e.v());
            assert(all.take(i as int).drop_last() =~= all.take(i - 1));
            if is_child_call(e, child) {
                return Some(e);
            }
            i = i - 1;
        }
        None
    }

    /// The results that wait to be told to the worker.
    pub fn queued_subagent_notice(&self) -> (r: Option<QueuedNotice<'_>>)
        ensures
            match r {
                Some(n) => self.v().queued_subagent_notice() == Some(
                    QueuedNoticeV {
                        decision_id: n.decision_id@,
                        messages: n.messages.v(),
                        sessions: n.sessions.v(),
                        turn_id: n.turn_id@,
                    },
                ),
                None => self.v().queued_subagent_notice() is None,
            },
    {
        let ghost all = self.v().effects;
        let ghost meets = is_queued_notice();
        let mut i: usize = 0;
        while i < self.effects.len()
            invariant
                i <= self.effects@.len(),
                all == self.v().effects,
                meets == is_queued_notice(),
                forall|j: int| 0 <= j < i ==> !meets(#[trigger] all[j]),
            decreases self.effects@.len() - i,
        {
            let e = &self.effects[i];
            assert(all[i as int] == e.v());
            if e.tracking.state == EffectStatus::Queued {
                match e.decision() {
                    Some(d) => match &d.trigger {
                        Trigger::SubagentNotice { messages, sessions, turn_id } => {
                            proof {
                                lemma_position_is(all, meets, i as int);
                            }
                            return Some(
                                QueuedNotice { decision_id: &e.id, messages, sessions, turn_id },
                            );
                        },
                        _ => {},
                    },
                    None => {},
                }
            }
            i = i + 1;
        }
        proof {
            lemma_position(all, meets);
        }
        None
    }

    fn depth_limit(&self) -> (r: u32)
        ensures
            r == self.v().depth_limit(),
    {
        match self.at_head().agent() {
            Some(config) => config.depth_limit(),
            None => DEFAULT_MAX_SUBAGENT_DEPTH,
        }
    }

    fn spawn_mode(&self, agent_id: &str, asked: Option<SpawnMode>) -> (r: SpawnMode)
        ensures
            r == self.v().spawn_mode(agent_id@, asked),
    {
        let pinned = match self.at_head().agent() {
            Some(config) => config.subagent_mode(agent_id),
            None => None,
        };
        match pinned {
            Some(SubagentMode::Blocking) => SpawnMode::Blocking,
            Some(SubagentMode::Detached) => SpawnMode::Detached,
            _ => match asked {
                Some(mode) => mode,
                None => SpawnMode::Blocking,
            },
        }
    }

    fn withdraw(&self, child: &str, ids: &mut Ids) -> (r: Vec<EventPayload>)
        ensures
            Batch::of(r.v(), final(ids).v()) == self.v().withdraw(child@, old(ids).v()),
    {
        match self.queued_subagent_notice() {
            Some(notice) => {
                if !has_text(notice.sessions, child) {
                    return crate::model::none();
                }
                let rest = split_notice(notice.messages, notice.sessions, child);
                let mut events = one(
                    EventPayload::DecisionDropped(
                        DecisionDropped { id: notice.decision_id.dup() },
                    ),
                );
                if rest.0.len() > 0 {
                    let kept = Trigger::SubagentNotice {
                        messages: rest.0,
                        sessions: rest.1,
                        turn_id: notice.turn_id.dup(),
                    };
                    append_one(&mut events, decision_queued(ids, kept));
                }
                assert(events.v() =~= self.v().withdraw(child@, old(ids).v()).events);
                events
            },
            None => crate::model::none(),
        }
    }

    fn go_on(&self, s: &Spawn, child: &String, ids: &mut Ids) -> (r: Vec<EventPayload>)
        ensures
            Batch::of(r.v(), final(ids).v()) == self.v().go_on(s.v(), child@, old(ids).v()),
    {
        let entry = match self.last_call(child) {
            Some(entry) => entry,
            None => {
                return refuse(
                    ids,
                    s,
                    child.dup(),
                    ErrorCode::HandlerError,
                    quoted(child, "` names no session this agent started"),
                );
            },
        };
        let call = match entry.subagent() {
            Some(call) => call,
            None => {
                return crate::model::none();
            },
        };
        if self.subagent_awaiting(child).is_some() {
            return refuse(
                ids,
                s,
                child.dup(),
                ErrorCode::HandlerError,
                quoted(child, "` is already answering another call"),
            );
        }
        let waits = match s.mode {
            Some(mode) => mode == SpawnMode::Wait,
            None => false,
        };
        if waits {
            return match &call.result {
                Some(text) => self.answer_wait(s, child, call, text, ids),
                None => open_call(s, child.dup(), call.agent_id.dup(), None, SpawnMode::Wait),
            };
        }
        if call.mode == SpawnMode::Detached && call.result.is_none() {
            return refuse(
                ids,
                s,
                child.dup(),
                ErrorCode::HandlerError,
                quoted(child, "` is still working detached"),
            );
        }
        let mode = self.spawn_mode(&call.agent_id, s.mode);
        open_call(s, child.dup(), call.agent_id.dup(), s.message.dup(), mode)
    }

    fn answer_wait(
        &self,
        s: &Spawn,
        child: &String,
        call: &SubagentCall,
        text: &String,
        ids: &mut Ids,
    ) -> (r: Vec<EventPayload>)
        requires
            call.v().result == Some(text@),
        ensures
            Batch::of(r.v(), final(ids).v()) == self.v().answer_wait(
                s.v(),
                child@,
                call.v(),
                old(ids).v(),
            ),
    {
        let answer = Trigger::SubagentFinished {
            id: s.tool_call_id.dup(),
            ok: !call.is_error,
            session_id: child.dup(),
            agent_id: call.agent_id.dup(),
            result: if call.is_error {
                None
            } else {
                Some(text.dup())
            },
            error: if call.is_error {
                Some(ErrorInfo::new(ErrorCode::HandlerError, text.dup()))
            } else {
                None
            },
        };
        let mut events = one(decision_queued(ids, answer));
        extend(&mut events, self.withdraw(child, ids));
        events
    }
}

fn has_text(texts: &Vec<String>, text: &str) -> (r: bool)
    ensures
        r == texts.v().contains(text@),
{
    let mut i: usize = 0;
    while i < texts.len()
        invariant
            i <= texts@.len(),
            forall|j: int| 0 <= j < i ==> texts.v()[j] != text@,
        decreases texts@.len() - i,
    {
        if text::eq(texts[i].as_str(), text) {
            assert(texts.v()[i as int] == text@);
            return true;
        }
        i = i + 1;
    }
    false
}

fn split_notice(messages: &Vec<DraftMessage>, sessions: &Vec<String>, child: &str) -> (r: (
    Vec<DraftMessage>,
    Vec<String>,
))
    ensures
        (r.0.v(), r.1.v()) == notice_rest(messages.v(), sessions.v(), child@),
{
    let n = if messages.len() < sessions.len() {
        messages.len()
    } else {
        sessions.len()
    };
    let mut kept: Vec<DraftMessage> = crate::model::none();
    let mut from: Vec<String> = crate::model::none();
    let mut i: usize = 0;
    let ghost all = notice_rest(messages.v(), sessions.v(), child@);
    assert(messages.v().skip(0) =~= messages.v());
    assert(sessions.v().skip(0) =~= sessions.v());
    assert(kept.v() + all.0 =~= all.0);
    assert(from.v() + all.1 =~= all.1);
    while i < n
        invariant
            i <= n,
            n == messages@.len() || n == sessions@.len(),
            n <= messages@.len(),
            n <= sessions@.len(),
            all == notice_rest(messages.v(), sessions.v(), child@),
            kept.v() + notice_rest(
                messages.v().skip(i as int),
                sessions.v().skip(i as int),
                child@,
            ).0 == all.0,
            from.v() + notice_rest(
                messages.v().skip(i as int),
                sessions.v().skip(i as int),
                child@,
            ).1 == all.1,
        decreases n - i,
    {
        let ghost m = messages.v().skip(i as int);
        let ghost t = sessions.v().skip(i as int);
        let ghost rest = notice_rest(m.drop_first(), t.drop_first(), child@);
        let ghost kept_before = kept.v();
        let ghost from_before = from.v();
        assert(m.drop_first() =~= messages.v().skip(i + 1));
        assert(t.drop_first() =~= sessions.v().skip(i + 1));
        assert(m[0] == messages@[i as int].v());
        assert(t[0] == sessions@[i as int]@);
        if !text::eq(sessions[i].as_str(), child) {
            append_one(&mut kept, messages[i].dup());
            append_one(&mut from, sessions[i].dup());
            assert(kept_before + (seq![m[0]] + rest.0) =~= kept.v() + rest.0);
            assert(from_before + (seq![t[0]] + rest.1) =~= from.v() + rest.1);
        }
        i = i + 1;
    }
    assert(kept.v() =~= all.0);
    assert(from.v() =~= all.1);
    (kept, from)
}

fn quoted(child: &str, rest: &str) -> (r: String)
    ensures
        r@ == "`"@ + child@ + rest@,
{
    "`".to_owned().concat(child).concat(rest)
}

fn refuse(ids: &mut Ids, s: &Spawn, session_id: String, code: ErrorCode, message: String) -> (r:
    Vec<EventPayload>)
    ensures
        Batch::of(r.v(), final(ids).v()) == refusal(
            old(ids).v(),
            s.v(),
            session_id@,
            code,
            message@,
        ),
{
    let finished = Trigger::SubagentFinished {
        id: s.tool_call_id.dup(),
        ok: false,
        session_id,
        agent_id: s.agent_id.dup(),
        result: None,
        error: Some(ErrorInfo::new(code, message)),
    };
    one(decision_queued(ids, finished))
}

fn open_call(
    s: &Spawn,
    session_id: String,
    agent_id: String,
    message: Option<DraftMessage>,
    mode: SpawnMode,
) -> (r: Vec<EventPayload>)
    ensures
        r.v() == opened(s.v(), session_id@, agent_id@, message.v(), mode),
{
    one(
        EventPayload::SubagentRequested(
            SubagentRequested {
                id: s.tool_call_id.dup(),
                attempt: 0,
                session_id,
                agent_id,
                message,
                retry: s.retry,
                mode,
                decision_id: s.decision_id.dup(),
            },
        ),
    )
}

/// A subagent is called. Only the engine calls, for the worker.
pub fn request(state: &SessionState, s: Spawn, caller: &Caller, ids: &mut Ids) -> (r: Result<
    Vec<EventPayload>,
    SessionError,
>)
    ensures
        caller.v() is System ==> r is Ok && Batch::of(r->Ok_0.v(), final(ids).v())
            == state.v().request_subagent(s.v(), old(ids).v()),
        !(caller.v() is System) ==> r.v() == Err::<Seq<EventPayloadV>, SessionErrorV>(
            SessionErrorV::SessionAccessDenied,
        ) && final(ids).v() == old(ids).v(),
{
    proof {
        reveal(SessionStateV::request_subagent);
    }
    match SessionState::ensure_internal(caller) {
        Err(e) => {
            return Err(e);
        },
        Ok(_) => {},
    }
    if state.asked_before(EffectKind::Subagent, &s.tool_call_id) {
        return Ok(crate::model::none());
    }
    let limit = state.depth_limit();
    let waits = match s.mode {
        Some(mode) => mode == SpawnMode::Wait,
        None => false,
    };
    if !waits && state.ancestry.len() >= limit as usize {
        let child = match &s.session_id {
            Some(child) => child.dup(),
            None => String::new(),
        };
        let message = "subagent depth limit reached: max_subagent_depth is ".to_owned().concat(
            text::number(limit as u64).as_str(),
        );
        return Ok(refuse(ids, &s, child, ErrorCode::BudgetExceeded, message));
    }
    match &s.session_id {
        Some(child) => Ok(state.go_on(&s, child, ids)),
        None => {
            let child = state.session_id.dup().concat(":").concat(
                s.decision_id.as_str(),
            ).concat(":").concat(s.tool_call_id.as_str());
            let mode = state.spawn_mode(&s.agent_id, s.mode);
            Ok(open_call(&s, child, s.agent_id.dup(), s.message.dup(), mode))
        },
    }
}

fn take_call(id: &str, call: &SubagentCall, ids: &mut Ids) -> (r: Vec<EventPayload>)
    ensures
        Batch::of(r.v(), final(ids).v()) == started(id@, call.v(), old(ids).v()),
{
    let mut events = one(EventPayload::SubagentStarted(SubagentStarted { id: id.to_owned() }));
    if call.mode == SpawnMode::Detached {
        let text = "running detached in session ".to_owned().concat(
            call.session_id.as_str(),
        ).concat("; its result arrives as a message");
        let finished = Trigger::SubagentFinished {
            id: id.to_owned(),
            ok: true,
            session_id: call.session_id.dup(),
            agent_id: call.agent_id.dup(),
            result: Some(text),
            error: None,
        };
        append_one(&mut events, decision_queued(ids, finished));
    }
    assert(events.v() =~= started(id@, call.v(), old(ids).v()).events);
    events
}

fn fail_call(id: &str, call: &SubagentCall, ends: bool, e: SettleError, ids: &mut Ids) -> (r: Vec<
    EventPayload,
>)
    ensures
        Batch::of(r.v(), final(ids).v()) == failed(id@, call.v(), ends, e.v(), old(ids).v()),
{
    let mut events = one(
        EventPayload::SubagentErrored(
            SubagentErrored { id: id.to_owned(), error: e.error.dup(), retryable: e.retryable },
        ),
    );
    if ends {
        let finished = Trigger::SubagentFinished {
            id: id.to_owned(),
            ok: false,
            session_id: call.session_id.dup(),
            agent_id: call.agent_id.dup(),
            result: None,
            error: Some(e.error),
        };
        append_one(&mut events, decision_queued(ids, finished));
    }
    assert(events.v() =~= failed(id@, call.v(), ends, e.v(), old(ids).v()).events);
    events
}

pub struct SubagentSpec;

impl SubagentSpec {
    pub fn settle(&self, state: &SessionState, id: &str, outcome: Outcome, ids: &mut Ids) -> (r:
        Vec<EventPayload>)
        ensures
            Batch::of(r.v(), final(ids).v()) == state.v().settle_subagent(
                id@,
                outcome.v(),
                old(ids).v(),
            ),
    {
        proof {
            lemma_position(state.v().effects, named(EffectKind::Subagent, id@));
        }
        let entry = match state.effect(EffectKind::Subagent, id) {
            Some(entry) => entry,
            None => {
                return crate::model::none();
            },
        };
        let call = match entry.subagent() {
            Some(call) => call,
            None => {
                return crate::model::none();
            },
        };
        match outcome {
            Outcome::SubagentStarted => take_call(id, call, ids),
            Outcome::Error(e) => {
                let ends = entry.tracking.is_terminal_failure(e.retryable);
                fail_call(id, call, ends, e, ids)
            },
            _ => crate::model::none(),
        }
    }

    pub fn retry(&self, state: &SessionState, id: &str) -> (r: Vec<EventPayload>)
        ensures
            r.v() == state.v().retry_subagent(id@),
    {
        proof {
            lemma_position(state.v().effects, named(EffectKind::Subagent, id@));
        }
        match state.effect(EffectKind::Subagent, id) {
            Some(e) => match e.subagent() {
                Some(call) => one(
                    EventPayload::SubagentRequested(
                        SubagentRequested {
                            id: id.to_owned(),
                            attempt: following(&e.tracking),
                            session_id: call.session_id.dup(),
                            agent_id: call.agent_id.dup(),
                            message: call.message.dup(),
                            retry: e.tracking.retry.policy,
                            mode: call.mode,
                            decision_id: call.decision_id.dup(),
                        },
                    ),
                ),
                None => crate::model::none(),
            },
            None => crate::model::none(),
        }
    }
}

} // verus!
