//! The tree of messages, and what holds on the path to one of them.
//!
//! Each message follows another one. The path to a node is that node, the one
//! it follows, and so on to the first. What a session records is anchored at a
//! node and holds on every path through it; what has no anchor holds on all.
use crate::model::{
    as_text, first, last_of, lemma_position, lemma_position_is, own_text, position, text_of, Model,
};
use crate::protocol::config::{AgentConfig, AgentConfigV, WorkerState, WorkerStateV};
use crate::protocol::effect::{EffectKind, RetryConfig};
use crate::protocol::json::{json_null, Json};
use crate::protocol::message::{
    Message, MessageTree, MessageTreeV, MessageV, NewMessage, NewMessageV,
};
use crate::session::decision::{Trigger, TriggerV};
use crate::session::events::{SessionInterrupted, SessionInterruptedV};
use crate::session::state::{
    AgentVersionV, LoggedV, SessionState, SessionStateV, SessionStatus, SessionStatusV,
    StateVersionV,
};
use crate::text;
use vstd::prelude::*;

verus! {

pub open spec fn has_id(id: Seq<char>) -> spec_fn(NewMessageV) -> bool {
    |n: NewMessageV| n.message.id == id
}

/// Where a message stands among the first `limit` nodes. A message follows one
/// that was recorded before it, so that is where its parent is looked for.
pub open spec fn node_at(nodes: Seq<NewMessageV>, limit: nat, id: Seq<char>) -> Option<int> {
    position(nodes.take(limit as int), has_id(id))
}

/// The messages on the path to a node, the first one first.
pub open spec fn path(nodes: Seq<NewMessageV>, limit: nat, node: Option<Seq<char>>) -> Seq<MessageV>
    decreases limit,
{
    if limit > nodes.len() {
        Seq::empty()
    } else {
        match node {
            None => Seq::empty(),
            Some(id) => match node_at(nodes, limit, id) {
                Some(i) => if 0 <= i < limit {
                    path(nodes, i as nat, nodes[i].parent_id).push(nodes[i].message)
                } else {
                    Seq::empty()
                },
                None => Seq::empty(),
            },
        }
    }
}

/// Whether the path to a node leads through `anchor`.
pub open spec fn leads_through(
    nodes: Seq<NewMessageV>,
    limit: nat,
    node: Option<Seq<char>>,
    anchor: Seq<char>,
) -> bool
    decreases limit,
{
    if limit > nodes.len() {
        false
    } else {
        match node {
            None => false,
            Some(id) => id == anchor || match node_at(nodes, limit, id) {
                Some(i) => 0 <= i < limit && leads_through(
                    nodes,
                    i as nat,
                    nodes[i].parent_id,
                    anchor,
                ),
                None => false,
            },
        }
    }
}

/// The path to a recorded node leads through the messages on it, and through
/// nothing else that is recorded.
pub proof fn law_a_path_leads_through_its_messages(
    nodes: Seq<NewMessageV>,
    limit: nat,
    node: Option<Seq<char>>,
    k: int,
)
    requires
        limit <= nodes.len(),
        0 <= k < path(nodes, limit, node).len(),
    ensures
        leads_through(nodes, limit, node, path(nodes, limit, node)[k].id),
    decreases limit,
{
    let id = node->0;
    lemma_position(nodes.take(limit as int), has_id(id));
    let i = node_at(nodes, limit, id)->0;
    assert(nodes.take(limit as int)[i] == nodes[i]);
    let before = path(nodes, i as nat, nodes[i].parent_id);
    if k < before.len() {
        law_a_path_leads_through_its_messages(nodes, i as nat, nodes[i].parent_id, k);
    }
}

/// What has no anchor holds on every path, the rest on the paths through it.
pub open spec fn holds_on(
    nodes: Seq<NewMessageV>,
    node: Option<Seq<char>>,
    anchor: Option<Seq<char>>,
) -> bool {
    match anchor {
        None => true,
        Some(anchor) => leads_through(nodes, nodes.len(), node, anchor),
    }
}

/// Whether a config holds at a node.
pub open spec fn agent_on(nodes: Seq<NewMessageV>, node: Option<Seq<char>>) -> spec_fn(
    LoggedV<AgentVersionV>,
) -> bool {
    |l: LoggedV<AgentVersionV>| holds_on(nodes, node, l.entry.anchor)
}

/// Whether a worker state holds at a node.
pub open spec fn state_on(nodes: Seq<NewMessageV>, node: Option<Seq<char>>) -> spec_fn(
    LoggedV<StateVersionV>,
) -> bool {
    |l: LoggedV<StateVersionV>| holds_on(nodes, node, l.entry.anchor)
}

/// Whether an interrupt stops a node.
pub open spec fn stops(nodes: Seq<NewMessageV>, node: Option<Seq<char>>) -> spec_fn(
    SessionInterruptedV,
) -> bool {
    |i: SessionInterruptedV| holds_on(nodes, node, i.anchor)
}

fn find_node(nodes: &Vec<NewMessage>, limit: usize, id: &str) -> (r: Option<usize>)
    requires
        limit <= nodes@.len(),
    ensures
        match r {
            Some(i) => i < limit && node_at(nodes.v(), limit as nat, id@) == Some(i as int),
            None => node_at(nodes.v(), limit as nat, id@) is None,
        },
{
    let ghost seen = nodes.v().take(limit as int);
    let mut i: usize = 0;
    while i < limit
        invariant
            i <= limit <= nodes@.len(),
            seen == nodes.v().take(limit as int),
            forall|j: int| 0 <= j < i ==> !has_id(id@)(#[trigger] seen[j]),
        decreases limit - i,
    {
        if text::eq(nodes[i].message.id.as_str(), id) {
            proof {
                lemma_position_is(seen, has_id(id@), i as int);
            }
            return Some(i);
        }
        i = i + 1;
    }
    proof {
        lemma_position(seen, has_id(id@));
    }
    None
}

fn walk(nodes: &Vec<NewMessage>, limit: usize, node: Option<&str>, anchor: &str) -> (r: bool)
    requires
        limit <= nodes@.len(),
    ensures
        r == leads_through(nodes.v(), limit as nat, text_of(node), anchor@),
    decreases limit,
{
    match node {
        None => false,
        Some(id) => if text::eq(id, anchor) {
            true
        } else {
            match find_node(nodes, limit, id) {
                Some(i) => walk(nodes, i, as_text(&nodes[i].parent_id), anchor),
                None => false,
            }
        },
    }
}

fn gather(nodes: &Vec<NewMessage>, limit: usize, node: Option<&str>) -> (r: Vec<Message>)
    requires
        limit <= nodes@.len(),
    ensures
        r.v() == path(nodes.v(), limit as nat, text_of(node)),
    decreases limit,
{
    match node {
        None => crate::model::none(),
        Some(id) => match find_node(nodes, limit, id) {
            Some(i) => {
                let mut r = gather(nodes, i, as_text(&nodes[i].parent_id));
                crate::model::append_one(&mut r, nodes[i].message.dup());
                r
            },
            None => crate::model::none(),
        },
    }
}

impl MessageTree {
    /// The messages on the path to a node, the first one first.
    pub fn path_to(&self, node: &str) -> (r: Vec<Message>)
        ensures
            r.v() == path(self.v().nodes, self.v().nodes.len(), Some(node@)),
    {
        gather(&self.nodes, self.nodes.len(), Some(node))
    }
}

impl SessionStateV {
    /// Whether what is anchored at `anchor` holds at a node.
    pub open spec fn on_path(self, node: Option<Seq<char>>, anchor: Option<Seq<char>>) -> bool {
        holds_on(self.nodes, node, anchor)
    }

    /// The config in force at a node: the last one written on its path.
    pub open spec fn agent_for(self, node: Option<Seq<char>>) -> Option<AgentConfigV> {
        match last_of(self.agent_versions, agent_on(self.nodes, node)) {
            Some(l) => Some(l.entry.value),
            None => None,
        }
    }

    /// The worker state in force at a node: the last one written on its path,
    /// `null` before the first.
    pub open spec fn state_for(self, node: Option<Seq<char>>) -> WorkerStateV {
        match last_of(self.state_versions, state_on(self.nodes, node)) {
            Some(l) => l.entry.value,
            None => WorkerStateV(json_null()),
        }
    }

    /// The retry overrides in force at the head.
    pub open spec fn retry_config(self) -> Option<RetryConfig> {
        match self.agent_for(self.head_id) {
            Some(config) => config.retry,
            None => None,
        }
    }

    /// The interrupt that stops a node: the first open one on its path.
    pub open spec fn parked_at(self, node: Option<Seq<char>>) -> Option<SessionInterruptedV> {
        first(self.open_interrupts, stops(self.nodes, node))
    }

    /// Whether an interrupt stops the conversation where it stands.
    pub open spec fn head_parked(self) -> bool {
        self.parked_at(self.head_id) is Some
    }

    pub open spec fn open_interrupt(self, id: Seq<char>) -> Option<SessionInterruptedV> {
        first(self.open_interrupts, called(id))
    }

    /// The status as others see it: an interrupt of the head hides it.
    pub open spec fn projected_status(self) -> SessionStatusV {
        match self.parked_at(self.head_id) {
            Some(i) => SessionStatusV::Interrupted {
                interrupt_id: i.interrupt_id,
                origin: i.origin,
            },
            None => self.status,
        }
    }

    /// The node the work was asked for at.
    pub open spec fn effect_anchor(self, kind: EffectKind, id: Seq<char>) -> Option<Seq<char>> {
        match self.effect(kind, id) {
            Some(e) => e.anchor,
            None => None,
        }
    }

    /// Where a decision belongs: the work it is about says so, and a decision
    /// about no work belongs everywhere.
    pub open spec fn trigger_anchor(self, trigger: TriggerV) -> Option<Seq<char>> {
        match trigger {
            TriggerV::ToolExecute { id, .. } => self.effect_anchor(EffectKind::ToolCall, id),
            TriggerV::ToolFinished { id, .. } => self.effect_anchor(EffectKind::ToolCall, id),
            TriggerV::LlmExecute { id, .. } => self.effect_anchor(EffectKind::LlmCall, id),
            TriggerV::LlmFinished { id, .. } => self.effect_anchor(EffectKind::LlmCall, id),
            TriggerV::SubagentFinished { id, .. } => self.effect_anchor(EffectKind::Subagent, id),
            _ => None,
        }
    }

    /// The branch work runs on: the head's, unless the work was left behind on
    /// another one.
    pub open spec fn branch_of(self, anchor: Option<Seq<char>>) -> Option<Seq<char>> {
        if self.on_path(self.head_id, anchor) {
            self.head_id
        } else {
            anchor
        }
    }

    /// The node a decision is taken at. A client's view is taken at the last
    /// message of it that was recorded before.
    pub open spec fn decision_node(self, trigger: TriggerV) -> Option<Seq<char>> {
        match trigger {
            TriggerV::ClientTranscript { messages, new_from, .. } => if 0 < new_from
                <= messages.len() {
                messages[new_from - 1].id
            } else {
                None
            },
            _ => self.branch_of(self.trigger_anchor(trigger)),
        }
    }

    /// Whether an interrupt can hold a decision back. An action of the client
    /// and the answer to an interrupt go past it.
    pub open spec fn holds_back(trigger: TriggerV) -> bool {
        !(trigger is ClientAction) && !(trigger is InterruptResumed)
    }

    /// The interrupt that holds a decision back.
    pub open spec fn decision_stop(self, trigger: TriggerV) -> Option<SessionInterruptedV> {
        if SessionStateV::holds_back(trigger) {
            self.parked_at(self.decision_node(trigger))
        } else {
            None
        }
    }
}

pub open spec fn called(id: Seq<char>) -> spec_fn(SessionInterruptedV) -> bool {
    |i: SessionInterruptedV| i.interrupt_id == id
}

/// A session, seen from a node.
pub struct At<'a> {
    pub state: &'a SessionState,
    pub node: Option<&'a str>,
}

impl<'a> At<'a> {
    /// Whether what is anchored at `anchor` holds here.
    pub fn anchor_on_path(&self, anchor: Option<&str>) -> (r: bool)
        ensures
            r == self.state.v().on_path(text_of(self.node), text_of(anchor)),
    {
        match anchor {
            None => true,
            Some(anchor) => walk(&self.state.nodes, self.state.nodes.len(), self.node, anchor),
        }
    }

    /// The config in force here.
    pub fn resolve_agent_for(&self) -> (r: Option<AgentConfig>)
        ensures
            r.v() == self.state.v().agent_for(text_of(self.node)),
    {
        match self.agent() {
            Some(config) => Some(config.dup()),
            None => None,
        }
    }

    /// The config in force here.
    pub fn agent(&self) -> (r: Option<&'a AgentConfig>)
        ensures
            match r {
                Some(config) => self.state.v().agent_for(text_of(self.node)) == Some(config.v()),
                None => self.state.v().agent_for(text_of(self.node)) is None,
            },
    {
        let ghost all = self.state.v().agent_versions;
        let ghost holds = agent_on(self.state.v().nodes, text_of(self.node));
        let mut i: usize = self.state.agent_versions.len();
        assert(all.take(i as int) =~= all);
        while i > 0
            invariant
                i <= self.state.agent_versions@.len(),
                all == self.state.v().agent_versions,
                holds == agent_on(self.state.v().nodes, text_of(self.node)),
                last_of(all, holds) == last_of(all.take(i as int), holds),
            decreases i,
        {
            let version = &self.state.agent_versions[i - 1];
            assert(all.take(i as int).last() == version.v());
            assert(all.take(i as int).drop_last() =~= all.take(i - 1));
            if self.anchor_on_path(as_text(&version.entry.anchor)) {
                return Some(&version.entry.value);
            }
            i = i - 1;
        }
        None
    }

    /// The worker state in force here.
    pub fn resolve_state_for(&self) -> (r: WorkerState)
        ensures
            r.v() == self.state.v().state_for(text_of(self.node)),
    {
        let ghost all = self.state.v().state_versions;
        let ghost holds = state_on(self.state.v().nodes, text_of(self.node));
        let mut i: usize = self.state.state_versions.len();
        assert(all.take(i as int) =~= all);
        while i > 0
            invariant
                i <= self.state.state_versions@.len(),
                all == self.state.v().state_versions,
                holds == state_on(self.state.v().nodes, text_of(self.node)),
                last_of(all, holds) == last_of(all.take(i as int), holds),
            decreases i,
        {
            let version = &self.state.state_versions[i - 1];
            assert(all.take(i as int).last() == version.v());
            assert(all.take(i as int).drop_last() =~= all.take(i - 1));
            if self.anchor_on_path(as_text(&version.entry.anchor)) {
                return version.entry.value.dup();
            }
            i = i - 1;
        }
        WorkerState(Json::null())
    }

    /// The interrupt that stops this node.
    pub fn parked(&self) -> (r: Option<&'a SessionInterrupted>)
        ensures
            match r {
                Some(i) => self.state.v().parked_at(text_of(self.node)) == Some(i.v()),
                None => self.state.v().parked_at(text_of(self.node)) is None,
            },
    {
        let ghost all = self.state.v().open_interrupts;
        let ghost here_stops = stops(self.state.v().nodes, text_of(self.node));
        let mut i: usize = 0;
        while i < self.state.open_interrupts.len()
            invariant
                i <= self.state.open_interrupts@.len(),
                all == self.state.v().open_interrupts,
                here_stops == stops(self.state.v().nodes, text_of(self.node)),
                forall|j: int| 0 <= j < i ==> !here_stops(#[trigger] all[j]),
            decreases self.state.open_interrupts@.len() - i,
        {
            let open = &self.state.open_interrupts[i];
            assert(all[i as int] == open.v());
            if self.anchor_on_path(as_text(&open.anchor)) {
                proof {
                    lemma_position_is(all, here_stops, i as int);
                }
                return Some(open);
            }
            i = i + 1;
        }
        proof {
            lemma_position(all, here_stops);
        }
        None
    }
}

impl SessionState {
    /// The session, seen from a node.
    pub fn at<'a>(&'a self, node: Option<&'a str>) -> (r: At<'a>)
        ensures
            r.state == self,
            text_of(r.node) == text_of(node),
    {
        At { state: self, node }
    }

    /// The session, seen from where the conversation stands.
    pub fn at_head(&self) -> (r: At<'_>)
        ensures
            r.state == self,
            text_of(r.node) == self.v().head_id,
    {
        At { state: self, node: as_text(&self.head_id) }
    }

    /// Every recorded message.
    pub fn message_tree(&self) -> (r: MessageTree)
        ensures
            r.v() == (MessageTreeV { nodes: self.v().nodes, head_id: self.v().head_id }),
    {
        MessageTree { nodes: self.nodes.dup(), head_id: self.head_id.dup() }
    }

    /// The retry overrides in force at the head.
    pub fn retry_config(&self) -> (r: Option<RetryConfig>)
        ensures
            r == self.v().retry_config(),
    {
        match self.at_head().agent() {
            Some(config) => match &config.retry {
                Some(retry) => Some(**retry),
                None => None,
            },
            None => None,
        }
    }

    /// Whether an interrupt stops the conversation where it stands.
    pub fn head_parked(&self) -> (r: bool)
        ensures
            r == self.v().head_parked(),
    {
        self.at_head().parked().is_some()
    }

    pub fn open_interrupt(&self, id: &str) -> (r: Option<&SessionInterrupted>)
        ensures
            match r {
                Some(i) => self.v().open_interrupt(id@) == Some(i.v()),
                None => self.v().open_interrupt(id@) is None,
            },
    {
        let mut i: usize = 0;
        while i < self.open_interrupts.len()
            invariant
                i <= self.open_interrupts@.len(),
                forall|j: int|
                    0 <= j < i ==> !called(id@)(#[trigger] self.v().open_interrupts[j]),
            decreases self.open_interrupts@.len() - i,
        {
            if text::eq(self.open_interrupts[i].interrupt_id.as_str(), id) {
                proof {
                    lemma_position_is(self.v().open_interrupts, called(id@), i as int);
                }
                return Some(&self.open_interrupts[i]);
            }
            i = i + 1;
        }
        proof {
            lemma_position(self.v().open_interrupts, called(id@));
        }
        None
    }

    /// The status as others see it.
    pub fn projected_status(&self) -> (r: SessionStatus)
        ensures
            r.v() == self.v().projected_status(),
    {
        match self.at_head().parked() {
            Some(i) => SessionStatus::Interrupted {
                interrupt_id: i.interrupt_id.dup(),
                origin: i.origin,
            },
            None => self.status.dup(),
        }
    }

    fn effect_anchor(&self, kind: EffectKind, id: &str) -> (r: Option<&str>)
        ensures
            text_of(r) == self.v().effect_anchor(kind, id@),
    {
        match self.effect(kind, id) {
            Some(e) => as_text(&e.anchor),
            None => None,
        }
    }

    /// Where a decision belongs.
    pub fn trigger_anchor(&self, trigger: &Trigger) -> (r: Option<&str>)
        ensures
            text_of(r) == self.v().trigger_anchor(trigger.v()),
    {
        match trigger {
            Trigger::ToolExecute { id, .. } => self.effect_anchor(EffectKind::ToolCall, id),
            Trigger::ToolFinished { id, .. } => self.effect_anchor(EffectKind::ToolCall, id),
            Trigger::LlmExecute { id, .. } => self.effect_anchor(EffectKind::LlmCall, id),
            Trigger::LlmFinished { id, .. } => self.effect_anchor(EffectKind::LlmCall, id),
            Trigger::SubagentFinished { id, .. } => self.effect_anchor(EffectKind::Subagent, id),
            _ => None,
        }
    }

    /// The branch work runs on.
    pub fn branch_of<'a>(&'a self, anchor: Option<&'a str>) -> (r: Option<&'a str>)
        ensures
            text_of(r) == self.v().branch_of(text_of(anchor)),
    {
        if self.at_head().anchor_on_path(anchor) {
            as_text(&self.head_id)
        } else {
            anchor
        }
    }

    /// The interrupt that holds a decision back.
    pub fn decision_stop(&self, trigger: &Trigger) -> (r: Option<&SessionInterrupted>)
        ensures
            match r {
                Some(i) => self.v().decision_stop(trigger.v()) == Some(i.v()),
                None => self.v().decision_stop(trigger.v()) is None,
            },
    {
        match trigger {
            Trigger::ClientAction { .. } => None,
            Trigger::InterruptResumed { .. } => None,
            Trigger::ClientTranscript { messages, new_from, .. } => {
                if 0 < *new_from && *new_from <= messages.len() {
                    let node = own_text(as_text(&messages[*new_from - 1].id));
                    self.parked_from(as_text(&node))
                } else {
                    self.parked_from(None)
                }
            },
            _ => {
                let anchor = self.trigger_anchor(trigger);
                self.parked_from(self.branch_of(anchor))
            },
        }
    }

    fn parked_from(&self, node: Option<&str>) -> (r: Option<&SessionInterrupted>)
        ensures
            match r {
                Some(i) => self.v().parked_at(text_of(node)) == Some(i.v()),
                None => self.v().parked_at(text_of(node)) is None,
            },
    {
        let ghost all = self.v().open_interrupts;
        let ghost here_stops = stops(self.v().nodes, text_of(node));
        let mut i: usize = 0;
        while i < self.open_interrupts.len()
            invariant
                i <= self.open_interrupts@.len(),
                all == self.v().open_interrupts,
                here_stops == stops(self.v().nodes, text_of(node)),
                forall|j: int| 0 <= j < i ==> !here_stops(#[trigger] all[j]),
            decreases self.open_interrupts@.len() - i,
        {
            let open = &self.open_interrupts[i];
            assert(all[i as int] == open.v());
            let here = match as_text(&open.anchor) {
                None => true,
                Some(anchor) => walk(&self.nodes, self.nodes.len(), node, anchor),
            };
            if here {
                proof {
                    lemma_position_is(all, here_stops, i as int);
                }
                return Some(open);
            }
            i = i + 1;
        }
        proof {
            lemma_position(all, here_stops);
        }
        None
    }
}

} // verus!
