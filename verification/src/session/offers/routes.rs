//! Where a tool call goes.
use crate::model::{
    append_one, as_text, collect, extend, first, lemma_collect_step, lemma_position,
    lemma_position_is, Model,
};
use crate::protocol::config::{
    AgentTool, AgentToolV, AttachmentTool, ConnectorTool, ConnectorToolKind, ConnectorToolV,
};
use crate::protocol::effect::EffectKind;
use crate::protocol::json::{json_member, json_parsed, json_str, json_text, member, parse, Json};
use crate::protocol::message::{Content, ContentV, Message, MessageV};
use crate::protocol::result::{Attachment, AttachmentV, StoredContent, StoredContentV};
use crate::session::decision::ToolHandler;
use crate::session::events::{ConnectorTarget, ConnectorTargetV};
use crate::session::offers::{ATTACHMENT_READ, ATTACHMENT_VIEW};
use crate::session::state::{named, SessionState, SessionStateV, ToolCallState, ToolCallStateV};
use crate::session::tree::path;
use crate::text;
use vstd::prelude::*;

verus! {

/// A call that another call carries: the tool it names, and its arguments.
#[derive(Debug, PartialEq)]
pub struct InnerCall {
    pub name: String,
    pub arguments: String,
}

/// The value of [`InnerCall`].
pub struct InnerCallV {
    pub name: Seq<char>,
    pub arguments: Seq<char>,
}

impl Model for InnerCall {
    type V = InnerCallV;

    open spec fn v(&self) -> InnerCallV {
        InnerCallV {
            name: self.name.v(),
            arguments: self.arguments.v(),
        }
    }

    fn dup(&self) -> (r: InnerCall) {
        InnerCall {
            name: self.name.dup(),
            arguments: self.arguments.dup(),
        }
    }
}

impl Clone for InnerCall {
    fn clone(&self) -> (r: InnerCall)
        ensures
            r.v() == self.v(),
    {
        self.dup()
    }
}

/// The call that the arguments of `call_tool` carry: the `name` they hold, and
/// the text of their `arguments`.
pub open spec fn inner_call(arguments: Seq<char>) -> Option<InnerCallV> {
    match json_parsed(arguments) {
        Some(document) => match json_member(document, "name"@) {
            Some(name) => match json_str(name) {
                Some(name) => Some(
                    InnerCallV {
                        name,
                        arguments: match json_member(document, "arguments"@) {
                            Some(inner) => json_text(inner),
                            None => "{}"@,
                        },
                    },
                ),
                None => None,
            },
            None => None,
        },
        None => None,
    }
}

/// Reads the call that the arguments of `call_tool` carry.
pub fn read_inner_call(arguments: &str) -> (r: Option<InnerCall>)
    ensures
        r.v() == inner_call(arguments@),
{
    let document = match parse(arguments) {
        Some(document) => document,
        None => {
            return None;
        },
    };
    let name = match member(&document, "name") {
        Some(name) => match name.as_str() {
            Some(name) => name.to_owned(),
            None => {
                return None;
            },
        },
        None => {
            return None;
        },
    };
    let arguments = match member(&document, "arguments") {
        Some(inner) => Json::read(inner).text,
        None => "{}".to_owned(),
    };
    Some(InnerCall { name, arguments })
}

/// What the arguments of a carried call parse to.
pub open spec fn inner_document(inner: Option<InnerCallV>) -> Option<serde_json::Value> {
    match inner {
        Some(call) => json_parsed(call.arguments),
        None => None,
    }
}

/// Parses the arguments of a carried call.
pub fn read_inner_document(inner: &Option<InnerCall>) -> (r: Option<serde_json::Value>)
    ensures
        r == inner_document(inner.v()),
{
    match inner {
        Some(call) => parse(call.arguments.as_str()),
        None => None,
    }
}

/// Where a call goes: the tool that is recorded, who runs it, and what the
/// engine runs for it.
#[derive(Debug, PartialEq)]
pub struct Route {
    pub name: String,
    pub arguments: String,
    pub handler: ToolHandler,
    pub target: Option<ConnectorTarget>,
}

/// The value of [`Route`].
pub struct RouteV {
    pub name: Seq<char>,
    pub arguments: Seq<char>,
    pub handler: ToolHandler,
    pub target: Option<ConnectorTargetV>,
}

impl Model for Route {
    type V = RouteV;

    open spec fn v(&self) -> RouteV {
        RouteV {
            name: self.name.v(),
            arguments: self.arguments.v(),
            handler: self.handler.v(),
            target: self.target.v(),
        }
    }

    fn dup(&self) -> (r: Route) {
        Route {
            name: self.name.dup(),
            arguments: self.arguments.dup(),
            handler: self.handler.dup(),
            target: self.target.dup(),
        }
    }
}

impl Clone for Route {
    fn clone(&self) -> (r: Route)
        ensures
            r.v() == self.v(),
    {
        self.dup()
    }
}

pub open spec fn tool_called(name: Seq<char>) -> spec_fn(AgentToolV) -> bool {
    |t: AgentToolV| t.name == name
}

pub open spec fn offered_as(name: Seq<char>) -> spec_fn(ConnectorToolV) -> bool {
    |t: ConnectorToolV| t.name == name
}

/// What the engine runs for one of its tools.
pub open spec fn target_of(t: ConnectorToolV) -> Option<ConnectorTargetV> {
    match t.kind {
        ConnectorToolKind::Remote => match t.connector {
            Some(path) => Some(ConnectorTargetV::Remote { path, remote_name: t.remote_name }),
            None => None,
        },
        ConnectorToolKind::Find => Some(ConnectorTargetV::Find),
        ConnectorToolKind::Call => Some(ConnectorTargetV::Call),
        ConnectorToolKind::Skill => Some(ConnectorTargetV::Skill),
        ConnectorToolKind::Attachment => Some(ConnectorTargetV::Attachment),
        ConnectorToolKind::Subagent => None,
    }
}

impl SessionStateV {
    /// The tool of that name the agent at the head declares.
    pub open spec fn declared_tool(self, name: Seq<char>) -> Option<AgentToolV> {
        match self.agent_for(self.head_id) {
            Some(config) => first(config.tools, tool_called(name)),
            None => None,
        }
    }

    /// The tool of that name the engine offers at the head.
    pub open spec fn offered_tool(self, name: Seq<char>) -> Option<ConnectorToolV> {
        first(self.connector_tools(self.head_id).tools, offered_as(name))
    }

    /// Where a tool runs: a declared one where its declaration says, one of the
    /// engine's on the engine, any other on the worker. A subagent runs off a
    /// spawn, so its name stays the worker's.
    pub open spec fn tool_handler_for(self, name: Seq<char>) -> ToolHandler {
        match self.declared_tool(name) {
            Some(tool) => ToolHandler::of(tool.handler),
            None => match self.offered_tool(name) {
                Some(t) => if target_of(t) is Some {
                    ToolHandler::Server
                } else {
                    ToolHandler::Worker
                },
                None => ToolHandler::Worker,
            },
        }
    }

    /// What the engine runs for a tool. A declared tool is not the engine's.
    pub open spec fn tool_target_for(self, name: Seq<char>) -> Option<ConnectorTargetV> {
        match self.declared_tool(name) {
            Some(_) => None,
            None => match self.offered_tool(name) {
                Some(t) => target_of(t),
                None => None,
            },
        }
    }

    /// Where a call goes that carries no other.
    pub open spec fn direct_route(self, name: Seq<char>, arguments: Seq<char>) -> RouteV {
        RouteV {
            name,
            arguments,
            handler: self.tool_handler_for(name),
            target: self.tool_target_for(name),
        }
    }

    /// Where a call goes. `inner` is the call it carries, if it can be read, and
    /// `document` what the arguments of that parse to. A `call_tool` becomes the
    /// call it carries, if there is nothing wrong with that; else it stays, and
    /// reaches nothing.
    pub open spec fn route(
        self,
        name: Seq<char>,
        arguments: Seq<char>,
        inner: Option<InnerCallV>,
        document: Option<serde_json::Value>,
    ) -> RouteV {
        match (self.tool_target_for(name), inner) {
            (Some(ConnectorTargetV::Call), Some(call)) => if self.inner_fault(
                self.head_id,
                call,
                document,
            ) is None {
                self.direct_route(call.name, call.arguments)
            } else {
                self.direct_route(name, arguments)
            },
            _ => self.direct_route(name, arguments),
        }
    }
}

fn find_offered<'a>(tools: &'a Vec<ConnectorTool>, name: &str) -> (r: Option<&'a ConnectorTool>)
    ensures
        (match r {
            Some(t) => Some(t.v()),
            None => None,
        }) == first(tools.v(), offered_as(name@)),
{
    let ghost all = tools.v();
    let mut i: usize = 0;
    while i < tools.len()
        invariant
            i <= tools@.len(),
            all == tools.v(),
            forall|j: int| 0 <= j < i ==> !offered_as(name@)(#[trigger] all[j]),
        decreases tools@.len() - i,
    {
        assert(all[i as int] == tools@[i as int].v());
        if text::eq(tools[i].name.as_str(), name) {
            proof {
                lemma_position_is(all, offered_as(name@), i as int);
            }
            return Some(&tools[i]);
        }
        i = i + 1;
    }
    proof {
        lemma_position(all, offered_as(name@));
    }
    None
}

/// What the engine runs for one of its tools.
fn read_target(t: &ConnectorTool) -> (r: Option<ConnectorTarget>)
    ensures
        r.v() == target_of(t.v()),
{
    match t.kind {
        ConnectorToolKind::Remote => match &t.connector {
            Some(path) => Some(
                ConnectorTarget::Remote { path: path.dup(), remote_name: t.remote_name.dup() },
            ),
            None => None,
        },
        ConnectorToolKind::Find => Some(ConnectorTarget::Find),
        ConnectorToolKind::Call => Some(ConnectorTarget::Call),
        ConnectorToolKind::Skill => Some(ConnectorTarget::Skill),
        ConnectorToolKind::Attachment => Some(ConnectorTarget::Attachment),
        ConnectorToolKind::Subagent => None,
    }
}

/// What became of a tool call that asks for a file of the conversation.
#[derive(Debug, PartialEq)]
pub struct AttachmentCall {
    pub tool: AttachmentTool,
    /// The files on the path of the call.
    pub attachments: Vec<Attachment>,
}

/// The value of [`AttachmentCall`].
pub struct AttachmentCallV {
    pub tool: AttachmentTool,
    pub attachments: Seq<AttachmentV>,
}

impl Model for AttachmentCall {
    type V = AttachmentCallV;

    open spec fn v(&self) -> AttachmentCallV {
        AttachmentCallV {
            tool: self.tool.v(),
            attachments: self.attachments.v(),
        }
    }

    fn dup(&self) -> (r: AttachmentCall) {
        AttachmentCall {
            tool: self.tool.dup(),
            attachments: self.attachments.dup(),
        }
    }
}

impl Clone for AttachmentCall {
    fn clone(&self) -> (r: AttachmentCall)
        ensures
            r.v() == self.v(),
    {
        self.dup()
    }
}

pub open spec fn as_attachment() -> spec_fn(StoredContentV) -> Option<AttachmentV> {
    |part: StoredContentV|
        match part {
            StoredContentV::Attachment(a) => Some(a),
            _ => None,
        }
}

/// The files a message brought.
pub open spec fn brought(m: MessageV) -> Seq<AttachmentV> {
    match m.content {
        Some(ContentV::Parts(parts)) => collect(parts, as_attachment()),
        _ => Seq::empty(),
    }
}

pub open spec fn all_brought(messages: Seq<MessageV>) -> Seq<AttachmentV>
    decreases messages.len(),
{
    if messages.len() == 0 {
        Seq::empty()
    } else {
        all_brought(messages.drop_last()) + brought(messages.last())
    }
}

/// Which attachment tool a name calls.
pub open spec fn attachment_named(name: Seq<char>) -> Option<AttachmentTool> {
    if name == ATTACHMENT_READ@ {
        Some(AttachmentTool::Read)
    } else if name == ATTACHMENT_VIEW@ {
        Some(AttachmentTool::View)
    } else {
        None
    }
}

impl SessionStateV {
    /// The tool call of that id, if the engine loads a skill for it.
    pub open spec fn skill_call(self, id: Seq<char>) -> Option<ToolCallStateV> {
        match self.effect(EffectKind::ToolCall, id) {
            Some(e) => if e.tool()->0.target == Some(ConnectorTargetV::Skill) {
                e.tool()
            } else {
                None
            },
            None => None,
        }
    }

    /// The tool call of that id, if the engine reads a file for it, with the
    /// files that came before the call.
    pub open spec fn attachment_call(self, id: Seq<char>) -> Option<AttachmentCallV> {
        match self.effect(EffectKind::ToolCall, id) {
            Some(e) => if e.tool()->0.target == Some(ConnectorTargetV::Attachment) {
                match attachment_named(e.tool()->0.name) {
                    Some(tool) => Some(
                        AttachmentCallV {
                            tool,
                            attachments: all_brought(path(self.nodes, self.nodes.len(), e.anchor)),
                        },
                    ),
                    None => None,
                }
            } else {
                None
            },
            None => None,
        }
    }
}

fn take_brought(m: &Message) -> (r: Vec<Attachment>)
    ensures
        r.v() == brought(m.v()),
{
    let mut out: Vec<Attachment> = crate::model::none();
    match &m.content {
        Some(Content::Parts(parts)) => {
            let ghost all = parts.v();
            let mut i: usize = 0;
            assert(all.take(0) =~= Seq::empty());
            while i < parts.len()
                invariant
                    i <= parts@.len(),
                    all == parts.v(),
                    out.v() == collect(all.take(i as int), as_attachment()),
                decreases parts@.len() - i,
            {
                proof {
                    lemma_collect_step(all, as_attachment(), i as int);
                }
                assert(all[i as int] == parts@[i as int].v());
                if let StoredContent::Attachment(a) = &parts[i] {
                    append_one(&mut out, a.dup());
                }
                i = i + 1;
            }
            assert(all.take(i as int) =~= all);
        },
        _ => {},
    }
    out
}

fn take_all_brought(messages: &Vec<Message>) -> (r: Vec<Attachment>)
    ensures
        r.v() == all_brought(messages.v()),
{
    let ghost all = messages.v();
    let mut out: Vec<Attachment> = crate::model::none();
    let mut i: usize = 0;
    assert(all.take(0) =~= Seq::empty());
    while i < messages.len()
        invariant
            i <= messages@.len(),
            all == messages.v(),
            out.v() == all_brought(all.take(i as int)),
        decreases messages@.len() - i,
    {
        assert(all.take(i + 1).drop_last() =~= all.take(i as int));
        assert(all.take(i + 1).last() == messages@[i as int].v());
        extend(&mut out, take_brought(&messages[i]));
        i = i + 1;
    }
    assert(all.take(i as int) =~= all);
    out
}

impl SessionState {
    /// The tool of that name the agent at the head declares.
    pub fn declared_tool(&self, name: &str) -> (r: Option<&AgentTool>)
        ensures
            (match r {
                Some(t) => Some(t.v()),
                None => None,
            }) == self.v().declared_tool(name@),
    {
        match self.at_head().agent() {
            Some(config) => {
                let ghost all = config.tools.v();
                let mut i: usize = 0;
                while i < config.tools.len()
                    invariant
                        i <= config.tools@.len(),
                        all == config.tools.v(),
                        self.v().agent_for(self.v().head_id) == Some(config.v()),
                        forall|j: int| 0 <= j < i ==> !tool_called(name@)(#[trigger] all[j]),
                    decreases config.tools@.len() - i,
                {
                    assert(all[i as int] == config.tools@[i as int].v());
                    if text::eq(config.tools[i].name.as_str(), name) {
                        proof {
                            lemma_position_is(all, tool_called(name@), i as int);
                        }
                        return Some(&config.tools[i]);
                    }
                    i = i + 1;
                }
                proof {
                    lemma_position(all, tool_called(name@));
                }
                None
            },
            None => None,
        }
    }

    /// The tool of that name the engine offers at the head.
    pub fn offered_tool(&self, name: &str) -> (r: Option<ConnectorTool>)
        ensures
            r.v() == self.v().offered_tool(name@),
    {
        let offer = self.at_head().connector_tools();
        match find_offered(&offer.tools, name) {
            Some(t) => Some(t.dup()),
            None => None,
        }
    }

    /// Where a tool runs.
    pub fn tool_handler_for(&self, name: &str) -> (r: ToolHandler)
        ensures
            r == self.v().tool_handler_for(name@),
    {
        match self.declared_tool(name) {
            Some(tool) => ToolHandler::declared(tool.handler),
            None => if self.tool_target_for(name).is_some() {
                ToolHandler::Server
            } else {
                ToolHandler::Worker
            },
        }
    }

    /// What the engine runs for a tool.
    pub fn tool_target_for(&self, name: &str) -> (r: Option<ConnectorTarget>)
        ensures
            r.v() == self.v().tool_target_for(name@),
    {
        match self.declared_tool(name) {
            Some(_) => None,
            None => match self.offered_tool(name) {
                Some(t) => read_target(&t),
                None => None,
            },
        }
    }

    fn direct_route(&self, name: String, arguments: String) -> (r: Route)
        ensures
            r.v() == self.v().direct_route(name@, arguments@),
    {
        let handler = self.tool_handler_for(&name);
        let target = self.tool_target_for(&name);
        Route { name, arguments, handler, target }
    }

    /// Where a call goes. `inner` is the call it carries, if it can be read, and
    /// `document` what the arguments of that parse to.
    pub fn route(
        &self,
        name: String,
        arguments: String,
        inner: Option<InnerCall>,
        document: Option<serde_json::Value>,
    ) -> (r: Route)
        ensures
            r.v() == self.v().route(name@, arguments@, inner.v(), document),
    {
        match (self.tool_target_for(&name), inner) {
            (Some(ConnectorTarget::Call), Some(call)) => if self.at_head().inner_fault(
                &call,
                &document,
            ).is_none() {
                self.direct_route(call.name, call.arguments)
            } else {
                self.direct_route(name, arguments)
            },
            _ => self.direct_route(name, arguments),
        }
    }

    /// The tool call of that id, if the engine loads a skill for it.
    pub fn skill_call(&self, id: &str) -> (r: Option<&ToolCallState>)
        ensures
            (match r {
                Some(t) => Some(t.v()),
                None => None,
            }) == self.v().skill_call(id@),
    {
        proof {
            lemma_position(self.v().effects, named(EffectKind::ToolCall, id@));
        }
        match self.effect(EffectKind::ToolCall, id) {
            Some(e) => match e.tool() {
                Some(tool) => match &tool.target {
                    Some(ConnectorTarget::Skill) => Some(tool),
                    _ => None,
                },
                None => None,
            },
            None => None,
        }
    }

    /// The tool call of that id, if the engine reads a file for it.
    pub fn attachment_call(&self, id: &str) -> (r: Option<AttachmentCall>)
        ensures
            r.v() == self.v().attachment_call(id@),
    {
        proof {
            lemma_position(self.v().effects, named(EffectKind::ToolCall, id@));
        }
        let e = match self.effect(EffectKind::ToolCall, id) {
            Some(e) => e,
            None => {
                return None;
            },
        };
        let tool = match e.tool() {
            Some(tool) => tool,
            None => {
                return None;
            },
        };
        match &tool.target {
            Some(ConnectorTarget::Attachment) => {},
            _ => {
                return None;
            },
        }
        let kind = if text::eq(tool.name.as_str(), ATTACHMENT_READ) {
            AttachmentTool::Read
        } else if text::eq(tool.name.as_str(), ATTACHMENT_VIEW) {
            AttachmentTool::View
        } else {
            return None;
        };
        let messages = match as_text(&e.anchor) {
            Some(anchor) => self.message_tree().path_to(anchor),
            None => crate::model::none(),
        };
        Some(AttachmentCall { tool: kind, attachments: take_all_brought(&messages) })
    }
}

} // verus!
