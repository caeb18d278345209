//! The tools the engine offers beside the ones an agent declares.
//!
//! Nothing here is stored. What a connection offered is on record, and the
//! config in force says what becomes of it.
pub mod laws;
pub mod notices;
pub mod routes;
pub mod search;

use crate::model::{
    any, append_one, collect, extend, lemma_collect_step, lemma_position, one, text_of, Model,
};
use crate::protocol::config::{
    AgentConfig, AgentConfigV, AgentPluginV, AgentTool, AgentToolV, Approve, AttachmentTool,
    BoundServer, BoundServerV, ConnectionPath, ConnectionPathV, ConnectorProtocol, ConnectorTool,
    ConnectorToolKind, ConnectorToolV, McpTools, McpToolsV, Subagent, SubagentTools,
    SubagentToolsStrategy, SubagentV, CALL_TOOL, SKILL, SUBAGENT, SUBAGENT_WAIT, TOOL_SEARCH,
};
use crate::protocol::effect::{EffectKind, EffectStatus};
use crate::protocol::json::{json_parsed, json_value, parse, Json, JsonV};
use crate::protocol::llm::{LlmTool, LlmToolV};
use crate::session::effects::connector::servers_for;
use crate::session::events::{RemoteTool, RemoteToolV, ToolAnnotations};
use crate::session::state::{ConnectorSync, SessionState, SessionStateV};
use crate::session::tree::At;
use crate::text;
use vstd::prelude::*;

verus! {

pub const ATTACHMENT_READ: &'static str = "attachment_read";

pub const ATTACHMENT_VIEW: &'static str = "attachment_view";

pub open spec fn fits_some(patterns: Seq<Seq<char>>, name: Seq<char>) -> bool {
    exists|i: int| 0 <= i < patterns.len() && text::fits(#[trigger] patterns[i], name)
}

/// Whether a filter lets a tool of a connection through. A predicate asks for
/// the annotation, so a tool without it fails.
pub open spec fn passes(filter: Option<McpToolsV>, t: RemoteToolV) -> bool {
    match filter {
        None => true,
        Some(f) => {
            let a = t.annotations;
            (f.read_only == Some(true) ==> a.read_only == Some(true)) && (f.non_destructive == Some(
                true,
            ) ==> a.destructive == Some(false)) && (f.idempotent == Some(true) ==> a.idempotent
                == Some(true)) && (f.only.len() > 0 ==> fits_some(f.only, t.name)) && !fits_some(
                f.exclude,
                t.name,
            )
        },
    }
}

/// The name the model sees.
pub open spec fn prefixed(prefix: Option<Seq<char>>, name: Seq<char>) -> Seq<char> {
    match prefix {
        Some(prefix) => prefix + "__"@ + name,
        None => name,
    }
}

/// Whether a call to a tool stops for a person.
pub open spec fn needs_approval(approve: Approve, a: ToolAnnotations) -> bool {
    match approve {
        Approve::Never => false,
        Approve::Destructive => a.destructive == Some(true),
        Approve::Always => true,
    }
}

/// Whether a server's tools stay out of the request, where the agent says
/// `default`.
pub open spec fn server_defers(server: BoundServerV, default: bool) -> bool {
    match server.tools {
        Some(tools) => match tools.defer {
            Some(defer) => defer,
            None => default,
        },
        None => default,
    }
}

/// A tool of a connection as the engine offers it, if the filter lets it
/// through.
pub open spec fn remote(server: BoundServerV, prefix: Option<Seq<char>>, default: bool) -> spec_fn(
    RemoteToolV,
) -> Option<ConnectorToolV> {
    |t: RemoteToolV|
        if passes(server.tools, t) {
            Some(
                ConnectorToolV {
                    name: prefixed(prefix, t.name),
                    description: t.description,
                    input: t.input,
                    output: t.output,
                    connector: Some(server.path),
                    via: ConnectorProtocol::Mcp,
                    remote_name: t.name,
                    kind: ConnectorToolKind::Remote,
                    defer: server_defers(server, default),
                    approve: needs_approval(server.approve, t.annotations),
                },
            )
        } else {
            None
        }
}

/// A tool of the engine's own.
pub open spec fn own(
    name: Seq<char>,
    description: Seq<char>,
    input: Option<JsonV>,
    kind: ConnectorToolKind,
) -> ConnectorToolV {
    ConnectorToolV {
        name,
        description,
        input,
        output: None,
        connector: None,
        via: ConnectorProtocol::Mcp,
        remote_name: name,
        kind,
        defer: false,
        approve: false,
    }
}

pub const TAKES_MESSAGE: &'static str =
    "{\"properties\":{\"message\":{\"type\":\"string\"}},\"required\":[\"message\"],\"type\":\"object\"}";

pub const TAKES_AGENT: &'static str =
    "{\"properties\":{\"agent\":{\"type\":\"string\"},\"message\":{\"type\":\"string\"}},\"required\":[\"agent\",\"message\"],\"type\":\"object\"}";

pub const TAKES_SESSION: &'static str =
    "{\"properties\":{\"session_id\":{\"type\":\"string\"}},\"required\":[\"session_id\"],\"type\":\"object\"}";

pub const TAKES_NAME: &'static str =
    "{\"properties\":{\"name\":{\"type\":\"string\"}},\"required\":[\"name\"],\"type\":\"object\"}";

pub const TAKES_ATTACHMENT: &'static str =
    "{\"properties\":{\"attachment\":{\"type\":\"string\"}},\"required\":[\"attachment\"],\"type\":\"object\"}";

pub const TAKES_QUERY: &'static str =
    "{\"properties\":{\"query\":{\"type\":\"string\"}},\"required\":[\"query\"],\"type\":\"object\"}";

pub const TAKES_CALL: &'static str =
    "{\"properties\":{\"arguments\":{\"type\":\"object\"},\"name\":{\"type\":\"string\"}},\"required\":[\"name\"],\"type\":\"object\"}";

/// A schema from its text.
pub open spec fn schema(text: Seq<char>) -> Option<JsonV> {
    match json_parsed(text) {
        Some(document) => Some(json_value(document)),
        None => None,
    }
}

/// A schema from its text.
fn read_schema(text: &str) -> (r: Option<Json>)
    ensures
        r.v() == schema(text@),
{
    match parse(text) {
        Some(document) => Some(Json::read(&document)),
        None => None,
    }
}

/// The tool that calls a subagent.
pub open spec fn subagent_tool(default: bool) -> spec_fn(SubagentV) -> ConnectorToolV {
    |s: SubagentV|
        ConnectorToolV {
            name: s.offered_name(),
            description: s.description,
            input: schema(TAKES_MESSAGE@),
            output: None,
            connector: Some(ConnectionPathV::Agent(s.id)),
            via: ConnectorProtocol::Agent,
            remote_name: s.id,
            kind: ConnectorToolKind::Subagent,
            defer: match s.defer {
                Some(defer) => defer,
                None => default,
            },
            approve: false,
        }
}

/// The tools that reach an agent's subagents, unless the session is too deep
/// to delegate.
pub open spec fn subagent_tools(config: AgentConfigV, depth: nat) -> Seq<ConnectorToolV> {
    if config.subagents.len() == 0 || depth >= config.depth_limit() {
        Seq::empty()
    } else {
        let single = config.subagent_tools is Some && config.subagent_tools->0.strategy
            == SubagentToolsStrategy::Single;
        let calls = if single {
            seq![
                own(
                    SUBAGENT@,
                    "Start a subagent."@,
                    schema(TAKES_AGENT@),
                    ConnectorToolKind::Subagent,
                ),
            ]
        } else {
            config.subagents.map_values(subagent_tool(config.defer_tools is Some))
        };
        if config.subagent_tools is Some && config.subagent_tools->0.wait == Some(false) {
            calls
        } else {
            calls.push(
                own(
                    SUBAGENT_WAIT@,
                    "Wait for a subagent's result."@,
                    schema(TAKES_SESSION@),
                    ConnectorToolKind::Subagent,
                ),
            )
        }
    }
}

pub open spec fn has_skills() -> spec_fn(AgentPluginV) -> bool {
    |p: AgentPluginV| p.skills.len() > 0
}

/// The tool that loads a skill, where a plugin has one.
pub open spec fn skill_tools(config: AgentConfigV) -> Seq<ConnectorToolV> {
    if any(config.plugins, has_skills()) {
        seq![
            own(
                SKILL@,
                "Load the instructions of a skill."@,
                schema(TAKES_NAME@),
                ConnectorToolKind::Skill,
            ),
        ]
    } else {
        Seq::empty()
    }
}

pub open spec fn attachment_tool(tool: AttachmentTool) -> ConnectorToolV {
    match tool {
        AttachmentTool::Read => own(
            ATTACHMENT_READ@,
            "Read an attachment as text."@,
            schema(TAKES_ATTACHMENT@),
            ConnectorToolKind::Attachment,
        ),
        AttachmentTool::View => own(
            ATTACHMENT_VIEW@,
            "Look at an attachment."@,
            schema(TAKES_ATTACHMENT@),
            ConnectorToolKind::Attachment,
        ),
    }
}

pub open spec fn if_declared(declared: Seq<AttachmentTool>, tool: AttachmentTool) -> Seq<
    ConnectorToolV,
> {
    if declared.contains(tool) {
        seq![attachment_tool(tool)]
    } else {
        Seq::empty()
    }
}

/// The tools that reach the files of a conversation, in the order of their
/// names.
pub open spec fn attachment_tools(config: AgentConfigV) -> Seq<ConnectorToolV> {
    match config.attachments {
        Some(attachments) => if_declared(attachments.tools, AttachmentTool::Read) + if_declared(
            attachments.tools,
            AttachmentTool::View,
        ),
        None => Seq::empty(),
    }
}

pub open spec fn is_deferred() -> spec_fn(ConnectorToolV) -> bool {
    |t: ConnectorToolV| t.defer
}

/// Whether a declared tool stays out of the request, where the agent says
/// `default`.
pub open spec fn declared_defers(t: AgentToolV, default: bool) -> bool {
    match t.defer {
        Some(defer) => defer,
        None => default,
    }
}

pub open spec fn deferring(default: bool) -> spec_fn(AgentToolV) -> bool {
    |t: AgentToolV| declared_defers(t, default)
}

/// The tools that find and call the deferred ones.
pub open spec fn search_tools() -> Seq<ConnectorToolV> {
    seq![
        own(
            TOOL_SEARCH@,
            "Search the tools that are not listed."@,
            schema(TAKES_QUERY@),
            ConnectorToolKind::Find,
        ),
        own(
            CALL_TOOL@,
            "Call a tool by its name."@,
            schema(TAKES_CALL@),
            ConnectorToolKind::Call,
        ),
    ]
}

/// Whether an agent gets the search: it defers its tools, or one of them is
/// deferred.
pub open spec fn searches(config: AgentConfigV, tools: Seq<ConnectorToolV>) -> bool {
    config.defer_tools is Some || any(config.tools, deferring(false)) || any(tools, is_deferred())
}

pub open spec fn declares(config: AgentConfigV, name: Seq<char>) -> bool {
    exists|i: int| 0 <= i < config.tools.len() && (#[trigger] config.tools[i]).name == name
}

/// Whether two of the tools share the name.
pub open spec fn twice(tools: Seq<ConnectorToolV>, name: Seq<char>) -> bool {
    exists|i: int, j: int|
        0 <= i < j < tools.len() && (#[trigger] tools[i]).name == name && (
        #[trigger] tools[j]).name == name
}

/// Whether a name cannot be offered: the agent declared it, or two tools claim
/// it.
pub open spec fn contested(config: AgentConfigV, tools: Seq<ConnectorToolV>, name: Seq<char>) -> bool {
    declares(config, name) || twice(tools, name)
}

pub open spec fn uncontested(config: AgentConfigV, tools: Seq<ConnectorToolV>) -> spec_fn(
    ConnectorToolV,
) -> Option<ConnectorToolV> {
    |t: ConnectorToolV|
        if contested(config, tools, t.name) {
            None
        } else {
            Some(t)
        }
}

/// The contested names, each once, in the order of the tools.
pub open spec fn collisions(config: AgentConfigV, tools: Seq<ConnectorToolV>, n: int) -> Seq<
    Seq<char>,
>
    decreases n,
{
    if n <= 0 {
        Seq::empty()
    } else {
        let before = collisions(config, tools, n - 1);
        let name = tools[n - 1].name;
        if contested(config, tools, name) && !before.contains(name) {
            before.push(name)
        } else {
            before
        }
    }
}

/// What the engine offers, and the names it could not.
#[derive(Debug, PartialEq)]
pub struct Offer {
    pub tools: Vec<ConnectorTool>,
    pub collisions: Vec<String>,
}

/// The value of [`Offer`].
pub struct OfferV {
    pub tools: Seq<ConnectorToolV>,
    pub collisions: Seq<Seq<char>>,
}

impl Model for Offer {
    type V = OfferV;

    open spec fn v(&self) -> OfferV {
        OfferV {
            tools: self.tools.v(),
            collisions: self.collisions.v(),
        }
    }

    fn dup(&self) -> (r: Offer) {
        Offer {
            tools: self.tools.dup(),
            collisions: self.collisions.dup(),
        }
    }
}

impl Clone for Offer {
    fn clone(&self) -> (r: Offer)
        ensures
            r.v() == self.v(),
    {
        self.dup()
    }
}

impl SessionStateV {
    /// What a server's connection offered, if its fetch went well.
    pub open spec fn server_tools(self, server: BoundServerV, default: bool) -> Seq<ConnectorToolV> {
        match self.effect(EffectKind::ConnectorSync, server.path.written()) {
            Some(e) => if e.tracking.state == EffectStatus::Completed {
                let sync = e.connector()->0;
                collect(sync.tools, remote(server, sync.prefix, default))
            } else {
                Seq::empty()
            },
            None => Seq::empty(),
        }
    }

    pub open spec fn servers_tools(self, servers: Seq<BoundServerV>, default: bool) -> Seq<
        ConnectorToolV,
    >
        decreases servers.len(),
    {
        if servers.len() == 0 {
            Seq::empty()
        } else {
            self.servers_tools(servers.drop_last(), default) + self.server_tools(
                servers.last(),
                default,
            )
        }
    }

    /// The tools the engine has for an agent, whoever else claims their names.
    #[verifier::opaque]
    pub open spec fn engine_tools(self, config: AgentConfigV) -> Seq<ConnectorToolV> {
        let found = self.servers_tools(servers_for(config), config.defer_tools is Some)
            + subagent_tools(config, self.ancestry.len()) + skill_tools(config) + attachment_tools(
            config,
        );
        if searches(config, found) {
            found + search_tools()
        } else {
            found
        }
    }

    /// What the engine offers an agent, and the names it could not.
    pub open spec fn offer(self, config: AgentConfigV) -> OfferV {
        let all = self.engine_tools(config);
        OfferV {
            tools: collect(all, uncontested(config, all)),
            collisions: collisions(config, all, all.len() as int),
        }
    }

    /// What the engine offers at a place in the conversation.
    pub open spec fn connector_tools(self, node: Option<Seq<char>>) -> OfferV {
        match self.agent_for(node) {
            Some(config) => self.offer(config),
            None => OfferV { tools: Seq::empty(), collisions: Seq::empty() },
        }
    }
}

impl ConnectorToolV {
    /// The tool as a request lists it.
    pub open spec fn listed(self) -> LlmToolV {
        LlmToolV {
            name: self.name,
            description: self.description,
            input: self.input,
            output: self.output,
            defer: self.defer,
        }
    }
}

/// A declared tool as a request lists it.
pub open spec fn listed_as(default: bool) -> spec_fn(AgentToolV) -> LlmToolV {
    |t: AgentToolV|
        LlmToolV {
            name: t.name,
            description: t.description,
            input: t.input,
            output: t.output,
            defer: declared_defers(t, default),
        }
}

impl ConnectorTool {
    /// The tool as a request lists it.
    pub fn to_llm_tool(&self) -> (r: LlmTool)
        ensures
            r.v() == self.v().listed(),
    {
        LlmTool {
            name: self.name.dup(),
            description: self.description.dup(),
            input: self.input.dup(),
            output: self.output.dup(),
            defer: self.defer,
        }
    }
}

impl AgentConfig {
    /// The declared tools as a request lists them, if there are any.
    pub fn tools_as_llm(&self) -> (r: Option<Vec<LlmTool>>)
        ensures
            r.v() == (if self.v().tools.len() == 0 {
                None
            } else {
                Some(self.v().tools.map_values(listed_as(self.v().defer_tools is Some)))
            }),
    {
        if self.tools.len() == 0 {
            return None;
        }
        let default = self.defers_tools();
        let ghost all = self.tools.v().map_values(listed_as(default));
        let mut out: Vec<LlmTool> = crate::model::none();
        let mut i: usize = 0;
        assert(out.v() =~= all.take(0));
        while i < self.tools.len()
            invariant
                i <= self.tools@.len(),
                default == (self.v().defer_tools is Some),
                all == self.tools.v().map_values(listed_as(default)),
                out.v() == all.take(i as int),
            decreases self.tools@.len() - i,
        {
            let t = &self.tools[i];
            append_one(
                &mut out,
                LlmTool {
                    name: t.name.dup(),
                    description: t.description.dup(),
                    input: t.input.dup(),
                    output: t.output.dup(),
                    defer: defers_declared(t, default),
                },
            );
            i = i + 1;
            assert(out.v() =~= all.take(i as int));
        }
        assert(all.take(i as int) =~= all);
        Some(out)
    }

    /// Whether the agent declares a tool of that name.
    pub fn declares(&self, name: &str) -> (r: bool)
        ensures
            r == declares(self.v(), name@),
    {
        let mut i: usize = 0;
        while i < self.tools.len()
            invariant
                i <= self.tools@.len(),
                forall|j: int| 0 <= j < i ==> (#[trigger] self.v().tools[j]).name != name@,
            decreases self.tools@.len() - i,
        {
            assert(self.v().tools[i as int] == self.tools@[i as int].v());
            if text::eq(self.tools[i].name.as_str(), name) {
                return true;
            }
            i = i + 1;
        }
        false
    }
}

fn defers_declared(t: &AgentTool, default: bool) -> (r: bool)
    ensures
        r == declared_defers(t.v(), default),
{
    match t.defer {
        Some(defer) => defer,
        None => default,
    }
}

fn some_fits(patterns: &Vec<String>, name: &str) -> (r: bool)
    ensures
        r == fits_some(patterns.v(), name@),
{
    let mut i: usize = 0;
    while i < patterns.len()
        invariant
            i <= patterns@.len(),
            forall|j: int| 0 <= j < i ==> !text::fits(#[trigger] patterns.v()[j], name@),
        decreases patterns@.len() - i,
    {
        assert(patterns.v()[i as int] == patterns@[i as int]@);
        if text::glob(patterns[i].as_str(), name) {
            return true;
        }
        i = i + 1;
    }
    false
}

fn lets_through(filter: &Option<McpTools>, t: &RemoteTool) -> (r: bool)
    ensures
        r == passes(filter.v(), t.v()),
{
    match filter {
        None => true,
        Some(f) => {
            if f.read_only == Some(true) && t.annotations.read_only != Some(true) {
                return false;
            }
            if f.non_destructive == Some(true) && t.annotations.destructive != Some(false) {
                return false;
            }
            if f.idempotent == Some(true) && t.annotations.idempotent != Some(true) {
                return false;
            }
            if f.only.len() > 0 && !some_fits(&f.only, t.name.as_str()) {
                return false;
            }
            !some_fits(&f.exclude, t.name.as_str())
        },
    }
}

fn from_remote(server: &BoundServer, prefix: &Option<String>, default: bool, t: &RemoteTool) -> (r:
    ConnectorTool)
    requires
        passes(server.v().tools, t.v()),
    ensures
        Some(r.v()) == remote(server.v(), prefix.v(), default)(t.v()),
{
    let name = match prefix {
        Some(prefix) => prefix.dup().concat("__").concat(t.name.as_str()),
        None => t.name.dup(),
    };
    let defer = match &server.tools {
        Some(tools) => match tools.defer {
            Some(defer) => defer,
            None => default,
        },
        None => default,
    };
    let approve = match server.approve {
        Approve::Never => false,
        Approve::Destructive => t.annotations.destructive == Some(true),
        Approve::Always => true,
    };
    ConnectorTool {
        name,
        description: t.description.dup(),
        input: t.input.dup(),
        output: t.output.dup(),
        connector: Some(server.path.dup()),
        via: ConnectorProtocol::Mcp,
        remote_name: t.name.dup(),
        kind: ConnectorToolKind::Remote,
        defer,
        approve,
    }
}

fn own_tool(name: &str, description: &str, input: &str, kind: ConnectorToolKind) -> (r: ConnectorTool)
    ensures
        r.v() == own(name@, description@, schema(input@), kind),
{
    ConnectorTool {
        name: name.to_owned(),
        description: description.to_owned(),
        input: read_schema(input),
        output: None,
        connector: None,
        via: ConnectorProtocol::Mcp,
        remote_name: name.to_owned(),
        kind,
        defer: false,
        approve: false,
    }
}

fn reach_subagents(config: &AgentConfig, depth: usize) -> (r: Vec<ConnectorTool>)
    ensures
        r.v() == subagent_tools(config.v(), depth as nat),
{
    if config.subagents.len() == 0 || depth as u64 >= config.depth_limit() as u64 {
        return crate::model::none();
    }
    let default = config.defers_tools();
    let mut out: Vec<ConnectorTool> = crate::model::none();
    if config.subagent_strategy() == SubagentToolsStrategy::Single {
        append_one(
            &mut out,
            own_tool(SUBAGENT, "Start a subagent.", TAKES_AGENT, ConnectorToolKind::Subagent),
        );
        assert(out.v() =~= seq![
            own(
                SUBAGENT@,
                "Start a subagent."@,
                schema(TAKES_AGENT@),
                ConnectorToolKind::Subagent,
            ),
        ]);
    } else {
        let ghost all = config.v().subagents.map_values(subagent_tool(default));
        let mut i: usize = 0;
        assert(out.v() =~= all.take(0));
        while i < config.subagents.len()
            invariant
                i <= config.subagents@.len(),
                all == config.v().subagents.map_values(subagent_tool(default)),
                out.v() == all.take(i as int),
            decreases config.subagents@.len() - i,
        {
            let s = &config.subagents[i];
            append_one(
                &mut out,
                ConnectorTool {
                    name: s.offered_name(),
                    description: s.description.dup(),
                    input: read_schema(TAKES_MESSAGE),
                    output: None,
                    connector: Some(ConnectionPath::Agent(s.id.dup())),
                    via: ConnectorProtocol::Agent,
                    remote_name: s.id.dup(),
                    kind: ConnectorToolKind::Subagent,
                    defer: s.defers(default),
                    approve: false,
                },
            );
            i = i + 1;
            assert(out.v() =~= all.take(i as int));
        }
        assert(all.take(i as int) =~= all);
    }
    if SubagentTools::wait_of(config.subagent_tools) {
        append_one(
            &mut out,
            own_tool(
                SUBAGENT_WAIT,
                "Wait for a subagent's result.",
                TAKES_SESSION,
                ConnectorToolKind::Subagent,
            ),
        );
    }
    out
}

fn load_skills(config: &AgentConfig) -> (r: Vec<ConnectorTool>)
    ensures
        r.v() == skill_tools(config.v()),
{
    let mut i: usize = 0;
    while i < config.plugins.len()
        invariant
            i <= config.plugins@.len(),
            forall|j: int| 0 <= j < i ==> !has_skills()(#[trigger] config.v().plugins[j]),
        decreases config.plugins@.len() - i,
    {
        assert(config.v().plugins[i as int] == config.plugins@[i as int].v());
        if config.plugins[i].skills.len() > 0 {
            assert(has_skills()(config.v().plugins[i as int]));
            return one(
                own_tool(
                    SKILL,
                    "Load the instructions of a skill.",
                    TAKES_NAME,
                    ConnectorToolKind::Skill,
                ),
            );
        }
        i = i + 1;
    }
    crate::model::none()
}

fn has_tool(declared: &Vec<AttachmentTool>, tool: AttachmentTool) -> (r: bool)
    ensures
        r == declared.v().contains(tool),
{
    let mut i: usize = 0;
    while i < declared.len()
        invariant
            i <= declared@.len(),
            forall|j: int| 0 <= j < i ==> #[trigger] declared.v()[j] != tool,
        decreases declared@.len() - i,
    {
        assert(declared.v()[i as int] == declared@[i as int]);
        if declared[i] == tool {
            return true;
        }
        i = i + 1;
    }
    false
}

fn reach_attachments(config: &AgentConfig) -> (r: Vec<ConnectorTool>)
    ensures
        r.v() == attachment_tools(config.v()),
{
    let mut out: Vec<ConnectorTool> = crate::model::none();
    match &config.attachments {
        Some(attachments) => {
            if has_tool(&attachments.tools, AttachmentTool::Read) {
                append_one(
                    &mut out,
                    own_tool(
                        ATTACHMENT_READ,
                        "Read an attachment as text.",
                        TAKES_ATTACHMENT,
                        ConnectorToolKind::Attachment,
                    ),
                );
            }
            if has_tool(&attachments.tools, AttachmentTool::View) {
                append_one(
                    &mut out,
                    own_tool(
                        ATTACHMENT_VIEW,
                        "Look at an attachment.",
                        TAKES_ATTACHMENT,
                        ConnectorToolKind::Attachment,
                    ),
                );
            }
            assert(out.v() =~= attachment_tools(config.v()));
        },
        None => {},
    }
    out
}

fn gets_search(config: &AgentConfig, tools: &Vec<ConnectorTool>) -> (r: bool)
    ensures
        r == searches(config.v(), tools.v()),
{
    if config.defers_tools() {
        return true;
    }
    let ghost declared = config.v().tools;
    let mut i: usize = 0;
    while i < config.tools.len()
        invariant
            i <= config.tools@.len(),
            declared == config.v().tools,
            forall|j: int| 0 <= j < i ==> !deferring(false)(#[trigger] declared[j]),
        decreases config.tools@.len() - i,
    {
        assert(declared[i as int] == config.tools@[i as int].v());
        if defers_declared(&config.tools[i], false) {
            assert(deferring(false)(declared[i as int]));
            return true;
        }
        i = i + 1;
    }
    let ghost all = tools.v();
    let mut k: usize = 0;
    while k < tools.len()
        invariant
            k <= tools@.len(),
            all == tools.v(),
            forall|j: int| 0 <= j < k ==> !is_deferred()(#[trigger] all[j]),
        decreases tools@.len() - k,
    {
        assert(all[k as int] == tools@[k as int].v());
        if tools[k].defer {
            assert(is_deferred()(all[k as int]));
            return true;
        }
        k = k + 1;
    }
    false
}

fn is_twice(tools: &Vec<ConnectorTool>, name: &str) -> (r: bool)
    ensures
        r == twice(tools.v(), name@),
{
    let ghost all = tools.v();
    let mut seen = false;
    let ghost mut at: int = 0;
    let mut i: usize = 0;
    while i < tools.len()
        invariant
            i <= tools@.len(),
            all == tools.v(),
            seen ==> 0 <= at < i && all[at].name == name@,
            forall|j: int| 0 <= j < i && (#[trigger] all[j]).name == name@ ==> seen && j == at,
        decreases tools@.len() - i,
    {
        assert(all[i as int] == tools@[i as int].v());
        if text::eq(tools[i].name.as_str(), name) {
            if seen {
                assert(all[at].name == name@ && all[i as int].name == name@);
                return true;
            }
            seen = true;
            proof {
                at = i as int;
            }
        }
        i = i + 1;
    }
    false
}

fn in_texts(texts: &Vec<String>, text: &str) -> (r: bool)
    ensures
        r == texts.v().contains(text@),
{
    let mut i: usize = 0;
    while i < texts.len()
        invariant
            i <= texts@.len(),
            forall|j: int| 0 <= j < i ==> #[trigger] texts.v()[j] != text@,
        decreases texts@.len() - i,
    {
        assert(texts.v()[i as int] == texts@[i as int]@);
        if text::eq(texts[i].as_str(), text) {
            return true;
        }
        i = i + 1;
    }
    false
}

impl SessionState {
    pub(crate) fn tools_of_server(&self, server: &BoundServer, default: bool) -> (r: Vec<ConnectorTool>)
        ensures
            r.v() == self.v().server_tools(server.v(), default),
    {
        let id = server.path.to_string();
        let mut out: Vec<ConnectorTool> = crate::model::none();
        proof {
            lemma_position(
                self.v().effects,
                crate::session::state::named(EffectKind::ConnectorSync, id@),
            );
        }
        match self.effect(EffectKind::ConnectorSync, &id) {
            Some(e) => if e.tracking.state == EffectStatus::Completed {
                match e.connector() {
                    Some(sync) => {
                        let ghost all = sync.tools.v();
                        let ghost f = remote(server.v(), sync.prefix.v(), default);
                        let mut i: usize = 0;
                        assert(all.take(0) =~= Seq::empty());
                        while i < sync.tools.len()
                            invariant
                                i <= sync.tools@.len(),
                                all == sync.tools.v(),
                                f == remote(server.v(), sync.prefix.v(), default),
                                out.v() == collect(all.take(i as int), f),
                            decreases sync.tools@.len() - i,
                        {
                            proof {
                                lemma_collect_step(all, f, i as int);
                            }
                            let t = &sync.tools[i];
                            assert(all[i as int] == t.v());
                            if lets_through(&server.tools, t) {
                                append_one(&mut out, from_remote(server, &sync.prefix, default, t));
                            }
                            i = i + 1;
                        }
                        assert(all.take(i as int) =~= all);
                    },
                    None => {},
                }
            },
            None => {},
        }
        out
    }

    fn tools_of_servers(&self, servers: &Vec<BoundServer>, default: bool) -> (r: Vec<ConnectorTool>)
        ensures
            r.v() == self.v().servers_tools(servers.v(), default),
    {
        let ghost all = servers.v();
        let mut out: Vec<ConnectorTool> = crate::model::none();
        let mut i: usize = 0;
        assert(all.take(0) =~= Seq::empty());
        while i < servers.len()
            invariant
                i <= servers@.len(),
                all == servers.v(),
                out.v() == self.v().servers_tools(all.take(i as int), default),
            decreases servers@.len() - i,
        {
            assert(all.take(i + 1).drop_last() =~= all.take(i as int));
            assert(all.take(i + 1).last() == servers@[i as int].v());
            extend(&mut out, self.tools_of_server(&servers[i], default));
            i = i + 1;
        }
        assert(all.take(i as int) =~= all);
        out
    }

    fn engine_tools(&self, config: &AgentConfig) -> (r: Vec<ConnectorTool>)
        ensures
            r.v() == self.v().engine_tools(config.v()),
    {
        proof {
            reveal(SessionStateV::engine_tools);
        }
        let servers = self.servers_for(config);
        let mut out = self.tools_of_servers(&servers, config.defers_tools());
        extend(&mut out, reach_subagents(config, self.ancestry.len()));
        extend(&mut out, load_skills(config));
        extend(&mut out, reach_attachments(config));
        if gets_search(config, &out) {
            append_one(
                &mut out,
                own_tool(
                    TOOL_SEARCH,
                    "Search the tools that are not listed.",
                    TAKES_QUERY,
                    ConnectorToolKind::Find,
                ),
            );
            append_one(
                &mut out,
                own_tool(
                    CALL_TOOL,
                    "Call a tool by its name.",
                    TAKES_CALL,
                    ConnectorToolKind::Call,
                ),
            );
        }
        assert(out.v() =~= self.v().engine_tools(config.v()));
        out
    }

    /// What the engine offers an agent, and the names it could not.
    pub fn offer(&self, config: &AgentConfig) -> (r: Offer)
        ensures
            r.v() == self.v().offer(config.v()),
    {
        let all_tools = self.engine_tools(config);
        let ghost all = all_tools.v();
        let ghost keep = uncontested(config.v(), all);
        let mut tools: Vec<ConnectorTool> = crate::model::none();
        let mut taken: Vec<String> = crate::model::none();
        let mut i: usize = 0;
        assert(all.take(0) =~= Seq::empty());
        while i < all_tools.len()
            invariant
                i <= all_tools@.len(),
                all == all_tools.v(),
                all == self.v().engine_tools(config.v()),
                keep == uncontested(config.v(), all),
                tools.v() == collect(all.take(i as int), keep),
                taken.v() == collisions(config.v(), all, i as int),
            decreases all_tools@.len() - i,
        {
            proof {
                lemma_collect_step(all, keep, i as int);
            }
            let t = &all_tools[i];
            assert(all[i as int] == t.v());
            if config.declares(t.name.as_str()) || is_twice(&all_tools, t.name.as_str()) {
                if !in_texts(&taken, t.name.as_str()) {
                    append_one(&mut taken, t.name.dup());
                }
            } else {
                append_one(&mut tools, t.dup());
            }
            i = i + 1;
        }
        assert(all.take(i as int) =~= all);
        Offer { tools, collisions: taken }
    }
}

impl<'a> At<'a> {
    /// What the engine offers here.
    pub fn connector_tools(&self) -> (r: Offer)
        ensures
            r.v() == self.state.v().connector_tools(text_of(self.node)),
    {
        match self.agent() {
            Some(config) => self.state.offer(config),
            None => Offer { tools: crate::model::none(), collisions: crate::model::none() },
        }
    }
}

} // verus!
