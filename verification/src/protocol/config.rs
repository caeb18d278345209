//! What an agent is declared as.
use crate::model::{first, lemma_position_is, Model, Same};
use crate::protocol::effect::{Handler, RetryConfig};
use crate::protocol::json::{both_equal, json_null, Json, JsonV};
use crate::protocol::llm::{ReasoningConfig, ReasoningEffort};
use crate::text;
use vstd::prelude::*;

verus! {

pub const TOOL_SEARCH: &'static str = "tool_search";

pub const CALL_TOOL: &'static str = "call_tool";

pub const SKILL: &'static str = "skill";

pub const SUBAGENT: &'static str = "subagent";

pub const SUBAGENT_WAIT: &'static str = "subagent_wait";

/// How a file, the CLI, and the wire name a connection.
#[derive(Debug, PartialEq, Eq, PartialOrd, Ord, Hash)]
pub enum ConnectionPath {
    Mcp(String),
    PluginServer { plugin: String, server: String },
    Agent(String),
}

/// The value of [`ConnectionPath`].
pub enum ConnectionPathV {
    Mcp(Seq<char>),
    PluginServer { plugin: Seq<char>, server: Seq<char> },
    Agent(Seq<char>),
}

impl Model for ConnectionPath {
    type V = ConnectionPathV;

    open spec fn v(&self) -> ConnectionPathV {
        match self {
            ConnectionPath::Mcp(a) => ConnectionPathV::Mcp(a.v()),
            ConnectionPath::PluginServer { plugin, server } => ConnectionPathV::PluginServer {
                plugin: plugin.v(),
                server: server.v(),
            },
            ConnectionPath::Agent(a) => ConnectionPathV::Agent(a.v()),
        }
    }

    fn dup(&self) -> (r: ConnectionPath) {
        match self {
            ConnectionPath::Mcp(a) => ConnectionPath::Mcp(a.dup()),
            ConnectionPath::PluginServer { plugin, server } => ConnectionPath::PluginServer {
                plugin: plugin.dup(),
                server: server.dup(),
            },
            ConnectionPath::Agent(a) => ConnectionPath::Agent(a.dup()),
        }
    }
}

impl Same for ConnectionPath {
    fn same(&self, other: &ConnectionPath) -> (r: bool) {
        match (self, other) {
            (ConnectionPath::Mcp(a0), ConnectionPath::Mcp(b0)) => a0.same(b0),
            (
                ConnectionPath::PluginServer { plugin, server },
                ConnectionPath::PluginServer { plugin: other_plugin, server: other_server },
            ) => plugin.same(other_plugin) && server.same(other_server),
            (ConnectionPath::Agent(a0), ConnectionPath::Agent(b0)) => a0.same(b0),
            _ => false,
        }
    }
}

impl Clone for ConnectionPath {
    fn clone(&self) -> (r: ConnectionPath)
        ensures
            r.v() == self.v(),
    {
        self.dup()
    }
}

/// Whether a text names one thing: it is not empty and has no dot in it.
pub open spec fn is_name(s: Seq<char>) -> bool {
    s.len() > 0 && !s.contains('.')
}

/// What a provider accepts in the name of a tool.
pub open spec fn is_alphanumeric(c: char) -> bool {
    'a' <= c <= 'z' || 'A' <= c <= 'Z' || '0' <= c <= '9'
}

impl ConnectionPathV {
    /// Whether each part of the path names one thing.
    pub open spec fn named(self) -> bool {
        match self {
            ConnectionPathV::Mcp(id) => is_name(id),
            ConnectionPathV::PluginServer { plugin, server } => is_name(plugin) && is_name(server),
            ConnectionPathV::Agent(id) => is_name(id),
        }
    }

    /// The path as it is written.
    pub open spec fn written(self) -> Seq<char> {
        match self {
            ConnectionPathV::Mcp(id) => "mcp."@ + id,
            ConnectionPathV::PluginServer { plugin, server } => "plugin."@ + plugin + ".mcp."@
                + server,
            ConnectionPathV::Agent(id) => "agent."@ + id,
        }
    }

    /// The names of the path, as one.
    pub open spec fn raw_prefix(self) -> Seq<char> {
        match self {
            ConnectionPathV::Mcp(id) => id,
            ConnectionPathV::Agent(id) => id,
            ConnectionPathV::PluginServer { plugin, server } => plugin + "_"@ + server,
        }
    }

    /// The prefix the model sees. Any character a provider rejects becomes `_`.
    pub open spec fn tool_prefix(self) -> Seq<char> {
        self.raw_prefix().map_values(
            |c: char|
                if is_alphanumeric(c) {
                    c
                } else {
                    '_'
                },
        )
    }
}

/// Two paths that name the same things are written the same way, and a written
/// path names one connection only.
pub proof fn law_a_written_path_names_one_connection(a: ConnectionPathV, b: ConnectionPathV)
    requires
        a.named(),
        b.named(),
        a.written() == b.written(),
    ensures
        a == b,
{
    reveal_strlit("mcp.");
    reveal_strlit("plugin.");
    reveal_strlit(".mcp.");
    reveal_strlit("agent.");
    let w = a.written();
    match (a, b) {
        (ConnectionPathV::Mcp(x), ConnectionPathV::Mcp(y)) => {
            assert(w.skip(4) =~= x);
            assert(w.skip(4) =~= y);
        },
        (ConnectionPathV::Agent(x), ConnectionPathV::Agent(y)) => {
            assert(w.skip(6) =~= x);
            assert(w.skip(6) =~= y);
        },
        (
            ConnectionPathV::PluginServer { plugin: p, server: s },
            ConnectionPathV::PluginServer { plugin: q, server: t },
        ) => {
            assert(w[7 + p.len() as int] == '.');
            assert(w[7 + q.len() as int] == '.');
            if p.len() < q.len() {
                assert(q[p.len() as int] == '.');
            } else if q.len() < p.len() {
                assert(p[q.len() as int] == '.');
            }
            assert(w.subrange(7, 7 + p.len() as int) =~= p);
            assert(w.subrange(7, 7 + q.len() as int) =~= q);
            assert(w.skip(12 + p.len() as int) =~= s);
            assert(w.skip(12 + q.len() as int) =~= t);
        },
        _ => {
            assert(a.written()[0] == b.written()[0]);
        },
    }
}

/// A prefix holds only what a provider accepts in the name of a tool, and is as
/// long as the names it stands for.
pub proof fn law_a_prefix_is_accepted(path: ConnectionPathV, i: int)
    requires
        0 <= i < path.tool_prefix().len(),
    ensures
        is_alphanumeric(path.tool_prefix()[i]) || path.tool_prefix()[i] == '_',
        path.tool_prefix().len() == path.raw_prefix().len(),
{
}

impl ConnectionPath {
    /// Reads a written path: the connection whose parts it names, if it is one.
    pub fn parse(path: &str) -> (r: Option<ConnectionPath>)
        ensures
            match r {
                Some(p) => p.v().named() && p.v().written() == path@,
                None => forall|p: ConnectionPathV| p.named() ==> #[trigger] p.written() != path@,
            },
    {
        proof {
            reveal_strlit("mcp.");
            reveal_strlit("plugin.");
            reveal_strlit(".mcp.");
            reveal_strlit("agent.");
        }
        match text::strip_prefix(path, "mcp.") {
            Some(id) => {
                if text::is_empty(id) || text::contains(id, '.') {
                    proof {
                        assert forall|p: ConnectionPathV| p.named() implies #[trigger] p.written()
                            != path@ by {
                            if p.written() == path@ {
                                assert(path@[0] == 'm');
                                assert(p is Mcp);
                                assert(p.written().skip(4) =~= p->Mcp_0);
                                assert(path@.skip(4) =~= id@);
                            }
                        }
                    }
                    return None;
                }
                return Some(ConnectionPath::Mcp(id.to_owned()));
            },
            None => {},
        }
        match text::strip_prefix(path, "agent.") {
            Some(id) => {
                if text::is_empty(id) || text::contains(id, '.') {
                    proof {
                        assert forall|p: ConnectionPathV| p.named() implies #[trigger] p.written()
                            != path@ by {
                            if p.written() == path@ {
                                assert(path@[0] == 'a');
                                assert(p is Agent);
                                assert(p.written().skip(6) =~= p->Agent_0);
                                assert(path@.skip(6) =~= id@);
                            }
                        }
                    }
                    return None;
                }
                return Some(ConnectionPath::Agent(id.to_owned()));
            },
            None => {},
        }
        match text::strip_prefix(path, "plugin.") {
            Some(rest) => {
                let plugin = text::take_before(rest, '.');
                let tail = text::from(rest, text::find(rest, '.'));
                let server = text::strip_prefix(tail, ".mcp.");
                match server {
                    Some(server) => {
                        if !text::is_empty(plugin.as_str()) && !text::is_empty(server)
                            && !text::contains(server, '.') {
                            proof {
                                text::lemma_index_of(rest@, '.');
                                assert(rest@ =~= plugin@ + tail@);
                                assert(plugin@ + tail@ =~= plugin@ + ".mcp."@ + server@);
                                assert("plugin."@ + plugin@ + ".mcp."@ + server@ =~= "plugin."@ + (
                                plugin@ + ".mcp."@ + server@));
                            }
                            return Some(
                                ConnectionPath::PluginServer { plugin, server: server.to_owned() },
                            );
                        }
                    },
                    None => {},
                }
                proof {
                    assert forall|p: ConnectionPathV| p.named() implies #[trigger] p.written()
                        != path@ by {
                        if p.written() == path@ {
                            assert(path@[0] == 'p');
                            assert(p is PluginServer);
                            let a = p->plugin;
                            let b = p->server;
                            assert(path@.skip(7) =~= rest@);
                            assert(p.written().skip(7) =~= a + ".mcp."@ + b);
                            assert(rest@[a.len() as int] == '.');
                            text::lemma_index_of(rest@, '.');
                            let i = text::index_of(rest@, '.');
                            if i < a.len() {
                                assert(a[i] == '.');
                            }
                            assert(i == a.len());
                            assert(plugin@ =~= a);
                            assert(tail@ =~= ".mcp."@ + b);
                            assert(tail@.skip(5) =~= b);
                            assert(tail@.subrange(0, 5) =~= ".mcp."@);
                            assert(tail@.skip(5) =~= server->0@);
                        }
                    }
                }
                None
            },
            None => {
                proof {
                    assert forall|p: ConnectionPathV| p.named() implies #[trigger] p.written()
                        != path@ by {
                        if p.written() == path@ {
                            match p {
                                ConnectionPathV::Mcp(id) => {
                                    assert(path@.take(4) =~= "mcp."@);
                                },
                                ConnectionPathV::Agent(id) => {
                                    assert(path@.take(6) =~= "agent."@);
                                },
                                ConnectionPathV::PluginServer { plugin, server } => {
                                    assert(path@.take(7) =~= "plugin."@);
                                },
                            }
                        }
                    }
                }
                None
            },
        }
    }

    /// The prefix the model sees. Any character a provider rejects becomes `_`.
    pub fn tool_prefix(&self) -> (r: String)
        ensures
            r@ == self.v().tool_prefix(),
    {
        let raw = match self {
            ConnectionPath::Mcp(id) => id.dup(),
            ConnectionPath::Agent(id) => id.dup(),
            ConnectionPath::PluginServer { plugin, server } => plugin.dup().concat("_").concat(
                server.as_str(),
            ),
        };
        let mut out = String::new();
        let n = raw.as_str().unicode_len();
        let mut i: usize = 0;
        while i < n
            invariant
                i <= n,
                n == raw@.len(),
                raw@ == self.v().raw_prefix(),
                out@ == self.v().tool_prefix().take(i as int),
            decreases n - i,
        {
            let c = raw.as_str().get_char(i);
            let kept = if ('a' <= c && c <= 'z') || ('A' <= c && c <= 'Z') || ('0' <= c && c
                <= '9') {
                c
            } else {
                '_'
            };
            out.push(kept);
            i = i + 1;
            assert(out@ =~= self.v().tool_prefix().take(i as int));
        }
        assert(out@ =~= self.v().tool_prefix());
        out
    }

    /// The path as it is written.
    pub fn to_string(&self) -> (r: String)
        ensures
            r@ == self.v().written(),
    {
        match self {
            ConnectionPath::Mcp(id) => "mcp.".to_owned().concat(id.as_str()),
            ConnectionPath::PluginServer { plugin, server } => "plugin.".to_owned().concat(
                plugin.as_str(),
            ).concat(".mcp.").concat(server.as_str()),
            ConnectionPath::Agent(id) => "agent.".to_owned().concat(id.as_str()),
        }
    }
}

/// Opaque worker state: JSON the engine stores but never interprets.
#[derive(Debug, PartialEq)]
pub struct WorkerState(pub Json);

/// The value of [`WorkerState`].
pub struct WorkerStateV(pub JsonV);

impl Model for WorkerState {
    type V = WorkerStateV;

    open spec fn v(&self) -> WorkerStateV {
        WorkerStateV(self.0.v())
    }

    fn dup(&self) -> (r: WorkerState) {
        WorkerState(self.0.dup())
    }
}

impl Clone for WorkerState {
    fn clone(&self) -> (r: WorkerState)
        ensures
            r.v() == self.v(),
    {
        self.dup()
    }
}

/// Which attachment tool.
#[derive(Debug, Clone, Copy, PartialEq, Eq, Structural)]
pub enum AttachmentTool {
    View,
    Read,
}

impl Model for AttachmentTool {
    type V = AttachmentTool;

    open spec fn v(&self) -> AttachmentTool {
        *self
    }

    fn dup(&self) -> (r: AttachmentTool) {
        *self
    }
}

impl Same for AttachmentTool {
    fn same(&self, other: &AttachmentTool) -> (r: bool) {
        *self == *other
    }
}

/// How an agent reaches the files of a conversation.
#[derive(Debug, PartialEq)]
pub struct Attachments {
    pub tools: Vec<AttachmentTool>,
}

/// The value of [`Attachments`].
pub struct AttachmentsV {
    pub tools: Seq<AttachmentTool>,
}

impl Model for Attachments {
    type V = AttachmentsV;

    open spec fn v(&self) -> AttachmentsV {
        AttachmentsV {
            tools: self.tools.v(),
        }
    }

    fn dup(&self) -> (r: Attachments) {
        Attachments {
            tools: self.tools.dup(),
        }
    }
}

impl Same for Attachments {
    fn same(&self, other: &Attachments) -> (r: bool) {
        self.tools.same(&other.tools)
    }
}

impl Clone for Attachments {
    fn clone(&self) -> (r: Attachments)
        ensures
            r.v() == self.v(),
    {
        self.dup()
    }
}

/// A declared agent. The same shape whether a file writes it or a worker
/// returns it.
///
/// `llm` names the `[llm.*]` block every call runs on. That block decides where
/// the call runs and what shape it takes. A config that names no block fails
/// when the engine resolves a call.
#[derive(Debug, PartialEq)]
pub struct AgentConfig {
    /// The `[llm.*]` block this agent's calls run on.
    pub llm: Option<String>,
    pub model: String,
    pub system: Option<String>,
    /// How hard the model thinks. Unset leaves the provider's own default.
    pub effort: Option<ReasoningEffort>,
    /// Boxed. Five per-kind overrides are too many bytes to carry inline.
    pub retry: Option<Box<RetryConfig>>,
    /// Worker- or client-executed tools the model can call.
    pub tools: Vec<AgentTool>,
    /// Subagents the model can delegate to. The model sees them as tools.
    /// Each call starts a child session.
    pub subagents: Vec<Subagent>,
    /// What shape the subagents take as tools. Absent gives one tool per agent.
    pub subagent_tools: Option<SubagentTools>,
    /// How deep this agent's subagents may nest. A session whose depth
    /// reaches it may not delegate. `0` never delegates.
    pub max_subagent_depth: Option<u32>,
    /// MCP servers this agent draws tools from.
    pub mcp: Vec<McpServer>,
    /// Plugins this agent uses.
    pub plugins: Vec<AgentPlugin>,
    /// Defer every tool this agent offers, whatever its source. A tool or a
    /// connection overrides this with its own `defer`. Absent, the agent defers
    /// nothing; a connection can still defer on its own.
    pub defer_tools: Option<DeferTools>,
    /// Whether the engine tells the model that an MCP server is available, and
    /// what that server says it is for.
    pub mcp_announce: McpAnnounce,
    pub attachments: Option<Attachments>,
}

/// The value of [`AgentConfig`].
pub struct AgentConfigV {
    pub llm: Option<Seq<char>>,
    pub model: Seq<char>,
    pub system: Option<Seq<char>>,
    pub effort: Option<ReasoningEffort>,
    pub retry: Option<RetryConfig>,
    pub tools: Seq<AgentToolV>,
    pub subagents: Seq<SubagentV>,
    pub subagent_tools: Option<SubagentTools>,
    pub max_subagent_depth: Option<u32>,
    pub mcp: Seq<McpServerV>,
    pub plugins: Seq<AgentPluginV>,
    pub defer_tools: Option<DeferTools>,
    pub mcp_announce: McpAnnounce,
    pub attachments: Option<AttachmentsV>,
}

impl Model for AgentConfig {
    type V = AgentConfigV;

    open spec fn v(&self) -> AgentConfigV {
        AgentConfigV {
            llm: self.llm.v(),
            model: self.model.v(),
            system: self.system.v(),
            effort: self.effort.v(),
            retry: self.retry.v(),
            tools: self.tools.v(),
            subagents: self.subagents.v(),
            subagent_tools: self.subagent_tools.v(),
            max_subagent_depth: self.max_subagent_depth.v(),
            mcp: self.mcp.v(),
            plugins: self.plugins.v(),
            defer_tools: self.defer_tools.v(),
            mcp_announce: self.mcp_announce.v(),
            attachments: self.attachments.v(),
        }
    }

    fn dup(&self) -> (r: AgentConfig) {
        AgentConfig {
            llm: self.llm.dup(),
            model: self.model.dup(),
            system: self.system.dup(),
            effort: self.effort.dup(),
            retry: self.retry.dup(),
            tools: self.tools.dup(),
            subagents: self.subagents.dup(),
            subagent_tools: self.subagent_tools.dup(),
            max_subagent_depth: self.max_subagent_depth.dup(),
            mcp: self.mcp.dup(),
            plugins: self.plugins.dup(),
            defer_tools: self.defer_tools.dup(),
            mcp_announce: self.mcp_announce.dup(),
            attachments: self.attachments.dup(),
        }
    }
}

impl Clone for AgentConfig {
    fn clone(&self) -> (r: AgentConfig)
        ensures
            r.v() == self.v(),
    {
        self.dup()
    }
}

/// Where an MCP announcement lands.
#[derive(Debug, Clone, Copy, Default, PartialEq, Eq, Structural)]
pub enum McpAnnounce {
    /// The system prompt while no call has run. Then a block on the last user
    /// message. Then a message of its own. The engine takes the first place it
    /// can use.
    #[default]
    Auto,
    /// Nowhere. For a server whose own description does not help.
    Never,
}

impl Model for McpAnnounce {
    type V = McpAnnounce;

    open spec fn v(&self) -> McpAnnounce {
        *self
    }

    fn dup(&self) -> (r: McpAnnounce) {
        *self
    }
}

impl Same for McpAnnounce {
    fn same(&self, other: &McpAnnounce) -> (r: bool) {
        *self == *other
    }
}

impl McpAnnounce {
    pub fn is_default(&self) -> (r: bool)
        ensures
            r == (*self == McpAnnounce::Auto),
    {
        *self == McpAnnounce::Auto
    }
}

impl WorkerStateV {
    /// Whether two states are the same document.
    pub open spec fn equals(self, other: WorkerStateV) -> bool {
        self.0.equals(other.0)
    }
}

impl WorkerState {
    /// Whether two states are the same document.
    pub fn equals(&self, other: &WorkerState) -> (r: bool)
        ensures
            r == self.v().equals(other.v()),
    {
        self.0.equals(&other.0)
    }
}

impl Default for WorkerState {
    fn default() -> (r: WorkerState)
        ensures
            r.v() == WorkerStateV(json_null()),
    {
        WorkerState(Json::null())
    }
}

impl AgentToolV {
    /// Whether two tools are the same, with schemas that are equal.
    pub open spec fn equals(self, other: AgentToolV) -> bool {
        both_equal(self.input, other.input) && both_equal(self.output, other.output) && (
        AgentToolV { input: other.input, output: other.output, ..self }) == other
    }
}

impl AgentTool {
    /// Whether two tools are the same, with schemas that are equal.
    pub fn equals(&self, other: &AgentTool) -> (r: bool)
        ensures
            r == self.v().equals(other.v()),
    {
        self.name.same(&other.name) && self.description.same(&other.description) && Json::both_equal(
            &self.input,
            &other.input,
        ) && Json::both_equal(&self.output, &other.output) && self.handler.same(&other.handler)
            && self.defer.same(&other.defer)
    }
}

impl AgentConfigV {
    /// Whether two configs are the same, with tools whose schemas are equal.
    pub open spec fn equals(self, other: AgentConfigV) -> bool {
        self.tools.len() == other.tools.len() && (forall|i: int|
            0 <= i < self.tools.len() ==> (#[trigger] self.tools[i]).equals(other.tools[i])) && (
        AgentConfigV { tools: other.tools, ..self }) == other
    }

    /// The config of an agent that says nothing.
    pub open spec fn empty() -> AgentConfigV {
        AgentConfigV {
            llm: None,
            model: Seq::empty(),
            system: None,
            effort: None,
            retry: None,
            tools: Seq::empty(),
            subagents: Seq::empty(),
            subagent_tools: None,
            max_subagent_depth: None,
            mcp: Seq::empty(),
            plugins: Seq::empty(),
            defer_tools: None,
            mcp_announce: McpAnnounce::Auto,
            attachments: None,
        }
    }

    /// A search that an agent gets answers with something.
    pub open spec fn wf(self) -> bool {
        match self.defer_tools {
            Some(settings) => settings.wf(),
            None => true,
        }
    }
}

fn equal_tools(a: &Vec<AgentTool>, b: &Vec<AgentTool>) -> (r: bool)
    ensures
        r == (a.v().len() == b.v().len() && (forall|i: int|
            0 <= i < a.v().len() ==> (#[trigger] a.v()[i]).equals(b.v()[i]))),
{
    if a.len() != b.len() {
        return false;
    }
    let ghost all = a.v();
    let mut i: usize = 0;
    while i < a.len()
        invariant
            i <= a@.len(),
            a@.len() == b@.len(),
            all == a.v(),
            forall|j: int| 0 <= j < i ==> (#[trigger] all[j]).equals(b.v()[j]),
        decreases a@.len() - i,
    {
        assert(all[i as int] == a@[i as int].v());
        assert(b.v()[i as int] == b@[i as int].v());
        if !a[i].equals(&b[i]) {
            return false;
        }
        i = i + 1;
    }
    true
}

impl Default for AgentConfig {
    fn default() -> (r: AgentConfig)
        ensures
            r.v() == AgentConfigV::empty(),
    {
        AgentConfig {
            llm: None,
            model: String::new(),
            system: None,
            effort: None,
            retry: None,
            tools: crate::model::none(),
            subagents: crate::model::none(),
            subagent_tools: None,
            max_subagent_depth: None,
            mcp: crate::model::none(),
            plugins: crate::model::none(),
            defer_tools: None,
            mcp_announce: McpAnnounce::Auto,
            attachments: None,
        }
    }
}

impl AgentConfig {
    /// Whether two configs are the same, with tools whose schemas are equal.
    pub fn equals(&self, other: &AgentConfig) -> (r: bool)
        ensures
            r == self.v().equals(other.v()),
    {
        equal_tools(&self.tools, &other.tools) && self.llm.same(&other.llm) && self.model.same(
            &other.model,
        ) && self.system.same(&other.system) && self.effort.same(&other.effort) && self.retry.same(
            &other.retry,
        ) && self.subagents.same(&other.subagents) && self.subagent_tools.same(
            &other.subagent_tools,
        ) && self.max_subagent_depth.same(&other.max_subagent_depth) && self.mcp.same(&other.mcp)
            && self.plugins.same(&other.plugins) && self.defer_tools.same(&other.defer_tools)
            && self.mcp_announce.same(&other.mcp_announce) && self.attachments.same(
            &other.attachments,
        )
    }
}

impl AgentConfigV {
    /// How deep this agent's subagents may nest.
    pub open spec fn depth_limit(self) -> u32 {
        match self.max_subagent_depth {
            Some(limit) => limit,
            None => DEFAULT_MAX_SUBAGENT_DEPTH,
        }
    }

    /// The settings for deferred tools.
    pub open spec fn defer_settings(self) -> DeferTools {
        match self.defer_tools {
            Some(settings) => settings,
            None => DeferTools::spec_default(),
        }
    }

    /// The mode the agent pins on calls to one of its subagents.
    pub open spec fn subagent_mode(self, agent_id: Seq<char>) -> Option<SubagentMode> {
        match first(self.subagents, |s: SubagentV| s.id == agent_id) {
            Some(subagent) => subagent.mode,
            None => None,
        }
    }
}

impl AgentConfig {
    /// The reasoning this agent's calls carry. Absent if it named no effort.
    pub fn reasoning(&self) -> (r: Option<ReasoningConfig>)
        ensures
            r == (match self.v().effort {
                Some(effort) => Some(
                    ReasoningConfig {
                        effort: Some(effort),
                        max_tokens: None,
                        exclude: None,
                        enabled: None,
                    },
                ),
                None => None,
            }),
    {
        match self.effort {
            Some(effort) => Some(
                ReasoningConfig {
                    effort: Some(effort),
                    max_tokens: None,
                    exclude: None,
                    enabled: None,
                },
            ),
            None => None,
        }
    }

    /// Whether this agent defers its own tools. A connection's `defer`
    /// overrides it.
    pub fn defers_tools(&self) -> (r: bool)
        ensures
            r == (self.v().defer_tools is Some),
    {
        self.defer_tools.is_some()
    }

    /// The settings for deferred tools. An agent that defers nothing still
    /// needs them, because a connection can defer on its own.
    pub fn defer_settings(&self) -> (r: DeferTools)
        ensures
            r == self.v().defer_settings(),
            self.v().wf() ==> r.wf(),
    {
        match self.defer_tools {
            Some(settings) => settings,
            None => DeferTools::default(),
        }
    }

    /// Which tools the agent gets to reach the ones it defers.
    pub fn defer_strategy(&self) -> (r: DeferToolsStrategy)
        ensures
            r == self.v().defer_settings().strategy,
    {
        self.defer_settings().strategy
    }

    pub fn depth_limit(&self) -> (r: u32)
        ensures
            r == self.v().depth_limit(),
    {
        match self.max_subagent_depth {
            Some(limit) => limit,
            None => DEFAULT_MAX_SUBAGENT_DEPTH,
        }
    }

    pub fn may_spawn_subagent(&self, depth: u32) -> (r: bool)
        ensures
            r == (depth < self.v().depth_limit()),
    {
        depth < self.depth_limit()
    }

    pub fn subagent_strategy(&self) -> (r: SubagentToolsStrategy)
        ensures
            r == (match self.v().subagent_tools {
                Some(tools) => tools.strategy,
                None => SubagentToolsStrategy::PerAgent,
            }),
    {
        SubagentTools::strategy_of(self.subagent_tools)
    }

    /// The mode the agent pins on calls to one of its subagents.
    pub fn subagent_mode(&self, agent_id: &str) -> (r: Option<SubagentMode>)
        ensures
            r == self.v().subagent_mode(agent_id@),
    {
        let ghost named = |s: SubagentV| s.id == agent_id@;
        let mut i: usize = 0;
        while i < self.subagents.len()
            invariant
                i <= self.subagents.len(),
                named == (|s: SubagentV| s.id == agent_id@),
                forall|j: int| 0 <= j < i ==> !named(#[trigger] self.subagents.v()[j]),
            decreases self.subagents.len() - i,
        {
            if text::eq(self.subagents[i].id.as_str(), agent_id) {
                proof {
                    lemma_position_is(self.subagents.v(), named, i as int);
                }
                return self.subagents[i].mode;
            }
            i = i + 1;
        }
        proof {
            crate::model::lemma_position(self.subagents.v(), named);
        }
        None
    }
}

/// What shape an agent's subagents take as tools.
#[derive(Debug, Clone, Copy, PartialEq, Eq, Structural)]
pub struct SubagentTools {
    pub strategy: SubagentToolsStrategy,
    pub wait: Option<bool>,
}

impl Model for SubagentTools {
    type V = SubagentTools;

    open spec fn v(&self) -> SubagentTools {
        *self
    }

    fn dup(&self) -> (r: SubagentTools) {
        *self
    }
}

impl Same for SubagentTools {
    fn same(&self, other: &SubagentTools) -> (r: bool) {
        *self == *other
    }
}

impl Default for SubagentTools {
    fn default() -> (r: SubagentTools)
        ensures
            r == (SubagentTools { strategy: SubagentToolsStrategy::PerAgent, wait: None }),
    {
        SubagentTools { strategy: SubagentToolsStrategy::PerAgent, wait: None }
    }
}

/// How the model reaches an agent's subagents.
#[derive(Debug, Clone, Copy, Default, PartialEq, Eq, Structural)]
pub enum SubagentToolsStrategy {
    /// One tool per subagent, named by the agent.
    #[default]
    PerAgent,
    /// One `subagent` tool for all of them. The call names the agent.
    Single,
}

impl Model for SubagentToolsStrategy {
    type V = SubagentToolsStrategy;

    open spec fn v(&self) -> SubagentToolsStrategy {
        *self
    }

    fn dup(&self) -> (r: SubagentToolsStrategy) {
        *self
    }
}

impl Same for SubagentToolsStrategy {
    fn same(&self, other: &SubagentToolsStrategy) -> (r: bool) {
        *self == *other
    }
}

impl SubagentTools {
    pub fn strategy_of(tools: Option<SubagentTools>) -> (r: SubagentToolsStrategy)
        ensures
            r == (match tools {
                Some(tools) => tools.strategy,
                None => SubagentToolsStrategy::PerAgent,
            }),
    {
        match tools {
            Some(tools) => tools.strategy,
            None => SubagentTools::default().strategy,
        }
    }

    /// Whether the agent gets the tool that waits for a subagent. Said nothing,
    /// it does.
    pub fn wait_of(tools: Option<SubagentTools>) -> (r: bool)
        ensures
            r == !(tools is Some && tools->0.wait == Some(false)),
    {
        match tools {
            Some(tools) => match tools.wait {
                Some(wait) => wait,
                None => true,
            },
            None => true,
        }
    }
}

impl SubagentToolsStrategy {
    pub fn is_default(&self) -> (r: bool)
        ensures
            r == (*self == SubagentToolsStrategy::PerAgent),
    {
        *self == SubagentToolsStrategy::PerAgent
    }
}

/// How calls to a subagent return. Configuration; each call carries a
/// [`SpawnMode`].
#[derive(Debug, Clone, Copy, Default, PartialEq, Eq, Structural)]
pub enum SubagentMode {
    Blocking,
    Detached,
    #[default]
    Any,
}

impl Model for SubagentMode {
    type V = SubagentMode;

    open spec fn v(&self) -> SubagentMode {
        *self
    }

    fn dup(&self) -> (r: SubagentMode) {
        *self
    }
}

impl Same for SubagentMode {
    fn same(&self, other: &SubagentMode) -> (r: bool) {
        *self == *other
    }
}

impl SubagentMode {
    /// The modes a call may choose from.
    pub open spec fn choices(self) -> Seq<SpawnMode> {
        match self {
            SubagentMode::Blocking => seq![],
            SubagentMode::Detached => seq![SpawnMode::Detached],
            SubagentMode::Any => seq![SpawnMode::Blocking, SpawnMode::Detached],
        }
    }

    /// The modes a call may choose from.
    pub fn offered(self) -> (r: Vec<SpawnMode>)
        ensures
            r@ == self.choices(),
    {
        let r = match self {
            SubagentMode::Blocking => vec![],
            SubagentMode::Detached => vec![SpawnMode::Detached],
            SubagentMode::Any => vec![SpawnMode::Blocking, SpawnMode::Detached],
        };
        assert(r@ =~= self.choices());
        r
    }
}

/// How one subagent call returns.
#[derive(Debug, Clone, Copy, Default, PartialEq, Eq, Structural)]
pub enum SpawnMode {
    #[default]
    Blocking,
    Detached,
    Wait,
}

impl Model for SpawnMode {
    type V = SpawnMode;

    open spec fn v(&self) -> SpawnMode {
        *self
    }

    fn dup(&self) -> (r: SpawnMode) {
        *self
    }
}

impl Same for SpawnMode {
    fn same(&self, other: &SpawnMode) -> (r: bool) {
        *self == *other
    }
}

pub const DEFAULT_MAX_SUBAGENT_DEPTH: u32 = 5;

/// How many tools one search answers with, when the agent does not say.
///
/// A match carries a whole definition, so a large answer is as big as the tool
/// list. The engine says what it left out.
pub const DEFAULT_MAX_MATCHES: usize = 5;

/// How an agent's deferred tools reach the model.
#[derive(Debug, Clone, Copy, PartialEq, Eq, Structural)]
pub struct DeferTools {
    /// Which tools the agent gets to reach the ones it defers.
    pub strategy: DeferToolsStrategy,
    /// The most matches one search answers with. Never zero: a search that can
    /// answer with nothing is a search the model cannot use.
    pub max_matches: usize,
}

impl Model for DeferTools {
    type V = DeferTools;

    open spec fn v(&self) -> DeferTools {
        *self
    }

    fn dup(&self) -> (r: DeferTools) {
        *self
    }
}

impl Same for DeferTools {
    fn same(&self, other: &DeferTools) -> (r: bool) {
        *self == *other
    }
}

impl DeferTools {
    /// A search always answers with something.
    pub open spec fn wf(self) -> bool {
        self.max_matches > 0
    }

    pub open spec fn spec_default() -> DeferTools {
        DeferTools { strategy: DeferToolsStrategy::Search, max_matches: DEFAULT_MAX_MATCHES }
    }

    /// Whether an agent kept the number of matches that it gets by default.
    pub fn is_default_max_matches(n: usize) -> (r: bool)
        ensures
            r == (n == DeferTools::spec_default().max_matches),
    {
        n == DEFAULT_MAX_MATCHES
    }
}

impl Default for DeferTools {
    fn default() -> (r: DeferTools)
        ensures
            r == DeferTools::spec_default(),
            r.wf(),
    {
        DeferTools { strategy: DeferToolsStrategy::Search, max_matches: DEFAULT_MAX_MATCHES }
    }
}

/// The two forms `defer_tools` accepts: `true` for the defaults, or a table.
/// `false` reads the same as absent, so a config can turn off what it inherits.
#[derive(Debug, Clone, Copy, PartialEq, Eq, Structural)]
pub enum DeferToolsWire {
    Flag(bool),
    Config(DeferTools),
}

impl DeferToolsWire {
    /// The settings a config wrote.
    pub fn read(wire: Option<DeferToolsWire>) -> (r: Option<DeferTools>)
        ensures
            r == (match wire {
                None => None,
                Some(DeferToolsWire::Flag(on)) => if on {
                    Some(DeferTools::spec_default())
                } else {
                    None
                },
                Some(DeferToolsWire::Config(settings)) => Some(settings),
            }),
            (wire matches Some(DeferToolsWire::Config(settings)) ==> settings.wf()) ==> (r is Some
                ==> r->0.wf()),
    {
        match wire {
            None => None,
            Some(DeferToolsWire::Flag(on)) => if on {
                Some(DeferTools::default())
            } else {
                None
            },
            Some(DeferToolsWire::Config(settings)) => Some(settings),
        }
    }
}

/// How the tools an agent defers reach the model.
///
/// The engine holds every deferred definition whatever this says. This chooses
/// which tools the request advertises, and whether the request carries the
/// deferred definitions.
#[derive(Debug, Clone, Copy, Default, PartialEq, Eq, Structural)]
pub enum DeferToolsStrategy {
    /// `tool_search` and `call_tool`. A search answers with the schema, so one
    /// search is enough to make a call.
    #[default]
    Search,
}

impl Model for DeferToolsStrategy {
    type V = DeferToolsStrategy;

    open spec fn v(&self) -> DeferToolsStrategy {
        *self
    }

    fn dup(&self) -> (r: DeferToolsStrategy) {
        *self
    }
}

impl Same for DeferToolsStrategy {
    fn same(&self, other: &DeferToolsStrategy) -> (r: bool) {
        *self == *other
    }
}

impl DeferToolsStrategy {
    pub fn is_default(&self) -> (r: bool)
        ensures
            r == (*self == DeferToolsStrategy::Search),
    {
        *self == DeferToolsStrategy::Search
    }
}

/// A function tool the agent offers. `handler` says where a call runs:
/// `Client` for the client, absent for the worker. `Server` is invalid here.
/// The engine runs only connector tools, and a worker declares those by
/// connection id.
#[derive(Debug, PartialEq)]
pub struct AgentTool {
    pub name: String,
    pub description: String,
    pub input: Option<Json>,
    pub output: Option<Json>,
    pub handler: Option<Handler>,
    /// Keep this tool out of the request. Absent gives the agent's
    /// `defer_tools`.
    pub defer: Option<bool>,
}

/// The value of [`AgentTool`].
pub struct AgentToolV {
    pub name: Seq<char>,
    pub description: Seq<char>,
    pub input: Option<JsonV>,
    pub output: Option<JsonV>,
    pub handler: Option<Handler>,
    pub defer: Option<bool>,
}

impl Model for AgentTool {
    type V = AgentToolV;

    open spec fn v(&self) -> AgentToolV {
        AgentToolV {
            name: self.name.v(),
            description: self.description.v(),
            input: self.input.v(),
            output: self.output.v(),
            handler: self.handler.v(),
            defer: self.defer.v(),
        }
    }

    fn dup(&self) -> (r: AgentTool) {
        AgentTool {
            name: self.name.dup(),
            description: self.description.dup(),
            input: self.input.dup(),
            output: self.output.dup(),
            handler: self.handler.dup(),
            defer: self.defer.dup(),
        }
    }
}

impl Clone for AgentTool {
    fn clone(&self) -> (r: AgentTool)
        ensures
            r.v() == self.v(),
    {
        self.dup()
    }
}

/// One tool the engine resolved from a connector and runs itself.
///
/// Derived, not stored. The session records what a connection offered, then
/// filters that offer through the config in force. A connection that changes
/// its tools cannot rewrite what already happened, and a filter change costs no
/// round trip.
///
/// `name` is what the model sees. `remote_name` is what the engine calls.
#[derive(Debug, PartialEq)]
pub struct ConnectorTool {
    pub name: String,
    pub description: String,
    pub input: Option<Json>,
    pub output: Option<Json>,
    /// The connection this tool calls. Absent for the engine's own tools.
    pub connector: Option<ConnectionPath>,
    /// The protocol of the connection. The engine's own tools carry `Mcp` too.
    pub via: ConnectorProtocol,
    pub remote_name: String,
    pub kind: ConnectorToolKind,
    /// Keep this tool out of the request. Resolved from the connection's
    /// `defer` and the agent's `defer_tools`.
    pub defer: bool,
    pub approve: bool,
}

/// The value of [`ConnectorTool`].
pub struct ConnectorToolV {
    pub name: Seq<char>,
    pub description: Seq<char>,
    pub input: Option<JsonV>,
    pub output: Option<JsonV>,
    pub connector: Option<ConnectionPathV>,
    pub via: ConnectorProtocol,
    pub remote_name: Seq<char>,
    pub kind: ConnectorToolKind,
    pub defer: bool,
    pub approve: bool,
}

impl Model for ConnectorTool {
    type V = ConnectorToolV;

    open spec fn v(&self) -> ConnectorToolV {
        ConnectorToolV {
            name: self.name.v(),
            description: self.description.v(),
            input: self.input.v(),
            output: self.output.v(),
            connector: self.connector.v(),
            via: self.via.v(),
            remote_name: self.remote_name.v(),
            kind: self.kind.v(),
            defer: self.defer.v(),
            approve: self.approve.v(),
        }
    }

    fn dup(&self) -> (r: ConnectorTool) {
        ConnectorTool {
            name: self.name.dup(),
            description: self.description.dup(),
            input: self.input.dup(),
            output: self.output.dup(),
            connector: self.connector.dup(),
            via: self.via.dup(),
            remote_name: self.remote_name.dup(),
            kind: self.kind.dup(),
            defer: self.defer.dup(),
            approve: self.approve.dup(),
        }
    }
}

impl Clone for ConnectorTool {
    fn clone(&self) -> (r: ConnectorTool)
        ensures
            r.v() == self.v(),
    {
        self.dup()
    }
}

#[derive(Debug, Clone, Copy, Default, PartialEq, Eq, Structural)]
pub enum ConnectorToolKind {
    /// Call `remote_name` on the connection.
    #[default]
    Remote,
    /// Search the recorded offer. This reaches nothing.
    Find,
    /// Run the tool the arguments name.
    Call,
    /// Load a skill's instructions from a plugin bundle.
    Skill,
    Subagent,
    Attachment,
}

impl Model for ConnectorToolKind {
    type V = ConnectorToolKind;

    open spec fn v(&self) -> ConnectorToolKind {
        *self
    }

    fn dup(&self) -> (r: ConnectorToolKind) {
        *self
    }
}

impl Same for ConnectorToolKind {
    fn same(&self, other: &ConnectorToolKind) -> (r: bool) {
        *self == *other
    }
}

impl ConnectorToolKind {
    pub fn is_remote(&self) -> (r: bool)
        ensures
            r == (*self == ConnectorToolKind::Remote),
    {
        *self == ConnectorToolKind::Remote
    }
}

/// How the engine reaches a connection. Internal. A connection's section says
/// which protocol it uses, and an agent names it by id without knowing.
#[derive(Debug, Clone, Copy, Default, PartialEq, Eq, Structural)]
pub enum ConnectorProtocol {
    #[default]
    Mcp,
    Agent,
}

impl Model for ConnectorProtocol {
    type V = ConnectorProtocol;

    open spec fn v(&self) -> ConnectorProtocol {
        *self
    }

    fn dup(&self) -> (r: ConnectorProtocol) {
        *self
    }
}

impl Same for ConnectorProtocol {
    fn same(&self, other: &ConnectorProtocol) -> (r: bool) {
        *self == *other
    }
}

/// An MCP server the agent draws tools from. `id` names an `[mcp.*]`
/// connection the engine holds. A worker never writes a URL or a credential.
#[derive(Debug, PartialEq)]
pub struct McpServer {
    pub id: String,
    /// Narrows what the model sees. Absent gives every tool the connection
    /// grants.
    pub tools: Option<McpTools>,
    pub auth_failure: McpAuthFailure,
    pub tool_sync_failure: McpToolSyncFailure,
    pub approve: Approve,
}

/// The value of [`McpServer`].
pub struct McpServerV {
    pub id: Seq<char>,
    pub tools: Option<McpToolsV>,
    pub auth_failure: McpAuthFailure,
    pub tool_sync_failure: McpToolSyncFailure,
    pub approve: Approve,
}

impl Model for McpServer {
    type V = McpServerV;

    open spec fn v(&self) -> McpServerV {
        McpServerV {
            id: self.id.v(),
            tools: self.tools.v(),
            auth_failure: self.auth_failure.v(),
            tool_sync_failure: self.tool_sync_failure.v(),
            approve: self.approve.v(),
        }
    }

    fn dup(&self) -> (r: McpServer) {
        McpServer {
            id: self.id.dup(),
            tools: self.tools.dup(),
            auth_failure: self.auth_failure.dup(),
            tool_sync_failure: self.tool_sync_failure.dup(),
            approve: self.approve.dup(),
        }
    }
}

impl Same for McpServer {
    fn same(&self, other: &McpServer) -> (r: bool) {
        self.id.same(&other.id)
            && self.tools.same(&other.tools)
            && self.auth_failure.same(&other.auth_failure)
            && self.tool_sync_failure.same(&other.tool_sync_failure)
            && self.approve.same(&other.approve)
    }
}

impl Clone for McpServer {
    fn clone(&self) -> (r: McpServer)
        ensures
            r.v() == self.v(),
    {
        self.dup()
    }
}

impl McpServerV {
    /// The connection the server is reached by, with the policy on it.
    pub open spec fn bind(self) -> BoundServerV {
        BoundServerV {
            path: ConnectionPathV::Mcp(self.id),
            tools: self.tools,
            auth_failure: self.auth_failure,
            tool_sync_failure: self.tool_sync_failure,
            approve: self.approve,
        }
    }
}

impl McpServer {
    /// The connection the server is reached by, with the policy on it.
    pub fn bind(&self) -> (r: BoundServer)
        ensures
            r.v() == self.v().bind(),
    {
        BoundServer {
            path: ConnectionPath::Mcp(self.id.dup()),
            tools: self.tools.dup(),
            auth_failure: self.auth_failure,
            tool_sync_failure: self.tool_sync_failure,
            approve: self.approve,
        }
    }
}

#[derive(Debug, PartialEq)]
pub struct BoundServer {
    pub path: ConnectionPath,
    pub tools: Option<McpTools>,
    pub auth_failure: McpAuthFailure,
    pub tool_sync_failure: McpToolSyncFailure,
    pub approve: Approve,
}

/// The value of [`BoundServer`].
pub struct BoundServerV {
    pub path: ConnectionPathV,
    pub tools: Option<McpToolsV>,
    pub auth_failure: McpAuthFailure,
    pub tool_sync_failure: McpToolSyncFailure,
    pub approve: Approve,
}

impl Model for BoundServer {
    type V = BoundServerV;

    open spec fn v(&self) -> BoundServerV {
        BoundServerV {
            path: self.path.v(),
            tools: self.tools.v(),
            auth_failure: self.auth_failure.v(),
            tool_sync_failure: self.tool_sync_failure.v(),
            approve: self.approve.v(),
        }
    }

    fn dup(&self) -> (r: BoundServer) {
        BoundServer {
            path: self.path.dup(),
            tools: self.tools.dup(),
            auth_failure: self.auth_failure.dup(),
            tool_sync_failure: self.tool_sync_failure.dup(),
            approve: self.approve.dup(),
        }
    }
}

impl Clone for BoundServer {
    fn clone(&self) -> (r: BoundServer)
        ensures
            r.v() == self.v(),
    {
        self.dup()
    }
}

/// Which of a connection's calls stop for a person.
#[derive(Debug, Clone, Copy, Default, PartialEq, Eq, Structural)]
pub enum Approve {
    #[default]
    Never,
    /// A tool that the connection marks `destructiveHint`.
    Destructive,
    Always,
}

impl Model for Approve {
    type V = Approve;

    open spec fn v(&self) -> Approve {
        *self
    }

    fn dup(&self) -> (r: Approve) {
        *self
    }
}

impl Same for Approve {
    fn same(&self, other: &Approve) -> (r: bool) {
        *self == *other
    }
}

impl Approve {
    pub fn is_default(&self) -> (r: bool)
        ensures
            r == (*self == Approve::Never),
    {
        *self == Approve::Never
    }
}

/// What a session does when a connection needs a person to authorize it.
#[derive(Debug, Clone, Copy, Default, PartialEq, Eq, Structural)]
pub enum McpAuthFailure {
    /// Stop and ask. A channel that cannot show the question degrades.
    #[default]
    Interrupt,
    /// Go on without this connection's tools.
    Degrade,
}

impl Model for McpAuthFailure {
    type V = McpAuthFailure;

    open spec fn v(&self) -> McpAuthFailure {
        *self
    }

    fn dup(&self) -> (r: McpAuthFailure) {
        *self
    }
}

impl Same for McpAuthFailure {
    fn same(&self, other: &McpAuthFailure) -> (r: bool) {
        *self == *other
    }
}

impl McpAuthFailure {
    pub fn is_default(&self) -> (r: bool)
        ensures
            r == (*self == McpAuthFailure::Interrupt),
    {
        *self == McpAuthFailure::Interrupt
    }
}

/// Whether the model is told that a connection's tool fetch failed. The turn
/// goes ahead without those tools either way.
#[derive(Debug, Clone, Copy, Default, PartialEq, Eq, Structural)]
pub enum McpToolSyncFailure {
    /// Name the connection wherever its tools would have been.
    #[default]
    Warn,
    /// Say nothing. For a connection the agent does not need.
    Silent,
}

impl Model for McpToolSyncFailure {
    type V = McpToolSyncFailure;

    open spec fn v(&self) -> McpToolSyncFailure {
        *self
    }

    fn dup(&self) -> (r: McpToolSyncFailure) {
        *self
    }
}

impl Same for McpToolSyncFailure {
    fn same(&self, other: &McpToolSyncFailure) -> (r: bool) {
        *self == *other
    }
}

impl McpToolSyncFailure {
    pub fn is_default(&self) -> (r: bool)
        ensures
            r == (*self == McpToolSyncFailure::Warn),
    {
        *self == McpToolSyncFailure::Warn
    }

    pub fn warns(&self) -> (r: bool)
        ensures
            r == (*self == McpToolSyncFailure::Warn),
    {
        *self == McpToolSyncFailure::Warn
    }
}

/// Which of a connection's tools the model sees, and how they reach it.
///
/// The filter runs in order: capability predicates, then `only`, then
/// `exclude`. Each step only removes, so a filter cannot widen what the
/// connection grants. `defer` runs last and removes nothing.
///
/// `only` and `exclude` are globs over the tool's name on the connection,
/// not the prefixed name the model sees.
///
/// Capability predicates read the MCP annotations. A tool with no annotation
/// fails the predicate, so a server that annotates nothing yields nothing under
/// `read_only`.
#[derive(Debug, Default, PartialEq)]
pub struct McpTools {
    pub only: Vec<String>,
    pub exclude: Vec<String>,
    pub read_only: Option<bool>,
    pub non_destructive: Option<bool>,
    pub idempotent: Option<bool>,
    /// Keep every surviving tool out of the request. Absent gives the agent's
    /// `defer_tools`.
    pub defer: Option<bool>,
}

/// The value of [`McpTools`].
pub struct McpToolsV {
    pub only: Seq<Seq<char>>,
    pub exclude: Seq<Seq<char>>,
    pub read_only: Option<bool>,
    pub non_destructive: Option<bool>,
    pub idempotent: Option<bool>,
    pub defer: Option<bool>,
}

impl Model for McpTools {
    type V = McpToolsV;

    open spec fn v(&self) -> McpToolsV {
        McpToolsV {
            only: self.only.v(),
            exclude: self.exclude.v(),
            read_only: self.read_only.v(),
            non_destructive: self.non_destructive.v(),
            idempotent: self.idempotent.v(),
            defer: self.defer.v(),
        }
    }

    fn dup(&self) -> (r: McpTools) {
        McpTools {
            only: self.only.dup(),
            exclude: self.exclude.dup(),
            read_only: self.read_only.dup(),
            non_destructive: self.non_destructive.dup(),
            idempotent: self.idempotent.dup(),
            defer: self.defer.dup(),
        }
    }
}

impl Same for McpTools {
    fn same(&self, other: &McpTools) -> (r: bool) {
        self.only.same(&other.only)
            && self.exclude.same(&other.exclude)
            && self.read_only.same(&other.read_only)
            && self.non_destructive.same(&other.non_destructive)
            && self.idempotent.same(&other.idempotent)
            && self.defer.same(&other.defer)
    }
}

impl Clone for McpTools {
    fn clone(&self) -> (r: McpTools)
        ensures
            r.v() == self.v(),
    {
        self.dup()
    }
}

/// A plugin an agent uses. The skills and servers come from the bundle when the
/// config loads.
#[derive(Debug, PartialEq)]
pub struct AgentPlugin {
    pub id: String,
    pub description: String,
    pub skills: Vec<SkillMeta>,
    /// The plugin's server names, from its bundle.
    pub servers: Vec<String>,
    /// Applied to each of the plugin's servers.
    pub tools: Option<McpTools>,
    pub auth_failure: McpAuthFailure,
    pub tool_sync_failure: McpToolSyncFailure,
    pub approve: Approve,
}

/// The value of [`AgentPlugin`].
pub struct AgentPluginV {
    pub id: Seq<char>,
    pub description: Seq<char>,
    pub skills: Seq<SkillMetaV>,
    pub servers: Seq<Seq<char>>,
    pub tools: Option<McpToolsV>,
    pub auth_failure: McpAuthFailure,
    pub tool_sync_failure: McpToolSyncFailure,
    pub approve: Approve,
}

impl Model for AgentPlugin {
    type V = AgentPluginV;

    open spec fn v(&self) -> AgentPluginV {
        AgentPluginV {
            id: self.id.v(),
            description: self.description.v(),
            skills: self.skills.v(),
            servers: self.servers.v(),
            tools: self.tools.v(),
            auth_failure: self.auth_failure.v(),
            tool_sync_failure: self.tool_sync_failure.v(),
            approve: self.approve.v(),
        }
    }

    fn dup(&self) -> (r: AgentPlugin) {
        AgentPlugin {
            id: self.id.dup(),
            description: self.description.dup(),
            skills: self.skills.dup(),
            servers: self.servers.dup(),
            tools: self.tools.dup(),
            auth_failure: self.auth_failure.dup(),
            tool_sync_failure: self.tool_sync_failure.dup(),
            approve: self.approve.dup(),
        }
    }
}

impl Same for AgentPlugin {
    fn same(&self, other: &AgentPlugin) -> (r: bool) {
        self.id.same(&other.id)
            && self.description.same(&other.description)
            && self.skills.same(&other.skills)
            && self.servers.same(&other.servers)
            && self.tools.same(&other.tools)
            && self.auth_failure.same(&other.auth_failure)
            && self.tool_sync_failure.same(&other.tool_sync_failure)
            && self.approve.same(&other.approve)
    }
}

impl Clone for AgentPlugin {
    fn clone(&self) -> (r: AgentPlugin)
        ensures
            r.v() == self.v(),
    {
        self.dup()
    }
}

impl AgentPluginV {
    /// One of the plugin's servers, with the plugin's policy on it.
    pub open spec fn server(self, name: Seq<char>) -> BoundServerV {
        BoundServerV {
            path: ConnectionPathV::PluginServer { plugin: self.id, server: name },
            tools: self.tools,
            auth_failure: self.auth_failure,
            tool_sync_failure: self.tool_sync_failure,
            approve: self.approve,
        }
    }
}

impl AgentPlugin {
    /// One of the plugin's servers, with the plugin's policy on it.
    pub fn server(&self, name: &str) -> (r: BoundServer)
        ensures
            r.v() == self.v().server(name@),
    {
        BoundServer {
            path: ConnectionPath::PluginServer { plugin: self.id.dup(), server: name.to_owned() },
            tools: self.tools.dup(),
            auth_failure: self.auth_failure,
            tool_sync_failure: self.tool_sync_failure,
            approve: self.approve,
        }
    }
}

/// What the model sees of a skill before it loads it.
#[derive(Debug, PartialEq)]
pub struct SkillMeta {
    pub name: String,
    pub description: String,
}

/// The value of [`SkillMeta`].
pub struct SkillMetaV {
    pub name: Seq<char>,
    pub description: Seq<char>,
}

impl Model for SkillMeta {
    type V = SkillMetaV;

    open spec fn v(&self) -> SkillMetaV {
        SkillMetaV {
            name: self.name.v(),
            description: self.description.v(),
        }
    }

    fn dup(&self) -> (r: SkillMeta) {
        SkillMeta {
            name: self.name.dup(),
            description: self.description.dup(),
        }
    }
}

impl Same for SkillMeta {
    fn same(&self, other: &SkillMeta) -> (r: bool) {
        self.name.same(&other.name)
            && self.description.same(&other.description)
    }
}

impl Clone for SkillMeta {
    fn clone(&self) -> (r: SkillMeta)
        ensures
            r.v() == self.v(),
    {
        self.dup()
    }
}

/// A subagent the model can delegate to. `id` names the child agent; the model
/// calls the tool [`Subagent::offered_name`] gives. Its input is one `message`.
#[derive(Debug, PartialEq)]
pub struct Subagent {
    pub id: String,
    pub description: String,
    /// Keep this tool out of the request. Absent gives the agent's
    /// `defer_tools`.
    pub defer: Option<bool>,
    /// Offer the tool as `agent__<id>` instead of `<id>`.
    pub prefix: Option<bool>,
    pub mode: Option<SubagentMode>,
}

/// The value of [`Subagent`].
pub struct SubagentV {
    pub id: Seq<char>,
    pub description: Seq<char>,
    pub defer: Option<bool>,
    pub prefix: Option<bool>,
    pub mode: Option<SubagentMode>,
}

impl Model for Subagent {
    type V = SubagentV;

    open spec fn v(&self) -> SubagentV {
        SubagentV {
            id: self.id.v(),
            description: self.description.v(),
            defer: self.defer.v(),
            prefix: self.prefix.v(),
            mode: self.mode.v(),
        }
    }

    fn dup(&self) -> (r: Subagent) {
        Subagent {
            id: self.id.dup(),
            description: self.description.dup(),
            defer: self.defer.dup(),
            prefix: self.prefix.dup(),
            mode: self.mode.dup(),
        }
    }
}

impl Same for Subagent {
    fn same(&self, other: &Subagent) -> (r: bool) {
        self.id.same(&other.id)
            && self.description.same(&other.description)
            && self.defer.same(&other.defer)
            && self.prefix.same(&other.prefix)
            && self.mode.same(&other.mode)
    }
}

impl Clone for Subagent {
    fn clone(&self) -> (r: Subagent)
        ensures
            r.v() == self.v(),
    {
        self.dup()
    }
}

impl SubagentV {
    /// The name of the tool that calls the subagent.
    pub open spec fn offered_name(self) -> Seq<char> {
        if self.prefix == Some(true) {
            "agent__"@ + self.id
        } else {
            self.id
        }
    }
}

impl Subagent {
    /// The name of the tool that calls the subagent.
    pub fn offered_name(&self) -> (r: String)
        ensures
            r@ == self.v().offered_name(),
    {
        match self.prefix {
            Some(true) => "agent__".to_owned().concat(self.id.as_str()),
            _ => self.id.dup(),
        }
    }

    /// Whether the tool stays out of the request, where the agent says
    /// `default`.
    pub fn defers(&self, default: bool) -> (r: bool)
        ensures
            r == (match self.v().defer {
                Some(defer) => defer,
                None => default,
            }),
    {
        match self.defer {
            Some(defer) => defer,
            None => default,
        }
    }

    pub fn resolved_mode(&self) -> (r: SubagentMode)
        ensures
            r == (match self.v().mode {
                Some(mode) => mode,
                None => SubagentMode::Any,
            }),
    {
        match self.mode {
            Some(mode) => mode,
            None => SubagentMode::Any,
        }
    }
}

/// Inputs a client declares on its run, passed to the worker on the
/// `client.messages` decision. `tools` are the browser's own tools, read as
/// client-handled [`AgentTool`]s. The engine adds them to the proposed config.
/// A worker can override that by returning its own `agent`.
#[derive(Debug, PartialEq)]
pub struct ClientContext {
    pub tools: Vec<AgentTool>,
    pub context: Vec<Json>,
    pub state: Option<Json>,
    pub forwarded_props: Option<Json>,
}

/// The value of [`ClientContext`].
pub struct ClientContextV {
    pub tools: Seq<AgentToolV>,
    pub context: Seq<JsonV>,
    pub state: Option<JsonV>,
    pub forwarded_props: Option<JsonV>,
}

impl Model for ClientContext {
    type V = ClientContextV;

    open spec fn v(&self) -> ClientContextV {
        ClientContextV {
            tools: self.tools.v(),
            context: self.context.v(),
            state: self.state.v(),
            forwarded_props: self.forwarded_props.v(),
        }
    }

    fn dup(&self) -> (r: ClientContext) {
        ClientContext {
            tools: self.tools.dup(),
            context: self.context.dup(),
            state: self.state.dup(),
            forwarded_props: self.forwarded_props.dup(),
        }
    }
}

impl Clone for ClientContext {
    fn clone(&self) -> (r: ClientContext)
        ensures
            r.v() == self.v(),
    {
        self.dup()
    }
}

impl ClientContextV {
    pub open spec fn empty() -> ClientContextV {
        ClientContextV {
            tools: Seq::empty(),
            context: Seq::empty(),
            state: None,
            forwarded_props: None,
        }
    }
}

impl Default for ClientContext {
    fn default() -> (r: ClientContext)
        ensures
            r.v() == ClientContextV::empty(),
    {
        ClientContext {
            tools: crate::model::none(),
            context: crate::model::none(),
            state: None,
            forwarded_props: None,
        }
    }
}

} // verus!
