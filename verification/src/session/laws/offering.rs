//! What a model is offered, and where its calls go.
use crate::model::{any, collect};
use crate::protocol::config::{
    AgentConfigV, Approve, BoundServerV, ConnectorProtocol, ConnectorToolKind, ConnectorToolV,
    McpToolsV,
};
use crate::protocol::effect::{EffectKind, EffectStatus, Handler};
use crate::protocol::llm::LlmToolV;
use crate::session::decision::ToolHandler;
use crate::session::effects::llm::{lists, merged, not_listed};
use crate::session::events::{ConnectorTargetV, RemoteToolV};
use crate::session::laws::schedule::lemma_gives;
use crate::session::offers::routes::tool_called;
use crate::session::offers::{passes, remote, subagent_tools};
use crate::session::progress::lemma_collected;
use crate::session::state::SessionStateV;
use crate::text;
use vstd::prelude::*;

verus! {

/// A tool of a connection that the agent lets through is offered under the
/// connection's prefix, as the connection describes it, and a call to it goes to
/// that tool of that connection.
pub proof fn law_a_connections_tool_is_offered(
    s: SessionStateV,
    server: BoundServerV,
    default: bool,
    k: int,
)
    requires
        s.has_status(EffectKind::ConnectorSync, server.path.written(), EffectStatus::Completed),
        0 <= k < s.effect(
            EffectKind::ConnectorSync,
            server.path.written(),
        )->0.connector()->0.tools.len(),
        passes(
            server.tools,
            s.effect(EffectKind::ConnectorSync, server.path.written())->0.connector()->0.tools[k],
        ),
    ensures
        ({
            let sync = s.effect(
                EffectKind::ConnectorSync,
                server.path.written(),
            )->0.connector()->0;
            let t = sync.tools[k];
            s.server_tools(server, default).contains(
                ConnectorToolV {
                    name: if sync.prefix is Some {
                        sync.prefix->0 + "__"@ + t.name
                    } else {
                        t.name
                    },
                    description: t.description,
                    input: t.input,
                    output: t.output,
                    connector: Some(server.path),
                    via: ConnectorProtocol::Mcp,
                    remote_name: t.name,
                    kind: ConnectorToolKind::Remote,
                    defer: if server.tools is Some && server.tools->0.defer is Some {
                        server.tools->0.defer->0
                    } else {
                        default
                    },
                    approve: match server.approve {
                        Approve::Never => false,
                        Approve::Destructive => t.annotations.destructive == Some(true),
                        Approve::Always => true,
                    },
                },
            )
        }),
{
    let sync = s.effect(EffectKind::ConnectorSync, server.path.written())->0.connector()->0;
    lemma_gives(sync.tools, remote(server, sync.prefix, default), k);
}

/// A connection that has not answered offers nothing.
pub proof fn law_a_silent_connection_offers_nothing(
    s: SessionStateV,
    server: BoundServerV,
    default: bool,
)
    requires
        !s.has_status(EffectKind::ConnectorSync, server.path.written(), EffectStatus::Completed),
    ensures
        s.server_tools(server, default).len() == 0,
{
}

/// Whether a pattern fits a name.
pub open spec fn named_by(patterns: Seq<Seq<char>>, name: Seq<char>) -> bool {
    exists|i: int| 0 <= i < patterns.len() && text::fits(#[trigger] patterns[i], name)
}

/// A filter lets a tool through if it says of itself what the filter asks for,
/// is among those named, if any are, and is not among those left out.
pub proof fn law_a_filter_lets_through(f: McpToolsV, t: RemoteToolV)
    ensures
        passes(None, t),
        passes(Some(f), t) <==> {
            &&& f.read_only == Some(true) ==> t.annotations.read_only == Some(true)
            &&& f.non_destructive == Some(true) ==> t.annotations.destructive == Some(false)
            &&& f.idempotent == Some(true) ==> t.annotations.idempotent == Some(true)
            &&& f.only.len() == 0 || named_by(f.only, t.name)
            &&& !named_by(f.exclude, t.name)
        },
{
}

/// A request goes out with the tools it lists, in their order, and then with
/// every offered one that it does not list.
pub proof fn law_offered_tools_join_listed_ones(
    listed: Seq<LlmToolV>,
    offered: Seq<ConnectorToolV>,
    k: int,
)
    requires
        0 <= k < offered.len(),
    ensures
        ({
            let all = merged(Some(listed), offered);
            let t = offered[k];
            &&& all is Some
            &&& all->0.len() >= listed.len()
            &&& all->0.take(listed.len() as int) == listed
            &&& !(exists|i: int| 0 <= i < listed.len() && (#[trigger] listed[i]).name == t.name)
                ==> all->0.contains(
                LlmToolV {
                    name: t.name,
                    description: t.description,
                    input: t.input,
                    output: t.output,
                    defer: t.defer,
                },
            )
        }),
{
    let more = collect(offered, not_listed(listed));
    let all = merged(Some(listed), offered)->0;
    assert(all.take(listed.len() as int) =~= listed);
    let t = offered[k];
    if !(exists|i: int| 0 <= i < listed.len() && (#[trigger] listed[i]).name == t.name) {
        assert(!lists(listed, t.name));
        lemma_gives(offered, not_listed(listed), k);
        let j = choose|j: int| 0 <= j < more.len() && more[j] == t.listed();
        assert(all[listed.len() + j] == t.listed());
    }
}

/// A tool that the agent declares goes to the client if it says so, else to the
/// worker, whatever else is offered under its name.
pub proof fn law_a_declared_tool_goes_where_it_says(
    s: SessionStateV,
    name: Seq<char>,
    arguments: Seq<char>,
    k: int,
)
    requires
        s.agent_for(s.head_id) is Some,
        0 <= k < s.agent_for(s.head_id)->0.tools.len(),
        s.agent_for(s.head_id)->0.tools[k].name == name,
        forall|j: int|
            0 <= j < k ==> (#[trigger] s.agent_for(s.head_id)->0.tools[j]).name != name,
    ensures
        ({
            let route = s.direct_route(name, arguments);
            &&& route.name == name && route.arguments == arguments
            &&& route.target is None
            &&& route.handler == if s.agent_for(s.head_id)->0.tools[k].handler == Some(
                Handler::Client,
            ) {
                ToolHandler::Client
            } else {
                ToolHandler::Worker
            }
        }),
{
    let tools = s.agent_for(s.head_id)->0.tools;
    crate::model::lemma_position_is(tools, tool_called(name), k);
}

/// An offered tool of a connection is called by the engine, at that connection
/// and under the connection's own name for it.
pub proof fn law_an_offered_tool_goes_to_its_connection(
    s: SessionStateV,
    name: Seq<char>,
    arguments: Seq<char>,
    t: ConnectorToolV,
)
    requires
        s.declared_tool(name) is None,
        s.offered_tool(name) == Some(t),
    ensures
        ({
            let route = s.direct_route(name, arguments);
            &&& route.name == name && route.arguments == arguments
            &&& t.kind == ConnectorToolKind::Remote && t.connector is Some ==> route.handler
                == ToolHandler::Server && route.target == Some(
                ConnectorTargetV::Remote { path: t.connector->0, remote_name: t.remote_name },
            )
            &&& t.kind == ConnectorToolKind::Find ==> route.handler == ToolHandler::Server
                && route.target == Some(ConnectorTargetV::Find)
            &&& t.kind == ConnectorToolKind::Skill ==> route.handler == ToolHandler::Server
                && route.target == Some(ConnectorTargetV::Skill)
            &&& t.kind == ConnectorToolKind::Attachment ==> route.handler == ToolHandler::Server
                && route.target == Some(ConnectorTargetV::Attachment)
            &&& t.kind == ConnectorToolKind::Subagent ==> route.handler == ToolHandler::Worker
                && route.target is None
        }),
{
}

/// What nobody knows goes to the worker.
pub proof fn law_an_unknown_tool_goes_to_the_worker(
    s: SessionStateV,
    name: Seq<char>,
    arguments: Seq<char>,
)
    requires
        s.declared_tool(name) is None,
        s.offered_tool(name) is None,
    ensures
        s.direct_route(name, arguments).handler == ToolHandler::Worker,
        s.direct_route(name, arguments).target is None,
        s.direct_route(name, arguments).name == name,
        s.direct_route(name, arguments).arguments == arguments,
{
}

/// An agent that may go no deeper, or has no subagents, is offered none.
pub proof fn law_no_subagents_beyond_the_depth(config: AgentConfigV, depth: nat)
    ensures
        config.subagents.len() == 0 || depth >= config.depth_limit() ==> subagent_tools(
            config,
            depth,
        ).len() == 0,
        config.subagents.len() > 0 && depth < config.depth_limit() ==> subagent_tools(
            config,
            depth,
        ).len() > 0,
{
}

/// A name that the agent declares itself, or that is offered twice, is offered
/// by nobody, and is reported.
pub proof fn law_contested_names_are_reported(s: SessionStateV, config: AgentConfigV, k: int)
    requires
        0 <= k < s.engine_tools(config).len(),
        ({
            let all = s.engine_tools(config);
            ||| exists|i: int|
                0 <= i < config.tools.len() && (#[trigger] config.tools[i]).name == all[k].name
            ||| exists|j: int|
                0 <= j < all.len() && j != k && (#[trigger] all[j]).name == all[k].name
        }),
    ensures
        ({
            let offer = s.offer(config);
            let name = s.engine_tools(config)[k].name;
            &&& offer.collisions.contains(name)
            &&& forall|i: int| 0 <= i < offer.tools.len() ==> (#[trigger] offer.tools[i]).name != name
        }),
{
    let all = s.engine_tools(config);
    let name = all[k].name;
    assert(crate::session::offers::contested(config, all, name)) by {
        if exists|i: int| 0 <= i < config.tools.len() && (#[trigger] config.tools[i]).name == name {
            assert(crate::session::offers::declares(config, name));
        } else {
            let j = choose|j: int|
                0 <= j < all.len() && j != k && (#[trigger] all[j]).name == all[k].name;
            if j < k {
                assert(all[j].name == name && all[k].name == name);
            } else {
                assert(all[k].name == name && all[j].name == name);
            }
            assert(crate::session::offers::twice(all, name));
        }
    }
    lemma_reported(config, all, all.len() as int, k);
    let tools = s.offer(config).tools;
    assert forall|i: int| 0 <= i < tools.len() implies (#[trigger] tools[i]).name != name by {
        lemma_collected(all, crate::session::offers::uncontested(config, all), i);
    }
}

proof fn lemma_reported(config: AgentConfigV, all: Seq<ConnectorToolV>, n: int, k: int)
    requires
        0 <= k < n <= all.len(),
        crate::session::offers::contested(config, all, all[k].name),
    ensures
        crate::session::offers::collisions(config, all, n).contains(all[k].name),
    decreases n,
{
    let before = crate::session::offers::collisions(config, all, n - 1);
    let now = crate::session::offers::collisions(config, all, n);
    if k < n - 1 {
        lemma_reported(config, all, n - 1, k);
        let i = choose|i: int| 0 <= i < before.len() && before[i] == all[k].name;
        assert(now[i] == all[k].name);
    } else if !before.contains(all[k].name) {
        assert(now[before.len() as int] == all[k].name);
    }
}

} // verus!
