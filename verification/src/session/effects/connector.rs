//! The tools of a connection.
use crate::model::{append_one, collect, extend, lemma_collect_step, one, Model};
use crate::protocol::config::{
    AgentConfig, AgentConfigV, AgentPlugin, AgentPluginV, BoundServer, BoundServerV, McpServer,
    McpServerV,
};
use crate::protocol::effect::{EffectKind, RetryConfig, RetryPolicy};
use crate::session::deps::{Dep, DepV};
use crate::session::events::{
    ConnectorSyncCompleted, ConnectorSyncCompletedV, ConnectorSyncErrored, ConnectorSyncErroredV,
    ConnectorSyncRequested, ConnectorSyncRequestedV, EventPayload, EventPayloadV,
};
use crate::session::outcome::{Outcome, OutcomeV};
use crate::session::retry::RetryTarget;
use crate::session::state::{SessionState, SessionStateV};
use vstd::prelude::*;

verus! {

/// The servers of one plugin, under its policy.
pub open spec fn plugin_servers(plugin: AgentPluginV) -> Seq<BoundServerV> {
    plugin.servers.map_values(|name: Seq<char>| plugin.server(name))
}

/// The servers of all plugins, in order.
pub open spec fn all_plugin_servers(plugins: Seq<AgentPluginV>) -> Seq<BoundServerV>
    decreases plugins.len(),
{
    if plugins.len() == 0 {
        Seq::empty()
    } else {
        all_plugin_servers(plugins.drop_last()) + plugin_servers(plugins.last())
    }
}

/// The connections an agent reaches: its own servers, then those of its
/// plugins.
pub open spec fn servers_for(config: AgentConfigV) -> Seq<BoundServerV> {
    config.mcp.map_values(|m: McpServerV| m.bind()) + all_plugin_servers(config.plugins)
}

/// A connection's offer is fetched for the first time.
pub open spec fn fetched(server: BoundServerV, retry: RetryPolicy) -> EventPayloadV {
    EventPayloadV::ConnectorSyncRequested(
        ConnectorSyncRequestedV { path: server.path, attempt: 0, retry },
    )
}

pub open spec fn sync_policy(config: Option<RetryConfig>) -> RetryPolicy {
    RetryPolicy::resolved(None, config, RetryTarget::ConnectorSync)
}

impl SessionStateV {
    /// Whether a connection's offer was ever asked for.
    pub open spec fn fetched_before(self, server: BoundServerV) -> bool {
        self.effect(EffectKind::ConnectorSync, server.path.written()) is Some
    }

    /// Whether a connection's offer is there, or will not come.
    pub open spec fn sync_settled(self, server: BoundServerV) -> bool {
        match self.tracking(EffectKind::ConnectorSync, server.path.written()) {
            Some(t) => !t.in_flight(),
            None => false,
        }
    }

    pub open spec fn owes(self) -> spec_fn(BoundServerV) -> Option<DepV> {
        |server: BoundServerV|
            if self.sync_settled(server) {
                None
            } else {
                Some(DepV::ConnectorSettled { path: server.path.written() })
            }
    }

    /// The connections the agent reaches from where the conversation stands.
    pub open spec fn head_servers(self) -> Seq<BoundServerV> {
        match self.agent_for(self.head_id) {
            Some(config) => servers_for(config),
            None => Seq::empty(),
        }
    }

    /// The offers the agent is still owed.
    pub open spec fn owed(self) -> Seq<DepV> {
        collect(self.head_servers(), self.owes())
    }

    pub open spec fn first_fetch(self, retry: RetryPolicy) -> spec_fn(BoundServerV) -> Option<
        EventPayloadV,
    > {
        |server: BoundServerV|
            if self.fetched_before(server) {
                None
            } else {
                Some(fetched(server, retry))
            }
    }

    /// What a new config fetches: the connections that were never asked for.
    pub open spec fn sync(self, config: AgentConfigV) -> Seq<EventPayloadV> {
        collect(servers_for(config), self.first_fetch(sync_policy(config.retry)))
    }

    /// A fetch settles with an offer or a failure.
    pub open spec fn settle_sync(self, id: Seq<char>, outcome: OutcomeV) -> Seq<EventPayloadV> {
        match outcome {
            OutcomeV::Connector { server, prefix, tools, instructions } => seq![
                EventPayloadV::ConnectorSyncCompleted(
                    ConnectorSyncCompletedV { id, prefix, tools, instructions },
                ),
            ],
            OutcomeV::Error(e) => seq![
                EventPayloadV::ConnectorSyncErrored(
                    ConnectorSyncErroredV { id, error: e.error, retryable: e.retryable, auth: e.auth },
                ),
            ],
            _ => Seq::empty(),
        }
    }

    /// A fetch is tried again.
    pub open spec fn retry_sync(self, id: Seq<char>) -> Seq<EventPayloadV> {
        match self.effect(EffectKind::ConnectorSync, id) {
            Some(e) => match e.connector() {
                Some(sync) => seq![
                    EventPayloadV::ConnectorSyncRequested(
                        ConnectorSyncRequestedV {
                            path: sync.path,
                            attempt: crate::session::effects::next_attempt(e.tracking),
                            retry: e.tracking.retry.policy,
                        },
                    ),
                ],
                None => Seq::empty(),
            },
            None => Seq::empty(),
        }
    }
}

fn bind_all(mcp: &Vec<McpServer>) -> (r: Vec<BoundServer>)
    ensures
        r.v() == mcp.v().map_values(|m: McpServerV| m.bind()),
{
    let mut out: Vec<BoundServer> = crate::model::none();
    let mut i: usize = 0;
    while i < mcp.len()
        invariant
            i <= mcp@.len(),
            out.v() == mcp.v().take(i as int).map_values(|m: McpServerV| m.bind()),
        decreases mcp@.len() - i,
    {
        append_one(&mut out, mcp[i].bind());
        i = i + 1;
        assert(out.v() =~= mcp.v().take(i as int).map_values(|m: McpServerV| m.bind()));
    }
    assert(mcp.v().take(i as int) =~= mcp.v());
    out
}

fn serve_all(plugin: &AgentPlugin) -> (r: Vec<BoundServer>)
    ensures
        r.v() == plugin_servers(plugin.v()),
{
    let mut out: Vec<BoundServer> = crate::model::none();
    let mut i: usize = 0;
    while i < plugin.servers.len()
        invariant
            i <= plugin.servers@.len(),
            out.v() == plugin_servers(plugin.v()).take(i as int),
        decreases plugin.servers@.len() - i,
    {
        append_one(&mut out, plugin.server(plugin.servers[i].as_str()));
        i = i + 1;
        assert(out.v() =~= plugin_servers(plugin.v()).take(i as int));
    }
    assert(out.v() =~= plugin_servers(plugin.v()));
    out
}

impl SessionState {
    /// The connections an agent reaches.
    pub fn servers_for(&self, config: &AgentConfig) -> (r: Vec<BoundServer>)
        ensures
            r.v() == servers_for(config.v()),
    {
        let mut out = bind_all(&config.mcp);
        let ghost own = out.v();
        let ghost plugins = config.plugins.v();
        let mut i: usize = 0;
        assert(plugins.take(0) =~= Seq::empty());
        assert(out.v() =~= own + all_plugin_servers(plugins.take(0)));
        while i < config.plugins.len()
            invariant
                i <= config.plugins@.len(),
                plugins == config.plugins.v(),
                out.v() == own + all_plugin_servers(plugins.take(i as int)),
            decreases config.plugins@.len() - i,
        {
            assert(plugins.take(i + 1).drop_last() =~= plugins.take(i as int));
            assert(plugins.take(i + 1).last() == config.plugins@[i as int].v());
            extend(&mut out, serve_all(&config.plugins[i]));
            i = i + 1;
            assert(out.v() =~= own + all_plugin_servers(plugins.take(i as int)));
        }
        assert(plugins.take(i as int) =~= plugins);
        out
    }

    /// The connections the agent reaches from where the conversation stands.
    pub fn head_servers(&self) -> (r: Vec<BoundServer>)
        ensures
            r.v() == self.v().head_servers(),
    {
        match self.at_head().agent() {
            Some(config) => self.servers_for(config),
            None => crate::model::none(),
        }
    }

    /// Whether a connection's offer is there, or will not come.
    pub fn sync_settled(&self, server: &BoundServer) -> (r: bool)
        ensures
            r == self.v().sync_settled(server.v()),
    {
        match self.tracking(EffectKind::ConnectorSync, &server.path.to_string()) {
            Some(t) => !t.is_in_flight(),
            None => false,
        }
    }
}

/// The offers the agent is still owed.
pub fn owed(state: &SessionState) -> (r: Vec<Dep>)
    ensures
        r.v() == state.v().owed(),
{
    let servers = state.head_servers();
    let ghost all = servers.v();
    let mut out: Vec<Dep> = crate::model::none();
    let mut i: usize = 0;
    assert(all.take(0) =~= Seq::empty());
    while i < servers.len()
        invariant
            i <= servers@.len(),
            all == servers.v(),
            out.v() == collect(all.take(i as int), state.v().owes()),
        decreases servers@.len() - i,
    {
        proof {
            lemma_collect_step(all, state.v().owes(), i as int);
        }
        assert(all[i as int] == servers@[i as int].v());
        if !state.sync_settled(&servers[i]) {
            append_one(&mut out, Dep::ConnectorSettled { path: servers[i].path.to_string() });
        }
        i = i + 1;
    }
    assert(all.take(i as int) =~= all);
    out
}

/// What a new config fetches.
pub fn sync(state: &SessionState, config: &AgentConfig) -> (r: Vec<EventPayload>)
    ensures
        r.v() == state.v().sync(config.v()),
{
    let retry_config = match &config.retry {
        Some(retry) => Some(&**retry),
        None => None,
    };
    let retry = RetryPolicy::resolve(None, retry_config, RetryTarget::ConnectorSync);
    let servers = state.servers_for(config);
    let ghost all = servers.v();
    let ghost fetch = state.v().first_fetch(retry);
    let mut out: Vec<EventPayload> = crate::model::none();
    let mut i: usize = 0;
    assert(all.take(0) =~= Seq::empty());
    while i < servers.len()
        invariant
            i <= servers@.len(),
            all == servers.v(),
            fetch == state.v().first_fetch(retry),
            out.v() == collect(all.take(i as int), fetch),
        decreases servers@.len() - i,
    {
        proof {
            lemma_collect_step(all, fetch, i as int);
        }
        assert(all[i as int] == servers@[i as int].v());
        if !state.has_effect(EffectKind::ConnectorSync, &servers[i].path.to_string()) {
            append_one(
                &mut out,
                EventPayload::ConnectorSyncRequested(
                    ConnectorSyncRequested { path: servers[i].path.dup(), attempt: 0, retry },
                ),
            );
        }
        i = i + 1;
    }
    assert(all.take(i as int) =~= all);
    out
}

pub struct ConnectorSpec;

impl ConnectorSpec {
    pub fn settle(&self, state: &SessionState, id: &str, outcome: Outcome) -> (r: Vec<EventPayload>)
        ensures
            r.v() == state.v().settle_sync(id@, outcome.v()),
    {
        match outcome {
            Outcome::Connector { server, prefix, tools, instructions } => one(
                EventPayload::ConnectorSyncCompleted(
                    ConnectorSyncCompleted { id: id.to_owned(), prefix, tools, instructions },
                ),
            ),
            Outcome::Error(e) => one(
                EventPayload::ConnectorSyncErrored(
                    ConnectorSyncErrored {
                        id: id.to_owned(),
                        error: e.error,
                        retryable: e.retryable,
                        auth: e.auth,
                    },
                ),
            ),
            _ => crate::model::none(),
        }
    }

    pub fn retry(&self, state: &SessionState, id: &str) -> (r: Vec<EventPayload>)
        ensures
            r.v() == state.v().retry_sync(id@),
    {
        match state.effect(EffectKind::ConnectorSync, id) {
            Some(e) => match e.connector() {
                Some(sync) => one(
                    EventPayload::ConnectorSyncRequested(
                        ConnectorSyncRequested {
                            path: sync.path.dup(),
                            attempt: crate::session::effects::following(&e.tracking),
                            retry: e.tracking.retry.policy,
                        },
                    ),
                ),
                None => crate::model::none(),
            },
            None => crate::model::none(),
        }
    }
}

} // verus!
