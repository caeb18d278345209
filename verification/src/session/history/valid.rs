//! What a session holds is valid.
use crate::model::last_of;
use crate::session::apply::ApplyContext;
use crate::session::events::EventPayloadV;
use crate::session::history::lemma_who_kept;
use crate::session::state::{AgentVersionV, LoggedV, SessionStateV};
use crate::session::tree::agent_on;
use vstd::prelude::*;

verus! {

impl SessionStateV {
    /// Whether the owner and every config on record are valid.
    pub open spec fn wf(self) -> bool {
        (self.owner is Some ==> self.owner->0.wf()) && valid_versions(self.agent_versions)
    }
}

pub open spec fn valid_versions(versions: Seq<LoggedV<AgentVersionV>>) -> bool {
    forall|i: int| 0 <= i < versions.len() ==> (#[trigger] versions[i]).entry.value.wf()
}

/// Whatever may happen to a session leaves what it holds valid.
pub proof fn lemma_valid_apply(s: SessionStateV, event: EventPayloadV, ctx: ApplyContext)
    requires
        s.wf(),
        s.allows(event),
    ensures
        s.apply(event, ctx).wf(),
{
    match event {
        EventPayloadV::SessionCreated(_) => {
            reveal(SessionStateV::apply);
        },
        EventPayloadV::AgentConfigUpdated(p) => {
            lemma_who_kept(s, event, ctx);
            reveal(SessionStateV::apply);
            let after = s.apply(event, ctx).agent_versions;
            assert forall|i: int| 0 <= i < after.len() implies (
            #[trigger] after[i]).entry.value.wf() by {
                if i < s.agent_versions.len() {
                    assert(after[i] == s.agent_versions[i]);
                }
            }
        },
        _ => lemma_who_kept(s, event, ctx),
    }
}

/// The config in force anywhere is valid.
pub proof fn law_the_config_in_force_is_valid(s: SessionStateV, node: Option<Seq<char>>)
    requires
        s.wf(),
        s.agent_for(node) is Some,
    ensures
        s.agent_for(node)->0.wf(),
{
    lemma_last_valid(s.agent_versions, agent_on(s.nodes, node));
}

proof fn lemma_last_valid(
    versions: Seq<LoggedV<AgentVersionV>>,
    p: spec_fn(LoggedV<AgentVersionV>) -> bool,
)
    requires
        valid_versions(versions),
        last_of(versions, p) is Some,
    ensures
        last_of(versions, p)->0.entry.value.wf(),
    decreases versions.len(),
{
    let last = versions.len() - 1;
    assert(versions[last].entry.value.wf());
    if !p(versions.last()) {
        let front = versions.drop_last();
        assert forall|i: int| 0 <= i < front.len() implies (
        #[trigger] front[i]).entry.value.wf() by {
            assert(front[i] == versions[i]);
        }
        lemma_last_valid(front, p);
    }
}

} // verus!
