//! How long work may take, and what a session shows of it.
use crate::model::last_of;
use crate::protocol::effect::{EffectKind, EffectStatus, RetryPolicy};
use crate::protocol::json::decimal;
use crate::protocol::llm::UsageV;
use crate::session::fork::{agent_until, settled_fetch, state_until};
use crate::session::laws::happening::lemma_collects;
use crate::session::laws::schedule::lemma_gives;
use crate::session::retry::backoff;
use crate::session::state::{limit, EffectEntryV, SessionStateV, SessionStatusV};
use vstd::arithmetic::power2::{lemma_pow2_unfold, pow2};
use vstd::prelude::*;

verus! {

/// A limit in seconds is that many thousands of millions of nanoseconds away, as
/// far as instants go.
pub proof fn law_a_limit_is_seconds_away(at: i128, secs: u32)
    ensures
        limit(at, None) is None,
        limit(at, Some(secs)) == Some(
            if at + secs * 1_000_000_000 > i128::MAX {
                i128::MAX
            } else {
                (at + secs * 1_000_000_000) as i128
            },
        ),
{
}

/// The wait before another attempt doubles with each one, up to a limit.
pub proof fn law_waits_double(policy: RetryPolicy, attempts: u32)
    ensures
        backoff(policy, attempts) == if policy.backoff_base_secs * pow2(attempts as nat)
            < policy.backoff_max_secs {
            policy.backoff_base_secs * pow2(attempts as nat)
        } else {
            policy.backoff_max_secs as int
        },
    decreases attempts,
{
    let b = policy.backoff_base_secs as int;
    if attempts == 0 {
        vstd::arithmetic::power2::lemma2_to64();
    } else {
        law_waits_double(policy, (attempts - 1) as u32);
        lemma_pow2_unfold(attempts as nat);
        let p = pow2((attempts - 1) as nat) as int;
        assert(pow2(attempts as nat) == 2 * p);
        assert(b * (2 * p) == 2 * (b * p)) by (nonlinear_arith);
        assert(b * p >= 0) by (nonlinear_arith)
            requires
                b >= 0,
                p >= 0,
        ;
    }
}

/// The config in force at a node is the last one that was written on its way.
pub proof fn law_the_last_config_on_the_way_counts(
    s: SessionStateV,
    node: Option<Seq<char>>,
    k: int,
)
    requires
        0 <= k < s.agent_versions.len(),
        s.on_path(node, s.agent_versions[k].entry.anchor),
        forall|j: int|
            k < j < s.agent_versions.len() ==> !s.on_path(
                node,
                (#[trigger] s.agent_versions[j]).entry.anchor,
            ),
    ensures
        s.agent_for(node) == Some(s.agent_versions[k].entry.value),
{
    let p = crate::session::tree::agent_on(s.nodes, node);
    assert forall|j: int| k < j < s.agent_versions.len() implies !p(
        #[trigger] s.agent_versions[j],
    ) by {}
    lemma_last(s.agent_versions, p, k);
}

/// The worker's state in force at a node is the last one that was written on its
/// way, and `null` before there is one.
pub proof fn law_the_last_state_on_the_way_counts(
    s: SessionStateV,
    node: Option<Seq<char>>,
    k: int,
)
    requires
        0 <= k < s.state_versions.len(),
        s.on_path(node, s.state_versions[k].entry.anchor),
        forall|j: int|
            k < j < s.state_versions.len() ==> !s.on_path(
                node,
                (#[trigger] s.state_versions[j]).entry.anchor,
            ),
    ensures
        s.state_for(node) == s.state_versions[k].entry.value,
{
    let p = crate::session::tree::state_on(s.nodes, node);
    assert forall|j: int| k < j < s.state_versions.len() implies !p(
        #[trigger] s.state_versions[j],
    ) by {}
    lemma_last(s.state_versions, p, k);
}

proof fn lemma_last<A>(s: Seq<A>, p: spec_fn(A) -> bool, k: int)
    requires
        0 <= k < s.len(),
        p(s[k]),
        forall|j: int| k < j < s.len() ==> !p(#[trigger] s[j]),
    ensures
        last_of(s, p) == Some(s[k]),
    decreases s.len(),
{
    if k < s.len() - 1 {
        let front = s.drop_last();
        assert(!p(s[s.len() - 1]));
        assert forall|j: int| k < j < front.len() implies !p(#[trigger] front[j]) by {
            assert(front[j] == s[j]);
        }
        assert(front[k] == s[k]);
        lemma_last(front, p, k);
    }
}

/// What holds everywhere holds at each node, and each node is on its own way.
pub proof fn law_a_node_is_on_its_own_way(s: SessionStateV, id: Seq<char>, node: Option<Seq<char>>)
    ensures
        s.on_path(node, None),
        s.on_path(Some(id), Some(id)),
        !s.on_path(None, Some(id)),
{
}

/// A session that is stopped where it stands shows so, with who stopped it; one
/// that is not shows its own status.
pub proof fn law_a_stopped_session_shows_it(s: SessionStateV)
    ensures
        match s.parked_at(s.head_id) {
            Some(i) => s.projected_status() == (SessionStatusV::Interrupted {
                interrupt_id: i.interrupt_id,
                origin: i.origin,
            }),
            None => s.projected_status() == s.status,
        },
{
}

/// A session shows every call and every fetch that has not come to an end.
pub proof fn law_what_runs_is_shown(s: SessionStateV, k: int)
    requires
        0 <= k < s.effects.len(),
        s.effects[k].kind() != EffectKind::Decision,
        s.effects[k].tracking.state != EffectStatus::Completed,
        s.effects[k].tracking.state != EffectStatus::Failed,
    ensures
        s.running().contains(s.effects[k].shown()),
        ({
            let e = s.effects[k];
            let shown = e.shown();
            &&& shown.id == e.id && shown.kind == e.kind() && shown.status == e.tracking.state
            &&& shown.attempt == e.tracking.retry.attempts && shown.deadline == e.tracking.deadline
            &&& shown.anchor == e.anchor
            &&& e.tool() is Some ==> shown.name == Some(e.tool()->0.name) && shown.arguments
                == Some(e.tool()->0.arguments)
            &&& e.subagent() is Some ==> shown.agent_id == Some(e.subagent()->0.agent_id)
                && shown.session_id == Some(e.subagent()->0.session_id)
            &&& e.llm() is Some ==> shown.stream == Some(e.llm()->0.stream)
        }),
{
    lemma_gives(s.effects, crate::session::report::still_running(), k);
}

/// A session that is rewound stands at the node it is rewound to, with what was
/// written until then. Nothing runs, waits or is stopped, and of all work only
/// what connections offered is kept.
pub proof fn law_a_rewound_session_starts_over(
    s: SessionStateV,
    seq: u64,
    head: Option<Seq<char>>,
    e: EffectEntryV,
)
    ensures
        ({
            let t = s.rewound(seq, head);
            &&& t.head_id == head
            &&& t.phase is Idle
            &&& t.turn_cost == decimal(0, 0)
            &&& t.turn_token_usage == UsageV::zero()
            &&& t.schedule_queue.len() == 0
            &&& t.open_interrupts.len() == 0
            &&& !t.session_start_failed
            &&& t.effects.contains(e) <==> s.effects.contains(e) && e.kind()
                == EffectKind::ConnectorSync && (e.tracking.state == EffectStatus::Completed
                || e.tracking.state == EffectStatus::Failed)
            &&& t.nodes == s.nodes && t.owner == s.owner && t.agent_id == s.agent_id
                && t.session_id == s.session_id && t.completed_turn_ids == s.completed_turn_ids
                && t.subagent_cost == s.subagent_cost
        }),
{
    lemma_collects(s.effects, settled_fetch(), e);
}

/// A session that is rewound keeps just the configs and the states that were
/// written until then.
pub proof fn law_a_rewound_session_forgets_what_came_later(
    s: SessionStateV,
    seq: u64,
    head: Option<Seq<char>>,
    a: crate::session::state::LoggedV<crate::session::state::AgentVersionV>,
    b: crate::session::state::LoggedV<crate::session::state::StateVersionV>,
)
    ensures
        s.rewound(seq, head).agent_versions.contains(a) <==> s.agent_versions.contains(a) && a.seq
            <= seq,
        s.rewound(seq, head).state_versions.contains(b) <==> s.state_versions.contains(b) && b.seq
            <= seq,
{
    lemma_collects(s.agent_versions, agent_until(seq), a);
    lemma_collects(s.state_versions, state_until(seq), b);
}

} // verus!
