//! A session that goes another way from an earlier event on.
use crate::model::{append_one, collect, lemma_collect_step, own_text, Model};
use crate::protocol::effect::EffectKind;
use crate::protocol::json::{decimal, no_cost};
use crate::protocol::llm::{Usage, UsageV};
use crate::session::history::tidy::lemma_keep;
use crate::session::progress::lemma_collected;
use crate::session::state::{
    AgentVersion, AgentVersionV, EffectEntry, EffectEntryV, Logged, LoggedV, SessionState,
    SessionStateV, StateVersion, StateVersionV, TurnPhase, TurnPhaseV,
};
use vstd::prelude::*;

verus! {

/// What a connection offered, or that it offers nothing, is not asked again.
pub open spec fn settled_fetch() -> spec_fn(EffectEntryV) -> Option<EffectEntryV> {
    |e: EffectEntryV|
        if e.kind() == EffectKind::ConnectorSync && !e.tracking.in_flight() {
            Some(e)
        } else {
            None
        }
}

pub open spec fn agent_until(seq: u64) -> spec_fn(LoggedV<AgentVersionV>) -> Option<
    LoggedV<AgentVersionV>,
> {
    |l: LoggedV<AgentVersionV>|
        if l.seq <= seq {
            Some(l)
        } else {
            None
        }
}

pub open spec fn state_until(seq: u64) -> spec_fn(LoggedV<StateVersionV>) -> Option<
    LoggedV<StateVersionV>,
> {
    |l: LoggedV<StateVersionV>|
        if l.seq <= seq {
            Some(l)
        } else {
            None
        }
}

impl SessionStateV {
    /// The session at the event `seq`, with the conversation standing at `head`.
    /// What was written since of the agent and the worker's state is gone, and
    /// so is all work but the fetches that are settled.
    pub open spec fn rewound(self, seq: u64, head: Option<Seq<char>>) -> SessionStateV {
        SessionStateV {
            head_id: head,
            phase: TurnPhaseV::Idle,
            turn_cost: decimal(0, 0),
            turn_token_usage: UsageV::zero(),
            effects: collect(self.effects, settled_fetch()),
            schedule_queue: Seq::empty(),
            open_interrupts: Seq::empty(),
            agent_versions: collect(self.agent_versions, agent_until(seq)),
            state_versions: collect(self.state_versions, state_until(seq)),
            session_start_failed: false,
            ..self
        }
    }
}

/// A session that is rewound is tidy, and what it holds stays valid.
pub proof fn law_a_fork_is_tidy(state: SessionStateV, seq: u64, head: Option<Seq<char>>)
    requires
        state.tidy(),
    ensures
        state.rewound(seq, head).tidy(),
        state.rewound(seq, head).waits_right(),
        state.wf() ==> state.rewound(seq, head).wf(),
{
    reveal(SessionStateV::tidy);
    reveal(SessionStateV::waits_right);
    lemma_keep(state.effects, settled_fetch());
    let kept = state.rewound(seq, head).effects;
    assert forall|k: int| 0 <= k < kept.len() implies (#[trigger] kept[k]).kind()
        == EffectKind::ConnectorSync by {
        lemma_collected(state.effects, settled_fetch(), k);
    }
    if state.wf() {
        let versions = state.rewound(seq, head).agent_versions;
        assert forall|i: int| 0 <= i < versions.len() implies (
        #[trigger] versions[i]).entry.value.wf() by {
            lemma_collected(state.agent_versions, agent_until(seq), i);
            let k = choose|k: int|
                0 <= k < state.agent_versions.len() && agent_until(seq)(
                    #[trigger] state.agent_versions[k],
                ) == Some(versions[i]);
            assert(state.agent_versions[k].entry.value.wf());
        }
    }
}

fn keep_fetches(effects: &Vec<EffectEntry>) -> (r: Vec<EffectEntry>)
    ensures
        r.v() == collect(effects.v(), settled_fetch()),
{
    let ghost all = effects.v();
    let mut out: Vec<EffectEntry> = crate::model::none();
    let mut i: usize = 0;
    assert(all.take(0) =~= Seq::empty());
    while i < effects.len()
        invariant
            i <= effects@.len(),
            all == effects.v(),
            out.v() == collect(all.take(i as int), settled_fetch()),
        decreases effects@.len() - i,
    {
        proof {
            lemma_collect_step(all, settled_fetch(), i as int);
        }
        let e = &effects[i];
        assert(all[i as int] == e.v());
        if e.kind() == EffectKind::ConnectorSync && !e.tracking.is_in_flight() {
            append_one(&mut out, e.dup());
        }
        i = i + 1;
    }
    assert(all.take(i as int) =~= all);
    out
}

fn agents_until(versions: &Vec<Logged<AgentVersion>>, seq: u64) -> (r: Vec<Logged<AgentVersion>>)
    ensures
        r.v() == collect(versions.v(), agent_until(seq)),
{
    let ghost all = versions.v();
    let mut out: Vec<Logged<AgentVersion>> = crate::model::none();
    let mut i: usize = 0;
    assert(all.take(0) =~= Seq::empty());
    while i < versions.len()
        invariant
            i <= versions@.len(),
            all == versions.v(),
            out.v() == collect(all.take(i as int), agent_until(seq)),
        decreases versions@.len() - i,
    {
        proof {
            lemma_collect_step(all, agent_until(seq), i as int);
        }
        assert(all[i as int] == versions@[i as int].v());
        if versions[i].seq <= seq {
            append_one(&mut out, versions[i].dup());
        }
        i = i + 1;
    }
    assert(all.take(i as int) =~= all);
    out
}

fn states_until(versions: &Vec<Logged<StateVersion>>, seq: u64) -> (r: Vec<Logged<StateVersion>>)
    ensures
        r.v() == collect(versions.v(), state_until(seq)),
{
    let ghost all = versions.v();
    let mut out: Vec<Logged<StateVersion>> = crate::model::none();
    let mut i: usize = 0;
    assert(all.take(0) =~= Seq::empty());
    while i < versions.len()
        invariant
            i <= versions@.len(),
            all == versions.v(),
            out.v() == collect(all.take(i as int), state_until(seq)),
        decreases versions@.len() - i,
    {
        proof {
            lemma_collect_step(all, state_until(seq), i as int);
        }
        assert(all[i as int] == versions@[i as int].v());
        if versions[i].seq <= seq {
            append_one(&mut out, versions[i].dup());
        }
        i = i + 1;
    }
    assert(all.take(i as int) =~= all);
    out
}

impl SessionState {
    /// The session at the event `seq`, with the conversation standing at `head`.
    pub fn rewind(self, seq: u64, head: Option<&str>) -> (r: SessionState)
        ensures
            r.v() == self.v().rewound(seq, crate::model::text_of(head)),
    {
        let mut state = self;
        state.head_id = own_text(head);
        state.phase = TurnPhase::Idle;
        state.turn_cost = no_cost();
        state.turn_token_usage = Usage::default();
        state.effects = keep_fetches(&state.effects);
        state.schedule_queue = crate::model::none();
        state.open_interrupts = crate::model::none();
        state.agent_versions = agents_until(&state.agent_versions, seq);
        state.state_versions = states_until(&state.state_versions, seq);
        state.session_start_failed = false;
        state
    }
}

} // verus!
