//! What work brings about may happen at any time.
use crate::model::collect;
use crate::protocol::config::AgentConfigV;
use crate::protocol::effect::{EffectKind, RetryOverride};
use crate::protocol::message::DraftMessageV;
use crate::protocol::wire::ClientPayloadV;
use crate::session::caller::CallerV;
use crate::session::command::valid_config;
use crate::session::decision::TriggerV;
use crate::session::effects::connector::servers_for;
use crate::session::effects::llm::LlmAskV;
use crate::session::effects::subagent::SpawnV;
use crate::session::effects::turn_end::unsettled;
use crate::session::effects::void_if;
use crate::session::events::SubagentTurnCompletedV;
use crate::session::history::{all_calm, lemma_calm_both, lemma_calm_collected};
use crate::session::ids::IdsV;
use crate::session::outcome::OutcomeV;
use crate::session::state::{EffectTracking, SessionStateV};
use crate::session::transcript::completed;
use crate::session::working::WorkingV;
use vstd::prelude::*;

verus! {

pub proof fn lemma_settle_calm(
    s: SessionStateV,
    kind: EffectKind,
    id: Seq<char>,
    outcome: OutcomeV,
    ids: IdsV,
)
    requires
        kind != EffectKind::Decision,
    ensures
        all_calm(s.settle(kind, id, outcome, ids).events),
{
    reveal(SessionStateV::settle);
}

pub proof fn lemma_retry_calm(s: SessionStateV, kind: EffectKind, id: Seq<char>)
    ensures
        all_calm(s.retry(kind, id)),
{
    reveal(SessionStateV::retry);
}

pub proof fn lemma_request_llm_calm(s: SessionStateV, ask: LlmAskV)
    ensures
        all_calm(s.request_llm(ask)),
{
    reveal(SessionStateV::request_llm);
}

pub proof fn lemma_request_tool_calm(
    s: SessionStateV,
    id: Seq<char>,
    name: Seq<char>,
    arguments: Seq<char>,
    retry: Option<RetryOverride>,
)
    ensures
        all_calm(s.request_tool(id, name, arguments, retry)),
{
    reveal(SessionStateV::request_tool);
}

proof fn lemma_go_on_calm(s: SessionStateV, spawn: SpawnV, child: Seq<char>, ids: IdsV)
    ensures
        all_calm(s.go_on(spawn, child, ids).events),
{
    match s.last_call(child) {
        Some(entry) => {
            let call = entry.subagent()->0;
            let withdrawn = s.withdraw(child, ids.rest()).events;
            assert(all_calm(withdrawn));
            let answer = s.answer_wait(spawn, child, call, ids).events;
            assert(answer == seq![answer[0]] + withdrawn);
            lemma_calm_both(seq![answer[0]], withdrawn);
        },
        None => {},
    }
}

pub proof fn lemma_request_subagent_calm(s: SessionStateV, spawn: SpawnV, ids: IdsV)
    ensures
        all_calm(s.request_subagent(spawn, ids).events),
{
    reveal(SessionStateV::request_subagent);
    match spawn.session_id {
        Some(child) => lemma_go_on_calm(s, spawn, child, ids),
        None => {},
    }
}

pub proof fn lemma_detached_result_calm(
    w: WorkingV,
    session_id: Seq<char>,
    agent_id: Seq<char>,
    completed: SubagentTurnCompletedV,
)
    ensures
        all_calm(w.detached_result(session_id, agent_id, completed).events),
{
    reveal(WorkingV::detached_result);
}

proof fn lemma_write_calm(
    s: SessionStateV,
    messages: Seq<DraftMessageV>,
    i: int,
    parent: Option<Seq<char>>,
    used: Seq<Seq<char>>,
    ids: IdsV,
)
    ensures
        all_calm(s.write(messages, i, parent, used, ids).events),
    decreases messages.len() - i,
{
    if 0 <= i < messages.len() {
        let m = messages[i];
        let fresh = s.needs_id(m, used);
        let id = if fresh {
            ids.id()
        } else {
            m.id->0
        };
        let left = if fresh {
            ids.rest()
        } else {
            ids
        };
        lemma_write_calm(s, messages, i + 1, Some(id), used.push(id), left);
        let all = s.write(messages, i, parent, used, ids).events;
        lemma_calm_both(
            seq![all[0]],
            s.write(messages, i + 1, Some(id), used.push(id), left).events,
        );
    }
}

pub proof fn lemma_transcript_calm(s: SessionStateV, transcript: Seq<DraftMessageV>, ids: IdsV)
    ensures
        all_calm(s.reconcile_transcript(transcript, ids).events),
{
    reveal(SessionStateV::reconcile_transcript);
    let messages = s.normalized(transcript);
    let from = crate::session::transcript::news_from(s.known_ids(), messages);
    let parent = if from > 0 {
        messages[from - 1].id
    } else {
        None
    };
    lemma_write_calm(s, messages, from, parent, Seq::empty(), ids);
}

pub proof fn lemma_void_calm(
    s: SessionStateV,
    stranded: spec_fn(EffectKind, EffectTracking, Option<Seq<char>>) -> bool,
)
    ensures
        all_calm(s.void_effects(stranded)),
{
    lemma_calm_collected(s.effects, void_if(stranded));
}

pub proof fn lemma_stranded_calm(s: SessionStateV, node: Option<Seq<char>>)
    ensures
        all_calm(s.void_stranded_work(node)),
{
    reveal(SessionStateV::void_stranded_work);
    lemma_void_calm(s, s.left_behind(node));
    lemma_calm_collected(s.effects, s.stale_drop(node));
    lemma_calm_both(s.void_effects(s.left_behind(node)), collect(s.effects, s.stale_drop(node)));
}

pub proof fn lemma_worker_state_calm(
    s: SessionStateV,
    state: Option<crate::protocol::config::WorkerStateV>,
)
    ensures
        all_calm(s.worker_state_events(state)),
{
    reveal(SessionStateV::worker_state_events);
}

pub proof fn lemma_agent_config_calm(s: SessionStateV, config: Option<AgentConfigV>)
    requires
        valid_config(config),
    ensures
        all_calm(s.agent_config_events(config)),
{
    reveal(SessionStateV::agent_config_events);
    match config {
        Some(config) => {
            let retry = crate::session::effects::connector::sync_policy(config.retry);
            lemma_calm_collected(servers_for(config), s.first_fetch(retry));
            let fetches = s.sync(config);
            let written = s.agent_config_events(Some(config));
            if written.len() > 0 {
                lemma_calm_both(fetches, seq![written.last()]);
                assert(written =~= fetches + seq![written.last()]);
            }
        },
        None => {},
    }
}

proof fn lemma_put_calm(s: SessionStateV, trigger: TriggerV, ids: IdsV)
    requires
        !(trigger is TurnFinished),
    ensures
        all_calm(s.put_to_worker(trigger, ids).events),
{
}

proof fn lemma_client_view_calm(
    s: SessionStateV,
    messages: Seq<DraftMessageV>,
    client: crate::protocol::config::ClientContextV,
    caller: CallerV,
    ids: IdsV,
)
    ensures
        s.client_view(messages, client, caller, ids) is Ok ==> all_calm(
            s.client_view(messages, client, caller, ids)->Ok_0.events,
        ),
{
    reveal(SessionStateV::client_view);
    let view = s.normalized(messages);
    let done = s.completions(view, caller);
    let answers = done.map_values(|c: crate::session::transcript::CompletionV| completed(c));
    assert(all_calm(answers));
    assert forall|trigger: TriggerV| !(trigger is TurnFinished) implies all_calm(
        answers + #[trigger] s.put_to_worker(trigger, ids).events,
    ) && all_calm(s.put_to_worker(trigger, ids).events) by {
        lemma_put_calm(s, trigger, ids);
        lemma_calm_both(answers, s.put_to_worker(trigger, ids).events);
    }
}

pub proof fn lemma_client_payload_calm(
    s: SessionStateV,
    payload: ClientPayloadV,
    caller: CallerV,
    deferred: Option<Seq<char>>,
    ids: IdsV,
)
    ensures
        s.client_payload(payload, caller, deferred, ids) is Ok ==> all_calm(
            s.client_payload(payload, caller, deferred, ids)->Ok_0.events,
        ),
{
    reveal(SessionStateV::client_payload);
    match payload {
        ClientPayloadV::Messages(v) => lemma_client_view_calm(
            s,
            v.messages,
            v.client,
            caller,
            ids,
        ),
        _ => {
            assert forall|trigger: TriggerV| !(trigger is TurnFinished) implies all_calm(
                #[trigger] s.put_to_worker(trigger, ids).events,
            ) by {
                lemma_put_calm(s, trigger, ids);
            }
        },
    }
}

pub proof fn lemma_cleared_calm(s: SessionStateV)
    ensures
        all_calm(s.void_effects(unsettled()) + s.drop_queued_decisions()),
{
    lemma_void_calm(s, unsettled());
    lemma_calm_collected(s.effects, crate::session::effects::decision::droppable());
    lemma_calm_both(s.void_effects(unsettled()), s.drop_queued_decisions());
}

} // verus!
