//! What holds of the tools the engine offers.
use crate::model::collect;
use crate::protocol::config::{AgentConfigV, BoundServerV, ConnectorToolV};
use crate::protocol::effect::{EffectKind, EffectStatus};
use crate::protocol::llm::LlmToolV;
use crate::session::effects::llm::{lists, merged, not_listed};
use crate::session::history::valid::law_the_config_in_force_is_valid;
use crate::session::offers::search::{found, ranked, score, scoring, shown, terms_of, ListingV};
use crate::session::offers::{contested, passes, remote, twice, uncontested};
use crate::session::progress::lemma_collected;
use crate::session::state::SessionStateV;
use crate::text;
use vstd::prelude::*;

verus! {

/// What is collected keeps its order: of two that are collected, the first
/// comes of an element before that of the second.
proof fn lemma_in_order<A>(s: Seq<A>, f: spec_fn(A) -> Option<A>, i: int, j: int)
    requires
        forall|a: A| (#[trigger] f(a)) is Some ==> f(a)->0 == a,
        0 <= i < j < collect(s, f).len(),
    ensures
        exists|a: int, b: int|
            0 <= a < b < s.len() && #[trigger] s[a] == collect(s, f)[i] && #[trigger] s[b]
                == collect(s, f)[j],
    decreases s.len(),
{
    let front = s.drop_last();
    let kept = collect(front, f);
    let all = collect(s, f);
    if j < kept.len() {
        lemma_in_order(front, f, i, j);
        let (a, b) = choose|a: int, b: int|
            0 <= a < b < front.len() && #[trigger] front[a] == kept[i] && #[trigger] front[b]
                == kept[j];
        assert(s[a] == all[i] && s[b] == all[j]);
    } else {
        lemma_collected(front, f, i);
        let a = choose|a: int| 0 <= a < front.len() && f(#[trigger] front[a]) == Some(kept[i]);
        assert(f(front[a]) is Some);
        assert(s[a] == all[i]);
        assert(f(s.last()) is Some);
        assert(s[s.len() - 1] == all[j]);
    }
}

/// No two tools the engine offers share a name, and none takes a name that the
/// agent declares.
pub proof fn law_offered_names_are_unique(state: SessionStateV, config: AgentConfigV)
    ensures
        forall|i: int, j: int|
            0 <= i < j < state.offer(config).tools.len() ==> (#[trigger] state.offer(
                config,
            ).tools[i]).name != (#[trigger] state.offer(config).tools[j]).name,
        forall|i: int|
            0 <= i < state.offer(config).tools.len() ==> !crate::session::offers::declares(
                config,
                (#[trigger] state.offer(config).tools[i]).name,
            ),
{
    let all = state.engine_tools(config);
    let f = uncontested(config, all);
    let tools = state.offer(config).tools;
    assert forall|i: int| 0 <= i < tools.len() implies !contested(
        config,
        all,
        (#[trigger] tools[i]).name,
    ) by {
        lemma_collected(all, f, i);
        let a = choose|a: int| 0 <= a < all.len() && f(#[trigger] all[a]) == Some(tools[i]);
        assert(f(all[a]) is Some);
    }
    assert forall|i: int, j: int| 0 <= i < j < tools.len() implies (#[trigger] tools[i]).name != (
    #[trigger] tools[j]).name by {
        lemma_in_order(all, f, i, j);
        let (a, b) = choose|a: int, b: int|
            0 <= a < b < all.len() && #[trigger] all[a] == tools[i] && #[trigger] all[b]
                == tools[j];
        assert(!contested(config, all, tools[i].name));
        if tools[i].name == tools[j].name {
            assert(all[a].name == tools[i].name && all[b].name == tools[i].name);
            assert(twice(all, tools[i].name));
        }
    }
}

/// A filter only removes: whatever a server offers, its connection granted.
pub proof fn law_a_filter_only_removes(
    state: SessionStateV,
    server: BoundServerV,
    default: bool,
    i: int,
)
    requires
        0 <= i < state.server_tools(server, default).len(),
    ensures
        ({
            let tool = state.server_tools(server, default)[i];
            let e = state.effect(EffectKind::ConnectorSync, server.path.written());
            e is Some && e->0.tracking.state == EffectStatus::Completed && exists|k: int|
                0 <= k < e->0.connector()->0.tools.len() && (
                #[trigger] e->0.connector()->0.tools[k]).name == tool.remote_name && passes(
                    server.tools,
                    e->0.connector()->0.tools[k],
                )
        }),
{
    let e = state.effect(EffectKind::ConnectorSync, server.path.written())->0;
    let sync = e.connector()->0;
    let f = remote(server, sync.prefix, default);
    lemma_collected(sync.tools, f, i);
    let k = choose|k: int|
        0 <= k < sync.tools.len() && f(#[trigger] sync.tools[k]) == Some(
            state.server_tools(server, default)[i],
        );
    assert(passes(server.tools, sync.tools[k]));
}

/// A request that goes out lists what it listed, and every tool the engine
/// offers.
pub proof fn law_offered_tools_are_listed(
    listed: Option<Seq<LlmToolV>>,
    offered: Seq<ConnectorToolV>,
    i: int,
)
    requires
        0 <= i < offered.len(),
    ensures
        merged(listed, offered) is Some,
        lists(merged(listed, offered)->0, offered[i].name),
        listed is Some ==> listed->0.is_prefix_of(merged(listed, offered)->0),
{
    let own = match listed {
        Some(tools) => tools,
        None => Seq::empty(),
    };
    let f = not_listed(own);
    let more = collect(offered, f);
    if lists(own, offered[i].name) {
        let k = choose|k: int| 0 <= k < own.len() && (#[trigger] own[k]).name == offered[i].name;
        assert((own + more)[k].name == offered[i].name);
    } else {
        lemma_takes(offered, f, i);
        let k = choose|k: int| 0 <= k < more.len() && more[k] == f(offered[i])->0;
        assert((own + more)[own.len() + k].name == offered[i].name);
    }
}

/// What is taken of an element is collected.
proof fn lemma_takes<A, B>(s: Seq<A>, f: spec_fn(A) -> Option<B>, i: int)
    requires
        0 <= i < s.len(),
        f(s[i]) is Some,
    ensures
        exists|k: int| 0 <= k < collect(s, f).len() && collect(s, f)[k] == f(s[i])->0,
    decreases s.len(),
{
    let front = collect(s.drop_last(), f);
    let all = collect(s, f);
    if i < s.len() - 1 {
        lemma_takes(s.drop_last(), f, i);
        let k = choose|k: int| 0 <= k < front.len() && front[k] == f(s[i])->0;
        assert(all[k] == front[k]);
    } else {
        assert(all[front.len() as int] == f(s[i])->0);
    }
}

/// A tool scores by the terms at most.
proof fn lemma_score(l: ListingV, terms: Seq<Seq<char>>)
    ensures
        score(l, terms) <= terms.len(),
    decreases terms.len(),
{
    if terms.len() > 0 {
        lemma_score(l, terms.drop_last());
    }
}

proof fn lemma_ranked(all: Seq<ListingV>, terms: Seq<Seq<char>>, n: nat, k: int)
    requires
        0 <= k < ranked(all, terms, n).len(),
    ensures
        all.contains(ranked(all, terms, n)[k]),
        0 < score(ranked(all, terms, n)[k], terms) <= n,
    decreases n,
{
    let best = collect(all, scoring(terms, n));
    if k < best.len() {
        lemma_collected(all, scoring(terms, n), k);
        let i = choose|i: int|
            0 <= i < all.len() && scoring(terms, n)(#[trigger] all[i]) == Some(best[k]);
        assert(all[i] == best[k]);
        assert(ranked(all, terms, n)[k] == best[k]);
    } else {
        lemma_ranked(all, terms, (n - 1) as nat, k - best.len());
        assert(ranked(all, terms, n)[k] == ranked(all, terms, (n - 1) as nat)[k - best.len()]);
    }
}

proof fn lemma_ranks(all: Seq<ListingV>, terms: Seq<Seq<char>>, n: nat, i: int)
    requires
        0 <= i < all.len(),
        0 < score(all[i], terms) <= n,
    ensures
        ranked(all, terms, n).contains(all[i]),
    decreases n,
{
    let best = collect(all, scoring(terms, n));
    let rest = ranked(all, terms, (n - 1) as nat);
    let both = ranked(all, terms, n);
    if score(all[i], terms) == n {
        lemma_takes(all, scoring(terms, n), i);
        let k = choose|k: int| 0 <= k < best.len() && best[k] == all[i];
        assert(both[k] == all[i]);
    } else {
        lemma_ranks(all, terms, (n - 1) as nat, i);
        let k = choose|k: int| 0 <= k < rest.len() && rest[k] == all[i];
        assert(both[best.len() + k] == all[i]);
    }
}

/// A search finds the tools that speak of one of its terms, and no others.
pub proof fn law_a_search_misses_nothing(all: Seq<ListingV>, query: Seq<char>, l: ListingV)
    ensures
        found(all, query).contains(l) <==> all.contains(l) && score(l, terms_of(query)) > 0,
{
    let terms = terms_of(query);
    let r = found(all, query);
    if r.contains(l) {
        let k = choose|k: int| 0 <= k < r.len() && r[k] == l;
        lemma_ranked(all, terms, terms.len(), k);
    }
    if all.contains(l) && score(l, terms) > 0 {
        let i = choose|i: int| 0 <= i < all.len() && all[i] == l;
        lemma_score(l, terms);
        lemma_ranks(all, terms, terms.len(), i);
    }
}

proof fn lemma_best_first(all: Seq<ListingV>, terms: Seq<Seq<char>>, n: nat, i: int, j: int)
    requires
        0 <= i < j < ranked(all, terms, n).len(),
    ensures
        score(ranked(all, terms, n)[i], terms) >= score(ranked(all, terms, n)[j], terms),
    decreases n,
{
    let best = collect(all, scoring(terms, n));
    let rest = ranked(all, terms, (n - 1) as nat);
    let both = ranked(all, terms, n);
    lemma_ranked(all, terms, n, j);
    if i < best.len() {
        lemma_collected(all, scoring(terms, n), i);
        let k = choose|k: int|
            0 <= k < all.len() && scoring(terms, n)(#[trigger] all[k]) == Some(best[i]);
        assert(score(all[k], terms) == n);
        assert(both[i] == best[i]);
    } else {
        lemma_best_first(all, terms, (n - 1) as nat, i - best.len(), j - best.len());
        assert(both[i] == rest[i - best.len()]);
        assert(both[j] == rest[j - best.len()]);
    }
}

/// A search gives the tools that speak of the most terms first.
pub proof fn law_the_best_come_first(all: Seq<ListingV>, query: Seq<char>, i: int, j: int)
    requires
        0 <= i < j < found(all, query).len(),
    ensures
        score(found(all, query)[i], terms_of(query)) >= score(
            found(all, query)[j],
            terms_of(query),
        ),
{
    lemma_best_first(all, terms_of(query), terms_of(query).len(), i, j);
}

/// A search that finds something shows something, wherever it is made: no config
/// on record asks for no match at all.
pub proof fn law_a_search_shows_something(
    state: SessionStateV,
    node: Option<Seq<char>>,
    query: Seq<char>,
)
    requires
        state.wf(),
        found(state.searchable(node), query).len() > 0,
    ensures
        shown(found(state.searchable(node), query), state.most_matches(node)).len() > 0,
{
    match state.agent_for(node) {
        Some(config) => law_the_config_in_force_is_valid(state, node),
        None => {
            let all = state.searchable(node);
            let first = found(all, query)[0];
            assert(found(all, query).contains(first));
            law_a_search_misses_nothing(all, query, first);
        },
    }
}

/// A pattern without a `*` fits itself alone.
pub proof fn law_a_plain_pattern_fits_itself(pattern: Seq<char>, name: Seq<char>)
    requires
        !pattern.contains('*'),
    ensures
        text::fits(pattern, name) <==> pattern == name,
{
    lemma_plain(pattern, 0, name, 0);
    if text::fits(pattern, name) {
        assert forall|k: int| 0 <= k < pattern.len() implies pattern[k] == name[k] by {
            assert(pattern[0 + k] == name[0 + k]);
        }
        assert(pattern =~= name);
    }
}

proof fn lemma_plain(pattern: Seq<char>, i: int, name: Seq<char>, j: int)
    requires
        !pattern.contains('*'),
        0 <= i <= pattern.len(),
        0 <= j <= name.len(),
    ensures
        text::fits_from(pattern, i, name, j) <==> pattern.len() - i == name.len() - j && forall|k:
            int|
            0 <= k < pattern.len() - i ==> #[trigger] pattern[i + k] == name[j + k],
    decreases pattern.len() - i,
{
    if i < pattern.len() {
        assert(pattern.contains(pattern[i]));
        if j < name.len() {
            lemma_plain(pattern, i + 1, name, j + 1);
            let rest = forall|k: int|
                0 <= k < pattern.len() - i - 1 ==> #[trigger] pattern[i + 1 + k] == name[j + 1 + k];
            let whole = forall|k: int|
                0 <= k < pattern.len() - i ==> #[trigger] pattern[i + k] == name[j + k];
            if whole {
                assert(pattern[i + 0] == name[j + 0]);
                assert forall|k: int| 0 <= k < pattern.len() - i - 1 implies #[trigger] pattern[i + 1
                    + k] == name[j + 1 + k] by {
                    assert(pattern[i + (k + 1)] == name[j + (k + 1)]);
                }
            }
            if rest && pattern[i] == name[j] {
                assert forall|k: int| 0 <= k < pattern.len() - i implies #[trigger] pattern[i + k]
                    == name[j + k] by {
                    if k > 0 {
                        assert(pattern[i + 1 + (k - 1)] == name[j + 1 + (k - 1)]);
                    }
                }
            }
        }
    }
}

} // verus!
