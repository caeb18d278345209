//! What a piece of work waits for.
use crate::model::{Model, Same};
use crate::text;
use vstd::prelude::*;

verus! {

/// What a piece of work waits for.
#[derive(Debug, PartialEq)]
pub enum Dep {
    /// That an interrupt is resumed.
    InterruptResumed { interrupt_id: String },
    /// That a turn ends.
    TurnSettled { turn_id: String },
    /// That a decision is answered.
    DecisionSettled { decision_id: String },
    /// That a connection's offer is there, or will not come.
    ConnectorSettled { path: String },
}

/// The value of [`Dep`].
pub enum DepV {
    InterruptResumed { interrupt_id: Seq<char> },
    TurnSettled { turn_id: Seq<char> },
    DecisionSettled { decision_id: Seq<char> },
    ConnectorSettled { path: Seq<char> },
}

impl Model for Dep {
    type V = DepV;

    open spec fn v(&self) -> DepV {
        match self {
            Dep::InterruptResumed { interrupt_id } => DepV::InterruptResumed {
                interrupt_id: interrupt_id.v(),
            },
            Dep::TurnSettled { turn_id } => DepV::TurnSettled {
                turn_id: turn_id.v(),
            },
            Dep::DecisionSettled { decision_id } => DepV::DecisionSettled {
                decision_id: decision_id.v(),
            },
            Dep::ConnectorSettled { path } => DepV::ConnectorSettled {
                path: path.v(),
            },
        }
    }

    fn dup(&self) -> (r: Dep) {
        match self {
            Dep::InterruptResumed { interrupt_id } => Dep::InterruptResumed {
                interrupt_id: interrupt_id.dup(),
            },
            Dep::TurnSettled { turn_id } => Dep::TurnSettled {
                turn_id: turn_id.dup(),
            },
            Dep::DecisionSettled { decision_id } => Dep::DecisionSettled {
                decision_id: decision_id.dup(),
            },
            Dep::ConnectorSettled { path } => Dep::ConnectorSettled {
                path: path.dup(),
            },
        }
    }
}

impl Same for Dep {
    fn same(&self, other: &Dep) -> (r: bool) {
        match (self, other) {
            (
                Dep::InterruptResumed { interrupt_id },
                Dep::InterruptResumed { interrupt_id: other_interrupt_id },
            ) => interrupt_id.same(other_interrupt_id),
            (
                Dep::TurnSettled { turn_id },
                Dep::TurnSettled { turn_id: other_turn_id },
            ) => turn_id.same(other_turn_id),
            (
                Dep::DecisionSettled { decision_id },
                Dep::DecisionSettled { decision_id: other_decision_id },
            ) => decision_id.same(other_decision_id),
            (
                Dep::ConnectorSettled { path },
                Dep::ConnectorSettled { path: other_path },
            ) => path.same(other_path),
            _ => false,
        }
    }
}

impl Clone for Dep {
    fn clone(&self) -> (r: Dep)
        ensures
            r.v() == self.v(),
    {
        self.dup()
    }
}

impl DepV {
    /// How the dependency is written.
    pub open spec fn label(self) -> Seq<char> {
        match self {
            DepV::InterruptResumed { interrupt_id } => "interrupt:"@ + interrupt_id,
            DepV::TurnSettled { turn_id } => "turn:"@ + turn_id,
            DepV::DecisionSettled { decision_id } => "decision:"@ + decision_id,
            DepV::ConnectorSettled { path } => "connector_sync:"@ + path,
        }
    }
}

/// Two dependencies that are written the same way are the same.
pub proof fn lemma_label_once(a: DepV, b: DepV)
    requires
        a.label() == b.label(),
    ensures
        a == b,
{
    reveal_strlit("interrupt:");
    reveal_strlit("turn:");
    reveal_strlit("decision:");
    reveal_strlit("connector_sync:");
    let w = a.label();
    assert(w[0] == a.label()[0] && w[0] == b.label()[0]);
    match (a, b) {
        (
            DepV::InterruptResumed { interrupt_id: x },
            DepV::InterruptResumed { interrupt_id: y },
        ) => {
            assert(w.skip(10) =~= x);
            assert(w.skip(10) =~= y);
        },
        (DepV::TurnSettled { turn_id: x }, DepV::TurnSettled { turn_id: y }) => {
            assert(w.skip(5) =~= x);
            assert(w.skip(5) =~= y);
        },
        (
            DepV::DecisionSettled { decision_id: x },
            DepV::DecisionSettled { decision_id: y },
        ) => {
            assert(w.skip(9) =~= x);
            assert(w.skip(9) =~= y);
        },
        (DepV::ConnectorSettled { path: x }, DepV::ConnectorSettled { path: y }) => {
            assert(w.skip(15) =~= x);
            assert(w.skip(15) =~= y);
        },
        _ => {},
    }
}

/// Whether dependencies stand in the order of their labels, none of them twice.
pub open spec fn in_order(deps: Seq<DepV>) -> bool {
    forall|i: int, j: int|
        0 <= i < j < deps.len() ==> text::less(
            (#[trigger] deps[i]).label(),
            (#[trigger] deps[j]).label(),
        )
}

/// Whether two lists hold the same dependencies.
pub open spec fn same_deps(a: Seq<DepV>, b: Seq<DepV>) -> bool {
    forall|d: DepV| a.contains(d) == b.contains(d)
}

impl Dep {
    /// How the dependency is written.
    pub fn label(&self) -> (r: String)
        ensures
            r@ == self.v().label(),
    {
        match self {
            Dep::InterruptResumed { interrupt_id } => "interrupt:".to_owned().concat(
                interrupt_id.as_str(),
            ),
            Dep::TurnSettled { turn_id } => "turn:".to_owned().concat(turn_id.as_str()),
            Dep::DecisionSettled { decision_id } => "decision:".to_owned().concat(
                decision_id.as_str(),
            ),
            Dep::ConnectorSettled { path } => "connector_sync:".to_owned().concat(path.as_str()),
        }
    }
}

/// Puts a dependency in its place, unless it is there already.
fn insert(deps: &mut Vec<Dep>, dep: Dep)
    requires
        in_order(old(deps).v()),
    ensures
        in_order(final(deps).v()),
        forall|d: DepV|
            final(deps).v().contains(d) == (old(deps).v().contains(d) || d == dep.v()),
{
    let label = dep.label();
    let ghost before = deps.v();
    let n = deps.len();
    let mut i: usize = 0;
    while i < n
        invariant
            i <= n,
            n == deps@.len(),
            before == deps.v(),
            before == old(deps).v(),
            in_order(before),
            label@ == dep.v().label(),
            forall|j: int| 0 <= j < i ==> text::less((#[trigger] before[j]).label(), label@),
        ensures
            i < n ==> text::less(label@, before[i as int].label()),
        decreases n - i,
    {
        let here = deps[i].label();
        assert(before[i as int] == deps@[i as int].v());
        if text::eq(here.as_str(), label.as_str()) {
            proof {
                lemma_label_once(before[i as int], dep.v());
            }
            return;
        }
        if !text::before_text(here.as_str(), label.as_str()) {
            proof {
                text::lemma_less_total(here@, label@);
            }
            break;
        }
        i = i + 1;
    }
    deps.insert(i, dep);
    proof {
        let after = deps.v();
        assert(after =~= before.insert(i as int, dep.v()));
        assert forall|a: int, b: int| 0 <= a < b < after.len() implies text::less(
            (#[trigger] after[a]).label(),
            (#[trigger] after[b]).label(),
        ) by {
            if a < i && b > i {
                assert(after[a] == before[a] && after[b] == before[b - 1]);
            } else if a == i {
                assert(after[b] == before[b - 1]);
                if b - 1 > i {
                    text::lemma_less_transitive(
                        label@,
                        before[i as int].label(),
                        before[b - 1].label(),
                    );
                }
            } else if b == i {
                assert(after[a] == before[a]);
            } else if a < i {
                assert(after[a] == before[a] && after[b] == before[b]);
            } else {
                assert(after[a] == before[a - 1] && after[b] == before[b - 1]);
            }
        }
        assert forall|d: DepV| after.contains(d) == (before.contains(d) || d == dep.v()) by {
            if before.contains(d) {
                let k = choose|k: int| 0 <= k < before.len() && before[k] == d;
                if k < i {
                    assert(after[k] == d);
                } else {
                    assert(after[k + 1] == d);
                }
            }
            if d == dep.v() {
                assert(after[i as int] == d);
            }
            if after.contains(d) {
                let k = choose|k: int| 0 <= k < after.len() && after[k] == d;
                if k < i {
                    assert(before[k] == d);
                } else if k > i {
                    assert(before[k - 1] == d);
                }
            }
        }
    }
}

/// Puts dependencies in the order of their labels, each of them once.
pub fn sorted(deps: &Vec<Dep>) -> (r: Vec<Dep>)
    ensures
        in_order(r.v()),
        same_deps(r.v(), deps.v()),
{
    let mut out: Vec<Dep> = crate::model::none();
    let mut i: usize = 0;
    assert(deps.v().take(0) =~= Seq::empty());
    while i < deps.len()
        invariant
            i <= deps@.len(),
            in_order(out.v()),
            same_deps(out.v(), deps.v().take(i as int)),
        decreases deps@.len() - i,
    {
        let ghost before = out.v();
        insert(&mut out, deps[i].dup());
        proof {
            let grown = deps.v().take(i + 1);
            assert(grown =~= deps.v().take(i as int).push(deps@[i as int].v()));
            assert forall|d: DepV| out.v().contains(d) == grown.contains(d) by {
                let shorter = deps.v().take(i as int);
                if grown.contains(d) {
                    let k = choose|k: int| 0 <= k < grown.len() && grown[k] == d;
                    if k < i {
                        assert(shorter[k] == d);
                    }
                }
                if shorter.contains(d) {
                    let k = choose|k: int| 0 <= k < shorter.len() && shorter[k] == d;
                    assert(grown[k] == d);
                }
                if d == deps@[i as int].v() {
                    assert(grown[i as int] == d);
                }
            }
        }
        i = i + 1;
    }
    assert(deps.v().take(i as int) =~= deps.v());
    out
}

} // verus!
