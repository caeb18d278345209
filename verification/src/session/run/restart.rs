//! What a restart of the engine loses.
use crate::model::{append_one, collect, lemma_collect_step, Model};
use crate::protocol::effect::{EffectKind, EffectStatus};
use crate::protocol::error::{ErrorCode, ErrorInfo, ErrorInfoV};
use crate::session::decision::LlmHandler;
use crate::session::effects;
use crate::session::outcome::{Outcome, OutcomeV, SettleError, SettleErrorV};
use crate::session::state::{EffectEntryV, SessionState};
use crate::session::working::{Working, WorkingV};
use vstd::prelude::*;

verus! {

/// Why a piece of work that a restart lost is tried again.
pub const LOST: &'static str = "dispatch lost on engine restart";

pub open spec fn lost() -> OutcomeV {
    OutcomeV::Error(SettleErrorV::new(ErrorInfoV::new(ErrorCode::Internal, LOST@), true))
}

/// A call of the engine to a model, lost if it is out.
pub open spec fn orphaned() -> spec_fn(EffectEntryV) -> Option<Seq<char>> {
    |e: EffectEntryV|
        match e.llm() {
            Some(call) => if call.handler == LlmHandler::Server && e.tracking.state
                == EffectStatus::Pending {
                Some(e.id)
            } else {
                None
            },
            None => None,
        }
}

fn lost_outcome() -> (r: Outcome)
    ensures
        r.v() == lost(),
{
    Outcome::Error(SettleError::new(ErrorInfo::internal(LOST.to_owned()), true))
}

impl WorkingV {
    /// Work that was out when the engine stopped counts as failed.
    #[verifier::opaque]
    pub open spec fn lose(self, kind: EffectKind, id: Seq<char>) -> WorkingV {
        self.emit_batch(self.state.settle(kind, id, lost(), self.ids))
    }

    /// The decisions that were out are lost. One that is not tried again ends
    /// the run, and with it the search for others.
    pub open spec fn lose_decisions(self, pending: Seq<(Seq<char>, bool)>) -> (WorkingV, bool)
        decreases pending.len(),
    {
        if pending.len() == 0 {
            (self, false)
        } else {
            let after = self.lose(EffectKind::Decision, pending[0].0);
            if pending[0].1 {
                (after, true)
            } else {
                after.lose_decisions(pending.drop_first())
            }
        }
    }

    pub open spec fn lose_calls(self, ids: Seq<Seq<char>>) -> WorkingV
        decreases ids.len(),
    {
        if ids.len() == 0 {
            self
        } else {
            self.lose_calls(ids.drop_last()).lose(EffectKind::LlmCall, ids.last())
        }
    }

    /// After a restart: decisions that were out are lost, and so are the
    /// engine's own calls to a model, unless a decision ended the run.
    #[verifier::opaque]
    pub open spec fn reconcile_dispatch(self) -> WorkingV {
        let decided = self.lose_decisions(self.state.pending_decisions());
        if decided.1 {
            decided.0
        } else {
            decided.0.lose_calls(collect(decided.0.state.effects, orphaned()))
        }
    }
}

impl SessionState {
    pub(crate) fn orphaned_calls(&self) -> (r: Vec<String>)
        ensures
            r.v() == collect(self.v().effects, orphaned()),
    {
        let mut out: Vec<String> = crate::model::none();
        let mut i: usize = 0;
        let ghost all = self.v().effects;
        assert(all.take(0) =~= Seq::empty());
        while i < self.effects.len()
            invariant
                i <= self.effects@.len(),
                all == self.v().effects,
                out.v() == collect(all.take(i as int), orphaned()),
            decreases self.effects@.len() - i,
        {
            proof {
                lemma_collect_step(all, orphaned(), i as int);
            }
            let e = &self.effects[i];
            assert(all[i as int] == e.v());
            match e.llm() {
                Some(call) => {
                    if call.handler == LlmHandler::Server && e.tracking.state
                        == EffectStatus::Pending {
                        append_one(&mut out, e.id.dup());
                    }
                },
                None => {},
            }
            i = i + 1;
        }
        assert(all.take(i as int) =~= all);
        out
    }
}

impl Working {
    pub(crate) fn lose(&mut self, kind: EffectKind, id: &str)
        ensures
            final(self).v() == old(self).v().lose(kind, id@),
    {
        proof {
            reveal(WorkingV::lose);
        }
        let events = effects::settle(&self.state, kind, id, lost_outcome(), &mut self.ids);
        self.emit_all(events);
    }

    /// After a restart: what was out is lost.
    pub(crate) fn run_reconcile_dispatch(&mut self)
        ensures
            final(self).v() == old(self).v().reconcile_dispatch(),
    {
        proof {
            reveal(WorkingV::reconcile_dispatch);
        }
        let pending = self.state.pending_decisions();
        let ghost all = self.v().state.pending_decisions();
        let ghost whole = self.v().lose_decisions(all);
        let mut i: usize = 0;
        assert(all.skip(0) =~= all);
        while i < pending.len()
            invariant
                i <= pending@.len(),
                pending@.len() == all.len(),
                all == old(self).v().state.pending_decisions(),
                whole == old(self).v().lose_decisions(all),
                forall|j: int|
                    0 <= j < pending@.len() ==> (pending@[j].0@, (#[trigger] pending@[j]).1)
                        == all[j],
                whole == self.v().lose_decisions(all.skip(i as int)),
            decreases pending@.len() - i,
        {
            assert((pending@[i as int].0@, pending@[i as int].1) == all[i as int]);
            assert(all.skip(i as int)[0] == all[i as int]);
            assert(all.skip(i as int).drop_first() =~= all.skip(i + 1));
            self.lose(EffectKind::Decision, pending[i].0.as_str());
            if pending[i].1 {
                proof {
                    reveal(WorkingV::reconcile_dispatch);
                }
                return;
            }
            i = i + 1;
        }
        assert(whole == (self.v(), false));
        let orphaned = self.state.orphaned_calls();
        let ghost ids = orphaned.v();
        let ghost before = self.v();
        let mut k: usize = 0;
        assert(ids.take(0) =~= Seq::empty());
        while k < orphaned.len()
            invariant
                k <= orphaned@.len(),
                ids == orphaned.v(),
                self.v() == before.lose_calls(ids.take(k as int)),
            decreases orphaned@.len() - k,
        {
            assert(ids.take(k + 1).drop_last() =~= ids.take(k as int));
            assert(ids.take(k + 1).last() == orphaned@[k as int]@);
            self.lose(EffectKind::LlmCall, orphaned[k].as_str());
            k = k + 1;
        }
        assert(ids.take(k as int) =~= ids);
    }
}

} // verus!
