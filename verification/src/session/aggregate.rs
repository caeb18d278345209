//! A session between commands.
use crate::model::Model;
use crate::session::apply::ApplyContext;
use crate::session::caller::Caller;
use crate::session::command::CommandPayload;
use crate::session::error::{SessionError, SessionErrorV};
use crate::session::events::{EventPayload, EventPayloadV};
use crate::session::ids::Ids;
use crate::session::state::{SessionState, SessionStateV};
use crate::session::working::{next_seq, Working, WorkingV};
use vstd::prelude::*;

verus! {

/// When events are committed, in nanoseconds of the Unix epoch.
#[derive(Debug, Clone, Copy, PartialEq, Eq, Structural)]
pub struct CommitContext {
    pub occurred_at: i128,
}

/// A session, and the sequence number of its last event.
#[derive(Debug)]
pub struct SessionAggregate {
    pub session_id: String,
    pub tenant_id: String,
    pub state: SessionState,
    pub seq: u64,
}

/// A session and its sequence number after events that happened at `at`.
pub open spec fn replay(
    state: SessionStateV,
    seq: u64,
    at: i128,
    events: Seq<EventPayloadV>,
) -> (SessionStateV, u64)
    decreases events.len(),
{
    if events.len() == 0 {
        (state, seq)
    } else {
        let before = replay(state, seq, at, events.drop_last());
        let sequence = next_seq(before.1);
        (before.0.apply(events.last(), ApplyContext { occurred_at: at, sequence }), sequence)
    }
}

impl SessionAggregate {
    pub fn new(session_id: String, tenant_id: String, state: SessionState) -> (r: SessionAggregate)
        ensures
            r.session_id == session_id,
            r.tenant_id == tenant_id,
            r.state == state,
            r.seq == 0,
    {
        SessionAggregate { session_id, tenant_id, state, seq: 0 }
    }

    /// What a command comes to: the events to commit, or why it is refused.
    /// The session itself stays as it is.
    pub fn handle(&self, cmd: CommandPayload, caller: &Caller, now: i128, ids: Ids) -> (r: Result<
        Vec<EventPayload>,
        SessionError,
    >)
        ensures
            ({
                let ran = WorkingV::new(self.state.v(), self.seq, now, ids.v()).run(
                    cmd.v(),
                    caller.v(),
                );
                match ran.r {
                    Ok(_) => r.v() == Ok::<Seq<EventPayloadV>, SessionErrorV>(ran.w.events),
                    Err(e) => r.v() == Err::<Seq<EventPayloadV>, SessionErrorV>(e),
                }
            }),
    {
        let mut working = Working::new(self.state.dup(), self.seq, now, ids);
        match working.run(cmd, caller) {
            Ok(_) => Ok(working.into_events()),
            Err(e) => Err(e),
        }
    }

    /// Puts events into the session.
    pub fn commit(&mut self, events: Vec<EventPayload>, ctx: &CommitContext)
        ensures
            (final(self).state.v(), final(self).seq) == replay(
                old(self).state.v(),
                old(self).seq,
                ctx.occurred_at,
                events.v(),
            ),
            final(self).session_id == old(self).session_id,
            final(self).tenant_id == old(self).tenant_id,
    {
        let ghost all = events.v();
        let mut i: usize = 0;
        assert(all.take(0) =~= Seq::empty());
        while i < events.len()
            invariant
                i <= events@.len(),
                all == events.v(),
                (self.state.v(), self.seq) == replay(
                    old(self).state.v(),
                    old(self).seq,
                    ctx.occurred_at,
                    all.take(i as int),
                ),
                self.session_id == old(self).session_id,
                self.tenant_id == old(self).tenant_id,
            decreases events@.len() - i,
        {
            assert(all.take(i + 1).drop_last() =~= all.take(i as int));
            assert(all.take(i + 1).last() == events@[i as int].v());
            self.seq = if self.seq == u64::MAX {
                0
            } else {
                self.seq + 1
            };
            self.state.apply(
                &events[i],
                &ApplyContext { occurred_at: ctx.occurred_at, sequence: self.seq },
            );
            i = i + 1;
        }
        assert(all.take(i as int) =~= all);
    }
}

} // verus!
