//! The log of a session, from its first command on.
use crate::session::aggregate::replay;
use crate::session::apply::ApplyContext;
use crate::session::caller::CallerV;
use crate::session::command::CommandPayloadV;
use crate::session::events::EventPayloadV;
use crate::session::history::tidy::{lemma_new_is_tidy, lemma_tidy_apply};
use crate::session::history::valid::lemma_valid_apply;
use crate::session::history::waiting::{lemma_new_waits_right, lemma_waits_apply};
use crate::session::history::{calm, lemma_calm, orderly};
use crate::session::ids::IdsV;
use crate::session::laws::law_events_say_all;
use crate::session::state::SessionStateV;
use crate::session::working::{next_seq, WorkingV};
use vstd::prelude::*;

verus! {

/// An event of the log, and when it happened.
pub struct LogEntry {
    pub at: i128,
    pub event: EventPayloadV,
}

/// A session and its sequence number after its log.
pub open spec fn replay_log(state: SessionStateV, seq: u64, log: Seq<LogEntry>) -> (SessionStateV, u64)
    decreases log.len(),
{
    if log.len() == 0 {
        (state, seq)
    } else {
        let before = replay_log(state, seq, log.drop_last());
        let sequence = next_seq(before.1);
        (
            before.0.apply(
                log.last().event,
                ApplyContext { occurred_at: log.last().at, sequence },
            ),
            sequence,
        )
    }
}

/// Whether each event of the log happened to a session that allowed it.
pub open spec fn orderly_log(state: SessionStateV, seq: u64, log: Seq<LogEntry>) -> bool
    decreases log.len(),
{
    log.len() == 0 || orderly_log(state, seq, log.drop_last()) && replay_log(
        state,
        seq,
        log.drop_last(),
    ).0.allows(log.last().event)
}

/// The events of one command, as they are logged.
pub open spec fn logged_at(at: i128, events: Seq<EventPayloadV>) -> Seq<LogEntry> {
    events.map_values(|event: EventPayloadV| LogEntry { at, event })
}

proof fn lemma_extend(
    state: SessionStateV,
    seq: u64,
    log: Seq<LogEntry>,
    at: i128,
    events: Seq<EventPayloadV>,
)
    requires
        orderly_log(state, seq, log),
        orderly(
            replay_log(state, seq, log).0,
            replay_log(state, seq, log).1,
            at,
            events,
        ),
    ensures
        orderly_log(state, seq, log + logged_at(at, events)),
        replay_log(state, seq, log + logged_at(at, events)) == replay(
            replay_log(state, seq, log).0,
            replay_log(state, seq, log).1,
            at,
            events,
        ),
    decreases events.len(),
{
    let all = log + logged_at(at, events);
    if events.len() == 0 {
        assert(all =~= log);
    } else {
        let front = events.drop_last();
        lemma_extend(state, seq, log, at, front);
        assert(all.drop_last() =~= log + logged_at(at, front));
        assert(all.last() == (LogEntry { at, event: events.last() }));
    }
}

/// A command that is taken makes the log longer by its events, and leaves it in
/// order: the session it left is the one the longer log gives.
pub proof fn law_a_command_extends_the_log(
    state: SessionStateV,
    seq: u64,
    log: Seq<LogEntry>,
    now: i128,
    ids: IdsV,
    cmd: CommandPayloadV,
    caller: CallerV,
)
    requires
        orderly_log(state, seq, log),
        cmd.wf(),
    ensures
        ({
            let before = replay_log(state, seq, log);
            let after = WorkingV::new(before.0, before.1, now, ids).run(cmd, caller).w;
            let longer = log + logged_at(now, after.events);
            orderly_log(state, seq, longer) && replay_log(state, seq, longer) == (
                after.state,
                after.seq,
            )
        }),
{
    let before = replay_log(state, seq, log);
    let after = WorkingV::new(before.0, before.1, now, ids).run(cmd, caller).w;
    law_events_say_all(before.0, before.1, now, ids, cmd, caller);
    lemma_extend(state, seq, log, now, after.events);
}

/// Whatever its log, a session is tidy, its queue is right, and what it holds is
/// valid.
pub proof fn law_every_session_is_tidy(session_id: Seq<char>, seq: u64, log: Seq<LogEntry>)
    requires
        orderly_log(SessionStateV::new(session_id), seq, log),
    ensures
        replay_log(SessionStateV::new(session_id), seq, log).0.tidy(),
        replay_log(SessionStateV::new(session_id), seq, log).0.waits_right(),
        replay_log(SessionStateV::new(session_id), seq, log).0.wf(),
    decreases log.len(),
{
    let state = SessionStateV::new(session_id);
    if log.len() == 0 {
        lemma_new_is_tidy(session_id);
        lemma_new_waits_right(session_id);
    } else {
        law_every_session_is_tidy(session_id, seq, log.drop_last());
        let before = replay_log(state, seq, log.drop_last());
        let ctx = ApplyContext { occurred_at: log.last().at, sequence: next_seq(before.1) };
        lemma_tidy_apply(before.0, log.last().event, ctx);
        lemma_waits_apply(before.0, log.last().event, ctx);
        lemma_valid_apply(before.0, log.last().event, ctx);
    }
}

/// Whether an event ends a turn.
pub open spec fn ends_turn(event: EventPayloadV, turn_id: Seq<char>) -> bool {
    match event {
        EventPayloadV::TurnCompleted(p) => p.turn_id == turn_id,
        EventPayloadV::SessionCancelled => true,
        _ => false,
    }
}

/// Turns do not overlap: between the starts of two turns the first of them
/// completes, unless the session is cancelled.
pub proof fn law_turns_do_not_overlap(
    state: SessionStateV,
    seq: u64,
    log: Seq<LogEntry>,
    i: int,
    j: int,
)
    requires
        orderly_log(state, seq, log),
        0 <= i < j < log.len(),
        log[i].event is TurnStarted,
        log[j].event is TurnStarted,
    ensures
        exists|k: int|
            i < k < j && ends_turn(
                (#[trigger] log[k]).event,
                log[i].event->TurnStarted_0.turn_id,
            ),
{
    let turn_id = log[i].event->TurnStarted_0.turn_id;
    if forall|k: int| i < k < j ==> !ends_turn((#[trigger] log[k]).event, turn_id) {
        lemma_orderly_prefix(state, seq, log, j + 1);
        lemma_turn_lasts(state, seq, log, i, j);
        assert(log.take(j + 1).drop_last() =~= log.take(j));
        assert(log.take(j + 1).last() == log[j]);
    }
}

/// A turn completes while it runs: before each completion the turn was started,
/// and nothing ended it in between.
pub proof fn law_a_turn_completes_once_per_start(
    state: SessionStateV,
    seq: u64,
    log: Seq<LogEntry>,
    j: int,
)
    requires
        orderly_log(state, seq, log),
        state.phase is Idle,
        0 <= j < log.len(),
        log[j].event is TurnCompleted,
    ensures
        exists|i: int|
            0 <= i < j && (#[trigger] log[i]).event is TurnStarted
                && log[i].event->TurnStarted_0.turn_id == log[j].event->TurnCompleted_0.turn_id
                && forall|k: int|
                i < k < j ==> !ends_turn(
                    (#[trigger] log[k]).event,
                    log[j].event->TurnCompleted_0.turn_id,
                ),
{
    lemma_orderly_prefix(state, seq, log, j + 1);
    assert(log.take(j + 1).drop_last() =~= log.take(j));
    assert(log.take(j + 1).last() == log[j]);
    lemma_started(state, seq, log, j);
}

/// A turn that runs was started, and was not ended since.
proof fn lemma_started(state: SessionStateV, seq: u64, log: Seq<LogEntry>, n: int)
    requires
        orderly_log(state, seq, log),
        state.phase is Idle,
        0 <= n <= log.len(),
    ensures
        match replay_log(state, seq, log.take(n)).0.phase.turn_id() {
            Some(turn_id) => exists|i: int|
                0 <= i < n && (#[trigger] log[i]).event is TurnStarted
                    && log[i].event->TurnStarted_0.turn_id == turn_id && forall|k: int|
                    i < k < n ==> !ends_turn((#[trigger] log[k]).event, turn_id),
            None => true,
        },
    decreases n,
{
    if n == 0 {
        assert(log.take(0) =~= Seq::empty());
    } else {
        lemma_started(state, seq, log, n - 1);
        lemma_orderly_prefix(state, seq, log, n);
        assert(log.take(n).drop_last() =~= log.take(n - 1));
        assert(log.take(n).last() == log[n - 1]);
        let before = replay_log(state, seq, log.take(n - 1));
        let event = log[n - 1].event;
        let ctx = ApplyContext { occurred_at: log[n - 1].at, sequence: next_seq(before.1) };
        let after = before.0.apply(event, ctx);
        lemma_turn_changes(before.0, event, ctx);
        if after.phase.turn_id() is Some {
            let turn_id = after.phase.turn_id()->0;
            if event is TurnStarted {
                assert(log[n - 1].event is TurnStarted);
            } else {
                assert(before.0.phase.turn_id() == Some(turn_id));
                let i = choose|i: int|
                    0 <= i < n - 1 && (#[trigger] log[i]).event is TurnStarted
                        && log[i].event->TurnStarted_0.turn_id == turn_id && forall|k: int|
                        i < k < n - 1 ==> !ends_turn((#[trigger] log[k]).event, turn_id);
                assert forall|k: int| i < k < n implies !ends_turn(
                    (#[trigger] log[k]).event,
                    turn_id,
                ) by {
                    if k == n - 1 {
                        assert(!ends_turn(event, turn_id));
                    }
                }
                assert(log[i].event is TurnStarted);
            }
        }
    }
}

/// Only the start and the end of a turn, and the end of the session, change
/// which turn runs.
proof fn lemma_turn_changes(s: SessionStateV, event: EventPayloadV, ctx: ApplyContext)
    requires
        s.allows(event),
    ensures
        match event {
            EventPayloadV::TurnStarted(p) => s.apply(event, ctx).phase.turn_id() == Some(p.turn_id),
            EventPayloadV::TurnCompleted(_) => s.apply(event, ctx).phase.turn_id() is None,
            EventPayloadV::SessionCancelled => s.apply(event, ctx).phase.turn_id() is None,
            _ => s.apply(event, ctx).phase.turn_id() == s.phase.turn_id(),
        },
{
    if calm(event) {
        lemma_calm(s, event, ctx);
    } else {
        lemma_turn_moves(s, event, ctx);
    }
}

proof fn lemma_turn_moves(s: SessionStateV, event: EventPayloadV, ctx: ApplyContext)
    requires
        !calm(event),
        s.allows(event),
    ensures
        match event {
            EventPayloadV::TurnStarted(p) => s.apply(event, ctx).phase.turn_id() == Some(p.turn_id),
            EventPayloadV::TurnCompleted(_) => s.apply(event, ctx).phase.turn_id() is None,
            EventPayloadV::SessionCancelled => s.apply(event, ctx).phase.turn_id() is None,
            _ => s.apply(event, ctx).phase.turn_id() == s.phase.turn_id(),
        },
{
    reveal(SessionStateV::apply);
}

proof fn lemma_orderly_prefix(state: SessionStateV, seq: u64, log: Seq<LogEntry>, n: int)
    requires
        orderly_log(state, seq, log),
        0 <= n <= log.len(),
    ensures
        orderly_log(state, seq, log.take(n)),
    decreases log.len(),
{
    if n == log.len() {
        assert(log.take(n) =~= log);
    } else {
        lemma_orderly_prefix(state, seq, log.drop_last(), n);
        assert(log.drop_last().take(n) =~= log.take(n));
    }
}

/// A turn runs until it is ended.
proof fn lemma_turn_lasts(state: SessionStateV, seq: u64, log: Seq<LogEntry>, i: int, n: int)
    requires
        orderly_log(state, seq, log),
        0 <= i < n <= log.len(),
        log[i].event is TurnStarted,
        forall|k: int|
            i < k < n ==> !ends_turn(
                (#[trigger] log[k]).event,
                log[i].event->TurnStarted_0.turn_id,
            ),
    ensures
        replay_log(state, seq, log.take(n)).0.phase.turn_id() == Some(
            log[i].event->TurnStarted_0.turn_id,
        ),
    decreases n,
{
    let before = replay_log(state, seq, log.take(n - 1));
    let event = log[n - 1].event;
    let ctx = ApplyContext { occurred_at: log[n - 1].at, sequence: next_seq(before.1) };
    assert(log.take(n).drop_last() =~= log.take(n - 1));
    assert(log.take(n).last() == log[n - 1]);
    lemma_orderly_prefix(state, seq, log, n);
    assert(before.0.allows(event));
    lemma_turn_changes(before.0, event, ctx);
    if n - 1 > i {
        lemma_turn_lasts(state, seq, log, i, n - 1);
        assert(!ends_turn(log[n - 1].event, log[i].event->TurnStarted_0.turn_id));
    }
}

} // verus!
