//! What a transcript that comes back does to the conversation.
use crate::model::{lemma_position, position};
use crate::protocol::effect::{EffectKind, EffectStatus};
use crate::protocol::message::{DraftMessageV, MessageV, NewMessageV, Role};
use crate::protocol::result::{StoredContentV, StoredResultV};
use crate::session::caller::CallerV;
use crate::session::decision::{ToolHandler, TriggerV};
use crate::session::events::{EventPayloadV, HeadMovedV, ToolCallCompletedV};
use crate::session::ids::IdsV;
use crate::session::laws::calls::answers_tool;
use crate::session::laws::table::lemma_found;
use crate::session::state::SessionStateV;
use crate::session::transcript::{answers_call, known_by, news_from, unknown_to};
use vstd::prelude::*;

verus! {

/// Whether a message of the conversation has an id.
pub open spec fn is_known(s: SessionStateV, id: Seq<char>) -> bool {
    exists|i: int| 0 <= i < s.nodes.len() && (#[trigger] s.nodes[i]).message.id == id
}

proof fn lemma_known(s: SessionStateV, id: Seq<char>)
    ensures
        s.known_ids().contains(id) <==> is_known(s, id),
{
    let known = s.known_ids();
    if known.contains(id) {
        let i = choose|i: int| 0 <= i < known.len() && known[i] == id;
        assert(s.nodes[i].message.id == id);
    }
    if is_known(s, id) {
        let i = choose|i: int| 0 <= i < s.nodes.len() && (#[trigger] s.nodes[i]).message.id == id;
        assert(known[i] == id);
    }
}

/// A message is recorded as it was written, but for its id.
pub open spec fn is_record_of(m: MessageV, draft: DraftMessageV) -> bool {
    &&& m.role == draft.role
    &&& m.content == draft.content
    &&& m.tool_call_id == draft.tool_call_id
    &&& m.name == draft.name
    &&& m.reasoning == draft.reasoning
    &&& draft.tool_calls is Some ==> m.tool_calls == draft.tool_calls->0
    &&& draft.tool_calls is None ==> m.tool_calls.len() == 0
}

/// Whether an event records a message of a transcript.
pub open spec fn records(
    events: Seq<EventPayloadV>,
    messages: Seq<DraftMessageV>,
    from: int,
    j: int,
) -> bool {
    events[j] is NewMessage && is_record_of(events[j]->NewMessage_0.message, messages[from + j])
}

/// Whether a message is recorded behind the one before it.
pub open spec fn stands_behind(events: Seq<EventPayloadV>, j: int) -> bool {
    events[j]->NewMessage_0.parent_id == Some(events[j - 1]->NewMessage_0.message.id)
}

/// Messages that are new are recorded in order, each behind the one before it,
/// as they were written. A message keeps its id where nobody else has it.
pub proof fn law_new_messages_are_recorded_in_order(
    s: SessionStateV,
    messages: Seq<DraftMessageV>,
    i: int,
    parent: Option<Seq<char>>,
    used: Seq<Seq<char>>,
    ids: IdsV,
)
    requires
        0 <= i <= messages.len(),
    ensures
        ({
            let events = s.write(messages, i, parent, used, ids).events;
            &&& events.len() == messages.len() - i
            &&& forall|j: int| 0 <= j < events.len() ==> #[trigger] records(events, messages, i, j)
            &&& events.len() > 0 ==> events[0]->NewMessage_0.parent_id == parent
            &&& forall|j: int| 0 < j < events.len() ==> #[trigger] stands_behind(events, j)
            &&& events.len() > 0 && messages[i].id is Some && !is_known(s, messages[i].id->0)
                && !used.contains(messages[i].id->0) ==> events[0]->NewMessage_0.message.id
                == messages[i].id->0
        }),
    decreases messages.len() - i,
{
    if i < messages.len() {
        let m = messages[i];
        let fresh = s.needs_id(m, used);
        let id = if fresh {
            ids.id()
        } else {
            m.id->0
        };
        let left = if fresh {
            ids.rest()
        } else {
            ids
        };
        law_new_messages_are_recorded_in_order(
            s,
            messages,
            i + 1,
            Some(id),
            used.push(id),
            left,
        );
        if m.id is Some {
            lemma_known(s, m.id->0);
        }
        let rest = s.write(messages, i + 1, Some(id), used.push(id), left).events;
        let events = s.write(messages, i, parent, used, ids).events;
        assert forall|j: int| 0 <= j < events.len() implies #[trigger] records(
            events,
            messages,
            i,
            j,
        ) by {
            if j > 0 {
                assert(events[j] == rest[j - 1]);
                assert(records(rest, messages, i + 1, j - 1));
            }
        }
        assert forall|j: int| 0 < j < events.len() implies #[trigger] stands_behind(events, j) by {
            assert(events[j] == rest[j - 1]);
            if j > 1 {
                assert(events[j - 1] == rest[j - 2]);
                assert(stands_behind(rest, j - 1));
            }
        }
    }
}

/// Whether every message of a transcript is one of the conversation. A tool's
/// answer that was given before counts as that.
pub open spec fn all_known(s: SessionStateV, messages: Seq<DraftMessageV>) -> bool {
    forall|i: int|
        0 <= i < messages.len() ==> (#[trigger] messages[i]).id is Some && is_known(
            s,
            messages[i].id->0,
        )
}

/// A transcript that holds nothing new moves the head to its last message, and
/// nothing else: where the head is there, nothing happens.
pub proof fn law_a_known_transcript_moves_the_head(
    s: SessionStateV,
    transcript: Seq<DraftMessageV>,
    ids: IdsV,
)
    requires
        transcript.len() > 0,
        all_known(s, transcript),
    ensures
        ({
            let batch = s.reconcile_transcript(transcript, ids);
            let last = transcript.last().id->0;
            &&& batch.ids == ids
            &&& s.head_id == Some(last) ==> batch.events.len() == 0
            &&& s.head_id != Some(last) ==> batch.events == seq![
                EventPayloadV::HeadMoved(HeadMovedV { head_id: last }),
            ]
        }),
{
    reveal(SessionStateV::reconcile_transcript);
    let known = s.known_ids();
    assert forall|i: int| 0 <= i < transcript.len() implies known_by(
        known,
        #[trigger] transcript[i],
    ) by {
        lemma_known(s, transcript[i].id->0);
    }
    let messages = s.normalized(transcript);
    assert(messages =~= transcript);
    lemma_position(messages, unknown_to(known));
    assert(position(messages, unknown_to(known)) is None) by {
        if let Some(i) = position(messages, unknown_to(known)) {
            assert(known_by(known, transcript[i]));
        }
    }
}

/// A transcript whose first messages are known and whose others are new has
/// just the others recorded, behind the last one that is known.
pub proof fn law_only_news_are_recorded(
    s: SessionStateV,
    transcript: Seq<DraftMessageV>,
    from: int,
    ids: IdsV,
)
    requires
        0 <= from < transcript.len(),
        all_known(s, transcript.take(from)),
        forall|i: int| 0 <= i < transcript.len() ==> (#[trigger] transcript[i]).tool_call_id is None,
        !(transcript[from].id is Some && is_known(s, transcript[from].id->0)),
    ensures
        ({
            let events = s.reconcile_transcript(transcript, ids).events;
            &&& events.len() == transcript.len() - from
            &&& forall|j: int|
                0 <= j < events.len() ==> #[trigger] records(events, transcript, from, j)
            &&& forall|j: int| 0 < j < events.len() ==> #[trigger] stands_behind(events, j)
            &&& events[0]->NewMessage_0.parent_id == if from > 0 {
                transcript[from - 1].id
            } else {
                None
            }
        }),
{
    reveal(SessionStateV::reconcile_transcript);
    let known = s.known_ids();
    let messages = s.normalized(transcript);
    assert(messages =~= transcript);
    assert forall|i: int| 0 <= i < from implies known_by(known, #[trigger] transcript[i]) by {
        assert(transcript.take(from)[i] == transcript[i]);
        lemma_known(s, transcript[i].id->0);
    }
    if transcript[from].id is Some {
        lemma_known(s, transcript[from].id->0);
    }
    assert forall|j: int| 0 <= j < from implies !unknown_to(known)(#[trigger] messages[j]) by {
        assert(known_by(known, transcript[j]));
    }
    crate::model::lemma_position_is(messages, unknown_to(known), from);
    law_new_messages_are_recorded_in_order(
        s,
        messages,
        from,
        if from > 0 {
            messages[from - 1].id
        } else {
            None
        },
        Seq::empty(),
        ids,
    );
}

/// A client's view that answers no call is put to the worker whole, with where
/// its news start.
pub proof fn law_a_view_is_put_to_the_worker(
    s: SessionStateV,
    messages: Seq<DraftMessageV>,
    client: crate::protocol::config::ClientContextV,
    caller: CallerV,
    ids: IdsV,
)
    requires
        forall|i: int| 0 <= i < messages.len() ==> (#[trigger] messages[i]).tool_call_id is None,
        !s.session_start_failed,
        s.open_interrupts.len() == 0,
    ensures
        ({
            let r = s.client_view(messages, client, caller, ids);
            let event = r->Ok_0.events[0];
            let told = event->DecisionQueued_0.trigger;
            &&& r is Ok
            &&& r->Ok_0.events.len() == 1
            &&& event is DecisionQueued
            &&& told is ClientTranscript
            &&& told->ClientTranscript_messages == messages
            &&& told->ClientTranscript_client == client
        }),
{
    reveal(SessionStateV::client_view);
    let view = s.normalized(messages);
    assert(view =~= messages);
    lemma_no_completions(s, view, caller);
}

proof fn lemma_no_completions(s: SessionStateV, view: Seq<DraftMessageV>, caller: CallerV)
    requires
        forall|i: int| 0 <= i < view.len() ==> (#[trigger] view[i]).tool_call_id is None,
    ensures
        s.completions(view, caller).len() == 0,
    decreases view.len(),
{
    if view.len() > 0 {
        let front = view.drop_last();
        assert forall|i: int| 0 <= i < front.len() implies (
        #[trigger] front[i]).tool_call_id is None by {
            assert(front[i] == view[i]);
        }
        lemma_no_completions(s, front, caller);
        assert(view[view.len() - 1].tool_call_id is None);
    }
}

/// A client that answers a call of its own, in a message of a tool, completes
/// it with what the message says, and the worker is told so.
pub proof fn law_a_client_answers_its_call(
    s: SessionStateV,
    m: DraftMessageV,
    id: Seq<char>,
    client: crate::protocol::config::ClientContextV,
    caller: CallerV,
    ids: IdsV,
)
    requires
        m.role == Role::Tool,
        m.id is None,
        m.tool_call_id == Some(id),
        s.has_status(EffectKind::ToolCall, id, EffectStatus::Pending),
        s.effect(EffectKind::ToolCall, id)->0.tool()->0.handler == ToolHandler::Client,
        answers_tool(s, id, caller),
        forall|i: int| 0 <= i < s.nodes.len() ==> (#[trigger] s.nodes[i]).message.tool_call_id
            != Some(id),
        !s.session_start_failed,
    ensures
        ({
            let r = s.client_view(seq![m], client, caller, ids);
            let result = StoredResultV {
                content: seq![
                    StoredContentV::Text {
                        text: match m.content {
                            Some(content) => content.text_owned(),
                            None => Seq::empty(),
                        },
                    },
                ],
                structured_content: None,
                is_error: false,
            };
            &&& r is Ok
            &&& r->Ok_0.events.len() == 2
            &&& r->Ok_0.events[0] == EventPayloadV::ToolCallCompleted(
                ToolCallCompletedV { id, result },
            )
            &&& r->Ok_0.events[1] is DecisionQueued
            &&& r->Ok_0.events[1]->DecisionQueued_0.trigger == (TriggerV::ToolFinished {
                id,
                ok: true,
                name: s.effect(EffectKind::ToolCall, id)->0.tool()->0.name,
                result: Some(result),
                error: None,
            })
        }),
{
    reveal(SessionStateV::client_view);
    lemma_found(s, EffectKind::ToolCall, id);
    lemma_no_last(s.nodes, id);
    let view = s.normalized(seq![m]);
    assert(view =~= seq![m]);
    reveal_with_fuel(SessionStateV::completions, 2);
    assert(view.drop_last() =~= Seq::empty());
    let done = s.completions(view, caller);
    assert(done.len() == 1);
    assert(crate::session::transcript::completes(done, id)) by {
        assert(done[0].tool_call_id == id);
    }
    crate::model::lemma_position_is(view, unknown_to(s.known_ids()), 0);
    assert(crate::session::transcript::nothing_but_answers(
        view,
        news_from(s.known_ids(), view),
        done,
    ));
}

proof fn lemma_no_last(nodes: Seq<NewMessageV>, id: Seq<char>)
    requires
        forall|i: int| 0 <= i < nodes.len() ==> (#[trigger] nodes[i]).message.tool_call_id != Some(
            id,
        ),
    ensures
        crate::model::last_of(nodes, answers_call(id)) is None,
    decreases nodes.len(),
{
    if nodes.len() > 0 {
        let front = nodes.drop_last();
        assert forall|i: int| 0 <= i < front.len() implies (
        #[trigger] front[i]).message.tool_call_id != Some(id) by {
            assert(front[i] == nodes[i]);
        }
        lemma_no_last(front, id);
        assert(nodes[nodes.len() - 1].message.tool_call_id != Some(id));
    }
}

} // verus!
