use crate::config::Local;
use crate::federation::inbox::{
    inbox_begins, inbox_continues, InboxAction, InboxError, InboxEvent, InboxRequest, InboxState,
};
use crate::federation::outbox::{
    outbox_begins, outbox_continues, OutboxAction, OutboxEvent, OutboxRequest, OutboxState,
};
use crate::fresh::Fresh;
use crate::time::Timestamp;
use vstd::prelude::*;

verus! {

/// Whether the state is one in which documents are still being fetched.
pub open spec fn is_fetching(state: InboxState) -> bool {
    state is FetchingFollower || state is FetchingAuthor || state is FetchingBooster
        || state is FetchingNote || state is FetchingOriginalAuthor
}

/// Whether the action asks for a remote document.
pub open spec fn is_fetch(action: InboxAction) -> bool {
    action is FetchPerson || action is FetchNote
}

/// Whether the action changes the data store.
pub open spec fn is_write(action: InboxAction) -> bool {
    action is StoreActor || action is StoreUser || action is StoreFollow || action is StorePost
}

/// The handling of one activity from its beginning: the state and the
/// action after each step, and the event on which each further step was
/// taken. Step `0` is the beginning; step `i + 1` answers `events[i]`.
pub open spec fn inbox_run(
    req: InboxRequest,
    local: Local,
    key_pem: Seq<char>,
    begun_at: Timestamp,
    states: Seq<InboxState>,
    actions: Seq<InboxAction>,
    events: Seq<InboxEvent>,
    fresh: Seq<Fresh>,
) -> bool {
    &&& states.len() >= 1
    &&& actions.len() == states.len()
    &&& events.len() == states.len() - 1
    &&& fresh.len() == events.len()
    &&& inbox_begins(req, local, key_pem, begun_at, states[0], actions[0])
    &&& forall|i: int|
        0 <= i < events.len() ==> inbox_continues(
            #[trigger] states[i],
            events[i],
            local,
            key_pem,
            fresh[i],
            states[i + 1],
            actions[i + 1],
        )
}

/// A reply is handed to the outbound queue only on the data store's word
/// that the follow edge which it answers is written.
pub proof fn reply_follows_the_write(
    state: InboxState,
    event: InboxEvent,
    local: Local,
    key_pem: Seq<char>,
    fresh: Fresh,
    next: InboxState,
    action: InboxAction,
)
    requires
        inbox_continues(state, event, local, key_pem, fresh, next, action),
        action is Enqueue,
    ensures
        state is StoringFollow,
        event matches InboxEvent::Stored(Ok(_)),
        next is Replying,
{
}

/// While documents are being fetched nothing has been written: up to a
/// step that ends in a fetching state, every state was a fetching state
/// and every action asked for a document.
pub proof fn fetching_comes_first(
    req: InboxRequest,
    local: Local,
    key_pem: Seq<char>,
    begun_at: Timestamp,
    states: Seq<InboxState>,
    actions: Seq<InboxAction>,
    events: Seq<InboxEvent>,
    fresh: Seq<Fresh>,
    k: int,
)
    requires
        inbox_run(req, local, key_pem, begun_at, states, actions, events, fresh),
        0 <= k < states.len(),
        is_fetching(states[k]),
    ensures
        forall|i: int| 0 <= i <= k ==> is_fetching(#[trigger] states[i]) && is_fetch(actions[i]),
    decreases k,
{
    if k > 0 {
        let _ = states[k - 1];
        assert(inbox_continues(
            states[k - 1],
            events[k - 1],
            local,
            key_pem,
            fresh[k - 1],
            states[k],
            actions[k],
        ));
        fetching_comes_first(req, local, key_pem, begun_at, states, actions, events, fresh, k - 1);
    }
}

/// No partial writes. Where the handling of an activity ends because a
/// document could not be fetched or read, the data store was never asked
/// to write anything.
pub proof fn failed_fetch_leaves_no_writes(
    req: InboxRequest,
    local: Local,
    key_pem: Seq<char>,
    begun_at: Timestamp,
    states: Seq<InboxState>,
    actions: Seq<InboxAction>,
    events: Seq<InboxEvent>,
    fresh: Seq<Fresh>,
)
    requires
        inbox_run(req, local, key_pem, begun_at, states, actions, events, fresh),
        actions.last() matches InboxAction::Failed(InboxError::Fetch(_)),
    ensures
        forall|i: int| 0 <= i < actions.len() ==> !is_write(#[trigger] actions[i]),
{
    let n = states.len() as int;
    if n >= 2 {
        let _ = states[n - 2];
        assert(inbox_continues(
            states[n - 2],
            events[n - 2],
            local,
            key_pem,
            fresh[n - 2],
            states[n - 1],
            actions[n - 1],
        ));
        assert(is_fetching(states[n - 2]));
        fetching_comes_first(req, local, key_pem, begun_at, states, actions, events, fresh, n - 2);
        assert forall|i: int| 0 <= i < actions.len() implies !is_write(#[trigger] actions[i]) by {
            if i <= n - 2 {
                assert(is_fetching(states[i]) && is_fetch(actions[i]));
            }
        }
    }
}

/// The dispatch of one request from its beginning: the state and the
/// action after each step, and the event on which each further step was
/// taken.
pub open spec fn outbox_run(
    req: OutboxRequest,
    local: Local,
    key_pem: Seq<char>,
    drawn: Fresh,
    states: Seq<OutboxState>,
    actions: Seq<OutboxAction>,
    events: Seq<OutboxEvent>,
    times: Seq<Timestamp>,
) -> bool {
    &&& states.len() >= 1
    &&& actions.len() == states.len()
    &&& events.len() == states.len() - 1
    &&& times.len() == events.len()
    &&& outbox_begins(req, local, drawn, states[0], actions[0])
    &&& forall|i: int|
        0 <= i < events.len() ==> outbox_continues(
            #[trigger] states[i],
            events[i],
            key_pem,
            times[i],
            states[i + 1],
            actions[i + 1],
        )
}

/// At step `j` the data store was asked to keep the audit line, and at the
/// next step it had said that it did.
pub open spec fn recorded_at(
    actions: Seq<OutboxAction>,
    events: Seq<OutboxEvent>,
    j: int,
) -> bool {
    0 <= j < events.len() && actions[j] is Record && events[j] matches OutboxEvent::Stored(Ok(_))
}

/// At step `j` the data store was asked to keep the follow edge, and at the
/// next step it had said that it did.
pub open spec fn edge_stored_at(
    actions: Seq<OutboxAction>,
    events: Seq<OutboxEvent>,
    j: int,
) -> bool {
    0 <= j < events.len() && actions[j] is StoreFollow && events[j] matches OutboxEvent::Stored(
        Ok(_),
    )
}

/// Once the envelope is being rendered or sent, or a delivery has failed,
/// the audit line is written.
proof fn lemma_recorded_before(
    req: OutboxRequest,
    local: Local,
    key_pem: Seq<char>,
    drawn: Fresh,
    states: Seq<OutboxState>,
    actions: Seq<OutboxAction>,
    events: Seq<OutboxEvent>,
    times: Seq<Timestamp>,
    k: int,
) -> (j: int)
    requires
        outbox_run(req, local, key_pem, drawn, states, actions, events, times),
        0 <= k < states.len(),
        states[k] is Encoding || states[k] is Sending || states[k] is Stalled,
    ensures
        j < k,
        recorded_at(actions, events, j),
        req is Follow ==> exists|e: int| e < j && #[trigger] edge_stored_at(actions, events, e),
    decreases k,
{
    assert(k > 0);
    let _ = states[k - 1];
    assert(outbox_continues(
        states[k - 1],
        events[k - 1],
        key_pem,
        times[k - 1],
        states[k],
        actions[k],
    ));
    if states[k - 1] is Recording {
        if k - 1 > 0 {
            let _ = states[k - 2];
            assert(outbox_continues(
                states[k - 2],
                events[k - 2],
                key_pem,
                times[k - 2],
                states[k - 1],
                actions[k - 1],
            ));
            if req is Follow {
                lemma_follow_starts_with_the_edge(
                    req,
                    local,
                    key_pem,
                    drawn,
                    states,
                    actions,
                    events,
                    times,
                    k - 2,
                );
                assert(edge_stored_at(actions, events, k - 2));
            }
        }
        k - 1
    } else {
        lemma_recorded_before(req, local, key_pem, drawn, states, actions, events, times, k - 1)
    }
}

/// The state in which the follow edge is being stored is the first of its
/// dispatch, and the action that goes with it asks for that write.
proof fn lemma_follow_starts_with_the_edge(
    req: OutboxRequest,
    local: Local,
    key_pem: Seq<char>,
    drawn: Fresh,
    states: Seq<OutboxState>,
    actions: Seq<OutboxAction>,
    events: Seq<OutboxEvent>,
    times: Seq<Timestamp>,
    k: int,
)
    requires
        outbox_run(req, local, key_pem, drawn, states, actions, events, times),
        0 <= k < states.len(),
        states[k] is StoringFollow,
    ensures
        k == 0,
        actions[k] is StoreFollow,
{
    if k > 0 {
        let _ = states[k - 1];
        assert(outbox_continues(
            states[k - 1],
            events[k - 1],
            key_pem,
            times[k - 1],
            states[k],
            actions[k],
        ));
    }
}

/// Nothing is sent unrecorded. Whenever a dispatch asks for a request to
/// be sent, the data store has before that confirmed the audit line of the
/// activity; and where the dispatch is that of a follow, it has before
/// that confirmed the follow edge.
pub proof fn nothing_is_sent_unrecorded(
    req: OutboxRequest,
    local: Local,
    key_pem: Seq<char>,
    drawn: Fresh,
    states: Seq<OutboxState>,
    actions: Seq<OutboxAction>,
    events: Seq<OutboxEvent>,
    times: Seq<Timestamp>,
    k: int,
)
    requires
        outbox_run(req, local, key_pem, drawn, states, actions, events, times),
        0 <= k < actions.len(),
        actions[k] is Send,
    ensures
        exists|j: int| j < k && #[trigger] recorded_at(actions, events, j),
        req is Follow ==> exists|e: int, j: int|
            e < j < k && #[trigger] edge_stored_at(actions, events, e) && #[trigger] recorded_at(
                actions,
                events,
                j,
            ),
{
    assert(k > 0);
    let _ = states[k - 1];
    assert(outbox_continues(
        states[k - 1],
        events[k - 1],
        key_pem,
        times[k - 1],
        states[k],
        actions[k],
    ));
    let j = lemma_recorded_before(req, local, key_pem, drawn, states, actions, events, times, k - 1);
    if req is Follow {
        let e = choose|e: int| e < j && #[trigger] edge_stored_at(actions, events, e);
        assert(e < j < k && edge_stored_at(actions, events, e) && recorded_at(actions, events, j));
    }
}

} // verus!
