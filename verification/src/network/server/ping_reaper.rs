use vstd::prelude::*;
use crate::network::event::{EventView, NetworkEvent};
use crate::network::server::fabric::{delivered_all, event_views, lemma_delivered_all, lemma_queue_after_is_newest, FabricView};
use crate::network::server::registry::{after_reap, id_views, stale_ids};
use crate::network::server::state::AppState;

verus! {

/// How long a client may stay silent before it is evicted, in time units.
pub const REAP_TIMEOUT: u64 = 30;

/// How long the reaper rests between two scans, in time units.
pub const REAP_INTERVAL: u64 = 10;

/// One "end session" event for each id of `ids`, in their order.
pub open spec fn end_events(ids: Seq<Seq<char>>) -> Seq<EventView> {
    ids.map_values(|id: Seq<char>| EventView::EndSession { session_id: id })
}

/// One scan of the reaper at `now`: every client that has been silent for
/// longer than [`REAP_TIMEOUT`] is evicted, and the end of each evicted
/// session is announced once. Returns the evicted ids, in the order in which
/// their ends were announced.
pub fn reap_stale(state: &mut AppState, now: u64) -> (evicted: Vec<String>)
    ensures
        final(state).server_session == old(state).server_session,
        final(state).connections@ == after_reap(old(state).connections@, now, REAP_TIMEOUT),
        id_views(evicted@).no_duplicates(),
        id_views(evicted@).to_set() == stale_ids(old(state).connections@, now, REAP_TIMEOUT),
        final(state).fabric@ == (FabricView {
            pending: delivered_all(
                old(state).fabric@.pending,
                end_events(id_views(evicted@)),
                old(state).fabric@.capacity,
            ),
            ..old(state).fabric@
        }),
{
    let evicted = state.connections.reap(now, REAP_TIMEOUT);
    let mut events: Vec<NetworkEvent> = Vec::new();
    let mut i: usize = 0;
    while i < evicted.len()
        invariant
            i <= evicted@.len(),
            event_views(events@) == end_events(id_views(evicted@).take(i as int)),
        decreases evicted@.len() - i,
    {
        let ghost prior = events@;
        events.push(NetworkEvent::EndSession { session_id: evicted[i].clone() });
        proof {
            let ids = id_views(evicted@);
            assert(ids.take(i + 1) =~= ids.take(i as int).push(ids[i as int]));
            assert(event_views(events@) =~= event_views(prior).push(
                EventView::EndSession { session_id: ids[i as int] },
            ));
            assert(end_events(ids.take(i + 1)) =~= end_events(ids.take(i as int)).push(
                EventView::EndSession { session_id: ids[i as int] },
            ));
        }
        i += 1;
    }
    assert(id_views(evicted@).take(evicted@.len() as int) =~= id_views(evicted@));
    state.fabric.publish_all(events);
    evicted
}

/// A client that has been silent for longer than the timeout is gone after
/// the scan, and every subscriber that was connected during the scan finds
/// the ends of the evicted sessions at the end of its backlog, each of them
/// exactly once (as long as one scan evicts no more clients than a backlog
/// holds).
pub proof fn law_silent_client_is_reaped_and_announced_once(
    table: Map<Seq<char>, u64>,
    now: u64,
    id: Seq<char>,
    evicted: Seq<Seq<char>>,
    pending: Map<u64, Seq<EventView>>,
    capacity: nat,
    subscriber: u64,
)
    requires
        table.contains_key(id),
        now - table[id] > REAP_TIMEOUT,
        evicted.no_duplicates(),
        evicted.to_set() == stale_ids(table, now, REAP_TIMEOUT),
        capacity >= 1,
        pending.contains_key(subscriber),
        pending[subscriber].len() <= capacity,
        evicted.len() <= capacity,
    ensures
        !after_reap(table, now, REAP_TIMEOUT).contains_key(id),
        delivered_all(pending, end_events(evicted), capacity).contains_key(subscriber),
        ({
            let heard = delivered_all(pending, end_events(evicted), capacity)[subscriber];
            &&& heard.len() >= evicted.len()
            &&& heard.subrange(heard.len() - evicted.len(), heard.len() as int) == end_events(
                evicted,
            )
        }),
        exists|i: int|
            0 <= i < evicted.len() && #[trigger] end_events(evicted)[i] == (EventView::EndSession {
                session_id: id,
            }) && forall|j: int|
                0 <= j < evicted.len() && #[trigger] end_events(evicted)[j]
                    == (EventView::EndSession { session_id: id }) ==> j == i,
{
    let events = end_events(evicted);
    lemma_delivered_all(pending, events, capacity);
    assert(delivered_all(pending, events, capacity).dom().contains(subscriber));
    lemma_queue_after_is_newest(pending[subscriber], events, capacity);
    let all = pending[subscriber] + events;
    let heard = delivered_all(pending, events, capacity)[subscriber];
    assert(heard.subrange(heard.len() - evicted.len(), heard.len() as int) =~= events);
    assert(stale_ids(table, now, REAP_TIMEOUT).contains(id));
    assert(evicted.to_set().contains(id));
    let i = choose|i: int| 0 <= i < evicted.len() && evicted[i] == id;
    assert(events[i] == EventView::EndSession { session_id: id });
    assert forall|j: int|
        0 <= j < evicted.len() && #[trigger] events[j] == (EventView::EndSession {
            session_id: id,
        }) implies j == i by {
        assert(evicted[j] == id);
    }
}

} // verus!
