use vstd::prelude::*;
use crate::network::event::{EventView, NetworkEvent};
use crate::table::{lemma_key_slot, lemma_len, lemma_lookup, lemma_pointwise, lemma_push, lemma_remove, lemma_update, slot, table};

verus! {

/// How many undelivered events a subscriber may have waiting by default.
pub const DEFAULT_BACKLOG: usize = 64;

/// The events of `events`, each by its mathematical content.
pub open spec fn event_views(events: Seq<NetworkEvent>) -> Seq<EventView> {
    events.map_values(|event: NetworkEvent| event@)
}

/// A subscriber's backlog once `event` has been delivered to it: the event
/// joins at the end, and where the backlog is full its oldest event is
/// dropped to make room.
pub open spec fn push_bounded(queue: Seq<EventView>, event: EventView, capacity: nat) -> Seq<
    EventView,
> {
    if queue.len() < capacity {
        queue.push(event)
    } else {
        queue.drop_first().push(event)
    }
}

/// Delivery of `event` as a function on backlogs.
pub open spec fn deliver(event: EventView, capacity: nat) -> spec_fn(Seq<EventView>) -> Seq<
    EventView,
> {
    |queue: Seq<EventView>| push_bounded(queue, event, capacity)
}

/// The backlogs once `event` has been published: every subscriber receives it.
pub open spec fn delivered(pending: Map<u64, Seq<EventView>>, event: EventView, capacity: nat) -> Map<
    u64,
    Seq<EventView>,
> {
    pending.map_values(deliver(event, capacity))
}

/// The backlogs once `events` have been published one after the other.
pub open spec fn delivered_all(
    pending: Map<u64, Seq<EventView>>,
    events: Seq<EventView>,
    capacity: nat,
) -> Map<u64, Seq<EventView>>
    decreases events.len(),
{
    if events.len() == 0 {
        pending
    } else {
        delivered(delivered_all(pending, events.drop_last(), capacity), events.last(), capacity)
    }
}

/// The mathematical content of a [`Fabric`].
pub struct FabricView {
    /// The most events that one subscriber may have waiting.
    pub capacity: nat,
    /// How many subscriber ids have been handed out so far.
    pub issued: nat,
    /// For each current subscriber, the events that wait for it, oldest first.
    pub pending: Map<u64, Seq<EventView>>,
}

impl FabricView {
    /// What holds of the content of every fabric: backlogs are bounded by a
    /// capacity of at least one, and only ids that were handed out subscribe.
    pub open spec fn wf(self) -> bool {
        &&& self.capacity >= 1
        &&& forall|id: u64| #[trigger]
            self.pending.contains_key(id) ==> id < self.issued && self.pending[id].len()
                <= self.capacity
    }
}

struct Subscriber {
    id: u64,
    backlog: Vec<NetworkEvent>,
}

spec fn ids_of(rows: Seq<Subscriber>) -> Seq<u64> {
    rows.map_values(|row: Subscriber| row.id)
}

spec fn queues_of(rows: Seq<Subscriber>) -> Seq<Seq<EventView>> {
    rows.map_values(|row: Subscriber| event_views(row.backlog@))
}

/// The fan-out point of the gateway: every published event is delivered to
/// every current subscriber, in publication order.
///
/// A subscriber sees only what is published after it subscribed. Each
/// subscriber has a bounded backlog; publishing never waits, and a subscriber
/// whose backlog is full loses its oldest waiting event.
pub struct Fabric {
    capacity: usize,
    issued: u64,
    subscribers: Vec<Subscriber>,
}

impl View for Fabric {
    type V = FabricView;

    closed spec fn view(&self) -> FabricView {
        FabricView {
            capacity: self.capacity as nat,
            issued: self.issued as nat,
            pending: table(ids_of(self.subscribers@), queues_of(self.subscribers@)),
        }
    }
}

spec fn rows_ok(rows: Seq<Subscriber>, capacity: usize, issued: u64) -> bool {
    &&& ids_of(rows).no_duplicates()
    &&& forall|i: int| 0 <= i < rows.len() ==> (#[trigger] rows[i]).id < issued
    &&& forall|i: int| 0 <= i < rows.len() ==> (#[trigger] rows[i]).backlog@.len() <= capacity
}

proof fn lemma_rows_wf(rows: Seq<Subscriber>, capacity: usize, issued: u64)
    requires
        capacity >= 1,
        rows_ok(rows, capacity, issued),
    ensures
        (FabricView {
            capacity: capacity as nat,
            issued: issued as nat,
            pending: table(ids_of(rows), queues_of(rows)),
        }).wf(),
{
    let pending = table(ids_of(rows), queues_of(rows));
    assert forall|id: u64| #[trigger] pending.contains_key(id) implies id < issued && pending[id].len()
        <= capacity by {
        lemma_key_slot(ids_of(rows), queues_of(rows), id);
        let k = slot(ids_of(rows), id);
        assert(rows[k].id == id);
        assert(pending[id] == event_views(rows[k].backlog@));
    }
}

impl Fabric {
    #[verifier::type_invariant]
    spec fn sound(self) -> bool {
        &&& self.capacity >= 1
        &&& rows_ok(self.subscribers@, self.capacity, self.issued)
    }

    /// A fabric without subscribers, with the default backlog bound.
    pub fn new() -> (fabric: Self)
        ensures
            fabric@ == (FabricView {
                capacity: DEFAULT_BACKLOG as nat,
                issued: 0,
                pending: Map::empty(),
            }),
            fabric@.wf(),
    {
        Fabric::with_capacity(DEFAULT_BACKLOG)
    }

    /// A fabric without subscribers whose backlogs hold up to `capacity` events.
    pub fn with_capacity(capacity: usize) -> (fabric: Self)
        requires
            capacity >= 1,
        ensures
            fabric@ == (FabricView { capacity: capacity as nat, issued: 0, pending: Map::empty() }),
            fabric@.wf(),
    {
        let fabric = Fabric { capacity, issued: 0, subscribers: Vec::new() };
        assert(fabric@.pending =~= Map::<u64, Seq<EventView>>::empty());
        fabric
    }

    /// The most events that one subscriber may have waiting.
    pub fn capacity(&self) -> (capacity: usize)
        ensures
            capacity == self@.capacity,
            self@.wf(),
    {
        proof {
            use_type_invariant(self);
            lemma_rows_wf(self.subscribers@, self.capacity, self.issued);
        }
        self.capacity
    }

    /// How many subscribers there are.
    pub fn subscriber_count(&self) -> (count: usize)
        ensures
            self@.pending.dom().finite(),
            count == self@.pending.len(),
    {
        proof {
            use_type_invariant(self);
            lemma_len(ids_of(self.subscribers@), queues_of(self.subscribers@));
        }
        self.subscribers.len()
    }

    fn find(&self, id: u64) -> (found: Option<usize>)
        ensures
            match found {
                Some(i) => i < self.subscribers@.len() && ids_of(self.subscribers@)[i as int] == id,
                None => !ids_of(self.subscribers@).contains(id),
            },
    {
        let mut i: usize = 0;
        while i < self.subscribers.len()
            invariant
                i <= self.subscribers@.len(),
                forall|k: int| 0 <= k < i ==> ids_of(self.subscribers@)[k] != id,
            decreases self.subscribers@.len() - i,
        {
            if self.subscribers[i].id == id {
                return Some(i);
            }
            i += 1;
        }
        None
    }

    /// Whether `id` is a current subscriber.
    pub fn is_subscribed(&self, id: u64) -> (present: bool)
        ensures
            present == self@.pending.contains_key(id),
    {
        self.find(id).is_some()
    }

    /// How many events wait for subscriber `id`; zero where `id` is no subscriber.
    pub fn waiting(&self, id: u64) -> (count: usize)
        ensures
            count == (if self@.pending.contains_key(id) {
                self@.pending[id].len()
            } else {
                0
            }),
            count <= self@.capacity,
    {
        proof {
            use_type_invariant(self);
        }
        match self.find(id) {
            Some(i) => {
                proof {
                    lemma_lookup(ids_of(self.subscribers@), queues_of(self.subscribers@), i as int);
                }
                self.subscribers[i].backlog.len()
            },
            None => 0,
        }
    }

    /// Adds a subscriber with an empty backlog and returns its id, which no
    /// subscriber had before. Returns `None`, and changes nothing, once every
    /// id has been handed out.
    pub fn subscribe(&mut self) -> (ticket: Option<u64>)
        ensures
            match ticket {
                Some(id) => {
                    &&& id == old(self)@.issued
                    &&& !old(self)@.pending.contains_key(id)
                    &&& final(self)@ == (FabricView {
                        issued: old(self)@.issued + 1,
                        pending: old(self)@.pending.insert(id, Seq::empty()),
                        ..old(self)@
                    })
                },
                None => old(self)@.issued == u64::MAX && final(self)@ == old(self)@,
            },
            final(self)@.wf(),
    {
        proof {
            use_type_invariant(&*self);
        }
        if self.issued == u64::MAX {
            proof {
                lemma_rows_wf(self.subscribers@, self.capacity, self.issued);
            }
            return None;
        }
        let id: u64 = self.issued;
        let mut rows: Vec<Subscriber> = Vec::new();
        core::mem::swap(&mut self.subscribers, &mut rows);
        let ghost ids = ids_of(rows@);
        let ghost queues = queues_of(rows@);
        proof {
            if ids.contains(id) {
                let k = choose|k: int| 0 <= k < ids.len() && ids[k] == id;
                assert(rows@[k].id < id);
            }
            lemma_push(ids, queues, id, Seq::<EventView>::empty());
        }
        let row = Subscriber { id, backlog: Vec::new() };
        rows.push(row);
        proof {
            assert(ids_of(rows@) =~= ids.push(id));
            assert(event_views(row.backlog@) =~= Seq::<EventView>::empty());
            assert(queues_of(rows@) =~= queues.push(Seq::<EventView>::empty()));
        }
        self.issued = id + 1;
        proof {
            lemma_rows_wf(rows@, self.capacity, self.issued);
        }
        self.subscribers = rows;
        Some(id)
    }

    /// Removes subscriber `id` and what waits for it. Returns whether `id`
    /// was a subscriber.
    pub fn unsubscribe(&mut self, id: u64) -> (known: bool)
        ensures
            known == old(self)@.pending.contains_key(id),
            final(self)@ == (FabricView {
                pending: old(self)@.pending.remove(id),
                ..old(self)@
            }),
            final(self)@.wf(),
    {
        proof {
            use_type_invariant(&*self);
            lemma_rows_wf(self.subscribers@, self.capacity, self.issued);
        }
        match self.find(id) {
            Some(i) => {
                let mut rows: Vec<Subscriber> = Vec::new();
                core::mem::swap(&mut self.subscribers, &mut rows);
                let ghost ids = ids_of(rows@);
                let ghost queues = queues_of(rows@);
                proof {
                    lemma_lookup(ids, queues, i as int);
                    lemma_remove(ids, queues, i as int);
                }
                let _ = rows.remove(i);
                proof {
                    assert(ids_of(rows@) =~= ids.remove(i as int));
                    assert(queues_of(rows@) =~= queues.remove(i as int));
                    lemma_rows_wf(rows@, self.capacity, self.issued);
                }
                self.subscribers = rows;
                true
            },
            None => {
                assert(self@.pending =~= self@.pending.remove(id));
                false
            },
        }
    }

    /// Delivers `event` to every current subscriber and returns how many
    /// there are. Never waits: a full backlog loses its oldest event.
    pub fn publish(&mut self, event: NetworkEvent) -> (receivers: usize)
        ensures
            final(self)@ == (FabricView {
                pending: delivered(old(self)@.pending, event@, old(self)@.capacity),
                ..old(self)@
            }),
            old(self)@.pending.dom().finite(),
            receivers == old(self)@.pending.len(),
            final(self)@.wf(),
    {
        proof {
            use_type_invariant(&*self);
        }
        let capacity: usize = self.capacity;
        let mut rows: Vec<Subscriber> = Vec::new();
        core::mem::swap(&mut self.subscribers, &mut rows);
        let ghost ids = ids_of(rows@);
        let ghost queues = queues_of(rows@);
        let ghost issued = self.issued;
        let count: usize = rows.len();
        let mut i: usize = 0;
        while i < count
            invariant
                capacity >= 1,
                count == rows@.len(),
                i <= count,
                ids_of(rows@) == ids,
                queues.len() == count,
                forall|k: int| 0 <= k < count ==> (#[trigger] rows@[k]).id < issued,
                forall|k: int| 0 <= k < count ==> (#[trigger] rows@[k]).backlog@.len() <= capacity,
                forall|k: int|
                    0 <= k < i ==> #[trigger] queues_of(rows@)[k] == push_bounded(
                        queues[k],
                        event@,
                        capacity as nat,
                    ),
                forall|k: int| i <= k < count ==> #[trigger] queues_of(rows@)[k] == queues[k],
            decreases count - i,
        {
            let ghost prior = rows@;
            let ghost queue = queues_of(prior)[i as int];
            if rows[i].backlog.len() >= capacity {
                let _ = rows[i].backlog.remove(0);
            }
            let copy = event.clone();
            rows[i].backlog.push(copy);
            proof {
                assert(event_views(rows@[i as int].backlog@) =~= push_bounded(
                    queue,
                    event@,
                    capacity as nat,
                ));
                assert(ids_of(rows@) =~= ids_of(prior));
                assert forall|k: int| 0 <= k < i + 1 implies #[trigger] queues_of(rows@)[k]
                    == push_bounded(queues[k], event@, capacity as nat) by {
                    if k != i {
                        assert(queues_of(rows@)[k] == queues_of(prior)[k]);
                    }
                }
                assert forall|k: int| i + 1 <= k < count implies #[trigger] queues_of(rows@)[k]
                    == queues[k] by {
                    assert(queues_of(rows@)[k] == queues_of(prior)[k]);
                }
            }
            i += 1;
        }
        proof {
            lemma_len(ids, queues);
            assert forall|k: int| 0 <= k < queues.len() implies #[trigger] queues_of(rows@)[k]
                == deliver(event@, capacity as nat)(queues[k]) by {}
            lemma_pointwise(ids, queues, queues_of(rows@), deliver(event@, capacity as nat));
            lemma_rows_wf(rows@, self.capacity, self.issued);
        }
        self.subscribers = rows;
        count
    }

    /// Publishes `events` one after the other, first to last.
    pub fn publish_all(&mut self, events: Vec<NetworkEvent>)
        ensures
            final(self)@ == (FabricView {
                pending: delivered_all(
                    old(self)@.pending,
                    event_views(events@),
                    old(self)@.capacity,
                ),
                ..old(self)@
            }),
            final(self)@.wf(),
    {
        let _ = self.capacity();
        let ghost before = self@;
        let ghost all = event_views(events@);
        let mut i: usize = 0;
        assert(all.take(0) =~= Seq::<EventView>::empty());
        while i < events.len()
            invariant
                i <= events@.len(),
                all == event_views(events@),
                self@.wf(),
                self@ == (FabricView {
                    pending: delivered_all(before.pending, all.take(i as int), before.capacity),
                    ..before
                }),
            decreases events@.len() - i,
        {
            let copy = events[i].clone();
            let _ = self.publish(copy);
            proof {
                let next = all.take(i + 1);
                assert(next.drop_last() =~= all.take(i as int));
                assert(next.last() == events@[i as int]@);
            }
            i += 1;
        }
        assert(all.take(events@.len() as int) =~= all);
    }

    /// Hands subscriber `id` the oldest event that waits for it, if any, and
    /// takes that event off its backlog.
    pub fn poll(&mut self, id: u64) -> (next: Option<NetworkEvent>)
        ensures
            match next {
                Some(event) => {
                    &&& old(self)@.pending.contains_key(id)
                    &&& old(self)@.pending[id].len() > 0
                    &&& event@ == old(self)@.pending[id][0]
                    &&& final(self)@ == (FabricView {
                        pending: old(self)@.pending.insert(
                            id,
                            old(self)@.pending[id].drop_first(),
                        ),
                        ..old(self)@
                    })
                },
                None => {
                    &&& !(old(self)@.pending.contains_key(id) && old(self)@.pending[id].len() > 0)
                    &&& final(self)@ == old(self)@
                },
            },
            final(self)@.wf(),
    {
        proof {
            use_type_invariant(&*self);
            lemma_rows_wf(self.subscribers@, self.capacity, self.issued);
        }
        match self.find(id) {
            Some(i) => {
                proof {
                    lemma_lookup(ids_of(self.subscribers@), queues_of(self.subscribers@), i as int);
                }
                if self.subscribers[i].backlog.len() == 0 {
                    return None;
                }
                let mut rows: Vec<Subscriber> = Vec::new();
                core::mem::swap(&mut self.subscribers, &mut rows);
                let ghost prior = rows@;
                let ghost ids = ids_of(prior);
                let ghost queues = queues_of(prior);
                let event = rows[i].backlog.remove(0);
                proof {
                    assert(ids_of(rows@) =~= ids);
                    assert(event_views(rows@[i as int].backlog@) =~= queues[i as int].drop_first());
                    assert(queues_of(rows@) =~= queues.update(i as int, queues[i as int].drop_first()));
                    lemma_update(ids, queues, i as int, queues[i as int].drop_first());
                    lemma_rows_wf(rows@, self.capacity, self.issued);
                }
                self.subscribers = rows;
                Some(event)
            },
            None => None,
        }
    }
}

/// One backlog once `events` have been delivered to it one after the other.
pub open spec fn queue_after(queue: Seq<EventView>, events: Seq<EventView>, capacity: nat) -> Seq<
    EventView,
>
    decreases events.len(),
{
    if events.len() == 0 {
        queue
    } else {
        push_bounded(queue_after(queue, events.drop_last(), capacity), events.last(), capacity)
    }
}

/// The newest `capacity` events of `events`, in their order; all of them
/// where there are no more than `capacity`.
pub open spec fn newest(events: Seq<EventView>, capacity: nat) -> Seq<EventView> {
    if events.len() <= capacity {
        events
    } else {
        events.subrange(events.len() - capacity, events.len() as int)
    }
}

/// Publishing changes no one's membership, and changes each backlog by the
/// published events alone.
pub proof fn lemma_delivered_all(
    pending: Map<u64, Seq<EventView>>,
    events: Seq<EventView>,
    capacity: nat,
)
    ensures
        delivered_all(pending, events, capacity).dom() == pending.dom(),
        forall|id: u64| #[trigger]
            pending.contains_key(id) ==> delivered_all(pending, events, capacity)[id]
                == queue_after(pending[id], events, capacity),
    decreases events.len(),
{
    if events.len() > 0 {
        lemma_delivered_all(pending, events.drop_last(), capacity);
        let mid = delivered_all(pending, events.drop_last(), capacity);
        assert(delivered(mid, events.last(), capacity).dom() =~= mid.dom());
        assert forall|id: u64| #[trigger] pending.contains_key(id) implies delivered_all(
            pending,
            events,
            capacity,
        )[id] == queue_after(pending[id], events, capacity) by {
            assert(mid.contains_key(id));
        }
    }
}

/// Publication order is kept and only the oldest events are ever lost: a
/// backlog is always the newest `capacity` events of what it held followed by
/// what was published since.
pub proof fn lemma_queue_after_is_newest(
    queue: Seq<EventView>,
    events: Seq<EventView>,
    capacity: nat,
)
    requires
        capacity >= 1,
        queue.len() <= capacity,
    ensures
        queue_after(queue, events, capacity) == newest(queue + events, capacity),
    decreases events.len(),
{
    if events.len() == 0 {
        assert(queue + events =~= queue);
    } else {
        let front = events.drop_last();
        let last = events.last();
        lemma_queue_after_is_newest(queue, front, capacity);
        let so_far = queue + front;
        assert(so_far.push(last) =~= queue + events);
        assert(push_bounded(newest(so_far, capacity), last, capacity) =~= newest(
            so_far.push(last),
            capacity,
        ));
    }
}

/// Two subscribers with the same backlog have the same backlog after any
/// run of publications: both are handed the same events in the same order.
pub proof fn law_same_events_same_order(
    pending: Map<u64, Seq<EventView>>,
    events: Seq<EventView>,
    capacity: nat,
    first: u64,
    second: u64,
)
    requires
        pending.contains_key(first),
        pending.contains_key(second),
        pending[first] == pending[second],
    ensures
        delivered_all(pending, events, capacity).contains_key(first),
        delivered_all(pending, events, capacity).contains_key(second),
        delivered_all(pending, events, capacity)[first] == delivered_all(
            pending,
            events,
            capacity,
        )[second],
{
    lemma_delivered_all(pending, events, capacity);
    assert(delivered_all(pending, events, capacity).dom().contains(first));
    assert(delivered_all(pending, events, capacity).dom().contains(second));
}

/// A subscriber whose backlog has room for them receives every published
/// event, in publication order, behind what already waited for it.
pub proof fn law_publication_order(
    pending: Map<u64, Seq<EventView>>,
    events: Seq<EventView>,
    capacity: nat,
    id: u64,
)
    requires
        capacity >= 1,
        pending.contains_key(id),
        pending[id].len() + events.len() <= capacity,
    ensures
        delivered_all(pending, events, capacity)[id] == pending[id] + events,
{
    lemma_delivered_all(pending, events, capacity);
    lemma_queue_after_is_newest(pending[id], events, capacity);
}

/// A subscriber never sees what was published before it subscribed: the
/// backlog of one that has just joined, empty, holds after later publications
/// the newest of those later events and nothing else.
pub proof fn law_late_subscriber_sees_later_events_only(
    pending: Map<u64, Seq<EventView>>,
    later: Seq<EventView>,
    capacity: nat,
    id: u64,
)
    requires
        capacity >= 1,
    ensures
        delivered_all(pending.insert(id, Seq::empty()), later, capacity)[id] == newest(
            later,
            capacity,
        ),
{
    let joined = pending.insert(id, Seq::<EventView>::empty());
    lemma_delivered_all(joined, later, capacity);
    assert(joined.contains_key(id));
    lemma_queue_after_is_newest(Seq::<EventView>::empty(), later, capacity);
    assert(Seq::<EventView>::empty() + later =~= later);
}

} // verus!
