use vstd::prelude::*;
use crate::table::{lemma_key_slot, lemma_len, lemma_lookup, lemma_push, lemma_remove, lemma_update, slot, table};

verus! {

/// Liveness record of one connected client: when it was last heard from.
#[derive(Clone, Copy, Debug)]
pub struct ConnectedClient {
    pub last_ping: u64,
}

/// One row of the registry: a client and its liveness record.
pub struct RegisteredConnection {
    pub client_id: String,
    pub client: ConnectedClient,
}

/// The client ids of `rows`, in row order.
pub open spec fn ids_of(rows: Seq<RegisteredConnection>) -> Seq<Seq<char>> {
    rows.map_values(|row: RegisteredConnection| row.client_id@)
}

/// The last-seen times of `rows`, in row order.
pub open spec fn times_of(rows: Seq<RegisteredConnection>) -> Seq<u64> {
    rows.map_values(|row: RegisteredConnection| row.client.last_ping)
}

/// A client is stale at `now` when it has been silent for longer than `timeout`.
pub open spec fn is_stale(last_seen: u64, now: u64, timeout: u64) -> bool {
    now - last_seen > timeout
}

/// The clients of `table` that are stale at `now`.
pub open spec fn stale_ids(table: Map<Seq<char>, u64>, now: u64, timeout: u64) -> Set<Seq<char>> {
    Set::new(|id: Seq<char>| table.contains_key(id) && is_stale(table[id], now, timeout))
}

/// The table once `id` has started a session at `now`.
pub open spec fn after_start(table: Map<Seq<char>, u64>, id: Seq<char>, now: u64) -> Map<
    Seq<char>,
    u64,
> {
    table.insert(id, now)
}

/// The table once `id` has pinged at `now`: refreshed where `id` is
/// registered, unchanged where it is not.
pub open spec fn after_ping(table: Map<Seq<char>, u64>, id: Seq<char>, now: u64) -> Map<
    Seq<char>,
    u64,
> {
    if table.contains_key(id) {
        table.insert(id, now)
    } else {
        table
    }
}

/// The table once the session of `id` has ended.
pub open spec fn after_end(table: Map<Seq<char>, u64>, id: Seq<char>) -> Map<Seq<char>, u64> {
    table.remove(id)
}

/// The table once every client that is stale at `now` has been evicted.
pub open spec fn after_reap(table: Map<Seq<char>, u64>, now: u64, timeout: u64) -> Map<
    Seq<char>,
    u64,
> {
    table.remove_keys(stale_ids(table, now, timeout))
}

/// The identifiers of `ids`, each as the sequence of its characters.
pub open spec fn id_views(ids: Seq<String>) -> Seq<Seq<char>> {
    ids.map_values(|id: String| id@)
}

/// The in-memory table of connected clients, keyed by client id.
///
/// Its mathematical content is a map from client id to the time the client
/// was last heard from. Each client has at most one row; the order of the
/// rows carries no meaning.
pub struct Registry {
    rows: Vec<RegisteredConnection>,
}

impl View for Registry {
    type V = Map<Seq<char>, u64>;

    closed spec fn view(&self) -> Map<Seq<char>, u64> {
        table(ids_of(self.rows@), times_of(self.rows@))
    }
}

impl Registry {
    #[verifier::type_invariant]
    spec fn one_row_each(self) -> bool {
        ids_of(self.rows@).no_duplicates()
    }

    /// An empty registry.
    pub fn new() -> (registry: Self)
        ensures
            registry@ == Map::<Seq<char>, u64>::empty(),
    {
        let registry = Registry { rows: Vec::new() };
        assert(registry@ =~= Map::<Seq<char>, u64>::empty());
        registry
    }

    fn find(&self, key: &String) -> (found: Option<usize>)
        ensures
            match found {
                Some(i) => i < self.rows@.len() && ids_of(self.rows@)[i as int] == key@,
                None => !ids_of(self.rows@).contains(key@),
            },
    {
        let mut i: usize = 0;
        while i < self.rows.len()
            invariant
                i <= self.rows@.len(),
                forall|k: int| 0 <= k < i ==> ids_of(self.rows@)[k] != key@,
            decreases self.rows@.len() - i,
        {
            if self.rows[i].client_id == *key {
                return Some(i);
            }
            i += 1;
        }
        None
    }

    /// Whether `client_id` has a row.
    pub fn contains(&self, client_id: &str) -> (present: bool)
        ensures
            present == self@.contains_key(client_id@),
    {
        let key: String = client_id.to_owned();
        self.find(&key).is_some()
    }

    /// When `client_id` was last heard from, if it has a row.
    pub fn last_seen(&self, client_id: &str) -> (seen: Option<u64>)
        ensures
            seen == (if self@.contains_key(client_id@) {
                Some(self@[client_id@])
            } else {
                None
            }),
    {
        let key: String = client_id.to_owned();
        match self.find(&key) {
            Some(i) => {
                proof {
                    use_type_invariant(self);
                    lemma_lookup(ids_of(self.rows@), times_of(self.rows@), i as int);
                }
                Some(self.rows[i].client.last_ping)
            },
            None => None,
        }
    }

    /// How many clients are registered.
    pub fn len(&self) -> (count: usize)
        ensures
            self@.dom().finite(),
            count == self@.len(),
    {
        proof {
            use_type_invariant(self);
            lemma_len(ids_of(self.rows@), times_of(self.rows@));
        }
        self.rows.len()
    }

    /// Registers `client_id` as heard from at `now`, replacing any earlier row.
    pub fn insert(&mut self, client_id: String, now: u64)
        ensures
            final(self)@ == after_start(old(self)@, client_id@, now),
    {
        proof {
            use_type_invariant(&*self);
        }
        let found = self.find(&client_id);
        let mut rows: Vec<RegisteredConnection> = Vec::new();
        core::mem::swap(&mut self.rows, &mut rows);
        let ghost ids = ids_of(rows@);
        let ghost times = times_of(rows@);
        match found {
            Some(i) => {
                proof {
                    lemma_update(ids, times, i as int, now);
                }
                rows[i].client.last_ping = now;
                assert(ids_of(rows@) =~= ids);
                assert(times_of(rows@) =~= times.update(i as int, now));
            },
            None => {
                proof {
                    lemma_push(ids, times, client_id@, now);
                }
                rows.push(RegisteredConnection { client_id, client: ConnectedClient { last_ping: now } });
                assert(ids_of(rows@) =~= ids.push(client_id@));
                assert(times_of(rows@) =~= times.push(now));
            },
        }
        self.rows = rows;
    }

    /// Records that `client_id` was heard from at `now`, if it is registered.
    /// Returns whether it was.
    pub fn refresh(&mut self, client_id: &str, now: u64) -> (known: bool)
        ensures
            known == old(self)@.contains_key(client_id@),
            final(self)@ == after_ping(old(self)@, client_id@, now),
    {
        proof {
            use_type_invariant(&*self);
        }
        let key: String = client_id.to_owned();
        match self.find(&key) {
            Some(i) => {
                let mut rows: Vec<RegisteredConnection> = Vec::new();
                core::mem::swap(&mut self.rows, &mut rows);
                let ghost ids = ids_of(rows@);
                let ghost times = times_of(rows@);
                proof {
                    lemma_lookup(ids, times, i as int);
                    lemma_update(ids, times, i as int, now);
                }
                rows[i].client.last_ping = now;
                assert(ids_of(rows@) =~= ids);
                assert(times_of(rows@) =~= times.update(i as int, now));
                self.rows = rows;
                true
            },
            None => false,
        }
    }

    /// Takes the row of `client_id` out, if there is one. Returns whether there was.
    pub fn remove(&mut self, client_id: &str) -> (known: bool)
        ensures
            known == old(self)@.contains_key(client_id@),
            final(self)@ == after_end(old(self)@, client_id@),
    {
        proof {
            use_type_invariant(&*self);
        }
        let key: String = client_id.to_owned();
        match self.find(&key) {
            Some(i) => {
                let mut rows: Vec<RegisteredConnection> = Vec::new();
                core::mem::swap(&mut self.rows, &mut rows);
                let ghost ids = ids_of(rows@);
                let ghost times = times_of(rows@);
                proof {
                    lemma_lookup(ids, times, i as int);
                    lemma_remove(ids, times, i as int);
                }
                let _ = rows.remove(i);
                assert(ids_of(rows@) =~= ids.remove(i as int));
                assert(times_of(rows@) =~= times.remove(i as int));
                self.rows = rows;
                true
            },
            None => {
                assert(self@ =~= after_end(self@, client_id@));
                false
            },
        }
    }

    /// Evicts every client that is stale at `now` and returns their ids, each once.
    pub fn reap(&mut self, now: u64, timeout: u64) -> (evicted: Vec<String>)
        ensures
            final(self)@ == after_reap(old(self)@, now, timeout),
            id_views(evicted@).to_set() == stale_ids(old(self)@, now, timeout),
            id_views(evicted@).no_duplicates(),
    {
        proof {
            use_type_invariant(&*self);
        }
        let mut rows: Vec<RegisteredConnection> = Vec::new();
        core::mem::swap(&mut self.rows, &mut rows);
        let ghost before = table(ids_of(rows@), times_of(rows@));
        let mut evicted: Vec<String> = Vec::new();
        let mut i: usize = 0;
        assert(before.remove_keys(id_views(evicted@).to_set()) =~= before);
        while i < rows.len()
            invariant
                ids_of(rows@).no_duplicates(),
                i <= rows@.len(),
                forall|k: int| 0 <= k < i ==> !is_stale(#[trigger] times_of(rows@)[k], now, timeout),
                table(ids_of(rows@), times_of(rows@)) == before.remove_keys(
                    id_views(evicted@).to_set(),
                ),
                forall|a: int|
                    0 <= a < evicted@.len() ==> stale_ids(before, now, timeout).contains(
                        #[trigger] id_views(evicted@)[a],
                    ),
                id_views(evicted@).no_duplicates(),
            decreases rows@.len() - i,
        {
            let last: u64 = rows[i].client.last_ping;
            if now > last && now - last > timeout {
                let ghost ids = ids_of(rows@);
                let ghost times = times_of(rows@);
                let ghost id = ids[i as int];
                let ghost earlier = id_views(evicted@);
                proof {
                    lemma_lookup(ids, times, i as int);
                    lemma_remove(ids, times, i as int);
                    assert(before.contains_key(id) && before[id] == last);
                    assert(!earlier.contains(id));
                }
                let row = rows.remove(i);
                evicted.push(row.client_id);
                proof {
                    assert(ids_of(rows@) =~= ids.remove(i as int));
                    assert(times_of(rows@) =~= times.remove(i as int));
                    assert(id_views(evicted@) =~= earlier.push(id));
                    assert(earlier.push(id).to_set() =~= earlier.to_set().insert(id)) by {
                        assert forall|x: Seq<char>| earlier.push(id).contains(x) <==> (
                        earlier.contains(x) || x == id) by {
                            if earlier.contains(x) {
                                let a = choose|a: int| 0 <= a < earlier.len() && earlier[a] == x;
                                assert(earlier.push(id)[a] == x);
                            }
                            if x == id {
                                assert(earlier.push(id)[earlier.len() as int] == x);
                            }
                        }
                    }
                    assert(table(ids_of(rows@), times_of(rows@)) =~= before.remove_keys(
                        id_views(evicted@).to_set(),
                    ));
                    assert forall|k: int| 0 <= k < i implies !is_stale(
                        #[trigger] times_of(rows@)[k],
                        now,
                        timeout,
                    ) by {
                        assert(times_of(rows@)[k] == times[k]);
                    }
                }
            } else {
                i += 1;
            }
        }
        proof {
            let gone = stale_ids(before, now, timeout);
            let out = id_views(evicted@);
            assert forall|x: Seq<char>| out.to_set().contains(x) <==> gone.contains(x) by {
                if out.contains(x) {
                    let a = choose|a: int| 0 <= a < out.len() && out[a] == x;
                    assert(gone.contains(out[a]));
                }
                if gone.contains(x) && !out.contains(x) {
                    lemma_key_slot(ids_of(rows@), times_of(rows@), x);
                    let k = slot(ids_of(rows@), x);
                    assert(!is_stale(times_of(rows@)[k], now, timeout));
                }
            }
            assert(out.to_set() =~= gone);
        }
        self.rows = rows;
        evicted
    }
}

/// A client is registered from the start of its session to its end: after
/// `start` it has a row, after a following `ping` it has one with the time of
/// the ping, and after a following `end` it has none.
pub proof fn law_registered_from_start_to_end(
    table: Map<Seq<char>, u64>,
    id: Seq<char>,
    started: u64,
    pinged: u64,
)
    ensures
        after_start(table, id, started).contains_key(id),
        after_start(table, id, started)[id] == started,
        after_ping(after_start(table, id, started), id, pinged).contains_key(id),
        after_ping(after_start(table, id, started), id, pinged)[id] == pinged,
        !after_end(after_ping(after_start(table, id, started), id, pinged), id).contains_key(id),
{
}

/// None of `start`, `ping` and `end` for one client touches the row of another.
pub proof fn law_other_clients_untouched(
    table: Map<Seq<char>, u64>,
    id: Seq<char>,
    other: Seq<char>,
    now: u64,
)
    requires
        other != id,
    ensures
        after_start(table, id, now).contains_key(other) == table.contains_key(other),
        after_ping(table, id, now).contains_key(other) == table.contains_key(other),
        after_end(table, id).contains_key(other) == table.contains_key(other),
        table.contains_key(other) ==> {
            &&& after_start(table, id, now)[other] == table[other]
            &&& after_ping(table, id, now)[other] == table[other]
            &&& after_end(table, id)[other] == table[other]
        },
{
}

/// A ping for a client that is not registered registers nothing and changes
/// nothing, however often it is repeated.
pub proof fn law_unknown_ping_is_no_op(table: Map<Seq<char>, u64>, id: Seq<char>, now: u64)
    requires
        !table.contains_key(id),
    ensures
        after_ping(table, id, now) == table,
        !after_ping(table, id, now).contains_key(id),
        after_ping(after_ping(table, id, now), id, now) == table,
{
}

/// Ending a session twice is the same as ending it once, and ending one that
/// never started changes nothing.
pub proof fn law_end_is_idempotent(table: Map<Seq<char>, u64>, id: Seq<char>)
    ensures
        after_end(after_end(table, id), id) == after_end(table, id),
        !table.contains_key(id) ==> after_end(table, id) == table,
{
    assert(after_end(after_end(table, id), id) =~= after_end(table, id));
    if !table.contains_key(id) {
        assert(after_end(table, id) =~= table);
    }
}

/// The reaper evicts exactly the clients that have been silent for longer
/// than the timeout, and leaves the rows of the others as they were. Nothing
/// is left to evict right after, so no client is evicted twice.
pub proof fn law_reap_evicts_exactly_the_silent(
    table: Map<Seq<char>, u64>,
    now: u64,
    timeout: u64,
    id: Seq<char>,
)
    ensures
        after_reap(table, now, timeout).contains_key(id) <==> (table.contains_key(id) && now
            - table[id] <= timeout),
        after_reap(table, now, timeout).contains_key(id) ==> after_reap(table, now, timeout)[id]
            == table[id],
        stale_ids(after_reap(table, now, timeout), now, timeout) == Set::<Seq<char>>::empty(),
        after_reap(after_reap(table, now, timeout), now, timeout) == after_reap(table, now, timeout),
{
    let reaped = after_reap(table, now, timeout);
    assert(stale_ids(reaped, now, timeout) =~= Set::<Seq<char>>::empty());
    assert(after_reap(reaped, now, timeout) =~= reaped);
}

} // verus!
