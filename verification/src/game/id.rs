use vstd::prelude::*;

verus! {

/// A source of entity ids: it counts up from 1.
pub struct IdCounter {
    next: i64,
}

impl View for IdCounter {
    type V = i64;

    closed spec fn view(&self) -> i64 {
        self.next
    }
}

/// The id that follows `id`; after the largest comes the smallest.
pub open spec fn following(id: i64) -> i64 {
    if id == i64::MAX {
        i64::MIN
    } else {
        (id + 1) as i64
    }
}

impl IdCounter {
    /// A counter whose first id is 1.
    pub fn new() -> (counter: Self)
        ensures
            counter@ == 1,
    {
        IdCounter { next: 1 }
    }
}

/// Hands out the next id of `counter`.
pub fn next_id(counter: &mut IdCounter) -> (id: i64)
    ensures
        id == old(counter)@,
        final(counter)@ == following(old(counter)@),
{
    let id: i64 = counter.next;
    counter.next = if id == i64::MAX {
        i64::MIN
    } else {
        id + 1
    };
    id
}

} // verus!
