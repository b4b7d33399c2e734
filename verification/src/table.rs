//! Finite maps held as two parallel sequences: keys without repetition, and
//! the value that belongs to each key at the same index.
use vstd::prelude::*;

verus! {

/// An index at which `key` stands in `keys`, where it stands at one.
pub open spec fn slot<K>(keys: Seq<K>, key: K) -> int {
    choose|i: int| 0 <= i < keys.len() && keys[i] == key
}

/// The map that sends each key to the value at its index.
pub open spec fn table<K, V>(keys: Seq<K>, vals: Seq<V>) -> Map<K, V> {
    Map::new(|key: K| keys.contains(key), |key: K| vals[slot(keys, key)])
}

/// The key at index `i` is a key of the table, with the value at index `i`.
pub proof fn lemma_lookup<K, V>(keys: Seq<K>, vals: Seq<V>, i: int)
    requires
        keys.no_duplicates(),
        0 <= i < keys.len(),
    ensures
        keys.contains(keys[i]),
        slot(keys, keys[i]) == i,
        table(keys, vals).contains_key(keys[i]),
        table(keys, vals)[keys[i]] == vals[i],
{
    assert(keys.contains(keys[i]));
}

/// Every key of the table stands at its slot, and the table holds the value there.
pub proof fn lemma_key_slot<K, V>(keys: Seq<K>, vals: Seq<V>, key: K)
    requires
        table(keys, vals).contains_key(key),
    ensures
        0 <= slot(keys, key) < keys.len(),
        keys[slot(keys, key)] == key,
        table(keys, vals)[key] == vals[slot(keys, key)],
{
    assert(keys.contains(key));
}

/// Appending a new key with its value inserts that pair.
pub proof fn lemma_push<K, V>(keys: Seq<K>, vals: Seq<V>, key: K, val: V)
    requires
        keys.no_duplicates(),
        keys.len() == vals.len(),
        !keys.contains(key),
    ensures
        keys.push(key).no_duplicates(),
        table(keys.push(key), vals.push(val)) == table(keys, vals).insert(key, val),
{
    let keys2 = keys.push(key);
    let vals2 = vals.push(val);
    assert forall|i: int, j: int| 0 <= i < keys2.len() && 0 <= j < keys2.len() && i != j implies keys2[i]
        != keys2[j] by {
        if i < keys.len() {
            assert(keys.contains(keys[i]));
        }
        if j < keys.len() {
            assert(keys.contains(keys[j]));
        }
    }
    let want = table(keys, vals).insert(key, val);
    assert forall|k: K| table(keys2, vals2).contains_key(k) <==> want.contains_key(k) by {
        if keys2.contains(k) {
            let i = slot(keys2, k);
            if i < keys.len() {
                assert(keys[i] == k);
            }
        }
        if keys.contains(k) {
            let i = slot(keys, k);
            assert(keys2[i] == k);
        }
        if k == key {
            assert(keys2[keys.len() as int] == k);
        }
    }
    assert forall|k: K| table(keys2, vals2).contains_key(k) implies table(keys2, vals2)[k]
        == want[k] by {
        let i = slot(keys2, k);
        lemma_lookup(keys2, vals2, i);
        if i < keys.len() {
            lemma_lookup(keys, vals, i);
        }
    }
    assert(table(keys2, vals2) =~= want);
}

/// Replacing the value at index `i` changes the table at the key of index `i` only.
pub proof fn lemma_update<K, V>(keys: Seq<K>, vals: Seq<V>, i: int, val: V)
    requires
        keys.no_duplicates(),
        keys.len() == vals.len(),
        0 <= i < keys.len(),
    ensures
        table(keys, vals.update(i, val)) == table(keys, vals).insert(keys[i], val),
{
    let vals2 = vals.update(i, val);
    let want = table(keys, vals).insert(keys[i], val);
    lemma_lookup(keys, vals, i);
    assert forall|k: K| table(keys, vals2).contains_key(k) implies table(keys, vals2)[k]
        == want[k] by {
        let j = slot(keys, k);
        lemma_lookup(keys, vals2, j);
        lemma_lookup(keys, vals, j);
    }
    assert(table(keys, vals2) =~= want);
}

/// Taking index `i` out of both sequences removes the key of index `i`.
pub proof fn lemma_remove<K, V>(keys: Seq<K>, vals: Seq<V>, i: int)
    requires
        keys.no_duplicates(),
        keys.len() == vals.len(),
        0 <= i < keys.len(),
    ensures
        keys.remove(i).no_duplicates(),
        table(keys.remove(i), vals.remove(i)) == table(keys, vals).remove(keys[i]),
{
    let keys2 = keys.remove(i);
    let vals2 = vals.remove(i);
    assert forall|a: int, b: int| 0 <= a < keys2.len() && 0 <= b < keys2.len() && a != b implies keys2[a]
        != keys2[b] by {
        let a0 = if a < i { a } else { a + 1 };
        let b0 = if b < i { b } else { b + 1 };
        assert(keys[a0] != keys[b0]);
    }
    let want = table(keys, vals).remove(keys[i]);
    assert forall|k: K| table(keys2, vals2).contains_key(k) <==> want.contains_key(k) by {
        if keys2.contains(k) {
            let j = slot(keys2, k);
            let j0 = if j < i { j } else { j + 1 };
            assert(keys[j0] == k);
            assert(keys[j0] != keys[i]);
        }
        if keys.contains(k) && k != keys[i] {
            let j = slot(keys, k);
            let j1 = if j < i { j } else { j - 1 };
            assert(keys2[j1] == k);
        }
    }
    assert forall|k: K| table(keys2, vals2).contains_key(k) implies table(keys2, vals2)[k]
        == want[k] by {
        let j = slot(keys2, k);
        let j0 = if j < i { j } else { j + 1 };
        lemma_lookup(keys2, vals2, j);
        lemma_lookup(keys, vals, j0);
    }
    assert(table(keys2, vals2) =~= want);
}

/// A table has as many keys as its key sequence is long.
pub proof fn lemma_len<K, V>(keys: Seq<K>, vals: Seq<V>)
    requires
        keys.no_duplicates(),
        keys.len() == vals.len(),
    ensures
        table(keys, vals).dom().finite(),
        table(keys, vals).len() == keys.len(),
    decreases keys.len(),
{
    if keys.len() == 0 {
        assert(table(keys, vals) =~= Map::<K, V>::empty());
    } else {
        let n = keys.len() - 1;
        lemma_remove(keys, vals, n);
        assert(keys.remove(n) =~= keys.drop_last());
        assert(vals.remove(n) =~= vals.drop_last());
        lemma_len(keys.drop_last(), vals.drop_last());
        if keys.drop_last().contains(keys[n]) {
            let j = slot(keys.drop_last(), keys[n]);
            assert(keys[j] == keys[n]);
        }
        lemma_push(keys.drop_last(), vals.drop_last(), keys[n], vals[n]);
        assert(keys.drop_last().push(keys[n]) =~= keys);
        assert(vals.drop_last().push(vals[n]) =~= vals);
    }
}

/// Changing every value by `f` changes the table's values by `f`.
pub proof fn lemma_pointwise<K, V>(keys: Seq<K>, vals: Seq<V>, vals2: Seq<V>, f: spec_fn(V) -> V)
    requires
        keys.no_duplicates(),
        keys.len() == vals.len(),
        vals2.len() == vals.len(),
        forall|i: int| 0 <= i < vals.len() ==> #[trigger] vals2[i] == f(vals[i]),
    ensures
        table(keys, vals2) == table(keys, vals).map_values(f),
{
    let want = table(keys, vals).map_values(f);
    assert forall|k: K| table(keys, vals2).contains_key(k) implies table(keys, vals2)[k]
        == want[k] by {
        let j = slot(keys, k);
        lemma_lookup(keys, vals2, j);
        lemma_lookup(keys, vals, j);
    }
    assert(table(keys, vals2) =~= want);
}

} // verus!
