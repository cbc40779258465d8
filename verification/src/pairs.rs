//! Association lists: a sequence of key/value pairs read as a map, later pairs
//! overriding earlier ones.

use vstd::prelude::*;

verus! {

/// The map held by `entries`: each key (by view) to the view of its last value.
pub open spec fn pairs_map<K: View, V: View>(entries: Seq<(K, V)>) -> Map<K::V, V::V>
    decreases entries.len(),
{
    if entries.len() == 0 {
        Map::empty()
    } else {
        pairs_map(entries.drop_last()).insert(entries.last().0@, entries.last().1@)
    }
}

/// No key (by view) occurs twice in `entries`.
pub open spec fn distinct_keys<K: View, V>(entries: Seq<(K, V)>) -> bool {
    forall|i: int, j: int|
        0 <= i < j < entries.len() ==> (#[trigger] entries[i]).0@ != (#[trigger] entries[j]).0@
}

/// When keys are distinct, the map of a list of pairs has one entry per pair.
pub proof fn lemma_pairs_map<K: View, V: View>(entries: Seq<(K, V)>)
    requires
        distinct_keys(entries),
    ensures
        pairs_map(entries).dom().finite(),
        pairs_map(entries).dom().len() == entries.len(),
        forall|i: int|
            0 <= i < entries.len() ==> pairs_map(entries).contains_key(#[trigger] entries[i].0@)
                && pairs_map(entries)[entries[i].0@] == entries[i].1@,
        forall|k: K::V|
            pairs_map(entries).contains_key(k) ==> exists|i: int|
                0 <= i < entries.len() && #[trigger] entries[i].0@ == k,
    decreases entries.len(),
{
    if entries.len() > 0 {
        let init = entries.drop_last();
        assert forall|i: int, j: int| 0 <= i < j < init.len() implies (#[trigger] init[i]).0@
            != (#[trigger] init[j]).0@ by {
            assert(init[i] == entries[i] && init[j] == entries[j]);
        }
        lemma_pairs_map(init);
        let last = entries.last();
        assert(!pairs_map(init).contains_key(last.0@)) by {
            if pairs_map(init).contains_key(last.0@) {
                let i = choose|i: int| 0 <= i < init.len() && #[trigger] init[i].0@ == last.0@;
                assert(entries[i].0@ == entries[entries.len() - 1].0@);
            }
        }
        assert forall|k: K::V| pairs_map(entries).contains_key(k) implies exists|i: int|
            0 <= i < entries.len() && #[trigger] entries[i].0@ == k by {
            if k == last.0@ {
                assert(entries[entries.len() - 1].0@ == k);
            } else {
                let i = choose|i: int| 0 <= i < init.len() && #[trigger] init[i].0@ == k;
                assert(entries[i].0@ == k);
            }
        }
        assert forall|i: int| 0 <= i < entries.len() implies pairs_map(entries).contains_key(
            #[trigger] entries[i].0@,
        ) && pairs_map(entries)[entries[i].0@] == entries[i].1@ by {
            if i < entries.len() - 1 {
                assert(entries[i] == init[i]);
            }
        }
    }
}

/// Replacing the value of an existing key, in place, is an insert into the map.
pub proof fn lemma_pairs_map_replace<K: View, V: View>(
    before: Seq<(K, V)>,
    i: int,
    entry: (K, V),
)
    requires
        distinct_keys(before),
        0 <= i < before.len(),
        before[i].0@ == entry.0@,
    ensures
        distinct_keys(before.update(i, entry)),
        pairs_map(before.update(i, entry)) == pairs_map(before).insert(entry.0@, entry.1@),
{
    let after = before.update(i, entry);
    assert forall|a: int, b: int| 0 <= a < b < after.len() implies (#[trigger] after[a]).0@
        != (#[trigger] after[b]).0@ by {
        assert(before[a].0@ != before[b].0@);
    }
    lemma_pairs_map(before);
    lemma_pairs_map(after);
    let target = pairs_map(before).insert(entry.0@, entry.1@);
    assert forall|k: K::V| #[trigger] pairs_map(after).contains_key(k) implies target.contains_key(
        k,
    ) && pairs_map(after)[k] == target[k] by {
        let m = choose|m: int| 0 <= m < after.len() && #[trigger] after[m].0@ == k;
        if m != i {
            assert(after[m] == before[m]);
            assert(before[m].0@ != before[i].0@);
        }
    }
    assert forall|k: K::V| #[trigger] target.contains_key(k) implies pairs_map(after).contains_key(
        k,
    ) by {
        if k == entry.0@ {
            assert(after[i].0@ == k);
        } else {
            let m = choose|m: int| 0 <= m < before.len() && #[trigger] before[m].0@ == k;
            assert(after[m] == before[m]);
        }
    }
    assert(pairs_map(after) =~= target);
}

/// Appending a pair with a new key keeps keys distinct and inserts into the map.
pub proof fn lemma_pairs_map_push<K: View, V: View>(before: Seq<(K, V)>, entry: (K, V))
    requires
        distinct_keys(before),
        forall|j: int| 0 <= j < before.len() ==> (#[trigger] before[j]).0@ != entry.0@,
    ensures
        distinct_keys(before.push(entry)),
        pairs_map(before.push(entry)) == pairs_map(before).insert(entry.0@, entry.1@),
{
    let after = before.push(entry);
    assert(after.drop_last() =~= before);
    assert forall|a: int, b: int| 0 <= a < b < after.len() implies (#[trigger] after[a]).0@
        != (#[trigger] after[b]).0@ by {
        if b < before.len() {
            assert(after[a] == before[a] && after[b] == before[b]);
        } else {
            assert(after[a] == before[a]);
        }
    }
}

/// The index of the last pair of `entries` whose key reads `key`, if any.
pub open spec fn last_key_index<V>(entries: Seq<(String, V)>, key: Seq<char>) -> Option<int>
    decreases entries.len(),
{
    if entries.len() == 0 {
        None
    } else if entries.last().0@ == key {
        Some(entries.len() - 1)
    } else {
        last_key_index(entries.drop_last(), key)
    }
}

/// The last entry with `key` is the one the map keeps, and no later entry has it.
pub proof fn lemma_last_key_index<V>(entries: Seq<(String, V)>, key: Seq<char>)
    ensures
        last_key_index(entries, key) matches Some(i) ==> 0 <= i < entries.len() && entries[i].0@
            == key && forall|j: int| i < j < entries.len() ==> (#[trigger] entries[j]).0@ != key,
        last_key_index(entries, key) is None ==> forall|j: int|
            0 <= j < entries.len() ==> (#[trigger] entries[j]).0@ != key,
    decreases entries.len(),
{
    if entries.len() > 0 {
        lemma_last_key_index(entries.drop_last(), key);
        assert forall|j: int| 0 <= j < entries.len() - 1 implies entries[j] == entries.drop_last()[j] by {}
    }
}

/// Looking a key up after pairs were appended: the last appended pair with the
/// key, else the lookup in the pairs before.
pub proof fn lemma_last_key_concat<V>(a: Seq<(String, V)>, b: Seq<(String, V)>, key: Seq<char>)
    ensures
        last_key_index(a + b, key) == match last_key_index(b, key) {
            Some(j) => Some(a.len() + j),
            None => last_key_index(a, key),
        },
    decreases b.len(),
{
    if b.len() == 0 {
        assert(a + b =~= a);
    } else {
        assert((a + b).drop_last() =~= a + b.drop_last());
        assert((a + b).last() == b.last());
        lemma_last_key_concat(a, b.drop_last(), key);
    }
}

/// The index of the last pair of `entries` keyed by `key`: a map lookup in which
/// later pairs override earlier ones.
pub fn find_key<V>(entries: &Vec<(String, V)>, key: &str) -> (r: Option<usize>)
    ensures
        r matches Some(i) ==> last_key_index(entries@, key@) == Some(i as int) && i
            < entries@.len() && entries@[i as int].0@ == key@,
        r is None ==> last_key_index(entries@, key@) is None,
{
    proof {
        lemma_last_key_index(entries@, key@);
    }
    let mut i: usize = entries.len();
    assert(entries@.take(i as int) =~= entries@);
    while i > 0
        invariant
            i <= entries@.len(),
            last_key_index(entries@, key@) == last_key_index(entries@.take(i as int), key@),
        decreases i,
    {
        let ghost t = entries@.take(i as int);
        assert(t.drop_last() =~= entries@.take(i - 1));
        assert(t.last() == entries@[i - 1]);
        if crate::text::str_eq(entries[i - 1].0.as_str(), key) {
            return Some(i - 1);
        }
        i = i - 1;
    }
    None
}

} // verus!

verus! {

/// Removing the pair at `i` removes its key from the map, when keys are distinct.
pub proof fn lemma_pairs_map_remove<K: View, V: View>(before: Seq<(K, V)>, i: int)
    requires
        distinct_keys(before),
        0 <= i < before.len(),
    ensures
        distinct_keys(before.remove(i)),
        pairs_map(before.remove(i)) == pairs_map(before).remove(before[i].0@),
{
    let after = before.remove(i);
    assert forall|a: int, b: int| 0 <= a < b < after.len() implies (#[trigger] after[a]).0@
        != (#[trigger] after[b]).0@ by {
        let a0 = if a < i { a } else { a + 1 };
        let b0 = if b < i { b } else { b + 1 };
        assert(after[a] == before[a0] && after[b] == before[b0]);
    }
    lemma_pairs_map(before);
    lemma_pairs_map(after);
    let target = pairs_map(before).remove(before[i].0@);
    assert forall|k: K::V| #[trigger] pairs_map(after).contains_key(k) implies target.contains_key(k)
        && pairs_map(after)[k] == target[k] by {
        let m = choose|m: int| 0 <= m < after.len() && #[trigger] after[m].0@ == k;
        let m0 = if m < i { m } else { m + 1 };
        assert(after[m] == before[m0]);
        assert(before[m0].0@ != before[i].0@);
    }
    assert forall|k: K::V| #[trigger] target.contains_key(k) implies pairs_map(after).contains_key(k) by {
        let m = choose|m: int| 0 <= m < before.len() && #[trigger] before[m].0@ == k;
        assert(m != i);
        let m1 = if m < i { m } else { m - 1 };
        assert(after[m1] == before[m]);
    }
    assert(pairs_map(after) =~= target);
}

} // verus!
