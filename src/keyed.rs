//! Lists of entries keyed by text, read as maps.

use vstd::prelude::*;

verus! {

/// Whether no two entries share a key.
pub open spec fn keys_distinct<V>(entries: Seq<(String, V)>) -> bool {
    forall|i: int, j: int|
        0 <= i < entries.len() && 0 <= j < entries.len() && i != j ==> #[trigger] entries[i].0@
            != #[trigger] entries[j].0@
}

/// Whether some entry has key `k`.
pub open spec fn has_key<V>(entries: Seq<(String, V)>, k: Seq<char>) -> bool {
    exists|i: int| 0 <= i < entries.len() && #[trigger] entries[i].0@ == k
}

/// The map from keys to values that a list of entries stands for.
pub open spec fn entries_map<V>(entries: Seq<(String, V)>) -> Map<Seq<char>, V> {
    Map::new(
        |k: Seq<char>| has_key(entries, k),
        |k: Seq<char>| entries[choose|i: int| 0 <= i < entries.len() && entries[i].0@ == k].1,
    )
}

/// With distinct keys, each entry is what the map holds at its key.
pub proof fn lemma_entry_in_map<V>(entries: Seq<(String, V)>, i: int)
    requires
        keys_distinct(entries),
        0 <= i < entries.len(),
    ensures
        entries_map(entries).contains_key(entries[i].0@),
        entries_map(entries)[entries[i].0@] == entries[i].1,
{
    let k = entries[i].0@;
    assert(has_key(entries, k));
    let j = choose|j: int| 0 <= j < entries.len() && entries[j].0@ == k;
    assert(j == i);
}

/// Replacing an entry by one with the same key updates the map at that key.
pub proof fn lemma_replace_entry<V>(entries: Seq<(String, V)>, i: int, e: (String, V))
    requires
        keys_distinct(entries),
        0 <= i < entries.len(),
        e.0@ == entries[i].0@,
    ensures
        keys_distinct(entries.update(i, e)),
        entries_map(entries.update(i, e)) == entries_map(entries).insert(e.0@, e.1),
{
    let n = entries.update(i, e);
    assert(keys_distinct(n));
    assert forall|k: Seq<char>| has_key(n, k) <==> has_key(entries, k) by {
        if has_key(n, k) {
            let j = choose|j: int| 0 <= j < n.len() && #[trigger] n[j].0@ == k;
            assert(entries[j].0@ == k);
        }
        if has_key(entries, k) {
            let j = choose|j: int| 0 <= j < entries.len() && #[trigger] entries[j].0@ == k;
            assert(n[j].0@ == k);
        }
    }
    assert forall|k: Seq<char>| #[trigger] has_key(n, k) implies entries_map(n)[k] == entries_map(
        entries,
    ).insert(e.0@, e.1)[k] by {
        let j = choose|j: int| 0 <= j < n.len() && #[trigger] n[j].0@ == k;
        lemma_entry_in_map(n, j);
        if j != i {
            lemma_entry_in_map(entries, j);
        }
    }
    assert(entries_map(n) =~= entries_map(entries).insert(e.0@, e.1));
}

/// Appending an entry with a new key adds that key to the map.
pub proof fn lemma_push_entry<V>(entries: Seq<(String, V)>, e: (String, V))
    requires
        keys_distinct(entries),
        !has_key(entries, e.0@),
    ensures
        keys_distinct(entries.push(e)),
        entries_map(entries.push(e)) == entries_map(entries).insert(e.0@, e.1),
{
    let n = entries.push(e);
    assert forall|i: int, j: int|
        0 <= i < n.len() && 0 <= j < n.len() && i != j implies #[trigger] n[i].0@
        != #[trigger] n[j].0@ by {
        if i == entries.len() {
            assert(entries[j].0@ != e.0@);
        } else if j == entries.len() {
            assert(entries[i].0@ != e.0@);
        }
    }
    assert forall|k: Seq<char>| has_key(n, k) <==> (has_key(entries, k) || k == e.0@) by {
        if has_key(n, k) {
            let j = choose|j: int| 0 <= j < n.len() && #[trigger] n[j].0@ == k;
            if j < entries.len() {
                assert(entries[j].0@ == k);
            }
        }
        if has_key(entries, k) {
            let j = choose|j: int| 0 <= j < entries.len() && #[trigger] entries[j].0@ == k;
            assert(n[j].0@ == k);
        }
        if k == e.0@ {
            assert(n[entries.len() as int].0@ == k);
        }
    }
    assert forall|k: Seq<char>| #[trigger] has_key(n, k) implies entries_map(n)[k] == entries_map(
        entries,
    ).insert(e.0@, e.1)[k] by {
        let j = choose|j: int| 0 <= j < n.len() && #[trigger] n[j].0@ == k;
        lemma_entry_in_map(n, j);
        if j < entries.len() {
            lemma_entry_in_map(entries, j);
        }
    }
    assert(entries_map(n) =~= entries_map(entries).insert(e.0@, e.1));
}

/// The position of the entry with key `key`, if there is one.
pub fn find_key<V>(entries: &Vec<(String, V)>, key: &String) -> (r: Option<usize>)
    ensures
        match r {
            Some(i) => i < entries@.len() && entries@[i as int].0@ == key@,
            None => !has_key(entries@, key@),
        },
{
    let mut i: usize = 0;
    while i < entries.len()
        invariant
            i <= entries@.len(),
            forall|j: int| 0 <= j < i ==> entries@[j].0@ != key@,
        decreases entries@.len() - i,
    {
        if entries[i].0 == *key {
            return Some(i);
        }
        i = i + 1;
    }
    None
}

} // verus!
