//! The properties of a guest object as a host map.

use vstd::hash_map::StringHashMap;
use vstd::prelude::*;

verus! {

/// The map that a run of property lookups gives: each key with the value
/// that its lookup found, a later lookup of a key over an earlier one;
/// a key whose lookup found nothing adds nothing.
pub open spec fn collected<V>(entries: Seq<(String, Option<V>)>) -> Map<Seq<char>, V>
    decreases entries.len(),
{
    if entries.len() == 0 {
        Map::empty()
    } else {
        let before = collected(entries.drop_last());
        match entries.last().1 {
            Some(value) => before.insert(entries.last().0@, value),
            None => before,
        }
    }
}

/// Converts the properties of a guest object to a hashmap.
///
/// `entries` holds the keys of the object in the order in which the guest
/// engine lists them, each with what the lookup of that key gave.
pub fn to_rust_hashmap<V>(entries: Vec<(String, Option<V>)>) -> (map: StringHashMap<V>)
    ensures
        map@ == collected(entries@),
{
    let mut map: StringHashMap<V> = StringHashMap::new();
    let ghost all = entries@;
    for entry in it: entries
        invariant
            it.seq() == all,
            map@ == collected(all.take(it.index() as int)),
    {
        proof {
            let done = it.index() as int;
            assert(all.take(done + 1).drop_last() =~= all.take(done));
        }
        let (name, value) = entry;
        match value {
            Some(value) => {
                map.insert(name, value);
            },
            None => {},
        }
    }
    proof {
        assert(all.take(all.len() as int) =~= all);
    }
    map
}

/// Whether the lookup at `i` was made for `key` and found a value.
pub open spec fn found_at<V>(entries: Seq<(String, Option<V>)>, key: Seq<char>, i: int) -> bool {
    0 <= i < entries.len() && entries[i].0@ == key && entries[i].1 is Some
}

/// A key is in the map exactly when one of its lookups found a value.
pub proof fn lemma_collected_has_found<V>(entries: Seq<(String, Option<V>)>, key: Seq<char>)
    ensures
        collected(entries).contains_key(key) <==> exists|i: int| found_at(entries, key, i),
    decreases entries.len(),
{
    if entries.len() > 0 {
        let before = entries.drop_last();
        let last = entries.len() - 1;
        lemma_collected_has_found(before, key);
        if collected(entries).contains_key(key) {
            if collected(before).contains_key(key) {
                let i = choose|i: int| found_at(before, key, i);
                assert(found_at(entries, key, i));
            } else {
                assert(found_at(entries, key, last));
            }
        }
        if exists|i: int| found_at(entries, key, i) {
            let i = choose|i: int| found_at(entries, key, i);
            if i < last {
                assert(found_at(before, key, i));
            }
        }
    }
}

/// The map holds for a key what the last lookup that found a value for
/// it found.
pub proof fn lemma_collected_holds_last_found<V>(
    entries: Seq<(String, Option<V>)>,
    key: Seq<char>,
    i: int,
)
    requires
        found_at(entries, key, i),
        forall|j: int| i < j ==> !found_at(entries, key, j),
    ensures
        collected(entries).contains_key(key),
        collected(entries)[key] == entries[i].1->0,
    decreases entries.len(),
{
    let before = entries.drop_last();
    let last = entries.len() - 1;
    if i < last {
        assert(!found_at(entries, key, last));
        assert forall|j: int| i < j implies !found_at(before, key, j) by {
            if 0 <= j < before.len() {
                assert(!found_at(entries, key, j));
            }
        }
        lemma_collected_holds_last_found(before, key, i);
    }
}

/// The map holds no more entries than lookups were made.
pub proof fn lemma_collected_is_finite<V>(entries: Seq<(String, Option<V>)>)
    ensures
        collected(entries).dom().finite(),
        collected(entries).dom().len() <= entries.len(),
    decreases entries.len(),
{
    if entries.len() > 0 {
        lemma_collected_is_finite(entries.drop_last());
    }
}

} // verus!
