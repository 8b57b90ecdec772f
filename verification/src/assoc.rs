//! Association lists as maps: a list of key-value entries stands for the map
//! in which a later entry for a key replaces an earlier one.

use vstd::prelude::*;
use crate::text::Text;

verus! {

/// The map that a list of entries stands for.
pub open spec fn assoc<V>(entries: Seq<(Text, V)>) -> Map<Text, V>
    decreases entries.len(),
{
    if entries.len() == 0 {
        Map::empty()
    } else {
        assoc(entries.drop_last()).insert(entries.last().0, entries.last().1)
    }
}

/// Appending an entry inserts it into the map.
pub proof fn lemma_assoc_push<V>(entries: Seq<(Text, V)>, key: Text, value: V)
    ensures
        assoc(entries.push((key, value))) == assoc(entries).insert(key, value),
{
    assert(entries.push((key, value)).drop_last() =~= entries);
}

/// Entries behind position `i` that do not hold `key` do not matter to what
/// the map says of `key`.
pub proof fn lemma_assoc_skip<V>(entries: Seq<(Text, V)>, key: Text, i: int)
    requires
        0 <= i <= entries.len(),
        forall|j: int| i <= j < entries.len() ==> entries[j].0 != key,
    ensures
        assoc(entries).contains_key(key) == assoc(entries.take(i)).contains_key(key),
        assoc(entries).contains_key(key) ==> assoc(entries)[key] == assoc(entries.take(i))[key],
    decreases entries.len() - i,
{
    if i == entries.len() {
        assert(entries.take(i) =~= entries);
    } else {
        let shorter = entries.drop_last();
        lemma_assoc_skip(shorter, key, i);
        assert(shorter.take(i) =~= entries.take(i));
    }
}

/// The last entry that holds `key` decides what the map says of it.
pub proof fn lemma_assoc_hit<V>(entries: Seq<(Text, V)>, key: Text, i: int)
    requires
        0 <= i < entries.len(),
        entries[i].0 == key,
        forall|j: int| i < j < entries.len() ==> entries[j].0 != key,
    ensures
        assoc(entries).contains_key(key),
        assoc(entries)[key] == entries[i].1,
{
    lemma_assoc_skip(entries, key, i + 1);
    assert(entries.take(i + 1).drop_last() =~= entries.take(i));
}

/// A key is in the map exactly if some entry holds it.
pub proof fn lemma_assoc_keys<V>(entries: Seq<(Text, V)>, key: Text)
    ensures
        assoc(entries).contains_key(key) <==> exists|i: int|
            0 <= i < entries.len() && (#[trigger] entries[i]).0 == key,
    decreases entries.len(),
{
    if entries.len() > 0 {
        let shorter = entries.drop_last();
        lemma_assoc_keys(shorter, key);
        if assoc(entries).contains_key(key) {
            if entries.last().0 == key {
                assert(entries[entries.len() - 1].0 == key);
            } else {
                let i = choose|i: int| 0 <= i < shorter.len() && (#[trigger] shorter[i]).0 == key;
                assert(entries[i].0 == key);
            }
        }
        if exists|i: int| 0 <= i < entries.len() && (#[trigger] entries[i]).0 == key {
            let i = choose|i: int| 0 <= i < entries.len() && (#[trigger] entries[i]).0 == key;
            if i < shorter.len() {
                assert(shorter[i].0 == key);
            }
        }
    }
}

/// One list after another stands for the first map overlaid with the second.
pub proof fn lemma_assoc_concat<V>(first: Seq<(Text, V)>, second: Seq<(Text, V)>)
    ensures
        assoc(first + second) == assoc(first).union_prefer_right(assoc(second)),
    decreases second.len(),
{
    if second.len() == 0 {
        assert(first + second =~= first);
        assert(assoc(first).union_prefer_right(assoc(second)) =~= assoc(first));
    } else {
        let shorter = second.drop_last();
        lemma_assoc_concat(first, shorter);
        assert((first + second).drop_last() =~= first + shorter);
        assert(assoc(first + second) =~= assoc(first).union_prefer_right(assoc(second)));
    }
}

} // verus!
