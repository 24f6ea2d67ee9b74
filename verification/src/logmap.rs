//! Append-only key/value logs and their map view.
//!
//! Several parts of the model keep state as a log of writes: the current
//! binding of a key is the last entry written for it. [`log_map`] is the
//! spec-level view of such a log as a map.

use vstd::prelude::*;

verus! {

/// The map a write log denotes: the last entry for each key wins.
pub open spec fn log_map<K, V>(entries: Seq<(K, V)>) -> Map<K, V>
    decreases entries.len(),
{
    if entries.len() == 0 {
        Map::empty()
    } else {
        log_map(entries.drop_last()).insert(entries.last().0, entries.last().1)
    }
}

/// Dropping a trailing entry for another key leaves a key's binding unchanged.
pub proof fn lemma_log_map_take_step<K, V>(entries: Seq<(K, V)>, key: K, i: int)
    requires
        0 < i <= entries.len(),
        entries[i - 1].0 != key,
    ensures
        log_map(entries.take(i)).get(key) == log_map(entries.take(i - 1)).get(key),
{
    let pre = entries.take(i);
    assert(pre.drop_last() =~= entries.take(i - 1));
}

/// Every binding in the map view comes from some entry of the log.
pub proof fn lemma_log_map_get_in_entries<K, V>(entries: Seq<(K, V)>, key: K)
    requires
        log_map(entries).contains_key(key),
    ensures
        exists|i: int|
            0 <= i < entries.len() && entries[i] == (key, log_map(entries)[key]),
    decreases entries.len(),
{
    if entries.len() > 0 {
        if entries.last().0 == key {
            assert(entries[entries.len() - 1] == (key, log_map(entries)[key]));
        } else {
            lemma_log_map_get_in_entries(entries.drop_last(), key);
            let i = choose|i: int|
                0 <= i < entries.drop_last().len() && entries.drop_last()[i] == (
                key,
                log_map(entries.drop_last())[key],
            );
            assert(entries[i] == (key, log_map(entries)[key]));
        }
    }
}

} // verus!
