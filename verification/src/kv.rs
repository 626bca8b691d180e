//! Specification of ordered key-value sequences: the model behind both
//! the header map and the parameter map. A later entry with the same key
//! wins over an earlier one.

use vstd::prelude::*;

verus! {

/// The value bound to `key`, taking the last matching entry.
pub open spec fn spec_lookup(entries: Seq<(Seq<char>, Seq<char>)>, key: Seq<char>) -> Option<
    Seq<char>,
>
    decreases entries.len(),
{
    if entries.len() == 0 {
        None
    } else if entries.last().0 == key {
        Some(entries.last().1)
    } else {
        spec_lookup(entries.drop_last(), key)
    }
}

/// The value bound to the first of `keys` that has a binding at all.
pub open spec fn spec_first_of(entries: Seq<(Seq<char>, Seq<char>)>, keys: Seq<Seq<char>>) -> Option<
    Seq<char>,
>
    decreases keys.len(),
{
    if keys.len() == 0 {
        None
    } else {
        match spec_lookup(entries, keys.first()) {
            Some(v) => Some(v),
            None => spec_first_of(entries, keys.drop_first()),
        }
    }
}

/// The finite map an entry sequence denotes.
pub open spec fn spec_entries_map(entries: Seq<(Seq<char>, Seq<char>)>) -> Map<
    Seq<char>,
    Seq<char>,
>
    decreases entries.len(),
{
    if entries.len() == 0 {
        Map::empty()
    } else {
        spec_entries_map(entries.drop_last()).insert(entries.last().0, entries.last().1)
    }
}

/// Sequence lookup and the denoted map agree on every key.
pub proof fn lemma_lookup_is_map(entries: Seq<(Seq<char>, Seq<char>)>, key: Seq<char>)
    ensures
        spec_lookup(entries, key) == (if spec_entries_map(entries).contains_key(key) {
            Some(spec_entries_map(entries)[key])
        } else {
            None::<Seq<char>>
        }),
    decreases entries.len(),
{
    if entries.len() == 0 {
    } else {
        lemma_lookup_is_map(entries.drop_last(), key);
    }
}

} // verus!
