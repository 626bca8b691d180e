//! The parameter map of one request: the key-value pairs that fill the
//! command template's placeholders.

use vstd::prelude::*;

use crate::kv::{lemma_lookup_is_map, spec_entries_map, spec_lookup};
use crate::strutil::str_eq;

verus! {

/// Ordered parameter entries; a later entry with the same key wins.
#[derive(Debug)]
pub struct Params {
    entries: Vec<(String, String)>,
}

impl View for Params {
    type V = Seq<(Seq<char>, Seq<char>)>;

    closed spec fn view(&self) -> Seq<(Seq<char>, Seq<char>)> {
        self.entries@.map_values(|p: (String, String)| (p.0@, p.1@))
    }
}

impl Params {
    /// The finite map these entries denote.
    pub open spec fn as_map(self) -> Map<Seq<char>, Seq<char>> {
        spec_entries_map(self@)
    }

    pub fn new() -> (r: Params)
        ensures
            r@ == Seq::<(Seq<char>, Seq<char>)>::empty(),
    {
        let p = Params { entries: Vec::new() };
        proof {
            assert(p@ =~= Seq::<(Seq<char>, Seq<char>)>::empty());
        }
        p
    }

    pub fn insert(&mut self, key: String, value: String)
        ensures
            final(self)@ == old(self)@.push((key@, value@)),
    {
        let ghost k = key@;
        let ghost v = value@;
        self.entries.push((key, value));
        proof {
            assert(self@ =~= old(self)@.push((k, v)));
        }
    }

    pub fn is_empty(&self) -> (r: bool)
        ensures
            r == (self@.len() == 0),
    {
        self.entries.len() == 0
    }

    /// The value bound to `key`, if any.
    pub fn get(&self, key: &str) -> (r: Option<String>)
        ensures
            match r {
                Some(v) => spec_lookup(self@, key@) == Some(v@),
                None => spec_lookup(self@, key@) is None,
            },
    {
        let n = self.entries.len();
        let mut i = n;
        proof {
            assert(self@.subrange(0, n as int) =~= self@);
        }
        while i > 0
            invariant
                n == self.entries@.len(),
                i <= n,
                self@.len() == n,
                spec_lookup(self@, key@) == spec_lookup(self@.subrange(0, i as int), key@),
            decreases i,
        {
            i = i - 1;
            proof {
                assert(self@.subrange(0, i + 1).last() == self@[i as int]);
                assert(self@.subrange(0, i + 1).drop_last() =~= self@.subrange(0, i as int));
            }
            if str_eq(self.entries[i].0.as_str(), key) {
                return Some(self.entries[i].1.clone());
            }
        }
        proof {
            assert(self@.subrange(0, 0) =~= Seq::<(Seq<char>, Seq<char>)>::empty());
        }
        None
    }

    /// The raw entries, in insertion order.
    pub fn entries_vec(&self) -> (r: &Vec<(String, String)>)
        ensures
            r@.map_values(|p: (String, String)| (p.0@, p.1@)) == self@,
    {
        &self.entries
    }

    /// Is `key` bound in the denoted map?
    pub fn contains_key(&self, key: &str) -> (r: bool)
        ensures
            r == self.as_map().contains_key(key@),
    {
        proof {
            lemma_lookup_is_map(self@, key@);
        }
        match self.get(key) {
            Some(_) => true,
            None => false,
        }
    }
}

} // verus!
