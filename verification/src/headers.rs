//! The request header map: a case-normalized ordered mapping in which a
//! later value for the same name wins, with lookup by the first match of
//! an ordered list of candidate names.

use vstd::prelude::*;

use crate::kv::{spec_first_of, spec_lookup};
use crate::strutil::{lower_chars, lowercase, str_eq};

verus! {

/// The headers of one incoming request. Names are ASCII-lowercased on
/// insertion, as HTTP header names are case-insensitive.
#[derive(Debug)]
pub struct Headers {
    entries: Vec<(String, String)>,
}

impl View for Headers {
    type V = Seq<(Seq<char>, Seq<char>)>;

    closed spec fn view(&self) -> Seq<(Seq<char>, Seq<char>)> {
        self.entries@.map_values(|p: (String, String)| (p.0@, p.1@))
    }
}

impl Headers {
    pub fn new() -> (r: Headers)
        ensures
            r@ == Seq::<(Seq<char>, Seq<char>)>::empty(),
    {
        let h = Headers { entries: Vec::new() };
        proof {
            assert(h@ =~= Seq::<(Seq<char>, Seq<char>)>::empty());
        }
        h
    }

    /// Record one header; its name is lowercased, and this entry wins
    /// over any earlier one of the same name.
    pub fn insert(&mut self, name: String, value: String)
        ensures
            final(self)@ == old(self)@.push((lower_chars(name@), value@)),
    {
        let lowered = lowercase(name.as_str());
        self.entries.push((lowered, value));
        proof {
            assert(self@ =~= old(self)@.push((lower_chars(name@), value@)));
        }
    }

    /// The value of the header named `name`, if present.
    pub fn get(&self, name: &str) -> (r: Option<String>)
        ensures
            match r {
                Some(v) => spec_lookup(self@, name@) == Some(v@),
                None => spec_lookup(self@, name@) is None,
            },
    {
        let n = self.entries.len();
        let mut i = n;
        proof {
            assert(self@.subrange(0, n as int) =~= self@);
        }
        while i > 0
            invariant
                n == self.entries@.len(),
                i <= n,
                self@.len() == n,
                spec_lookup(self@, name@) == spec_lookup(self@.subrange(0, i as int), name@),
            decreases i,
        {
            i = i - 1;
            proof {
                assert(self@.subrange(0, i + 1).last() == self@[i as int]);
                assert(self@.subrange(0, i + 1).drop_last() =~= self@.subrange(0, i as int));
            }
            if str_eq(self.entries[i].0.as_str(), name) {
                return Some(self.entries[i].1.clone());
            }
        }
        proof {
            assert(self@.subrange(0, 0) =~= Seq::<(Seq<char>, Seq<char>)>::empty());
        }
        None
    }

    /// The value of the first of `names` that is present, trying each
    /// candidate name in order.
    pub fn get_first_of(&self, names: &[&str]) -> (r: Option<String>)
        ensures
            ({
                let keys = names@.map_values(|k: &str| k@);
                match r {
                    Some(v) => spec_first_of(self@, keys) == Some(v@),
                    None => spec_first_of(self@, keys) is None,
                }
            }),
    {
        let ghost keys = names@.map_values(|k: &str| k@);
        let n = names.len();
        proof {
            assert(keys.skip(0) =~= keys);
        }
        for i in 0..n
            invariant
                n == names@.len(),
                keys == names@.map_values(|k: &str| k@),
                spec_first_of(self@, keys) == spec_first_of(self@, keys.skip(i as int)),
        {
            proof {
                assert(keys.skip(i as int).first() == keys[i as int]);
                assert(keys.skip(i as int).drop_first() =~= keys.skip(i + 1));
            }
            match self.get(names[i]) {
                Some(v) => {
                    return Some(v);
                },
                None => {},
            }
        }
        proof {
            assert(keys.skip(n as int).len() == 0);
        }
        None
    }
}

} // verus!
