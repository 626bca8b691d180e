//! Small verified string helpers shared by the admission logic and the renderer.

use vstd::prelude::*;

verus! {

/// ASCII-lowercase a single character; anything outside `A..Z` is untouched.
pub open spec fn lower_char(c: char) -> char {
    if 65 <= c as u32 && c as u32 <= 90 {
        (((c as u32) + 32) as u8) as char
    } else {
        c
    }
}

/// ASCII-lowercase a character sequence.
pub open spec fn lower_chars(s: Seq<char>) -> Seq<char> {
    s.map_values(|c: char| lower_char(c))
}

/// Relies on `String::push` of std, which vstd leaves unspecified:
/// it appends the one character at the end of the string.
#[verifier::external_body]
pub fn push_char(s: &mut String, c: char)
    ensures
        final(s)@ == old(s)@.push(c),
{
    s.push(c);
}

/// How many occurrences of `c` stand in `s` at or after position `i`.
pub open spec fn count_char_from(s: Seq<char>, c: char, i: int) -> nat
    decreases s.len() - i,
{
    if i < 0 || i >= s.len() {
        0
    } else {
        (if s[i] == c {
            1nat
        } else {
            0nat
        }) + count_char_from(s, c, i + 1)
    }
}

/// The first position of `c` in `s` at or after `i`; the length when
/// there is none.
pub open spec fn find_char_from(s: Seq<char>, c: char, i: int) -> int
    decreases s.len() - i,
{
    if i < 0 || i >= s.len() {
        s.len() as int
    } else if s[i] == c {
        i
    } else {
        find_char_from(s, c, i + 1)
    }
}

/// Wherever counting starts, a positive count means the first
/// occurrence lies inside the string, and it is an occurrence.
pub proof fn lemma_count_find(s: Seq<char>, c: char, i: int)
    requires
        0 <= i <= s.len(),
    ensures
        count_char_from(s, c, i) > 0 <==> find_char_from(s, c, i) < s.len(),
        find_char_from(s, c, i) < s.len() ==> i <= find_char_from(s, c, i) && s[find_char_from(
            s,
            c,
            i,
        )] == c,
        find_char_from(s, c, i) >= i,
    decreases s.len() - i,
{
    if i < s.len() {
        lemma_count_find(s, c, i + 1);
    }
}

/// A string with `c` at position `k` and nowhere else has exactly one
/// occurrence of `c`, found at `k`.
pub proof fn lemma_single_occurrence(s: Seq<char>, c: char, k: int, i: int)
    requires
        0 <= i <= s.len(),
        0 <= k < s.len(),
        s[k] == c,
        forall|j: int| 0 <= j < s.len() && j != k ==> s[j] != c,
    ensures
        count_char_from(s, c, i) == if i <= k {
            1nat
        } else {
            0nat
        },
        i <= k ==> find_char_from(s, c, i) == k,
    decreases s.len() - i,
{
    if i < s.len() {
        lemma_single_occurrence(s, c, k, i + 1);
    }
}

/// Character-for-character equality of two string slices.
pub fn str_eq(a: &str, b: &str) -> (r: bool)
    ensures
        r == (a@ == b@),
{
    let alen = a.unicode_len();
    let blen = b.unicode_len();
    if alen != blen {
        return false;
    }
    for i in 0..alen
        invariant
            alen == a@.len(),
            blen == b@.len(),
            alen == blen,
            forall|j: int| 0 <= j < i ==> a@[j] == b@[j],
    {
        if a.get_char(i) != b.get_char(i) {
            return false;
        }
    }
    proof {
        assert(a@ =~= b@);
    }
    true
}

/// Does `s` start with `prefix`, character for character?
pub fn str_starts_with(s: &str, prefix: &str) -> (r: bool)
    ensures
        r == (prefix@.len() <= s@.len() && s@.subrange(0, prefix@.len() as int) == prefix@),
{
    let slen = s.unicode_len();
    let plen = prefix.unicode_len();
    if plen > slen {
        return false;
    }
    for i in 0..plen
        invariant
            slen == s@.len(),
            plen == prefix@.len(),
            plen <= slen,
            forall|j: int| 0 <= j < i ==> s@[j] == prefix@[j],
    {
        if s.get_char(i) != prefix.get_char(i) {
            proof {
                assert(s@.subrange(0, plen as int)[i as int] != prefix@[i as int]);
            }
            return false;
        }
    }
    proof {
        assert(s@.subrange(0, prefix@.len() as int) =~= prefix@);
    }
    true
}

/// The characters of `s` from position `from` to the end, as an owned string.
pub fn str_tail(s: &str, from: usize) -> (r: String)
    requires
        from <= s@.len(),
    ensures
        r@ == s@.subrange(from as int, s@.len() as int),
{
    let len = s.unicode_len();
    s.substring_char(from, len).to_owned()
}

/// ASCII-lowercase an owned string.
pub fn lowercase(s: &str) -> (r: String)
    ensures
        r@ == lower_chars(s@),
{
    let len = s.unicode_len();
    let mut out = String::new();
    for i in 0..len
        invariant
            len == s@.len(),
            out@ == lower_chars(s@).subrange(0, i as int),
    {
        let c = s.get_char(i);
        let u: u32 = c as u32;
        let l: char = if 65 <= u && u <= 90 {
            ((u + 32) as u8) as char
        } else {
            c
        };
        assert(l == lower_char(s@[i as int]));
        push_char(&mut out, l);
        proof {
            assert(out@ =~= lower_chars(s@).subrange(0, i + 1));
        }
    }
    proof {
        assert(out@ =~= lower_chars(s@));
    }
    out
}

} // verus!
