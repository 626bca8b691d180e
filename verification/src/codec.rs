//! Byte-level encodings the admission logic reads: hex, the
//! URL-safe base64 variant, and UTF-8.

use vstd::prelude::*;
use vstd::utf8::{decode_utf8, valid_utf8};

verus! {

/// Is `c` one of the hexadecimal digit characters, of either case?
pub open spec fn is_hex_digit(c: char) -> bool {
    let u = c as u32;
    (48 <= u && u <= 57) || (97 <= u && u <= 102) || (65 <= u && u <= 70)
}

/// The numeric value of a hexadecimal digit character.
pub open spec fn hex_digit_value(c: char) -> u8 {
    let u = c as u32;
    if 48 <= u && u <= 57 {
        (u - 48) as u8
    } else if 97 <= u && u <= 102 {
        (u - 87) as u8
    } else {
        (u - 55) as u8
    }
}

/// Does `s` decode as hex: even length, hex digits throughout?
pub open spec fn spec_hex_ok(s: Seq<char>) -> bool {
    s.len() % 2 == 0 && (forall|i: int| 0 <= i < s.len() ==> is_hex_digit(s[i]))
}

/// The bytes a hex string decodes to, one byte per digit pair.
pub open spec fn spec_hex_bytes(s: Seq<char>) -> Seq<u8> {
    Seq::new(
        s.len() / 2,
        |i: int| (16 * (hex_digit_value(s[2 * i]) as int) + (hex_digit_value(
            s[2 * i + 1],
        ) as int)) as u8,
    )
}

/// The lower-case hex digit character of a value below 16.
pub open spec fn hex_char_of(v: u8) -> char {
    if v < 10 {
        ((48 + v) as u8) as char
    } else {
        ((87 + v) as u8) as char
    }
}

/// The lower-case hex encoding of a byte sequence, two digits per byte.
pub open spec fn spec_hex_encode(b: Seq<u8>) -> Seq<char> {
    Seq::new(
        2 * b.len(),
        |i: int| if i % 2 == 0 {
            hex_char_of(b[i / 2] / 16)
        } else {
            hex_char_of(b[i / 2] % 16)
        },
    )
}

/// Hex encoding always decodes, and decodes back to the input.
pub proof fn lemma_hex_roundtrip(b: Seq<u8>)
    ensures
        spec_hex_ok(spec_hex_encode(b)),
        spec_hex_bytes(spec_hex_encode(b)) == b,
{
    let s = spec_hex_encode(b);
    assert forall|i: int| 0 <= i < s.len() implies is_hex_digit(s[i]) by {
        let v = if i % 2 == 0 {
            b[i / 2] / 16
        } else {
            b[i / 2] % 16
        };
        assert(v < 16);
        assert(s[i] == hex_char_of(v));
    }
    assert forall|i: int| 0 <= i < b.len() implies spec_hex_bytes(s)[i] == b[i] by {
        let hi = b[i] / 16;
        let lo = b[i] % 16;
        assert(s[2 * i] == hex_char_of(hi));
        assert(s[2 * i + 1] == hex_char_of(lo));
        assert(hex_digit_value(hex_char_of(hi)) == hi);
        assert(hex_digit_value(hex_char_of(lo)) == lo);
        assert(16 * (hi as int) + (lo as int) == b[i]);
    }
    assert(spec_hex_bytes(s) =~= b);
}

/// Relies on `hex::decode`: an even-length string of hex digits (either
/// case) decodes to one byte per digit pair, and anything else is
/// refused.
#[verifier::external_body]
pub fn hex_decode(s: &str) -> (r: Option<Vec<u8>>)
    ensures
        match r {
            Some(v) => spec_hex_ok(s@) && v@ == spec_hex_bytes(s@),
            None => !spec_hex_ok(s@),
        },
{
    hex::decode(s).ok()
}

/// What the URL-safe, unpadded base64 decoding of a string yields: a
/// function of the input characters alone, named rather than spelled out.
pub uninterp spec fn b64_url_decode(s: Seq<char>) -> Option<Seq<u8>>;

/// Relies on base64's `GeneralPurpose` engine with the `URL_SAFE`
/// alphabet and `NO_PAD`: whether a string decodes, and to which bytes,
/// depends on its characters alone.
#[verifier::external_body]
pub fn base64_decode(s: &str) -> (r: Option<Vec<u8>>)
    ensures
        match r {
            Some(v) => b64_url_decode(s@) == Some(v@),
            None => b64_url_decode(s@) is None,
        },
{
    let engine = base64::engine::GeneralPurpose::new(
        &base64::alphabet::URL_SAFE,
        base64::engine::general_purpose::NO_PAD,
    );
    base64::Engine::decode(&engine, s).ok()
}

/// Relies on std's `str::from_utf8`: it accepts exactly the valid UTF-8
/// byte sequences, and the returned string holds those very bytes.
#[verifier::external_body]
pub fn utf8_decode(v: &[u8]) -> (r: Option<String>)
    ensures
        match r {
            Some(s) => valid_utf8(v@) && s@ == decode_utf8(v@),
            None => !valid_utf8(v@),
        },
{
    match std::str::from_utf8(v) {
        Ok(s) => Some(s.to_owned()),
        Err(_) => None,
    }
}

} // verus!
