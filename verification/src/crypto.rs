//! The one cryptographic operation admission needs: checking a request
//! signature against the HMAC-SHA1 tag of the body under the shared
//! secret.

use vstd::prelude::*;

verus! {

/// The HMAC-SHA1 tag of a message under a key: a pure function of the
/// two, named rather than spelled out. The key is given as the secret's
/// characters; the algorithm runs over their UTF-8 bytes.
pub uninterp spec fn hmac_sha1_of(key: Seq<char>, msg: Seq<u8>) -> Seq<u8>;

/// Relies on the hmac and sha1 crates: `Mac::verify_slice` accepts a
/// tag exactly when it equals the HMAC-SHA1 of the processed input (it
/// rejects a tag of the wrong length, and compares in constant time),
/// and that tag is a function of key and message alone. HMAC accepts
/// keys of any length, so construction cannot fail.
#[verifier::external_body]
pub fn hmac_sha1_verify(secret: &str, body: &[u8], tag: &Vec<u8>) -> (r: bool)
    ensures
        r == (tag@ == hmac_sha1_of(secret@, body@)),
{
    let mut mac = <hmac::Hmac<sha1::Sha1> as hmac::KeyInit>::new_from_slice(secret.as_bytes())
        .expect("HMAC accepts keys of any length");
    hmac::Mac::update(&mut mac, body);
    hmac::Mac::verify_slice(mac, tag.as_slice()).is_ok()
}

} // verus!
