//! Admission: decides, from the configured policy and one
//! request's headers and body, whether the request may proceed.
//!
//! Two methods exist: an HMAC-SHA1 signature of the body under the
//! shared secret, and HTTP basic auth. The policy configures either,
//! both, or none; `basic_auth_and_secret` demands both at once.

use vstd::prelude::*;
use vstd::utf8::{decode_utf8, valid_utf8};

use crate::codec::{
    b64_url_decode, base64_decode, hex_decode, spec_hex_bytes, spec_hex_encode, spec_hex_ok,
    utf8_decode, lemma_hex_roundtrip,
};
use crate::crypto::{hmac_sha1_of, hmac_sha1_verify};
use crate::errors::AuthError;
use crate::headers::Headers;
use crate::kv::spec_lookup;
use crate::settings::Settings;
use crate::strutil::{
    count_char_from, find_char_from, lemma_count_find, lemma_single_occurrence, str_eq,
    str_starts_with, str_tail,
};

verus! {

/// The signature header's value: the primary name first, then the
/// fallback name a well-known provider uses.
pub open spec fn spec_sig_header(h: Seq<(Seq<char>, Seq<char>)>) -> Option<Seq<char>> {
    match spec_lookup(h, "signature"@) {
        Some(v) => Some(v),
        None => spec_lookup(h, "x-hub-signature"@),
    }
}

/// The signature carried by the request: `None` when no signature
/// header is present under either name, the part after `sha1=` when
/// one is (possibly empty — a found header is always checked), and a
/// malformed-signature error when the prefix is missing.
pub open spec fn spec_get_signature(h: Seq<(Seq<char>, Seq<char>)>) -> Result<
    Option<Seq<char>>,
    AuthError,
> {
    match spec_sig_header(h) {
        None => Ok(None),
        Some(v) => if v.len() >= 5 && v.subrange(0, 5) == "sha1="@ {
            Ok(Some(v.skip(5)))
        } else {
            Err(AuthError::MalformedSignature)
        },
    }
}

/// A presented signature is valid when it is hex and decodes to the
/// HMAC-SHA1 tag of the body under the secret.
pub open spec fn spec_signature_valid(sig: Seq<char>, secret: Seq<char>, body: Seq<u8>) -> bool {
    spec_hex_ok(sig) && spec_hex_bytes(sig) == hmac_sha1_of(secret, body)
}

/// The outcome of checking decoded basic-auth credentials against the
/// configured pair: the token must split at a single `:` into exactly
/// the configured user and password.
pub open spec fn spec_check_credentials(token: Seq<char>, s: Settings) -> Result<(), AuthError> {
    if count_char_from(token, ':', 0) != 1 {
        Err(AuthError::MalformedCredentials)
    } else {
        let i = find_char_from(token, ':', 0);
        let user = token.subrange(0, i);
        let pass = token.subrange(i + 1, token.len() as int);
        match s.basic_auth_user {
            None => Err(AuthError::CredentialsNotConfigured),
            Some(u) => match s.basic_auth_password {
                None => Err(AuthError::CredentialsNotConfigured),
                Some(p) => if u@ == user && p@ == pass {
                    Ok(())
                } else {
                    Err(AuthError::InvalidCredentials)
                },
            },
        }
    }
}

/// The outcome of the whole basic-auth check on a request: find the
/// authorization header, strip the `Basic ` scheme, decode base64 and
/// UTF-8, then compare credentials.
pub open spec fn spec_verify_basic_auth(h: Seq<(Seq<char>, Seq<char>)>, s: Settings) -> Result<
    (),
    AuthError,
> {
    match spec_lookup(h, "authorization"@) {
        None => Err(AuthError::MissingCredentials),
        Some(v) => if !(v.len() >= 6 && v.subrange(0, 6) == "Basic "@) {
            Err(AuthError::MalformedBasicPrefix)
        } else {
            match b64_url_decode(v.skip(6)) {
                None => Err(AuthError::MalformedBase64),
                Some(bytes) => if !valid_utf8(bytes) {
                    Err(AuthError::InvalidUtf8)
                } else {
                    spec_check_credentials(decode_utf8(bytes), s)
                },
            }
        },
    }
}

/// The whole admission decision for one request.
pub open spec fn spec_admit(s: Settings, h: Seq<(Seq<char>, Seq<char>)>, body: Seq<u8>) -> Result<
    (),
    AuthError,
> {
    let required = s.spec_has_secret() || s.spec_has_basic_auth();
    if !required {
        Ok(())
    } else if s.spec_has_secret() || s.basic_auth_and_secret {
        match spec_get_signature(h) {
            Err(e) => Err(e),
            Ok(Some(sig)) => if spec_signature_valid(sig, s.spec_secret(), body) {
                if !s.basic_auth_and_secret {
                    Ok(())
                } else {
                    spec_verify_basic_auth(h, s)
                }
            } else {
                Err(AuthError::InvalidSignature)
            },
            Ok(None) => if s.basic_auth_and_secret {
                Err(AuthError::MissingSignature)
            } else {
                spec_verify_basic_auth(h, s)
            },
        }
    } else {
        spec_verify_basic_auth(h, s)
    }
}

/// Extract the signature from the request's headers, trying the primary
/// header name and then the provider-specific fallback. `None` means
/// neither header is present — the caller decides whether a signature
/// was required; a header found without the `sha1=` algorithm tag is
/// malformed, and whatever follows the tag, even nothing, is the
/// signature to check.
pub fn get_signature_header(headers: &Headers) -> (r: Result<Option<String>, AuthError>)
    ensures
        match r {
            Ok(Some(sig)) => spec_get_signature(headers@) == Ok::<Option<Seq<char>>, AuthError>(
                Some(sig@),
            ),
            Ok(None) => spec_get_signature(headers@) == Ok::<Option<Seq<char>>, AuthError>(None),
            Err(e) => spec_get_signature(headers@) == Err::<Option<Seq<char>>, AuthError>(e),
        },
{
    let found = match headers.get("signature") {
        Some(v) => Some(v),
        None => headers.get("x-hub-signature"),
    };
    match found {
        None => Ok(None),
        Some(v) => {
            if str_starts_with(v.as_str(), "sha1=") {
                proof {
                    reveal_strlit("sha1=");
                }
                Ok(Some(str_tail(v.as_str(), 5)))
            } else {
                proof {
                    reveal_strlit("sha1=");
                }
                Err(AuthError::MalformedSignature)
            }
        },
    }
}

/// Check a presented signature: decode it as hex and compare it, in
/// constant time, against the HMAC-SHA1 tag of the body under the
/// secret. Both a malformed hex string and a mismatched tag are
/// rejected the same way.
pub fn verify_signature_header(signature: &str, secret: &str, body: &[u8]) -> (r: Result<
    (),
    AuthError,
>)
    ensures
        r == (if spec_signature_valid(signature@, secret@, body@) {
            Ok::<(), AuthError>(())
        } else {
            Err::<(), AuthError>(AuthError::InvalidSignature)
        }),
{
    let tag = match hex_decode(signature) {
        Some(bytes) => bytes,
        None => {
            return Err(AuthError::InvalidSignature);
        },
    };
    if hmac_sha1_verify(secret, body, &tag) {
        Ok(())
    } else {
        Err(AuthError::InvalidSignature)
    }
}

/// Compare a decoded basic-auth token against the configured pair.
pub fn check_credentials(token: &str, settings: &Settings) -> (r: Result<(), AuthError>)
    ensures
        r == spec_check_credentials(token@, *settings),
{
    let len = token.unicode_len();
    let mut i = len;
    let mut colons: usize = 0;
    let mut first: usize = len;
    while i > 0
        invariant
            len == token@.len(),
            i <= len,
            colons == count_char_from(token@, ':', i as int),
            colons <= len - i,
            first as int == find_char_from(token@, ':', i as int),
        decreases i,
    {
        i = i - 1;
        if token.get_char(i) == ':' {
            colons = colons + 1;
            first = i;
        }
    }
    if colons != 1 {
        return Err(AuthError::MalformedCredentials);
    }
    proof {
        lemma_count_find(token@, ':', 0);
    }
    let user_part = token.substring_char(0, first);
    let pass_part = token.substring_char(first + 1, len);
    match &settings.basic_auth_user {
        None => Err(AuthError::CredentialsNotConfigured),
        Some(u) => match &settings.basic_auth_password {
            None => Err(AuthError::CredentialsNotConfigured),
            Some(p) => {
                if str_eq(u.as_str(), user_part) && str_eq(p.as_str(), pass_part) {
                    Ok(())
                } else {
                    Err(AuthError::InvalidCredentials)
                }
            },
        },
    }
}

/// Verify the basic-auth header: it must be `Basic ` followed by the
/// URL-safe, unpadded base64 of `user:password` in UTF-8, matching the
/// configured pair.
pub fn verify_basic_auth_header(headers: &Headers, settings: &Settings) -> (r: Result<
    (),
    AuthError,
>)
    ensures
        r == spec_verify_basic_auth(headers@, *settings),
{
    let header = match headers.get("authorization") {
        Some(h) => h,
        None => {
            return Err(AuthError::MissingCredentials);
        },
    };
    if !str_starts_with(header.as_str(), "Basic ") {
        proof {
            reveal_strlit("Basic ");
        }
        return Err(AuthError::MalformedBasicPrefix);
    }
    proof {
        reveal_strlit("Basic ");
    }
    let token_b64 = str_tail(header.as_str(), 6);
    let token_bytes = match base64_decode(token_b64.as_str()) {
        Some(b) => b,
        None => {
            return Err(AuthError::MalformedBase64);
        },
    };
    let token = match utf8_decode(token_bytes.as_slice()) {
        Some(t) => t,
        None => {
            return Err(AuthError::InvalidUtf8);
        },
    };
    check_credentials(token.as_str(), settings)
}

/// The admission decision. Accepts the request exactly when the configured
/// policy is satisfied: no method configured admits everything; a
/// valid signature suffices unless both methods are demanded; basic
/// auth is checked otherwise. A signature header that is present is
/// always verified — a wrong one rejects the request even when valid
/// credentials stand beside it. Rejections carry the distinct reasons
/// of `AuthError` and have no side effects.
pub fn verify_authentication_header(settings: &Settings, headers: &Headers, body: &[u8]) -> (r:
    Result<(), AuthError>)
    ensures
        r == spec_admit(*settings, headers@, body@),
{
    let has_secret = match &settings.secret {
        Some(s) => !s.as_str().is_empty(),
        None => false,
    };
    let has_basic_auth = (match &settings.basic_auth_user {
        Some(u) => !u.as_str().is_empty(),
        None => false,
    }) && (match &settings.basic_auth_password {
        Some(p) => !p.as_str().is_empty(),
        None => false,
    });
    let check_both = settings.basic_auth_and_secret;
    if !(has_basic_auth || has_secret) {
        return Ok(());
    }
    let secret: &str = match &settings.secret {
        Some(s) => s.as_str(),
        None => "",
    };
    proof {
        assert(""@ =~= Seq::<char>::empty()) by {
            reveal_strlit("");
        }
    }
    let mut signature_valid = false;
    if has_secret || check_both {
        match get_signature_header(headers) {
            Err(e) => {
                return Err(e);
            },
            Ok(Some(signature)) => {
                // a found signature header is always checked, even when
                // nothing follows the algorithm tag
                match verify_signature_header(signature.as_str(), secret, body) {
                    Ok(()) => {},
                    Err(e) => {
                        return Err(e);
                    },
                }
                signature_valid = true;
            },
            Ok(None) => {
                if check_both {
                    return Err(AuthError::MissingSignature);
                }
            },
        }
    }
    if !check_both && signature_valid {
        return Ok(());
    }
    verify_basic_auth_header(headers, settings)
}

/// With no secret and no basic-auth pair configured, admission is open:
/// every request passes, whatever its headers and body.
pub proof fn lemma_open_policy_accepts(s: Settings, h: Seq<(Seq<char>, Seq<char>)>, body: Seq<u8>)
    requires
        !s.spec_has_secret(),
        !s.spec_has_basic_auth(),
    ensures
        spec_admit(s, h, body) == Ok::<(), AuthError>(()),
{
}

/// When only the secret is required, a request carrying the body's
/// HMAC-SHA1 tag under the secret, hex-encoded and prefixed `sha1=`,
/// in either signature header name, is accepted.
pub proof fn lemma_valid_signature_accepted(
    s: Settings,
    h: Seq<(Seq<char>, Seq<char>)>,
    body: Seq<u8>,
)
    requires
        s.spec_has_secret(),
        !s.basic_auth_and_secret,
        spec_sig_header(h) == Some("sha1="@ + spec_hex_encode(hmac_sha1_of(s.spec_secret(), body))),
    ensures
        spec_admit(s, h, body) == Ok::<(), AuthError>(()),
{
    let tag = hmac_sha1_of(s.spec_secret(), body);
    let enc = spec_hex_encode(tag);
    let v = "sha1="@ + enc;
    reveal_strlit("sha1=");
    assert(v.subrange(0, 5) =~= "sha1="@);
    assert(v.skip(5) =~= enc);
    lemma_hex_roundtrip(tag);
}

/// A presented signature that does not decode as hex, or whose HMAC
/// does not match the body under the secret, is rejected — also when
/// nothing at all follows the `sha1=` tag, and also when a valid
/// basic-auth header stands beside it: a found signature header
/// short-circuits.
pub proof fn lemma_invalid_signature_rejected(
    s: Settings,
    h: Seq<(Seq<char>, Seq<char>)>,
    body: Seq<u8>,
    sig: Seq<char>,
)
    requires
        s.spec_has_secret(),
        spec_sig_header(h) == Some("sha1="@ + sig),
        !spec_signature_valid(sig, s.spec_secret(), body),
    ensures
        spec_admit(s, h, body) == Err::<(), AuthError>(AuthError::InvalidSignature),
{
    let v = "sha1="@ + sig;
    reveal_strlit("sha1=");
    assert(v.subrange(0, 5) =~= "sha1="@);
    assert(v.skip(5) =~= sig);
}

/// When both methods are demanded and a valid signature is presented,
/// the admission outcome is exactly the basic-auth outcome: missing or
/// invalid credentials still reject the request, and valid ones accept
/// it.
pub proof fn lemma_require_both_tracks_basic_auth(
    s: Settings,
    h: Seq<(Seq<char>, Seq<char>)>,
    body: Seq<u8>,
)
    requires
        s.spec_has_secret(),
        s.basic_auth_and_secret,
        spec_sig_header(h) == Some("sha1="@ + spec_hex_encode(hmac_sha1_of(s.spec_secret(), body))),
    ensures
        spec_admit(s, h, body) == spec_verify_basic_auth(h, s),
{
    let tag = hmac_sha1_of(s.spec_secret(), body);
    let enc = spec_hex_encode(tag);
    let v = "sha1="@ + enc;
    reveal_strlit("sha1=");
    assert(v.subrange(0, 5) =~= "sha1="@);
    assert(v.skip(5) =~= enc);
    lemma_hex_roundtrip(tag);
}

/// When both methods are demanded and no signature header is present,
/// the request is rejected even if its basic-auth credentials are
/// valid.
pub proof fn lemma_require_both_missing_signature(
    s: Settings,
    h: Seq<(Seq<char>, Seq<char>)>,
    body: Seq<u8>,
)
    requires
        s.spec_has_secret() || s.spec_has_basic_auth(),
        s.basic_auth_and_secret,
        spec_sig_header(h) is None,
    ensures
        spec_admit(s, h, body) == Err::<(), AuthError>(AuthError::MissingSignature),
{
}

/// When both methods are demanded and both are presented valid — the
/// body's tag under the secret as the signature, and the configured
/// pair as credentials — the request is accepted.
pub proof fn lemma_require_both_accepts(
    s: Settings,
    h: Seq<(Seq<char>, Seq<char>)>,
    body: Seq<u8>,
    enc: Seq<char>,
    bytes: Seq<u8>,
)
    requires
        s.spec_has_secret(),
        s.basic_auth_and_secret,
        s.basic_auth_user is Some,
        s.basic_auth_password is Some,
        !s.basic_auth_user->0@.contains(':'),
        !s.basic_auth_password->0@.contains(':'),
        spec_sig_header(h) == Some("sha1="@ + spec_hex_encode(hmac_sha1_of(s.spec_secret(), body))),
        spec_lookup(h, "authorization"@) == Some("Basic "@ + enc),
        b64_url_decode(enc) == Some(bytes),
        valid_utf8(bytes),
        decode_utf8(bytes) == s.basic_auth_user->0@ + seq![':'] + s.basic_auth_password->0@,
    ensures
        spec_admit(s, h, body) == Ok::<(), AuthError>(()),
{
    lemma_require_both_tracks_basic_auth(s, h, body);
    lemma_basic_auth_exact_match(
        s,
        h,
        s.basic_auth_user->0@,
        s.basic_auth_password->0@,
        enc,
        bytes,
    );
}

/// A `Basic` authorization header is accepted exactly when the decoded
/// `user:password` token matches the configured pair; a mismatch in
/// either field is rejected as invalid credentials. Malformed base64,
/// invalid UTF-8 and a token without exactly one `:` are rejected
/// earlier, by `spec_verify_basic_auth`'s other arms.
pub proof fn lemma_basic_auth_exact_match(
    s: Settings,
    h: Seq<(Seq<char>, Seq<char>)>,
    user: Seq<char>,
    pass: Seq<char>,
    enc: Seq<char>,
    bytes: Seq<u8>,
)
    requires
        s.basic_auth_user is Some,
        s.basic_auth_password is Some,
        spec_lookup(h, "authorization"@) == Some("Basic "@ + enc),
        b64_url_decode(enc) == Some(bytes),
        valid_utf8(bytes),
        decode_utf8(bytes) == user + seq![':'] + pass,
        !user.contains(':'),
        !pass.contains(':'),
    ensures
        spec_verify_basic_auth(h, s) == (if user == s.basic_auth_user->0@ && pass
            == s.basic_auth_password->0@ {
            Ok::<(), AuthError>(())
        } else {
            Err::<(), AuthError>(AuthError::InvalidCredentials)
        }),
{
    let v = "Basic "@ + enc;
    reveal_strlit("Basic ");
    assert(v.subrange(0, 6) =~= "Basic "@);
    assert(v.skip(6) =~= enc);
    let t = user + seq![':'] + pass;
    let k = user.len() as int;
    assert(t[k] == ':');
    assert forall|j: int| 0 <= j < t.len() && j != k implies t[j] != ':' by {
        if j < k {
            assert(t[j] == user[j]);
        } else {
            assert(t[j] == pass[j - k - 1]);
        }
    }
    lemma_single_occurrence(t, ':', k, 0);
    assert(t.subrange(0, k) =~= user);
    assert(t.subrange(k + 1, t.len() as int) =~= pass);
}

} // verus!
