//! The individual admission rejection reasons, their messages, and the
//! header map's normalization.

use hmac::{Hmac, KeyInit, Mac};
use sha1::Sha1;

use webhook_server::auth::verify_authentication_header;
use webhook_server::errors::AuthError;
use webhook_server::headers::Headers;
use webhook_server::settings::Settings;

fn secret_only() -> Settings {
    Settings {
        domain: String::new(),
        port: 8000,
        secret: Some("A secret string".to_string()),
        ssl_private_key: None,
        ssl_cert_chain: None,
        basic_auth_user: None,
        basic_auth_password: None,
        basic_auth_and_secret: false,
        webhooks: Vec::new(),
    }
}

fn basic_only() -> Settings {
    let mut s = secret_only();
    s.secret = None;
    s.basic_auth_user = Some("TestUser".to_string());
    s.basic_auth_password = Some("TestPassword".to_string());
    s
}

#[test]
/// With neither method configured every request is admitted.
fn open_policy_accepts_anything() {
    let mut s = secret_only();
    s.secret = None;
    let mut headers = Headers::new();
    headers.insert("signature".to_string(), "garbage".to_string());
    let body = b"whatever".to_vec();
    assert!(verify_authentication_header(&s, &headers, &body).is_ok());
}

#[test]
/// A secret configured as the empty string counts as no secret.
fn empty_secret_is_no_secret() {
    let mut s = secret_only();
    s.secret = Some(String::new());
    let headers = Headers::new();
    assert!(verify_authentication_header(&s, &headers, b"x").is_ok());
}

#[test]
/// A signature header without the sha1= prefix is malformed.
fn signature_without_prefix() {
    let s = secret_only();
    let mut headers = Headers::new();
    headers.insert("signature".to_string(), "md5=abcdef".to_string());
    let r = verify_authentication_header(&s, &headers, b"x");
    assert_eq!(r, Err(AuthError::MalformedSignature));
    assert_eq!(
        r.unwrap_err().message(),
        "Error while parsing signature: Couldn't find prefix"
    );
}

#[test]
/// A signature that is not valid hex is rejected as invalid.
fn signature_not_hex() {
    let s = secret_only();
    let mut headers = Headers::new();
    headers.insert("signature".to_string(), "sha1=zzzz".to_string());
    let r = verify_authentication_header(&s, &headers, b"x");
    assert_eq!(r, Err(AuthError::InvalidSignature));
    assert_eq!(r.unwrap_err().message(), "Invalid sha1 signature");
}

#[test]
/// A signature header carrying the tag and nothing after it is a
/// present signature, and an empty signature never matches the HMAC.
fn empty_signature_payload_is_invalid() {
    let s = secret_only();
    let mut headers = Headers::new();
    headers.insert("signature".to_string(), "sha1=".to_string());
    assert_eq!(
        verify_authentication_header(&s, &headers, b"x"),
        Err(AuthError::InvalidSignature)
    );
}

#[test]
/// A found-but-wrong signature short-circuits: valid basic-auth
/// credentials beside it do not save the request.
fn wrong_signature_beats_valid_basic_auth() {
    let mut s = basic_only();
    s.secret = Some("A secret string".to_string());
    let engine = base64::engine::GeneralPurpose::new(
        &base64::alphabet::URL_SAFE,
        base64::engine::general_purpose::NO_PAD,
    );
    let token = base64::Engine::encode(&engine, b"TestUser:TestPassword");
    let mut headers = Headers::new();
    headers.insert("authorization".to_string(), format!("Basic {token}"));
    headers.insert("signature".to_string(), "sha1=".to_string());
    assert_eq!(
        verify_authentication_header(&s, &headers, b"x"),
        Err(AuthError::InvalidSignature)
    );
}

#[test]
/// An odd-length hex signature is rejected as invalid.
fn signature_odd_length_hex() {
    let s = secret_only();
    let mut headers = Headers::new();
    headers.insert("signature".to_string(), "sha1=abc".to_string());
    assert_eq!(
        verify_authentication_header(&s, &headers, b"x"),
        Err(AuthError::InvalidSignature)
    );
}

#[test]
/// When both methods are required a missing signature is its own error.
fn missing_signature_when_both_required() {
    let mut s = secret_only();
    s.basic_auth_user = Some("TestUser".to_string());
    s.basic_auth_password = Some("TestPassword".to_string());
    s.basic_auth_and_secret = true;
    let headers = Headers::new();
    let r = verify_authentication_header(&s, &headers, b"x");
    assert_eq!(r, Err(AuthError::MissingSignature));
    assert_eq!(r.unwrap_err().message(), "No signature header found");
}

#[test]
/// Basic auth without any authorization header is rejected.
fn basic_auth_missing_header() {
    let s = basic_only();
    let headers = Headers::new();
    let r = verify_authentication_header(&s, &headers, b"x");
    assert_eq!(r, Err(AuthError::MissingCredentials));
    assert_eq!(r.unwrap_err().message(), "");
}

#[test]
/// An authorization header without the Basic prefix is rejected.
fn basic_auth_wrong_scheme() {
    let s = basic_only();
    let mut headers = Headers::new();
    headers.insert("authorization".to_string(), "Bearer abc".to_string());
    let r = verify_authentication_header(&s, &headers, b"x");
    assert_eq!(r, Err(AuthError::MalformedBasicPrefix));
    assert_eq!(
        r.unwrap_err().message(),
        "Error while parsing signature: Couldn't find Basic prefix"
    );
}

#[test]
/// A payload that is not base64 under the URL-safe alphabet is rejected.
fn basic_auth_bad_base64() {
    let s = basic_only();
    let mut headers = Headers::new();
    headers.insert("authorization".to_string(), "Basic !!!".to_string());
    let r = verify_authentication_header(&s, &headers, b"x");
    assert_eq!(r, Err(AuthError::MalformedBase64));
    assert_eq!(r.unwrap_err().message(), "Malformed base64");
}

#[test]
/// Decoded bytes that are not UTF-8 are rejected.
fn basic_auth_invalid_utf8() {
    let s = basic_only();
    let engine = base64::engine::GeneralPurpose::new(
        &base64::alphabet::URL_SAFE,
        base64::engine::general_purpose::NO_PAD,
    );
    let token = base64::Engine::encode(&engine, [0xffu8, 0xfe, 0xfd]);
    let mut headers = Headers::new();
    headers.insert("authorization".to_string(), format!("Basic {token}"));
    let r = verify_authentication_header(&s, &headers, b"x");
    assert_eq!(r, Err(AuthError::InvalidUtf8));
    assert_eq!(r.unwrap_err().message(), "Invalid utf8 token");
}

#[test]
/// A token without exactly one colon is malformed.
fn basic_auth_no_colon() {
    let s = basic_only();
    let engine = base64::engine::GeneralPurpose::new(
        &base64::alphabet::URL_SAFE,
        base64::engine::general_purpose::NO_PAD,
    );
    let token = base64::Engine::encode(&engine, b"TestUserTestPassword");
    let mut headers = Headers::new();
    headers.insert("authorization".to_string(), format!("Basic {token}"));
    let r = verify_authentication_header(&s, &headers, b"x");
    assert_eq!(r, Err(AuthError::MalformedCredentials));
    assert_eq!(r.unwrap_err().message(), "Malformed credential string");
}

#[test]
/// A token with two colons is malformed as well.
fn basic_auth_two_colons() {
    let s = basic_only();
    let engine = base64::engine::GeneralPurpose::new(
        &base64::alphabet::URL_SAFE,
        base64::engine::general_purpose::NO_PAD,
    );
    let token = base64::Engine::encode(&engine, b"a:b:c");
    let mut headers = Headers::new();
    headers.insert("authorization".to_string(), format!("Basic {token}"));
    assert_eq!(
        verify_authentication_header(&s, &headers, b"x"),
        Err(AuthError::MalformedCredentials)
    );
}

#[test]
/// A well-formed token with the wrong password is rejected.
fn basic_auth_wrong_password() {
    let s = basic_only();
    let engine = base64::engine::GeneralPurpose::new(
        &base64::alphabet::URL_SAFE,
        base64::engine::general_purpose::NO_PAD,
    );
    let token = base64::Engine::encode(&engine, b"TestUser:WrongPassword");
    let mut headers = Headers::new();
    headers.insert("authorization".to_string(), format!("Basic {token}"));
    let r = verify_authentication_header(&s, &headers, b"x");
    assert_eq!(r, Err(AuthError::InvalidCredentials));
    assert_eq!(r.unwrap_err().message(), "");
}

#[test]
/// With only a secret configured and no signature sent, the basic-auth
/// fallback finds no configured pair to compare against.
fn basic_auth_not_configured() {
    let s = secret_only();
    let engine = base64::engine::GeneralPurpose::new(
        &base64::alphabet::URL_SAFE,
        base64::engine::general_purpose::NO_PAD,
    );
    let token = base64::Engine::encode(&engine, b"TestUser:TestPassword");
    let mut headers = Headers::new();
    headers.insert("authorization".to_string(), format!("Basic {token}"));
    let r = verify_authentication_header(&s, &headers, b"x");
    assert_eq!(r, Err(AuthError::CredentialsNotConfigured));
    assert_eq!(r.unwrap_err().message(), "");
}

#[test]
/// Header names are case-normalized: an upper-case name still matches.
fn header_names_are_case_insensitive() {
    let (s, body) = (secret_only(), b"some body".to_vec());
    let secret = s.secret.clone().unwrap();
    let mut mac = <Hmac<Sha1>>::new_from_slice(secret.as_bytes()).unwrap();
    mac.update(&body);
    let sig = format!("sha1={}", hex::encode(mac.finalize().into_bytes()));
    let mut headers = Headers::new();
    headers.insert("X-Hub-Signature".to_string(), sig);
    assert!(verify_authentication_header(&s, &headers, &body).is_ok());
}

#[test]
/// A later header value for the same name wins over an earlier one.
fn later_header_value_wins() {
    let s = secret_only();
    let body = b"some body".to_vec();
    let secret = s.secret.clone().unwrap();
    let mut mac = <Hmac<Sha1>>::new_from_slice(secret.as_bytes()).unwrap();
    mac.update(&body);
    let good = format!("sha1={}", hex::encode(mac.finalize().into_bytes()));
    let mut headers = Headers::new();
    headers.insert("signature".to_string(), good);
    headers.insert(
        "signature".to_string(),
        "sha1=a68ccdf08e2767a8307c8cda67a77f4046cb9e17".to_string(),
    );
    assert!(verify_authentication_header(&s, &headers, &body).is_err());
}

#[test]
/// The ordered candidate lookup takes the first name that is present.
fn first_of_prefers_earlier_name() {
    let mut headers = Headers::new();
    headers.insert("x-hub-signature".to_string(), "fallback".to_string());
    headers.insert("signature".to_string(), "primary".to_string());
    let got = headers.get_first_of(&["signature", "x-hub-signature"]);
    assert_eq!(got, Some("primary".to_string()));
    let got = headers.get_first_of(&["missing", "x-hub-signature"]);
    assert_eq!(got, Some("fallback".to_string()));
    assert_eq!(headers.get_first_of(&["nope"]), None);
}
