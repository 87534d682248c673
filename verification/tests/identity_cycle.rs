use base64::Engine;
use valmiki_visitors::codec::{KeyError, SecretKey, decode, encode};
use valmiki_visitors::identity::{ID_LENGTH, VisitorId};
use valmiki_visitors::interceptor::{IdentityCookie, VisitorMiddleware};

fn seed_of(byte: u8) -> String {
    base64::engine::general_purpose::STANDARD.encode([byte; 32])
}

fn test_key(byte: u8) -> SecretKey {
    SecretKey::from_base64(&seed_of(byte)).expect("a 32-byte seed is accepted")
}

fn is_alphanumeric_ascii(s: &str) -> bool {
    s.chars().all(|c| c.is_ascii_alphanumeric())
}

#[test]
fn generate_has_fixed_length_and_alphabet() {
    let id = VisitorId::generate(ID_LENGTH);
    assert_eq!(id.as_str().len(), 64);
    assert!(is_alphanumeric_ascii(id.as_str()));
}

#[test]
fn generated_identities_are_distinct() {
    let a = VisitorId::generate(ID_LENGTH);
    let b = VisitorId::generate(ID_LENGTH);
    assert_ne!(a.as_str(), b.as_str());
}

#[test]
fn from_base64_accepts_a_valid_seed() {
    assert!(SecretKey::from_base64(&seed_of(7)).is_ok());
}

#[test]
fn from_base64_rejects_malformed_text() {
    assert!(matches!(
        SecretKey::from_base64("!!! not base64 !!!"),
        Err(KeyError::MalformedBase64)
    ));
}

#[test]
fn from_base64_rejects_a_short_seed() {
    let short = base64::engine::general_purpose::STANDARD.encode([9u8; 31]);
    assert!(matches!(
        SecretKey::from_base64(&short),
        Err(KeyError::TooShort)
    ));
}

#[test]
fn round_trip_recovers_the_identity() {
    let key = test_key(1);
    let id = VisitorId::generate(ID_LENGTH);
    let ciphertext = encode(&id, &key);
    assert_ne!(ciphertext.as_str(), id.as_str());
    let back = decode(&ciphertext, &key).expect("a value this key produced decodes");
    assert_eq!(back.as_str(), id.as_str());
}

#[test]
fn empty_identity_round_trips() {
    let key = test_key(2);
    let id = VisitorId::from(String::new());
    let ciphertext = encode(&id, &key);
    let back = decode(&ciphertext, &key).expect("the empty identity decodes");
    assert_eq!(back.as_str(), "");
}

#[test]
fn corrupted_value_fails_decoding() {
    let key = test_key(3);
    let id = VisitorId::generate(ID_LENGTH);
    let ciphertext = encode(&id, &key);
    let mut bytes = ciphertext.into_bytes();
    let middle = bytes.len() / 2;
    bytes[middle] ^= 0x01;
    let tampered = String::from_utf8(bytes).expect("flipping one bit keeps ASCII");
    assert!(decode(&tampered, &key).is_none());
}

#[test]
fn garbage_value_fails_decoding() {
    let key = test_key(4);
    assert!(decode("garbage", &key).is_none());
}

#[test]
fn another_key_rejects_the_cookie() {
    let key = test_key(5);
    let other = test_key(6);
    let ciphertext = encode(&VisitorId::generate(ID_LENGTH), &key);
    assert!(decode(&ciphertext, &other).is_none());
}

#[test]
fn non_alphanumeric_content_is_rejected() {
    let key = test_key(8);
    let id = VisitorId::from(String::from("not an identity!"));
    let ciphertext = encode(&id, &key);
    assert!(decode(&ciphertext, &key).is_none());
}

#[test]
fn absent_cookie_mints_an_identity_and_sets_the_cookie() {
    let m = VisitorMiddleware::new(test_key(10));
    let ctx = m.intercept(None);
    assert!(ctx.must_set_cookie);
    assert_eq!(ctx.identity.as_str().len(), 64);
    assert!(is_alphanumeric_ascii(ctx.identity.as_str()));
    let cookie = m.finalize(&ctx).expect("a fresh identity owes a cookie");
    assert_eq!(cookie.name, "__Secure-USID");
    assert!(cookie.http_only);
    assert!(cookie.secure);
    assert_eq!(cookie.path, "/");
    assert!(cookie.same_site_strict);
    assert!(cookie.permanent);
    let back = decode(&cookie.value, &m.key).expect("the set cookie decodes");
    assert_eq!(back.as_str(), ctx.identity.as_str());
}

#[test]
fn valid_cookie_is_reused_without_a_new_cookie() {
    let m = VisitorMiddleware::new(test_key(11));
    let id = VisitorId::generate(ID_LENGTH);
    let ciphertext = encode(&id, &m.key);
    let ctx = m.intercept(Some(&ciphertext));
    assert!(!ctx.must_set_cookie);
    assert_eq!(ctx.identity.as_str(), id.as_str());
    assert!(m.finalize(&ctx).is_none());
}

#[test]
fn invalid_cookie_behaves_like_an_absent_one() {
    let m = VisitorMiddleware::new(test_key(12));
    let ciphertext = encode(&VisitorId::from(String::from("ill formed *")), &m.key);
    let ctx = m.intercept(Some(&ciphertext));
    assert!(ctx.must_set_cookie);
    assert_eq!(ctx.identity.as_str().len(), 64);
    assert!(is_alphanumeric_ascii(ctx.identity.as_str()));
    assert!(m.finalize(&ctx).is_some());
}

#[test]
fn garbage_cookie_behaves_like_an_absent_one() {
    let m = VisitorMiddleware::new(test_key(13));
    let ctx = m.intercept(Some("garbage"));
    assert!(ctx.must_set_cookie);
    assert_eq!(ctx.identity.as_str().len(), 64);
    assert!(m.finalize(&ctx).is_some());
}

#[test]
fn header_value_lists_the_fixed_attributes() {
    let cookie = IdentityCookie::new(String::from("abc123"));
    assert_eq!(
        cookie.header_value(),
        "__Secure-USID=abc123; HttpOnly; Secure; SameSite=Strict; Path=/"
    );
}

#[test]
fn set_cookie_header_carries_the_ciphertext() {
    let m = VisitorMiddleware::new(test_key(14));
    let ctx = m.intercept(None);
    let cookie = m.finalize(&ctx).expect("a fresh identity owes a cookie");
    let header = cookie.header_value();
    assert!(header.starts_with("__Secure-USID="));
    assert!(header.ends_with("; HttpOnly; Secure; SameSite=Strict; Path=/"));
    assert!(header.contains(&cookie.value));
}
