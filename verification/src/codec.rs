//! The cookie codec and its process-wide secret key.
//!
//! An identity travels in a cookie as an authenticated ciphertext: the
//! codec encrypts it under the process key on the way out and, on the way
//! in, decrypts, verifies, and validates it against the identity alphabet.
//! Any failure on the way in yields `None` — a deliberate
//! fail-open-to-regeneration policy: a bad cookie is indistinguishable from
//! an absent one.

use vstd::prelude::*;
use crate::identity::{VisitorId, all_id_chars, is_id_char, is_id_seq};

verus! {

/// Fewest bytes of decoded key material accepted as a secret key; shorter
/// material cannot key the 256-bit AEAD construction.
pub const MIN_KEY_LEN: usize = 32;

/// Longest text, in characters, that the codec seals or binds as
/// associated data. UTF-8 spends at most four bytes per character, and the
/// AEAD construction rejects plaintexts and associated data of more than
/// 2^36 bytes, so texts under this cap stay strictly below that limit.
pub const MAX_SEALED_LEN: u64 = 0x4_0000_0000;

/// The process-wide symmetric key. Loaded once at startup from a
/// base64-encoded seed; immutable and shared read-only by all requests.
#[derive(Clone)]
pub struct SecretKey {
    bytes: Vec<u8>,
}

impl View for SecretKey {
    type V = Seq<u8>;

    closed spec fn view(&self) -> Seq<u8> {
        self.bytes@
    }
}

/// Why a configured key seed was rejected at startup.
#[derive(Debug, Clone, Copy, PartialEq, Eq)]
pub enum KeyError {
    /// The seed is not valid base64 text.
    MalformedBase64,
    /// The seed decodes to fewer than `MIN_KEY_LEN` bytes.
    TooShort,
}

impl SecretKey {
    /// The key holds enough material for the AEAD construction.
    pub open spec fn wf(&self) -> bool {
        self@.len() >= MIN_KEY_LEN
    }

    /// Load the key from its base64-encoded seed, as supplied by process
    /// configuration. Succeeds exactly on valid base64 that decodes to at
    /// least `MIN_KEY_LEN` bytes; anything else is a fatal startup error
    /// for the caller.
    pub fn from_base64(text: &str) -> (r: Result<SecretKey, KeyError>)
        ensures
            match r {
                Ok(k) => {
                    &&& base64_decode_of(text@) matches Some(b) && k@ == b
                    &&& k.wf()
                },
                Err(KeyError::MalformedBase64) => base64_decode_of(text@) is None,
                Err(KeyError::TooShort) => (base64_decode_of(text@) matches Some(b)
                    && b.len() < MIN_KEY_LEN),
            },
    {
        match base64_decode(text) {
            Some(bytes) => {
                if bytes.len() >= MIN_KEY_LEN {
                    Ok(SecretKey { bytes })
                } else {
                    Err(KeyError::TooShort)
                }
            },
            None => Err(KeyError::MalformedBase64),
        }
    }
}

/// The name of the identity cookie on the wire. The codec seals values
/// under this name: it is the associated data of the AEAD construction,
/// so a ciphertext authenticates only as the identity cookie's value.
pub open spec fn spec_cookie_name() -> Seq<char> {
    "__Secure-USID"@
}

/// The name of the identity cookie on the wire.
pub fn cookie_name() -> (s: &'static str)
    ensures
        s@ == spec_cookie_name(),
{
    "__Secure-USID"
}

/// A character of standard base64 text with padding: a letter, a digit,
/// `+`, `/` or `=`.
pub open spec fn is_base64_char(c: char) -> bool {
    is_id_char(c) || c == '+' || c == '/' || c == '='
}

/// A sequence of characters drawn entirely from the base64 alphabet with
/// padding — in particular, safe to carry as a cookie value.
pub open spec fn is_base64_seq(s: Seq<char>) -> bool {
    forall|i: int| 0 <= i < s.len() ==> is_base64_char(#[trigger] s[i])
}

/// What the standard-alphabet base64 decoder returns for a given text:
/// the decoded bytes, or nothing when the text is not valid base64.
pub uninterp spec fn base64_decode_of(text: Seq<char>) -> Option<Seq<u8>>;

/// Relies on `base64::Engine::decode` with the standard engine: decoding
/// is a function of the input text alone, and fails exactly on text that
/// is not valid standard-alphabet base64.
#[verifier::external_body]
fn base64_decode(text: &str) -> (r: Option<Vec<u8>>)
    ensures
        r matches Some(b) ==> base64_decode_of(text@) == Some(b@),
        r is None ==> base64_decode_of(text@) is None,
{
    base64::Engine::decode(&base64::engine::general_purpose::STANDARD, text.as_bytes()).ok()
}

/// What the private cookie jar's authenticated decryption (AES-256-GCM,
/// keys derived from the secret key, the cookie's name as associated
/// data) returns for a stored value: the plaintext, or nothing when the
/// value fails to authenticate or to decrypt. Deterministic in the key,
/// the name and the value.
pub uninterp spec fn decrypt_of(key: Seq<u8>, name: Seq<char>, value: Seq<char>) -> Option<
    Seq<char>,
>;

/// What `decode` yields: the decrypted plaintext, provided it survives
/// authentication under the identity cookie's name and consists of
/// identity characters alone.
pub open spec fn decode_spec(key: Seq<u8>, value: Seq<char>) -> Option<Seq<char>> {
    match decrypt_of(key, spec_cookie_name(), value) {
        Some(s) => if is_id_seq(s) {
            Some(s)
        } else {
            None
        },
        None => None,
    }
}

/// Authenticated-encrypt an identity under `key`, producing a value safe
/// to place in a cookie: the result is base64 text, and decrypting it with
/// the same key recovers the identity, so a well-formed identity survives
/// a full round trip. Identities longer than `MAX_SEALED_LEN` exceed what
/// the AEAD construction accepts and are excluded.
pub fn encode(id: &VisitorId, key: &SecretKey) -> (c: String)
    requires
        key.wf(),
        id@.len() < MAX_SEALED_LEN as nat,
    ensures
        decrypt_of(key@, spec_cookie_name(), c@) == Some(id@),
        id.wf() ==> decode_spec(key@, c@) == Some(id@),
        is_base64_seq(c@),
{
    proof {
        reveal_strlit("__Secure-USID");
        assert(spec_cookie_name().len() < MAX_SEALED_LEN as nat);
    }
    encrypt_value(key, cookie_name(), id.as_str())
}

/// Attempt decryption and verification of a cookie value. Yields the
/// recovered identity exactly when the value authenticates, decrypts, and
/// the plaintext is drawn from the identity alphabet alone; any failure
/// yields `None`, never an error.
pub fn decode(value: &str, key: &SecretKey) -> (r: Option<VisitorId>)
    requires
        key.wf(),
    ensures
        match r {
            Some(id) => id.wf() && decode_spec(key@, value@) == Some(id@),
            None => decode_spec(key@, value@) is None,
        },
{
    match decrypt_value(key, cookie_name(), value) {
        Some(plain) => {
            if all_id_chars(plain.as_str()) {
                Some(VisitorId::from(plain))
            } else {
                None
            }
        },
        None => None,
    }
}

/// Round-trip law: a stored value whose authenticated decryption yields an
/// identity drawn from the identity alphabet decodes to exactly that
/// identity. Together with the contract of `encode` — whose output
/// decrypts to its input — this gives `decode(encode(id, key), key) == id`
/// for every well-formed identity and every valid key.
pub proof fn lemma_round_trip(key: Seq<u8>, id: Seq<char>, c: Seq<char>)
    requires
        is_id_seq(id),
        decrypt_of(key, spec_cookie_name(), c) == Some(id),
    ensures
        decode_spec(key, c) == Some(id),
{
}

/// Relies on `cookie::PrivateJar::add` and `cookie::CookieJar::get`
/// (AES-256-GCM under keys derived from the secret key, the cookie's name
/// as associated data): the value is stored as standard base64 text with
/// padding, and the crate guarantees that authenticated decryption with
/// the same key always recovers a value it encrypted. The AEAD rejects
/// plaintexts and associated data of more than 2^36 bytes — the jar would
/// panic there — so `requires` keeps both strictly below that cap.
#[verifier::external_body]
fn encrypt_value(key: &SecretKey, name: &str, plain: &str) -> (r: String)
    requires
        key.wf(),
        name@.len() < MAX_SEALED_LEN as nat,
        plain@.len() < MAX_SEALED_LEN as nat,
    ensures
        decrypt_of(key@, name@, r@) == Some(plain@),
        is_base64_seq(r@),
{
    let k = cookie::Key::derive_from(&key.bytes);
    let mut jar = cookie::CookieJar::new();
    jar.private_mut(&k).add(cookie::Cookie::new(name.to_string(), plain.to_string()));
    jar.get(name).expect("the jar holds the cookie that was just added").value().to_string()
}

/// Relies on `cookie::PrivateJar::decrypt` (AES-256-GCM under keys derived
/// from the secret key, the cookie's name as associated data):
/// authenticated decryption of a stored value, deterministic in the key,
/// the name and the value; it fails on any value the same key did not
/// produce under the same name.
#[verifier::external_body]
fn decrypt_value(key: &SecretKey, name: &str, value: &str) -> (r: Option<String>)
    requires
        key.wf(),
    ensures
        r matches Some(s) ==> decrypt_of(key@, name@, value@) == Some(s@),
        r is None ==> decrypt_of(key@, name@, value@) is None,
{
    let k = cookie::Key::derive_from(&key.bytes);
    let jar = cookie::CookieJar::new();
    jar.private(&k)
        .decrypt(cookie::Cookie::new(name.to_string(), value.to_string()))
        .map(|c| c.value().to_string())
}

} // verus!
