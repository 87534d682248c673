//! Visitor identities: random alphanumeric tokens identifying a returning
//! browser without authentication.

use vstd::prelude::*;
use vstd::string::StrSliceExecFns;
use rand::RngExt;

verus! {

/// Number of characters in a freshly generated visitor identity.
pub const ID_LENGTH: usize = 64;

/// A character admitted in a visitor identity: an ASCII letter or digit.
pub open spec fn is_id_char(c: char) -> bool {
    ||| 48 <= c as u32 <= 57
    ||| 65 <= c as u32 <= 90
    ||| 97 <= c as u32 <= 122
}

/// A sequence of characters drawn entirely from the identity alphabet.
pub open spec fn is_id_seq(s: Seq<char>) -> bool {
    forall|i: int| 0 <= i < s.len() ==> is_id_char(#[trigger] s[i])
}

/// An immutable visitor identity token. A freshly generated identity is
/// `ID_LENGTH` characters long; one recovered from a cookie may have any
/// length, but always consists of identity characters alone.
#[derive(Debug, Clone)]
pub struct VisitorId {
    pub text: String,
}

impl View for VisitorId {
    type V = Seq<char>;

    open spec fn view(&self) -> Seq<char> {
        self.text@
    }
}

impl VisitorId {
    /// The identity is well formed when every character belongs to the
    /// identity alphabet.
    pub open spec fn wf(&self) -> bool {
        is_id_seq(self@)
    }

    /// Mint a fresh identity of `len` characters drawn from a
    /// cryptographically secure random source.
    pub fn generate(len: usize) -> (id: Self)
        ensures
            id@.len() == len as nat,
            id.wf(),
    {
        VisitorId { text: random_id_text(len) }
    }

    /// The identity's text, shared read-only with downstream logic.
    pub fn as_str(&self) -> (s: &str)
        ensures
            s@ == self@,
    {
        self.text.as_str()
    }
}

impl From<String> for VisitorId {
    fn from(text: String) -> (id: Self) {
        VisitorId { text }
    }
}

impl vstd::std_specs::convert::FromSpecImpl<String> for VisitorId {
    open spec fn obeys_from_spec() -> bool {
        true
    }

    open spec fn from_spec(text: String) -> Self {
        VisitorId { text }
    }
}

/// Decide whether every character of `s` belongs to the identity alphabet.
pub fn all_id_chars(s: &str) -> (b: bool)
    ensures
        b == is_id_seq(s@),
{
    let n = s.unicode_len();
    let mut i: usize = 0;
    while i < n
        invariant
            n as nat == s@.len(),
            i <= n,
            forall|j: int| 0 <= j < i ==> is_id_char(#[trigger] s@[j]),
        decreases n - i,
    {
        let c = s.get_char(i);
        let u = c as u32;
        if !((48 <= u && u <= 57) || (65 <= u && u <= 90) || (97 <= u && u <= 122)) {
            assert(!is_id_char(s@[i as int]));
            return false;
        }
        i += 1;
    }
    true
}

/// Relies on rand's `Alphanumeric` distribution, sampled from the
/// thread-local CSPRNG: every drawn byte is an ASCII letter or digit, so
/// the collected text has `len` characters, all from the identity alphabet.
#[verifier::external_body]
fn random_id_text(len: usize) -> (r: String)
    ensures
        r@.len() == len as nat,
        is_id_seq(r@),
{
    rand::rng()
        .sample_iter(rand::distr::Alphanumeric)
        .take(len)
        .map(char::from)
        .collect()
}

} // verus!
