//! The per-request visitor-identity interceptor.
//!
//! For each request the interceptor recovers or mints a visitor identity
//! (`intercept`: the lookup and decide steps), hands it to downstream
//! logic through a request-scoped context, and — only when the identity is
//! fresh — attaches a new identity cookie to the outgoing response
//! (`finalize`). A cookie that is absent, fails authentication, or decodes
//! to ill-formed content is treated uniformly as "no prior identity".

use vstd::prelude::*;
use vstd::string::StringExecFns;
use crate::codec::{
    MAX_SEALED_LEN, SecretKey, cookie_name, decode, decode_spec, decrypt_of, encode,
    is_base64_seq, spec_cookie_name,
};
use crate::identity::{ID_LENGTH, VisitorId};

verus! {

/// The attribute tail of the identity cookie's `Set-Cookie` header: every
/// fixed attribute except the far-future lifetime, which the server
/// bootstrap renders from the cookie's `permanent` field when attaching
/// the cookie.
pub open spec fn spec_attribute_tail() -> Seq<char> {
    "; HttpOnly; Secure; SameSite=Strict; Path=/"@
}

/// The identity recovered from the incoming request, if any: the decoded
/// content of the identity cookie when one was sent and it decodes to a
/// well-formed identity; nothing otherwise. `None` is exactly the case in
/// which a fresh identity is minted and a new cookie is owed.
pub open spec fn reused_identity(key: Seq<u8>, cookie: Option<Seq<char>>) -> Option<Seq<char>> {
    match cookie {
        Some(v) => decode_spec(key, v),
        None => None,
    }
}

/// The incoming cookie value as the specification sees it.
pub open spec fn spec_cookie_view(cookie: Option<&str>) -> Option<Seq<char>> {
    match cookie {
        Some(v) => Some(v@),
        None => None,
    }
}

/// Law: a cookie whose decrypted content strays outside the identity
/// alphabet is treated exactly as an absent cookie — the decision to mint
/// a fresh identity and set a new cookie is the same in both cases.
pub proof fn lemma_invalid_content_like_absent(key: Seq<u8>, v: Seq<char>)
    requires
        decode_spec(key, v) is None,
    ensures
        reused_identity(key, Some(v)) == reused_identity(key, Option::<Seq<char>>::None),
{
}

/// Law: a cookie value that fails authenticated decryption — a corrupted
/// or forged ciphertext — is treated exactly as an absent cookie; no error
/// reaches the request.
pub proof fn lemma_unauthenticated_like_absent(key: Seq<u8>, v: Seq<char>)
    requires
        decrypt_of(key, spec_cookie_name(), v) is None,
    ensures
        reused_identity(key, Some(v)) == reused_identity(key, Option::<Seq<char>>::None),
{
}

/// Per-request state: the identity downstream logic reads, fixed before
/// the request is forwarded and immutable afterward, and the mark that a
/// fresh cookie is owed to the response.
pub struct RequestContext {
    /// The visitor identity for this request, shared read-only with
    /// downstream logic.
    pub identity: VisitorId,
    /// Whether the identity is fresh, so the response must carry a new
    /// identity cookie.
    pub must_set_cookie: bool,
}

/// The identity cookie as attached to the outgoing response: the
/// authenticated ciphertext together with the fixed attribute set.
pub struct IdentityCookie {
    /// The cookie's name on the wire.
    pub name: String,
    /// The authenticated ciphertext encoding the identity.
    pub value: String,
    /// The cookie is unreadable from scripts.
    pub http_only: bool,
    /// The cookie travels over secure transport only.
    pub secure: bool,
    /// The cookie applies to the whole site.
    pub path: String,
    /// The browser withholds the cookie on cross-site navigations.
    pub same_site_strict: bool,
    /// The cookie's lifetime is effectively permanent.
    pub permanent: bool,
}

impl IdentityCookie {
    /// The fixed attribute set of every identity cookie.
    pub open spec fn wf(&self) -> bool {
        &&& self.name@ == spec_cookie_name()
        &&& self.http_only
        &&& self.secure
        &&& self.path@ == "/"@
        &&& self.same_site_strict
        &&& self.permanent
    }

    /// Build the identity cookie around an encoded value.
    pub fn new(value: String) -> (c: Self)
        ensures
            c.wf(),
            c.value == value,
    {
        IdentityCookie {
            name: String::from_str(cookie_name()),
            value,
            http_only: true,
            secure: true,
            path: String::from_str("/"),
            same_site_strict: true,
            permanent: true,
        }
    }

    /// The name, encoded value and attribute tail of this cookie's
    /// `Set-Cookie` response header. The far-future lifetime is not
    /// rendered here: it travels in the `permanent` field, for whatever
    /// attaches the cookie to a response to render.
    pub fn header_value(&self) -> (h: String)
        ensures
            h@ == self.name@ + "="@ + self.value@ + spec_attribute_tail(),
    {
        let mut h = String::from_str(self.name.as_str());
        h.append("=");
        h.append(self.value.as_str());
        h.append("; HttpOnly; Secure; SameSite=Strict; Path=/");
        proof {
            assert(h@ =~= self.name@ + "="@ + self.value@ + spec_attribute_tail());
        }
        h
    }
}

/// The visitor-identity interceptor: the one piece of state it carries is
/// the process-wide secret key, shared read-only by all requests.
pub struct VisitorMiddleware {
    /// The process-wide key the cookie codec runs under.
    pub key: SecretKey,
}

impl VisitorMiddleware {
    /// The middleware is usable once its key holds enough material.
    pub open spec fn wf(&self) -> bool {
        self.key.wf()
    }

    /// Set up the interceptor around the process-wide secret key.
    pub fn new(key: SecretKey) -> (m: Self)
        ensures
            m.key == key,
    {
        VisitorMiddleware { key }
    }

    /// Lookup and decide: given the value of the identity cookie from the
    /// incoming request (or nothing), adopt the identity it validly
    /// encodes, or mint a fresh one and mark that a cookie must be set.
    /// The returned context is fixed before the request is forwarded.
    pub fn intercept(&self, cookie: Option<&str>) -> (ctx: RequestContext)
        requires
            self.wf(),
        ensures
            ctx.identity.wf(),
            match reused_identity(self.key@, spec_cookie_view(cookie)) {
                Some(s) => ctx.identity@ == s && !ctx.must_set_cookie,
                None => ctx.must_set_cookie && ctx.identity@.len() == ID_LENGTH as nat,
            },
    {
        let reused: Option<VisitorId> = match cookie {
            Some(v) => decode(v, &self.key),
            None => None,
        };
        match reused {
            Some(id) => RequestContext { identity: id, must_set_cookie: false },
            None => RequestContext {
                identity: VisitorId::generate(ID_LENGTH),
                must_set_cookie: true,
            },
        }
    }

    /// Finalize: after the downstream handler has produced a response,
    /// attach a new identity cookie exactly when the identity is fresh.
    /// The cookie carries the fixed attribute set, its value is base64
    /// text safe for a header, and it decodes — under the same key — back
    /// to the identity downstream logic saw. An identity long enough to
    /// exceed the AEAD's cap cannot be sealed; a context from `intercept`
    /// never owes a cookie for one (a fresh identity has `ID_LENGTH`
    /// characters).
    pub fn finalize(&self, ctx: &RequestContext) -> (c: Option<IdentityCookie>)
        requires
            self.wf(),
            ctx.identity.wf(),
            ctx.must_set_cookie ==> ctx.identity@.len() < MAX_SEALED_LEN as nat,
        ensures
            c is Some <==> ctx.must_set_cookie,
            c matches Some(ck) ==> {
                &&& ck.wf()
                &&& decode_spec(self.key@, ck.value@) == Some(ctx.identity@)
                &&& is_base64_seq(ck.value@)
            },
    {
        if ctx.must_set_cookie {
            let value = encode(&ctx.identity, &self.key);
            Some(IdentityCookie::new(value))
        } else {
            None
        }
    }
}

} // verus!
