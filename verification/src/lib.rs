//! Anonymous visitor identities for HTTP services.
//!
//! Every inbound client is assigned a stable, anonymous visitor identifier,
//! carried in a tamper-evident, confidential cookie; no server-side session
//! store is involved. The crate is split along the three pieces of the
//! design: the identity generator ([`identity`]), the cookie codec and its
//! process-wide secret key ([`codec`]), and the per-request interceptor
//! ([`interceptor`]).

pub mod codec;
pub mod identity;
pub mod interceptor;
