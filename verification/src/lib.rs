//! An OAuth2/OIDC compatibility shim: translates GitLab-style OAuth requests
//! into the query, form and JSON shapes that a standard OIDC provider
//! (Authentik) expects, and reshapes the provider's answers for the caller.
//!
//! This crate holds the translation logic itself: building the authorize
//! redirect URL, assembling the token-exchange form, and mapping upstream
//! outcomes (a reply, or an unreachable upstream) to the response the caller
//! receives. The HTTP plumbing around it lives outside the crate and hands
//! these functions plain values.

use vstd::prelude::*;

pub mod authorize;
pub mod reply;
pub mod token;
pub mod userinfo;

verus! {

/// Process-wide configuration, read once at startup and immutable afterwards:
/// the upstream base URL and the proxy's own registered OAuth credentials,
/// which override caller-supplied credentials in outbound requests.
pub struct Config {
    pub authentik_url: String,
    pub client_id: String,
    pub client_secret: String,
    pub redirect_uri: String,
}

} // verus!
