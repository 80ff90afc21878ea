//! The shapes a request's outcome takes on each side of the proxy: what came
//! back from the upstream provider (or that it was unreachable), and the
//! status and body the caller receives.

use vstd::prelude::*;

verus! {

/// A reply received from the upstream provider: its HTTP status code and its
/// body, read in full before any decision is made.
pub struct UpstreamResponse {
    pub status: u16,
    pub body: Vec<u8>,
}

/// The body of a response the proxy sends: either bytes relayed verbatim from
/// the upstream provider, or text the proxy built itself.
pub enum ReplyBody {
    Raw(Vec<u8>),
    Text(String),
}

/// A response the proxy sends to its caller.
pub struct ProxyReply {
    pub status: u16,
    pub body: ReplyBody,
}

/// The status sent when the upstream provider cannot be reached.
pub const BAD_GATEWAY: u16 = 502;

/// The status sent when the upstream user-info body cannot be decoded as JSON.
pub const INTERNAL_SERVER_ERROR: u16 = 500;

/// The body reported whenever a transport-level failure keeps the proxy from
/// reaching the upstream provider.
pub open spec fn unreachable_text() -> Seq<char> {
    "{\"error\":\"authentik_unreachable\"}"@
}

/// The body reported when the upstream user-info body is not valid JSON.
pub open spec fn invalid_response_text() -> Seq<char> {
    "{\"error\":\"invalid_response\"}"@
}

/// Builds the upstream-unreachable error body.
pub fn unreachable_body() -> (r: String)
    ensures
        r@ == unreachable_text(),
{
    "{\"error\":\"authentik_unreachable\"}".to_owned()
}

/// Builds the invalid-response error body.
pub fn invalid_response_body() -> (r: String)
    ensures
        r@ == invalid_response_text(),
{
    "{\"error\":\"invalid_response\"}".to_owned()
}

} // verus!
