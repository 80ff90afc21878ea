//! The token exchange: assembling the form forwarded to the upstream token
//! endpoint, and mapping the upstream outcome to the caller's response. The
//! upstream reply is an opaque pass-through: its status and body bytes are
//! relayed unchanged, never reinterpreted.

use vstd::prelude::*;
use vstd::string::StringExecFns;
use crate::Config;
use crate::reply::{ProxyReply, ReplyBody, UpstreamResponse, unreachable_body, unreachable_text,
    BAD_GATEWAY};

verus! {

/// An inbound token-exchange request, bound from a form-encoded body.
/// All five fields are mandatory. The caller's credentials are replaced by
/// the proxy's registered ones in the outbound form.
pub struct TokenExchangeRequest {
    pub client_id: String,
    pub client_secret: String,
    pub code: String,
    pub redirect_uri: String,
    pub grant_type: String,
}

/// The form forwarded to the upstream token endpoint: `grant_type`, `code`
/// and `redirect_uri` from the caller, then the proxy's own registered
/// credentials, in this fixed order.
pub open spec fn token_form_model(cfg: Config, req: TokenExchangeRequest) -> Seq<
    (Seq<char>, Seq<char>),
> {
    seq![
        ("grant_type"@, req.grant_type@),
        ("code"@, req.code@),
        ("redirect_uri"@, req.redirect_uri@),
        ("client_id"@, cfg.client_id@),
        ("client_secret"@, cfg.client_secret@),
    ]
}

/// The upstream token endpoint.
pub open spec fn token_endpoint_text(cfg: Config) -> Seq<char> {
    cfg.authentik_url@ + "/token"@
}

/// Builds the URL of the upstream token endpoint.
pub fn token_endpoint(cfg: &Config) -> (url: String)
    ensures
        url@ == token_endpoint_text(*cfg),
{
    let mut url = cfg.authentik_url.clone();
    url.append("/token");
    url
}

/// Assembles the form body for the outbound token request. The caller's
/// `client_id` and `client_secret` are dropped in favour of the proxy's
/// registered credentials; the other three fields are forwarded as received.
pub fn build_token_form(cfg: &Config, req: &TokenExchangeRequest) -> (form: Vec<(String, String)>)
    ensures
        form.deep_view() == token_form_model(*cfg, *req),
{
    let mut form: Vec<(String, String)> = Vec::new();
    form.push(("grant_type".to_owned(), req.grant_type.clone()));
    form.push(("code".to_owned(), req.code.clone()));
    form.push(("redirect_uri".to_owned(), req.redirect_uri.clone()));
    form.push(("client_id".to_owned(), cfg.client_id.clone()));
    form.push(("client_secret".to_owned(), cfg.client_secret.clone()));
    proof {
        assert(form.deep_view() =~= token_form_model(*cfg, *req));
    }
    form
}

/// Maps the outcome of the outbound token call to the caller's response.
/// A reply from the upstream is relayed unchanged, whatever its status; an
/// unreachable upstream becomes 502 with the uniform error body. No retry is
/// made: every failure is terminal for its request.
pub fn token_reply(upstream: Option<UpstreamResponse>) -> (r: ProxyReply)
    ensures
        upstream matches Some(u) ==> r.status == u.status && (r.body matches ReplyBody::Raw(b)
            && b@ == u.body@),
        upstream is None ==> r.status == BAD_GATEWAY && (r.body matches ReplyBody::Text(s) && s@
            == unreachable_text()),
{
    match upstream {
        Some(u) => ProxyReply { status: u.status, body: ReplyBody::Raw(u.body) },
        None => ProxyReply { status: BAD_GATEWAY, body: ReplyBody::Text(unreachable_body()) },
    }
}

} // verus!
