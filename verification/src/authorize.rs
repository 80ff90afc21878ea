//! The authorize redirect: a pure translation of an inbound authorization
//! request into the upstream provider's authorize URL. No network call is
//! involved; the caller is redirected to the URL built here.

use vstd::prelude::*;
use vstd::string::StringExecFns;
use crate::Config;

verus! {

/// An inbound authorization request, bound from the query string.
/// `client_id`, `redirect_uri` and `response_type` are mandatory;
/// `state` and `scope` are optional. The caller's `client_id` must be
/// present but its content is ignored: the proxy's registered client
/// identifier replaces it in the redirect target.
pub struct AuthorizationRequest {
    pub client_id: String,
    pub redirect_uri: String,
    pub response_type: String,
    pub state: Option<String>,
    pub scope: Option<String>,
}

/// The three mandatory query parameters, in their fixed order, with the
/// proxy's registered client identifier in place of the caller's.
pub open spec fn mandatory_query(cfg: Config, req: AuthorizationRequest) -> Seq<char> {
    "client_id="@ + cfg.client_id@ + "&redirect_uri="@ + req.redirect_uri@ + "&response_type="@
        + req.response_type@
}

/// The `state` segment: appended exactly once when supplied, absent otherwise.
pub open spec fn state_param(state: Option<String>) -> Seq<char> {
    match state {
        Some(s) => "&state="@ + s@,
        None => Seq::<char>::empty(),
    }
}

/// The `scope` segment: appended exactly once when supplied, absent otherwise.
pub open spec fn scope_param(scope: Option<String>) -> Seq<char> {
    match scope {
        Some(s) => "&scope="@ + s@,
        None => Seq::<char>::empty(),
    }
}

/// The full redirect target: the upstream base, the authorize path, the
/// mandatory parameters, then `state` and `scope` exactly when supplied,
/// in that order.
pub open spec fn authorize_url_text(cfg: Config, req: AuthorizationRequest) -> Seq<char> {
    cfg.authentik_url@ + "/authorize?"@ + mandatory_query(cfg, req) + state_param(req.state)
        + scope_param(req.scope)
}

/// Builds the redirect target for an authorization request. This is the whole
/// of the authorize operation's logic: the caller is then sent a temporary
/// redirect to the returned URL, and no outbound call is made.
pub fn build_authorize_url(cfg: &Config, req: &AuthorizationRequest) -> (url: String)
    ensures
        url@ == authorize_url_text(*cfg, *req),
{
    let mut url = cfg.authentik_url.clone();
    url.append("/authorize?");
    url.append("client_id=");
    url.append(cfg.client_id.as_str());
    url.append("&redirect_uri=");
    url.append(req.redirect_uri.as_str());
    url.append("&response_type=");
    url.append(req.response_type.as_str());
    proof {
        assert(url@ =~= cfg.authentik_url@ + "/authorize?"@ + mandatory_query(*cfg, *req));
    }
    match &req.state {
        Some(s) => {
            url.append("&state=");
            url.append(s.as_str());
        },
        None => {},
    }
    match &req.scope {
        Some(s) => {
            url.append("&scope=");
            url.append(s.as_str());
        },
        None => {},
    }
    proof {
        assert(url@ =~= authorize_url_text(*cfg, *req));
    }
    url
}

/// The redirect target's query string holds exactly the mandatory parameters
/// followed by the optional ones: nothing else is ever appended, and when both
/// optional parameters are omitted the URL is the mandatory part alone.
pub proof fn lemma_authorize_url_exact(cfg: Config, req: AuthorizationRequest)
    ensures
        authorize_url_text(cfg, req) == cfg.authentik_url@ + "/authorize?"@ + mandatory_query(
            cfg,
            req,
        ) + state_param(req.state) + scope_param(req.scope),
        req.state is None && req.scope is None ==> authorize_url_text(cfg, req)
            == cfg.authentik_url@ + "/authorize?"@ + mandatory_query(cfg, req),
{
    if req.state is None && req.scope is None {
        assert(authorize_url_text(cfg, req) =~= cfg.authentik_url@ + "/authorize?"@
            + mandatory_query(cfg, req));
    }
}

/// When `state` is omitted the URL holds no `state` segment; when supplied it
/// is appended exactly once, and before the `scope` segment, matching the
/// construction order.
pub proof fn lemma_authorize_url_state(cfg: Config, req: AuthorizationRequest)
    ensures
        req.state is None ==> authorize_url_text(cfg, req) == cfg.authentik_url@ + "/authorize?"@
            + mandatory_query(cfg, req) + scope_param(req.scope),
        req.state matches Some(s) ==> authorize_url_text(cfg, req) == cfg.authentik_url@
            + "/authorize?"@ + mandatory_query(cfg, req) + ("&state="@ + s@) + scope_param(
            req.scope,
        ),
{
    if req.state is None {
        assert(authorize_url_text(cfg, req) =~= cfg.authentik_url@ + "/authorize?"@
            + mandatory_query(cfg, req) + scope_param(req.scope));
    }
}

} // verus!
