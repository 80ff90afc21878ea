//! The user-profile lookup: the upstream user-info JSON is reshaped into the
//! caller-facing profile, a lossy one-directional projection of five named
//! fields. Each field is taken from the upstream object or rendered as
//! `null` when absent; a body that is not valid JSON yields the
//! invalid-response error instead.

use vstd::prelude::*;
use vstd::string::StringExecFns;
use crate::Config;
use crate::reply::{ProxyReply, ReplyBody, UpstreamResponse, unreachable_body, unreachable_text,
    invalid_response_body, invalid_response_text, BAD_GATEWAY, INTERNAL_SERVER_ERROR};

verus! {

/// Whether a byte sequence is a well-formed JSON document, as serde_json
/// accepts it. Parsing depends on the bytes alone.
pub uninterp spec fn json_parses(body: Seq<u8>) -> bool;

/// The compact serialization of the field `key` of the JSON document `body`:
/// `Some` of the field value's serialization when `body` parses to an object
/// holding `key`, `None` otherwise. The result depends on the bytes and the
/// key alone.
pub uninterp spec fn json_field_str(body: Seq<u8>, key: Seq<char>) -> Option<Seq<char>>;

/// Relies on serde_json::from_slice::<serde_json::Value>: whether it returns
/// `Ok` is decided by the input bytes alone.
#[verifier::external_body]
fn json_is_valid(body: &Vec<u8>) -> (r: bool)
    ensures
        r == json_parses(body@),
{
    serde_json::from_slice::<serde_json::Value>(body.as_slice()).is_ok()
}

/// Relies on serde_json::from_slice::<serde_json::Value>, serde_json::Value::get
/// and serde_json's Display for Value: parsing is deterministic, `get` returns
/// the named member of an object (and nothing for other values or absent
/// keys), and Display writes the value's compact serialization, all decided
/// by the bytes and the key alone.
#[verifier::external_body]
fn json_field(body: &Vec<u8>, key: &str) -> (r: Option<String>)
    ensures
        r.deep_view() == json_field_str(body@, key@),
{
    match serde_json::from_slice::<serde_json::Value>(body.as_slice()) {
        Ok(v) => match v.get(key) {
            Some(f) => Some(f.to_string()),
            None => None,
        },
        Err(_) => None,
    }
}

/// A field's rendering inside the profile object: the field value's
/// serialization when present, the literal `null` otherwise — so an absent
/// upstream field is still emitted, as `null`, never left out.
pub open spec fn field_or_null(field: Option<Seq<char>>) -> Seq<char> {
    match field {
        Some(s) => s,
        None => "null"@,
    }
}

/// The caller-facing profile object rendered from the five field values, in
/// the fixed order `id`, `email`, `name`, `avatar_url`, `family_name`.
pub open spec fn profile_text_of_fields(
    sub: Option<Seq<char>>,
    email: Option<Seq<char>>,
    name: Option<Seq<char>>,
    avatar_url: Option<Seq<char>>,
    family_name: Option<Seq<char>>,
) -> Seq<char> {
    "{\"id\":"@ + field_or_null(sub) + ",\"email\":"@ + field_or_null(email) + ",\"name\":"@
        + field_or_null(name) + ",\"avatar_url\":"@ + field_or_null(avatar_url)
        + ",\"family_name\":"@ + field_or_null(family_name) + "}"@
}

/// The profile projected from an upstream user-info document: `sub` becomes
/// `id`, the other four fields keep their names, and each is `null` when the
/// document does not hold it.
pub open spec fn profile_text(body: Seq<u8>) -> Seq<char> {
    profile_text_of_fields(
        json_field_str(body, "sub"@),
        json_field_str(body, "email"@),
        json_field_str(body, "name"@),
        json_field_str(body, "avatar_url"@),
        json_field_str(body, "family_name"@),
    )
}

/// Renders the profile object from the five extracted field values, each
/// `None` standing for an absent upstream field and rendered as `null`.
pub fn render_profile(
    sub: Option<String>,
    email: Option<String>,
    name: Option<String>,
    avatar_url: Option<String>,
    family_name: Option<String>,
) -> (r: String)
    ensures
        r@ == profile_text_of_fields(
            sub.deep_view(),
            email.deep_view(),
            name.deep_view(),
            avatar_url.deep_view(),
            family_name.deep_view(),
        ),
{
    let mut out = "{\"id\":".to_owned();
    push_field(&mut out, sub);
    out.append(",\"email\":");
    push_field(&mut out, email);
    out.append(",\"name\":");
    push_field(&mut out, name);
    out.append(",\"avatar_url\":");
    push_field(&mut out, avatar_url);
    out.append(",\"family_name\":");
    push_field(&mut out, family_name);
    out.append("}");
    proof {
        assert(out@ =~= profile_text_of_fields(
            sub.deep_view(),
            email.deep_view(),
            name.deep_view(),
            avatar_url.deep_view(),
            family_name.deep_view(),
        ));
    }
    out
}

/// Appends one field value, or `null` when the field is absent.
fn push_field(out: &mut String, field: Option<String>)
    ensures
        final(out)@ == old(out)@ + field_or_null(field.deep_view()),
{
    match field {
        Some(s) => out.append(s.as_str()),
        None => out.append("null"),
    }
}

/// Reshapes an upstream user-info body into the caller-facing profile text:
/// `Some` of the projected object exactly when the body is well-formed JSON,
/// `None` otherwise.
pub fn reshape_user_profile(body: &Vec<u8>) -> (r: Option<String>)
    ensures
        r is Some <==> json_parses(body@),
        r matches Some(s) ==> s@ == profile_text(body@),
{
    if json_is_valid(body) {
        let sub = json_field(body, "sub");
        let email = json_field(body, "email");
        let name = json_field(body, "name");
        let avatar_url = json_field(body, "avatar_url");
        let family_name = json_field(body, "family_name");
        Some(render_profile(sub, email, name, avatar_url, family_name))
    } else {
        None
    }
}

/// The upstream user-info endpoint.
pub open spec fn userinfo_endpoint_text(cfg: Config) -> Seq<char> {
    cfg.authentik_url@ + "/userinfo"@
}

/// Builds the URL of the upstream user-info endpoint. The caller's bearer
/// token is relayed to it untouched: the proxy never validates, decodes or
/// introspects the token.
pub fn userinfo_endpoint(cfg: &Config) -> (url: String)
    ensures
        url@ == userinfo_endpoint_text(*cfg),
{
    let mut url = cfg.authentik_url.clone();
    url.append("/userinfo");
    url
}

/// The status and body text answered for an upstream reply: the profile
/// projection under the upstream's own status when the body is well-formed
/// JSON, the invalid-response error with status 500 otherwise — whatever
/// status the upstream had sent in that case.
pub open spec fn profile_outcome(status: u16, body: Seq<u8>) -> (u16, Seq<char>) {
    if json_parses(body) {
        (status, profile_text(body))
    } else {
        (INTERNAL_SERVER_ERROR, invalid_response_text())
    }
}

/// Maps the outcome of the outbound user-info call to the caller's response:
/// an unreachable upstream becomes 502 with the uniform error body; an
/// unparseable upstream body becomes 500 with the invalid-response body; a
/// well-formed body is reshaped and sent under the upstream's status.
pub fn user_profile_reply(upstream: Option<UpstreamResponse>) -> (r: ProxyReply)
    ensures
        upstream matches Some(u) ==> (r.body matches ReplyBody::Text(s) && (r.status, s@)
            == profile_outcome(u.status, u.body@)),
        upstream is None ==> r.status == BAD_GATEWAY && (r.body matches ReplyBody::Text(s) && s@
            == unreachable_text()),
{
    match upstream {
        Some(u) => {
            match reshape_user_profile(&u.body) {
                Some(profile) => ProxyReply { status: u.status, body: ReplyBody::Text(profile) },
                None => ProxyReply {
                    status: INTERNAL_SERVER_ERROR,
                    body: ReplyBody::Text(invalid_response_body()),
                },
            }
        },
        None => ProxyReply { status: BAD_GATEWAY, body: ReplyBody::Text(unreachable_body()) },
    }
}

/// Repeating the same user-profile request against the same upstream state
/// yields the same reshaped output: the response is a pure function of the
/// upstream reply's status and body.
pub proof fn lemma_profile_outcome_deterministic(s1: u16, b1: Seq<u8>, s2: u16, b2: Seq<u8>)
    requires
        s1 == s2,
        b1 == b2,
    ensures
        profile_outcome(s1, b1) == profile_outcome(s2, b2),
{
}

} // verus!
