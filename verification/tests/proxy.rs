use oidc_shim::Config;
use oidc_shim::authorize::{build_authorize_url, AuthorizationRequest};
use oidc_shim::reply::{ProxyReply, ReplyBody, UpstreamResponse};
use oidc_shim::token::{build_token_form, token_endpoint, token_reply, TokenExchangeRequest};
use oidc_shim::userinfo::{
    render_profile, reshape_user_profile, user_profile_reply, userinfo_endpoint,
};

fn config() -> Config {
    Config {
        authentik_url: "https://idp.example".to_string(),
        client_id: "proxy-client".to_string(),
        client_secret: "proxy-secret".to_string(),
        redirect_uri: "https://proxy.example/callback".to_string(),
    }
}

fn authorize_request(state: Option<&str>, scope: Option<&str>) -> AuthorizationRequest {
    AuthorizationRequest {
        client_id: "caller-client".to_string(),
        redirect_uri: "https://app.example/cb".to_string(),
        response_type: "code".to_string(),
        state: state.map(|s| s.to_string()),
        scope: scope.map(|s| s.to_string()),
    }
}

fn text_body(reply: &ProxyReply) -> &str {
    match &reply.body {
        ReplyBody::Text(s) => s.as_str(),
        ReplyBody::Raw(_) => panic!("expected a text body"),
    }
}

#[test]
fn authorize_url_mandatory_only() {
    let url = build_authorize_url(&config(), &authorize_request(None, None));
    assert_eq!(
        url,
        "https://idp.example/authorize?client_id=proxy-client&redirect_uri=https://app.example/cb&response_type=code"
    );
}

#[test]
fn authorize_url_with_state_and_scope() {
    let url = build_authorize_url(&config(), &authorize_request(Some("xyz"), Some("read")));
    assert_eq!(
        url,
        "https://idp.example/authorize?client_id=proxy-client&redirect_uri=https://app.example/cb&response_type=code&state=xyz&scope=read"
    );
}

#[test]
fn authorize_url_state_only() {
    let url = build_authorize_url(&config(), &authorize_request(Some("xyz"), None));
    assert_eq!(
        url,
        "https://idp.example/authorize?client_id=proxy-client&redirect_uri=https://app.example/cb&response_type=code&state=xyz"
    );
}

#[test]
fn authorize_url_scope_only_has_no_state() {
    let url = build_authorize_url(&config(), &authorize_request(None, Some("read")));
    assert!(!url.contains("state="));
    assert_eq!(
        url,
        "https://idp.example/authorize?client_id=proxy-client&redirect_uri=https://app.example/cb&response_type=code&scope=read"
    );
}

#[test]
fn authorize_url_state_appended_before_scope() {
    let url = build_authorize_url(&config(), &authorize_request(Some("s1"), Some("openid")));
    let state_at = url.find("&state=").expect("state missing");
    let scope_at = url.find("&scope=").expect("scope missing");
    assert!(state_at < scope_at);
}

#[test]
fn authorize_url_uses_registered_client_id() {
    let url = build_authorize_url(&config(), &authorize_request(None, None));
    assert!(url.contains("client_id=proxy-client"));
    assert!(!url.contains("caller-client"));
}

#[test]
fn token_endpoint_url() {
    assert_eq!(token_endpoint(&config()), "https://idp.example/token");
}

#[test]
fn userinfo_endpoint_url() {
    assert_eq!(userinfo_endpoint(&config()), "https://idp.example/userinfo");
}

#[test]
fn token_form_fields_and_order() {
    let req = TokenExchangeRequest {
        client_id: "caller-client".to_string(),
        client_secret: "caller-secret".to_string(),
        code: "c0de".to_string(),
        redirect_uri: "https://app.example/cb".to_string(),
        grant_type: "authorization_code".to_string(),
    };
    let form = build_token_form(&config(), &req);
    let expected: Vec<(String, String)> = vec![
        ("grant_type".to_string(), "authorization_code".to_string()),
        ("code".to_string(), "c0de".to_string()),
        ("redirect_uri".to_string(), "https://app.example/cb".to_string()),
        ("client_id".to_string(), "proxy-client".to_string()),
        ("client_secret".to_string(), "proxy-secret".to_string()),
    ];
    assert_eq!(form, expected);
}

#[test]
fn token_success_passes_status_and_body_through() {
    let upstream = UpstreamResponse {
        status: 200,
        body: b"{\"access_token\":\"abc\"}".to_vec(),
    };
    let reply = token_reply(Some(upstream));
    assert_eq!(reply.status, 200);
    match reply.body {
        ReplyBody::Raw(b) => assert_eq!(b, b"{\"access_token\":\"abc\"}".to_vec()),
        ReplyBody::Text(_) => panic!("expected the upstream bytes verbatim"),
    }
}

#[test]
fn token_error_status_passes_through_unchanged() {
    let upstream = UpstreamResponse {
        status: 401,
        body: b"{\"error\":\"invalid_grant\"}".to_vec(),
    };
    let reply = token_reply(Some(upstream));
    assert_eq!(reply.status, 401);
    match reply.body {
        ReplyBody::Raw(b) => assert_eq!(b, b"{\"error\":\"invalid_grant\"}".to_vec()),
        ReplyBody::Text(_) => panic!("expected the upstream bytes verbatim"),
    }
}

#[test]
fn token_unreachable_gives_502() {
    let reply = token_reply(None);
    assert_eq!(reply.status, 502);
    assert_eq!(text_body(&reply), "{\"error\":\"authentik_unreachable\"}");
}

#[test]
fn profile_all_fields_present() {
    let body =
        b"{\"sub\":\"u1\",\"email\":\"a@b.com\",\"name\":\"A\",\"avatar_url\":\"http://x\",\"family_name\":\"B\"}"
            .to_vec();
    let out = reshape_user_profile(&body).expect("valid JSON must reshape");
    assert_eq!(
        out,
        "{\"id\":\"u1\",\"email\":\"a@b.com\",\"name\":\"A\",\"avatar_url\":\"http://x\",\"family_name\":\"B\"}"
    );
}

#[test]
fn profile_missing_family_name_is_null() {
    let body = b"{\"sub\":\"u1\",\"email\":\"a@b.com\",\"name\":\"A\",\"avatar_url\":\"http://x\"}"
        .to_vec();
    let out = reshape_user_profile(&body).expect("valid JSON must reshape");
    assert_eq!(
        out,
        "{\"id\":\"u1\",\"email\":\"a@b.com\",\"name\":\"A\",\"avatar_url\":\"http://x\",\"family_name\":null}"
    );
}

#[test]
fn profile_non_string_values_keep_their_json_form() {
    let body = b"{\"sub\":5,\"email\":{\"x\":1}}".to_vec();
    let out = reshape_user_profile(&body).expect("valid JSON must reshape");
    assert_eq!(
        out,
        "{\"id\":5,\"email\":{\"x\":1},\"name\":null,\"avatar_url\":null,\"family_name\":null}"
    );
}

#[test]
fn profile_non_object_document_has_all_fields_null() {
    let body = b"[1,2]".to_vec();
    let out = reshape_user_profile(&body).expect("valid JSON must reshape");
    assert_eq!(
        out,
        "{\"id\":null,\"email\":null,\"name\":null,\"avatar_url\":null,\"family_name\":null}"
    );
}

#[test]
fn profile_invalid_json_yields_none() {
    assert!(reshape_user_profile(&b"not json".to_vec()).is_none());
    assert!(reshape_user_profile(&Vec::new()).is_none());
}

#[test]
fn profile_reply_passes_upstream_status_through() {
    let upstream = UpstreamResponse {
        status: 201,
        body: b"{\"sub\":\"u1\"}".to_vec(),
    };
    let reply = user_profile_reply(Some(upstream));
    assert_eq!(reply.status, 201);
    assert_eq!(
        text_body(&reply),
        "{\"id\":\"u1\",\"email\":null,\"name\":null,\"avatar_url\":null,\"family_name\":null}"
    );
}

#[test]
fn profile_reply_invalid_body_gives_500_whatever_the_status() {
    let upstream = UpstreamResponse {
        status: 200,
        body: b"<html>".to_vec(),
    };
    let reply = user_profile_reply(Some(upstream));
    assert_eq!(reply.status, 500);
    assert_eq!(text_body(&reply), "{\"error\":\"invalid_response\"}");

    let teapot = UpstreamResponse {
        status: 418,
        body: b"<html>".to_vec(),
    };
    let reply = user_profile_reply(Some(teapot));
    assert_eq!(reply.status, 500);
    assert_eq!(text_body(&reply), "{\"error\":\"invalid_response\"}");
}

#[test]
fn profile_reply_unreachable_gives_502() {
    let reply = user_profile_reply(None);
    assert_eq!(reply.status, 502);
    assert_eq!(text_body(&reply), "{\"error\":\"authentik_unreachable\"}");
}

#[test]
fn profile_reshaping_is_idempotent() {
    let body = b"{\"sub\":\"u1\",\"email\":\"a@b.com\"}".to_vec();
    let first = reshape_user_profile(&body).expect("valid JSON must reshape");
    let second = reshape_user_profile(&body).expect("valid JSON must reshape");
    assert_eq!(first, second);

    let r1 = user_profile_reply(Some(UpstreamResponse { status: 200, body: body.clone() }));
    let r2 = user_profile_reply(Some(UpstreamResponse { status: 200, body }));
    assert_eq!(r1.status, r2.status);
    assert_eq!(text_body(&r1), text_body(&r2));
}

#[test]
fn render_profile_fills_absent_fields_with_null() {
    let out = render_profile(
        Some("\"u1\"".to_string()),
        None,
        Some("7".to_string()),
        None,
        None,
    );
    assert_eq!(
        out,
        "{\"id\":\"u1\",\"email\":null,\"name\":7,\"avatar_url\":null,\"family_name\":null}"
    );
}
