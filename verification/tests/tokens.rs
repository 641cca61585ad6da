use indeed_mcp::http::{Body, HttpRequest, Method, Status};
use indeed_mcp::tokens::{
    build_token_body, exchange_request, refresh_request, token_reply, token_result, AuthError,
    AuthState, Authorization, Endpoint, Grant, TokenReply, TokenResponse,
};

fn form_of(r: HttpRequest) -> Vec<(String, String)> {
    assert_eq!(r.method, Method::Post);
    assert_eq!(r.url, "https://apis.indeed.com/oauth/v2/tokens");
    assert!(r.headers.is_empty());
    assert_eq!(r.timeout_secs, None);
    match r.body {
        Body::Form(pairs) => pairs,
        _ => panic!("no form"),
    }
}

fn pairs(list: &[(&str, &str)]) -> Vec<(String, String)> {
    list.iter().map(|(k, v)| (k.to_string(), v.to_string())).collect()
}

fn answer() -> TokenResponse {
    TokenResponse {
        access_token: "new".to_string(),
        refresh_token: None,
        expires_in: Some(3600),
        scope: None,
        error: None,
        error_description: None,
    }
}

fn old_state() -> AuthState {
    AuthState {
        client_id: "cid".to_string(),
        access_token: Some("old".to_string()),
        refresh_token: Some("r1".to_string()),
        expires_at: Some(5),
        scope: Some("s".to_string()),
    }
}

#[test]
fn empty_values_are_left_out() {
    let body = build_token_body(vec![("a", "1"), ("b", ""), ("c", "3")]);
    assert_eq!(body, pairs(&[("a", "1"), ("c", "3")]));
}

#[test]
fn each_name_stands_once_with_its_last_value() {
    let body = build_token_body(vec![("a", "1"), ("b", "2"), ("a", "3"), ("b", "")]);
    assert_eq!(body, pairs(&[("a", "3"), ("b", "2")]));
    assert!(build_token_body(vec![]).is_empty());
}

#[test]
fn a_refresh_request_shows_the_refresh_token() {
    assert_eq!(
        form_of(refresh_request("rt", "cid")),
        pairs(&[("grant_type", "refresh_token"), ("refresh_token", "rt"), ("client_id", "cid")])
    );
}

#[test]
fn an_exchange_request_shows_code_and_verifier() {
    assert_eq!(
        form_of(exchange_request("c", "v", "cid")),
        pairs(&[
            ("grant_type", "authorization_code"),
            ("code", "c"),
            ("redirect_uri", "http://127.0.0.1:19876/callback"),
            ("code_verifier", "v"),
            ("client_id", "cid"),
        ])
    );
    assert_eq!(form_of(exchange_request("", "v", "cid")).len(), 4);
}

#[test]
fn a_refresh_keeps_what_the_answer_leaves_out() {
    let mut s = old_state();
    s.take_tokens(Grant::Refresh, answer(), 1000);
    assert_eq!(s.access_token.as_deref(), Some("new"));
    assert_eq!(s.refresh_token.as_deref(), Some("r1"));
    assert_eq!(s.expires_at, Some(4600));
    assert_eq!(s.scope.as_deref(), Some("s"));
    assert_eq!(s.client_id, "cid");
}

#[test]
fn an_exchange_drops_the_old_refresh_token() {
    let mut s = old_state();
    let mut t = answer();
    t.expires_in = None;
    t.scope = Some("s2".to_string());
    s.take_tokens(Grant::Exchange, t, 1000);
    assert_eq!(s.refresh_token, None);
    assert_eq!(s.expires_at, None);
    assert_eq!(s.scope.as_deref(), Some("s2"));
}

#[test]
fn a_new_refresh_token_replaces_the_old() {
    let mut s = old_state();
    let mut t = answer();
    t.refresh_token = Some("r2".to_string());
    s.take_tokens(Grant::Refresh, t, u64::MAX - 3600);
    assert_eq!(s.refresh_token.as_deref(), Some("r2"));
    assert_eq!(s.expires_at, Some(u64::MAX));
}

#[test]
fn token_replies_come_to_answers_or_errors() {
    let ok = token_result(Grant::Refresh, TokenReply::Answered(answer())).unwrap();
    assert_eq!(ok.access_token, "new");
    let mut denied = answer();
    denied.error = Some("invalid_grant".to_string());
    assert_eq!(
        token_result(Grant::Refresh, TokenReply::Answered(denied)).unwrap_err().message(),
        "Token refresh error: invalid_grant - None"
    );
    let mut denied = answer();
    denied.error = Some("invalid_grant".to_string());
    denied.error_description = Some("used \"twice\"".to_string());
    assert_eq!(
        token_result(Grant::Exchange, TokenReply::Answered(denied)).unwrap_err().message(),
        "Token exchange error: invalid_grant - Some(\"used \\\"twice\\\"\")"
    );
}

#[test]
fn only_success_answers_a_token_request() {
    for code in [200, 201, 299] {
        let status = Status::new(code).unwrap();
        match token_reply(status, String::new(), Some(answer())) {
            TokenReply::Answered(t) => assert_eq!(t.access_token, "new"),
            other => panic!("{:?}", other),
        }
        let status = Status::new(code).unwrap();
        assert!(matches!(token_reply(status, "text".to_string(), None), TokenReply::Malformed));
    }
    for code in [100, 199, 300, 302, 400, 401, 500] {
        let status = Status::new(code).unwrap();
        match token_reply(status, "why".to_string(), Some(answer())) {
            TokenReply::Refused { status, body } => {
                assert_eq!(status.code(), code);
                assert_eq!(body, "why");
            }
            other => panic!("{:?}", other),
        }
    }
}

#[test]
fn failed_token_requests_say_why() {
    let refused = || TokenReply::Refused {
        status: Status::new(400).unwrap(),
        body: "b".to_string(),
    };
    assert_eq!(
        token_result(Grant::Refresh, refused()).unwrap_err().message(),
        "Token refresh failed: HTTP 400 Bad Request - b"
    );
    assert_eq!(
        token_result(Grant::Exchange, refused()).unwrap_err().message(),
        "Token exchange failed: HTTP 400 Bad Request - b"
    );
    assert_eq!(
        token_result(Grant::Refresh, TokenReply::SendFailed).unwrap_err().message(),
        "Failed to send token refresh request"
    );
    assert_eq!(
        token_result(Grant::Exchange, TokenReply::SendFailed).unwrap_err().message(),
        "Failed to send token exchange request"
    );
    assert_eq!(
        token_result(Grant::Refresh, TokenReply::Malformed).unwrap_err().message(),
        "Failed to parse token refresh response"
    );
    assert_eq!(
        token_result(Grant::Exchange, TokenReply::Malformed).unwrap_err().message(),
        "Failed to parse token exchange response"
    );
}

#[test]
fn every_other_error_has_its_words() {
    assert_eq!(AuthError::NoAccessToken.message(), "No access token available");
    assert_eq!(AuthError::NoRefreshToken.message(), "No refresh token available");
    assert_eq!(AuthError::WriteState.message(), "Failed to write auth state");
    assert_eq!(AuthError::CallbackLost.message(), "Failed to receive OAuth callback");
    assert_eq!(AuthError::EncodeState { message: "m".to_string() }.message(), "m");
    assert_eq!(
        AuthError::SendFailed(Endpoint::Registration).message(),
        "Failed to send DCR request"
    );
}

#[test]
fn debug_texts_are_those_of_the_standard_formatting() {
    for s in ["", "plain", "tab\t \\ \"q\" 'a'", "caf\u{e9} \u{200b}\u{1f600}\u{7}"] {
        let e = AuthError::Denied {
            grant: Grant::Refresh,
            error: "e".to_string(),
            description: Some(s.to_string()),
        };
        assert_eq!(e.message(), format!("Token refresh error: e - {:?}", Some(s)));
    }
}

#[test]
fn an_authorization_opens_the_address_of_its_secrets() {
    let a = Authorization::with_secrets(
        "https://example.com/client metadata",
        "dBjftJeZ4CVP-mB92K27uhbUJU1p1r_wW1gFWFOEjXk".to_string(),
        "st-1".to_string(),
    );
    assert_eq!(
        a.url(),
        "https://secure.indeed.com/oauth/v2/authorize?response_type=code\
         &client_id=https%3A%2F%2Fexample.com%2Fclient+metadata\
         &redirect_uri=http%3A%2F%2F127.0.0.1%3A19876%2Fcallback\
         &code_challenge=E9Melhoa2OwvFrEMTJguCHaoeK1t8URWbuGJSstw-cM\
         &code_challenge_method=S256&state=st-1\
         &scope=job_seeker.jobs.search+offline_access"
    );
    assert_eq!(a.client_id(), "https://example.com/client metadata");
    assert_eq!(a.state(), "st-1");
    assert_eq!(a.code_verifier(), "dBjftJeZ4CVP-mB92K27uhbUJU1p1r_wW1gFWFOEjXk");
}

#[test]
fn a_fresh_authorization_names_its_challenge_and_state() {
    let a = Authorization::begin("cid");
    let url = url::Url::parse(a.url()).unwrap();
    let find = |name: &str| {
        url.query_pairs().find(|(k, _)| k == name).map(|(_, v)| v.to_string()).unwrap()
    };
    assert_eq!(find("state"), a.state());
    assert_eq!(
        find("code_challenge"),
        indeed_mcp::pkce::sha256_base64url(a.code_verifier())
    );
    assert_eq!(find("client_id"), "cid");
    assert_ne!(Authorization::begin("cid").state(), a.state());
}

#[test]
fn drafts_have_no_token() {
    let s = AuthState::draft("cid");
    assert_eq!(s.client_id, "cid");
    assert!(s.access_token.is_none() && s.refresh_token.is_none() && s.expires_at.is_none());
    assert_eq!(s.scope.as_deref(), Some("job_seeker.jobs.search offline_access"));
    assert_eq!(s.clone().scope, s.scope);
}
