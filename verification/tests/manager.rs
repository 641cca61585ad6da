use indeed_mcp::http::{Body, HttpRequest, Status};
use indeed_mcp::manager::{
    dirs_next, save_to_disk, AuthAction, AuthEvent, AuthPhase, ClientProfile, SaveOutcome,
    TokenManager,
};
use indeed_mcp::pkce::sha256_base64url;
use indeed_mcp::tokens::{AuthState, TokenReply, TokenResponse};

fn manager() -> TokenManager {
    TokenManager::new(
        Some("/cfg".to_string()),
        None,
        ClientProfile {
            client_id: "cid".to_string(),
            ping_url: "https://ping.example/mcp".to_string(),
        },
    )
}

fn state(expires_at: Option<u64>, refresh: Option<&str>) -> AuthState {
    AuthState {
        client_id: "saved-cid".to_string(),
        access_token: Some("tok".to_string()),
        refresh_token: refresh.map(|s| s.to_string()),
        expires_at,
        scope: None,
    }
}

fn answer(token: &str) -> TokenResponse {
    TokenResponse {
        access_token: token.to_string(),
        refresh_token: Some("r2".to_string()),
        expires_in: Some(100),
        scope: None,
        error: None,
        error_description: None,
    }
}

fn tokens(token: &str) -> AuthEvent {
    AuthEvent::Tokens { reply: TokenReply::Answered(answer(token)), now: 5000 }
}

fn field(r: &HttpRequest, name: &str) -> Option<String> {
    match &r.body {
        Body::Form(pairs) => pairs.iter().find(|(k, _)| k == name).map(|(_, v)| v.clone()),
        _ => panic!("no form"),
    }
}

fn saved() -> AuthEvent {
    AuthEvent::Saved(SaveOutcome::Saved)
}

fn redirected(code: Option<&str>) -> AuthEvent {
    AuthEvent::Redirected(code.map(|c| c.to_string()))
}

fn opened(a: AuthAction) -> (String, String) {
    match a {
        AuthAction::Authorize { url, state } => (url, state),
        _ => panic!("nothing to open"),
    }
}

fn in_query(url: &str, name: &str) -> Option<String> {
    let url = url::Url::parse(url).unwrap();
    let found = url.query_pairs().find(|(k, _)| k == name).map(|(_, v)| v.to_string());
    found
}

fn assert_draft(phase: AuthPhase, action: AuthAction) {
    assert_eq!(phase, AuthPhase::SavingDraft);
    match action {
        AuthAction::SaveState(s) => {
            assert_eq!(s.client_id, "cid");
            assert!(s.access_token.is_none());
        }
        _ => panic!("nothing to save"),
    }
}

#[test]
fn the_state_is_kept_with_the_configuration() {
    let path = |c: Option<&str>, h: Option<&str>| {
        let profile = ClientProfile { client_id: String::new(), ping_url: String::new() };
        let m = TokenManager::new(c.map(|s| s.to_string()), h.map(|s| s.to_string()), profile);
        m.state_path().join("/")
    };
    assert_eq!(path(Some("/cfg"), Some("/home/u")), "/cfg/.indeed-mcp-auth.json");
    assert_eq!(path(None, Some("/home/u")), "/home/u/.config/.indeed-mcp-auth.json");
    assert_eq!(path(None, None), "./.indeed-mcp-auth.json");
    assert_eq!(dirs_next(None, None), None);
}

#[test]
fn message_numbers_count_up_from_one() {
    let mut m = manager();
    assert_eq!((m.next_id(), m.next_id(), m.next_id()), (1, 2, 3));
}

#[test]
fn message_numbers_do_not_repeat() {
    let mut m = manager();
    for count in 0..1000u64 {
        assert_eq!(m.next_id(), count + 1);
    }
}

#[test]
fn a_good_search_leaves_on_disk_what_is_held() {
    let runs = vec![
        vec![AuthEvent::Loaded(Some(state(None, None))), AuthEvent::Tested(None)],
        vec![
            AuthEvent::Loaded(Some(state(None, Some("r1")))),
            AuthEvent::Tested(Status::new(401)),
            tokens("fresh"),
            saved(),
        ],
        vec![
            AuthEvent::Loaded(Some(state(Some(10), Some("r1")))),
            AuthEvent::Clock(10),
            tokens("lost"),
            AuthEvent::Saved(SaveOutcome::WriteFailed),
            saved(),
            redirected(Some("code-1")),
            tokens("last"),
            saved(),
        ],
    ];
    let mut found = Vec::new();
    for run in runs {
        let mut m = manager();
        let mut phase = AuthPhase::Loading;
        let mut asked_to_save: Option<AuthState> = None;
        let mut kept: Option<String> = None;
        let mut good = false;
        for event in run {
            match &event {
                AuthEvent::Loaded(Some(s)) => kept = s.access_token.clone(),
                AuthEvent::Saved(SaveOutcome::Saved) => {
                    kept = asked_to_save.take().and_then(|s| s.access_token);
                }
                _ => {}
            }
            let (next, action) = m.ensure_authenticated(phase, event);
            phase = next;
            match action {
                AuthAction::SaveState(s) => asked_to_save = Some(s),
                AuthAction::Finish(result) => good = result.is_ok(),
                _ => {}
            }
        }
        assert!(good);
        assert_eq!(kept.as_deref(), Some(m.access_token().unwrap()));
        found.push(kept.unwrap());
    }
    assert_eq!(found, vec!["tok", "fresh", "last"]);
}

#[test]
fn peeking_takes_over_only_a_token() {
    let mut m = manager();
    assert!(!m.peek_token(None));
    assert!(!m.peek_token(Some(AuthState::draft("x"))));
    assert!(m.access_token().is_err());
    assert!(m.peek_token(Some(state(None, Some("r")))));
    assert_eq!(m.access_token().unwrap(), "tok");
    assert_eq!(m.refresh_token_str(), Some("r"));
    assert!(!m.peek_token(None));
    assert_eq!(m.access_token().unwrap(), "tok");
}

#[test]
fn a_valid_token_is_used_as_it_is() {
    let mut m = manager();
    let (p, a) = m.ensure_authenticated(
        AuthPhase::Loading,
        AuthEvent::Loaded(Some(state(Some(1000), Some("r")))),
    );
    assert_eq!(p, AuthPhase::CheckingExpiry { expires_at: 1000 });
    assert!(matches!(a, AuthAction::ReadClock));
    let (p, a) = m.ensure_authenticated(p, AuthEvent::Clock(939));
    assert_eq!(p, AuthPhase::Testing);
    match a {
        AuthAction::Ping(r) => {
            assert_eq!(r.url, "https://ping.example/mcp");
            assert_eq!(r.headers[0].1, "Bearer tok");
            assert_eq!(r.headers[1], ("Content-Type".to_string(), "application/json".to_string()));
            match r.body {
                Body::Json(j) => assert_eq!(
                    j.into_value().to_string(),
                    r#"{"id":1,"jsonrpc":"2.0","method":"ping","params":{}}"#
                ),
                _ => panic!("no document"),
            }
        }
        _ => panic!("no ping"),
    }
    let (p, a) = m.ensure_authenticated(p, AuthEvent::Tested(Status::new(200)));
    assert_eq!(p, AuthPhase::Done);
    assert!(matches!(a, AuthAction::Finish(Ok(()))));
    assert_eq!(m.access_token().unwrap(), "tok");
    assert_eq!(m.next_id(), 2);
}

#[test]
fn a_token_without_expiry_is_tried_at_once() {
    for status in [None, Status::new(500), Status::new(403), Status::new(204)] {
        let mut m = manager();
        let (p, a) =
            m.ensure_authenticated(AuthPhase::Loading, AuthEvent::Loaded(Some(state(None, None))));
        assert_eq!(p, AuthPhase::Testing);
        assert!(matches!(a, AuthAction::Ping(_)));
        let (_, a) = m.ensure_authenticated(p, AuthEvent::Tested(status));
        assert!(matches!(a, AuthAction::Finish(Ok(()))));
    }
}

#[test]
fn an_expiring_token_is_refreshed_and_tried() {
    let mut m = manager();
    let (p, _) = m.ensure_authenticated(
        AuthPhase::Loading,
        AuthEvent::Loaded(Some(state(Some(1000), Some("r1")))),
    );
    let (p, a) = m.ensure_authenticated(p, AuthEvent::Clock(940));
    assert_eq!(p, AuthPhase::Refreshing { rejected: false });
    match a {
        AuthAction::RequestTokens(r) => {
            assert_eq!(field(&r, "grant_type").as_deref(), Some("refresh_token"));
            assert_eq!(field(&r, "refresh_token").as_deref(), Some("r1"));
            assert_eq!(field(&r, "client_id").as_deref(), Some("saved-cid"));
        }
        _ => panic!("no request"),
    }
    let (p, a) = m.ensure_authenticated(p, tokens("fresh"));
    assert_eq!(p, AuthPhase::SavingRefresh { rejected: false });
    match a {
        AuthAction::SaveState(s) => {
            assert_eq!(s.access_token.as_deref(), Some("fresh"));
            assert_eq!(s.refresh_token.as_deref(), Some("r2"));
            assert_eq!(s.expires_at, Some(5100));
        }
        _ => panic!("nothing to save"),
    }
    let (p, a) = m.ensure_authenticated(p, saved());
    assert_eq!(p, AuthPhase::Testing);
    match a {
        AuthAction::Ping(r) => assert_eq!(r.headers[0].1, "Bearer fresh"),
        _ => panic!("no ping"),
    }
}

#[test]
fn a_time_of_expiry_near_the_epoch_does_not_wrap() {
    let mut m = manager();
    let (p, _) = m.ensure_authenticated(
        AuthPhase::Loading,
        AuthEvent::Loaded(Some(state(Some(59), Some("r1")))),
    );
    let (p, _) = m.ensure_authenticated(p, AuthEvent::Clock(0));
    assert_eq!(p, AuthPhase::Refreshing { rejected: false });
}

#[test]
fn a_rejected_token_is_refreshed_and_used() {
    let mut m = manager();
    let (p, _) =
        m.ensure_authenticated(AuthPhase::Loading, AuthEvent::Loaded(Some(state(None, Some("r1")))));
    let (p, a) = m.ensure_authenticated(p, AuthEvent::Tested(Status::new(401)));
    assert_eq!(p, AuthPhase::Refreshing { rejected: true });
    assert!(matches!(a, AuthAction::RequestTokens(_)));
    let (p, _) = m.ensure_authenticated(p, tokens("fresh"));
    let (p, a) = m.ensure_authenticated(p, saved());
    assert_eq!(p, AuthPhase::Done);
    assert!(matches!(a, AuthAction::Finish(Ok(()))));
    assert_eq!(m.access_token().unwrap(), "fresh");
}

#[test]
fn without_a_refresh_token_a_login_begins() {
    let mut m = manager();
    let (p, _) =
        m.ensure_authenticated(AuthPhase::Loading, AuthEvent::Loaded(Some(state(None, None))));
    assert_eq!(
        m.refresh_token_request().unwrap_err().message(),
        "No refresh token available"
    );
    let (p, a) = m.ensure_authenticated(p, AuthEvent::Tested(Status::new(401)));
    assert_draft(p, a);
    assert!(m.access_token().is_err());
}

#[test]
fn a_failed_refresh_leads_to_a_login() {
    for reply in [
        TokenReply::SendFailed,
        TokenReply::Malformed,
        TokenReply::Refused { status: Status::new(400).unwrap(), body: String::new() },
    ] {
        let mut m = manager();
        let (p, _) = m.ensure_authenticated(
            AuthPhase::Loading,
            AuthEvent::Loaded(Some(state(Some(10), Some("r1")))),
        );
        let (p, _) = m.ensure_authenticated(p, AuthEvent::Clock(10));
        let (p, a) = m.ensure_authenticated(p, AuthEvent::Tokens { reply, now: 10 });
        assert_draft(p, a);
    }
}

#[test]
fn a_refresh_that_cannot_be_saved_leads_to_a_login() {
    let mut m = manager();
    let (p, _) = m.ensure_authenticated(
        AuthPhase::Loading,
        AuthEvent::Loaded(Some(state(Some(10), Some("r1")))),
    );
    let (p, _) = m.ensure_authenticated(p, AuthEvent::Clock(10));
    let (p, _) = m.ensure_authenticated(p, tokens("fresh"));
    let (p, a) = m.ensure_authenticated(p, AuthEvent::Saved(SaveOutcome::WriteFailed));
    assert_draft(p, a);
}

#[test]
fn a_saved_state_without_a_token_is_removed() {
    let mut m = manager();
    let (p, a) = m.ensure_authenticated(
        AuthPhase::Loading,
        AuthEvent::Loaded(Some(AuthState::draft("old"))),
    );
    assert_eq!(p, AuthPhase::Discarding);
    assert!(matches!(a, AuthAction::RemoveState));
    let (p, a) = m.ensure_authenticated(p, AuthEvent::Removed);
    assert_draft(p, a);
}

#[test]
fn a_login_brings_tokens() {
    let mut m = manager();
    let (p, a) = m.ensure_authenticated(AuthPhase::Loading, AuthEvent::Loaded(None));
    assert_draft(p, a);
    let (p, a) = m.ensure_authenticated(p, saved());
    assert_eq!(p, AuthPhase::Authorizing);
    let (url, state) = opened(a);
    assert_eq!(in_query(&url, "state"), Some(state));
    let (p, a) = m.ensure_authenticated(p, redirected(Some("code-1")));
    assert_eq!(p, AuthPhase::Exchanging);
    match a {
        AuthAction::RequestTokens(r) => {
            assert_eq!(field(&r, "grant_type").as_deref(), Some("authorization_code"));
            assert_eq!(field(&r, "code").as_deref(), Some("code-1"));
            let verifier = field(&r, "code_verifier").unwrap();
            assert_eq!(in_query(&url, "code_challenge"), Some(sha256_base64url(&verifier)));
            assert_eq!(field(&r, "client_id").as_deref(), Some("cid"));
            assert_eq!(in_query(&url, "client_id").as_deref(), Some("cid"));
        }
        _ => panic!("no request"),
    }
    let (p, _) = m.ensure_authenticated(p, tokens("first"));
    assert_eq!(p, AuthPhase::SavingTokens);
    let (p, a) = m.ensure_authenticated(p, saved());
    assert_eq!(p, AuthPhase::Done);
    assert!(matches!(a, AuthAction::Finish(Ok(()))));
    assert_eq!(m.access_token().unwrap(), "first");
    assert_eq!(m.refresh_token_str(), Some("r2"));
}

#[test]
fn a_login_fails_with_the_reason() {
    let failure = |a: AuthAction| match a {
        AuthAction::Finish(Err(e)) => e.message(),
        _ => panic!("no failure"),
    };
    let mut m = manager();
    let (p, _) = m.ensure_authenticated(AuthPhase::Loading, AuthEvent::Loaded(None));
    let (_, a) = m.ensure_authenticated(p, AuthEvent::Saved(SaveOutcome::WriteFailed));
    assert_eq!(failure(a), "Failed to write auth state");
    let (p, _) = m.ensure_authenticated(AuthPhase::SavingDraft, saved());
    let (p, a) = m.ensure_authenticated(p, redirected(None));
    assert_eq!(p, AuthPhase::Done);
    assert_eq!(failure(a), "Failed to receive OAuth callback");
    let (_, a) = m.ensure_authenticated(
        AuthPhase::Exchanging,
        AuthEvent::Tokens { reply: TokenReply::SendFailed, now: 0 },
    );
    assert_eq!(failure(a), "Failed to send token exchange request");
    let (p, _) = m.ensure_authenticated(AuthPhase::Exchanging, tokens("t"));
    let outcome = SaveOutcome::EncodeFailed { message: "why".to_string() };
    let (p, a) = m.ensure_authenticated(p, AuthEvent::Saved(outcome));
    assert_eq!(p, AuthPhase::Done);
    assert_eq!(failure(a), "why");
}

#[test]
fn replies_can_be_taken_over_one_by_one() {
    let mut m = manager();
    m.peek_token(Some(state(None, Some("r1"))));
    assert!(m.refresh_token(TokenReply::Malformed, 0).is_err());
    assert_eq!(m.access_token().unwrap(), "tok");
    assert!(m.refresh_token(TokenReply::Answered(answer("a1")), 0).is_ok());
    assert_eq!(m.access_token().unwrap(), "a1");
    assert!(m.exchange_code(TokenReply::Answered(answer("a2")), 0).is_ok());
    assert_eq!(m.access_token().unwrap(), "a2");
    assert!(m.test_connection_request().is_ok());
    assert!(m.test_connection(Status::new(500).unwrap()));
    assert!(!m.test_connection(Status::new(401).unwrap()));
    assert!(manager().test_connection_request().is_err());
    assert!(save_to_disk(SaveOutcome::Saved).is_ok());
}

#[test]
fn each_login_shows_the_secret_of_the_address_it_opened() {
    let mut m = manager();
    let mut challenges = Vec::new();
    for code in ["code-1", "code-2"] {
        let (p, _) = m.ensure_authenticated(AuthPhase::Loading, AuthEvent::Loaded(None));
        let (p, a) = m.ensure_authenticated(p, saved());
        let (url, _) = opened(a);
        let (_, a) = m.ensure_authenticated(p, redirected(Some(code)));
        match a {
            AuthAction::RequestTokens(r) => {
                let verifier = field(&r, "code_verifier").unwrap();
                assert!((64..=96).contains(&verifier.len()));
                assert_eq!(in_query(&url, "code_challenge"), Some(sha256_base64url(&verifier)));
                assert_eq!(field(&r, "client_id"), in_query(&url, "client_id"));
                assert_eq!(field(&r, "code").as_deref(), Some(code));
            }
            _ => panic!("no request"),
        }
        challenges.push(in_query(&url, "code_challenge").unwrap());
    }
    assert_ne!(challenges[0], challenges[1]);
}

#[test]
fn the_longest_search_ends_after_eleven_events() {
    let mut m = manager();
    let events = vec![
        AuthEvent::Loaded(Some(state(Some(10), Some("r1")))),
        AuthEvent::Clock(10),
        tokens("fresh"),
        saved(),
        AuthEvent::Tested(Status::new(401)),
        tokens("fresher"),
        AuthEvent::Saved(SaveOutcome::WriteFailed),
        saved(),
        redirected(Some("code-1")),
        tokens("last"),
        saved(),
    ];
    let mut phase = AuthPhase::Loading;
    let mut asked = 0;
    let mut finished = 0;
    for event in events {
        let (next, action) = m.ensure_authenticated(phase, event);
        phase = next;
        match action {
            AuthAction::Authorize { .. } => asked += 1,
            AuthAction::Finish(result) => {
                assert!(result.is_ok());
                finished += 1;
            }
            _ => {}
        }
    }
    assert_eq!(phase, AuthPhase::Done);
    assert_eq!((asked, finished), (1, 1));
    assert_eq!(m.access_token().unwrap(), "last");
    assert_eq!(m.next_id(), 2);
}
