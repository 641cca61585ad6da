use indeed_mcp::http::{Body, Method, Status};
use indeed_mcp::registration::{
    register_client, register_client_request, registration_reply, RegistrationReply,
};

#[test]
fn the_client_registers_as_itself() {
    let r = register_client_request();
    assert_eq!(r.method, Method::Post);
    assert_eq!(r.url, "https://secure.indeed.com/oauth/v2/register");
    assert_eq!(
        r.headers,
        vec![("Content-Type".to_string(), "application/json".to_string())]
    );
    match r.body {
        Body::Registration(reg) => {
            assert_eq!(reg.client_name, "Indeed MCP Proxy (OpenCode)");
            assert_eq!(reg.redirect_uris, vec!["http://127.0.0.1:19876/callback".to_string()]);
            assert_eq!(reg.grant_types, vec!["authorization_code".to_string(), "refresh_token".to_string()]);
            assert_eq!(reg.response_types, vec!["code".to_string()]);
            assert_eq!(reg.token_endpoint_auth_method, "none");
            assert_eq!(reg.scope, "job_seeker.jobs.search offline_access");
        }
        _ => panic!("no registration"),
    }
}

#[test]
fn only_success_answers_a_registration() {
    let reply = |code: u16, name: Option<&str>| {
        let status = Status::new(code).unwrap();
        registration_reply(status, "why".to_string(), name.map(|s| s.to_string()))
    };
    assert_eq!(register_client(reply(201, Some("id"))).unwrap(), "id");
    assert!(matches!(reply(200, None), RegistrationReply::Malformed));
    for code in [199, 300, 400, 503] {
        match reply(code, Some("id")) {
            RegistrationReply::Refused { status, body } => {
                assert_eq!(status.code(), code);
                assert_eq!(body, "why");
            }
            other => panic!("{:?}", other),
        }
    }
}

#[test]
fn registrations_give_a_name_or_an_error() {
    let answered = RegistrationReply::Answered { client_id: "id".to_string() };
    assert_eq!(register_client(answered).unwrap(), "id");
    let refused = RegistrationReply::Refused {
        status: Status::new(400).unwrap(),
        body: "nope".to_string(),
    };
    assert_eq!(
        register_client(refused).unwrap_err().message(),
        "DCR registration failed: HTTP 400 Bad Request - nope"
    );
    assert_eq!(
        register_client(RegistrationReply::SendFailed).unwrap_err().message(),
        "Failed to send DCR request"
    );
    assert_eq!(
        register_client(RegistrationReply::Malformed).unwrap_err().message(),
        "Failed to parse DCR response"
    );
}
