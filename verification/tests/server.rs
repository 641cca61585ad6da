use indeed_mcp::http::{Body, Status};
use indeed_mcp::indeed::{ApiError, HttpOutcome};
use indeed_mcp::json::read_json;
use indeed_mcp::manager::ClientProfile;
use indeed_mcp::server::{
    answer_with, IndeedMcpServer, JobDetailArgs, SearchJobsArgs, ToolStep,
};
use indeed_mcp::tokens::{AuthError, AuthState};

fn server() -> IndeedMcpServer {
    let profile = ClientProfile { client_id: "cid".to_string(), ping_url: "p".to_string() };
    IndeedMcpServer::new(None, Some("/home/u".to_string()), profile)
}

fn search_args() -> SearchJobsArgs {
    SearchJobsArgs {
        keyword: "rust".to_string(),
        location: Some("Oslo".to_string()),
        radius: Some(3),
        limit: Some(80),
    }
}

#[test]
fn a_new_server_holds_nothing() {
    let s = server();
    assert_eq!(s.indeed.user_agent, "indeed-mcp/0.1.0");
    assert!(s.token_mgr.access_token().is_err());
    assert_eq!(s.token_mgr.state_path().len(), 3);
}

#[test]
fn the_token_follows_the_search() {
    let mut s = server();
    assert_eq!(
        s.ensure_token(Ok(())).unwrap_err().message(),
        "No access token available"
    );
    assert_eq!(
        s.ensure_token(Err(AuthError::CallbackLost)).unwrap_err().message(),
        "Failed to receive OAuth callback"
    );
    let mut state = AuthState::draft("cid");
    state.access_token = Some("tok".to_string());
    s.token_mgr.peek_token(Some(state));
    assert_eq!(s.ensure_token(Ok(())).unwrap(), "tok");
}

#[test]
fn tools_without_a_token_say_so() {
    let s = server();
    match s.jobs_search(Err(AuthError::CallbackLost), &search_args()) {
        ToolStep::Answer(text) => {
            assert_eq!(text, "Authentication failed: Failed to receive OAuth callback")
        }
        ToolStep::Send(_) => panic!("a request"),
    }
    let args = JobDetailArgs { job_id: "j".to_string() };
    match s.job_detail(Err(AuthError::WriteState), &args) {
        ToolStep::Answer(text) => {
            assert_eq!(text, "Authentication failed: Failed to write auth state")
        }
        ToolStep::Send(_) => panic!("a request"),
    }
}

#[test]
fn tools_with_a_token_ask_indeed() {
    let s = server();
    match s.jobs_search(Ok("tok".to_string()), &search_args()) {
        ToolStep::Send(r) => {
            assert_eq!(r.headers[0].1, "Bearer tok");
            match r.body {
                Body::Json(j) => {
                    let value = j.into_value();
                    let query = value["query"].as_str().unwrap();
                    assert!(query.contains("{ radius: 3, radiusUnit: MILES, where: \"Oslo\" }"));
                    assert!(query.contains("limit: 50\n"));
                }
                _ => panic!("no document"),
            }
        }
        ToolStep::Answer(_) => panic!("an answer"),
    }
    let args = JobDetailArgs { job_id: "j-9".to_string() };
    match s.job_detail(Ok("tok".to_string()), &args) {
        ToolStep::Send(r) => match r.body {
            Body::Json(j) => {
                assert!(j.into_value()["query"].as_str().unwrap().contains("job(id: \"j-9\")"))
            }
            _ => panic!("no document"),
        },
        ToolStep::Answer(_) => panic!("an answer"),
    }
}

#[test]
fn results_are_answered_over_several_lines() {
    let s = server();
    let outcome = |_n: u8| HttpOutcome::Reply {
        status: Status::new(200).unwrap(),
        body: br#"{"data":{"n":1}}"#.to_vec(),
    };
    let expected = "{\n  \"data\": {\n    \"n\": 1\n  }\n}";
    assert_eq!(s.jobs_search_answer(outcome(0)), expected);
    assert_eq!(s.job_detail_answer(outcome(1)), expected);
}

#[test]
fn failures_are_answered_in_words() {
    let s = server();
    assert_eq!(
        s.jobs_search_answer(HttpOutcome::SendFailed),
        "Job search failed: Failed to send GraphQL request"
    );
    assert_eq!(
        s.job_detail_answer(HttpOutcome::Unreadable),
        "Job detail lookup failed: Failed to parse GraphQL response"
    );
    assert_eq!(
        answer_with("X: ", Err(ApiError::Api { message: "m".to_string() })),
        "X: Indeed API: m"
    );
    assert_eq!(answer_with("X: ", Ok(read_json(b"[]").unwrap())), "[]");
}
