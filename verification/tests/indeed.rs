use indeed_mcp::http::{Body, HttpRequest, Method, Status};
use indeed_mcp::indeed::{graphql_result, ApiError, HttpOutcome, IndeedClient, Query};
use indeed_mcp::json::{read_json, Json};

fn status(code: u16) -> Status {
    Status::new(code).unwrap()
}

fn query_of(r: HttpRequest) -> String {
    match r.body {
        Body::Json(j) => {
            let value = j.into_value();
            let object = value.as_object().unwrap();
            assert_eq!(object.len(), 2);
            assert!(object["variables"].as_object().unwrap().is_empty());
            object["query"].as_str().unwrap().to_string()
        }
        _ => panic!("no document"),
    }
}

fn reply(code: u16, body: &str) -> HttpOutcome {
    HttpOutcome::Reply { status: status(code), body: body.as_bytes().to_vec() }
}

fn message_of(r: Result<Json, ApiError>) -> String {
    match r {
        Ok(_) => panic!("a result"),
        Err(e) => e.message(),
    }
}

#[test]
fn a_search_request_is_complete() {
    let r = IndeedClient::new().search_jobs_request("tok", "rust", Some("Austin, TX"), None, None);
    assert_eq!(r.method, Method::Post);
    assert_eq!(r.url, "https://apis.indeed.com/graphql");
    assert_eq!(r.timeout_secs, Some(15));
    let headers: Vec<(&str, &str)> =
        r.headers.iter().map(|(k, v)| (k.as_str(), v.as_str())).collect();
    assert_eq!(
        headers,
        vec![
            ("Authorization", "Bearer tok"),
            ("Content-Type", "application/json"),
            ("Accept", "application/json"),
        ]
    );
    let expected = "
            query SearchJobs {
                jobSearch(
                    location: { radius: 25, radiusUnit: MILES, where: \"Austin, TX\" },
                    what: \"rust\",
                    limit: 10
                ) {
                    results {
                        job {
                            title
                            sourceEmployerName
                            locationName
                            salary {
                                currency
                                period
                                min
                                max
                            }
                            url
                            key
                            publishedDate
                        }
                    }
                    totalResults
                }
            }
            ";
    assert_eq!(query_of(r), expected);
}

#[test]
fn a_search_without_a_location_has_none() {
    let r = IndeedClient::new().search_jobs_request("t", "k", None, Some(99), Some(7));
    let query = query_of(r);
    assert!(query.contains("location: null,"));
    assert!(query.contains("limit: 7\n"));
    assert!(!query.contains("99"));
}

#[test]
fn limits_are_capped() {
    for (given, sent) in [(None, 10), (Some(0), 0), (Some(50), 50), (Some(51), 50), (Some(u32::MAX), 50)] {
        let r = IndeedClient::new().search_jobs_request("t", "k", None, None, given);
        assert!(query_of(r).contains(&format!("limit: {sent}\n")));
    }
}

#[test]
fn quotes_in_arguments_are_escaped() {
    let r = IndeedClient::new().search_jobs_request("t", "a \"b\"", Some("\"x\""), Some(5), None);
    let query = query_of(r);
    assert!(query.contains("what: \"a \\\"b\\\"\","));
    assert!(query.contains("{ radius: 5, radiusUnit: MILES, where: \"\\\"x\\\"\" }"));
}

#[test]
fn a_detail_request_names_the_job() {
    let r = IndeedClient::new().get_job_detail_request("tok", "abc123");
    assert_eq!(r.url, "https://apis.indeed.com/graphql");
    let query = query_of(r);
    assert!(query.starts_with("\n            query GetJobDetail {\n                job(id: \"abc123\") {\n"));
    assert!(query.contains("description { text }"));
    assert!(query.ends_with("remoteWorkType\n                    }\n                }\n            }\n            "));
}

#[test]
fn a_token_is_tried_at_the_user_endpoint() {
    let client = IndeedClient::new();
    assert_eq!(client.user_agent, "indeed-mcp/0.1.0");
    let r = client.test_token_request("tok");
    assert_eq!(r.method, Method::Get);
    assert_eq!(r.url, "https://apis.indeed.com/sso/idp/userinfo");
    assert_eq!(r.timeout_secs, Some(10));
    assert!(matches!(r.body, Body::Empty));
    assert_eq!(r.headers[0], ("Authorization".to_string(), "Bearer tok".to_string()));
    assert_eq!(r.headers[1], ("User-Agent".to_string(), "indeed-mcp/0.1.0".to_string()));
    assert!(client.test_token(Some(status(204))));
    assert!(!client.test_token(Some(status(401))));
    assert!(client.test_token(None));
}

#[test]
fn a_clean_reply_is_the_result() {
    let body = r#"{"data":{"jobSearch":{"totalResults":2}},"errors":[]}"#;
    let r = IndeedClient::new().search_jobs(reply(200, body));
    let direct: serde_json::Value = serde_json::from_str(body).unwrap();
    assert_eq!(r.unwrap().into_value(), direct);
}

#[test]
fn listed_errors_fail_with_the_first_message() {
    let client = IndeedClient::new();
    let body = r#"{"errors":[{"message":"bad query"},{"message":"second"}]}"#;
    assert_eq!(message_of(client.search_jobs(reply(200, body))), "Indeed API: bad query");
    let body = r#"{"errors":[{"code":1}]}"#;
    assert_eq!(
        message_of(client.get_job_detail(reply(200, body))),
        "Indeed API: Unknown GraphQL error"
    );
    assert!(client.search_jobs(reply(200, r#"{"errors":"text"}"#)).is_ok());
}

#[test]
fn other_statuses_fail_with_the_message_of_the_document() {
    let client = IndeedClient::new();
    assert_eq!(
        message_of(client.search_jobs(reply(403, r#"{"error":"forbidden"}"#))),
        "HTTP 403 Forbidden from Indeed GraphQL: forbidden"
    );
    assert_eq!(
        message_of(client.get_job_detail(reply(599, "{}"))),
        "HTTP 599 <unknown status code> from Indeed GraphQL: GraphQL request failed"
    );
    assert_eq!(
        message_of(client.search_jobs(reply(500, r#"{"error":{"a":1},"errors":[{"message":"m"}]}"#))),
        "HTTP 500 Internal Server Error from Indeed GraphQL: GraphQL request failed"
    );
}

#[test]
fn replies_that_are_no_json_fail() {
    let client = IndeedClient::new();
    assert_eq!(
        message_of(client.search_jobs(reply(502, "<html>"))),
        "Failed to parse GraphQL response as JSON"
    );
    assert_eq!(
        message_of(client.get_job_detail(reply(200, ""))),
        "Failed to parse GraphQL response"
    );
    assert_eq!(
        message_of(client.get_job_detail(HttpOutcome::Unreadable)),
        "Failed to parse GraphQL response"
    );
    assert_eq!(
        message_of(client.search_jobs(HttpOutcome::SendFailed)),
        "Failed to send GraphQL request"
    );
    assert_eq!(
        ApiError::NotJson(Query::Search).message(),
        "Failed to parse GraphQL response as JSON"
    );
}

#[test]
fn results_follow_status_and_document() {
    let doc = read_json(br#"{"errors":[]}"#).unwrap();
    assert!(graphql_result(status(299), doc).is_ok());
    assert!(graphql_result(status(300), Json::Null).is_err());
    assert!(graphql_result(status(199), Json::Null).is_err());
    assert!(graphql_result(status(200), Json::Null).is_ok());
}

#[test]
fn status_codes_have_three_digits() {
    assert!(Status::new(99).is_none());
    assert!(Status::new(1000).is_none());
    assert_eq!(status(100).code(), 100);
    assert_eq!(status(999).code(), 999);
    assert_eq!(status(404).text(), "404 Not Found");
    assert!(status(401).is_unauthorized());
    assert!(!status(403).is_unauthorized());
}
