use indeed_mcp::callback::{
    callback_reply, code_in_query, CallbackRequest, ACCEPTED_RESPONSE, CALLBACK_ADDRESS,
    REDIRECT_URI, REFUSED_RESPONSE,
};

fn request(lines: &[&str]) -> CallbackRequest {
    let mut r = CallbackRequest::new();
    for line in lines {
        if r.add_line(line) {
            break;
        }
    }
    r
}

#[test]
fn a_redirect_with_the_expected_state_brings_its_code() {
    let r = request(&["GET /callback?code=abc%20d&state=xyz HTTP/1.1", "Host: localhost", ""]);
    assert_eq!(r.authorization_code("xyz"), "abc d");
    let reply = r.reply("xyz");
    assert_eq!(reply.code, Some("abc d".to_string()));
    assert_eq!(reply.response, ACCEPTED_RESPONSE);
    assert!(reply.response.starts_with("HTTP/1.1 200 OK\r\n"));
}

#[test]
fn a_redirect_with_another_state_is_refused() {
    for line in [
        "GET /callback?code=abc&state=other HTTP/1.1",
        "GET /callback?code=abc HTTP/1.1",
        "GET /callback?state=xyz HTTP/1.1",
        "GET /callback?code=&state=xyz HTTP/1.1",
        "GET /callback?code=abc&state=other&state=xyz HTTP/1.1",
        "GET /favicon.ico HTTP/1.1",
        "GET",
        "",
    ] {
        let r = request(&[line]);
        let reply = r.reply("xyz");
        assert_eq!(reply.code, None, "{line}");
        assert_eq!(reply.response, REFUSED_RESPONSE);
    }
}

#[test]
fn the_earliest_matching_redirect_ends_a_wait() {
    let lines = [
        "GET /favicon.ico HTTP/1.1",
        "GET /callback?code=stale&state=old HTTP/1.1",
        "GET /callback?code=first&state=xyz HTTP/1.1",
        "GET /callback?code=second&state=xyz HTTP/1.1",
    ];
    let mut refused = 0;
    let mut delivered = None;
    for line in lines {
        let reply = request(&[line, ""]).reply("xyz");
        if let Some(code) = reply.code {
            assert_eq!(reply.response, ACCEPTED_RESPONSE);
            delivered = Some(code);
            break;
        }
        assert_eq!(reply.response, REFUSED_RESPONSE);
        refused += 1;
    }
    assert_eq!(delivered.as_deref(), Some("first"));
    assert_eq!(refused, 2);
}

#[test]
fn what_is_no_url_brings_no_code() {
    let r = request(&["GET :99999999?code=abc&state=xyz HTTP/1.1"]);
    assert_eq!(r.authorization_code("xyz"), "");
}

#[test]
fn a_request_with_a_body_brings_no_code() {
    let r = request(&[
        "POST /callback?code=abc&state=xyz HTTP/1.1",
        "CONTENT-length:   4  ",
        "",
    ]);
    assert_eq!(r.content_length, 4);
    assert_eq!(r.authorization_code("xyz"), "");
}

#[test]
fn the_first_line_that_is_not_empty_is_the_request_line() {
    let mut r = CallbackRequest::new();
    assert!(!r.add_line(""));
    assert!(!r.add_line("GET / HTTP/1.1"));
    assert_eq!(r.request_line, "GET / HTTP/1.1");
    assert!(!r.add_line("Accept: */*"));
    assert_eq!(r.request_line, "GET / HTTP/1.1");
    assert!(r.add_line(""));
}

#[test]
fn the_last_readable_length_counts() {
    let r = request(&[
        "GET / HTTP/1.1",
        "Content-Length: 7",
        "content-length: none",
        "Content-Length: 9",
        "Content-Length: -3",
    ]);
    assert_eq!(r.content_length, 9);
}

#[test]
fn a_length_before_the_request_line_is_the_request_line() {
    let r = request(&["Content-Length: 7"]);
    assert_eq!(r.content_length, 0);
    assert_eq!(r.request_line, "Content-Length: 7");
}

#[test]
fn codes_are_found_among_pairs() {
    let pairs = vec![
        ("x".to_string(), "0".to_string()),
        ("code".to_string(), "c1".to_string()),
        ("code".to_string(), "c2".to_string()),
        ("state".to_string(), "s".to_string()),
    ];
    assert_eq!(code_in_query(&pairs, "s"), Some("c1".to_string()));
    assert_eq!(code_in_query(&pairs, "t"), None);
    assert_eq!(code_in_query(&vec![], "s"), None);
}

#[test]
fn replies_follow_the_code() {
    assert_eq!(callback_reply("c".to_string()).response, ACCEPTED_RESPONSE);
    assert_eq!(callback_reply(String::new()).response, REFUSED_RESPONSE);
    assert!(callback_reply(String::new()).code.is_none());
    assert!(REFUSED_RESPONSE.ends_with("\r\n\r\nNo authorization code found."));
}

#[test]
fn the_redirect_goes_where_it_is_awaited() {
    assert_eq!(REDIRECT_URI, format!("http://{}/callback", CALLBACK_ADDRESS));
}
