use indeed_mcp::form::urlencoding;

#[test]
fn texts_are_form_encoded() {
    assert_eq!(
        urlencoding("http://127.0.0.1:19876/callback"),
        "http%3A%2F%2F127.0.0.1%3A19876%2Fcallback"
    );
    assert_eq!(
        urlencoding("job_seeker.jobs.search offline_access"),
        "job_seeker.jobs.search+offline_access"
    );
    assert_eq!(urlencoding(""), "");
    assert_eq!(urlencoding("*-._~+&=%"), "*-._%7E%2B%26%3D%25");
    assert_eq!(urlencoding("\u{e9}"), "%C3%A9");
}

#[test]
fn form_encoding_can_be_undone() {
    for s in ["a b", "100% & more", "caf\u{e9}+\u{1f600}", "~`!@#$%^&*()"] {
        let query = format!("k={}", urlencoding(s));
        let pairs: Vec<(String, String)> =
            url::form_urlencoded::parse(query.as_bytes()).into_owned().collect();
        assert_eq!(pairs, vec![("k".to_string(), s.to_string())]);
    }
}

#[test]
fn parts_are_encoded_on_their_own() {
    for (a, b) in [("", "x y"), ("a b", ""), ("100%", "&\u{e9}"), ("+", "+")] {
        let whole = format!("{}{}", a, b);
        assert_eq!(urlencoding(&whole), format!("{}{}", urlencoding(a), urlencoding(b)));
    }
}
