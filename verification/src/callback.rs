//! The redirect that ends an authorization: reading its request, and answering it.
use crate::text::{
    begins_ignoring_case, opt_text, pair_texts, read_second_word, read_usize_from, same_text,
    second_word, starts_ignoring_case, trimmed, usize_value,
};
use vstd::prelude::*;

verus! {

/// Where the redirect is awaited.
pub const CALLBACK_ADDRESS: &'static str = "127.0.0.1:19876";

/// Where the authorization server is asked to redirect to.
pub const REDIRECT_URI: &'static str = "http://127.0.0.1:19876/callback";

/// The answer to a redirect that brings an authorization code.
pub const ACCEPTED_RESPONSE: &'static str =
    "HTTP/1.1 200 OK\r\nContent-Type: text/html\r\nContent-Length: 200\r\nConnection: close\r\n\r\n<!DOCTYPE html><html><body><h1>Authorization Complete!</h1><p>You can close this window and return to the terminal.</p></body></html>";

/// The answer to any other request.
pub const REFUSED_RESPONSE: &'static str =
    "HTTP/1.1 400 Bad Request\r\nContent-Type: text/plain\r\nContent-Length: 21\r\nConnection: close\r\n\r\nNo authorization code found.";

/// The name of the header that gives the length of a body, with its colon, in lower case.
pub const CONTENT_LENGTH: &'static str = "content-length:";

/// The head of an HTTP request, as far as it has been read.
#[derive(Debug)]
pub struct CallbackRequest {
    pub request_line: String,
    pub content_length: usize,
}

/// The head of an HTTP request, as its plain contents.
pub struct CallbackRequestView {
    pub request_line: Seq<char>,
    pub content_length: usize,
}

impl View for CallbackRequest {
    type V = CallbackRequestView;

    open spec fn view(&self) -> CallbackRequestView {
        CallbackRequestView {
            request_line: self.request_line@,
            content_length: self.content_length,
        }
    }
}

/// The head before anything has been read.
pub open spec fn blank_request() -> CallbackRequestView {
    CallbackRequestView { request_line: Seq::empty(), content_length: 0 }
}

/// The length that a header line gives to the body, where it gives one.
pub open spec fn body_length(line: Seq<char>) -> Option<usize> {
    if begins_ignoring_case(line, CONTENT_LENGTH@) {
        usize_value(trimmed(line.skip(CONTENT_LENGTH@.len() as int)))
    } else {
        None
    }
}

/// The head with one line more: the first line that is not empty is the request line, and a
/// later line may give the length of the body.
pub open spec fn with_line(r: CallbackRequestView, line: Seq<char>) -> CallbackRequestView {
    if r.request_line.len() == 0 {
        CallbackRequestView { request_line: line, ..r }
    } else {
        match body_length(line) {
            Some(n) => CallbackRequestView { content_length: n, ..r },
            None => r,
        }
    }
}

/// Whether a line ends the head: an empty line after the request line.
pub open spec fn ends_head(r: CallbackRequestView, line: Seq<char>) -> bool {
    r.request_line.len() > 0 && line.len() == 0
}

/// The head that a row of lines makes.
pub open spec fn head_of(lines: Seq<Seq<char>>) -> CallbackRequestView
    decreases lines.len(),
{
    if lines.len() == 0 {
        blank_request()
    } else {
        with_line(head_of(lines.drop_last()), lines.last())
    }
}

/// The names and values that `url` reads from the query of a URL; nothing where it takes the
/// text for no URL.
pub uninterp spec fn url_query(text: Seq<char>) -> Option<Seq<(Seq<char>, Seq<char>)>>;

/// `url::Url::parse` reads a URL, or fails; `url::Url::query_pairs` of the URL it reads gives
/// the names and values of its query, decoded and in order. What they read depends on the text
/// alone.
#[verifier::external_body]
fn url_query_pairs(text: &str) -> (r: Option<Vec<(String, String)>>)
    ensures
        match r {
            Some(pairs) => url_query(text@) == Some(pair_texts(pairs@)),
            None => url_query(text@) is None,
        },
{
    url::Url::parse(text).ok().map(|u| u.query_pairs().into_owned().collect())
}

/// The value of the first pair that has the given name.
pub open spec fn first_value(
    pairs: Seq<(Seq<char>, Seq<char>)>,
    name: Seq<char>,
) -> Option<Seq<char>>
    decreases pairs.len(),
{
    if pairs.len() == 0 {
        None
    } else if pairs[0].0 == name {
        Some(pairs[0].1)
    } else {
        first_value(pairs.drop_first(), name)
    }
}

/// Finds the value of the first pair that has the given name.
fn find_value(pairs: &Vec<(String, String)>, name: &str) -> (r: Option<String>)
    ensures
        opt_text(r) == first_value(pair_texts(pairs@), name@),
{
    let mut i: usize = 0;
    let ghost all = pair_texts(pairs@);
    assert(all.skip(0) =~= all);
    while i < pairs.len()
        invariant
            i <= pairs.len(),
            all == pair_texts(pairs@),
            first_value(all, name@) == first_value(all.skip(i as int), name@),
        decreases pairs.len() - i,
    {
        assert(all.skip(i as int)[0] == (pairs[i as int].0@, pairs[i as int].1@));
        assert(all.skip(i as int).drop_first() =~= all.skip(i + 1));
        if same_text(pairs[i].0.as_str(), name) {
            return Some(pairs[i].1.clone());
        }
        i += 1;
    }
    None
}

/// The authorization code among the pairs of a query: it counts only where the query names the
/// expected state.
pub open spec fn code_in(
    pairs: Seq<(Seq<char>, Seq<char>)>,
    expected_state: Seq<char>,
) -> Option<Seq<char>> {
    if first_value(pairs, "state"@) == Some(expected_state) {
        first_value(pairs, "code"@)
    } else {
        None
    }
}

/// Finds the authorization code among the pairs of a query.
pub fn code_in_query(pairs: &Vec<(String, String)>, expected_state: &str) -> (r: Option<String>)
    ensures
        opt_text(r) == code_in(pair_texts(pairs@), expected_state@),
{
    let code = find_value(pairs, "code");
    match find_value(pairs, "state") {
        Some(state) => if same_text(state.as_str(), expected_state) {
            code
        } else {
            None
        },
        None => None,
    }
}

/// The URL that a request line asks for.
pub open spec fn requested_url(request_line: Seq<char>) -> Seq<char> {
    match second_word(request_line) {
        Some(path) => "http://localhost"@ + path,
        None => "http://localhost"@,
    }
}

/// The authorization code that a request brings, empty where it brings none: a request with a
/// body brings none.
pub open spec fn code_of(r: CallbackRequestView, expected_state: Seq<char>) -> Seq<char> {
    if r.content_length > 0 {
        Seq::empty()
    } else {
        match url_query(requested_url(r.request_line)) {
            Some(pairs) => match code_in(pairs, expected_state) {
                Some(code) => code,
                None => Seq::empty(),
            },
            None => Seq::empty(),
        }
    }
}

/// The answer to a request that brings the given authorization code, empty where it brings none.
pub open spec fn response_to(code: Seq<char>) -> Seq<char> {
    if code.len() > 0 {
        ACCEPTED_RESPONSE@
    } else {
        REFUSED_RESPONSE@
    }
}

/// What to do about a request: what to answer, and the authorization code where it brings one.
/// Without a code the wait goes on.
#[derive(Debug)]
pub struct CallbackReply {
    pub response: &'static str,
    pub code: Option<String>,
}

/// What to do about a request that brings the given authorization code, empty where none.
pub fn callback_reply(code: String) -> (r: CallbackReply)
    ensures
        r.response@ == response_to(code@),
        opt_text(r.code) == (if code@.len() > 0 {
            Some(code@)
        } else {
            None
        }),
{
    if code.as_str().is_empty() {
        CallbackReply { response: REFUSED_RESPONSE, code: None }
    } else {
        CallbackReply { response: ACCEPTED_RESPONSE, code: Some(code) }
    }
}

impl CallbackRequest {
    /// The head before anything has been read.
    pub fn new() -> (r: CallbackRequest)
        ensures
            r@ == blank_request(),
    {
        CallbackRequest { request_line: String::new(), content_length: 0 }
    }

    /// Adds a line to the head, and says whether it ends the head.
    pub fn add_line(&mut self, line: &str) -> (ended: bool)
        ensures
            final(self)@ == with_line(old(self)@, line@),
            ended == ends_head(old(self)@, line@),
    {
        if self.request_line.as_str().is_empty() {
            self.request_line = line.to_owned();
            return false;
        }
        if starts_ignoring_case(line, CONTENT_LENGTH) {
            let from: usize = CONTENT_LENGTH.unicode_len();
            if let Some(n) = read_usize_from(line, from) {
                self.content_length = n;
            }
        }
        line.is_empty()
    }

    /// The authorization code that the request brings, empty where it brings none.
    pub fn authorization_code(&self, expected_state: &str) -> (r: String)
        ensures
            r@ == code_of(self@, expected_state@),
    {
        if self.content_length > 0 {
            return String::new();
        }
        let url = match read_second_word(self.request_line.as_str()) {
            Some(path) => "http://localhost".to_owned().concat(path.as_str()),
            None => "http://localhost".to_owned(),
        };
        match url_query_pairs(url.as_str()) {
            Some(pairs) => match code_in_query(&pairs, expected_state) {
                Some(code) => code,
                None => String::new(),
            },
            None => String::new(),
        }
    }

    /// What to do about the request.
    pub fn reply(&self, expected_state: &str) -> (r: CallbackReply)
        ensures
            r.response@ == response_to(code_of(self@, expected_state@)),
            opt_text(r.code) == (if code_of(self@, expected_state@).len() > 0 {
                Some(code_of(self@, expected_state@))
            } else {
                None
            }),
    {
        callback_reply(self.authorization_code(expected_state))
    }
}

/// A code is taken only from a request without a body whose query names the expected state, and
/// it is the code that the query names.
pub proof fn codes_come_with_the_expected_state(
    r: CallbackRequestView,
    expected_state: Seq<char>,
)
    requires
        code_of(r, expected_state).len() > 0,
    ensures
        r.content_length == 0,
        url_query(requested_url(r.request_line)) matches Some(pairs) && {
            &&& first_value(pairs, "state"@) == Some(expected_state)
            &&& first_value(pairs, "code"@) == Some(code_of(r, expected_state))
        },
{
}

/// A request whose query names another state, or none, brings no code and is refused.
pub proof fn other_states_are_refused(
    r: CallbackRequestView,
    expected_state: Seq<char>,
    pairs: Seq<(Seq<char>, Seq<char>)>,
)
    requires
        url_query(requested_url(r.request_line)) == Some(pairs),
        first_value(pairs, "state"@) != Some(expected_state),
    ensures
        code_of(r, expected_state).len() == 0,
        response_to(code_of(r, expected_state)) == REFUSED_RESPONSE@,
{
}

/// The code that a wait over a row of requests delivers: that of the first request that brings
/// one, and none while no request has.
pub open spec fn delivered_code(
    requests: Seq<CallbackRequestView>,
    expected_state: Seq<char>,
) -> Option<Seq<char>>
    decreases requests.len(),
{
    if requests.len() == 0 {
        None
    } else if code_of(requests[0], expected_state).len() > 0 {
        Some(code_of(requests[0], expected_state))
    } else {
        delivered_code(requests.drop_first(), expected_state)
    }
}

/// A wait delivers the code of the earliest request that brings one; every request before it,
/// such as the redirect of a stale browser tab, is refused and changes nothing.
pub proof fn the_earliest_code_is_delivered(
    requests: Seq<CallbackRequestView>,
    expected_state: Seq<char>,
    k: int,
)
    requires
        0 <= k < requests.len(),
        code_of(requests[k], expected_state).len() > 0,
        forall|i: int| 0 <= i < k ==> code_of(#[trigger] requests[i], expected_state).len() == 0,
    ensures
        delivered_code(requests, expected_state) == Some(code_of(requests[k], expected_state)),
        response_to(code_of(requests[k], expected_state)) == ACCEPTED_RESPONSE@,
        forall|i: int|
            0 <= i < k ==> response_to(code_of(#[trigger] requests[i], expected_state))
                == REFUSED_RESPONSE@,
    decreases requests.len(),
{
    if k > 0 {
        assert(code_of(requests[0], expected_state).len() == 0);
        let rest = requests.drop_first();
        assert forall|i: int| 0 <= i < k - 1 implies code_of(
            #[trigger] rest[i],
            expected_state,
        ).len() == 0 by {
            assert(rest[i] == requests[i + 1]);
        }
        the_earliest_code_is_delivered(rest, expected_state, k - 1);
    }
}

/// A wait goes on exactly as long as no request has brought a code; what it delivers is never
/// empty, and comes from a request whose query names the expected state.
pub proof fn waits_end_with_the_expected_state(
    requests: Seq<CallbackRequestView>,
    expected_state: Seq<char>,
)
    ensures
        delivered_code(requests, expected_state) is None <==> forall|i: int|
            0 <= i < requests.len() ==> code_of(#[trigger] requests[i], expected_state).len() == 0,
        delivered_code(requests, expected_state) matches Some(code) ==> {
            &&& code.len() > 0
            &&& exists|k: int|
                {
                    &&& 0 <= k < requests.len()
                    &&& code_of(#[trigger] requests[k], expected_state) == code
                    &&& url_query(requested_url(requests[k].request_line)) matches Some(pairs)
                    &&& first_value(pairs, "state"@) == Some(expected_state)
                    &&& first_value(pairs, "code"@) == Some(code)
                }
        },
    decreases requests.len(),
{
    if requests.len() > 0 {
        let rest = requests.drop_first();
        waits_end_with_the_expected_state(rest, expected_state);
        if code_of(requests[0], expected_state).len() == 0 {
            assert forall|i: int| 0 <= i < rest.len() implies #[trigger] rest[i] == requests[i
                + 1] by {}
            assert forall|i: int| 0 < i < requests.len() implies #[trigger] requests[i] == rest[i
                - 1] by {}
            if let Some(code) = delivered_code(rest, expected_state) {
                let k = choose|k: int|
                    0 <= k < rest.len() && code_of(#[trigger] rest[k], expected_state) == code
                        && (url_query(requested_url(rest[k].request_line)) matches Some(pairs)
                        && first_value(pairs, "state"@) == Some(expected_state)
                        && first_value(pairs, "code"@) == Some(code));
                assert(code_of(requests[k + 1], expected_state) == code);
            }
        } else {
            assert(code_of(requests[0], expected_state).len() > 0);
        }
    }
}

/// The request line of a head is its first line that is not empty.
pub proof fn request_line_is_the_first_line(lines: Seq<Seq<char>>, k: int)
    requires
        0 <= k < lines.len(),
        lines[k].len() > 0,
        forall|i: int| 0 <= i < k ==> (#[trigger] lines[i]).len() == 0,
    ensures
        head_of(lines).request_line == lines[k],
    decreases lines.len(),
{
    if k < lines.len() - 1 {
        request_line_is_the_first_line(lines.drop_last(), k);
    } else {
        empty_lines_are_skipped(lines.drop_last());
    }
}

/// Empty lines before the request line count for nothing.
pub proof fn empty_lines_are_skipped(lines: Seq<Seq<char>>)
    requires
        forall|i: int| 0 <= i < lines.len() ==> (#[trigger] lines[i]).len() == 0,
    ensures
        head_of(lines).request_line.len() == 0,
        head_of(lines).content_length == 0,
    decreases lines.len(),
{
    if lines.len() > 0 {
        empty_lines_are_skipped(lines.drop_last());
    }
}

/// Of several header lines that give the length of the body the last one counts.
pub proof fn the_last_length_counts(lines: Seq<Seq<char>>, k: int, n: usize)
    requires
        0 <= k < lines.len(),
        head_of(lines.take(k)).request_line.len() > 0,
        body_length(lines[k]) == Some(n),
        forall|i: int| k < i < lines.len() ==> body_length(#[trigger] lines[i]) is None,
    ensures
        head_of(lines).content_length == n,
        head_of(lines).request_line == head_of(lines.take(k)).request_line,
    decreases lines.len(),
{
    if k < lines.len() - 1 {
        assert(lines.drop_last().take(k) =~= lines.take(k));
        the_last_length_counts(lines.drop_last(), k, n);
    } else {
        assert(lines.drop_last() =~= lines.take(k));
    }
}

} // verus!
