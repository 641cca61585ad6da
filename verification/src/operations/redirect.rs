//! The redirect of an authorization: reading the head of its request, and answering it.
use crate::callback::{
    callback_reply, code_in_query, first_value, url_query, CallbackReply, CallbackRequest,
};
use crate::operations::text::{
    at_most_one_word, bare, beginnings, begins_with_name, blank, in_lower_case, named_number,
    no_second_word, numbers_in_texts, parts_of_line, second_words, trimming,
};
use crate::text::pair_texts;
use vstd::prelude::*;

verus! {

/// Whether the given place holds the first pair with the given name.
pub open spec fn first_named(
    pairs: Seq<(Seq<char>, Seq<char>)>,
    name: Seq<char>,
    i: int,
) -> bool {
    &&& 0 <= i < pairs.len()
    &&& pairs[i].0 == name
    &&& forall|k: int| 0 <= k < i ==> (#[trigger] pairs[k]).0 != name
}

/// Whether no pair has the given name.
pub open spec fn not_named(pairs: Seq<(Seq<char>, Seq<char>)>, name: Seq<char>) -> bool {
    forall|k: int| 0 <= k < pairs.len() ==> (#[trigger] pairs[k]).0 != name
}

pub(crate) proof fn first_values(pairs: Seq<(Seq<char>, Seq<char>)>, name: Seq<char>, i: int)
    requires
        first_named(pairs, name, i),
    ensures
        first_value(pairs, name) == Some(pairs[i].1),
    decreases i,
{
    if i > 0 {
        let rest = pairs.drop_first();
        assert(pairs[0].0 != name);
        assert forall|k: int| 0 <= k < i - 1 implies (#[trigger] rest[k]).0 != name by {
            assert(rest[k] == pairs[k + 1]);
        }
        assert(rest[i - 1] == pairs[i]);
        first_values(rest, name, i - 1);
    }
}

pub(crate) proof fn no_value(pairs: Seq<(Seq<char>, Seq<char>)>, name: Seq<char>)
    requires
        not_named(pairs, name),
    ensures
        first_value(pairs, name) is None,
    decreases pairs.len(),
{
    if pairs.len() > 0 {
        let rest = pairs.drop_first();
        assert(pairs[0].0 != name);
        assert forall|k: int| 0 <= k < rest.len() implies (#[trigger] rest[k]).0 != name by {
            assert(rest[k] == pairs[k + 1]);
        }
        no_value(rest, name);
    }
}

proof fn named_or_not(pairs: Seq<(Seq<char>, Seq<char>)>, name: Seq<char>) -> (i: int)
    ensures
        i < 0 ==> not_named(pairs, name),
        i >= 0 ==> first_named(pairs, name, i),
    decreases pairs.len(),
{
    if pairs.len() == 0 {
        -1
    } else {
        let rest = pairs.drop_last();
        let i = named_or_not(rest, name);
        let last = pairs.len() - 1;
        if i >= 0 {
            assert(rest[i] == pairs[i]);
            assert forall|k: int| 0 <= k < i implies (#[trigger] pairs[k]).0 != name by {
                assert(rest[k] == pairs[k]);
            }
            i
        } else {
            assert forall|k: int| 0 <= k < last implies (#[trigger] pairs[k]).0 != name by {
                assert(rest[k] == pairs[k]);
            }
            if pairs[last].0 == name {
                last
            } else {
                -1
            }
        }
    }
}

/// Whether a query brings a code: its first `state` is the expected one, and the code is the
/// value of its first `code`, wherever among the pairs the two stand.
pub open spec fn brings(
    pairs: Seq<(Seq<char>, Seq<char>)>,
    expected_state: Seq<char>,
    code: Seq<char>,
) -> bool {
    exists|i: int, j: int|
        {
            &&& #[trigger] first_named(pairs, "state"@, i)
            &&& #[trigger] first_named(pairs, "code"@, j)
            &&& pairs[i].1 == expected_state
            &&& pairs[j].1 == code
        }
}

pub(crate) proof fn codes_in_queries(
    pairs: Seq<(Seq<char>, Seq<char>)>,
    expected_state: Seq<char>,
)
    ensures
        match crate::callback::code_in(pairs, expected_state) {
            Some(code) => brings(pairs, expected_state, code),
            None => forall|code: Seq<char>| !#[trigger] brings(pairs, expected_state, code),
        },
        forall|code: Seq<char>| #[trigger]
            brings(pairs, expected_state, code) ==> crate::callback::code_in(pairs, expected_state)
                == Some(code),
{
    let i = named_or_not(pairs, "state"@);
    let j = named_or_not(pairs, "code"@);
    if i >= 0 {
        first_values(pairs, "state"@, i);
    } else {
        no_value(pairs, "state"@);
    }
    if j >= 0 {
        first_values(pairs, "code"@, j);
    } else {
        no_value(pairs, "code"@);
    }
    assert forall|code: Seq<char>| #[trigger] brings(pairs, expected_state, code) implies
        crate::callback::code_in(pairs, expected_state) == Some(code) by {
        let (a, b) = choose|a: int, b: int|
            {
                &&& #[trigger] first_named(pairs, "state"@, a)
                &&& #[trigger] first_named(pairs, "code"@, b)
                &&& pairs[a].1 == expected_state
                &&& pairs[b].1 == code
            };
        first_values(pairs, "state"@, a);
        first_values(pairs, "code"@, b);
    }
}

/// The code among the pairs of a query is the value of the first pair named `code`, exactly
/// where the first pair named `state` has the expected value, in whatever order they stand.
pub proof fn codes_are_found_beside_the_state(
    pairs: &Vec<(String, String)>,
    expected_state: &str,
    r: Option<String>,
)
    requires
        call_ensures(code_in_query, (pairs, expected_state), r),
    ensures
        match r {
            Some(code) => brings(pair_texts(pairs@), expected_state@, code@),
            None => forall|code: Seq<char>| !#[trigger]
                brings(pair_texts(pairs@), expected_state@, code),
        },
{
    codes_in_queries(pair_texts(pairs@), expected_state@);
}

/// Whether a request line asks for the given URL: the path that is its second word, on the
/// local host.
pub open spec fn asks_for(line: Seq<char>, url: Seq<char>) -> bool {
    ||| exists|
        lead: Seq<char>,
        first: Seq<char>,
        gap: Seq<char>,
        path: Seq<char>,
        tail: Seq<char>,
    |
        #[trigger] parts_of_line(line, lead, first, gap, path, tail) && url == "http://localhost"@
            + path
    ||| exists|lead: Seq<char>, first: Seq<char>, tail: Seq<char>|
        #[trigger] at_most_one_word(line, lead, first, tail) && url == "http://localhost"@
}

pub(crate) proof fn requested(line: Seq<char>, url: Seq<char>)
    requires
        asks_for(line, url),
    ensures
        crate::callback::requested_url(line) == url,
{
    if exists|
        lead: Seq<char>,
        first: Seq<char>,
        gap: Seq<char>,
        path: Seq<char>,
        tail: Seq<char>,
    |
        #[trigger] parts_of_line(line, lead, first, gap, path, tail) && url == "http://localhost"@
            + path {
        let (lead, first, gap, path, tail) = choose|
            lead: Seq<char>,
            first: Seq<char>,
            gap: Seq<char>,
            path: Seq<char>,
            tail: Seq<char>,
        |
            #[trigger] parts_of_line(line, lead, first, gap, path, tail) && url
                == "http://localhost"@ + path;
        second_words(line, lead, first, gap, path, tail);
    } else {
        let (lead, first, tail) = choose|lead: Seq<char>, first: Seq<char>, tail: Seq<char>|
            #[trigger] at_most_one_word(line, lead, first, tail) && url == "http://localhost"@;
        no_second_word(line, lead, first, tail);
    }
}

/// Whether a request brings the given code: it has no body, it asks for the given URL, and the
/// query of that URL brings the code, which is not empty.
pub open spec fn request_brings(
    request: CallbackRequest,
    url: Seq<char>,
    expected_state: Seq<char>,
    code: Seq<char>,
) -> bool {
    &&& request.content_length == 0
    &&& url_query(url) matches Some(pairs)
    &&& brings(pairs, expected_state, code)
    &&& code.len() > 0
}

/// Whether a reply accepts the given code.
pub open spec fn accepts(reply: CallbackReply, code: Seq<char>) -> bool {
    &&& reply.code matches Some(c)
    &&& c@ == code
    &&& reply.response@
        == "HTTP/1.1 200 OK\r\nContent-Type: text/html\r\nContent-Length: 200\r\nConnection: close\r\n\r\n<!DOCTYPE html><html><body><h1>Authorization Complete!</h1><p>You can close this window and return to the terminal.</p></body></html>"@
}

/// Whether a reply refuses, and so lets the wait go on.
pub open spec fn refuses(reply: CallbackReply) -> bool {
    &&& reply.code is None
    &&& reply.response@
        == "HTTP/1.1 400 Bad Request\r\nContent-Type: text/plain\r\nContent-Length: 21\r\nConnection: close\r\n\r\nNo authorization code found."@
}

/// A request that brings a code beside the expected state is accepted with that code, and any
/// other request is refused.
pub proof fn requests_are_accepted_for_their_code(
    request: &CallbackRequest,
    expected_state: &str,
    url: Seq<char>,
    reply: CallbackReply,
)
    requires
        call_ensures(CallbackRequest::reply, (request, expected_state), reply),
        asks_for(request.request_line@, url),
    ensures
        forall|code: Seq<char>| #[trigger]
            request_brings(*request, url, expected_state@, code) ==> accepts(reply, code),
        (forall|code: Seq<char>| !#[trigger]
            request_brings(*request, url, expected_state@, code)) ==> refuses(reply),
{
    requested(request.request_line@, url);
    if let Some(pairs) = url_query(url) {
        codes_in_queries(pairs, expected_state@);
        if let Some(code) = crate::callback::code_in(pairs, expected_state@) {
            if request.content_length == 0 && code.len() > 0 {
                assert(request_brings(*request, url, expected_state@, code));
            }
        }
    }
}

/// The code of a request is the one that it brings beside the expected state, and empty where it
/// brings none.
pub proof fn requests_have_the_code_they_bring(
    request: &CallbackRequest,
    expected_state: &str,
    url: Seq<char>,
    r: String,
)
    requires
        call_ensures(CallbackRequest::authorization_code, (request, expected_state), r),
        asks_for(request.request_line@, url),
    ensures
        forall|code: Seq<char>| #[trigger]
            request_brings(*request, url, expected_state@, code) ==> r@ == code,
        (forall|code: Seq<char>| !#[trigger]
            request_brings(*request, url, expected_state@, code)) ==> r@.len() == 0,
{
    requested(request.request_line@, url);
    if let Some(pairs) = url_query(url) {
        codes_in_queries(pairs, expected_state@);
        if let Some(code) = crate::callback::code_in(pairs, expected_state@) {
            if request.content_length == 0 && code.len() > 0 {
                assert(request_brings(*request, url, expected_state@, code));
            }
        }
    }
}

/// Whether a request is accepted depends on its length, its line and the expected state alone,
/// and a request that is accepted under one state is refused under every other.
pub proof fn a_request_is_accepted_under_one_state_only(
    request: &CallbackRequest,
    one: &str,
    other: &str,
    url: Seq<char>,
    reply: CallbackReply,
    second: CallbackReply,
)
    requires
        call_ensures(CallbackRequest::reply, (request, one), reply),
        call_ensures(CallbackRequest::reply, (request, other), second),
        asks_for(request.request_line@, url),
        reply.code is Some,
        one@ != other@,
    ensures
        refuses(second),
{
    requested(request.request_line@, url);
}

/// A code that is there is accepted, and an empty one is refused.
pub proof fn codes_are_accepted_where_there_are_any(code: String, r: CallbackReply)
    requires
        call_ensures(callback_reply, (code,), r),
    ensures
        if code@.len() > 0 {
            accepts(r, code@)
        } else {
            refuses(r)
        },
{
}

/// Before anything has been read there is no request line and no body.
pub proof fn heads_begin_empty(r: CallbackRequest)
    requires
        call_ensures(CallbackRequest::new, (), r),
    ensures
        r.request_line@ == Seq::<char>::empty(),
        r.content_length == 0,
{
}

/// While there is no request line, a line becomes it, and does not end the head.
pub proof fn the_first_line_is_the_request_line(
    request: &mut CallbackRequest,
    line: &str,
    ended: bool,
)
    requires
        call_ensures(CallbackRequest::add_line, (request, line), ended),
        old(request).request_line@.len() == 0,
    ensures
        final(request).request_line@ == line@,
        final(request).content_length == old(request).content_length,
        !ended,
{
}

/// Once there is a request line it stays, and exactly an empty line ends the head.
pub proof fn later_lines_leave_the_request_line(
    request: &mut CallbackRequest,
    line: &str,
    ended: bool,
)
    requires
        call_ensures(CallbackRequest::add_line, (request, line), ended),
        old(request).request_line@.len() > 0,
    ensures
        final(request).request_line@ == old(request).request_line@,
        ended == (line@.len() == 0),
{
}

/// A later line that is named `Content-Length:`, in whatever case, gives the length of the body
/// where a number stands after it, whatever white space is around that; otherwise the length
/// stays.
pub proof fn lengths_are_read_from_their_header(
    request: &mut CallbackRequest,
    line: &str,
    lead: Seq<char>,
    core: Seq<char>,
    tail: Seq<char>,
    ended: bool,
)
    requires
        call_ensures(CallbackRequest::add_line, (request, line), ended),
        old(request).request_line@.len() > 0,
        begins_with_name(line@, "content-length:"@),
        line@.skip(15) == lead + core + tail,
        blank(lead),
        bare(core),
        blank(tail),
    ensures
        final(request).content_length == (match named_number(core) {
            Some(n) => if n <= usize::MAX {
                n
            } else {
                old(request).content_length as int
            },
            None => old(request).content_length as int,
        }),
{
    reveal_strlit("content-length:");
    beginnings(line@, "content-length:"@);
    trimming(lead, core, tail);
    numbers_in_texts(core);
}

/// A line with another name leaves the length of the body as it is.
pub proof fn other_headers_leave_the_length(
    request: &mut CallbackRequest,
    line: &str,
    ended: bool,
)
    requires
        call_ensures(CallbackRequest::add_line, (request, line), ended),
        old(request).request_line@.len() > 0,
        !begins_with_name(line@, "content-length:"@),
    ensures
        final(request).content_length == old(request).content_length,
{
    reveal_strlit("content-length:");
    assert(in_lower_case("content-length:"@));
    beginnings(line@, "content-length:"@);
}

/// Every line, every request and every state is taken.
pub proof fn every_request_is_taken(
    request: &mut CallbackRequest,
    other: &CallbackRequest,
    line: &str,
    expected_state: &str,
    pairs: &Vec<(String, String)>,
    code: String,
)
    ensures
        call_requires(CallbackRequest::new, ()),
        call_requires(CallbackRequest::add_line, (request, line)),
        call_requires(CallbackRequest::authorization_code, (other, expected_state)),
        call_requires(CallbackRequest::reply, (other, expected_state)),
        call_requires(code_in_query, (pairs, expected_state)),
        call_requires(callback_reply, (code,)),
{
}

} // verus!
