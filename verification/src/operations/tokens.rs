//! Tokens: the forms that ask for them, what the replies come to, and what is kept of them.
use crate::http::{Body, HttpRequest, Method, Status};
use crate::operations::text::{decimals_are_written, encoded_bytes, query_symbols, writes};
use crate::pkce::{challenge_of, is_code_verifier, is_state};
use crate::text::pair_texts;
use crate::tokens::{
    build_token_body, debug_display, exchange_request, param_texts, place_of, refresh_request,
    token_body, token_reply, token_result, with_pair, AuthError, AuthState, Authorization,
    Endpoint, Grant, TokenReply, TokenResponse,
};
use vstd::prelude::*;
use vstd::utf8::encode_utf8;

verus! {

/// Whether a parameter counts: it has a value, and none of the later parameters with its name
/// has one.
pub open spec fn counts(
    params: Seq<(Seq<char>, Seq<char>)>,
    name: Seq<char>,
    value: Seq<char>,
) -> bool {
    &&& value.len() > 0
    &&& exists|k: int|
        {
            &&& 0 <= k < params.len()
            &&& #[trigger] params[k] == (name, value)
            &&& forall|l: int|
                k < l < params.len() && (#[trigger] params[l]).0 == name ==> params[l].1.len() == 0
        }
}

/// Whether a form says that a name has a value.
pub open spec fn says(
    pairs: Seq<(Seq<char>, Seq<char>)>,
    name: Seq<char>,
    value: Seq<char>,
) -> bool {
    exists|i: int| 0 <= i < pairs.len() && #[trigger] pairs[i] == (name, value)
}

/// Whether no name stands twice in a form.
pub open spec fn each_name_once(pairs: Seq<(Seq<char>, Seq<char>)>) -> bool {
    forall|i: int, j: int|
        0 <= i < j < pairs.len() ==> (#[trigger] pairs[i]).0 != (#[trigger] pairs[j]).0
}

proof fn placed(pairs: Seq<(Seq<char>, Seq<char>)>, name: Seq<char>)
    ensures
        -1 <= place_of(pairs, name) < pairs.len(),
        place_of(pairs, name) >= 0 ==> pairs[place_of(pairs, name)].0 == name,
        forall|i: int|
            place_of(pairs, name) < i < pairs.len() ==> (#[trigger] pairs[i]).0 != name,
    decreases pairs.len(),
{
    if pairs.len() > 0 && pairs.last().0 != name {
        let rest = pairs.drop_last();
        placed(rest, name);
        assert forall|i: int| place_of(pairs, name) < i < pairs.len() implies (
        #[trigger] pairs[i]).0 != name by {
            if i < rest.len() {
                assert(rest[i] == pairs[i]);
            }
        }
    }
}

proof fn one_pair_more(
    pairs: Seq<(Seq<char>, Seq<char>)>,
    p: (Seq<char>, Seq<char>),
    name: Seq<char>,
    value: Seq<char>,
)
    requires
        each_name_once(pairs),
    ensures
        each_name_once(with_pair(pairs, p)),
        says(with_pair(pairs, p), name, value) <==> if name == p.0 {
            value == p.1
        } else {
            says(pairs, name, value)
        },
{
    placed(pairs, p.0);
    let k = place_of(pairs, p.0);
    let after = with_pair(pairs, p);
    let at = if k >= 0 {
        k
    } else {
        pairs.len() as int
    };
    assert(after[at] == p);
    assert forall|i: int, j: int| 0 <= i < j < after.len() implies (#[trigger] after[i]).0 != (
    #[trigger] after[j]).0 by {
        if i != at && j != at {
            assert(pairs[i].0 != pairs[j].0);
        } else if k >= 0 {
            assert(pairs[i].0 != pairs[j].0);
        }
    }
    if says(after, name, value) {
        let i = choose|i: int| 0 <= i < after.len() && #[trigger] after[i] == (name, value);
        if name == p.0 {
            assert(after[i].0 == after[at].0);
            assert(i == at);
        } else {
            assert(pairs[i] == (name, value));
        }
    }
    if name != p.0 && says(pairs, name, value) {
        let i = choose|i: int| 0 <= i < pairs.len() && #[trigger] pairs[i] == (name, value);
        assert(after[i] == (name, value));
    }
}

proof fn forms_say_what_counts(
    params: Seq<(Seq<char>, Seq<char>)>,
    name: Seq<char>,
    value: Seq<char>,
)
    ensures
        each_name_once(token_body(params)),
        says(token_body(params), name, value) <==> counts(params, name, value),
    decreases params.len(),
{
    if params.len() > 0 {
        let rest = params.drop_last();
        let p = params.last();
        let n = params.len() - 1;
        assert(params[n] == p);
        forms_say_what_counts(rest, name, value);
        if p.1.len() > 0 {
            one_pair_more(token_body(rest), p, name, value);
        }
        if counts(rest, name, value) && !(p.1.len() > 0 && p.0 == name) {
            let k = choose|k: int|
                {
                    &&& 0 <= k < rest.len()
                    &&& #[trigger] rest[k] == (name, value)
                    &&& forall|l: int|
                        k < l < rest.len() && (#[trigger] rest[l]).0 == name ==> rest[l].1.len()
                            == 0
                };
            assert(params[k] == (name, value));
            assert forall|l: int| k < l < params.len() && (#[trigger] params[l]).0 == name implies
                params[l].1.len() == 0 by {
                if l < rest.len() {
                    assert(rest[l] == params[l]);
                }
            }
        }
        if counts(params, name, value) {
            let k = choose|k: int|
                {
                    &&& 0 <= k < params.len()
                    &&& #[trigger] params[k] == (name, value)
                    &&& forall|l: int|
                        k < l < params.len() && (#[trigger] params[l]).0 == name
                            ==> params[l].1.len() == 0
                };
            if k < n {
                assert(rest[k] == (name, value));
                assert forall|l: int| k < l < rest.len() && (#[trigger] rest[l]).0 == name implies
                    rest[l].1.len() == 0 by {
                    assert(rest[l] == params[l]);
                }
            }
        }
    }
}

/// A form has exactly the parameters that have a value, each name once, with the last of its
/// values.
pub proof fn forms_hold_the_last_values(
    params: Vec<(&str, &str)>,
    r: Vec<(String, String)>,
    name: Seq<char>,
    value: Seq<char>,
)
    requires
        call_ensures(build_token_body, (params,), r),
    ensures
        each_name_once(pair_texts(r@)),
        says(pair_texts(r@), name, value) <==> counts(
            Seq::new(params@.len(), |i: int| (params@[i].0@, params@[i].1@)),
            name,
            value,
        ),
{
    forms_say_what_counts(param_texts(params@), name, value);
    assert(param_texts(params@) =~= Seq::new(
        params@.len(),
        |i: int| (params@[i].0@, params@[i].1@),
    ));
}

/// Whether a request posts a form to the token endpoint, and the form has each name once.
pub open spec fn posts_to_the_token_endpoint(r: HttpRequest) -> bool {
    &&& r.method == Method::Post
    &&& r.url@ == "https://apis.indeed.com/oauth/v2/tokens"@
    &&& r.headers@.len() == 0
    &&& r.timeout_secs is None
    &&& r.body matches Body::Form(pairs)
    &&& each_name_once(pair_texts(pairs@))
}

/// Whether the form of a request says that a name has a value.
pub open spec fn form_says(r: HttpRequest, name: Seq<char>, value: Seq<char>) -> bool {
    r.body matches Body::Form(pairs) && says(pair_texts(pairs@), name, value)
}

/// Whether a request asks for new tokens with a refresh token, under the name of a client.
pub open spec fn asks_to_refresh(
    r: HttpRequest,
    refresh_token: Seq<char>,
    client_id: Seq<char>,
) -> bool {
    &&& posts_to_the_token_endpoint(r)
    &&& forall|name: Seq<char>, value: Seq<char>| #[trigger]
        form_says(r, name, value) <==> {
            &&& value.len() > 0
            &&& {
                ||| (name, value) == ("grant_type"@, "refresh_token"@)
                ||| (name, value) == ("refresh_token"@, refresh_token)
                ||| (name, value) == ("client_id"@, client_id)
            }
        }
}

/// Whether a request exchanges an authorization code for tokens, under the name of a client.
pub open spec fn asks_to_exchange(
    r: HttpRequest,
    code: Seq<char>,
    code_verifier: Seq<char>,
    client_id: Seq<char>,
) -> bool {
    &&& posts_to_the_token_endpoint(r)
    &&& forall|name: Seq<char>, value: Seq<char>| #[trigger]
        form_says(r, name, value) <==> {
            &&& value.len() > 0
            &&& {
                ||| (name, value) == ("grant_type"@, "authorization_code"@)
                ||| (name, value) == ("code"@, code)
                ||| (name, value) == ("redirect_uri"@, "http://127.0.0.1:19876/callback"@)
                ||| (name, value) == ("code_verifier"@, code_verifier)
                ||| (name, value) == ("client_id"@, client_id)
            }
        }
}

proof fn counting_distinct(
    params: Seq<(Seq<char>, Seq<char>)>,
    name: Seq<char>,
    value: Seq<char>,
)
    requires
        each_name_once(params),
    ensures
        counts(params, name, value) <==> value.len() > 0 && says(params, name, value),
{
    if says(params, name, value) && value.len() > 0 {
        let k = choose|k: int| 0 <= k < params.len() && #[trigger] params[k] == (name, value);
        assert forall|l: int| k < l < params.len() && (#[trigger] params[l]).0 == name implies
            params[l].1.len() == 0 by {
            assert(params[k].0 != params[l].0);
        }
    }
}

pub(crate) proof fn refresh_forms(r: HttpRequest, refresh_token: Seq<char>, client_id: Seq<char>)
    requires
        r@ == crate::tokens::token_request(
            crate::tokens::refresh_params(refresh_token, client_id),
        ),
    ensures
        asks_to_refresh(r, refresh_token, client_id),
{
    reveal_strlit("grant_type");
    reveal_strlit("refresh_token");
    reveal_strlit("client_id");
    let params = crate::tokens::refresh_params(refresh_token, client_id);
    assert("grant_type"@.len() == 10 && "refresh_token"@.len() == 13 && "client_id"@.len() == 9);
    assert(pair_texts(r.headers@).len() == r.headers@.len());
    forms_say_what_counts(params, Seq::empty(), Seq::empty());
    assert forall|name: Seq<char>, value: Seq<char>| #[trigger]
        form_says(r, name, value) <==> {
            &&& value.len() > 0
            &&& {
                ||| (name, value) == ("grant_type"@, "refresh_token"@)
                ||| (name, value) == ("refresh_token"@, refresh_token)
                ||| (name, value) == ("client_id"@, client_id)
            }
        } by {
        forms_say_what_counts(params, name, value);
        counting_distinct(params, name, value);
        assert(params[0] == ("grant_type"@, "refresh_token"@));
        assert(params[1] == ("refresh_token"@, refresh_token));
        assert(params[2] == ("client_id"@, client_id));
    }
}

pub(crate) proof fn exchange_forms(
    r: HttpRequest,
    code: Seq<char>,
    code_verifier: Seq<char>,
    client_id: Seq<char>,
)
    requires
        r@ == crate::tokens::token_request(
            crate::tokens::exchange_params(code, code_verifier, client_id),
        ),
    ensures
        asks_to_exchange(r, code, code_verifier, client_id),
{
    reveal_strlit("grant_type");
    reveal_strlit("code");
    reveal_strlit("redirect_uri");
    reveal_strlit("code_verifier");
    reveal_strlit("client_id");
    let params = crate::tokens::exchange_params(code, code_verifier, client_id);
    assert("grant_type"@.len() == 10 && "code"@.len() == 4 && "redirect_uri"@.len() == 12
        && "code_verifier"@.len() == 13 && "client_id"@.len() == 9);
    assert(pair_texts(r.headers@).len() == r.headers@.len());
    forms_say_what_counts(params, Seq::empty(), Seq::empty());
    assert forall|name: Seq<char>, value: Seq<char>| #[trigger]
        form_says(r, name, value) <==> {
            &&& value.len() > 0
            &&& {
                ||| (name, value) == ("grant_type"@, "authorization_code"@)
                ||| (name, value) == ("code"@, code)
                ||| (name, value) == ("redirect_uri"@, "http://127.0.0.1:19876/callback"@)
                ||| (name, value) == ("code_verifier"@, code_verifier)
                ||| (name, value) == ("client_id"@, client_id)
            }
        } by {
        forms_say_what_counts(params, name, value);
        counting_distinct(params, name, value);
        assert(params[0] == ("grant_type"@, "authorization_code"@));
        assert(params[1] == ("code"@, code));
        assert(params[2] == ("redirect_uri"@, "http://127.0.0.1:19876/callback"@));
        assert(params[3] == ("code_verifier"@, code_verifier));
        assert(params[4] == ("client_id"@, client_id));
    }
}

/// A refresh shows the refresh token, and the name of the client, and nothing else.
pub proof fn refreshes_show_the_refresh_token(refresh_token: &str, client_id: &str, r: HttpRequest)
    requires
        call_ensures(refresh_request, (refresh_token, client_id), r),
    ensures
        asks_to_refresh(r, refresh_token@, client_id@),
{
    refresh_forms(r, refresh_token@, client_id@);
}

/// An exchange shows the code, the secret, where the redirect went and the name of the client,
/// and nothing else.
pub proof fn exchanges_show_code_and_secret(
    code: &str,
    code_verifier: &str,
    client_id: &str,
    r: HttpRequest,
)
    requires
        call_ensures(exchange_request, (code, code_verifier, client_id), r),
    ensures
        asks_to_exchange(r, code@, code_verifier@, client_id@),
{
    exchange_forms(r, code@, code_verifier@, client_id@);
}

/// What the token endpoint sends counts as an answer exactly where the status is in the two
/// hundreds and it could be read; any other status refuses, with the status and the text.
pub proof fn only_success_is_an_answer(
    status: Status,
    body: String,
    parsed: Option<TokenResponse>,
    r: TokenReply,
)
    requires
        call_ensures(token_reply, (status, body, parsed), r),
    ensures
        status@ / 100 == 2 ==> match parsed {
            Some(t) => r matches TokenReply::Answered(a) && a@ == t@,
            None => r is Malformed,
        },
        status@ / 100 != 2 ==> (r matches TokenReply::Refused { status: s, body: b } && s@
            == status@ && b@ == body@),
{
}

/// Tokens come exactly from an answer that names no error, and they are those of the answer;
/// anything else is the error that says what happened, and to which of the two requests.
pub proof fn tokens_come_from_answers_without_error(
    grant: Grant,
    reply: TokenReply,
    r: Result<TokenResponse, AuthError>,
)
    requires
        call_ensures(token_result, (grant, reply), r),
    ensures
        match reply {
            TokenReply::Answered(t) => match t.error {
                None => r matches Ok(a) && a@ == t@,
                Some(error) => {
                    &&& r matches Err(AuthError::Denied { grant: g, error: e, description: d })
                    &&& g == grant
                    &&& e@ == error@
                    &&& match (t.error_description, d) {
                        (Some(a), Some(b)) => a@ == b@,
                        (None, None) => true,
                        _ => false,
                    }
                },
            },
            TokenReply::SendFailed => r matches Err(AuthError::SendFailed(Endpoint::Token(g))) && g
                == grant,
            TokenReply::Malformed => r matches Err(AuthError::Malformed(Endpoint::Token(g))) && g
                == grant,
            TokenReply::Refused { status, body } => {
                &&& r matches Err(
                    AuthError::Refused { endpoint: Endpoint::Token(g), status: s, body: b },
                )
                &&& g == grant
                &&& s@ == status@
                &&& b@ == body@
            },
        },
{
}

/// Whether an optional text is the given one.
pub open spec fn is_text(o: Option<String>, s: Seq<char>) -> bool {
    o matches Some(t) && t@ == s
}

/// Whether two optional texts are the same.
pub open spec fn same_option(a: Option<String>, b: Option<String>) -> bool {
    match (a, b) {
        (Some(s), Some(t)) => s@ == t@,
        (None, None) => true,
        _ => false,
    }
}

/// Whichever request brought the answer, the state that takes it over has the new access token,
/// which expires its lifetime after the answer came, and never where the answer gives none.
pub proof fn new_tokens_expire_after_their_lifetime(
    state: &mut AuthState,
    grant: Grant,
    t: TokenResponse,
    now: u64,
)
    requires
        call_ensures(AuthState::take_tokens, (state, grant, t, now), ()),
        t.expires_in matches Some(n) ==> now + n <= u64::MAX,
    ensures
        is_text(final(state).access_token, t.access_token@),
        match t.expires_in {
            Some(n) => final(state).expires_at matches Some(at) && at - now == n,
            None => final(state).expires_at is None,
        },
{
}

/// The state keeps the name of its client, and its scope unless the answer names another.
pub proof fn new_tokens_leave_the_client(
    state: &mut AuthState,
    grant: Grant,
    t: TokenResponse,
    now: u64,
)
    requires
        call_ensures(AuthState::take_tokens, (state, grant, t, now), ()),
    ensures
        final(state).client_id@ == old(state).client_id@,
        match t.scope {
            Some(s) => is_text(final(state).scope, s@),
            None => same_option(final(state).scope, old(state).scope),
        },
{
}

/// A refresh token that the answer brings replaces the old one. Where it brings none, the old
/// one stays after a refresh, and there is none after an exchange.
pub proof fn refresh_tokens_are_replaced(
    state: &mut AuthState,
    grant: Grant,
    t: TokenResponse,
    now: u64,
)
    requires
        call_ensures(AuthState::take_tokens, (state, grant, t, now), ()),
    ensures
        match t.refresh_token {
            Some(s) => is_text(final(state).refresh_token, s@),
            None => match grant {
                Grant::Refresh => same_option(
                    final(state).refresh_token,
                    old(state).refresh_token,
                ),
                Grant::Exchange => final(state).refresh_token is None,
            },
        },
{
}

/// Any answer whose time of expiry can be told can be taken over.
pub proof fn every_answer_can_be_taken_over(
    state: &mut AuthState,
    grant: Grant,
    t: TokenResponse,
    now: u64,
)
    requires
        t.expires_in matches Some(n) ==> now + n <= u64::MAX,
    ensures
        call_requires(AuthState::take_tokens, (state, grant, t, now)),
{
}

/// Whether a state is the one with which an authorization begins.
pub open spec fn is_draft(s: AuthState, client_id: Seq<char>) -> bool {
    &&& s.client_id@ == client_id
    &&& s.access_token is None
    &&& s.refresh_token is None
    &&& s.expires_at is None
    &&& is_text(s.scope, "job_seeker.jobs.search offline_access"@)
}

/// An authorization begins with the name of the client and what it asks for, and no token.
pub proof fn drafts_hold_no_token(client_id: &str, r: AuthState)
    requires
        call_ensures(AuthState::draft, (client_id,), r),
    ensures
        is_draft(r, client_id@),
{
}

/// The address at which a client asks for authorization, with a challenge and a state.
pub open spec fn address(client_id: Seq<char>, challenge: Seq<char>, state: Seq<char>) -> Seq<char> {
    "https://secure.indeed.com/oauth/v2/authorize"@ + "?response_type=code&client_id="@
        + query_symbols(encode_utf8(client_id)) + "&redirect_uri="@ + query_symbols(
        encode_utf8("http://127.0.0.1:19876/callback"@),
    ) + "&code_challenge="@ + challenge + "&code_challenge_method=S256&state="@ + state
        + "&scope="@ + query_symbols(encode_utf8("job_seeker.jobs.search offline_access"@))
}

pub(crate) proof fn addresses(client_id: Seq<char>, challenge: Seq<char>, state: Seq<char>)
    ensures
        crate::tokens::authorization_url(client_id, challenge, state) == address(
            client_id,
            challenge,
            state,
        ),
{
    encoded_bytes(encode_utf8(client_id));
    encoded_bytes(encode_utf8("http://127.0.0.1:19876/callback"@));
    encoded_bytes(encode_utf8("job_seeker.jobs.search offline_access"@));
}

/// An authorization keeps its secrets, and the address it opens carries the name of the client,
/// the challenge of the secret and the state.
pub proof fn authorizations_open_their_own_address(
    client_id: &str,
    code_verifier: String,
    state: String,
    r: Authorization,
)
    requires
        call_ensures(Authorization::with_secrets, (client_id, code_verifier, state), r),
    ensures
        r@.client_id == client_id@,
        r@.code_verifier == code_verifier@,
        r@.state == state@,
        r@.url == address(client_id@, challenge_of(code_verifier@), state@),
{
    addresses(client_id@, challenge_of(code_verifier@), state@);
}

/// A drawn authorization opens the address that goes with the client and its own secrets.
pub proof fn drawn_authorizations_open_their_own_address(client_id: &str, r: Authorization)
    requires
        call_ensures(Authorization::begin, (client_id,), r),
    ensures
        r@.client_id == client_id@,
        r@.url == address(client_id@, challenge_of(r@.code_verifier), r@.state),
        is_code_verifier(r@.code_verifier),
        is_state(r@.state),
{
    addresses(client_id@, challenge_of(r@.code_verifier), r@.state);
}

/// What can be asked of an authorization is what it holds.
pub proof fn authorizations_show_what_they_hold(
    a: &Authorization,
    url: &str,
    state: &str,
    code_verifier: &str,
    client_id: &str,
)
    requires
        call_ensures(Authorization::url, (a,), url),
        call_ensures(Authorization::state, (a,), state),
        call_ensures(Authorization::code_verifier, (a,), code_verifier),
        call_ensures(Authorization::client_id, (a,), client_id),
    ensures
        a@.url == url@,
        a@.state == state@,
        a@.code_verifier == code_verifier@,
        a@.client_id == client_id@,
        url@ == address(client_id@, challenge_of(code_verifier@), state@),
{
    addresses(client_id@, challenge_of(code_verifier@), state@);
}

/// Whether a message says which request failed, the status with its number and its name, and
/// what came with it.
pub open spec fn tells_refusal(
    message: Seq<char>,
    head: Seq<char>,
    status: u16,
    body: Seq<char>,
) -> bool {
    exists|number: Seq<char>|
        {
            &&& #[trigger] writes(number, status as int)
            &&& message == head + number + " "@ + crate::http::status_name(status) + " - "@ + body
        }
}

/// Every error has its words, and they carry what the error carries.
pub proof fn errors_say_what_happened(e: &AuthError, r: String)
    requires
        call_ensures(AuthError::message, (e,), r),
    ensures
        match *e {
            AuthError::NoAccessToken => r@ == "No access token available"@,
            AuthError::NoRefreshToken => r@ == "No refresh token available"@,
            AuthError::EncodeState { message } => r@ == message@,
            AuthError::WriteState => r@ == "Failed to write auth state"@,
            AuthError::CallbackLost => r@ == "Failed to receive OAuth callback"@,
            AuthError::SendFailed(endpoint) => r@ == (match endpoint {
                Endpoint::Token(Grant::Refresh) => "Failed to send token refresh request"@,
                Endpoint::Token(Grant::Exchange) => "Failed to send token exchange request"@,
                Endpoint::Registration => "Failed to send DCR request"@,
            }),
            AuthError::Malformed(endpoint) => r@ == (match endpoint {
                Endpoint::Token(Grant::Refresh) => "Failed to parse token refresh response"@,
                Endpoint::Token(Grant::Exchange) => "Failed to parse token exchange response"@,
                Endpoint::Registration => "Failed to parse DCR response"@,
            }),
            AuthError::Refused { endpoint, status, body } => tells_refusal(
                r@,
                match endpoint {
                    Endpoint::Token(Grant::Refresh) => "Token refresh failed: HTTP "@,
                    Endpoint::Token(Grant::Exchange) => "Token exchange failed: HTTP "@,
                    Endpoint::Registration => "DCR registration failed: HTTP "@,
                },
                status@,
                body@,
            ),
            AuthError::Denied { grant, error, description } => r@ == (match grant {
                Grant::Refresh => "Token refresh error: "@,
                Grant::Exchange => "Token exchange error: "@,
            }) + error@ + " - "@ + (match description {
                Some(s) => "Some("@ + debug_display(s@) + ")"@,
                None => "None"@,
            }),
        },
{
    if let AuthError::Refused { endpoint, status, body } = *e {
        let number = crate::text::decimal(status@ as nat);
        decimals_are_written(status@ as nat);
        let head = match endpoint {
            Endpoint::Token(Grant::Refresh) => "Token refresh failed: HTTP "@,
            Endpoint::Token(Grant::Exchange) => "Token exchange failed: HTTP "@,
            Endpoint::Registration => "DCR registration failed: HTTP "@,
        };
        assert(r@ =~= head + number + " "@ + crate::http::status_name(status@) + " - "@ + body@);
        assert(writes(number, status@ as int));
    }
}

/// The copy of a state holds what the state holds.
pub proof fn copies_of_states_hold_the_same(s: &AuthState, r: AuthState)
    requires
        call_ensures(AuthState::clone, (s,), r),
    ensures
        r.client_id@ == s.client_id@,
        same_option(r.access_token, s.access_token),
        same_option(r.refresh_token, s.refresh_token),
        r.expires_at == s.expires_at,
        same_option(r.scope, s.scope),
{
}

/// Every reply, every error and every text is taken; a secret only has to be short enough for its
/// digest.
pub proof fn every_reply_is_taken(
    params: Vec<(&str, &str)>,
    a: &str,
    b: &str,
    c: &str,
    status: Status,
    body: String,
    parsed: Option<TokenResponse>,
    grant: Grant,
    reply: TokenReply,
    code_verifier: String,
    state: String,
    e: &AuthError,
    authorization: &Authorization,
)
    ensures
        call_requires(build_token_body, (params,)),
        call_requires(refresh_request, (a, b)),
        call_requires(exchange_request, (a, b, c)),
        call_requires(token_reply, (status, body, parsed)),
        call_requires(token_result, (grant, reply)),
        call_requires(AuthState::draft, (a,)),
        call_requires(AuthError::message, (e,)),
        call_requires(Authorization::begin, (a,)),
        call_requires(Authorization::url, (authorization,)),
        call_requires(Authorization::state, (authorization,)),
        call_requires(Authorization::code_verifier, (authorization,)),
        call_requires(Authorization::client_id, (authorization,)),
        encode_utf8(code_verifier@).len() < 0x2000_0000_0000_0000 ==> call_requires(
            Authorization::with_secrets,
            (a, code_verifier, state),
        ),
{
}

} // verus!
