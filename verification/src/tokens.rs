//! Tokens: what is kept of them, how they are asked for, and what the replies come to.
use crate::callback::REDIRECT_URI;
use crate::form::{form_encode, urlencoding};
use crate::http::{
    status_display, success, Body, BodyView, HttpRequest, HttpRequestView, Method, Status,
};
use crate::pkce::{
    challenge_of, code_verifiers_are_allowed, generate_code_verifier, generate_state,
    is_code_verifier, is_state, sha256_base64url,
};
use crate::text::{copy_opt, opt_text, pair_texts, same_text};
use vstd::prelude::*;
use vstd::utf8::{encode_utf8, is_ascii_chars, is_ascii_chars_encode_utf8};

verus! {

/// What the client asks to be allowed.
pub const SCOPE: &'static str = "job_seeker.jobs.search offline_access";

/// Where the user is asked for authorization.
pub const AUTHORIZE_URL: &'static str = "https://secure.indeed.com/oauth/v2/authorize";

/// Where tokens are given out.
pub const TOKEN_URL: &'static str = "https://apis.indeed.com/oauth/v2/tokens";

/// Where clients are registered.
pub const REGISTER_URL: &'static str = "https://secure.indeed.com/oauth/v2/register";

/// What is kept of an authorization between runs.
#[derive(Debug)]
pub struct AuthState {
    pub client_id: String,
    pub access_token: Option<String>,
    pub refresh_token: Option<String>,
    /// When the access token expires, in seconds since the epoch.
    pub expires_at: Option<u64>,
    pub scope: Option<String>,
}

/// What is kept of an authorization, as its texts.
pub struct AuthStateView {
    pub client_id: Seq<char>,
    pub access_token: Option<Seq<char>>,
    pub refresh_token: Option<Seq<char>>,
    pub expires_at: Option<u64>,
    pub scope: Option<Seq<char>>,
}

impl View for AuthState {
    type V = AuthStateView;

    open spec fn view(&self) -> AuthStateView {
        AuthStateView {
            client_id: self.client_id@,
            access_token: opt_text(self.access_token),
            refresh_token: opt_text(self.refresh_token),
            expires_at: self.expires_at,
            scope: opt_text(self.scope),
        }
    }
}

/// The state with which an authorization begins: no token yet.
pub open spec fn draft_state(client_id: Seq<char>) -> AuthStateView {
    AuthStateView {
        client_id,
        access_token: None,
        refresh_token: None,
        expires_at: None,
        scope: Some(SCOPE@),
    }
}

impl AuthState {
    /// The state with which an authorization begins.
    pub fn draft(client_id: &str) -> (r: AuthState)
        ensures
            r@ == draft_state(client_id@),
    {
        AuthState {
            client_id: client_id.to_owned(),
            access_token: None,
            refresh_token: None,
            expires_at: None,
            scope: Some(SCOPE.to_owned()),
        }
    }
}

impl Clone for AuthState {
    fn clone(&self) -> (r: AuthState)
        ensures
            r@ == self@,
    {
        AuthState {
            client_id: self.client_id.clone(),
            access_token: copy_opt(&self.access_token),
            refresh_token: copy_opt(&self.refresh_token),
            expires_at: self.expires_at,
            scope: copy_opt(&self.scope),
        }
    }
}

/// What the token endpoint answers.
#[derive(Debug)]
pub struct TokenResponse {
    pub access_token: String,
    pub refresh_token: Option<String>,
    /// How long the access token lasts, in seconds.
    pub expires_in: Option<u64>,
    pub scope: Option<String>,
    pub error: Option<String>,
    pub error_description: Option<String>,
}

/// What the token endpoint answers, as its texts.
pub struct TokenResponseView {
    pub access_token: Seq<char>,
    pub refresh_token: Option<Seq<char>>,
    pub expires_in: Option<u64>,
    pub scope: Option<Seq<char>>,
    pub error: Option<Seq<char>>,
    pub error_description: Option<Seq<char>>,
}

impl View for TokenResponse {
    type V = TokenResponseView;

    open spec fn view(&self) -> TokenResponseView {
        TokenResponseView {
            access_token: self.access_token@,
            refresh_token: opt_text(self.refresh_token),
            expires_in: self.expires_in,
            scope: opt_text(self.scope),
            error: opt_text(self.error),
            error_description: opt_text(self.error_description),
        }
    }
}

/// What became of a request to the token endpoint.
#[derive(Debug)]
pub enum TokenReply {
    /// It could not be sent, or no reply came.
    SendFailed,
    /// The reply has a status other than success.
    Refused { status: Status, body: String },
    /// The reply has the status of success and is not what a token endpoint answers.
    Malformed,
    /// The reply has the status of success.
    Answered(TokenResponse),
}

/// What became of a request to the token endpoint, as its plain contents.
pub enum TokenReplyView {
    SendFailed,
    Refused { status: u16, body: Seq<char> },
    Malformed,
    Answered(TokenResponseView),
}

impl View for TokenReply {
    type V = TokenReplyView;

    open spec fn view(&self) -> TokenReplyView {
        match *self {
            TokenReply::SendFailed => TokenReplyView::SendFailed,
            TokenReply::Refused { status, body } => TokenReplyView::Refused {
                status: status@,
                body: body@,
            },
            TokenReply::Malformed => TokenReplyView::Malformed,
            TokenReply::Answered(t) => TokenReplyView::Answered(t@),
        }
    }
}

/// What a reply of the token endpoint is, from its status, its text and what could be read from
/// it: any status but success refuses the request, whatever the reply says.
pub fn token_reply(status: Status, body: String, parsed: Option<TokenResponse>) -> (r: TokenReply)
    ensures
        r@ == (if success(status@) {
            match parsed {
                Some(t) => TokenReplyView::Answered(t@),
                None => TokenReplyView::Malformed,
            }
        } else {
            TokenReplyView::Refused { status: status@, body: body@ }
        }),
{
    if status.is_success() {
        match parsed {
            Some(t) => TokenReply::Answered(t),
            None => TokenReply::Malformed,
        }
    } else {
        TokenReply::Refused { status, body }
    }
}

/// What a token is asked for with.
#[derive(Debug, Clone, Copy, PartialEq, Eq)]
pub enum Grant {
    /// A refresh token.
    Refresh,
    /// An authorization code.
    Exchange,
}

/// What was asked of the server that manages tokens and clients.
#[derive(Debug, Clone, Copy, PartialEq, Eq)]
pub enum Endpoint {
    Token(Grant),
    Registration,
}

/// Why there is no authorization.
#[derive(Debug)]
pub enum AuthError {
    NoAccessToken,
    NoRefreshToken,
    /// The state could not be put into writing.
    EncodeState { message: String },
    /// The state could not be written to disk.
    WriteState,
    /// The wait for the redirect ended without an answer.
    CallbackLost,
    SendFailed(Endpoint),
    Refused { endpoint: Endpoint, status: Status, body: String },
    Malformed(Endpoint),
    /// The token endpoint answered with an error.
    Denied { grant: Grant, error: String, description: Option<String> },
}

/// Why there is no authorization, as its plain contents.
pub enum AuthErrorView {
    NoAccessToken,
    NoRefreshToken,
    EncodeState { message: Seq<char> },
    WriteState,
    CallbackLost,
    SendFailed(Endpoint),
    Refused { endpoint: Endpoint, status: u16, body: Seq<char> },
    Malformed(Endpoint),
    Denied { grant: Grant, error: Seq<char>, description: Option<Seq<char>> },
}

impl View for AuthError {
    type V = AuthErrorView;

    open spec fn view(&self) -> AuthErrorView {
        match *self {
            AuthError::NoAccessToken => AuthErrorView::NoAccessToken,
            AuthError::NoRefreshToken => AuthErrorView::NoRefreshToken,
            AuthError::EncodeState { message } => AuthErrorView::EncodeState { message: message@ },
            AuthError::WriteState => AuthErrorView::WriteState,
            AuthError::CallbackLost => AuthErrorView::CallbackLost,
            AuthError::SendFailed(endpoint) => AuthErrorView::SendFailed(endpoint),
            AuthError::Refused { endpoint, status, body } => AuthErrorView::Refused {
                endpoint,
                status: status@,
                body: body@,
            },
            AuthError::Malformed(endpoint) => AuthErrorView::Malformed(endpoint),
            AuthError::Denied { grant, error, description } => AuthErrorView::Denied {
                grant,
                error: error@,
                description: opt_text(description),
            },
        }
    }
}

/// What formatting with `{:?}` makes of a text.
pub uninterp spec fn debug_display(s: Seq<char>) -> Seq<char>;

/// The `Debug` formatting of `str` puts a text in double quotes and escapes some characters.
/// What it makes of a text depends on the text alone.
#[verifier::external_body]
fn debug_text(s: &str) -> (r: String)
    ensures
        r@ == debug_display(s@),
{
    format!("{:?}", s)
}

/// An optional text as formatting with `{:?}` gives it.
pub open spec fn debug_option(o: Option<Seq<char>>) -> Seq<char> {
    match o {
        Some(s) => "Some("@ + debug_display(s) + ")"@,
        None => "None"@,
    }
}

/// What failed, in words.
pub open spec fn refusal_head(endpoint: Endpoint) -> Seq<char> {
    match endpoint {
        Endpoint::Token(Grant::Refresh) => "Token refresh failed: HTTP "@,
        Endpoint::Token(Grant::Exchange) => "Token exchange failed: HTTP "@,
        Endpoint::Registration => "DCR registration failed: HTTP "@,
    }
}

/// What could not be sent, in words.
pub open spec fn send_failure(endpoint: Endpoint) -> Seq<char> {
    match endpoint {
        Endpoint::Token(Grant::Refresh) => "Failed to send token refresh request"@,
        Endpoint::Token(Grant::Exchange) => "Failed to send token exchange request"@,
        Endpoint::Registration => "Failed to send DCR request"@,
    }
}

/// What could not be read, in words.
pub open spec fn malformed_failure(endpoint: Endpoint) -> Seq<char> {
    match endpoint {
        Endpoint::Token(Grant::Refresh) => "Failed to parse token refresh response"@,
        Endpoint::Token(Grant::Exchange) => "Failed to parse token exchange response"@,
        Endpoint::Registration => "Failed to parse DCR response"@,
    }
}

/// What was denied, in words.
pub open spec fn denial_head(grant: Grant) -> Seq<char> {
    match grant {
        Grant::Refresh => "Token refresh error: "@,
        Grant::Exchange => "Token exchange error: "@,
    }
}

impl AuthErrorView {
    /// The error in words.
    pub open spec fn message(self) -> Seq<char> {
        match self {
            AuthErrorView::NoAccessToken => "No access token available"@,
            AuthErrorView::NoRefreshToken => "No refresh token available"@,
            AuthErrorView::EncodeState { message } => message,
            AuthErrorView::WriteState => "Failed to write auth state"@,
            AuthErrorView::CallbackLost => "Failed to receive OAuth callback"@,
            AuthErrorView::SendFailed(endpoint) => send_failure(endpoint),
            AuthErrorView::Refused { endpoint, status, body } => refusal_head(endpoint)
                + status_display(status) + " - "@ + body,
            AuthErrorView::Malformed(endpoint) => malformed_failure(endpoint),
            AuthErrorView::Denied { grant, error, description } => denial_head(grant) + error
                + " - "@ + debug_option(description),
        }
    }
}

impl AuthError {
    /// The error in words.
    pub fn message(&self) -> (r: String)
        ensures
            r@ == self@.message(),
    {
        match self {
            AuthError::NoAccessToken => "No access token available".to_owned(),
            AuthError::NoRefreshToken => "No refresh token available".to_owned(),
            AuthError::EncodeState { message } => message.clone(),
            AuthError::WriteState => "Failed to write auth state".to_owned(),
            AuthError::CallbackLost => "Failed to receive OAuth callback".to_owned(),
            AuthError::SendFailed(endpoint) => match endpoint {
                Endpoint::Token(Grant::Refresh) => "Failed to send token refresh request".to_owned(),
                Endpoint::Token(
                    Grant::Exchange,
                ) => "Failed to send token exchange request".to_owned(),
                Endpoint::Registration => "Failed to send DCR request".to_owned(),
            },
            AuthError::Refused { endpoint, status, body } => {
                let head = match endpoint {
                    Endpoint::Token(Grant::Refresh) => "Token refresh failed: HTTP ",
                    Endpoint::Token(Grant::Exchange) => "Token exchange failed: HTTP ",
                    Endpoint::Registration => "DCR registration failed: HTTP ",
                };
                let head = head.to_owned().concat(status.text().as_str());
                head.concat(" - ").concat(body.as_str())
            },
            AuthError::Malformed(endpoint) => match endpoint {
                Endpoint::Token(
                    Grant::Refresh,
                ) => "Failed to parse token refresh response".to_owned(),
                Endpoint::Token(
                    Grant::Exchange,
                ) => "Failed to parse token exchange response".to_owned(),
                Endpoint::Registration => "Failed to parse DCR response".to_owned(),
            },
            AuthError::Denied { grant, error, description } => {
                let head = match grant {
                    Grant::Refresh => "Token refresh error: ",
                    Grant::Exchange => "Token exchange error: ",
                };
                let detail = match description {
                    Some(s) => {
                        let quoted = debug_text(s.as_str());
                        "Some(".to_owned().concat(quoted.as_str()).concat(")")
                    },
                    None => "None".to_owned(),
                };
                head.to_owned().concat(error.as_str()).concat(" - ").concat(detail.as_str())
            },
        }
    }
}

/// Where among the pairs the given name stands, or -1 where it stands nowhere.
pub open spec fn place_of(pairs: Seq<(Seq<char>, Seq<char>)>, name: Seq<char>) -> int
    decreases pairs.len(),
{
    if pairs.len() == 0 {
        -1
    } else if pairs.last().0 == name {
        pairs.len() - 1
    } else {
        place_of(pairs.drop_last(), name)
    }
}

/// The pairs with one more: a name that is there already gets the new value, a name that is not
/// comes last.
pub open spec fn with_pair(
    pairs: Seq<(Seq<char>, Seq<char>)>,
    p: (Seq<char>, Seq<char>),
) -> Seq<(Seq<char>, Seq<char>)> {
    if place_of(pairs, p.0) >= 0 {
        pairs.update(place_of(pairs, p.0), p)
    } else {
        pairs.push(p)
    }
}

/// The form that a list of parameters makes: parameters without a value are left out, and each
/// name stands once, with the last of its values.
pub open spec fn token_body(
    params: Seq<(Seq<char>, Seq<char>)>,
) -> Seq<(Seq<char>, Seq<char>)>
    decreases params.len(),
{
    if params.len() == 0 {
        Seq::empty()
    } else if params.last().1.len() == 0 {
        token_body(params.drop_last())
    } else {
        with_pair(token_body(params.drop_last()), params.last())
    }
}

/// The texts of a list of borrowed pairs.
pub open spec fn param_texts(v: Seq<(&str, &str)>) -> Seq<(Seq<char>, Seq<char>)> {
    v.map_values(|p: (&str, &str)| (p.0@, p.1@))
}

/// Puts a pair among others.
fn put_pair(pairs: &mut Vec<(String, String)>, name: &str, value: &str)
    ensures
        pair_texts(final(pairs)@) == with_pair(pair_texts(old(pairs)@), (name@, value@)),
{
    let ghost all = pair_texts(pairs@);
    let mut n: usize = pairs.len();
    assert(all.take(n as int) =~= all);
    while n > 0
        invariant
            n <= pairs.len(),
            pairs@ == old(pairs)@,
            all == pair_texts(pairs@),
            place_of(all, name@) == place_of(all.take(n as int), name@),
        decreases n,
    {
        assert(all.take(n as int).drop_last() =~= all.take(n - 1));
        assert(all.take(n as int).last() == (pairs[n - 1].0@, pairs[n - 1].1@));
        if same_text(pairs[n - 1].0.as_str(), name) {
            pairs.set(n - 1, (name.to_owned(), value.to_owned()));
            assert(pair_texts(pairs@) =~= all.update(n - 1, (name@, value@)));
            return;
        }
        n -= 1;
    }
    pairs.push((name.to_owned(), value.to_owned()));
    assert(pair_texts(pairs@) =~= all.push((name@, value@)));
}

/// Builds the form for a token request.
pub fn build_token_body(params: Vec<(&str, &str)>) -> (r: Vec<(String, String)>)
    ensures
        pair_texts(r@) == token_body(param_texts(params@)),
{
    let mut r: Vec<(String, String)> = Vec::new();
    let ghost all = param_texts(params@);
    let mut i: usize = 0;
    assert(pair_texts(r@) =~= Seq::empty());
    while i < params.len()
        invariant
            i <= params.len(),
            all == param_texts(params@),
            pair_texts(r@) == token_body(all.take(i as int)),
        decreases params.len() - i,
    {
        assert(all.take(i + 1).drop_last() =~= all.take(i as int));
        assert(all.take(i + 1).last() == (params[i as int].0@, params[i as int].1@));
        if !params[i].1.is_empty() {
            put_pair(&mut r, params[i].0, params[i].1);
        }
        i += 1;
    }
    assert(all.take(all.len() as int) =~= all);
    r
}

/// What a form says: the value of each name.
pub open spec fn form_values(pairs: Seq<(Seq<char>, Seq<char>)>) -> Map<Seq<char>, Seq<char>>
    decreases pairs.len(),
{
    if pairs.len() == 0 {
        Map::empty()
    } else {
        form_values(pairs.drop_last()).insert(pairs.last().0, pairs.last().1)
    }
}

/// The parameters that have a value.
pub open spec fn filled(params: Seq<(Seq<char>, Seq<char>)>) -> Seq<(Seq<char>, Seq<char>)> {
    params.filter(|p: (Seq<char>, Seq<char>)| p.1.len() > 0)
}

/// Whether no name stands twice.
pub open spec fn names_once(pairs: Seq<(Seq<char>, Seq<char>)>) -> bool {
    forall|i: int, j: int|
        0 <= i < j < pairs.len() ==> (#[trigger] pairs[i]).0 != (#[trigger] pairs[j]).0
}

proof fn place_found(pairs: Seq<(Seq<char>, Seq<char>)>, name: Seq<char>)
    ensures
        -1 <= place_of(pairs, name) < pairs.len(),
        place_of(pairs, name) >= 0 ==> pairs[place_of(pairs, name)].0 == name,
        forall|i: int|
            place_of(pairs, name) < i < pairs.len() ==> (#[trigger] pairs[i]).0 != name,
    decreases pairs.len(),
{
    if pairs.len() > 0 && pairs.last().0 != name {
        let rest = pairs.drop_last();
        place_found(rest, name);
        assert forall|i: int| place_of(pairs, name) < i < pairs.len() implies (
        #[trigger] pairs[i]).0 != name by {
            if i < rest.len() {
                assert(rest[i] == pairs[i]);
            }
        }
    }
}

proof fn updated_values(pairs: Seq<(Seq<char>, Seq<char>)>, k: int, p: (Seq<char>, Seq<char>))
    requires
        0 <= k < pairs.len(),
        pairs[k].0 == p.0,
        forall|i: int| k < i < pairs.len() ==> (#[trigger] pairs[i]).0 != p.0,
    ensures
        form_values(pairs.update(k, p)) == form_values(pairs).insert(p.0, p.1),
    decreases pairs.len(),
{
    let rest = pairs.drop_last();
    if k == pairs.len() - 1 {
        assert(pairs.update(k, p).drop_last() =~= rest);
        assert(form_values(pairs.update(k, p)) =~= form_values(pairs).insert(p.0, p.1));
    } else {
        assert(pairs.update(k, p).drop_last() =~= rest.update(k, p));
        assert(pairs.last().0 != p.0);
        updated_values(rest, k, p);
        assert(form_values(pairs.update(k, p)) =~= form_values(pairs).insert(p.0, p.1));
    }
}

/// The form of a token request says what the parameters that have a value say, the later of two
/// values for one name before the earlier; it has each name once, and no empty value.
pub proof fn token_bodies_hold_the_filled_params(params: Seq<(Seq<char>, Seq<char>)>)
    ensures
        form_values(token_body(params)) == form_values(filled(params)),
        names_once(token_body(params)),
        forall|i: int|
            0 <= i < token_body(params).len() ==> (#[trigger] token_body(params)[i]).1.len() > 0,
    decreases params.len(),
{
    reveal(Seq::filter);
    if params.len() > 0 {
        let p = params.last();
        let body = token_body(params.drop_last());
        token_bodies_hold_the_filled_params(params.drop_last());
        if p.1.len() > 0 {
            let before = filled(params.drop_last());
            assert(filled(params) == before.push(p));
            assert(before.push(p).drop_last() =~= before);
            place_found(body, p.0);
            let k = place_of(body, p.0);
            if k >= 0 {
                updated_values(body, k, p);
            } else {
                assert(body.push(p).drop_last() =~= body);
            }
        }
    }
}

/// Where no name stands twice among the parameters, the form is the parameters that have a
/// value, in order.
pub proof fn token_bodies_keep_the_order(params: Seq<(Seq<char>, Seq<char>)>)
    requires
        names_once(params),
    ensures
        token_body(params) == filled(params),
        forall|i: int|
            0 <= i < token_body(params).len() ==> params.contains(#[trigger] token_body(params)[i]),
    decreases params.len(),
{
    reveal(Seq::filter);
    if params.len() > 0 {
        let rest = params.drop_last();
        token_bodies_keep_the_order(rest);
        let body = token_body(rest);
        place_found(body, params.last().0);
        let k = place_of(body, params.last().0);
        if k >= 0 {
            assert(rest.contains(body[k]));
            let j = choose|j: int| 0 <= j < rest.len() && rest[j] == body[k];
            assert(params[j].0 != params[params.len() - 1].0);
        }
        assert forall|i: int| 0 <= i < token_body(params).len() implies params.contains(
            #[trigger] token_body(params)[i],
        ) by {
            if i < body.len() {
                assert(rest.contains(body[i]));
                let j = choose|j: int| 0 <= j < rest.len() && rest[j] == body[i];
                assert(params[j] == body[i]);
            } else {
                assert(params[params.len() - 1] == params.last());
            }
        }
    }
}

/// A request to the token endpoint.
pub open spec fn token_request(params: Seq<(Seq<char>, Seq<char>)>) -> HttpRequestView {
    HttpRequestView {
        method: Method::Post,
        url: TOKEN_URL@,
        headers: Seq::empty(),
        body: BodyView::Form(token_body(params)),
        timeout_secs: None,
    }
}

/// What a refresh request says.
pub open spec fn refresh_params(
    refresh_token: Seq<char>,
    client_id: Seq<char>,
) -> Seq<(Seq<char>, Seq<char>)> {
    seq![
        ("grant_type"@, "refresh_token"@),
        ("refresh_token"@, refresh_token),
        ("client_id"@, client_id),
    ]
}

/// What a request that exchanges an authorization code says.
pub open spec fn exchange_params(
    code: Seq<char>,
    code_verifier: Seq<char>,
    client_id: Seq<char>,
) -> Seq<(Seq<char>, Seq<char>)> {
    seq![
        ("grant_type"@, "authorization_code"@),
        ("code"@, code),
        ("redirect_uri"@, REDIRECT_URI@),
        ("code_verifier"@, code_verifier),
        ("client_id"@, client_id),
    ]
}

/// Puts parameters into a request to the token endpoint.
fn make_token_request(params: Vec<(&str, &str)>) -> (r: HttpRequest)
    ensures
        r@ == token_request(param_texts(params@)),
{
    let headers: Vec<(String, String)> = Vec::new();
    assert(pair_texts(headers@) =~= Seq::empty());
    HttpRequest {
        method: Method::Post,
        url: TOKEN_URL.to_owned(),
        headers,
        body: Body::Form(build_token_body(params)),
        timeout_secs: None,
    }
}

/// The request that asks for a new access token with a refresh token.
pub fn refresh_request(refresh_token: &str, client_id: &str) -> (r: HttpRequest)
    ensures
        r@ == token_request(refresh_params(refresh_token@, client_id@)),
{
    let mut params: Vec<(&str, &str)> = Vec::new();
    params.push(("grant_type", "refresh_token"));
    params.push(("refresh_token", refresh_token));
    params.push(("client_id", client_id));
    assert(param_texts(params@) =~= refresh_params(refresh_token@, client_id@));
    make_token_request(params)
}

/// The request that exchanges an authorization code for tokens.
pub fn exchange_request(code: &str, code_verifier: &str, client_id: &str) -> (r: HttpRequest)
    ensures
        r@ == token_request(exchange_params(code@, code_verifier@, client_id@)),
{
    let mut params: Vec<(&str, &str)> = Vec::new();
    params.push(("grant_type", "authorization_code"));
    params.push(("code", code));
    params.push(("redirect_uri", REDIRECT_URI));
    params.push(("code_verifier", code_verifier));
    params.push(("client_id", client_id));
    assert(param_texts(params@) =~= exchange_params(code@, code_verifier@, client_id@));
    make_token_request(params)
}

/// What a reply of the token endpoint comes to: the answer, or the error.
pub open spec fn token_outcome(
    grant: Grant,
    reply: TokenReplyView,
) -> Result<TokenResponseView, AuthErrorView> {
    match reply {
        TokenReplyView::SendFailed => Err(AuthErrorView::SendFailed(Endpoint::Token(grant))),
        TokenReplyView::Refused { status, body } => Err(
            AuthErrorView::Refused { endpoint: Endpoint::Token(grant), status, body },
        ),
        TokenReplyView::Malformed => Err(AuthErrorView::Malformed(Endpoint::Token(grant))),
        TokenReplyView::Answered(t) => match t.error {
            Some(error) => Err(
                AuthErrorView::Denied { grant, error, description: t.error_description },
            ),
            None => Ok(t),
        },
    }
}

/// What a reply of the token endpoint comes to.
pub fn token_result(grant: Grant, reply: TokenReply) -> (r: Result<TokenResponse, AuthError>)
    ensures
        match r {
            Ok(t) => token_outcome(grant, reply@) == Ok::<TokenResponseView, AuthErrorView>(t@),
            Err(e) => token_outcome(grant, reply@) == Err::<TokenResponseView, AuthErrorView>(e@),
        },
{
    match reply {
        TokenReply::SendFailed => Err(AuthError::SendFailed(Endpoint::Token(grant))),
        TokenReply::Refused { status, body } => Err(
            AuthError::Refused { endpoint: Endpoint::Token(grant), status, body },
        ),
        TokenReply::Malformed => Err(AuthError::Malformed(Endpoint::Token(grant))),
        TokenReply::Answered(t) => match t.error {
            Some(error) => Err(
                AuthError::Denied { grant, error, description: t.error_description },
            ),
            None => Ok(t),
        },
    }
}

/// Whether the time at which an answered access token expires can be told in 64 bits.
pub open spec fn expiry_in_range(reply: TokenReplyView, now: u64) -> bool {
    match reply {
        TokenReplyView::Answered(t) => t.error is None ==> (t.expires_in matches Some(n) ==> now + n
            <= u64::MAX),
        _ => true,
    }
}

/// The first of two optional texts that is there.
pub open spec fn or_text(a: Option<Seq<char>>, b: Option<Seq<char>>) -> Option<Seq<char>> {
    match a {
        Some(_) => a,
        None => b,
    }
}

/// The state after an answer of the token endpoint. After a refresh the old refresh token stays
/// where the answer brings none; after an exchange it does not. The old scope stays where the
/// answer names none. Without a lifetime the access token does not expire.
pub open spec fn with_tokens(
    s: AuthStateView,
    grant: Grant,
    t: TokenResponseView,
    now: u64,
) -> AuthStateView {
    AuthStateView {
        client_id: s.client_id,
        access_token: Some(t.access_token),
        refresh_token: match grant {
            Grant::Refresh => or_text(t.refresh_token, s.refresh_token),
            Grant::Exchange => t.refresh_token,
        },
        expires_at: match t.expires_in {
            Some(n) => Some((now + n) as u64),
            None => None,
        },
        scope: or_text(t.scope, s.scope),
    }
}

impl AuthState {
    /// Takes over an answer of the token endpoint that came at the given time.
    pub fn take_tokens(&mut self, grant: Grant, t: TokenResponse, now: u64)
        requires
            t.expires_in matches Some(n) ==> now + n <= u64::MAX,
        ensures
            final(self)@ == with_tokens(old(self)@, grant, t@, now),
    {
        let expires_at = match t.expires_in {
            Some(n) => Some(now + n),
            None => None,
        };
        self.access_token = Some(t.access_token);
        match grant {
            Grant::Refresh => {
                if t.refresh_token.is_some() {
                    self.refresh_token = t.refresh_token;
                }
            },
            Grant::Exchange => {
                self.refresh_token = t.refresh_token;
            },
        }
        self.expires_at = expires_at;
        if t.scope.is_some() {
            self.scope = t.scope;
        }
    }
}

/// The address at which the user is asked for authorization.
pub open spec fn authorization_url(
    client_id: Seq<char>,
    code_challenge: Seq<char>,
    state: Seq<char>,
) -> Seq<char> {
    AUTHORIZE_URL@ + "?response_type=code&client_id="@ + form_encode(encode_utf8(client_id))
        + "&redirect_uri="@ + form_encode(encode_utf8(REDIRECT_URI@)) + "&code_challenge="@
        + code_challenge + "&code_challenge_method=S256&state="@ + state + "&scope="@
        + form_encode(encode_utf8(SCOPE@))
}

/// An authorization under way: the name under which the client asks, the secret that the exchange
/// will show, the state that the redirect must name, and the address to open.
#[derive(Debug)]
pub struct Authorization {
    client_id: String,
    code_verifier: String,
    state: String,
    url: String,
}

/// An authorization under way, as its texts.
pub struct AuthorizationView {
    pub client_id: Seq<char>,
    pub code_verifier: Seq<char>,
    pub state: Seq<char>,
    pub url: Seq<char>,
}

impl View for Authorization {
    type V = AuthorizationView;

    closed spec fn view(&self) -> AuthorizationView {
        AuthorizationView {
            client_id: self.client_id@,
            code_verifier: self.code_verifier@,
            state: self.state@,
            url: self.url@,
        }
    }
}

/// An authorization with the given secrets.
pub open spec fn authorization_with(
    client_id: Seq<char>,
    code_verifier: Seq<char>,
    state: Seq<char>,
) -> AuthorizationView {
    AuthorizationView {
        client_id,
        code_verifier,
        state,
        url: authorization_url(client_id, challenge_of(code_verifier), state),
    }
}

/// Whether an authorization could have been drawn for a client: its secrets are of the kind that
/// is drawn, and its address is the one that goes with the client and the secrets.
pub open spec fn drawn_for(a: AuthorizationView, client_id: Seq<char>) -> bool {
    &&& is_code_verifier(a.code_verifier)
    &&& is_state(a.state)
    &&& a == authorization_with(client_id, a.code_verifier, a.state)
}

impl Authorization {
    /// The address of an authorization carries its client's name, the challenge of its secret
    /// and its state.
    #[verifier::type_invariant]
    spec fn address_fits(self) -> bool {
        self.url@ == authorization_url(
            self.client_id@,
            challenge_of(self.code_verifier@),
            self.state@,
        )
    }

    /// An authorization with the given secrets.
    pub fn with_secrets(client_id: &str, code_verifier: String, state: String) -> (r: Authorization)
        requires
            encode_utf8(code_verifier@).len() < 0x2000_0000_0000_0000,
        ensures
            r@ == authorization_with(client_id@, code_verifier@, state@),
    {
        let challenge = sha256_base64url(code_verifier.as_str());
        let url = AUTHORIZE_URL.to_owned().concat("?response_type=code&client_id=");
        let url = url.concat(urlencoding(client_id).as_str());
        let url = url.concat("&redirect_uri=").concat(urlencoding(REDIRECT_URI).as_str());
        let url = url.concat("&code_challenge=").concat(challenge.as_str());
        let url = url.concat("&code_challenge_method=S256&state=").concat(state.as_str());
        let url = url.concat("&scope=").concat(urlencoding(SCOPE).as_str());
        Authorization { client_id: client_id.to_owned(), code_verifier, state, url }
    }

    /// An authorization with freshly drawn secrets.
    pub fn begin(client_id: &str) -> (r: Authorization)
        ensures
            drawn_for(r@, client_id@),
    {
        let code_verifier = generate_code_verifier();
        let state = generate_state();
        proof {
            code_verifiers_are_allowed(code_verifier@);
            assert(is_ascii_chars(code_verifier@)) by {
                assert forall|i: int| 0 <= i < code_verifier@.len() implies '\0' <= #[trigger]
                    code_verifier@[i] <= '\u{7f}' by {}
            }
            is_ascii_chars_encode_utf8(code_verifier@);
        }
        Authorization::with_secrets(client_id, code_verifier, state)
    }

    /// The address at which the user is asked for authorization.
    pub fn url(&self) -> (r: &str)
        ensures
            r@ == self@.url,
            r@ == authorization_url(
                self@.client_id,
                challenge_of(self@.code_verifier),
                self@.state,
            ),
    {
        proof {
            use_type_invariant(self);
        }
        self.url.as_str()
    }

    /// The name under which the client asks.
    pub fn client_id(&self) -> (r: &str)
        ensures
            r@ == self@.client_id,
    {
        self.client_id.as_str()
    }

    /// The state that the redirect must name.
    pub fn state(&self) -> (r: &str)
        ensures
            r@ == self@.state,
    {
        self.state.as_str()
    }

    /// The secret that the exchange will show.
    pub fn code_verifier(&self) -> (r: &str)
        ensures
            r@ == self@.code_verifier,
    {
        self.code_verifier.as_str()
    }
}

} // verus!
