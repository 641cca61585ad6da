//! The token manager: what it keeps, and how it comes by a usable access token.
use crate::http::{
    bearer, bearer_text, pair, Body, BodyView, HttpRequest, HttpRequestView, Method, Status,
};
use crate::json::{field_added, number_from_u64, unsigned_number, Json, JsonModel};
use crate::text::{opt_text, pair_texts, texts};
use crate::tokens::{
    draft_state, drawn_for, exchange_params, exchange_request, expiry_in_range, refresh_params,
    refresh_request, token_outcome, token_request, token_result, with_tokens, AuthError,
    AuthErrorView, AuthState, AuthStateView, Authorization, AuthorizationView, Grant, TokenReply,
    TokenReplyView,
};
use vstd::pervasive::{arbitrary, unreached};
use vstd::prelude::*;

verus! {

/// How the manager names itself.
pub const MANAGER_USER_AGENT: &'static str = "indeed-mcp-proxy/0.1";

/// The name of the file that keeps the authorization between runs.
pub const STATE_FILE: &'static str = ".indeed-mcp-auth.json";

/// How many seconds before it expires an access token is refreshed.
pub const EXPIRY_MARGIN_SECS: u64 = 60;

/// How this client is known, and where it tries its access token.
#[derive(Debug)]
pub struct ClientProfile {
    /// How the client is known to the authorization server.
    pub client_id: String,
    /// Where a ping shows whether an access token is accepted.
    pub ping_url: String,
}

/// The directory that keeps configuration, as the parts of its path: the one that is set for
/// configuration, else `.config` in the home directory.
pub open spec fn config_dir(
    config_home: Option<Seq<char>>,
    home: Option<Seq<char>>,
) -> Option<Seq<Seq<char>>> {
    match config_home {
        Some(dir) => Some(seq![dir]),
        None => match home {
            Some(dir) => Some(seq![dir, ".config"@]),
            None => None,
        },
    }
}

/// Where the authorization is kept, as the parts of its path: in the directory for
/// configuration, else in the current one.
pub open spec fn state_file(config_home: Option<Seq<char>>, home: Option<Seq<char>>) -> Seq<
    Seq<char>,
> {
    match config_dir(config_home, home) {
        Some(dir) => dir.push(STATE_FILE@),
        None => seq!["."@, STATE_FILE@],
    }
}

/// Finds the directory that keeps configuration.
pub fn dirs_next(config_home: Option<String>, home: Option<String>) -> (r: Option<Vec<String>>)
    ensures
        match r {
            Some(parts) => config_dir(opt_text(config_home), opt_text(home)) == Some(
                texts(parts@),
            ),
            None => config_dir(opt_text(config_home), opt_text(home)) is None,
        },
{
    let mut parts: Vec<String> = Vec::new();
    match config_home {
        Some(dir) => {
            let ghost d = dir@;
            parts.push(dir);
            assert(texts(parts@) =~= seq![d]);
            Some(parts)
        },
        None => match home {
            Some(dir) => {
                let ghost d = dir@;
                parts.push(dir);
                parts.push(".config".to_owned());
                assert(texts(parts@) =~= seq![d, ".config"@]);
                Some(parts)
            },
            None => None,
        },
    }
}

/// What keeps an access token at hand.
pub struct TokenManager {
    state_path: Vec<String>,
    profile: ClientProfile,
    auth_state: Option<AuthState>,
    pending: Option<Authorization>,
    next_id: u64,
}

/// What a token manager holds, as its plain contents.
pub struct ManagerView {
    pub state_path: Seq<Seq<char>>,
    pub client_id: Seq<char>,
    pub ping_url: Seq<char>,
    pub auth: Option<AuthStateView>,
    /// The authorization for which the user is being asked.
    pub pending: Option<AuthorizationView>,
    pub next_id: u64,
}

/// What is kept of an optional authorization.
pub open spec fn opt_state(o: Option<AuthState>) -> Option<AuthStateView> {
    match o {
        Some(s) => Some(s@),
        None => None,
    }
}

/// What is held of an optional authorization under way.
pub open spec fn opt_authorization(o: Option<Authorization>) -> Option<AuthorizationView> {
    match o {
        Some(a) => Some(a@),
        None => None,
    }
}

impl View for TokenManager {
    type V = ManagerView;

    closed spec fn view(&self) -> ManagerView {
        ManagerView {
            state_path: texts(self.state_path@),
            client_id: self.profile.client_id@,
            ping_url: self.profile.ping_url@,
            auth: opt_state(self.auth_state),
            pending: opt_authorization(self.pending),
            next_id: self.next_id,
        }
    }
}

impl ManagerView {
    /// The access token, where there is one.
    pub open spec fn access_token(self) -> Option<Seq<char>> {
        match self.auth {
            Some(s) => s.access_token,
            None => None,
        }
    }

    /// The refresh token, where there is one.
    pub open spec fn refresh_token(self) -> Option<Seq<char>> {
        match self.auth {
            Some(s) => s.refresh_token,
            None => None,
        }
    }

    /// The manager with another authorization.
    pub open spec fn with_auth(self, auth: Option<AuthStateView>) -> ManagerView {
        ManagerView { auth, ..self }
    }

    /// The manager with another authorization under way.
    pub open spec fn with_pending(self, pending: Option<AuthorizationView>) -> ManagerView {
        ManagerView { pending, ..self }
    }
}

/// A number and one, back to zero after the largest.
pub open spec fn next_number(n: u64) -> u64 {
    if n == u64::MAX {
        0
    } else {
        (n + 1) as u64
    }
}

/// The document of a ping.
pub open spec fn ping_document(id: u64) -> JsonModel {
    JsonModel::Object(
        Map::<Seq<char>, JsonModel>::empty().insert("jsonrpc"@, JsonModel::Text("2.0"@)).insert(
            "id"@,
            JsonModel::Number(unsigned_number(id)),
        ).insert("method"@, JsonModel::Text("ping"@)).insert(
            "params"@,
            JsonModel::Object(Map::<Seq<char>, JsonModel>::empty()),
        ),
    )
}

/// The request that shows whether an access token is accepted.
pub open spec fn ping_request(ping_url: Seq<char>, token: Seq<char>, id: u64) -> HttpRequestView {
    HttpRequestView {
        method: Method::Post,
        url: ping_url,
        headers: seq![
            ("Authorization"@, bearer(token)),
            ("Content-Type"@, "application/json"@),
        ],
        body: BodyView::Json(ping_document(id)),
        timeout_secs: None,
    }
}

/// Makes the request that shows whether an access token is accepted.
fn make_ping_request(ping_url: &str, token: &str, id: u64) -> (r: HttpRequest)
    ensures
        r@ == ping_request(ping_url@, token@, id),
{
    let nothing: Vec<(String, Json)> = Vec::new();
    let mut fields: Vec<(String, Json)> = Vec::new();
    fields.push(("jsonrpc".to_owned(), Json::Text("2.0".to_owned())));
    fields.push(("id".to_owned(), Json::Number(number_from_u64(id))));
    fields.push(("method".to_owned(), Json::Text("ping".to_owned())));
    fields.push(("params".to_owned(), Json::Object(nothing)));
    proof {
        let none = Seq::<(String, Json)>::empty();
        let f = fields@;
        assert(nothing@ =~= none);
        assert(f =~= none.push(f[0]).push(f[1]).push(f[2]).push(f[3]));
        field_added(none, f[0]);
        field_added(none.push(f[0]), f[1]);
        field_added(none.push(f[0]).push(f[1]), f[2]);
        field_added(none.push(f[0]).push(f[1]).push(f[2]), f[3]);
    }
    let mut headers: Vec<(String, String)> = Vec::new();
    headers.push(("Authorization".to_owned(), bearer_text(token)));
    headers.push(pair("Content-Type", "application/json"));
    assert(pair_texts(headers@) =~= ping_request(ping_url@, token@, id).headers);
    HttpRequest {
        method: Method::Post,
        url: ping_url.to_owned(),
        headers,
        body: Body::Json(Json::Object(fields)),
        timeout_secs: None,
    }
}

/// Whether an access token is to be refreshed at the given time: 60 seconds before it expires,
/// or later.
pub open spec fn needs_refresh(now: u64, expires_at: u64) -> bool {
    now + EXPIRY_MARGIN_SECS >= expires_at
}

/// How far the search for a usable access token has come.
#[derive(Debug, Clone, Copy, PartialEq, Eq)]
pub enum AuthPhase {
    /// The saved state is being read.
    Loading,
    /// A saved state without an access token is being removed.
    Discarding,
    /// The time is being read.
    CheckingExpiry { expires_at: u64 },
    /// A refresh is under way, because the server rejected the token or else because it
    /// expires.
    Refreshing { rejected: bool },
    /// The refreshed state is being saved.
    SavingRefresh { rejected: bool },
    /// A ping with the token is under way.
    Testing,
    /// The state with which an authorization begins is being saved.
    SavingDraft,
    /// The user is being asked.
    Authorizing,
    /// An authorization code is being exchanged.
    Exchanging,
    /// The state with new tokens is being saved.
    SavingTokens,
    /// The search is over.
    Done,
}

/// What became of saving the state.
#[derive(Debug)]
pub enum SaveOutcome {
    Saved,
    /// It could not be put into writing.
    EncodeFailed { message: String },
    /// It could not be written to disk.
    WriteFailed,
}

/// What became of saving the state, as its plain contents.
pub enum SaveOutcomeView {
    Saved,
    EncodeFailed { message: Seq<char> },
    WriteFailed,
}

impl View for SaveOutcome {
    type V = SaveOutcomeView;

    open spec fn view(&self) -> SaveOutcomeView {
        match *self {
            SaveOutcome::Saved => SaveOutcomeView::Saved,
            SaveOutcome::EncodeFailed { message } => SaveOutcomeView::EncodeFailed {
                message: message@,
            },
            SaveOutcome::WriteFailed => SaveOutcomeView::WriteFailed,
        }
    }
}

/// What saving the state comes to.
pub open spec fn save_result(o: SaveOutcomeView) -> Result<(), AuthErrorView> {
    match o {
        SaveOutcomeView::Saved => Ok(()),
        SaveOutcomeView::EncodeFailed { message } => Err(AuthErrorView::EncodeState { message }),
        SaveOutcomeView::WriteFailed => Err(AuthErrorView::WriteState),
    }
}

/// What saving the state comes to.
pub fn save_to_disk(outcome: SaveOutcome) -> (r: Result<(), AuthError>)
    ensures
        match r {
            Ok(()) => save_result(outcome@) == Ok::<(), AuthErrorView>(()),
            Err(e) => save_result(outcome@) == Err::<(), AuthErrorView>(e@),
        },
{
    match outcome {
        SaveOutcome::Saved => Ok(()),
        SaveOutcome::EncodeFailed { message } => Err(AuthError::EncodeState { message }),
        SaveOutcome::WriteFailed => Err(AuthError::WriteState),
    }
}

/// What has happened outside.
#[derive(Debug)]
pub enum AuthEvent {
    /// The saved state has been read, where there is one.
    Loaded(Option<AuthState>),
    /// The saved state has been removed, or could not be.
    Removed,
    /// The time in seconds since the epoch.
    Clock(u64),
    /// A request to the token endpoint has ended at the given time.
    Tokens { reply: TokenReply, now: u64 },
    /// A ping has been answered with the given status, or not at all.
    Tested(Option<Status>),
    /// An attempt to save the state has ended.
    Saved(SaveOutcome),
    /// The redirect has brought an authorization code, or the wait for it has ended without.
    Redirected(Option<String>),
}

/// What has happened outside, as its plain contents.
pub enum AuthEventView {
    Loaded(Option<AuthStateView>),
    Removed,
    Clock(u64),
    Tokens { reply: TokenReplyView, now: u64 },
    Tested(Option<u16>),
    Saved(SaveOutcomeView),
    Redirected(Option<Seq<char>>),
}

/// The code of an optional status.
pub open spec fn opt_status(o: Option<Status>) -> Option<u16> {
    match o {
        Some(s) => Some(s@),
        None => None,
    }
}

impl View for AuthEvent {
    type V = AuthEventView;

    open spec fn view(&self) -> AuthEventView {
        match *self {
            AuthEvent::Loaded(o) => AuthEventView::Loaded(opt_state(o)),
            AuthEvent::Removed => AuthEventView::Removed,
            AuthEvent::Clock(now) => AuthEventView::Clock(now),
            AuthEvent::Tokens { reply, now } => AuthEventView::Tokens { reply: reply@, now },
            AuthEvent::Tested(o) => AuthEventView::Tested(opt_status(o)),
            AuthEvent::Saved(o) => AuthEventView::Saved(o@),
            AuthEvent::Redirected(code) => AuthEventView::Redirected(opt_text(code)),
        }
    }
}

/// What is to be done outside next.
#[derive(Debug)]
pub enum AuthAction {
    /// Remove the saved state.
    RemoveState,
    /// Read the time.
    ReadClock,
    /// Send a request to the token endpoint.
    RequestTokens(HttpRequest),
    /// Send a ping.
    Ping(HttpRequest),
    /// Save this state.
    SaveState(AuthState),
    /// Ask the user for authorization at this address and await the redirect that names this
    /// state.
    Authorize { url: String, state: String },
    /// Nothing more: the search has ended.
    Finish(Result<(), AuthError>),
}

/// What is to be done outside next, as its plain contents.
pub enum AuthActionView {
    RemoveState,
    ReadClock,
    RequestTokens(HttpRequestView),
    Ping(HttpRequestView),
    SaveState(AuthStateView),
    Authorize { url: Seq<char>, state: Seq<char> },
    Finish(Result<(), AuthErrorView>),
}

impl View for AuthAction {
    type V = AuthActionView;

    open spec fn view(&self) -> AuthActionView {
        match *self {
            AuthAction::RemoveState => AuthActionView::RemoveState,
            AuthAction::ReadClock => AuthActionView::ReadClock,
            AuthAction::RequestTokens(r) => AuthActionView::RequestTokens(r@),
            AuthAction::Ping(r) => AuthActionView::Ping(r@),
            AuthAction::SaveState(s) => AuthActionView::SaveState(s@),
            AuthAction::Authorize { url, state } => AuthActionView::Authorize {
                url: url@,
                state: state@,
            },
            AuthAction::Finish(Ok(())) => AuthActionView::Finish(Ok(())),
            AuthAction::Finish(Err(e)) => AuthActionView::Finish(Err(e@)),
        }
    }
}

/// One step of the search: what the manager holds then, how far the search has come, and what
/// is to be done.
pub struct AuthStep {
    pub manager: ManagerView,
    pub phase: AuthPhase,
    pub action: AuthActionView,
}

/// The search ends.
pub open spec fn finish(m: ManagerView, result: Result<(), AuthErrorView>) -> AuthStep {
    AuthStep { manager: m, phase: AuthPhase::Done, action: AuthActionView::Finish(result) }
}

/// A new authorization begins, whatever the manager held.
pub open spec fn begin_login(m: ManagerView) -> AuthStep {
    AuthStep {
        manager: m.with_auth(Some(draft_state(m.client_id))),
        phase: AuthPhase::SavingDraft,
        action: AuthActionView::SaveState(draft_state(m.client_id)),
    }
}

/// The access token is refreshed; without a refresh token a new authorization begins.
pub open spec fn begin_refresh(m: ManagerView, rejected: bool) -> AuthStep {
    match m.refresh_token() {
        Some(token) => AuthStep {
            manager: m,
            phase: AuthPhase::Refreshing { rejected },
            action: AuthActionView::RequestTokens(
                token_request(refresh_params(token, m.auth->0.client_id)),
            ),
        },
        None => begin_login(m),
    }
}

/// The access token is tried.
pub open spec fn begin_test(m: ManagerView) -> AuthStep {
    AuthStep {
        manager: ManagerView { next_id: next_number(m.next_id), ..m },
        phase: AuthPhase::Testing,
        action: AuthActionView::Ping(ping_request(m.ping_url, m.access_token()->0, m.next_id)),
    }
}

/// The user is asked for the authorization that has been drawn, and the manager holds on to it.
pub open spec fn begin_authorization(m: ManagerView, drawn: AuthorizationView) -> AuthStep {
    AuthStep {
        manager: m.with_pending(Some(drawn)),
        phase: AuthPhase::Authorizing,
        action: AuthActionView::Authorize { url: drawn.url, state: drawn.state },
    }
}

/// The wait for the redirect has ended: a code is exchanged with the secret of the authorization
/// for which the user was asked, and without one the search ends.
pub open spec fn step_redirected(m: ManagerView, code: Option<Seq<char>>) -> AuthStep {
    match code {
        Some(code) => AuthStep {
            manager: m.with_pending(None),
            phase: AuthPhase::Exchanging,
            action: AuthActionView::RequestTokens(
                token_request(
                    exchange_params(code, m.pending->0.code_verifier, m.pending->0.client_id),
                ),
            ),
        },
        None => finish(m.with_pending(None), Err(AuthErrorView::CallbackLost)),
    }
}

/// The saved state has been read: without one a new authorization begins, one without an access
/// token is removed, and one with an access token is taken over and looked at.
pub open spec fn step_loaded(m: ManagerView, saved: Option<AuthStateView>) -> AuthStep {
    match saved {
        None => begin_login(m),
        Some(s) => if s.access_token is None {
            AuthStep {
                manager: m,
                phase: AuthPhase::Discarding,
                action: AuthActionView::RemoveState,
            }
        } else {
            let m = m.with_auth(Some(s));
            match s.expires_at {
                Some(expires_at) => AuthStep {
                    manager: m,
                    phase: AuthPhase::CheckingExpiry { expires_at },
                    action: AuthActionView::ReadClock,
                },
                None => begin_test(m),
            }
        },
    }
}

/// A refresh has been answered: with tokens they are taken over and saved, with an error a new
/// authorization begins.
pub open spec fn step_refreshed(
    m: ManagerView,
    rejected: bool,
    reply: TokenReplyView,
    now: u64,
) -> AuthStep {
    match token_outcome(Grant::Refresh, reply) {
        Ok(t) => {
            let s = with_tokens(m.auth->0, Grant::Refresh, t, now);
            AuthStep {
                manager: m.with_auth(Some(s)),
                phase: AuthPhase::SavingRefresh { rejected },
                action: AuthActionView::SaveState(s),
            }
        },
        Err(_) => begin_login(m),
    }
}

/// An exchange has been answered: with tokens they are taken over and saved, with an error the
/// search ends.
pub open spec fn step_exchanged(m: ManagerView, reply: TokenReplyView, now: u64) -> AuthStep {
    match token_outcome(Grant::Exchange, reply) {
        Ok(t) => {
            let s = with_tokens(m.auth->0, Grant::Exchange, t, now);
            AuthStep {
                manager: m.with_auth(Some(s)),
                phase: AuthPhase::SavingTokens,
                action: AuthActionView::SaveState(s),
            }
        },
        Err(e) => finish(m, Err(e)),
    }
}

/// One step of the search for a usable access token, for an event that the search waits for and
/// the authorization that is drawn where the step draws one.
pub open spec fn auth_step(
    m: ManagerView,
    phase: AuthPhase,
    event: AuthEventView,
    drawn: AuthorizationView,
) -> AuthStep {
    match (phase, event) {
        (AuthPhase::Loading, AuthEventView::Loaded(saved)) => step_loaded(m, saved),
        (AuthPhase::Discarding, AuthEventView::Removed) => begin_login(m),
        (AuthPhase::CheckingExpiry { expires_at }, AuthEventView::Clock(now)) => if needs_refresh(
            now,
            expires_at,
        ) {
            begin_refresh(m, false)
        } else {
            begin_test(m)
        },
        (
            AuthPhase::Refreshing { rejected },
            AuthEventView::Tokens { reply, now },
        ) => step_refreshed(m, rejected, reply, now),
        (AuthPhase::SavingRefresh { rejected }, AuthEventView::Saved(o)) => if save_result(o) is Err {
            begin_login(m)
        } else if rejected {
            finish(m, Ok(()))
        } else {
            begin_test(m)
        },
        (AuthPhase::Testing, AuthEventView::Tested(status)) => if status == Some(401u16) {
            begin_refresh(m, true)
        } else {
            finish(m, Ok(()))
        },
        (AuthPhase::SavingDraft, AuthEventView::Saved(o)) => match save_result(o) {
            Ok(_) => begin_authorization(m, drawn),
            Err(e) => finish(m, Err(e)),
        },
        (AuthPhase::Authorizing, AuthEventView::Redirected(code)) => step_redirected(m, code),
        (AuthPhase::Exchanging, AuthEventView::Tokens { reply, now }) => step_exchanged(
            m,
            reply,
            now,
        ),
        (AuthPhase::SavingTokens, AuthEventView::Saved(o)) => finish(m, save_result(o)),
        _ => arbitrary(),
    }
}

/// Whether an event is one that the search waits for.
pub open spec fn awaits(phase: AuthPhase, event: AuthEventView) -> bool {
    match phase {
        AuthPhase::Loading => event is Loaded,
        AuthPhase::Discarding => event is Removed,
        AuthPhase::CheckingExpiry { .. } => event is Clock,
        AuthPhase::Refreshing { .. } | AuthPhase::Exchanging => {
            event matches AuthEventView::Tokens { reply, now } && expiry_in_range(reply, now)
        },
        AuthPhase::Testing => event is Tested,
        AuthPhase::SavingRefresh { .. } | AuthPhase::SavingDraft | AuthPhase::SavingTokens =>
            event is Saved,
        AuthPhase::Authorizing => event is Redirected,
        AuthPhase::Done => false,
    }
}

/// What the manager holds while the search has come so far: an access token while one is being
/// tried, refreshed or saved, some state while a new authorization is under way, and while the
/// user is being asked, an authorization that was drawn for the client.
pub open spec fn holds_for(m: ManagerView, phase: AuthPhase) -> bool {
    match phase {
        AuthPhase::Loading | AuthPhase::Discarding | AuthPhase::Done => true,
        AuthPhase::CheckingExpiry { .. }
        | AuthPhase::Refreshing { .. }
        | AuthPhase::SavingRefresh { .. }
        | AuthPhase::Testing
        | AuthPhase::SavingTokens => m.access_token() is Some,
        AuthPhase::SavingDraft | AuthPhase::Exchanging => m.auth is Some,
        AuthPhase::Authorizing => {
            &&& m.auth is Some
            &&& m.pending matches Some(a)
            &&& drawn_for(a, m.client_id)
        },
    }
}

/// Whether a step is the given one.
pub open spec fn step_is(
    m: ManagerView,
    r: (AuthPhase, AuthAction),
    step: AuthStep,
) -> bool {
    m == step.manager && r.0 == step.phase && r.1@ == step.action
}

impl TokenManager {
    /// A manager that holds no authorization yet and keeps it in the directory for
    /// configuration.
    pub fn new(
        config_home: Option<String>,
        home: Option<String>,
        profile: ClientProfile,
    ) -> (r: TokenManager)
        ensures
            r@ == (ManagerView {
                state_path: state_file(opt_text(config_home), opt_text(home)),
                client_id: profile.client_id@,
                ping_url: profile.ping_url@,
                auth: None,
                pending: None,
                next_id: 1,
            }),
    {
        let mut state_path = match dirs_next(config_home, home) {
            Some(parts) => parts,
            None => {
                let mut parts: Vec<String> = Vec::new();
                parts.push(".".to_owned());
                assert(texts(parts@) =~= seq!["."@]);
                parts
            },
        };
        let ghost dir = texts(state_path@);
        state_path.push(STATE_FILE.to_owned());
        assert(texts(state_path@) =~= dir.push(STATE_FILE@));
        assert(dir.push(STATE_FILE@) =~= state_file(opt_text(config_home), opt_text(home)));
        TokenManager { state_path, profile, auth_state: None, pending: None, next_id: 1 }
    }

    /// Where the authorization is kept, as the parts of its path.
    pub fn state_path(&self) -> (r: &Vec<String>)
        ensures
            texts(r@) == self@.state_path,
    {
        &self.state_path
    }

    /// A number for the next message: each is one more than the one before.
    pub fn next_id(&mut self) -> (r: u64)
        ensures
            r == old(self)@.next_id,
            final(self)@ == (ManagerView { next_id: next_number(old(self)@.next_id), ..old(self)@ }),
    {
        let id: u64 = self.next_id;
        self.next_id = if id == u64::MAX {
            0
        } else {
            id + 1
        };
        id
    }

    /// Takes over the saved state, as it has been read, where it has an access token, and says
    /// whether it has.
    pub fn peek_token(&mut self, saved: Option<AuthState>) -> (r: bool)
        ensures
            r == (opt_state(saved) matches Some(s) && s.access_token is Some),
            final(self)@ == (if r {
                old(self)@.with_auth(opt_state(saved))
            } else {
                old(self)@
            }),
    {
        if let Some(state) = saved {
            if state.access_token.is_some() {
                self.auth_state = Some(state);
                return true;
            }
        }
        false
    }

    /// The current access token.
    pub fn access_token(&self) -> (r: Result<&str, AuthError>)
        ensures
            match r {
                Ok(t) => self@.access_token() == Some(t@),
                Err(e) => self@.access_token() is None && e@ == AuthErrorView::NoAccessToken,
            },
    {
        match &self.auth_state {
            Some(s) => match &s.access_token {
                Some(t) => Ok(t.as_str()),
                None => Err(AuthError::NoAccessToken),
            },
            None => Err(AuthError::NoAccessToken),
        }
    }

    /// The current refresh token.
    pub fn refresh_token_str(&self) -> (r: Option<&str>)
        ensures
            match r {
                Some(t) => self@.refresh_token() == Some(t@),
                None => self@.refresh_token() is None,
            },
    {
        match &self.auth_state {
            Some(s) => match &s.refresh_token {
                Some(t) => Some(t.as_str()),
                None => None,
            },
            None => None,
        }
    }

    /// The request that shows whether the current access token is accepted.
    pub fn test_connection_request(&mut self) -> (r: Result<HttpRequest, AuthError>)
        ensures
            match r {
                Ok(q) => {
                    &&& old(self)@.access_token() matches Some(t)
                    &&& q@ == ping_request(old(self)@.ping_url, t, old(self)@.next_id)
                    &&& final(self)@ == (ManagerView {
                        next_id: next_number(old(self)@.next_id),
                        ..old(self)@
                    })
                },
                Err(e) => {
                    &&& old(self)@.access_token() is None
                    &&& e@ == AuthErrorView::NoAccessToken
                    &&& final(self)@ == old(self)@
                },
            },
    {
        let token = match self.access_token() {
            Ok(t) => t.to_owned(),
            Err(e) => {
                return Err(e);
            },
        };
        let id: u64 = self.next_id();
        Ok(make_ping_request(self.profile.ping_url.as_str(), token.as_str(), id))
    }

    /// Whether the access token counts as accepted, from the status of the answer to a ping: it
    /// does unless the server says that it is not authorized.
    pub fn test_connection(&self, status: Status) -> (r: bool)
        ensures
            r == (status@ != 401),
    {
        !status.is_unauthorized()
    }

    /// The request that refreshes the access token.
    pub fn refresh_token_request(&self) -> (r: Result<HttpRequest, AuthError>)
        ensures
            match r {
                Ok(q) => {
                    &&& self@.refresh_token() matches Some(t)
                    &&& q@ == token_request(refresh_params(t, self@.auth->0.client_id))
                },
                Err(e) => self@.refresh_token() is None && e@ == AuthErrorView::NoRefreshToken,
            },
    {
        match &self.auth_state {
            Some(s) => match &s.refresh_token {
                Some(t) => Ok(refresh_request(t.as_str(), s.client_id.as_str())),
                None => Err(AuthError::NoRefreshToken),
            },
            None => Err(AuthError::NoRefreshToken),
        }
    }

    /// Takes over what a request to the token endpoint has brought.
    fn take_reply(&mut self, grant: Grant, reply: TokenReply, now: u64) -> (r: Result<
        (),
        AuthError,
    >)
        requires
            old(self)@.auth is Some,
            expiry_in_range(reply@, now),
        ensures
            match (r, token_outcome(grant, reply@)) {
                (Ok(_), Ok(t)) => final(self)@ == old(self)@.with_auth(
                    Some(with_tokens(old(self)@.auth->0, grant, t, now)),
                ),
                (Err(e), Err(expected)) => e@ == expected && final(self)@ == old(self)@,
                _ => false,
            },
    {
        match token_result(grant, reply) {
            Ok(t) => {
                if let Some(mut s) = self.auth_state.take() {
                    s.take_tokens(grant, t, now);
                    self.auth_state = Some(s);
                }
                Ok(())
            },
            Err(e) => Err(e),
        }
    }

    /// Takes over what the refresh of the access token has brought.
    pub fn refresh_token(&mut self, reply: TokenReply, now: u64) -> (r: Result<(), AuthError>)
        requires
            old(self)@.auth is Some,
            expiry_in_range(reply@, now),
        ensures
            match (r, token_outcome(Grant::Refresh, reply@)) {
                (Ok(_), Ok(t)) => final(self)@ == old(self)@.with_auth(
                    Some(with_tokens(old(self)@.auth->0, Grant::Refresh, t, now)),
                ),
                (Err(e), Err(expected)) => e@ == expected && final(self)@ == old(self)@,
                _ => false,
            },
    {
        self.take_reply(Grant::Refresh, reply, now)
    }

    /// Takes over what the exchange of an authorization code has brought.
    pub fn exchange_code(&mut self, reply: TokenReply, now: u64) -> (r: Result<(), AuthError>)
        requires
            old(self)@.auth is Some,
            expiry_in_range(reply@, now),
        ensures
            match (r, token_outcome(Grant::Exchange, reply@)) {
                (Ok(_), Ok(t)) => final(self)@ == old(self)@.with_auth(
                    Some(with_tokens(old(self)@.auth->0, Grant::Exchange, t, now)),
                ),
                (Err(e), Err(expected)) => e@ == expected && final(self)@ == old(self)@,
                _ => false,
            },
    {
        self.take_reply(Grant::Exchange, reply, now)
    }

    /// A copy of the current state.
    fn current_state(&self) -> (r: AuthState)
        requires
            self@.auth is Some,
        ensures
            r@ == self@.auth->0,
    {
        match &self.auth_state {
            Some(s) => s.clone(),
            None => unreached(),
        }
    }

    /// Begins a new authorization.
    fn start_login(&mut self) -> (r: (AuthPhase, AuthAction))
        ensures
            step_is(final(self)@, r, begin_login(old(self)@)),
    {
        let draft = AuthState::draft(self.profile.client_id.as_str());
        self.auth_state = Some(draft.clone());
        (AuthPhase::SavingDraft, AuthAction::SaveState(draft))
    }

    /// Begins a refresh of the access token.
    fn start_refresh(&mut self, rejected: bool) -> (r: (AuthPhase, AuthAction))
        ensures
            step_is(final(self)@, r, begin_refresh(old(self)@, rejected)),
    {
        match self.refresh_token_request() {
            Ok(q) => (AuthPhase::Refreshing { rejected }, AuthAction::RequestTokens(q)),
            Err(_) => self.start_login(),
        }
    }

    /// Begins a trial of the access token.
    fn start_test(&mut self) -> (r: (AuthPhase, AuthAction))
        requires
            old(self)@.access_token() is Some,
        ensures
            step_is(final(self)@, r, begin_test(old(self)@)),
    {
        match self.test_connection_request() {
            Ok(q) => (AuthPhase::Testing, AuthAction::Ping(q)),
            Err(_) => unreached(),
        }
    }

    /// Asks the user for the given authorization.
    fn start_authorization(&mut self, authorization: Authorization) -> (r: (AuthPhase, AuthAction))
        ensures
            step_is(final(self)@, r, begin_authorization(old(self)@, authorization@)),
    {
        let url = authorization.url().to_owned();
        let state = authorization.state().to_owned();
        self.pending = Some(authorization);
        (AuthPhase::Authorizing, AuthAction::Authorize { url, state })
    }

    /// Exchanges the code that the redirect has brought.
    fn on_redirected(&mut self, code: Option<String>) -> (r: (AuthPhase, AuthAction))
        requires
            old(self)@.pending is Some,
        ensures
            step_is(final(self)@, r, step_redirected(old(self)@, opt_text(code))),
    {
        let pending = self.pending.take();
        match (code, pending) {
            (Some(code), Some(authorization)) => {
                let q = exchange_request(
                    code.as_str(),
                    authorization.code_verifier(),
                    authorization.client_id(),
                );
                (AuthPhase::Exchanging, AuthAction::RequestTokens(q))
            },
            _ => (AuthPhase::Done, AuthAction::Finish(Err(AuthError::CallbackLost))),
        }
    }

    /// Looks at the saved state.
    fn on_loaded(&mut self, saved: Option<AuthState>) -> (r: (AuthPhase, AuthAction))
        ensures
            step_is(final(self)@, r, step_loaded(old(self)@, opt_state(saved))),
    {
        match saved {
            None => self.start_login(),
            Some(s) => {
                if s.access_token.is_none() {
                    return (AuthPhase::Discarding, AuthAction::RemoveState);
                }
                let expires_at = s.expires_at;
                self.auth_state = Some(s);
                match expires_at {
                    Some(expires_at) => (
                        AuthPhase::CheckingExpiry { expires_at },
                        AuthAction::ReadClock,
                    ),
                    None => self.start_test(),
                }
            },
        }
    }

    /// One step of the search for a usable access token: from how far the search has come and
    /// what has happened outside to how far it has come then and what is to be done outside.
    /// Before the user is asked, the secrets of a new authorization are drawn; the step is the
    /// one for the authorization that the manager then holds.
    pub fn ensure_authenticated(&mut self, phase: AuthPhase, event: AuthEvent) -> (r: (
        AuthPhase,
        AuthAction,
    ))
        requires
            awaits(phase, event@),
            holds_for(old(self)@, phase),
        ensures
            step_is(
                final(self)@,
                r,
                auth_step(old(self)@, phase, event@, final(self)@.pending->0),
            ),
            holds_for(final(self)@, r.0),
    {
        match (phase, event) {
            (AuthPhase::Loading, AuthEvent::Loaded(saved)) => self.on_loaded(saved),
            (AuthPhase::Discarding, AuthEvent::Removed) => self.start_login(),
            (AuthPhase::CheckingExpiry { expires_at }, AuthEvent::Clock(now)) => {
                let margin: u64 = if expires_at < EXPIRY_MARGIN_SECS {
                    0
                } else {
                    expires_at - EXPIRY_MARGIN_SECS
                };
                if now >= margin {
                    self.start_refresh(false)
                } else {
                    self.start_test()
                }
            },
            (AuthPhase::Refreshing { rejected }, AuthEvent::Tokens { reply, now }) => {
                match self.refresh_token(reply, now) {
                    Ok(_) => (
                        AuthPhase::SavingRefresh { rejected },
                        AuthAction::SaveState(self.current_state()),
                    ),
                    Err(_) => self.start_login(),
                }
            },
            (AuthPhase::SavingRefresh { rejected }, AuthEvent::Saved(outcome)) => {
                match save_to_disk(outcome) {
                    Ok(_) => if rejected {
                        (AuthPhase::Done, AuthAction::Finish(Ok(())))
                    } else {
                        self.start_test()
                    },
                    Err(_) => self.start_login(),
                }
            },
            (AuthPhase::Testing, AuthEvent::Tested(status)) => {
                let accepted = match status {
                    Some(status) => self.test_connection(status),
                    None => true,
                };
                if accepted {
                    (AuthPhase::Done, AuthAction::Finish(Ok(())))
                } else {
                    self.start_refresh(true)
                }
            },
            (AuthPhase::SavingDraft, AuthEvent::Saved(outcome)) => {
                match save_to_disk(outcome) {
                    Ok(_) => {
                        let drawn = Authorization::begin(self.profile.client_id.as_str());
                        self.start_authorization(drawn)
                    },
                    Err(e) => (AuthPhase::Done, AuthAction::Finish(Err(e))),
                }
            },
            (AuthPhase::Authorizing, AuthEvent::Redirected(code)) => self.on_redirected(code),
            (AuthPhase::Exchanging, AuthEvent::Tokens { reply, now }) => {
                match self.exchange_code(reply, now) {
                    Ok(_) => (
                        AuthPhase::SavingTokens,
                        AuthAction::SaveState(self.current_state()),
                    ),
                    Err(e) => (AuthPhase::Done, AuthAction::Finish(Err(e))),
                }
            },
            (AuthPhase::SavingTokens, AuthEvent::Saved(outcome)) => (
                AuthPhase::Done,
                AuthAction::Finish(save_to_disk(outcome)),
            ),
            _ => unreached(),
        }
    }
}

} // verus!
