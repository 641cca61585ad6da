//! The token manager: what each step of the search for an access token does.
use crate::http::{Body, HttpRequest, Method, Status};
use crate::json::{unsigned_number, JsonModel};
use crate::manager::{
    dirs_next, save_to_disk, AuthAction, AuthEvent, AuthPhase, ClientProfile, ManagerView,
    SaveOutcome, TokenManager,
};
use crate::operations::tokens::{
    address, addresses, asks_to_exchange, asks_to_refresh, exchange_forms, is_draft, is_text,
    refresh_forms, same_option,
};
use crate::pkce::{challenge_of, is_code_verifier, is_state};
use crate::text::{pair_texts, texts};
use crate::tokens::{
    drawn_for, AuthError, AuthState, AuthStateView, Endpoint, Grant, TokenReply, TokenResponse,
};
use vstd::prelude::*;

verus! {

/// A state is looked at field by field.
pub proof fn states_stand_for_their_fields(s: AuthState)
    ensures
        s@.client_id == s.client_id@,
        match (s.access_token, s@.access_token) {
            (Some(a), Some(b)) => a@ == b,
            (None, None) => true,
            _ => false,
        },
        match (s.refresh_token, s@.refresh_token) {
            (Some(a), Some(b)) => a@ == b,
            (None, None) => true,
            _ => false,
        },
        s@.expires_at == s.expires_at,
        match (s.scope, s@.scope) {
            (Some(a), Some(b)) => a@ == b,
            (None, None) => true,
            _ => false,
        },
{
}

/// Whether a request is a ping with an access token and a message number.
pub open spec fn pings(r: HttpRequest, url: Seq<char>, token: Seq<char>, id: u64) -> bool {
    &&& r.method == Method::Post
    &&& r.url@ == url
    &&& pair_texts(r.headers@) == seq![
        ("Authorization"@, "Bearer "@ + token),
        ("Content-Type"@, "application/json"@),
    ]
    &&& r.timeout_secs is None
    &&& r.body matches Body::Json(doc)
    &&& doc.model() matches JsonModel::Object(said)
    &&& said.dom() == set!["jsonrpc"@, "id"@, "method"@, "params"@]
    &&& said["jsonrpc"@] == JsonModel::Text("2.0"@)
    &&& said["id"@] == JsonModel::Number(unsigned_number(id))
    &&& said["method"@] == JsonModel::Text("ping"@)
    &&& said["params"@] matches JsonModel::Object(nothing)
    &&& nothing.dom() == Set::<Seq<char>>::empty()
}

proof fn pinged(r: HttpRequest, url: Seq<char>, token: Seq<char>, id: u64)
    requires
        r@ == crate::manager::ping_request(url, token, id),
    ensures
        pings(r, url, token, id),
{
    reveal_strlit("jsonrpc");
    reveal_strlit("id");
    reveal_strlit("method");
    reveal_strlit("params");
    assert("jsonrpc"@.len() == 7 && "id"@.len() == 2 && "method"@.len() == 6 && "params"@.len()
        == 6);
    assert("method"@[0] == 'm' && "params"@[0] == 'p');
    let said = crate::manager::ping_document(id)->Object_0;
    assert(said.dom() =~= set!["jsonrpc"@, "id"@, "method"@, "params"@]);
    let nothing = said["params"@]->Object_0;
    assert(nothing.dom() =~= Set::<Seq<char>>::empty());
}

/// The number after a number, where zero comes after the largest.
pub open spec fn following(n: u64) -> int {
    (n + 1) % 0x1_0000_0000_0000_0000
}

/// Whether a step begins a login: the manager and the disk are to hold the name of the client
/// and no token, and nothing else changes.
pub open spec fn logs_in(m: ManagerView, n: ManagerView, r: (AuthPhase, AuthAction)) -> bool {
    &&& r.0 == AuthPhase::SavingDraft
    &&& r.1 matches AuthAction::SaveState(s)
    &&& is_draft(s, m.client_id)
    &&& n == ManagerView { auth: Some(s@), ..m }
}

/// Whether a step tries the access token that the manager holds, with the next message number,
/// and changes nothing but that number.
pub open spec fn tries(m: ManagerView, n: ManagerView, r: (AuthPhase, AuthAction)) -> bool {
    &&& r.0 == AuthPhase::Testing
    &&& r.1 matches AuthAction::Ping(q)
    &&& m.auth matches Some(s)
    &&& s.access_token matches Some(token)
    &&& pings(q, m.ping_url, token, m.next_id)
    &&& n == ManagerView { next_id: n.next_id, ..m }
    &&& n.next_id == following(m.next_id)
}

/// Whether a step asks for new tokens with the refresh token that the manager holds, or begins a
/// login where it holds none.
pub open spec fn refreshes(
    m: ManagerView,
    n: ManagerView,
    rejected: bool,
    r: (AuthPhase, AuthAction),
) -> bool {
    match m.auth {
        Some(s) => match s.refresh_token {
            Some(token) => {
                &&& r.0 == AuthPhase::Refreshing { rejected }
                &&& r.1 matches AuthAction::RequestTokens(q)
                &&& asks_to_refresh(q, token, s.client_id)
                &&& n == m
            },
            None => logs_in(m, n, r),
        },
        None => logs_in(m, n, r),
    }
}

/// Whether a step ends the search well and changes nothing.
pub open spec fn ends_well(m: ManagerView, n: ManagerView, r: (AuthPhase, AuthAction)) -> bool {
    &&& r.0 == AuthPhase::Done
    &&& r.1 matches AuthAction::Finish(Ok(()))
    &&& n == m
}

/// Whether a step ends the search because the state could not be saved.
pub open spec fn ends_unsaved(
    m: ManagerView,
    n: ManagerView,
    r: (AuthPhase, AuthAction),
    outcome: SaveOutcome,
) -> bool {
    &&& r.0 == AuthPhase::Done
    &&& n == m
    &&& r.1 matches AuthAction::Finish(Err(e))
    &&& match outcome {
        SaveOutcome::Saved => false,
        SaveOutcome::EncodeFailed { message } => e matches AuthError::EncodeState { message: w }
            && w@ == message@,
        SaveOutcome::WriteFailed => e is WriteState,
    }
}

/// Whether a state is the earlier one with the tokens of an answer that came at the given time.
pub open spec fn holds_answer(
    s: AuthState,
    before: AuthStateView,
    grant: Grant,
    t: TokenResponse,
    now: u64,
) -> bool {
    &&& s.client_id@ == before.client_id
    &&& is_text(s.access_token, t.access_token@)
    &&& match t.expires_in {
        Some(n) => s.expires_at matches Some(at) && at - now == n,
        None => s.expires_at is None,
    }
    &&& match t.refresh_token {
        Some(new) => is_text(s.refresh_token, new@),
        None => match grant {
            Grant::Exchange => s.refresh_token is None,
            Grant::Refresh => match before.refresh_token {
                Some(kept) => is_text(s.refresh_token, kept),
                None => s.refresh_token is None,
            },
        },
    }
    &&& match t.scope {
        Some(new) => is_text(s.scope, new@),
        None => match before.scope {
            Some(kept) => is_text(s.scope, kept),
            None => s.scope is None,
        },
    }
}

/// Without a saved state a login begins.
pub proof fn nothing_saved_leads_to_login(m: &mut TokenManager, r: (AuthPhase, AuthAction))
    requires
        call_ensures(
            TokenManager::ensure_authenticated,
            (m, AuthPhase::Loading, AuthEvent::Loaded(None)),
            r,
        ),
    ensures
        logs_in(old(m)@, final(m)@, r),
{
}

/// A saved state without an access token is removed, and then a login begins.
pub proof fn states_without_a_token_are_removed(
    m: &mut TokenManager,
    s: AuthState,
    r: (AuthPhase, AuthAction),
)
    requires
        call_ensures(
            TokenManager::ensure_authenticated,
            (m, AuthPhase::Loading, AuthEvent::Loaded(Some(s))),
            r,
        ),
        s.access_token is None,
    ensures
        r.0 == AuthPhase::Discarding,
        r.1 is RemoveState,
        final(m)@ == old(m)@,
{
}

/// Once the state has been removed, or could not be, a login begins.
pub proof fn removed_states_lead_to_login(m: &mut TokenManager, r: (AuthPhase, AuthAction))
    requires
        call_ensures(
            TokenManager::ensure_authenticated,
            (m, AuthPhase::Discarding, AuthEvent::Removed),
            r,
        ),
    ensures
        logs_in(old(m)@, final(m)@, r),
{
}

/// A saved state with an access token is taken over: where it says when the token expires the
/// time is read, and otherwise the token is tried.
pub proof fn saved_tokens_are_taken_over(
    m: &mut TokenManager,
    s: AuthState,
    r: (AuthPhase, AuthAction),
)
    requires
        call_ensures(
            TokenManager::ensure_authenticated,
            (m, AuthPhase::Loading, AuthEvent::Loaded(Some(s))),
            r,
        ),
        s.access_token is Some,
    ensures
        match s.expires_at {
            Some(expires_at) => {
                &&& r.0 == AuthPhase::CheckingExpiry { expires_at }
                &&& r.1 is ReadClock
                &&& final(m)@ == ManagerView { auth: Some(s@), ..old(m)@ }
            },
            None => tries(ManagerView { auth: Some(s@), ..old(m)@ }, final(m)@, r),
        },
{
    if s.expires_at is None {
        pinged(r.1->Ping_0, old(m)@.ping_url, s.access_token->0@, old(m)@.next_id);
    }
}

/// From a minute before it expires an access token is refreshed, with the refresh token that is
/// held; earlier than that it is tried.
pub proof fn tokens_are_refreshed_a_minute_early(
    m: &mut TokenManager,
    expires_at: u64,
    now: u64,
    r: (AuthPhase, AuthAction),
)
    requires
        call_ensures(
            TokenManager::ensure_authenticated,
            (m, AuthPhase::CheckingExpiry { expires_at }, AuthEvent::Clock(now)),
            r,
        ),
        old(m)@.auth matches Some(s) && s.access_token is Some,
    ensures
        if expires_at - now <= 60 {
            refreshes(old(m)@, final(m)@, false, r)
        } else {
            tries(old(m)@, final(m)@, r)
        },
{
    let s = old(m)@.auth->0;
    if expires_at - now <= 60 {
        if let Some(token) = s.refresh_token {
            refresh_forms(r.1->RequestTokens_0, token, s.client_id);
        }
    } else {
        pinged(r.1->Ping_0, old(m)@.ping_url, s.access_token->0, old(m)@.next_id);
    }
}

/// An access token that the server rejects, with the status 401, is refreshed with the refresh
/// token that is held; with any other status, and without one, the search ends well.
pub proof fn rejected_tokens_are_refreshed(
    m: &mut TokenManager,
    status: Option<Status>,
    r: (AuthPhase, AuthAction),
)
    requires
        call_ensures(
            TokenManager::ensure_authenticated,
            (m, AuthPhase::Testing, AuthEvent::Tested(status)),
            r,
        ),
    ensures
        if status matches Some(s) && s@ == 401 {
            refreshes(old(m)@, final(m)@, true, r)
        } else {
            ends_well(old(m)@, final(m)@, r)
        },
{
    if status is Some && status->0@ == 401 {
        if let Some(s) = old(m)@.auth {
            if let Some(token) = s.refresh_token {
                refresh_forms(r.1->RequestTokens_0, token, s.client_id);
            }
        }
    }
}

/// Whether a reply brings tokens.
pub open spec fn brings_tokens(reply: TokenReply) -> bool {
    reply matches TokenReply::Answered(t) && t.error is None
}

/// The tokens that a refresh brings are taken over and saved; a refresh that brings none leads to
/// a login.
pub proof fn refreshes_are_taken_over(
    m: &mut TokenManager,
    rejected: bool,
    reply: TokenReply,
    now: u64,
    r: (AuthPhase, AuthAction),
)
    requires
        call_ensures(
            TokenManager::ensure_authenticated,
            (m, AuthPhase::Refreshing { rejected }, AuthEvent::Tokens { reply, now }),
            r,
        ),
        old(m)@.auth is Some,
        brings_tokens(reply) ==> (reply->Answered_0.expires_in matches Some(n) ==> now + n
            <= u64::MAX),
    ensures
        match reply {
            TokenReply::Answered(t) => if t.error is None {
                &&& r.0 == AuthPhase::SavingRefresh { rejected }
                &&& r.1 matches AuthAction::SaveState(s)
                &&& holds_answer(s, old(m)@.auth->0, Grant::Refresh, t, now)
                &&& final(m)@ == ManagerView { auth: Some(s@), ..old(m)@ }
            } else {
                logs_in(old(m)@, final(m)@, r)
            },
            _ => logs_in(old(m)@, final(m)@, r),
        },
{
}

/// Refreshed tokens that are saved end the search where the old one was rejected, and are tried
/// where it was about to expire; where they cannot be saved, a login begins.
pub proof fn refreshed_tokens_are_saved_first(
    m: &mut TokenManager,
    rejected: bool,
    outcome: SaveOutcome,
    r: (AuthPhase, AuthAction),
)
    requires
        call_ensures(
            TokenManager::ensure_authenticated,
            (m, AuthPhase::SavingRefresh { rejected }, AuthEvent::Saved(outcome)),
            r,
        ),
        old(m)@.auth matches Some(s) && s.access_token is Some,
    ensures
        if !(outcome is Saved) {
            logs_in(old(m)@, final(m)@, r)
        } else if rejected {
            ends_well(old(m)@, final(m)@, r)
        } else {
            tries(old(m)@, final(m)@, r)
        },
{
    if outcome is Saved && !rejected {
        let s = old(m)@.auth->0;
        pinged(r.1->Ping_0, old(m)@.ping_url, s.access_token->0, old(m)@.next_id);
    }
}

/// Once the state with which a login begins is saved, the user is asked, at the address that goes
/// with the client and the secrets that the manager then holds; where it cannot be saved the
/// search ends.
pub proof fn users_are_asked_at_the_drawn_address(
    m: &mut TokenManager,
    outcome: SaveOutcome,
    r: (AuthPhase, AuthAction),
)
    requires
        call_ensures(
            TokenManager::ensure_authenticated,
            (m, AuthPhase::SavingDraft, AuthEvent::Saved(outcome)),
            r,
        ),
    ensures
        if outcome is Saved {
            &&& r.0 == AuthPhase::Authorizing
            &&& final(m)@.pending matches Some(a)
            &&& is_code_verifier(a.code_verifier)
            &&& is_state(a.state)
            &&& a.client_id == old(m)@.client_id
            &&& r.1 matches AuthAction::Authorize { url, state }
            &&& url@ == address(old(m)@.client_id, challenge_of(a.code_verifier), a.state)
            &&& state@ == a.state
            &&& final(m)@ == ManagerView { pending: Some(a), ..old(m)@ }
        } else {
            ends_unsaved(old(m)@, final(m)@, r, outcome)
        },
{
    if outcome is Saved {
        let a = final(m)@.pending->0;
        addresses(old(m)@.client_id, challenge_of(a.code_verifier), a.state);
    }
}

/// A code is exchanged with the secret of the authorization for which the user was asked, and that
/// authorization is then given up; without a code the search ends.
pub proof fn codes_are_exchanged_with_the_secret(
    m: &mut TokenManager,
    code: Option<String>,
    r: (AuthPhase, AuthAction),
)
    requires
        call_ensures(
            TokenManager::ensure_authenticated,
            (m, AuthPhase::Authorizing, AuthEvent::Redirected(code)),
            r,
        ),
        old(m)@.pending is Some,
    ensures
        final(m)@ == (ManagerView { pending: None, ..old(m)@ }),
        match code {
            Some(c) => {
                &&& r.0 == AuthPhase::Exchanging
                &&& r.1 matches AuthAction::RequestTokens(q)
                &&& asks_to_exchange(
                    q,
                    c@,
                    old(m)@.pending->0.code_verifier,
                    old(m)@.pending->0.client_id,
                )
            },
            None => {
                &&& r.0 == AuthPhase::Done
                &&& r.1 matches AuthAction::Finish(Err(e))
                &&& e is CallbackLost
            },
        },
{
    if let Some(c) = code {
        let a = old(m)@.pending->0;
        exchange_forms(r.1->RequestTokens_0, c@, a.code_verifier, a.client_id);
    }
}

/// Whether an error says why a reply brings no tokens.
pub open spec fn says_why(e: AuthError, grant: Grant, reply: TokenReply) -> bool {
    match reply {
        TokenReply::SendFailed => e matches AuthError::SendFailed(Endpoint::Token(g)) && g == grant,
        TokenReply::Malformed => e matches AuthError::Malformed(Endpoint::Token(g)) && g == grant,
        TokenReply::Refused { status, body } => {
            &&& e matches AuthError::Refused { endpoint: Endpoint::Token(g), status: s, body: b }
            &&& g == grant
            &&& s@ == status@
            &&& b@ == body@
        },
        TokenReply::Answered(t) => {
            &&& t.error matches Some(reason)
            &&& e matches AuthError::Denied { grant: g, error: w, description: d }
            &&& g == grant
            &&& w@ == reason@
            &&& same_option(d, t.error_description)
        },
    }
}

/// Whether a step ends the search because an exchange brought no tokens, and says why.
pub open spec fn ends_without_tokens(
    m: ManagerView,
    n: ManagerView,
    r: (AuthPhase, AuthAction),
    reply: TokenReply,
) -> bool {
    &&& r.0 == AuthPhase::Done
    &&& n == m
    &&& r.1 matches AuthAction::Finish(Err(e))
    &&& says_why(e, Grant::Exchange, reply)
}

/// The tokens that an exchange brings are taken over and saved; an exchange that brings none ends
/// the search with the reason.
pub proof fn exchanges_are_taken_over(
    m: &mut TokenManager,
    reply: TokenReply,
    now: u64,
    r: (AuthPhase, AuthAction),
)
    requires
        call_ensures(
            TokenManager::ensure_authenticated,
            (m, AuthPhase::Exchanging, AuthEvent::Tokens { reply, now }),
            r,
        ),
        old(m)@.auth is Some,
        brings_tokens(reply) ==> (reply->Answered_0.expires_in matches Some(n) ==> now + n
            <= u64::MAX),
    ensures
        if brings_tokens(reply) {
            &&& r.0 == AuthPhase::SavingTokens
            &&& r.1 matches AuthAction::SaveState(s)
            &&& holds_answer(s, old(m)@.auth->0, Grant::Exchange, reply->Answered_0, now)
            &&& final(m)@ == ManagerView { auth: Some(s@), ..old(m)@ }
        } else {
            ends_without_tokens(old(m)@, final(m)@, r, reply)
        },
{
}

/// A login ends well exactly where its tokens are saved.
pub proof fn logins_end_once_their_tokens_are_saved(
    m: &mut TokenManager,
    outcome: SaveOutcome,
    r: (AuthPhase, AuthAction),
)
    requires
        call_ensures(
            TokenManager::ensure_authenticated,
            (m, AuthPhase::SavingTokens, AuthEvent::Saved(outcome)),
            r,
        ),
    ensures
        if outcome is Saved {
            ends_well(old(m)@, final(m)@, r)
        } else {
            ends_unsaved(old(m)@, final(m)@, r, outcome)
        },
{
}

/// The tokens of a login last as long as the server says: whoever loads the state that a login
/// saved, before the last minute of the lifetime, tries the token that the login brought, and
/// from then on refreshes it.
pub proof fn fresh_logins_are_used_until_they_expire(
    first: &mut TokenManager,
    t: TokenResponse,
    n: u64,
    now: u64,
    saving: (AuthPhase, AuthAction),
    second: &mut TokenManager,
    loaded: AuthState,
    looking: (AuthPhase, AuthAction),
    third: &mut TokenManager,
    later: u64,
    r: (AuthPhase, AuthAction),
)
    requires
        call_ensures(
            TokenManager::ensure_authenticated,
            (
                first,
                AuthPhase::Exchanging,
                AuthEvent::Tokens { reply: TokenReply::Answered(t), now },
            ),
            saving,
        ),
        old(first)@.auth is Some,
        t.error is None,
        t.expires_in == Some(n),
        now + n <= u64::MAX,
        now <= later,
        saving.1 matches AuthAction::SaveState(s) && s@ == loaded@,
        call_ensures(
            TokenManager::ensure_authenticated,
            (second, AuthPhase::Loading, AuthEvent::Loaded(Some(loaded))),
            looking,
        ),
        old(third)@ == final(second)@,
        call_ensures(
            TokenManager::ensure_authenticated,
            (third, looking.0, AuthEvent::Clock(later)),
            r,
        ),
    ensures
        later - now + 60 < n ==> {
            &&& r.0 == AuthPhase::Testing
            &&& r.1 matches AuthAction::Ping(q)
            &&& pings(q, old(third)@.ping_url, t.access_token@, old(third)@.next_id)
        },
        later - now + 60 >= n && t.refresh_token is Some ==> {
            &&& r.0 == AuthPhase::Refreshing { rejected: false }
            &&& r.1 matches AuthAction::RequestTokens(q)
            &&& asks_to_refresh(q, t.refresh_token->0@, old(first)@.auth->0.client_id)
        },
{
    let s = loaded@;
    assert(s.access_token == Some(t.access_token@));
    assert(loaded.access_token is Some);
    assert(loaded.expires_at == Some((now + n) as u64));
    assert(looking.0 == AuthPhase::CheckingExpiry { expires_at: (now + n) as u64 });
    if later - now + 60 < n {
        pinged(r.1->Ping_0, old(third)@.ping_url, t.access_token@, old(third)@.next_id);
    } else if t.refresh_token is Some {
        refresh_forms(r.1->RequestTokens_0, t.refresh_token->0@, s.client_id);
    }
}

/// Every event that can follow what a step asked for is one that the next step takes.
pub proof fn steps_take_every_event_they_asked_for(
    m: &mut TokenManager,
    saved: Option<AuthState>,
    now: u64,
    status: Option<Status>,
    outcome: SaveOutcome,
    expires_at: u64,
    rejected: bool,
)
    ensures
        call_requires(
            TokenManager::ensure_authenticated,
            (m, AuthPhase::Loading, AuthEvent::Loaded(saved)),
        ),
        call_requires(
            TokenManager::ensure_authenticated,
            (m, AuthPhase::Discarding, AuthEvent::Removed),
        ),
        old(m)@.access_token() is Some ==> {
            &&& call_requires(
                TokenManager::ensure_authenticated,
                (m, AuthPhase::CheckingExpiry { expires_at }, AuthEvent::Clock(now)),
            )
            &&& call_requires(
                TokenManager::ensure_authenticated,
                (m, AuthPhase::Testing, AuthEvent::Tested(status)),
            )
            &&& call_requires(
                TokenManager::ensure_authenticated,
                (m, AuthPhase::SavingRefresh { rejected }, AuthEvent::Saved(outcome)),
            )
            &&& call_requires(
                TokenManager::ensure_authenticated,
                (m, AuthPhase::SavingTokens, AuthEvent::Saved(outcome)),
            )
        },
        old(m)@.auth is Some ==> call_requires(
            TokenManager::ensure_authenticated,
            (m, AuthPhase::SavingDraft, AuthEvent::Saved(outcome)),
        ),
{
}

/// So is every reply of the token endpoint whose time of expiry can be told, and everything that
/// the wait for the redirect can end with.
pub proof fn steps_take_every_reply_they_asked_for(
    m: &mut TokenManager,
    reply: TokenReply,
    now: u64,
    code: Option<String>,
    rejected: bool,
)
    requires
        brings_tokens(reply) ==> (reply->Answered_0.expires_in matches Some(n) ==> now + n
            <= u64::MAX),
    ensures
        old(m)@.access_token() is Some ==> call_requires(
            TokenManager::ensure_authenticated,
            (m, AuthPhase::Refreshing { rejected }, AuthEvent::Tokens { reply, now }),
        ),
        old(m)@.auth is Some ==> call_requires(
            TokenManager::ensure_authenticated,
            (m, AuthPhase::Exchanging, AuthEvent::Tokens { reply, now }),
        ),
        old(m)@.auth is Some && (old(m)@.pending matches Some(a) && drawn_for(
            a,
            old(m)@.client_id,
        )) ==> call_requires(
            TokenManager::ensure_authenticated,
            (m, AuthPhase::Authorizing, AuthEvent::Redirected(code)),
        ),
{
}

/// The texts of a row of parts.
pub open spec fn path_is(parts: Seq<String>, expected: Seq<Seq<char>>) -> bool {
    &&& parts.len() == expected.len()
    &&& forall|i: int| 0 <= i < parts.len() ==> (#[trigger] parts[i])@ == expected[i]
}

/// The directory for configuration is the one that is set, else `.config` at home.
pub proof fn configuration_is_where_it_is_set(
    config_home: Option<String>,
    home: Option<String>,
    r: Option<Vec<String>>,
)
    requires
        call_ensures(dirs_next, (config_home, home), r),
    ensures
        match (config_home, home) {
            (Some(dir), _) => r matches Some(parts) && path_is(parts@, seq![dir@]),
            (None, Some(dir)) => r matches Some(parts) && path_is(
                parts@,
                seq![dir@, ".config"@],
            ),
            (None, None) => r is None,
        },
{
    if let Some(parts) = r {
        assert forall|i: int| 0 <= i < parts@.len() implies (#[trigger] parts@[i])@ == texts(
            parts@,
        )[i] by {}
        assert(texts(parts@).len() == parts@.len());
    }
}

/// A new manager holds no token, keeps its state in the directory for configuration, or in the
/// current one, and counts its messages from one.
pub proof fn new_managers_hold_nothing(
    config_home: Option<String>,
    home: Option<String>,
    profile: ClientProfile,
    m: TokenManager,
)
    requires
        call_ensures(TokenManager::new, (config_home, home, profile), m),
    ensures
        m@.auth is None,
        m@.pending is None,
        m@.next_id == 1,
        m@.client_id == profile.client_id@,
        m@.ping_url == profile.ping_url@,
        m@.state_path == (match (config_home, home) {
            (Some(dir), _) => seq![dir@, ".indeed-mcp-auth.json"@],
            (None, Some(dir)) => seq![dir@, ".config"@, ".indeed-mcp-auth.json"@],
            (None, None) => seq!["."@, ".indeed-mcp-auth.json"@],
        }),
{
    assert(m@.state_path =~= (match (config_home, home) {
        (Some(dir), _) => seq![dir@, ".indeed-mcp-auth.json"@],
        (None, Some(dir)) => seq![dir@, ".config"@, ".indeed-mcp-auth.json"@],
        (None, None) => seq!["."@, ".indeed-mcp-auth.json"@],
    }));
}

/// What a manager says of where it keeps its state, and of its tokens, is what it holds.
pub proof fn managers_show_what_they_hold(
    m: &TokenManager,
    path: &Vec<String>,
    access: Result<&str, AuthError>,
    refresh: Option<&str>,
)
    requires
        call_ensures(TokenManager::state_path, (m,), path),
        call_ensures(TokenManager::access_token, (m,), access),
        call_ensures(TokenManager::refresh_token_str, (m,), refresh),
    ensures
        path_is(path@, m@.state_path),
        match m@.auth {
            Some(s) => match s.access_token {
                Some(token) => access matches Ok(t) && t@ == token,
                None => access matches Err(e) && e is NoAccessToken,
            },
            None => access matches Err(e) && e is NoAccessToken,
        },
        match m@.auth {
            Some(s) => match s.refresh_token {
                Some(token) => refresh matches Some(t) && t@ == token,
                None => refresh is None,
            },
            None => refresh is None,
        },
{
    assert forall|i: int| 0 <= i < path@.len() implies (#[trigger] path@[i])@ == texts(path@)[i] by {
    }
    assert(texts(path@).len() == path@.len());
}

/// A message number is the one after that of the message before, and drawing one changes nothing
/// else.
pub proof fn message_numbers_follow_each_other(m: &mut TokenManager, r: u64)
    requires
        call_ensures(TokenManager::next_id, (m,), r),
    ensures
        r == old(m)@.next_id,
        final(m)@.next_id == following(r),
        final(m)@ == (ManagerView { next_id: final(m)@.next_id, ..old(m)@ }),
{
}

/// A saved state is taken over exactly where it has an access token.
pub proof fn peeking_finds_a_token_or_changes_nothing(
    m: &mut TokenManager,
    saved: Option<AuthState>,
    r: bool,
)
    requires
        call_ensures(TokenManager::peek_token, (m, saved), r),
    ensures
        r == (saved matches Some(s) && s.access_token is Some),
        final(m)@ == (if r {
            ManagerView { auth: Some(saved->0@), ..old(m)@ }
        } else {
            old(m)@
        }),
{
}

/// A ping presents the access token that is held, and uses up a message number; without a token
/// there is none.
pub proof fn pings_present_the_held_token(m: &mut TokenManager, r: Result<HttpRequest, AuthError>)
    requires
        call_ensures(TokenManager::test_connection_request, (m,), r),
    ensures
        match r {
            Ok(q) => {
                &&& old(m)@.auth matches Some(s)
                &&& s.access_token matches Some(token)
                &&& pings(q, old(m)@.ping_url, token, old(m)@.next_id)
                &&& final(m)@.next_id == following(old(m)@.next_id)
                &&& final(m)@ == ManagerView { next_id: final(m)@.next_id, ..old(m)@ }
            },
            Err(e) => {
                &&& e is NoAccessToken
                &&& !(old(m)@.auth matches Some(s) && s.access_token is Some)
                &&& final(m)@ == old(m)@
            },
        },
{
    if let Ok(q) = r {
        pinged(q, old(m)@.ping_url, old(m)@.auth->0.access_token->0, old(m)@.next_id);
    }
}

/// A token is rejected by the status 401 alone.
pub proof fn only_one_status_rejects(m: &TokenManager, status: Status, r: bool)
    requires
        call_ensures(TokenManager::test_connection, (m, status), r),
    ensures
        r == (status@ != 401),
{
}

/// A refresh shows the refresh token that is held, under the name that the state was saved with;
/// without one there is none.
pub proof fn refreshes_show_the_held_token(m: &TokenManager, r: Result<HttpRequest, AuthError>)
    requires
        call_ensures(TokenManager::refresh_token_request, (m,), r),
    ensures
        match r {
            Ok(q) => {
                &&& m@.auth matches Some(s)
                &&& s.refresh_token matches Some(token)
                &&& asks_to_refresh(q, token, s.client_id)
            },
            Err(e) => e is NoRefreshToken && !(m@.auth matches Some(s) && s.refresh_token is Some),
        },
{
    if let Ok(q) = r {
        refresh_forms(q, m@.auth->0.refresh_token->0, m@.auth->0.client_id);
    }
}

/// Whether what a manager holds is the earlier state with the tokens of an answer.
pub open spec fn took_answer(
    n: AuthStateView,
    before: AuthStateView,
    grant: Grant,
    t: TokenResponse,
    now: u64,
) -> bool {
    &&& n.client_id == before.client_id
    &&& n.access_token == Some(t.access_token@)
    &&& match t.expires_in {
        Some(life) => n.expires_at matches Some(at) && at - now == life,
        None => n.expires_at is None,
    }
    &&& n.refresh_token == (match t.refresh_token {
        Some(new) => Some(new@),
        None => match grant {
            Grant::Refresh => before.refresh_token,
            Grant::Exchange => None,
        },
    })
    &&& n.scope == (match t.scope {
        Some(new) => Some(new@),
        None => before.scope,
    })
}

/// What a refresh or an exchange brings is taken over where it brings tokens, and nothing changes
/// where it does not.
pub proof fn replies_are_taken_over_or_change_nothing(
    m: &mut TokenManager,
    refreshed: TokenReply,
    r: Result<(), AuthError>,
    n: &mut TokenManager,
    exchanged: TokenReply,
    s: Result<(), AuthError>,
    now: u64,
)
    requires
        call_ensures(TokenManager::refresh_token, (m, refreshed, now), r),
        call_ensures(TokenManager::exchange_code, (n, exchanged, now), s),
        old(m)@.auth is Some,
        old(n)@.auth is Some,
        brings_tokens(refreshed) ==> (refreshed->Answered_0.expires_in matches Some(life) ==> now
            + life <= u64::MAX),
        brings_tokens(exchanged) ==> (exchanged->Answered_0.expires_in matches Some(life) ==> now
            + life <= u64::MAX),
    ensures
        r is Ok <==> brings_tokens(refreshed),
        s is Ok <==> brings_tokens(exchanged),
        if r is Ok {
            &&& final(m)@.auth matches Some(held)
            &&& took_answer(held, old(m)@.auth->0, Grant::Refresh, refreshed->Answered_0, now)
            &&& final(m)@ == ManagerView { auth: Some(held), ..old(m)@ }
        } else {
            final(m)@ == old(m)@
        },
        if s is Ok {
            &&& final(n)@.auth matches Some(held)
            &&& took_answer(held, old(n)@.auth->0, Grant::Exchange, exchanged->Answered_0, now)
            &&& final(n)@ == ManagerView { auth: Some(held), ..old(n)@ }
        } else {
            final(n)@ == old(n)@
        },
{
}

/// Where a refresh or an exchange brings no tokens, the error says why, and which of the two it
/// was.
pub proof fn failed_replies_say_why(
    m: &mut TokenManager,
    refreshed: TokenReply,
    r: Result<(), AuthError>,
    n: &mut TokenManager,
    exchanged: TokenReply,
    s: Result<(), AuthError>,
    now: u64,
)
    requires
        call_ensures(TokenManager::refresh_token, (m, refreshed, now), r),
        call_ensures(TokenManager::exchange_code, (n, exchanged, now), s),
    ensures
        r matches Err(e) ==> says_why(e, Grant::Refresh, refreshed),
        s matches Err(e) ==> says_why(e, Grant::Exchange, exchanged),
{
}

/// Saving succeeds exactly where it did, and otherwise says what failed.
pub proof fn failed_saves_say_why(outcome: SaveOutcome, r: Result<(), AuthError>)
    requires
        call_ensures(save_to_disk, (outcome,), r),
    ensures
        match outcome {
            SaveOutcome::Saved => r is Ok,
            SaveOutcome::EncodeFailed { message } => r matches Err(
                AuthError::EncodeState { message: w },
            ) && w@ == message@,
            SaveOutcome::WriteFailed => r matches Err(e) && e is WriteState,
        },
{
}

/// Whatever a manager holds, it can be asked for it, and it takes every reply whose time of
/// expiry can be told.
pub proof fn every_manager_can_be_asked(
    m: &mut TokenManager,
    n: &TokenManager,
    config_home: Option<String>,
    home: Option<String>,
    profile: ClientProfile,
    saved: Option<AuthState>,
    status: Status,
    reply: TokenReply,
    now: u64,
    outcome: SaveOutcome,
)
    ensures
        call_requires(TokenManager::new, (config_home, home, profile)),
        call_requires(dirs_next, (config_home, home)),
        call_requires(TokenManager::state_path, (n,)),
        call_requires(TokenManager::next_id, (m,)),
        call_requires(TokenManager::peek_token, (m, saved)),
        call_requires(TokenManager::access_token, (n,)),
        call_requires(TokenManager::refresh_token_str, (n,)),
        call_requires(TokenManager::test_connection_request, (m,)),
        call_requires(TokenManager::test_connection, (n, status)),
        call_requires(TokenManager::refresh_token_request, (n,)),
        call_requires(save_to_disk, (outcome,)),
        old(m)@.auth is Some && (brings_tokens(reply) ==> (
        reply->Answered_0.expires_in matches Some(life) ==> now + life <= u64::MAX)) ==> {
            &&& call_requires(TokenManager::refresh_token, (m, reply, now))
            &&& call_requires(TokenManager::exchange_code, (m, reply, now))
        },
{
}

} // verus!
