//! What holds of every search for an access token, whatever happens outside.
use crate::manager::{
    auth_step, awaits, begin_login, begin_refresh, begin_test, finish, holds_for, next_number,
    ping_request, AuthActionView, AuthEventView, AuthPhase, AuthStep, ManagerView, SaveOutcomeView,
};
use crate::pkce::challenge_of;
use crate::tokens::{
    authorization_url, draft_state, drawn_for, exchange_params, expiry_in_range,
    names_once, refresh_params, token_bodies_keep_the_order, token_body, token_outcome,
    token_request, with_tokens, AuthStateView, AuthorizationView, Grant, TokenReplyView,
    TokenResponseView,
};
use vstd::prelude::*;

verus! {

/// How far a search has come after a row of events: what the manager holds, and the phase. Where
/// the search draws an authorization, which it does at most once, it draws the given one.
pub open spec fn after(
    m: ManagerView,
    phase: AuthPhase,
    events: Seq<AuthEventView>,
    drawn: AuthorizationView,
) -> (ManagerView, AuthPhase)
    decreases events.len(),
{
    if events.len() == 0 {
        (m, phase)
    } else {
        let before = after(m, phase, events.drop_last(), drawn);
        let step = auth_step(before.0, before.1, events.last(), drawn);
        (step.manager, step.phase)
    }
}

/// Whether each event of a row is one that the search waits for when it happens.
pub open spec fn all_awaited(
    m: ManagerView,
    phase: AuthPhase,
    events: Seq<AuthEventView>,
    drawn: AuthorizationView,
) -> bool
    decreases events.len(),
{
    events.len() == 0 || {
        let before = after(m, phase, events.drop_last(), drawn);
        all_awaited(m, phase, events.drop_last(), drawn) && awaits(before.1, events.last())
    }
}

/// The last step of a search.
pub open spec fn last_step(
    m: ManagerView,
    phase: AuthPhase,
    events: Seq<AuthEventView>,
    drawn: AuthorizationView,
) -> AuthStep {
    let before = after(m, phase, events.drop_last(), drawn);
    auth_step(before.0, before.1, events.last(), drawn)
}

/// How many steps a search can still take.
pub open spec fn steps_left(phase: AuthPhase) -> nat {
    match phase {
        AuthPhase::Loading => 11,
        AuthPhase::CheckingExpiry { .. } => 10,
        AuthPhase::Refreshing { rejected } => if rejected {
            6
        } else {
            9
        },
        AuthPhase::SavingRefresh { rejected } => if rejected {
            5
        } else {
            8
        },
        AuthPhase::Testing => 7,
        AuthPhase::Discarding => 5,
        AuthPhase::SavingDraft => 4,
        AuthPhase::Authorizing => 3,
        AuthPhase::Exchanging => 2,
        AuthPhase::SavingTokens => 1,
        AuthPhase::Done => 0,
    }
}

/// Every step keeps what the manager holds in line with how far the search has come, and brings
/// the end nearer.
pub proof fn steps_keep_order(
    m: ManagerView,
    phase: AuthPhase,
    event: AuthEventView,
    drawn: AuthorizationView,
)
    requires
        awaits(phase, event),
        holds_for(m, phase),
        drawn_for(drawn, m.client_id),
    ensures
        ({
            let step = auth_step(m, phase, event, drawn);
            holds_for(step.manager, step.phase)
        }),
        steps_left(auth_step(m, phase, event, drawn).phase) < steps_left(phase),
{
}

/// A step ends the search exactly where it has nothing more to do.
pub proof fn searches_end_with_a_result(
    m: ManagerView,
    phase: AuthPhase,
    event: AuthEventView,
    drawn: AuthorizationView,
)
    requires
        awaits(phase, event),
    ensures
        ({
            let step = auth_step(m, phase, event, drawn);
            step.phase == AuthPhase::Done <==> step.action is Finish
        }),
{
}

/// A step that ends the search well leaves the manager with an access token.
pub proof fn good_ends_have_an_access_token(
    m: ManagerView,
    phase: AuthPhase,
    event: AuthEventView,
    drawn: AuthorizationView,
)
    requires
        awaits(phase, event),
        holds_for(m, phase),
        auth_step(m, phase, event, drawn).action == AuthActionView::Finish(Ok(())),
    ensures
        auth_step(m, phase, event, drawn).manager.access_token() is Some,
{
}

proof fn order_after(m: ManagerView, events: Seq<AuthEventView>, drawn: AuthorizationView)
    requires
        all_awaited(m, AuthPhase::Loading, events, drawn),
        drawn_for(drawn, m.client_id),
    ensures
        holds_for(
            after(m, AuthPhase::Loading, events, drawn).0,
            after(m, AuthPhase::Loading, events, drawn).1,
        ),
        events.len() + steps_left(after(m, AuthPhase::Loading, events, drawn).1) <= 11,
        after(m, AuthPhase::Loading, events, drawn).0.client_id == m.client_id,
    decreases events.len(),
{
    if events.len() > 0 {
        order_after(m, events.drop_last(), drawn);
        let before = after(m, AuthPhase::Loading, events.drop_last(), drawn);
        steps_keep_order(before.0, before.1, events.last(), drawn);
        searches_change_only_the_authorization(before.0, before.1, events.last(), drawn);
    }
}

/// Whatever happens outside, a search ends after at most eleven events.
pub proof fn every_search_ends(m: ManagerView, events: Seq<AuthEventView>, drawn: AuthorizationView)
    requires
        all_awaited(m, AuthPhase::Loading, events, drawn),
        drawn_for(drawn, m.client_id),
    ensures
        events.len() <= 11,
{
    order_after(m, events, drawn);
}

/// Whatever happens outside, a search that ends well leaves the manager with an access token.
pub proof fn every_good_search_finds_a_token(
    m: ManagerView,
    events: Seq<AuthEventView>,
    drawn: AuthorizationView,
)
    requires
        all_awaited(m, AuthPhase::Loading, events, drawn),
        drawn_for(drawn, m.client_id),
        events.len() > 0,
        last_step(m, AuthPhase::Loading, events, drawn).action == AuthActionView::Finish(Ok(())),
    ensures
        after(m, AuthPhase::Loading, events, drawn).0.access_token() is Some,
{
    order_after(m, events.drop_last(), drawn);
    let before = after(m, AuthPhase::Loading, events.drop_last(), drawn);
    good_ends_have_an_access_token(before.0, before.1, events.last(), drawn);
}

/// What was last read from disk or written to it in a search: the state that was loaded, or a
/// later one that a step asked to save and that was saved.
pub open spec fn last_kept(
    m: ManagerView,
    events: Seq<AuthEventView>,
    drawn: AuthorizationView,
) -> Option<AuthStateView>
    decreases events.len(),
{
    if events.len() == 0 {
        None
    } else {
        match (events.last(), last_step(m, AuthPhase::Loading, events.drop_last(), drawn).action) {
            (AuthEventView::Loaded(saved), _) => saved,
            (
                AuthEventView::Saved(SaveOutcomeView::Saved),
                AuthActionView::SaveState(s),
            ) => Some(s),
            _ => last_kept(m, events.drop_last(), drawn),
        }
    }
}

/// Whether an event brings the given access token from the token endpoint.
pub open spec fn brings_token(event: AuthEventView, token: Seq<char>) -> bool {
    &&& event matches AuthEventView::Tokens { reply: TokenReplyView::Answered(t), .. }
    &&& t.error is None
    &&& t.access_token == token
}

/// What a search has done last, from how far it has come.
spec fn on_course(m: ManagerView, events: Seq<AuthEventView>, drawn: AuthorizationView) -> bool {
    let now = after(m, AuthPhase::Loading, events, drawn).0;
    let action = last_step(m, AuthPhase::Loading, events, drawn).action;
    match after(m, AuthPhase::Loading, events, drawn).1 {
        AuthPhase::Loading => events.len() == 0,
        AuthPhase::Discarding | AuthPhase::Done => true,
        AuthPhase::CheckingExpiry { .. } | AuthPhase::Refreshing { .. } => {
            last_kept(m, events, drawn) == now.auth
        },
        AuthPhase::Testing => {
            &&& events.len() > 0
            &&& last_kept(m, events, drawn) == now.auth
            &&& action == AuthActionView::Ping(
                ping_request(
                    m.ping_url,
                    now.access_token()->0,
                    after(m, AuthPhase::Loading, events.drop_last(), drawn).0.next_id,
                ),
            )
        },
        AuthPhase::SavingRefresh { .. } => {
            &&& events.len() > 0
            &&& now.auth is Some
            &&& action == AuthActionView::SaveState(now.auth->0)
            &&& brings_token(events.last(), now.access_token()->0)
        },
        AuthPhase::SavingDraft => {
            &&& now.auth == Some(draft_state(m.client_id))
            &&& action == AuthActionView::SaveState(draft_state(m.client_id))
        },
        AuthPhase::Authorizing => {
            &&& events.len() > 0
            &&& last_kept(m, events, drawn) == now.auth
            &&& now.auth == Some(draft_state(m.client_id))
            &&& now.pending == Some(drawn)
            &&& action == AuthActionView::Authorize { url: drawn.url, state: drawn.state }
        },
        AuthPhase::Exchanging => {
            &&& last_kept(m, events, drawn) == now.auth
            &&& now.auth == Some(draft_state(m.client_id))
        },
        AuthPhase::SavingTokens => {
            &&& events.len() > 0
            &&& now.auth is Some
            &&& now.auth->0.client_id == m.client_id
            &&& action == AuthActionView::SaveState(now.auth->0)
            &&& brings_token(events.last(), now.access_token()->0)
        },
    }
}

proof fn course_after(m: ManagerView, events: Seq<AuthEventView>, drawn: AuthorizationView)
    requires
        all_awaited(m, AuthPhase::Loading, events, drawn),
        drawn_for(drawn, m.client_id),
    ensures
        on_course(m, events, drawn),
        after(m, AuthPhase::Loading, events, drawn).0.client_id == m.client_id,
        after(m, AuthPhase::Loading, events, drawn).0.ping_url == m.ping_url,
    decreases events.len(),
{
    if events.len() > 0 {
        let rest = events.drop_last();
        course_after(m, rest, drawn);
        order_after(m, rest, drawn);
        let before = after(m, AuthPhase::Loading, rest, drawn);
        searches_change_only_the_authorization(before.0, before.1, events.last(), drawn);
    }
}

/// Tokens are cached: a search that ends well leaves on disk what the manager holds.
pub proof fn good_searches_leave_what_is_held(
    m: ManagerView,
    events: Seq<AuthEventView>,
    drawn: AuthorizationView,
)
    requires
        all_awaited(m, AuthPhase::Loading, events, drawn),
        drawn_for(drawn, m.client_id),
        events.len() > 0,
        last_step(m, AuthPhase::Loading, events, drawn).action == AuthActionView::Finish(Ok(())),
    ensures
        last_kept(m, events, drawn) == after(m, AuthPhase::Loading, events, drawn).0.auth,
        last_kept(m, events, drawn) is Some,
        last_kept(m, events, drawn)->0.access_token is Some,
{
    every_good_search_finds_a_token(m, events, drawn);
    course_after(m, events.drop_last(), drawn);
    order_after(m, events.drop_last(), drawn);
}

/// A search that ends well ends in one of two ways with the access token that it leaves: a ping
/// with that token was sent last and was not answered with a rejection, or the token endpoint
/// brought that token last and it was saved.
pub proof fn found_tokens_are_tried_or_new(
    m: ManagerView,
    events: Seq<AuthEventView>,
    drawn: AuthorizationView,
)
    requires
        all_awaited(m, AuthPhase::Loading, events, drawn),
        drawn_for(drawn, m.client_id),
        events.len() > 0,
        last_step(m, AuthPhase::Loading, events, drawn).action == AuthActionView::Finish(Ok(())),
    ensures
        events.len() > 1,
        ({
            let token = after(m, AuthPhase::Loading, events, drawn).0.access_token()->0;
            let earlier = events.drop_last();
            let action = last_step(m, AuthPhase::Loading, earlier, drawn).action;
            ||| {
                &&& events.last() matches AuthEventView::Tested(status)
                &&& status != Some(401u16)
                &&& action == AuthActionView::Ping(
                    ping_request(
                        m.ping_url,
                        token,
                        after(m, AuthPhase::Loading, earlier.drop_last(), drawn).0.next_id,
                    ),
                )
            }
            ||| {
                &&& events.last() == AuthEventView::Saved(SaveOutcomeView::Saved)
                &&& action matches AuthActionView::SaveState(s)
                &&& s.access_token == Some(token)
                &&& brings_token(earlier.last(), token)
            }
        }),
{
    course_after(m, events.drop_last(), drawn);
    order_after(m, events.drop_last(), drawn);
}

/// Every new authorization is made under the name of the client, whatever name an earlier state
/// was saved with.
pub proof fn logins_use_the_name_of_the_client(
    m: ManagerView,
    events: Seq<AuthEventView>,
    drawn: AuthorizationView,
)
    requires
        all_awaited(m, AuthPhase::Loading, events, drawn),
        drawn_for(drawn, m.client_id),
    ensures
        after(m, AuthPhase::Loading, events, drawn).1 matches (AuthPhase::SavingDraft
        | AuthPhase::Authorizing
        | AuthPhase::Exchanging
        | AuthPhase::SavingTokens) ==> {
            &&& after(m, AuthPhase::Loading, events, drawn).0.auth is Some
            &&& after(m, AuthPhase::Loading, events, drawn).0.auth->0.client_id == m.client_id
        },
{
    course_after(m, events, drawn);
}

/// A login exchanges its code with the secret whose challenge stood in the address that it asked
/// the user to open, under the same name of the client: whatever code the redirect brings, the
/// step before asked for the authorization that was drawn, and the form shows that authorization's
/// secret.
pub proof fn exchanges_answer_the_opened_address(
    m: ManagerView,
    events: Seq<AuthEventView>,
    drawn: AuthorizationView,
    code: Seq<char>,
)
    requires
        all_awaited(m, AuthPhase::Loading, events, drawn),
        drawn_for(drawn, m.client_id),
        events.len() > 0,
        events.last() == AuthEventView::Redirected(Some(code)),
    ensures
        events.len() > 1,
        last_step(m, AuthPhase::Loading, events.drop_last(), drawn).action
            == (AuthActionView::Authorize {
            url: authorization_url(m.client_id, challenge_of(drawn.code_verifier), drawn.state),
            state: drawn.state,
        }),
        last_step(m, AuthPhase::Loading, events, drawn).action == AuthActionView::RequestTokens(
            token_request(exchange_params(code, drawn.code_verifier, m.client_id)),
        ),
        token_body(exchange_params(code, drawn.code_verifier, m.client_id)).contains(
            ("code_verifier"@, drawn.code_verifier),
        ),
        m.client_id.len() > 0 ==> token_body(
            exchange_params(code, drawn.code_verifier, m.client_id),
        ).contains(("client_id"@, m.client_id)),
{
    course_after(m, events.drop_last(), drawn);
    exchanges_show_the_verifier(m.client_id, drawn.code_verifier, code);
}

/// What is to be saved is what the manager holds.
pub proof fn what_is_saved_is_held(
    m: ManagerView,
    phase: AuthPhase,
    event: AuthEventView,
    drawn: AuthorizationView,
)
    requires
        awaits(phase, event),
    ensures
        auth_step(m, phase, event, drawn).action matches AuthActionView::SaveState(s) ==> auth_step(
            m,
            phase,
            event,
            drawn,
        ).manager.auth == Some(s),
{
}

/// A search never changes where the state is kept or how the client is known; it uses up a
/// message number exactly where it sends a ping, and it holds on to an authorization exactly from
/// where it asks the user to where the redirect ends the wait.
pub proof fn searches_change_only_the_authorization(
    m: ManagerView,
    phase: AuthPhase,
    event: AuthEventView,
    drawn: AuthorizationView,
)
    requires
        awaits(phase, event),
    ensures
        ({
            let step = auth_step(m, phase, event, drawn);
            &&& step.manager.state_path == m.state_path
            &&& step.manager.client_id == m.client_id
            &&& step.manager.ping_url == m.ping_url
            &&& step.manager.next_id == (if step.action is Ping {
                next_number(m.next_id)
            } else {
                m.next_id
            })
            &&& step.manager.pending == (if step.action is Authorize {
                Some(drawn)
            } else if phase == AuthPhase::Authorizing {
                None
            } else {
                m.pending
            })
        }),
{
}

/// Two message numbers that follow each other differ.
pub proof fn message_numbers_differ(n: u64)
    ensures
        next_number(n) != n,
{
}

/// The number that is drawn after the given count of others, from where the numbers begin.
pub open spec fn number_after(first: u64, count: nat) -> u64
    decreases count,
{
    if count == 0 {
        first
    } else {
        next_number(number_after(first, (count - 1) as nat))
    }
}

/// Message numbers count up from one: the number that a new manager gives out after `count`
/// others is one more than `count`, until the numbers run out.
pub proof fn message_numbers_count_up(count: nat)
    requires
        count < u64::MAX,
    ensures
        number_after(1, count) == count + 1,
    decreases count,
{
    if count > 0 {
        message_numbers_count_up((count - 1) as nat);
    }
}

/// No message number of a new manager repeats before the numbers run out.
pub proof fn message_numbers_never_repeat(i: nat, j: nat)
    requires
        i < j < u64::MAX,
    ensures
        number_after(1, i) != number_after(1, j),
{
    message_numbers_count_up(i);
    message_numbers_count_up(j);
}

/// The user is asked only once the state of a new authorization has been saved.
pub proof fn users_are_asked_after_saving(
    m: ManagerView,
    phase: AuthPhase,
    event: AuthEventView,
    drawn: AuthorizationView,
)
    requires
        awaits(phase, event),
        auth_step(m, phase, event, drawn).action is Authorize,
    ensures
        phase == AuthPhase::SavingDraft,
        event == AuthEventView::Saved(SaveOutcomeView::Saved),
{
}

proof fn prefix_order(m: ManagerView, events: Seq<AuthEventView>, k: int, drawn: AuthorizationView)
    requires
        all_awaited(m, AuthPhase::Loading, events, drawn),
        drawn_for(drawn, m.client_id),
        0 <= k <= events.len(),
    ensures
        all_awaited(m, AuthPhase::Loading, events.take(k), drawn),
        events.len() - k + steps_left(after(m, AuthPhase::Loading, events, drawn).1) <= steps_left(
            after(m, AuthPhase::Loading, events.take(k), drawn).1,
        ),
    decreases events.len(),
{
    if k == events.len() {
        assert(events.take(k) =~= events);
    } else {
        let rest = events.drop_last();
        prefix_order(m, rest, k, drawn);
        assert(rest.take(k) =~= events.take(k));
        order_after(m, rest, drawn);
        let before = after(m, AuthPhase::Loading, rest, drawn);
        steps_keep_order(before.0, before.1, events.last(), drawn);
    }
}

/// Whatever happens outside, a search asks the user at most once.
pub proof fn users_are_asked_at_most_once(
    m: ManagerView,
    events: Seq<AuthEventView>,
    i: int,
    j: int,
    drawn: AuthorizationView,
)
    requires
        all_awaited(m, AuthPhase::Loading, events, drawn),
        drawn_for(drawn, m.client_id),
        0 < i <= events.len(),
        0 < j <= events.len(),
        last_step(m, AuthPhase::Loading, events.take(i), drawn).action is Authorize,
        last_step(m, AuthPhase::Loading, events.take(j), drawn).action is Authorize,
    ensures
        i == j,
{
    let (a, b) = if i <= j {
        (i, j)
    } else {
        (j, i)
    };
    prefix_order(m, events, a, drawn);
    prefix_order(m, events, b, drawn);
    let later = events.take(b);
    assert(later.take(a) =~= events.take(a));
    let asked = after(m, AuthPhase::Loading, events.take(a).drop_last(), drawn);
    users_are_asked_after_saving(asked.0, asked.1, events.take(a).last(), drawn);
    let again = after(m, AuthPhase::Loading, later.drop_last(), drawn);
    users_are_asked_after_saving(again.0, again.1, later.last(), drawn);
    if a < b {
        assert(later.drop_last().take(a) =~= events.take(a));
        prefix_order(m, later.drop_last(), a, drawn);
    }
}

/// A saved access token that does not expire within a minute and that the server does not
/// reject is used as it is: no request but a ping is sent, nothing is saved and nobody is asked.
pub proof fn valid_tokens_are_kept(
    m: ManagerView,
    s: AuthStateView,
    now: u64,
    status: Option<u16>,
    drawn: AuthorizationView,
)
    requires
        s.access_token is Some,
        s.expires_at matches Some(e) ==> now + 60 < e,
        status != Some(401u16),
    ensures
        ({
            let looked = auth_step(m, AuthPhase::Loading, AuthEventView::Loaded(Some(s)), drawn);
            let tried = if s.expires_at is Some {
                auth_step(looked.manager, looked.phase, AuthEventView::Clock(now), drawn)
            } else {
                looked
            };
            let done = auth_step(tried.manager, tried.phase, AuthEventView::Tested(status), drawn);
            &&& s.expires_at is Some ==> looked.action == AuthActionView::ReadClock
            &&& tried == begin_test(m.with_auth(Some(s)))
            &&& done == finish(tried.manager, Ok(()))
            &&& done.manager.auth == Some(s)
        }),
{
}

/// An access token that expires within a minute is refreshed before it is used, where there is
/// a refresh token, with that refresh token.
pub proof fn expiring_tokens_are_refreshed(
    m: ManagerView,
    expires_at: u64,
    now: u64,
    drawn: AuthorizationView,
)
    requires
        now + 60 >= expires_at,
        m.refresh_token() is Some,
    ensures
        auth_step(
            m,
            AuthPhase::CheckingExpiry { expires_at },
            AuthEventView::Clock(now),
            drawn,
        ).action == AuthActionView::RequestTokens(
            token_request(refresh_params(m.refresh_token()->0, m.auth->0.client_id)),
        ),
{
}

/// Where a refresh brings tokens and they are saved, a rejected token has been replaced and the
/// search ends well; an expiring one has been replaced and the new one is tried.
pub proof fn refreshed_tokens_are_used(
    m: ManagerView,
    rejected: bool,
    t: TokenResponseView,
    now: u64,
    drawn: AuthorizationView,
)
    requires
        m.auth is Some,
        t.error is None,
        expiry_in_range(TokenReplyView::Answered(t), now),
    ensures
        ({
            let refreshed = m.with_auth(Some(with_tokens(m.auth->0, Grant::Refresh, t, now)));
            let saving = auth_step(
                m,
                AuthPhase::Refreshing { rejected },
                AuthEventView::Tokens { reply: TokenReplyView::Answered(t), now },
                drawn,
            );
            let saved = auth_step(
                saving.manager,
                saving.phase,
                AuthEventView::Saved(SaveOutcomeView::Saved),
                drawn,
            );
            &&& refreshed.access_token() == Some(t.access_token)
            &&& saving.manager == refreshed
            &&& saved == if rejected {
                finish(refreshed, Ok(()))
            } else {
                begin_test(refreshed)
            }
        }),
{
}

/// Where a refresh is impossible or fails, a new authorization begins.
pub proof fn failed_refreshes_lead_to_login(
    m: ManagerView,
    rejected: bool,
    reply: TokenReplyView,
    now: u64,
    drawn: AuthorizationView,
)
    requires
        token_outcome(Grant::Refresh, reply) is Err,
    ensures
        auth_step(
            m,
            AuthPhase::Refreshing { rejected },
            AuthEventView::Tokens { reply, now },
            drawn,
        ) == begin_login(m),
        m.refresh_token() is None ==> begin_refresh(m, rejected) == begin_login(m),
{
}

/// A saved state without an access token is removed, and a new authorization begins.
pub proof fn incomplete_states_are_discarded(
    m: ManagerView,
    s: AuthStateView,
    drawn: AuthorizationView,
)
    requires
        s.access_token is None,
    ensures
        ({
            let removing = auth_step(m, AuthPhase::Loading, AuthEventView::Loaded(Some(s)), drawn);
            &&& removing.action == AuthActionView::RemoveState
            &&& removing.manager == m
            &&& auth_step(removing.manager, removing.phase, AuthEventView::Removed, drawn)
                == begin_login(m)
        }),
{
}

/// A new authorization whose every part succeeds: the state is saved, the user is asked, the
/// code is exchanged, and the search ends well with the tokens that the exchange brought.
pub proof fn logins_bring_tokens(
    m: ManagerView,
    a: AuthorizationView,
    code: Seq<char>,
    t: TokenResponseView,
    now: u64,
)
    requires
        drawn_for(a, m.client_id),
        t.error is None,
        expiry_in_range(TokenReplyView::Answered(t), now),
    ensures
        ({
            let draft = begin_login(m);
            let asking = auth_step(
                draft.manager,
                draft.phase,
                AuthEventView::Saved(SaveOutcomeView::Saved),
                a,
            );
            let exchanging = auth_step(
                asking.manager,
                asking.phase,
                AuthEventView::Redirected(Some(code)),
                a,
            );
            let saving = auth_step(
                exchanging.manager,
                exchanging.phase,
                AuthEventView::Tokens { reply: TokenReplyView::Answered(t), now },
                a,
            );
            let saved = auth_step(
                saving.manager,
                saving.phase,
                AuthEventView::Saved(SaveOutcomeView::Saved),
                a,
            );
            &&& asking.action == AuthActionView::Authorize { url: a.url, state: a.state }
            &&& exchanging.action == AuthActionView::RequestTokens(
                token_request(exchange_params(code, a.code_verifier, m.client_id)),
            )
            &&& saved.action == AuthActionView::Finish(Ok(()))
            &&& saved.manager.access_token() == Some(t.access_token)
            &&& saved.manager.refresh_token() == t.refresh_token
        }),
{
}

/// The form of an exchange shows the secret and, where it has one, the name of the client.
pub proof fn exchanges_show_the_verifier(
    client_id: Seq<char>,
    code_verifier: Seq<char>,
    code: Seq<char>,
)
    requires
        code_verifier.len() > 0,
    ensures
        token_body(exchange_params(code, code_verifier, client_id)).contains(
            ("code_verifier"@, code_verifier),
        ),
        client_id.len() > 0 ==> token_body(
            exchange_params(code, code_verifier, client_id),
        ).contains(("client_id"@, client_id)),
{
    reveal_strlit("grant_type");
    reveal_strlit("code");
    reveal_strlit("redirect_uri");
    reveal_strlit("code_verifier");
    reveal_strlit("client_id");
    let params = exchange_params(code, code_verifier, client_id);
    assert(names_once(params)) by {
        assert("grant_type"@.len() == 10);
        assert("code"@.len() == 4);
        assert("redirect_uri"@.len() == 12);
        assert("code_verifier"@.len() == 13);
        assert("client_id"@.len() == 9);
    }
    token_bodies_keep_the_order(params);
    let keep = |p: (Seq<char>, Seq<char>)| p.1.len() > 0;
    assert(params[3] == ("code_verifier"@, code_verifier));
    params.lemma_filter_contains_rev(keep, ("code_verifier"@, code_verifier));
    if client_id.len() > 0 {
        assert(params[4] == ("client_id"@, client_id));
        params.lemma_filter_contains_rev(keep, ("client_id"@, client_id));
    }
}

} // verus!
