//! The tools: what they send and what they answer, and the registration of the client.
use crate::callback::{CALLBACK_ADDRESS, REDIRECT_URI};
use crate::http::{Body, HttpRequest, Method, Status};
use crate::indeed::{ApiError, HttpOutcome, IndeedClient};
use crate::json::{json_pretty, Json};
use crate::manager::{ClientProfile, TokenManager, MANAGER_USER_AGENT};
use crate::operations::queries::{
    carried, carries, comes_of, looks_up, lookups_come_to_what_was_replied, search_texts,
    searches_come_to_what_was_replied, searches_for, tells, told,
};
use crate::operations::steps::path_is;
use crate::registration::{
    register_client, register_client_request, registration_reply, RegistrationReply,
    RegistrationRequest,
};
use crate::server::{answer_with, IndeedMcpServer, JobDetailArgs, SearchJobsArgs, ToolStep};
use crate::text::{pair_texts, texts};
use crate::tokens::{AuthError, Endpoint};
use vstd::prelude::*;

verus! {

/// The text of an optional argument.
pub open spec fn named(o: Option<String>) -> Option<Seq<char>> {
    match o {
        Some(s) => Some(s@),
        None => None,
    }
}

/// A search sends a query that asks for what the arguments name, under the access token; without
/// one it answers why there is none.
pub proof fn searches_send_what_the_arguments_name(
    server: &IndeedMcpServer,
    token: Result<String, AuthError>,
    args: &SearchJobsArgs,
    words: String,
    r: ToolStep,
)
    requires
        call_ensures(IndeedMcpServer::jobs_search, (server, token, args), r),
        token matches Err(e) ==> call_ensures(AuthError::message, (&e,), words),
    ensures
        match token {
            Ok(t) => {
                &&& r matches ToolStep::Send(q)
                &&& exists|query: Seq<char>| #[trigger]
                    carries(q, t@, query) && searches_for(
                        query,
                        args.keyword@,
                        named(args.location),
                        args.radius,
                        args.limit,
                    )
            },
            Err(_) => r matches ToolStep::Answer(s) && s@ == "Authentication failed: "@ + words@,
        },
{
    if let Ok(t) = token {
        let query = crate::indeed::search_query(
            args.keyword@,
            named(args.location),
            args.radius,
            args.limit,
        );
        carried(r->Send_0, t@, query);
        search_texts(args.keyword@, named(args.location), args.radius, args.limit);
        assert(carries(r->Send_0, t@, query));
    }
}

/// A lookup sends a query for the job that the arguments name, under the access token; without
/// one it answers why there is none.
pub proof fn lookups_send_what_the_arguments_name(
    server: &IndeedMcpServer,
    token: Result<String, AuthError>,
    args: &JobDetailArgs,
    words: String,
    r: ToolStep,
)
    requires
        call_ensures(IndeedMcpServer::job_detail, (server, token, args), r),
        token matches Err(e) ==> call_ensures(AuthError::message, (&e,), words),
    ensures
        match token {
            Ok(t) => {
                &&& r matches ToolStep::Send(q)
                &&& exists|query: Seq<char>| #[trigger]
                    carries(q, t@, query) && looks_up(query, args.job_id@)
            },
            Err(_) => r matches ToolStep::Answer(s) && s@ == "Authentication failed: "@ + words@,
        },
{
    if let Ok(t) = token {
        let query = crate::indeed::detail_query(args.job_id@);
        carried(r->Send_0, t@, query);
        assert(carries(r->Send_0, t@, query));
        assert(looks_up(query, args.job_id@));
    }
}

/// Whether a text is the answer for a result: the document over several lines, or, behind the
/// words that say which tool failed, the words of the error.
pub open spec fn answers_with(s: Seq<char>, failure: Seq<char>, r: Result<Json, ApiError>) -> bool {
    match r {
        Ok(doc) => match json_pretty(doc.model()) {
            Ok(text) => s == text,
            Err(why) => s == "Result error: "@ + why,
        },
        Err(e) => exists|words: Seq<char>| #[trigger] tells(words, e) && s == failure + words,
    }
}

proof fn answered(s: Seq<char>, failure: Seq<char>, r: Result<Json, ApiError>)
    requires
        s == crate::server::tool_answer(failure, crate::server::result_view(r)),
    ensures
        answers_with(s, failure, r),
{
    if let Err(e) = r {
        told(e);
        assert(tells(e@.message(), e));
    }
}

/// A result is answered as a document, or as the error in words.
pub proof fn results_are_answered_in_full(
    failure: &str,
    result: Result<Json, ApiError>,
    r: String,
)
    requires
        call_ensures(answer_with, (failure, result), r),
    ensures
        answers_with(r@, failure@, result),
{
    answered(r@, failure@, result);
}

/// A search answers what its reply comes to.
pub proof fn searches_answer_what_was_replied(
    server: &IndeedMcpServer,
    outcome: HttpOutcome,
    result: Result<Json, ApiError>,
    r: String,
)
    requires
        call_ensures(IndeedMcpServer::jobs_search_answer, (server, outcome), r),
        call_ensures(IndeedClient::search_jobs, (&server.indeed, outcome), result),
    ensures
        comes_of(result, crate::indeed::Query::Search, outcome),
        answers_with(r@, "Job search failed: "@, result),
{
    searches_come_to_what_was_replied(&server.indeed, outcome, result);
    answered(r@, "Job search failed: "@, result);
}

/// A lookup answers what its reply comes to.
pub proof fn lookups_answer_what_was_replied(
    server: &IndeedMcpServer,
    outcome: HttpOutcome,
    result: Result<Json, ApiError>,
    r: String,
)
    requires
        call_ensures(IndeedMcpServer::job_detail_answer, (server, outcome), r),
        call_ensures(IndeedClient::get_job_detail, (&server.indeed, outcome), result),
    ensures
        comes_of(result, crate::indeed::Query::Detail, outcome),
        answers_with(r@, "Job detail lookup failed: "@, result),
{
    lookups_come_to_what_was_replied(&server.indeed, outcome, result);
    answered(r@, "Job detail lookup failed: "@, result);
}

/// The token that the tools use is the one that the manager holds once the search has ended well;
/// a search that ended otherwise gives its reason.
pub proof fn tools_use_the_held_token(
    server: &IndeedMcpServer,
    outcome: Result<(), AuthError>,
    r: Result<String, AuthError>,
)
    requires
        call_ensures(IndeedMcpServer::ensure_token, (server, outcome), r),
    ensures
        match outcome {
            Err(reason) => r matches Err(e) && e@ == reason@,
            Ok(_) => match server.token_mgr@.auth {
                Some(s) => match s.access_token {
                    Some(token) => r matches Ok(t) && t@ == token,
                    None => r matches Err(e) && e is NoAccessToken,
                },
                None => r matches Err(e) && e is NoAccessToken,
            },
        },
{
}

/// A new server names itself and holds a new manager.
pub proof fn new_servers_hold_nothing(
    config_home: Option<String>,
    home: Option<String>,
    profile: ClientProfile,
    server: IndeedMcpServer,
    m: TokenManager,
)
    requires
        call_ensures(IndeedMcpServer::new, (config_home, home, profile), server),
        call_ensures(TokenManager::new, (config_home, home, profile), m),
    ensures
        server.indeed.user_agent@ == "indeed-mcp/0.1.0"@,
        server.token_mgr@ == m@,
{
}

/// Whether a client registers as this one does.
pub open spec fn registers_this_client(q: RegistrationRequest) -> bool {
    &&& q.client_name@ == "Indeed MCP Proxy (OpenCode)"@
    &&& path_is(q.redirect_uris@, seq!["http://127.0.0.1:19876/callback"@])
    &&& path_is(q.grant_types@, seq!["authorization_code"@, "refresh_token"@])
    &&& path_is(q.response_types@, seq!["code"@])
    &&& q.token_endpoint_auth_method@ == "none"@
    &&& q.scope@ == "job_seeker.jobs.search offline_access"@
}

proof fn registered(q: RegistrationRequest)
    requires
        q@ == crate::registration::own_registration(),
    ensures
        registers_this_client(q),
{
    same_texts(q.redirect_uris@);
    same_texts(q.grant_types@);
    same_texts(q.response_types@);
}

proof fn same_texts(v: Seq<String>)
    ensures
        path_is(v, texts(v)),
{
}

/// The client registers with its name, where it awaits the redirect, and what it asks for.
pub proof fn clients_register_as_themselves(r: HttpRequest, own: RegistrationRequest)
    requires
        call_ensures(register_client_request, (), r),
        call_ensures(RegistrationRequest::own, (), own),
    ensures
        r.method == Method::Post,
        r.url@ == "https://secure.indeed.com/oauth/v2/register"@,
        pair_texts(r.headers@) == seq![("Content-Type"@, "application/json"@)],
        r.timeout_secs is None,
        r.body matches Body::Registration(q) && registers_this_client(q),
        registers_this_client(own),
{
    registered(own);
    registered(r.body->Registration_0);
}

/// A registration counts as answered exactly where the status is in the two hundreds and a name
/// could be read; any other status refuses, with the status and the text.
pub proof fn only_success_registers(
    status: Status,
    body: String,
    client_id: Option<String>,
    r: RegistrationReply,
)
    requires
        call_ensures(registration_reply, (status, body, client_id), r),
    ensures
        status@ / 100 == 2 ==> match client_id {
            Some(id) => r matches RegistrationReply::Answered { client_id: given } && given@ == id@,
            None => r is Malformed,
        },
        status@ / 100 != 2 ==> (r matches RegistrationReply::Refused { status: s, body: b } && s@
            == status@ && b@ == body@),
{
}

/// A registration that is answered gives the name that was answered, and any other gives the
/// error that says what happened.
pub proof fn registrations_give_the_answered_name(
    reply: RegistrationReply,
    r: Result<String, AuthError>,
)
    requires
        call_ensures(register_client, (reply,), r),
    ensures
        match reply {
            RegistrationReply::Answered { client_id } => r matches Ok(id) && id@ == client_id@,
            RegistrationReply::SendFailed => r matches Err(AuthError::SendFailed(to)) && to
                == Endpoint::Registration,
            RegistrationReply::Malformed => r matches Err(AuthError::Malformed(to)) && to
                == Endpoint::Registration,
            RegistrationReply::Refused { status, body } => {
                &&& r matches Err(AuthError::Refused { endpoint: to, status: s, body: b })
                &&& to == Endpoint::Registration
                &&& s@ == status@
                &&& b@ == body@
            },
        },
{
}

/// The tools take every argument, every token and every reply.
pub proof fn every_call_of_a_tool_is_taken(
    server: &IndeedMcpServer,
    token: Result<String, AuthError>,
    search: &SearchJobsArgs,
    lookup: &JobDetailArgs,
    outcome: HttpOutcome,
    found: Result<(), AuthError>,
    failure: &str,
    result: Result<Json, ApiError>,
    status: Status,
    body: String,
    client_id: Option<String>,
    reply: RegistrationReply,
)
    ensures
        call_requires(IndeedMcpServer::ensure_token, (server, found)),
        call_requires(IndeedMcpServer::jobs_search, (server, token, search)),
        call_requires(IndeedMcpServer::jobs_search_answer, (server, outcome)),
        call_requires(IndeedMcpServer::job_detail, (server, token, lookup)),
        call_requires(IndeedMcpServer::job_detail_answer, (server, outcome)),
        call_requires(answer_with, (failure, result)),
        call_requires(register_client_request, ()),
        call_requires(registration_reply, (status, body, client_id)),
        call_requires(register_client, (reply,)),
{
}

/// The manager names itself, and the redirect goes to the address at which it is awaited.
pub proof fn the_redirect_goes_where_it_is_awaited()
    ensures
        MANAGER_USER_AGENT@ == "indeed-mcp-proxy/0.1"@,
        CALLBACK_ADDRESS@ == "127.0.0.1:19876"@,
        REDIRECT_URI@ == "http://"@ + CALLBACK_ADDRESS@ + "/callback"@,
{
    reveal_strlit("http://127.0.0.1:19876/callback");
    reveal_strlit("http://");
    reveal_strlit("127.0.0.1:19876");
    reveal_strlit("/callback");
    assert(REDIRECT_URI@ =~= "http://"@ + CALLBACK_ADDRESS@ + "/callback"@);
}

} // verus!
