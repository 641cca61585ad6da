//! The tools of the server: from their arguments to the texts that they answer.
use crate::http::{HttpRequest, HttpRequestView};
use crate::indeed::{
    detail_query, query_outcome, query_request, search_query, ApiError, ApiErrorView, HttpOutcome,
    IndeedClient, Query, USER_AGENT,
};
use crate::json::{json_pretty, write_pretty, Json, JsonModel};
use crate::manager::{state_file, ClientProfile, ManagerView, TokenManager};
use crate::text::opt_text;
use crate::tokens::{AuthError, AuthErrorView};
use vstd::prelude::*;

verus! {

/// The arguments of a job search.
#[derive(Debug)]
pub struct SearchJobsArgs {
    /// Job title, keywords, or skill to search for.
    pub keyword: String,
    /// City, state, or region to search in.
    pub location: Option<String>,
    /// Search radius in miles from the location.
    pub radius: Option<u32>,
    /// Most results to give.
    pub limit: Option<u32>,
}

/// The arguments of a request for the details of a job.
#[derive(Debug)]
pub struct JobDetailArgs {
    /// The `key` of the job in search results.
    pub job_id: String,
}

/// What a tool does next.
#[derive(Debug)]
pub enum ToolStep {
    /// It sends a request.
    Send(HttpRequest),
    /// It answers.
    Answer(String),
}

/// What a tool does next, as its plain contents.
pub enum ToolStepView {
    Send(HttpRequestView),
    Answer(Seq<char>),
}

impl View for ToolStep {
    type V = ToolStepView;

    open spec fn view(&self) -> ToolStepView {
        match *self {
            ToolStep::Send(r) => ToolStepView::Send(r@),
            ToolStep::Answer(s) => ToolStepView::Answer(s@),
        }
    }
}

/// The answer of a tool that has no authorization.
pub open spec fn unauthorized_answer(e: AuthErrorView) -> Seq<char> {
    "Authentication failed: "@ + e.message()
}

/// The answer of a tool: the result over several lines, or the error in words after the words
/// that say which tool failed.
pub open spec fn tool_answer(
    failure: Seq<char>,
    r: Result<JsonModel, ApiErrorView>,
) -> Seq<char> {
    match r {
        Ok(doc) => match json_pretty(doc) {
            Ok(s) => s,
            Err(e) => "Result error: "@ + e,
        },
        Err(e) => failure + e.message(),
    }
}

/// What a result says.
pub open spec fn result_view(r: Result<Json, ApiError>) -> Result<JsonModel, ApiErrorView> {
    match r {
        Ok(j) => Ok(j.model()),
        Err(e) => Err(e@),
    }
}

/// The answer of a tool, from its result.
pub fn answer_with(failure: &str, result: Result<Json, ApiError>) -> (r: String)
    ensures
        r@ == tool_answer(failure@, result_view(result)),
{
    match result {
        Ok(doc) => match write_pretty(doc) {
            Ok(s) => s,
            Err(e) => "Result error: ".to_owned().concat(e.as_str()),
        },
        Err(e) => failure.to_owned().concat(e.message().as_str()),
    }
}

/// The answer of a tool that has no authorization.
fn answer_unauthorized(e: AuthError) -> (r: String)
    ensures
        r@ == unauthorized_answer(e@),
{
    "Authentication failed: ".to_owned().concat(e.message().as_str())
}

/// The server: the client that asks Indeed, and what keeps its access token.
pub struct IndeedMcpServer {
    pub indeed: IndeedClient,
    pub token_mgr: TokenManager,
}

impl IndeedMcpServer {
    /// A server that holds no authorization yet.
    pub fn new(
        config_home: Option<String>,
        home: Option<String>,
        profile: ClientProfile,
    ) -> (r: IndeedMcpServer)
        ensures
            r.indeed.user_agent@ == USER_AGENT@,
            r.token_mgr@ == (ManagerView {
                state_path: state_file(opt_text(config_home), opt_text(home)),
                client_id: profile.client_id@,
                ping_url: profile.ping_url@,
                auth: None,
                pending: None,
                next_id: 1,
            }),
    {
        IndeedMcpServer {
            indeed: IndeedClient::new(),
            token_mgr: TokenManager::new(config_home, home, profile),
        }
    }

    /// The access token to use, once the search for one has ended.
    pub fn ensure_token(&self, outcome: Result<(), AuthError>) -> (r: Result<String, AuthError>)
        ensures
            match r {
                Ok(t) => outcome is Ok && self.token_mgr@.access_token() == Some(t@),
                Err(e) => match outcome {
                    Err(reason) => e@ == reason@,
                    Ok(_) => self.token_mgr@.access_token() is None && e@
                        == AuthErrorView::NoAccessToken,
                },
            },
    {
        match outcome {
            Err(e) => Err(e),
            Ok(_) => match self.token_mgr.access_token() {
                Ok(t) => Ok(t.to_owned()),
                Err(e) => Err(e),
            },
        }
    }

    /// What a job search does once it has an access token, or has failed to get one.
    pub fn jobs_search(
        &self,
        token: Result<String, AuthError>,
        args: &SearchJobsArgs,
    ) -> (r: ToolStep)
        ensures
            r@ == match token {
                Ok(t) => ToolStepView::Send(
                    query_request(
                        t@,
                        search_query(
                            args.keyword@,
                            opt_text(args.location),
                            args.radius,
                            args.limit,
                        ),
                    ),
                ),
                Err(e) => ToolStepView::Answer(unauthorized_answer(e@)),
            },
    {
        match token {
            Ok(t) => {
                let location = match &args.location {
                    Some(place) => Some(place.as_str()),
                    None => None,
                };
                ToolStep::Send(
                    self.indeed.search_jobs_request(
                        t.as_str(),
                        args.keyword.as_str(),
                        location,
                        args.radius,
                        args.limit,
                    ),
                )
            },
            Err(e) => ToolStep::Answer(answer_unauthorized(e)),
        }
    }

    /// What a job search answers, from what became of its request.
    pub fn jobs_search_answer(&self, outcome: HttpOutcome) -> (r: String)
        ensures
            r@ == tool_answer("Job search failed: "@, query_outcome(Query::Search, outcome@)),
    {
        answer_with("Job search failed: ", self.indeed.search_jobs(outcome))
    }

    /// What a request for the details of a job does once it has an access token, or has failed
    /// to get one.
    pub fn job_detail(&self, token: Result<String, AuthError>, args: &JobDetailArgs) -> (r: ToolStep)
        ensures
            r@ == match token {
                Ok(t) => ToolStepView::Send(query_request(t@, detail_query(args.job_id@))),
                Err(e) => ToolStepView::Answer(unauthorized_answer(e@)),
            },
    {
        match token {
            Ok(t) => ToolStep::Send(
                self.indeed.get_job_detail_request(t.as_str(), args.job_id.as_str()),
            ),
            Err(e) => ToolStep::Answer(answer_unauthorized(e)),
        }
    }

    /// What a request for the details of a job answers, from what became of it.
    pub fn job_detail_answer(&self, outcome: HttpOutcome) -> (r: String)
        ensures
            r@ == tool_answer(
                "Job detail lookup failed: "@,
                query_outcome(Query::Detail, outcome@),
            ),
    {
        answer_with("Job detail lookup failed: ", self.indeed.get_job_detail(outcome))
    }
}

} // verus!
