//! Requests to Indeed's GraphQL interface, and what its replies come to.
use crate::http::{
    bearer, bearer_text, pair, success, Body, BodyView, HttpRequest, HttpRequestView, Method,
    status_display, Status,
};
use crate::json::{field_added, first_item, json_read, read_json, Json, JsonModel};
use crate::text::{
    decimal, decimal_text, escape_double_quotes, escape_quotes, pair_texts,
};
use vstd::prelude::*;

verus! {

/// Where GraphQL queries go.
pub const GRAPHQL_URL: &'static str = "https://apis.indeed.com/graphql";

/// Where a token can be tried.
pub const USERINFO_URL: &'static str = "https://apis.indeed.com/sso/idp/userinfo";

/// How the client names itself.
pub const USER_AGENT: &'static str = "indeed-mcp/0.1.0";

/// How long a GraphQL reply may take, in seconds.
pub const GRAPHQL_TIMEOUT_SECS: u64 = 15;

/// How long the reply to a token trial may take, in seconds.
pub const TOKEN_TIMEOUT_SECS: u64 = 10;

/// How many results a search asks for where the caller names no number.
pub const DEFAULT_LIMIT: u32 = 10;

/// The most results that a search asks for.
pub const MAX_LIMIT: u32 = 50;

/// The radius of a search in miles where the caller names none.
pub const DEFAULT_RADIUS: u32 = 25;

pub const SEARCH_HEAD: &'static str = "
            query SearchJobs {
                jobSearch(
                    location: ";

pub const SEARCH_WHAT: &'static str = ",
                    what: \"";

pub const SEARCH_LIMIT: &'static str = "\",
                    limit: ";

pub const SEARCH_TAIL: &'static str = "
                ) {
                    results {
                        job {
                            title
                            sourceEmployerName
                            locationName
                            salary {
                                currency
                                period
                                min
                                max
                            }
                            url
                            key
                            publishedDate
                        }
                    }
                    totalResults
                }
            }
            ";

pub const DETAIL_HEAD: &'static str = "
            query GetJobDetail {
                job(id: \"";

pub const DETAIL_TAIL: &'static str = "\") {
                    result {
                        title
                        sourceEmployerName
                        locationName
                        salary {
                            currency
                            period
                            min
                            max
                        }
                        url
                        key
                        publishedDate
                        description { text }
                        company {
                            name
                            rating
                            reviewCount
                            locationName
                        }
                        attributes {
                            name
                            label
                        }
                        jobTypes
                        remoteWorkType
                    }
                }
            }
            ";

/// How many results a search asks for.
pub open spec fn effective_limit(limit: Option<u32>) -> u32 {
    match limit {
        None => DEFAULT_LIMIT,
        Some(n) => if n <= MAX_LIMIT {
            n
        } else {
            MAX_LIMIT
        },
    }
}

/// The radius of a search in miles.
pub open spec fn effective_radius(radius: Option<u32>) -> u32 {
    match radius {
        None => DEFAULT_RADIUS,
        Some(n) => n,
    }
}

/// The location of a search as a GraphQL value.
pub open spec fn location_input(location: Option<Seq<char>>, radius: Option<u32>) -> Seq<char> {
    match location {
        None => "null"@,
        Some(place) => "{ radius: "@ + decimal(effective_radius(radius) as nat)
            + ", radiusUnit: MILES, where: \""@ + escape_quotes(place) + "\" }"@,
    }
}

/// The query that searches for jobs.
pub open spec fn search_query(
    keyword: Seq<char>,
    location: Option<Seq<char>>,
    radius: Option<u32>,
    limit: Option<u32>,
) -> Seq<char> {
    SEARCH_HEAD@ + location_input(location, radius) + SEARCH_WHAT@ + escape_quotes(keyword)
        + SEARCH_LIMIT@ + decimal(effective_limit(limit) as nat) + SEARCH_TAIL@
}

/// The query for one job.
pub open spec fn detail_query(job_id: Seq<char>) -> Seq<char> {
    DETAIL_HEAD@ + job_id + DETAIL_TAIL@
}

/// The document that carries a query.
pub open spec fn query_document(query: Seq<char>) -> JsonModel {
    JsonModel::Object(
        Map::<Seq<char>, JsonModel>::empty().insert("query"@, JsonModel::Text(query)).insert(
            "variables"@,
            JsonModel::Object(Map::<Seq<char>, JsonModel>::empty()),
        ),
    )
}

/// The request that carries a query.
pub open spec fn query_request(token: Seq<char>, query: Seq<char>) -> HttpRequestView {
    HttpRequestView {
        method: Method::Post,
        url: GRAPHQL_URL@,
        headers: seq![
            ("Authorization"@, bearer(token)),
            ("Content-Type"@, "application/json"@),
            ("Accept"@, "application/json"@),
        ],
        body: BodyView::Json(query_document(query)),
        timeout_secs: Some(GRAPHQL_TIMEOUT_SECS),
    }
}

/// Puts a query into a request.
fn make_query_request(token: &str, query: String) -> (r: HttpRequest)
    ensures
        r@ == query_request(token@, query@),
{
    let nothing: Vec<(String, Json)> = Vec::new();
    let ghost text = query@;
    let mut fields: Vec<(String, Json)> = Vec::new();
    fields.push(("query".to_owned(), Json::Text(query)));
    fields.push(("variables".to_owned(), Json::Object(nothing)));
    proof {
        let none = Seq::<(String, Json)>::empty();
        assert(nothing@ =~= none);
        assert(fields@ =~= none.push(fields@[0]).push(fields@[1]));
        field_added(none, fields@[0]);
        field_added(none.push(fields@[0]), fields@[1]);
    }
    let mut headers: Vec<(String, String)> = Vec::new();
    headers.push(("Authorization".to_owned(), bearer_text(token)));
    headers.push(pair("Content-Type", "application/json"));
    headers.push(pair("Accept", "application/json"));
    assert(pair_texts(headers@) =~= query_request(token@, text).headers);
    HttpRequest {
        method: Method::Post,
        url: GRAPHQL_URL.to_owned(),
        headers,
        body: Body::Json(Json::Object(fields)),
        timeout_secs: Some(GRAPHQL_TIMEOUT_SECS),
    }
}

/// What became of a request.
#[derive(Debug)]
pub enum HttpOutcome {
    /// It could not be sent, or no reply came.
    SendFailed,
    /// A reply came, and its body could not be read.
    Unreadable,
    /// A reply came.
    Reply { status: Status, body: Vec<u8> },
}

/// What became of a request, as its plain contents.
pub enum HttpOutcomeView {
    SendFailed,
    Unreadable,
    Reply { status: u16, body: Seq<u8> },
}

impl View for HttpOutcome {
    type V = HttpOutcomeView;

    open spec fn view(&self) -> HttpOutcomeView {
        match *self {
            HttpOutcome::SendFailed => HttpOutcomeView::SendFailed,
            HttpOutcome::Unreadable => HttpOutcomeView::Unreadable,
            HttpOutcome::Reply { status, body } => HttpOutcomeView::Reply {
                status: status@,
                body: body@,
            },
        }
    }
}

/// Which of the two queries a reply belongs to.
#[derive(Debug, Clone, Copy, PartialEq, Eq)]
pub enum Query {
    Search,
    Detail,
}

/// Why a query gave no result.
#[derive(Debug)]
pub enum ApiError {
    SendFailed,
    /// The reply is no JSON document.
    NotJson(Query),
    /// The reply has a status other than success.
    Http { status: Status, message: String },
    /// The reply lists errors.
    Api { message: String },
}

/// Why a query gave no result, as its plain contents.
pub enum ApiErrorView {
    SendFailed,
    NotJson(Query),
    Http { status: u16, message: Seq<char> },
    Api { message: Seq<char> },
}

impl View for ApiError {
    type V = ApiErrorView;

    open spec fn view(&self) -> ApiErrorView {
        match *self {
            ApiError::SendFailed => ApiErrorView::SendFailed,
            ApiError::NotJson(q) => ApiErrorView::NotJson(q),
            ApiError::Http { status, message } => ApiErrorView::Http {
                status: status@,
                message: message@,
            },
            ApiError::Api { message } => ApiErrorView::Api { message: message@ },
        }
    }
}

impl ApiErrorView {
    /// The error in words.
    pub open spec fn message(self) -> Seq<char> {
        match self {
            ApiErrorView::SendFailed => "Failed to send GraphQL request"@,
            ApiErrorView::NotJson(Query::Search) => "Failed to parse GraphQL response as JSON"@,
            ApiErrorView::NotJson(Query::Detail) => "Failed to parse GraphQL response"@,
            ApiErrorView::Http { status, message } => "HTTP "@ + status_display(status)
                + " from Indeed GraphQL: "@ + message,
            ApiErrorView::Api { message } => "Indeed API: "@ + message,
        }
    }
}

impl ApiError {
    /// The error in words.
    pub fn message(&self) -> (r: String)
        ensures
            r@ == self@.message(),
    {
        match self {
            ApiError::SendFailed => "Failed to send GraphQL request".to_owned(),
            ApiError::NotJson(Query::Search) => "Failed to parse GraphQL response as JSON".to_owned(),
            ApiError::NotJson(Query::Detail) => "Failed to parse GraphQL response".to_owned(),
            ApiError::Http { status, message } => {
                let head = "HTTP ".to_owned().concat(status.text().as_str());
                head.concat(" from Indeed GraphQL: ").concat(message.as_str())
            },
            ApiError::Api { message } => "Indeed API: ".to_owned().concat(message.as_str()),
        }
    }
}

/// The text under a key, or another text where there is none.
pub open spec fn text_or(doc: JsonModel, key: Seq<char>, other: Seq<char>) -> Seq<char> {
    match doc.get(key) {
        Some(v) => match v.as_text() {
            Some(s) => s,
            None => other,
        },
        None => other,
    }
}

/// The first of the errors that a reply lists, where it lists any.
pub open spec fn first_error(doc: JsonModel) -> Option<JsonModel> {
    match doc.get("errors"@) {
        Some(JsonModel::Array(items)) => if items.len() > 0 {
            Some(items[0])
        } else {
            None
        },
        _ => None,
    }
}

/// What a reply comes to: a status other than success is an error, with the message that the
/// document gives; so is a list of errors, with the message of the first; any other document
/// is the result.
pub open spec fn graphql_outcome(status: u16, doc: JsonModel) -> Result<JsonModel, ApiErrorView> {
    if !success(status) {
        Err(
            ApiErrorView::Http {
                status,
                message: text_or(doc, "error"@, "GraphQL request failed"@),
            },
        )
    } else {
        match first_error(doc) {
            Some(e) => Err(
                ApiErrorView::Api { message: text_or(e, "message"@, "Unknown GraphQL error"@) },
            ),
            None => Ok(doc),
        }
    }
}

/// What became of a query, from what became of its request.
pub open spec fn query_outcome(q: Query, o: HttpOutcomeView) -> Result<JsonModel, ApiErrorView> {
    match o {
        HttpOutcomeView::SendFailed => Err(ApiErrorView::SendFailed),
        HttpOutcomeView::Unreadable => Err(ApiErrorView::NotJson(q)),
        HttpOutcomeView::Reply { status, body } => match json_read(body) {
            Some(doc) => graphql_outcome(status, doc),
            None => Err(ApiErrorView::NotJson(q)),
        },
    }
}

/// Whether an outcome is the given one.
pub open spec fn outcome_is(
    r: Result<Json, ApiError>,
    expected: Result<JsonModel, ApiErrorView>,
) -> bool {
    match r {
        Ok(j) => expected == Ok::<JsonModel, ApiErrorView>(j.model()),
        Err(e) => expected == Err::<JsonModel, ApiErrorView>(e@),
    }
}

/// The text under a key, or another text where there is none.
fn get_text_or(doc: &Json, key: &str, other: &str) -> (r: String)
    ensures
        r@ == text_or(doc.model(), key@, other@),
{
    match doc.get(key) {
        Some(v) => match v.as_str() {
            Some(s) => s.to_owned(),
            None => other.to_owned(),
        },
        None => other.to_owned(),
    }
}

/// What a reply with the given status and document comes to.
pub fn graphql_result(status: Status, doc: Json) -> (r: Result<Json, ApiError>)
    ensures
        outcome_is(r, graphql_outcome(status@, doc.model())),
{
    if !status.is_success() {
        let message = get_text_or(&doc, "error", "GraphQL request failed");
        return Err(ApiError::Http { status, message });
    }
    if let Some(errors) = doc.get("errors") {
        if let Json::Array(items) = errors {
            if items.len() > 0 {
                proof {
                    first_item(items@);
                }
                let message = get_text_or(&items[0], "message", "Unknown GraphQL error");
                return Err(ApiError::Api { message });
            }
        }
    }
    Ok(doc)
}

/// What a reply to a query comes to.
fn query_result(q: Query, outcome: HttpOutcome) -> (r: Result<Json, ApiError>)
    ensures
        outcome_is(r, query_outcome(q, outcome@)),
{
    match outcome {
        HttpOutcome::SendFailed => Err(ApiError::SendFailed),
        HttpOutcome::Unreadable => Err(ApiError::NotJson(q)),
        HttpOutcome::Reply { status, body } => match read_json(body.as_slice()) {
            Some(doc) => graphql_result(status, doc),
            None => Err(ApiError::NotJson(q)),
        },
    }
}

/// The client of Indeed's GraphQL interface.
pub struct IndeedClient {
    /// How the client names itself.
    pub user_agent: String,
}

/// The request that tries a token.
pub open spec fn token_trial_request(token: Seq<char>) -> HttpRequestView {
    HttpRequestView {
        method: Method::Get,
        url: USERINFO_URL@,
        headers: seq![("Authorization"@, bearer(token)), ("User-Agent"@, USER_AGENT@)],
        body: BodyView::Empty,
        timeout_secs: Some(TOKEN_TIMEOUT_SECS),
    }
}

impl IndeedClient {
    /// A client that names itself by the usual name.
    pub fn new() -> (r: IndeedClient)
        ensures
            r.user_agent@ == USER_AGENT@,
    {
        IndeedClient { user_agent: USER_AGENT.to_owned() }
    }

    /// The request that tries whether a token is usable.
    pub fn test_token_request(&self, token: &str) -> (r: HttpRequest)
        ensures
            r@ == token_trial_request(token@),
    {
        let mut headers: Vec<(String, String)> = Vec::new();
        headers.push(("Authorization".to_owned(), bearer_text(token)));
        headers.push(pair("User-Agent", USER_AGENT));
        assert(pair_texts(headers@) =~= token_trial_request(token@).headers);
        HttpRequest {
            method: Method::Get,
            url: USERINFO_URL.to_owned(),
            headers,
            body: Body::Empty,
            timeout_secs: Some(TOKEN_TIMEOUT_SECS),
        }
    }

    /// Whether a token is usable, from the status of the reply to its trial: where no reply
    /// came, the token is taken to be still valid.
    pub fn test_token(&self, reply: Option<Status>) -> (r: bool)
        ensures
            r == match reply {
                Some(status) => success(status@),
                None => true,
            },
    {
        match reply {
            Some(status) => status.is_success(),
            None => true,
        }
    }

    /// The request that searches for jobs.
    pub fn search_jobs_request(
        &self,
        token: &str,
        keyword: &str,
        location: Option<&str>,
        radius: Option<u32>,
        limit: Option<u32>,
    ) -> (r: HttpRequest)
        ensures
            r@ == query_request(
                token@,
                search_query(
                    keyword@,
                    match location {
                        Some(place) => Some(place@),
                        None => None,
                    },
                    radius,
                    limit,
                ),
            ),
    {
        let limit: u32 = match limit {
            None => DEFAULT_LIMIT,
            Some(n) => if n <= MAX_LIMIT {
                n
            } else {
                MAX_LIMIT
            },
        };
        let radius: u32 = match radius {
            None => DEFAULT_RADIUS,
            Some(n) => n,
        };
        let place = match location {
            Some(place) => {
                let head = "{ radius: ".to_owned().concat(decimal_text(radius as u64).as_str());
                let place = escape_double_quotes(place);
                head.concat(", radiusUnit: MILES, where: \"").concat(place.as_str()).concat("\" }")
            },
            None => "null".to_owned(),
        };
        let what = escape_double_quotes(keyword);
        let query = SEARCH_HEAD.to_owned().concat(place.as_str()).concat(SEARCH_WHAT);
        let query = query.concat(what.as_str()).concat(SEARCH_LIMIT);
        let query = query.concat(decimal_text(limit as u64).as_str()).concat(SEARCH_TAIL);
        make_query_request(token, query)
    }

    /// The result of a search, from what became of its request.
    pub fn search_jobs(&self, outcome: HttpOutcome) -> (r: Result<Json, ApiError>)
        ensures
            outcome_is(r, query_outcome(Query::Search, outcome@)),
    {
        query_result(Query::Search, outcome)
    }

    /// The request for the details of one job.
    pub fn get_job_detail_request(&self, token: &str, job_id: &str) -> (r: HttpRequest)
        ensures
            r@ == query_request(token@, detail_query(job_id@)),
    {
        let query = DETAIL_HEAD.to_owned().concat(job_id).concat(DETAIL_TAIL);
        make_query_request(token, query)
    }

    /// The details of one job, from what became of the request for them.
    pub fn get_job_detail(&self, outcome: HttpOutcome) -> (r: Result<Json, ApiError>)
        ensures
            outcome_is(r, query_outcome(Query::Detail, outcome@)),
    {
        query_result(Query::Detail, outcome)
    }
}

/// However many results the caller names, a search asks for no more than 50, and for exactly
/// the number named where it is no more than that.
pub proof fn search_limit_is_capped(limit: Option<u32>)
    ensures
        effective_limit(limit) <= 50,
        limit is None ==> effective_limit(limit) == 10,
        limit matches Some(n) ==> n <= 50 ==> effective_limit(limit) == n,
        limit matches Some(n) ==> n > 50 ==> effective_limit(limit) == 50,
{
}

/// A result is handed on only from a reply that has the status of success and lists no errors,
/// and then it is the document of the reply, whole.
pub proof fn results_come_from_clean_replies(q: Query, o: HttpOutcomeView)
    ensures
        query_outcome(q, o) matches Ok(doc) ==> {
            &&& o matches HttpOutcomeView::Reply { status, body }
            &&& success(status)
            &&& json_read(body) == Some(doc)
            &&& first_error(doc) is None
        },
{
}

} // verus!
