//! Queries: the requests that go out to Indeed, and what their replies come to.
use crate::http::{
    bearer_text, pair, status_name, Body, HttpRequest, Method, Status,
};
use crate::indeed::{graphql_result, ApiError, HttpOutcome, IndeedClient, Query};
use crate::json::{
    fields_model, items_model, json_read, read_json, write_pretty, Json, JsonModel,
};
use crate::operations::text::{decimals_are_written, escaped_texts_are_quoted, quoted, writes};
use crate::text::{decimal, pair_texts};
use vstd::prelude::*;

verus! {

/// A status is a number of three digits, and any such number is one.
pub proof fn statuses_have_three_digits(code: u16, r: Option<Status>)
    requires
        call_ensures(Status::new, (code,), r),
    ensures
        r is Some <==> 1 <= code / 100 <= 9,
        r matches Some(s) ==> s@ == code,
{
}

/// Success is a status in the two hundreds, and only 401 says that credentials are missing.
pub proof fn statuses_are_told_by_their_number(
    status: &Status,
    code: u16,
    success: bool,
    unauthorized: bool,
)
    requires
        call_ensures(Status::code, (status,), code),
        call_ensures(Status::is_success, (status,), success),
        call_ensures(Status::is_unauthorized, (status,), unauthorized),
    ensures
        code == status@,
        success == (code / 100 == 2),
        unauthorized == (code == 401),
        !(success && unauthorized),
{
}

/// A status is shown as its number in decimal and its name.
pub proof fn statuses_are_shown_with_their_name(status: &Status, r: String)
    requires
        call_ensures(Status::text, (status,), r),
    ensures
        exists|number: Seq<char>| #[trigger]
            writes(number, status@ as int) && r@ == number + " "@ + status_name(status@),
{
    decimals_are_written(status@ as nat);
    assert(writes(decimal(status@ as nat), status@ as int));
}

/// An access token is presented behind the word `Bearer`.
pub proof fn tokens_are_presented_as_they_are(token: &str, r: String)
    requires
        call_ensures(bearer_text, (token,), r),
    ensures
        r@ == "Bearer "@ + token@,
{
}

/// A header has the name and the value that it is made of.
pub proof fn headers_have_their_name_and_value(name: &str, value: &str, r: (String, String))
    requires
        call_ensures(pair, (name, value), r),
    ensures
        r.0@ == name@,
        r.1@ == value@,
{
}

/// Whether the given place holds the last entry with the given key.
pub open spec fn last_entry(fields: Seq<(String, Json)>, key: Seq<char>, k: int) -> bool {
    &&& 0 <= k < fields.len()
    &&& fields[k].0@ == key
    &&& forall|l: int| k < l < fields.len() ==> (#[trigger] fields[l]).0@ != key
}

pub(crate) proof fn entries(fields: Seq<(String, Json)>, key: Seq<char>)
    ensures
        fields_model(fields).contains_key(key) <==> exists|k: int| #[trigger]
            last_entry(fields, key, k),
        forall|k: int| #[trigger]
            last_entry(fields, key, k) ==> fields_model(fields)[key] == fields[k].1.model(),
    decreases fields.len(),
{
    if fields.len() > 0 {
        let rest = fields.drop_last();
        let n = fields.len() - 1;
        entries(rest, key);
        assert(fields[n] == fields.last());
        if fields[n].0@ == key {
            assert(last_entry(fields, key, n));
        } else {
            assert forall|k: int| last_entry(rest, key, k) implies #[trigger] last_entry(
                fields,
                key,
                k,
            ) by {
                assert forall|l: int| k < l < fields.len() implies (#[trigger] fields[l]).0@
                    != key by {
                    if l < n {
                        assert(rest[l] == fields[l]);
                    }
                }
            }
        }
        assert forall|k: int| #[trigger] last_entry(fields, key, k) && k < n implies last_entry(
            rest,
            key,
            k,
        ) by {
            assert forall|l: int| k < l < rest.len() implies (#[trigger] rest[l]).0@ != key by {
                assert(rest[l] == fields[l]);
            }
        }
        if fields_model(fields).contains_key(key) && fields[n].0@ != key {
            let k = choose|k: int| #[trigger] last_entry(rest, key, k);
            assert(last_entry(fields, key, k));
        }
        assert forall|k: int| #[trigger] last_entry(fields, key, k) implies fields_model(
            fields,
        )[key] == fields[k].1.model() by {
            if k < n {
                assert(last_entry(rest, key, k));
                assert(fields[n].0@ != key);
            }
        }
    }
}

/// What stands under a key of an object is its last entry with that key; nothing stands under a
/// key that no entry has, nor in what is no object.
pub proof fn documents_are_looked_up_by_their_keys(doc: &Json, key: &str, r: Option<&Json>)
    requires
        call_ensures(Json::get, (doc, key), r),
    ensures
        match *doc {
            Json::Object(fields) => {
                &&& r is Some <==> exists|k: int| #[trigger] last_entry(fields@, key@, k)
                &&& forall|k: int| #[trigger]
                    last_entry(fields@, key@, k) ==> (r matches Some(v) && v.model()
                        == fields@[k].1.model())
            },
            _ => r is None,
        },
{
    if let Json::Object(fields) = *doc {
        entries(fields@, key@);
    }
}

/// Only a text is taken for a text, and then it is that text.
pub proof fn only_texts_are_texts(doc: &Json, r: Option<&str>)
    requires
        call_ensures(Json::as_str, (doc,), r),
    ensures
        match *doc {
            Json::Text(s) => r matches Some(t) && t@ == s@,
            _ => r is None,
        },
{
}

proof fn items(list: Seq<Json>)
    ensures
        items_model(list).len() == list.len(),
        forall|i: int| 0 <= i < list.len() ==> #[trigger] items_model(list)[i] == list[i].model(),
    decreases list.len(),
{
    if list.len() > 0 {
        items(list.drop_last());
        assert forall|i: int| 0 <= i < list.len() implies #[trigger] items_model(list)[i]
            == list[i].model() by {
            if i < list.len() - 1 {
                assert(list.drop_last()[i] == list[i]);
                assert(items_model(list)[i] == items_model(list.drop_last())[i]);
            }
        }
    }
}

/// A document says what its parts say: an array item by item, and an object key by key, the last
/// entry with a key before the earlier ones.
pub proof fn documents_say_what_their_parts_say(doc: Json)
    ensures
        match doc {
            Json::Null => doc.model() is Null,
            Json::Bool(b) => doc.model() == JsonModel::Bool(b),
            Json::Number(n) => doc.model() == JsonModel::Number(n),
            Json::Text(s) => doc.model() == JsonModel::Text(s@),
            Json::Array(list) => {
                &&& doc.model() matches JsonModel::Array(said)
                &&& said.len() == list@.len()
                &&& forall|i: int| 0 <= i < said.len() ==> #[trigger] said[i] == list@[i].model()
            },
            Json::Object(fields) => {
                &&& doc.model() matches JsonModel::Object(said)
                &&& forall|key: Seq<char>| #[trigger]
                    said.contains_key(key) <==> exists|k: int| #[trigger]
                        last_entry(fields@, key, k)
                &&& forall|key: Seq<char>, k: int| #[trigger]
                    last_entry(fields@, key, k) ==> said[key] == fields@[k].1.model()
            },
        },
{
    if let Json::Array(list) = doc {
        items(list@);
    }
    if let Json::Object(fields) = doc {
        assert forall|key: Seq<char>| #[trigger]
            fields_model(fields@).contains_key(key) <==> exists|k: int| #[trigger]
                last_entry(fields@, key, k) by {
            entries(fields@, key);
        }
        assert forall|key: Seq<char>, k: int| #[trigger] last_entry(fields@, key, k) implies
            fields_model(fields@)[key] == fields@[k].1.model() by {
            entries(fields@, key);
        }
    }
}

/// Whether a request carries a query to Indeed under an access token.
pub open spec fn carries(r: HttpRequest, token: Seq<char>, query: Seq<char>) -> bool {
    &&& r.method == Method::Post
    &&& r.url@ == "https://apis.indeed.com/graphql"@
    &&& pair_texts(r.headers@) == seq![
        ("Authorization"@, "Bearer "@ + token),
        ("Content-Type"@, "application/json"@),
        ("Accept"@, "application/json"@),
    ]
    &&& r.timeout_secs == Some(15u64)
    &&& r.body matches Body::Json(doc)
    &&& doc.model() matches JsonModel::Object(said)
    &&& said.dom() == set!["query"@, "variables"@]
    &&& said["query"@] == JsonModel::Text(query)
    &&& said["variables"@] matches JsonModel::Object(nothing)
    &&& nothing.dom() == Set::<Seq<char>>::empty()
}

pub(crate) proof fn carried(r: HttpRequest, token: Seq<char>, query: Seq<char>)
    requires
        r@ == crate::indeed::query_request(token, query),
    ensures
        carries(r, token, query),
{
    reveal_strlit("query");
    reveal_strlit("variables");
    assert("query"@.len() == 5 && "variables"@.len() == 9);
    let said = crate::indeed::query_document(query)->Object_0;
    assert(said.dom() =~= set!["query"@, "variables"@]);
    let nothing = said["variables"@]->Object_0;
    assert(nothing.dom() =~= Set::<Seq<char>>::empty());
}

/// How many miles around a place a search looks: as many as are named, however many, and 25
/// where none are.
pub open spec fn miles(radius: Option<u32>) -> int {
    match radius {
        Some(n) => n as int,
        None => 25,
    }
}

/// How many results a search asks for: as many as are named, up to 50, and 10 where none are.
pub open spec fn most(limit: Option<u32>) -> int {
    match limit {
        Some(n) => if n < 50 {
            n as int
        } else {
            50
        },
        None => 10,
    }
}

/// Where a search looks, with the radius in digits.
pub open spec fn place_text(location: Option<Seq<char>>, digits: Seq<char>) -> Seq<char> {
    match location {
        Some(place) => "{ radius: "@ + digits + ", radiusUnit: MILES, where: \""@ + quoted(place)
            + "\" }"@,
        None => "null"@,
    }
}

/// Whether a text is the query of a search.
pub open spec fn searches_for(
    query: Seq<char>,
    keyword: Seq<char>,
    location: Option<Seq<char>>,
    radius: Option<u32>,
    limit: Option<u32>,
) -> bool {
    exists|around: Seq<char>, up_to: Seq<char>|
        {
            &&& #[trigger] writes(around, miles(radius))
            &&& #[trigger] writes(up_to, most(limit))
            &&& query == "
            query SearchJobs {
                jobSearch(
                    location: "@ + place_text(location, around) + ",
                    what: \""@ + quoted(keyword) + "\",
                    limit: "@ + up_to + "
                ) {
                    results {
                        job {
                            title
                            sourceEmployerName
                            locationName
                            salary {
                                currency
                                period
                                min
                                max
                            }
                            url
                            key
                            publishedDate
                        }
                    }
                    totalResults
                }
            }
            "@
        }
}

/// Whether a text is the query for the details of a job.
pub open spec fn looks_up(query: Seq<char>, job_id: Seq<char>) -> bool {
    query == "
            query GetJobDetail {
                job(id: \""@ + job_id + "\") {
                    result {
                        title
                        sourceEmployerName
                        locationName
                        salary {
                            currency
                            period
                            min
                            max
                        }
                        url
                        key
                        publishedDate
                        description { text }
                        company {
                            name
                            rating
                            reviewCount
                            locationName
                        }
                        attributes {
                            name
                            label
                        }
                        jobTypes
                        remoteWorkType
                    }
                }
            }
            "@
}

pub(crate) proof fn search_texts(
    keyword: Seq<char>,
    location: Option<Seq<char>>,
    radius: Option<u32>,
    limit: Option<u32>,
)
    ensures
        searches_for(
            crate::indeed::search_query(keyword, location, radius, limit),
            keyword,
            location,
            radius,
            limit,
        ),
{
    escaped_texts_are_quoted(keyword);
    if let Some(place) = location {
        escaped_texts_are_quoted(place);
    }
    let around = decimal(miles(radius) as nat);
    let up_to = decimal(most(limit) as nat);
    decimals_are_written(miles(radius) as nat);
    decimals_are_written(most(limit) as nat);
    assert(writes(around, miles(radius)));
    assert(writes(up_to, most(limit)));
    assert(crate::indeed::search_query(keyword, location, radius, limit) =~= "
            query SearchJobs {
                jobSearch(
                    location: "@ + place_text(location, around) + ",
                    what: \""@ + quoted(keyword) + "\",
                    limit: "@ + up_to + "
                ) {
                    results {
                        job {
                            title
                            sourceEmployerName
                            locationName
                            salary {
                                currency
                                period
                                min
                                max
                            }
                            url
                            key
                            publishedDate
                        }
                    }
                    totalResults
                }
            }
            "@);
}

/// What a reader of optional borrowed texts sees.
pub open spec fn seen(o: Option<&str>) -> Option<Seq<char>> {
    match o {
        Some(s) => Some(s@),
        None => None,
    }
}

/// A search asks for the keyword, exactly the radius that is named, or 25 miles, around the
/// place, and as many results as are named, up to 50, or 10.
pub proof fn searches_ask_for_what_is_named(
    client: &IndeedClient,
    token: &str,
    keyword: &str,
    location: Option<&str>,
    radius: Option<u32>,
    limit: Option<u32>,
    r: HttpRequest,
)
    requires
        call_ensures(
            IndeedClient::search_jobs_request,
            (client, token, keyword, location, radius, limit),
            r,
        ),
    ensures
        exists|query: Seq<char>| #[trigger]
            carries(r, token@, query) && searches_for(
                query,
                keyword@,
                seen(location),
                radius,
                limit,
            ),
{
    let query = crate::indeed::search_query(keyword@, seen(location), radius, limit);
    carried(r, token@, query);
    search_texts(keyword@, seen(location), radius, limit);
    assert(carries(r, token@, query));
}

/// A request for the details of a job names the job as it is given.
pub proof fn lookups_name_the_job(
    client: &IndeedClient,
    token: &str,
    job_id: &str,
    r: HttpRequest,
)
    requires
        call_ensures(IndeedClient::get_job_detail_request, (client, token, job_id), r),
    ensures
        exists|query: Seq<char>| #[trigger] carries(r, token@, query) && looks_up(query, job_id@),
{
    let query = crate::indeed::detail_query(job_id@);
    carried(r, token@, query);
    assert(carries(r, token@, query));
    assert(looks_up(query, job_id@));
}

/// A token is tried with a request that presents it, and that carries nothing.
pub proof fn trials_present_the_token(client: &IndeedClient, token: &str, r: HttpRequest)
    requires
        call_ensures(IndeedClient::test_token_request, (client, token), r),
    ensures
        r.method == Method::Get,
        r.url@ == "https://apis.indeed.com/sso/idp/userinfo"@,
        pair_texts(r.headers@) == seq![
            ("Authorization"@, "Bearer "@ + token@),
            ("User-Agent"@, "indeed-mcp/0.1.0"@),
        ],
        r.body is Empty,
        r.timeout_secs == Some(10u64),
{
}

/// A token counts as usable where the trial succeeds, and where nothing came back.
pub proof fn tokens_are_usable_unless_refused(
    client: &IndeedClient,
    reply: Option<Status>,
    r: bool,
)
    requires
        call_ensures(IndeedClient::test_token, (client, reply), r),
    ensures
        r == match reply {
            Some(status) => status@ / 100 == 2,
            None => true,
        },
{
}

/// The client names itself.
pub proof fn clients_name_themselves(r: IndeedClient)
    requires
        call_ensures(IndeedClient::new, (), r),
    ensures
        r.user_agent@ == "indeed-mcp/0.1.0"@,
{
}

/// The text that a document has under a key, where it is an object that has a text there.
pub open spec fn text_under(doc: JsonModel, key: Seq<char>) -> Option<Seq<char>> {
    match doc {
        JsonModel::Object(said) => if said.contains_key(key) {
            match said[key] {
                JsonModel::Text(s) => Some(s),
                _ => None,
            }
        } else {
            None
        },
        _ => None,
    }
}

/// Whether a document lists errors: it is an object with a list under `errors` that has at least
/// one item, the given one first.
pub open spec fn lists_errors(doc: JsonModel, first: JsonModel) -> bool {
    &&& doc matches JsonModel::Object(said)
    &&& said.contains_key("errors"@)
    &&& said["errors"@] matches JsonModel::Array(errors)
    &&& errors.len() > 0
    &&& errors[0] == first
}

/// Whether a result is the error that reports a status, with the given text.
pub open spec fn reports_status(r: Result<Json, ApiError>, code: u16, text: Seq<char>) -> bool {
    r matches Err(ApiError::Http { status, message }) && status@ == code && message@ == text
}

/// Whether a result is the error that the interface reported, with the given text.
pub open spec fn reports_api(r: Result<Json, ApiError>, text: Seq<char>) -> bool {
    r matches Err(ApiError::Api { message }) && message@ == text
}

/// Whether a result is right for a status and a document: a status beyond the two hundreds is
/// reported with the text under `error`; where errors are listed, whatever else the document
/// says, the text under `message` of the first is reported; and any other document is the
/// result, whole.
pub open spec fn answers(r: Result<Json, ApiError>, status: u16, doc: JsonModel) -> bool {
    if status / 100 != 2 {
        reports_status(
            r,
            status,
            match text_under(doc, "error"@) {
                Some(s) => s,
                None => "GraphQL request failed"@,
            },
        )
    } else {
        &&& forall|first: JsonModel| #[trigger]
            lists_errors(doc, first) ==> reports_api(
                r,
                match text_under(first, "message"@) {
                    Some(s) => s,
                    None => "Unknown GraphQL error"@,
                },
            )
        &&& (forall|first: JsonModel| !#[trigger] lists_errors(doc, first)) ==> (r matches Ok(j)
            && j.model() == doc)
    }
}

proof fn answered(r: Result<Json, ApiError>, status: u16, doc: JsonModel)
    requires
        crate::indeed::outcome_is(r, crate::indeed::graphql_outcome(status, doc)),
    ensures
        answers(r, status, doc),
{
    if let Some(first) = crate::indeed::first_error(doc) {
        assert(lists_errors(doc, first));
    }
}

/// A reply with a document is answered by its status and by the errors that it lists.
pub proof fn replies_are_answered_by_status_and_errors(
    status: Status,
    doc: Json,
    r: Result<Json, ApiError>,
)
    requires
        call_ensures(graphql_result, (status, doc), r),
    ensures
        answers(r, status@, doc.model()),
{
    answered(r, status@, doc.model());
}

/// Whether a result is right for what became of the request of a query.
pub open spec fn comes_of(r: Result<Json, ApiError>, query: Query, outcome: HttpOutcome) -> bool {
    match outcome {
        HttpOutcome::SendFailed => r matches Err(ApiError::SendFailed),
        HttpOutcome::Unreadable => r matches Err(ApiError::NotJson(q)) && q == query,
        HttpOutcome::Reply { status, body } => match json_read(body@) {
            Some(doc) => answers(r, status@, doc),
            None => r matches Err(ApiError::NotJson(q)) && q == query,
        },
    }
}

/// The result of a search is what its reply says, or the error that says why there is none.
pub proof fn searches_come_to_what_was_replied(
    client: &IndeedClient,
    outcome: HttpOutcome,
    r: Result<Json, ApiError>,
)
    requires
        call_ensures(IndeedClient::search_jobs, (client, outcome), r),
    ensures
        comes_of(r, Query::Search, outcome),
{
    if let HttpOutcome::Reply { status, body } = outcome {
        if let Some(doc) = json_read(body@) {
            answered(r, status@, doc);
        }
    }
}

/// The details of a job are what the reply says, or the error that says why there are none.
pub proof fn lookups_come_to_what_was_replied(
    client: &IndeedClient,
    outcome: HttpOutcome,
    r: Result<Json, ApiError>,
)
    requires
        call_ensures(IndeedClient::get_job_detail, (client, outcome), r),
    ensures
        comes_of(r, Query::Detail, outcome),
{
    if let HttpOutcome::Reply { status, body } = outcome {
        if let Some(doc) = json_read(body@) {
            answered(r, status@, doc);
        }
    }
}

/// Whether a text says in words why a query gave no result.
pub open spec fn tells(message: Seq<char>, e: ApiError) -> bool {
    match e {
        ApiError::SendFailed => message == "Failed to send GraphQL request"@,
        ApiError::NotJson(Query::Search) => message == "Failed to parse GraphQL response as JSON"@,
        ApiError::NotJson(Query::Detail) => message == "Failed to parse GraphQL response"@,
        ApiError::Http { status, message: text } => exists|number: Seq<char>|
            {
                &&& #[trigger] writes(number, status@ as int)
                &&& message == "HTTP "@ + number + " "@ + status_name(status@)
                    + " from Indeed GraphQL: "@ + text@
            },
        ApiError::Api { message: text } => message == "Indeed API: "@ + text@,
    }
}

pub(crate) proof fn told(e: ApiError)
    ensures
        tells(e@.message(), e),
{
    if let ApiError::Http { status, message } = e {
        let number = decimal(status@ as nat);
        decimals_are_written(status@ as nat);
        assert(writes(number, status@ as int));
        assert(e@.message() =~= "HTTP "@ + number + " "@ + status_name(status@)
            + " from Indeed GraphQL: "@ + message@);
    }
}

/// Every error has its words, and they carry what the error carries.
pub proof fn failures_say_what_happened(e: &ApiError, r: String)
    requires
        call_ensures(ApiError::message, (e,), r),
    ensures
        tells(r@, *e),
{
    told(*e);
}

/// A document that is handed over to be written and taken back says the same.
pub proof fn documents_survive_the_way_there_and_back(
    doc: Json,
    value: serde_json::Value,
    back: Json,
)
    requires
        call_ensures(Json::into_value, (doc,), value),
        call_ensures(Json::from_value, (value,), back),
    ensures
        back.model() == doc.model(),
{
}

/// What is read from bytes is the document that they are the text of, and what is written is the
/// text of the document.
pub proof fn documents_are_read_and_written_whole(
    bytes: &[u8],
    read: Option<Json>,
    doc: Json,
    written: Result<String, String>,
)
    requires
        call_ensures(read_json, (bytes,), read),
        call_ensures(write_pretty, (doc,), written),
    ensures
        match (read, json_read(bytes@)) {
            (Some(j), Some(said)) => j.model() == said,
            (None, None) => true,
            _ => false,
        },
        match (written, crate::json::json_pretty(doc.model())) {
            (Ok(s), Ok(text)) => s@ == text,
            (Err(e), Err(text)) => e@ == text,
            _ => false,
        },
{
}

/// Every query, every reply and every document is taken.
pub proof fn every_query_is_taken(
    client: &IndeedClient,
    token: &str,
    text: &str,
    location: Option<&str>,
    number: Option<u32>,
    limit: Option<u32>,
    outcome: HttpOutcome,
    status: Status,
    code: u16,
    reply: Option<Status>,
    doc: Json,
    e: &ApiError,
    bytes: &[u8],
)
    ensures
        call_requires(IndeedClient::new, ()),
        call_requires(
            IndeedClient::search_jobs_request,
            (client, token, text, location, number, limit),
        ),
        call_requires(IndeedClient::get_job_detail_request, (client, token, text)),
        call_requires(IndeedClient::test_token_request, (client, token)),
        call_requires(IndeedClient::test_token, (client, reply)),
        call_requires(IndeedClient::search_jobs, (client, outcome)),
        call_requires(IndeedClient::get_job_detail, (client, outcome)),
        call_requires(graphql_result, (status, doc)),
        call_requires(ApiError::message, (e,)),
        call_requires(Status::new, (code,)),
        call_requires(Status::text, (&status,)),
        call_requires(Json::get, (&doc, text)),
        call_requires(Json::as_str, (&doc,)),
        call_requires(Json::into_value, (doc,)),
        call_requires(read_json, (bytes,)),
        call_requires(write_pretty, (doc,)),
{
}

} // verus!
