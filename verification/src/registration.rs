//! Registration of the client with the authorization server.
use crate::callback::REDIRECT_URI;
use crate::http::{pair, success, Body, BodyView, HttpRequest, HttpRequestView, Method, Status};
use crate::text::{opt_text, pair_texts, texts};
use crate::tokens::{AuthError, AuthErrorView, Endpoint, REGISTER_URL, SCOPE};
use vstd::prelude::*;

verus! {

/// What a client says of itself when it registers.
#[derive(Debug)]
pub struct RegistrationRequest {
    pub client_name: String,
    pub redirect_uris: Vec<String>,
    pub grant_types: Vec<String>,
    pub response_types: Vec<String>,
    pub token_endpoint_auth_method: String,
    pub scope: String,
}

/// What a client says of itself when it registers, as its texts.
pub struct RegistrationRequestView {
    pub client_name: Seq<char>,
    pub redirect_uris: Seq<Seq<char>>,
    pub grant_types: Seq<Seq<char>>,
    pub response_types: Seq<Seq<char>>,
    pub token_endpoint_auth_method: Seq<char>,
    pub scope: Seq<char>,
}

impl View for RegistrationRequest {
    type V = RegistrationRequestView;

    open spec fn view(&self) -> RegistrationRequestView {
        RegistrationRequestView {
            client_name: self.client_name@,
            redirect_uris: texts(self.redirect_uris@),
            grant_types: texts(self.grant_types@),
            response_types: texts(self.response_types@),
            token_endpoint_auth_method: self.token_endpoint_auth_method@,
            scope: self.scope@,
        }
    }
}

/// What this client says of itself.
pub open spec fn own_registration() -> RegistrationRequestView {
    RegistrationRequestView {
        client_name: "Indeed MCP Proxy (OpenCode)"@,
        redirect_uris: seq![REDIRECT_URI@],
        grant_types: seq!["authorization_code"@, "refresh_token"@],
        response_types: seq!["code"@],
        token_endpoint_auth_method: "none"@,
        scope: SCOPE@,
    }
}

impl RegistrationRequest {
    /// What this client says of itself.
    pub fn own() -> (r: RegistrationRequest)
        ensures
            r@ == own_registration(),
    {
        let mut redirect_uris: Vec<String> = Vec::new();
        redirect_uris.push(REDIRECT_URI.to_owned());
        let mut grant_types: Vec<String> = Vec::new();
        grant_types.push("authorization_code".to_owned());
        grant_types.push("refresh_token".to_owned());
        let mut response_types: Vec<String> = Vec::new();
        response_types.push("code".to_owned());
        assert(texts(redirect_uris@) =~= own_registration().redirect_uris);
        assert(texts(grant_types@) =~= own_registration().grant_types);
        assert(texts(response_types@) =~= own_registration().response_types);
        RegistrationRequest {
            client_name: "Indeed MCP Proxy (OpenCode)".to_owned(),
            redirect_uris,
            grant_types,
            response_types,
            token_endpoint_auth_method: "none".to_owned(),
            scope: SCOPE.to_owned(),
        }
    }
}

/// The request that registers this client.
pub open spec fn registration_request() -> HttpRequestView {
    HttpRequestView {
        method: Method::Post,
        url: REGISTER_URL@,
        headers: seq![("Content-Type"@, "application/json"@)],
        body: BodyView::Registration(own_registration()),
        timeout_secs: None,
    }
}

/// The request that registers this client.
pub fn register_client_request() -> (r: HttpRequest)
    ensures
        r@ == registration_request(),
{
    let mut headers: Vec<(String, String)> = Vec::new();
    headers.push(pair("Content-Type", "application/json"));
    assert(pair_texts(headers@) =~= registration_request().headers);
    HttpRequest {
        method: Method::Post,
        url: REGISTER_URL.to_owned(),
        headers,
        body: Body::Registration(RegistrationRequest::own()),
        timeout_secs: None,
    }
}

/// What became of a registration.
#[derive(Debug)]
pub enum RegistrationReply {
    /// It could not be sent, or no reply came.
    SendFailed,
    /// The reply has a status other than success.
    Refused { status: Status, body: String },
    /// The reply has the status of success and is not what a registration is answered with.
    Malformed,
    /// The reply has the status of success and gives the client this name.
    Answered { client_id: String },
}

/// What became of a registration, as its plain contents.
pub enum RegistrationReplyView {
    SendFailed,
    Refused { status: u16, body: Seq<char> },
    Malformed,
    Answered { client_id: Seq<char> },
}

impl View for RegistrationReply {
    type V = RegistrationReplyView;

    open spec fn view(&self) -> RegistrationReplyView {
        match *self {
            RegistrationReply::SendFailed => RegistrationReplyView::SendFailed,
            RegistrationReply::Refused { status, body } => RegistrationReplyView::Refused {
                status: status@,
                body: body@,
            },
            RegistrationReply::Malformed => RegistrationReplyView::Malformed,
            RegistrationReply::Answered { client_id } => RegistrationReplyView::Answered {
                client_id: client_id@,
            },
        }
    }
}

/// What a reply to a registration is, from its status, its text and the name that could be read
/// from it: any status but success refuses the registration, whatever the reply says.
pub fn registration_reply(status: Status, body: String, client_id: Option<String>) -> (r:
    RegistrationReply)
    ensures
        r@ == (if success(status@) {
            match opt_text(client_id) {
                Some(id) => RegistrationReplyView::Answered { client_id: id },
                None => RegistrationReplyView::Malformed,
            }
        } else {
            RegistrationReplyView::Refused { status: status@, body: body@ }
        }),
{
    if status.is_success() {
        match client_id {
            Some(client_id) => RegistrationReply::Answered { client_id },
            None => RegistrationReply::Malformed,
        }
    } else {
        RegistrationReply::Refused { status, body }
    }
}

/// What a registration comes to: the name of the client, or the error.
pub open spec fn registration_outcome(reply: RegistrationReplyView) -> Result<
    Seq<char>,
    AuthErrorView,
> {
    match reply {
        RegistrationReplyView::SendFailed => Err(AuthErrorView::SendFailed(Endpoint::Registration)),
        RegistrationReplyView::Refused { status, body } => Err(
            AuthErrorView::Refused { endpoint: Endpoint::Registration, status, body },
        ),
        RegistrationReplyView::Malformed => Err(AuthErrorView::Malformed(Endpoint::Registration)),
        RegistrationReplyView::Answered { client_id } => Ok(client_id),
    }
}

/// The name that the client has been given, from what became of its registration.
pub fn register_client(reply: RegistrationReply) -> (r: Result<String, AuthError>)
    ensures
        match r {
            Ok(id) => registration_outcome(reply@) == Ok::<Seq<char>, AuthErrorView>(id@),
            Err(e) => registration_outcome(reply@) == Err::<Seq<char>, AuthErrorView>(e@),
        },
{
    match reply {
        RegistrationReply::SendFailed => Err(AuthError::SendFailed(Endpoint::Registration)),
        RegistrationReply::Refused { status, body } => Err(
            AuthError::Refused { endpoint: Endpoint::Registration, status, body },
        ),
        RegistrationReply::Malformed => Err(AuthError::Malformed(Endpoint::Registration)),
        RegistrationReply::Answered { client_id } => Ok(client_id),
    }
}

} // verus!
