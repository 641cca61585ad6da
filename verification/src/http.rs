//! HTTP requests to send and replies received, as plain values.
use crate::json::{Json, JsonModel};
use crate::registration::{RegistrationRequest, RegistrationRequestView};
use crate::text::{decimal, pair_texts};
use vstd::prelude::*;

verus! {

/// The status code of a reply: a number from 100 to 999.
#[derive(Debug, Clone, Copy, PartialEq, Eq)]
pub struct Status {
    code: u16,
}

impl View for Status {
    type V = u16;

    closed spec fn view(&self) -> u16 {
        self.code
    }
}

/// Whether a number is a status code.
pub open spec fn is_status(code: u16) -> bool {
    100 <= code <= 999
}

/// The standard name that `reqwest::StatusCode` prints for a status code.
pub uninterp spec fn status_name(code: u16) -> Seq<char>;

/// A status code as it stands in messages: its number and its standard name.
pub open spec fn status_display(code: u16) -> Seq<char> {
    decimal(code as nat) + " "@ + status_name(code)
}

/// `reqwest::StatusCode::from_u16` accepts the numbers from 100 to 999, and the status code it
/// then gives prints as the number in decimal, a space, and a name that depends on the number
/// alone.
#[verifier::external_body]
fn status_code_text(code: u16) -> (r: String)
    requires
        is_status(code),
    ensures
        r@ == decimal(code as nat) + " "@ + status_name(code),
{
    reqwest::StatusCode::from_u16(code).unwrap().to_string()
}

impl Status {
    #[verifier::type_invariant]
    spec fn in_range(self) -> bool {
        is_status(self.code)
    }

    /// The status with the given code, where the number is a status code.
    pub fn new(code: u16) -> (r: Option<Status>)
        ensures
            match r {
                Some(s) => is_status(code) && s@ == code,
                None => !is_status(code),
            },
    {
        if 100 <= code && code <= 999 {
            Some(Status { code })
        } else {
            None
        }
    }

    /// The status code.
    pub fn code(&self) -> (r: u16)
        ensures
            r == self@,
            is_status(r),
    {
        proof {
            use_type_invariant(self);
        }
        self.code
    }

    /// Whether the status stands for success.
    pub fn is_success(&self) -> (r: bool)
        ensures
            r == success(self@),
    {
        200 <= self.code && self.code < 300
    }

    /// Whether the status says that the request lacks valid credentials.
    pub fn is_unauthorized(&self) -> (r: bool)
        ensures
            r == (self@ == 401),
    {
        self.code == 401
    }

    /// The status as it stands in messages: its number and its name.
    pub fn text(&self) -> (r: String)
        ensures
            r@ == status_display(self@),
    {
        proof {
            use_type_invariant(self);
        }
        status_code_text(self.code)
    }
}

/// Whether a status code stands for success.
pub open spec fn success(code: u16) -> bool {
    200 <= code < 300
}

/// The method of a request.
#[derive(Debug, Clone, Copy, PartialEq, Eq)]
pub enum Method {
    Get,
    Post,
}

/// What a request carries.
#[derive(Debug)]
pub enum Body {
    Empty,
    Json(Json),
    Form(Vec<(String, String)>),
    Registration(RegistrationRequest),
}

/// What a request carries, as its text.
pub enum BodyView {
    Empty,
    Json(JsonModel),
    Form(Seq<(Seq<char>, Seq<char>)>),
    Registration(RegistrationRequestView),
}

impl View for Body {
    type V = BodyView;

    open spec fn view(&self) -> BodyView {
        match *self {
            Body::Empty => BodyView::Empty,
            Body::Json(j) => BodyView::Json(j.model()),
            Body::Form(pairs) => BodyView::Form(pair_texts(pairs@)),
            Body::Registration(r) => BodyView::Registration(r@),
        }
    }
}

/// A request to send.
#[derive(Debug)]
pub struct HttpRequest {
    pub method: Method,
    pub url: String,
    pub headers: Vec<(String, String)>,
    pub body: Body,
    /// How long to wait for the reply, where there is a limit.
    pub timeout_secs: Option<u64>,
}

/// A request to send, as its texts.
pub struct HttpRequestView {
    pub method: Method,
    pub url: Seq<char>,
    pub headers: Seq<(Seq<char>, Seq<char>)>,
    pub body: BodyView,
    pub timeout_secs: Option<u64>,
}

impl View for HttpRequest {
    type V = HttpRequestView;

    open spec fn view(&self) -> HttpRequestView {
        HttpRequestView {
            method: self.method,
            url: self.url@,
            headers: pair_texts(self.headers@),
            body: self.body@,
            timeout_secs: self.timeout_secs,
        }
    }
}

/// The value of the header that presents an access token.
pub open spec fn bearer(token: Seq<char>) -> Seq<char> {
    "Bearer "@ + token
}

/// The value of the header that presents an access token.
pub fn bearer_text(token: &str) -> (r: String)
    ensures
        r@ == bearer(token@),
{
    "Bearer ".to_owned().concat(token)
}

/// A header or a form field.
pub fn pair(name: &str, value: &str) -> (r: (String, String))
    ensures
        r.0@ == name@,
        r.1@ == value@,
{
    (name.to_owned(), value.to_owned())
}

} // verus!
