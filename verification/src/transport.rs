//! Requests as the library plans them, and what a transport hands back.
//!
//! The library performs no I/O. It describes each request as a [`Request`];
//! whoever sends it reports the outcome as a [`Reply`].

use crate::api::{Error, ErrorView, HttpErrorView, NO_STATUS, UNREADABLE_BODY};
use crate::api_traits::{ErrorResponse, ErrorResponseView};
use crate::text::{read_failure, read_failure_message};
use vstd::prelude::*;

verus! {

/// The HTTP method of a request.
#[derive(Debug, Clone, Copy, PartialEq, Eq)]
pub enum HttpMethod {
    Get,
    Post,
}

impl HttpMethod {
    /// The name of the method as it stands in a request line.
    pub open spec fn token(self) -> Seq<char> {
        match self {
            HttpMethod::Get => "GET"@,
            HttpMethod::Post => "POST"@,
        }
    }

    /// The name of the method as it stands in a request line.
    pub fn name(&self) -> (r: &'static str)
        ensures
            r@ == self.token(),
    {
        match self {
            HttpMethod::Get => "GET",
            HttpMethod::Post => "POST",
        }
    }
}

/// One header line of a request.
#[derive(Debug, PartialEq, Eq)]
pub struct Header {
    pub name: String,
    pub value: String,
}

/// A request as the library plans it: everything that the transport needs in
/// order to send it.
#[derive(Debug, PartialEq, Eq)]
pub struct Request {
    pub method: HttpMethod,
    pub url: String,
    /// The header lines, in the order in which they are to be set.
    pub headers: Vec<Header>,
    /// The text to send as the body. `None` sends the request without a body.
    pub body: Option<String>,
}

/// The mathematical content of a [`Request`]: each header is a pair of name
/// and value.
pub struct RequestView {
    pub method: HttpMethod,
    pub url: Seq<char>,
    pub headers: Seq<(Seq<char>, Seq<char>)>,
    pub body: Option<Seq<char>>,
}

impl View for Header {
    type V = (Seq<char>, Seq<char>);

    open spec fn view(&self) -> (Seq<char>, Seq<char>) {
        (self.name@, self.value@)
    }
}

impl View for Request {
    type V = RequestView;

    open spec fn view(&self) -> RequestView {
        RequestView {
            method: self.method,
            url: self.url@,
            headers: self.headers@.map_values(|h: Header| h@),
            body: match self.body {
                Some(text) => Some(text@),
                None => None,
            },
        }
    }
}

/// How a request ended when the transport produced no usable response.
#[derive(Debug, PartialEq, Eq)]
pub enum Failure {
    /// The server answered with a failure status. `body` is the text of the
    /// response, absent if it could not be read as text.
    Status { code: u16, body: Option<String> },
    /// No response was reached. `rendering` describes the underlying failure.
    Transport { rendering: String },
}

/// What the transport hands back for one request.
#[derive(Debug, PartialEq, Eq)]
pub enum Reply {
    /// A response with a success status, and its body as text.
    Text(String),
    /// A response with a success status whose body could not be read as
    /// text; it holds a rendering of the read failure.
    Unreadable(String),
    /// No usable response.
    Failed(Failure),
}

/// Whether a status code reports success: the codes from 200 to 299 do.
pub open spec fn is_success(status: u16) -> bool {
    200 <= status < 300
}

impl Reply {
    /// The reply that a response amounts to. `body` is the text of the
    /// response, or a rendering of the failure to read it as text. With a
    /// success status the response is its body; with any other status it is
    /// a failure, whose body is absent where it could not be read.
    pub open spec fn of_response(status: u16, body: Result<String, String>) -> Reply {
        if is_success(status) {
            match body {
                Ok(text) => Reply::Text(text),
                Err(rendering) => Reply::Unreadable(rendering),
            }
        } else {
            match body {
                Ok(text) => Reply::Failed(Failure::Status { code: status, body: Some(text) }),
                Err(_) => Reply::Failed(Failure::Status { code: status, body: None }),
            }
        }
    }

    /// Sorts a response by its status.
    pub fn from_response(status: u16, body: Result<String, String>) -> (r: Reply)
        ensures
            r == Reply::of_response(status, body),
    {
        if 200 <= status && status < 300 {
            match body {
                Ok(text) => Reply::Text(text),
                Err(rendering) => Reply::Unreadable(rendering),
            }
        } else {
            match body {
                Ok(text) => Reply::Failed(Failure::Status { code: status, body: Some(text) }),
                Err(_) => Reply::Failed(Failure::Status { code: status, body: None }),
            }
        }
    }

    /// The body text that a reply yields, or the error that it is reported
    /// as: a body that could not be read as text is a decode error, and a
    /// failure is classified.
    pub open spec fn text(self) -> Result<Seq<char>, ErrorView> {
        match self {
            Reply::Text(text) => Ok(text@),
            Reply::Unreadable(rendering) => Err(
                ErrorView::Decode(read_failure_message(rendering@)),
            ),
            Reply::Failed(failure) => Err(Error::classified(failure)),
        }
    }

    /// Takes the body text out of a reply, or reports why there is none.
    pub fn into_text(self) -> (r: Result<String, Error>)
        ensures
            match r {
                Ok(text) => self.text() == Ok::<Seq<char>, ErrorView>(text@),
                Err(e) => self.text() == Err::<Seq<char>, ErrorView>(e@),
            },
    {
        match self {
            Reply::Text(text) => Ok(text),
            Reply::Unreadable(rendering) => Err(Error::Decode(read_failure(rendering.as_str()))),
            Reply::Failed(failure) => Err(Error::classify(failure)),
        }
    }
}

/// A response with a failure status whose body holds an error envelope is
/// reported as that envelope, with exactly its three fields, whatever the
/// status.
pub proof fn lemma_envelope_is_reported(status: u16, body: String, envelope: ErrorResponseView)
    requires
        !is_success(status),
        ErrorResponse::in_text(body@) == Some(envelope),
    ensures
        Reply::of_response(status, Ok(body)).text() == Err::<Seq<char>, ErrorView>(
            ErrorView::Api(envelope),
        ),
{
}

/// A response with a failure status whose body holds no error envelope is
/// reported as an HTTP error with that status and the body as its message.
pub proof fn lemma_other_body_is_reported_raw(status: u16, body: String)
    requires
        !is_success(status),
        ErrorResponse::in_text(body@) is None,
    ensures
        Reply::of_response(status, Ok(body)).text() == Err::<Seq<char>, ErrorView>(
            ErrorView::Http(HttpErrorView { code: status, message: body@ }),
        ),
{
}

/// A response with a failure status whose body cannot be read as text is
/// reported as an HTTP error with that status and a fixed message.
pub proof fn lemma_unreadable_failure_has_fixed_message(status: u16, rendering: String)
    requires
        !is_success(status),
    ensures
        Reply::of_response(status, Err(rendering)).text() == Err::<Seq<char>, ErrorView>(
            ErrorView::Http(HttpErrorView { code: status, message: UNREADABLE_BODY@ }),
        ),
{
}

/// A request that reached no response is reported as an HTTP error with the
/// code 500 and the rendering of the underlying failure.
pub proof fn lemma_no_response_is_reported_with_sentinel(rendering: String)
    ensures
        NO_STATUS == 500,
        Reply::Failed(Failure::Transport { rendering }).text() == Err::<Seq<char>, ErrorView>(
            ErrorView::Http(HttpErrorView { code: 500, message: rendering@ }),
        ),
{
}

} // verus!
