//! The error taxonomy, and the classification of transport failures.

use crate::api_traits::{ErrorResponse, ErrorResponseView};
use crate::transport::Failure;
use vstd::prelude::*;
use vstd::string::StringExecFns;

pub mod alor_api_impl;

verus! {

/// The production endpoint of the market-data API.
pub const BASE_API_URL: &'static str = "https://api.alor.ru/md/v2/";

/// The production endpoint of the refresh-token exchange.
pub const BASE_REFRESH_TOKEN_URL: &'static str = "https://oauth.alor.ru/refresh";

/// The code reported when no response was reached. It stands for "no status
/// available", not for a status that a server sent.
pub const NO_STATUS: u16 = 500;

/// The message reported when the body of a failure response cannot be read.
pub const UNREADABLE_BODY: &'static str = "Failed to decode response";

/// A failure at the level of the transport or of the HTTP status.
#[derive(Debug, PartialEq, Eq)]
pub struct HttpError {
    pub code: u16,
    pub message: String,
}

/// Every way in which a call can fail.
#[derive(Debug, PartialEq, Eq)]
pub enum Error {
    /// A transport failure, or a failure status with an unrecognized body.
    Http(HttpError),
    /// A structured error that the remote API sent.
    Api(ErrorResponse),
    /// The response body could not be read or parsed.
    Decode(String),
    /// A parameter value could not be serialized.
    Encode(String),
}

/// The mathematical content of an [`HttpError`].
pub struct HttpErrorView {
    pub code: u16,
    pub message: Seq<char>,
}

/// The mathematical content of an [`Error`].
pub enum ErrorView {
    Http(HttpErrorView),
    Api(ErrorResponseView),
    Decode(Seq<char>),
    Encode(Seq<char>),
}

impl View for HttpError {
    type V = HttpErrorView;

    open spec fn view(&self) -> HttpErrorView {
        HttpErrorView { code: self.code, message: self.message@ }
    }
}

impl View for Error {
    type V = ErrorView;

    open spec fn view(&self) -> ErrorView {
        match self {
            Error::Http(e) => ErrorView::Http(e@),
            Error::Api(e) => ErrorView::Api(e@),
            Error::Decode(m) => ErrorView::Decode(m@),
            Error::Encode(m) => ErrorView::Encode(m@),
        }
    }
}

impl Error {
    /// The error that a failure status is reported as, given the body and the
    /// envelope that was found in it: the envelope where there is one,
    /// whatever the status; else an HTTP error with the status and the body.
    pub open spec fn of_status(
        code: u16,
        body: Seq<char>,
        envelope: Option<ErrorResponseView>,
    ) -> ErrorView {
        match envelope {
            Some(found) => ErrorView::Api(found),
            None => ErrorView::Http(HttpErrorView { code, message: body }),
        }
    }

    /// The error that a transport failure is reported as.
    ///
    /// A failure status whose body holds an error envelope is the envelope,
    /// whatever the status. Any other failure status is an HTTP error with
    /// that status and the body as its message, or a fixed message where the
    /// body could not be read. A request that reached no response is an HTTP
    /// error with the code [`NO_STATUS`].
    pub open spec fn classified(failure: Failure) -> ErrorView {
        match failure {
            Failure::Status { code, body: Some(text) } => Error::of_status(
                code,
                text@,
                ErrorResponse::in_text(text@),
            ),
            Failure::Status { code, body: None } => ErrorView::Http(
                HttpErrorView { code, message: UNREADABLE_BODY@ },
            ),
            Failure::Transport { rendering } => ErrorView::Http(
                HttpErrorView { code: NO_STATUS, message: rendering@ },
            ),
        }
    }

    /// Reports a failure status whose body was read, given the envelope that
    /// was found in the body.
    pub fn from_status(code: u16, body: String, envelope: Option<ErrorResponse>) -> (e: Error)
        ensures
            match envelope {
                Some(found) => e == Error::Api(found),
                None => e == Error::Http(HttpError { code, message: body }),
            },
    {
        match envelope {
            Some(found) => Error::Api(found),
            None => Error::Http(HttpError { code, message: body }),
        }
    }

    /// Classifies a transport failure. Every failure maps to exactly one
    /// variant.
    pub fn classify(failure: Failure) -> (e: Error)
        ensures
            e@ == Error::classified(failure),
            e is Http || e is Api,
            failure matches Failure::Status { body: Some(text), .. } ==> match ErrorResponse::in_text(
                text@,
            ) {
                Some(envelope) => e@ == ErrorView::Api(envelope),
                None => e@ == ErrorView::Http(
                    HttpErrorView { code: failure->code, message: text@ },
                ),
            },
            failure matches Failure::Status { body: None, .. } ==> e@ == ErrorView::Http(
                HttpErrorView { code: failure->code, message: UNREADABLE_BODY@ },
            ),
            failure matches Failure::Transport { rendering } ==> e@ == ErrorView::Http(
                HttpErrorView { code: 500, message: rendering@ },
            ),
    {
        match failure {
            Failure::Status { code, body } => match body {
                Some(text) => {
                    let envelope = ErrorResponse::from_json(text.as_str());
                    Error::from_status(code, text, envelope)
                },
                None => Error::Http(
                    HttpError { code, message: String::from_str(UNREADABLE_BODY) },
                ),
            },
            Failure::Transport { rendering } => Error::Http(
                HttpError { code: NO_STATUS, message: rendering },
            ),
        }
    }
}

} // verus!
