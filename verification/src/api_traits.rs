//! The envelopes that the remote API wraps its answers in.

use crate::json::{bool_member, json_parse, member_bool, member_text, member_u64, parse, text_member, u64_member};
use vstd::prelude::*;

verus! {

/// The success envelope that some endpoints put around their payload.
#[derive(Debug, PartialEq, Eq)]
pub struct MethodResponse<T> {
    pub ok: bool,
    pub result: T,
    pub description: Option<String>,
}

/// The structured error that the remote API may send with a failure status.
#[derive(Debug, PartialEq, Eq)]
pub struct ErrorResponse {
    pub ok: bool,
    pub description: String,
    pub error_code: u64,
}

/// The mathematical content of an [`ErrorResponse`].
pub struct ErrorResponseView {
    pub ok: bool,
    pub description: Seq<char>,
    pub error_code: u64,
}

impl View for ErrorResponse {
    type V = ErrorResponseView;

    open spec fn view(&self) -> ErrorResponseView {
        ErrorResponseView {
            ok: self.ok,
            description: self.description@,
            error_code: self.error_code,
        }
    }
}

impl ErrorResponse {
    /// The envelope that three members make up, each as it was found: there
    /// is one exactly when all three are there.
    pub open spec fn of_members(
        ok: Option<bool>,
        description: Option<Seq<char>>,
        error_code: Option<u64>,
    ) -> Option<ErrorResponseView> {
        match (ok, description, error_code) {
            (Some(ok), Some(description), Some(error_code)) => Some(
                ErrorResponseView { ok, description, error_code },
            ),
            _ => None,
        }
    }

    /// The envelope that a document holds: the document is an object whose
    /// member `ok` is a boolean, whose member `description` is a string and
    /// whose member `error_code` is an integer in the range of `u64`. Other
    /// members are ignored.
    pub open spec fn in_document(doc: serde_json::Value) -> Option<ErrorResponseView> {
        ErrorResponse::of_members(
            member_bool(doc, "ok"@),
            member_text(doc, "description"@),
            member_u64(doc, "error_code"@),
        )
    }

    /// The envelope that a text holds: the text is JSON, and the document
    /// holds an envelope.
    pub open spec fn in_text(text: Seq<char>) -> Option<ErrorResponseView> {
        match json_parse(text) {
            Ok(doc) => ErrorResponse::in_document(doc),
            Err(_) => None,
        }
    }

    /// Makes an envelope of its three members, each as it was found. The
    /// result is `None` exactly when one of them is missing.
    pub fn from_members(ok: Option<bool>, description: Option<String>, error_code: Option<u64>) -> (r:
        Option<ErrorResponse>)
        ensures
            r is Some <==> ok is Some && description is Some && error_code is Some,
            r matches Some(envelope) ==> envelope.ok == ok->0 && envelope.description
                == description->0 && envelope.error_code == error_code->0,
    {
        match (ok, description, error_code) {
            (Some(ok), Some(description), Some(error_code)) => Some(
                ErrorResponse { ok, description, error_code },
            ),
            _ => None,
        }
    }

    /// Reads an error envelope from JSON text. The result is `None` exactly
    /// when the text does not hold one.
    pub fn from_json(text: &str) -> (r: Option<ErrorResponse>)
        ensures
            match r {
                Some(envelope) => ErrorResponse::in_text(text@) == Some(envelope@),
                None => ErrorResponse::in_text(text@) is None,
            },
    {
        match parse(text) {
            Ok(doc) => ErrorResponse::from_members(
                bool_member(&doc, "ok"),
                text_member(&doc, "description"),
                u64_member(&doc, "error_code"),
            ),
            Err(_) => None,
        }
    }
}

} // verus!
