//! The bodies that the library itself reads or sends.

use crate::json::{json_parse, member_text, parse, text_member};
use vstd::prelude::*;
use vstd::string::StringExecFns;

verus! {

/// What the decoder says of a JSON document that holds no access token.
pub const MISSING_ACCESS_TOKEN: &'static str = "missing string field `AccessToken`";

/// The answer to a refresh exchange.
#[derive(Debug)]
pub struct TokenResponse {
    pub access_token: String,
}

/// Optional hints that an answer may carry.
#[derive(Debug, Clone, Copy, PartialEq, Eq)]
pub struct ResponseParameters {
    pub migrate_to_chat_id: Option<i64>,
    pub retry_after: Option<u16>,
}

impl TokenResponse {
    /// The answer that the member `AccessToken` makes up, as it was found:
    /// its text where it is a string, else the reason
    /// [`MISSING_ACCESS_TOKEN`].
    pub open spec fn of_member(access_token: Option<Seq<char>>) -> Result<Seq<char>, Seq<char>> {
        match access_token {
            Some(token) => Ok(token),
            None => Err(MISSING_ACCESS_TOKEN@),
        }
    }

    /// The access token that a text holds: the text is JSON, and the document
    /// is an object whose member `AccessToken`, in this casing, is a string.
    /// Other members are ignored. Where the text holds none, the result is
    /// the reason: what the parser said of a text that is not JSON, and
    /// [`MISSING_ACCESS_TOKEN`] otherwise.
    pub open spec fn in_text(text: Seq<char>) -> Result<Seq<char>, Seq<char>> {
        match json_parse(text) {
            Ok(doc) => TokenResponse::of_member(member_text(doc, "AccessToken"@)),
            Err(reason) => Err(reason),
        }
    }

    /// Makes the answer of the member `AccessToken`, as it was found, or
    /// says that it is missing.
    pub fn from_member(access_token: Option<String>) -> (r: Result<TokenResponse, String>)
        ensures
            match access_token {
                Some(token) => r matches Ok(answer) && answer.access_token == token,
                None => r matches Err(reason) && reason@ == MISSING_ACCESS_TOKEN@,
            },
    {
        match access_token {
            Some(access_token) => Ok(TokenResponse { access_token }),
            None => Err(String::from_str(MISSING_ACCESS_TOKEN)),
        }
    }

    /// Reads the answer to a refresh exchange from JSON text, or says why the
    /// text holds none.
    pub fn from_json(text: &str) -> (r: Result<TokenResponse, String>)
        ensures
            match r {
                Ok(answer) => TokenResponse::in_text(text@) == Ok::<Seq<char>, Seq<char>>(
                    answer.access_token@,
                ),
                Err(reason) => TokenResponse::in_text(text@) == Err::<Seq<char>, Seq<char>>(
                    reason@,
                ),
            },
    {
        match parse(text) {
            Ok(doc) => TokenResponse::from_member(text_member(&doc, "AccessToken")),
            Err(reason) => Err(reason),
        }
    }
}

} // verus!
