//! The wording of the diagnostic messages that errors carry.

use vstd::prelude::*;
use vstd::string::StringExecFns;

verus! {

/// What the standard `Debug` rendering of a string yields for `text`: the
/// text in double quotes, with the characters escaped that `Debug` escapes.
pub uninterp spec fn debug_text(text: Seq<char>) -> Seq<char>;

/// Formats `text` with the standard `{:?}` of `str`. The contract claims only
/// that the rendering is a function of the text.
#[verifier::external_body]
pub(crate) fn quoted(text: &str) -> (r: String)
    ensures
        r@ == debug_text(text@),
{
    format!("{text:?}")
}

/// A message about a subject: the two, with ` : ` between them.
pub open spec fn diagnostic_message(message: Seq<char>, subject: Seq<char>) -> Seq<char> {
    message + " : "@ + subject
}

/// The message of a body that could not be parsed: what the parser said, and
/// the body as it was received, in quotes.
pub open spec fn parse_failure_message(parser: Seq<char>, body: Seq<char>) -> Seq<char> {
    diagnostic_message(parser, debug_text(body))
}

/// The message of a body that could not be read as text.
pub open spec fn read_failure_message(rendering: Seq<char>) -> Seq<char> {
    "Failed to decode response: "@ + rendering
}

/// Joins a message and the rendering of its subject.
pub fn diagnostic(message: &str, subject: &str) -> (r: String)
    ensures
        r@ == diagnostic_message(message@, subject@),
{
    let mut joined = String::from_str(message);
    joined.append(" : ");
    joined.append(subject);
    joined
}

/// Builds the message of a body that could not be parsed.
pub fn parse_failure(parser: &str, body: &str) -> (r: String)
    ensures
        r@ == parse_failure_message(parser@, body@),
{
    let rendered = quoted(body);
    diagnostic(parser, rendered.as_str())
}

/// Builds the message of a body that could not be read as text.
pub fn read_failure(rendering: &str) -> (r: String)
    ensures
        r@ == read_failure_message(rendering@),
{
    let mut message = String::from_str("Failed to decode response: ");
    message.append(rendering);
    message
}

} // verus!
