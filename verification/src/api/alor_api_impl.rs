//! The client configuration, the requests it plans and the answers it reads.

use crate::api::{Error, ErrorView, BASE_API_URL, BASE_REFRESH_TOKEN_URL};
use crate::api_params::TokenResponse;
use crate::text::{diagnostic, diagnostic_message, parse_failure, parse_failure_message};
use crate::transport::{is_success, Header, HttpMethod, Reply, Request, RequestView};
use vstd::prelude::*;
use vstd::string::StringExecFns;

verus! {

/// The overall time, in seconds, that the transport may spend on one request.
/// It is the same for every request.
pub const REQUEST_TIMEOUT_SECS: u64 = 500;

/// The configuration of a client. Nothing in this crate changes it: a
/// refreshed token is returned to the caller, who decides where to keep it.
#[derive(Debug, Clone)]
pub struct Api {
    pub api_url: String,
    pub refresh_token_url: String,
    pub refresh_token: String,
    pub access_token: Option<String>,
}

/// A parameter value that its serializer refused.
#[derive(Debug, PartialEq, Eq)]
pub struct EncodeFailure {
    /// What the serializer said.
    pub message: String,
    /// A rendering of the value, for diagnosis.
    pub value: String,
}

impl Api {
    /// The address of the refresh exchange: the refresh token is appended to
    /// the refresh address as the query parameter `token`.
    pub open spec fn refresh_url(&self) -> Seq<char> {
        self.refresh_token_url@ + "?token="@ + self.refresh_token@
    }

    /// The address of an API method.
    pub open spec fn method_url(&self, method: Seq<char>) -> Seq<char> {
        self.api_url@ + "/"@ + method
    }

    /// The request of the refresh exchange: a POST without a body that asks
    /// for JSON and declares a content length of zero.
    pub open spec fn refresh_plan(&self) -> RequestView {
        RequestView {
            method: HttpMethod::Post,
            url: self.refresh_url(),
            headers: seq![("accept"@, "application/json"@), ("Content-Length"@, "0"@)],
            body: None,
        }
    }

    /// The request of a POST call: the JSON text of the parameters, where
    /// there are any, is the body.
    pub open spec fn post_plan(&self, method: Seq<char>, body: Option<Seq<char>>) -> RequestView {
        RequestView {
            method: HttpMethod::Post,
            url: self.method_url(method),
            headers: seq![("Content-Type"@, "application/json"@)],
            body,
        }
    }

    /// The request of a GET call: the query string of the parameters, where
    /// there are any, follows the address after a `?`.
    pub open spec fn get_plan(&self, method: Seq<char>, query: Option<Seq<char>>) -> RequestView {
        RequestView {
            method: HttpMethod::Get,
            url: match query {
                Some(q) => self.method_url(method) + "?"@ + q,
                None => self.method_url(method),
            },
            headers: seq![("Content-Type"@, "application/json"@)],
            body: None,
        }
    }

    /// What a serializer's outcome is reported as: the text, or an encode
    /// error with the serializer's message and the rendering of the value.
    pub open spec fn encoded(outcome: Result<String, EncodeFailure>) -> Result<
        Seq<char>,
        ErrorView,
    > {
        match outcome {
            Ok(text) => Ok(text@),
            Err(failure) => Err(
                ErrorView::Encode(diagnostic_message(failure.message@, failure.value@)),
            ),
        }
    }

    /// What a parser's outcome on the body `text` is reported as: the value,
    /// or a decode error with the parser's message and the body.
    pub open spec fn decoded<T>(text: Seq<char>, parsed: Result<T, Seq<char>>) -> Result<
        T,
        ErrorView,
    > {
        match parsed {
            Ok(value) => Ok(value),
            Err(reason) => Err(ErrorView::Decode(parse_failure_message(reason, text))),
        }
    }

    /// The outcome of a refresh exchange, given the transport's reply: the
    /// access token that the body holds.
    pub open spec fn refreshed(reply: Reply) -> Result<Seq<char>, ErrorView> {
        match reply.text() {
            Ok(text) => Api::decoded(text, TokenResponse::in_text(text)),
            Err(e) => Err(e),
        }
    }

    /// A client for the production endpoints.
    pub fn new(refresh_token: String) -> (api: Api)
        ensures
            api.api_url@ == BASE_API_URL@,
            api.refresh_token_url@ == BASE_REFRESH_TOKEN_URL@,
            api.refresh_token == refresh_token,
            api.access_token is None,
    {
        Api {
            api_url: String::from_str(BASE_API_URL),
            refresh_token_url: String::from_str(BASE_REFRESH_TOKEN_URL),
            refresh_token,
            access_token: None,
        }
    }

    /// A client for the given endpoints.
    pub fn new_url(api_url: String, refresh_token_url: String, refresh_token: String) -> (api: Api)
        ensures
            api.api_url == api_url,
            api.refresh_token_url == refresh_token_url,
            api.refresh_token == refresh_token,
            api.access_token is None,
    {
        Api { api_url, refresh_token_url, refresh_token, access_token: None }
    }

    /// Plans the request of the refresh exchange.
    pub fn refresh_request(&self) -> (request: Request)
        ensures
            request@ == self.refresh_plan(),
    {
        let mut url = self.refresh_token_url.clone();
        url.append("?token=");
        url.append(self.refresh_token.as_str());
        let mut headers: Vec<Header> = Vec::new();
        headers.push(
            Header { name: String::from_str("accept"), value: String::from_str("application/json") },
        );
        headers.push(
            Header { name: String::from_str("Content-Length"), value: String::from_str("0") },
        );
        let request = Request { method: HttpMethod::Post, url, headers, body: None };
        assert(request@.headers =~= self.refresh_plan().headers);
        request
    }

    /// Completes the refresh exchange with the transport's reply, and returns
    /// the new access token. The configuration is left as it is.
    pub fn update_access_token(&self, reply: Reply) -> (r: Result<String, Error>)
        ensures
            match r {
                Ok(token) => Api::refreshed(reply) == Ok::<Seq<char>, ErrorView>(token@),
                Err(e) => Api::refreshed(reply) == Err::<Seq<char>, ErrorView>(e@),
            },
    {
        let text = match reply.into_text() {
            Ok(text) => text,
            Err(e) => {
                return Err(e);
            },
        };
        let parsed = TokenResponse::from_json(text.as_str());
        match Api::decode_response(text.as_str(), parsed) {
            Ok(answer) => Ok(answer.access_token),
            Err(e) => Err(e),
        }
    }

    /// Reports a serializer's outcome: the text as it is, a refusal as an
    /// encode error.
    pub fn encode_params(outcome: Result<String, EncodeFailure>) -> (r: Result<String, Error>)
        ensures
            match r {
                Ok(text) => Api::encoded(outcome) == Ok::<Seq<char>, ErrorView>(text@),
                Err(e) => Api::encoded(outcome) == Err::<Seq<char>, ErrorView>(e@),
            },
    {
        match outcome {
            Ok(text) => Ok(text),
            Err(failure) => Err(
                Error::Encode(diagnostic(failure.message.as_str(), failure.value.as_str())),
            ),
        }
    }

    /// Reports a parser's outcome on the body `text`: the value as it is, a
    /// refusal as a decode error. Nothing is recovered from a body that does
    /// not parse.
    pub fn decode_response<T>(text: &str, parsed: Result<T, String>) -> (r: Result<T, Error>)
        ensures
            match parsed {
                Ok(value) => r == Ok::<T, Error>(value),
                Err(reason) => r matches Err(e) && Api::decoded::<T>(text@, Err(reason@)) == Err::<
                    T,
                    ErrorView,
                >(e@),
            },
    {
        match parsed {
            Ok(value) => Ok(value),
            Err(reason) => Err(Error::Decode(parse_failure(reason.as_str(), text))),
        }
    }

    /// Plans a POST call of `method`. `params` is the outcome of serializing
    /// the parameters to JSON, absent for a call without parameters. Where
    /// the serializer refused them, no request is planned.
    pub fn post(&self, method: &str, params: Option<Result<String, EncodeFailure>>) -> (r: Result<
        Request,
        Error,
    >)
        ensures
            match params {
                None => r matches Ok(request) && request@ == self.post_plan(method@, None),
                Some(outcome) => match Api::encoded(outcome) {
                    Ok(json) => r matches Ok(request) && request@ == self.post_plan(
                        method@,
                        Some(json),
                    ),
                    Err(refusal) => r matches Err(e) && e@ == refusal,
                },
            },
    {
        let body = match params {
            None => None,
            Some(outcome) => match Api::encode_params(outcome) {
                Ok(json) => Some(json),
                Err(e) => {
                    return Err(e);
                },
            },
        };
        let url = self.url_of(method);
        let request = Request { method: HttpMethod::Post, url, headers: json_content(), body };
        Ok(request)
    }

    /// Plans a GET call of `method`. `params` is the outcome of serializing
    /// the parameters to a URL-encoded query string, absent for a call
    /// without parameters. Where the serializer refused them, no request is
    /// planned.
    pub fn get(&self, method: &str, params: Option<Result<String, EncodeFailure>>) -> (r: Result<
        Request,
        Error,
    >)
        ensures
            match params {
                None => r matches Ok(request) && request@ == self.get_plan(method@, None),
                Some(outcome) => match Api::encoded(outcome) {
                    Ok(query) => r matches Ok(request) && request@ == self.get_plan(
                        method@,
                        Some(query),
                    ),
                    Err(refusal) => r matches Err(e) && e@ == refusal,
                },
            },
    {
        let mut url = self.url_of(method);
        match params {
            None => {},
            Some(outcome) => match Api::encode_params(outcome) {
                Ok(query) => {
                    url.append("?");
                    url.append(query.as_str());
                },
                Err(e) => {
                    return Err(e);
                },
            },
        }
        let request = Request { method: HttpMethod::Get, url, headers: json_content(), body: None };
        Ok(request)
    }

    /// Builds the address of an API method.
    fn url_of(&self, method: &str) -> (url: String)
        ensures
            url@ == self.method_url(method@),
    {
        let mut url = self.api_url.clone();
        url.append("/");
        url.append(method);
        url
    }
}

/// A response with a success status whose body the parser accepts is reported
/// as the parsed value.
pub proof fn lemma_accepted_body_is_returned<T>(status: u16, body: String, value: T)
    requires
        is_success(status),
    ensures
        Reply::of_response(status, Ok(body)).text() == Ok::<Seq<char>, ErrorView>(body@),
        Api::decoded(body@, Ok::<T, Seq<char>>(value)) == Ok::<T, ErrorView>(value),
{
}

/// The header lines of a call: its content type is declared as JSON.
fn json_content() -> (headers: Vec<Header>)
    ensures
        headers@.map_values(|h: Header| h@) == seq![("Content-Type"@, "application/json"@)],
{
    let mut headers: Vec<Header> = Vec::new();
    headers.push(
        Header {
            name: String::from_str("Content-Type"),
            value: String::from_str("application/json"),
        },
    );
    headers
}

} // verus!
