use alor_api::{
    Api, EncodeFailure, Error, ErrorResponse, Header, HttpMethod, Reply, Request,
    REQUEST_TIMEOUT_SECS,
};
use std::collections::BTreeMap;

fn sample_api() -> Api {
    Api::new_url(
        "http://localhost:8080".to_string(),
        "http://localhost:8080/refresh".to_string(),
        "token".to_string(),
    )
}

fn json_header() -> Vec<Header> {
    vec![Header { name: "Content-Type".to_string(), value: "application/json".to_string() }]
}

fn json_of<T: serde::Serialize + std::fmt::Debug>(value: &T) -> Result<String, EncodeFailure> {
    match serde_json::to_string(value) {
        Ok(text) => Ok(text),
        Err(e) => Err(EncodeFailure { message: format!("{e:?}"), value: format!("{value:?}") }),
    }
}

fn query_of<T: serde::Serialize + std::fmt::Debug>(value: &T) -> Result<String, EncodeFailure> {
    match serde_urlencoded::to_string(value) {
        Ok(text) => Ok(text),
        Err(e) => Err(EncodeFailure { message: format!("{e:?}"), value: format!("{value:?}") }),
    }
}

fn parsed<T: serde::de::DeserializeOwned>(text: &str) -> Result<T, String> {
    match serde_json::from_str::<T>(text) {
        Ok(value) => Ok(value),
        Err(e) => Err(format!("{e:?}")),
    }
}

#[test]
fn get_with_params_appends_the_query_and_a_structured_error_comes_back() {
    let params: Vec<(&str, &str)> = vec![("symbol", "ABC")];
    let request = sample_api().get("quotes", Some(query_of(&params))).unwrap();
    assert_eq!(request.method.name(), "GET");
    assert_eq!(request.url, "http://localhost:8080/quotes?symbol=ABC");
    assert_eq!(request.headers, json_header());
    assert_eq!(request.body, None);

    let body = "{\"ok\":false,\"description\":\"not found\",\"error_code\":404}";
    let outcome = Reply::from_response(404, Ok(body.to_string())).into_text();
    assert_eq!(
        outcome,
        Err(Error::Api(ErrorResponse {
            ok: false,
            description: "not found".to_string(),
            error_code: 404,
        }))
    );
}

#[test]
fn get_without_params_has_no_query() {
    let request = sample_api().get("time", None).unwrap();
    assert_eq!(
        request,
        Request {
            method: HttpMethod::Get,
            url: "http://localhost:8080/time".to_string(),
            headers: json_header(),
            body: None,
        }
    );
}

#[test]
fn get_with_an_empty_query_still_appends_the_mark() {
    let request = sample_api().get("time", Some(Ok(String::new()))).unwrap();
    assert_eq!(request.url, "http://localhost:8080/time?");
}

#[test]
fn post_with_params_carries_the_json_body() {
    let mut params = BTreeMap::new();
    params.insert("symbol", "ABC");
    let request = sample_api().post("orders", Some(json_of(&params))).unwrap();
    assert_eq!(
        request,
        Request {
            method: HttpMethod::Post,
            url: "http://localhost:8080/orders".to_string(),
            headers: json_header(),
            body: Some("{\"symbol\":\"ABC\"}".to_string()),
        }
    );
}

#[test]
fn post_without_params_has_no_body_and_declares_json() {
    let request = sample_api().post("ping", None).unwrap();
    assert_eq!(
        request,
        Request {
            method: HttpMethod::Post,
            url: "http://localhost:8080/ping".to_string(),
            headers: json_header(),
            body: None,
        }
    );
}

#[test]
fn post_with_unserializable_params_plans_no_request() {
    let mut params = BTreeMap::new();
    params.insert((1u8, 2u8), 3u8);
    let outcome = json_of(&params);
    assert!(outcome.is_err());
    let planned = sample_api().post("orders", Some(outcome));
    assert_eq!(
        planned,
        Err(Error::Encode(
            "Error(\"key must be a string\", line: 0, column: 0) : {(1, 2): 3}".to_string()
        ))
    );
}

#[test]
fn get_with_unserializable_params_plans_no_request() {
    let outcome = query_of(&17u8);
    assert!(outcome.is_err());
    let planned = sample_api().get("quotes", Some(outcome));
    assert!(matches!(planned, Err(Error::Encode(_))));
}

#[test]
fn encode_failure_message_joins_serializer_and_value() {
    let failure = EncodeFailure { message: "refused".to_string(), value: "Odd(1)".to_string() };
    assert_eq!(
        Api::encode_params(Err(failure)),
        Err(Error::Encode("refused : Odd(1)".to_string()))
    );
    assert_eq!(Api::encode_params(Ok("{}".to_string())), Ok("{}".to_string()));
}

#[test]
fn the_url_joins_base_and_method_with_one_slash_added() {
    let api = Api::new("t".to_string());
    let request = api.post("securities", None).unwrap();
    assert_eq!(request.url, "https://api.alor.ru/md/v2//securities");
}

#[test]
fn success_body_is_decoded_into_the_value() {
    let text = Reply::from_response(200, Ok("[1,2,3]".to_string())).into_text().unwrap();
    let value: Result<Vec<u64>, Error> = Api::decode_response(&text, parsed(&text));
    assert_eq!(value, Ok(vec![1, 2, 3]));
}

#[test]
fn decode_failure_embeds_parser_message_and_quoted_body() {
    let text = "{\"a\": tru}";
    let outcome: Result<Vec<u64>, Error> =
        Api::decode_response(text, Err("unexpected".to_string()));
    assert_eq!(
        outcome,
        Err(Error::Decode("unexpected : \"{\\\"a\\\": tru}\"".to_string()))
    );
}

#[test]
fn decode_failure_of_a_real_parser_is_terminal() {
    let text = "";
    let outcome: Result<u64, Error> = Api::decode_response(text, parsed(text));
    assert_eq!(
        outcome,
        Err(Error::Decode(
            "Error(\"EOF while parsing a value\", line: 1, column: 0) : \"\"".to_string()
        ))
    );
}

#[test]
fn decode_quotes_control_characters_of_the_body() {
    let outcome: Result<u64, Error> = Api::decode_response("a\tb\n", Err("e".to_string()));
    assert_eq!(outcome, Err(Error::Decode("e : \"a\\tb\\n\"".to_string())));
}

#[test]
fn encoding_then_decoding_gives_the_value_back() {
    let value: Vec<(String, u64, Option<bool>)> = vec![
        ("first \"one\"".to_string(), 0, None),
        ("zweite \u{e4}\n".to_string(), u64::MAX, Some(true)),
    ];
    let text = Api::encode_params(json_of(&value)).unwrap();
    let back: Result<Vec<(String, u64, Option<bool>)>, Error> =
        Api::decode_response(&text, parsed(&text));
    assert_eq!(back, Ok(value));
}

#[test]
fn every_request_has_the_same_time_limit() {
    assert_eq!(REQUEST_TIMEOUT_SECS, 500);
}

#[test]
fn method_names() {
    assert_eq!(HttpMethod::Get.name(), "GET");
    assert_eq!(HttpMethod::Post.name(), "POST");
}
