use alor_api::{
    Error, ErrorResponse, Failure, HttpError, Reply, NO_STATUS, UNREADABLE_BODY,
};

fn envelope_body() -> String {
    "{\"ok\":false,\"description\":\"not found\",\"error_code\":404}".to_string()
}

fn not_found() -> ErrorResponse {
    ErrorResponse { ok: false, description: "not found".to_string(), error_code: 404 }
}

#[test]
fn envelope_is_reported_whatever_the_status() {
    for code in [400u16, 404, 418, 500, 503, 301, 100] {
        let failure = Failure::Status { code, body: Some(envelope_body()) };
        assert_eq!(Error::classify(failure), Error::Api(not_found()));
    }
}

#[test]
fn envelope_keeps_exactly_its_three_fields() {
    let body = "{\"error_code\": 18446744073709551615, \"extra\": [1, 2], \"ok\": true, \
                \"description\": \"a \\\"quoted\\\" word\"}";
    let failure = Failure::Status { code: 400, body: Some(body.to_string()) };
    assert_eq!(
        Error::classify(failure),
        Error::Api(ErrorResponse {
            ok: true,
            description: "a \"quoted\" word".to_string(),
            error_code: u64::MAX,
        })
    );
}

#[test]
fn other_body_is_reported_raw_with_the_status() {
    let bodies = [
        "",
        "Bad Gateway",
        "<html>oops</html>",
        "[false, \"not found\", 404]",
        "\"not found\"",
        "null",
        "{}",
        "{\"ok\":false,\"description\":\"not found\"}",
        "{\"ok\":false,\"error_code\":404}",
        "{\"description\":\"not found\",\"error_code\":404}",
        "{\"ok\":\"false\",\"description\":\"not found\",\"error_code\":404}",
        "{\"ok\":false,\"description\":null,\"error_code\":404}",
        "{\"ok\":false,\"description\":\"not found\",\"error_code\":-1}",
        "{\"ok\":false,\"description\":\"not found\",\"error_code\":404.5}",
        "{\"ok\":false,\"description\":\"not found\",\"error_code\":\"404\"}",
        "{\"ok\":false,\"description\":\"not found\",\"error_code\":18446744073709551616}",
        "{\"OK\":false,\"Description\":\"not found\",\"ErrorCode\":404}",
        "{\"ok\":false,\"description\":\"not found\",\"error_code\":404} trailing",
    ];
    for body in bodies {
        let failure = Failure::Status { code: 502, body: Some(body.to_string()) };
        assert_eq!(
            Error::classify(failure),
            Error::Http(HttpError { code: 502, message: body.to_string() }),
            "body: {:?}",
            body
        );
    }
}

#[test]
fn unreadable_failure_body_gets_the_fixed_message() {
    let failure = Failure::Status { code: 503, body: None };
    assert_eq!(
        Error::classify(failure),
        Error::Http(HttpError { code: 503, message: "Failed to decode response".to_string() })
    );
    assert_eq!(UNREADABLE_BODY, "Failed to decode response");
}

#[test]
fn connection_failure_is_reported_with_code_500() {
    let failure = Failure::Transport { rendering: "Dns: failed to lookup address".to_string() };
    assert_eq!(
        Error::classify(failure),
        Error::Http(HttpError { code: 500, message: "Dns: failed to lookup address".to_string() })
    );
    assert_eq!(NO_STATUS, 500);
}

#[test]
fn from_json_reads_an_envelope() {
    assert_eq!(ErrorResponse::from_json(&envelope_body()), Some(not_found()));
    assert_eq!(
        ErrorResponse::from_json(" { \"ok\" : true , \"description\" : \"\" , \"error_code\" : 0 } "),
        Some(ErrorResponse { ok: true, description: String::new(), error_code: 0 })
    );
    assert_eq!(ErrorResponse::from_json("{\"ok\":true}"), None);
    assert_eq!(ErrorResponse::from_json("not json"), None);
}

#[test]
fn from_json_decodes_escapes_in_the_description() {
    let body = "{\"ok\":false,\"description\":\"line\\nbreak \\u00e9\",\"error_code\":1}";
    assert_eq!(
        ErrorResponse::from_json(body),
        Some(ErrorResponse {
            ok: false,
            description: "line\nbreak \u{e9}".to_string(),
            error_code: 1,
        })
    );
}

#[test]
fn responses_are_sorted_by_status() {
    let body = || Ok("x".to_string());
    assert_eq!(Reply::from_response(200, body()), Reply::Text("x".to_string()));
    assert_eq!(Reply::from_response(204, body()), Reply::Text("x".to_string()));
    assert_eq!(Reply::from_response(299, body()), Reply::Text("x".to_string()));
    for code in [0u16, 100, 199, 300, 304, 400, 404, 500, 65535] {
        assert_eq!(
            Reply::from_response(code, body()),
            Reply::Failed(Failure::Status { code, body: Some("x".to_string()) })
        );
        assert_eq!(
            Reply::from_response(code, Err("broken".to_string())),
            Reply::Failed(Failure::Status { code, body: None })
        );
    }
    assert_eq!(
        Reply::from_response(200, Err("broken".to_string())),
        Reply::Unreadable("broken".to_string())
    );
}

#[test]
fn reply_yields_its_text_or_one_error() {
    assert_eq!(Reply::Text("body".to_string()).into_text(), Ok("body".to_string()));
    assert_eq!(
        Reply::Unreadable("stream did not contain valid UTF-8".to_string()).into_text(),
        Err(Error::Decode(
            "Failed to decode response: stream did not contain valid UTF-8".to_string()
        ))
    );
    assert_eq!(
        Reply::from_response(404, Ok(envelope_body())).into_text(),
        Err(Error::Api(not_found()))
    );
    assert_eq!(
        Reply::from_response(404, Ok("gone".to_string())).into_text(),
        Err(Error::Http(HttpError { code: 404, message: "gone".to_string() }))
    );
    assert_eq!(
        Reply::from_response(404, Err("broken".to_string())).into_text(),
        Err(Error::Http(HttpError { code: 404, message: "Failed to decode response".to_string() }))
    );
}
