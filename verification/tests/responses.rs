use serde_json::Value;
use stripe_client::{
    body_kind, conclude, decode, error_outcome, payload_outcome, BodyKind, Error, ErrorResponse,
    ErrorType, Reply, RequestError,
};

fn parse_value(body: &str) -> Result<Value, String> {
    serde_json::from_str::<Value>(body).map_err(|e| e.to_string())
}

fn text(value: &Value, field: &str) -> Option<String> {
    value.get(field).and_then(|v| v.as_str()).map(|s| s.to_string())
}

/// Reads an error out of its envelope, `{"error": {...}}`.
fn parse_envelope(body: &str) -> Result<ErrorResponse, String> {
    let value = parse_value(body)?;
    let held = value.get("error").ok_or_else(|| "missing field `error`".to_string())?;
    let error_type = match held.get("type").and_then(|v| v.as_str()) {
        Some("api_error") => ErrorType::Api,
        Some("card_error") => ErrorType::Card,
        Some("invalid_request_error") => ErrorType::InvalidRequest,
        _ => return Err("missing field `type`".to_string()),
    };
    let http_status = held.get("http_status").and_then(|v| v.as_u64()).unwrap_or(0) as u16;
    Ok(ErrorResponse {
        error: RequestError {
            http_status,
            error_type,
            message: text(held, "message"),
            code: text(held, "code"),
        },
    })
}

#[test]
fn status_decides_how_the_body_is_read() {
    assert_eq!(body_kind(200), BodyKind::Payload);
    assert_eq!(body_kind(204), BodyKind::Payload);
    assert_eq!(body_kind(299), BodyKind::Payload);
    assert_eq!(body_kind(199), BodyKind::ErrorEnvelope);
    assert_eq!(body_kind(300), BodyKind::ErrorEnvelope);
    assert_eq!(body_kind(404), BodyKind::ErrorEnvelope);
    assert_eq!(body_kind(500), BodyKind::ErrorEnvelope);
    assert_eq!(body_kind(0), BodyKind::ErrorEnvelope);
    assert_eq!(body_kind(u16::MAX), BodyKind::ErrorEnvelope);
}

#[test]
fn success_returns_the_direct_parse_of_the_body() {
    let body = "{\"id\":\"cus_1\",\"metadata\":{\"any\":\"thing\"},\"balance\":7}";
    let direct: Value = serde_json::from_str(body).unwrap();
    assert_eq!(decode(200, body, parse_value, parse_envelope), Ok(direct.clone()));
    assert_eq!(decode(201, body, parse_value, parse_envelope), Ok(direct.clone()));
    assert_eq!(payload_outcome(Ok::<Value, String>(direct.clone())), Ok(direct));
}

#[test]
fn success_with_an_undecodable_body_is_a_deserialize_error() {
    let detail = parse_value("not json").unwrap_err();
    assert_eq!(
        decode(200, "not json", parse_value, parse_envelope),
        Err(Error::Deserialize(detail.clone()))
    );
    assert_eq!(
        payload_outcome(Err::<Value, String>(detail.clone())),
        Err(Error::Deserialize(detail))
    );
}

#[test]
fn error_carries_the_status_of_the_response() {
    let body = "{\"error\":{\"type\":\"card_error\",\"message\":\"declined\",\"code\":\"card_declined\",\"http_status\":200}}";
    let expected = Error::Api(RequestError {
        http_status: 402,
        error_type: ErrorType::Card,
        message: Some("declined".to_string()),
        code: Some("card_declined".to_string()),
    });
    assert_eq!(parse_envelope(body).unwrap().error.http_status, 200);
    assert_eq!(decode::<Value, _, _>(402, body, parse_value, parse_envelope), Err(expected));
    match error_outcome(500, parse_envelope(body)) {
        Error::Api(error) => {
            assert_eq!(error.http_status, 500);
            assert_eq!(error.error_type, ErrorType::Card);
            assert_eq!(error.code, Some("card_declined".to_string()));
        }
        other => panic!("{:?}", other),
    }
}

#[test]
fn malformed_error_body_gives_a_structured_error() {
    let detail = parse_value("<html>Bad Gateway</html>").unwrap_err();
    let expected = Error::Api(RequestError {
        http_status: 502,
        error_type: ErrorType::Unknown,
        message: Some(format!("failed to deserialize error: {}", detail)),
        code: None,
    });
    assert_eq!(
        decode::<Value, _, _>(502, "<html>Bad Gateway</html>", parse_value, parse_envelope),
        Err(expected)
    );
    match error_outcome(404, Err("expected value at line 1 column 1".to_string())) {
        Error::Api(error) => {
            assert_eq!(error.http_status, 404);
            assert_eq!(
                error.message,
                Some("failed to deserialize error: expected value at line 1 column 1".to_string())
            );
        }
        other => panic!("{:?}", other),
    }
}

#[test]
fn only_one_decoder_sees_the_body() {
    let never_payload = |_: &str| -> Result<Value, String> { panic!("payload decoder called") };
    let never_envelope =
        |_: &str| -> Result<ErrorResponse, String> { panic!("envelope decoder called") };
    assert_eq!(decode(200, "1", parse_value, never_envelope), Ok(Value::from(1)));
    assert!(matches!(
        decode(400, "1", never_payload, parse_envelope),
        Err(Error::Api(RequestError { http_status: 400, .. }))
    ));
}

#[test]
fn transport_failure_is_a_transport_error() {
    let never_payload = |_: &str| -> Result<Value, String> { panic!("payload decoder called") };
    let never_envelope =
        |_: &str| -> Result<ErrorResponse, String> { panic!("envelope decoder called") };
    assert_eq!(
        conclude(Reply::Failed("connection refused".to_string()), never_payload, never_envelope),
        Err(Error::Transport("connection refused".to_string()))
    );
}

#[test]
fn received_reply_is_decoded_by_its_status() {
    let body = "{\"error\":{\"type\":\"api_error\",\"message\":\"boom\"}}";
    let received = |status: u16| Reply::Received { status, body: body.to_string() };
    let direct: Value = serde_json::from_str(body).unwrap();
    assert_eq!(conclude(received(200), parse_value, parse_envelope), Ok(direct));
    assert_eq!(
        conclude::<Value, _, _>(received(500), parse_value, parse_envelope),
        Err(Error::Api(RequestError {
            http_status: 500,
            error_type: ErrorType::Api,
            message: Some("boom".to_string()),
            code: None,
        }))
    );
    let garbled = Reply::Received { status: 200, body: "{".to_string() };
    assert_eq!(
        conclude(garbled, parse_value, parse_envelope),
        Err(Error::Deserialize(parse_value("{").unwrap_err()))
    );
}

#[test]
fn default_error_says_nothing() {
    let error = RequestError::default();
    assert_eq!(
        error,
        RequestError { http_status: 0, error_type: ErrorType::Unknown, message: None, code: None }
    );
    assert_eq!(error.clone(), error);
}
