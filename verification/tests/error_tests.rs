use elevenlabs_stt::error::label_text;
use elevenlabs_stt::ElevenLabsSTTError;
use reqwest::multipart::Part;

/// An error of the transport that carries no status.
fn plain_error() -> reqwest::Error {
    Part::bytes(Vec::new())
        .mime_str("no media type")
        .expect_err("not a media type")
}

/// An error of the transport that carries the given status.
fn status_error(code: u16) -> reqwest::Error {
    let response = http::Response::builder()
        .status(code)
        .body("ignored")
        .expect("a response");
    reqwest::Response::from(response)
        .error_for_status()
        .expect_err("a status that is an error")
}

#[test]
fn test_error_display() {
    let error = ElevenLabsSTTError::ValidationError("Invalid voice ID".to_string());
    let display = error.to_string();

    // Check that the display contains the correct message
    assert!(display.contains("Validation error"));
    assert!(display.contains("Invalid voice ID"));
}

#[test]
fn status_401_is_an_authentication_failure_whatever_the_body() {
    for body in ["", "slow down", "{\"detail\":\"x\"}"] {
        match ElevenLabsSTTError::from_status(401, body.to_string()) {
            ElevenLabsSTTError::AuthenticationError(message) => {
                assert_eq!(message, "Invalid API key")
            }
            other => panic!("expected an authentication failure, got {:?}", other),
        }
    }
}

#[test]
fn status_402_is_quota_exceeded_whatever_the_body() {
    for body in ["", "pay up"] {
        match ElevenLabsSTTError::from_status(402, body.to_string()) {
            ElevenLabsSTTError::QuotaExceededError(message) => {
                assert_eq!(message, "Insufficient credits")
            }
            other => panic!("expected quota exceeded, got {:?}", other),
        }
    }
}

#[test]
fn status_429_is_a_rate_limit_without_retry_hint() {
    match ElevenLabsSTTError::from_status(429, "slow down".to_string()) {
        ElevenLabsSTTError::RateLimitError {
            retry_after,
            message,
        } => {
            assert_eq!(retry_after, None);
            assert_eq!(message, "Too many requests");
        }
        other => panic!("expected a rate limit, got {:?}", other),
    }
}

#[test]
fn any_other_status_is_an_api_error_with_status_and_body() {
    for status in [0u16, 100, 199, 300, 400, 403, 404, 422, 428, 430, 500, 503, 599, 999, 65535] {
        match ElevenLabsSTTError::from_status(status, "the body".to_string()) {
            ElevenLabsSTTError::ApiError {
                status: kept,
                message,
            } => {
                assert_eq!(kept, status);
                assert_eq!(message, "the body");
            }
            other => panic!("expected an API error, got {:?}", other),
        }
    }
}

#[test]
fn each_failure_has_its_line() {
    assert_eq!(
        ElevenLabsSTTError::ApiError {
            status: 500,
            message: "boom".to_string()
        }
        .to_string(),
        "API error (500): boom"
    );
    assert_eq!(
        ElevenLabsSTTError::ApiError {
            status: 0,
            message: String::new()
        }
        .to_string(),
        "API error (0): "
    );
    assert_eq!(
        ElevenLabsSTTError::AuthenticationError("Invalid API key".to_string()).to_string(),
        "Authentication failed: Invalid API key"
    );
    assert_eq!(
        ElevenLabsSTTError::RateLimitError {
            retry_after: None,
            message: "Too many requests".to_string()
        }
        .to_string(),
        "Rate limit exceeded: Too many requests"
    );
    assert_eq!(
        ElevenLabsSTTError::RateLimitError {
            retry_after: Some(30),
            message: "Too many requests".to_string()
        }
        .to_string(),
        "Rate limit exceeded (retry in 30s): Too many requests"
    );
    assert_eq!(
        ElevenLabsSTTError::RateLimitError {
            retry_after: Some(u64::MAX),
            message: "m".to_string()
        }
        .to_string(),
        "Rate limit exceeded (retry in 18446744073709551615s): m"
    );
    assert_eq!(
        ElevenLabsSTTError::QuotaExceededError("Insufficient credits".to_string()).to_string(),
        "Quota exceeded: Insufficient credits"
    );
    assert_eq!(
        ElevenLabsSTTError::ValidationError("Invalid voice ID".to_string()).to_string(),
        "Validation error: Invalid voice ID"
    );
}

#[test]
fn failures_with_a_cause_print_the_cause() {
    let text = plain_error().to_string();
    assert_eq!(text, "builder error");
    assert_eq!(
        ElevenLabsSTTError::RequestError(plain_error()).to_string(),
        "Request failed: builder error"
    );
    assert_eq!(
        ElevenLabsSTTError::ParseError(plain_error()).to_string(),
        "Failed to parse response: builder error"
    );
    let with_status = status_error(500);
    let expected = format!("Request failed: {}", with_status);
    assert_eq!(
        ElevenLabsSTTError::RequestError(with_status).to_string(),
        expected
    );
}

#[test]
fn label_text_joins_with_colon_and_space() {
    assert_eq!(label_text("a".to_string(), "b"), "a: b");
    assert_eq!(label_text(String::new(), ""), ": ");
    assert_eq!(label_text("x: y".to_string(), "z"), "x: y: z");
}

#[test]
fn only_request_and_parse_failures_have_a_source() {
    let request = ElevenLabsSTTError::RequestError(plain_error());
    assert!(request.source().expect("a cause").is_builder());
    let parse = ElevenLabsSTTError::ParseError(status_error(404));
    assert_eq!(
        parse.source().expect("a cause").status().map(|s| s.as_u16()),
        Some(404)
    );
    assert!(ElevenLabsSTTError::ApiError {
        status: 500,
        message: String::new()
    }
    .source()
    .is_none());
    assert!(ElevenLabsSTTError::AuthenticationError(String::new())
        .source()
        .is_none());
    assert!(ElevenLabsSTTError::RateLimitError {
        retry_after: Some(1),
        message: String::new()
    }
    .source()
    .is_none());
    assert!(ElevenLabsSTTError::QuotaExceededError(String::new())
        .source()
        .is_none());
    assert!(ElevenLabsSTTError::ValidationError(String::new())
        .source()
        .is_none());
}

#[test]
fn a_transport_error_without_status_is_a_failed_request() {
    match ElevenLabsSTTError::from(plain_error()) {
        ElevenLabsSTTError::RequestError(cause) => {
            assert!(cause.is_builder());
            assert_eq!(cause.status(), None);
        }
        other => panic!("expected a request error, got {:?}", other),
    }
}

#[test]
fn a_transport_error_is_sorted_by_its_status() {
    assert!(matches!(
        ElevenLabsSTTError::from(status_error(401)),
        ElevenLabsSTTError::AuthenticationError(message) if message == "Invalid API key"
    ));
    assert!(matches!(
        ElevenLabsSTTError::from(status_error(402)),
        ElevenLabsSTTError::QuotaExceededError(message) if message == "Insufficient credits"
    ));
    assert!(matches!(
        ElevenLabsSTTError::from(status_error(429)),
        ElevenLabsSTTError::RateLimitError { retry_after: None, message }
            if message == "Too many requests"
    ));
}

#[test]
fn a_transport_error_with_another_status_keeps_status_and_text() {
    for code in [400u16, 404, 500, 503] {
        let text = status_error(code).to_string();
        assert!(text.contains(&code.to_string()));
        match ElevenLabsSTTError::from(status_error(code)) {
            ElevenLabsSTTError::ApiError { status, message } => {
                assert_eq!(status, code);
                assert_eq!(message, text);
            }
            other => panic!("expected an API error, got {:?}", other),
        }
    }
}

#[test]
fn question_mark_converts_a_transport_error() {
    fn run() -> Result<(), ElevenLabsSTTError> {
        Err(status_error(402))?;
        Ok(())
    }
    assert!(matches!(
        run(),
        Err(ElevenLabsSTTError::QuotaExceededError(_))
    ));
}
