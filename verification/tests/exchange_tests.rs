use elevenlabs_stt::exchange::{after_send, decoded, refused, NextStep};
use elevenlabs_stt::{
    Decimal, ElevenLabsSTTClient, ElevenLabsSTTError, STTResponse, STTResponseWord,
    STTResponseWordCharacters,
};
use reqwest::multipart::Part;

fn plain_error() -> reqwest::Error {
    Part::bytes(Vec::new())
        .mime_str("no media type")
        .expect_err("not a media type")
}

fn status_error(code: u16) -> reqwest::Error {
    let response = http::Response::builder()
        .status(code)
        .body("")
        .expect("a response");
    reqwest::Response::from(response)
        .error_for_status()
        .expect_err("a status that is an error")
}

fn only_text(text: &str) -> STTResponse {
    STTResponse {
        text: Some(text.to_string()),
        language_code: None,
        language_probability: None,
        words: None,
    }
}

#[test]
fn a_success_status_asks_for_decoding() {
    for status in [200u16, 201, 204, 250, 299] {
        assert!(matches!(after_send(Ok(status)), NextStep::Decode));
    }
}

#[test]
fn any_other_status_asks_for_the_refusal() {
    for status in [0u16, 100, 199, 300, 301, 400, 401, 402, 429, 500, 999, 65535] {
        match after_send(Ok(status)) {
            NextStep::ReadRefusal { status: kept } => assert_eq!(kept, status),
            NextStep::Decode => panic!("{} is no success", status),
            NextStep::Fail(failure) => panic!("{} is no failure yet: {:?}", status, failure),
        }
    }
}

#[test]
fn a_failed_send_is_a_failed_request() {
    match after_send(Err(plain_error())) {
        NextStep::Fail(ElevenLabsSTTError::RequestError(cause)) => assert!(cause.is_builder()),
        _ => panic!("expected a failed request"),
    }
}

#[test]
fn a_failed_send_with_a_status_is_sorted_by_it() {
    assert!(matches!(
        after_send(Err(status_error(429))),
        NextStep::Fail(ElevenLabsSTTError::RateLimitError {
            retry_after: None,
            ..
        })
    ));
    assert!(matches!(
        after_send(Err(status_error(503))),
        NextStep::Fail(ElevenLabsSTTError::ApiError { status: 503, .. })
    ));
}

#[test]
fn status_429_with_body_slow_down_is_a_rate_limit() {
    match refused(429, Ok("slow down".to_string())) {
        ElevenLabsSTTError::RateLimitError {
            retry_after,
            message,
        } => {
            assert_eq!(retry_after, None);
            assert_eq!(message, "Too many requests");
        }
        other => panic!("expected a rate limit, got {:?}", other),
    }
}

#[test]
fn a_refusal_keeps_status_and_body() {
    match refused(500, Ok("internal error".to_string())) {
        ElevenLabsSTTError::ApiError { status, message } => {
            assert_eq!(status, 500);
            assert_eq!(message, "internal error");
        }
        other => panic!("expected an API error, got {:?}", other),
    }
    assert!(matches!(
        refused(401, Ok("who are you".to_string())),
        ElevenLabsSTTError::AuthenticationError(message) if message == "Invalid API key"
    ));
    assert!(matches!(
        refused(402, Ok(String::new())),
        ElevenLabsSTTError::QuotaExceededError(message) if message == "Insufficient credits"
    ));
}

#[test]
fn a_refusal_whose_body_cannot_be_read_has_an_empty_message() {
    match refused(404, Err(plain_error())) {
        ElevenLabsSTTError::ApiError { status, message } => {
            assert_eq!(status, 404);
            assert_eq!(message, "");
        }
        other => panic!("expected an API error, got {:?}", other),
    }
    assert!(matches!(
        refused(429, Err(plain_error())),
        ElevenLabsSTTError::RateLimitError { .. }
    ));
}

#[test]
fn a_body_that_does_not_decode_is_a_parse_failure() {
    match decoded(Err(plain_error())) {
        Err(ElevenLabsSTTError::ParseError(cause)) => {
            assert_eq!(cause.to_string(), "builder error")
        }
        other => panic!("expected a parse failure, got {:?}", other),
    }
}

#[test]
fn a_decoded_transcription_is_handed_on() {
    let response = decoded(Ok(only_text("hello"))).expect("a transcription");
    assert_eq!(response.text.as_deref(), Some("hello"));
    assert_eq!(response.language_code, None);
    assert!(response.language_probability.is_none());
    assert!(response.words.is_none());
}

#[test]
fn a_decoded_transcription_keeps_its_words() {
    let number = |text: &str| Decimal::parse(text);
    let word = STTResponseWord {
        text: Some("Hi".to_string()),
        start: number("0.5"),
        end: number("0.75"),
        logprob: number("-0.125"),
        type_field: Some("word".to_string()),
        speaker_id: Some("speaker_0".to_string()),
        characters: Some(vec![
            STTResponseWordCharacters {
                text: Some("H".to_string()),
                start: number("0.5"),
                end: number("0.6"),
            },
            STTResponseWordCharacters {
                text: Some("i".to_string()),
                start: number("0.6"),
                end: number("0.75"),
            },
        ]),
    };
    let response = STTResponse {
        text: Some("Hi".to_string()),
        language_code: Some("en".to_string()),
        language_probability: number("0.98"),
        words: Some(vec![word]),
    };
    let kept = decoded(Ok(response)).expect("a transcription");
    assert_eq!(kept.language_code.as_deref(), Some("en"));
    assert_eq!(
        kept.language_probability.as_ref().map(|d| d.as_str()),
        Some("0.98")
    );
    let words = kept.words.expect("words");
    assert_eq!(words.len(), 1);
    assert_eq!(words[0].text.as_deref(), Some("Hi"));
    assert_eq!(words[0].start.as_ref().map(|d| d.as_str()), Some("0.5"));
    assert_eq!(words[0].end.as_ref().map(|d| d.as_str()), Some("0.75"));
    assert_eq!(words[0].logprob.as_ref().map(|d| d.as_str()), Some("-0.125"));
    assert_eq!(words[0].type_field.as_deref(), Some("word"));
    assert_eq!(words[0].speaker_id.as_deref(), Some("speaker_0"));
    let characters = words[0].characters.as_ref().expect("characters");
    assert_eq!(characters.len(), 2);
    assert_eq!(characters[0].text.as_deref(), Some("H"));
    assert_eq!(characters[1].text.as_deref(), Some("i"));
    assert_eq!(characters[1].end.as_ref().map(|d| d.as_str()), Some("0.75"));
}

#[test]
fn a_bare_call_that_is_answered_with_hello() {
    let client = ElevenLabsSTTClient::new("k1");
    let call = client
        .speech_to_text(Some(vec![7; 1000]))
        .prepare()
        .expect("a call");
    assert_eq!(call.header, ("xi-api-key", "k1".to_string()));
    let listing = format!("{:?}", call.form);
    assert_eq!(listing.matches("(\"model_id\",").count(), 1);
    assert_eq!(listing.matches("(\"file\",").count(), 1);
    assert_eq!(listing.matches("Part {").count(), 2);

    assert!(matches!(after_send(Ok(200)), NextStep::Decode));
    let response = decoded(Ok(only_text("hello"))).expect("a transcription");
    assert_eq!(response.text.as_deref(), Some("hello"));
    assert_eq!(response.language_code, None);
    assert!(response.language_probability.is_none());
    assert!(response.words.is_none());
}
