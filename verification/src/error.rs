//! The failures of a transcription call.

use crate::reqwest_specs::{cause_text, error_status, error_text, status_code};
use crate::text::{decimal, decimal_text};
use vstd::prelude::*;
use vstd::std_specs::convert::FromSpecImpl;
use vstd::string::StringExecFns;

verus! {

/// Everything that can go wrong with a call.
#[derive(Debug)]
pub enum ElevenLabsSTTError {
    /// The request did not get a response: connection, timeout, TLS.
    RequestError(reqwest::Error),
    /// The service answered with a status that is not a success and has no
    /// variant of its own.
    ApiError { status: u16, message: String },
    /// The service answered with a success, and the body is no transcription.
    ParseError(reqwest::Error),
    /// The service did not accept the API key (status 401).
    AuthenticationError(String),
    /// Too many requests (status 429). `retry_after` is in seconds.
    RateLimitError { retry_after: Option<u64>, message: String },
    /// The account is out of credits (status 402).
    QuotaExceededError(String),
    /// A parameter is not acceptable.
    ValidationError(String),
}

/// A failure with its texts as character sequences.
pub ghost enum ErrorView {
    RequestError(reqwest::Error),
    ApiError { status: u16, message: Seq<char> },
    ParseError(reqwest::Error),
    AuthenticationError(Seq<char>),
    RateLimitError { retry_after: Option<u64>, message: Seq<char> },
    QuotaExceededError(Seq<char>),
    ValidationError(Seq<char>),
}

impl View for ElevenLabsSTTError {
    type V = ErrorView;

    open spec fn view(&self) -> ErrorView {
        match *self {
            ElevenLabsSTTError::RequestError(cause) => ErrorView::RequestError(cause),
            ElevenLabsSTTError::ApiError { status, message } => ErrorView::ApiError {
                status,
                message: message@,
            },
            ElevenLabsSTTError::ParseError(cause) => ErrorView::ParseError(cause),
            ElevenLabsSTTError::AuthenticationError(message) => ErrorView::AuthenticationError(
                message@,
            ),
            ElevenLabsSTTError::RateLimitError { retry_after, message } => {
                ErrorView::RateLimitError { retry_after, message: message@ }
            },
            ElevenLabsSTTError::QuotaExceededError(message) => ErrorView::QuotaExceededError(
                message@,
            ),
            ElevenLabsSTTError::ValidationError(message) => ErrorView::ValidationError(message@),
        }
    }
}

/// The failure that a status stands for: 401, 429 and 402 have a variant of
/// their own with a fixed message, whatever `message` holds; every other
/// status is an API error that carries the status and `message` as they came.
pub open spec fn status_failure(status: u16, message: Seq<char>) -> ErrorView {
    if status == 401 {
        ErrorView::AuthenticationError("Invalid API key"@)
    } else if status == 429 {
        ErrorView::RateLimitError { retry_after: None, message: "Too many requests"@ }
    } else if status == 402 {
        ErrorView::QuotaExceededError("Insufficient credits"@)
    } else {
        ErrorView::ApiError { status, message }
    }
}

/// The failure that a transport error stands for: by its status where it
/// has one, with the error's own text as the message, and else a failed
/// request with the error as its cause.
pub open spec fn transport_failure(cause: reqwest::Error) -> ErrorView {
    match error_status(cause) {
        Some(status) => status_failure(status, error_text(cause)),
        None => ErrorView::RequestError(cause),
    }
}

/// `label`, a colon, a space, and `detail`.
pub open spec fn labelled(label: Seq<char>, detail: Seq<char>) -> Seq<char> {
    label + ": "@ + detail
}

/// The line that describes a failure.
pub open spec fn description(failure: ErrorView) -> Seq<char> {
    match failure {
        ErrorView::RequestError(cause) => labelled("Request failed"@, error_text(cause)),
        ErrorView::ApiError { status, message } => labelled(
            "API error ("@ + decimal(status as nat) + ")"@,
            message,
        ),
        ErrorView::ParseError(cause) => labelled(
            "Failed to parse response"@,
            error_text(cause),
        ),
        ErrorView::AuthenticationError(message) => labelled("Authentication failed"@, message),
        ErrorView::RateLimitError { retry_after: Some(seconds), message } => labelled(
            "Rate limit exceeded (retry in "@ + decimal(seconds as nat) + "s)"@,
            message,
        ),
        ErrorView::RateLimitError { retry_after: None, message } => labelled(
            "Rate limit exceeded"@,
            message,
        ),
        ErrorView::QuotaExceededError(message) => labelled("Quota exceeded"@, message),
        ErrorView::ValidationError(message) => labelled("Validation error"@, message),
    }
}

/// Writes `label`, a colon, a space, and `detail`.
pub fn label_text(label: String, detail: &str) -> (line: String)
    ensures
        line@ == labelled(label@, detail@),
{
    let mut line = label;
    line.append(": ");
    line.append(detail);
    line
}

impl ElevenLabsSTTError {
    /// The failure for a response whose status is not a success, or for a
    /// transport error that carries a status.
    pub fn from_status(status: u16, message: String) -> (failure: Self)
        ensures
            failure@ == status_failure(status, message@),
    {
        if status == 401 {
            ElevenLabsSTTError::AuthenticationError(String::from_str("Invalid API key"))
        } else if status == 429 {
            ElevenLabsSTTError::RateLimitError {
                retry_after: None,
                message: String::from_str("Too many requests"),
            }
        } else if status == 402 {
            ElevenLabsSTTError::QuotaExceededError(String::from_str("Insufficient credits"))
        } else {
            ElevenLabsSTTError::ApiError { status, message }
        }
    }

    /// The line that describes the failure.
    pub fn to_string(&self) -> (line: String)
        ensures
            line@ == description(self@),
    {
        match self {
            ElevenLabsSTTError::RequestError(cause) => {
                let detail = cause_text(cause);
                label_text(String::from_str("Request failed"), detail.as_str())
            },
            ElevenLabsSTTError::ApiError { status, message } => {
                let mut label = String::from_str("API error (");
                let number = decimal_text(*status as u64);
                label.append(number.as_str());
                label.append(")");
                label_text(label, message.as_str())
            },
            ElevenLabsSTTError::ParseError(cause) => {
                let detail = cause_text(cause);
                label_text(String::from_str("Failed to parse response"), detail.as_str())
            },
            ElevenLabsSTTError::AuthenticationError(message) => label_text(
                String::from_str("Authentication failed"),
                message.as_str(),
            ),
            ElevenLabsSTTError::RateLimitError { retry_after, message } => match retry_after {
                Some(seconds) => {
                    let mut label = String::from_str("Rate limit exceeded (retry in ");
                    let number = decimal_text(*seconds);
                    label.append(number.as_str());
                    label.append("s)");
                    label_text(label, message.as_str())
                },
                None => label_text(String::from_str("Rate limit exceeded"), message.as_str()),
            },
            ElevenLabsSTTError::QuotaExceededError(message) => label_text(
                String::from_str("Quota exceeded"),
                message.as_str(),
            ),
            ElevenLabsSTTError::ValidationError(message) => label_text(
                String::from_str("Validation error"),
                message.as_str(),
            ),
        }
    }

    /// The transport's error behind the failure, where there is one.
    pub fn source(&self) -> (cause: Option<&reqwest::Error>)
        ensures
            match self@ {
                ErrorView::RequestError(e) => cause == Some(&e),
                ErrorView::ParseError(e) => cause == Some(&e),
                _ => cause is None,
            },
    {
        match self {
            ElevenLabsSTTError::RequestError(cause) => Some(cause),
            ElevenLabsSTTError::ParseError(cause) => Some(cause),
            _ => None,
        }
    }
}

/// What `from` returns is stated on `from` itself, over views: the messages
/// it writes are known by their content, so no structural equation with a
/// spec value is claimed.
impl FromSpecImpl<reqwest::Error> for ElevenLabsSTTError {
    open spec fn obeys_from_spec() -> bool {
        false
    }

    open spec fn from_spec(cause: reqwest::Error) -> ElevenLabsSTTError {
        ElevenLabsSTTError::RequestError(cause)
    }
}

impl From<reqwest::Error> for ElevenLabsSTTError {
    /// Sorts a transport error by the status it carries, if any.
    fn from(error: reqwest::Error) -> (failure: ElevenLabsSTTError)
        ensures
            failure@ == transport_failure(error),
    {
        match status_code(&error) {
            Some(status) => ElevenLabsSTTError::from_status(status, cause_text(&error)),
            None => ElevenLabsSTTError::RequestError(error),
        }
    }
}

} // verus!
