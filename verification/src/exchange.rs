//! What a call makes of the transport's answers.
//!
//! Sending, and reading what comes back, is the caller's part. The
//! decisions between those steps are made here.

use crate::error::{status_failure, transport_failure, ElevenLabsSTTError};
use crate::types::STTResponse;
use vstd::prelude::*;

verus! {

/// A status from 200 to 299.
pub open spec fn is_success(status: u16) -> bool {
    200 <= status < 300
}

/// What a call does once its request was sent, or could not be.
pub enum NextStep {
    /// Give up with this failure.
    Fail(ElevenLabsSTTError),
    /// Read the body as text: it says why the service refused.
    ReadRefusal { status: u16 },
    /// Decode the body as a transcription.
    Decode,
}

/// Decides by the outcome of sending: the status of the response, or the
/// transport's error where none came.
pub fn after_send(sent: Result<u16, reqwest::Error>) -> (next: NextStep)
    ensures
        match sent {
            Ok(status) => if is_success(status) {
                next is Decode
            } else {
                next == (NextStep::ReadRefusal { status })
            },
            Err(cause) => next matches NextStep::Fail(failure) && failure@ == transport_failure(
                cause,
            ),
        },
{
    match sent {
        Ok(status) => if 200 <= status && status < 300 {
            NextStep::Decode
        } else {
            NextStep::ReadRefusal { status }
        },
        Err(cause) => NextStep::Fail(ElevenLabsSTTError::from(cause)),
    }
}

/// The text that stands for a refusal's body: the body where it could be
/// read, and else nothing.
pub open spec fn refusal_text(body: Result<String, reqwest::Error>) -> Seq<char> {
    match body {
        Ok(text) => text@,
        Err(_) => Seq::empty(),
    }
}

/// The failure for a response that the service refused with `status`.
pub fn refused(status: u16, body: Result<String, reqwest::Error>) -> (failure: ElevenLabsSTTError)
    ensures
        failure@ == status_failure(status, refusal_text(body)),
{
    let message = match body {
        Ok(text) => text,
        Err(_) => String::new(),
    };
    ElevenLabsSTTError::from_status(status, message)
}

/// The result of a call whose response was a success: the transcription
/// where the body decoded, and else a parse failure with the cause.
pub fn decoded(body: Result<STTResponse, reqwest::Error>) -> (outcome: Result<
    STTResponse,
    ElevenLabsSTTError,
>)
    ensures
        match body {
            Ok(response) => outcome == Ok::<STTResponse, ElevenLabsSTTError>(response),
            Err(cause) => outcome == Err::<STTResponse, ElevenLabsSTTError>(
                ElevenLabsSTTError::ParseError(cause),
            ),
        },
{
    match body {
        Ok(response) => Ok(response),
        Err(cause) => Err(ElevenLabsSTTError::ParseError(cause)),
    }
}

} // verus!
