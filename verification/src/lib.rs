//! Client library for a speech-to-text REST endpoint.
//!
//! A call is built with [`SpeechToTextBuilder`] and written as a multipart
//! form by [`ElevenLabsSTTClient`]; what comes back is read by the functions
//! of [`exchange`]. The library makes no call itself: it says what to send
//! and what to make of the answer, and whoever uses it sends through the
//! client's transport.

pub mod builder;
pub mod client;
pub mod decimal;
pub mod error;
pub mod exchange;
pub mod models;
pub mod multipart;
pub mod reqwest_specs;
pub mod text;
pub mod types;

pub use builder::SpeechToTextBuilder;
pub use client::ElevenLabsSTTClient;
pub use decimal::Decimal;
pub use error::ElevenLabsSTTError;
pub use types::{STTRequest, STTResponse, STTResponseWord, STTResponseWordCharacters};
