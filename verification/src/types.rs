//! The request and response models of the speech-to-text endpoint.

use crate::decimal::Decimal;
use crate::text::{optional_bytes, optional_text};
use vstd::prelude::*;

verus! {

/// The content of an optional numeral.
pub open spec fn optional_decimal(number: Option<Decimal>) -> Option<Seq<char>> {
    match number {
        Some(d) => Some(d@),
        None => None,
    }
}

/// Every parameter of one transcription call.
#[derive(Debug, Clone)]
pub struct STTRequest {
    /// The audio or video to transcribe. The service expects exactly one of
    /// `file` and `cloud_storage_url`.
    pub file: Option<Vec<u8>>,
    /// The model that transcribes.
    pub model_id: String,
    /// An ISO 639-1 code that fixes the language.
    pub language_code: Option<String>,
    /// Whether sounds such as laughter are tagged in the transcript.
    pub tag_audio_events: Option<bool>,
    /// The largest number of speakers to tell apart; the service accepts up
    /// to 32.
    pub num_speakers: Option<u32>,
    /// One of `none`, `word`, `character`.
    pub timestamps_granularity: Option<String>,
    /// Whether each segment is labelled with its speaker.
    pub diarize: Option<bool>,
    /// How readily two voices are taken for one speaker. The service reads
    /// it when `diarize` is set and `num_speakers` is not.
    pub diarization_threshold: Option<Decimal>,
    /// An HTTPS address of the media, in place of `file`.
    pub cloud_storage_url: Option<String>,
    /// Whether the result is delivered to the configured webhooks instead of
    /// in the response.
    pub webhook: Option<bool>,
    /// The one webhook to deliver to; read only when `webhook` is set.
    pub webhook_id: Option<String>,
    /// The sampling temperature; the service accepts 0 to 2.
    pub temperature: Option<Decimal>,
    /// A seed for sampling; the service accepts 0 to 2147483647.
    pub seed: Option<u32>,
    /// Whether each channel holds one speaker and is transcribed by itself;
    /// the service accepts up to five channels.
    pub use_multi_channel: Option<bool>,
    /// A JSON object, as text, that is handed back in the webhook delivery.
    pub webhook_metadata: Option<String>,
}

/// A request as plain mathematical values.
pub ghost struct RequestView {
    pub file: Option<Seq<u8>>,
    pub model_id: Seq<char>,
    pub language_code: Option<Seq<char>>,
    pub tag_audio_events: Option<bool>,
    pub num_speakers: Option<u32>,
    pub timestamps_granularity: Option<Seq<char>>,
    pub diarize: Option<bool>,
    pub diarization_threshold: Option<Seq<char>>,
    pub cloud_storage_url: Option<Seq<char>>,
    pub webhook: Option<bool>,
    pub webhook_id: Option<Seq<char>>,
    pub temperature: Option<Seq<char>>,
    pub seed: Option<u32>,
    pub use_multi_channel: Option<bool>,
    pub webhook_metadata: Option<Seq<char>>,
}

impl View for STTRequest {
    type V = RequestView;

    open spec fn view(&self) -> RequestView {
        RequestView {
            file: optional_bytes(self.file),
            model_id: self.model_id@,
            language_code: optional_text(self.language_code),
            tag_audio_events: self.tag_audio_events,
            num_speakers: self.num_speakers,
            timestamps_granularity: optional_text(self.timestamps_granularity),
            diarize: self.diarize,
            diarization_threshold: optional_decimal(self.diarization_threshold),
            cloud_storage_url: optional_text(self.cloud_storage_url),
            webhook: self.webhook,
            webhook_id: optional_text(self.webhook_id),
            temperature: optional_decimal(self.temperature),
            seed: self.seed,
            use_multi_channel: self.use_multi_channel,
            webhook_metadata: optional_text(self.webhook_metadata),
        }
    }
}

/// A decoded transcription. A field that the service left out is absent.
#[derive(Debug, Clone)]
pub struct STTResponse {
    /// The transcript.
    pub text: Option<String>,
    /// The language that was detected.
    pub language_code: Option<String>,
    /// How sure the detection is, from 0 to 1.
    pub language_probability: Option<Decimal>,
    /// The transcript word by word, in the order spoken.
    pub words: Option<Vec<STTResponseWord>>,
}

/// One word, spacing or sound of a transcript.
#[derive(Debug, Clone)]
pub struct STTResponseWord {
    /// What was said.
    pub text: Option<String>,
    /// Where it begins, in seconds.
    pub start: Option<Decimal>,
    /// Where it ends, in seconds.
    pub end: Option<Decimal>,
    /// The logarithm of the probability that the word is right.
    pub logprob: Option<Decimal>,
    /// The kind of entry, such as a word or a spacing.
    pub type_field: Option<String>,
    /// Who said it; present when speakers were told apart.
    pub speaker_id: Option<String>,
    /// The word letter by letter; present at character granularity.
    pub characters: Option<Vec<STTResponseWordCharacters>>,
}

/// One character of a word.
#[derive(Debug, Clone)]
pub struct STTResponseWordCharacters {
    /// The character.
    pub text: Option<String>,
    /// Where it begins, in seconds.
    pub start: Option<Decimal>,
    /// Where it ends, in seconds.
    pub end: Option<Decimal>,
}

} // verus!
