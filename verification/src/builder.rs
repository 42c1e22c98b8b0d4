//! The builder of a call: one setter per parameter, and the step that turns
//! what was set into a request.

use crate::client::{
    ClientView, ElevenLabsSTTClient, Submission, API_KEY_HEADER, SPEECH_TO_TEXT_PATH,
};
use crate::decimal::Decimal;
use crate::error::ElevenLabsSTTError;
use crate::models::elevanlabs_models::SCRIBE_V1;
use crate::multipart::{count_named, lemma_one_file_part, request_parts, FILE_FIELD, OCTET_STREAM};
use crate::reqwest_specs::{form_parts, parsed_mime};
use crate::text::{optional_bytes, optional_text};
use crate::types::{optional_decimal, RequestView, STTRequest};
use vstd::prelude::*;
use vstd::string::StringExecFns;

verus! {

/// Collects the parameters of one call. Nothing is checked while they are
/// collected, and none is required.
#[derive(Debug, Clone)]
pub struct SpeechToTextBuilder {
    pub client: ElevenLabsSTTClient,
    pub file: Option<Vec<u8>>,
    pub model_id: Option<String>,
    pub language_code: Option<String>,
    pub tag_audio_events: Option<bool>,
    pub num_speakers: Option<u32>,
    pub timestamps_granularity: Option<String>,
    pub diarize: Option<bool>,
    pub diarization_threshold: Option<Decimal>,
    pub cloud_storage_url: Option<String>,
    pub webhook: Option<bool>,
    pub webhook_id: Option<String>,
    pub temperature: Option<Decimal>,
    pub seed: Option<u32>,
    pub webhook_metadata: Option<String>,
    pub use_multi_channel: Option<bool>,
}

/// The parameters that have a setter.
pub ghost enum Parameter {
    Model,
    LanguageCode,
    TagAudioEvents,
    NumSpeakers,
    TimestampsGranularity,
    Diarize,
    DiarizationThreshold,
    CloudStorageUrl,
    Webhook,
    WebhookId,
    Temperature,
    Seed,
    UseMultiChannel,
    WebhookMetadata,
}

/// One call of a setter: the parameter and the value given.
pub ghost enum Setting {
    Model(Seq<char>),
    LanguageCode(Seq<char>),
    TagAudioEvents(bool),
    NumSpeakers(u32),
    TimestampsGranularity(Seq<char>),
    Diarize(bool),
    DiarizationThreshold(Seq<char>),
    CloudStorageUrl(Seq<char>),
    Webhook(bool),
    WebhookId(Seq<char>),
    Temperature(Seq<char>),
    Seed(u32),
    UseMultiChannel(bool),
    WebhookMetadata(Seq<char>),
}

impl Setting {
    /// The parameter that the call sets.
    pub open spec fn parameter(self) -> Parameter {
        match self {
            Setting::Model(_) => Parameter::Model,
            Setting::LanguageCode(_) => Parameter::LanguageCode,
            Setting::TagAudioEvents(_) => Parameter::TagAudioEvents,
            Setting::NumSpeakers(_) => Parameter::NumSpeakers,
            Setting::TimestampsGranularity(_) => Parameter::TimestampsGranularity,
            Setting::Diarize(_) => Parameter::Diarize,
            Setting::DiarizationThreshold(_) => Parameter::DiarizationThreshold,
            Setting::CloudStorageUrl(_) => Parameter::CloudStorageUrl,
            Setting::Webhook(_) => Parameter::Webhook,
            Setting::WebhookId(_) => Parameter::WebhookId,
            Setting::Temperature(_) => Parameter::Temperature,
            Setting::Seed(_) => Parameter::Seed,
            Setting::UseMultiChannel(_) => Parameter::UseMultiChannel,
            Setting::WebhookMetadata(_) => Parameter::WebhookMetadata,
        }
    }
}

/// A builder as plain values. The client is there with the handle to its
/// transport, so a statement that the client stays says that the transport
/// stays.
pub ghost struct BuilderView {
    pub client: ClientView,
    pub file: Option<Seq<u8>>,
    pub model_id: Option<Seq<char>>,
    pub language_code: Option<Seq<char>>,
    pub tag_audio_events: Option<bool>,
    pub num_speakers: Option<u32>,
    pub timestamps_granularity: Option<Seq<char>>,
    pub diarize: Option<bool>,
    pub diarization_threshold: Option<Seq<char>>,
    pub cloud_storage_url: Option<Seq<char>>,
    pub webhook: Option<bool>,
    pub webhook_id: Option<Seq<char>>,
    pub temperature: Option<Seq<char>>,
    pub seed: Option<u32>,
    pub use_multi_channel: Option<bool>,
    pub webhook_metadata: Option<Seq<char>>,
}

impl View for SpeechToTextBuilder {
    type V = BuilderView;

    open spec fn view(&self) -> BuilderView {
        BuilderView {
            client: self.client@,
            file: optional_bytes(self.file),
            model_id: optional_text(self.model_id),
            language_code: optional_text(self.language_code),
            tag_audio_events: self.tag_audio_events,
            num_speakers: self.num_speakers,
            timestamps_granularity: optional_text(self.timestamps_granularity),
            diarize: self.diarize,
            diarization_threshold: optional_decimal(self.diarization_threshold),
            cloud_storage_url: optional_text(self.cloud_storage_url),
            webhook: self.webhook,
            webhook_id: optional_text(self.webhook_id),
            temperature: optional_decimal(self.temperature),
            seed: self.seed,
            use_multi_channel: self.use_multi_channel,
            webhook_metadata: optional_text(self.webhook_metadata),
        }
    }
}

impl BuilderView {
    /// A builder on which no setter was called.
    pub open spec fn fresh(client: ClientView, file: Option<Seq<u8>>) -> BuilderView {
        BuilderView {
            client,
            file,
            model_id: None,
            language_code: None,
            tag_audio_events: None,
            num_speakers: None,
            timestamps_granularity: None,
            diarize: None,
            diarization_threshold: None,
            cloud_storage_url: None,
            webhook: None,
            webhook_id: None,
            temperature: None,
            seed: None,
            use_multi_channel: None,
            webhook_metadata: None,
        }
    }

    /// The builder after one call of a setter.
    pub open spec fn set(self, call: Setting) -> BuilderView {
        match call {
            Setting::Model(v) => BuilderView { model_id: Some(v), ..self },
            Setting::LanguageCode(v) => BuilderView { language_code: Some(v), ..self },
            Setting::TagAudioEvents(v) => BuilderView { tag_audio_events: Some(v), ..self },
            Setting::NumSpeakers(v) => BuilderView { num_speakers: Some(v), ..self },
            Setting::TimestampsGranularity(v) => BuilderView {
                timestamps_granularity: Some(v),
                ..self
            },
            Setting::Diarize(v) => BuilderView { diarize: Some(v), ..self },
            Setting::DiarizationThreshold(v) => BuilderView {
                diarization_threshold: Some(v),
                ..self
            },
            Setting::CloudStorageUrl(v) => BuilderView { cloud_storage_url: Some(v), ..self },
            Setting::Webhook(v) => BuilderView { webhook: Some(v), ..self },
            Setting::WebhookId(v) => BuilderView { webhook_id: Some(v), ..self },
            Setting::Temperature(v) => BuilderView { temperature: Some(v), ..self },
            Setting::Seed(v) => BuilderView { seed: Some(v), ..self },
            Setting::UseMultiChannel(v) => BuilderView { use_multi_channel: Some(v), ..self },
            Setting::WebhookMetadata(v) => BuilderView { webhook_metadata: Some(v), ..self },
        }
    }

    /// The builder after a run of calls, made in the order given.
    pub open spec fn set_all(self, calls: Seq<Setting>) -> BuilderView
        decreases calls.len(),
    {
        if calls.len() == 0 {
            self
        } else {
            self.set_all(calls.drop_last()).set(calls.last())
        }
    }

    /// What the builder holds for a parameter, as the call that would set it.
    pub open spec fn setting(self, parameter: Parameter) -> Option<Setting> {
        match parameter {
            Parameter::Model => match self.model_id {
                Some(v) => Some(Setting::Model(v)),
                None => None,
            },
            Parameter::LanguageCode => match self.language_code {
                Some(v) => Some(Setting::LanguageCode(v)),
                None => None,
            },
            Parameter::TagAudioEvents => match self.tag_audio_events {
                Some(v) => Some(Setting::TagAudioEvents(v)),
                None => None,
            },
            Parameter::NumSpeakers => match self.num_speakers {
                Some(v) => Some(Setting::NumSpeakers(v)),
                None => None,
            },
            Parameter::TimestampsGranularity => match self.timestamps_granularity {
                Some(v) => Some(Setting::TimestampsGranularity(v)),
                None => None,
            },
            Parameter::Diarize => match self.diarize {
                Some(v) => Some(Setting::Diarize(v)),
                None => None,
            },
            Parameter::DiarizationThreshold => match self.diarization_threshold {
                Some(v) => Some(Setting::DiarizationThreshold(v)),
                None => None,
            },
            Parameter::CloudStorageUrl => match self.cloud_storage_url {
                Some(v) => Some(Setting::CloudStorageUrl(v)),
                None => None,
            },
            Parameter::Webhook => match self.webhook {
                Some(v) => Some(Setting::Webhook(v)),
                None => None,
            },
            Parameter::WebhookId => match self.webhook_id {
                Some(v) => Some(Setting::WebhookId(v)),
                None => None,
            },
            Parameter::Temperature => match self.temperature {
                Some(v) => Some(Setting::Temperature(v)),
                None => None,
            },
            Parameter::Seed => match self.seed {
                Some(v) => Some(Setting::Seed(v)),
                None => None,
            },
            Parameter::UseMultiChannel => match self.use_multi_channel {
                Some(v) => Some(Setting::UseMultiChannel(v)),
                None => None,
            },
            Parameter::WebhookMetadata => match self.webhook_metadata {
                Some(v) => Some(Setting::WebhookMetadata(v)),
                None => None,
            },
        }
    }

    /// The request that the builder stands for: every parameter as it was
    /// set, and the default model where none was.
    pub open spec fn request(self) -> RequestView {
        RequestView {
            file: self.file,
            model_id: match self.model_id {
                Some(model) => model,
                None => SCRIBE_V1@,
            },
            language_code: self.language_code,
            tag_audio_events: self.tag_audio_events,
            num_speakers: self.num_speakers,
            timestamps_granularity: self.timestamps_granularity,
            diarize: self.diarize,
            diarization_threshold: self.diarization_threshold,
            cloud_storage_url: self.cloud_storage_url,
            webhook: self.webhook,
            webhook_id: self.webhook_id,
            temperature: self.temperature,
            seed: self.seed,
            use_multi_channel: self.use_multi_channel,
            webhook_metadata: self.webhook_metadata,
        }
    }
}

/// What a request holds for a parameter, as the call that would set it. A
/// request always names a model.
pub open spec fn request_setting(request: RequestView, parameter: Parameter) -> Option<Setting> {
    match parameter {
        Parameter::Model => Some(Setting::Model(request.model_id)),
        Parameter::LanguageCode => match request.language_code {
                Some(v) => Some(Setting::LanguageCode(v)),
                None => None,
            },
        Parameter::TagAudioEvents => match request.tag_audio_events {
                Some(v) => Some(Setting::TagAudioEvents(v)),
                None => None,
            },
        Parameter::NumSpeakers => match request.num_speakers {
                Some(v) => Some(Setting::NumSpeakers(v)),
                None => None,
            },
        Parameter::TimestampsGranularity => match request.timestamps_granularity {
                Some(v) => Some(Setting::TimestampsGranularity(v)),
                None => None,
            },
        Parameter::Diarize => match request.diarize {
                Some(v) => Some(Setting::Diarize(v)),
                None => None,
            },
        Parameter::DiarizationThreshold => match request.diarization_threshold {
                Some(v) => Some(Setting::DiarizationThreshold(v)),
                None => None,
            },
        Parameter::CloudStorageUrl => match request.cloud_storage_url {
                Some(v) => Some(Setting::CloudStorageUrl(v)),
                None => None,
            },
        Parameter::Webhook => match request.webhook {
                Some(v) => Some(Setting::Webhook(v)),
                None => None,
            },
        Parameter::WebhookId => match request.webhook_id {
                Some(v) => Some(Setting::WebhookId(v)),
                None => None,
            },
        Parameter::Temperature => match request.temperature {
                Some(v) => Some(Setting::Temperature(v)),
                None => None,
            },
        Parameter::Seed => match request.seed {
                Some(v) => Some(Setting::Seed(v)),
                None => None,
            },
        Parameter::UseMultiChannel => match request.use_multi_channel {
                Some(v) => Some(Setting::UseMultiChannel(v)),
                None => None,
            },
        Parameter::WebhookMetadata => match request.webhook_metadata {
                Some(v) => Some(Setting::WebhookMetadata(v)),
                None => None,
            },
    }
}

/// No call after the one at `at` sets the same parameter again.
pub open spec fn sets_last(calls: Seq<Setting>, at: int) -> bool {
    forall|later: int|
        at < later < calls.len() ==> (#[trigger] calls[later]).parameter()
            != calls[at].parameter()
}

/// No call sets the parameter.
pub open spec fn never_set(calls: Seq<Setting>, parameter: Parameter) -> bool {
    forall|at: int| 0 <= at < calls.len() ==> (#[trigger] calls[at]).parameter() != parameter
}

/// After one call, the builder holds the call's value for the call's
/// parameter, and for every other parameter what it held before.
proof fn lemma_set_then_read(builder: BuilderView, call: Setting, parameter: Parameter)
    ensures
        builder.set(call).setting(parameter) == if parameter == call.parameter() {
            Some(call)
        } else {
            builder.setting(parameter)
        },
        builder.set(call).client == builder.client,
        builder.set(call).file == builder.file,
{
}

/// Whatever setters are called, and in whatever order, the builder holds
/// for each parameter the value of the last call that set it, and for a
/// parameter that no call set what it held before. The client, its
/// transport with it, and the media stay as they were.
pub proof fn lemma_last_setting_wins(start: BuilderView, calls: Seq<Setting>)
    ensures
        start.set_all(calls).client == start.client,
        start.set_all(calls).file == start.file,
        forall|at: int|
            0 <= at < calls.len() && sets_last(calls, at) ==> start.set_all(calls).setting(
                (#[trigger] calls[at]).parameter(),
            ) == Some(calls[at]),
        forall|parameter: Parameter|
            never_set(calls, parameter) ==> #[trigger] start.set_all(calls).setting(parameter)
                == start.setting(parameter),
    decreases calls.len(),
{
    if calls.len() > 0 {
        let earlier = calls.drop_last();
        let before = start.set_all(earlier);
        let last = calls.last();
        lemma_last_setting_wins(start, earlier);
        assert forall|at: int| 0 <= at < calls.len() && sets_last(calls, at) implies before.set(
            last,
        ).setting((#[trigger] calls[at]).parameter()) == Some(calls[at]) by {
            lemma_set_then_read(before, last, calls[at].parameter());
            if at < calls.len() - 1 {
                assert(calls[calls.len() - 1].parameter() != calls[at].parameter());
                assert(earlier[at] == calls[at]);
                assert(sets_last(earlier, at)) by {
                    assert forall|later: int| at < later < earlier.len() implies (
                    #[trigger] earlier[later]).parameter() != earlier[at].parameter() by {
                        assert(calls[later].parameter() != calls[at].parameter());
                    }
                }
            }
        }
        assert forall|parameter: Parameter| never_set(calls, parameter) implies #[trigger] before.set(
            last,
        ).setting(parameter) == start.setting(parameter) by {
            lemma_set_then_read(before, last, parameter);
            assert(calls[calls.len() - 1].parameter() != parameter);
            assert(before.setting(parameter) == start.setting(parameter)) by {
                assert forall|at: int| 0 <= at < earlier.len() implies (
                #[trigger] earlier[at]).parameter() != parameter by {
                    assert(calls[at].parameter() != parameter);
                }
            }
        }
    }
}

/// The request that comes of a new builder and any run of setter calls
/// holds the media the builder was made with, for each parameter the value
/// of the last call that set it, and nothing for a parameter that no call
/// set, but for the model, which is then the default.
pub proof fn lemma_request_reflects_settings(
    client: ClientView,
    file: Option<Seq<u8>>,
    calls: Seq<Setting>,
)
    ensures
        ({
            let request = BuilderView::fresh(client, file).set_all(calls).request();
            &&& request.file == file
            &&& forall|at: int|
                0 <= at < calls.len() && sets_last(calls, at) ==> request_setting(
                    request,
                    (#[trigger] calls[at]).parameter(),
                ) == Some(calls[at])
            &&& forall|parameter: Parameter|
                never_set(calls, parameter) ==> #[trigger] request_setting(request, parameter)
                    == if parameter == Parameter::Model {
                    Some(Setting::Model(SCRIBE_V1@))
                } else {
                    None
                }
        }),
{
    let start = BuilderView::fresh(client, file);
    let built = start.set_all(calls);
    let request = built.request();
    lemma_last_setting_wins(start, calls);
    assert forall|at: int| 0 <= at < calls.len() && sets_last(calls, at) implies request_setting(
        request,
        (#[trigger] calls[at]).parameter(),
    ) == Some(calls[at]) by {
        assert(built.setting(calls[at].parameter()) == Some(calls[at]));
    }
    assert forall|parameter: Parameter| never_set(calls, parameter) implies #[trigger] request_setting(
        request,
        parameter,
    ) == if parameter == Parameter::Model {
        Some(Setting::Model(SCRIBE_V1@))
    } else {
        None
    } by {
        assert(built.setting(parameter) == start.setting(parameter));
    }
}

/// Whatever setters are called on a new builder, the body of the request
/// that comes of it has exactly one part under the media's field name where
/// the builder was made with media, and none where it was made without.
pub proof fn lemma_file_part_iff_media(
    client: ClientView,
    file: Option<Seq<u8>>,
    calls: Seq<Setting>,
    mime: Option<Seq<char>>,
)
    ensures
        count_named(
            request_parts(BuilderView::fresh(client, file).set_all(calls).request(), mime),
            FILE_FIELD@,
        ) == (if file is Some {
            1nat
        } else {
            0nat
        }),
{
    let start = BuilderView::fresh(client, file);
    lemma_last_setting_wins(start, calls);
    lemma_one_file_part(start.set_all(calls).request(), mime);
}

impl SpeechToTextBuilder {
    /// A builder for a call by `client`, with the given media or none.
    pub fn new(client: ElevenLabsSTTClient, file: Option<Vec<u8>>) -> (builder: Self)
        ensures
            builder@ == BuilderView::fresh(client@, optional_bytes(file)),
    {
        SpeechToTextBuilder {
            client,
            file,
            model_id: None,
            language_code: None,
            tag_audio_events: None,
            num_speakers: None,
            timestamps_granularity: None,
            diarize: None,
            diarization_threshold: None,
            cloud_storage_url: None,
            webhook: None,
            webhook_id: None,
            temperature: None,
            seed: None,
            use_multi_channel: None,
            webhook_metadata: None,
        }
    }

    /// Sets the model that transcribes.
    pub fn model(self, model_id: &str) -> (updated: Self)
        ensures
            updated@ == self@.set(Setting::Model(model_id@)),
    {
        SpeechToTextBuilder { model_id: Some(String::from_str(model_id)), ..self }
    }

    /// Sets the language, as an ISO 639-1 code.
    pub fn language_code(self, language_code: &str) -> (updated: Self)
        ensures
            updated@ == self@.set(Setting::LanguageCode(language_code@)),
    {
        SpeechToTextBuilder { language_code: Some(String::from_str(language_code)), ..self }
    }

    /// Sets whether sounds are tagged in the transcript.
    pub fn tag_audio_events(self, tag_audio_events: bool) -> (updated: Self)
        ensures
            updated@ == self@.set(Setting::TagAudioEvents(tag_audio_events)),
    {
        SpeechToTextBuilder { tag_audio_events: Some(tag_audio_events), ..self }
    }

    /// Sets the largest number of speakers to tell apart.
    pub fn num_speakers(self, num_speakers: u32) -> (updated: Self)
        ensures
            updated@ == self@.set(Setting::NumSpeakers(num_speakers)),
    {
        SpeechToTextBuilder { num_speakers: Some(num_speakers), ..self }
    }

    /// Sets the granularity of the timestamps.
    pub fn timestamps_granularity(self, timestamps_granularity: &str) -> (updated: Self)
        ensures
            updated@ == self@.set(Setting::TimestampsGranularity(timestamps_granularity@)),
    {
        SpeechToTextBuilder { timestamps_granularity: Some(String::from_str(timestamps_granularity)), ..self }
    }

    /// Sets whether each segment is labelled with its speaker.
    pub fn diarize(self, diarize: bool) -> (updated: Self)
        ensures
            updated@ == self@.set(Setting::Diarize(diarize)),
    {
        SpeechToTextBuilder { diarize: Some(diarize), ..self }
    }

    /// Sets how readily two voices are taken for one speaker.
    pub fn diarization_threshold(self, diarization_threshold: Decimal) -> (updated: Self)
        ensures
            updated@ == self@.set(Setting::DiarizationThreshold(diarization_threshold@)),
    {
        SpeechToTextBuilder { diarization_threshold: Some(diarization_threshold), ..self }
    }

    /// Sets an address of the media, in place of media handed over.
    pub fn cloud_storage_url(self, cloud_storage_url: &str) -> (updated: Self)
        ensures
            updated@ == self@.set(Setting::CloudStorageUrl(cloud_storage_url@)),
    {
        SpeechToTextBuilder { cloud_storage_url: Some(String::from_str(cloud_storage_url)), ..self }
    }

    /// Sets whether the result is delivered to the configured webhooks.
    pub fn webhook(self, webhook: bool) -> (updated: Self)
        ensures
            updated@ == self@.set(Setting::Webhook(webhook)),
    {
        SpeechToTextBuilder { webhook: Some(webhook), ..self }
    }

    /// Sets the one webhook to deliver to.
    pub fn webhook_id(self, webhook_id: &str) -> (updated: Self)
        ensures
            updated@ == self@.set(Setting::WebhookId(webhook_id@)),
    {
        SpeechToTextBuilder { webhook_id: Some(String::from_str(webhook_id)), ..self }
    }

    /// Sets the sampling temperature.
    pub fn temperature(self, temperature: Decimal) -> (updated: Self)
        ensures
            updated@ == self@.set(Setting::Temperature(temperature@)),
    {
        SpeechToTextBuilder { temperature: Some(temperature), ..self }
    }

    /// Sets the seed for sampling.
    pub fn seed(self, seed: u32) -> (updated: Self)
        ensures
            updated@ == self@.set(Setting::Seed(seed)),
    {
        SpeechToTextBuilder { seed: Some(seed), ..self }
    }

    /// Sets whether each channel is transcribed by itself.
    pub fn use_multi_channel(self, use_multi_channel: bool) -> (updated: Self)
        ensures
            updated@ == self@.set(Setting::UseMultiChannel(use_multi_channel)),
    {
        SpeechToTextBuilder { use_multi_channel: Some(use_multi_channel), ..self }
    }

    /// Sets the metadata that is handed back in the webhook delivery.
    pub fn webhook_metadata(self, webhook_metadata: &str) -> (updated: Self)
        ensures
            updated@ == self@.set(Setting::WebhookMetadata(webhook_metadata@)),
    {
        SpeechToTextBuilder { webhook_metadata: Some(String::from_str(webhook_metadata)), ..self }
    }

    /// Ends the collecting: gives the client and the request that the
    /// builder stands for. Where no model was set, the request names the
    /// default model.
    pub fn finalize(self) -> (parts: (ElevenLabsSTTClient, STTRequest))
        ensures
            parts.0@ == self@.client,
            parts.1@ == self@.request(),
    {
        let model_id = match self.model_id {
            Some(model) => model,
            None => String::from_str(SCRIBE_V1),
        };
        let request = STTRequest {
            file: self.file,
            model_id,
            language_code: self.language_code,
            tag_audio_events: self.tag_audio_events,
            num_speakers: self.num_speakers,
            timestamps_granularity: self.timestamps_granularity,
            diarize: self.diarize,
            diarization_threshold: self.diarization_threshold,
            cloud_storage_url: self.cloud_storage_url,
            webhook: self.webhook,
            webhook_id: self.webhook_id,
            temperature: self.temperature,
            seed: self.seed,
            use_multi_channel: self.use_multi_channel,
            webhook_metadata: self.webhook_metadata,
        };
        (self.client, request)
    }

    /// Makes the call ready to be sent: finalizes the request and has the
    /// client write it.
    ///
    /// Fails only where the form cannot be written.
    pub fn prepare(self) -> (ready: Result<Submission, ElevenLabsSTTError>)
        ensures
            ready is Ok <==> self@.file is None || parsed_mime(OCTET_STREAM@) is Some,
            ready matches Ok(call) ==> {
                &&& call.client@ == self@.client
                &&& call.url@ == self@.client.base_url + SPEECH_TO_TEXT_PATH@
                &&& call.header.0@ == API_KEY_HEADER@
                &&& call.header.1@ == self@.client.api_key
                &&& form_parts(call.form) == request_parts(
                    self@.request(),
                    parsed_mime(OCTET_STREAM@),
                )
            },
            ready matches Err(failure) ==> failure is RequestError,
    {
        let (client, request) = self.finalize();
        client.submission(request)
    }
}

} // verus!
