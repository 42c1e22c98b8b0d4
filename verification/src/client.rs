//! The client: the transport, the credential and the address it calls with.

use crate::builder::{BuilderView, SpeechToTextBuilder};
use crate::error::ElevenLabsSTTError;
use crate::multipart::{multipart_form, request_parts, OCTET_STREAM};
use crate::reqwest_specs::{form_parts, new_transport, parsed_mime, share_transport};
use crate::text::optional_bytes;
use crate::types::STTRequest;
use reqwest::multipart::Form;
use vstd::prelude::*;
use vstd::string::StringExecFns;

verus! {

/// The address of the production service.
pub const DEFAULT_BASE_URL: &'static str = "https://api.elevenlabs.io/v1";

/// The path of the transcription endpoint below the base address.
pub const SPEECH_TO_TEXT_PATH: &'static str = "/speech-to-text";

/// The header that carries the credential.
pub const API_KEY_HEADER: &'static str = "xi-api-key";

/// The HTTP transport, the credential and the base address of the service.
/// None of them changes once the client is made, so clones can be used side
/// by side; they share the transport.
#[derive(Debug)]
pub struct ElevenLabsSTTClient {
    client: reqwest::Client,
    api_key: String,
    base_url: String,
}

/// A client as plain values: the handle to its transport, and the texts of
/// its credential and address.
pub ghost struct ClientView {
    pub transport: reqwest::Client,
    pub api_key: Seq<char>,
    pub base_url: Seq<char>,
}

impl View for ElevenLabsSTTClient {
    type V = ClientView;

    closed spec fn view(&self) -> ClientView {
        ClientView {
            transport: self.client,
            api_key: self.api_key@,
            base_url: self.base_url@,
        }
    }
}

impl Clone for ElevenLabsSTTClient {
    /// A client with the same credential and address, on the same transport.
    fn clone(&self) -> (copy: Self)
        ensures
            copy@ == self@,
    {
        ElevenLabsSTTClient {
            client: share_transport(&self.client),
            api_key: self.api_key.clone(),
            base_url: self.base_url.clone(),
        }
    }
}

/// One call, ready to be sent: a multipart POST to `url` with one header,
/// through the transport of `client`.
pub struct Submission {
    /// The client that makes the call.
    pub client: ElevenLabsSTTClient,
    /// Where to post.
    pub url: String,
    /// The name and the value of the header that carries the credential.
    pub header: (&'static str, String),
    /// The body.
    pub form: Form,
}

impl ElevenLabsSTTClient {
    /// The client's handle to the transport.
    pub open spec fn handle(&self) -> reqwest::Client {
        self@.transport
    }

    /// A client for the production service, with a new transport of its
    /// own.
    pub fn new(api_key: &str) -> (client: Self)
        ensures
            client@.api_key == api_key@,
            client@.base_url == DEFAULT_BASE_URL@,
    {
        ElevenLabsSTTClient {
            client: new_transport(),
            api_key: String::from_str(api_key),
            base_url: String::from_str(DEFAULT_BASE_URL),
        }
    }

    /// A client for a service at another address, with a new transport of
    /// its own.
    pub fn with_base_url(api_key: &str, base_url: &str) -> (client: Self)
        ensures
            client@.api_key == api_key@,
            client@.base_url == base_url@,
    {
        ElevenLabsSTTClient {
            client: new_transport(),
            api_key: String::from_str(api_key),
            base_url: String::from_str(base_url),
        }
    }

    /// The transport that the client's calls are sent through.
    pub fn transport(&self) -> (transport: &reqwest::Client)
        ensures
            *transport == self.handle(),
    {
        &self.client
    }

    /// The credential.
    pub fn api_key(&self) -> (key: &str)
        ensures
            key@ == self@.api_key,
    {
        self.api_key.as_str()
    }

    /// The base address.
    pub fn base_url(&self) -> (url: &str)
        ensures
            url@ == self@.base_url,
    {
        self.base_url.as_str()
    }

    /// Starts a call with the given media, or with none, and no parameter
    /// set. The builder holds a clone of this client, on the same transport.
    pub fn speech_to_text(&self, file: Option<Vec<u8>>) -> (builder: SpeechToTextBuilder)
        ensures
            builder@ == BuilderView::fresh(self@, optional_bytes(file)),
    {
        SpeechToTextBuilder::new(self.clone(), file)
    }

    /// The address of the transcription endpoint: the base address followed
    /// by the endpoint's path.
    pub fn endpoint(&self) -> (url: String)
        ensures
            url@ == self@.base_url + SPEECH_TO_TEXT_PATH@,
    {
        let mut url = self.base_url.clone();
        url.append(SPEECH_TO_TEXT_PATH);
        url
    }

    /// Makes a request ready to be sent by this client: a clone of the
    /// client, on the same transport, the endpoint's address, the credential
    /// as a header, and the request as a multipart form.
    ///
    /// Fails only where the form cannot be written.
    pub fn submission(&self, request: STTRequest) -> (ready: Result<
        Submission,
        ElevenLabsSTTError,
    >)
        ensures
            ready is Ok <==> request@.file is None || parsed_mime(OCTET_STREAM@) is Some,
            ready matches Ok(call) ==> {
                &&& call.client@ == self@
                &&& call.url@ == self@.base_url + SPEECH_TO_TEXT_PATH@
                &&& call.header.0@ == API_KEY_HEADER@
                &&& call.header.1@ == self@.api_key
                &&& form_parts(call.form) == request_parts(request@, parsed_mime(OCTET_STREAM@))
            },
            ready matches Err(failure) ==> failure is RequestError,
    {
        match multipart_form(request) {
            Ok(form) => Ok(
                Submission {
                    client: self.clone(),
                    url: self.endpoint(),
                    header: (API_KEY_HEADER, self.api_key.clone()),
                    form,
                },
            ),
            Err(failure) => Err(failure),
        }
    }
}

} // verus!
