//! What this library takes on trust about `reqwest`.
//!
//! Nothing in this file is proved. Each item states, over plain values, what
//! the named function of `reqwest` does; the rest of the library is verified
//! against these statements.

use reqwest::multipart::{Form, Part};
use vstd::prelude::*;
use vstd::utf8::encode_utf8;

verus! {

/// `reqwest::Client`, carried as an opaque value.
#[verifier::external_type_specification]
#[verifier::external_body]
pub struct ExClient(reqwest::Client);

/// `reqwest::Error`, carried as an opaque value.
#[verifier::external_type_specification]
#[verifier::external_body]
pub struct ExError(reqwest::Error);

/// `reqwest::multipart::Form`, carried as an opaque value.
#[verifier::external_type_specification]
#[verifier::external_body]
pub struct ExForm(reqwest::multipart::Form);

/// `reqwest::multipart::Part`, carried as an opaque value.
#[verifier::external_type_specification]
#[verifier::external_body]
pub struct ExPart(reqwest::multipart::Part);

/// What one part of a multipart body carries besides its field name.
pub ghost struct PartContent {
    /// The bytes of the part's body.
    pub body: Seq<u8>,
    /// The file name in the part's content disposition.
    pub file_name: Option<Seq<char>>,
    /// The part's content type.
    pub mime: Option<Seq<char>>,
}

/// One part of a multipart body.
pub ghost struct FormPart {
    /// The field name.
    pub name: Seq<char>,
    /// The rest.
    pub content: PartContent,
}

/// A part that carries `value` as text: its body is the text's UTF-8
/// encoding, and it has neither a file name nor a content type.
pub open spec fn text_part(name: Seq<char>, value: Seq<char>) -> FormPart {
    FormPart {
        name,
        content: PartContent { body: encode_utf8(value), file_name: None, mime: None },
    }
}

/// The HTTP status code that `Error::status` reports for an error; `None`
/// for an error that did not come from a response's status.
pub uninterp spec fn error_status(error: reqwest::Error) -> Option<u16>;

/// The text that an error's `Display` impl prints.
pub uninterp spec fn error_text(error: reqwest::Error) -> Seq<char>;

/// The parts of a form, in the order in which they were added.
pub uninterp spec fn form_parts(form: Form) -> Seq<FormPart>;

/// The body, file name and content type that a part was given.
pub uninterp spec fn part_content(part: Part) -> PartContent;

/// What `Part::mime_str` makes of a content type: the media type as the part
/// will write it, or `None` where the text does not parse as a media type.
pub uninterp spec fn parsed_mime(mime: Seq<char>) -> Option<Seq<char>>;

/// `Client::new`: a transport with the defaults of `reqwest`. Nothing is
/// stated of it. `reqwest` documents that the call panics where no TLS
/// backend can be initialised or the resolver cannot load the system's
/// configuration.
#[verifier::external_body]
pub(crate) fn new_transport() -> (transport: reqwest::Client) {
    reqwest::Client::new()
}

/// `Client::clone`: another handle to the same transport. A `Client` is a
/// shared pointer to its pool and settings, and its `Clone` is derived, so
/// the clone points to what the given handle points to.
#[verifier::external_body]
pub(crate) fn share_transport(transport: &reqwest::Client) -> (shared: reqwest::Client)
    ensures
        shared == *transport,
{
    transport.clone()
}

/// `Error::status`, with the status as its number (`StatusCode::as_u16`).
#[verifier::external_body]
pub(crate) fn status_code(error: &reqwest::Error) -> (code: Option<u16>)
    ensures
        code == error_status(*error),
{
    error.status().map(|status| status.as_u16())
}

/// `to_string` on an error: the text of its `Display` impl.
#[verifier::external_body]
pub(crate) fn cause_text(error: &reqwest::Error) -> (text: String)
    ensures
        text@ == error_text(*error),
{
    error.to_string()
}

/// `Form::new`: a form without parts. Its boundary is random and is not
/// spoken of.
#[verifier::external_body]
pub(crate) fn empty_form() -> (form: Form)
    ensures
        form_parts(form) == Seq::<FormPart>::empty(),
{
    Form::new()
}

/// `Form::text`: appends a text part. The form keeps the name as given, and
/// the part is `Part::text(value)`, which has the text's bytes as its body
/// and no metadata.
#[verifier::external_body]
pub(crate) fn with_text(form: Form, name: &'static str, value: String) -> (extended: Form)
    ensures
        form_parts(extended) == form_parts(form).push(text_part(name@, value@)),
{
    form.text(name, value)
}

/// `Form::part`: appends the given part under the given name.
#[verifier::external_body]
pub(crate) fn with_part(form: Form, name: &'static str, part: Part) -> (extended: Form)
    ensures
        form_parts(extended) == form_parts(form).push(
            (FormPart { name: name@, content: part_content(part) }),
        ),
{
    form.part(name, part)
}

/// `Part::bytes`: a part with the given bytes as its body and no metadata.
#[verifier::external_body]
pub(crate) fn bytes_part(data: Vec<u8>) -> (part: Part)
    ensures
        part_content(part) == (PartContent { body: data@, file_name: None, mime: None }),
{
    Part::bytes(data)
}

/// `Part::file_name`: sets the file name and leaves the rest.
#[verifier::external_body]
pub(crate) fn with_file_name(part: Part, file_name: &'static str) -> (named: Part)
    ensures
        part_content(named) == (PartContent {
            file_name: Some(file_name@),
            ..part_content(part)
        }),
{
    part.file_name(file_name)
}

/// `Part::mime_str`: parses the text as a media type and sets it as the
/// part's content type; fails, and gives the parser's error, where the text
/// is no media type.
#[verifier::external_body]
pub(crate) fn with_mime(part: Part, mime: &str) -> (typed: Result<Part, reqwest::Error>)
    ensures
        typed is Ok <==> parsed_mime(mime@) is Some,
        typed matches Ok(p) ==> part_content(p) == (PartContent {
            mime: parsed_mime(mime@),
            ..part_content(part)
        }),
{
    part.mime_str(mime)
}

} // verus!
