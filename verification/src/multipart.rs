//! The multipart body of a transcription call: one text part per parameter
//! that is set, and one binary part for the media.

use crate::decimal::Decimal;
use crate::error::ElevenLabsSTTError;
use crate::reqwest_specs::{
    bytes_part, empty_form, form_parts, parsed_mime, part_content, text_part, with_file_name,
    with_mime, with_part, with_text, FormPart, PartContent,
};
use crate::text::{decimal, decimal_text, flag, flag_text, optional_text};
use crate::types::{RequestView, STTRequest};
use reqwest::multipart::{Form, Part};
use vstd::prelude::*;

verus! {

/// The field that names the model. It is part of every body.
pub const MODEL_FIELD: &'static str = "model_id";

/// The field that carries the media.
pub const FILE_FIELD: &'static str = "file";

/// The file name that the media part declares.
pub const FILE_NAME: &'static str = "file";

/// The content type that the media part declares.
pub const OCTET_STREAM: &'static str = "application/octet-stream";

/// A field's name, and its value where the parameter is set.
pub type TextField = (&'static str, Option<String>);

/// A field as plain values.
pub open spec fn field_view(field: TextField) -> (Seq<char>, Option<Seq<char>>) {
    (field.0@, optional_text(field.1))
}

/// The text of an optional flag.
pub open spec fn optional_flag(value: Option<bool>) -> Option<Seq<char>> {
    match value {
        Some(b) => Some(flag(b)),
        None => None,
    }
}

/// The numeral of an optional count.
pub open spec fn optional_count(value: Option<u32>) -> Option<Seq<char>> {
    match value {
        Some(n) => Some(decimal(n as nat)),
        None => None,
    }
}

/// The optional parameters of a request as fields, in the order in which
/// they are written.
pub open spec fn optional_fields(request: RequestView) -> Seq<(Seq<char>, Option<Seq<char>>)> {
    seq![
        ("language_code"@, request.language_code),
        ("tag_audio_events"@, optional_flag(request.tag_audio_events)),
        ("num_speakers"@, optional_count(request.num_speakers)),
        ("timestamps_granularity"@, request.timestamps_granularity),
        ("diarize"@, optional_flag(request.diarize)),
        ("diarization_threshold"@, request.diarization_threshold),
        ("cloud_storage_url"@, request.cloud_storage_url),
        ("webhook"@, optional_flag(request.webhook)),
        ("webhook_id"@, request.webhook_id),
        ("temperature"@, request.temperature),
        ("seed"@, optional_count(request.seed)),
        ("use_multi_channel"@, optional_flag(request.use_multi_channel)),
        ("webhook_metadata"@, request.webhook_metadata),
    ]
}

/// The text parts for the fields that have a value, in the fields' order.
pub open spec fn present(fields: Seq<(Seq<char>, Option<Seq<char>>)>) -> Seq<FormPart>
    decreases fields.len(),
{
    if fields.len() == 0 {
        Seq::empty()
    } else {
        let field = fields.last();
        let rest = present(fields.drop_last());
        match field.1 {
            Some(value) => rest.push(text_part(field.0, value)),
            None => rest,
        }
    }
}

/// The part that carries the media: its bytes, under the fixed field and
/// file name, with the content type `mime`.
pub open spec fn file_part(data: Seq<u8>, mime: Option<Seq<char>>) -> FormPart {
    FormPart {
        name: FILE_FIELD@,
        content: PartContent { body: data, file_name: Some(FILE_NAME@), mime },
    }
}

/// The media part, where there is media.
pub open spec fn file_parts(file: Option<Seq<u8>>, mime: Option<Seq<char>>) -> Seq<FormPart> {
    match file {
        Some(data) => seq![file_part(data, mime)],
        None => Seq::empty(),
    }
}

/// The parts of a request's body, in order: the model, the media if any,
/// then every optional parameter that is set. `mime` is the media part's
/// content type.
pub open spec fn request_parts(request: RequestView, mime: Option<Seq<char>>) -> Seq<FormPart> {
    seq![text_part(MODEL_FIELD@, request.model_id)] + file_parts(request.file, mime) + present(
        optional_fields(request),
    )
}

/// How many of the parts have the given field name.
pub open spec fn count_named(parts: Seq<FormPart>, name: Seq<char>) -> nat
    decreases parts.len(),
{
    if parts.len() == 0 {
        0
    } else {
        count_named(parts.drop_last(), name) + if parts.last().name == name {
            1nat
        } else {
            0nat
        }
    }
}

/// Counting over two runs of parts adds up.
proof fn lemma_count_concat(front: Seq<FormPart>, back: Seq<FormPart>, name: Seq<char>)
    ensures
        count_named(front + back, name) == count_named(front, name) + count_named(back, name),
    decreases back.len(),
{
    if back.len() == 0 {
        assert(front + back =~= front);
    } else {
        assert((front + back).drop_last() =~= front + back.drop_last());
        lemma_count_concat(front, back.drop_last(), name);
    }
}

/// Fields of other names give no part of the given name.
proof fn lemma_present_other_names(fields: Seq<(Seq<char>, Option<Seq<char>>)>, name: Seq<char>)
    requires
        forall|i: int| 0 <= i < fields.len() ==> (#[trigger] fields[i]).0 != name,
    ensures
        count_named(present(fields), name) == 0,
    decreases fields.len(),
{
    if fields.len() > 0 {
        lemma_present_other_names(fields.drop_last(), name);
        let field = fields.last();
        if let Some(value) = field.1 {
            assert(present(fields).drop_last() =~= present(fields.drop_last()));
        }
    }
}

/// A single part counts once under its own name, and not under another.
proof fn lemma_count_one(part: FormPart, name: Seq<char>)
    ensures
        count_named(seq![part], name) == (if part.name == name {
            1nat
        } else {
            0nat
        }),
{
    let none = Seq::<FormPart>::empty();
    assert(count_named(none, name) == 0);
    assert(seq![part].drop_last() =~= none);
}

/// No two of the fields have the same name.
spec fn distinct_names(fields: Seq<(Seq<char>, Option<Seq<char>>)>) -> bool {
    forall|i: int, j: int|
        0 <= i < j < fields.len() ==> (#[trigger] fields[i]).0 != (#[trigger] fields[j]).0
}

/// Among fields of distinct names, a field's name has one part where the
/// field has a value, and none where it has none.
proof fn lemma_present_count(fields: Seq<(Seq<char>, Option<Seq<char>>)>, at: int)
    requires
        distinct_names(fields),
        0 <= at < fields.len(),
    ensures
        count_named(present(fields), fields[at].0) == (if fields[at].1 is Some {
            1nat
        } else {
            0nat
        }),
    decreases fields.len(),
{
    let name = fields[at].0;
    let earlier = fields.drop_last();
    let last = fields.last();
    assert(distinct_names(earlier)) by {
        assert forall|i: int, j: int| 0 <= i < j < earlier.len() implies (#[trigger] earlier[i]).0
            != (#[trigger] earlier[j]).0 by {
            assert(fields[i].0 != fields[j].0);
        }
    }
    if at == fields.len() - 1 {
        assert forall|i: int| 0 <= i < earlier.len() implies (#[trigger] earlier[i]).0 != name by {
            assert(fields[i].0 != fields[at].0);
        }
        lemma_present_other_names(earlier, name);
    } else {
        assert(earlier[at] == fields[at]);
        assert(fields[at].0 != fields[fields.len() - 1].0);
        lemma_present_count(earlier, at);
    }
    if let Some(value) = last.1 {
        assert(present(fields).drop_last() =~= present(earlier));
    }
}

/// An index into the thirteen optional fields.
spec fn one_of_thirteen(i: int) -> bool {
    i == 0 || i == 1 || i == 2 || i == 3 || i == 4 || i == 5 || i == 6 || i == 7 || i == 8 || i
        == 9 || i == 10 || i == 11 || i == 12
}

/// The fields of a request have fifteen names between them: the model's,
/// the media's, and one for each optional parameter.
proof fn lemma_field_names(request: RequestView)
    ensures
        distinct_names(optional_fields(request)),
        MODEL_FIELD@ != FILE_FIELD@,
        forall|i: int|
            0 <= i < optional_fields(request).len() ==> (#[trigger] optional_fields(request)[i]).0
                != MODEL_FIELD@ && optional_fields(request)[i].0 != FILE_FIELD@,
{
    reveal_strlit("file");
    reveal_strlit("model_id");
    reveal_strlit("language_code");
    reveal_strlit("tag_audio_events");
    reveal_strlit("num_speakers");
    reveal_strlit("timestamps_granularity");
    reveal_strlit("diarize");
    reveal_strlit("diarization_threshold");
    reveal_strlit("cloud_storage_url");
    reveal_strlit("webhook");
    reveal_strlit("webhook_id");
    reveal_strlit("temperature");
    reveal_strlit("seed");
    reveal_strlit("use_multi_channel");
    reveal_strlit("webhook_metadata");
    let fields = optional_fields(request);
    // Names of one length differ in their first letter.
    assert("seed"@[0] != "file"@[0]);
    assert("tag_audio_events"@[0] != "webhook_metadata"@[0]);
    assert("diarize"@[0] != "webhook"@[0]);
    assert("cloud_storage_url"@[0] != "use_multi_channel"@[0]);
    assert(fields[0].0 == "language_code"@);
    assert(fields[1].0 == "tag_audio_events"@);
    assert(fields[2].0 == "num_speakers"@);
    assert(fields[3].0 == "timestamps_granularity"@);
    assert(fields[4].0 == "diarize"@);
    assert(fields[5].0 == "diarization_threshold"@);
    assert(fields[6].0 == "cloud_storage_url"@);
    assert(fields[7].0 == "webhook"@);
    assert(fields[8].0 == "webhook_id"@);
    assert(fields[9].0 == "temperature"@);
    assert(fields[10].0 == "seed"@);
    assert(fields[11].0 == "use_multi_channel"@);
    assert(fields[12].0 == "webhook_metadata"@);
    assert forall|i: int| 0 <= i < fields.len() implies (#[trigger] fields[i]).0 != MODEL_FIELD@
        && fields[i].0 != FILE_FIELD@ by {
        assert(one_of_thirteen(i));
    }
    assert forall|i: int, j: int| 0 <= i < j < fields.len() implies (#[trigger] fields[i]).0 != (
    #[trigger] fields[j]).0 by {
        assert(one_of_thirteen(i));
        assert(one_of_thirteen(j));
    }
}

/// How often a name occurs in a request's body: the sum over the model's
/// part, the media's part and the parts of the optional parameters.
proof fn lemma_count_in_request(request: RequestView, mime: Option<Seq<char>>, name: Seq<char>)
    ensures
        count_named(request_parts(request, mime), name) == (if name == MODEL_FIELD@ {
            1nat
        } else {
            0nat
        }) + (if name == FILE_FIELD@ && request.file is Some {
            1nat
        } else {
            0nat
        }) + count_named(present(optional_fields(request)), name),
{
    let model = seq![text_part(MODEL_FIELD@, request.model_id)];
    let media = file_parts(request.file, mime);
    lemma_count_concat(model + media, present(optional_fields(request)), name);
    lemma_count_concat(model, media, name);
    lemma_count_one(text_part(MODEL_FIELD@, request.model_id), name);
    match request.file {
        Some(data) => {
            lemma_count_one(file_part(data, mime), name);
        },
        None => {
            assert(count_named(media, name) == 0);
        },
    }
}

/// The body of a request has exactly one part under the media's field name
/// where the request holds media, and none where it holds none.
pub proof fn lemma_one_file_part(request: RequestView, mime: Option<Seq<char>>)
    ensures
        count_named(request_parts(request, mime), FILE_FIELD@) == (if request.file is Some {
            1nat
        } else {
            0nat
        }),
{
    lemma_field_names(request);
    lemma_count_in_request(request, mime, FILE_FIELD@);
    lemma_present_other_names(optional_fields(request), FILE_FIELD@);
}

/// The body of a request begins with the part that names the model, and has
/// no other part of that name.
pub proof fn lemma_one_model_part(request: RequestView, mime: Option<Seq<char>>)
    ensures
        request_parts(request, mime).len() > 0,
        request_parts(request, mime)[0] == text_part(MODEL_FIELD@, request.model_id),
        count_named(request_parts(request, mime), MODEL_FIELD@) == 1,
{
    lemma_field_names(request);
    lemma_count_in_request(request, mime, MODEL_FIELD@);
    lemma_present_other_names(optional_fields(request), MODEL_FIELD@);
}

/// An optional parameter is written once where it is set, and left out
/// where it is not.
pub proof fn lemma_parameter_written_iff_set(
    request: RequestView,
    mime: Option<Seq<char>>,
    at: int,
)
    requires
        0 <= at < optional_fields(request).len(),
    ensures
        count_named(request_parts(request, mime), optional_fields(request)[at].0) == (
        if optional_fields(request)[at].1 is Some {
            1nat
        } else {
            0nat
        }),
{
    lemma_field_names(request);
    lemma_count_in_request(request, mime, optional_fields(request)[at].0);
    lemma_present_count(optional_fields(request), at);
}

fn flag_field(value: Option<bool>) -> (text: Option<String>)
    ensures
        optional_text(text) == optional_flag(value),
{
    match value {
        Some(b) => Some(flag_text(b)),
        None => None,
    }
}

fn count_field(value: Option<u32>) -> (text: Option<String>)
    ensures
        optional_text(text) == optional_count(value),
{
    match value {
        Some(n) => Some(decimal_text(n as u64)),
        None => None,
    }
}

fn decimal_field(value: Option<Decimal>) -> (text: Option<String>)
    ensures
        optional_text(text) == crate::types::optional_decimal(value),
{
    match value {
        Some(d) => Some(d.into_string()),
        None => None,
    }
}

/// Adds a text part for each field that has a value.
pub fn add_fields(form: Form, fields: Vec<TextField>) -> (extended: Form)
    ensures
        form_parts(extended) == form_parts(form) + present(
            fields@.map_values(|f: TextField| field_view(f)),
        ),
{
    let ghost start = form_parts(form);
    let ghost views = fields@.map_values(|f: TextField| field_view(f));
    let mut form = form;
    assert(views.take(0) =~= Seq::empty());
    for field in it: fields
        invariant
            views == it.seq().map_values(|f: TextField| field_view(f)),
            form_parts(form) == start + present(views.take(it.index())),
    {
        let ghost done = it.index();
        assert(views.take(done + 1).drop_last() =~= views.take(done));
        assert(views.take(done + 1).last() == field_view(field));
        let (name, value) = field;
        if let Some(text) = value {
            form = with_text(form, name, text);
        }
        assert(form_parts(form) =~= start + present(views.take(done + 1)));
    }
    assert(views.take(views.len() as int) =~= views);
    form
}

/// Adds the media part, where it could be made.
pub fn add_file(form: Form, part: Result<Part, reqwest::Error>) -> (extended: Result<
    Form,
    ElevenLabsSTTError,
>)
    ensures
        match part {
            Ok(p) => extended matches Ok(f) && form_parts(f) == form_parts(form).push(
                (FormPart { name: FILE_FIELD@, content: part_content(p) }),
            ),
            Err(cause) => extended matches Err(failure) && failure
                == ElevenLabsSTTError::RequestError(cause),
        },
{
    match part {
        Ok(p) => Ok(with_part(form, FILE_FIELD, p)),
        Err(cause) => Err(ElevenLabsSTTError::RequestError(cause)),
    }
}

/// Writes a request as a multipart form.
///
/// Fails only where there is media and the media part's content type is
/// refused; the failure then holds the cause.
pub fn multipart_form(request: STTRequest) -> (built: Result<Form, ElevenLabsSTTError>)
    ensures
        built is Ok <==> request@.file is None || parsed_mime(OCTET_STREAM@) is Some,
        built matches Ok(form) ==> form_parts(form) == request_parts(
            request@,
            parsed_mime(OCTET_STREAM@),
        ),
        built matches Err(failure) ==> failure is RequestError,
{
    let ghost view = request@;
    let STTRequest {
        file,
        model_id,
        language_code,
        tag_audio_events,
        num_speakers,
        timestamps_granularity,
        diarize,
        diarization_threshold,
        cloud_storage_url,
        webhook,
        webhook_id,
        temperature,
        seed,
        use_multi_channel,
        webhook_metadata,
    } = request;
    let mut form = with_text(empty_form(), MODEL_FIELD, model_id);
    assert(form_parts(form) =~= seq![text_part(MODEL_FIELD@, view.model_id)]);
    if let Some(data) = file {
        let part = with_mime(with_file_name(bytes_part(data), FILE_NAME), OCTET_STREAM);
        match add_file(form, part) {
            Ok(extended) => {
                form = extended;
            },
            Err(failure) => {
                return Err(failure);
            },
        }
    }
    assert(form_parts(form) =~= seq![text_part(MODEL_FIELD@, view.model_id)] + file_parts(
        view.file,
        parsed_mime(OCTET_STREAM@),
    ));
    let fields: Vec<TextField> = vec![
        ("language_code", language_code),
        ("tag_audio_events", flag_field(tag_audio_events)),
        ("num_speakers", count_field(num_speakers)),
        ("timestamps_granularity", timestamps_granularity),
        ("diarize", flag_field(diarize)),
        ("diarization_threshold", decimal_field(diarization_threshold)),
        ("cloud_storage_url", cloud_storage_url),
        ("webhook", flag_field(webhook)),
        ("webhook_id", webhook_id),
        ("temperature", decimal_field(temperature)),
        ("seed", count_field(seed)),
        ("use_multi_channel", flag_field(use_multi_channel)),
        ("webhook_metadata", webhook_metadata),
    ];
    assert(fields@.map_values(|f: TextField| field_view(f)) =~= optional_fields(view));
    Ok(add_fields(form, fields))
}

} // verus!
