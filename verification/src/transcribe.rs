use vstd::prelude::*;
use vstd::string::StringExecFns;

use crate::errors::{message_spec, SttError};

verus! {

/// One part of the outbound multipart body: a named text field, or the named
/// binary file part with its file name and MIME type.
#[derive(Debug, Clone, PartialEq, Eq)]
pub enum FormField {
    Text { name: String, value: String },
    File { name: String, file_name: String, mime: String, bytes: Vec<u8> },
}

/// One outbound transcription call: the fixed endpoint, the authorization
/// header value, and the multipart fields in order.
#[derive(Debug, Clone, PartialEq, Eq)]
pub struct TranscriptionRequest {
    pub url: String,
    pub bearer: String,
    pub fields: Vec<FormField>,
}

/// The fixed model identifier every request carries.
pub open spec fn transcription_model() -> Seq<char> {
    "voxtral-mini-latest"@
}

/// The fixed remote endpoint.
pub open spec fn transcription_endpoint_spec() -> Seq<char> {
    "https://api.mistral.ai/v1/audio/transcriptions"@
}

/// The value of the authorization header for a bearer credential.
pub open spec fn bearer_spec(api_key: Seq<char>) -> Seq<char> {
    "Bearer "@ + api_key
}

/// The endpoint the request is posted to.
pub fn transcription_endpoint() -> (r: String)
    ensures
        r@ == transcription_endpoint_spec(),
{
    String::from_str("https://api.mistral.ai/v1/audio/transcriptions")
}

/// The authorization header value for a bearer credential.
pub fn bearer_header_value(api_key: &String) -> (r: String)
    ensures
        r@ == bearer_spec(api_key@),
{
    let mut h = String::from_str("Bearer ");
    h.append(api_key.as_str());
    proof {
        assert(h@ =~= bearer_spec(api_key@));
    }
    h
}

/// Whether an HTTP status code reports success.
pub open spec fn status_is_success(status: u16) -> bool {
    200 <= status < 300
}

/// Assemble the one outbound transcription request: the fixed model text
/// field, the audio file part named after its source with MIME `audio/wav`,
/// and a language text field exactly when a hint is supplied — a missing hint
/// produces no language field at all.
pub fn build_transcription_request(
    api_key: &String,
    file_name: String,
    audio: Vec<u8>,
    language: &Option<String>,
) -> (r: TranscriptionRequest)
    ensures
        r.url@ == transcription_endpoint_spec(),
        r.bearer@ == bearer_spec(api_key@),
        r.fields@.len() == (if language is Some {
            3int
        } else {
            2int
        }),
        r.fields@[0] matches FormField::Text { name, value } && name@ == "model"@ && value@
            == transcription_model(),
        r.fields@[1] matches FormField::File { name, file_name: f, mime, bytes } && name@
            == "file"@ && f@ == file_name@ && mime@ == "audio/wav"@ && bytes@ == audio@,
        language matches Some(l) ==> (r.fields@[2] matches FormField::Text { name, value } && name@
            == "language"@ && value@ == l@),
{
    let mut fields: Vec<FormField> = Vec::new();
    fields.push(
        FormField::Text {
            name: String::from_str("model"),
            value: String::from_str("voxtral-mini-latest"),
        },
    );
    fields.push(
        FormField::File {
            name: String::from_str("file"),
            file_name,
            mime: String::from_str("audio/wav"),
            bytes: audio,
        },
    );
    match language {
        Some(l) => fields.push(
            FormField::Text { name: String::from_str("language"), value: l.clone() },
        ),
        None => (),
    }
    TranscriptionRequest {
        url: transcription_endpoint(),
        bearer: bearer_header_value(api_key),
        fields,
    }
}

/// The fail-fast judgement on the audio file before any network activity: it
/// must exist and be non-empty.
pub open spec fn audio_precheck_outcome(path: String, file_exists: bool, file_len: u64) -> Result<
    (),
    SttError,
> {
    if !file_exists {
        Err(SttError::FileNotFound { path })
    } else if file_len == 0 {
        Err(SttError::EmptyRecording)
    } else {
        Ok(())
    }
}

/// Check the audio file before building any request: a missing or empty file
/// is refused without network activity.
pub fn check_audio_file(path: &String, file_exists: bool, file_len: u64) -> (r: Result<
    (),
    SttError,
>)
    ensures
        r == audio_precheck_outcome(*path, file_exists, file_len),
{
    if !file_exists {
        Err(SttError::FileNotFound { path: path.clone() })
    } else if file_len == 0 {
        Err(SttError::EmptyRecording)
    } else {
        Ok(())
    }
}

/// Usage accounting of the response schema. The audio-seconds figure the
/// service reports is a floating-point number: it is validated to be numeric
/// but, like the rest of the accounting, never propagated to the caller.
#[derive(Debug, Clone, PartialEq, Eq)]
pub struct TranscriptionUsage {
    pub prompt_tokens: u64,
    pub total_tokens: u64,
    pub completion_tokens: u64,
}

/// The fields of the service's response schema the pipeline reads: `model` and
/// `text` are required strings; `language` and `finish_reason` are optional
/// strings; `usage`, when present, carries the accounting; `segments`, when
/// present, must be an array, of which only the count is kept — the records
/// themselves are opaque.
#[derive(Debug, Clone, PartialEq, Eq)]
pub struct TranscriptionResponse {
    pub model: String,
    pub text: String,
    pub language: Option<String>,
    pub usage: Option<TranscriptionUsage>,
    pub segment_count: usize,
    pub finish_reason: Option<String>,
}

/// serde_json's document type, declared so parsed documents can pass through
/// signatures. A value of it is opaque to the verifier; what it holds is
/// reflected by the named model `json_model`.
#[verifier::external_type_specification]
#[verifier::external_body]
pub struct ExJsonValue(serde_json::Value);

/// A JSON document at the specification level, mirroring serde_json's own
/// variants. Of a number the pipeline reads only whether it is one and its
/// value as an unsigned 64-bit integer, so the model of a number carries that
/// value, or None for a number outside that range.
pub enum JsonData {
    Null,
    Bool(bool),
    Num(Option<u64>),
    Str(Seq<char>),
    Arr(Seq<JsonData>),
    Obj(Map<Seq<char>, JsonData>),
}

/// What a serde_json value holds, as the model above.
pub uninterp spec fn json_model(v: serde_json::Value) -> JsonData;

/// What a text parses to: the model of its one JSON document, or None for a
/// malformed text. The outcome is a function of the input text alone.
pub uninterp spec fn json_doc_of(s: Seq<char>) -> Option<JsonData>;

/// Relies on serde_json::from_str::<Value>: a well-formed JSON document parses
/// to exactly one value, a malformed text is refused.
#[verifier::external_body]
fn json_from_str(s: &str) -> (r: Option<serde_json::Value>)
    ensures
        match r {
            Some(v) => json_doc_of(s@) == Some(json_model(v)),
            None => json_doc_of(s@) is None,
        },
{
    serde_json::from_str(s).ok()
}

/// Relies on serde_json::Value::get: Some exactly when the value is an object
/// with a member under `key`, and then that member.
#[verifier::external_body]
fn json_get<'a>(v: &'a serde_json::Value, key: &str) -> (r: Option<&'a serde_json::Value>)
    ensures
        match r {
            Some(m) => json_model(*v) matches JsonData::Obj(o) && o.contains_key(key@)
                && json_model(*m) == o[key@],
            None => !(json_model(*v) matches JsonData::Obj(o) && o.contains_key(key@)),
        },
{
    v.get(key)
}

/// Relies on serde_json::Value::as_str: the content of a JSON string, owned,
/// and None for any other value.
#[verifier::external_body]
fn json_as_string(v: &serde_json::Value) -> (r: Option<String>)
    ensures
        match r {
            Some(s) => json_model(*v) == JsonData::Str(s@),
            None => !(json_model(*v) is Str),
        },
{
    v.as_str().map(|s| s.to_string())
}

/// The unsigned-integer reading of a modelled value: the value of a number
/// that is an unsigned 64-bit integer, and None for anything else.
pub open spec fn model_uint(m: JsonData) -> Option<u64> {
    match m {
        JsonData::Num(u) => u,
        _ => None,
    }
}

/// Relies on serde_json::Value::as_u64: the value of a JSON number that is an
/// unsigned 64-bit integer, and None for any other value.
#[verifier::external_body]
fn json_as_u64(v: &serde_json::Value) -> (r: Option<u64>)
    ensures
        r == model_uint(json_model(*v)),
{
    v.as_u64()
}

/// Relies on serde_json::Value::is_number.
#[verifier::external_body]
fn json_is_number(v: &serde_json::Value) -> (r: bool)
    ensures
        r == (json_model(*v) is Num),
{
    v.is_number()
}

/// Relies on serde_json::Value::is_null.
#[verifier::external_body]
fn json_is_null(v: &serde_json::Value) -> (r: bool)
    ensures
        r == (json_model(*v) is Null),
{
    v.is_null()
}

/// Relies on serde_json::Value::as_array: the element count of a JSON array,
/// and None for any other value.
#[verifier::external_body]
fn json_array_len(v: &serde_json::Value) -> (r: Option<usize>)
    ensures
        match r {
            Some(n) => json_model(*v) matches JsonData::Arr(a) && a.len() == n,
            None => !(json_model(*v) is Arr),
        },
{
    v.as_array().map(|a| a.len())
}

/// The member of a modelled object under `key`, if the value is an object
/// holding one.
pub open spec fn obj_member(m: JsonData, key: Seq<char>) -> Option<JsonData> {
    match m {
        JsonData::Obj(o) => if o.contains_key(key) {
            Some(o[key])
        } else {
            None
        },
        _ => None,
    }
}

/// A required string member: its content when present and a string, else None.
pub open spec fn member_string(m: JsonData, key: Seq<char>) -> Option<Seq<char>> {
    match obj_member(m, key) {
        Some(JsonData::Str(s)) => Some(s),
        _ => None,
    }
}

/// An optional string member: absent or null reads as None, a string as its
/// content, and anything else refuses the document.
pub open spec fn member_optional_string(m: JsonData, key: Seq<char>) -> Result<
    Option<Seq<char>>,
    (),
> {
    match obj_member(m, key) {
        None => Ok(None),
        Some(v) => if v is Null {
            Ok(None)
        } else {
            match v {
                JsonData::Str(s) => Ok(Some(s)),
                _ => Err(()),
            }
        },
    }
}

/// An unsigned-integer member: its value when present and in range, else None.
pub open spec fn member_uint(m: JsonData, key: Seq<char>) -> Option<u64> {
    match obj_member(m, key) {
        Some(v) => model_uint(v),
        None => None,
    }
}

/// The usage accounting a modelled document carries: the audio-seconds member
/// must be numeric and the three token counts unsigned integers, else the
/// usage object refuses.
pub open spec fn usage_of_model(m: JsonData) -> Option<TranscriptionUsage> {
    if !(match obj_member(m, "prompt_audio_seconds"@) {
        Some(v) => v is Num,
        None => false,
    }) {
        None
    } else {
        match (member_uint(m, "prompt_tokens"@), member_uint(m, "total_tokens"@), member_uint(
            m,
            "completion_tokens"@,
        )) {
            (Some(p), Some(t), Some(c)) => Some(
                TranscriptionUsage { prompt_tokens: p, total_tokens: t, completion_tokens: c },
            ),
            _ => None,
        }
    }
}

/// The fields of a conforming response document, at the specification level.
pub struct TranscriptionFields {
    pub model: Seq<char>,
    pub text: Seq<char>,
    pub language: Option<Seq<char>>,
    pub usage: Option<TranscriptionUsage>,
    pub segment_count: nat,
    pub finish_reason: Option<Seq<char>>,
}

/// What a modelled document yields under the response schema: its fields for a
/// conforming document, None otherwise.
pub open spec fn transcription_of_model(m: JsonData) -> Option<TranscriptionFields> {
    match (
        member_string(m, "model"@),
        member_string(m, "text"@),
        member_optional_string(m, "language"@),
        member_optional_string(m, "finish_reason"@),
    ) {
        (Some(model), Some(text), Ok(language), Ok(finish_reason)) => {
            let usage = match obj_member(m, "usage"@) {
                None => Some(None),
                Some(u) => if u is Null {
                    Some(None)
                } else {
                    match usage_of_model(u) {
                        Some(us) => Some(Some(us)),
                        None => None,
                    }
                },
            };
            let segments = match obj_member(m, "segments"@) {
                None => Some(0 as nat),
                Some(s) => match s {
                    JsonData::Arr(a) => Some(a.len()),
                    _ => None,
                },
            };
            match (usage, segments) {
                (Some(usage), Some(segment_count)) => Some(
                    TranscriptionFields { model, text, language, usage, segment_count, finish_reason },
                ),
                _ => None,
            }
        },
        _ => None,
    }
}

/// What a body text parses to under the response schema.
pub open spec fn transcription_parse_spec(body: Seq<char>) -> Option<TranscriptionFields> {
    match json_doc_of(body) {
        Some(m) => transcription_of_model(m),
        None => None,
    }
}

impl TranscriptionResponse {
    /// The specification-level view of these fields.
    pub open spec fn spec_fields(&self) -> TranscriptionFields {
        TranscriptionFields {
            model: self.model@,
            text: self.text@,
            language: match self.language {
                Some(l) => Some(l@),
                None => None,
            },
            usage: self.usage,
            segment_count: self.segment_count as nat,
            finish_reason: match self.finish_reason {
                Some(f) => Some(f@),
                None => None,
            },
        }
    }
}

/// A required string member of the schema: present and a string, or nothing.
fn required_string(doc: &serde_json::Value, key: &str) -> (r: Option<String>)
    ensures
        match r {
            Some(s) => member_string(json_model(*doc), key@) == Some(s@),
            None => member_string(json_model(*doc), key@) is None,
        },
{
    match json_get(doc, key) {
        Some(v) => json_as_string(v),
        None => None,
    }
}

/// An optional string member of the schema: absent or null yields None; a
/// present non-null member must be a string, anything else refuses the
/// document. The Err case carries no data; it only refuses.
fn optional_string(doc: &serde_json::Value, key: &str) -> (r: Result<Option<String>, ()>)
    ensures
        match r {
            Ok(Some(s)) => member_optional_string(json_model(*doc), key@) == Ok::<
                Option<Seq<char>>,
                (),
            >(Some(s@)),
            Ok(None) => member_optional_string(json_model(*doc), key@) == Ok::<
                Option<Seq<char>>,
                (),
            >(None),
            Err(()) => member_optional_string(json_model(*doc), key@) is Err,
        },
{
    match json_get(doc, key) {
        None => Ok(None),
        Some(v) => {
            if json_is_null(v) {
                Ok(None)
            } else {
                match json_as_string(v) {
                    Some(s) => Ok(Some(s)),
                    None => Err(()),
                }
            }
        },
    }
}

/// The usage object of the schema: the audio-seconds member must be numeric
/// and the three token counts must be unsigned integers.
fn extract_usage(u: &serde_json::Value) -> (r: Option<TranscriptionUsage>)
    ensures
        r == usage_of_model(json_model(*u)),
{
    let seconds_numeric = match json_get(u, "prompt_audio_seconds") {
        Some(s) => json_is_number(s),
        None => false,
    };
    if !seconds_numeric {
        return None;
    }
    let prompt_tokens = match json_get(u, "prompt_tokens") {
        Some(v) => match json_as_u64(v) {
            Some(n) => n,
            None => return None,
        },
        None => return None,
    };
    let total_tokens = match json_get(u, "total_tokens") {
        Some(v) => match json_as_u64(v) {
            Some(n) => n,
            None => return None,
        },
        None => return None,
    };
    let completion_tokens = match json_get(u, "completion_tokens") {
        Some(v) => match json_as_u64(v) {
            Some(n) => n,
            None => return None,
        },
        None => return None,
    };
    Some(TranscriptionUsage { prompt_tokens, total_tokens, completion_tokens })
}

/// Check a parsed document against the response schema and pull out the fields
/// the pipeline reads; None refuses the document.
fn extract_transcription(doc: &serde_json::Value) -> (r: Option<TranscriptionResponse>)
    ensures
        match r {
            Some(t) => transcription_of_model(json_model(*doc)) == Some(t.spec_fields()),
            None => transcription_of_model(json_model(*doc)) is None,
        },
{
    let model = match required_string(doc, "model") {
        Some(s) => s,
        None => return None,
    };
    let text = match required_string(doc, "text") {
        Some(s) => s,
        None => return None,
    };
    let language = match optional_string(doc, "language") {
        Ok(l) => l,
        Err(()) => return None,
    };
    let finish_reason = match optional_string(doc, "finish_reason") {
        Ok(f) => f,
        Err(()) => return None,
    };
    let usage = match json_get(doc, "usage") {
        None => None,
        Some(u) => {
            if json_is_null(u) {
                None
            } else {
                match extract_usage(u) {
                    Some(us) => Some(us),
                    None => return None,
                }
            }
        },
    };
    let segment_count = match json_get(doc, "segments") {
        None => 0,
        Some(s) => match json_array_len(s) {
            Some(n) => n,
            None => return None,
        },
    };
    Some(TranscriptionResponse { model, text, language, usage, segment_count, finish_reason })
}

/// Turn the parse outcome into the pipeline's result: the transcribed text of
/// a conforming document, and otherwise a parse error carrying the raw body
/// verbatim for diagnostics.
pub fn finish_transcription_parse(body: String, parsed: Option<TranscriptionResponse>) -> (r:
    Result<String, SttError>)
    ensures
        match parsed {
            Some(t) => r == Ok::<String, SttError>(t.text),
            None => r == Err::<String, SttError>(SttError::JsonParseError { raw_body: body }),
        },
{
    match parsed {
        Some(t) => Ok(t.text),
        None => Err(SttError::JsonParseError { raw_body: body }),
    }
}

/// The outer report of a failed transcription call, carrying the inner
/// diagnostic verbatim.
pub fn transcription_failure_message(e: &SttError) -> (r: String)
    ensures
        r@ == "Transcription failed: "@ + message_spec(*e),
{
    let mut m = String::from_str("Transcription failed: ");
    let inner = e.message();
    m.append(inner.as_str());
    proof {
        assert(m@ =~= "Transcription failed: "@ + message_spec(*e));
    }
    m
}

/// Decide the outcome of a completed transcription call from its HTTP status
/// and raw body. A non-success status is reported with status and body
/// verbatim, with no status-specific cases; on success the body must parse as
/// the response schema, whose text is the result, and a body that does not
/// conform is reported with the raw body kept.
pub fn interpret_transcription_response(status: u16, body: String) -> (r: Result<String, SttError>)
    ensures
        !status_is_success(status) ==> r == Err::<String, SttError>(
            SttError::HttpStatusError { status, body },
        ),
        status_is_success(status) ==> match transcription_parse_spec(body@) {
            Some(f) => r matches Ok(t) && t@ == f.text,
            None => r == Err::<String, SttError>(SttError::JsonParseError { raw_body: body }),
        },
{
    if !(200 <= status && status < 300) {
        return Err(SttError::HttpStatusError { status, body });
    }
    let parsed = match json_from_str(body.as_str()) {
        Some(doc) => extract_transcription(&doc),
        None => None,
    };
    finish_transcription_parse(body, parsed)
}

} // verus!
