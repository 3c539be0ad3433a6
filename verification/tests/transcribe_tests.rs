use stt_core::errors::SttError;
use stt_core::paths::infer_file_name;
use stt_core::transcribe::{
    bearer_header_value, build_transcription_request, check_audio_file,
    interpret_transcription_response, transcription_endpoint, transcription_failure_message,
    FormField,
};

#[test]
fn request_without_language_hint_has_no_language_field() {
    let r = build_transcription_request(
        &String::from("k1"),
        String::from("rec.wav"),
        vec![1, 2, 3],
        &None,
    );
    assert_eq!(r.url, "https://api.mistral.ai/v1/audio/transcriptions");
    assert_eq!(r.bearer, "Bearer k1");
    assert_eq!(r.fields.len(), 2);
    match &r.fields[0] {
        FormField::Text { name, value } => {
            assert_eq!(name, "model");
            assert_eq!(value, "voxtral-mini-latest");
        }
        other => panic!("expected a text field, got {:?}", other),
    }
    match &r.fields[1] {
        FormField::File {
            name,
            file_name,
            mime,
            bytes,
        } => {
            assert_eq!(name, "file");
            assert_eq!(file_name, "rec.wav");
            assert_eq!(mime, "audio/wav");
            assert_eq!(bytes, &vec![1, 2, 3]);
        }
        other => panic!("expected the file part, got {:?}", other),
    }
    let language_fields = r
        .fields
        .iter()
        .filter(|f| matches!(f, FormField::Text { name, .. } if name == "language"))
        .count();
    assert_eq!(language_fields, 0);
}

#[test]
fn request_with_language_hint_has_exactly_one_language_field() {
    let r = build_transcription_request(
        &String::from("k1"),
        String::from("rec.wav"),
        vec![9],
        &Some(String::from("en")),
    );
    assert_eq!(r.fields.len(), 3);
    let language_values: Vec<&String> = r
        .fields
        .iter()
        .filter_map(|f| match f {
            FormField::Text { name, value } if name == "language" => Some(value),
            _ => None,
        })
        .collect();
    assert_eq!(language_values, vec![&String::from("en")]);
}

#[test]
fn http_400_reports_status_and_body_verbatim() {
    let r = interpret_transcription_response(400, String::from("bad request"));
    let err = r.unwrap_err();
    assert_eq!(
        err,
        SttError::HttpStatusError {
            status: 400,
            body: String::from("bad request"),
        }
    );
    let msg = err.message();
    assert!(msg.contains("400"));
    assert!(msg.contains("bad request"));
    assert_eq!(msg, "Mistral API error (400): bad request");
    assert_eq!(
        transcription_failure_message(&err),
        "Transcription failed: Mistral API error (400): bad request"
    );
}

#[test]
fn success_statuses_are_the_two_hundreds() {
    let body = String::from("{\"model\":\"voxtral-mini-latest\",\"text\":\"hi\"}");
    assert_eq!(
        interpret_transcription_response(299, body.clone()),
        Ok(String::from("hi"))
    );
    assert_eq!(
        interpret_transcription_response(300, body.clone()),
        Err(SttError::HttpStatusError { status: 300, body })
    );
}

#[test]
fn conforming_body_yields_its_text() {
    let body = String::from(
        "{\"model\":\"voxtral-mini-latest\",\"text\":\"hello world\",\"language\":\"en\",\
         \"usage\":{\"prompt_audio_seconds\":2.5,\"prompt_tokens\":10,\"total_tokens\":25,\
         \"completion_tokens\":15},\"segments\":[{\"a\":1},{\"b\":2}],\"finish_reason\":\"stop\"}",
    );
    assert_eq!(
        interpret_transcription_response(200, body),
        Ok(String::from("hello world"))
    );
}

#[test]
fn null_language_is_treated_as_absent() {
    let body = String::from("{\"model\":\"m\",\"text\":\"t\",\"language\":null}");
    assert_eq!(interpret_transcription_response(200, body), Ok(String::from("t")));
}

#[test]
fn malformed_json_keeps_the_raw_body() {
    let body = String::from("not json at all");
    assert_eq!(
        interpret_transcription_response(200, body.clone()),
        Err(SttError::JsonParseError { raw_body: body })
    );
}

#[test]
fn missing_text_field_is_a_parse_error() {
    let body = String::from("{\"model\":\"m\"}");
    let r = interpret_transcription_response(200, body.clone());
    assert_eq!(r, Err(SttError::JsonParseError { raw_body: body }));
}

#[test]
fn non_integer_token_count_is_a_parse_error() {
    let body = String::from(
        "{\"model\":\"m\",\"text\":\"t\",\"usage\":{\"prompt_audio_seconds\":1,\
         \"prompt_tokens\":\"ten\",\"total_tokens\":25,\"completion_tokens\":15}}",
    );
    assert_eq!(
        interpret_transcription_response(200, body.clone()),
        Err(SttError::JsonParseError { raw_body: body })
    );
}

#[test]
fn non_array_segments_is_a_parse_error() {
    let body = String::from("{\"model\":\"m\",\"text\":\"t\",\"segments\":5}");
    assert_eq!(
        interpret_transcription_response(200, body.clone()),
        Err(SttError::JsonParseError { raw_body: body })
    );
}

#[test]
fn parse_error_message_carries_the_raw_body() {
    let err = SttError::JsonParseError {
        raw_body: String::from("<html>oops</html>"),
    };
    assert_eq!(
        err.message(),
        "Failed to parse transcription response. Raw response: <html>oops</html>"
    );
}

#[test]
fn transport_and_write_failures_carry_their_reports() {
    let transport = SttError::HttpRequestError {
        detail: String::from("connection refused"),
    };
    assert_eq!(
        transport.message(),
        "Failed to send transcription request: connection refused"
    );
    let write = SttError::FileWriteError {
        detail: String::from("disk full"),
    };
    assert_eq!(write.message(), "Failed to write audio file: disk full");
}

#[test]
fn audio_precheck_fails_fast() {
    let path = String::from("/tmp/missing.wav");
    assert_eq!(
        check_audio_file(&path, false, 0),
        Err(SttError::FileNotFound { path: path.clone() })
    );
    assert_eq!(
        SttError::FileNotFound { path: path.clone() }.message(),
        "Audio file does not exist: /tmp/missing.wav"
    );
    assert_eq!(check_audio_file(&path, true, 0), Err(SttError::EmptyRecording));
    assert_eq!(check_audio_file(&path, true, 10), Ok(()));
}

#[test]
fn uploaded_file_is_named_after_its_source() {
    assert_eq!(infer_file_name(&String::from("/tmp/rec.wav")), "rec.wav");
    assert_eq!(infer_file_name(&String::from("rec.wav")), "rec.wav");
    assert_eq!(infer_file_name(&String::from("")), "audio.wav");
    assert_eq!(infer_file_name(&String::from("/tmp/dir/")), "audio.wav");
    assert_eq!(infer_file_name(&String::from("/a/b/c.wav")), "c.wav");
}

#[test]
fn endpoint_and_bearer_are_fixed() {
    assert_eq!(
        transcription_endpoint(),
        "https://api.mistral.ai/v1/audio/transcriptions"
    );
    assert_eq!(bearer_header_value(&String::from("secret")), "Bearer secret");
}
