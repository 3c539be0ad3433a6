use vstd::prelude::*;
use vstd::string::StringExecFns;

use crate::decimal::{decimal_digits, push_decimal_u64};

verus! {

/// The failure taxonomy of the capture and transcription pipeline.
#[derive(Debug, Clone, PartialEq, Eq)]
pub enum SttError {
    /// The recording utility could not be launched; carries the launcher's report.
    ProcessSpawnError { detail: String },
    /// A recording session is already live; a second one may not displace it.
    SessionAlreadyActive,
    /// stop() was asked for a result while no session was live.
    NoActiveSession,
    /// The recorder exited without creating its output file.
    FileNotCreated,
    /// The recording exists but holds no data.
    EmptyRecording,
    /// The audio file handed to transcription does not exist.
    FileNotFound { path: String },
    /// The audio payload was not valid standard base64.
    Base64DecodeError,
    /// The decoded payload could not be written out; carries the writer's report.
    FileWriteError { detail: String },
    /// The transcription request could not be sent; carries the transport's report.
    HttpRequestError { detail: String },
    /// The service answered with a non-success status; status and body verbatim.
    HttpStatusError { status: u16, body: String },
    /// The service's body did not match the response schema; the raw body is kept.
    JsonParseError { raw_body: String },
}

/// The human-readable description of each error, with raw status, body and
/// payload details kept verbatim to support diagnosing the remote service.
pub open spec fn message_spec(e: SttError) -> Seq<char> {
    match e {
        SttError::ProcessSpawnError { detail } => "Failed to start arecord: "@ + detail@
            + ". Is arecord installed?"@,
        SttError::SessionAlreadyActive => "A recording is already in progress"@,
        SttError::NoActiveSession => "No active recording to stop"@,
        SttError::FileNotCreated => "Recording file was not created"@,
        SttError::EmptyRecording => "Recording file is empty"@,
        SttError::FileNotFound { path } => "Audio file does not exist: "@ + path@,
        SttError::Base64DecodeError => "Failed to decode base64"@,
        SttError::FileWriteError { detail } => "Failed to write audio file: "@ + detail@,
        SttError::HttpRequestError { detail } => "Failed to send transcription request: "@
            + detail@,
        SttError::HttpStatusError { status, body } => "Mistral API error ("@ + decimal_digits(
            status as nat,
        ) + "): "@ + body@,
        SttError::JsonParseError { raw_body } => "Failed to parse transcription response. Raw response: "@
            + raw_body@,
    }
}

impl SttError {
    /// The error rendered for the caller, exactly as `message_spec` states it.
    pub fn message(&self) -> (r: String)
        ensures
            r@ == message_spec(*self),
    {
        match self {
            SttError::ProcessSpawnError { detail } => {
                let mut m = String::from_str("Failed to start arecord: ");
                m.append(detail.as_str());
                m.append(". Is arecord installed?");
                proof {
                    assert(m@ =~= message_spec(*self));
                }
                m
            },
            SttError::SessionAlreadyActive => String::from_str("A recording is already in progress"),
            SttError::NoActiveSession => String::from_str("No active recording to stop"),
            SttError::FileNotCreated => String::from_str("Recording file was not created"),
            SttError::EmptyRecording => String::from_str("Recording file is empty"),
            SttError::FileNotFound { path } => {
                let mut m = String::from_str("Audio file does not exist: ");
                m.append(path.as_str());
                proof {
                    assert(m@ =~= message_spec(*self));
                }
                m
            },
            SttError::Base64DecodeError => String::from_str("Failed to decode base64"),
            SttError::FileWriteError { detail } => {
                let mut m = String::from_str("Failed to write audio file: ");
                m.append(detail.as_str());
                proof {
                    assert(m@ =~= message_spec(*self));
                }
                m
            },
            SttError::HttpRequestError { detail } => {
                let mut m = String::from_str("Failed to send transcription request: ");
                m.append(detail.as_str());
                proof {
                    assert(m@ =~= message_spec(*self));
                }
                m
            },
            SttError::HttpStatusError { status, body } => {
                let mut m = String::from_str("Mistral API error (");
                push_decimal_u64(&mut m, *status as u64);
                m.append("): ");
                m.append(body.as_str());
                proof {
                    assert(m@ =~= message_spec(*self));
                }
                m
            },
            SttError::JsonParseError { raw_body } => {
                let mut m = String::from_str("Failed to parse transcription response. Raw response: ");
                m.append(raw_body.as_str());
                proof {
                    assert(m@ =~= message_spec(*self));
                }
                m
            },
        }
    }
}

} // verus!
