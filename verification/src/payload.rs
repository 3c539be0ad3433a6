use vstd::prelude::*;

use base64::Engine;

use crate::errors::SttError;

verus! {

/// What base64's standard-alphabet engine decodes a text to: the bytes for a
/// valid encoding, None for a refused one. The decoding is a function of the
/// input text alone.
pub uninterp spec fn base64_decoded(s: Seq<char>) -> Option<Seq<u8>>;

/// base64's refusal report, declared so the decoding wrapper can return it;
/// the verifier sees nothing inside a value of it.
#[verifier::external_type_specification]
#[verifier::external_body]
pub struct ExDecodeError(base64::DecodeError);

/// Relies on base64's standard engine (the standard alphabet, with padding):
/// decoding succeeds exactly on a valid encoding and depends on the input
/// text alone.
#[verifier::external_body]
fn base64_decode_standard(s: &str) -> (r: Result<Vec<u8>, base64::DecodeError>)
    ensures
        r matches Ok(b) ==> base64_decoded(s@) == Some(b@),
        r matches Err(_) ==> base64_decoded(s@) is None,
{
    base64::engine::general_purpose::STANDARD.decode(s)
}

/// Decode a base64 audio payload, mapping a refused encoding to the library's
/// own error.
pub fn decode_audio_payload(audio_data: &String) -> (r: Result<Vec<u8>, SttError>)
    ensures
        r matches Ok(b) ==> base64_decoded(audio_data@) == Some(b@),
        r matches Err(e) ==> e == SttError::Base64DecodeError && base64_decoded(audio_data@)
            is None,
{
    match base64_decode_standard(audio_data.as_str()) {
        Ok(b) => Ok(b),
        Err(_) => Err(SttError::Base64DecodeError),
    }
}

} // verus!
