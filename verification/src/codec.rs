//! The audio payload pipeline: base64 text to container bytes, container
//! bytes to raw samples, raw samples back to base64 text.
//!
//! The base64 coding itself is done by the `base64` crate with its standard
//! engine (the standard alphabet, with padding).

use vstd::prelude::*;
use vstd::slice::*;

verus! {

/// The length of the container header that precedes the samples: that of
/// the minimal canonical header. The header is skipped, not read: nothing
/// checks that the container declares the format that the wire expects, so
/// a backend that changed the shape of its container would go unnoticed.
pub const HEADER_LEN: usize = 44;

/// Why a payload could not be turned into samples or into a frame.
#[derive(Debug, Clone, Copy, PartialEq, Eq, Structural)]
pub enum CodecError {
    /// The payload is not base64 text.
    Encoding,
    /// The container is shorter than its header.
    Truncated,
    /// The samples are too long for their base64 text to be held in memory.
    Oversized,
}

/// The base64 text of `bytes`: what `base64::Engine::encode` returns for
/// them on the standard engine.
pub uninterp spec fn base64_text(bytes: Seq<u8>) -> Seq<char>;

/// The bytes that `text` is the base64 text of, and nothing where it is the
/// text of none: what a `base64::read::DecoderReader` on the standard engine
/// reads from `text` up to its end.
pub uninterp spec fn base64_bytes(text: Seq<char>) -> Option<Seq<u8>>;

/// The length of the base64 text of `n` bytes: four characters for every
/// three bytes, the last group padded.
pub open spec fn base64_len(n: nat) -> nat {
    4 * ((n + 2) / 3)
}

/// Whether the base64 text of `n` bytes can be held in memory.
pub open spec fn encodable(n: nat) -> bool {
    base64_len(n) <= isize::MAX
}

/// `base64::Engine::encode` on `base64::engine::general_purpose::STANDARD`.
/// The contract names the text returned and says that decoding it gives
/// `bytes` back. The call panics where the length of the text overflows,
/// which `requires` leaves out.
#[verifier::external_body]
fn encode_standard(bytes: &[u8]) -> (text: String)
    requires
        encodable(bytes@.len()),
    ensures
        text@ == base64_text(bytes@),
        base64_bytes(text@) == Some(bytes@),
{
    base64::Engine::encode(&base64::engine::general_purpose::STANDARD, bytes)
}

/// `base64::read::DecoderReader` on `base64::engine::general_purpose::STANDARD`,
/// read to its end from a cursor over `text`. The contract only names the
/// outcome: the bytes read are those of `text`, and the read fails exactly
/// where `text` has none.
#[verifier::external_body]
fn decode_standard(text: &str) -> (bytes: Option<Vec<u8>>)
    ensures
        match bytes {
            Some(b) => base64_bytes(text@) == Some(b@),
            None => base64_bytes(text@) is None,
        },
{
    let mut cursor = std::io::Cursor::new(text);
    let engine = base64::engine::general_purpose::STANDARD;
    let mut reader = base64::read::DecoderReader::new(&mut cursor, &engine);
    let mut body = Vec::new();
    match std::io::Read::read_to_end(&mut reader, &mut body) {
        Ok(_) => Some(body),
        Err(_) => None,
    }
}

/// The samples of a container: all that follows its header.
pub open spec fn samples_of(container: Seq<u8>) -> Result<Seq<u8>, CodecError> {
    if container.len() < HEADER_LEN {
        Err(CodecError::Truncated)
    } else {
        Ok(container.subrange(HEADER_LEN as int, container.len() as int))
    }
}

/// The samples of a decoded payload.
pub open spec fn samples_of_decoded(decoded: Option<Seq<u8>>) -> Result<Seq<u8>, CodecError> {
    match decoded {
        None => Err(CodecError::Encoding),
        Some(container) => samples_of(container),
    }
}

/// The bytes of a decoded payload.
pub open spec fn bytes_of_decoded(decoded: Option<Seq<u8>>) -> Result<Seq<u8>, CodecError> {
    match decoded {
        None => Err(CodecError::Encoding),
        Some(bytes) => Ok(bytes),
    }
}

/// Whether `outcome` is the exec form of `expected`.
pub open spec fn yields(outcome: Result<Vec<u8>, CodecError>, expected: Result<Seq<u8>, CodecError>) -> bool {
    match outcome {
        Ok(bytes) => expected == Ok::<Seq<u8>, CodecError>(bytes@),
        Err(e) => expected == Err::<Seq<u8>, CodecError>(e),
    }
}

/// Strips the container header: the samples are the bytes from the 45th on.
/// A container shorter than its header is an error.
pub fn strip_header(container: &[u8]) -> (outcome: Result<Vec<u8>, CodecError>)
    ensures
        yields(outcome, samples_of(container@)),
{
    if container.len() < HEADER_LEN {
        Err(CodecError::Truncated)
    } else {
        Ok(slice_to_vec(slice_subrange(container, HEADER_LEN, container.len())))
    }
}

/// Decodes a base64 payload into its bytes.
pub fn decode_payload(payload: &str) -> (outcome: Result<Vec<u8>, CodecError>)
    ensures
        yields(outcome, bytes_of_decoded(base64_bytes(payload@))),
{
    match decode_standard(payload) {
        Some(bytes) => Ok(bytes),
        None => Err(CodecError::Encoding),
    }
}

/// Turns what decoding a payload gave into samples.
pub fn samples_from_decoded(decoded: Option<Vec<u8>>) -> (outcome: Result<Vec<u8>, CodecError>)
    ensures
        yields(
            outcome,
            samples_of_decoded(
                match decoded {
                    Some(bytes) => Some(bytes@),
                    None => None,
                },
            ),
        ),
{
    match decoded {
        Some(container) => strip_header(container.as_slice()),
        None => Err(CodecError::Encoding),
    }
}

/// Turns a synthesized payload, the base64 text of a container, into raw
/// samples.
pub fn extract_samples(payload: &str) -> (outcome: Result<Vec<u8>, CodecError>)
    ensures
        yields(outcome, samples_of_decoded(base64_bytes(payload@))),
{
    samples_from_decoded(decode_standard(payload))
}

/// Whether the base64 text of `n` bytes can be held in memory.
pub fn fits(n: usize) -> (yes: bool)
    ensures
        yes == encodable(n as nat),
{
    let groups: usize = (isize::MAX as usize) / 4;
    n / 3 < groups || (n / 3 == groups && n % 3 == 0)
}

/// Encodes raw samples as base64 text.
pub fn encode_samples(samples: &[u8]) -> (text: String)
    requires
        encodable(samples@.len()),
    ensures
        text@ == base64_text(samples@),
        base64_bytes(text@) == Some(samples@),
{
    encode_standard(samples)
}

} // verus!
