use base64::Engine;
use twilio_stream::codec::{
    decode_payload, encode_samples, extract_samples, fits, samples_from_decoded, strip_header,
    CodecError, HEADER_LEN,
};

fn standard(bytes: &[u8]) -> String {
    base64::engine::general_purpose::STANDARD.encode(bytes)
}

#[test]
fn header_is_forty_four_bytes() {
    assert_eq!(HEADER_LEN, 44);
}

#[test]
fn container_of_header_alone_has_no_samples() {
    let container = vec![7u8; 44];
    assert_eq!(strip_header(&container), Ok(vec![]));
}

#[test]
fn container_one_byte_short_is_an_error() {
    let container = vec![7u8; 43];
    assert_eq!(strip_header(&container), Err(CodecError::Truncated));
}

#[test]
fn empty_container_is_an_error() {
    assert_eq!(strip_header(&[]), Err(CodecError::Truncated));
}

#[test]
fn samples_are_what_follows_the_header() {
    let mut container: Vec<u8> = (0u8..44).collect();
    container.extend_from_slice(&[200, 201, 202]);
    assert_eq!(strip_header(&container), Ok(vec![200, 201, 202]));
}

#[test]
fn one_sample_after_the_header() {
    let mut container = vec![0u8; 44];
    container.push(0xff);
    assert_eq!(strip_header(&container), Ok(vec![0xff]));
}

#[test]
fn payload_of_header_alone_decodes_to_no_samples() {
    let payload = standard(&[0u8; 44]);
    assert_eq!(extract_samples(&payload), Ok(vec![]));
}

#[test]
fn payload_one_byte_short_is_an_error() {
    let payload = standard(&[0u8; 43]);
    assert_eq!(extract_samples(&payload), Err(CodecError::Truncated));
}

#[test]
fn payload_that_is_not_base64_is_an_error() {
    assert_eq!(extract_samples("this is not base64!"), Err(CodecError::Encoding));
    assert_eq!(decode_payload("@@@@"), Err(CodecError::Encoding));
}

#[test]
fn payload_without_its_padding_is_an_error() {
    assert_eq!(decode_payload("aGVsbG8"), Err(CodecError::Encoding));
}

#[test]
fn empty_payload_is_a_truncated_container() {
    assert_eq!(decode_payload(""), Ok(vec![]));
    assert_eq!(extract_samples(""), Err(CodecError::Truncated));
}

#[test]
fn payload_decodes_to_its_bytes() {
    assert_eq!(decode_payload("aGVsbG8="), Ok(b"hello".to_vec()));
    assert_eq!(decode_payload("aGVsbG8gd29ybGR+Cg=="), Ok(b"hello world~\n".to_vec()));
}

#[test]
fn payload_longer_than_one_read_buffer_decodes() {
    let bytes: Vec<u8> = (0..5000u32).map(|i| (i % 251) as u8).collect();
    let payload = standard(&bytes);
    assert_eq!(decode_payload(&payload), Ok(bytes.clone()));
    assert_eq!(extract_samples(&payload), Ok(bytes[44..].to_vec()));
}

#[test]
fn samples_encode_to_padded_base64() {
    assert_eq!(encode_samples(b"hello"), "aGVsbG8=");
    assert_eq!(encode_samples(b""), "");
    assert_eq!(encode_samples(&[0xff, 0xfe, 0xfd]), "//79");
    assert_eq!(encode_samples(&[0xfb]), "+w==");
}

#[test]
fn encoding_and_decoding_give_the_samples_back() {
    let samples: Vec<u8> = (0..=255u8).collect();
    let text = encode_samples(&samples);
    assert_eq!(decode_payload(&text), Ok(samples));
}

#[test]
fn decoded_nothing_is_an_encoding_error() {
    assert_eq!(samples_from_decoded(None), Err(CodecError::Encoding));
}

#[test]
fn decoded_container_is_stripped() {
    let mut container = vec![1u8; 44];
    container.extend_from_slice(&[9, 8]);
    assert_eq!(samples_from_decoded(Some(container)), Ok(vec![9, 8]));
    assert_eq!(samples_from_decoded(Some(vec![1u8; 10])), Err(CodecError::Truncated));
}

#[test]
fn short_lengths_fit() {
    assert!(fits(0));
    assert!(fits(1));
    assert!(fits(160_000));
}

#[test]
fn lengths_whose_text_overflows_do_not_fit() {
    assert!(!fits(usize::MAX));
    assert!(!fits(isize::MAX as usize));
    let groups = (isize::MAX as usize) / 4;
    assert!(fits(groups * 3));
    assert!(!fits(groups * 3 + 1));
    assert!(fits(groups * 3 - 1));
}
