use pgscram::codec::encode;
use pgscram::errors::AuthenticationError;
use pgscram::server_msg::{
    extract_authentication_mechanism, extract_server_signature_bytes, payload_parts,
    process_server_first_response, process_server_handshake_response,
    read_authentication_mechanism, read_message_length, read_message_type,
};
use pgscram::text::{bytes_eq, bytes_to_utfstring, split_bytes};

/// Frames an authentication message: type 'R', a 4-byte code, then the body.
fn auth_message(code: u32, body: &[u8]) -> Vec<u8> {
    let mut payload = code.to_be_bytes().to_vec();
    payload.extend_from_slice(body);
    encode(Some(b'R'), &payload).unwrap()
}

#[test]
fn mechanism_list_with_scram_selects_it() {
    let m = auth_message(10, b"SCRAM-SHA-256-PLUS\0SCRAM-SHA-256\0\0");
    let chosen = process_server_handshake_response(&m);
    assert_eq!(chosen.as_str(), "SCRAM-SHA-256");
    let also = extract_authentication_mechanism(&m);
    assert_eq!(also.as_str(), "SCRAM-SHA-256");
}

#[test]
fn mechanism_list_without_scram_is_unsupported() {
    let m = auth_message(10, b"PLAIN\0SCRAM-SHA-1\0\0");
    let chosen = process_server_handshake_response(&m);
    assert_eq!(chosen.as_str(), "UNSUPPORTED_AUTHENTICATION_MECHANISM");
}

#[test]
fn wrong_authentication_code_is_unsupported() {
    let m = auth_message(5, b"SCRAM-SHA-256\0\0");
    let chosen = process_server_handshake_response(&m);
    assert_eq!(chosen.as_str(), "UNSUPPORTED_AUTHENTICATION_MECHANISM");
    assert_eq!(
        read_authentication_mechanism(12, b"SCRAM-SHA-256\0").as_str(),
        "UNSUPPORTED_AUTHENTICATION_MECHANISM"
    );
}

#[test]
fn continuation_code_joins_the_challenge_parts() {
    // Code 11 reassembles the challenge text: the non-empty NUL-delimited
    // parts joined with commas.
    assert_eq!(
        read_authentication_mechanism(11, b"r=abc,s=ZZ==,i=4096").as_str(),
        "r=abc,s=ZZ==,i=4096"
    );
    assert_eq!(
        read_authentication_mechanism(11, b"r=a,s=b\0rest\0").as_str(),
        "r=a,s=b,rest"
    );
}

#[test]
fn server_first_response_under_wrong_code_is_empty() {
    let m = auth_message(10, b"r=abc,s=c2FsdA==,i=4096");
    let rsi = process_server_first_response(&m);
    assert_eq!(rsi.nonce.as_str(), "");
    assert_eq!(rsi.salt.as_str(), "");
    assert_eq!(rsi.iter_count, 0);
}

#[test]
fn server_first_response_drops_trailing_nul() {
    let m = auth_message(11, b"r=abc,s=c2FsdA==,i=4096\0");
    let rsi = process_server_first_response(&m);
    assert_eq!(rsi.nonce.as_str(), "abc");
    assert_eq!(rsi.salt.as_str(), "c2FsdA==");
    assert_eq!(rsi.iter_count, 4096);
}

#[test]
fn header_readers() {
    assert_eq!(read_message_type(b'R'), 'R');
    assert_eq!(read_message_length(&[0, 0, 1, 2]), 258);
}

#[test]
fn payload_parts_drop_empty_segments() {
    let parts = payload_parts(b"\0abc\0\0de\0");
    assert_eq!(parts.len(), 2);
    assert!(bytes_eq(&parts[0], b"abc"));
    assert!(bytes_eq(&parts[1], b"de"));
}

#[test]
fn split_keeps_empty_parts() {
    let parts = split_bytes(b"a,,b", b',');
    assert_eq!(parts.len(), 3);
    assert!(parts[1].is_empty());
}

#[test]
fn server_first_response_parses_all_fields() {
    let m = auth_message(11, b"r=abcDEF123,s=c2FsdA==,i=4096");
    let rsi = process_server_first_response(&m);
    assert_eq!(rsi.nonce.as_str(), "abcDEF123");
    assert_eq!(rsi.salt.as_str(), "c2FsdA==");
    assert_eq!(rsi.iter_count, 4096);
}

#[test]
fn server_first_response_missing_nonce_yields_empty_nonce() {
    let m = auth_message(11, b"s=c2FsdA==,i=100");
    let rsi = process_server_first_response(&m);
    assert_eq!(rsi.nonce.as_str(), "");
    assert_eq!(rsi.salt.as_str(), "c2FsdA==");
    assert_eq!(rsi.iter_count, 100);
}

#[test]
fn server_first_response_defaults_on_empty_payload() {
    let m = auth_message(11, b"");
    let rsi = process_server_first_response(&m);
    assert_eq!(rsi.nonce.as_str(), "");
    assert_eq!(rsi.salt.as_str(), "");
    assert_eq!(rsi.iter_count, 0);
}

#[test]
fn server_first_response_malformed_count_is_zero() {
    let m = auth_message(11, b"r=n,s=c2FsdA==,i=notanumber");
    let rsi = process_server_first_response(&m);
    assert_eq!(rsi.iter_count, 0);
}

#[test]
fn signature_extraction_finds_v_field() {
    let m = auth_message(0, b"v=AAEC/f7/");
    let sig = extract_server_signature_bytes(&m).unwrap();
    assert_eq!(sig, vec![0u8, 1, 2, 253, 254, 255]);
}

#[test]
fn signature_extraction_stops_at_comma() {
    let m = auth_message(0, b"v=AAEC/f7/,x=tail");
    let sig = extract_server_signature_bytes(&m).unwrap();
    assert_eq!(sig, vec![0u8, 1, 2, 253, 254, 255]);
}

#[test]
fn signature_extraction_without_marker_fails() {
    let m = auth_message(0, b"s=nothing-here");
    assert!(extract_server_signature_bytes(&m).is_err());
}

#[test]
fn signature_extraction_with_bad_base64_fails() {
    let m = auth_message(0, b"v=@@@@");
    assert!(extract_server_signature_bytes(&m).is_err());
}

#[test]
fn signature_extraction_on_short_message_fails() {
    assert!(extract_server_signature_bytes(b"Rxx").is_err());
}

#[test]
fn utf8_conversion() {
    assert_eq!(bytes_to_utfstring(b"hello").unwrap().as_str(), "hello");
    assert!(bytes_to_utfstring(&[0xFF, 0xFE]).is_err());
}

#[test]
fn error_messages_name_their_kind() {
    let e = AuthenticationError::UnsupportedMechanism(String::from("PLAIN"));
    assert_eq!(e.message().as_str(), "Unsupported mechanism: PLAIN");
    let e = AuthenticationError::ConnectionFailed(String::from("refused"));
    assert_eq!(e.message().as_str(), "Connection failed: refused");
    let e = AuthenticationError::IllegalState(String::from("detail"));
    assert_eq!(e.message().as_str(), "Missing details: detail");
    let e = AuthenticationError::SASLAuthenticationFailed(String::from("bad"));
    assert_eq!(e.message().as_str(), "SASL authentication failed: bad");
}

#[test]
fn generated_nonce_is_alphanumeric() {
    let nonce = pgscram::scram::generate_client_nonce();
    assert_eq!(nonce.len(), 18);
    assert!(nonce.chars().all(|c| c.is_ascii_alphanumeric()));
    let again = pgscram::scram::generate_client_nonce();
    assert_eq!(again.len(), 18);
    assert!(again.chars().all(|c| c.is_ascii_alphanumeric()));
}
