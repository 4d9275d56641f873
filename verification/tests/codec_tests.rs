use pgscram::codec::{assemble_message, decode, encode, parse_header};
use pgscram::errors::AuthenticationError;
use pgscram::handshake::prepare_handshake_message;
use pgscram::num::{parse_u32_dec, u32_from_be, u32_to_dec_string, xor_bytes};
use pgscram::replication::start_replication_command;

fn be32(n: u32) -> [u8; 4] {
    [(n >> 24) as u8, (n >> 16) as u8, (n >> 8) as u8, n as u8]
}

#[test]
fn frame_roundtrip_plain_payload() {
    let payload = b"some payload bytes".to_vec();
    let framed = encode(Some(b'R'), &payload).unwrap();
    assert_eq!(framed[0], b'R');
    assert_eq!(&framed[1..5], &be32(4 + payload.len() as u32));
    let (message, consumed) = decode(&framed).unwrap();
    assert_eq!(message, framed);
    assert_eq!(consumed, framed.len());
    assert_eq!(&message[5..], &payload[..]);
}

#[test]
fn frame_roundtrip_empty_payload() {
    let framed = encode(Some(b'Z'), &[]).unwrap();
    assert_eq!(framed, vec![b'Z', 0, 0, 0, 4]);
    let (message, consumed) = decode(&framed).unwrap();
    assert_eq!(message, framed);
    assert_eq!(consumed, 5);
}

#[test]
fn frame_without_type_byte() {
    let framed = encode(None, b"xy").unwrap();
    assert_eq!(framed, vec![0, 0, 0, 6, b'x', b'y']);
}

#[test]
fn decode_ignores_trailing_bytes() {
    let mut framed = encode(Some(b'R'), b"abc").unwrap();
    let expected = framed.clone();
    framed.extend_from_slice(b"extra");
    let (message, consumed) = decode(&framed).unwrap();
    assert_eq!(message, expected);
    assert_eq!(consumed, expected.len());
}

#[test]
fn truncated_header_is_connection_failure() {
    let r = decode(&[b'R', 0, 0]);
    assert!(matches!(r, Err(AuthenticationError::ConnectionFailed(_))));
}

#[test]
fn truncated_body_is_connection_failure() {
    // A 5-byte header announcing a 4-byte body that never arrives.
    let header = [b'R', 0, 0, 0, 8];
    let r = decode(&header);
    assert!(matches!(r, Err(AuthenticationError::ConnectionFailed(_))));
}

#[test]
fn undersized_length_field_is_illegal_state() {
    let r = decode(&[b'R', 0, 0, 0, 3, 9, 9, 9]);
    assert!(matches!(r, Err(AuthenticationError::IllegalState(_))));
}

#[test]
fn parse_header_splits_type_and_length() {
    let (t, len) = parse_header(&[b'R', 0, 0, 0, 12]).unwrap();
    assert_eq!(t, b'R');
    assert_eq!(len, 12);
    assert!(matches!(
        parse_header(&[b'R', 0, 0, 0, 2]),
        Err(AuthenticationError::IllegalState(_))
    ));
}

#[test]
fn assemble_rebuilds_exact_bytes() {
    let full = assemble_message(&[b'R', 0, 0, 0, 8], &[0, 0, 0, 10]);
    assert_eq!(full, vec![b'R', 0, 0, 0, 8, 0, 0, 0, 10]);
}

#[test]
fn handshake_message_exact_bytes() {
    let message = prepare_handshake_message("myuser");
    let mut expected = Vec::new();
    let params_len = "user\0myuser\0replication\0true\0\0".len() as u32;
    expected.extend_from_slice(&be32(8 + params_len));
    expected.extend_from_slice(&be32(196608));
    expected.extend_from_slice(b"user\0myuser\0replication\0true\0\0");
    assert_eq!(message, expected);
}

#[test]
fn replication_command_exact_bytes() {
    let command = start_replication_command("scopes_slot", "LOGICAL", "1", &["scopes_pub"]);
    let text = "START_REPLICATION SLOT scopes_slot LOGICAL 0/0 (proto_version '1', \
                publication_names 'scopes_pub')";
    let mut expected = vec![b'Q'];
    expected.extend_from_slice(&be32(4 + text.len() as u32 + 1));
    expected.extend_from_slice(text.as_bytes());
    expected.push(0);
    assert_eq!(command, expected);
}

#[test]
fn replication_command_joins_publication_names() {
    let command = start_replication_command("s", "LOGICAL", "2", &["a", "b", "c"]);
    let text = String::from_utf8(command[5..command.len() - 1].to_vec()).unwrap();
    assert!(text.ends_with("publication_names 'a,b,c')"));
}

#[test]
fn u32_big_endian_roundtrip() {
    assert_eq!(u32_from_be(0, 0, 0, 4), 4);
    assert_eq!(u32_from_be(0xDE, 0xAD, 0xBE, 0xEF), 0xDEADBEEF);
}

#[test]
fn decimal_rendering() {
    assert_eq!(u32_to_dec_string(0).as_str(), "0");
    assert_eq!(u32_to_dec_string(4096).as_str(), "4096");
    assert_eq!(u32_to_dec_string(u32::MAX).as_str(), "4294967295");
}

#[test]
fn decimal_parsing() {
    assert_eq!(parse_u32_dec(b"0"), Some(0));
    assert_eq!(parse_u32_dec(b"4096"), Some(4096));
    assert_eq!(parse_u32_dec(b"4294967295"), Some(u32::MAX));
    assert_eq!(parse_u32_dec(b"4294967296"), None);
    assert_eq!(parse_u32_dec(b"12a"), None);
    assert_eq!(parse_u32_dec(b""), None);
}

#[test]
fn xor_is_bytewise() {
    let r = xor_bytes(&[0xF0, 0x0F, 0xAA], &[0x0F, 0x0F, 0xAA]);
    assert_eq!(r, vec![0xFF, 0x00, 0x00]);
}
