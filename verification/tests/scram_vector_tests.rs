//! The SCRAM-SHA-256 example exchange of RFC 7677, with the random client
//! nonce replaced by the fixed one of the RFC.

use base64::Engine;

use pgscram::crypto::{
    compute_client_key, compute_server_signature, compute_stored_key, prepare_salted_password,
    verify_server_signature,
};
use pgscram::client_msg::prepare_client_second_message;
use pgscram::errors::AuthenticationError;
use pgscram::rsi::Rsi;

const CLIENT_NONCE: &str = "rOprNGfwEbeRWgbNEkqO";
const FULL_NONCE: &str = "rOprNGfwEbeRWgbNEkqO%hvYDpWUa2RaTCAfuxFIlj)hNlF$k0";
const SALT_B64: &str = "W22ZaJ0SNY7soEsUEjb6gQ==";
const EXPECTED_PROOF: &str = "dHzbZapWIk4jUhN+Ute9ytag9zjfMHgsqmmiz7AndVQ=";
const EXPECTED_SERVER_SIGNATURE: &str = "6rriTRBi23WpRR/wtup+mMhUZUn/dB5nLTJRsjl95G4=";

fn rfc_rsi() -> Rsi {
    Rsi {
        nonce: String::from(FULL_NONCE),
        salt: String::from(SALT_B64),
        iter_count: 4096,
    }
}

fn rfc_client_first_framed() -> Vec<u8> {
    pgscram::client_msg::prepare_client_first_message("SCRAM-SHA-256", "user", CLIENT_NONCE)
        .unwrap()
}

#[test]
fn client_first_message_carries_the_text() {
    let framed = rfc_client_first_framed();
    assert_eq!(framed[0], b'p');
    let text = b"n,,n=user,r=rOprNGfwEbeRWgbNEkqO";
    assert!(framed.ends_with(text));
    assert_eq!(&framed[5..19], b"SCRAM-SHA-256\0");
}

#[test]
fn salted_password_is_deterministic() {
    // The derivation is checked bit for bit against the RFC through the
    // proof and server-signature tests below; here the function is run
    // twice on the same salt, iteration count and password.
    let salted = prepare_salted_password("SCRAM-SHA-256", &rfc_rsi(), "pencil").unwrap();
    assert_eq!(salted.len(), 32);
    let again = prepare_salted_password("SCRAM-SHA-256", &rfc_rsi(), "pencil").unwrap();
    assert_eq!(salted, again);
}

#[test]
fn client_final_message_matches_rfc_vector() {
    let framed_first = rfc_client_first_framed();
    let second =
        prepare_client_second_message(&framed_first, "SCRAM-SHA-256", &rfc_rsi(), "pencil")
            .unwrap();
    let wire = second.get_password();
    assert_eq!(wire[0], b'p');
    let text = std::str::from_utf8(&wire[5..]).unwrap();
    let expected = format!("c=biws,r={},p={}", FULL_NONCE, EXPECTED_PROOF);
    assert_eq!(text, expected);
}

#[test]
fn auth_message_matches_rfc_vector() {
    let framed_first = rfc_client_first_framed();
    let second =
        prepare_client_second_message(&framed_first, "SCRAM-SHA-256", &rfc_rsi(), "pencil")
            .unwrap();
    let expected = format!(
        "n=user,r={},r={},s={},i=4096,c=biws,r={}",
        CLIENT_NONCE, FULL_NONCE, SALT_B64, FULL_NONCE
    );
    assert_eq!(second.get_auth_message().as_str(), expected);
}

#[test]
fn server_signature_matches_rfc_vector() {
    let framed_first = rfc_client_first_framed();
    let second =
        prepare_client_second_message(&framed_first, "SCRAM-SHA-256", &rfc_rsi(), "pencil")
            .unwrap();
    let signature = compute_server_signature(
        second.get_salted_password(),
        second.get_auth_message().as_bytes(),
    );
    assert_eq!(base64::engine::general_purpose::STANDARD.encode(&signature), EXPECTED_SERVER_SIGNATURE);
    assert!(verify_server_signature(
        second.get_salted_password(),
        second.get_auth_message(),
        &signature
    )
    .is_ok());
}

#[test]
fn tampered_server_signature_is_rejected() {
    let framed_first = rfc_client_first_framed();
    let second =
        prepare_client_second_message(&framed_first, "SCRAM-SHA-256", &rfc_rsi(), "pencil")
            .unwrap();
    let valid = base64::engine::general_purpose::STANDARD
        .decode(EXPECTED_SERVER_SIGNATURE)
        .unwrap();
    for byte_index in 0..valid.len() {
        for bit in 0..8 {
            let mut tampered = valid.clone();
            tampered[byte_index] ^= 1u8 << bit;
            let r = verify_server_signature(
                second.get_salted_password(),
                second.get_auth_message(),
                &tampered,
            );
            assert!(matches!(r, Err(AuthenticationError::IllegalState(_))));
        }
    }
}

#[test]
fn proof_xor_signature_returns_client_key() {
    let salted = prepare_salted_password("SCRAM-SHA-256", &rfc_rsi(), "pencil").unwrap();
    let client_key = compute_client_key(&salted);
    let stored_key = compute_stored_key(&client_key);
    let auth = format!(
        "n=user,r={},r={},s={},i=4096,c=biws,r={}",
        CLIENT_NONCE, FULL_NONCE, SALT_B64, FULL_NONCE
    );
    let signature =
        pgscram::crypto::compute_client_signature(&stored_key, auth.as_bytes()).unwrap();
    let proof = pgscram::crypto::compute_client_proof(&client_key, &signature).unwrap();
    assert_eq!(pgscram::num::xor_bytes(&proof, &signature), client_key);
}

#[test]
fn client_key_chain_is_32_bytes() {
    let salted = prepare_salted_password("SCRAM-SHA-256", &rfc_rsi(), "pencil").unwrap();
    let client_key = compute_client_key(&salted);
    let stored_key = compute_stored_key(&client_key);
    assert_eq!(client_key.len(), 32);
    assert_eq!(stored_key.len(), 32);
}

#[test]
fn unsupported_mechanism_is_rejected_in_derivation() {
    let r = prepare_salted_password("PLAIN", &rfc_rsi(), "pencil");
    assert!(matches!(r, Err(AuthenticationError::UnsupportedMechanism(_))));
}

#[test]
fn invalid_salt_fails_preparation() {
    let rsi = Rsi {
        nonce: String::from(FULL_NONCE),
        salt: String::from("!!not-base64!!"),
        iter_count: 4096,
    };
    let r = prepare_salted_password("SCRAM-SHA-256", &rsi, "pencil");
    assert!(matches!(r, Err(AuthenticationError::ScramPreparationFailed(_))));
}

#[test]
fn client_first_with_unsupported_mechanism_is_rejected() {
    let r = pgscram::client_msg::prepare_client_first_message(
        "UNSUPPORTED_AUTHENTICATION_MECHANISM",
        "user",
        CLIENT_NONCE,
    );
    assert!(matches!(r, Err(AuthenticationError::UnsupportedMechanism(_))));
}

#[test]
fn second_message_needs_a_recoverable_first_message() {
    // Far too short to hold a mechanism header and a text length.
    let r = prepare_client_second_message(b"p\0\0\0\x08", "SCRAM-SHA-256", &rfc_rsi(), "pencil");
    assert!(matches!(r, Err(AuthenticationError::IllegalState(_))));
}

#[test]
fn second_message_needs_the_gs2_prefix() {
    let framed = pgscram::client_msg::create_password_message("x,,n=user,r=abc");
    let r = prepare_client_second_message(&framed, "SCRAM-SHA-256", &rfc_rsi(), "pencil");
    assert!(matches!(r, Err(AuthenticationError::IllegalState(_))));
}

#[test]
fn second_message_needs_a_server_nonce() {
    let framed = rfc_client_first_framed();
    let rsi = Rsi {
        nonce: String::new(),
        salt: String::from(SALT_B64),
        iter_count: 4096,
    };
    let r = prepare_client_second_message(&framed, "SCRAM-SHA-256", &rsi, "pencil");
    assert!(matches!(r, Err(AuthenticationError::IllegalState(_))));
}

#[test]
fn invalid_signature_text_is_rejected() {
    let framed_first = rfc_client_first_framed();
    let second =
        prepare_client_second_message(&framed_first, "SCRAM-SHA-256", &rfc_rsi(), "pencil")
            .unwrap();
    let wrong = vec![0u8; 32];
    let r = verify_server_signature(
        second.get_salted_password(),
        second.get_auth_message(),
        &wrong,
    );
    assert!(r.is_err());
}
