//! Drives the state machine through whole exchanges, playing the server
//! side with the same primitives.

use pgscram::codec::encode;
use base64::Engine;

use pgscram::crypto::{compute_server_signature, prepare_salted_password};
use pgscram::errors::AuthenticationError;
use pgscram::rsi::Rsi;
use pgscram::scram::{scram_step, ScramAction, ScramEvent, ScramState};

const USER: &str = "replicator";
const PASSWORD: &str = "pencil";
const CLIENT_NONCE: &str = "rOprNGfwEbeRWgbNEkqO";
const SALT_B64: &str = "W22ZaJ0SNY7soEsUEjb6gQ==";

fn auth_message(code: u32, body: &[u8]) -> Vec<u8> {
    let mut payload = code.to_be_bytes().to_vec();
    payload.extend_from_slice(body);
    encode(Some(b'R'), &payload).unwrap()
}

fn step(
    state: ScramState,
    event: ScramEvent,
) -> (ScramState, ScramAction) {
    scram_step(state, event, USER, PASSWORD, CLIENT_NONCE)
}

#[test]
fn full_session_authenticates() {
    // Start: the machine asks to send the startup packet.
    let (state, action) = step(ScramState::Start, ScramEvent::Begin);
    let startup = match action {
        ScramAction::SendAndRead(bytes) => bytes,
        _ => panic!("expected a send after Begin"),
    };
    assert_eq!(
        startup,
        pgscram::handshake::prepare_handshake_message(USER)
    );

    // The server offers SCRAM-SHA-256.
    let offer = auth_message(10, b"SCRAM-SHA-256\0\0");
    let (state, action) = step(state, ScramEvent::Received(offer));
    let client_first = match &action {
        ScramAction::SendAndRead(bytes) => bytes.clone(),
        _ => panic!("expected the client-first send"),
    };
    assert!(client_first.ends_with(b"n,,n=replicator,r=rOprNGfwEbeRWgbNEkqO"));

    // The server answers with its challenge.
    let full_nonce = format!("{}serverSuffix", CLIENT_NONCE);
    let challenge = format!("r={},s={},i=4096", full_nonce, SALT_B64);
    let (state, action) = step(state, ScramEvent::Received(auth_message(11, challenge.as_bytes())));
    let client_final = match &action {
        ScramAction::SendAndRead(bytes) => bytes.clone(),
        _ => panic!("expected the client-final send"),
    };
    let client_final_text = std::str::from_utf8(&client_final[5..]).unwrap();
    assert!(client_final_text.starts_with(&format!("c=biws,r={},p=", full_nonce)));

    // The server derives the same salted password and signs the same
    // authentication message.
    let rsi = Rsi {
        nonce: full_nonce.clone(),
        salt: String::from(SALT_B64),
        iter_count: 4096,
    };
    let salted = prepare_salted_password("SCRAM-SHA-256", &rsi, PASSWORD).unwrap();
    let auth = format!(
        "n={},r={},r={},s={},i=4096,c=biws,r={}",
        USER, CLIENT_NONCE, full_nonce, SALT_B64, full_nonce
    );
    let signature = compute_server_signature(&salted, auth.as_bytes());
    let verdict = format!("v={}", base64::engine::general_purpose::STANDARD.encode(&signature));
    let (state, action) = step(state, ScramEvent::Received(auth_message(0, verdict.as_bytes())));
    assert!(matches!(state, ScramState::Authenticated));
    assert!(matches!(action, ScramAction::Succeed));
}

#[test]
fn unsupported_mechanism_stops_without_further_sends() {
    let (state, _) = step(ScramState::Start, ScramEvent::Begin);
    let offer = auth_message(10, b"PLAIN\0OTHER\0\0");
    let (state, action) = step(state, ScramEvent::Received(offer));
    match state {
        ScramState::Failed(AuthenticationError::UnsupportedMechanism(_)) => {}
        _ => panic!("expected the unsupported-mechanism failure"),
    }
    assert!(matches!(action, ScramAction::Fail));
}

#[test]
fn missing_server_nonce_fails_the_next_step() {
    let (state, _) = step(ScramState::Start, ScramEvent::Begin);
    let offer = auth_message(10, b"SCRAM-SHA-256\0\0");
    let (state, _) = step(state, ScramEvent::Received(offer));
    // The challenge has no r= field: the RSI keeps an empty nonce and the
    // client-second step must fail structurally, not crash.
    let challenge = format!("s={},i=4096", SALT_B64);
    let (state, action) = step(state, ScramEvent::Received(auth_message(11, challenge.as_bytes())));
    match state {
        ScramState::Failed(AuthenticationError::IllegalState(_)) => {}
        _ => panic!("expected the illegal-state failure"),
    }
    assert!(matches!(action, ScramAction::Fail));
}

#[test]
fn challenge_under_wrong_code_is_illegal() {
    let (state, _) = step(ScramState::Start, ScramEvent::Begin);
    let (state, _) = step(state, ScramEvent::Received(auth_message(10, b"SCRAM-SHA-256\0\0")));
    // A challenge-shaped payload under authentication code 10 is not an
    // AuthenticationSASLContinue and must fail structurally.
    let challenge = format!("r={}x,s={},i=4096", CLIENT_NONCE, SALT_B64);
    let (state, action) = step(state, ScramEvent::Received(auth_message(10, challenge.as_bytes())));
    match state {
        ScramState::Failed(AuthenticationError::IllegalState(_)) => {}
        _ => panic!("expected the illegal-state failure"),
    }
    assert!(matches!(action, ScramAction::Fail));
}

#[test]
fn wrong_password_fails_authentication() {
    let (state, _) = step(ScramState::Start, ScramEvent::Begin);
    let (state, _) = step(state, ScramEvent::Received(auth_message(10, b"SCRAM-SHA-256\0\0")));
    let full_nonce = format!("{}serverSuffix", CLIENT_NONCE);
    let challenge = format!("r={},s={},i=4096", full_nonce, SALT_B64);
    let (state, _) = step(state, ScramEvent::Received(auth_message(11, challenge.as_bytes())));
    // The server signs with a different password's salted key.
    let rsi = Rsi {
        nonce: full_nonce.clone(),
        salt: String::from(SALT_B64),
        iter_count: 4096,
    };
    let salted = prepare_salted_password("SCRAM-SHA-256", &rsi, "wrong-password").unwrap();
    let auth = format!(
        "n={},r={},r={},s={},i=4096,c=biws,r={}",
        USER, CLIENT_NONCE, full_nonce, SALT_B64, full_nonce
    );
    let signature = compute_server_signature(&salted, auth.as_bytes());
    let verdict = format!("v={}", base64::engine::general_purpose::STANDARD.encode(&signature));
    let (state, action) = step(state, ScramEvent::Received(auth_message(0, verdict.as_bytes())));
    match state {
        ScramState::Failed(AuthenticationError::SASLAuthenticationFailed(detail)) => {
            assert_eq!(detail, format!("Server signature invalid for user: {}", USER));
        }
        _ => panic!("expected the authentication failure"),
    }
    assert!(matches!(action, ScramAction::Fail));
}

#[test]
fn transport_error_fails_the_attempt() {
    let (state, _) = step(ScramState::Start, ScramEvent::Begin);
    let (state, action) = step(
        state,
        ScramEvent::TransportError(String::from("read failed")),
    );
    match state {
        ScramState::Failed(AuthenticationError::ConnectionFailed(_)) => {}
        _ => panic!("expected the connection failure"),
    }
    assert!(matches!(action, ScramAction::Fail));
}

#[test]
fn short_handshake_response_is_illegal() {
    let (state, _) = step(ScramState::Start, ScramEvent::Begin);
    let (state, action) = step(state, ScramEvent::Received(vec![b'R', 0, 0, 0, 4]));
    match state {
        ScramState::Failed(AuthenticationError::IllegalState(_)) => {}
        _ => panic!("expected the illegal-state failure"),
    }
    assert!(matches!(action, ScramAction::Fail));
}

#[test]
fn event_in_wrong_state_is_illegal() {
    let (state, action) = step(ScramState::Start, ScramEvent::Received(vec![1, 2, 3]));
    assert!(matches!(
        state,
        ScramState::Failed(AuthenticationError::IllegalState(_))
    ));
    assert!(matches!(action, ScramAction::Fail));
}
