//! The SCRAM-SHA-256 client state machine.
//!
//! The handshake is strictly lockstep: send, then block on one full
//! message, with no recovery path once anything is wrong. The machine
//! captures every decision of that exchange as a pure step function from
//! state and event to next state and action; the transport loop around it
//! performs the action (write the bytes, read the next message) and hands
//! the outcome back as the next event. One attempt owns one fresh client
//! nonce, passed in once and used in the client-first message.

use vstd::prelude::*;
use vstd::slice::{slice_subrange, slice_to_vec};
use vstd::string::StringExecFns;
use vstd::string::StringSliceAdditionalSpecFns;
use vstd::utf8::encode_utf8;

use crate::client_msg::{
    prepare_client_first_message, prepare_client_second_message, spec_client_first_message_text,
    spec_client_first_text, spec_sasl_initial_response, spec_second_message_contract,
};
use crate::crypto::{spec_base64_decode, spec_server_signature, verify_server_signature};
use crate::dto::ClientSecondMessage;
use crate::errors::AuthenticationError;
use crate::handshake::{prepare_handshake_message, spec_startup_message};
use crate::num::spec_u32_from_be;
use crate::server_msg::{
    extract_server_signature_bytes, process_server_first_response,
    process_server_handshake_response, read_authentication_code, spec_challenge_fields,
    spec_mechanism_text, spec_rsi_iter, spec_rsi_nonce_text, spec_rsi_salt_text,
    spec_signature_field, AUTH_CODE_SASL_CONTINUE,
};
use vstd::utf8::{decode_utf8, valid_utf8};

verus! {

/// Where one authentication attempt stands. The two terminal states are
/// `Authenticated` and `Failed`; every other state expects exactly one
/// event.
pub enum ScramState {
    /// Nothing sent yet.
    Start,
    /// The startup packet is out; the next message must announce the
    /// SASL mechanisms.
    AwaitingMechanism,
    /// The client-first message is out; its framed bytes are retained for
    /// the authentication-message reconstruction.
    AwaitingServerFirst { mechanism: String, client_first: Vec<u8> },
    /// The client-final message is out; the salted password and the
    /// authentication message are retained to check the server's verdict.
    AwaitingServerFinal { second: ClientSecondMessage },
    /// The server proved knowledge of the same salted password.
    Authenticated,
    /// The attempt is over; the error says why.
    Failed(AuthenticationError),
}

/// What the transport loop reports to the machine.
pub enum ScramEvent {
    /// Start the attempt.
    Begin,
    /// One full message arrived (as the codec reconstructed it).
    Received(Vec<u8>),
    /// A write or read failed at the transport; the detail says where.
    TransportError(String),
}

/// What the transport loop must do next.
pub enum ScramAction {
    /// Write these bytes, then read one full message and hand it back.
    SendAndRead(Vec<u8>),
    /// The handshake succeeded; hand the channel to the caller.
    Succeed,
    /// The handshake failed; the state holds the error.
    Fail,
}

/// One transition of the authentication state machine.
///
/// `user` and `password` come from the configuration; `client_nonce` is
/// the fresh random nonce of this attempt. The function is pure: the
/// whole exchange is determined by the states, the events, and those
/// three values.
#[verifier::rlimit(30)]
pub fn scram_step(
    state: ScramState,
    event: ScramEvent,
    user: &str,
    password: &str,
    client_nonce: &str,
) -> (r: (ScramState, ScramAction))
    ensures
        ({
            let (next, action) = r;
            &&& ((state is Start) && (event is Begin) && user.spec_bytes().len() + 32
                <= u32::MAX ==> (next is AwaitingMechanism) && (action matches
            ScramAction::SendAndRead(m) && m@ == spec_startup_message(user.spec_bytes())))
            &&& ((state is Start) && (event is Begin) && user.spec_bytes().len() + 32 > u32::MAX
                ==> (next matches ScramState::Failed(AuthenticationError::GenericError(_)))
                && action is Fail)
            &&& (state is AwaitingMechanism ==> (event matches ScramEvent::Received(m)
                ==> spec_mechanism_step(next, action, m@, user@, client_nonce@)))
            &&& (state matches ScramState::AwaitingServerFirst { mechanism, client_first } ==> (
            event matches ScramEvent::Received(m) ==> spec_server_first_step(
                next,
                action,
                m@,
                mechanism@,
                client_first@,
                password.spec_bytes(),
            )))
            &&& (state matches ScramState::AwaitingServerFinal { second } ==> (event matches
            ScramEvent::Received(m) ==> spec_server_final_step(next, action, m@, second, user@)))
            &&& (!(state is Authenticated) && !(state is Failed) && (event is TransportError)
                ==> (next matches ScramState::Failed(AuthenticationError::ConnectionFailed(_)))
                && action is Fail)
            &&& ((state is Start) && (event is Received) ==> (next matches ScramState::Failed(
                AuthenticationError::IllegalState(_),
            )) && action is Fail)
            &&& ((state is AwaitingMechanism || state is AwaitingServerFirst || state
                is AwaitingServerFinal) && (event is Begin) ==> (next matches ScramState::Failed(
                AuthenticationError::IllegalState(_),
            )) && action is Fail)
            &&& (state is Authenticated ==> (next is Authenticated) && (action is Succeed))
            &&& (state is Failed ==> (next matches ScramState::Failed(_)) && action is Fail)
        }),
{
    match (state, event) {
        (ScramState::Start, ScramEvent::Begin) => {
            if user.as_bytes().len() as u64 > (u32::MAX as u64) - 32 {
                return (
                    ScramState::Failed(
                        AuthenticationError::GenericError(
                            String::from_str("user name too large for a startup packet"),
                        ),
                    ),
                    ScramAction::Fail,
                );
            }
            let handshake = prepare_handshake_message(user);
            (ScramState::AwaitingMechanism, ScramAction::SendAndRead(handshake))
        },
        (ScramState::AwaitingMechanism, ScramEvent::Received(m)) => {
            if m.len() < 9 {
                return (
                    ScramState::Failed(
                        AuthenticationError::IllegalState(
                            String::from_str("server handshake response too short"),
                        ),
                    ),
                    ScramAction::Fail,
                );
            }
            let mechanism = process_server_handshake_response(m.as_slice());
            match prepare_client_first_message(mechanism.as_str(), user, client_nonce) {
                Ok(client_first) => {
                    let wire = slice_to_vec(client_first.as_slice());
                    (
                        ScramState::AwaitingServerFirst { mechanism, client_first },
                        ScramAction::SendAndRead(wire),
                    )
                },
                Err(e) => (ScramState::Failed(e), ScramAction::Fail),
            }
        },
        (ScramState::AwaitingServerFirst { mechanism, client_first }, ScramEvent::Received(m)) => {
            if m.len() < 9 {
                return (
                    ScramState::Failed(
                        AuthenticationError::IllegalState(
                            String::from_str("server first response too short"),
                        ),
                    ),
                    ScramAction::Fail,
                );
            }
            let code = read_authentication_code(slice_subrange(m.as_slice(), 5, 9));
            if code != AUTH_CODE_SASL_CONTINUE {
                return (
                    ScramState::Failed(
                        AuthenticationError::IllegalState(
                            String::from_str("server first response does not carry a SASL challenge"),
                        ),
                    ),
                    ScramAction::Fail,
                );
            }
            let rsi = process_server_first_response(m.as_slice());
            match prepare_client_second_message(
                client_first.as_slice(),
                mechanism.as_str(),
                &rsi,
                password,
            ) {
                Ok(second) => {
                    let wire = slice_to_vec(second.get_password().as_slice());
                    (
                        ScramState::AwaitingServerFinal { second },
                        ScramAction::SendAndRead(wire),
                    )
                },
                Err(e) => (ScramState::Failed(e), ScramAction::Fail),
            }
        },
        (ScramState::AwaitingServerFinal { second }, ScramEvent::Received(m)) => {
            let signature = match extract_server_signature_bytes(m.as_slice()) {
                Ok(signature) => signature,
                Err(_) => {
                    return (
                        ScramState::Failed(
                            AuthenticationError::IllegalState(
                                String::from_str(
                                    "could not extract the server signature from the final response",
                                ),
                            ),
                        ),
                        ScramAction::Fail,
                    );
                },
            };
            match verify_server_signature(
                second.get_salted_password().as_slice(),
                second.get_auth_message().as_str(),
                &signature,
            ) {
                Ok(_) => (ScramState::Authenticated, ScramAction::Succeed),
                Err(_) => {
                    let detail = String::from_str("Server signature invalid for user: ").concat(
                        user,
                    );
                    (
                        ScramState::Failed(
                            AuthenticationError::SASLAuthenticationFailed(detail),
                        ),
                        ScramAction::Fail,
                    )
                },
            }
        },
        (ScramState::Authenticated, _) => (ScramState::Authenticated, ScramAction::Succeed),
        (ScramState::Failed(e), _) => (ScramState::Failed(e), ScramAction::Fail),
        (_, ScramEvent::TransportError(detail)) => (
            ScramState::Failed(AuthenticationError::ConnectionFailed(detail)),
            ScramAction::Fail,
        ),
        (_, _) => (
            ScramState::Failed(
                AuthenticationError::IllegalState(
                    String::from_str("event does not belong to this state"),
                ),
            ),
            ScramAction::Fail,
        ),
    }
}

/// What handling the mechanism message must yield: a message too short
/// for an authentication code is malformed; a payload that does not read
/// as the supported mechanism under its code ends the attempt with
/// `UnsupportedMechanism` and no further send; otherwise the client-first
/// message goes out and is retained.
pub open spec fn spec_mechanism_step(
    next: ScramState,
    action: ScramAction,
    m: Seq<u8>,
    user: Seq<char>,
    client_nonce: Seq<char>,
) -> bool {
    let selected = spec_mechanism_text(spec_u32_from_be(m[5], m[6], m[7], m[8]), m.skip(9))
        == "SCRAM-SHA-256"@;
    let text = spec_client_first_message_text(user, client_nonce);
    if m.len() < 9 {
        (next matches ScramState::Failed(AuthenticationError::IllegalState(_))) && action is Fail
    } else if !selected {
        (next matches ScramState::Failed(AuthenticationError::UnsupportedMechanism(_))) && action
            is Fail
    } else if encode_utf8(text).len() + 22 > u32::MAX {
        (next matches ScramState::Failed(AuthenticationError::GenericError(_))) && action is Fail
    } else {
        &&& (next matches ScramState::AwaitingServerFirst { mechanism, client_first } && mechanism@
            == "SCRAM-SHA-256"@ && client_first@ == spec_sasl_initial_response(encode_utf8(text)))
        &&& (action matches ScramAction::SendAndRead(w) && w@ == spec_sasl_initial_response(
            encode_utf8(text),
        ))
    }
}

/// What handling the server-first message must yield: the message must
/// carry authentication code 11 (AuthenticationSASLContinue) or the
/// attempt fails structurally; under code 11 the challenge is parsed into
/// nonce, salt and iteration count, and the client-second derivation
/// decides between the client-final send and each failure.
pub open spec fn spec_server_first_step(
    next: ScramState,
    action: ScramAction,
    m: Seq<u8>,
    mechanism: Seq<char>,
    client_first: Seq<u8>,
    password: Seq<u8>,
) -> bool {
    let fields = spec_challenge_fields(m.skip(9));
    let nonce = spec_rsi_nonce_text(fields);
    let salt = spec_rsi_salt_text(fields);
    let iter_count = spec_rsi_iter(fields);
    if m.len() < 9 {
        (next matches ScramState::Failed(AuthenticationError::IllegalState(_))) && action is Fail
    } else if spec_u32_from_be(m[5], m[6], m[7], m[8]) != AUTH_CODE_SASL_CONTINUE {
        (next matches ScramState::Failed(AuthenticationError::IllegalState(_))) && action is Fail
    } else if spec_client_first_text(client_first) is None {
        (next matches ScramState::Failed(AuthenticationError::IllegalState(_))) && action is Fail
    } else {
        let text = spec_client_first_text(client_first)->Some_0;
        &&& (next matches ScramState::AwaitingServerFinal { second }
            ==> spec_second_message_contract(
            Ok(second),
            text,
            mechanism,
            nonce,
            salt,
            iter_count,
            password,
        ) && (action matches ScramAction::SendAndRead(w) && w@ == second.spec_password()))
        &&& (next matches ScramState::Failed(e) ==> spec_second_message_contract(
            Err(e),
            text,
            mechanism,
            nonce,
            salt,
            iter_count,
            password,
        ) && action is Fail)
        &&& (next is AwaitingServerFinal || next is Failed)
    }
}

/// What handling the server-final message must yield: a message whose
/// `v=` field cannot be recovered or decoded is malformed; a signature
/// equal to the recomputed one authenticates the server; any other ends
/// the attempt with `SASLAuthenticationFailed`, whose detail names the
/// user for operator diagnosis.
pub open spec fn spec_server_final_step(
    next: ScramState,
    action: ScramAction,
    m: Seq<u8>,
    second: ClientSecondMessage,
    user: Seq<char>,
) -> bool {
    let field = spec_signature_field(m.skip(9));
    if m.len() < 9 || field is None {
        (next matches ScramState::Failed(AuthenticationError::IllegalState(_))) && action is Fail
    } else {
        let value = field->Some_0;
        if !valid_utf8(value) || spec_base64_decode(decode_utf8(value)) is None {
            (next matches ScramState::Failed(AuthenticationError::IllegalState(_))) && action
                is Fail
        } else if spec_base64_decode(decode_utf8(value))->Some_0 == spec_server_signature(
            second.spec_salted_password(),
            encode_utf8(second.spec_auth_message()),
        ) {
            next is Authenticated && action is Succeed
        } else {
            (next matches ScramState::Failed(AuthenticationError::SASLAuthenticationFailed(d))
                && d@ == "Server signature invalid for user: "@ + user) && action is Fail
        }
    }
}

/// Generates the fresh alphanumeric client nonce of one attempt.
pub fn generate_client_nonce() -> (r: String)
    ensures
        r@.len() == 18,
        forall|i: int|
            0 <= i < r@.len() ==> (65 <= #[trigger] r@[i] as u32 <= 90 || 97 <= r@[i] as u32 <= 122
                || 48 <= r@[i] as u32 <= 57),
{
    crate::crypto::generate_nonce(18)
}

} // verus!
