//! Builders for the client's SCRAM messages: the SASL initial response
//! carrying the client-first message, and the plain password message
//! carrying the client-final message, together with the derivation that
//! fills in the proof.

use vstd::prelude::*;
use vstd::slice::slice_subrange;
use vstd::string::StringExecFns;
use vstd::string::StringSliceAdditionalSpecFns;
use vstd::string::StrSliceExecFns;
use vstd::utf8::{decode_utf8, encode_utf8, valid_utf8};

use crate::crypto::{
    base64_encode, compute_client_key, compute_client_proof, compute_client_signature,
    compute_stored_key, prepare_salted_password, spec_base64_chars, spec_base64_decode,
    spec_client_key, spec_client_proof, spec_client_signature, spec_pbkdf2_sha256,
    spec_stored_key,
};
use crate::dto::ClientSecondMessage;
use crate::errors::AuthenticationError;
use crate::num::{push_be32, spec_be32, spec_dec_chars, u32_to_dec_string};
use crate::rsi::Rsi;
use crate::text::str_eq;

verus! {

/// The characters of the client-first message for `user` and `nonce`:
/// the GS2 header `n,,` then the name and nonce attributes.
pub open spec fn spec_client_first_message_text(user: Seq<char>, nonce: Seq<char>) -> Seq<char> {
    "n,,n="@ + user + ",r="@ + nonce
}

/// The characters of the reconstructed server-first message.
pub open spec fn spec_server_first_message(nonce: Seq<char>, salt: Seq<char>, iter_count: u32) -> Seq<
    char,
> {
    "r="@ + nonce + ",s="@ + salt + ",i="@ + spec_dec_chars(iter_count as int)
}

/// The characters of the client-final message before the proof is
/// appended: the channel-binding marker and the combined nonce.
pub open spec fn spec_client_final_without_proof(nonce: Seq<char>) -> Seq<char> {
    "c=biws,r="@ + nonce
}

/// The authentication message: client-first-bare, server-first, and
/// client-final-without-proof, joined by commas.
pub open spec fn spec_auth_message(
    bare: Seq<char>,
    nonce: Seq<char>,
    salt: Seq<char>,
    iter_count: u32,
) -> Seq<char> {
    bare + ","@ + spec_server_first_message(nonce, salt, iter_count) + ","@
        + spec_client_final_without_proof(nonce)
}

/// The client-final message: the part without the proof, then the
/// base64-encoded proof as the `p=` attribute.
pub open spec fn spec_client_final_message(without_proof: Seq<char>, proof: Seq<u8>) -> Seq<char> {
    without_proof + ",p="@ + spec_base64_chars(proof)
}

/// The framed plain password message: type byte `'p'`, a length field
/// covering itself and the payload, then the raw payload text.
pub open spec fn spec_password_message(payload: Seq<u8>) -> Seq<u8>
    recommends
        payload.len() + 4 <= u32::MAX,
{
    seq![112u8] + spec_be32((payload.len() + 4) as u32) + payload
}

/// The byte string `"SCRAM-SHA-256\0"` that heads a SASL initial response.
pub open spec fn spec_mechanism_header() -> Seq<u8> {
    seq![83u8, 67u8, 82u8, 65u8, 77u8, 45u8, 83u8, 72u8, 65u8, 45u8, 50u8, 53u8, 54u8, 0u8]
}

/// The framed SASL initial response: type byte `'p'`, a length field,
/// the mechanism name with its NUL, a 4-byte length of the client-first
/// message, and the message text itself.
pub open spec fn spec_sasl_initial_response(text: Seq<u8>) -> Seq<u8>
    recommends
        text.len() + 22 <= u32::MAX,
{
    seq![112u8] + spec_be32((4 + 14 + 4 + text.len()) as u32) + spec_mechanism_header()
        + spec_be32(text.len() as u32) + text
}

/// Frames `payload` as a plain password message (client-final form: no
/// mechanism header).
pub fn build_password_message(payload: &str) -> (r: Vec<u8>)
    requires
        payload.spec_bytes().len() + 4 <= u32::MAX,
    ensures
        r@ == spec_password_message(payload.spec_bytes()),
{
    let payload_bytes = payload.as_bytes();
    let mut msg: Vec<u8> = Vec::new();
    msg.push(112);
    let len: u32 = 4 + (payload_bytes.len() as u32);
    push_be32(&mut msg, len);
    msg.extend_from_slice(payload_bytes);
    proof {
        assert(msg@ =~= spec_password_message(payload.spec_bytes()));
    }
    msg
}

/// Frames `client_nonce` (the client-first message text) as a SASL
/// initial response announcing `"SCRAM-SHA-256"`.
pub fn create_password_message(client_nonce: &str) -> (r: Vec<u8>)
    requires
        client_nonce.spec_bytes().len() + 22 <= u32::MAX,
    ensures
        r@ == spec_sasl_initial_response(client_nonce.spec_bytes()),
{
    let text = client_nonce.as_bytes();
    let mut message: Vec<u8> = Vec::new();
    message.push(112);
    let length: u32 = 4 + 14 + 4 + (text.len() as u32);
    push_be32(&mut message, length);
    message.push(83);
    message.push(67);
    message.push(82);
    message.push(65);
    message.push(77);
    message.push(45);
    message.push(83);
    message.push(72);
    message.push(65);
    message.push(45);
    message.push(50);
    message.push(53);
    message.push(54);
    message.push(0);
    push_be32(&mut message, text.len() as u32);
    message.extend_from_slice(text);
    proof {
        assert(message@ =~= spec_sasl_initial_response(client_nonce.spec_bytes()));
    }
    message
}

/// Builds the client-first message for `user` with the given fresh nonce
/// and frames it as a SASL initial response. Only `"SCRAM-SHA-256"` is
/// supported.
pub fn prepare_client_first_message(mechanism: &str, user: &str, client_nonce: &str) -> (r: Result<
    Vec<u8>,
    AuthenticationError,
>)
    ensures
        ({
            let text = spec_client_first_message_text(user@, client_nonce@);
            &&& (mechanism@ == "SCRAM-SHA-256"@ && encode_utf8(text).len() + 22 <= u32::MAX ==> (
            r matches Ok(m) && m@ == spec_sasl_initial_response(encode_utf8(text))))
            &&& (mechanism@ == "SCRAM-SHA-256"@ && encode_utf8(text).len() + 22 > u32::MAX ==> (
            r matches Err(AuthenticationError::GenericError(_))))
            &&& (mechanism@ != "SCRAM-SHA-256"@ ==> (r matches Err(
                AuthenticationError::UnsupportedMechanism(_),
            )))
        }),
{
    if !str_eq(mechanism, crate::crypto::scram_mechanism_name()) {
        return Err(AuthenticationError::UnsupportedMechanism(mechanism.to_owned()));
    }
    let mut text = String::from_str("n,,n=");
    text.append(user);
    text.append(",r=");
    text.append(client_nonce);
    proof {
        assert(text@ =~= spec_client_first_message_text(user@, client_nonce@));
    }
    if text.as_str().as_bytes().len() as u64 > (u32::MAX as u64) - 22 {
        return Err(
            AuthenticationError::GenericError(
                String::from_str("client first message too large for its length field"),
            ),
        );
    }
    Ok(create_password_message(text.as_str()))
}

/// The first NUL byte at or after `from`, or the end of the buffer.
pub open spec fn spec_first_nul(m: Seq<u8>, from: int) -> int
    decreases m.len() - from,
{
    if from < 0 || from >= m.len() {
        m.len() as int
    } else if m[from] == 0 {
        from
    } else {
        spec_first_nul(m, from + 1)
    }
}

/// The client-first message text inside a framed SASL initial response:
/// the bytes after the header, the mechanism name with its NUL, and the
/// 4-byte text length, decoded as UTF-8. Nothing when the buffer is too
/// short for that layout or the text is not UTF-8.
pub open spec fn spec_client_first_text(m: Seq<u8>) -> Option<Seq<char>> {
    let start = spec_first_nul(m, 5) + 5;
    if start > m.len() {
        None
    } else if !valid_utf8(m.skip(start)) {
        None
    } else {
        Some(decode_utf8(m.skip(start)))
    }
}

/// Recovers the client-first message text from its framed SASL initial
/// response: skips the header, the NUL-terminated mechanism name, and the
/// text length field, and decodes the rest.
pub fn extract_client_nonce_from_first_message(message: &[u8]) -> (r: Option<&str>)
    ensures
        r is Some <==> spec_client_first_text(message@) is Some,
        r matches Some(s) ==> Some(s@) == spec_client_first_text(message@),
{
    let n = message.len();
    let mut pos: usize = 5;
    if n < 5 {
        return None;
    }
    while pos < n && message[pos] != 0
        invariant
            n == message@.len(),
            5 <= pos <= n,
            spec_first_nul(message@, 5) == spec_first_nul(message@, pos as int),
        decreases n - pos,
    {
        pos += 1;
    }
    proof {
        assert(spec_first_nul(message@, pos as int) == pos as int);
    }
    if pos > n - 5 {
        return None;
    }
    let start = pos + 5;
    match core::str::from_utf8(slice_subrange(message, start, n)) {
        Ok(text) => Some(text),
        Err(_) => None,
    }
}

/// Builds the authentication message and the client-final message without
/// its proof, from the bare client-first text and the server's challenge.
pub fn compute_client_second_auth_message(client_first_bare: &str, rsi: &Rsi) -> (r: (
    String,
    String,
))
    ensures
        r.0@ == spec_auth_message(client_first_bare@, rsi.nonce@, rsi.salt@, rsi.iter_count),
        r.1@ == spec_client_final_without_proof(rsi.nonce@),
{
    let mut server_first = String::from_str("r=");
    server_first.append(rsi.nonce.as_str());
    server_first.append(",s=");
    server_first.append(rsi.salt.as_str());
    server_first.append(",i=");
    let iter_text = u32_to_dec_string(rsi.iter_count);
    server_first.append(iter_text.as_str());
    proof {
        assert(server_first@ =~= spec_server_first_message(rsi.nonce@, rsi.salt@, rsi.iter_count));
    }
    let mut without_proof = String::from_str("c=biws,r=");
    without_proof.append(rsi.nonce.as_str());
    proof {
        assert(without_proof@ =~= spec_client_final_without_proof(rsi.nonce@));
    }
    let mut auth_message = String::from_str(client_first_bare);
    auth_message.append(",");
    auth_message.append(server_first.as_str());
    auth_message.append(",");
    auth_message.append(without_proof.as_str());
    proof {
        assert(auth_message@ =~= spec_auth_message(
            client_first_bare@,
            rsi.nonce@,
            rsi.salt@,
            rsi.iter_count,
        ));
    }
    (auth_message, without_proof)
}

/// Appends the base64-encoded proof to the client-final message.
pub fn create_client_final_message(
    client_final_message_without_proof: &str,
    client_proof: &[u8],
) -> (r: String)
    ensures
        r@ == spec_client_final_message(client_final_message_without_proof@, client_proof@),
{
    let proof_b64 = base64_encode(client_proof);
    let mut message = String::from_str(client_final_message_without_proof);
    message.append(",p=");
    message.append(proof_b64.as_str());
    proof {
        assert(message@ =~= spec_client_final_message(
            client_final_message_without_proof@,
            client_proof@,
        ));
    }
    message
}

/// Whether the client-first text begins with the GS2 header `n,,`.
pub open spec fn spec_gs2_prefix(text: Seq<char>) -> bool {
    text.len() >= 3 && text[0] == 'n' && text[1] == ',' && text[2] == ','
}

/// What preparing the client-second message must yield for the given
/// client-first text and challenge: the checks run in order — GS2 header,
/// server nonce present, supported mechanism, decodable salt, message
/// small enough for its length field — and the success case pins every
/// retained and framed value.
pub open spec fn spec_second_message_contract(
    r: Result<ClientSecondMessage, AuthenticationError>,
    text: Seq<char>,
    mechanism: Seq<char>,
    nonce: Seq<char>,
    salt: Seq<char>,
    iter_count: u32,
    password: Seq<u8>,
) -> bool {
    let bare = text.skip(3);
    let salted = spec_pbkdf2_sha256(password, spec_base64_decode(salt)->Some_0, iter_count);
    let client_key = spec_client_key(salted);
    let stored_key = spec_stored_key(client_key);
    let auth_message = spec_auth_message(bare, nonce, salt, iter_count);
    let client_signature = spec_client_signature(stored_key, encode_utf8(auth_message));
    let client_proof = spec_client_proof(client_key, client_signature);
    let final_message = spec_client_final_message(
        spec_client_final_without_proof(nonce),
        client_proof,
    );
    if !spec_gs2_prefix(text) {
        r matches Err(AuthenticationError::IllegalState(_))
    } else if nonce.len() == 0 {
        r matches Err(AuthenticationError::IllegalState(_))
    } else if mechanism != "SCRAM-SHA-256"@ {
        r matches Err(AuthenticationError::UnsupportedMechanism(_))
    } else if spec_base64_decode(salt) is None {
        r matches Err(AuthenticationError::ScramPreparationFailed(_))
    } else if encode_utf8(final_message).len() + 4 > u32::MAX {
        r matches Err(AuthenticationError::GenericError(_))
    } else {
        &&& r is Ok
        &&& (r matches Ok(m) ==> {
            &&& m.spec_salted_password() == salted
            &&& m.spec_auth_message() == auth_message
            &&& m.spec_password() == spec_password_message(encode_utf8(final_message))
        })
    }
}

/// Runs the client-second-message derivation on an already extracted
/// client-first text.
pub fn process_client_first_message(
    client_first_text: &str,
    mechanism: &str,
    rsi: &Rsi,
    password: &str,
) -> (r: Result<ClientSecondMessage, AuthenticationError>)
    ensures
        spec_second_message_contract(
            r,
            client_first_text@,
            mechanism@,
            rsi.nonce@,
            rsi.salt@,
            rsi.iter_count,
            password.spec_bytes(),
        ),
{
    let n = client_first_text.unicode_len();
    if n < 3 || client_first_text.get_char(0) != 'n' || client_first_text.get_char(1) != ','
        || client_first_text.get_char(2) != ',' {
        return Err(
            AuthenticationError::IllegalState(
                String::from_str("Client first message missing prefix n,,"),
            ),
        );
    }
    if rsi.nonce.as_str().is_empty() {
        return Err(
            AuthenticationError::IllegalState(
                String::from_str("server nonce absent in challenge"),
            ),
        );
    }
    let bare = client_first_text.substring_char(3, n);
    proof {
        assert(bare@ =~= client_first_text@.skip(3));
    }
    let salted_password = match prepare_salted_password(mechanism, rsi, password) {
        Ok(salted) => salted,
        Err(e) => {
            return Err(e);
        },
    };
    let client_key = compute_client_key(salted_password.as_slice());
    let stored_key = compute_stored_key(client_key.as_slice());
    let (auth_message, without_proof) = compute_client_second_auth_message(bare, rsi);
    let client_signature = match compute_client_signature(
        stored_key.as_slice(),
        auth_message.as_str().as_bytes(),
    ) {
        Ok(signature) => signature,
        Err(e) => {
            return Err(e);
        },
    };
    let client_proof = match compute_client_proof(
        client_key.as_slice(),
        client_signature.as_slice(),
    ) {
        Ok(client_proof) => client_proof,
        Err(e) => {
            return Err(e);
        },
    };
    let final_message = create_client_final_message(without_proof.as_str(), client_proof.as_slice());
    if final_message.as_str().as_bytes().len() as u64 > (u32::MAX as u64) - 4 {
        return Err(
            AuthenticationError::GenericError(
                String::from_str("client final message too large for its length field"),
            ),
        );
    }
    let framed = build_password_message(final_message.as_str());
    Ok(ClientSecondMessage::new(salted_password, auth_message, framed))
}

/// Prepares the client-second message from the framed client-first
/// message, the negotiated mechanism, the server's challenge, and the
/// password. A framed message the client-first text cannot be recovered
/// from is the structural `IllegalState` failure.
pub fn prepare_client_second_message(
    client_first_message: &[u8],
    mechanism: &str,
    rsi: &Rsi,
    password: &str,
) -> (r: Result<ClientSecondMessage, AuthenticationError>)
    ensures
        spec_client_first_text(client_first_message@) is None ==> (r matches Err(
            AuthenticationError::IllegalState(_),
        )),
        spec_client_first_text(client_first_message@) matches Some(text)
            ==> spec_second_message_contract(
                r,
                text,
                mechanism@,
                rsi.nonce@,
                rsi.salt@,
                rsi.iter_count,
                password.spec_bytes(),
            ),
{
    match extract_client_nonce_from_first_message(client_first_message) {
        Some(client_first_text) => process_client_first_message(
            client_first_text,
            mechanism,
            rsi,
            password,
        ),
        None => Err(
            AuthenticationError::IllegalState(
                String::from_str("Client nonce absent in first message"),
            ),
        ),
    }
}

} // verus!
