//! The cryptographic core of SCRAM-SHA-256: salted-password derivation,
//! keyed hashing, proof construction and server-signature verification.
//!
//! The primitives (SHA-256, HMAC-SHA-256, PBKDF2, base64, the nonce
//! generator) come from outside crates behind trusted wrappers; their
//! results are named by uninterpreted functions, and everything built on
//! top of them is verified against those names.

use vstd::prelude::*;
use vstd::string::StringExecFns;
use vstd::string::StringSliceAdditionalSpecFns;

use base64::Engine;
use rand::RngExt;
use sha2::Digest;

use crate::errors::AuthenticationError;
use crate::num::{spec_xor_bytes, xor_bytes, lemma_xor_bytes_involution};
use crate::rsi::Rsi;
use crate::text::{bytes_eq, str_eq};

verus! {

/// The SHA-256 digest of a byte string.
pub uninterp spec fn spec_sha256(data: Seq<u8>) -> Seq<u8>;

/// The HMAC-SHA-256 tag over `data` under `key`.
pub uninterp spec fn spec_hmac_sha256(key: Seq<u8>, data: Seq<u8>) -> Seq<u8>;

/// The first 32 bytes of PBKDF2 with HMAC-SHA-256 as the pseudo-random
/// function, run for `rounds` rounds.
pub uninterp spec fn spec_pbkdf2_sha256(password: Seq<u8>, salt: Seq<u8>, rounds: u32) -> Seq<u8>;

/// The standard-alphabet, padded base64 rendering of a byte string.
pub uninterp spec fn spec_base64_chars(data: Seq<u8>) -> Seq<char>;

/// What standard-alphabet, padded base64 decoding yields: the decoded
/// bytes, or nothing when the text is not valid base64.
pub uninterp spec fn spec_base64_decode(text: Seq<char>) -> Option<Seq<u8>>;

/// Relies on sha2's Sha256: the digest depends on the data alone and is
/// 32 bytes long.
#[verifier::external_body]
fn sha256_digest(data: &[u8]) -> (r: Vec<u8>)
    ensures
        r@ == spec_sha256(data@),
        r@.len() == 32,
{
    sha2::Sha256::digest(data).to_vec()
}

/// Relies on hmac's Hmac over Sha256: the tag depends on key and data
/// alone and is 32 bytes long; HMAC accepts keys of any length, so
/// construction cannot fail.
#[verifier::external_body]
fn hmac_sha256(key: &[u8], data: &[u8]) -> (r: Vec<u8>)
    ensures
        r@ == spec_hmac_sha256(key@, data@),
        r@.len() == 32,
{
    let mut mac = <hmac::Hmac<sha2::Sha256> as hmac::KeyInit>::new_from_slice(key)
        .expect("HMAC accepts keys of any length");
    hmac::Mac::update(&mut mac, data);
    hmac::Mac::finalize(mac).into_bytes().to_vec()
}

/// Relies on pbkdf2's pbkdf2_hmac over Sha256: fills the 32-byte output
/// from password, salt and round count alone.
#[verifier::external_body]
fn pbkdf2_sha256(password: &[u8], salt: &[u8], rounds: u32) -> (r: Vec<u8>)
    ensures
        r@ == spec_pbkdf2_sha256(password@, salt@, rounds),
        r@.len() == 32,
{
    let mut out = [0u8; 32];
    pbkdf2::pbkdf2_hmac::<sha2::Sha256>(password, salt, rounds, &mut out);
    out.to_vec()
}

/// Relies on base64's STANDARD engine: encoding depends on the input bytes
/// alone.
#[verifier::external_body]
pub(crate) fn base64_encode(data: &[u8]) -> (r: String)
    ensures
        r@ == spec_base64_chars(data@),
{
    base64::engine::general_purpose::STANDARD.encode(data)
}

/// The error base64 reports for text that is not valid base64.
#[verifier::external_type_specification]
#[verifier::external_body]
pub struct ExDecodeError(base64::DecodeError);

/// Relies on base64's STANDARD engine: decoding depends on the input text
/// alone, succeeding exactly on valid standard-alphabet, padded base64.
#[verifier::external_body]
pub(crate) fn base64_decode(text: &str) -> (r: Result<Vec<u8>, base64::DecodeError>)
    ensures
        r is Ok <==> spec_base64_decode(text@) is Some,
        r is Ok ==> r.unwrap()@ == spec_base64_decode(text@).unwrap(),
{
    base64::engine::general_purpose::STANDARD.decode(text)
}

/// Relies on rand's Alphanumeric distribution: every sampled character is
/// an ASCII letter or digit, and exactly `length` of them are drawn. The
/// result is random, so nothing relates it to the inputs.
#[verifier::external_body]
pub(crate) fn generate_nonce(length: usize) -> (r: String)
    ensures
        r@.len() == length,
        forall|i: int|
            0 <= i < r@.len() ==> (65 <= #[trigger] r@[i] as u32 <= 90 || 97 <= r@[i] as u32 <= 122
                || 48 <= r@[i] as u32 <= 57),
{
    rand::rng().sample_iter(rand::distr::Alphanumeric).take(length).map(char::from).collect()
}

/// The label bytes `"Client Key"`.
pub open spec fn spec_client_key_label() -> Seq<u8> {
    seq![67u8, 108u8, 105u8, 101u8, 110u8, 116u8, 32u8, 75u8, 101u8, 121u8]
}

/// The label bytes `"Server Key"`.
pub open spec fn spec_server_key_label() -> Seq<u8> {
    seq![83u8, 101u8, 114u8, 118u8, 101u8, 114u8, 32u8, 75u8, 101u8, 121u8]
}

/// `client_key = HMAC-SHA256(salted_password, "Client Key")`.
pub open spec fn spec_client_key(salted_password: Seq<u8>) -> Seq<u8> {
    spec_hmac_sha256(salted_password, spec_client_key_label())
}

/// `stored_key = SHA256(client_key)`.
pub open spec fn spec_stored_key(client_key: Seq<u8>) -> Seq<u8> {
    spec_sha256(client_key)
}

/// `client_signature = HMAC-SHA256(stored_key, auth_message)`.
pub open spec fn spec_client_signature(stored_key: Seq<u8>, auth_message: Seq<u8>) -> Seq<u8> {
    spec_hmac_sha256(stored_key, auth_message)
}

/// `client_proof = client_key XOR client_signature`.
pub open spec fn spec_client_proof(client_key: Seq<u8>, client_signature: Seq<u8>) -> Seq<u8> {
    spec_xor_bytes(client_key, client_signature)
}

/// `server_signature = HMAC-SHA256(HMAC-SHA256(salted_password, "Server
/// Key"), auth_message)`.
pub open spec fn spec_server_signature(salted_password: Seq<u8>, auth_message: Seq<u8>) -> Seq<
    u8,
> {
    spec_hmac_sha256(spec_hmac_sha256(salted_password, spec_server_key_label()), auth_message)
}

/// The label bytes `"Client Key"` as a vector.
fn client_key_label() -> (r: Vec<u8>)
    ensures
        r@ == spec_client_key_label(),
{
    let mut label: Vec<u8> = Vec::new();
    label.push(67);
    label.push(108);
    label.push(105);
    label.push(101);
    label.push(110);
    label.push(116);
    label.push(32);
    label.push(75);
    label.push(101);
    label.push(121);
    proof {
        assert(label@ =~= spec_client_key_label());
    }
    label
}

/// The label bytes `"Server Key"` as a vector.
fn server_key_label() -> (r: Vec<u8>)
    ensures
        r@ == spec_server_key_label(),
{
    let mut label: Vec<u8> = Vec::new();
    label.push(83);
    label.push(101);
    label.push(114);
    label.push(118);
    label.push(101);
    label.push(114);
    label.push(32);
    label.push(75);
    label.push(101);
    label.push(121);
    proof {
        assert(label@ =~= spec_server_key_label());
    }
    label
}

/// Derives the client key by keying HMAC-SHA-256 with the salted password
/// over the fixed `"Client Key"` label.
pub fn compute_client_key(salted_password: &[u8]) -> (r: Vec<u8>)
    ensures
        r@ == spec_client_key(salted_password@),
        r@.len() == 32,
{
    let label = client_key_label();
    hmac_sha256(salted_password, label.as_slice())
}

/// Hashes the client key into the stored key.
pub fn compute_stored_key(client_key: &[u8]) -> (r: Vec<u8>)
    ensures
        r@ == spec_stored_key(client_key@),
        r@.len() == 32,
{
    sha256_digest(client_key)
}

/// Signs the authentication message with the stored key.
pub fn compute_client_signature(stored_key: &[u8], auth_message: &[u8]) -> (r: Result<
    Vec<u8>,
    AuthenticationError,
>)
    ensures
        r is Ok,
        r matches Ok(s) ==> s@ == spec_client_signature(stored_key@, auth_message@) && s@.len()
            == 32,
{
    Ok(hmac_sha256(stored_key, auth_message))
}

/// XORs the client key with the client signature to form the proof sent to
/// the server. Both operands must be exactly 32 bytes; a partial-length
/// XOR is never performed.
pub fn compute_client_proof(client_key: &[u8], client_signature: &[u8]) -> (r: Result<
    Vec<u8>,
    AuthenticationError,
>)
    ensures
        client_key@.len() == 32 && client_signature@.len() == 32 ==> (r matches Ok(p) && p@
            == spec_client_proof(client_key@, client_signature@)),
        client_key@.len() != 32 || client_signature@.len() != 32 ==> (r matches Err(
            AuthenticationError::ClientKeyGenerationFailed(_),
        )),
{
    if client_key.len() != 32 || client_signature.len() != 32 {
        return Err(
            AuthenticationError::ClientKeyGenerationFailed(
                String::from_str("proof operands must be exactly 32 bytes"),
            ),
        );
    }
    Ok(xor_bytes(client_key, client_signature))
}

/// The mechanism this client implements.
pub fn scram_mechanism_name() -> (r: &'static str)
    ensures
        r@ == "SCRAM-SHA-256"@,
{
    "SCRAM-SHA-256"
}

/// Derives the salted password: only `"SCRAM-SHA-256"` is supported; the
/// salt is base64-decoded and stretched with PBKDF2 under HMAC-SHA-256 for
/// `rsi.iter_count` rounds into exactly 32 bytes.
///
/// An unsupported mechanism and an undecodable salt are the two failure
/// modes, reported in that order.
pub fn prepare_salted_password(mechanism: &str, rsi: &Rsi, password: &str) -> (r: Result<
    Vec<u8>,
    AuthenticationError,
>)
    ensures
        mechanism@ != "SCRAM-SHA-256"@ ==> (r matches Err(
            AuthenticationError::UnsupportedMechanism(_),
        )),
        mechanism@ == "SCRAM-SHA-256"@ && spec_base64_decode(rsi.salt@) is None ==> (r matches Err(
            AuthenticationError::ScramPreparationFailed(_),
        )),
        mechanism@ == "SCRAM-SHA-256"@ && spec_base64_decode(rsi.salt@) is Some ==> (r matches Ok(
            sp,
        ) && sp@ == spec_pbkdf2_sha256(
            password.spec_bytes(),
            spec_base64_decode(rsi.salt@).unwrap(),
            rsi.iter_count,
        ) && sp@.len() == 32),
{
    if !str_eq(mechanism, scram_mechanism_name()) {
        return Err(AuthenticationError::UnsupportedMechanism(mechanism.to_owned()));
    }
    let salt = match base64_decode(rsi.salt.as_str()) {
        Ok(salt) => salt,
        Err(_) => {
            return Err(
                AuthenticationError::ScramPreparationFailed(
                    String::from_str("salt is not valid base64"),
                ),
            );
        },
    };
    Ok(pbkdf2_sha256(password.as_bytes(), salt.as_slice(), rsi.iter_count))
}

/// Recomputes the server signature from the retained salted password and
/// authentication message.
pub fn compute_server_signature(salted_password: &[u8], auth_message: &[u8]) -> (r: Vec<u8>)
    ensures
        r@ == spec_server_signature(salted_password@, auth_message@),
        r@.len() == 32,
{
    let label = server_key_label();
    let server_key = hmac_sha256(salted_password, label.as_slice());
    hmac_sha256(server_key.as_slice(), auth_message)
}

/// Verifies the server's final signature by recomputing it and comparing
/// byte for byte; a mismatch is the structural `IllegalState` failure.
pub fn verify_server_signature(
    salted_password: &[u8],
    auth_message: &str,
    server_signature: &Vec<u8>,
) -> (r: Result<(), AuthenticationError>)
    ensures
        r is Ok <==> server_signature@ == spec_server_signature(
            salted_password@,
            auth_message.spec_bytes(),
        ),
        r is Err ==> (r matches Err(AuthenticationError::IllegalState(_))),
{
    let expected = compute_server_signature(salted_password, auth_message.as_bytes());
    if bytes_eq(server_signature.as_slice(), expected.as_slice()) {
        Ok(())
    } else {
        Err(AuthenticationError::IllegalState(String::from_str("Server signature mismatch")))
    }
}

/// Salted-password derivation is deterministic: two derivations from the
/// same password, salt, and round count yield the same 32 bytes.
pub proof fn lemma_salted_password_deterministic(
    password: Seq<u8>,
    salt: Seq<u8>,
    rounds: u32,
    first: Seq<u8>,
    second: Seq<u8>,
)
    requires
        first == spec_pbkdf2_sha256(password, salt, rounds),
        second == spec_pbkdf2_sha256(password, salt, rounds),
    ensures
        first == second,
{
}

/// The proof/signature algebra: the proof was built as
/// `client_key XOR client_signature`, so XORing it with the signature
/// again returns the client key.
pub proof fn lemma_proof_signature_algebra(client_key: Seq<u8>, client_signature: Seq<u8>)
    requires
        client_key.len() == client_signature.len(),
    ensures
        spec_xor_bytes(
            spec_client_proof(client_key, client_signature),
            client_signature,
        ) =~= client_key,
{
    lemma_xor_bytes_involution(client_key, client_signature);
}

/// Tampering detection: flipping any single bit of a valid server
/// signature yields a value that no longer equals the recomputed
/// signature, so verification of the tampered value must fail.
pub proof fn lemma_tampered_signature_rejected(
    salted_password: Seq<u8>,
    auth_message: Seq<u8>,
    signature: Seq<u8>,
    tampered: Seq<u8>,
    byte_index: int,
    bit_index: u8,
)
    requires
        signature == spec_server_signature(salted_password, auth_message),
        0 <= byte_index < signature.len(),
        bit_index < 8,
        tampered == signature.update(byte_index, signature[byte_index] ^ (1u8 << bit_index)),
    ensures
        tampered != spec_server_signature(salted_password, auth_message),
{
    let original: u8 = signature[byte_index];
    assert(bit_index < 8 ==> (original ^ (1u8 << bit_index)) != original) by (bit_vector);
    assert(tampered[byte_index] != signature[byte_index]);
}

} // verus!
