//! The closed error taxonomy of one authentication attempt. Every failure is
//! terminal for the attempt that produced it; no variant carries retry state.

use vstd::prelude::*;
use vstd::string::StringExecFns;

verus! {

/// What went wrong during one authentication attempt. Each variant carries a
/// human-readable detail string for operator diagnosis.
#[derive(Debug)]
pub enum AuthenticationError {
    /// The server offered no mechanism this client implements.
    UnsupportedMechanism(String),
    /// Salted-password derivation failed (bad salt encoding, etc.).
    ScramPreparationFailed(String),
    /// Keyed-hash construction failed, or a proof/signature length invariant
    /// was violated.
    ClientKeyGenerationFailed(String),
    /// Structurally malformed protocol data (missing nonce prefix,
    /// unparseable challenge, server signature mismatch).
    IllegalState(String),
    /// Transport-level failure on connect, read, or write.
    ConnectionFailed(String),
    /// The server's final signature failed verification.
    SASLAuthenticationFailed(String),
    /// Catch-all for message-preparation failures not otherwise classified.
    GenericError(String),
}

/// The descriptive text of an error: a fixed prefix naming the kind,
/// followed by the detail string the variant carries.
pub open spec fn spec_error_message(e: AuthenticationError) -> Seq<char> {
    match e {
        AuthenticationError::UnsupportedMechanism(m) => "Unsupported mechanism: "@ + m@,
        AuthenticationError::ScramPreparationFailed(m) => "SCRAM preparation failed: "@ + m@,
        AuthenticationError::ClientKeyGenerationFailed(m) => "Client key generation failed: "@
            + m@,
        AuthenticationError::IllegalState(m) => "Missing details: "@ + m@,
        AuthenticationError::ConnectionFailed(m) => "Connection failed: "@ + m@,
        AuthenticationError::SASLAuthenticationFailed(m) => "SASL authentication failed: "@ + m@,
        AuthenticationError::GenericError(m) => "Generic error: "@ + m@,
    }
}

impl AuthenticationError {
    /// The descriptive text of the error, for logging at the driver layer.
    pub fn message(&self) -> (r: String)
        ensures
            r@ == spec_error_message(*self),
    {
        match self {
            AuthenticationError::UnsupportedMechanism(m) => String::from_str(
                "Unsupported mechanism: ",
            ).concat(m.as_str()),
            AuthenticationError::ScramPreparationFailed(m) => String::from_str(
                "SCRAM preparation failed: ",
            ).concat(m.as_str()),
            AuthenticationError::ClientKeyGenerationFailed(m) => String::from_str(
                "Client key generation failed: ",
            ).concat(m.as_str()),
            AuthenticationError::IllegalState(m) => String::from_str("Missing details: ").concat(
                m.as_str(),
            ),
            AuthenticationError::ConnectionFailed(m) => String::from_str(
                "Connection failed: ",
            ).concat(m.as_str()),
            AuthenticationError::SASLAuthenticationFailed(m) => String::from_str(
                "SASL authentication failed: ",
            ).concat(m.as_str()),
            AuthenticationError::GenericError(m) => String::from_str("Generic error: ").concat(
                m.as_str(),
            ),
        }
    }
}

} // verus!
