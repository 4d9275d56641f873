//! The server's challenge parameters, parsed out of the first SASL
//! continuation message.

use vstd::prelude::*;

verus! {

/// The three fields of the server-first message: the combined nonce, the
/// base64-encoded salt, and the iteration count. Built once by parsing an
/// AuthenticationSASLContinue payload and consumed exactly once by the
/// client-final-message computation; a field the server did not send stays
/// empty (or zero), which makes the later steps fail deterministically
/// instead of crashing.
pub struct Rsi {
    pub nonce: String,
    pub salt: String,
    pub iter_count: u32,
}

} // verus!
