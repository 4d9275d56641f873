//! Data carried across the handshake: the state retained between the
//! client-final message and the server's verdict, and the connection
//! configuration supplied at process start.

use vstd::prelude::*;

verus! {

/// The one piece of state that must survive across two round trips: the
/// salted password and the authentication message are needed again after
/// the client-final message is sent, to verify the server's final
/// signature. `password` holds the framed wire bytes of the client-final
/// message itself.
pub struct ClientSecondMessage {
    salted_password: Vec<u8>,
    auth_message: String,
    password: Vec<u8>,
}

impl ClientSecondMessage {
    /// The bytes of the retained salted password.
    pub closed spec fn spec_salted_password(&self) -> Seq<u8> {
        self.salted_password@
    }

    /// The characters of the retained authentication message.
    pub closed spec fn spec_auth_message(&self) -> Seq<char> {
        self.auth_message@
    }

    /// The framed wire bytes of the client-final message.
    pub closed spec fn spec_password(&self) -> Seq<u8> {
        self.password@
    }

    /// Bundles the derived key, the authentication message, and the framed
    /// client-final wire bytes.
    pub fn new(salted_password: Vec<u8>, auth_message: String, password: Vec<u8>) -> (r:
        ClientSecondMessage)
        ensures
            r.spec_salted_password() == salted_password@,
            r.spec_auth_message() == auth_message@,
            r.spec_password() == password@,
    {
        ClientSecondMessage { salted_password, auth_message, password }
    }

    /// The 32-byte salted password retained for signature verification.
    pub fn get_salted_password(&self) -> (r: &Vec<u8>)
        ensures
            r@ == self.spec_salted_password(),
    {
        &self.salted_password
    }

    /// The authentication message retained for signature verification.
    pub fn get_auth_message(&self) -> (r: &String)
        ensures
            r@ == self.spec_auth_message(),
    {
        &self.auth_message
    }

    /// The framed client-final message bytes, ready to write to the wire.
    pub fn get_password(&self) -> (r: &Vec<u8>)
        ensures
            r@ == self.spec_password(),
    {
        &self.password
    }
}

/// Connection parameters supplied once at process start and never mutated;
/// configuration loading owns them, the session driver borrows them.
#[derive(Debug, Clone)]
pub struct DBConfig {
    pub db_host: String,
    pub db_port: String,
    pub db_name: String,
    pub db_user: String,
    pub db_password: String,
}

/// The text of a client-first message together with the nonce embedded in
/// it.
pub struct ClientFirstMessage {
    pub message: String,
    pub client_nonce: String,
}

} // verus!
