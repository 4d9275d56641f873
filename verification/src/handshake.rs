//! The startup packet: protocol version followed by null-terminated
//! key/value parameters. It is the one message without a leading type byte.

use vstd::prelude::*;
use vstd::string::StringSliceAdditionalSpecFns;

use crate::num::{push_be32, spec_be32};

verus! {

/// The protocol version announced in the startup packet (major 3, minor 0).
pub const PROTOCOL_VERSION: u32 = 196608;

/// The parameter block of the startup packet: null-terminated `key\0value\0`
/// pairs for `user` and `replication=true`, closed by one extra NUL.
pub open spec fn spec_startup_params(user: Seq<u8>) -> Seq<u8> {
    seq![117u8, 115u8, 101u8, 114u8, 0u8] + user + seq![0u8] + seq![114u8, 101u8, 112u8, 108u8, 105u8, 99u8, 97u8, 116u8, 105u8, 111u8, 110u8, 0u8] + seq![116u8, 114u8, 117u8, 101u8, 0u8] + seq![0u8]
}

/// The full startup packet: a length field covering itself, the protocol
/// version, and the parameter block — no type byte in front.
pub open spec fn spec_startup_message(user: Seq<u8>) -> Seq<u8>
    recommends
        user.len() + 30 <= u32::MAX,
{
    spec_be32((4 + 4 + spec_startup_params(user).len()) as u32) + spec_be32(PROTOCOL_VERSION)
        + spec_startup_params(user)
}

/// Builds the parameter block of the startup packet for `user`.
pub fn prepare_handshake_params(user: &str) -> (r: Vec<u8>)
    ensures
        r@ == spec_startup_params(user.spec_bytes()),
{
    let mut params: Vec<u8> = Vec::new();
    params.push(117);
    params.push(115);
    params.push(101);
    params.push(114);
    params.push(0);
    params.extend_from_slice(user.as_bytes());
    params.push(0);
    params.push(114);
    params.push(101);
    params.push(112);
    params.push(108);
    params.push(105);
    params.push(99);
    params.push(97);
    params.push(116);
    params.push(105);
    params.push(111);
    params.push(110);
    params.push(0);
    params.push(116);
    params.push(114);
    params.push(117);
    params.push(101);
    params.push(0);
    params.push(0);
    proof {
        assert(params@ =~= spec_startup_params(user.spec_bytes()));
    }
    params
}

/// Builds the startup packet announcing `user` and a replication session.
///
/// The length bound is what the 32-bit length field of the wire format can
/// carry; the fixed parameter text takes 22 bytes and the frame 8 more.
pub fn prepare_handshake_message(user: &str) -> (r: Vec<u8>)
    requires
        user.spec_bytes().len() + 32 <= u32::MAX,
    ensures
        r@ == spec_startup_message(user.spec_bytes()),
{
    let params = prepare_handshake_params(user);
    proof {
        assert(params@.len() == user.spec_bytes().len() + 24);
    }
    let len: u32 = 4 + 4 + (params.len() as u32);
    let mut message: Vec<u8> = Vec::new();
    push_be32(&mut message, len);
    push_be32(&mut message, PROTOCOL_VERSION);
    message.extend_from_slice(params.as_slice());
    proof {
        assert(message@ =~= spec_startup_message(user.spec_bytes()));
    }
    message
}

} // verus!
