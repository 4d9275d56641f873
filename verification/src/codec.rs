//! The message codec: frames outbound messages and parses inbound ones.
//!
//! On the wire a message is `[type_byte] ++ be32(length) ++ payload`, where
//! the length field counts itself but not the type byte, so
//! `length == 4 + len(payload)`. The startup packet is the one message
//! without a leading type byte. Reading happens at the transport edge; the
//! parsing here works on the bytes the transport delivered, so a delivery
//! cut short by a closed connection shows up as a too-short input.

use vstd::prelude::*;
use vstd::slice::slice_subrange;
use vstd::string::StringExecFns;

use crate::errors::AuthenticationError;
use crate::num::{push_be32, spec_be32, spec_u32_from_be, u32_from_be, lemma_be32_roundtrip};

verus! {

/// The framed bytes of a message: the optional type byte, then a 4-byte
/// big-endian length covering itself plus the payload, then the payload.
pub open spec fn spec_frame(type_byte: Option<u8>, payload: Seq<u8>) -> Seq<u8>
    recommends
        payload.len() + 4 <= u32::MAX,
{
    let framed = spec_be32((payload.len() + 4) as u32) + payload;
    match type_byte {
        Some(t) => seq![t] + framed,
        None => framed,
    }
}

/// Frames `payload`, prepending `type_byte` when one is given.
///
/// The only failure is a payload too large for the 32-bit length field.
pub fn encode(type_byte: Option<u8>, payload: &[u8]) -> (r: Result<Vec<u8>, AuthenticationError>)
    ensures
        payload@.len() + 4 <= u32::MAX ==> (r matches Ok(m) && m@ == spec_frame(
            type_byte,
            payload@,
        )),
        payload@.len() + 4 > u32::MAX ==> r matches Err(AuthenticationError::GenericError(_)),
{
    if payload.len() as u64 > (u32::MAX as u64) - 4 {
        return Err(
            AuthenticationError::GenericError(
                String::from_str("payload too large for a 32-bit length field"),
            ),
        );
    }
    let mut msg: Vec<u8> = Vec::new();
    match type_byte {
        Some(t) => msg.push(t),
        None => (),
    }
    push_be32(&mut msg, (payload.len() as u32) + 4);
    msg.extend_from_slice(payload);
    proof {
        assert(msg@ =~= spec_frame(type_byte, payload@));
    }
    Ok(msg)
}

/// What parsing the front of the delivered bytes yields: the full message
/// (type byte, length field, body) when the delivery holds one, nothing
/// when the delivery stopped short of the header or the body.
pub open spec fn spec_decode(input: Seq<u8>) -> Option<Seq<u8>> {
    if input.len() < 5 {
        None
    } else {
        let length = spec_u32_from_be(input[1], input[2], input[3], input[4]);
        if length < 4 || input.len() < 1 + length {
            None
        } else {
            Some(input.take(1 + length as int))
        }
    }
}

/// Splits a 5-byte message header into the type byte and the length field.
///
/// A length below 4 cannot cover the length field itself and is rejected.
pub fn parse_header(header: &[u8]) -> (r: Result<(u8, u32), AuthenticationError>)
    requires
        header@.len() == 5,
    ensures
        r matches Ok((t, length)) ==> t == header@[0] && length == spec_u32_from_be(
            header@[1],
            header@[2],
            header@[3],
            header@[4],
        ) && length >= 4,
        r is Err ==> spec_u32_from_be(header@[1], header@[2], header@[3], header@[4]) < 4 && (
        r matches Err(AuthenticationError::IllegalState(_))),
{
    let length = u32_from_be(header[1], header[2], header[3], header[4]);
    if length < 4 {
        return Err(
            AuthenticationError::IllegalState(
                String::from_str("message length field below its own size"),
            ),
        );
    }
    Ok((header[0], length))
}

/// Rebuilds the full message buffer from its header and body, preserving
/// exact byte alignment for downstream signature verification.
pub fn assemble_message(header: &[u8], body: &[u8]) -> (r: Vec<u8>)
    ensures
        r@ == header@ + body@,
{
    let mut full: Vec<u8> = Vec::new();
    full.extend_from_slice(header);
    full.extend_from_slice(body);
    full
}

/// Parses one wire message from the front of `input`, the bytes the
/// transport delivered before it closed.
///
/// Returns the full reconstructed message (type byte, length field, body)
/// and the number of bytes consumed; callers re-parse fields from this
/// buffer rather than receive pre-split components. A delivery that stops
/// short of the 5-byte header or of the announced body is a closed
/// connection; a length field below 4 is structurally malformed.
pub fn decode(input: &[u8]) -> (r: Result<(Vec<u8>, usize), AuthenticationError>)
    ensures
        r matches Ok(m) ==> spec_decode(input@) == Some(m.0@) && m.1 == m.0@.len(),
        input@.len() < 5 ==> r matches Err(AuthenticationError::ConnectionFailed(_)),
        input@.len() >= 5 && spec_u32_from_be(input@[1], input@[2], input@[3], input@[4]) < 4
            ==> r matches Err(AuthenticationError::IllegalState(_)),
        input@.len() >= 5 && spec_u32_from_be(input@[1], input@[2], input@[3], input@[4]) >= 4
            && input@.len() < 1 + spec_u32_from_be(input@[1], input@[2], input@[3], input@[4])
            ==> r matches Err(AuthenticationError::ConnectionFailed(_)),
        spec_decode(input@) is Some ==> r is Ok,
{
    if input.len() < 5 {
        return Err(
            AuthenticationError::ConnectionFailed(
                String::from_str("connection closed before a full message header"),
            ),
        );
    }
    let header = slice_subrange(input, 0, 5);
    let (_type_byte, length) = match parse_header(header) {
        Ok(p) => p,
        Err(e) => {
            return Err(e);
        },
    };
    if ((input.len() as u64) - 1) < (length as u64) {
        return Err(
            AuthenticationError::ConnectionFailed(
                String::from_str("connection closed inside a message body"),
            ),
        );
    }
    let total: usize = 1 + (length as usize);
    let full = slice_subrange(input, 0, total);
    let msg = assemble_message(slice_subrange(full, 0, 5), slice_subrange(full, 5, total));
    proof {
        assert(msg@ =~= input@.take(1 + length as int));
    }
    Ok((msg, total))
}

/// The payload of a full reconstructed message: everything after the type
/// byte and the length field.
pub open spec fn spec_payload_of(message: Seq<u8>) -> Seq<u8> {
    message.skip(5)
}

/// Framing round-trip: a message framed with a type byte and then parsed
/// back yields exactly the framed bytes, whose head is the type byte and
/// whose payload is the one that was framed.
pub proof fn lemma_frame_roundtrip(type_byte: u8, payload: Seq<u8>)
    requires
        payload.len() + 4 <= u32::MAX,
    ensures
        spec_decode(spec_frame(Some(type_byte), payload)) == Some(
            spec_frame(Some(type_byte), payload),
        ),
        spec_frame(Some(type_byte), payload)[0] == type_byte,
        spec_payload_of(spec_frame(Some(type_byte), payload)) =~= payload,
{
    let length: u32 = (payload.len() + 4) as u32;
    let framed = spec_frame(Some(type_byte), payload);
    lemma_be32_roundtrip(length);
    assert(framed[1] == spec_be32(length)[0]);
    assert(framed[2] == spec_be32(length)[1]);
    assert(framed[3] == spec_be32(length)[2]);
    assert(framed[4] == spec_be32(length)[3]);
    assert(spec_u32_from_be(framed[1], framed[2], framed[3], framed[4]) == length);
    assert(framed.len() == 1 + length);
    assert(framed.take(1 + length as int) =~= framed);
}

} // verus!
