//! Parsers for the server's authentication messages: the mechanism list of
//! an AuthenticationSASL message, the challenge parameters of an
//! AuthenticationSASLContinue message, and the signature field of the
//! server-final message.
//!
//! Callers hand in the full reconstructed message buffer (type byte,
//! length field, body) exactly as the codec returned it.

use vstd::prelude::*;
use vstd::slice::slice_subrange;
use vstd::string::StringExecFns;
use vstd::utf8::{decode_utf8, encode_utf8, valid_utf8};

use crate::crypto::spec_base64_decode;
use crate::crypto::base64_decode;
use crate::num::{
    parse_u32_dec, spec_all_dec_digits, spec_dec_value, spec_u32_from_be, u32_from_be,
};
use crate::rsi::Rsi;
use crate::text::{
    bytes_eq, bytes_to_utfstring, join_parts_commas, spec_filter_nonempty, spec_join_commas,
    spec_split, spec_views, split_bytes, filter_nonempty,
};

verus! {

/// The authentication-request code announcing a SASL mechanism list.
pub const AUTH_CODE_SASL: u32 = 10;

/// The authentication-request code carrying a SASL challenge.
pub const AUTH_CODE_SASL_CONTINUE: u32 = 11;

/// The byte string `"SCRAM-SHA-256"`.
pub open spec fn spec_scram_mechanism_bytes() -> Seq<u8> {
    seq![83u8, 67u8, 82u8, 65u8, 77u8, 45u8, 83u8, 72u8, 65u8, 45u8, 50u8, 53u8, 54u8]
}

/// The byte string `"SCRAM-SHA-256"` as a vector.
fn scram_mechanism_bytes() -> (r: Vec<u8>)
    ensures
        r@ == spec_scram_mechanism_bytes(),
{
    let mut name: Vec<u8> = Vec::new();
    name.push(83);
    name.push(67);
    name.push(82);
    name.push(65);
    name.push(77);
    name.push(45);
    name.push(83);
    name.push(72);
    name.push(65);
    name.push(45);
    name.push(50);
    name.push(53);
    name.push(54);
    proof {
        assert(name@ =~= spec_scram_mechanism_bytes());
    }
    name
}

/// The type byte of a full message, read as a character.
pub fn read_message_type(by: u8) -> (r: char)
    ensures
        r == by as char,
{
    by as char
}

/// The length field of a message, read from its four big-endian bytes.
pub fn read_message_length(v: &[u8]) -> (r: u32)
    requires
        v@.len() >= 4,
    ensures
        r == spec_u32_from_be(v@[0], v@[1], v@[2], v@[3]),
{
    u32_from_be(v[0], v[1], v[2], v[3])
}

/// The authentication-request code of a message, read as four consecutive
/// big-endian bytes.
pub fn read_authentication_code(sl: &[u8]) -> (r: u32)
    requires
        sl@.len() >= 4,
    ensures
        r == spec_u32_from_be(sl@[0], sl@[1], sl@[2], sl@[3]),
{
    u32_from_be(sl[0], sl[1], sl[2], sl[3])
}

/// The non-empty NUL-delimited parts of an authentication payload.
pub open spec fn spec_payload_parts(payload: Seq<u8>) -> Seq<Seq<u8>> {
    spec_filter_nonempty(spec_split(payload, 0))
}

/// Splits an authentication payload at NUL bytes, dropping empty parts.
pub fn payload_parts(payload: &[u8]) -> (r: Vec<Vec<u8>>)
    ensures
        spec_views(r@) == spec_payload_parts(payload@),
{
    filter_nonempty(split_bytes(payload, 0))
}

/// Whether the NUL-delimited mechanism list offers `"SCRAM-SHA-256"`.
pub open spec fn spec_offers_scram(payload: Seq<u8>) -> bool {
    spec_payload_parts(payload).contains(spec_scram_mechanism_bytes())
}

/// The challenge text carried by an AuthenticationSASLContinue payload:
/// its non-empty NUL-delimited parts joined with commas, decoded as
/// UTF-8 (the empty string when that decoding fails).
pub open spec fn spec_challenge_text(payload: Seq<u8>) -> Seq<char> {
    let joined = spec_join_commas(spec_payload_parts(payload));
    if valid_utf8(joined) {
        decode_utf8(joined)
    } else {
        Seq::<char>::empty()
    }
}

/// What reading an authentication payload yields: for an
/// AuthenticationSASL request (code 10), `"SCRAM-SHA-256"` when the list
/// offers it and the `"UNSUPPORTED_AUTHENTICATION_MECHANISM"` marker when
/// not; for an AuthenticationSASLContinue (code 11), the challenge text;
/// for any other code, the marker.
pub open spec fn spec_mechanism_text(authentication_code: u32, payload: Seq<u8>) -> Seq<char> {
    if authentication_code == AUTH_CODE_SASL {
        if spec_offers_scram(payload) {
            "SCRAM-SHA-256"@
        } else {
            "UNSUPPORTED_AUTHENTICATION_MECHANISM"@
        }
    } else if authentication_code == AUTH_CODE_SASL_CONTINUE {
        spec_challenge_text(payload)
    } else {
        "UNSUPPORTED_AUTHENTICATION_MECHANISM"@
    }
}

/// Reads an authentication payload under its code: selects the mechanism
/// out of a SASL request, or reassembles the challenge text out of a SASL
/// continuation.
pub fn read_authentication_mechanism(authentication_code: u32, bytes: &[u8]) -> (r: String)
    ensures
        r@ == spec_mechanism_text(authentication_code, bytes@),
{
    if authentication_code == AUTH_CODE_SASL_CONTINUE {
        let parts = payload_parts(bytes);
        let joined = join_parts_commas(&parts);
        return text_of_bytes(&joined);
    }
    if authentication_code != AUTH_CODE_SASL {
        return String::from_str("UNSUPPORTED_AUTHENTICATION_MECHANISM");
    }
    let mechanisms = payload_parts(bytes);
    let wanted = scram_mechanism_bytes();
    let n = mechanisms.len();
    let mut i: usize = 0;
    while i < n
        invariant
            n == mechanisms@.len(),
            0 <= i <= n,
            wanted@ == spec_scram_mechanism_bytes(),
            authentication_code == AUTH_CODE_SASL,
            spec_views(mechanisms@) == spec_payload_parts(bytes@),
            forall|j: int| 0 <= j < i ==> spec_views(mechanisms@)[j] != wanted@,
        decreases n - i,
    {
        if bytes_eq(mechanisms[i].as_slice(), wanted.as_slice()) {
            proof {
                assert(spec_payload_parts(bytes@)[i as int] == spec_scram_mechanism_bytes());
                assert(spec_offers_scram(bytes@));
            }
            return String::from_str("SCRAM-SHA-256");
        }
        i += 1;
    }
    proof {
        assert(!spec_offers_scram(bytes@)) by {
            if spec_payload_parts(bytes@).contains(spec_scram_mechanism_bytes()) {
                let j = choose|j: int|
                    0 <= j < spec_payload_parts(bytes@).len() && spec_payload_parts(bytes@)[j]
                        == spec_scram_mechanism_bytes();
                assert(spec_views(mechanisms@)[j] == wanted@);
            }
        }
    }
    String::from_str("UNSUPPORTED_AUTHENTICATION_MECHANISM")
}

/// Reads the mechanism out of a full server handshake response: the
/// authentication code sits in the four bytes after the header, the
/// mechanism list in the rest.
pub fn extract_authentication_mechanism(m: &[u8]) -> (r: String)
    requires
        m@.len() >= 9,
    ensures
        r@ == spec_mechanism_text(spec_u32_from_be(m@[5], m@[6], m@[7], m@[8]), m@.skip(9)),
{
    let authentication_code = read_authentication_code(slice_subrange(m, 5, 9));
    read_authentication_mechanism(authentication_code, slice_subrange(m, 9, m.len()))
}

/// Reads the mechanism out of a full server handshake response.
pub fn process_server_handshake_response(m: &[u8]) -> (r: String)
    requires
        m@.len() >= 9,
    ensures
        r@ == spec_mechanism_text(spec_u32_from_be(m@[5], m@[6], m@[7], m@[8]), m@.skip(9)),
{
    extract_authentication_mechanism(m)
}

/// Whether a field begins with the two bytes `b0 b1` (a `x=` prefix).
pub open spec fn spec_has_prefix2(field: Seq<u8>, b0: u8, b1: u8) -> bool {
    field.len() >= 2 && field[0] == b0 && field[1] == b1
}

/// The concatenated values of every `r=` field, in order.
pub open spec fn spec_rsi_nonce_bytes(fields: Seq<Seq<u8>>) -> Seq<u8>
    decreases fields.len(),
{
    if fields.len() == 0 {
        Seq::<u8>::empty()
    } else {
        let rest = spec_rsi_nonce_bytes(fields.drop_last());
        if spec_has_prefix2(fields.last(), 114, 61) {
            rest + fields.last().skip(2)
        } else {
            rest
        }
    }
}

/// The concatenated values of every `s=` field, in order.
pub open spec fn spec_rsi_salt_bytes(fields: Seq<Seq<u8>>) -> Seq<u8>
    decreases fields.len(),
{
    if fields.len() == 0 {
        Seq::<u8>::empty()
    } else {
        let rest = spec_rsi_salt_bytes(fields.drop_last());
        if spec_has_prefix2(fields.last(), 115, 61) {
            rest + fields.last().skip(2)
        } else {
            rest
        }
    }
}

/// The count an `i=` value denotes: its decimal reading when it is a
/// well-formed 32-bit number, zero otherwise.
pub open spec fn spec_iter_value(value: Seq<u8>) -> u32 {
    if value.len() > 0 && spec_all_dec_digits(value) && spec_dec_value(value) <= u32::MAX {
        spec_dec_value(value) as u32
    } else {
        0
    }
}

/// The iteration count of the challenge: the value of the last `i=`
/// field, zero when there is none.
pub open spec fn spec_rsi_iter(fields: Seq<Seq<u8>>) -> u32
    decreases fields.len(),
{
    if fields.len() == 0 {
        0u32
    } else if spec_has_prefix2(fields.last(), 105, 61) {
        spec_iter_value(fields.last().skip(2))
    } else {
        spec_rsi_iter(fields.drop_last())
    }
}

/// The nonce text of the challenge: the decoded `r=` bytes when they are
/// valid UTF-8, the empty string otherwise.
pub open spec fn spec_rsi_nonce_text(fields: Seq<Seq<u8>>) -> Seq<char> {
    if valid_utf8(spec_rsi_nonce_bytes(fields)) {
        decode_utf8(spec_rsi_nonce_bytes(fields))
    } else {
        Seq::<char>::empty()
    }
}

/// The salt text of the challenge: the decoded `s=` bytes when they are
/// valid UTF-8, the empty string otherwise.
pub open spec fn spec_rsi_salt_text(fields: Seq<Seq<u8>>) -> Seq<char> {
    if valid_utf8(spec_rsi_salt_bytes(fields)) {
        decode_utf8(spec_rsi_salt_bytes(fields))
    } else {
        Seq::<char>::empty()
    }
}

/// Turns protocol value bytes into text: the decoded string when the
/// bytes are valid UTF-8, the empty string otherwise (so that later
/// steps fail deterministically).
fn text_of_bytes(bytes: &Vec<u8>) -> (r: String)
    ensures
        valid_utf8(bytes@) ==> r@ == decode_utf8(bytes@) && encode_utf8(r@) == bytes@,
        !valid_utf8(bytes@) ==> r@ == Seq::<char>::empty(),
        bytes@.len() == 0 ==> r@.len() == 0,
{
    if bytes.len() == 0 {
        let empty = String::new();
        proof {
            if valid_utf8(bytes@) {
                assert(bytes@ =~= Seq::<u8>::empty());
                assert(decode_utf8(bytes@) =~= Seq::<char>::empty());
                assert(encode_utf8(empty@) =~= bytes@);
            }
        }
        return empty;
    }
    match bytes_to_utfstring(bytes.as_slice()) {
        Ok(s) => s,
        Err(_) => String::new(),
    }
}

/// The comma-separated fields of a challenge payload: the non-empty
/// NUL-delimited parts joined with commas, split at every comma.
pub open spec fn spec_challenge_fields(payload: Seq<u8>) -> Seq<Seq<u8>> {
    spec_split(spec_join_commas(spec_payload_parts(payload)), 44)
}

/// Parses the server-first response into the challenge parameters.
///
/// The message must be an AuthenticationSASLContinue (code 11); under any
/// other code every parameter stays empty (or zero), which makes the next
/// step fail deterministically. Under code 11 the payload is read as a
/// comma-separated field list; `r=` fields feed the nonce, `s=` fields the
/// salt, and the last `i=` field the iteration count. A missing field
/// leaves its slot empty (or zero) rather than failing here.
pub fn process_server_first_response(m: &[u8]) -> (r: Rsi)
    requires
        m@.len() >= 9,
    ensures
        ({
            let code = spec_u32_from_be(m@[5], m@[6], m@[7], m@[8]);
            let fields = spec_challenge_fields(m@.skip(9));
            &&& (code == AUTH_CODE_SASL_CONTINUE ==> {
                &&& r.nonce@ == spec_rsi_nonce_text(fields)
                &&& r.salt@ == spec_rsi_salt_text(fields)
                &&& r.iter_count == spec_rsi_iter(fields)
                &&& (spec_rsi_nonce_bytes(fields).len() == 0 ==> r.nonce@.len() == 0)
            })
            &&& (code != AUTH_CODE_SASL_CONTINUE ==> r.nonce@ == Seq::<char>::empty() && r.salt@
                == Seq::<char>::empty() && r.iter_count == 0)
        }),
{
    let code = read_authentication_code(slice_subrange(m, 5, 9));
    if code != AUTH_CODE_SASL_CONTINUE {
        return Rsi { nonce: String::new(), salt: String::new(), iter_count: 0 };
    }
    let parts = payload_parts(slice_subrange(m, 9, m.len()));
    let joined = join_parts_commas(&parts);
    let fields = split_bytes(joined.as_slice(), 44);
    let ghost fv = spec_views(fields@);
    let mut nonce_bytes: Vec<u8> = Vec::new();
    let mut salt_bytes: Vec<u8> = Vec::new();
    let mut iter_count: u32 = 0;
    let n = fields.len();
    let mut i: usize = 0;
    while i < n
        invariant
            n == fields@.len(),
            0 <= i <= n,
            fv == spec_views(fields@),
            nonce_bytes@ == spec_rsi_nonce_bytes(fv.take(i as int)),
            salt_bytes@ == spec_rsi_salt_bytes(fv.take(i as int)),
            iter_count == spec_rsi_iter(fv.take(i as int)),
        decreases n - i,
    {
        proof {
            assert(fv.take(i + 1).drop_last() =~= fv.take(i as int));
            assert(fv.take(i + 1).last() == fv[i as int]);
        }
        let field = &fields[i];
        if field.len() >= 2 && field[0] == 114 && field[1] == 61 {
            let value = slice_subrange(field.as_slice(), 2, field.len());
            nonce_bytes.extend_from_slice(value);
            proof {
                assert(nonce_bytes@ =~= spec_rsi_nonce_bytes(fv.take(i + 1)));
            }
        } else if field.len() >= 2 && field[0] == 115 && field[1] == 61 {
            let value = slice_subrange(field.as_slice(), 2, field.len());
            salt_bytes.extend_from_slice(value);
            proof {
                assert(salt_bytes@ =~= spec_rsi_salt_bytes(fv.take(i + 1)));
            }
        } else if field.len() >= 2 && field[0] == 105 && field[1] == 61 {
            let value = slice_subrange(field.as_slice(), 2, field.len());
            iter_count = match parse_u32_dec(value) {
                Some(count) => count,
                None => 0,
            };
        }
        i += 1;
    }
    proof {
        assert(fv.take(n as int) =~= fv);
    }
    let nonce = text_of_bytes(&nonce_bytes);
    let salt = text_of_bytes(&salt_bytes);
    Rsi { nonce, salt, iter_count }
}

/// The position of the first `v=` marker at or after `from`, if any.
pub open spec fn spec_marker_pos(payload: Seq<u8>, from: int) -> Option<int>
    decreases payload.len() - from,
{
    if from < 0 || from + 1 >= payload.len() {
        None
    } else if payload[from] == 118 && payload[from + 1] == 61 {
        Some(from)
    } else {
        spec_marker_pos(payload, from + 1)
    }
}

/// The end of a signature value starting at `from`: the first comma or
/// NUL at or after it, or the end of the payload.
pub open spec fn spec_value_end(payload: Seq<u8>, from: int) -> int
    decreases payload.len() - from,
{
    if from < 0 || from >= payload.len() {
        payload.len() as int
    } else if payload[from] == 44 || payload[from] == 0 {
        from
    } else {
        spec_value_end(payload, from + 1)
    }
}

/// The raw bytes of the `v=` value in a server-final payload, if the
/// marker is present.
pub open spec fn spec_signature_field(payload: Seq<u8>) -> Option<Seq<u8>> {
    match spec_marker_pos(payload, 0) {
        Some(pos) => Some(payload.subrange(pos + 2, spec_value_end(payload, pos + 2))),
        None => None,
    }
}

/// Extracts and base64-decodes the `v=` server-signature field of a full
/// server-final message.
///
/// Fails on a message too short to carry a payload, a payload without the
/// `v=` marker, a value that is not UTF-8 text, and text that is not
/// valid base64 — each with a descriptive message.
pub fn extract_server_signature_bytes(full_message: &[u8]) -> (r: Result<Vec<u8>, String>)
    ensures
        full_message@.len() >= 9 ==> ({
            let payload = full_message@.skip(9);
            match spec_signature_field(payload) {
                Some(value) => {
                    &&& (r is Ok <==> valid_utf8(value) && spec_base64_decode(
                        decode_utf8(value),
                    ) is Some)
                    &&& (r matches Ok(sig) ==> sig@ == spec_base64_decode(
                        decode_utf8(value),
                    ).unwrap())
                },
                None => r is Err,
            }
        }),
        full_message@.len() < 9 ==> r is Err,
{
    if full_message.len() < 9 {
        return Err(String::from_str("message too short"));
    }
    let payload = slice_subrange(full_message, 9, full_message.len());
    let n = payload.len();
    let ghost p = payload@;
    let mut pos: usize = 0;
    let mut found: bool = false;
    while !found && n - pos > 1
        invariant
            n == p.len(),
            p == payload@,
            0 <= pos <= n,
            !found ==> spec_marker_pos(p, 0) == spec_marker_pos(p, pos as int),
            found ==> pos + 1 < n && spec_marker_pos(p, 0) == Some(pos as int),
        decreases n - pos, (if found { 0int } else { 1int }),
    {
        if payload[pos] == 118 && payload[pos + 1] == 61 {
            found = true;
        } else {
            pos += 1;
        }
    }
    if !found {
        proof {
            assert(spec_marker_pos(p, pos as int) is None);
        }
        return Err(String::from_str("server final message: v= not found"));
    }
    let start: usize = pos + 2;
    let mut end: usize = start;
    while end < n && payload[end] != 44 && payload[end] != 0
        invariant
            n == p.len(),
            p == payload@,
            start <= end <= n,
            spec_value_end(p, start as int) == spec_value_end(p, end as int),
        decreases n - end,
    {
        end += 1;
    }
    proof {
        assert(spec_value_end(p, end as int) == end as int);
    }
    let sig_b64 = slice_subrange(payload, start, end);
    let sig_text = match bytes_to_utfstring(sig_b64) {
        Ok(text) => text,
        Err(_) => {
            return Err(String::from_str("server signature not valid UTF-8"));
        },
    };
    match base64_decode(sig_text.as_str()) {
        Ok(sig) => Ok(sig),
        Err(_) => Err(String::from_str("invalid base64 in server signature")),
    }
}

} // verus!
