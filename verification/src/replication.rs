//! The replication command framer: builds the simple-query message that
//! starts a logical replication stream once the session is authenticated.

use vstd::prelude::*;
use vstd::string::StringSliceAdditionalSpecFns;

use crate::num::{push_be32, spec_be32};
use crate::text::spec_join_commas;

verus! {

/// The command text bytes `'START_REPLICATION SLOT '`.
pub open spec fn spec_command_head() -> Seq<u8> {
    seq![83u8, 84u8, 65u8, 82u8, 84u8, 95u8, 82u8, 69u8, 80u8, 76u8, 73u8, 67u8, 65u8, 84u8, 73u8, 79u8, 78u8, 32u8, 83u8, 76u8, 79u8, 84u8, 32u8]
}

/// The command text bytes `" 0/0 (proto_version '"`.
pub open spec fn spec_command_mid() -> Seq<u8> {
    seq![32u8, 48u8, 47u8, 48u8, 32u8, 40u8, 112u8, 114u8, 111u8, 116u8, 111u8, 95u8, 118u8, 101u8, 114u8, 115u8, 105u8, 111u8, 110u8, 32u8, 39u8]
}

/// The command text bytes `"', publication_names '"`.
pub open spec fn spec_command_pubs() -> Seq<u8> {
    seq![39u8, 44u8, 32u8, 112u8, 117u8, 98u8, 108u8, 105u8, 99u8, 97u8, 116u8, 105u8, 111u8, 110u8, 95u8, 110u8, 97u8, 109u8, 101u8, 115u8, 32u8, 39u8]
}

/// The command text bytes `"')"`.
pub open spec fn spec_command_tail() -> Seq<u8> {
    seq![39u8, 41u8]
}

/// The byte lengths of the parts, with one separator each.
pub open spec fn spec_parts_budget(parts: Seq<Seq<u8>>) -> int
    decreases parts.len(),
{
    if parts.len() == 0 {
        0
    } else {
        spec_parts_budget(parts.drop_last()) + parts.last().len() + 1
    }
}

/// A comma-joined list is no longer than its parts plus one separator
/// for each.
pub proof fn lemma_join_commas_len(parts: Seq<Seq<u8>>)
    ensures
        spec_join_commas(parts).len() <= spec_parts_budget(parts),
        spec_parts_budget(parts) >= 0,
    decreases parts.len(),
{
    if parts.len() > 0 {
        lemma_join_commas_len(parts.drop_last());
    }
}

/// The byte views of a list of names.
pub open spec fn spec_name_bytes(names: Seq<&str>) -> Seq<Seq<u8>> {
    names.map_values(|s: &str| s.spec_bytes())
}

/// The command text of the START_REPLICATION statement.
pub open spec fn spec_replication_command_text(
    slot_name: Seq<u8>,
    replication_type: Seq<u8>,
    proto_version: Seq<u8>,
    publication_names: Seq<Seq<u8>>,
) -> Seq<u8> {
    spec_command_head() + slot_name + seq![32u8] + replication_type + spec_command_mid()
        + proto_version + spec_command_pubs() + spec_join_commas(publication_names)
        + spec_command_tail()
}

/// Joins the publication names with commas.
fn join_names(names: &[&str]) -> (r: Vec<u8>)
    ensures
        r@ == spec_join_commas(spec_name_bytes(names@)),
{
    let mut joined: Vec<u8> = Vec::new();
    let n = names.len();
    let ghost parts = spec_name_bytes(names@);
    let mut i: usize = 0;
    while i < n
        invariant
            0 <= i <= n,
            n == names@.len(),
            parts == spec_name_bytes(names@),
            joined@ == spec_join_commas(parts.take(i as int)),
        decreases n - i,
    {
        proof {
            assert(parts.take(i + 1).drop_last() =~= parts.take(i as int));
            assert(parts.take(i + 1).last() == parts[i as int]);
        }
        let ghost before = joined@;
        if i > 0 {
            joined.push(44);
        }
        let name: &str = names[i];
        joined.extend_from_slice(name.as_bytes());
        proof {
            if i == 0 {
                assert(joined@ =~= parts[0]);
                assert(spec_join_commas(parts.take(1)) == parts.take(1)[0]);
            } else {
                assert(joined@ =~= spec_join_commas(parts.take(i as int)) + seq![44u8]
                    + parts[i as int]);
            }
        }
        i += 1;
    }
    proof {
        assert(parts.take(n as int) =~= parts);
    }
    joined
}

/// Frames a START_REPLICATION statement as a simple-query message: type
/// byte `'Q'`, a length field covering itself, the command text and its
/// trailing NUL, then the text and the NUL.
///
/// The length bound is what the 32-bit length field can carry, with the
/// fixed command text taking 68 bytes and the frame 6 more.
#[verifier::rlimit(30)]
pub fn start_replication_command(
    slot_name: &str,
    replication_type: &str,
    proto_version: &str,
    publication_names: &[&str],
) -> (r: Vec<u8>)
    requires
        slot_name.spec_bytes().len() + replication_type.spec_bytes().len()
            + proto_version.spec_bytes().len() + spec_parts_budget(
            spec_name_bytes(publication_names@),
        ) + 128 <= u32::MAX,
    ensures
        ({
            let text = spec_replication_command_text(
                slot_name.spec_bytes(),
                replication_type.spec_bytes(),
                proto_version.spec_bytes(),
                spec_name_bytes(publication_names@),
            );
            r@ == seq![81u8] + spec_be32((4 + text.len() + 1) as u32) + text + seq![0u8]
        }),
{
    let joined = join_names(publication_names);
    proof {
        lemma_join_commas_len(spec_name_bytes(publication_names@));
    }
    let mut payload: Vec<u8> = Vec::new();
    payload.push(83);
    payload.push(84);
    payload.push(65);
    payload.push(82);
    payload.push(84);
    payload.push(95);
    payload.push(82);
    payload.push(69);
    payload.push(80);
    payload.push(76);
    payload.push(73);
    payload.push(67);
    payload.push(65);
    payload.push(84);
    payload.push(73);
    payload.push(79);
    payload.push(78);
    payload.push(32);
    payload.push(83);
    payload.push(76);
    payload.push(79);
    payload.push(84);
    payload.push(32);
    payload.extend_from_slice(slot_name.as_bytes());
    payload.push(32);
    payload.extend_from_slice(replication_type.as_bytes());
    payload.push(32);
    payload.push(48);
    payload.push(47);
    payload.push(48);
    payload.push(32);
    payload.push(40);
    payload.push(112);
    payload.push(114);
    payload.push(111);
    payload.push(116);
    payload.push(111);
    payload.push(95);
    payload.push(118);
    payload.push(101);
    payload.push(114);
    payload.push(115);
    payload.push(105);
    payload.push(111);
    payload.push(110);
    payload.push(32);
    payload.push(39);
    payload.extend_from_slice(proto_version.as_bytes());
    payload.push(39);
    payload.push(44);
    payload.push(32);
    payload.push(112);
    payload.push(117);
    payload.push(98);
    payload.push(108);
    payload.push(105);
    payload.push(99);
    payload.push(97);
    payload.push(116);
    payload.push(105);
    payload.push(111);
    payload.push(110);
    payload.push(95);
    payload.push(110);
    payload.push(97);
    payload.push(109);
    payload.push(101);
    payload.push(115);
    payload.push(32);
    payload.push(39);
    payload.extend_from_slice(joined.as_slice());
    payload.push(39);
    payload.push(41);
    proof {
        assert(payload@ =~= spec_replication_command_text(
            slot_name.spec_bytes(),
            replication_type.spec_bytes(),
            proto_version.spec_bytes(),
            spec_name_bytes(publication_names@),
        ));
    }
    let mut command: Vec<u8> = Vec::new();
    command.push(81);
    let length: u32 = 4 + (payload.len() as u32) + 1;
    push_be32(&mut command, length);
    command.extend_from_slice(payload.as_slice());
    command.push(0);
    proof {
        assert(command@ =~= seq![81u8] + spec_be32(length) + payload@ + seq![0u8]);
    }
    command
}

} // verus!
