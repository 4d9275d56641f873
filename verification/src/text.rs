//! Byte-string comparison and UTF-8 conversion helpers shared by the
//! message parsers.

use vstd::prelude::*;
use vstd::string::StringSliceAdditionalSpecFns;
use vstd::string::StrSliceExecFns;
use vstd::utf8::{decode_utf8, encode_utf8, valid_utf8};

verus! {

/// Compares two byte strings for equality, element by element.
pub fn bytes_eq(a: &[u8], b: &[u8]) -> (r: bool)
    ensures
        r <==> a@ == b@,
{
    if a.len() != b.len() {
        return false;
    }
    let n = a.len();
    let mut i: usize = 0;
    while i < n
        invariant
            n == a@.len() == b@.len(),
            0 <= i <= n,
            forall|j: int| 0 <= j < i ==> a@[j] == b@[j],
        decreases n - i,
    {
        if a[i] != b[i] {
            return false;
        }
        i += 1;
    }
    proof {
        assert(a@ =~= b@);
    }
    true
}

/// The views of a sequence of byte vectors.
pub open spec fn spec_views(parts: Seq<Vec<u8>>) -> Seq<Seq<u8>> {
    parts.map_values(|v: Vec<u8>| v@)
}

/// Splitting `s` at every occurrence of `sep`: the parts between
/// separators, in order, empty parts included. A string without
/// separators is one part; every separator ends the part before it.
pub open spec fn spec_split(s: Seq<u8>, sep: u8) -> Seq<Seq<u8>>
    decreases s.len(),
{
    if s.len() == 0 {
        seq![Seq::<u8>::empty()]
    } else if s.last() == sep {
        spec_split(s.drop_last(), sep).push(Seq::<u8>::empty())
    } else {
        let rest = spec_split(s.drop_last(), sep);
        rest.update(rest.len() - 1, rest.last().push(s.last()))
    }
}

/// A split always yields at least one part.
pub proof fn lemma_split_len(s: Seq<u8>, sep: u8)
    ensures
        spec_split(s, sep).len() >= 1,
    decreases s.len(),
{
    if s.len() > 0 {
        lemma_split_len(s.drop_last(), sep);
    }
}

/// Splits `s` at every occurrence of `sep`, keeping empty parts.
pub fn split_bytes(s: &[u8], sep: u8) -> (r: Vec<Vec<u8>>)
    ensures
        spec_views(r@) == spec_split(s@, sep),
{
    let mut done: Vec<Vec<u8>> = Vec::new();
    let mut cur: Vec<u8> = Vec::new();
    let n = s.len();
    let mut i: usize = 0;
    while i < n
        invariant
            0 <= i <= n,
            n == s@.len(),
            spec_views(done@).push(cur@) =~= spec_split(s@.take(i as int), sep),
        decreases n - i,
    {
        proof {
            lemma_split_len(s@.take(i as int), sep);
            assert(s@.take(i + 1).drop_last() =~= s@.take(i as int));
            assert(s@.take(i + 1).last() == s@[i as int]);
        }
        let ghost prev_done = done@;
        let ghost prev_cur = cur@;
        if s[i] == sep {
            done.push(cur);
            cur = Vec::new();
            proof {
                assert(spec_views(done@).push(cur@) =~= spec_views(prev_done).push(
                    prev_cur,
                ).push(Seq::<u8>::empty()));
            }
        } else {
            cur.push(s[i]);
            proof {
                let rest = spec_split(s@.take(i as int), sep);
                assert(spec_views(done@).push(cur@) =~= rest.update(
                    rest.len() - 1,
                    rest.last().push(s@[i as int]),
                ));
            }
        }
        i += 1;
    }
    proof {
        assert(s@.take(n as int) =~= s@);
    }
    done.push(cur);
    done
}

/// The parts of `parts` that are not empty, in order.
pub open spec fn spec_filter_nonempty(parts: Seq<Seq<u8>>) -> Seq<Seq<u8>>
    decreases parts.len(),
{
    if parts.len() == 0 {
        Seq::<Seq<u8>>::empty()
    } else {
        let rest = spec_filter_nonempty(parts.drop_last());
        if parts.last().len() > 0 {
            rest.push(parts.last())
        } else {
            rest
        }
    }
}

/// Filtering empties out of a concatenation works piecewise.
pub proof fn lemma_filter_nonempty_append(a: Seq<Seq<u8>>, b: Seq<Seq<u8>>)
    ensures
        spec_filter_nonempty(a + b) == spec_filter_nonempty(a) + spec_filter_nonempty(b),
    decreases b.len(),
{
    if b.len() == 0 {
        assert(a + b =~= a);
        assert(spec_filter_nonempty(a) + spec_filter_nonempty(b) =~= spec_filter_nonempty(a));
    } else {
        assert((a + b).drop_last() =~= a + b.drop_last());
        assert((a + b).last() == b.last());
        lemma_filter_nonempty_append(a, b.drop_last());
        if b.last().len() > 0 {
            assert(spec_filter_nonempty(a) + spec_filter_nonempty(b) =~= (spec_filter_nonempty(a)
                + spec_filter_nonempty(b.drop_last())).push(b.last()));
        } else {
            assert(spec_filter_nonempty(a) + spec_filter_nonempty(b) =~= spec_filter_nonempty(a)
                + spec_filter_nonempty(b.drop_last()));
        }
    }
}

/// Drops the empty parts of a split.
pub fn filter_nonempty(parts: Vec<Vec<u8>>) -> (r: Vec<Vec<u8>>)
    ensures
        spec_views(r@) == spec_filter_nonempty(spec_views(parts@)),
{
    let ghost all = spec_views(parts@);
    let mut rest = parts;
    let mut out: Vec<Vec<u8>> = Vec::new();
    while rest.len() > 0
        invariant
            spec_filter_nonempty(all) =~= spec_views(out@) + spec_filter_nonempty(
                spec_views(rest@),
            ),
        decreases rest.len(),
    {
        let ghost prev_rest = rest@;
        let ghost prev_out = out@;
        let part = rest.remove(0);
        proof {
            assert(spec_views(prev_rest) =~= seq![part@] + spec_views(rest@));
            lemma_filter_nonempty_append(seq![part@], spec_views(rest@));
            assert(seq![part@].drop_last() =~= Seq::<Seq<u8>>::empty());
            assert(spec_filter_nonempty(Seq::<Seq<u8>>::empty()) == Seq::<Seq<u8>>::empty());
        }
        if part.len() > 0 {
            out.push(part);
            proof {
                assert(spec_filter_nonempty(seq![part@]) =~= seq![part@]);
                assert(spec_views(out@) =~= spec_views(prev_out).push(part@));
                assert(spec_views(prev_out) + (seq![part@] + spec_filter_nonempty(
                    spec_views(rest@),
                )) =~= spec_views(out@) + spec_filter_nonempty(spec_views(rest@)));
            }
        } else {
            proof {
                assert(spec_filter_nonempty(seq![part@]) =~= Seq::<Seq<u8>>::empty());
                assert(spec_views(prev_out) + (Seq::<Seq<u8>>::empty() + spec_filter_nonempty(
                    spec_views(rest@),
                )) =~= spec_views(out@) + spec_filter_nonempty(spec_views(rest@)));
            }
        }
    }
    proof {
        assert(spec_views(rest@).len() == 0);
        assert(spec_views(rest@) =~= Seq::<Seq<u8>>::empty());
        assert(spec_filter_nonempty(all) =~= spec_views(out@));
    }
    out
}

/// The parts joined with a comma between each pair.
pub open spec fn spec_join_commas(parts: Seq<Seq<u8>>) -> Seq<u8>
    decreases parts.len(),
{
    if parts.len() == 0 {
        Seq::<u8>::empty()
    } else if parts.len() == 1 {
        parts[0]
    } else {
        spec_join_commas(parts.drop_last()) + seq![44u8] + parts.last()
    }
}

/// Joins byte parts with commas.
pub fn join_parts_commas(parts: &Vec<Vec<u8>>) -> (r: Vec<u8>)
    ensures
        r@ == spec_join_commas(spec_views(parts@)),
{
    let mut joined: Vec<u8> = Vec::new();
    let n = parts.len();
    let ghost views = spec_views(parts@);
    let mut i: usize = 0;
    while i < n
        invariant
            0 <= i <= n,
            n == parts@.len(),
            views == spec_views(parts@),
            joined@ == spec_join_commas(views.take(i as int)),
        decreases n - i,
    {
        proof {
            assert(views.take(i + 1).drop_last() =~= views.take(i as int));
            assert(views.take(i + 1).last() == views[i as int]);
        }
        if i > 0 {
            joined.push(44);
        }
        joined.extend_from_slice(parts[i].as_slice());
        proof {
            if i == 0 {
                assert(joined@ =~= views[0]);
                assert(spec_join_commas(views.take(1)) == views.take(1)[0]);
            } else {
                assert(joined@ =~= spec_join_commas(views.take(i as int)) + seq![44u8]
                    + views[i as int]);
            }
        }
        i += 1;
    }
    proof {
        assert(views.take(n as int) =~= views);
    }
    joined
}

/// Compares two strings for equality, character by character.
pub fn str_eq(a: &str, b: &str) -> (r: bool)
    ensures
        r <==> a@ == b@,
{
    let n = a.unicode_len();
    if n != b.unicode_len() {
        return false;
    }
    let mut i: usize = 0;
    while i < n
        invariant
            n == a@.len() == b@.len(),
            0 <= i <= n,
            forall|j: int| 0 <= j < i ==> a@[j] == b@[j],
        decreases n - i,
    {
        if a.get_char(i) != b.get_char(i) {
            return false;
        }
        i += 1;
    }
    proof {
        assert(a@ =~= b@);
    }
    true
}

/// The error std reports for bytes that are not valid UTF-8.
#[verifier::external_type_specification]
#[verifier::external_body]
pub struct ExUtf8Error(core::str::Utf8Error);

/// Relies on str::from_utf8: succeeds exactly on valid UTF-8, and the
/// resulting string borrows the input bytes unchanged.
pub assume_specification<'a>[ core::str::from_utf8 ](v: &'a [u8]) -> (r: Result<
    &'a str,
    core::str::Utf8Error,
>)
    ensures
        r is Ok <==> valid_utf8(v@),
        r is Ok ==> r.unwrap().spec_bytes() == v@ && r.unwrap()@ == decode_utf8(v@),
;

/// Decodes bytes into an owned string, reporting the bytes that are not
/// valid UTF-8.
pub fn bytes_to_utfstring(bytes: &[u8]) -> (r: Result<String, core::str::Utf8Error>)
    ensures
        r is Ok <==> valid_utf8(bytes@),
        r is Ok ==> r.unwrap()@ == decode_utf8(bytes@) && encode_utf8(r.unwrap()@) == bytes@,
{
    match core::str::from_utf8(bytes) {
        Ok(s) => Ok(s.to_owned()),
        Err(e) => Err(e),
    }
}

} // verus!
