//! Integer helpers for the wire format: big-endian 32-bit fields, decimal
//! text for the iteration count, and byte-wise XOR for proof construction.

use vstd::prelude::*;
use vstd::string::StringExecFns;

verus! {

/// The four big-endian bytes of a 32-bit value, most significant first.
pub open spec fn spec_be32(n: u32) -> Seq<u8> {
    seq![(n >> 24) as u8, (n >> 16) as u8, (n >> 8) as u8, n as u8]
}

/// The 32-bit value read from four big-endian bytes.
pub open spec fn spec_u32_from_be(b0: u8, b1: u8, b2: u8, b3: u8) -> u32 {
    ((b0 as u32) << 24) | ((b1 as u32) << 16) | ((b2 as u32) << 8) | (b3 as u32)
}

/// Writing a 32-bit value big-endian and reading it back returns the value.
pub proof fn lemma_be32_roundtrip(n: u32)
    ensures
        spec_u32_from_be(
            spec_be32(n)[0],
            spec_be32(n)[1],
            spec_be32(n)[2],
            spec_be32(n)[3],
        ) == n,
{
    assert((((n >> 24) as u8 as u32) << 24) | (((n >> 16) as u8 as u32) << 16) | (((n >> 8) as u8
        as u32) << 8) | (n as u8 as u32) == n) by (bit_vector);
}

/// Appends the four big-endian bytes of `n` to `out`.
pub fn push_be32(out: &mut Vec<u8>, n: u32)
    ensures
        final(out)@ == old(out)@ + spec_be32(n),
{
    out.push((n >> 24) as u8);
    out.push((n >> 16) as u8);
    out.push((n >> 8) as u8);
    out.push(n as u8);
    assert(out@ =~= old(out)@ + spec_be32(n));
}

/// Reads a 32-bit big-endian value out of four bytes.
pub fn u32_from_be(b0: u8, b1: u8, b2: u8, b3: u8) -> (r: u32)
    ensures
        r == spec_u32_from_be(b0, b1, b2, b3),
{
    ((b0 as u32) << 24) | ((b1 as u32) << 16) | ((b2 as u32) << 8) | (b3 as u32)
}

/// The decimal digit characters of `n`, most significant first, with no
/// leading zeros (a lone `'0'` for zero).
pub open spec fn spec_dec_chars(n: int) -> Seq<char>
    decreases n,
{
    if n < 10 {
        seq![spec_dec_digit(n)]
    } else {
        spec_dec_chars(n / 10).push(spec_dec_digit(n % 10))
    }
}

/// The character for one decimal digit.
pub open spec fn spec_dec_digit(d: int) -> char {
    if d == 0 {
        '0'
    } else if d == 1 {
        '1'
    } else if d == 2 {
        '2'
    } else if d == 3 {
        '3'
    } else if d == 4 {
        '4'
    } else if d == 5 {
        '5'
    } else if d == 6 {
        '6'
    } else if d == 7 {
        '7'
    } else if d == 8 {
        '8'
    } else {
        '9'
    }
}

/// The string for one decimal digit.
fn dec_digit_str(d: u32) -> (r: &'static str)
    requires
        d < 10,
    ensures
        r@ == seq![spec_dec_digit(d as int)],
{
    proof {
        reveal_strlit("0");
        reveal_strlit("1");
        reveal_strlit("2");
        reveal_strlit("3");
        reveal_strlit("4");
        reveal_strlit("5");
        reveal_strlit("6");
        reveal_strlit("7");
        reveal_strlit("8");
        reveal_strlit("9");
    }
    let r = if d == 0 {
        "0"
    } else if d == 1 {
        "1"
    } else if d == 2 {
        "2"
    } else if d == 3 {
        "3"
    } else if d == 4 {
        "4"
    } else if d == 5 {
        "5"
    } else if d == 6 {
        "6"
    } else if d == 7 {
        "7"
    } else if d == 8 {
        "8"
    } else {
        "9"
    };
    assert(r@ =~= seq![spec_dec_digit(d as int)]);
    r
}

/// Renders `n` in decimal, most significant digit first.
pub fn u32_to_dec_string(n: u32) -> (r: String)
    ensures
        r@ == spec_dec_chars(n as int),
    decreases n,
{
    if n < 10 {
        String::from_str(dec_digit_str(n))
    } else {
        proof {
            assert(n / 10 < n) by (nonlinear_arith)
                requires
                    n >= 10,
            ;
        }
        let high = u32_to_dec_string(n / 10);
        high.concat(dec_digit_str(n % 10))
    }
}

/// The value of a run of decimal digit bytes, read most significant first.
pub open spec fn spec_dec_value(s: Seq<u8>) -> int
    decreases s.len(),
{
    if s.len() == 0 {
        0
    } else {
        spec_dec_value(s.take(s.len() - 1)) * 10 + (s.last() - 48)
    }
}

/// Whether every byte of `s` is an ASCII decimal digit.
pub open spec fn spec_all_dec_digits(s: Seq<u8>) -> bool {
    forall|i: int| 0 <= i < s.len() ==> 48 <= #[trigger] s[i] <= 57
}

/// Parses a run of ASCII decimal digit bytes into a 32-bit count.
///
/// Returns `None` when `s` is empty, holds a non-digit byte, or encodes a
/// value that does not fit in 32 bits.
pub fn parse_u32_dec(s: &[u8]) -> (r: Option<u32>)
    ensures
        r is Some <==> s@.len() > 0 && spec_all_dec_digits(s@) && spec_dec_value(s@) <= u32::MAX,
        r is Some ==> r.unwrap() == spec_dec_value(s@),
{
    let n = s.len();
    if n == 0 {
        return None;
    }
    let mut acc: u64 = 0;
    let mut i: usize = 0;
    while i < n
        invariant
            0 < n == s@.len(),
            0 <= i <= n,
            spec_all_dec_digits(s@.take(i as int)),
            acc == spec_dec_value(s@.take(i as int)),
            acc <= u32::MAX,
        decreases n - i,
    {
        let b = s[i];
        if b < 48 || b > 57 {
            proof {
                assert(!spec_all_dec_digits(s@));
            }
            return None;
        }
        acc = acc * 10 + ((b - 48) as u64);
        proof {
            assert(s@.take(i + 1).take(i as int) =~= s@.take(i as int));
            assert(s@.take(i + 1).last() == s@[i as int]);
        }
        if acc > 0xFFFF_FFFF {
            proof {
                if spec_all_dec_digits(s@) {
                    lemma_dec_value_grows(s@.take(i + 1), s@);
                }
            }
            return None;
        }
        i += 1;
    }
    proof {
        assert(s@.take(n as int) =~= s@);
    }
    Some(acc as u32)
}

/// A decimal value only grows as digits are appended on the right.
proof fn lemma_dec_value_grows(p: Seq<u8>, s: Seq<u8>)
    requires
        p.len() <= s.len(),
        p =~= s.take(p.len() as int),
        spec_all_dec_digits(s),
    ensures
        spec_dec_value(p) <= spec_dec_value(s),
    decreases s.len() - p.len(),
{
    if p.len() < s.len() {
        let q = s.take(s.len() - 1);
        assert forall|i: int| 0 <= i < q.len() implies 48 <= #[trigger] q[i] <= 57 by {
            assert(q[i] == s[i]);
        }
        assert(p =~= q.take(p.len() as int));
        lemma_dec_value_grows(p, q);
        lemma_dec_value_nonneg(q);
        assert(spec_dec_value(q) * 10 >= spec_dec_value(q)) by (nonlinear_arith)
            requires
                spec_dec_value(q) >= 0,
        ;
        assert(48 <= s.last() <= 57);
        assert(spec_dec_value(s) == spec_dec_value(q) * 10 + (s.last() - 48));
    } else {
        assert(p =~= s);
    }
}

/// Decimal values of digit runs are non-negative.
proof fn lemma_dec_value_nonneg(s: Seq<u8>)
    requires
        spec_all_dec_digits(s),
    ensures
        spec_dec_value(s) >= 0,
    decreases s.len(),
{
    if s.len() > 0 {
        lemma_dec_value_nonneg(s.take(s.len() - 1));
        assert(spec_dec_value(s.take(s.len() - 1)) * 10 >= 0) by (nonlinear_arith)
            requires
                spec_dec_value(s.take(s.len() - 1)) >= 0,
        ;
    }
}

/// The byte-wise XOR of two equally long byte strings.
pub open spec fn spec_xor_bytes(a: Seq<u8>, b: Seq<u8>) -> Seq<u8> {
    Seq::new(a.len(), |i: int| a[i] ^ b[i])
}

/// XORs two byte strings of equal length, element by element.
pub fn xor_bytes(a: &[u8], b: &[u8]) -> (r: Vec<u8>)
    requires
        a@.len() == b@.len(),
    ensures
        r@ == spec_xor_bytes(a@, b@),
{
    let n = a.len();
    let mut out: Vec<u8> = Vec::new();
    let mut i: usize = 0;
    while i < n
        invariant
            n == a@.len() == b@.len(),
            0 <= i <= n,
            out@.len() == i,
            forall|j: int| 0 <= j < i ==> out@[j] == (a@[j] ^ b@[j]),
        decreases n - i,
    {
        out.push(a[i] ^ b[i]);
        i += 1;
    }
    assert(out@ =~= spec_xor_bytes(a@, b@));
    out
}

/// XOR is self-inverse byte by byte: applying the same mask twice
/// returns the first operand.
pub proof fn lemma_xor_bytes_involution(a: Seq<u8>, b: Seq<u8>)
    requires
        a.len() == b.len(),
    ensures
        spec_xor_bytes(spec_xor_bytes(a, b), b) =~= a,
{
    assert forall|i: int| 0 <= i < a.len() implies spec_xor_bytes(spec_xor_bytes(a, b), b)[i]
        == a[i] by {
        let x = a[i];
        let y = b[i];
        assert((x ^ y) ^ y == x) by (bit_vector);
    }
}

} // verus!
