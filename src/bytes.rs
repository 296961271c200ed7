//! Fixed-width little-endian byte encodings of integers.
//!
//! The storage engine has no 128-bit (or pointer-width) integer type, so such
//! values are bound as byte sequences: the unsigned (or two's-complement)
//! representation, least significant byte first. Reading the bytes back with
//! the same width restores the integer exactly.
use vstd::prelude::*;

verus! {

/// `256^len`: the number of distinct values that `len` bytes can hold.
pub open spec fn byte_span(len: nat) -> nat
    decreases len,
{
    if len == 0 {
        1
    } else {
        256 * byte_span((len - 1) as nat)
    }
}

/// The `len` least significant bytes of `n`, least significant first.
pub open spec fn le_bytes(n: nat, len: nat) -> Seq<u8>
    decreases len,
{
    if len == 0 {
        Seq::empty()
    } else {
        seq![(n % 256) as u8] + le_bytes(n / 256, (len - 1) as nat)
    }
}

/// The unsigned integer that a little-endian byte sequence denotes.
pub open spec fn le_value(s: Seq<u8>) -> nat
    decreases s.len(),
{
    if s.len() == 0 {
        0
    } else {
        s[0] as nat + 256 * le_value(s.drop_first())
    }
}

/// The two's-complement representation of `v` on `len` bytes, as an unsigned value.
pub open spec fn twos_complement(v: int, len: nat) -> nat {
    if v >= 0 {
        v as nat
    } else {
        (v + byte_span(len)) as nat
    }
}

/// The signed integer that a little-endian two's-complement byte sequence denotes.
pub open spec fn le_signed(s: Seq<u8>) -> int {
    let u = le_value(s);
    if 2 * u >= byte_span(s.len()) {
        u - byte_span(s.len())
    } else {
        u as int
    }
}

pub proof fn lemma_byte_span_positive(len: nat)
    ensures
        byte_span(len) >= 1,
    decreases len,
{
    if len > 0 {
        lemma_byte_span_positive((len - 1) as nat);
    }
}

/// Encoding `n` on `len` bytes and decoding the bytes gives `n` back.
pub proof fn lemma_le_round_trip(n: nat, len: nat)
    requires
        n < byte_span(len),
    ensures
        le_bytes(n, len).len() == len,
        le_value(le_bytes(n, len)) == n,
    decreases len,
{
    if len > 0 {
        let rest = (len - 1) as nat;
        assert(n / 256 < byte_span(rest)) by (nonlinear_arith)
            requires
                n < 256 * byte_span(rest),
        ;
        lemma_le_round_trip(n / 256, rest);
        let s = le_bytes(n, len);
        assert(s.drop_first() =~= le_bytes(n / 256, rest));
        assert(n == n % 256 + 256 * (n / 256)) by (nonlinear_arith);
    }
}

/// Encoding a signed `v` in two's complement on `len` bytes and decoding the
/// bytes as a signed value gives `v` back.
pub proof fn lemma_le_signed_round_trip(v: int, len: nat)
    requires
        len > 0,
        -byte_span(len) <= 2 * v < byte_span(len),
    ensures
        le_bytes(twos_complement(v, len), len).len() == len,
        le_signed(le_bytes(twos_complement(v, len), len)) == v,
{
    lemma_byte_span_positive(len);
    lemma_le_round_trip(twos_complement(v, len), len);
}

/// The `len` least significant bytes of `v`, least significant first.
pub fn le_encode(v: u128, len: usize) -> (r: Vec<u8>)
    requires
        len <= 16,
    ensures
        r@ == le_bytes(v as nat, len as nat),
{
    let mut r: Vec<u8> = Vec::new();
    let mut x: u128 = v;
    let mut i: usize = 0;
    while i < len
        invariant
            i <= len,
            le_bytes(v as nat, len as nat) == r@ + le_bytes(x as nat, (len - i) as nat),
        decreases len - i,
    {
        let ghost before = r@;
        let ghost k = (len - i - 1) as nat;
        assert(le_bytes(x as nat, k + 1) == seq![(x % 256) as u8] + le_bytes((x / 256) as nat, k));
        r.push((x % 256) as u8);
        assert(before + le_bytes(x as nat, k + 1) =~= r@ + le_bytes((x / 256) as nat, k));
        x = x / 256;
        i = i + 1;
    }
    assert(r@ + le_bytes(x as nat, 0) =~= r@);
    r
}

} // verus!
