//! Bit-level facts about 64-bit words read as sets of board squares.

use vstd::prelude::*;

verus! {

/// Bit `i` of `b`, the basic reading of a 64-bit word as a set of squares.
pub open spec fn nth_bit(b: u64, i: u64) -> bool {
    (b >> i) & 1u64 == 1u64
}

/// A word with only bit `j` set has exactly that bit.
pub proof fn lemma_nth_single(j: u64)
    by (bit_vector)
    requires
        j < 64,
    ensures
        forall|i: u64| i < 64 ==> (#[trigger] nth_bit(1u64 << j, i) <==> i == j),
{
}

/// Bitwise or is pointwise disjunction.
pub proof fn lemma_nth_or(a: u64, b: u64)
    by (bit_vector)
    ensures
        forall|i: u64|
            i < 64 ==> (#[trigger] nth_bit(a | b, i) <==> (nth_bit(a, i) || nth_bit(b, i))),
{
}

/// Bitwise and is pointwise conjunction.
pub proof fn lemma_nth_and(a: u64, b: u64)
    by (bit_vector)
    ensures
        forall|i: u64|
            i < 64 ==> (#[trigger] nth_bit(a & b, i) <==> (nth_bit(a, i) && nth_bit(b, i))),
{
}

/// Bitwise complement is pointwise negation.
pub proof fn lemma_nth_not(a: u64)
    by (bit_vector)
    ensures
        forall|i: u64| i < 64 ==> (#[trigger] nth_bit(!a, i) <==> !nth_bit(a, i)),
{
}

/// The zero word has no bits.
pub proof fn lemma_nth_zero()
    by (bit_vector)
    ensures
        forall|i: u64| i < 64 ==> !(#[trigger] nth_bit(0u64, i)),
{
}

/// A non-zero word has a bit below 64: its lowest set bit.
pub proof fn lemma_nth_some(a: u64)
    requires
        a != 0,
    ensures
        exists|i: u64| i < 64 && #[trigger] nth_bit(a, i),
{
    vstd::std_specs::bits::axiom_u64_trailing_zeros(a);
    let tz = vstd::std_specs::bits::u64_trailing_zeros(a) as u64;
    assert(nth_bit(a, tz));
}

/// Two words with the same bits below 64 are equal.
pub proof fn lemma_nth_ext(a: u64, b: u64)
    requires
        forall|i: u64| i < 64 ==> (#[trigger] nth_bit(a, i) <==> nth_bit(b, i)),
    ensures
        a == b,
{
    if a != b {
        let d = a ^ b;
        assert(d != 0) by (bit_vector)
            requires
                a != b,
                d == a ^ b,
        ;
        lemma_nth_some(d);
        let i = choose|i: u64| i < 64 && nth_bit(d, i);
        assert(nth_bit(a, i) != nth_bit(b, i)) by (bit_vector)
            requires
                i < 64,
                nth_bit(a ^ b, i),
        ;
    }
}

/// Exclusive or is commutative and associative, with 0 as unit and each
/// word its own inverse; the algebra behind incremental Zobrist hashing.
pub proof fn lemma_xor_algebra()
    by (bit_vector)
    ensures
        forall|a: u64, b: u64| #[trigger] (a ^ b) == b ^ a,
        forall|a: u64, b: u64, c: u64| #[trigger] ((a ^ b) ^ c) == a ^ (b ^ c),
        forall|a: u64| #[trigger] (a ^ 0u64) == a,
        forall|a: u64| #[trigger] (a ^ a) == 0u64,
{
}

} // verus!
