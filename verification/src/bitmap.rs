//! Six-slot guardian bitmaps: population count and single-slot bits.

use vstd::prelude::*;

verus! {

/// Number of set bits of `b`.
pub open spec fn spec_popcount(b: u8) -> nat
    decreases b,
{
    if b == 0 {
        0
    } else {
        (b % 2) as nat + spec_popcount(b / 2)
    }
}

/// True when slot `i` of `b` is set.
pub open spec fn has_bit(b: u8, i: u8) -> bool {
    (b >> i) & 1 == 1
}

proof fn lemma_halve(b: u8)
    ensures
        b & 1 == b % 2,
        b >> 1 == b / 2,
{
    assert(b & 1 == b % 2) by (bit_vector);
    assert(b >> 1 == b / 2) by (bit_vector);
}

/// `2^k` on naturals.
pub open spec fn two_pow(k: nat) -> nat
    decreases k,
{
    if k == 0 {
        1
    } else {
        2 * two_pow((k - 1) as nat)
    }
}

/// A byte below `2^k` has at most `k` set bits.
pub proof fn lemma_popcount_le(b: u8, k: nat)
    requires
        b < two_pow(k),
    ensures
        spec_popcount(b) <= k,
    decreases k,
{
    if b != 0 {
        assert(k > 0);
        lemma_popcount_le(b / 2, (k - 1) as nat);
    }
}

/// The population count of a byte never exceeds eight, and six for a
/// six-slot bitmap.
pub proof fn lemma_popcount_bound(b: u8)
    ensures
        spec_popcount(b) <= 8,
        b < 64 ==> spec_popcount(b) <= 6,
{
    assert(two_pow(0) == 1);
    assert(two_pow(1) == 2);
    assert(two_pow(2) == 4);
    assert(two_pow(3) == 8);
    assert(two_pow(4) == 16);
    assert(two_pow(5) == 32);
    assert(two_pow(6) == 64);
    assert(two_pow(7) == 128);
    assert(two_pow(8) == 256);
    lemma_popcount_le(b, 8);
    if b < 64 {
        lemma_popcount_le(b, 6);
    }
}

/// Counts the set bits of `b`.
pub fn count_ones(b: u8) -> (r: u32)
    ensures
        r == spec_popcount(b),
        r <= 8,
{
    proof {
        lemma_popcount_bound(b);
    }
    let mut rest: u8 = b;
    let mut count: u32 = 0;
    while rest != 0
        invariant
            count + spec_popcount(rest) == spec_popcount(b),
            spec_popcount(b) <= 8,
        decreases rest,
    {
        proof {
            lemma_halve(rest);
        }
        count = count + (rest & 1) as u32;
        rest = rest >> 1;
    }
    count
}

/// The bit of slot `i`.
pub fn slot_bit(i: u8) -> (r: u8)
    requires
        i < 8,
    ensures
        r == 1u8 << i,
        forall|b: u8| #[trigger] has_bit(b, i) == (b & r != 0),
{
    let r: u8 = 1u8 << i;
    proof {
        assert forall|b: u8| #[trigger] has_bit(b, i) == (b & r != 0) by {
            assert(((b >> i) & 1 == 1) == (b & (1u8 << i) != 0)) by (bit_vector)
                requires
                    i < 8,
            ;
        }
    }
    r
}


/// Setting slot `k` of `b` sets exactly that slot.
pub proof fn lemma_set_slot(b: u8, k: u8)
    requires
        k < 8,
    ensures
        forall|i: u8| i < 8 ==> #[trigger] has_bit(b | (1u8 << k), i) == (has_bit(b, i) || i == k),
{
    assert forall|i: u8| i < 8 implies #[trigger] has_bit(b | (1u8 << k), i) == (has_bit(b, i) || i == k) by {
        assert((((b | (1u8 << k)) >> i) & 1 == 1) == (((b >> i) & 1 == 1) || i == k)) by (bit_vector)
            requires
                k < 8,
                i < 8,
        ;
    }
}

/// The empty bitmap has no slot set.
pub proof fn lemma_no_slot_set()
    ensures
        forall|i: u8| i < 8 ==> !#[trigger] has_bit(0u8, i),
{
    assert forall|i: u8| i < 8 implies !#[trigger] has_bit(0u8, i) by {
        assert((0u8 >> i) & 1 != 1) by (bit_vector);
    }
}

} // verus!
