//! Single bits of a byte, and the facts that tie the bitwise operators to
//! arithmetic.

use vstd::prelude::*;

verus! {

/// Whether bit `k` of `v` is set; bit 0 is the lowest.
pub open spec fn bit_of(v: u8, k: u8) -> bool {
    (v >> k) & 1 == 1
}

/// `v` with bit `k` set.
pub open spec fn with_bit(v: u8, k: u8) -> u8 {
    v | (1u8 << k)
}

/// `v` with bit `k` cleared.
pub open spec fn without_bit(v: u8, k: u8) -> u8 {
    v & !(1u8 << k)
}

/// Setting bit `k` changes that bit and no other.
pub proof fn lemma_with_bit(v: u8, k: u8, j: u8)
    by (bit_vector)
    requires
        k < 8,
        j < 8,
    ensures
        bit_of(with_bit(v, k), j) == (j == k || bit_of(v, j)),
{
}

/// Clearing bit `k` changes that bit and no other.
pub proof fn lemma_without_bit(v: u8, k: u8, j: u8)
    by (bit_vector)
    requires
        k < 8,
        j < 8,
    ensures
        bit_of(without_bit(v, k), j) == (j != k && bit_of(v, j)),
{
}

/// Setting or clearing one of the low four bits keeps a value below 16.
pub proof fn lemma_nibble_bits(v: u8, k: u8)
    by (bit_vector)
    requires
        v < 16,
        k < 4,
    ensures
        with_bit(v, k) < 16,
        without_bit(v, k) < 16,
{
}

/// Tests bit `k` of `v`.
pub fn test_bit(v: u8, k: u8) -> (r: bool)
    requires
        k < 8,
    ensures
        r == bit_of(v, k),
{
    (v >> k) & 1 == 1
}

/// Sets bit `k` of `v`.
pub fn set_bit(v: u8, k: u8) -> (r: u8)
    requires
        k < 8,
    ensures
        r == with_bit(v, k),
{
    v | (1u8 << k)
}

/// Clears bit `k` of `v`.
pub fn clear_bit(v: u8, k: u8) -> (r: u8)
    requires
        k < 8,
    ensures
        r == without_bit(v, k),
{
    v & !(1u8 << k)
}

} // verus!
