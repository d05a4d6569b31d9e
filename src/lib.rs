//! Bloom filters: time and space efficient set membership with no false negatives,
//! and a false positive rate that depends on the number of hashes per value (`k`),
//! the number of values inserted (`n`) and the number of bits in the filter (`m`).
//! The false positive rate rises with `n` and falls as `m` rises.

use vstd::prelude::*;

pub mod bit_field;
pub mod bloom_filter;
pub mod counting_bloom_filter;
pub mod counting_w_lock_bloom_filter;
pub mod digest;
pub mod hash_numbers;
pub mod hash_to_indicies;
pub mod membership;
pub mod rehasher;
pub mod w_lock_bloom_filter;

pub use crate::bloom_filter::BloomFilter;
pub use crate::counting_bloom_filter::CountingBloomFilter;
pub use crate::counting_w_lock_bloom_filter::CountingWLockBloomFilter;
pub use crate::rehasher::ReHasher;
pub use crate::w_lock_bloom_filter::WLockBloomFilter;

verus! {

/// Why a filter could not be built from the parameters given.
#[derive(Debug, Clone, Copy, PartialEq, Eq, Structural)]
pub enum ParamError {
    /// The target false positive rate is not strictly between 0 and 1.
    InvalidRate,
    /// The expected number of elements is zero.
    NoElements,
    /// The filter would have no bits.
    NoBits,
}

/// ln 2 in 64-bit fixed point: floor(ln 2 * 2^64).
pub const LN2_FIXED: u128 = 12786308645202655659;

/// 2^64, the scale of `LN2_FIXED`.
pub const FIXED_ONE: u128 = 0x1_0000_0000_0000_0000;

/// The optimal number of hashes for `n` elements in `m` bits: `ceil((m / n) * ln 2)`,
/// where `m / n` is integer division, taken before the multiplication, and
/// ln 2 is `LN2_FIXED / 2^64`.
pub open spec fn optimal_k_spec(n: nat, m: nat) -> nat
    recommends
        n > 0,
{
    (((m / n) * LN2_FIXED + FIXED_ONE - 1) / FIXED_ONE as int) as nat
}

/// The number of hashes (`k`) that minimizes the false positive rate for `n` expected
/// elements in `m` bits.
pub fn optimal_k(n: usize, m: usize) -> (r: usize)
    requires
        n > 0,
    ensures
        r as nat == optimal_k_spec(n as nat, m as nat),
{
    let q: u128 = (m / n) as u128;
    assert(q * LN2_FIXED + FIXED_ONE - 1 < q * FIXED_ONE + FIXED_ONE) by (nonlinear_arith)
        requires
            q <= usize::MAX,
    ;
    assert(q * LN2_FIXED <= usize::MAX as int * LN2_FIXED) by (nonlinear_arith)
        requires
            q <= usize::MAX,
    ;
    let k = (q * LN2_FIXED + (FIXED_ONE - 1)) / FIXED_ONE;
    assert(k <= q) by (nonlinear_arith)
        requires
            k == (q * LN2_FIXED + (FIXED_ONE - 1)) / FIXED_ONE as int,
            q * LN2_FIXED + FIXED_ONE - 1 < q * FIXED_ONE + FIXED_ONE,
    ;
    k as usize
}

} // verus!
