//! The concurrent filter with an atomic count of insertions.

use crate::digest::Digest;
use crate::digest::HashValue;
use crate::hash_to_indicies::HashToIndices;
use crate::hash_to_indicies::K;
use crate::optimal_k_spec;
use crate::rehasher::ReHasher;
use crate::w_lock_bloom_filter::WLockBloomFilter;
use crate::ParamError;
use std::sync::atomic::AtomicUsize;
use std::sync::atomic::Ordering;
use vstd::prelude::*;

verus! {

/// A concurrent filter that counts its insertions, duplicates included, so that the false
/// positive rate at its current occupancy can be estimated. The count is an atomic
/// counter, incremented after the flags are set and with no ordering relative to them.
pub struct CountingWLockBloomFilter<T, H> {
    bloom_filter: WLockBloomFilter<T, H>,
    count: AtomicUsize,
}

impl<T, H> CountingWLockBloomFilter<T, H> {
    /// The filter that holds the flags.
    pub closed spec fn inner(&self) -> WLockBloomFilter<T, H> {
        self.bloom_filter
    }

    pub open spec fn wf(&self) -> bool {
        self.inner().wf()
    }
}

impl<T: HashValue, H: HashToIndices> CountingWLockBloomFilter<T, H> {
    /// A filter of `m` bits, all clear, hashing with `hashers`; no insertions yet.
    pub fn new(m: usize, hashers: H) -> (r: Self)
        requires
            m > 0,
        ensures
            r.wf(),
            r.inner().spec_num_bits() == m,
            r.inner().strategy() == hashers,
    {
        CountingWLockBloomFilter { bloom_filter: WLockBloomFilter::new(m, hashers), count: AtomicUsize::new(0) }
    }

    /// As `new`, but refuses a filter of zero bits.
    pub fn try_new(m: usize, hashers: H) -> (r: Result<Self, ParamError>)
        ensures
            m == 0 ==> r == Err::<Self, ParamError>(ParamError::NoBits),
            m > 0 ==> r is Ok && r->Ok_0.wf() && r->Ok_0.inner().spec_num_bits() == m
                && r->Ok_0.inner().strategy() == hashers,
    {
        if m == 0 {
            Err(ParamError::NoBits)
        } else {
            Ok(Self::new(m, hashers))
        }
    }

    /// The number of bits of the filter.
    pub fn num_bits(&self) -> (r: usize)
        ensures
            r == self.inner().spec_num_bits(),
    {
        self.bloom_filter.num_bits()
    }

    /// The number of insertions counted so far.
    pub fn count(&self) -> usize {
        self.count.load(Ordering::Relaxed)
    }

    /// Sets the bits at the positions of `value`, then counts one more insertion; the
    /// count wraps around past `usize::MAX`.
    pub fn insert(&self, value: &T)
        requires
            self.wf(),
            self.inner().strategy().admits(value.hash_bytes()),
    {
        self.bloom_filter.insert(value);
        self.count.fetch_add(1, Ordering::Relaxed);
    }

    /// Whether every bit at the positions of `value` is set, as seen now.
    pub fn contains(&self, value: &T) -> bool
        requires
            self.wf(),
            self.inner().strategy().admits(value.hash_bytes()),
    {
        self.bloom_filter.contains(value)
    }
}

impl<T: HashValue, D: Digest> CountingWLockBloomFilter<T, ReHasher<D>> {
    /// A filter of `m` bits for `n` expected elements, with the chained strategy and the
    /// optimal number of hashes for `n` and `m`. Refuses `n == 0` and `m == 0`.
    pub fn optimal_with_bits(n: usize, m: usize) -> (r: Result<Self, ParamError>)
        ensures
            n == 0 ==> r == Err::<Self, ParamError>(ParamError::NoElements),
            n > 0 && m == 0 ==> r == Err::<Self, ParamError>(ParamError::NoBits),
            n > 0 && m > 0 ==> r is Ok && r->Ok_0.wf() && r->Ok_0.inner().spec_num_bits() == m
                && r->Ok_0.inner().strategy().spec_k() == optimal_k_spec(n as nat, m as nat),
    {
        match WLockBloomFilter::optimal_with_bits(n, m) {
            Ok(bloom_filter) => Ok(CountingWLockBloomFilter { bloom_filter, count: AtomicUsize::new(0) }),
            Err(e) => Err(e),
        }
    }
}

impl<T, H: K> K for CountingWLockBloomFilter<T, H> {
    open spec fn spec_k(&self) -> nat {
        self.inner().spec_k()
    }

    fn k(&self) -> (r: usize) {
        self.bloom_filter.k()
    }
}

} // verus!
