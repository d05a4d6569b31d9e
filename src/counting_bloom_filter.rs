//! The sequential filter with a count of insertions.

use crate::bit_field::all_set;
use crate::bit_field::set_indices;
use crate::bloom_filter::BloomFilter;
use crate::digest::Digest;
use crate::digest::HashValue;
use crate::hash_to_indicies::HashToIndices;
use crate::hash_to_indicies::K;
use crate::optimal_k_spec;
use crate::rehasher::ReHasher;
use crate::ParamError;
use vstd::prelude::*;

verus! {

/// A filter that counts its insertions, duplicates included, so that the false positive
/// rate at its current occupancy can be estimated.
pub struct CountingBloomFilter<T, H> {
    bloom_filter: BloomFilter<T, H>,
    count: usize,
}

impl<T, H> CountingBloomFilter<T, H> {
    /// The filter that holds the flags.
    pub closed spec fn inner(&self) -> BloomFilter<T, H> {
        self.bloom_filter
    }

    /// The number of insertions so far.
    pub closed spec fn spec_count(&self) -> nat {
        self.count as nat
    }

    pub open spec fn wf(&self) -> bool {
        self.inner().wf()
    }
}

impl<T: HashValue, H: HashToIndices> CountingBloomFilter<T, H> {
    /// A filter of `m` bits, all clear, hashing with `hashers`; no insertions yet.
    pub fn new(m: usize, hashers: H) -> (r: Self)
        requires
            m > 0,
        ensures
            r.wf(),
            r.inner()@ == Seq::new(m as nat, |_j: int| false),
            r.inner().strategy() == hashers,
            r.spec_count() == 0,
    {
        CountingBloomFilter { bloom_filter: BloomFilter::new(m, hashers), count: 0 }
    }

    /// As `new`, but refuses a filter of zero bits.
    pub fn try_new(m: usize, hashers: H) -> (r: Result<Self, ParamError>)
        ensures
            m == 0 ==> r == Err::<Self, ParamError>(ParamError::NoBits),
            m > 0 ==> r is Ok && r->Ok_0.inner()@ == Seq::new(m as nat, |_j: int| false)
                && r->Ok_0.inner().strategy() == hashers && r->Ok_0.spec_count() == 0,
    {
        if m == 0 {
            Err(ParamError::NoBits)
        } else {
            Ok(Self::new(m, hashers))
        }
    }

    /// The number of bits of the filter.
    pub fn num_bits(&self) -> (r: usize)
        ensures
            r == self.inner()@.len(),
    {
        self.bloom_filter.num_bits()
    }

    /// The number of insertions so far.
    pub fn count(&self) -> (r: usize)
        ensures
            r == self.spec_count(),
    {
        self.count
    }

    /// Sets the bits at the positions of `value` and counts one more insertion.
    pub fn insert(&mut self, value: &T)
        requires
            old(self).wf(),
            old(self).inner().strategy().admits(value.hash_bytes()),
            old(self).spec_count() < usize::MAX,
        ensures
            final(self).inner().strategy() == old(self).inner().strategy(),
            final(self).inner()@ == set_indices(old(self).inner()@, old(self).inner().indices_of(*value)),
            final(self).spec_count() == old(self).spec_count() + 1,
    {
        self.count = self.count + 1;
        self.bloom_filter.insert(value)
    }

    /// Whether every bit at the positions of `value` is set.
    pub fn contains(&self, value: &T) -> (r: bool)
        requires
            self.wf(),
            self.inner().strategy().admits(value.hash_bytes()),
        ensures
            r == all_set(self.inner()@, self.inner().indices_of(*value)),
    {
        self.bloom_filter.contains(value)
    }
}

impl<T: HashValue, D: Digest> CountingBloomFilter<T, ReHasher<D>> {
    /// A filter of `m` bits for `n` expected elements, with the chained strategy and the
    /// optimal number of hashes for `n` and `m`. Refuses `n == 0` and `m == 0`.
    pub fn optimal_with_bits(n: usize, m: usize) -> (r: Result<Self, ParamError>)
        ensures
            n == 0 ==> r == Err::<Self, ParamError>(ParamError::NoElements),
            n > 0 && m == 0 ==> r == Err::<Self, ParamError>(ParamError::NoBits),
            n > 0 && m > 0 ==> r is Ok && r->Ok_0.inner()@ == Seq::new(m as nat, |_j: int| false)
                && r->Ok_0.inner().strategy().spec_k() == optimal_k_spec(n as nat, m as nat)
                && r->Ok_0.spec_count() == 0,
    {
        match BloomFilter::optimal_with_bits(n, m) {
            Ok(bloom_filter) => Ok(CountingBloomFilter { bloom_filter, count: 0 }),
            Err(e) => Err(e),
        }
    }
}

impl<T, H: K> K for CountingBloomFilter<T, H> {
    open spec fn spec_k(&self) -> nat {
        self.inner().spec_k()
    }

    fn k(&self) -> (r: usize) {
        self.bloom_filter.k()
    }
}

} // verus!
