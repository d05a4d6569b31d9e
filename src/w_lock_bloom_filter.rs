//! The concurrent filter: insertion through a shared reference, from any number of threads.

use crate::bit_field::push_char;
use crate::digest::Digest;
use crate::digest::HashValue;
use crate::hash_to_indicies::HashToIndices;
use crate::hash_to_indicies::K;
use crate::optimal_k;
use crate::optimal_k_spec;
use crate::rehasher::ReHasher;
use crate::ParamError;
use std::marker::PhantomData;
use std::sync::atomic::AtomicU32;
use std::sync::atomic::Ordering;
use vstd::prelude::*;

verus! {

/// Flags per storage word.
pub const WORD_BITS: usize = 32;

/// The number of words that hold `m` flags.
pub open spec fn words_for(m: nat) -> nat {
    if m % WORD_BITS as nat == 0 {
        m / WORD_BITS as nat
    } else {
        m / WORD_BITS as nat + 1
    }
}

/// A filter whose `insert` takes `&self`, so one instance can be shared (in an `Arc`,
/// or by reference in scoped threads) by threads that insert and test concurrently.
///
/// The flags live in a vector of atomic words that is allocated once, at construction,
/// never resized, and freed with the filter. Hashing touches no shared state; each flag
/// of a value is then set with one atomic `or` on its word (release ordering), so two
/// insertions never lose each other's bits, and the flags after any set of concurrent
/// insertions are the union of the flags of each. Readers take no lock (acquire loads):
/// a `contains` that races with the `insert` of the same value may miss it.
pub struct WLockBloomFilter<T, H> {
    words: Vec<AtomicU32>,
    nbits: usize,
    type_info: PhantomData<T>,
    k: H,
}

impl<T, H> WLockBloomFilter<T, H> {
    /// The number of bits, fixed at construction.
    pub closed spec fn spec_num_bits(&self) -> nat {
        self.nbits as nat
    }

    /// The strategy that maps values to positions.
    pub closed spec fn strategy(&self) -> H {
        self.k
    }

    /// At least one bit, and a word for every bit.
    pub closed spec fn wf(&self) -> bool {
        self.nbits > 0 && self.words@.len() == words_for(self.nbits as nat)
    }
}

impl<T: HashValue, H: HashToIndices> WLockBloomFilter<T, H> {
    /// The positions of `value` in this filter.
    pub open spec fn indices_of(&self, value: T) -> Seq<usize> {
        self.strategy().spec_indices(value.hash_bytes(), self.spec_num_bits())
    }

    /// A filter of `m` bits, all clear, hashing with `hashers`.
    pub fn new(m: usize, hashers: H) -> (r: Self)
        requires
            m > 0,
        ensures
            r.wf(),
            r.spec_num_bits() == m,
            r.strategy() == hashers,
    {
        let n_words = if m % WORD_BITS == 0 {
            m / WORD_BITS
        } else {
            m / WORD_BITS + 1
        };
        let mut words: Vec<AtomicU32> = Vec::with_capacity(n_words);
        let mut i: usize = 0;
        while i < n_words
            invariant
                i <= n_words,
                words@.len() == i,
            decreases n_words - i,
        {
            words.push(AtomicU32::new(0));
            i = i + 1;
        }
        WLockBloomFilter { words, nbits: m, type_info: PhantomData, k: hashers }
    }

    /// As `new`, but refuses a filter of zero bits.
    pub fn try_new(m: usize, hashers: H) -> (r: Result<Self, ParamError>)
        ensures
            m == 0 ==> r == Err::<Self, ParamError>(ParamError::NoBits),
            m > 0 ==> r is Ok && r->Ok_0.wf() && r->Ok_0.spec_num_bits() == m && r->Ok_0.strategy()
                == hashers,
    {
        if m == 0 {
            Err(ParamError::NoBits)
        } else {
            Ok(Self::new(m, hashers))
        }
    }

    /// The number of bits of the filter.
    pub fn num_bits(&self) -> (r: usize)
        ensures
            r == self.spec_num_bits(),
    {
        self.nbits
    }

    /// The word that holds flag `i`, and the mask of the flag within it.
    fn locate(&self, i: usize) -> (r: (usize, u32))
        requires
            self.wf(),
            i < self.spec_num_bits(),
        ensures
            r.0 < self.words@.len(),
            r.0 == i / WORD_BITS,
            r.1 == mask_of(i),
    {
        let shift = (i % WORD_BITS) as u32;
        (i / WORD_BITS, 1u32 << shift)
    }

    /// The flags as seen now, as a string of `'1'` (set) and `'0'` (clear), in index order.
    pub fn bit_string(&self) -> (r: String)
        requires
            self.wf(),
        ensures
            r@.len() == self.spec_num_bits(),
            forall|j: int| 0 <= j < r@.len() ==> #[trigger] r@[j] == '0' || r@[j] == '1',
    {
        let mut s = String::new();
        let mut i: usize = 0;
        while i < self.nbits
            invariant
                self.wf(),
                i <= self.nbits,
                s@.len() == i,
                forall|j: int| 0 <= j < s@.len() ==> #[trigger] s@[j] == '0' || s@[j] == '1',
            decreases self.nbits - i,
        {
            let (w, mask) = self.locate(i);
            let c = if self.words[w].load(Ordering::Acquire) & mask != 0 {
                '1'
            } else {
                '0'
            };
            push_char(&mut s, c);
            i = i + 1;
        }
        s
    }

    /// Sets the bits at the positions of `value`. Other threads may insert and test at the
    /// same time.
    pub fn insert(&self, value: &T)
        requires
            self.wf(),
            self.strategy().admits(value.hash_bytes()),
    {
        let indices = self.k.hash_to_indices(value, self.nbits);
        proof {
            self.k.lemma_indices_in_range(value.hash_bytes(), self.nbits as nat);
        }
        let mut i: usize = 0;
        while i < indices.len()
            invariant
                self.wf(),
                indices@ == self.indices_of(*value),
                forall|j: int| 0 <= j < indices@.len() ==> #[trigger] indices@[j] < self.spec_num_bits(),
            decreases indices.len() - i,
        {
            let (w, mask) = self.locate(indices[i]);
            self.words[w].fetch_or(mask, Ordering::Release);
            i = i + 1;
        }
    }

    /// Whether every bit at the positions of `value` is set, as seen now. It may miss the
    /// bits of an insertion that has not finished. The word of each position is read once,
    /// and `all_masks_set` decides on the words read.
    pub fn contains(&self, value: &T) -> (r: bool)
        requires
            self.wf(),
            self.strategy().admits(value.hash_bytes()),
    {
        let indices = self.k.hash_to_indices(value, self.nbits);
        proof {
            self.k.lemma_indices_in_range(value.hash_bytes(), self.nbits as nat);
        }
        let mut loaded: Vec<u32> = Vec::new();
        let mut masks: Vec<u32> = Vec::new();
        let mut i: usize = 0;
        while i < indices.len()
            invariant
                self.wf(),
                i <= indices.len(),
                loaded@.len() == i,
                masks@.len() == i,
                indices@ == self.indices_of(*value),
                forall|j: int| 0 <= j < indices@.len() ==> #[trigger] indices@[j] < self.spec_num_bits(),
                forall|j: int| 0 <= j < i ==> #[trigger] masks@[j] == mask_of(indices@[j]),
            decreases indices.len() - i,
        {
            let (w, mask) = self.locate(indices[i]);
            loaded.push(self.words[w].load(Ordering::Acquire));
            masks.push(mask);
            i = i + 1;
        }
        all_masks_set(&loaded, &masks)
    }
}

/// The mask of flag `i` within its word.
pub open spec fn mask_of(i: usize) -> u32 {
    1u32 << (i % WORD_BITS) as u32
}

/// Whether each word read has its mask set: the answer of `WLockBloomFilter::contains`
/// for the words it read at the positions of a value.
pub fn all_masks_set(loaded: &Vec<u32>, masks: &Vec<u32>) -> (r: bool)
    requires
        loaded@.len() == masks@.len(),
    ensures
        r == (forall|j: int| 0 <= j < loaded@.len() ==> (#[trigger] loaded@[j] & masks@[j]) != 0),
{
    let mut i: usize = 0;
    while i < loaded.len()
        invariant
            i <= loaded@.len(),
            loaded@.len() == masks@.len(),
            forall|j: int| 0 <= j < i ==> (#[trigger] loaded@[j] & masks@[j]) != 0,
        decreases loaded.len() - i,
    {
        if loaded[i] & masks[i] == 0 {
            return false;
        }
        i = i + 1;
    }
    true
}

impl<T: HashValue, D: Digest> WLockBloomFilter<T, ReHasher<D>> {
    /// A filter of `m` bits for `n` expected elements, with the chained strategy and the
    /// optimal number of hashes for `n` and `m`. Refuses `n == 0` and `m == 0`.
    pub fn optimal_with_bits(n: usize, m: usize) -> (r: Result<Self, ParamError>)
        ensures
            n == 0 ==> r == Err::<Self, ParamError>(ParamError::NoElements),
            n > 0 && m == 0 ==> r == Err::<Self, ParamError>(ParamError::NoBits),
            n > 0 && m > 0 ==> r is Ok && r->Ok_0.wf() && r->Ok_0.spec_num_bits() == m
                && r->Ok_0.strategy().spec_k() == optimal_k_spec(n as nat, m as nat),
    {
        if n == 0 {
            Err(ParamError::NoElements)
        } else if m == 0 {
            Err(ParamError::NoBits)
        } else {
            Ok(Self::new(m, ReHasher::new(optimal_k(n, m))))
        }
    }
}

impl<T, H: K> K for WLockBloomFilter<T, H> {
    open spec fn spec_k(&self) -> nat {
        self.strategy().spec_k()
    }

    fn k(&self) -> (r: usize) {
        self.k.k()
    }
}

} // verus!
