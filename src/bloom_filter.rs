//! The sequential filter: exclusive access for insertion.

use crate::bit_field::all_set;
use crate::bit_field::bits_from_elem;
use crate::bit_field::bits_get;
use crate::bit_field::bits_len;
use crate::bit_field::bits_of;
use crate::bit_field::bits_set;
use crate::bit_field::bit_chars;
use crate::bit_field::push_char;
use crate::bit_field::set_indices;
use crate::digest::HashValue;
use crate::hash_to_indicies::HashToIndices;
use crate::hash_to_indicies::K;
use crate::membership::insert_all;
use crate::rehasher::ReHasher;
use crate::digest::Digest;
use crate::optimal_k;
use crate::optimal_k_spec;
use crate::ParamError;
use bit_vec::BitVec;
use std::marker::PhantomData;
use vstd::prelude::*;

verus! {

/// A probabilistic set: it tells with certainty that a value has _not_ been inserted,
/// and may report a value that was never inserted as present (a false positive).
///
/// Its state is the sequence of `m` flags, all false when built; inserting a value
/// sets the flags at the value's positions, and no operation clears one.
pub struct BloomFilter<T, H> {
    bit_vec: BitVec,
    type_info: PhantomData<T>,
    k: H,
}

impl<T, H> View for BloomFilter<T, H> {
    type V = Seq<bool>;

    closed spec fn view(&self) -> Seq<bool> {
        bits_of(self.bit_vec)
    }
}

impl<T, H> BloomFilter<T, H> {
    /// The strategy that maps values to positions.
    pub closed spec fn strategy(&self) -> H {
        self.k
    }

    /// A filter has at least one bit.
    pub open spec fn wf(&self) -> bool {
        self@.len() > 0
    }
}

impl<T: HashValue, H: HashToIndices> BloomFilter<T, H> {
    /// The positions of `value` in this filter.
    pub open spec fn indices_of(&self, value: T) -> Seq<usize> {
        self.strategy().spec_indices(value.hash_bytes(), self@.len())
    }

    /// A filter of `m` bits, all clear, hashing with `hashers`.
    pub fn new(m: usize, hashers: H) -> (r: Self)
        requires
            m > 0,
        ensures
            r.wf(),
            r@ == Seq::new(m as nat, |_j: int| false),
            r.strategy() == hashers,
    {
        BloomFilter { bit_vec: bits_from_elem(m, false), type_info: PhantomData, k: hashers }
    }

    /// As `new`, but refuses a filter of zero bits.
    pub fn try_new(m: usize, hashers: H) -> (r: Result<Self, ParamError>)
        ensures
            m == 0 ==> r == Err::<Self, ParamError>(ParamError::NoBits),
            m > 0 ==> r is Ok && r->Ok_0@ == Seq::new(m as nat, |_j: int| false) && r->Ok_0.strategy() == hashers,
    {
        if m == 0 {
            Err(ParamError::NoBits)
        } else {
            Ok(Self::new(m, hashers))
        }
    }

    /// The number of bits of the filter.
    pub fn num_bits(&self) -> (r: usize)
        ensures
            r == self@.len(),
    {
        bits_len(&self.bit_vec)
    }

    /// The flags as a string of `'1'` (set) and `'0'` (clear), in index order.
    pub fn bit_string(&self) -> (r: String)
        ensures
            r@ == bit_chars(self@),
    {
        let m = bits_len(&self.bit_vec);
        let mut s = String::new();
        let mut i: usize = 0;
        while i < m
            invariant
                i <= m,
                m == self@.len(),
                s@ == bit_chars(self@.take(i as int)),
            decreases m - i,
        {
            let c = match bits_get(&self.bit_vec, i) {
                Some(true) => '1',
                _ => '0',
            };
            push_char(&mut s, c);
            i = i + 1;
            assert(s@ =~= bit_chars(self@.take(i as int)));
        }
        assert(self@.take(m as int) =~= self@);
        s
    }

    /// Sets the bits at the positions of `value`.
    pub fn insert(&mut self, value: &T)
        requires
            old(self).wf(),
            old(self).strategy().admits(value.hash_bytes()),
        ensures
            final(self).strategy() == old(self).strategy(),
            final(self)@ == set_indices(old(self)@, old(self).indices_of(*value)),
            final(self)@ == insert_all(old(self).strategy(), old(self)@, seq![value.hash_bytes()]),
    {
        let m = bits_len(&self.bit_vec);
        let indices = self.k.hash_to_indices(value, m);
        proof {
            self.k.lemma_indices_in_range(value.hash_bytes(), m as nat);
        }
        let ghost start = self@;
        let mut i: usize = 0;
        while i < indices.len()
            invariant
                i <= indices.len(),
                self.k == old(self).k,
                start == old(self)@,
                indices@ == old(self).indices_of(*value),
                m == start.len(),
                forall|j: int| 0 <= j < indices@.len() ==> #[trigger] indices@[j] < m,
                self@ == set_indices(start, indices@.take(i as int)),
            decreases indices.len() - i,
        {
            let x = indices[i];
            bits_set(&mut self.bit_vec, x, true);
            proof {
                let before = indices@.take(i as int);
                let after = indices@.take(i as int + 1);
                assert(after =~= before.push(x));
                assert forall|j: int| 0 <= j < start.len() implies (#[trigger] after.contains(j as usize) <==> (
                before.contains(j as usize) || x == j as usize)) by {
                    if after.contains(j as usize) {
                        let w = choose|w: int| 0 <= w < after.len() && after[w] == j as usize;
                        if w < before.len() {
                            assert(before[w] == j as usize);
                        }
                    }
                    if before.contains(j as usize) {
                        let w = choose|w: int| 0 <= w < before.len() && before[w] == j as usize;
                        assert(after[w] == j as usize);
                    }
                    if x == j as usize {
                        assert(after[i as int] == j as usize);
                    }
                }
            }
            i = i + 1;
            assert(self@ =~= set_indices(start, indices@.take(i as int)));
        }
        assert(indices@.take(i as int) =~= indices@);
        let ghost one = seq![value.hash_bytes()];
        assert(one.drop_last() =~= Seq::<Seq<u8>>::empty());
        assert(insert_all(self.k, start, one.drop_last()) == start);
        assert(one.last() == value.hash_bytes());
    }

    /// Whether every bit at the positions of `value` is set.
    pub fn contains(&self, value: &T) -> (r: bool)
        requires
            self.wf(),
            self.strategy().admits(value.hash_bytes()),
        ensures
            r == all_set(self@, self.indices_of(*value)),
    {
        let m = bits_len(&self.bit_vec);
        let indices = self.k.hash_to_indices(value, m);
        proof {
            self.k.lemma_indices_in_range(value.hash_bytes(), m as nat);
        }
        let mut i: usize = 0;
        while i < indices.len()
            invariant
                i <= indices.len(),
                indices@ == self.indices_of(*value),
                m == self@.len(),
                forall|j: int| 0 <= j < indices@.len() ==> #[trigger] indices@[j] < m,
                forall|j: int| 0 <= j < i ==> self@[#[trigger] indices@[j] as int],
            decreases indices.len() - i,
        {
            match bits_get(&self.bit_vec, indices[i]) {
                Some(true) => {},
                _ => {
                    assert(!self@[indices@[i as int] as int]);
                    return false;
                },
            }
            i = i + 1;
        }
        true
    }
}

impl<T: HashValue, D: Digest> BloomFilter<T, ReHasher<D>> {
    /// A filter of `m` bits for `n` expected elements, with the chained strategy and the
    /// optimal number of hashes for `n` and `m`. Refuses `n == 0` and `m == 0`.
    pub fn optimal_with_bits(n: usize, m: usize) -> (r: Result<Self, ParamError>)
        ensures
            n == 0 ==> r == Err::<Self, ParamError>(ParamError::NoElements),
            n > 0 && m == 0 ==> r == Err::<Self, ParamError>(ParamError::NoBits),
            n > 0 && m > 0 ==> r is Ok && r->Ok_0@ == Seq::new(m as nat, |_j: int| false)
                && r->Ok_0.strategy().spec_k() == optimal_k_spec(n as nat, m as nat),
    {
        if n == 0 {
            Err(ParamError::NoElements)
        } else if m == 0 {
            Err(ParamError::NoBits)
        } else {
            Ok(Self::new(m, ReHasher::new(optimal_k(n, m))))
        }
    }
}

impl<T, H: K> K for BloomFilter<T, H> {
    open spec fn spec_k(&self) -> nat {
        self.strategy().spec_k()
    }

    fn k(&self) -> (r: usize) {
        self.k.k()
    }
}

} // verus!
