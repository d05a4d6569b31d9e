//! Hash strategies: how a value becomes the `k` bit positions that a filter sets or tests.

use crate::digest::Digest;
use crate::digest::HashValue;
use vstd::prelude::*;

verus! {

/// Maps a value and a modulus (the number of bits of a filter) to an ordered sequence
/// of positions below the modulus.
///
/// The positions are a function of the value's hash bytes, so that a value tested
/// after it was inserted is tested at the positions it set.
pub trait HashToIndices: K {
    /// The positions produced for a value with the given hash bytes.
    spec fn spec_indices(&self, bytes: Seq<u8>, modulus: nat) -> Seq<usize>;

    /// Whether the strategy's digests can take a value with the given hash bytes.
    spec fn admits(&self, bytes: Seq<u8>) -> bool;

    proof fn lemma_indices_in_range(&self, bytes: Seq<u8>, modulus: nat)
        requires
            modulus > 0,
        ensures
            forall|i: int|
                0 <= i < self.spec_indices(bytes, modulus).len() ==> (#[trigger] self.spec_indices(
                    bytes,
                    modulus,
                )[i]) < modulus,
    ;

    /// There are `k` positions for every value.
    proof fn lemma_indices_len(&self, bytes: Seq<u8>, modulus: nat)
        ensures
            self.spec_indices(bytes, modulus).len() == self.spec_k(),
    ;

    fn hash_to_indices<T: HashValue + ?Sized>(&self, value: &T, modulus: usize) -> (r: Vec<usize>)
        requires
            modulus > 0,
            self.admits(value.hash_bytes()),
        ensures
            r@ == self.spec_indices(value.hash_bytes(), modulus as nat),
            r@.len() == self.spec_k(),
    ;
}

/// The number of positions (`k`) that a strategy produces per value.
pub trait K {
    spec fn spec_k(&self) -> nat;

    fn k(&self) -> (r: usize)
        ensures
            r as nat == self.spec_k(),
    ;
}

/// A digest output reduced to a position below `modulus`.
pub open spec fn reduce(d: u64, modulus: nat) -> usize {
    (d as int % modulus as int) as usize
}

pub fn reduce_index(d: u64, modulus: usize) -> (r: usize)
    requires
        modulus > 0,
    ensures
        r == reduce(d, modulus as nat),
        r < modulus,
{
    (d % (modulus as u64)) as usize
}

/// The position that a fresh digest of type `D` gives a value.
pub fn digest_index<D: Digest, T: HashValue + ?Sized>(value: &T, modulus: usize) -> (r: usize)
    requires
        modulus > 0,
        D::admits(value.hash_bytes().len()),
    ensures
        r == reduce(D::digest_of(value.hash_bytes()), modulus as nat),
{
    let mut h = D::fresh();
    value.feed(&mut h);
    assert(h.absorbed() =~= value.hash_bytes());
    reduce_index(h.output(), modulus)
}

} // verus!
