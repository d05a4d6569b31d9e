//! Fixed-arity strategies: one to five independent digests, each giving one position.

use crate::digest::Digest;
use crate::digest::HashValue;
use crate::hash_to_indicies::digest_index;
use crate::hash_to_indicies::reduce;
use crate::hash_to_indicies::HashToIndices;
use crate::hash_to_indicies::K;
use std::marker::PhantomData;
use vstd::prelude::*;

verus! {

/// A strategy with one digest, fed the value from its initial state, giving one position.
pub struct One<H>(PhantomData<H>);

impl<H> Default for One<H> {
    fn default() -> (r: Self) {
        One(PhantomData)
    }
}

impl<H: Digest> HashToIndices for One<H> {
    open spec fn spec_indices(&self, bytes: Seq<u8>, modulus: nat) -> Seq<usize> {
        seq![reduce(H::digest_of(bytes), modulus)]
    }

    open spec fn admits(&self, bytes: Seq<u8>) -> bool {
        H::admits(bytes.len())
    }

    proof fn lemma_indices_in_range(&self, bytes: Seq<u8>, modulus: nat) {
    }

    proof fn lemma_indices_len(&self, bytes: Seq<u8>, modulus: nat) {
    }

    fn hash_to_indices<T: HashValue + ?Sized>(&self, value: &T, modulus: usize) -> (r: Vec<usize>) {
        let r = vec![digest_index::<H, T>(value, modulus)];
        assert(r@ =~= self.spec_indices(value.hash_bytes(), modulus as nat));
        r
    }
}

impl<H> K for One<H> {
    open spec fn spec_k(&self) -> nat {
        1
    }

    fn k(&self) -> (r: usize) {
        1
    }
}

/// A strategy with two independent digests: each is fed the value from its initial state
/// and gives one position, in the order of the type parameters.
pub struct Two<H1, H2>(PhantomData<(H1, H2)>);

impl<H1, H2> Default for Two<H1, H2> {
    fn default() -> (r: Self) {
        Two(PhantomData)
    }
}

impl<H1: Digest, H2: Digest> HashToIndices for Two<H1, H2> {
    open spec fn spec_indices(&self, bytes: Seq<u8>, modulus: nat) -> Seq<usize> {
        seq![reduce(H1::digest_of(bytes), modulus), reduce(H2::digest_of(bytes), modulus)]
    }

    open spec fn admits(&self, bytes: Seq<u8>) -> bool {
        H1::admits(bytes.len()) && H2::admits(bytes.len())
    }

    proof fn lemma_indices_in_range(&self, bytes: Seq<u8>, modulus: nat) {
    }

    proof fn lemma_indices_len(&self, bytes: Seq<u8>, modulus: nat) {
    }

    fn hash_to_indices<T: HashValue + ?Sized>(&self, value: &T, modulus: usize) -> (r: Vec<usize>) {
        let r = vec![digest_index::<H1, T>(value, modulus), digest_index::<H2, T>(value, modulus)];
        assert(r@ =~= self.spec_indices(value.hash_bytes(), modulus as nat));
        r
    }
}

impl<H1, H2> K for Two<H1, H2> {
    open spec fn spec_k(&self) -> nat {
        2
    }

    fn k(&self) -> (r: usize) {
        2
    }
}

/// A strategy with three independent digests: each is fed the value from its initial state
/// and gives one position, in the order of the type parameters.
pub struct Three<H1, H2, H3>(PhantomData<(H1, H2, H3)>);

impl<H1, H2, H3> Default for Three<H1, H2, H3> {
    fn default() -> (r: Self) {
        Three(PhantomData)
    }
}

impl<H1: Digest, H2: Digest, H3: Digest> HashToIndices for Three<H1, H2, H3> {
    open spec fn spec_indices(&self, bytes: Seq<u8>, modulus: nat) -> Seq<usize> {
        seq![reduce(H1::digest_of(bytes), modulus), reduce(H2::digest_of(bytes), modulus), reduce(H3::digest_of(bytes), modulus)]
    }

    open spec fn admits(&self, bytes: Seq<u8>) -> bool {
        H1::admits(bytes.len()) && H2::admits(bytes.len()) && H3::admits(bytes.len())
    }

    proof fn lemma_indices_in_range(&self, bytes: Seq<u8>, modulus: nat) {
    }

    proof fn lemma_indices_len(&self, bytes: Seq<u8>, modulus: nat) {
    }

    fn hash_to_indices<T: HashValue + ?Sized>(&self, value: &T, modulus: usize) -> (r: Vec<usize>) {
        let r = vec![digest_index::<H1, T>(value, modulus), digest_index::<H2, T>(value, modulus), digest_index::<H3, T>(value, modulus)];
        assert(r@ =~= self.spec_indices(value.hash_bytes(), modulus as nat));
        r
    }
}

impl<H1, H2, H3> K for Three<H1, H2, H3> {
    open spec fn spec_k(&self) -> nat {
        3
    }

    fn k(&self) -> (r: usize) {
        3
    }
}

/// A strategy with four independent digests: each is fed the value from its initial state
/// and gives one position, in the order of the type parameters.
pub struct Four<H1, H2, H3, H4>(PhantomData<(H1, H2, H3, H4)>);

impl<H1, H2, H3, H4> Default for Four<H1, H2, H3, H4> {
    fn default() -> (r: Self) {
        Four(PhantomData)
    }
}

impl<H1: Digest, H2: Digest, H3: Digest, H4: Digest> HashToIndices for Four<H1, H2, H3, H4> {
    open spec fn spec_indices(&self, bytes: Seq<u8>, modulus: nat) -> Seq<usize> {
        seq![reduce(H1::digest_of(bytes), modulus), reduce(H2::digest_of(bytes), modulus), reduce(H3::digest_of(bytes), modulus), reduce(H4::digest_of(bytes), modulus)]
    }

    open spec fn admits(&self, bytes: Seq<u8>) -> bool {
        H1::admits(bytes.len()) && H2::admits(bytes.len()) && H3::admits(bytes.len()) && H4::admits(bytes.len())
    }

    proof fn lemma_indices_in_range(&self, bytes: Seq<u8>, modulus: nat) {
    }

    proof fn lemma_indices_len(&self, bytes: Seq<u8>, modulus: nat) {
    }

    fn hash_to_indices<T: HashValue + ?Sized>(&self, value: &T, modulus: usize) -> (r: Vec<usize>) {
        let r = vec![digest_index::<H1, T>(value, modulus), digest_index::<H2, T>(value, modulus), digest_index::<H3, T>(value, modulus), digest_index::<H4, T>(value, modulus)];
        assert(r@ =~= self.spec_indices(value.hash_bytes(), modulus as nat));
        r
    }
}

impl<H1, H2, H3, H4> K for Four<H1, H2, H3, H4> {
    open spec fn spec_k(&self) -> nat {
        4
    }

    fn k(&self) -> (r: usize) {
        4
    }
}

/// A strategy with five independent digests: each is fed the value from its initial state
/// and gives one position, in the order of the type parameters.
pub struct Five<H1, H2, H3, H4, H5>(PhantomData<(H1, H2, H3, H4, H5)>);

impl<H1, H2, H3, H4, H5> Default for Five<H1, H2, H3, H4, H5> {
    fn default() -> (r: Self) {
        Five(PhantomData)
    }
}

impl<H1: Digest, H2: Digest, H3: Digest, H4: Digest, H5: Digest> HashToIndices for Five<H1, H2, H3, H4, H5> {
    open spec fn spec_indices(&self, bytes: Seq<u8>, modulus: nat) -> Seq<usize> {
        seq![reduce(H1::digest_of(bytes), modulus), reduce(H2::digest_of(bytes), modulus), reduce(H3::digest_of(bytes), modulus), reduce(H4::digest_of(bytes), modulus), reduce(H5::digest_of(bytes), modulus)]
    }

    open spec fn admits(&self, bytes: Seq<u8>) -> bool {
        H1::admits(bytes.len()) && H2::admits(bytes.len()) && H3::admits(bytes.len()) && H4::admits(bytes.len()) && H5::admits(bytes.len())
    }

    proof fn lemma_indices_in_range(&self, bytes: Seq<u8>, modulus: nat) {
    }

    proof fn lemma_indices_len(&self, bytes: Seq<u8>, modulus: nat) {
    }

    fn hash_to_indices<T: HashValue + ?Sized>(&self, value: &T, modulus: usize) -> (r: Vec<usize>) {
        let r = vec![digest_index::<H1, T>(value, modulus), digest_index::<H2, T>(value, modulus), digest_index::<H3, T>(value, modulus), digest_index::<H4, T>(value, modulus), digest_index::<H5, T>(value, modulus)];
        assert(r@ =~= self.spec_indices(value.hash_bytes(), modulus as nat));
        r
    }
}

impl<H1, H2, H3, H4, H5> K for Five<H1, H2, H3, H4, H5> {
    open spec fn spec_k(&self) -> nat {
        5
    }

    fn k(&self) -> (r: usize) {
        5
    }
}

} // verus!
