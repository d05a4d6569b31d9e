//! The chained strategy: one digest, fed the same value again and again.

use crate::digest::Digest;
use crate::digest::HashValue;
use crate::hash_to_indicies::digest_index;
use crate::hash_to_indicies::reduce;
use crate::hash_to_indicies::reduce_index;
use crate::hash_to_indicies::HashToIndices;
use crate::hash_to_indicies::K;
use std::marker::PhantomData;
use vstd::prelude::*;

verus! {

/// `bytes` repeated `n` times.
pub open spec fn repeat_bytes(bytes: Seq<u8>, n: nat) -> Seq<u8>
    decreases n,
{
    if n == 0 {
        Seq::empty()
    } else {
        repeat_bytes(bytes, (n - 1) as nat) + bytes
    }
}

pub proof fn lemma_repeat_len(bytes: Seq<u8>, n: nat)
    ensures
        repeat_bytes(bytes, n).len() == n * bytes.len(),
    decreases n,
{
    if n > 0 {
        lemma_repeat_len(bytes, (n - 1) as nat);
        assert(n * bytes.len() == (n - 1) * bytes.len() + bytes.len()) by (nonlinear_arith);
    } else {
        assert(0 * bytes.len() == 0);
    }
}

/// A strategy that hashes a value to indices with a single digest, reusing its state:
/// round `i` feeds the value once more into the digest that has absorbed the `i`
/// earlier rounds, and reads the position from its output.
pub struct ReHasher<D> {
    k: usize,
    digest: PhantomData<D>,
}

impl<D> ReHasher<D> {
    pub fn new(k: usize) -> (r: Self)
        ensures
            r.spec_k() == k,
    {
        ReHasher { k, digest: PhantomData }
    }
}

impl<D> Default for ReHasher<D> {
    /// Four rounds; `new` is the intended constructor.
    fn default() -> (r: Self)
        ensures
            r.spec_k() == 4,
    {
        ReHasher { k: 4, digest: PhantomData }
    }
}

impl<D: Digest> HashToIndices for ReHasher<D> {
    open spec fn spec_indices(&self, bytes: Seq<u8>, modulus: nat) -> Seq<usize> {
        Seq::new(self.spec_k(), |i: int| reduce(D::digest_of(repeat_bytes(bytes, (i + 1) as nat)), modulus))
    }

    open spec fn admits(&self, bytes: Seq<u8>) -> bool {
        D::admits(self.spec_k() * bytes.len())
    }

    proof fn lemma_indices_in_range(&self, bytes: Seq<u8>, modulus: nat) {
    }

    proof fn lemma_indices_len(&self, bytes: Seq<u8>, modulus: nat) {
    }

    fn hash_to_indices<T: HashValue + ?Sized>(&self, value: &T, modulus: usize) -> (r: Vec<usize>) {
        let ghost bytes = value.hash_bytes();
        let mut h = D::fresh();
        let mut out: Vec<usize> = Vec::new();
        let mut i: usize = 0;
        while i < self.k
            invariant
                i <= self.k,
                modulus > 0,
                D::admits(self.k as nat * bytes.len()),
                bytes == value.hash_bytes(),
                h.absorbed() == repeat_bytes(bytes, i as nat),
                out@ == Seq::new(i as nat, |j: int| reduce(D::digest_of(repeat_bytes(bytes, (j + 1) as nat)), modulus as nat)),
            decreases self.k - i,
        {
            proof {
                lemma_repeat_len(bytes, i as nat);
                let n = i as nat;
                let k = self.k as nat;
                let len = bytes.len();
                assert((n + 1) * len <= k * len) by (nonlinear_arith)
                    requires n < k;
                assert(n * len + len == (n + 1) * len) by (nonlinear_arith);
                D::lemma_admits_shorter((n + 1) * len, k * len);
            }
            value.feed(&mut h);
            assert(h.absorbed() == repeat_bytes(bytes, (i + 1) as nat));
            out.push(reduce_index(h.output(), modulus));
            i = i + 1;
            assert(out@ =~= Seq::new(i as nat, |j: int| reduce(D::digest_of(repeat_bytes(bytes, (j + 1) as nat)), modulus as nat)));
        }
        out
    }
}

impl<D> K for ReHasher<D> {
    closed spec fn spec_k(&self) -> nat {
        self.k as nat
    }

    fn k(&self) -> (r: usize) {
        self.k
    }
}

/// A larger `k` extends the same chain: the positions of a chained strategy with `k1`
/// rounds are the first `k1` positions of one with `k2 >= k1` rounds.
pub proof fn lemma_rehasher_prefix<D: Digest>(
    short: ReHasher<D>,
    long: ReHasher<D>,
    bytes: Seq<u8>,
    modulus: nat,
)
    requires
        short.spec_k() <= long.spec_k(),
    ensures
        short.spec_indices(bytes, modulus) == long.spec_indices(bytes, modulus).take(
            short.spec_k() as int,
        ),
{
    assert(short.spec_indices(bytes, modulus) =~= long.spec_indices(bytes, modulus).take(
        short.spec_k() as int,
    ));
}

} // verus!
