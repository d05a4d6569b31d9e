//! Digest functions and the bytes that a value feeds into them.
//!
//! A digest is modelled by the bytes it has absorbed since it was created: its output
//! is a function of those bytes alone, so two digests fed the same bytes agree.

use hashers::fnv::FNV1aHasher32;
use murmur3::murmur3_32::MurmurHasher;
use std::hash::Hasher;
use vstd::prelude::*;
use vstd::string::StringSliceAdditionalSpecFns;
use vstd::utf8::encode_utf8;
use vstd::bytes::spec_u128_to_le_bytes;
use vstd::bytes::spec_u16_to_le_bytes;
use vstd::bytes::spec_u32_to_le_bytes;
use vstd::bytes::spec_u64_to_le_bytes;
use vstd::bytes::u128_to_le_bytes;
use vstd::bytes::u16_to_le_bytes;
use vstd::bytes::u32_to_le_bytes;
use vstd::bytes::u64_to_le_bytes;

verus! {

/// A deterministic, default-constructible digest that absorbs bytes and yields a 64-bit output.
pub trait Digest: Sized {
    /// The bytes absorbed since creation, in order.
    spec fn absorbed(&self) -> Seq<u8>;

    /// The output of a fresh digest after absorbing `bytes`.
    spec fn digest_of(bytes: Seq<u8>) -> u64;

    /// Whether a digest can absorb `len` bytes in all.
    spec fn admits(len: nat) -> bool;

    proof fn lemma_admits_shorter(short: nat, long: nat)
        requires
            Self::admits(long),
            short <= long,
        ensures
            Self::admits(short),
    ;

    /// A digest in its initial state.
    fn fresh() -> (r: Self)
        ensures
            r.absorbed() == Seq::<u8>::empty(),
    ;

    /// Feeds `bytes` after those absorbed before.
    fn absorb(&mut self, bytes: &[u8])
        requires
            Self::admits(old(self).absorbed().len() + bytes@.len()),
        ensures
            final(self).absorbed() == old(self).absorbed() + bytes@,
    ;

    /// The output for the bytes absorbed so far; the state is kept, so more can follow.
    fn output(&self) -> (r: u64)
        ensures
            r == Self::digest_of(self.absorbed()),
    ;
}

/// A value that can be hashed: the bytes it feeds into a digest.
pub trait HashValue {
    spec fn hash_bytes(&self) -> Seq<u8>;

    /// Feeds the value's bytes into `d`.
    fn feed<D: Digest>(&self, d: &mut D)
        requires
            D::admits(old(d).absorbed().len() + self.hash_bytes().len()),
        ensures
            final(d).absorbed() == old(d).absorbed() + self.hash_bytes(),
    ;
}

/// Marks the end of a string, so that `("ab", "c")` and `("a", "bc")` hash apart.
pub const STR_END: u8 = 0xff;

impl HashValue for str {
    open spec fn hash_bytes(&self) -> Seq<u8> {
        self.spec_bytes().push(STR_END)
    }

    fn feed<D: Digest>(&self, d: &mut D) {
        let end: [u8; 1] = [STR_END];
        proof {
            D::lemma_admits_shorter(
                old(d).absorbed().len() + self.spec_bytes().len(),
                old(d).absorbed().len() + self.hash_bytes().len(),
            );
        }
        d.absorb(self.as_bytes());
        d.absorb(end.as_slice());
        assert(d.absorbed() =~= old(d).absorbed() + self.hash_bytes());
    }
}

impl HashValue for String {
    open spec fn hash_bytes(&self) -> Seq<u8> {
        encode_utf8(self@).push(STR_END)
    }

    fn feed<D: Digest>(&self, d: &mut D) {
        self.as_str().feed(d);
    }
}

// Integers feed their bytes, least significant first; `usize` and `isize` as 64 bits.
// This is the encoding of std's `Hash` only on 64-bit little-endian targets: std uses the
// native byte order and width.
impl HashValue for u8 {
    open spec fn hash_bytes(&self) -> Seq<u8> {
        seq![*self]
    }

    fn feed<D: Digest>(&self, d: &mut D) {
        let bytes: [u8; 1] = [*self];
        d.absorb(bytes.as_slice());
    }
}

impl HashValue for i8 {
    open spec fn hash_bytes(&self) -> Seq<u8> {
        seq![*self as u8]
    }

    fn feed<D: Digest>(&self, d: &mut D) {
        let bytes: [u8; 1] = [*self as u8];
        d.absorb(bytes.as_slice());
    }
}

impl HashValue for u16 {
    open spec fn hash_bytes(&self) -> Seq<u8> {
        spec_u16_to_le_bytes(*self)
    }

    fn feed<D: Digest>(&self, d: &mut D) {
        let bytes = u16_to_le_bytes(*self);
        d.absorb(bytes.as_slice());
    }
}

impl HashValue for i16 {
    open spec fn hash_bytes(&self) -> Seq<u8> {
        spec_u16_to_le_bytes(*self as u16)
    }

    fn feed<D: Digest>(&self, d: &mut D) {
        let bytes = u16_to_le_bytes(*self as u16);
        d.absorb(bytes.as_slice());
    }
}

impl HashValue for u32 {
    open spec fn hash_bytes(&self) -> Seq<u8> {
        spec_u32_to_le_bytes(*self)
    }

    fn feed<D: Digest>(&self, d: &mut D) {
        let bytes = u32_to_le_bytes(*self);
        d.absorb(bytes.as_slice());
    }
}

impl HashValue for i32 {
    open spec fn hash_bytes(&self) -> Seq<u8> {
        spec_u32_to_le_bytes(*self as u32)
    }

    fn feed<D: Digest>(&self, d: &mut D) {
        let bytes = u32_to_le_bytes(*self as u32);
        d.absorb(bytes.as_slice());
    }
}

impl HashValue for u64 {
    open spec fn hash_bytes(&self) -> Seq<u8> {
        spec_u64_to_le_bytes(*self)
    }

    fn feed<D: Digest>(&self, d: &mut D) {
        let bytes = u64_to_le_bytes(*self);
        d.absorb(bytes.as_slice());
    }
}

impl HashValue for i64 {
    open spec fn hash_bytes(&self) -> Seq<u8> {
        spec_u64_to_le_bytes(*self as u64)
    }

    fn feed<D: Digest>(&self, d: &mut D) {
        let bytes = u64_to_le_bytes(*self as u64);
        d.absorb(bytes.as_slice());
    }
}

impl HashValue for usize {
    open spec fn hash_bytes(&self) -> Seq<u8> {
        spec_u64_to_le_bytes(*self as u64)
    }

    fn feed<D: Digest>(&self, d: &mut D) {
        let bytes = u64_to_le_bytes(*self as u64);
        d.absorb(bytes.as_slice());
    }
}

impl HashValue for isize {
    open spec fn hash_bytes(&self) -> Seq<u8> {
        spec_u64_to_le_bytes(*self as u64)
    }

    fn feed<D: Digest>(&self, d: &mut D) {
        let bytes = u64_to_le_bytes(*self as u64);
        d.absorb(bytes.as_slice());
    }
}

impl HashValue for u128 {
    open spec fn hash_bytes(&self) -> Seq<u8> {
        spec_u128_to_le_bytes(*self)
    }

    fn feed<D: Digest>(&self, d: &mut D) {
        let bytes = u128_to_le_bytes(*self);
        d.absorb(bytes.as_slice());
    }
}

impl HashValue for i128 {
    open spec fn hash_bytes(&self) -> Seq<u8> {
        spec_u128_to_le_bytes(*self as u128)
    }

    fn feed<D: Digest>(&self, d: &mut D) {
        let bytes = u128_to_le_bytes(*self as u128);
        d.absorb(bytes.as_slice());
    }
}

// A `bool` feeds one byte, 1 or 0; a `char` feeds its scalar value as a `u32`.
impl HashValue for bool {
    open spec fn hash_bytes(&self) -> Seq<u8> {
        seq![if *self { 1u8 } else { 0u8 }]
    }

    fn feed<D: Digest>(&self, d: &mut D) {
        let bytes: [u8; 1] = [if *self { 1u8 } else { 0u8 }];
        d.absorb(bytes.as_slice());
    }
}

impl HashValue for char {
    open spec fn hash_bytes(&self) -> Seq<u8> {
        spec_u32_to_le_bytes(*self as u32)
    }

    fn feed<D: Digest>(&self, d: &mut D) {
        let bytes = u32_to_le_bytes(*self as u32);
        d.absorb(bytes.as_slice());
    }
}

impl<'a, V: HashValue + ?Sized> HashValue for &'a V {
    open spec fn hash_bytes(&self) -> Seq<u8> {
        (**self).hash_bytes()
    }

    fn feed<D: Digest>(&self, d: &mut D) {
        (**self).feed(d);
    }
}

#[verifier::external_type_specification]
#[verifier::external_body]
pub struct ExMurmurHasher(MurmurHasher);

/// The bytes a murmur hasher has been fed since it was created.
pub uninterp spec fn murmur_absorbed(h: MurmurHasher) -> Seq<u8>;

/// 32-bit MurmurHash3 with seed 0 of `bytes`.
pub uninterp spec fn murmur3_32_of(bytes: Seq<u8>) -> u32;

/// Relies on `MurmurHasher::default`: a hasher that has been fed nothing.
#[verifier::external_body]
fn murmur_fresh() -> (r: MurmurHasher)
    ensures
        murmur_absorbed(r) == Seq::<u8>::empty(),
{
    MurmurHasher::default()
}

/// Relies on `Hasher::write` of `MurmurHasher`: streams `bytes` after those fed before.
/// It counts the bytes fed in a `u32`, which must not overflow.
#[verifier::external_body]
fn murmur_write(h: &mut MurmurHasher, bytes: &[u8])
    requires
        murmur_absorbed(*old(h)).len() + bytes@.len() <= u32::MAX,
    ensures
        murmur_absorbed(*final(h)) == murmur_absorbed(*old(h)) + bytes@,
{
    h.write(bytes)
}

/// Relies on `Hasher::finish` of `MurmurHasher`: the 32-bit MurmurHash3 of the bytes fed, widened.
#[verifier::external_body]
fn murmur_finish(h: &MurmurHasher) -> (r: u64)
    ensures
        r == murmur3_32_of(murmur_absorbed(*h)) as u64,
{
    h.finish()
}

impl Digest for MurmurHasher {
    open spec fn absorbed(&self) -> Seq<u8> {
        murmur_absorbed(*self)
    }

    open spec fn digest_of(bytes: Seq<u8>) -> u64 {
        murmur3_32_of(bytes) as u64
    }

    open spec fn admits(len: nat) -> bool {
        len <= u32::MAX
    }

    proof fn lemma_admits_shorter(short: nat, long: nat) {
    }

    /// A digest in its initial state.
    fn fresh() -> (r: Self) {
        murmur_fresh()
    }

    fn absorb(&mut self, bytes: &[u8]) {
        murmur_write(self, bytes)
    }

    fn output(&self) -> (r: u64) {
        murmur_finish(self)
    }
}

/// FNV-1a offset basis, 32 bits.
pub const FNV32_OFFSET: u32 = 0x811c9dc5;

/// FNV-1a prime, 32 bits.
pub const FNV32_PRIME: u32 = 16777619;

/// 32-bit FNV-1a of `bytes`: each byte is xored into the state, which is then
/// multiplied by the prime modulo 2^32.
pub open spec fn fnv1a32(bytes: Seq<u8>) -> u32
    decreases bytes.len(),
{
    if bytes.len() == 0 {
        FNV32_OFFSET
    } else {
        let prev = fnv1a32(bytes.drop_last());
        (((prev ^ (bytes.last() as u32)) as nat * FNV32_PRIME as nat) % 0x1_0000_0000) as u32
    }
}

#[verifier::external_type_specification]
#[verifier::external_body]
pub struct ExFnv1aHasher32(FNV1aHasher32);

/// The bytes an FNV-1a hasher has been fed since it was created.
pub uninterp spec fn fnv32_absorbed(h: FNV1aHasher32) -> Seq<u8>;

/// Relies on `FNV1aHasher32::default`: a hasher that has been fed nothing.
#[verifier::external_body]
fn fnv32_fresh() -> (r: FNV1aHasher32)
    ensures
        fnv32_absorbed(r) == Seq::<u8>::empty(),
{
    FNV1aHasher32::default()
}

/// Relies on `Hasher::write` of `FNV1aHasher32`: folds `bytes` into the state, one at a time.
#[verifier::external_body]
fn fnv32_write(h: &mut FNV1aHasher32, bytes: &[u8])
    ensures
        fnv32_absorbed(*final(h)) == fnv32_absorbed(*old(h)) + bytes@,
{
    h.write(bytes)
}

/// Relies on `Hasher::finish` of `FNV1aHasher32`: the 32-bit FNV-1a state, widened.
#[verifier::external_body]
fn fnv32_finish(h: &FNV1aHasher32) -> (r: u64)
    ensures
        r == fnv1a32(fnv32_absorbed(*h)) as u64,
{
    h.finish()
}

impl Digest for FNV1aHasher32 {
    open spec fn absorbed(&self) -> Seq<u8> {
        fnv32_absorbed(*self)
    }

    open spec fn digest_of(bytes: Seq<u8>) -> u64 {
        fnv1a32(bytes) as u64
    }

    open spec fn admits(len: nat) -> bool {
        true
    }

    proof fn lemma_admits_shorter(short: nat, long: nat) {
    }

    /// A digest in its initial state.
    fn fresh() -> (r: Self) {
        fnv32_fresh()
    }

    fn absorb(&mut self, bytes: &[u8]) {
        fnv32_write(self, bytes)
    }

    fn output(&self) -> (r: u64) {
        fnv32_finish(self)
    }
}

} // verus!
