//! The fixed-size bit array behind the sequential filters, held in a `bit_vec::BitVec`.

use bit_vec::BitVec;
use vstd::prelude::*;

verus! {

#[verifier::external_type_specification]
#[verifier::external_body]
#[verifier::reject_recursive_types(B)]
pub struct ExBitVec<B>(BitVec<B>);

/// The flags held by a bit vector, in index order.
pub uninterp spec fn bits_of(v: BitVec) -> Seq<bool>;

/// `bits` with every position listed in `indices` set; positions out of range are ignored.
pub open spec fn set_indices(bits: Seq<bool>, indices: Seq<usize>) -> Seq<bool> {
    Seq::new(bits.len(), |j: int| bits[j] || indices.contains(j as usize))
}

/// Whether every position listed in `indices` is in range and set in `bits`.
pub open spec fn all_set(bits: Seq<bool>, indices: Seq<usize>) -> bool {
    forall|i: int| 0 <= i < indices.len() ==> (#[trigger] indices[i] as int) < bits.len() && bits[indices[i] as int]
}

/// `bits` written as a string of `'1'` for each set flag and `'0'` for each clear one.
pub open spec fn bit_chars(bits: Seq<bool>) -> Seq<char> {
    Seq::new(bits.len(), |j: int| if bits[j] { '1' } else { '0' })
}

/// Relies on `String::push`: appends `c`.
#[verifier::external_body]
pub(crate) fn push_char(s: &mut String, c: char)
    ensures
        final(s)@ == old(s)@.push(c),
{
    s.push(c)
}

/// Relies on `BitVec::from_elem`: `m` flags, each equal to `bit`.
#[verifier::external_body]
pub(crate) fn bits_from_elem(m: usize, bit: bool) -> (r: BitVec)
    ensures
        bits_of(r) == Seq::new(m as nat, |_j: int| bit),
{
    BitVec::from_elem(m, bit)
}

/// Relies on `BitVec::len`: the number of flags.
#[verifier::external_body]
pub(crate) fn bits_len(v: &BitVec) -> (r: usize)
    ensures
        r == bits_of(*v).len(),
{
    v.len()
}

/// Relies on `BitVec::get`: the flag at `i`, or `None` past the end.
#[verifier::external_body]
pub(crate) fn bits_get(v: &BitVec, i: usize) -> (r: Option<bool>)
    ensures
        i < bits_of(*v).len() ==> r == Some(bits_of(*v)[i as int]),
        i >= bits_of(*v).len() ==> r is None,
{
    v.get(i)
}

/// Relies on `BitVec::set`: replaces the flag at `i`; it panics when `i` is out of range.
#[verifier::external_body]
pub(crate) fn bits_set(v: &mut BitVec, i: usize, x: bool)
    requires
        i < bits_of(*old(v)).len(),
    ensures
        bits_of(*final(v)) == bits_of(*old(v)).update(i as int, x),
{
    v.set(i, x)
}

} // verus!
