//! The flags of a filter after a sequence of insertions, and what holds of them.

use crate::bit_field::all_set;
use crate::bit_field::set_indices;
use crate::hash_to_indicies::HashToIndices;
use crate::hash_to_indicies::K;
use vstd::prelude::*;

verus! {

/// The flags after inserting, in order, values with the given hash bytes into a filter
/// whose flags were `bits`: each insertion is one step of `BloomFilter::insert`.
pub open spec fn insert_all<H: HashToIndices>(
    strategy: H,
    bits: Seq<bool>,
    values: Seq<Seq<u8>>,
) -> Seq<bool>
    decreases values.len(),
{
    if values.len() == 0 {
        bits
    } else {
        set_indices(
            insert_all(strategy, bits, values.drop_last()),
            strategy.spec_indices(values.last(), bits.len()),
        )
    }
}

/// Whether some value among `values` has position `j` in a filter of `m` bits.
pub open spec fn hit_by<H: HashToIndices>(strategy: H, values: Seq<Seq<u8>>, m: nat, j: int) -> bool {
    exists|i: int| 0 <= i < values.len() && (#[trigger] strategy.spec_indices(values[i], m)).contains(j as usize)
}

/// After a sequence of insertions, a flag is set exactly when it was set before or
/// some inserted value has it among its positions.
pub proof fn lemma_insert_all_flags<H: HashToIndices>(strategy: H, bits: Seq<bool>, values: Seq<Seq<u8>>)
    ensures
        insert_all(strategy, bits, values).len() == bits.len(),
        forall|j: int|
            0 <= j < bits.len() ==> (#[trigger] insert_all(strategy, bits, values)[j] <==> (bits[j]
                || hit_by(strategy, values, bits.len(), j))),
    decreases values.len(),
{
    if values.len() > 0 {
        let init = values.drop_last();
        lemma_insert_all_flags(strategy, bits, init);
        assert forall|j: int| 0 <= j < bits.len() implies (#[trigger] insert_all(
            strategy,
            bits,
            values,
        )[j] <==> (bits[j] || hit_by(strategy, values, bits.len(), j))) by {
            let m = bits.len();
            if hit_by(strategy, values, m, j) {
                let i = choose|i: int|
                    0 <= i < values.len() && (#[trigger] strategy.spec_indices(values[i], m)).contains(
                        j as usize,
                    );
                if i < init.len() {
                    assert(init[i] == values[i]);
                    assert(hit_by(strategy, init, m, j));
                }
            }
            if hit_by(strategy, init, m, j) {
                let i = choose|i: int|
                    0 <= i < init.len() && (#[trigger] strategy.spec_indices(init[i], m)).contains(
                        j as usize,
                    );
                assert(values[i] == init[i]);
            }
            if strategy.spec_indices(values.last(), m).contains(j as usize) {
                assert(values[values.len() - 1] == values.last());
            }
        }
    }
}

/// No false negatives: a value inserted into a filter is reported present after that
/// insertion and after any further insertions of other values.
pub proof fn lemma_no_false_negatives<H: HashToIndices>(
    strategy: H,
    bits: Seq<bool>,
    value: Seq<u8>,
    later: Seq<Seq<u8>>,
)
    requires
        bits.len() > 0,
    ensures
        all_set(
            insert_all(strategy, bits, seq![value] + later),
            strategy.spec_indices(value, bits.len()),
        ),
{
    let values = seq![value] + later;
    let m = bits.len();
    let idx = strategy.spec_indices(value, m);
    lemma_insert_all_flags(strategy, bits, values);
    strategy.lemma_indices_in_range(value, m);
    assert forall|i: int| 0 <= i < idx.len() implies (#[trigger] idx[i] as int) < m && insert_all(
        strategy,
        bits,
        values,
    )[idx[i] as int] by {
        assert(values[0] == value);
        assert(idx.contains(idx[i]));
        assert(hit_by(strategy, values, m, idx[i] as int));
    }
}

/// The order of insertions does not matter, nor does inserting a value more than once:
/// two sequences that hold the same values leave the same flags. So values split in any
/// way among concurrent writers, whose insertions interleave in any order, leave the
/// flags that inserting them all one after another leaves.
pub proof fn lemma_insert_order_irrelevant<H: HashToIndices>(
    strategy: H,
    bits: Seq<bool>,
    a: Seq<Seq<u8>>,
    b: Seq<Seq<u8>>,
)
    requires
        a.to_set() == b.to_set(),
    ensures
        insert_all(strategy, bits, a) == insert_all(strategy, bits, b),
{
    let m = bits.len();
    lemma_insert_all_flags(strategy, bits, a);
    lemma_insert_all_flags(strategy, bits, b);
    assert forall|j: int| 0 <= j < m implies hit_by(strategy, a, m, j) == hit_by(strategy, b, m, j) by {
        if hit_by(strategy, a, m, j) {
            let i = choose|i: int|
                0 <= i < a.len() && (#[trigger] strategy.spec_indices(a[i], m)).contains(j as usize);
            assert(a.to_set().contains(a[i]));
            assert(b.to_set().contains(a[i]));
            let w = choose|w: int| 0 <= w < b.len() && b[w] == a[i];
            assert(strategy.spec_indices(b[w], m).contains(j as usize));
        }
        if hit_by(strategy, b, m, j) {
            let i = choose|i: int|
                0 <= i < b.len() && (#[trigger] strategy.spec_indices(b[i], m)).contains(j as usize);
            assert(b.to_set().contains(b[i]));
            assert(a.to_set().contains(b[i]));
            let w = choose|w: int| 0 <= w < a.len() && a[w] == b[i];
            assert(strategy.spec_indices(a[w], m).contains(j as usize));
        }
    }
    assert(insert_all(strategy, bits, a) =~= insert_all(strategy, bits, b));
}

/// Inserting a value twice leaves the flags that inserting it once leaves.
pub proof fn lemma_insert_idempotent<H: HashToIndices>(strategy: H, bits: Seq<bool>, value: Seq<u8>)
    ensures
        insert_all(strategy, bits, seq![value, value]) == insert_all(strategy, bits, seq![value]),
{
    let m = bits.len();
    let idx = strategy.spec_indices(value, m);
    assert(seq![value, value].drop_last() =~= seq![value]);
    assert(seq![value].drop_last() =~= Seq::<Seq<u8>>::empty());
    assert(set_indices(set_indices(bits, idx), idx) =~= set_indices(bits, idx));
}

/// A new filter, whose flags are all clear, reports every value absent when its strategy
/// produces at least one position.
pub proof fn lemma_new_filter_reports_absent<H: HashToIndices>(strategy: H, m: nat, value: Seq<u8>)
    requires
        m > 0,
        strategy.spec_k() > 0,
    ensures
        !all_set(Seq::new(m, |_j: int| false), strategy.spec_indices(value, m)),
{
    strategy.lemma_indices_len(value, m);
    let idx = strategy.spec_indices(value, m);
    assert(!Seq::new(m, |_j: int| false)[idx[0] as int] || idx[0] as int >= m);
}

} // verus!
