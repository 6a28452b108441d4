use core::cmp::Ordering;
use vstd::prelude::*;

verus! {

/// Whether a sequence never rises.
pub open spec fn sorted_desc(values: Seq<u64>) -> bool {
    forall|i: int, j: int| 0 <= i <= j < values.len() ==> values[i] >= values[j]
}

/// Sorts in descending order with the standard library's `sort_by` on
/// slices: afterwards the list holds what it held before, each value as often
/// as before, and never rises.
#[verifier::external_body]
pub(crate) fn sort_descending(values: &mut Vec<u64>)
    ensures
        final(values)@.to_multiset() == old(values)@.to_multiset(),
        sorted_desc(final(values)@),
{
    values.sort_by(descending);
}

/// How two values stand to each other in descending order: the larger one
/// comes first.
fn descending(a: &u64, b: &u64) -> (order: Ordering)
    ensures
        order == if *a > *b {
            Ordering::Less
        } else if *a < *b {
            Ordering::Greater
        } else {
            Ordering::Equal
        },
{
    if *a > *b {
        Ordering::Less
    } else if *a < *b {
        Ordering::Greater
    } else {
        Ordering::Equal
    }
}

/// A list that never rises is settled by what it holds: two such lists that
/// hold the same values, each as often as the other, are one and the same.
pub proof fn lemma_sorted_desc_unique(a: Seq<u64>, b: Seq<u64>)
    requires
        sorted_desc(a),
        sorted_desc(b),
        a.to_multiset() == b.to_multiset(),
    ensures
        a == b,
{
    let geq = |x: u64, y: u64| x >= y;
    assert(vstd::relations::sorted_by(a, geq));
    assert(vstd::relations::sorted_by(b, geq));
    assert(vstd::relations::total_ordering(geq));
    vstd::seq_lib::lemma_sorted_unique(a, b, geq);
}

} // verus!
