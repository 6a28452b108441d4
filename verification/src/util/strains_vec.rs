use vstd::prelude::*;

use crate::util::float_bits::{spec_is_nan, spec_lt};
use crate::util::sort::{sort_descending, sorted_desc};

verus! {

/// The bit that separates the two readings of an entry: the sign bit of a
/// double.
pub const SIGN_BIT: u64 = 0x8000_0000_0000_0000;

/// The largest amount of zeros that one entry can stand for.
pub const MAX_RUN: u64 = 0x7FFF_FFFF_FFFF_FFFF;

/// Whether a stored entry stands for a run of zeros.
pub open spec fn is_zero_run(entry: u64) -> bool {
    entry >= SIGN_BIT
}

/// How many zeros a stored entry stands for, if it is a run of zeros.
pub open spec fn run_len(entry: u64) -> nat {
    if entry >= SIGN_BIT {
        (entry - SIGN_BIT) as nat
    } else {
        entry as nat
    }
}

/// The values that one stored entry stands for.
pub open spec fn expand_entry(entry: u64) -> Seq<u64> {
    if is_zero_run(entry) {
        Seq::new(run_len(entry), |i: int| 0u64)
    } else {
        seq![entry]
    }
}

/// The values that a list of stored entries stands for, in order.
pub open spec fn expand(entries: Seq<u64>) -> Seq<u64>
    decreases entries.len(),
{
    if entries.len() == 0 {
        Seq::empty()
    } else {
        expand(entries.drop_last()) + expand_entry(entries.last())
    }
}

/// What a pushed value is stored as: itself if it is the bits of a positive
/// double, and `0` for everything else (zero of either sign and whatever has
/// its sign bit set).
pub open spec fn stored_value(bits: u64) -> u64 {
    if 0 < bits < SIGN_BIT {
        bits
    } else {
        0
    }
}

/// Whether none of the entries is a run of zeros.
pub open spec fn all_values(entries: Seq<u64>) -> bool {
    forall|i: int| 0 <= i < entries.len() ==> !is_zero_run(#[trigger] entries[i])
}

/// Expanding a list with one more entry appends what that entry stands for.
pub proof fn lemma_expand_push(entries: Seq<u64>, entry: u64)
    ensures
        expand(entries.push(entry)) == expand(entries) + expand_entry(entry),
{
    assert(entries.push(entry).drop_last() =~= entries);
}

/// Expanding distributes over concatenation.
pub proof fn lemma_expand_add(a: Seq<u64>, b: Seq<u64>)
    ensures
        expand(a + b) == expand(a) + expand(b),
    decreases b.len(),
{
    if b.len() == 0 {
        assert(a + b =~= a);
        assert(expand(a) + expand(b) =~= expand(a));
    } else {
        lemma_expand_add(a, b.drop_last());
        assert((a + b).drop_last() =~= a + b.drop_last());
        assert((a + b).last() == b.last());
        assert(expand(a + b) =~= expand(a) + expand(b));
    }
}

/// Without runs of zeros the entries are the values themselves.
pub proof fn lemma_expand_all_values(entries: Seq<u64>)
    requires
        all_values(entries),
    ensures
        expand(entries) == entries,
    decreases entries.len(),
{
    if entries.len() > 0 {
        lemma_expand_all_values(entries.drop_last());
        assert(!is_zero_run(entries[entries.len() - 1]));
        assert(expand(entries) =~= entries);
    } else {
        assert(expand(entries) =~= entries);
    }
}

/// No value that a list of stored entries stands for has its sign bit set:
/// every value is the bits of zero or of a positive double.
pub proof fn lemma_expand_non_negative(entries: Seq<u64>)
    ensures
        forall|i: int| 0 <= i < expand(entries).len() ==> #[trigger] expand(entries)[i] < SIGN_BIT,
    decreases entries.len(),
{
    if entries.len() > 0 {
        let front = expand(entries.drop_last());
        let last = expand_entry(entries.last());
        lemma_expand_non_negative(entries.drop_last());
        assert(expand(entries) == front + last);
        assert forall|i: int| 0 <= i < expand(entries).len() implies #[trigger] expand(
            entries,
        )[i] < SIGN_BIT by {
            if i < front.len() {
                assert(expand(entries)[i] == front[i]);
            } else {
                assert(expand(entries)[i] == last[i - front.len()]);
            }
        }
    }
}

/// The stored entries that are values, in their order.
pub open spec fn values_of(entries: Seq<u64>) -> Seq<u64> {
    entries.filter(|e: u64| !is_zero_run(e))
}

/// Whether each of `updated` is what `update` makes of the value of
/// `values` in its place.
pub open spec fn updated_from<F: Fn(usize, u64) -> u64>(
    values: Seq<u64>,
    update: &F,
    updated: Seq<u64>,
) -> bool {
    &&& updated.len() == values.len()
    &&& forall|i: int|
        0 <= i < values.len() ==> call_ensures(update, (i as usize, values[i]), #[trigger] updated[i])
}

/// Whether `sums` are the sum as it stands before each value is added and
/// after the last one: they start with `zero`, and `plus` leads from each to
/// the next by the value in between.
pub open spec fn summed<F: Fn(u64, u64) -> u64>(
    values: Seq<u64>,
    zero: u64,
    plus: &F,
    sums: Seq<u64>,
) -> bool {
    &&& sums.len() == values.len() + 1
    &&& sums[0] == zero
    &&& forall|i: int|
        0 <= i < values.len() ==> call_ensures(plus, (sums[i], values[i]), #[trigger] sums[i + 1])
}

/// Whether `plus` never lowers a sum: from a sum that is a number it leads
/// to a number that is not less.
pub open spec fn never_lowers<F: Fn(u64, u64) -> u64>(plus: &F) -> bool {
    forall|sum: u64, value: u64, next: u64|
        !spec_is_nan(sum) && #[trigger] call_ensures(plus, (sum, value), next) ==> !spec_is_nan(
            next,
        ) && !spec_lt(next, sum)
}

/// Adding more values never lowers a sum: where no single value lowers it,
/// the sum of any number of values is a number that is not less than the sum
/// of fewer of them.
pub proof fn lemma_more_values_never_lower<F: Fn(u64, u64) -> u64>(
    values: Seq<u64>,
    zero: u64,
    plus: &F,
    sums: Seq<u64>,
    fewer: int,
    more: int,
)
    requires
        summed(values, zero, plus, sums),
        never_lowers(plus),
        !spec_is_nan(zero),
        0 <= fewer <= more <= values.len(),
    ensures
        !spec_is_nan(sums[more]),
        !spec_lt(sums[more], sums[fewer]),
        !spec_lt(sums[more], zero),
    decreases more,
{
    if more > 0 {
        lemma_more_values_never_lower(values, zero, plus, sums, 0, more - 1);
        assert(call_ensures(plus, (sums[more - 1], values[more - 1]), sums[more - 1 + 1]));
        if fewer < more {
            lemma_more_values_never_lower(values, zero, plus, sums, fewer, more - 1);
        }
    }
}

/// Either the bits of a positive double or an amount of consecutive zeros.
///
/// While the sign bit is clear the entry is the value. Once it is set, the
/// remaining bits count zeros.
#[derive(Clone, Copy)]
pub struct StrainsEntry {
    bits: u64,
}

impl StrainsEntry {
    /// The entry as it is stored.
    pub closed spec fn raw(self) -> u64 {
        self.bits
    }

    /// An entry for the bits of a positive double.
    pub fn new_value(value: u64) -> (entry: Self)
        requires
            0 < value < SIGN_BIT,
        ensures
            entry.raw() == value,
    {
        Self { bits: value }
    }

    /// An entry for a single zero.
    pub fn new_zero() -> (entry: Self)
        ensures
            entry.raw() == SIGN_BIT + 1,
    {
        Self { bits: SIGN_BIT + 1 }
    }

    /// An entry with the given stored form.
    pub fn from_raw(raw: u64) -> (entry: Self)
        ensures
            entry.raw() == raw,
    {
        Self { bits: raw }
    }

    /// The stored form of the entry.
    pub fn into_raw(self) -> (raw: u64)
        ensures
            raw == self.raw(),
    {
        self.bits
    }

    pub fn is_zero(self) -> (zero: bool)
        ensures
            zero == is_zero_run(self.raw()),
    {
        self.bits >= SIGN_BIT
    }

    pub fn is_value(self) -> (value: bool)
        ensures
            value == !is_zero_run(self.raw()),
    {
        !self.is_zero()
    }

    /// The stored bits, read as a value.
    pub fn value(self) -> (value: u64)
        ensures
            value == self.raw(),
    {
        self.bits
    }

    pub fn try_as_value(self) -> (value: Option<u64>)
        ensures
            value == if is_zero_run(self.raw()) {
                None
            } else {
                Some(self.raw())
            },
    {
        if likely(self.is_value()) {
            Some(self.value())
        } else {
            None
        }
    }

    /// The stored bits without the sign bit.
    pub fn zero_count(self) -> (count: u64)
        ensures
            count == run_len(self.raw()),
    {
        if self.bits >= SIGN_BIT {
            self.bits - SIGN_BIT
        } else {
            self.bits
        }
    }

    pub fn incr_zero_count(&mut self)
        requires
            old(self).raw() < u64::MAX,
        ensures
            final(self).raw() == old(self).raw() + 1,
    {
        self.bits += 1;
    }

    pub fn decr_zero_count(&mut self)
        requires
            old(self).raw() > 0,
        ensures
            final(self).raw() == old(self).raw() - 1,
    {
        self.bits -= 1;
    }
}

/// A list of non-negative doubles, each held as its bits.
///
/// It is compact in the sense that zeros are not stored one by one but as the
/// amount of times they appear consecutively.
#[derive(Clone)]
pub struct StrainsVec {
    inner: Vec<u64>,
    len: usize,
}

impl View for StrainsVec {
    type V = Seq<u64>;

    /// The values in the order in which they were pushed, zeros written out.
    closed spec fn view(&self) -> Seq<u64> {
        expand(self.inner@)
    }
}

impl StrainsVec {
    /// The entries as they are stored.
    pub closed spec fn entries(&self) -> Seq<u64> {
        self.inner@
    }

    /// How many values were pushed.
    pub closed spec fn pushed(&self) -> usize {
        self.len
    }

    /// Every entry is either the bits of a positive double or a run of at
    /// least one zero, and no more values are held than were pushed.
    pub closed spec fn wf(&self) -> bool {
        &&& self@.len() <= self.len
        &&& forall|i: int|
            0 <= i < self.inner@.len() ==> #[trigger] self.inner@[i] != 0 && self.inner@[i]
                != SIGN_BIT
    }

    /// What the view is made of.
    pub proof fn lemma_view(&self)
        ensures
            self@ == expand(self.entries()),
    {
    }

    /// Constructs a new, empty list with at least the specified capacity.
    pub fn with_capacity(capacity: usize) -> (vec: Self)
        ensures
            vec.wf(),
            vec@ == Seq::<u64>::empty(),
            vec.entries() == Seq::<u64>::empty(),
            vec.pushed() == 0,
    {
        Self { inner: Vec::with_capacity(capacity), len: 0 }
    }

    /// Returns the number of values that were pushed.
    pub fn len(&self) -> (len: usize)
        ensures
            len == self.pushed(),
    {
        self.len
    }

    /// Appends a value, given as the bits of a double, to the back.
    pub fn push(&mut self, value: u64)
        requires
            old(self).wf(),
            old(self).pushed() < usize::MAX,
            old(self).pushed() < MAX_RUN,
        ensures
            final(self).wf(),
            final(self)@ == old(self)@.push(stored_value(value)),
            final(self).pushed() == old(self).pushed() + 1,
            final(self).entries() == if 0 < value < SIGN_BIT {
                old(self).entries().push(value)
            } else if old(self).entries().len() > 0 && is_zero_run(old(self).entries().last()) {
                old(self).entries().update(
                    old(self).entries().len() - 1,
                    (old(self).entries().last() + 1) as u64,
                )
            } else {
                old(self).entries().push((SIGN_BIT + 1) as u64)
            },
    {
        let ghost before = self.inner@;
        let n = self.inner.len();
        if likely(value > 0 && value < SIGN_BIT) {
            self.inner.push(value);
            proof {
                lemma_expand_push(before, value);
                assert(expand_entry(value) =~= seq![value]);
                assert(expand(before) + seq![value] =~= expand(before).push(value));
            }
        } else if n > 0 && self.inner[n - 1] >= SIGN_BIT {
            let last = self.inner[n - 1];
            proof {
                lemma_run_below_max(before, self.len);
            }
            self.inner.set(n - 1, last + 1);
            proof {
                assert(before =~= before.drop_last().push(last));
                assert(self.inner@ =~= before.drop_last().push((last + 1) as u64));
                lemma_expand_push(before.drop_last(), last);
                lemma_expand_push(before.drop_last(), (last + 1) as u64);
                assert(expand_entry((last + 1) as u64) =~= expand_entry(last).push(0u64));
                assert(expand(before.drop_last()) + expand_entry(last).push(0u64) =~= (expand(
                    before.drop_last(),
                ) + expand_entry(last)).push(0u64));
            }
        } else {
            self.inner.push(SIGN_BIT + 1);
            proof {
                lemma_expand_push(before, (SIGN_BIT + 1) as u64);
                assert(expand_entry((SIGN_BIT + 1) as u64) =~= seq![0u64]);
                assert(expand(before) + seq![0u64] =~= expand(before).push(0u64));
            }
        }
        self.len += 1;
    }

    /// Sorts the entries in descending order. No run of zeros may be held.
    pub fn sort_desc(&mut self)
        requires
            old(self).wf(),
            all_values(old(self).entries()),
        ensures
            final(self).wf(),
            all_values(final(self).entries()),
            final(self).entries() == final(self)@,
            sorted_desc(final(self)@),
            final(self)@.to_multiset() == old(self)@.to_multiset(),
            final(self).pushed() == old(self).pushed(),
    {
        let ghost before = self.inner@;
        proof {
            lemma_expand_all_values(before);
        }
        sort_descending(&mut self.inner);
        proof {
            let after = self.inner@;
            broadcast use vstd::seq_lib::group_to_multiset_ensures;

            assert forall|i: int| 0 <= i < after.len() implies !is_zero_run(#[trigger] after[i])
                && after[i] != 0 by {
                assert(after.contains(after[i]));
                assert(after.to_multiset().count(after[i]) > 0);
                assert(before.contains(after[i]));
                let k = choose|k: int| 0 <= k < before.len() && before[k] == after[i];
                assert(!is_zero_run(before[k]));
            }
            lemma_expand_all_values(after);
            vstd::seq_lib::to_multiset_len(after);
            vstd::seq_lib::to_multiset_len(before);
        }
    }

    /// Removes all runs of zeros.
    pub fn retain_non_zero(&mut self)
        requires
            old(self).wf(),
        ensures
            final(self).wf(),
            all_values(final(self).entries()),
            final(self).entries() == old(self).entries().filter(|e: u64| !is_zero_run(e)),
            final(self)@ == final(self).entries(),
            final(self)@ == old(self)@.filter(|v: u64| v != 0),
            final(self).pushed() == old(self).pushed(),
    {
        let ghost before = self.inner@;
        let ghost keep = |e: u64| !is_zero_run(e);
        let mut kept: Vec<u64> = Vec::with_capacity(self.inner.len());
        let n = self.inner.len();
        let mut i: usize = 0;
        while i < n
            invariant
                n == self.inner@.len(),
                self.inner@ == before,
                i <= n,
                kept@ == before.take(i as int).filter(keep),
                keep == |e: u64| !is_zero_run(e),
            decreases n - i,
        {
            let entry = self.inner[i];
            proof {
                assert(before.take(i + 1) =~= before.take(i as int).push(entry));
                before.take(i as int).lemma_filter_push(entry, keep);
            }
            if likely(entry < SIGN_BIT) {
                kept.push(entry);
            }
            i += 1;
        }
        proof {
            assert(before.take(n as int) =~= before);
            lemma_filter_runs(before);
            before.lemma_filter_len(keep);
            assert forall|k: int| 0 <= k < kept@.len() implies !is_zero_run(#[trigger] kept@[k])
                && kept@[k] != 0 by {
                before.lemma_filter_pred(keep, k);
                assert(before.filter(keep).contains(kept@[k]));
                before.lemma_filter_contains_rev(keep, kept@[k]);
                let m = choose|m: int| 0 <= m < before.len() && before[m] == kept@[k];
                assert(before[m] != 0);
            }
            lemma_expand_all_values(kept@);
            expand(before).lemma_filter_len(|v: u64| v != 0);
        }
        self.inner = kept;
    }

    /// Removes all zeros and sorts the remaining values in descending order.
    pub fn retain_non_zero_and_sort(&mut self)
        requires
            old(self).wf(),
        ensures
            final(self).wf(),
            all_values(final(self).entries()),
            final(self).entries() == final(self)@,
            sorted_desc(final(self)@),
            final(self)@.to_multiset() == old(self)@.filter(|v: u64| v != 0).to_multiset(),
            final(self).pushed() == old(self).pushed(),
    {
        self.retain_non_zero();
        self.sort_desc();
    }

    /// The values, under the condition that no run of zeros is held.
    pub fn non_zero_iter(&self) -> (values: Vec<u64>)
        requires
            self.wf(),
            all_values(self.entries()),
        ensures
            values@ == self@,
    {
        proof {
            lemma_expand_all_values(self.inner@);
        }
        self.inner.clone()
    }

    /// Same as removing all zeros and sorting in descending order, followed by
    /// reading all values.
    pub fn sorted_non_zero_iter(&mut self) -> (values: Vec<u64>)
        requires
            old(self).wf(),
        ensures
            final(self).wf(),
            values@ == final(self)@,
            sorted_desc(values@),
            values@.to_multiset() == old(self)@.filter(|v: u64| v != 0).to_multiset(),
            final(self).pushed() == old(self).pushed(),
    {
        self.retain_non_zero_and_sort();
        self.non_zero_iter()
    }

    /// Removes all zeros, sorts the remaining values in descending order, and
    /// lets `update` change each of them in place: it takes the place of a
    /// value and the value, and hands back what is to stand in its place,
    /// which has to be the bits of a positive double again.
    pub fn sorted_non_zero_iter_mut<F: Fn(usize, u64) -> u64>(&mut self, update: &F)
        requires
            old(self).wf(),
            forall|i: usize, value: u64| call_requires(update, (i, value)),
            forall|i: usize, value: u64, updated: u64|
                call_ensures(update, (i, value), updated) ==> 0 < updated < SIGN_BIT,
        ensures
            final(self).wf(),
            all_values(final(self).entries()),
            final(self).entries() == final(self)@,
            final(self).pushed() == old(self).pushed(),
            exists|sorted: Seq<u64>|
                {
                    &&& sorted_desc(sorted)
                    &&& sorted.to_multiset() == old(self)@.filter(|v: u64| v != 0).to_multiset()
                    &&& #[trigger] updated_from(sorted, update, final(self)@)
                },
    {
        self.retain_non_zero_and_sort();

        let ghost sorted = self.inner@;
        let n = self.inner.len();
        let mut i: usize = 0;
        while i < n
            invariant
                n == sorted.len(),
                self.inner@.len() == n,
                self.len == old(self).len,
                i <= n,
                expand(sorted).len() <= self.len,
                expand(sorted) == sorted,
                forall|k: int| 0 <= k < n ==> 0 < #[trigger] self.inner@[k] < SIGN_BIT,
                forall|k: int| i <= k < n ==> self.inner@[k] == sorted[k],
                forall|k: int|
                    0 <= k < i ==> call_ensures(
                        update,
                        (k as usize, sorted[k]),
                        #[trigger] self.inner@[k],
                    ),
                forall|i: usize, value: u64| call_requires(update, (i, value)),
                forall|i: usize, value: u64, updated: u64|
                    call_ensures(update, (i, value), updated) ==> 0 < updated < SIGN_BIT,
            decreases n - i,
        {
            let updated = update(i, self.inner[i]);
            self.inner.set(i, updated);
            i += 1;
        }
        proof {
            assert(all_values(self.inner@));
            lemma_expand_all_values(self.inner@);
            assert(updated_from(sorted, update, self@));
        }
    }

    /// Sums up all values but the zeros, in their order, starting from
    /// `zero`: `plus` takes the sum so far and a value and hands back their
    /// sum.
    pub fn sum<F: Fn(u64, u64) -> u64>(&self, zero: u64, plus: &F) -> (sum: u64)
        requires
            self.wf(),
            forall|sum: u64, value: u64| call_requires(plus, (sum, value)),
        ensures
            exists|sums: Seq<u64>| #[trigger]
                summed(values_of(self.entries()), zero, plus, sums) && sum == sums.last(),
    {
        let ghost keep = |e: u64| !is_zero_run(e);
        let ghost mut sums: Seq<u64> = seq![zero];
        let mut sum = zero;
        let n = self.inner.len();
        let mut i: usize = 0;
        while i < n
            invariant
                n == self.inner@.len(),
                i <= n,
                keep == |e: u64| !is_zero_run(e),
                summed(self.inner@.take(i as int).filter(keep), zero, plus, sums),
                sum == sums.last(),
                forall|sum: u64, value: u64| call_requires(plus, (sum, value)),
            decreases n - i,
        {
            let entry = self.inner[i];
            proof {
                assert(self.inner@.take(i + 1) =~= self.inner@.take(i as int).push(entry));
                self.inner@.take(i as int).lemma_filter_push(entry, keep);
            }
            if entry < SIGN_BIT {
                let ghost values = self.inner@.take(i as int).filter(keep);
                let next = plus(sum, entry);
                proof {
                    let longer = sums.push(next);
                    assert forall|k: int| 0 <= k < values.push(entry).len() implies call_ensures(
                        plus,
                        (longer[k], values.push(entry)[k]),
                        #[trigger] longer[k + 1],
                    ) by {
                        if k < values.len() {
                            assert(longer[k + 1] == sums[k + 1]);
                        }
                    }
                    sums = longer;
                }
                sum = next;
            }
            i += 1;
        }
        proof {
            assert(self.inner@.take(n as int) =~= self.inner@);
            assert(self.inner@.take(n as int).filter(keep) == values_of(self.entries()));
            assert(summed(values_of(self.entries()), zero, plus, sums) && sum == sums.last());
        }
        sum
    }

    /// Returns an iterator over the values, zeros included.
    pub fn iter(&self) -> (iter: StrainsIter<'_>)
        requires
            self.wf(),
        ensures
            iter.wf(),
            iter@ == self@,
            iter.spec_len() == self.pushed(),
    {
        StrainsIter::new(self)
    }

    /// Allocates a new list to store all values, including zeros.
    pub fn into_vec(self) -> (values: Vec<u64>)
        requires
            self.wf(),
        ensures
            values@ == self@,
    {
        let mut vec: Vec<u64> = Vec::with_capacity(self.len);
        let n = self.inner.len();
        let mut i: usize = 0;
        while i < n
            invariant
                n == self.inner@.len(),
                i <= n,
                vec@ == expand(self.inner@.take(i as int)),
            decreases n - i,
        {
            let entry = StrainsEntry::from_raw(self.inner[i]);
            let ghost done = vec@;
            proof {
                assert(self.inner@.take(i + 1) =~= self.inner@.take(i as int).push(entry.raw()));
                lemma_expand_push(self.inner@.take(i as int), entry.raw());
            }
            if unlikely(entry.is_zero()) {
                let zero_count = entry.zero_count();
                let mut k: u64 = 0;
                while k < zero_count
                    invariant
                        k <= zero_count,
                        vec@ == done + Seq::new(k as nat, |j: int| 0u64),
                    decreases zero_count - k,
                {
                    vec.push(0);
                    k += 1;
                    proof {
                        assert(vec@ =~= done + Seq::new(k as nat, |j: int| 0u64));
                    }
                }
            } else {
                vec.push(entry.value());
                proof {
                    assert(vec@ =~= done + seq![entry.raw()]);
                }
            }
            i += 1;
        }
        proof {
            assert(self.inner@.take(n as int) =~= self.inner@);
        }
        vec
    }
}

/// A run of zeros in a list that holds at most `len` values is shorter than
/// the largest count that an entry can hold, whenever `len` is.
proof fn lemma_run_below_max(entries: Seq<u64>, len: usize)
    requires
        entries.len() > 0,
        is_zero_run(entries.last()),
        expand(entries).len() <= len,
        len < MAX_RUN,
    ensures
        entries.last() < u64::MAX,
{
    assert(expand(entries) == expand(entries.drop_last()) + expand_entry(entries.last()));
}

/// Dropping the runs of zeros from the entries drops the zeros from the
/// values, as long as no entry is a value of zero.
proof fn lemma_filter_runs(entries: Seq<u64>)
    requires
        forall|i: int| 0 <= i < entries.len() ==> #[trigger] entries[i] != 0,
    ensures
        expand(entries.filter(|e: u64| !is_zero_run(e))) == expand(entries).filter(
            |v: u64| v != 0,
        ),
    decreases entries.len(),
{
    let keep = |e: u64| !is_zero_run(e);
    let non_zero = |v: u64| v != 0;
    if entries.len() == 0 {
        assert(entries.filter(keep) =~= Seq::<u64>::empty());
        assert(expand(entries).filter(non_zero) =~= Seq::<u64>::empty());
    } else {
        let front = entries.drop_last();
        let last = entries.last();
        lemma_filter_runs(front);
        assert(entries =~= front.push(last));
        front.lemma_filter_push(last, keep);
        Seq::filter_distributes_over_add(
            expand(front),
            expand_entry(last),
            non_zero,
        );
        if is_zero_run(last) {
            lemma_filter_zeros(run_len(last));
            assert(expand(front).filter(non_zero) + Seq::<u64>::empty() =~= expand(front).filter(
                non_zero,
            ));
        } else {
            lemma_expand_push(front.filter(keep), last);
            assert(seq![last].filter(non_zero) =~= seq![last]) by {
                reveal_with_fuel(Seq::filter, 2);
                assert(seq![last].drop_last() =~= Seq::<u64>::empty());
            }
        }
    }
}

/// Nothing is left of a run of zeros once the zeros are dropped.
proof fn lemma_filter_zeros(n: nat)
    ensures
        Seq::new(n, |i: int| 0u64).filter(|v: u64| v != 0) == Seq::<u64>::empty(),
    decreases n,
{
    let zeros = Seq::new(n, |i: int| 0u64);
    let non_zero = |v: u64| v != 0;
    if n == 0 {
        assert(zeros.filter(non_zero) =~= Seq::<u64>::empty());
    } else {
        lemma_filter_zeros((n - 1) as nat);
        assert(zeros.drop_last() =~= Seq::new((n - 1) as nat, |i: int| 0u64));
        reveal_with_fuel(Seq::filter, 2);
    }
}

/// Walks over the values of a [`StrainsVec`], zeros included.
pub struct StrainsIter<'a> {
    entries: &'a Vec<u64>,
    next: usize,
    curr: Option<StrainsEntry>,
    len: usize,
}

impl<'a> View for StrainsIter<'a> {
    type V = Seq<u64>;

    /// The values that are still to come.
    closed spec fn view(&self) -> Seq<u64> {
        let rest = expand(self.entries@.skip(self.next as int));
        match self.curr {
            Some(curr) => expand_entry(curr.raw()) + rest,
            None => rest,
        }
    }
}

impl<'a> StrainsIter<'a> {
    /// How many values the iterator says are left.
    pub closed spec fn spec_len(&self) -> usize {
        self.len
    }

    pub closed spec fn wf(&self) -> bool {
        &&& self.next <= self.entries@.len()
        &&& self@.len() <= self.len
        &&& self.curr is None ==> self.next == self.entries@.len()
        &&& forall|i: int| 0 <= i < self.entries@.len() ==> #[trigger] self.entries@[i] != 0
        &&& self.curr matches Some(curr) ==> curr.raw() != 0
    }

    pub fn new(vec: &'a StrainsVec) -> (iter: Self)
        requires
            vec.wf(),
        ensures
            iter.wf(),
            iter@ == vec@,
            iter.spec_len() == vec.pushed(),
    {
        let entries = &vec.inner;
        if entries.len() > 0 {
            let curr = StrainsEntry::from_raw(entries[0]);
            proof {
                assert(entries@ =~= seq![entries@[0]] + entries@.skip(1));
                lemma_expand_add(seq![entries@[0]], entries@.skip(1));
                lemma_expand_push(Seq::<u64>::empty(), entries@[0]);
                assert(Seq::<u64>::empty().push(entries@[0]) =~= seq![entries@[0]]);
                assert(expand(Seq::<u64>::empty()) + expand_entry(entries@[0]) =~= expand_entry(
                    entries@[0],
                ));
            }
            Self { entries, next: 1, curr: Some(curr), len: vec.len }
        } else {
            proof {
                assert(entries@.skip(0) =~= entries@);
            }
            Self { entries, next: 0, curr: None, len: vec.len }
        }
    }

    /// The next value, if one is left.
    pub fn next(&mut self) -> (value: Option<u64>)
        requires
            old(self).wf(),
        ensures
            final(self).wf(),
            old(self)@.len() == 0 ==> value is None && final(self)@.len() == 0
                && final(self).spec_len() == old(self).spec_len(),
            old(self)@.len() > 0 ==> value == Some(old(self)@[0]) && final(self)@ == old(
                self,
            )@.skip(1) && final(self).spec_len() == old(self).spec_len() - 1,
    {
        loop
            invariant
                self.wf(),
                self@ == old(self)@,
                self.spec_len() == old(self).spec_len(),
                self.entries == old(self).entries,
            decreases
                    self.entries@.len() - self.next,
                    if self.curr is Some {
                        1int
                    } else {
                        0int
                    },
        {
            let ghost rest = expand(self.entries@.skip(self.next as int));
            let curr = match self.curr {
                Some(curr) => curr,
                None => {
                    proof {
                        assert(self.entries@.skip(self.next as int) =~= Seq::<u64>::empty());
                    }
                    return None;
                },
            };
            if likely(curr.is_value()) {
                let value = curr.value();
                proof {
                    assert(self@ =~= seq![value] + rest);
                }
                self.advance();
                self.len -= 1;
                proof {
                    assert(self@ =~= (seq![value] + rest).skip(1));
                }
                return Some(value);
            } else if curr.zero_count() > 0 {
                let mut fewer = curr;
                fewer.decr_zero_count();
                proof {
                    assert(expand_entry(curr.raw()) =~= seq![0u64] + expand_entry(fewer.raw()));
                    assert(self@ =~= seq![0u64] + (expand_entry(fewer.raw()) + rest));
                }
                self.curr = Some(fewer);
                self.len -= 1;
                proof {
                    assert(self@ =~= (seq![0u64] + (expand_entry(fewer.raw()) + rest)).skip(1));
                }
                return Some(0);
            }
            proof {
                assert(expand_entry(curr.raw()) =~= Seq::<u64>::empty());
                assert(self@ =~= rest);
            }
            self.advance();
        }
    }

    /// The number of values that the iterator says are left, as both bounds.
    pub fn size_hint(&self) -> (hint: (usize, Option<usize>))
        ensures
            hint == (self.spec_len(), Some(self.spec_len())),
    {
        let len = self.len();
        (len, Some(len))
    }

    /// The number of values that the iterator says are left.
    pub fn len(&self) -> (len: usize)
        ensures
            len == self.spec_len(),
    {
        self.len
    }

    /// Replaces the current entry by the next stored one.
    fn advance(&mut self)
        requires
            old(self).next <= old(self).entries@.len(),
            forall|i: int|
                0 <= i < old(self).entries@.len() ==> #[trigger] old(self).entries@[i] != 0,
        ensures
            final(self).entries == old(self).entries,
            final(self).len == old(self).len,
            final(self).next <= final(self).entries@.len(),
            final(self).curr is None ==> final(self).next == final(self).entries@.len(),
            final(self).curr matches Some(curr) ==> curr.raw() != 0,
            final(self)@ == expand(old(self).entries@.skip(old(self).next as int)),
            old(self).next < old(self).entries@.len() ==> final(self).next == old(self).next + 1,
            old(self).next == old(self).entries@.len() ==> final(self).next == old(self).next
                && final(self).curr is None,
    {
        if self.next < self.entries.len() {
            let raw = self.entries[self.next];
            proof {
                let tail = self.entries@.skip(self.next as int);
                assert(tail =~= seq![raw] + self.entries@.skip(self.next + 1));
                lemma_expand_add(seq![raw], self.entries@.skip(self.next + 1));
                lemma_expand_push(Seq::<u64>::empty(), raw);
                assert(Seq::<u64>::empty().push(raw) =~= seq![raw]);
                assert(expand(Seq::<u64>::empty()) + expand_entry(raw) =~= expand_entry(raw));
            }
            self.curr = Some(StrainsEntry::from_raw(raw));
            self.next += 1;
        } else {
            self.curr = None;
        }
    }
}

/// Marks the path that is rarely taken.
#[inline]
fn cold() {
}

/// Hints at the compiler that the condition is likely `true`.
#[inline]
pub fn likely(b: bool) -> (r: bool)
    ensures
        r == b,
{
    if !b {
        cold();
    }
    b
}

/// Hints at the compiler that the condition is likely `false`.
#[inline]
pub fn unlikely(b: bool) -> (r: bool)
    ensures
        r == b,
{
    if b {
        cold();
    }
    b
}

} // verus!
