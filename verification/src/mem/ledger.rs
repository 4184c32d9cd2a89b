//! The ledger of bytes outstanding, in total and per tag.

use crate::mem::counter::counter_fetch_add;
use crate::mem::counter::counter_fetch_sub;
use crate::mem::counter::counter_load;
use crate::mem::counter::counter_new;
use crate::mem::counter::counter_value;
use crate::mem::counter::wrapping_sum;
use crate::mem::tag::tag_index;
use crate::mem::tag::MemoryTag;
use crate::mem::tag::TAG_COUNT;
use portable_atomic::AtomicU128;
use vstd::prelude::*;

verus! {

/// Counters of bytes outstanding: one for the total and one for each tag.
pub struct Ledger {
    total: AtomicU128,
    tagged: Vec<AtomicU128>,
}

/// What a ledger holds: the bytes outstanding in total and per tag, the tags in
/// enumeration order.
pub struct Counts {
    pub total: u128,
    pub tagged: Seq<u128>,
}

impl Counts {
    /// Nothing outstanding, in total or under any tag.
    pub open spec fn zero() -> Counts {
        Counts { total: 0, tagged: Seq::new(TAG_COUNT as nat, |i: int| 0u128) }
    }

    /// Bytes outstanding under one tag.
    pub open spec fn of(self, tag: MemoryTag) -> u128 {
        self.tagged[tag_index(tag) as int]
    }

    /// The counts after `bytes` were added to the total and to the counter of `tag`.
    pub open spec fn credit(self, bytes: u128, tag: MemoryTag) -> Counts {
        Counts {
            total: wrapping_sum(self.total, bytes),
            tagged: self.tagged.update(tag_index(tag) as int, wrapping_sum(self.of(tag), bytes)),
        }
    }

    /// The counts after `bytes` were taken from the total and from the counter of `tag`.
    pub open spec fn debit(self, bytes: u128, tag: MemoryTag) -> Counts {
        Counts {
            total: (self.total - bytes) as u128,
            tagged: self.tagged.update(tag_index(tag) as int, (self.of(tag) - bytes) as u128),
        }
    }

    /// Whether `bytes` can be taken from the total and from the counter of `tag` without
    /// either going below zero.
    pub open spec fn covers(self, bytes: nat, tag: MemoryTag) -> bool {
        bytes <= self.total && bytes <= self.of(tag)
    }
}

/// The sum of a sequence of byte counts.
pub open spec fn sum_of(counts: Seq<u128>) -> nat
    decreases counts.len(),
{
    if counts.len() == 0 {
        0
    } else {
        sum_of(counts.drop_last()) + counts.last() as nat
    }
}

/// Replacing one count changes the sum by the difference.
pub proof fn lemma_sum_of_update(counts: Seq<u128>, index: int, count: u128)
    requires
        0 <= index < counts.len(),
    ensures
        sum_of(counts.update(index, count)) + counts[index] == sum_of(counts) + count,
    decreases counts.len(),
{
    let updated = counts.update(index, count);
    if index == counts.len() - 1 {
        assert(updated.drop_last() =~= counts.drop_last());
    } else {
        assert(updated.drop_last() =~= counts.drop_last().update(index, count));
        lemma_sum_of_update(counts.drop_last(), index, count);
    }
}

impl View for Ledger {
    type V = Counts;

    closed spec fn view(&self) -> Counts {
        Counts {
            total: counter_value(self.total),
            tagged: Seq::new(self.tagged@.len(), |i: int| counter_value(self.tagged@[i])),
        }
    }
}

impl Ledger {
    /// Bytes outstanding under all tags together.
    pub open spec fn total(&self) -> u128 {
        self@.total
    }

    /// Bytes outstanding per tag, in enumeration order.
    pub open spec fn tagged_counts(&self) -> Seq<u128> {
        self@.tagged
    }

    /// Bytes outstanding under one tag.
    pub open spec fn tagged(&self, tag: MemoryTag) -> u128 {
        self@.of(tag)
    }

    /// A ledger has one counter per tag, and its total is the sum of the per-tag
    /// counters, as far as 128 bits hold it.
    pub open spec fn wf(&self) -> bool {
        &&& self.tagged_counts().len() == TAG_COUNT
        &&& self.total() as nat == sum_of(self.tagged_counts()) % (u128::MAX as nat + 1)
    }

    /// Adds `bytes` to the total and to the counter of `tag`.
    pub fn credit(&mut self, bytes: u128, tag: MemoryTag)
        requires
            old(self).wf(),
        ensures
            final(self).wf(),
            final(self)@ == old(self)@.credit(bytes, tag),
    {
        let i = tag.index();
        let ghost before = self.tagged_counts();
        counter_fetch_add(&mut self.total, bytes);
        counter_fetch_add(&mut self.tagged[i], bytes);
        proof {
            let count = wrapping_sum(before[i as int], bytes);
            let after = before.update(i as int, count);
            assert(self.tagged_counts() =~= after);
            lemma_sum_of_update(before, i as int, count);
            let wraps_total: int = if old(self).total() + bytes > u128::MAX { 1 } else { 0 };
            let wraps_count: int = if before[i as int] + bytes > u128::MAX { 1 } else { 0 };
            lemma_same_remainder(
                sum_of(before),
                sum_of(after),
                old(self).total() as nat,
                self.total() as nat,
                wraps_total - wraps_count,
            );
        }
    }

    /// Takes `bytes` from the total and from the counter of `tag`. Neither counter may
    /// go below zero.
    pub fn debit(&mut self, bytes: u128, tag: MemoryTag)
        requires
            old(self).wf(),
            old(self)@.covers(bytes as nat, tag),
        ensures
            final(self).wf(),
            final(self)@ == old(self)@.debit(bytes, tag),
    {
        let i = tag.index();
        let ghost before = self.tagged_counts();
        counter_fetch_sub(&mut self.total, bytes);
        counter_fetch_sub(&mut self.tagged[i], bytes);
        proof {
            let count = (before[i as int] - bytes) as u128;
            let after = before.update(i as int, count);
            assert(self.tagged_counts() =~= after);
            lemma_sum_of_update(before, i as int, count);
            lemma_same_remainder(
                sum_of(before),
                sum_of(after),
                old(self).total() as nat,
                self.total() as nat,
                0,
            );
        }
    }
}

/// Sets up the ledger: nothing is outstanding, in total or under any tag.
pub fn init() -> (ledger: Ledger)
    ensures
        ledger.wf(),
        ledger@ == Counts::zero(),
{
    let mut tagged: Vec<AtomicU128> = Vec::new();
    let mut i: usize = 0;
    while i < TAG_COUNT
        invariant
            i <= TAG_COUNT,
            tagged@.len() == i,
            forall|j: int| 0 <= j < i ==> counter_value(#[trigger] tagged@[j]) == 0,
        decreases TAG_COUNT - i,
    {
        tagged.push(counter_new(0));
        i = i + 1;
    }
    let ledger = Ledger { total: counter_new(0), tagged };
    proof {
        lemma_sum_of_zeros(ledger.tagged_counts());
        assert(ledger@.tagged =~= Counts::zero().tagged);
    }
    ledger
}

/// Shuts the ledger down. Nothing is done with what is still outstanding.
pub fn close(ledger: Ledger) {
    let _ = ledger;
}

/// Bytes outstanding under all tags together.
pub fn total_allocation(ledger: &Ledger) -> (bytes: u128)
    ensures
        bytes == ledger.total(),
{
    counter_load(&ledger.total)
}

/// Bytes outstanding under `tag`.
pub fn tagged_allocation(ledger: &Ledger, tag: MemoryTag) -> (bytes: u128)
    requires
        ledger.wf(),
    ensures
        bytes == ledger.tagged(tag),
{
    let i = tag.index();
    counter_load(&ledger.tagged[i])
}

/// What is added and then taken off again leaves the counts as they were: where adding
/// `bytes` under `tag` overflows no counter, the total and the tag's counter are
/// `bytes` higher after it, the counts cover `bytes` under `tag`, and taking `bytes`
/// off again gives the first counts back.
pub proof fn lemma_credit_then_debit(counts: Counts, bytes: u128, tag: MemoryTag)
    requires
        counts.tagged.len() == TAG_COUNT,
        counts.total + bytes <= u128::MAX,
        counts.of(tag) + bytes <= u128::MAX,
    ensures
        counts.credit(bytes, tag).total == counts.total + bytes,
        counts.credit(bytes, tag).of(tag) == counts.of(tag) + bytes,
        counts.credit(bytes, tag).covers(bytes as nat, tag),
        counts.credit(bytes, tag).debit(bytes, tag) == counts,
{
    assert(counts.credit(bytes, tag).debit(bytes, tag).tagged =~= counts.tagged);
}

/// On a ledger on which nothing is outstanding, what is added under a tag is all that
/// is outstanding in total and under that tag, nothing is outstanding under any other
/// tag, and when it is taken off again nothing is outstanding at all.
pub proof fn lemma_single_allocation(bytes: u128, tag: MemoryTag, other: MemoryTag)
    ensures
        Counts::zero().credit(bytes, tag).total == bytes,
        Counts::zero().credit(bytes, tag).of(tag) == bytes,
        other != tag ==> Counts::zero().credit(bytes, tag).of(other) == 0,
        Counts::zero().credit(bytes, tag).debit(bytes, tag) == Counts::zero(),
{
    lemma_credit_then_debit(Counts::zero(), bytes, tag);
}

/// Two sums that differ by what their remainders differ by, up to whole multiples of
/// the modulus, keep their remainders in step.
proof fn lemma_same_remainder(sum: nat, new_sum: nat, rem: nat, new_rem: nat, wraps: int)
    requires
        rem == sum % (u128::MAX as nat + 1),
        new_rem <= u128::MAX,
        new_sum - sum == new_rem - rem + wraps * (u128::MAX + 1),
    ensures
        new_rem == new_sum % (u128::MAX as nat + 1),
{
    let m: int = u128::MAX + 1;
    let q: int = sum as int / m;
    vstd::arithmetic::div_mod::lemma_fundamental_div_mod(sum as int, m);
    assert(new_sum == (q + wraps) * m + new_rem) by (nonlinear_arith)
        requires
            sum == m * q + rem,
            new_sum - sum == new_rem - rem + wraps * m,
    ;
    vstd::arithmetic::div_mod::lemma_fundamental_div_mod_converse(
        new_sum as int,
        m,
        q + wraps,
        new_rem as int,
    );
}

/// A sequence of zeros sums to zero.
pub proof fn lemma_sum_of_zeros(counts: Seq<u128>)
    requires
        forall|i: int| 0 <= i < counts.len() ==> counts[i] == 0,
    ensures
        sum_of(counts) == 0,
    decreases counts.len(),
{
    if counts.len() > 0 {
        lemma_sum_of_zeros(counts.drop_last());
    }
}

} // verus!
