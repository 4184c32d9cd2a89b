//! The atomic byte counters of the ledger, as provided by `portable_atomic`.
//!
//! Nothing in this file is proved. Each item states what the `portable_atomic` source
//! and documentation say of the function it stands for. The counters are only ever
//! changed through an exclusive reference, so what a counter holds is a function of the
//! counter's value alone.

use portable_atomic::AtomicU128;
use portable_atomic::Ordering;
use vstd::prelude::*;

verus! {

/// `portable_atomic::AtomicU128`, carried through as an opaque value.
#[verifier::external_type_specification]
#[verifier::external_body]
pub struct ExAtomicU128(AtomicU128);

/// The number that a counter holds.
pub uninterp spec fn counter_value(counter: AtomicU128) -> u128;

/// The sum of two byte counts, kept to 128 bits as the counters keep it.
pub open spec fn wrapping_sum(a: u128, b: u128) -> u128 {
    if a + b <= u128::MAX {
        (a + b) as u128
    } else {
        (a + b - u128::MAX - 1) as u128
    }
}

/// The difference of two byte counts, kept to 128 bits as the counters keep it.
pub open spec fn wrapping_difference(a: u128, b: u128) -> u128 {
    if a >= b {
        (a - b) as u128
    } else {
        (a - b + u128::MAX + 1) as u128
    }
}

/// `AtomicU128::new`: a new counter that holds `value`.
#[verifier::external_body]
pub(crate) fn counter_new(value: u128) -> (counter: AtomicU128)
    ensures
        counter_value(counter) == value,
{
    AtomicU128::new(value)
}

/// `AtomicU128::load` with relaxed ordering, for which it does not panic: the number
/// that the counter holds.
#[verifier::external_body]
pub(crate) fn counter_load(counter: &AtomicU128) -> (value: u128)
    ensures
        value == counter_value(*counter),
{
    counter.load(Ordering::Relaxed)
}

/// `AtomicU128::fetch_add` with relaxed ordering: adds `amount`, wrapping around on
/// overflow, and returns the number held before.
#[verifier::external_body]
pub(crate) fn counter_fetch_add(counter: &mut AtomicU128, amount: u128) -> (previous: u128)
    ensures
        previous == counter_value(*old(counter)),
        counter_value(*final(counter)) == wrapping_sum(counter_value(*old(counter)), amount),
{
    counter.fetch_add(amount, Ordering::Relaxed)
}

/// `AtomicU128::fetch_sub` with relaxed ordering: subtracts `amount`, wrapping around
/// on overflow, and returns the number held before.
#[verifier::external_body]
pub(crate) fn counter_fetch_sub(counter: &mut AtomicU128, amount: u128) -> (previous: u128)
    ensures
        previous == counter_value(*old(counter)),
        counter_value(*final(counter)) == wrapping_difference(
            counter_value(*old(counter)),
            amount,
        ),
{
    counter.fetch_sub(amount, Ordering::Relaxed)
}

} // verus!
