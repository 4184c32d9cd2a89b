//! The buffer under a growable array: one tagged block, grown by doubling.

use crate::mem::block::allocate;
use crate::mem::block::block_bytes;
use crate::mem::block::dealloc;
use crate::mem::block::is_zero_sized;
use crate::mem::block::realloc;
use crate::mem::block::vacant;
use crate::mem::block::Block;
use crate::mem::ledger::Ledger;
use crate::mem::tag::MemoryTag;
use vstd::layout::size_of;
use vstd::prelude::*;

verus! {

/// Owner of the block of slots behind a growable array, accounted under
/// `MemoryTag::Vector`. For a type without size the buffer is weightless: it counts
/// `usize::MAX` slots from the start, costs nothing on the ledger and never grows.
pub struct RawVect<T> {
    block: Block<T>,
}

/// Capacity after one growth step: one slot from nothing, else twice as many.
pub open spec fn grown_capacity(capacity: nat) -> nat {
    if capacity == 0 {
        1
    } else {
        2 * capacity
    }
}

impl<T> RawVect<T> {
    /// The buffer's block is well formed, and a buffer of a type without size counts
    /// `usize::MAX` slots.
    pub closed spec fn wf(&self) -> bool {
        &&& self.block.wf()
        &&& size_of::<T>() == 0 ==> self.block@.len() == usize::MAX
    }

    /// A buffer of a type without size is weightless: it counts `usize::MAX` slots and
    /// is accounted with no bytes.
    pub proof fn lemma_weightless(&self)
        requires
            self.wf(),
            size_of::<T>() == 0,
        ensures
            self.capacity() == usize::MAX,
            self.bytes() == 0,
    {
        assert(self.capacity() * size_of::<T>() == 0) by (nonlinear_arith)
            requires
                size_of::<T>() == 0,
        ;
    }

    /// The slots, each vacant or holding a value.
    pub closed spec fn slots(&self) -> Seq<Option<T>> {
        self.block@
    }

    /// Number of slots.
    pub open spec fn capacity(&self) -> nat {
        self.slots().len()
    }

    /// Bytes that the buffer is accounted with.
    pub open spec fn bytes(&self) -> nat {
        block_bytes::<T>(self.capacity())
    }

    /// Whether the buffer can take one growth step: its type has a size, the grown
    /// capacity does not exceed `isize::MAX`, and the ledger holds the bytes that the
    /// step takes off before it adds the new ones.
    pub open spec fn can_grow(&self, ledger: &Ledger) -> bool {
        &&& size_of::<T>() != 0
        &&& grown_capacity(self.capacity()) <= isize::MAX
        &&& ledger@.covers(self.bytes(), MemoryTag::Vector)
    }

    /// A buffer without slots; for a type without size, one of `usize::MAX` slots. The
    /// ledger's counts stay as they are.
    pub fn new(ledger: &mut Ledger) -> (buf: RawVect<T>)
        requires
            old(ledger).wf(),
        ensures
            buf.wf(),
            buf.capacity() == (if size_of::<T>() == 0 {
                usize::MAX as nat
            } else {
                0
            }),
            buf.slots() == vacant::<T>(buf.capacity()),
            final(ledger).wf(),
            final(ledger)@ == old(ledger)@,
    {
        let count = if is_zero_sized::<T>() {
            usize::MAX
        } else {
            0
        };
        assert(block_bytes::<T>(count as nat) == 0) by (nonlinear_arith)
            requires
                count == 0 || size_of::<T>() == 0,
        ;
        let block = allocate(ledger, count, MemoryTag::Vector);
        assert(final(ledger)@.tagged =~= old(ledger)@.tagged);
        RawVect { block }
    }

    /// Number of slots.
    pub fn cap(&self) -> (capacity: usize)
        ensures
            capacity == self.capacity(),
    {
        self.block.len()
    }

    /// Doubles the capacity, from none to one slot. The slots keep what they hold and
    /// the new ones are vacant. The ledger exchanges the old bytes for the new.
    pub fn grow(&mut self, ledger: &mut Ledger)
        requires
            old(self).wf(),
            old(ledger).wf(),
            old(self).can_grow(old(ledger)),
        ensures
            final(self).wf(),
            final(self).capacity() == grown_capacity(old(self).capacity()),
            final(self).slots() == old(self).slots() + vacant::<T>(
                (final(self).capacity() - old(self).capacity()) as nat,
            ),
            final(ledger).wf(),
            final(ledger)@ == old(ledger)@.debit(old(self).bytes() as u128, MemoryTag::Vector).credit(
                final(self).bytes() as u128,
                MemoryTag::Vector,
            ),
    {
        let capacity = self.block.len();
        let new_capacity = if capacity == 0 {
            1
        } else {
            2 * capacity
        };
        realloc(ledger, &mut self.block, new_capacity, MemoryTag::Vector);
        assert(self.slots() =~= old(self).slots() + vacant::<T>(
            (self.capacity() - old(self).capacity()) as nat,
        ));
    }

    /// The value in the slot at `index`, if it holds one.
    pub fn get(&self, index: usize) -> (value: Option<&T>)
        requires
            self.wf(),
            index < self.capacity(),
        ensures
            value == match self.slots()[index as int] {
                Some(v) => Some(&v),
                None => None,
            },
    {
        self.block.get(index)
    }

    /// Puts `value` into the slot at `index`.
    pub fn write(&mut self, index: usize, value: T)
        requires
            old(self).wf(),
            index < old(self).capacity(),
        ensures
            final(self).wf(),
            final(self).slots() == old(self).slots().update(index as int, Some(value)),
    {
        self.block.write(index, value);
    }

    /// Takes the value out of the slot at `index` and leaves the slot vacant.
    pub fn take(&mut self, index: usize) -> (value: Option<T>)
        requires
            old(self).wf(),
            index < old(self).capacity(),
        ensures
            final(self).wf(),
            value == old(self).slots()[index as int],
            final(self).slots() == old(self).slots().update(index as int, None),
    {
        self.block.take(index)
    }

    /// Gives the buffer up. A buffer that has slots of a type with size is taken off the
    /// ledger; a buffer without slots, or of a type without size, leaves the ledger as
    /// it is.
    pub fn release(self, ledger: &mut Ledger)
        requires
            self.wf(),
            old(ledger).wf(),
            old(ledger)@.covers(self.bytes(), MemoryTag::Vector),
        ensures
            final(ledger).wf(),
            final(ledger)@ == old(ledger)@.debit(self.bytes() as u128, MemoryTag::Vector),
    {
        if self.block.len() != 0 && !is_zero_sized::<T>() {
            dealloc(ledger, self.block, MemoryTag::Vector);
        } else {
            assert(self.bytes() == 0) by (nonlinear_arith)
                requires
                    self.bytes() == self.capacity() * size_of::<T>(),
                    self.capacity() == 0 || size_of::<T>() == 0,
            ;
            assert(ledger@.tagged =~= ledger@.debit(0, MemoryTag::Vector).tagged);
        }
    }
}

} // verus!
