//! Raw storage and the tagged allocation primitives that account for it.

use crate::mem::ledger::Ledger;
use crate::mem::tag::MemoryTag;
use vstd::layout::size_of;
use vstd::prelude::*;
use vstd::string::StringExecFns;

verus! {

/// A run of slots for values of one type. A slot is vacant or holds a value.
///
/// A block of a type without size is weightless: it is accounted with no bytes, however
/// many slots it counts, and its slots are materialised only as far as they are
/// written.
pub struct Block<T> {
    slots: Vec<Option<T>>,
    count: usize,
}

/// Bytes that `count` slots of `T` are accounted with.
pub open spec fn block_bytes<T>(count: nat) -> nat {
    count * size_of::<T>()
}

/// A run of vacant slots.
pub open spec fn vacant<T>(count: nat) -> Seq<Option<T>> {
    Seq::new(count, |i: int| None::<T>)
}

impl<T> View for Block<T> {
    type V = Seq<Option<T>>;

    closed spec fn view(&self) -> Seq<Option<T>> {
        Seq::new(
            self.count as nat,
            |i: int|
                if i < self.slots@.len() {
                    self.slots@[i]
                } else {
                    None
                },
        )
    }
}

impl<T> Block<T> {
    /// No more slots are materialised than the block counts.
    pub closed spec fn wf(&self) -> bool {
        self.slots@.len() <= self.count
    }

    /// Bytes that the block is accounted with.
    pub open spec fn bytes(&self) -> nat {
        block_bytes::<T>(self@.len())
    }

    /// Number of slots.
    pub fn len(&self) -> (count: usize)
        ensures
            count == self@.len(),
    {
        self.count
    }

    /// The value in the slot at `index`, if it holds one.
    pub fn get(&self, index: usize) -> (value: Option<&T>)
        requires
            self.wf(),
            index < self@.len(),
        ensures
            value == match self@[index as int] {
                Some(v) => Some(&v),
                None => None,
            },
    {
        if index < self.slots.len() {
            self.slots[index].as_ref()
        } else {
            None
        }
    }

    /// Puts `value` into the slot at `index`. What the slot held before is gone.
    pub fn write(&mut self, index: usize, value: T)
        requires
            old(self).wf(),
            index < old(self)@.len(),
        ensures
            final(self).wf(),
            final(self)@ == old(self)@.update(index as int, Some(value)),
    {
        while self.slots.len() <= index
            invariant
                self.count == old(self).count,
                index < self.count,
                self.slots@.len() <= self.count,
                self@ == old(self)@,
            decreases index + 1 - self.slots@.len(),
        {
            let ghost before = self@;
            self.slots.push(None);
            assert(self@ =~= before);
        }
        self.slots[index] = Some(value);
        assert(self@ =~= old(self)@.update(index as int, Some(value)));
    }

    /// Takes the value out of the slot at `index` and leaves the slot vacant.
    pub fn take(&mut self, index: usize) -> (value: Option<T>)
        requires
            old(self).wf(),
            index < old(self)@.len(),
        ensures
            final(self).wf(),
            value == old(self)@[index as int],
            final(self)@ == old(self)@.update(index as int, None),
    {
        if index < self.slots.len() {
            let value = self.slots[index].take();
            assert(self@ =~= old(self)@.update(index as int, None));
            value
        } else {
            assert(self@ =~= old(self)@.update(index as int, None));
            None
        }
    }
}

/// The text of the warning that an operation on storage tagged `Unknown` calls for.
pub open spec fn unknown_tag_warning_text(operation: Seq<char>) -> Seq<char> {
    "`"@ + operation + "` called using `MemoryTag::Unknown`. Re-class this allocation."@
}

/// The warning to log where `operation` is called with `tag`: there is one for the tag
/// `Unknown`, which is accepted but accounts for nothing in particular, and none for
/// any other tag.
pub fn unknown_tag_warning(operation: &str, tag: MemoryTag) -> (warning: Option<String>)
    ensures
        tag == MemoryTag::Unknown ==> warning.is_some() && warning.unwrap()@
            == unknown_tag_warning_text(operation@),
        tag != MemoryTag::Unknown ==> warning.is_none(),
{
    if tag == MemoryTag::Unknown {
        let mut text = String::from_str("`");
        text.append(operation);
        text.append("` called using `MemoryTag::Unknown`. Re-class this allocation.");
        Some(text)
    } else {
        None
    }
}

/// Whether values of `T` take no storage.
pub fn is_zero_sized<T>() -> (zero: bool)
    ensures
        zero == (size_of::<T>() == 0),
{
    core::mem::size_of::<T>() == 0
}

/// The bytes that `count` slots of `T` are accounted with, as the counters take them.
fn bytes_of<T>(count: usize) -> (bytes: u128)
    ensures
        bytes == block_bytes::<T>(count as nat),
{
    let size = core::mem::size_of::<T>();
    assert(count * size <= u128::MAX) by (nonlinear_arith)
        requires
            count <= 0xffff_ffff_ffff_ffff,
            size <= 0xffff_ffff_ffff_ffff,
    ;
    (count as u128) * (size as u128)
}

/// Materialises the vacant slots that are missing up to `count`: for a type with size
/// the run is `count` slots long afterwards, for a type without size it stays as it is.
/// The slots that were there keep what they hold.
fn extend_vacant<T>(slots: &mut Vec<Option<T>>, count: usize)
    requires
        old(slots)@.len() <= count,
    ensures
        final(slots)@ == old(slots)@ + vacant::<T>(
            vacant_to_add::<T>(old(slots)@.len(), count as nat),
        ),
{
    if !is_zero_sized::<T>() {
        while slots.len() < count
            invariant
                old(slots)@.len() <= slots@.len() <= count,
                slots@ == old(slots)@ + vacant::<T>((slots@.len() - old(slots)@.len()) as nat),
            decreases count - slots@.len(),
        {
            slots.push(None);
            assert(slots@ =~= old(slots)@ + vacant::<T>(
                (slots@.len() - old(slots)@.len()) as nat,
            ));
        }
    } else {
        assert(slots@ =~= old(slots)@ + vacant::<T>(0));
    }
}

/// Number of vacant slots that are materialised behind `held` slots to make a block of
/// `count`: all that are missing for a type with size, none for a type without, whose
/// slots stand vacant without being materialised.
pub open spec fn vacant_to_add<T>(held: nat, count: nat) -> nat {
    if size_of::<T>() == 0 {
        0
    } else {
        (count - held) as nat
    }
}

/// Allocates `count` vacant slots and accounts for them under `tag`: the total and the
/// tag's counter grow by `count` times the size of `T`.
pub fn allocate<T>(ledger: &mut Ledger, count: usize, tag: MemoryTag) -> (block: Block<T>)
    requires
        old(ledger).wf(),
    ensures
        block.wf(),
        block@ == vacant::<T>(count as nat),
        final(ledger).wf(),
        final(ledger)@ == old(ledger)@.credit(block_bytes::<T>(count as nat) as u128, tag),
{
    ledger.credit(bytes_of::<T>(count), tag);
    let mut slots: Vec<Option<T>> = Vec::new();
    extend_vacant(&mut slots, count);
    let block = Block { slots, count };
    assert(block@ =~= vacant::<T>(count as nat));
    block
}

/// Releases a block and takes it off the ledger under `tag`: the total and the tag's
/// counter shrink by the block's bytes. Neither counter may go below zero.
pub fn dealloc<T>(ledger: &mut Ledger, block: Block<T>, tag: MemoryTag)
    requires
        old(ledger).wf(),
        old(ledger)@.covers(block.bytes(), tag),
    ensures
        final(ledger).wf(),
        final(ledger)@ == old(ledger)@.debit(block.bytes() as u128, tag),
{
    ledger.debit(bytes_of::<T>(block.len()), tag);
}

/// Replaces a block by one of `new_count` slots. The slots that both blocks have keep
/// what they held; the others of the new block are vacant. The ledger is updated in two
/// steps: the old block's bytes are taken off, then the new block's bytes are added.
pub fn realloc<T>(ledger: &mut Ledger, block: &mut Block<T>, new_count: usize, tag: MemoryTag)
    requires
        old(ledger).wf(),
        old(block).wf(),
        old(ledger)@.covers(old(block).bytes(), tag),
    ensures
        final(block).wf(),
        final(block)@.len() == new_count,
        forall|i: int|
            0 <= i < new_count && i < old(block)@.len() ==> final(block)@[i] == old(block)@[i],
        forall|i: int| old(block)@.len() <= i < new_count ==> final(block)@[i].is_none(),
        final(ledger).wf(),
        final(ledger)@ == old(ledger)@.debit(old(block).bytes() as u128, tag).credit(
            block_bytes::<T>(new_count as nat) as u128,
            tag,
        ),
{
    ledger.debit(bytes_of::<T>(block.len()), tag);
    ledger.credit(bytes_of::<T>(new_count), tag);
    let kept = if block.slots.len() < new_count {
        block.slots.len()
    } else {
        new_count
    };
    let mut slots: Vec<Option<T>> = Vec::new();
    let mut i: usize = 0;
    while i < kept
        invariant
            i <= kept <= block.slots@.len(),
            kept <= new_count,
            block.count == old(block).count,
            block.slots@.len() == old(block).slots@.len(),
            slots@.len() == i,
            forall|j: int| 0 <= j < i ==> slots@[j] == old(block).slots@[j],
            forall|j: int| i <= j < block.slots@.len() ==> block.slots@[j] == old(block).slots@[j],
        decreases kept - i,
    {
        let value = block.slots[i].take();
        slots.push(value);
        i = i + 1;
    }
    extend_vacant(&mut slots, new_count);
    *block = Block { slots, count: new_count };
}

} // verus!
