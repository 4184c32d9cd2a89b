//! The growable array.

use crate::collections::raw::grown_capacity;
use crate::collections::raw::RawVect;
use crate::mem::block::block_bytes;
use crate::mem::ledger::Counts;
use crate::mem::ledger::Ledger;
use crate::mem::tag::MemoryTag;
use vstd::layout::size_of;
use vstd::prelude::*;

verus! {

/// A growable array: a buffer of slots and the number of them that hold the array's
/// elements. The elements stand in the first `len` slots; every slot behind them is
/// vacant.
///
/// The buffer is accounted on the ledger that is handed to the operations that can grow
/// it. An array is given up with `release`, which takes the buffer off the ledger
/// again; one that simply goes out of scope frees its storage but stays on the ledger.
pub struct Vect<T> {
    buf: RawVect<T>,
    len: usize,
}

impl<T> View for Vect<T> {
    type V = Seq<T>;

    closed spec fn view(&self) -> Seq<T> {
        Seq::new(self.len as nat, |i: int| self.buf.slots()[i]->0)
    }
}

impl<T> Vect<T> {
    /// The length is within the capacity, the slots below it hold values and the slots
    /// from it on are vacant.
    pub closed spec fn wf(&self) -> bool {
        &&& self.buf.wf()
        &&& self.len <= self.buf.capacity()
        &&& forall|i: int| 0 <= i < self.len ==> (#[trigger] self.buf.slots()[i]).is_some()
        &&& forall|i: int|
            self.len <= i < self.buf.capacity() ==> (#[trigger] self.buf.slots()[i]).is_none()
    }

    /// Number of slots of the buffer.
    pub closed spec fn capacity(&self) -> nat {
        self.buf.capacity()
    }

    /// Bytes that the array's buffer is accounted with.
    pub open spec fn bytes(&self) -> nat {
        block_bytes::<T>(self.capacity())
    }

    /// Whether one more element can be stored: a slot is vacant, or the buffer can grow.
    /// It can grow where its type has a size, twice the capacity does not exceed
    /// `isize::MAX`, and the ledger holds the buffer's bytes, which growing takes off
    /// before it adds the new ones.
    pub open spec fn has_room(&self, ledger: &Ledger) -> bool {
        ||| self@.len() < self.capacity()
        ||| {
            &&& size_of::<T>() != 0
            &&& grown_capacity(self.capacity()) <= isize::MAX
            &&& ledger@.covers(self.bytes(), MemoryTag::Vector)
        }
    }

    /// Capacity after one more element was stored.
    pub open spec fn capacity_after_store(&self) -> nat {
        if self@.len() < self.capacity() {
            self.capacity()
        } else {
            grown_capacity(self.capacity())
        }
    }

    /// What the ledger holds after one more element was stored: what it held where a
    /// slot was vacant, else that with the buffer's old bytes exchanged for those of the
    /// grown buffer.
    pub open spec fn counts_after_store(&self, counts: Counts) -> Counts {
        if self@.len() < self.capacity() {
            counts
        } else {
            counts.debit(self.bytes() as u128, MemoryTag::Vector).credit(
                block_bytes::<T>(grown_capacity(self.capacity())) as u128,
                MemoryTag::Vector,
            )
        }
    }

    /// An array of a type without size never needs the ledger: while it holds fewer
    /// than `usize::MAX` elements it has room whatever the ledger holds, storing an
    /// element leaves the ledger's counts and the capacity as they are, and the array is
    /// accounted with no bytes.
    pub proof fn lemma_zero_sized_is_weightless(&self, ledger: &Ledger)
        requires
            self.wf(),
            size_of::<T>() == 0,
        ensures
            self.capacity() == usize::MAX,
            self.bytes() == 0,
            self@.len() < usize::MAX ==> self.has_room(ledger),
            self@.len() < usize::MAX ==> self.counts_after_store(ledger@) == ledger@,
            self@.len() < usize::MAX ==> self.capacity_after_store() == self.capacity(),
    {
        self.buf.lemma_weightless();
    }

    /// Number of slots of the buffer.
    pub fn cap(&self) -> (capacity: usize)
        ensures
            capacity == self.capacity(),
    {
        self.buf.cap()
    }

    /// Number of elements.
    pub fn len(&self) -> (len: usize)
        ensures
            len == self@.len(),
    {
        self.len
    }

    /// Whether the array has no elements.
    pub fn is_empty(&self) -> (empty: bool)
        ensures
            empty == (self@.len() == 0),
    {
        self.len == 0
    }

    /// An empty array. Nothing is allocated: the ledger's counts stay as they are.
    pub fn new(ledger: &mut Ledger) -> (vect: Vect<T>)
        requires
            old(ledger).wf(),
        ensures
            vect.wf(),
            vect@ == Seq::<T>::empty(),
            vect.capacity() == (if size_of::<T>() == 0 {
                usize::MAX as nat
            } else {
                0
            }),
            vect.bytes() == 0,
            final(ledger).wf(),
            final(ledger)@ == old(ledger)@,
    {
        let vect = Vect { buf: RawVect::new(ledger), len: 0 };
        assert(vect@ =~= Seq::<T>::empty());
        assert(vect.bytes() == 0) by (nonlinear_arith)
            requires
                vect.bytes() == vect.capacity() * size_of::<T>(),
                vect.capacity() == 0 || size_of::<T>() == 0,
        ;
        vect
    }

    /// Appends `elem`. The buffer grows first where every slot is taken.
    pub fn push(&mut self, ledger: &mut Ledger, elem: T)
        requires
            old(self).wf(),
            old(ledger).wf(),
            old(self).has_room(old(ledger)),
        ensures
            final(self).wf(),
            final(self)@ == old(self)@.push(elem),
            final(self).capacity() == old(self).capacity_after_store(),
            final(ledger).wf(),
            final(ledger)@ == old(self).counts_after_store(old(ledger)@),
    {
        if self.len == self.buf.cap() {
            self.buf.grow(ledger);
        }
        self.buf.write(self.len, elem);
        self.len = self.len + 1;
        assert(self@ =~= old(self)@.push(elem));
    }

    /// Removes the last element and returns it; `None` where the array is empty.
    pub fn pop(&mut self) -> (elem: Option<T>)
        requires
            old(self).wf(),
        ensures
            final(self).wf(),
            final(self).capacity() == old(self).capacity(),
            old(self)@.len() == 0 ==> elem.is_none() && final(self)@ == old(self)@,
            old(self)@.len() > 0 ==> elem == Some(old(self)@.last()) && final(self)@ == old(self)@.drop_last(),
    {
        if self.len == 0 {
            assert(self@ =~= old(self)@);
            None
        } else {
            self.len = self.len - 1;
            let elem = self.buf.take(self.len);
            assert(self@ =~= old(self)@.drop_last());
            elem
        }
    }

    /// Inserts `elem` at `index`: the elements from `index` on move one place to the
    /// right. The buffer grows first where every slot is taken.
    #[verifier::loop_isolation(false)]
    pub fn insert(&mut self, ledger: &mut Ledger, index: usize, elem: T)
        requires
            old(self).wf(),
            old(ledger).wf(),
            index <= old(self)@.len(),
            old(self).has_room(old(ledger)),
        ensures
            final(self).wf(),
            final(self)@ == old(self)@.insert(index as int, elem),
            final(self).capacity() == old(self).capacity_after_store(),
            final(ledger).wf(),
            final(ledger)@ == old(self).counts_after_store(old(ledger)@),
    {
        if self.len == self.buf.cap() {
            self.buf.grow(ledger);
        }
        let ghost grown = self.buf.slots();
        assert forall|j: int| 0 <= j < self.len implies (#[trigger] grown[j]).is_some() && grown[j]
            == old(self).buf.slots()[j] by {
            assert(old(self).buf.slots()[j].is_some());
        }
        assert forall|j: int| self.len <= j < grown.len() implies (#[trigger] grown[j]).is_none() by {
            if j < old(self).buf.capacity() {
                assert(old(self).buf.slots()[j].is_none());
            }
        }
        let mut i = self.len;
        while i > index
            invariant
                index <= i <= self.len < self.buf.capacity(),
                self.len == old(self).len,
                self.buf.wf(),
                self.buf.capacity() == grown.len(),
                forall|j: int| 0 <= j < i ==> self.buf.slots()[j] == grown[j],
                self.buf.slots()[i as int].is_none(),
                forall|j: int| i < j <= self.len ==> self.buf.slots()[j] == grown[j - 1],
                forall|j: int| self.len < j < grown.len() ==> self.buf.slots()[j].is_none(),
            decreases i,
        {
            let moved = self.buf.take(i - 1);
            match moved {
                Some(value) => {
                    self.buf.write(i, value);
                },
                None => {},
            }
            i = i - 1;
        }
        self.buf.write(index, elem);
        self.len = self.len + 1;
        assert forall|j: int| 0 <= j < self.len implies (#[trigger] self.buf.slots()[j]).is_some() by {
            if j > index {
                assert(grown[j - 1].is_some());
            } else if j < index {
                assert(grown[j].is_some());
            }
        }
        assert forall|j: int| 0 <= j < self.len implies self@[j] == old(self)@.insert(
            index as int,
            elem,
        )[j] by {
            if j > index {
                assert(grown[j - 1] == old(self).buf.slots()[j - 1]);
            } else if j < index {
                assert(grown[j] == old(self).buf.slots()[j]);
            }
        }
        assert(self@ =~= old(self)@.insert(index as int, elem));
    }

    /// Removes the element at `index` and returns it: the elements behind it move one
    /// place to the left.
    #[verifier::loop_isolation(false)]
    pub fn remove(&mut self, index: usize) -> (elem: T)
        requires
            old(self).wf(),
            index < old(self)@.len(),
        ensures
            final(self).wf(),
            elem == old(self)@[index as int],
            final(self)@ == old(self)@.remove(index as int),
            final(self).capacity() == old(self).capacity(),
    {
        self.len = self.len - 1;
        let taken = self.buf.take(index);
        let ghost before = old(self).buf.slots();
        let mut i = index;
        while i < self.len
            invariant
                index <= i <= self.len,
                self.len + 1 == old(self).len,
                self.len < self.buf.capacity(),
                self.buf.wf(),
                self.buf.capacity() == before.len(),
                forall|j: int| 0 <= j < index ==> self.buf.slots()[j] == before[j],
                forall|j: int| index <= j < i ==> self.buf.slots()[j] == before[j + 1],
                self.buf.slots()[i as int].is_none(),
                forall|j: int| i < j < before.len() ==> self.buf.slots()[j] == before[j],
            decreases self.len - i,
        {
            let moved = self.buf.take(i + 1);
            match moved {
                Some(value) => {
                    self.buf.write(i, value);
                },
                None => {},
            }
            i = i + 1;
        }
        assert forall|j: int| 0 <= j < self.len implies (#[trigger] self.buf.slots()[j]).is_some() by {
            if j >= index {
                assert(before[j + 1].is_some());
            } else {
                assert(before[j].is_some());
            }
        }
        assert forall|j: int| self.len <= j < before.len() implies (
        #[trigger] self.buf.slots()[j]).is_none() by {
            if j > self.len {
                assert(before[j].is_none());
            }
        }
        assert(self@ =~= old(self)@.remove(index as int));
        match taken {
            Some(elem) => elem,
            None => {
                proof {
                    assert(before[index as int].is_some());
                }
                unreached()
            },
        }
    }

    /// The element at `index`.
    pub fn get(&self, index: usize) -> (elem: &T)
        requires
            self.wf(),
            index < self@.len(),
        ensures
            *elem == self@[index as int],
    {
        match self.buf.get(index) {
            Some(elem) => elem,
            None => {
                proof {
                    assert(self.buf.slots()[index as int].is_some());
                }
                unreached()
            },
        }
    }

    /// Puts `elem` in place of the element at `index` and returns that element.
    pub fn replace(&mut self, index: usize, elem: T) -> (previous: T)
        requires
            old(self).wf(),
            index < old(self)@.len(),
        ensures
            final(self).wf(),
            previous == old(self)@[index as int],
            final(self)@ == old(self)@.update(index as int, elem),
            final(self).capacity() == old(self).capacity(),
    {
        let taken = self.buf.take(index);
        self.buf.write(index, elem);
        assert(self@ =~= old(self)@.update(index as int, elem));
        match taken {
            Some(previous) => previous,
            None => {
                proof {
                    assert(old(self).buf.slots()[index as int].is_some());
                }
                unreached()
            },
        }
    }
}


/// A range of slot positions that is used up from either end.
pub struct RawValIter {
    start: usize,
    end: usize,
}

impl RawValIter {
    /// The range is not inverted.
    pub closed spec fn wf(&self) -> bool {
        self.start <= self.end
    }

    /// First position of the range.
    pub closed spec fn front(&self) -> nat {
        self.start as nat
    }

    /// Position behind the last of the range.
    pub closed spec fn back(&self) -> nat {
        self.end as nat
    }

    /// Number of positions left.
    pub open spec fn remaining(&self) -> nat {
        (self.back() - self.front()) as nat
    }

    /// The range of the first `len` positions.
    pub fn new(len: usize) -> (iter: RawValIter)
        ensures
            iter.wf(),
            iter.front() == 0,
            iter.back() == len,
    {
        RawValIter { start: 0, end: len }
    }

    /// Takes the first position off the range; `None` where the range is used up.
    pub fn next(&mut self) -> (position: Option<usize>)
        requires
            old(self).wf(),
        ensures
            final(self).wf(),
            final(self).back() == old(self).back(),
            old(self).remaining() == 0 ==> position.is_none() && final(self).front() == old(self).front(),
            old(self).remaining() > 0 ==> position == Some(old(self).front() as usize) && final(self).front()
                == old(self).front() + 1,
    {
        if self.start == self.end {
            None
        } else {
            let position = self.start;
            self.start = self.start + 1;
            Some(position)
        }
    }

    /// Takes the last position off the range; `None` where the range is used up.
    pub fn next_back(&mut self) -> (position: Option<usize>)
        requires
            old(self).wf(),
        ensures
            final(self).wf(),
            final(self).front() == old(self).front(),
            old(self).remaining() == 0 ==> position.is_none() && final(self).back() == old(self).back(),
            old(self).remaining() > 0 ==> position == Some((old(self).back() - 1) as usize) && final(self).back() == old(self).back() - 1,
    {
        if self.start == self.end {
            None
        } else {
            self.end = self.end - 1;
            Some(self.end)
        }
    }

    /// The exact number of positions left, as lower and upper bound.
    pub fn size_hint(&self) -> (hint: (usize, Option<usize>))
        requires
            self.wf(),
        ensures
            hint.0 == self.remaining(),
            hint.1 == Some(hint.0),
    {
        let len = self.end - self.start;
        (len, Some(len))
    }
}

/// Whether exactly the slots of the range hold values.
pub open spec fn holds_range<T>(slots: Seq<Option<T>>, front: nat, back: nat) -> bool {
    &&& front <= back <= slots.len()
    &&& forall|i: int| front <= i < back ==> (#[trigger] slots[i]).is_some()
    &&& forall|i: int| 0 <= i < front ==> (#[trigger] slots[i]).is_none()
    &&& forall|i: int| back <= i < slots.len() ==> (#[trigger] slots[i]).is_none()
}

/// The values in the slots of the range, in order.
pub open spec fn range_values<T>(slots: Seq<Option<T>>, front: nat, back: nat) -> Seq<T> {
    Seq::new((back - front) as nat, |i: int| slots[front + i]->0)
}

/// Iterator that owns the buffer of the array it was made from and yields its elements
/// from either end.
pub struct IntoIter<T> {
    buf: RawVect<T>,
    iter: RawValIter,
}

impl<T> View for IntoIter<T> {
    type V = Seq<T>;

    closed spec fn view(&self) -> Seq<T> {
        range_values(self.buf.slots(), self.iter.front(), self.iter.back())
    }
}

impl<T> IntoIter<T> {
    /// The elements not yet yielded stand in the slots of the range; every other slot is
    /// vacant.
    pub closed spec fn wf(&self) -> bool {
        &&& self.buf.wf()
        &&& self.iter.wf()
        &&& holds_range(self.buf.slots(), self.iter.front(), self.iter.back())
    }

    /// Number of slots of the buffer.
    pub closed spec fn capacity(&self) -> nat {
        self.buf.capacity()
    }

    /// Bytes that the buffer is accounted with.
    pub open spec fn bytes(&self) -> nat {
        block_bytes::<T>(self.capacity())
    }

    /// Number of slots of the buffer.
    pub fn cap(&self) -> (capacity: usize)
        ensures
            capacity == self.capacity(),
    {
        self.buf.cap()
    }

    /// Yields the first element left; `None` where none is left.
    pub fn next(&mut self) -> (elem: Option<T>)
        requires
            old(self).wf(),
        ensures
            final(self).wf(),
            final(self).capacity() == old(self).capacity(),
            old(self)@.len() == 0 ==> elem.is_none() && final(self)@ == old(self)@,
            old(self)@.len() > 0 ==> elem == Some(old(self)@.first()) && final(self)@ == old(self)@.drop_first(),
    {
        match self.iter.next() {
            Some(position) => {
                let elem = self.buf.take(position);
                assert(self@ =~= old(self)@.drop_first());
                elem
            },
            None => None,
        }
    }

    /// Yields the last element left; `None` where none is left.
    pub fn next_back(&mut self) -> (elem: Option<T>)
        requires
            old(self).wf(),
        ensures
            final(self).wf(),
            final(self).capacity() == old(self).capacity(),
            old(self)@.len() == 0 ==> elem.is_none() && final(self)@ == old(self)@,
            old(self)@.len() > 0 ==> elem == Some(old(self)@.last()) && final(self)@ == old(self)@.drop_last(),
    {
        match self.iter.next_back() {
            Some(position) => {
                let elem = self.buf.take(position);
                assert(self@ =~= old(self)@.drop_last());
                elem
            },
            None => None,
        }
    }

    /// The exact number of elements left, as lower and upper bound.
    pub fn size_hint(&self) -> (hint: (usize, Option<usize>))
        requires
            self.wf(),
        ensures
            hint.0 == self@.len(),
            hint.1 == Some(hint.0),
    {
        self.iter.size_hint()
    }

    /// Ends the iteration: destroys the elements not yet yielded, then gives the buffer
    /// up and takes it off the ledger. Returns how many elements it destroyed.
    pub fn finish(self, ledger: &mut Ledger) -> (destroyed: usize)
        requires
            self.wf(),
            old(ledger).wf(),
            old(ledger)@.covers(self.bytes(), MemoryTag::Vector),
        ensures
            destroyed == self@.len(),
            final(ledger).wf(),
            final(ledger)@ == old(ledger)@.debit(self.bytes() as u128, MemoryTag::Vector),
    {
        let mut rest = self;
        let mut destroyed: usize = 0;
        loop
            invariant
                rest.wf(),
                rest.capacity() == self.capacity(),
                destroyed + rest@.len() == self@.len() <= usize::MAX,
            ensures
                rest@.len() == 0,
                destroyed == self@.len(),
                rest.wf(),
                rest.capacity() == self.capacity(),
            decreases rest@.len(),
        {
            match rest.next() {
                Some(_) => {
                    destroyed = destroyed + 1;
                },
                None => {
                    break ;
                },
            }
        }
        rest.buf.release(ledger);
        destroyed
    }
}

impl<T> Vect<T> {
    /// Turns the array into an iterator over its elements, which takes the buffer over.
    pub fn into_iter(self) -> (iter: IntoIter<T>)
        requires
            self.wf(),
        ensures
            iter.wf(),
            iter@ == self@,
            iter.capacity() == self.capacity(),
    {
        let iter = IntoIter { iter: RawValIter::new(self.len), buf: self.buf };
        assert(iter@ =~= self@);
        iter
    }

    /// Gives the array up: destroys its elements, last to first, then gives the buffer
    /// up and takes it off the ledger. Returns how many elements it destroyed.
    pub fn release(self, ledger: &mut Ledger) -> (destroyed: usize)
        requires
            self.wf(),
            old(ledger).wf(),
            old(ledger)@.covers(self.bytes(), MemoryTag::Vector),
        ensures
            destroyed == self@.len(),
            final(ledger).wf(),
            final(ledger)@ == old(ledger)@.debit(self.bytes() as u128, MemoryTag::Vector),
    {
        let mut rest = self;
        let mut destroyed: usize = 0;
        loop
            invariant
                rest.wf(),
                rest.capacity() == self.capacity(),
                destroyed + rest@.len() == self@.len() <= usize::MAX,
            ensures
                destroyed == self@.len(),
                rest.wf(),
                rest.capacity() == self.capacity(),
            decreases rest@.len(),
        {
            match rest.pop() {
                Some(_) => {
                    destroyed = destroyed + 1;
                },
                None => {
                    break ;
                },
            }
        }
        rest.buf.release(ledger);
        destroyed
    }
}


/// Iterator that yields the elements of an array that was emptied for it, from either
/// end. It borrows the array: the elements stay in the array's buffer until they are
/// yielded or the iterator is finished.
///
/// The fields are public so that contracts can speak of the array as it is when the
/// borrow ends. They are not meant to be touched.
pub struct Drain<'a, T> {
    pub vec: &'a mut Vect<T>,
    pub iter: RawValIter,
}

impl<'a, T> View for Drain<'a, T> {
    type V = Seq<T>;

    closed spec fn view(&self) -> Seq<T> {
        range_values(self.vec.buf.slots(), self.iter.front(), self.iter.back())
    }
}

impl<'a, T> Drain<'a, T> {
    /// The array counts no elements; those not yet yielded stand in the slots of the
    /// range, and every other slot is vacant.
    pub closed spec fn wf(&self) -> bool {
        &&& self.vec.buf.wf()
        &&& self.vec.len == 0
        &&& self.iter.wf()
        &&& holds_range(self.vec.buf.slots(), self.iter.front(), self.iter.back())
    }

    /// Number of slots of the array's buffer.
    pub closed spec fn capacity(&self) -> nat {
        self.vec.buf.capacity()
    }

    /// Yields the first element left; `None` where none is left.
    pub fn next(&mut self) -> (elem: Option<T>)
        requires
            old(self).wf(),
        ensures
            final(self).wf(),
            final(self).capacity() == old(self).capacity(),
            *final(final(self).vec) == *final(old(self).vec),
            old(self)@.len() == 0 ==> elem.is_none() && final(self)@ == old(self)@,
            old(self)@.len() > 0 ==> elem == Some(old(self)@.first()) && final(self)@ == old(
                self,
            )@.drop_first(),
    {
        match self.iter.next() {
            Some(position) => {
                let elem = self.vec.buf.take(position);
                assert(self@ =~= old(self)@.drop_first());
                elem
            },
            None => None,
        }
    }

    /// Yields the last element left; `None` where none is left.
    pub fn next_back(&mut self) -> (elem: Option<T>)
        requires
            old(self).wf(),
        ensures
            final(self).wf(),
            final(self).capacity() == old(self).capacity(),
            *final(final(self).vec) == *final(old(self).vec),
            old(self)@.len() == 0 ==> elem.is_none() && final(self)@ == old(self)@,
            old(self)@.len() > 0 ==> elem == Some(old(self)@.last()) && final(self)@ == old(
                self,
            )@.drop_last(),
    {
        match self.iter.next_back() {
            Some(position) => {
                let elem = self.vec.buf.take(position);
                assert(self@ =~= old(self)@.drop_last());
                elem
            },
            None => None,
        }
    }

    /// The exact number of elements left, as lower and upper bound.
    pub fn size_hint(&self) -> (hint: (usize, Option<usize>))
        requires
            self.wf(),
        ensures
            hint.0 == self@.len(),
            hint.1 == Some(hint.0),
    {
        self.iter.size_hint()
    }

    /// Ends the draining: destroys the elements not yet yielded, in place, and hands the
    /// array back empty, with its buffer. Returns how many elements it destroyed.
    pub fn finish(self) -> (destroyed: usize)
        requires
            self.wf(),
        ensures
            destroyed == self@.len(),
            final(self.vec).wf(),
            final(self.vec)@ == Seq::<T>::empty(),
            final(self.vec).capacity() == self.capacity(),
    {
        let mut rest = self;
        let mut destroyed: usize = 0;
        loop
            invariant
                rest.wf(),
                rest.capacity() == self.capacity(),
                *final(rest.vec) == *final(self.vec),
                destroyed + rest@.len() == self@.len() <= usize::MAX,
            ensures
                rest@.len() == 0,
                destroyed == self@.len(),
                rest.wf(),
                rest.capacity() == self.capacity(),
                *final(rest.vec) == *final(self.vec),
            decreases rest@.len(),
        {
            match rest.next() {
                Some(_) => {
                    destroyed = destroyed + 1;
                },
                None => {
                    break ;
                },
            }
        }
        assert(rest.vec@ =~= Seq::<T>::empty());
        destroyed
    }
}

impl<T> Vect<T> {
    /// Empties the array at once and returns an iterator over the elements that it
    /// held. The array keeps its buffer.
    pub fn drain(&mut self) -> (drain: Drain<'_, T>)
        requires
            old(self).wf(),
        ensures
            drain.wf(),
            drain@ == old(self)@,
            drain.vec@ == Seq::<T>::empty(),
            drain.capacity() == old(self).capacity(),
            *final(self) == *final(drain.vec),
    {
        let iter = RawValIter::new(self.len);
        self.len = 0;
        let drain = Drain { iter, vec: self };
        assert(drain@ =~= old(self)@);
        assert(drain.vec@ =~= Seq::<T>::empty());
        drain
    }
}

} // verus!
