//! Laws of the growable array, stated over the sequences that its operations are
//! specified with: a push appends, a pop drops the last element, an insertion and a
//! removal are those of the sequence.

use vstd::prelude::*;

verus! {

/// The sequence after each of `values` was pushed in turn.
pub open spec fn after_pushes<T>(start: Seq<T>, values: Seq<T>) -> Seq<T>
    decreases values.len(),
{
    if values.len() == 0 {
        start
    } else {
        after_pushes(start.push(values.first()), values.drop_first())
    }
}

/// The sequence after `count` pops. A pop of the empty sequence leaves it empty.
pub open spec fn after_pops<T>(start: Seq<T>, count: nat) -> Seq<T>
    decreases count,
{
    if count == 0 {
        start
    } else if start.len() == 0 {
        after_pops(start, (count - 1) as nat)
    } else {
        after_pops(start.drop_last(), (count - 1) as nat)
    }
}

/// The values that `count` pops return, in the order in which they come. A pop of the
/// empty sequence returns none.
pub open spec fn popped<T>(start: Seq<T>, count: nat) -> Seq<T>
    decreases count,
{
    if count == 0 {
        Seq::empty()
    } else if start.len() == 0 {
        popped(start, (count - 1) as nat)
    } else {
        seq![start.last()] + popped(start.drop_last(), (count - 1) as nat)
    }
}

/// Pushing values in turn appends them in their order.
pub proof fn lemma_pushes_append<T>(start: Seq<T>, values: Seq<T>)
    ensures
        after_pushes(start, values) == start + values,
    decreases values.len(),
{
    if values.len() == 0 {
        assert(start + values =~= start);
    } else {
        lemma_pushes_append(start.push(values.first()), values.drop_first());
        assert(start.push(values.first()) + values.drop_first() =~= start + values);
    }
}

/// Pops of values that were appended return them last to first and leave the others.
proof fn lemma_pops_of_appended<T>(start: Seq<T>, values: Seq<T>, pops: nat)
    requires
        pops <= values.len(),
    ensures
        popped(start + values, pops) == values.reverse().take(pops as int),
        after_pops(start + values, pops) == start + values.take(values.len() - pops),
    decreases pops,
{
    if pops == 0 {
        assert(values.reverse().take(0) =~= Seq::<T>::empty());
        assert(values.take(values.len() as int) =~= values);
    } else {
        let shorter = values.drop_last();
        assert((start + values).drop_last() =~= start + shorter);
        lemma_pops_of_appended(start, shorter, (pops - 1) as nat);
        assert(values.reverse().take(pops as int) =~= seq![values.last()] + shorter.reverse().take(
            pops - 1,
        ));
        assert(shorter.take(shorter.len() - (pops - 1)) =~= values.take(values.len() - pops));
    }
}

/// Last in, first out: where values are pushed and then no more of them are popped than
/// were pushed, the pops return the pushed values in reverse order, and the array is
/// left with as many elements more as pushes exceed pops: the elements it had, then
/// the values that were not popped.
pub proof fn lemma_push_pop_lifo<T>(start: Seq<T>, values: Seq<T>, pops: nat)
    requires
        pops <= values.len(),
    ensures
        popped(after_pushes(start, values), pops) == values.reverse().take(pops as int),
        after_pops(after_pushes(start, values), pops) == start + values.take(values.len() - pops),
        after_pops(after_pushes(start, values), pops).len() == start.len() + values.len() - pops,
{
    lemma_pushes_append(start, values);
    lemma_pops_of_appended(start, values, pops);
}

/// An insertion at a position followed by a removal at the same position returns the
/// inserted value and leaves the sequence as it was.
pub proof fn lemma_insert_then_remove<T>(elements: Seq<T>, index: int, value: T)
    requires
        0 <= index <= elements.len(),
    ensures
        elements.insert(index, value)[index] == value,
        elements.insert(index, value).remove(index) == elements,
{
    assert(elements.insert(index, value).remove(index) =~= elements);
}

/// An insertion moves no other element out of its order: those before the position stay
/// where they are, those from the position on stand one place further.
pub proof fn lemma_insert_keeps_order<T>(elements: Seq<T>, index: int, value: T, other: int)
    requires
        0 <= index <= elements.len(),
        0 <= other < elements.len(),
    ensures
        other < index ==> elements.insert(index, value)[other] == elements[other],
        other >= index ==> elements.insert(index, value)[other + 1] == elements[other],
{
}

/// A removal moves no other element out of its order: those before the position stay
/// where they are, those behind it stand one place nearer.
pub proof fn lemma_remove_keeps_order<T>(elements: Seq<T>, index: int, other: int)
    requires
        0 <= index < elements.len(),
        0 <= other < elements.len(),
        other != index,
    ensures
        other < index ==> elements.remove(index)[other] == elements[other],
        other > index ==> elements.remove(index)[other - 1] == elements[other],
{
}

} // verus!
