use std::cell::Cell;
use std::rc::Rc;
use strings::collections::Vect;
use strings::mem::init;
use strings::mem::tagged_allocation;
use strings::mem::total_allocation;
use strings::mem::MemoryTag;

fn contents(vect: &Vect<i32>) -> Vec<i32> {
    let mut out = Vec::new();
    for i in 0..vect.len() {
        out.push(*vect.get(i));
    }
    out
}

struct Counted {
    drops: Rc<Cell<usize>>,
}

impl Drop for Counted {
    fn drop(&mut self) {
        self.drops.set(self.drops.get() + 1);
    }
}

#[test]
fn push_pop_is_lifo() {
    let mut ledger = init();
    let mut vect: Vect<i32> = Vect::new(&mut ledger);
    for i in 0..100 {
        vect.push(&mut ledger, i);
    }
    for i in 0..60 {
        assert_eq!(vect.pop(), Some(99 - i));
    }
    assert_eq!(vect.len(), 40);
    assert_eq!(vect.cap(), 128);
    assert_eq!(tagged_allocation(&ledger, MemoryTag::Vector), 128 * 4);
    assert_eq!(vect.release(&mut ledger), 40);
    assert_eq!(total_allocation(&ledger), 0);
}

#[test]
fn pop_on_empty_is_none() {
    let mut ledger = init();
    let mut vect: Vect<i32> = Vect::new(&mut ledger);
    assert_eq!(vect.is_empty(), true);
    assert_eq!(vect.pop(), None);
    assert_eq!(vect.cap(), 0);
    assert_eq!(total_allocation(&ledger), 0);
}

#[test]
fn insert_then_remove_restores() {
    let mut ledger = init();
    let mut vect: Vect<i32> = Vect::new(&mut ledger);
    for i in 0..7 {
        vect.push(&mut ledger, i);
    }
    for at in 0..8 {
        vect.insert(&mut ledger, at, 100);
        assert_eq!(*vect.get(at), 100);
        assert_eq!(vect.len(), 8);
        assert_eq!(vect.remove(at), 100);
        assert_eq!(contents(&vect), vec![0, 1, 2, 3, 4, 5, 6]);
    }
    vect.release(&mut ledger);
}

#[test]
fn remove_and_insert_scenario() {
    let mut ledger = init();
    let mut vect: Vect<i32> = Vect::new(&mut ledger);
    for i in 0..5 {
        vect.push(&mut ledger, i);
    }
    assert_eq!(contents(&vect), vec![0, 1, 2, 3, 4]);
    assert_eq!(vect.remove(2), 2);
    assert_eq!(contents(&vect), vec![0, 1, 3, 4]);
    vect.insert(&mut ledger, 1, 9);
    assert_eq!(contents(&vect), vec![0, 9, 1, 3, 4]);
    assert_eq!(vect.replace(0, 7), 0);
    assert_eq!(contents(&vect), vec![7, 9, 1, 3, 4]);
    vect.release(&mut ledger);
}

#[test]
fn drain_empties_at_once_and_yields_in_order() {
    let mut ledger = init();
    let mut vect: Vect<i32> = Vect::new(&mut ledger);
    vect.push(&mut ledger, 10);
    vect.push(&mut ledger, 20);
    vect.push(&mut ledger, 30);
    {
        let drain = vect.drain();
        assert_eq!(drain.size_hint(), (3, Some(3)));
        assert_eq!(drain.finish(), 3);
    }
    assert_eq!(vect.len(), 0);
    vect.push(&mut ledger, 10);
    vect.push(&mut ledger, 20);
    vect.push(&mut ledger, 30);
    let mut drain = vect.drain();
    assert_eq!(drain.next(), Some(10));
    assert_eq!(drain.next(), Some(20));
    assert_eq!(drain.next(), Some(30));
    assert_eq!(drain.next(), None);
    assert_eq!(drain.next_back(), None);
    assert_eq!(drain.finish(), 0);
    assert_eq!(vect.len(), 0);
    assert_eq!(vect.cap(), 4);
    vect.release(&mut ledger);
    assert_eq!(total_allocation(&ledger), 0);
}

#[test]
fn iterators_run_from_both_ends() {
    let mut ledger = init();
    let mut vect: Vect<i32> = Vect::new(&mut ledger);
    for i in 1..=5 {
        vect.push(&mut ledger, i);
    }
    let mut iter = vect.into_iter();
    assert_eq!(iter.size_hint(), (5, Some(5)));
    assert_eq!(iter.next(), Some(1));
    assert_eq!(iter.next_back(), Some(5));
    assert_eq!(iter.next_back(), Some(4));
    assert_eq!(iter.next(), Some(2));
    assert_eq!(iter.size_hint(), (1, Some(1)));
    assert_eq!(iter.next(), Some(3));
    assert_eq!(iter.next(), None);
    assert_eq!(iter.next_back(), None);
    assert_eq!(tagged_allocation(&ledger, MemoryTag::Vector), 8 * 4);
    assert_eq!(iter.finish(&mut ledger), 0);
    assert_eq!(tagged_allocation(&ledger, MemoryTag::Vector), 0);
}

#[test]
fn unfinished_iterators_destroy_the_rest_once() {
    let drops = Rc::new(Cell::new(0));
    let mut ledger = init();
    let mut vect: Vect<Counted> = Vect::new(&mut ledger);
    for _ in 0..10 {
        vect.push(&mut ledger, Counted { drops: drops.clone() });
    }
    let mut drain = vect.drain();
    let first = drain.next();
    let last = drain.next_back();
    assert_eq!(drops.get(), 0);
    drop(first);
    drop(last);
    assert_eq!(drops.get(), 2);
    assert_eq!(drain.finish(), 8);
    assert_eq!(drops.get(), 10);
    for _ in 0..6 {
        vect.push(&mut ledger, Counted { drops: drops.clone() });
    }
    let mut iter = vect.into_iter();
    drop(iter.next());
    assert_eq!(drops.get(), 11);
    assert_eq!(iter.finish(&mut ledger), 5);
    assert_eq!(drops.get(), 16);
    assert_eq!(total_allocation(&ledger), 0);
}

#[test]
fn release_destroys_every_element_once() {
    let drops = Rc::new(Cell::new(0));
    let mut ledger = init();
    let mut vect: Vect<Counted> = Vect::new(&mut ledger);
    for _ in 0..5 {
        vect.push(&mut ledger, Counted { drops: drops.clone() });
    }
    drop(vect.pop());
    drop(vect.remove(0));
    assert_eq!(drops.get(), 2);
    assert_eq!(vect.release(&mut ledger), 3);
    assert_eq!(drops.get(), 5);
}

#[test]
fn zero_sized_elements_cost_nothing() {
    let mut ledger = init();
    let mut vect: Vect<()> = Vect::new(&mut ledger);
    assert_eq!(vect.cap(), usize::MAX);
    for _ in 0..5000 {
        vect.push(&mut ledger, ());
        assert_eq!(total_allocation(&ledger), 0);
        assert_eq!(tagged_allocation(&ledger, MemoryTag::Vector), 0);
    }
    assert_eq!(vect.len(), 5000);
    for _ in 0..3000 {
        assert_eq!(vect.pop(), Some(()));
        assert_eq!(total_allocation(&ledger), 0);
    }
    vect.insert(&mut ledger, 7, ());
    assert_eq!(vect.remove(0), ());
    assert_eq!(vect.len(), 2000);
    assert_eq!(vect.cap(), usize::MAX);
    assert_eq!(vect.release(&mut ledger), 2000);
    assert_eq!(tagged_allocation(&ledger, MemoryTag::Vector), 0);
}

#[test]
fn capacity_doubles_and_is_accounted() {
    let mut ledger = init();
    let mut vect: Vect<u64> = Vect::new(&mut ledger);
    let mut seen = Vec::new();
    for i in 0..9 {
        vect.push(&mut ledger, i);
        seen.push(vect.cap());
        assert_eq!(tagged_allocation(&ledger, MemoryTag::Vector), vect.cap() as u128 * 8);
        assert_eq!(total_allocation(&ledger), vect.cap() as u128 * 8);
    }
    assert_eq!(seen, vec![1, 2, 4, 4, 8, 8, 8, 8, 16]);
    assert_eq!(tagged_allocation(&ledger, MemoryTag::Array), 0);
    while vect.pop().is_some() {}
    assert_eq!(vect.cap(), 16);
    assert_eq!(vect.release(&mut ledger), 0);
    assert_eq!(total_allocation(&ledger), 0);
}
