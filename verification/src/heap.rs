//! A heap kept in a vector.
//!
//! The items lie in a vector in the order in which they were pushed, except
//! that an item that is pushed changes places with the item halfway down
//! the vector if it is less than that item. Contracts are stated over the
//! sequence of items in the vector.
//!
//! How two items compare is up to `T`. Whether two items change places is
//! stated for every `T` whose `<` computes what `partial_cmp_spec` says; for
//! any other `T` a push is known to do the one or the other.

use vstd::prelude::*;
use vstd::std_specs::cmp::{PartialOrdIs, PartialOrdSpec};

verus! {

/// A heap of items, held in a vector.
#[derive(Debug)]
pub struct Heap<T: PartialOrd> {
    data: Vec<T>,
}

/// Exchanges the items at positions `low` and `high` of `items` and leaves
/// every other item where it is.
fn exchange<T>(items: &mut Vec<T>, low: usize, high: usize)
    requires
        low < high < old(items)@.len(),
    ensures
        final(items)@ == old(items)@.update(high as int, old(items)@[low as int]).update(
            low as int,
            old(items)@[high as int],
        ),
{
    let (head, tail) = items.as_mut_slice().split_at_mut(high);
    std::mem::swap(&mut head[low], &mut tail[0]);
}

/// The items `items` with `item` added at the end, and then, if `exchange`
/// is set and `item` is not alone, with `item` and the item halfway down in
/// each other's place.
pub open spec fn placed<T: PartialOrd>(items: Seq<T>, item: T, exchange: bool) -> Seq<T> {
    let index = items.len() as int;
    let added = items.push(item);
    if exchange && index != 0 {
        added.update(index, items[index / 2]).update(index / 2, item)
    } else {
        added
    }
}

/// The items `items` after `item` is pushed: `item` is added at the end,
/// and if it is not alone and is less than the item halfway down, the two
/// change places.
pub open spec fn pushed<T: PartialOrd>(items: Seq<T>, item: T) -> Seq<T> {
    placed(items, item, item.is_lt(&items[items.len() as int / 2]))
}

impl<T: PartialOrd> View for Heap<T> {
    type V = Seq<T>;

    /// The items in the order in which the vector holds them.
    closed spec fn view(&self) -> Seq<T> {
        self.data@
    }
}

impl<T: PartialOrd> Heap<T> {
    /// Return a new heap with no items.
    pub fn new() -> (heap: Heap<T>)
        ensures
            heap@ == Seq::<T>::empty(),
    {
        Heap::default()
    }

    /// Adds an item to the heap.
    pub fn push(&mut self, item: T)
        ensures
            final(self)@ == placed(old(self)@, item, false) || final(self)@ == placed(
                old(self)@,
                item,
                true,
            ),
            T::obeys_partial_cmp_spec() ==> final(self)@ == pushed(old(self)@, item),
    {
        self.data.push(item);
        let index = self.data.len() - 1;
        if index == 0 {
            return ;
        }
        if self.data[index] < self.data[index / 2] {
            exchange(&mut self.data, index / 2, index);
        }
    }

    /// Takes the item at the end of the vector out of the heap and returns
    /// it, or returns `None` if the heap is empty.
    pub fn pop(&mut self) -> (item: Option<T>)
        ensures
            match item {
                Some(item) => old(self)@.len() > 0 && item == old(self)@.last() && final(self)@
                    == old(self)@.drop_last(),
                None => old(self)@.len() == 0 && final(self)@ == old(self)@,
            },
    {
        self.data.pop()
    }

    /// Returns a reference to the item at the start of the vector, or
    /// `None` if the heap is empty.
    pub fn peak(&self) -> (item: Option<&T>)
        ensures
            match item {
                Some(item) => self@.len() > 0 && *item == self@[0],
                None => self@.len() == 0,
            },
    {
        self.data.first()
    }
}

impl<T: PartialOrd> Default for Heap<T> {
    fn default() -> (heap: Self)
        ensures
            heap@ == Seq::<T>::empty(),
    {
        Heap { data: Vec::default() }
    }
}

} // verus!
