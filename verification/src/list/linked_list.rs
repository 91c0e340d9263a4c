//! A singly linked list that is passed from hand to hand.
//!
//! Every operation that changes the list takes it by value and gives the
//! changed list back, so no list is ever altered behind its owner's back.
//! Contracts are stated over the sequence of items, first item first.

use vstd::prelude::*;

verus! {

/// A convenience type for results which are used to move ownership back to
/// the caller in the case of an error.
///
/// A simple example of this is the remove function which when called with an
/// index that is out of bounds returns `Err(list)` with the list as it was, thus transferring
/// ownership. This allows for chaining functions, while still allowing to
/// recover from errors easily.
pub type MoveResult<T, U> = Result<T, LinkedList<U>>;

/// A simple recursively defined linked list enumeration type.
///
/// This implementation of a linked list is purely for the purpose of learning,
/// and as reference of the details of a recursive type. You probably shouldn't
/// use this data structure in real world applications.
#[derive(Debug, PartialEq, Eq, Hash, PartialOrd, Ord)]
pub enum LinkedList<T> {
    Cons(T, Box<LinkedList<T>>),
    Nil,
}

/// Iterator for lists by reference.
pub struct Iter<'a, T: 'a> {
    current: &'a LinkedList<T>,
}

/// Iterator for lists by value.
pub struct IntoIter<T> {
    current: LinkedList<T>,
}

impl<T> LinkedList<T> {
    /// The items of the list, first item first.
    pub open spec fn items(self) -> Seq<T>
        decreases self,
    {
        match self {
            LinkedList::Cons(item, rest) => seq![item] + rest.items(),
            LinkedList::Nil => Seq::empty(),
        }
    }
}

impl<T> View for LinkedList<T> {
    type V = Seq<T>;

    open spec fn view(&self) -> Seq<T> {
        self.items()
    }
}

impl<'a, T> View for Iter<'a, T> {
    type V = Seq<T>;

    /// The items that are still to come, next item first.
    closed spec fn view(&self) -> Seq<T> {
        self.current@
    }
}

impl<T> View for IntoIter<T> {
    type V = Seq<T>;

    /// The items that are still to come, next item first.
    closed spec fn view(&self) -> Seq<T> {
        self.current@
    }
}

/// Two lists that hold the same items in the same order are the same list.
pub proof fn lemma_view_injective<T>(a: LinkedList<T>, b: LinkedList<T>)
    requires
        a@ == b@,
    ensures
        a == b,
    decreases a,
{
    match (a, b) {
        (LinkedList::Cons(x, p), LinkedList::Cons(y, q)) => {
            assert(a@[0] == x && b@[0] == y);
            assert(p@ =~= a@.drop_first());
            assert(q@ =~= b@.drop_first());
            lemma_view_injective(*p, *q);
        },
        _ => {},
    }
}

impl<T> LinkedList<T> {
    /// Return a new empty linked list. This is semantically equivalent to
    /// writing `LinkedList::Nil`.
    pub fn new() -> (list: LinkedList<T>)
        ensures
            list == LinkedList::<T>::Nil,
            list@ == Seq::<T>::empty(),
    {
        LinkedList::Nil
    }

    /// Determine if a linked list is empty.
    pub fn is_empty(&self) -> (empty: bool)
        ensures
            empty == (self@.len() == 0),
    {
        match *self {
            LinkedList::Cons(_, _) => false,
            LinkedList::Nil => true,
        }
    }

    /// Return the length of a list. This function relies on the
    /// implementation of `iter()` for creating an iterator over references
    /// to the elements.
    pub fn len(&self) -> (len: usize)
        requires
            self@.len() <= usize::MAX,
        ensures
            len == self@.len(),
    {
        let mut iter = self.iter();
        let mut count: usize = 0;
        loop
            invariant
                count + iter@.len() == self@.len(),
                self@.len() <= usize::MAX,
            ensures
                count == self@.len(),
            decreases iter@.len(),
        {
            match iter.next() {
                Some(_) => {
                    count += 1;
                },
                None => {
                    break ;
                },
            }
        }
        count
    }

    /// Add an element to the front of the list. Insert is constant time
    /// because we return the new list containing the item, and the old now
    /// moved list.
    pub fn push(self, item: T) -> (list: LinkedList<T>)
        ensures
            list@ == seq![item] + self@,
            list == LinkedList::Cons(item, Box::new(self)),
    {
        LinkedList::Cons(item, Box::new(self))
    }

    /// Return both the first and rest of a list, or `None` if called on `Nil`.
    /// Here `Nil` represents the end of the list, and contains no item. The
    /// returned values are moved, so it's important store them if they are
    /// needed later.
    pub fn pop(self) -> (popped: Option<(T, LinkedList<T>)>)
        ensures
            match popped {
                Some((item, rest)) => self@.len() > 0 && item == self@[0] && rest@
                    == self@.drop_first(),
                None => self@.len() == 0,
            },
    {
        match self {
            LinkedList::Cons(item, rest) => Some((item, *rest)),
            LinkedList::Nil => None,
        }
    }

    /// Returns the list with an item inserted at the given index. Indexing
    /// starts at zero. For example `(Cons 7 (Cons 9 (Cons 3)))` has `7` at
    /// index 0, `9` at 1, and `3` at 2. Elements in the list after the
    /// inserted item will all have an index one larger than before, but the
    /// order of these elements is maintained.
    ///
    /// This function returns a `Result` to handle the case when `index` is
    /// out of bounds. In this case, the list is returned as it was in the
    /// `Err` to allow for its continued use.
    pub fn insert(self, index: usize, item: T) -> (inserted: MoveResult<LinkedList<T>, T>)
        ensures
            match inserted {
                Ok(list) => index <= self@.len() && list@ == self@.insert(index as int, item),
                Err(list) => index > self@.len() && list == self,
            },
        decreases self,
    {
        if index == 0 {
            Ok(self.push(item))
        } else {
            match self {
                LinkedList::Cons(i, r) => {
                    match r.insert(index - 1, item) {
                        Ok(l) => Ok(LinkedList::Cons(i, Box::new(l))),
                        Err(l) => Err(LinkedList::Cons(i, Box::new(l))),
                    }
                },
                LinkedList::Nil => Err(self),
            }
        }
    }

    /// Removes an item by index in the list. Like `pop`, both the item and
    /// the rest of the list are moved and returned. Indexing starts at 0, see
    /// `insert` for an example of the indexing. Like `insert` the order of
    /// persisted elements is unchanged.
    ///
    /// This function returns a `Result` to handle the case when `index` is
    /// out of bounds. In this case, the list is returned as it was in the
    /// `Err` to allow for its continued use.
    pub fn remove(self, index: usize) -> (removed: MoveResult<(T, LinkedList<T>), T>)
        ensures
            match removed {
                Ok((item, list)) => index < self@.len() && item == self@[index as int] && list@
                    == self@.remove(index as int),
                Err(list) => index >= self@.len() && list == self,
            },
        decreases self,
    {
        match self {
            LinkedList::Cons(i, r) => {
                if index == 0 {
                    Ok((i, *r))
                } else {
                    match r.remove(index - 1) {
                        Ok((j, l)) => Ok((j, LinkedList::Cons(i, Box::new(l)))),
                        Err(l) => Err(LinkedList::Cons(i, Box::new(l))),
                    }
                }
            },
            LinkedList::Nil => Err(self),
        }
    }

    /// Creates a list from the items of a vector by pushing them one after
    /// the other, so that the last item of the vector is the first of the
    /// list.
    pub fn from_iter(iterable: Vec<T>) -> (list: LinkedList<T>)
        ensures
            list@ == iterable@.reverse(),
    {
        let mut list: LinkedList<T> = LinkedList::new();
        for item in iter: iterable
            invariant
                iter.seq() == iterable@,
                list@ == iterable@.take(iter.index() as int).reverse(),
        {
            list = list.push(item);
        }
        list
    }

    /// Returns an iterator over references to the items, first item first.
    pub fn iter(&self) -> (iter: Iter<'_, T>)
        ensures
            iter@ == self@,
    {
        Iter { current: self }
    }

    /// Turns the list into an iterator over its items, first item first.
    pub fn into_iter(self) -> (iter: IntoIter<T>)
        ensures
            iter@ == self@,
    {
        IntoIter { current: self }
    }
}

impl<T: Clone> Clone for LinkedList<T> {
    /// Clones the items one by one, keeping their order.
    fn clone(&self) -> (copy: Self)
        ensures
            copy@.len() == self@.len(),
            forall|i: int| 0 <= i < self@.len() ==> cloned::<T>(#[trigger] self@[i], copy@[i]),
        decreases self,
    {
        match self {
            LinkedList::Cons(item, rest) => {
                let tail = (&**rest).clone();
                LinkedList::Cons(item.clone(), Box::new(tail))
            },
            LinkedList::Nil => LinkedList::Nil,
        }
    }
}

impl<'a, T> Iter<'a, T> {
    /// Steps to the next item and returns a reference to it, or returns
    /// `None` once the end of the list is reached.
    pub fn next(&mut self) -> (item: Option<&'a T>)
        ensures
            match item {
                Some(item) => old(self)@.len() > 0 && *item == old(self)@[0] && final(self)@
                    == old(self)@.drop_first(),
                None => old(self)@.len() == 0 && final(self)@ == old(self)@,
            },
    {
        match self.current {
            LinkedList::Cons(val, next) => {
                self.current = next;
                Some(val)
            },
            LinkedList::Nil => None,
        }
    }
}

impl<T> IntoIter<T> {
    /// Steps to the next item and returns it, or returns `None` once the
    /// end of the list is reached.
    pub fn next(&mut self) -> (item: Option<T>)
        ensures
            match item {
                Some(item) => old(self)@.len() > 0 && item == old(self)@[0] && final(self)@
                    == old(self)@.drop_first(),
                None => old(self)@.len() == 0 && final(self)@ == old(self)@,
            },
    {
        let mut current = LinkedList::Nil;
        std::mem::swap(&mut current, &mut self.current);
        match current.pop() {
            Some((item, rest)) => {
                self.current = rest;
                Some(item)
            },
            None => None,
        }
    }
}

} // verus!
