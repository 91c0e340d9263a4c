//! Lists are ordered sequences of values, which can be iterated over.
//!
//! Within the context of a type system lists may be all of one type, or of
//! many types. The list of this module holds items of one type; the same
//! list under its longer name lives in [`linked_list`].
//!
//! Every operation that changes a list takes it by value and gives the
//! changed list back. Contracts are stated over the sequence of items,
//! first item first.

pub use self::linked_list::LinkedList;

/// A list whose every change hands back a new list.
pub mod linked_list;

use vstd::prelude::*;

verus! {

/// A List<T> is conceptually one of: `Cons<T, List<T>>`, or `Nil`.
///
/// This implementation of a linked list is purely for the purpose of learning,
/// and as reference of the details of a recursive type. You probably shouldn't
/// use this data structure in real world applications.
#[derive(Debug, PartialEq, Eq, Hash, PartialOrd, Ord)]
pub enum List<T> {
    Cons(T, Box<List<T>>),
    Nil,
}

/// Iterator for lists by reference.
pub struct Iter<'a, T: 'a> {
    current: &'a List<T>,
}

/// Iterator for lists by value.
pub struct IntoIter<T> {
    current: List<T>,
}

impl<T> List<T> {
    /// The items of the list, first item first.
    pub open spec fn items(self) -> Seq<T>
        decreases self,
    {
        match self {
            List::Cons(item, rest) => seq![item] + rest.items(),
            List::Nil => Seq::empty(),
        }
    }
}

impl<T> View for List<T> {
    type V = Seq<T>;

    open spec fn view(&self) -> Seq<T> {
        self.items()
    }
}

impl<'a, T> View for Iter<'a, T> {
    type V = Seq<T>;

    /// The items that are still to come, next item first.
    closed spec fn view(&self) -> Seq<T> {
        self.current@
    }
}

impl<T> View for IntoIter<T> {
    type V = Seq<T>;

    /// The items that are still to come, next item first.
    closed spec fn view(&self) -> Seq<T> {
        self.current@
    }
}

/// Two lists that hold the same items in the same order are the same list.
pub proof fn lemma_view_injective<T>(a: List<T>, b: List<T>)
    requires
        a@ == b@,
    ensures
        a == b,
    decreases a,
{
    match (a, b) {
        (List::Cons(x, p), List::Cons(y, q)) => {
            assert(a@[0] == x && b@[0] == y);
            assert(p@ =~= a@.drop_first());
            assert(q@ =~= b@.drop_first());
            lemma_view_injective(*p, *q);
        },
        _ => {},
    }
}

impl<T> List<T> {
    /// Return a new empty list. This is semantically equivalent to
    /// writing `List::Nil`.
    pub fn new() -> (list: List<T>)
        ensures
            list == List::<T>::Nil,
            list@ == Seq::<T>::empty(),
    {
        List::Nil
    }

    /// Determine if a linked list is empty.
    pub fn is_empty(&self) -> (empty: bool)
        ensures
            empty == (self@.len() == 0),
    {
        match *self {
            List::Cons(_, _) => false,
            List::Nil => true,
        }
    }

    /// Return the length of a list. This function relies on the
    /// implementation of `iter()` for creating an iterator over references
    /// to the elements.
    pub fn len(&self) -> (len: usize)
        requires
            self@.len() <= usize::MAX,
        ensures
            len == self@.len(),
    {
        let mut iter = self.iter();
        let mut count: usize = 0;
        loop
            invariant
                count + iter@.len() == self@.len(),
                self@.len() <= usize::MAX,
            ensures
                count == self@.len(),
            decreases iter@.len(),
        {
            match iter.next() {
                Some(_) => {
                    count += 1;
                },
                None => {
                    break ;
                },
            }
        }
        count
    }

    /// Add an element to the front of the list. Insert is constant time
    /// because we return the new list containing the item, and the old now
    /// moved list.
    pub fn push(self, item: T) -> (list: List<T>)
        ensures
            list@ == seq![item] + self@,
            list == List::Cons(item, Box::new(self)),
    {
        List::Cons(item, Box::new(self))
    }

    /// Return both the first and rest of a list, or `None` if called on `Nil`.
    /// Here `Nil` represents the end of the list, and contains no item. The
    /// returned values are moved, so it's important store them if they are
    /// needed later.
    pub fn pop(self) -> (popped: Option<(T, List<T>)>)
        ensures
            match popped {
                Some((item, rest)) => self@.len() > 0 && item == self@[0] && rest@
                    == self@.drop_first(),
                None => self@.len() == 0,
            },
    {
        match self {
            List::Cons(item, rest) => Some((item, *rest)),
            List::Nil => None,
        }
    }

    /// Returns the list with an item inserted at the given index. Indexing
    /// starts at zero. For example `(Cons 7 (Cons 9 (Cons 3)))` has `7` at
    /// index 0, `9` at 1, and `3` at 2. Elements in the list after the
    /// inserted item will all have an index one larger than before, but the
    /// order of these elements is maintained.
    ///
    /// This function returns a `Result` to handle the case when `index` is
    /// out of bounds. In this case, the list is returned as it was in the
    /// `Err` to allow for its continued use.
    pub fn insert(self, index: usize, item: T) -> (inserted: Result<List<T>, List<T>>)
        ensures
            match inserted {
                Ok(list) => index <= self@.len() && list@ == self@.insert(index as int, item),
                Err(list) => index > self@.len() && list == self,
            },
        decreases self,
    {
        if index == 0 {
            Ok(self.push(item))
        } else {
            match self {
                List::Cons(i, r) => {
                    match r.insert(index - 1, item) {
                        Ok(l) => Ok(List::Cons(i, Box::new(l))),
                        Err(l) => Err(List::Cons(i, Box::new(l))),
                    }
                },
                List::Nil => Err(self),
            }
        }
    }

    /// Removes an item by index in the list. Like `pop`, both the item and
    /// the rest of the list are moved and returned. Indexing starts at 0, see
    /// `insert` for an example of the indexing. Like `insert` the order of
    /// persisted elements is unchanged.
    ///
    /// This function returns a `Result` to handle the case when `index` is
    /// out of bounds. In this case, the list is returned as it was in the
    /// `Err` to allow for its continued use.
    pub fn remove(self, index: usize) -> (removed: Result<(T, List<T>), List<T>>)
        ensures
            match removed {
                Ok((item, list)) => index < self@.len() && item == self@[index as int] && list@
                    == self@.remove(index as int),
                Err(list) => index >= self@.len() && list == self,
            },
        decreases self,
    {
        match self {
            List::Cons(i, r) => {
                if index == 0 {
                    Ok((i, *r))
                } else {
                    match r.remove(index - 1) {
                        Ok((j, l)) => Ok((j, List::Cons(i, Box::new(l)))),
                        Err(l) => Err(List::Cons(i, Box::new(l))),
                    }
                }
            },
            List::Nil => Err(self),
        }
    }

    /// Creates a list from the items of a vector by pushing them one after
    /// the other, so that the last item of the vector is the first of the
    /// list.
    pub fn from_iter(iterable: Vec<T>) -> (list: List<T>)
        ensures
            list@ == iterable@.reverse(),
    {
        let mut list: List<T> = List::new();
        for item in iter: iterable
            invariant
                iter.seq() == iterable@,
                list@ == iterable@.take(iter.index() as int).reverse(),
        {
            list = list.push(item);
        }
        list
    }

    /// Returns an iterator over references to the items, first item first.
    pub fn iter(&self) -> (iter: Iter<'_, T>)
        ensures
            iter@ == self@,
    {
        Iter { current: self }
    }

    /// Turns the list into an iterator over its items, first item first.
    pub fn into_iter(self) -> (iter: IntoIter<T>)
        ensures
            iter@ == self@,
    {
        IntoIter { current: self }
    }
}

impl<T: Clone> Clone for List<T> {
    /// Clones the items one by one, keeping their order.
    fn clone(&self) -> (copy: Self)
        ensures
            copy@.len() == self@.len(),
            forall|i: int| 0 <= i < self@.len() ==> cloned::<T>(#[trigger] self@[i], copy@[i]),
        decreases self,
    {
        match self {
            List::Cons(item, rest) => {
                let tail = (&**rest).clone();
                List::Cons(item.clone(), Box::new(tail))
            },
            List::Nil => List::Nil,
        }
    }
}

impl<'a, T> Iter<'a, T> {
    /// Steps to the next item and returns a reference to it, or returns
    /// `None` once the end of the list is reached.
    pub fn next(&mut self) -> (item: Option<&'a T>)
        ensures
            match item {
                Some(item) => old(self)@.len() > 0 && *item == old(self)@[0] && final(self)@
                    == old(self)@.drop_first(),
                None => old(self)@.len() == 0 && final(self)@ == old(self)@,
            },
    {
        match self.current {
            List::Cons(val, next) => {
                self.current = next;
                Some(val)
            },
            List::Nil => None,
        }
    }
}

impl<T> IntoIter<T> {
    /// Steps to the next item and returns it, or returns `None` once the
    /// end of the list is reached.
    pub fn next(&mut self) -> (item: Option<T>)
        ensures
            match item {
                Some(item) => old(self)@.len() > 0 && item == old(self)@[0] && final(self)@
                    == old(self)@.drop_first(),
                None => old(self)@.len() == 0 && final(self)@ == old(self)@,
            },
    {
        let mut current = List::Nil;
        std::mem::swap(&mut current, &mut self.current);
        match current.pop() {
            Some((item, rest)) => {
                self.current = rest;
                Some(item)
            },
            None => None,
        }
    }
}

} // verus!
