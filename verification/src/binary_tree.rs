//! A binary tree that keeps its items in search order.
//!
//! A tree is passed from hand to hand: every operation that changes it takes
//! the tree by value and gives the changed tree back. An item that is greater
//! than the item of a node goes to the right of that node, every other item
//! to its left.
//!
//! How two items compare is up to `T`. What a contract says of the shape of
//! a tree holds for every `T` whose `==` and `>` compute what `eq_spec` and
//! `partial_cmp_spec` say; what it says of the items that a tree holds is
//! true of every `T`.

use std::ops::Add;
use vstd::multiset::Multiset;
use vstd::prelude::*;
use vstd::std_specs::cmp::{PartialEqSpec, PartialOrdIs, PartialOrdSpec};

verus! {

/// A tree of items, each node with the trees to its left and to its right.
#[derive(Debug, PartialEq, Eq, Hash, PartialOrd, Ord)]
pub enum BinaryTree<T: PartialEq + PartialOrd + Copy> {
    Node(T, Box<BinaryTree<T>>, Box<BinaryTree<T>>),
    Leaf,
}

impl<T: PartialEq + PartialOrd + Copy> BinaryTree<T> {
    /// The items of the tree, each as often as the tree holds it.
    pub open spec fn contents(self) -> Multiset<T>
        decreases self,
    {
        match self {
            BinaryTree::Node(i, l, r) => l.contents().add(r.contents()).insert(i),
            BinaryTree::Leaf => Multiset::empty(),
        }
    }

    /// At every node, no item to its left is greater than the node's item,
    /// and every item to its right is.
    pub open spec fn is_search_tree(self) -> bool
        decreases self,
    {
        match self {
            BinaryTree::Node(i, l, r) => {
                &&& l.is_search_tree()
                &&& r.is_search_tree()
                &&& forall|x: T| #[trigger] l.contents().contains(x) ==> !x.is_gt(&i)
                &&& forall|x: T| #[trigger] r.contents().contains(x) ==> x.is_gt(&i)
            },
            BinaryTree::Leaf => true,
        }
    }

    /// The tree after `item` is pushed: `item` goes down to the right of
    /// every node whose item it is greater than, to the left of every other,
    /// and takes the place of the leaf that it reaches.
    pub open spec fn pushed(self, item: T) -> Self
        decreases self,
    {
        match self {
            BinaryTree::Node(i, l, r) => {
                if item.is_gt(&i) {
                    BinaryTree::Node(i, l, Box::new(r.pushed(item)))
                } else {
                    BinaryTree::Node(i, Box::new(l.pushed(item)), r)
                }
            },
            BinaryTree::Leaf => BinaryTree::Node(
                item,
                Box::new(BinaryTree::Leaf),
                Box::new(BinaryTree::Leaf),
            ),
        }
    }

    /// What removing `item` yields: the search goes down as a push does and
    /// stops at the first node whose item equals `item`. That node leaves
    /// the tree together with what is to its right, and the tree to its left
    /// takes its place. `None` if the search reaches a leaf.
    pub open spec fn removed(self, item: T) -> Option<(T, Self)>
        decreases self,
    {
        match self {
            BinaryTree::Node(i, l, r) => {
                if item.eq_spec(&i) {
                    Some((i, *l))
                } else if item.is_gt(&i) {
                    match r.removed(item) {
                        Some((found, right)) => Some((found, BinaryTree::Node(i, l, Box::new(right)))),
                        None => None,
                    }
                } else {
                    match l.removed(item) {
                        Some((found, left)) => Some((found, BinaryTree::Node(i, Box::new(left), r))),
                        None => None,
                    }
                }
            },
            BinaryTree::Leaf => None,
        }
    }

    /// Return a new tree with no items.
    pub fn new() -> (tree: BinaryTree<T>)
        ensures
            tree == BinaryTree::<T>::Leaf,
    {
        BinaryTree::Leaf
    }

    /// Returns the tree with `item` added in search order.
    pub fn push(self, item: T) -> (tree: BinaryTree<T>)
        ensures
            tree.contents() == self.contents().insert(item),
            T::obeys_partial_cmp_spec() ==> tree == self.pushed(item),
        decreases self,
    {
        match self {
            BinaryTree::Node(i, l, r) => {
                if item > i {
                    BinaryTree::Node(i, l, Box::new(r.push(item)))
                } else {
                    BinaryTree::Node(i, Box::new(l.push(item)), r)
                }
            },
            BinaryTree::Leaf => {
                BinaryTree::Node(item, Box::new(self), Box::new(BinaryTree::Leaf))
            },
        }
    }

    /// Searches for an item equal to `item` and takes it out of the tree.
    /// Returns the item found and the tree that is left, or `None` if the
    /// search finds no such item.
    ///
    /// The tree to the right of the item found leaves the tree with it; see
    /// [`BinaryTree::removed`].
    pub fn remove(self, item: T) -> (found: Option<(T, Self)>)
        ensures
            found matches Some((taken, rest)) ==> self.contents().contains(taken)
                && rest.contents().insert(taken).subset_of(self.contents()),
            T::obeys_eq_spec() && T::obeys_partial_cmp_spec() ==> found == self.removed(item),
        decreases self,
    {
        match self {
            BinaryTree::Node(i, l, r) => {
                if item == i {
                    Some((i, *l + *r))
                } else if item > i {
                    match r.remove(item) {
                        Some((removed, right)) => Some(
                            (removed, BinaryTree::Node(i, l, Box::new(right))),
                        ),
                        None => None,
                    }
                } else {
                    match l.remove(item) {
                        Some((removed, left)) => Some(
                            (removed, BinaryTree::Node(i, Box::new(left), r)),
                        ),
                        None => None,
                    }
                }
            },
            BinaryTree::Leaf => None,
        }
    }
}

/// Pushing adds the item to what the tree holds and nothing else, and a
/// tree whose items are in search order stays in search order.
pub proof fn lemma_pushed<T: PartialEq + PartialOrd + Copy>(tree: BinaryTree<T>, item: T)
    ensures
        tree.pushed(item).contents() == tree.contents().insert(item),
        tree.is_search_tree() ==> tree.pushed(item).is_search_tree(),
    decreases tree,
{
    match tree {
        BinaryTree::Node(i, l, r) => {
            if item.is_gt(&i) {
                let right = r.pushed(item);
                lemma_pushed(*r, item);
                if tree.is_search_tree() {
                    assert forall|x: T| #[trigger] right.contents().contains(x) implies x.is_gt(
                        &i,
                    ) by {
                        assert(x == item || r.contents().contains(x));
                    }
                }
            } else {
                let left = l.pushed(item);
                lemma_pushed(*l, item);
                if tree.is_search_tree() {
                    assert forall|x: T| #[trigger] left.contents().contains(x) implies !x.is_gt(
                        &i,
                    ) by {
                        assert(x == item || l.contents().contains(x));
                    }
                }
            }
        },
        BinaryTree::Leaf => {},
    }
}

/// Whatever a removal finds equals the item asked for and was in the tree.
/// The tree that is left holds nothing that the tree did not hold, and is
/// in search order if the tree was.
pub proof fn lemma_removed<T: PartialEq + PartialOrd + Copy>(tree: BinaryTree<T>, item: T)
    ensures
        match tree.removed(item) {
            Some((found, rest)) => {
                &&& item.eq_spec(&found)
                &&& tree.contents().contains(found)
                &&& rest.contents().insert(found).subset_of(tree.contents())
                &&& tree.is_search_tree() ==> rest.is_search_tree()
            },
            None => true,
        },
    decreases tree,
{
    match tree {
        BinaryTree::Node(i, l, r) => {
            if item.eq_spec(&i) {
            } else if item.is_gt(&i) {
                lemma_removed(*r, item);
                match r.removed(item) {
                    Some((found, right)) => {
                        if tree.is_search_tree() {
                            assert forall|x: T| #[trigger]
                                right.contents().contains(x) implies x.is_gt(&i) by {
                                assert(r.contents().contains(x));
                            }
                        }
                    },
                    None => {},
                }
            } else {
                lemma_removed(*l, item);
                match l.removed(item) {
                    Some((found, left)) => {
                        if tree.is_search_tree() {
                            assert forall|x: T| #[trigger]
                                left.contents().contains(x) implies !x.is_gt(&i) by {
                                assert(l.contents().contains(x));
                            }
                        }
                    },
                    None => {},
                }
            }
        },
        BinaryTree::Leaf => {},
    }
}

impl<T: PartialEq + PartialOrd + Copy> Clone for BinaryTree<T> {
    fn clone(&self) -> (copy: Self)
        ensures
            copy == *self,
        decreases self,
    {
        match self {
            BinaryTree::Node(i, l, r) => {
                let left = (&**l).clone();
                let right = (&**r).clone();
                BinaryTree::Node(*i, Box::new(left), Box::new(right))
            },
            BinaryTree::Leaf => BinaryTree::Leaf,
        }
    }
}

impl<T: PartialEq + PartialOrd + Copy> Default for BinaryTree<T> {
    fn default() -> (tree: Self)
        ensures
            tree == BinaryTree::<T>::Leaf,
    {
        BinaryTree::Leaf
    }
}

impl<T: PartialEq + PartialOrd + Copy> Add for BinaryTree<T> {
    type Output = BinaryTree<T>;

    /// Keeps the tree on the left and drops the one on the right.
    fn add(self, _rhs: BinaryTree<T>) -> (tree: BinaryTree<T>) {
        self
    }
}

impl<T: PartialEq + PartialOrd + Copy> vstd::std_specs::ops::AddSpecImpl for BinaryTree<T> {
    open spec fn obeys_add_spec() -> bool {
        true
    }

    open spec fn add_req(self, rhs: BinaryTree<T>) -> bool {
        true
    }

    open spec fn add_spec(self, rhs: BinaryTree<T>) -> BinaryTree<T> {
        self
    }
}

} // verus!
