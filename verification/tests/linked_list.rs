#![allow(non_snake_case)]

use structures::list::linked_list::LinkedList;

fn drain_linked_list<T>(list: LinkedList<T>) -> Vec<T> {
    let mut iter = list.into_iter();
    let mut items = Vec::new();
    while let Some(item) = iter.next() {
        items.push(item);
    }
    items
}

#[test]
fn linked_list_List_new() {
    let new_list: LinkedList<u32> = LinkedList::new();
    let list = LinkedList::Nil;
    assert_eq!(new_list, list);
}

#[test]
fn linked_list_List_is_empty() {
    let is_empty_list = LinkedList::new();
    assert!(is_empty_list.is_empty());
    let is_empty_list = is_empty_list.push(1);
    assert!(!is_empty_list.is_empty());
}

#[test]
fn linked_list_List_len() {
    let len_list = LinkedList::new().push(1).push(2).push(3);
    assert_eq!(len_list.len(), 3);
}

#[test]
fn linked_list_List_push() {
    let push_list = LinkedList::new().push(1).push(2);
    let list = LinkedList::Cons(2, Box::new(LinkedList::Cons(1, Box::new(LinkedList::Nil))));
    assert_eq!(push_list, list);
}

#[test]
fn linked_list_List_pop() {
    let (item, pop_list) = LinkedList::new().push(1).push(2).pop().unwrap();
    let list = LinkedList::Cons(1, Box::new(LinkedList::Nil));
    assert_eq!(item, 2);
    assert_eq!(pop_list, list);
}

#[test]
fn linked_list_List_insert_in_bounds() {
    let list = LinkedList::new().push(4).push(3).push(1).insert(1, 2).unwrap();
    assert_eq!(drain_linked_list(list), vec![1, 2, 3, 4]);
}

#[test]
fn linked_list_List_insert_at_bounds() {
    let list = LinkedList::new().push(2).insert(1, 12).unwrap();
    assert_eq!(list, LinkedList::new().push(12).push(2));
}

#[test]
fn linked_list_List_insert_out_of_bounds() {
    let list = LinkedList::new().push(2).insert(2, 12).unwrap_err();
    assert_eq!(list, LinkedList::new().push(2));
}

#[test]
fn linked_list_List_remove_in_bounds() {
    let (item, list) = LinkedList::new().push(4).push(3).push(2)
                                  .push(1).remove(1).unwrap();
    assert_eq!(item, 2);
    assert_eq!(drain_linked_list(list), vec![1, 3, 4]);
}

#[test]
fn linked_list_List_remove_at_bounds() {
    let (item, list) = LinkedList::new().push(4).push(3).push(2)
                                  .push(1).remove(3).unwrap();
    assert_eq!(item, 4);
    assert_eq!(drain_linked_list(list), vec![1, 2, 3]);
}

#[test]
fn linked_list_List_remove_out_of_bounds() {
    let list = LinkedList::new().push(2).remove(1).unwrap_err();
    assert_eq!(list, LinkedList::new().push(2));
}

#[test]
fn linked_list_List_append() {}

#[test]
fn linked_list_Iter() {
    let list: LinkedList<u32> = LinkedList::new().push(1).push(2).push(3);
    let mut iter = list.iter();
    while let Some(i) = iter.next() {
        assert!((1 <= *i) && (*i <= 3));
    }
}

#[test]
fn linked_list_IntoIter() {
    let list: LinkedList<u32> = LinkedList::new().push(1).push(2).push(3);
    assert_eq!(drain_linked_list(list), vec![3, 2, 1]);
}

#[test]
fn linked_list_iter_yields_every_item_in_order() {
    let list: LinkedList<u32> = LinkedList::new().push(1).push(2).push(3);
    let mut iter = list.iter();
    assert_eq!(iter.next(), Some(&3));
    assert_eq!(iter.next(), Some(&2));
    assert_eq!(iter.next(), Some(&1));
    assert_eq!(iter.next(), None);
    assert_eq!(iter.next(), None);
    assert_eq!(list.len(), 3);
}

#[test]
fn linked_list_into_iter_of_empty_list_ends_at_once() {
    let list: LinkedList<u32> = LinkedList::new();
    let mut iter = list.into_iter();
    assert_eq!(iter.next(), None);
}

#[test]
fn linked_list_len_of_empty_list_is_zero() {
    let list: LinkedList<u8> = LinkedList::new();
    assert_eq!(list.len(), 0);
}

#[test]
fn linked_list_pop_of_empty_list_is_none() {
    let list: LinkedList<u8> = LinkedList::new();
    assert_eq!(list.pop(), None);
}

#[test]
fn linked_list_insert_at_front_is_push() {
    let list = LinkedList::new().push(2).push(1).insert(0, 0).unwrap();
    assert_eq!(list, LinkedList::new().push(2).push(1).push(0));
}

#[test]
fn linked_list_insert_into_empty_list() {
    let list = LinkedList::new().insert(0, 7).unwrap();
    assert_eq!(list, LinkedList::new().push(7));
    let list: LinkedList<i32> = LinkedList::new().insert(1, 7).unwrap_err();
    assert_eq!(list, LinkedList::Nil);
}

#[test]
fn linked_list_remove_first_is_pop() {
    let (item, list) = LinkedList::new().push(2).push(1).remove(0).unwrap();
    assert_eq!(item, 1);
    assert_eq!(list, LinkedList::new().push(2));
}

#[test]
fn linked_list_remove_from_empty_list() {
    let list: LinkedList<i32> = LinkedList::new().remove(0).unwrap_err();
    assert_eq!(list, LinkedList::Nil);
}

#[test]
fn linked_list_insert_then_remove_gives_the_list_back() {
    let list = LinkedList::new().push(3).push(2).push(1);
    let list = list.insert(2, 42).unwrap();
    assert_eq!(drain_linked_list(list.clone()), vec![1, 2, 42, 3]);
    let (item, list) = list.remove(2).unwrap();
    assert_eq!(item, 42);
    assert_eq!(list, LinkedList::new().push(3).push(2).push(1));
}

#[test]
fn linked_list_from_iter_pushes_in_turn() {
    let list = LinkedList::from_iter(vec![0, 1, 2, 3]);
    assert_eq!(list, LinkedList::new().push(0).push(1).push(2).push(3));
    assert_eq!(drain_linked_list(list), vec![3, 2, 1, 0]);
    let empty: LinkedList<u8> = LinkedList::from_iter(Vec::new());
    assert_eq!(empty, LinkedList::Nil);
}

#[test]
fn linked_list_clone_is_equal() {
    let list = LinkedList::new().push("bye").push("hi");
    let copy = list.clone();
    assert_eq!(copy, list);
    let (first, rest) = list.pop().unwrap();
    assert_eq!(first, "hi");
    assert_eq!(rest, LinkedList::new().push("bye"));
    assert_eq!(copy.len(), 2);
}
